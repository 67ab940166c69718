use recap_bot::config::{default_rate_per_user, Config};
use recap_bot::domain::consts::DEFAULT_RATE_LIMIT_PER_USER;

#[test]
fn default_rate() {
    assert_eq!(default_rate_per_user(), DEFAULT_RATE_LIMIT_PER_USER);
}

#[test]
fn redacted_settings_hide_secrets() {
    let c = Config {
        database_url: "postgres://u:p@h/db".to_string(),
        redis_url: "redis://h".to_string(),
        ai_api_key: "SECRET-REDACTED".to_string(),
        ai_api_url: "https://x/v1".to_string(),
        ai_model: "m\"1".to_string(),
        rate_per_user: 10,
    };
    assert_eq!(
        c.redacted(),
        "Config { database_url: \"***\", redis_url: \"***\", ai_api_key: \"***\", ai_api_url: \"https://x/v1\", ai_model: \"m\\\"1\", rate_per_user: 10 }"
    );
}
