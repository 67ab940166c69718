[package]
name = "recap-bot"
version = "0.1.0"
edition = "2021"
publish = false

[dependencies]
axum = { version = "=0.8.9", default-features = false, features = ["tokio", "http1"] }
chrono = { version = "=0.4.45", default-features = false, features = ["std"] }
dotenv = "=0.15.0"
dptree = "=0.5.1"
envy = "=0.4.2"
log = "=0.4.35"
metrics = "=0.24.6"
metrics-exporter-prometheus = { version = "=0.18.3", default-features = false }
pretty_env_logger = "=0.5.0"
redis = { version = "=1.8.1", default-features = false, features = ["aio", "tokio-comp", "connection-manager"] }
reqwest = { version = "=0.12.28", default-features = false, features = ["json"] }
serde = { version = "=1.0.229", features = ["derive"] }
serde_json = "=1.0.154"
sqlx = { version = "=0.9.0", default-features = false, features = ["runtime-tokio", "postgres", "chrono", "migrate"] }
takecell = "<0.1.2"
teloxide = { version = "=0.17.0", default-features = false, features = ["macros"] }
thiserror = "=2.0.21"
tokio = { version = "=1.54.1", features = ["rt-multi-thread", "macros", "signal", "net", "time", "sync"] }
tokio-util = "=0.7.20"
