use recap_bot::infra::rate_limiter::{CheckOutcome, RateLimited, RateLimiter};

#[test]
fn counter_key() {
    assert_eq!(RateLimiter::key(42), "ratelimit:user:42");
    assert_eq!(RateLimiter::key(u64::MAX), "ratelimit:user:18446744073709551615");
}

#[test]
fn new_converts_settings() {
    let l = RateLimiter::new(10, 3600);
    assert_eq!(l.limit, 10);
    assert_eq!(l.window_secs, 3600);
}

#[test]
fn no_store_lets_requests_through() {
    let l = RateLimiter::new(1, 3600);
    assert_eq!(l.after_increment(None), CheckOutcome { set_expiry: false, verdict: Ok(()) });
}

#[test]
fn limit_passes_then_refuses() {
    let l = RateLimiter::new(3, 3600);
    assert_eq!(l.after_increment(Some(1)), CheckOutcome { set_expiry: true, verdict: Ok(()) });
    assert_eq!(l.after_increment(Some(2)), CheckOutcome { set_expiry: false, verdict: Ok(()) });
    assert_eq!(l.after_increment(Some(3)), CheckOutcome { set_expiry: false, verdict: Ok(()) });
    assert_eq!(l.after_increment(Some(4)), CheckOutcome { set_expiry: false, verdict: Err(RateLimited) });
    assert_eq!(l.after_increment(Some(50)), CheckOutcome { set_expiry: false, verdict: Err(RateLimited) });
}

#[test]
fn zero_limit_refuses_the_first_request() {
    let l = RateLimiter::new(0, 60);
    assert_eq!(l.after_increment(Some(1)), CheckOutcome { set_expiry: true, verdict: Err(RateLimited) });
}
