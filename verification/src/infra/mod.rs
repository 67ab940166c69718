pub mod rate_limiter;
