use vstd::prelude::*;

use crate::text::{nat_decimal, u64_to_decimal};

verus! {

/// A request refused because its user is over the limit.
#[derive(Debug, Clone, Copy, PartialEq, Eq, Structural)]
pub struct RateLimited;

/// A limit of requests per user within a time window. The counting itself is
/// done by a key-value store that increments a per-user counter and lets it
/// expire after the window: this type says what to store and what a count
/// means.
#[derive(Debug, Clone, PartialEq, Eq)]
pub struct RateLimiter {
    pub limit: isize,
    pub window_secs: i64,
}

/// What the limiter decides once the store has answered an increment.
#[derive(Debug, PartialEq, Eq)]
pub struct CheckOutcome {
    /// Whether the counter was just created and must be given the window as
    /// its time to live.
    pub set_expiry: bool,
    /// Whether the request may go on.
    pub verdict: Result<(), RateLimited>,
}

/// The key of the counter of `user_id`.
pub open spec fn counter_key(user_id: u64) -> Seq<char> {
    "ratelimit:user:"@ + nat_decimal(user_id as nat)
}

/// What the limiter decides once the store has answered: `None` when no store
/// is connected or the increment failed (the request then goes on), else the
/// count after the increment.
pub open spec fn check_outcome(limit: isize, count: Option<isize>) -> CheckOutcome {
    match count {
        None => CheckOutcome { set_expiry: false, verdict: Ok(()) },
        Some(c) => CheckOutcome {
            set_expiry: c == 1,
            verdict: if c > limit {
                Err(RateLimited)
            } else {
                Ok(())
            },
        },
    }
}

impl RateLimiter {
    /// `limit` requests per user and window of `window_secs` seconds; both are
    /// converted as the store expects them, with `as`.
    pub fn new(limit: usize, window_secs: u64) -> (r: RateLimiter)
        ensures
            r.limit == limit as isize,
            r.window_secs == window_secs as i64,
    {
        RateLimiter { limit: limit as isize, window_secs: window_secs as i64 }
    }

    /// The key of the counter of `user_id`.
    pub fn key(user_id: u64) -> (k: String)
        ensures
            k@ == counter_key(user_id),
    {
        let mut k = String::from_str("ratelimit:user:");
        k.append(u64_to_decimal(user_id).as_str());
        k
    }

    /// What to do once the store has answered an increment (`None`: no store or
    /// a failed increment).
    pub fn after_increment(&self, count: Option<isize>) -> (r: CheckOutcome)
        ensures
            r == check_outcome(self.limit, count),
    {
        match count {
            None => CheckOutcome { set_expiry: false, verdict: Ok(()) },
            Some(c) => CheckOutcome {
                set_expiry: c == 1,
                verdict: if c > self.limit {
                    Err(RateLimited)
                } else {
                    Ok(())
                },
            },
        }
    }
}

/// Within one window the store counts the requests of a user 1, 2, 3, ...:
/// the first `limit` of them pass, and once one is refused every later one is
/// refused too.
pub proof fn lemma_refusal_lasts(limit: isize, c1: isize, c2: isize)
    requires
        c1 <= c2,
        check_outcome(limit, Some(c1)).verdict is Err,
    ensures
        check_outcome(limit, Some(c2)).verdict is Err,
{
}

/// A count passes exactly when it is within the limit; only the first count
/// of a window starts the window.
pub proof fn lemma_count_within_limit_passes(limit: isize, c: isize)
    ensures
        check_outcome(limit, Some(c)).verdict is Ok <==> c <= limit,
        check_outcome(limit, Some(c)).set_expiry <==> c == 1,
        check_outcome(limit, None).verdict is Ok,
        !check_outcome(limit, None).set_expiry,
{
}

} // verus!
