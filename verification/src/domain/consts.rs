use vstd::prelude::*;

verus! {

/// How many messages `/recap` summarizes when no count is given.
pub const DEFAULT_MSG_RECAP: usize = 50;

/// The most messages `/recap` summarizes.
pub const MAX_MSG_RECAP: usize = 100;

/// Requests per user and hour when the environment sets no limit.
pub const DEFAULT_RATE_LIMIT_PER_USER: usize = 10;

} // verus!
