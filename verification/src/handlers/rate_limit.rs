use vstd::prelude::*;

verus! {

/// The reply to a user over the rate limit.
pub const REJECT_MESSAGE: &'static str = "Твой лимит превышен, так что иди нахуй... отдохни часок";

} // verus!
