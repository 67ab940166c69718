use vstd::prelude::*;

verus! {

/// A stored chat message with its author. `created_at` is a Unix time in
/// seconds (UTC).
#[derive(Debug, Clone, PartialEq, Eq)]
pub struct StoredMessage {
    pub user_id: i64,
    pub username: Option<String>,
    pub first_name: String,
    pub text: Option<String>,
    pub created_at: i64,
}

/// A stored message of a known user. `created_at` is a Unix time in seconds
/// (UTC).
#[derive(Debug, Clone, PartialEq, Eq)]
pub struct StoredUserMessage {
    pub text: String,
    pub created_at: i64,
}

} // verus!
