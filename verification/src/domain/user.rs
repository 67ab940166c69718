use vstd::prelude::*;

verus! {

/// A Telegram user, as the library reads it.
#[derive(Debug, Clone, PartialEq, Eq)]
pub struct User {
    pub id: u64,
    pub first_name: String,
    pub last_name: Option<String>,
    pub is_bot: bool,
    pub username: Option<String>,
    pub is_premium: bool,
}

} // verus!
