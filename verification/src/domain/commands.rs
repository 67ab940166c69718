use vstd::prelude::*;

verus! {

/// The bot's commands.
#[derive(Clone, Debug, PartialEq, Eq)]
pub enum Command {
    /// Show help
    Help,
    /// Summarize last N messages. Usage: /recap 100, max: 100
    Recap(String),
    /// Show top 10 active users
    TopMembers,
    /// User recap. Usage: /user-recap @username
    UserRecap(String),
}

} // verus!
