use vstd::prelude::*;

verus! {

/// The system prompts the bot sends to the language model.
#[derive(Clone, Debug, PartialEq, Eq, PartialOrd, Ord, Hash, Structural)]
pub enum Prompt {
    TopMembers,
    Recap,
    ResponseToUser,
    UserRecap,
}

impl Prompt {
    /// The name of the prompt, as it is displayed.
    pub open spec fn name(self) -> Seq<char> {
        match self {
            Prompt::Recap => "recap"@,
            Prompt::TopMembers => "top_members"@,
            Prompt::ResponseToUser => "response_to_user"@,
            Prompt::UserRecap => "user_recap"@,
        }
    }

    /// The displayed name of the prompt.
    pub fn to_string(&self) -> (s: String)
        ensures
            s@ == self.name(),
    {
        let name = match self {
            Prompt::Recap => "recap",
            Prompt::TopMembers => "top_members",
            Prompt::ResponseToUser => "response_to_user",
            Prompt::UserRecap => "user_recap",
        };
        String::from_str(name)
    }
}

} // verus!
