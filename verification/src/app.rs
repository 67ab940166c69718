use vstd::prelude::*;

use crate::domain::promts::Prompt;
use crate::errors::AppError;

verus! {

/// The bot's own identity.
#[derive(Clone)]
pub struct Bot {
    pub name: String,
    pub id: u64,
}

/// The text last registered for `prompt` among `entries`, if any.
pub open spec fn prompt_lookup(entries: Seq<(Prompt, String)>, prompt: Prompt) -> Option<Seq<char>>
    decreases entries.len(),
{
    if entries.len() == 0 {
        None
    } else if entries.last().0 == prompt {
        Some(entries.last().1@)
    } else {
        prompt_lookup(entries.drop_last(), prompt)
    }
}

/// The system prompts of the language model, by prompt.
pub struct Prompts {
    entries: Vec<(Prompt, String)>,
}

impl Prompts {
    /// The text registered for `prompt`, if any.
    pub closed spec fn lookup(&self, prompt: Prompt) -> Option<Seq<char>> {
        prompt_lookup(self.entries@, prompt)
    }

    /// No prompt registered.
    pub fn new() -> (r: Prompts)
        ensures
            forall|p: Prompt| r.lookup(p) is None,
    {
        Prompts { entries: Vec::new() }
    }

    /// Registers `text` for `prompt`, in place of any earlier text.
    pub fn insert(&mut self, prompt: Prompt, text: String)
        ensures
            final(self).lookup(prompt) == Some(text@),
            forall|p: Prompt| p != prompt ==> final(self).lookup(p) == old(self).lookup(p),
    {
        self.entries.push((prompt, text));
        proof {
            assert(self.entries@.drop_last() == old(self).entries@);
        }
    }

    /// The four system prompts: recap, top members, reply to a user, user recap.
    pub fn init_prompts(
        recap: String,
        top_members: String,
        response_to_user: String,
        user_recap: String,
    ) -> (r: Prompts)
        ensures
            r.lookup(Prompt::Recap) == Some(recap@),
            r.lookup(Prompt::TopMembers) == Some(top_members@),
            r.lookup(Prompt::ResponseToUser) == Some(response_to_user@),
            r.lookup(Prompt::UserRecap) == Some(user_recap@),
            forall|p: Prompt| #[trigger] r.lookup(p) is Some,
    {
        let mut promts = Prompts::new();
        promts.insert(Prompt::Recap, recap);
        promts.insert(Prompt::TopMembers, top_members);
        promts.insert(Prompt::ResponseToUser, response_to_user);
        promts.insert(Prompt::UserRecap, user_recap);
        assert forall|p: Prompt| #[trigger] promts.lookup(p) is Some by {
            match p {
                Prompt::Recap => {},
                Prompt::TopMembers => {},
                Prompt::ResponseToUser => {},
                Prompt::UserRecap => {},
            }
        }
        promts
    }

    /// The text registered for `prompt`, or `PromptNotFound`.
    pub fn get_promt_or_error(&self, prompt: Prompt) -> (r: Result<&str, AppError>)
        ensures
            match self.lookup(prompt) {
                Some(t) => r matches Ok(s) && s@ == t,
                None => r == Err::<&str, AppError>(AppError::PromptNotFound(prompt)),
            },
    {
        let mut i: usize = self.entries.len();
        assert(self.entries@.take(i as int) == self.entries@);
        while i > 0
            invariant
                i <= self.entries@.len(),
                prompt_lookup(self.entries@, prompt) == prompt_lookup(
                    self.entries@.take(i as int),
                    prompt,
                ),
            decreases i,
        {
            let ghost prefix = self.entries@.take(i as int);
            assert(prefix.drop_last() == self.entries@.take(i - 1));
            if self.entries[i - 1].0 == prompt {
                return Ok(self.entries[i - 1].1.as_str());
            }
            i = i - 1;
        }
        Err(AppError::PromptNotFound(prompt))
    }
}

} // verus!
