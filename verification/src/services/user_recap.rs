use vstd::prelude::*;

use crate::formatters::ai_summary::{format_message, formatted_message};
use crate::repositories::messages::StoredUserMessage;

verus! {

/// The formatted messages of `msgs`, in order, each followed by a blank line;
/// blank messages and commands are left out.
pub open spec fn user_message_blocks(msgs: Seq<StoredUserMessage>) -> Seq<char>
    decreases msgs.len(),
{
    if msgs.len() == 0 {
        seq![]
    } else {
        user_message_blocks(msgs.drop_last()) + match formatted_message(
            msgs.last().text@,
            msgs.last().created_at,
        ) {
            Some(f) => f + "\n\n"@,
            None => seq![],
        }
    }
}

/// The prompt for the recap of one user: a header with the handle, then the
/// user's messages.
pub open spec fn user_recap_prompt(username: &str, msgs: Seq<StoredUserMessage>) -> Seq<char> {
    "=== Messages from @"@ + username@ + " ===\n\n"@ + user_message_blocks(msgs)
}

/// The prompt for the recap of the user `username` (without the `@`).
pub fn format_for_llm(username: &str, messages: &[StoredUserMessage]) -> (s: String)
    ensures
        s@ == user_recap_prompt(username, messages@),
{
    let mut out = String::from_str("=== Messages from @");
    out.append(username);
    out.append(" ===\n\n");
    let ghost head = out@;
    let mut i: usize = 0;
    while i < messages.len()
        invariant
            i <= messages@.len(),
            head == "=== Messages from @"@ + username@ + " ===\n\n"@,
            out@ == head + user_message_blocks(messages@.take(i as int)),
        decreases messages@.len() - i,
    {
        let msg = &messages[i];
        assert(messages@.take(i + 1).drop_last() == messages@.take(i as int));
        match format_message(msg.text.as_str(), msg.created_at) {
            Some(f) => {
                out.append(f.as_str());
                out.append("\n\n");
            },
            None => {},
        }
        i = i + 1;
    }
    assert(messages@.take(messages@.len() as int) == messages@);
    out
}

} // verus!
