use vstd::prelude::*;

use crate::formatters::ai_summary::{format_messages_for_llm, llm_transcript};
use crate::repositories::messages::StoredMessage;
use crate::text::{nat_decimal, u64_to_decimal};

verus! {

/// The text of an optional string, empty when there is none.
pub open spec fn text_or_empty(s: Option<&str>) -> Seq<char> {
    match s {
        Some(t) => t@,
        None => Seq::<char>::empty(),
    }
}

/// The prompt for a reply to a user: the transcript of the recent messages
/// under a header with their number, a blank line, then either the bot's
/// previous message and the user's reply to it, or the user's mention of the
/// bot, quoted.
pub open spec fn user_prompt(
    messages: Seq<StoredMessage>,
    text: Option<&str>,
    username: &str,
    previous_msg: Option<&str>,
) -> Seq<char> {
    let context = "=== Context with last "@ + nat_decimal(messages.len()) + " messages ===\n\n "@
        + llm_transcript(messages);
    let interaction = match previous_msg {
        Some(prev) => "Your previous message: \""@ + prev@ + "\"\n\n"@ + username@
            + " replied to it: \""@ + text_or_empty(text) + "\""@,
        None => username@ + " mentioned you: \""@ + text_or_empty(text) + "\""@,
    };
    context + "\n\n"@ + interaction
}

/// When the user replies to the bot, the prompt ends with the user's name,
/// ` replied to it: ` and the text of the reply in double quotes.
pub proof fn lemma_reply_prompt_quotes_text(
    messages: Seq<StoredMessage>,
    text: &str,
    username: &str,
    previous_msg: &str,
)
    ensures
        ({
            let p = user_prompt(messages, Some(text), username, Some(previous_msg));
            let tail = username@ + " replied to it: \""@ + text@ + "\""@;
            p.len() >= tail.len() && p.subrange(p.len() - tail.len(), p.len() as int) == tail
        }),
{
    let p = user_prompt(messages, Some(text), username, Some(previous_msg));
    let tail = username@ + " replied to it: \""@ + text@ + "\""@;
    let head = "=== Context with last "@ + nat_decimal(messages.len()) + " messages ===\n\n "@
        + llm_transcript(messages) + "\n\n"@ + "Your previous message: \""@ + previous_msg@
        + "\"\n\n"@;
    assert(p =~= head + tail);
    assert((head + tail).subrange(head.len() as int, (head + tail).len() as int) =~= tail);
}

/// When the user mentions the bot, the prompt ends with the user's name,
/// ` mentioned you: ` and the text of the message in double quotes.
pub proof fn lemma_mention_prompt_quotes_text(
    messages: Seq<StoredMessage>,
    text: &str,
    username: &str,
)
    ensures
        ({
            let p = user_prompt(messages, Some(text), username, None);
            let tail = username@ + " mentioned you: \""@ + text@ + "\""@;
            p.len() >= tail.len() && p.subrange(p.len() - tail.len(), p.len() as int) == tail
        }),
{
    let p = user_prompt(messages, Some(text), username, None);
    let tail = username@ + " mentioned you: \""@ + text@ + "\""@;
    let head = "=== Context with last "@ + nat_decimal(messages.len()) + " messages ===\n\n "@
        + llm_transcript(messages) + "\n\n"@;
    assert(p =~= head + tail);
    assert((head + tail).subrange(head.len() as int, (head + tail).len() as int) =~= tail);
}

/// The text of the user's message stands in the prompt just before its
/// closing quote: the prompt for a message with text `t` is the prompt for a
/// message without text, with `t` put in before its last character, the
/// closing `"`.
pub proof fn lemma_prompt_inserts_text(
    messages: Seq<StoredMessage>,
    text: &str,
    username: &str,
    previous_msg: Option<&str>,
)
    ensures
        user_prompt(messages, None, username, previous_msg).len() > 0,
        user_prompt(messages, None, username, previous_msg).last() == '"',
        user_prompt(messages, Some(text), username, previous_msg) == user_prompt(
            messages,
            None,
            username,
            previous_msg,
        ).drop_last() + text@ + "\""@,
{
    reveal_strlit("\"");
    let context = "=== Context with last "@ + nat_decimal(messages.len()) + " messages ===\n\n "@
        + llm_transcript(messages);
    let lead = match previous_msg {
        Some(prev) => "Your previous message: \""@ + prev@ + "\"\n\n"@ + username@
            + " replied to it: \""@,
        None => username@ + " mentioned you: \""@,
    };
    let q = "\""@;
    let without = user_prompt(messages, None, username, previous_msg);
    assert(text_or_empty(None) == Seq::<char>::empty());
    assert(without =~= context + "\n\n"@ + lead + q);
    assert(user_prompt(messages, Some(text), username, previous_msg) =~= context + "\n\n"@ + lead
        + text@ + q);
    assert((context + "\n\n"@ + lead + q).drop_last() =~= context + "\n\n"@ + lead);
}

/// The prompt for a reply to `username`, whose message has the text `text`,
/// given the recent `messages` of the chat and the bot's previous message
/// when the user replied to it.
pub fn get_user_prompt(
    messages: &[StoredMessage],
    text: Option<&str>,
    username: &str,
    previous_msg: Option<&str>,
) -> (s: String)
    ensures
        s@ == user_prompt(messages@, text, username, previous_msg),
{
    let chat_summary = format_messages_for_llm(messages);
    let mut out = String::from_str("=== Context with last ");
    out.append(u64_to_decimal(messages.len() as u64).as_str());
    out.append(" messages ===\n\n ");
    out.append(chat_summary.as_str());
    out.append("\n\n");
    let msg_text: &str = match text {
        Some(t) => t,
        None => "",
    };
    proof {
        reveal_strlit("");
    }
    match previous_msg {
        Some(prev) => {
            out.append("Your previous message: \"");
            out.append(prev);
            out.append("\"\n\n");
            out.append(username);
            out.append(" replied to it: \"");
            out.append(msg_text);
            out.append("\"");
        },
        None => {
            out.append(username);
            out.append(" mentioned you: \"");
            out.append(msg_text);
            out.append("\"");
        },
    }
    out
}

} // verus!
