use vstd::prelude::*;

use crate::formatters::ai_summary::{
    format_messages_for_llm, formatted_message, llm_line, llm_lines, llm_transcript, name_map,
};
use crate::text::join;
use crate::repositories::messages::StoredMessage;

verus! {

/// The next step of a recap.
#[derive(Debug, Clone, PartialEq, Eq)]
pub enum RecapPlan {
    /// Answer at once with this text.
    Reply(String),
    /// Ask the language model to summarize this transcript.
    AskAi(String),
}

/// The transcript of the last messages (newest first, as stored) for the
/// language model.
pub fn format_for_llm(messages: &[StoredMessage]) -> (s: String)
    ensures
        s@ == llm_transcript(messages@),
{
    format_messages_for_llm(messages)
}

/// The next step of a recap of `messages`: a notice when nothing is left to
/// summarize, else the transcript for the language model.
pub fn plan_recap(messages: &[StoredMessage]) -> (r: RecapPlan)
    ensures
        llm_transcript(messages@).len() == 0 ==> (r matches RecapPlan::Reply(t) && t@
            == "Недостаточно сообщений для саммари."@),
        llm_transcript(messages@).len() > 0 ==> (r matches RecapPlan::AskAi(t) && t@
            == llm_transcript(messages@)),
        (r is AskAi) <==> has_summarizable(messages@),
{
    proof {
        lemma_transcript_empty_iff_nothing_to_summarize(messages@);
    }
    let formatted = format_for_llm(messages);
    if formatted.as_str().is_empty() {
        return RecapPlan::Reply(String::from_str("Недостаточно сообщений для саммари."));
    }
    RecapPlan::AskAi(formatted)
}

/// `m` has a text that is neither blank nor a command.
pub open spec fn summarizable(m: StoredMessage) -> bool {
    match m.text {
        Some(t) => formatted_message(t@, m.created_at) is Some,
        None => false,
    }
}

/// Some message of `msgs` has a text that is neither blank nor a command.
pub open spec fn has_summarizable(msgs: Seq<StoredMessage>) -> bool {
    exists|i: int| 0 <= i < msgs.len() && summarizable(#[trigger] msgs[i])
}

proof fn lemma_lines_nonempty(msgs: Seq<StoredMessage>, names: Map<i64, Seq<char>>)
    ensures
        forall|j: int|
            0 <= j < llm_lines(msgs, names).len() ==> (#[trigger] llm_lines(msgs, names)[j]).len()
                > 0,
        llm_lines(msgs, names).len() > 0 <==> exists|i: int|
            0 <= i < msgs.len() && (#[trigger] llm_line(msgs[i], names)) is Some,
    decreases msgs.len(),
{
    reveal_strlit("--- ");
    if msgs.len() > 0 {
        let rest = msgs.drop_first();
        lemma_lines_nonempty(rest, names);
        if llm_line(msgs[0], names) is None {
            assert forall|i: int| 0 <= i < msgs.len() && (#[trigger] llm_line(msgs[i], names)) is Some
                implies 0 < i by {}
            if exists|i: int| 0 <= i < msgs.len() && (#[trigger] llm_line(msgs[i], names)) is Some {
                let i: int = choose|i: int|
                    0 <= i < msgs.len() && (#[trigger] llm_line(msgs[i], names)) is Some;
                assert(rest[i - 1] == msgs[i]);
            }
            if llm_lines(rest, names).len() > 0 {
                let i: int = choose|i: int|
                    0 <= i < rest.len() && (#[trigger] llm_line(rest[i], names)) is Some;
                assert(rest[i] == msgs[i + 1]);
            }
        } else {
            assert(llm_line(msgs[0], names) is Some);
        }
    }
}

proof fn lemma_join_nonempty(parts: Seq<Seq<char>>, sep: Seq<char>)
    requires
        forall|j: int| 0 <= j < parts.len() ==> (#[trigger] parts[j]).len() > 0,
    ensures
        join(parts, sep).len() == 0 <==> parts.len() == 0,
    decreases parts.len(),
{
    if parts.len() > 1 {
        assert(parts.last() == parts[parts.len() - 1]);
    } else if parts.len() == 1 {
        assert(parts[0].len() > 0);
    }
}

/// A recap asks the language model exactly when some message has a text
/// that is neither blank nor a command; otherwise the bot answers at once that
/// there is not enough to summarize.
pub proof fn lemma_transcript_empty_iff_nothing_to_summarize(msgs: Seq<StoredMessage>)
    ensures
        llm_transcript(msgs).len() == 0 <==> !has_summarizable(msgs),
{
    let names = name_map(msgs);
    lemma_lines_nonempty(msgs, names);
    lemma_join_nonempty(llm_lines(msgs, names), "\n\n"@);
    if has_summarizable(msgs) {
        let i: int = choose|i: int| 0 <= i < msgs.len() && summarizable(#[trigger] msgs[i]);
        assert(llm_line(msgs[i], names) is Some);
    }
    if exists|i: int| 0 <= i < msgs.len() && (#[trigger] llm_line(msgs[i], names)) is Some {
        let i: int = choose|i: int| 0 <= i < msgs.len() && (#[trigger] llm_line(msgs[i], names)) is Some;
        assert(summarizable(msgs[i]));
    }
}

} // verus!
