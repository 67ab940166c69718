use vstd::prelude::*;

use std::collections::HashMap;

use crate::repositories::messages::StoredMessage;
use crate::text::{i64_to_decimal, int_decimal, join, lemma_join_push, starts_with_char, str_eq, trim, trimmed};
use crate::clock::{clock_of, format_time};

verus! {

broadcast use vstd::std_specs::hash::group_hash_axioms;

/// A name that is a Telegram handle: it begins with `@`.
pub open spec fn is_handle(name: Seq<char>) -> bool {
    name.len() > 0 && name[0] == '@'
}

/// How an author is named: `@` and the username when there is one; else the
/// first name, unless it is blank or `Unknown`; else `user_` and the id.
pub open spec fn name_of(user_id: i64, username: Option<String>, first_name: Seq<char>) -> Seq<
    char,
> {
    match username {
        Some(u) => seq!['@'] + u@,
        None => if trimmed(first_name).len() > 0 && first_name != "Unknown"@ {
            first_name
        } else {
            "user_"@ + int_decimal(user_id as int)
        },
    }
}

/// How the author of `m` is named.
pub open spec fn message_display_name(m: StoredMessage) -> Seq<char> {
    name_of(m.user_id, m.username, m.first_name@)
}

/// How the author of `msg` is named.
pub fn display_name(msg: &StoredMessage) -> (s: String)
    ensures
        s@ == message_display_name(*msg),
{
    match &msg.username {
        Some(u) => {
            let mut s = String::from_str("@");
            s.append(u.as_str());
            proof {
                reveal_strlit("@");
            }
            s
        },
        None => {
            if !trim(msg.first_name.as_str()).is_empty() && !str_eq(
                msg.first_name.as_str(),
                "Unknown",
            ) {
                msg.first_name.clone()
            } else {
                let mut s = String::from_str("user_");
                s.append(i64_to_decimal(msg.user_id).as_str());
                s
            }
        },
    }
}

/// The name kept for each author after reading `msgs` in order: the first name
/// seen, until a handle is seen, which then stays.
pub open spec fn name_map(msgs: Seq<StoredMessage>) -> Map<i64, Seq<char>>
    decreases msgs.len(),
{
    if msgs.len() == 0 {
        Map::empty()
    } else {
        let prev = name_map(msgs.drop_last());
        let m = msgs.last();
        let candidate = message_display_name(m);
        if prev.contains_key(m.user_id) && (is_handle(prev[m.user_id]) || !is_handle(candidate)) {
            prev
        } else {
            prev.insert(m.user_id, candidate)
        }
    }
}

/// The name of the earliest message of `uid` in `msgs` whose name is a handle.
pub open spec fn first_handle(msgs: Seq<StoredMessage>, uid: i64) -> Option<Seq<char>>
    decreases msgs.len(),
{
    if msgs.len() == 0 {
        None
    } else {
        match first_handle(msgs.drop_last(), uid) {
            Some(h) => Some(h),
            None => {
                let candidate = message_display_name(msgs.last());
                if msgs.last().user_id == uid && is_handle(candidate) {
                    Some(candidate)
                } else {
                    None
                }
            },
        }
    }
}

/// The name of the earliest message of `uid` in `msgs`.
pub open spec fn first_name_seen(msgs: Seq<StoredMessage>, uid: i64) -> Option<Seq<char>>
    decreases msgs.len(),
{
    if msgs.len() == 0 {
        None
    } else {
        match first_name_seen(msgs.drop_last(), uid) {
            Some(n) => Some(n),
            None => if msgs.last().user_id == uid {
                Some(message_display_name(msgs.last()))
            } else {
                None
            },
        }
    }
}

/// Every author of `msgs` gets a name, and no one else: the name of their
/// earliest message that is a handle, if any, else the name of their earliest
/// message.
pub proof fn lemma_name_map_prefers_earliest_handle(msgs: Seq<StoredMessage>, uid: i64)
    ensures
        name_map(msgs).contains_key(uid) == (first_name_seen(msgs, uid) is Some),
        name_map(msgs).contains_key(uid) ==> name_map(msgs)[uid] == match first_handle(msgs, uid) {
            Some(h) => h,
            None => first_name_seen(msgs, uid).unwrap(),
        },
        first_handle(msgs, uid) is Some ==> first_name_seen(msgs, uid) is Some,
        name_map(msgs).contains_key(uid) ==> (is_handle(name_map(msgs)[uid]) <==> first_handle(
            msgs,
            uid,
        ) is Some),
    decreases msgs.len(),
{
    if msgs.len() > 0 {
        lemma_name_map_prefers_earliest_handle(msgs.drop_last(), uid);
    }
}

/// The name of each author of `messages`.
pub fn build_name_map(messages: &[StoredMessage]) -> (r: HashMap<i64, String>)
    ensures
        r@.dom() == name_map(messages@).dom(),
        forall|k: i64| #[trigger] r@.contains_key(k) ==> r@[k]@ == name_map(messages@)[k],
{
    let mut map: HashMap<i64, String> = HashMap::new();
    let mut i: usize = 0;
    while i < messages.len()
        invariant
            i <= messages@.len(),
            map@.dom() == name_map(messages@.take(i as int)).dom(),
            forall|k: i64| #[trigger]
                map@.contains_key(k) ==> map@[k]@ == name_map(messages@.take(i as int))[k],
        decreases messages@.len() - i,
    {
        let m = &messages[i];
        let candidate = display_name(m);
        let candidate_is_handle = starts_with_char(candidate.as_str(), '@');
        let keep = match map.get(&m.user_id) {
            Some(existing) => starts_with_char(existing.as_str(), '@') || !candidate_is_handle,
            None => false,
        };
        if !keep {
            map.insert(m.user_id, candidate);
        }
        assert(messages@.take(i + 1).drop_last() == messages@.take(i as int));
        i = i + 1;
    }
    assert(messages@.take(messages@.len() as int) == messages@);
    map
}

/// The text of a message for the language model: `| HH:MM ---`, a newline and
/// the trimmed text; nothing for a blank text or a command (`/...`).
pub open spec fn formatted_message(text: Seq<char>, created_at: i64) -> Option<Seq<char>> {
    let t = trimmed(text);
    if t.len() == 0 || t[0] == '/' {
        None
    } else {
        Some("| "@ + clock_of(created_at) + " ---\n"@ + t)
    }
}

/// The text of a message for the language model, or `None` for a blank text or
/// a command.
pub fn format_message(text: &str, created_at: i64) -> (r: Option<String>)
    ensures
        r matches Some(s) ==> formatted_message(text@, created_at) == Some(s@),
        r is None ==> formatted_message(text@, created_at) is None,
{
    let trimmed_text = trim(text);
    if trimmed_text.is_empty() || starts_with_char(trimmed_text, '/') {
        return None;
    }
    let mut s = String::from_str("| ");
    s.append(format_time(created_at).as_str());
    s.append(" ---\n");
    s.append(trimmed_text);
    Some(s)
}

/// The line of `m` in the transcript, named after `names`: `--- `, the name
/// (`user` when it has none), a space and the formatted message.
pub open spec fn llm_line(m: StoredMessage, names: Map<i64, Seq<char>>) -> Option<Seq<char>> {
    match m.text {
        Some(t) => match formatted_message(t@, m.created_at) {
            Some(f) => Some(
                "--- "@ + (if names.contains_key(m.user_id) {
                    names[m.user_id]
                } else {
                    "user"@
                }) + " "@ + f,
            ),
            None => None,
        },
        None => None,
    }
}

/// The lines of the messages of `msgs` that have one, last message first.
pub open spec fn llm_lines(msgs: Seq<StoredMessage>, names: Map<i64, Seq<char>>) -> Seq<Seq<char>>
    decreases msgs.len(),
{
    if msgs.len() == 0 {
        seq![]
    } else {
        let rest = llm_lines(msgs.drop_first(), names);
        match llm_line(msgs[0], names) {
            Some(l) => rest.push(l),
            None => rest,
        }
    }
}

/// The transcript of `msgs` (newest first, as stored) for the language model:
/// the lines of the messages from the oldest to the newest, separated by blank
/// lines.
pub open spec fn llm_transcript(msgs: Seq<StoredMessage>) -> Seq<char> {
    join(llm_lines(msgs, name_map(msgs)), "\n\n"@)
}

/// Every author of `msgs` has a name in the name map.
proof fn lemma_name_map_has_author(msgs: Seq<StoredMessage>, i: int)
    requires
        0 <= i < msgs.len(),
    ensures
        name_map(msgs).contains_key(msgs[i].user_id),
    decreases msgs.len(),
{
    if i < msgs.len() - 1 {
        lemma_name_map_has_author(msgs.drop_last(), i);
        assert(msgs.drop_last()[i] == msgs[i]);
    }
}

/// The lines of `msgs` hold the line of each of its messages that has one.
proof fn lemma_llm_lines_contains(msgs: Seq<StoredMessage>, names: Map<i64, Seq<char>>, i: int)
    requires
        0 <= i < msgs.len(),
        llm_line(msgs[i], names) is Some,
    ensures
        llm_lines(msgs, names).contains(llm_line(msgs[i], names).unwrap()),
    decreases msgs.len(),
{
    let l = llm_line(msgs[i], names).unwrap();
    let rest = llm_lines(msgs.drop_first(), names);
    if i == 0 {
        assert(rest.push(l)[rest.len() as int] == l);
    } else {
        assert(msgs.drop_first()[i - 1] == msgs[i]);
        lemma_llm_lines_contains(msgs.drop_first(), names, i - 1);
        let k: int = choose|k: int| 0 <= k < rest.len() && rest[k] == l;
        match llm_line(msgs[0], names) {
            Some(l0) => {
                assert(rest.push(l0)[k] == l);
            },
            None => {},
        }
    }
}

/// Each message of `msgs` whose text is neither blank nor a command has its
/// line among the lines of the transcript: `--- `, the name that the name map
/// gives its author, whatever kind of name it is (a handle, a first name, or
/// `user_` and the id), a space and the formatted message.
pub proof fn lemma_transcript_line_names_author(msgs: Seq<StoredMessage>, i: int, f: Seq<char>)
    requires
        0 <= i < msgs.len(),
        msgs[i].text is Some,
        formatted_message(msgs[i].text.unwrap()@, msgs[i].created_at) == Some(f),
    ensures
        name_map(msgs).contains_key(msgs[i].user_id),
        llm_lines(msgs, name_map(msgs)).contains(
            "--- "@ + name_map(msgs)[msgs[i].user_id] + " "@ + f,
        ),
{
    lemma_name_map_has_author(msgs, i);
    lemma_llm_lines_contains(msgs, name_map(msgs), i);
}

/// The transcript of a single message is its one line, which names the
/// author by the display name: `@` and the username when there is one, else
/// the first name (or `user_` and the id when that is blank or `Unknown`).
pub proof fn lemma_transcript_of_one_message(m: StoredMessage, f: Seq<char>)
    requires
        m.text is Some,
        formatted_message(m.text.unwrap()@, m.created_at) == Some(f),
    ensures
        llm_transcript(seq![m]) == "--- "@ + message_display_name(m) + " "@ + f,
{
    let msgs = seq![m];
    assert(msgs.drop_last() =~= Seq::<StoredMessage>::empty());
    assert(msgs.drop_first() =~= Seq::<StoredMessage>::empty());
    assert(msgs.last() == m);
    assert(msgs[0] == m);
    assert(name_map(msgs.drop_last()) == Map::<i64, Seq<char>>::empty());
    let nm = name_map(msgs);
    assert(nm.contains_key(m.user_id) && nm[m.user_id] == message_display_name(m));
    let l = "--- "@ + message_display_name(m) + " "@ + f;
    assert(llm_line(m, nm) == Some(l));
    assert(llm_lines(msgs.drop_first(), nm) == Seq::<Seq<char>>::empty());
    assert(llm_lines(msgs, nm) =~= seq![l]);
}

/// The transcript of `messages` for the language model.
pub fn format_messages_for_llm(messages: &[StoredMessage]) -> (s: String)
    ensures
        s@ == llm_transcript(messages@),
{
    let names = build_name_map(messages);
    let ghost nm = name_map(messages@);
    let ghost mut lines: Seq<Seq<char>> = seq![];
    let mut out = String::new();
    let mut empty = true;
    let n = messages.len();
    let mut i: usize = n;
    assert(messages@.subrange(n as int, n as int).len() == 0);
    while i > 0
        invariant
            i <= n == messages@.len(),
            names@.dom() == nm.dom(),
            forall|k: i64| #[trigger] names@.contains_key(k) ==> names@[k]@ == nm[k],
            lines == llm_lines(messages@.subrange(i as int, n as int), nm),
            out@ == join(lines, "\n\n"@),
            empty == (lines.len() == 0),
        decreases i,
    {
        i = i - 1;
        let m = &messages[i];
        let ghost suffix = messages@.subrange(i as int, n as int);
        assert(suffix.drop_first() == messages@.subrange(i + 1, n as int));
        assert(suffix[0] == messages@[i as int]);
        match &m.text {
            Some(t) => match format_message(t.as_str(), m.created_at) {
                Some(f) => {
                    let name: &str = match names.get(&m.user_id) {
                        Some(v) => v.as_str(),
                        None => "user",
                    };
                    let mut line = String::from_str("--- ");
                    line.append(name);
                    line.append(" ");
                    line.append(f.as_str());
                    proof {
                        lemma_join_push(lines, "\n\n"@, line@);
                    }
                    if !empty {
                        out.append("\n\n");
                    }
                    out.append(line.as_str());
                    empty = false;
                    proof {
                        lines = lines.push(line@);
                    }
                },
                None => {},
            },
            None => {},
        }
    }
    assert(messages@.subrange(0, n as int) == messages@);
    out
}

} // verus!
