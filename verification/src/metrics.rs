use vstd::prelude::*;

use core::time::Duration;

verus! {

/// The kind of an incoming message, as a counter label.
#[derive(Debug, Clone, Copy, PartialEq, Eq, Structural)]
pub enum MessageKind {
    Text,
    Command,
    Edit,
}

impl MessageKind {
    /// The label value of the kind.
    pub open spec fn label(self) -> Seq<char> {
        match self {
            MessageKind::Text => "text"@,
            MessageKind::Command => "command"@,
            MessageKind::Edit => "edit"@,
        }
    }

    pub fn as_str(self) -> (s: &'static str)
        ensures
            s@ == self.label(),
    {
        match self {
            MessageKind::Text => "text",
            MessageKind::Command => "command",
            MessageKind::Edit => "edit",
        }
    }
}

/// A logical database operation, as a histogram label: the operations whose
/// duration is recorded.
#[derive(Debug, Clone, Copy, PartialEq, Eq, Structural)]
pub enum DbOp {
    InsertChat,
    InsertMessage,
}

impl DbOp {
    /// The label value of the operation.
    pub open spec fn label(self) -> Seq<char> {
        match self {
            DbOp::InsertChat => "insert_chat"@,
            DbOp::InsertMessage => "insert_message"@,
        }
    }

    pub fn as_str(self) -> (s: &'static str)
        ensures
            s@ == self.label(),
    {
        match self {
            DbOp::InsertChat => "insert_chat",
            DbOp::InsertMessage => "insert_message",
        }
    }
}

/// The kind of language-model tokens, as a counter label.
#[derive(Debug, Clone, Copy, PartialEq, Eq, Structural)]
pub enum TokenKind {
    Prompt,
    Completion,
}

impl TokenKind {
    /// The label value of the kind.
    pub open spec fn label(self) -> Seq<char> {
        match self {
            TokenKind::Prompt => "prompt"@,
            TokenKind::Completion => "completion"@,
        }
    }

    pub fn as_str(self) -> (s: &'static str)
        ensures
            s@ == self.label(),
    {
        match self {
            TokenKind::Prompt => "prompt",
            TokenKind::Completion => "completion",
        }
    }
}

/// An increment of a counter, with at most one label (key, value), for the
/// metrics recorder.
pub struct CounterIncrement {
    pub name: &'static str,
    pub label: Option<(&'static str, &'static str)>,
    pub by: u64,
}

/// A duration to record in a labelled histogram, for the metrics recorder.
pub struct HistogramRecord {
    pub name: &'static str,
    pub label_key: &'static str,
    pub label_value: &'static str,
    pub elapsed: Duration,
}

/// One more received message: `bot_messages_received_total` by 1, without
/// labels.
pub fn message_received() -> (r: CounterIncrement)
    ensures
        r.name@ == "bot_messages_received_total"@,
        r.label is None,
        r.by == 1,
{
    CounterIncrement { name: "bot_messages_received_total", label: None, by: 1 }
}

/// The duration of a database query: `bot_db_query_seconds`, labelled
/// `operation` with `insert_chat` or `insert_message`.
pub fn db_query(op: DbOp, elapsed: Duration) -> (r: HistogramRecord)
    ensures
        r.name@ == "bot_db_query_seconds"@,
        r.label_key@ == "operation"@,
        r.label_value@ == op.label(),
        r.label_value@ == "insert_chat"@ || r.label_value@ == "insert_message"@,
        r.elapsed == elapsed,
{
    HistogramRecord {
        name: "bot_db_query_seconds",
        label_key: "operation",
        label_value: op.as_str(),
        elapsed,
    }
}

/// `count` language-model tokens of the given kind: `bot_llm_tokens_total`
/// by `count`, labelled `kind`.
pub fn llm_tokens(kind: TokenKind, count: u64) -> (r: CounterIncrement)
    ensures
        r.name@ == "bot_llm_tokens_total"@,
        r.label matches Some((k, v)) && k@ == "kind"@ && v@ == kind.label(),
        r.by == count,
{
    CounterIncrement { name: "bot_llm_tokens_total", label: Some(("kind", kind.as_str())), by: count }
}

} // verus!
