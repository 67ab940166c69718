use vstd::prelude::*;

use crate::repositories::chat_members::{MemberWithMessages, Message};
use crate::text::{i64_to_decimal, int_decimal, join, lemma_join_push, nat_decimal, u64_to_decimal};
use crate::clock::{clock_of, format_time};
use crate::html::{bold, escape, html_bold, html_escaped, html_italic, italic};

verus! {

/// The language model's assessment of the members' toxicity.
#[derive(Debug, Clone, PartialEq, Eq)]
pub struct ToxicityReport {
    pub assessments: Vec<UserToxicity>,
}

#[derive(Debug, Clone, PartialEq, Eq)]
pub struct UserToxicity {
    pub user_id: i64,
    pub t_level: u8,
    pub categories: Vec<ToxicityCategory>,
}

#[derive(Debug, Clone, Copy, PartialEq, Eq, Structural)]
pub enum ToxicityCategory {
    Mat,
    Sexism,
    Racism,
    Homophobia,
    Harassment,
    Threats,
    Slurs,
    Doxxing,
}

impl ToxicityCategory {
    /// The Russian name of the category.
    pub open spec fn spec_label(self) -> Seq<char> {
        match self {
            ToxicityCategory::Mat => "мат"@,
            ToxicityCategory::Sexism => "сексизм"@,
            ToxicityCategory::Racism => "расизм"@,
            ToxicityCategory::Homophobia => "гомофобия"@,
            ToxicityCategory::Harassment => "харассмент"@,
            ToxicityCategory::Threats => "угрозы"@,
            ToxicityCategory::Slurs => "оскорбления"@,
            ToxicityCategory::Doxxing => "деанон"@,
        }
    }

    pub fn label(&self) -> (s: &'static str)
        ensures
            s@ == self.spec_label(),
    {
        match self {
            ToxicityCategory::Mat => "мат",
            ToxicityCategory::Sexism => "сексизм",
            ToxicityCategory::Racism => "расизм",
            ToxicityCategory::Homophobia => "гомофобия",
            ToxicityCategory::Harassment => "харассмент",
            ToxicityCategory::Threats => "угрозы",
            ToxicityCategory::Slurs => "оскорбления",
            ToxicityCategory::Doxxing => "деанон",
        }
    }
}


/// The traffic light of a toxicity level: green up to 3, yellow up to 6, red
/// above.
pub open spec fn emoji_of(level: u8) -> Seq<char> {
    if level <= 3 {
        "🟢"@
    } else if level <= 6 {
        "🟡"@
    } else {
        "🔴"@
    }
}

/// The traffic light of a toxicity level.
pub fn toxicity_emoji(level: u8) -> (s: &'static str)
    ensures
        s@ == emoji_of(level),
{
    if level <= 3 {
        "🟢"
    } else if level <= 6 {
        "🟡"
    } else {
        "🔴"
    }
}

/// The line of one message in a member's block: `[HH:MM] text` and a newline.
pub open spec fn message_line(m: Message) -> Seq<char> {
    "["@ + clock_of(m.created_at) + "] "@ + m.text@ + "\n"@
}

/// The lines of `msgs`, last message first.
pub open spec fn message_lines(msgs: Seq<Message>) -> Seq<char>
    decreases msgs.len(),
{
    if msgs.len() == 0 {
        seq![]
    } else {
        message_lines(msgs.drop_first()) + message_line(msgs[0])
    }
}

/// The block of one member for the language model: a header with the user id,
/// then the member's messages, oldest first.
pub open spec fn user_block(m: MemberWithMessages) -> Seq<char> {
    "=== USER_ID: "@ + int_decimal(m.id as int) + " ===\n"@ + message_lines(m.messages@)
}

/// The block of one member for the language model.
pub fn build_user_block(member: &MemberWithMessages) -> (s: String)
    ensures
        s@ == user_block(*member),
{
    let mut out = String::from_str("=== USER_ID: ");
    out.append(i64_to_decimal(member.id).as_str());
    out.append(" ===\n");
    let ghost head = out@;
    let n: usize = member.messages.len();
    let mut i: usize = n;
    assert(member.messages@.subrange(n as int, n as int).len() == 0);
    while i > 0
        invariant
            i <= n == member.messages@.len(),
            head == "=== USER_ID: "@ + int_decimal(member.id as int) + " ===\n"@,
            out@ == head + message_lines(member.messages@.subrange(i as int, n as int)),
        decreases i,
    {
        i = i - 1;
        let msg = &member.messages[i];
        let ghost suffix = member.messages@.subrange(i as int, n as int);
        assert(suffix.drop_first() == member.messages@.subrange(i + 1, n as int));
        out.append("[");
        out.append(format_time(msg.created_at).as_str());
        out.append("] ");
        out.append(msg.text.as_str());
        out.append("\n");
    }
    assert(member.messages@.subrange(0, n as int) == member.messages@);
    out
}

/// The blocks of all members, each on its own lines.
pub open spec fn toxicity_input(rows: Seq<MemberWithMessages>) -> Seq<char> {
    join(Seq::new(rows.len(), |i: int| user_block(rows[i])), "\n"@)
}

/// The input of the language model for the toxicity assessment.
pub fn build_toxicity_input(rows: &[MemberWithMessages]) -> (s: String)
    ensures
        s@ == toxicity_input(rows@),
{
    let mut out = String::new();
    let mut i: usize = 0;
    while i < rows.len()
        invariant
            i <= rows@.len(),
            out@ == join(Seq::new(i as nat, |j: int| user_block(rows@[j])), "\n"@),
        decreases rows@.len() - i,
    {
        let block = build_user_block(&rows[i]);
        let ghost parts = Seq::new(i as nat, |j: int| user_block(rows@[j]));
        proof {
            lemma_join_push(parts, "\n"@, block@);
            assert(parts.push(block@) == Seq::new((i + 1) as nat, |j: int| user_block(rows@[j])));
        }
        if i > 0 {
            out.append("\n");
        }
        out.append(block.as_str());
        i = i + 1;
    }
    assert(Seq::new(rows@.len(), |j: int| user_block(rows@[j])) == Seq::new(
        rows@.len(),
        |j: int| user_block(rows[j]),
    ));
    out
}

/// How a member is named in the ranking: `@` and the escaped username, or the
/// escaped first name in italics; then a space and, in italics, `премиум` for a
/// premium member, `бомж` for the others.
pub open spec fn member_name(m: MemberWithMessages) -> Seq<char> {
    let nick = match m.username {
        Some(u) => seq!['@'] + html_escaped(u@),
        None => html_italic(html_escaped(m.first_name@)),
    };
    let suffix = if m.is_premium {
        html_italic("премиум"@)
    } else {
        html_italic("бомж"@)
    };
    nick + seq![' '] + suffix
}

/// How a member is named in the ranking.
pub fn display_name(member: &MemberWithMessages) -> (s: String)
    ensures
        s@ == member_name(*member),
{
    let mut out = match &member.username {
        Some(u) => {
            let mut nick = String::from_str("@");
            proof {
                reveal_strlit("@");
            }
            nick.append(escape(u.as_str()).as_str());
            nick
        },
        None => italic(escape(member.first_name.as_str()).as_str()),
    };
    let suffix = if member.is_premium {
        italic("премиум")
    } else {
        italic("бомж")
    };
    out.append(" ");
    proof {
        reveal_strlit(" ");
    }
    out.append(suffix.as_str());
    out
}

/// The last assessment of `uid` in `a`.
pub open spec fn last_assessment(a: Seq<UserToxicity>, uid: i64) -> Option<UserToxicity>
    decreases a.len(),
{
    if a.len() == 0 {
        None
    } else if a.last().user_id == uid {
        Some(a.last())
    } else {
        last_assessment(a.drop_last(), uid)
    }
}

/// The position of the last assessment of `uid`.
fn find_assessment(a: &Vec<UserToxicity>, uid: i64) -> (r: Option<usize>)
    ensures
        match r {
            Some(i) => i < a@.len() && last_assessment(a@, uid) == Some(a@[i as int]),
            None => last_assessment(a@, uid) is None,
        },
{
    let mut i: usize = a.len();
    assert(a@.take(i as int) == a@);
    while i > 0
        invariant
            i <= a@.len(),
            last_assessment(a@, uid) == last_assessment(a@.take(i as int), uid),
        decreases i,
    {
        assert(a@.take(i as int).drop_last() == a@.take(i - 1));
        if a[i - 1].user_id == uid {
            return Some(i - 1);
        }
        i = i - 1;
    }
    None
}

/// The names of `cats`, separated by `, `.
pub open spec fn category_list(cats: Seq<ToxicityCategory>) -> Seq<char> {
    join(Seq::new(cats.len(), |i: int| cats[i].spec_label()), ", "@)
}

fn format_categories(cats: &Vec<ToxicityCategory>) -> (s: String)
    ensures
        s@ == category_list(cats@),
{
    let mut out = String::new();
    let mut i: usize = 0;
    while i < cats.len()
        invariant
            i <= cats@.len(),
            out@ == join(Seq::new(i as nat, |j: int| cats@[j].spec_label()), ", "@),
        decreases cats@.len() - i,
    {
        let label = cats[i].label();
        let ghost parts = Seq::new(i as nat, |j: int| cats@[j].spec_label());
        proof {
            lemma_join_push(parts, ", "@, label@);
            assert(parts.push(label@) == Seq::new((i + 1) as nat, |j: int| cats@[j].spec_label()));
        }
        if i > 0 {
            out.append(", ");
        }
        out.append(label);
        i = i + 1;
    }
    out
}

/// The toxicity line of a member: traffic light, level out of 10 and, when
/// there are any, the categories in italics.
pub open spec fn toxicity_line(t: UserToxicity) -> Seq<char> {
    "   "@ + emoji_of(t.t_level) + " токсичность: <b>"@ + nat_decimal(t.t_level as nat)
        + "/10</b>"@ + (if t.categories@.len() > 0 {
        " — "@ + html_italic(category_list(t.categories@))
    } else {
        seq![]
    }) + "\n"@
}

/// The entry of the member at `index` (from 0) in the ranking: rank, name and
/// message count, then the toxicity line when the report assesses the member.
pub open spec fn member_entry(index: int, m: MemberWithMessages, report: ToxicityReport) -> Seq<
    char,
> {
    let head = nat_decimal((index + 1) as nat) + ". "@ + member_name(m) + " — <b>"@ + int_decimal(
        m.message_count as int,
    ) + "</b> сообщ.\n"@;
    match last_assessment(report.assessments@, m.id) {
        Some(t) => head + toxicity_line(t),
        None => head,
    }
}

/// The entries of the first `k` members.
pub open spec fn member_entries(rows: Seq<MemberWithMessages>, report: ToxicityReport, k: int) -> Seq<
    char,
>
    decreases k,
{
    if k <= 0 {
        seq![]
    } else {
        member_entries(rows, report, k - 1) + member_entry(k - 1, rows[k - 1], report)
    }
}

/// The ranking message: a notice when there is no member, else a bold title
/// and the entry of each member in order.
pub open spec fn top_members_text(rows: Seq<MemberWithMessages>, report: ToxicityReport) -> Seq<
    char,
> {
    if rows.len() == 0 {
        "В этом чате пока нет активных участников или бот еще не успел их запомнить."@
    } else {
        html_bold("🏆 Топ участников чата"@) + "\n"@ + member_entries(rows, report, rows.len() as int)
    }
}

/// The ranking message of the most active members, with their toxicity.
pub fn format_top_members(rows: &[MemberWithMessages], report: &ToxicityReport) -> (s: String)
    ensures
        s@ == top_members_text(rows@, *report),
{
    if rows.len() == 0 {
        return String::from_str(
            "В этом чате пока нет активных участников или бот еще не успел их запомнить.",
        );
    }
    let mut out = bold("🏆 Топ участников чата");
    out.append("\n");
    let ghost head = out@;
    let mut i: usize = 0;
    while i < rows.len()
        invariant
            i <= rows@.len(),
            rows@.len() > 0,
            head == html_bold("🏆 Топ участников чата"@) + "\n"@,
            out@ == head + member_entries(rows@, *report, i as int),
        decreases rows@.len() - i,
    {
        let entry = format_member_entry(i, &rows[i], report);
        out.append(entry.as_str());
        i = i + 1;
    }
    out
}

/// The toxicity line of a member.
fn format_toxicity_line(tox: &UserToxicity) -> (s: String)
    ensures
        s@ == toxicity_line(*tox),
{
    let mut out = String::from_str("   ");
    out.append(toxicity_emoji(tox.t_level));
    out.append(" токсичность: <b>");
    out.append(u64_to_decimal(tox.t_level as u64).as_str());
    out.append("/10</b>");
    if tox.categories.len() > 0 {
        out.append(" — ");
        out.append(italic(format_categories(&tox.categories).as_str()).as_str());
    }
    out.append("\n");
    out
}

/// The entry of the member at `index` in the ranking.
fn format_member_entry(index: usize, m: &MemberWithMessages, report: &ToxicityReport) -> (s: String)
    requires
        index < usize::MAX,
    ensures
        s@ == member_entry(index as int, *m, *report),
{
    let mut out = u64_to_decimal((index + 1) as u64);
    out.append(". ");
    out.append(display_name(m).as_str());
    out.append(" — <b>");
    out.append(i64_to_decimal(m.message_count).as_str());
    out.append("</b> сообщ.\n");
    match find_assessment(&report.assessments, m.id) {
        Some(k) => {
            out.append(format_toxicity_line(&report.assessments[k]).as_str());
        },
        None => {},
    }
    out
}

/// The toxicity line is never empty: it begins with three spaces.
pub proof fn lemma_toxicity_line_not_empty(t: UserToxicity)
    ensures
        toxicity_line(t).len() > 3,
        toxicity_line(t).subrange(0, 3) == "   "@,
{
    reveal_strlit("   ");
    let rest = emoji_of(t.t_level) + " токсичность: <b>"@ + nat_decimal(t.t_level as nat)
        + "/10</b>"@ + (if t.categories@.len() > 0 {
        " — "@ + html_italic(category_list(t.categories@))
    } else {
        seq![]
    }) + "\n"@;
    reveal_strlit("\n");
    assert(toxicity_line(t) =~= "   "@ + rest);
    assert(("   "@ + rest).subrange(0, 3) =~= "   "@);
}

/// A member whom the report assesses, at any level, 0 included, gets the
/// toxicity line of the last assessment after the entry that a report without
/// an assessment of the member gives; that line is never empty.
pub proof fn lemma_assessed_member_shows_toxicity(
    index: int,
    m: MemberWithMessages,
    report: ToxicityReport,
    unassessed: ToxicityReport,
    t: UserToxicity,
)
    requires
        last_assessment(report.assessments@, m.id) == Some(t),
        last_assessment(unassessed.assessments@, m.id) is None,
    ensures
        member_entry(index, m, report) == member_entry(index, m, unassessed) + toxicity_line(t),
        member_entry(index, m, report).len() > member_entry(index, m, unassessed).len(),
{
    lemma_toxicity_line_not_empty(t);
}

/// With one ranked member, whom the report assesses at any level, the ranking
/// is the one without the assessment followed by the member's toxicity line.
pub proof fn lemma_single_member_ranking_shows_toxicity(
    m: MemberWithMessages,
    report: ToxicityReport,
    unassessed: ToxicityReport,
    t: UserToxicity,
)
    requires
        last_assessment(report.assessments@, m.id) == Some(t),
        last_assessment(unassessed.assessments@, m.id) is None,
    ensures
        top_members_text(seq![m], report) == top_members_text(seq![m], unassessed) + toxicity_line(t),
{
    let rows = seq![m];
    assert(rows[0] == m);
    assert(member_entries(rows, report, 0) == Seq::<char>::empty());
    assert(member_entries(rows, unassessed, 0) == Seq::<char>::empty());
    lemma_assessed_member_shows_toxicity(0, m, report, unassessed, t);
    assert(member_entries(rows, report, 1) =~= member_entries(rows, unassessed, 1) + toxicity_line(t));
}

/// The last assessment of `uid` is `x` when every assessment of `uid` is `x`
/// and there is one; there is none when no assessment is of `uid`.
proof fn lemma_last_assessment_of_unique(a: Seq<UserToxicity>, uid: i64, x: UserToxicity)
    ensures
        (forall|i: int| 0 <= i < a.len() && (#[trigger] a[i]).user_id == uid ==> a[i] == x)
            && (exists|i: int| 0 <= i < a.len() && (#[trigger] a[i]).user_id == uid)
            ==> last_assessment(a, uid) == Some(x),
        (forall|i: int| 0 <= i < a.len() ==> (#[trigger] a[i]).user_id != uid) ==> last_assessment(
            a,
            uid,
        ) is None,
    decreases a.len(),
{
    if a.len() > 0 {
        let b = a.drop_last();
        lemma_last_assessment_of_unique(b, uid, x);
        assert forall|i: int| 0 <= i < b.len() implies #[trigger] b[i] == a[i] by {}
        if exists|i: int| 0 <= i < a.len() && (#[trigger] a[i]).user_id == uid {
            let i: int = choose|i: int| 0 <= i < a.len() && (#[trigger] a[i]).user_id == uid;
            if a.last().user_id != uid {
                assert(i < a.len() - 1);
                assert(b[i] == a[i]);
            }
        }
    }
}

/// The ranking entries agree when the two reports give each ranked member the
/// same last assessment.
proof fn lemma_entries_agree(
    rows: Seq<MemberWithMessages>,
    r1: ToxicityReport,
    r2: ToxicityReport,
    k: int,
)
    requires
        k <= rows.len(),
        forall|j: int|
            0 <= j < rows.len() ==> last_assessment(r1.assessments@, (#[trigger] rows[j]).id)
                == last_assessment(r2.assessments@, rows[j].id),
    ensures
        member_entries(rows, r1, k) == member_entries(rows, r2, k),
    decreases k,
{
    if k > 0 {
        lemma_entries_agree(rows, r1, r2, k - 1);
        assert(last_assessment(r1.assessments@, rows[k - 1].id) == last_assessment(
            r2.assessments@,
            rows[k - 1].id,
        ));
    }
}

/// The ranking does not depend on the order of the assessments: when each
/// member has at most one assessment in `report`, and `report2` holds every
/// assessment of `report`, in any order and any number of times, plus any
/// assessments of users who are not ranked, the ranking text is the same.
pub proof fn lemma_ranking_ignores_assessment_order(
    rows: Seq<MemberWithMessages>,
    report: ToxicityReport,
    report2: ToxicityReport,
)
    requires
        forall|i: int, j: int|
            0 <= i < j < report.assessments@.len() ==> (#[trigger] report.assessments@[i]).user_id
                != (#[trigger] report.assessments@[j]).user_id,
        forall|x: UserToxicity| #[trigger]
            report.assessments@.contains(x) ==> report2.assessments@.contains(x),
        forall|y: UserToxicity| #[trigger]
            report2.assessments@.contains(y) ==> report.assessments@.contains(y) || forall|j: int|
                0 <= j < rows.len() ==> (#[trigger] rows[j]).id != y.user_id,
    ensures
        top_members_text(rows, report) == top_members_text(rows, report2),
{
    let a1 = report.assessments@;
    let a2 = report2.assessments@;
    assert forall|j: int| 0 <= j < rows.len() implies last_assessment(a1, (#[trigger] rows[j]).id)
        == last_assessment(a2, rows[j].id) by {
        let uid = rows[j].id;
        if exists|i: int| 0 <= i < a1.len() && (#[trigger] a1[i]).user_id == uid {
            let i: int = choose|i: int| 0 <= i < a1.len() && (#[trigger] a1[i]).user_id == uid;
            let x = a1[i];
            assert(a1.contains(x));
            lemma_last_assessment_of_unique(a1, uid, x);
            assert forall|m: int| 0 <= m < a1.len() && (#[trigger] a1[m]).user_id == uid implies a1[m]
                == x by {
                if m != i {
                    if m < i {
                        assert(a1[m].user_id != a1[i].user_id);
                    } else {
                        assert(a1[i].user_id != a1[m].user_id);
                    }
                }
            }
            assert(a2.contains(x));
            let p: int = choose|p: int| 0 <= p < a2.len() && a2[p] == x;
            assert(a2[p].user_id == uid);
            assert forall|m: int| 0 <= m < a2.len() && (#[trigger] a2[m]).user_id == uid implies a2[m]
                == x by {
                let y = a2[m];
                assert(a2.contains(y));
                if !a1.contains(y) {
                    assert(rows[j].id != y.user_id);
                } else {
                    let q: int = choose|q: int| 0 <= q < a1.len() && a1[q] == y;
                    assert(a1[q].user_id == uid);
                }
            }
            lemma_last_assessment_of_unique(a2, uid, x);
        } else {
            lemma_last_assessment_of_unique(a1, uid, a1[0]);
            assert forall|m: int| 0 <= m < a2.len() implies (#[trigger] a2[m]).user_id != uid by {
                let y = a2[m];
                assert(a2.contains(y));
                if a1.contains(y) {
                    let q: int = choose|q: int| 0 <= q < a1.len() && a1[q] == y;
                    assert(a1[q].user_id == y.user_id);
                } else {
                    assert(rows[j].id != y.user_id);
                }
            }
            lemma_last_assessment_of_unique(a2, uid, a1[0]);
        }
    }
    lemma_entries_agree(rows, report, report2, rows.len() as int);
}

} // verus!
