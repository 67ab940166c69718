use vstd::prelude::*;

verus! {

/// A message of a member. `created_at` is a Unix time in seconds (UTC).
#[derive(Debug, Clone, PartialEq, Eq)]
pub struct Message {
    pub text: String,
    pub created_at: i64,
}

/// A chat member with their latest messages. `last_seen_at` is a Unix time in
/// seconds (UTC).
#[derive(Debug, Clone, PartialEq, Eq)]
pub struct MemberWithMessages {
    pub id: i64,
    pub username: Option<String>,
    pub first_name: String,
    pub message_count: i64,
    pub last_seen_at: i64,
    pub is_premium: bool,
    pub messages: Vec<Message>,
}

} // verus!

verus! {

/// One row of the top-members query: a member and one of their messages.
/// Times are Unix times in seconds (UTC).
#[derive(Debug, Clone, PartialEq, Eq)]
pub struct FlatMemberWithMessage {
    pub id: i64,
    pub username: Option<String>,
    pub first_name: String,
    pub message_count: i64,
    pub last_seen_at: i64,
    pub is_premium: bool,
    pub message_text: String,
    pub message_created_at: i64,
}

/// The position of the first row of member `id` in `rows`, or -1.
pub open spec fn first_pos(rows: Seq<FlatMemberWithMessage>, id: i64) -> int
    decreases rows.len(),
{
    if rows.len() == 0 {
        -1
    } else if first_pos(rows.drop_last(), id) >= 0 {
        first_pos(rows.drop_last(), id)
    } else if rows.last().id == id {
        rows.len() - 1
    } else {
        -1
    }
}

/// The message carried by a row.
pub open spec fn row_message(r: FlatMemberWithMessage) -> Message {
    Message { text: r.message_text, created_at: r.message_created_at }
}

/// The messages of the rows of member `id`, in the order of the rows.
pub open spec fn member_messages(rows: Seq<FlatMemberWithMessage>, id: i64) -> Seq<Message>
    decreases rows.len(),
{
    if rows.len() == 0 {
        seq![]
    } else if rows.last().id == id {
        member_messages(rows.drop_last(), id).push(row_message(rows.last()))
    } else {
        member_messages(rows.drop_last(), id)
    }
}

/// `m` is member `m.id` as the rows give it: its fields come from the member's
/// first row, its messages from all the member's rows, in order.
#[verifier::opaque]
pub open spec fn is_member_of(rows: Seq<FlatMemberWithMessage>, m: MemberWithMessages) -> bool {
    let f: int = first_pos(rows, m.id);
    &&& 0 <= f < rows.len()
    &&& m.username == rows[f].username
    &&& m.first_name == rows[f].first_name
    &&& m.message_count == rows[f].message_count
    &&& m.last_seen_at == rows[f].last_seen_at
    &&& m.is_premium == rows[f].is_premium
    &&& m.messages@ == member_messages(rows, m.id)
}

proof fn lemma_first_pos_bounds(rows: Seq<FlatMemberWithMessage>, id: i64)
    ensures
        -1 <= first_pos(rows, id) < rows.len(),
        first_pos(rows, id) >= 0 ==> rows[first_pos(rows, id)].id == id,
        first_pos(rows, id) >= 0 ==> forall|j: int|
            0 <= j < first_pos(rows, id) ==> rows[j].id != id,
        first_pos(rows, id) < 0 ==> forall|j: int| 0 <= j < rows.len() ==> rows[j].id != id,
        first_pos(rows, id) < 0 ==> member_messages(rows, id) == Seq::<Message>::empty(),
    decreases rows.len(),
{
    if rows.len() > 0 {
        lemma_first_pos_bounds(rows.drop_last(), id);
        assert forall|j: int| 0 <= j < rows.len() - 1 implies rows[j] == rows.drop_last()[j] by {}
    }
}

/// Member `id` is among `members`.
pub open spec fn has_member(members: Seq<MemberWithMessages>, id: i64) -> bool {
    exists|k: int| 0 <= k < members.len() && #[trigger] members[k].id == id
}

/// Every member that has a row in `rows` is among `members`.
pub open spec fn covers_all(members: Seq<MemberWithMessages>, rows: Seq<FlatMemberWithMessage>) -> bool {
    forall|i: int| 0 <= i < rows.len() ==> has_member(members, #[trigger] rows[i].id)
}

/// The members of the rows, each once, with their messages in the order of the
/// rows; most messages first, and among equal counts the member whose first
/// row comes first.
pub fn flat_flat_top_users(rows: Vec<FlatMemberWithMessage>) -> (r: Vec<MemberWithMessages>)
    ensures
        all_members_of(r@, rows@),
        covers_all(r@, rows@),
        ranked(r@, rows@),
{
    let ghost all = rows@;
    let groups = group_rows(rows);
    sort_by_count(groups, Ghost(all))
}

/// The members in the order of their first rows.
fn group_rows(rows: Vec<FlatMemberWithMessage>) -> (g: Vec<MemberWithMessages>)
    ensures
        all_members_of(g@, rows@),
        forall|k: int, l: int|
            0 <= k < l < g@.len() ==> first_pos(rows@, g@[k].id) < first_pos(rows@, g@[l].id),
        covers_all(g@, rows@),
{
    reveal(is_member_of);
    let ghost all = rows@;
    let mut groups: Vec<MemberWithMessages> = Vec::new();
    let mut rest = rows;
    let ghost mut p: Seq<FlatMemberWithMessage> = seq![];
    while rest.len() > 0
        invariant
            p + rest@ == all,
            all_members_of(groups@, p),
            forall|k: int, l: int|
                0 <= k < l < groups@.len() ==> first_pos(p, groups@[k].id) < first_pos(
                    p,
                    groups@[l].id,
                ),
            covers_all(groups@, p),
        decreases rest@.len(),
    {
        reveal(is_member_of);
        let row = rest.remove(0);
        let ghost p2 = p.push(row);
        proof {
            assert(p2.drop_last() == p);
            assert(p2 + rest@ == all);
        }
        let mut k: usize = 0;
        while k < groups.len() && groups[k].id != row.id
            invariant
                k <= groups@.len(),
                forall|j: int| 0 <= j < k ==> groups@[j].id != row.id,
            decreases groups@.len() - k,
        {
            k = k + 1;
        }
        let ghost old_groups = groups@;
        proof {
            assert forall|id: i64| #![trigger first_pos(p2, id)]
                first_pos(p, id) >= 0 implies first_pos(p2, id) == first_pos(p, id) by {}
            lemma_first_pos_bounds(p, row.id);
            lemma_first_pos_bounds(p2, row.id);
        }
        if k < groups.len() {
            let msg = Message { text: row.message_text, created_at: row.message_created_at };
            groups[k].messages.push(msg);
            proof {
                assert forall|j: int| 0 <= j < groups@.len() implies is_member_of(
                    p2,
                    #[trigger] groups@[j],
                ) by {
                    let g = groups@[j];
                    assert(is_member_of(p, old_groups[j]));
                    lemma_first_pos_bounds(p, g.id);
                    if j != k {
                        assert(g == old_groups[j]);
                    }
                }
                assert forall|i: int| 0 <= i < p2.len() implies exists|kk: int|
                    0 <= kk < groups@.len() && #[trigger] groups@[kk].id == #[trigger] p2[i].id by {
                    if i < p.len() {
                        assert(p2[i] == p[i]);
                        let kk: int = choose|kk: int|
                            0 <= kk < old_groups.len() && #[trigger] old_groups[kk].id == p[i].id;
                        assert(groups@[kk].id == old_groups[kk].id);
                    } else {
                        assert(groups@[k as int].id == p2[i].id);
                    }
                }
            }
        } else {
            proof {
                if first_pos(p, row.id) >= 0 {
                    let f: int = first_pos(p, row.id);
                    let kk: int = choose|kk: int|
                        0 <= kk < old_groups.len() && #[trigger] old_groups[kk].id == p[f].id;
                    assert(false);
                }
            }
            let mut messages: Vec<Message> = Vec::new();
            messages.push(Message { text: row.message_text, created_at: row.message_created_at });
            let member = MemberWithMessages {
                id: row.id,
                username: row.username,
                first_name: row.first_name,
                message_count: row.message_count,
                last_seen_at: row.last_seen_at,
                is_premium: row.is_premium,
                messages,
            };
            groups.push(member);
            proof {
                assert forall|j: int| 0 <= j < groups@.len() implies is_member_of(
                    p2,
                    #[trigger] groups@[j],
                ) by {
                    let g = groups@[j];
                    if j < old_groups.len() {
                        assert(g == old_groups[j]);
                        assert(is_member_of(p, g));
                        lemma_first_pos_bounds(p, g.id);
                    }
                }
                assert forall|a: int, b: int|
                    0 <= a < b < groups@.len() implies first_pos(p2, groups@[a].id) < first_pos(
                    p2,
                    groups@[b].id,
                ) by {
                    assert(is_member_of(p, old_groups[a]));
                    if b < old_groups.len() {
                        assert(is_member_of(p, old_groups[b]));
                    }
                }
                assert forall|i: int| 0 <= i < p2.len() implies exists|kk: int|
                    0 <= kk < groups@.len() && #[trigger] groups@[kk].id == #[trigger] p2[i].id by {
                    if i < p.len() {
                        assert(p2[i] == p[i]);
                        let kk: int = choose|kk: int|
                            0 <= kk < old_groups.len() && #[trigger] old_groups[kk].id == p[i].id;
                        assert(groups@[kk].id == old_groups[kk].id);
                    } else {
                        assert(groups@[old_groups.len() as int].id == p2[i].id);
                    }
                }
            }
        }
        proof {
            p = p2;
        }
    }
    assert(p == all);
    groups
}

/// `s` holds each member once, most messages first, and among equal counts
/// the member whose first row comes first.
pub open spec fn ranked(s: Seq<MemberWithMessages>, rows: Seq<FlatMemberWithMessage>) -> bool {
    forall|k: int, l: int|
        0 <= k < l < s.len() ==> {
            &&& s[k].id != s[l].id
            &&& s[k].message_count >= s[l].message_count
            &&& s[k].message_count == s[l].message_count ==> first_pos(rows, s[k].id) < first_pos(
                rows,
                s[l].id,
            )
        }
}

/// Every element of `s` is a member as the rows give it.
pub open spec fn all_members_of(s: Seq<MemberWithMessages>, rows: Seq<FlatMemberWithMessage>) -> bool {
    forall|k: int| 0 <= k < s.len() ==> is_member_of(rows, #[trigger] s[k])
}

/// `src` and `dst` match the elements of `s` with those of `orig[0..done]`
/// that have the same id, both ways.
spec fn same_ids(
    s: Seq<MemberWithMessages>,
    orig: Seq<MemberWithMessages>,
    done: int,
    src: Seq<int>,
    dst: Seq<int>,
) -> bool {
    &&& src.len() == s.len()
    &&& dst.len() == done
    &&& forall|k: int| 0 <= k < s.len() ==> 0 <= #[trigger] src[k] < done && orig[src[k]].id == s[k].id
    &&& forall|j: int| 0 <= j < done ==> 0 <= #[trigger] dst[j] < s.len() && s[dst[j]].id == orig[j].id
}

proof fn lemma_insert_members(
    old_s: Seq<MemberWithMessages>,
    pos: int,
    g: MemberWithMessages,
    rows: Seq<FlatMemberWithMessage>,
)
    requires
        0 <= pos <= old_s.len(),
        all_members_of(old_s, rows),
        is_member_of(rows, g),
    ensures
        all_members_of(old_s.insert(pos, g), rows),
{
    let s = old_s.insert(pos, g);
    assert forall|k: int| 0 <= k < s.len() implies is_member_of(rows, #[trigger] s[k]) by {
        if k < pos {
            assert(s[k] == old_s[k]);
        } else if k > pos {
            assert(s[k] == old_s[k - 1]);
        }
    }
}

proof fn lemma_insert_ids(
    old_s: Seq<MemberWithMessages>,
    pos: int,
    g: MemberWithMessages,
    orig: Seq<MemberWithMessages>,
    done: int,
    src: Seq<int>,
    dst: Seq<int>,
)
    requires
        0 <= pos <= old_s.len(),
        0 <= done < orig.len(),
        g == orig[done],
        same_ids(old_s, orig, done, src, dst),
    ensures
        same_ids(
            old_s.insert(pos, g),
            orig,
            done + 1,
            src.insert(pos, done),
            Seq::new(dst.len(), |j: int| if dst[j] >= pos { dst[j] + 1 } else { dst[j] }).push(pos),
        ),
{
    let s = old_s.insert(pos, g);
    let src2 = src.insert(pos, done);
    let dst2 = Seq::new(dst.len(), |j: int| if dst[j] >= pos { dst[j] + 1 } else { dst[j] }).push(pos);
    assert forall|k: int| 0 <= k < s.len() implies 0 <= #[trigger] src2[k] < done + 1 && orig[src2[k]].id
        == s[k].id by {
        if k < pos {
            assert(s[k] == old_s[k] && src2[k] == src[k]);
        } else if k > pos {
            assert(s[k] == old_s[k - 1] && src2[k] == src[k - 1]);
        }
    }
    assert forall|j: int| 0 <= j < done + 1 implies 0 <= #[trigger] dst2[j] < s.len() && s[dst2[j]].id
        == orig[j].id by {
        if j < done {
            if dst[j] >= pos {
                assert(s[dst[j] + 1] == old_s[dst[j]]);
            } else {
                assert(s[dst[j]] == old_s[dst[j]]);
            }
        }
    }
}

proof fn lemma_insert_ranked(
    old_s: Seq<MemberWithMessages>,
    pos: int,
    g: MemberWithMessages,
    rows: Seq<FlatMemberWithMessage>,
)
    requires
        0 <= pos <= old_s.len(),
        ranked(old_s, rows),
        forall|a: int| 0 <= a < pos ==> #[trigger] old_s[a].message_count >= g.message_count,
        forall|b: int| pos <= b < old_s.len() ==> #[trigger] old_s[b].message_count < g.message_count,
        forall|a: int|
            0 <= a < old_s.len() ==> first_pos(rows, #[trigger] old_s[a].id) < first_pos(rows, g.id)
                && old_s[a].id != g.id,
    ensures
        ranked(old_s.insert(pos, g), rows),
{
    let s = old_s.insert(pos, g);
    assert forall|k: int, l: int| 0 <= k < l < s.len() implies {
        &&& s[k].id != s[l].id
        &&& s[k].message_count >= s[l].message_count
        &&& s[k].message_count == s[l].message_count ==> first_pos(rows, s[k].id) < first_pos(
            rows,
            s[l].id,
        )
    } by {
        if l < pos {
            assert(s[k] == old_s[k] && s[l] == old_s[l]);
        } else if l == pos {
            assert(s[k] == old_s[k]);
        } else if k < pos {
            assert(s[k] == old_s[k] && s[l] == old_s[l - 1]);
        } else if k == pos {
            assert(s[l] == old_s[l - 1]);
        } else {
            assert(s[k] == old_s[k - 1] && s[l] == old_s[l - 1]);
        }
    }
}

/// `groups`, most messages first, keeping the order of equal counts.
fn sort_by_count(groups: Vec<MemberWithMessages>, Ghost(rows): Ghost<Seq<FlatMemberWithMessage>>) -> (r: Vec<
    MemberWithMessages,
>)
    requires
        all_members_of(groups@, rows),
        forall|k: int, l: int|
            0 <= k < l < groups@.len() ==> first_pos(rows, groups@[k].id) < first_pos(rows, groups@[l].id),
        covers_all(groups@, rows),
    ensures
        all_members_of(r@, rows),
        ranked(r@, rows),
        covers_all(r@, rows),
{
    let ghost orig = groups@;
    assert(orig.len() == groups.len());
    let mut rest = groups;
    let mut sorted: Vec<MemberWithMessages> = Vec::new();
    let mut done: usize = 0;
    let ghost mut src: Seq<int> = seq![];
    let ghost mut dst: Seq<int> = seq![];
    while rest.len() > 0
        invariant
            done + rest@.len() == orig.len(),
            orig.len() <= usize::MAX,
            rest@ == orig.skip(done as int),
            all_members_of(orig, rows),
            forall|k: int, l: int|
                0 <= k < l < orig.len() ==> first_pos(rows, orig[k].id) < first_pos(rows, orig[l].id),
            all_members_of(sorted@, rows),
            ranked(sorted@, rows),
            same_ids(sorted@, orig, done as int, src, dst),
        decreases rest@.len(),
    {
        let g = rest.remove(0);
        proof {
            assert(g == orig[done as int]);
            assert(rest@ == orig.skip(done + 1));
        }
        let mut pos: usize = 0;
        while pos < sorted.len() && sorted[pos].message_count >= g.message_count
            invariant
                pos <= sorted@.len(),
                forall|a: int| 0 <= a < pos ==> #[trigger] sorted@[a].message_count >= g.message_count,
            decreases sorted@.len() - pos,
        {
            pos = pos + 1;
        }
        let ghost old_sorted = sorted@;
        proof {
            assert forall|a: int| 0 <= a < old_sorted.len() implies first_pos(
                rows,
                #[trigger] old_sorted[a].id,
            ) < first_pos(rows, g.id) && old_sorted[a].id != g.id by {
                assert(0 <= src[a] < done);
            }
            assert forall|b: int| pos <= b < old_sorted.len() implies #[trigger] old_sorted[b].message_count
                < g.message_count by {
                if b > pos {
                    assert(old_sorted[pos as int].message_count >= old_sorted[b].message_count);
                }
            }
            lemma_insert_members(old_sorted, pos as int, g, rows);
            lemma_insert_ids(old_sorted, pos as int, g, orig, done as int, src, dst);
            lemma_insert_ranked(old_sorted, pos as int, g, rows);
        }
        sorted.insert(pos, g);
        proof {
            src = src.insert(pos as int, done as int);
            dst = Seq::new(dst.len(), |j: int| if dst[j] >= pos { dst[j] + 1 } else { dst[j] }).push(
                pos as int,
            );
        }
        done = done + 1;
    }
    proof {
        assert forall|i: int| 0 <= i < rows.len() implies exists|k: int|
            0 <= k < sorted@.len() && #[trigger] sorted@[k].id == #[trigger] rows[i].id by {
            let j: int = choose|j: int| 0 <= j < orig.len() && #[trigger] orig[j].id == #[trigger] rows[i].id;
            assert(sorted@[dst[j]].id == rows[i].id);
        }
        assert(covers_all(sorted@, rows));
    }
    sorted
}

} // verus!

verus! {

/// The message count of a member on first sight: 1 when the member shows up
/// through a message, else 0.
pub fn initial_message_count(is_message: bool) -> (c: i64)
    ensures
        c == (if is_message {
            1i64
        } else {
            0i64
        }),
{
    if is_message {
        1
    } else {
        0
    }
}

} // verus!
