use vstd::prelude::*;

use crate::text::{char_is_alphanumeric, char_is_whitespace, chars_of, is_unicode_alphanumeric, is_white_space};

verus! {

/// Whether the message replies to a message of the bot: `reply_from` is the
/// author of the message replied to, if any.
pub fn is_reply_to_bot(reply_from: Option<u64>, bot_id: u64) -> (r: bool)
    ensures
        r == (reply_from == Some(bot_id)),
{
    match reply_from {
        Some(id) => id == bot_id,
        None => false,
    }
}

/// A character that may end a mention: a letter, a digit or `_`.
pub open spec fn is_word_char(c: char) -> bool {
    is_unicode_alphanumeric(c) || c == '_'
}

/// `w` without the characters at its end that are neither letters, digits nor
/// `_`.
pub open spec fn trim_end_non_word(w: Seq<char>) -> Seq<char>
    decreases w.len(),
{
    if w.len() > 0 && !is_word_char(w.last()) {
        trim_end_non_word(w.drop_last())
    } else {
        w
    }
}

/// The words of `s` after the word `cur` begun before it: the runs of
/// characters between whitespace.
pub open spec fn words_from(s: Seq<char>, cur: Seq<char>) -> Seq<Seq<char>>
    decreases s.len(),
{
    if s.len() == 0 {
        if cur.len() > 0 {
            seq![cur]
        } else {
            seq![]
        }
    } else if is_white_space(s[0]) {
        (if cur.len() > 0 {
            seq![cur]
        } else {
            seq![]
        }) + words_from(s.drop_first(), seq![])
    } else {
        words_from(s.drop_first(), cur.push(s[0]))
    }
}

/// The whitespace-separated words of `s`, in order.
pub open spec fn words(s: Seq<char>) -> Seq<Seq<char>> {
    words_from(s, seq![])
}

/// Whether one of `ws`, without its trailing punctuation, is `needle`.
pub open spec fn any_word_is(ws: Seq<Seq<char>>, needle: Seq<char>) -> bool
    decreases ws.len(),
{
    ws.len() > 0 && (any_word_is(ws.drop_last(), needle) || trim_end_non_word(ws.last()) == needle)
}

/// Whether the text mentions `@bot_name`: one of its words, without trailing
/// punctuation, is `@` followed by the name.
pub open spec fn mentions(text: Option<&str>, bot_name: &str) -> bool {
    match text {
        Some(t) => any_word_is(words(t@), seq!['@'] + bot_name@),
        None => false,
    }
}

/// Whether some word of `ws`, without its trailing punctuation, is `needle`,
/// wherever it stands.
pub open spec fn has_word(ws: Seq<Seq<char>>, needle: Seq<char>) -> bool {
    exists|i: int| 0 <= i < ws.len() && trim_end_non_word(#[trigger] ws[i]) == needle
}

proof fn lemma_any_word_is_has_word(ws: Seq<Seq<char>>, needle: Seq<char>)
    ensures
        any_word_is(ws, needle) == has_word(ws, needle),
    decreases ws.len(),
{
    if ws.len() > 0 {
        let init = ws.drop_last();
        lemma_any_word_is_has_word(init, needle);
        if has_word(init, needle) {
            let i: int = choose|i: int| 0 <= i < init.len() && trim_end_non_word(#[trigger] init[i]) == needle;
            assert(ws[i] == init[i]);
        }
        if trim_end_non_word(ws.last()) == needle {
            assert(ws[ws.len() - 1] == ws.last());
        }
        if has_word(ws, needle) {
            let i: int = choose|i: int| 0 <= i < ws.len() && trim_end_non_word(#[trigger] ws[i]) == needle;
            if i < ws.len() - 1 {
                assert(init[i] == ws[i]);
            }
        }
    }
}

/// A text mentions the bot exactly when one of its whitespace-separated
/// words, at any position, is `@` and the bot's name once the characters
/// other than letters, digits and `_` at its end are removed.
pub proof fn lemma_mentions_any_word(text: &str, bot_name: &str)
    ensures
        mentions(Some(text), bot_name) == exists|i: int|
            0 <= i < words(text@).len() && trim_end_non_word(#[trigger] words(text@)[i]) == seq!['@']
                + bot_name@,
{
    lemma_any_word_is_has_word(words(text@), seq!['@'] + bot_name@);
}

/// Whether `chars[start..end]`, without trailing punctuation, is `needle`.
fn word_is(chars: &Vec<char>, start: usize, end: usize, needle: &Vec<char>) -> (r: bool)
    requires
        start <= end <= chars@.len(),
    ensures
        r == (trim_end_non_word(chars@.subrange(start as int, end as int)) == needle@),
{
    let mut k: usize = end;
    while k > start && !(char_is_alphanumeric(chars[k - 1]) || chars[k - 1] == '_')
        invariant
            start <= k <= end <= chars@.len(),
            trim_end_non_word(chars@.subrange(start as int, end as int)) == trim_end_non_word(
                chars@.subrange(start as int, k as int),
            ),
        decreases k,
    {
        assert(chars@.subrange(start as int, k as int).drop_last() == chars@.subrange(
            start as int,
            k - 1,
        ));
        k = k - 1;
    }
    let ghost w = chars@.subrange(start as int, k as int);
    assert(trim_end_non_word(w) == w);
    if k - start != needle.len() {
        return false;
    }
    let mut j: usize = 0;
    while j < needle.len()
        invariant
            j <= needle@.len() == k - start,
            start <= k <= chars@.len(),
            w == chars@.subrange(start as int, k as int),
            start <= end <= chars@.len(),
            trim_end_non_word(chars@.subrange(start as int, end as int)) == w,
            forall|a: int| 0 <= a < j ==> w[a] == needle@[a],
        decreases needle@.len() - j,
    {
        if chars[start + j] != needle[j] {
            assert(w[j as int] != needle@[j as int]);
            return false;
        }
        j = j + 1;
    }
    assert(w == needle@);
    true
}

/// Whether `text` mentions the bot `@bot_name`.
pub fn is_mentioned(text: Option<&str>, bot_name: &str) -> (r: bool)
    ensures
        r == mentions(text, bot_name),
{
    let t = match text {
        Some(t) => t,
        None => return false,
    };
    let chars = chars_of(t);
    let mut needle: Vec<char> = Vec::new();
    needle.push('@');
    let name = chars_of(bot_name);
    let mut q: usize = 0;
    while q < name.len()
        invariant
            q <= name@.len(),
            needle@ == seq!['@'] + name@.take(q as int),
        decreases name@.len() - q,
    {
        needle.push(name[q]);
        assert(name@.take(q + 1) == name@.take(q as int).push(name@[q as int]));
        q = q + 1;
    }
    assert(name@.take(name@.len() as int) == name@);
    let ghost s = chars@;
    let ghost mut done: Seq<Seq<char>> = seq![];
    let mut found = false;
    let mut start: usize = 0;
    let mut i: usize = 0;
    assert(s.skip(0) == s);
    assert(s.subrange(0, 0) == Seq::<char>::empty());
    while i < chars.len()
        invariant
            start <= i <= chars@.len(),
            s == chars@,
            words(s) == done + words_from(s.skip(i as int), s.subrange(start as int, i as int)),
            found == any_word_is(done, needle@),
        decreases chars@.len() - i,
    {
        let c = chars[i];
        let ghost cur = s.subrange(start as int, i as int);
        proof {
            assert(s.skip(i as int).drop_first() == s.skip(i + 1));
            assert(s.skip(i as int)[0] == c);
        }
        if char_is_whitespace(c) {
            if start < i {
                let m = word_is(&chars, start, i, &needle);
                proof {
                    assert(seq![cur] + words_from(s.skip(i + 1), seq![]) == seq![cur].add(
                        words_from(s.skip(i + 1), seq![]),
                    ));
                    assert(done + (seq![cur] + words_from(s.skip(i + 1), seq![])) == done.push(cur)
                        + words_from(s.skip(i + 1), seq![]));
                    assert(done.push(cur).drop_last() == done);
                    done = done.push(cur);
                }
                found = found || m;
            } else {
                proof {
                    assert(Seq::<Seq<char>>::empty() + words_from(s.skip(i + 1), seq![]) == words_from(
                        s.skip(i + 1),
                        seq![],
                    ));
                }
            }
            start = i + 1;
            proof {
                assert(s.subrange(start as int, start as int) == Seq::<char>::empty());
            }
        } else {
            proof {
                assert(cur.push(c) == s.subrange(start as int, i + 1));
            }
        }
        i = i + 1;
    }
    let ghost cur = s.subrange(start as int, i as int);
    if start < i {
        let m = word_is(&chars, start, i, &needle);
        proof {
            assert(words(s) == done.push(cur));
            assert(done.push(cur).drop_last() == done);
        }
        found = found || m;
    } else {
        proof {
            assert(words(s) == done + Seq::<Seq<char>>::empty());
            assert(done + Seq::<Seq<char>>::empty() == done);
        }
    }
    found
}

} // verus!
