use vstd::prelude::*;

use crate::text::{char_is_alphanumeric, chars_of, is_unicode_alphanumeric, trim, trimmed};

verus! {

/// A character allowed after the `@` of a username.
pub open spec fn is_username_char(c: char) -> bool {
    is_unicode_alphanumeric(c) || c == '_'
}

/// `s`, once trimmed, is `@` followed by letters, digits and underscores only.
pub open spec fn valid_username(s: Seq<char>) -> bool {
    let t = trimmed(s);
    &&& t.len() > 0
    &&& t[0] == '@'
    &&& forall|i: int| 1 <= i < t.len() ==> is_username_char(#[trigger] t[i])
}

/// A username is valid exactly when, once trimmed, it is `@` followed by
/// characters each of which `char::is_alphanumeric` accepts or is `_`:
/// letters of either case, digits of any script, and `_`.
pub proof fn lemma_valid_username_chars(s: Seq<char>)
    ensures
        valid_username(s) <==> ({
            let t = trimmed(s);
            t.len() > 0 && t[0] == '@' && forall|i: int|
                1 <= i < t.len() ==> is_unicode_alphanumeric(#[trigger] t[i]) || t[i] == '_'
        }),
{
}

/// Validity does not depend on which alphanumeric character stands after the
/// `@`: replacing one character after the `@` of a valid username by any
/// character that `char::is_alphanumeric` accepts (a capital letter in place
/// of a small one, for instance), or by `_`, keeps it valid.
pub proof fn lemma_valid_username_any_alphanumeric(s1: Seq<char>, s2: Seq<char>, i: int, c: char)
    requires
        valid_username(s1),
        1 <= i < trimmed(s1).len(),
        is_unicode_alphanumeric(c) || c == '_',
        trimmed(s2) == trimmed(s1).update(i, c),
    ensures
        valid_username(s2),
{
    let t = trimmed(s2);
    assert forall|j: int| 1 <= j < t.len() implies is_username_char(#[trigger] t[j]) by {
        if j != i {
            assert(t[j] == trimmed(s1)[j]);
        }
    }
}

/// Whether `username` is a Telegram handle: after trimming, `@` followed by
/// letters, digits and underscores only (`@` alone passes).
pub fn is_valid(username: &str) -> (res: bool)
    ensures
        res == valid_username(username@),
{
    let t = chars_of(trim(username));
    if t.len() == 0 || t[0] != '@' {
        return false;
    }
    let mut i: usize = 1;
    while i < t.len()
        invariant
            1 <= i <= t@.len(),
            t@ == trimmed(username@),
            t@.len() > 0,
            t@[0] == '@',
            forall|j: int| 1 <= j < i ==> is_username_char(#[trigger] t@[j]),
        decreases t@.len() - i,
    {
        let c = t[i];
        if !(char_is_alphanumeric(c) || c == '_') {
            return false;
        }
        i = i + 1;
    }
    true
}

/// The username without the `@` in front, trimmed. The first byte of the
/// trimmed text is dropped, so that text must start with a one-byte character.
pub fn normalize(username: &str) -> (res: &str)
    requires
        trimmed(username@).len() > 0,
        (trimmed(username@)[0] as u32) < 0x80,
    ensures
        res@ == trimmed(username@).drop_first(),
{
    let t = trim(username);
    let n: usize = t.unicode_len();
    t.substring_char(1, n)
}

/// A valid username can always be normalized: its trimmed text starts with
/// the one-byte `@`.
pub proof fn lemma_valid_username_normalizes(s: Seq<char>)
    requires
        valid_username(s),
    ensures
        trimmed(s).len() > 0,
        (trimmed(s)[0] as u32) < 0x80,
        trimmed(s)[0] == '@',
{
}

} // verus!
