use vstd::prelude::*;

verus! {

/// The Unicode `White_Space` property (PropList.txt), the notion of whitespace
/// that `char::is_whitespace` and `str::trim` use.
pub open spec fn is_white_space(c: char) -> bool {
    let u: u32 = c as u32;
    ||| 0x09 <= u <= 0x0d
    ||| u == 0x20
    ||| u == 0x85
    ||| u == 0xa0
    ||| u == 0x1680
    ||| 0x2000 <= u <= 0x200a
    ||| u == 0x2028
    ||| u == 0x2029
    ||| u == 0x202f
    ||| u == 0x205f
    ||| u == 0x3000
}

/// `s` without its leading whitespace.
pub open spec fn trim_start(s: Seq<char>) -> Seq<char>
    decreases s.len(),
{
    if s.len() > 0 && is_white_space(s[0]) {
        trim_start(s.drop_first())
    } else {
        s
    }
}

/// `s` without its trailing whitespace.
pub open spec fn trim_end(s: Seq<char>) -> Seq<char>
    decreases s.len(),
{
    if s.len() > 0 && is_white_space(s.last()) {
        trim_end(s.drop_last())
    } else {
        s
    }
}

/// `s` without leading and trailing whitespace.
pub open spec fn trimmed(s: Seq<char>) -> Seq<char> {
    trim_end(trim_start(s))
}

/// `str::trim`: the slice of `s` without leading and trailing `White_Space`.
#[verifier::external_body]
pub(crate) fn trim(s: &str) -> (res: &str)
    ensures
        res@ == trimmed(s@),
{
    s.trim()
}

/// Whether `c` has the Unicode `White_Space` property.
pub fn char_is_whitespace(c: char) -> (res: bool)
    ensures
        res == is_white_space(c),
{
    let u: u32 = c as u32;
    (0x09 <= u && u <= 0x0d) || u == 0x20 || u == 0x85 || u == 0xa0 || u == 0x1680 || (0x2000 <= u
        && u <= 0x200a) || u == 0x2028 || u == 0x2029 || u == 0x202f || u == 0x205f || u == 0x3000
}

/// The characters of `s`, in order.
pub fn chars_of(s: &str) -> (v: Vec<char>)
    ensures
        v@ == s@,
{
    let mut v: Vec<char> = Vec::new();
    for c in it: s.chars()
        invariant
            v@ == it.seq().take(it.index() as int),
    {
        v.push(c);
    }
    v
}


/// The character of the decimal digit `d` (`0 <= d < 10`).
pub open spec fn digit_char(d: nat) -> char {
    if d == 0 {
        '0'
    } else if d == 1 {
        '1'
    } else if d == 2 {
        '2'
    } else if d == 3 {
        '3'
    } else if d == 4 {
        '4'
    } else if d == 5 {
        '5'
    } else if d == 6 {
        '6'
    } else if d == 7 {
        '7'
    } else if d == 8 {
        '8'
    } else {
        '9'
    }
}

/// The decimal notation of `n`, without leading zeros.
pub open spec fn nat_decimal(n: nat) -> Seq<char>
    decreases n,
{
    if n < 10 {
        seq![digit_char(n)]
    } else {
        nat_decimal(n / 10).push(digit_char(n % 10))
    }
}

/// The decimal notation of `i`, with a leading `-` when it is negative.
pub open spec fn int_decimal(i: int) -> Seq<char> {
    if i < 0 {
        seq!['-'] + nat_decimal((-i) as nat)
    } else {
        nat_decimal(i as nat)
    }
}

/// `n` written with exactly two decimal digits (`n < 100`).
pub open spec fn two_digits(n: nat) -> Seq<char> {
    seq![digit_char(n / 10), digit_char(n % 10)]
}

/// `u64::to_string`: the decimal notation of `x`.
#[verifier::external_body]
pub(crate) fn u64_to_decimal(x: u64) -> (res: String)
    ensures
        res@ == nat_decimal(x as nat),
{
    x.to_string()
}

/// `i64::to_string`: the decimal notation of `x`, with `-` before a negative value.
#[verifier::external_body]
pub(crate) fn i64_to_decimal(x: i64) -> (res: String)
    ensures
        res@ == int_decimal(x as int),
{
    x.to_string()
}

/// Whether the two strings hold the same characters.
pub fn str_eq(a: &str, b: &str) -> (res: bool)
    ensures
        res == (a@ == b@),
{
    let x = chars_of(a);
    let y = chars_of(b);
    if x.len() != y.len() {
        return false;
    }
    let mut i: usize = 0;
    while i < x.len()
        invariant
            i <= x@.len() == y@.len(),
            x@ == a@,
            y@ == b@,
            forall|j: int| 0 <= j < i ==> x@[j] == y@[j],
        decreases x@.len() - i,
    {
        if x[i] != y[i] {
            return false;
        }
        i = i + 1;
    }
    assert(x@ == y@);
    true
}

/// Whether `c` is one of the ASCII digits `0`..`9`.
pub open spec fn is_ascii_digit(c: char) -> bool {
    '0' <= c <= '9'
}

/// The value of a string of decimal digits (0 for the empty string).
pub open spec fn digits_value(s: Seq<char>) -> nat
    decreases s.len(),
{
    if s.len() == 0 {
        0
    } else {
        digits_value(s.drop_last()) * 10 + ((s.last() as int - '0' as int) as nat)
    }
}

/// What `str::parse::<usize>` accepts: an optional `+` followed by at least one
/// ASCII digit and nothing else, whose value fits in `usize`.
pub open spec fn parsed_usize(s: Seq<char>) -> Option<usize> {
    let d = if s.len() > 0 && s[0] == '+' {
        s.drop_first()
    } else {
        s
    };
    if d.len() > 0 && (forall|i: int| 0 <= i < d.len() ==> is_ascii_digit(#[trigger] d[i]))
        && digits_value(d) <= usize::MAX {
        Some(digits_value(d) as usize)
    } else {
        None
    }
}

/// `str::parse::<usize>`, with the parse error dropped: per `usize::from_str_radix`
/// (radix 10) the string must be an optional `+` and then only digits, and the
/// value must fit.
#[verifier::external_body]
pub(crate) fn parse_usize(s: &str) -> (res: Option<usize>)
    ensures
        res == parsed_usize(s@),
{
    s.parse::<usize>().ok()
}

/// Whether `c` is alphabetic or numeric in Unicode's terms (the `Alphabetic`
/// property, or a general category for numbers): what `char::is_alphanumeric`
/// returns, named here because its tables take pages.
pub uninterp spec fn is_unicode_alphanumeric(c: char) -> bool;

/// `char::is_alphanumeric`.
#[verifier::external_body]
pub(crate) fn char_is_alphanumeric(c: char) -> (res: bool)
    ensures
        res == is_unicode_alphanumeric(c),
{
    c.is_alphanumeric()
}


/// Whether `s` begins with `c`.
pub fn starts_with_char(s: &str, c: char) -> (r: bool)
    ensures
        r == (s@.len() > 0 && s@[0] == c),
{
    let n: usize = s.unicode_len();
    n > 0 && s.get_char(0) == c
}

/// `parts` joined with `sep` between each two.
pub open spec fn join(parts: Seq<Seq<char>>, sep: Seq<char>) -> Seq<char>
    decreases parts.len(),
{
    if parts.len() == 0 {
        seq![]
    } else if parts.len() == 1 {
        parts[0]
    } else {
        join(parts.drop_last(), sep) + sep + parts.last()
    }
}

/// Joining one more part adds the separator and the part, unless it is the
/// first.
pub proof fn lemma_join_push(parts: Seq<Seq<char>>, sep: Seq<char>, part: Seq<char>)
    ensures
        join(parts.push(part), sep) == if parts.len() == 0 {
            part
        } else {
            join(parts, sep) + sep + part
        },
{
    assert(parts.push(part).drop_last() == parts);
}


/// What `<str as Debug>::fmt` writes for a string with the characters `s`:
/// the string quoted, with the characters that need it escaped. It depends on
/// the characters alone; the escaping rules take pages, so it is named here.
pub uninterp spec fn str_debug(s: Seq<char>) -> Seq<char>;

/// `<str as Debug>::fmt`, through `format!("{:?}")`.
#[verifier::external_body]
pub(crate) fn debug_str(s: &str) -> (res: String)
    ensures
        res@ == str_debug(s@),
{
    format!("{:?}", s)
}

} // verus!
