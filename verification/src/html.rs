use vstd::prelude::*;

verus! {

/// `c` as Telegram HTML text: `&`, `<` and `>` become entities.
pub open spec fn escaped_char(c: char) -> Seq<char> {
    if c == '&' {
        "&amp;"@
    } else if c == '<' {
        "&lt;"@
    } else if c == '>' {
        "&gt;"@
    } else {
        seq![c]
    }
}

/// `s` as Telegram HTML text, each character escaped in turn.
pub open spec fn html_escaped(s: Seq<char>) -> Seq<char>
    decreases s.len(),
{
    if s.len() == 0 {
        seq![]
    } else {
        html_escaped(s.drop_last()) + escaped_char(s.last())
    }
}

/// `s` in bold: `<b>`, `s`, `</b>`.
pub open spec fn html_bold(s: Seq<char>) -> Seq<char> {
    "<b>"@ + s + "</b>"@
}

/// `s` in italics: `<i>`, `s`, `</i>`.
pub open spec fn html_italic(s: Seq<char>) -> Seq<char> {
    "<i>"@ + s + "</i>"@
}

/// `teloxide::utils::html::escape`: replaces `&`, `<` and `>` by `&amp;`,
/// `&lt;` and `&gt;` and keeps every other character.
#[verifier::external_body]
pub(crate) fn escape(s: &str) -> (res: String)
    ensures
        res@ == html_escaped(s@),
{
    teloxide::utils::html::escape(s)
}

/// `teloxide::utils::html::bold`: `s` between `<b>` and `</b>`, unescaped.
#[verifier::external_body]
pub(crate) fn bold(s: &str) -> (res: String)
    ensures
        res@ == html_bold(s@),
{
    teloxide::utils::html::bold(s)
}

/// `teloxide::utils::html::italic`: `s` between `<i>` and `</i>`, unescaped.
#[verifier::external_body]
pub(crate) fn italic(s: &str) -> (res: String)
    ensures
        res@ == html_italic(s@),
{
    teloxide::utils::html::italic(s)
}

/// Escaped text holds no `<` and no `>`: what it came from cannot open or
/// close a tag.
pub proof fn lemma_escaped_has_no_tags(s: Seq<char>)
    ensures
        forall|i: int|
            0 <= i < html_escaped(s).len() ==> #[trigger] html_escaped(s)[i] != '<'
                && html_escaped(s)[i] != '>',
    decreases s.len(),
{
    reveal_strlit("&amp;");
    reveal_strlit("&lt;");
    reveal_strlit("&gt;");
    if s.len() > 0 {
        lemma_escaped_has_no_tags(s.drop_last());
        let a = html_escaped(s.drop_last());
        let b = escaped_char(s.last());
        assert(html_escaped(s) == a + b);
        assert forall|i: int| 0 <= i < (a + b).len() implies #[trigger] (a + b)[i] != '<' && (a
            + b)[i] != '>' by {
            if i >= a.len() {
                assert((a + b)[i] == b[i - a.len()]);
            } else {
                assert((a + b)[i] == a[i]);
            }
        }
    }
}

} // verus!
