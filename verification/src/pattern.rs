//! Regular-expression matching, done by the `regex` crate.
use vstd::prelude::*;

verus! {

/// What the `regex` crate finds when `pattern` is compiled and run over
/// `text`: `None` when the pattern does not compile, else, for each
/// successive non-overlapping match, the matched text and the text of the
/// first capture group (if that group took part in the match).
pub uninterp spec fn regex_captures(pattern: Seq<char>, text: Seq<char>) -> Option<
    Seq<(Seq<char>, Option<Seq<char>>)>,
>;

/// What the `regex` crate answers when `pattern` is compiled and asked
/// whether it matches somewhere in `text`: `None` when the pattern does not
/// compile.
pub uninterp spec fn regex_is_match(pattern: Seq<char>, text: Seq<char>) -> Option<bool>;

/// Compiles `pattern` with `regex::Regex::new` and collects, with
/// `Regex::captures_iter`, every match over `text` with its first group.
/// Trusted to return exactly `regex_captures(pattern, text)`.
#[verifier::external_body]
pub(crate) fn regex_capture_pairs(pattern: &str, text: &str) -> (r: Option<Vec<(String, Option<String>)>>)
    ensures
        r.deep_view() == regex_captures(pattern@, text@),
{
    match regex::Regex::new(pattern) {
        Ok(re) => {
            let mut found = Vec::new();
            for c in re.captures_iter(text) {
                found.push((c[0].to_string(), c.get(1).map(|m| m.as_str().to_string())));
            }
            Some(found)
        },
        Err(_) => None,
    }
}

/// Whether `c` is an ASCII letter or digit: the class `[a-zA-Z0-9]`.
pub open spec fn is_ascii_alphanumeric(c: char) -> bool {
    let u = c as u32;
    (0x30 <= u <= 0x39) || (0x41 <= u <= 0x5A) || (0x61 <= u <= 0x7A)
}

/// Whether all of `s` is three or four ASCII letters or digits: what the
/// anchored pattern `^[a-zA-Z0-9]{3,4}$` matches.
pub open spec fn three_or_four_alphanumerics(s: Seq<char>) -> bool {
    3 <= s.len() <= 4 && forall|i: int| 0 <= i < s.len() ==> is_ascii_alphanumeric(#[trigger] s[i])
}

/// Compiles `pattern` with `regex::Regex::new` and asks `Regex::is_match`
/// whether it matches in `text`. Trusted to return exactly
/// `regex_is_match(pattern, text)`, and, for the two patterns that the
/// library uses, what the `regex` syntax documentation gives: `^` and `$`
/// anchor at the start and end of the text, `[a-zA-Z0-9]` is one ASCII
/// letter or digit, `\d` is one (Unicode) decimal digit, `{m,n}` and `{n}`
/// repeat; both patterns compile. Which characters besides `0`-`9` count
/// as decimal digits is left unsaid.
#[verifier::external_body]
pub(crate) fn regex_matches(pattern: &str, text: &str) -> (r: Option<bool>)
    ensures
        r == regex_is_match(pattern@, text@),
        pattern@ == "^[a-zA-Z0-9]{3,4}$"@ ==> r == Some(three_or_four_alphanumerics(text@)),
        pattern@ == "^\\d{5}$"@ ==> (r is Some && (r == Some(true) ==> text@.len() == 5)),
{
    match regex::Regex::new(pattern) {
        Ok(re) => Some(re.is_match(text)),
        Err(_) => None,
    }
}

} // verus!
