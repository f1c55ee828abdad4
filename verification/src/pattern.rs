//! Regular expressions, evaluated by the `regex` crate.
//!
//! What a pattern matches is not restated here: each call's result is named
//! by a function of the pattern and the text, and the callers' contracts
//! speak of those names.

use vstd::prelude::*;

verus! {

/// Whether `pattern` matches somewhere in `text`; `None` when `pattern` is
/// not a regular expression that the engine accepts.
pub uninterp spec fn regex_match(pattern: Seq<char>, text: Seq<char>) -> Option<bool>;

/// The text that capture group `group` took part with in the leftmost match
/// of `pattern` in `text`; `None` when the pattern is not accepted, does not
/// match, or the group took no part in the match.
pub uninterp spec fn regex_group(pattern: Seq<char>, text: Seq<char>, group: nat) -> Option<
    Seq<char>,
>;

/// `text` with the leftmost match of `pattern` replaced by the expansion of
/// `replacement` (unchanged when nothing matches); `None` when the pattern is
/// not accepted.
pub uninterp spec fn regex_replaced(
    pattern: Seq<char>,
    text: Seq<char>,
    replacement: Seq<char>,
) -> Option<Seq<char>>;

/// Whether `c` has a meaning of its own in a pattern.
pub open spec fn is_meta_character(c: char) -> bool {
    c == '\\' || c == '.' || c == '+' || c == '*' || c == '?' || c == '(' || c == ')' || c == '|'
        || c == '[' || c == ']' || c == '{' || c == '}' || c == '^' || c == '$' || c == '#' || c
        == '&' || c == '-' || c == '~'
}

/// `text` with a backslash before every character that has a meaning of
/// its own in a pattern.
pub open spec fn regex_escaped(text: Seq<char>) -> Seq<char>
    decreases text.len(),
{
    if text.len() == 0 {
        Seq::empty()
    } else {
        regex_escaped(text.drop_last()) + (if is_meta_character(text.last()) {
            seq!['\\', text.last()]
        } else {
            seq![text.last()]
        })
    }
}

/// The view of an optional string.
pub open spec fn opt_text(s: Option<String>) -> Option<Seq<char>> {
    match s {
        Some(t) => Some(t@),
        None => None,
    }
}

/// `regex::Regex::new` followed by `Regex::is_match`: compiles the pattern
/// and searches the text. The result is the named one; nothing else is
/// claimed of it.
#[verifier::external_body]
pub(crate) fn is_match(pattern: &str, text: &str) -> (r: Option<bool>)
    ensures
        r == regex_match(pattern@, text@),
{
    match regex::Regex::new(pattern) {
        Ok(re) => Some(re.is_match(text)),
        Err(_) => None,
    }
}

/// `regex::Regex::new` followed by `Regex::captures` and `Captures::get`:
/// the text of one capture group of the leftmost match. The result is the
/// named one; nothing else is claimed of it.
#[verifier::external_body]
pub(crate) fn capture(pattern: &str, text: &str, group: usize) -> (r: Option<String>)
    ensures
        opt_text(r) == regex_group(pattern@, text@, group as nat),
{
    match regex::Regex::new(pattern) {
        Ok(re) => re.captures(text).and_then(|c| c.get(group)).map(|m| m.as_str().to_string()),
        Err(_) => None,
    }
}

/// `regex::Regex::new` followed by `Regex::replace`: replaces the leftmost
/// match. The result is the named one; nothing else is claimed of it.
#[verifier::external_body]
pub(crate) fn replace_first(pattern: &str, text: &str, replacement: &str) -> (r: Option<String>)
    ensures
        opt_text(r) == regex_replaced(pattern@, text@, replacement@),
{
    match regex::Regex::new(pattern) {
        Ok(re) => Some(re.replace(text, replacement).to_string()),
        Err(_) => None,
    }
}

/// `regex::escape`: copies the text and puts a backslash before each
/// character that the crate lists as a meta character.
#[verifier::external_body]
pub(crate) fn escape(text: &str) -> (r: String)
    ensures
        r@ == regex_escaped(text@),
{
    regex::escape(text)
}

} // verus!
