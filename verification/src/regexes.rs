//! The trusted boundary to the `regex` crate. Compiling and matching a
//! regular expression is far too large to restate here, so what a compiled
//! pattern accepts, and what it captures, are given names that the wrappers
//! below apply; only `regex::escape` is small enough for an exact contract.

use vstd::prelude::*;

verus! {

/// Does `pattern` compile: whether `regex::Regex::new` succeeds on it.
pub uninterp spec fn regex_compiles(pattern: Seq<char>) -> bool;

/// What `regex::Regex::is_match` returns for the compiled `pattern` on
/// `text`.
pub uninterp spec fn regex_accepts(pattern: Seq<char>, text: Seq<char>) -> bool;

/// What `regex::Regex::captures` yields for the compiled `pattern` on
/// `text`: `None` when nothing matches, otherwise the whole match followed
/// by the capture groups in order, an unmatched group as the empty string.
pub uninterp spec fn regex_captures_of(pattern: Seq<char>, text: Seq<char>) -> Option<
    Seq<Seq<char>>,
>;

/// The characters `regex::escape` puts a backslash before.
pub open spec fn is_meta_char(c: char) -> bool {
    c == '\\' || c == '.' || c == '+' || c == '*' || c == '?' || c == '(' || c == ')' || c == '|'
        || c == '[' || c == ']' || c == '{' || c == '}' || c == '^' || c == '$' || c == '#'
        || c == '&' || c == '-' || c == '~'
}

pub open spec fn escape_char(c: char) -> Seq<char> {
    if is_meta_char(c) {
        seq!['\\', c]
    } else {
        seq![c]
    }
}

/// `s` with every regex meta character escaped, so that it matches itself
/// literally.
pub open spec fn escape_seq(s: Seq<char>) -> Seq<char>
    decreases s.len(),
{
    if s.len() == 0 {
        Seq::empty()
    } else {
        escape_char(s[0]) + escape_seq(s.drop_first())
    }
}

/// Relies on `regex::escape`: a backslash goes before each meta character
/// (`\ . + * ? ( ) | [ ] { } ^ $ # & - ~`), everything else is unchanged.
#[verifier::external_body]
pub(crate) fn regex_escape(s: &str) -> (r: String)
    ensures
        r@ == escape_seq(s@),
{
    regex::escape(s)
}

/// Relies on `regex::Regex::new` and `regex::Regex::is_match`: whether the
/// pattern, once compiled, matches somewhere in the text; `None` when the
/// pattern does not compile.
#[verifier::external_body]
pub(crate) fn regex_is_match(pattern: &str, text: &str) -> (r: Option<bool>)
    ensures
        r is Some <==> regex_compiles(pattern@),
        r matches Some(b) ==> b == regex_accepts(pattern@, text@),
{
    match regex::Regex::new(pattern) {
        Ok(re) => Some(re.is_match(text)),
        Err(_) => None,
    }
}

/// Relies on `regex::Regex::new` and `regex::Regex::captures`: the capture
/// list of the first match — the whole match first, an unmatched group as
/// the empty string — or `None` inside when nothing matches; the outer
/// `None` when the pattern does not compile.
#[verifier::external_body]
pub(crate) fn regex_captures_list(pattern: &str, text: &str) -> (r: Option<Option<Vec<String>>>)
    ensures
        r is Some <==> regex_compiles(pattern@),
        r matches Some(caps) ==> match (caps, regex_captures_of(pattern@, text@)) {
            (Some(v), Some(cs)) => v.deep_view() == cs,
            (None, None) => true,
            _ => false,
        },
{
    match regex::Regex::new(pattern) {
        Ok(re) => Some(
            re.captures(text).map(
                |caps|
                    caps.iter().map(
                        |m| match m {
                            Some(m) => m.as_str().to_owned(),
                            None => String::new(),
                        },
                    ).collect(),
            ),
        ),
        Err(_) => None,
    }
}

} // verus!
