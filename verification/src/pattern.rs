//! Regular expressions, as the `regex` crate compiles and runs them.
//!
//! Nothing here is proved: each contract says what the crate does.

use vstd::prelude::*;

verus! {

/// `regex::Regex`, a compiled regular expression. Nothing is seen of what
/// it holds.
#[verifier::external_type_specification]
#[verifier::external_body]
pub struct ExRegex(regex::Regex);

/// `regex::Error`, why a pattern did not compile. Nothing is seen of what it
/// holds.
#[verifier::external_type_specification]
#[verifier::external_body]
pub struct ExRegexError(regex::Error);

/// The pattern that `regex` was made of: what `regex::Regex::as_str` gives.
pub uninterp spec fn regex_pattern(regex: regex::Regex) -> Seq<char>;

/// What `regex::Regex::captures` finds for `regex` in `haystack`: nothing
/// where the haystack holds no match; else, for the leftmost match, the text
/// of each capture group in the order of their opening brackets, the whole
/// match first, with `None` for a group that took no part in the match.
pub uninterp spec fn regex_captures(regex: regex::Regex, haystack: Seq<char>) -> Option<
    Seq<Option<Seq<char>>>,
>;

/// Compiles `pattern` by `regex::Regex::new`. Nothing is claimed of the
/// patterns on which the call succeeds: besides the syntax, a limit on the
/// size of what the pattern compiles to decides, and that size is counted in
/// the bytes that the states take on the machine at hand. A regular
/// expression that comes back remembers the pattern it was made of.
#[verifier::external_body]
pub(crate) fn compile(pattern: &str) -> (r: Result<regex::Regex, regex::Error>)
    ensures
        r matches Ok(regex) ==> regex_pattern(regex) == pattern@,
{
    regex::Regex::new(pattern)
}

/// Searches `haystack` by `regex::Regex::captures` and copies out the text
/// of each capture group of the match, in the order in which
/// `regex::Captures::iter` hands them out.
#[verifier::external_body]
pub(crate) fn captures(regex: &regex::Regex, haystack: &str) -> (found: Option<Vec<Option<String>>>)
    ensures
        found.deep_view() == regex_captures(*regex, haystack@),
{
    regex.captures(haystack).map(
        |groups| groups.iter().map(|group| group.map(|m| m.as_str().to_owned())).collect(),
    )
}

} // verus!
