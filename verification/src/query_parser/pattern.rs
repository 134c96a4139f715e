//! Regular expressions, as far as the query inspection needs them.

use regex::Regex;
use vstd::prelude::*;

verus! {

/// Whether `pattern` compiles as a regular expression of the `regex` crate and
/// that expression matches somewhere in `text`.
pub uninterp spec fn pattern_matches(pattern: Seq<char>, text: Seq<char>) -> bool;

/// For a `pattern` that compiles as a regular expression of the `regex`
/// crate: for each of its successive non-overlapping matches in `text`, the
/// part of `text` that capture group `group` matched, if the group took part
/// in that match. `None` for a pattern that does not compile.
pub uninterp spec fn pattern_captures(pattern: Seq<char>, text: Seq<char>, group: usize) -> Option<
    Seq<Option<Seq<char>>>,
>;

/// `Regex::new` and `Regex::is_match` of the `regex` crate: compiles
/// `pattern` and searches `text` for a match. A pattern that does not compile
/// matches nothing. The answer is a function of the two texts alone; the
/// contract gives it a name and claims no more.
#[verifier::external_body]
pub(crate) fn contains_pattern(text: &str, pattern: &str) -> (r: bool)
    ensures
        r == pattern_matches(pattern@, text@),
{
    match Regex::new(pattern) {
        Ok(re) => re.is_match(text),
        Err(_) => false,
    }
}

/// `Regex::new` and `Regex::captures_iter` of the `regex` crate, with
/// `Captures::get` on each match: compiles `pattern` and walks its matches in
/// `text`, handing out what group `group` matched in each. The answer is a
/// function of the arguments alone; the contract gives it a name and claims no
/// more.
#[verifier::external_body]
pub(crate) fn captured_groups(text: &str, pattern: &str, group: usize) -> (r: Option<
    Vec<Option<String>>,
>)
    ensures
        r.deep_view() == pattern_captures(pattern@, text@, group),
{
    match Regex::new(pattern) {
        Ok(re) => Some(
            re.captures_iter(text).map(|c| c.get(group).map(|m| m.as_str().to_string())).collect(),
        ),
        Err(_) => None,
    }
}

} // verus!
