//! Regular expressions, as the `regex` crate matches them.

use regex::Regex;
use vstd::prelude::*;

verus! {

/// Whether the regular expression `pattern` has a match somewhere in
/// `haystack`; `None` where `pattern` is not accepted as a regular expression.
pub uninterp spec fn regex_is_match(pattern: Seq<char>, haystack: Seq<char>) -> Option<bool>;

/// The capture groups of the first match of `pattern` in `haystack`, in the
/// order of their numbers, each with the text it matched or `None` if it took
/// no part in the match. `None` where there is no match or `pattern` is not
/// accepted as a regular expression.
pub uninterp spec fn regex_captures(pattern: Seq<char>, haystack: Seq<char>) -> Option<
    Seq<Option<Seq<char>>>,
>;

/// Compiles `pattern` with `Regex::new` and asks `Regex::is_match` whether it
/// has a match in `haystack`. Both are taken to depend on the two texts alone.
#[verifier::external_body]
pub(crate) fn is_match(pattern: &str, haystack: &str) -> (r: Option<bool>)
    ensures
        r == regex_is_match(pattern@, haystack@),
{
    match Regex::new(pattern) {
        Ok(re) => Some(re.is_match(haystack)),
        Err(_) => None,
    }
}

/// Compiles `pattern` with `Regex::new`, searches `haystack` with
/// `Regex::captures` and copies out the text of every group that
/// `Captures::iter` yields. All are taken to depend on the two texts alone.
#[verifier::external_body]
pub(crate) fn captures(pattern: &str, haystack: &str) -> (r: Option<Vec<Option<String>>>)
    ensures
        r.deep_view() == regex_captures(pattern@, haystack@),
{
    let re = match Regex::new(pattern) {
        Ok(re) => re,
        Err(_) => return None,
    };
    let found = re.captures(haystack)?;
    let mut groups = Vec::new();
    for group in found.iter() {
        groups.push(group.map(|m| m.as_str().to_string()));
    }
    Some(groups)
}

/// The text of capture group `i`, if there is such a group and it took part
/// in the match.
pub open spec fn capture_group(captures: Seq<Option<Seq<char>>>, i: int) -> Option<Seq<char>> {
    if 0 <= i < captures.len() {
        captures[i]
    } else {
        None
    }
}

/// Whether `pattern` is a regular expression with a match in `haystack`.
pub open spec fn pattern_matches(pattern: Seq<char>, haystack: Seq<char>) -> bool {
    regex_is_match(pattern, haystack) == Some(true)
}

/// Tests `haystack` against `pattern`.
pub fn has_match(pattern: &str, haystack: &str) -> (r: bool)
    ensures
        r == pattern_matches(pattern@, haystack@),
{
    match is_match(pattern, haystack) {
        Some(found) => found,
        None => false,
    }
}

/// The text of capture group `i` of a match.
pub fn group<'a>(captures: &'a Vec<Option<String>>, i: usize) -> (r: Option<&'a str>)
    ensures
        r.deep_view() == capture_group(captures.deep_view(), i as int),
{
    if i < captures.len() {
        match &captures[i] {
            Some(text) => Some(text.as_str()),
            None => None,
        }
    } else {
        None
    }
}

} // verus!
