//! Which files the transform leaves alone: those that belong to React or to
//! the styling packages themselves.

use vstd::prelude::*;
use crate::constants::DENIED_FILE_REGEX;

verus! {

/// What searching `haystack` for the regular expression `pattern` gives:
/// `None` where `pattern` does not compile, else whether some part of
/// `haystack` matches it.
pub uninterp spec fn pattern_search(pattern: Seq<char>, haystack: Seq<char>) -> Option<bool>;

/// Whether the denial pattern is found in `path`.
pub open spec fn is_denied_path(path: Seq<char>) -> bool {
    pattern_search(DENIED_FILE_REGEX@, path) == Some(true)
}

/// Whether a module with this file name, if it has one, is left alone. A
/// module without a file name is never left alone.
pub open spec fn is_denied(filename: Option<Seq<char>>) -> bool {
    match filename {
        Some(path) => is_denied_path(path),
        None => false,
    }
}

/// Compiles `pattern` with `regex::Regex::new` and searches `haystack` with
/// `Regex::is_match`.
///
/// Trusted: the result is taken to depend on the two texts alone. Nothing is
/// claimed about which texts match which patterns.
#[verifier::external_body]
pub(crate) fn search(pattern: &str, haystack: &str) -> (found: Option<bool>)
    ensures
        found == pattern_search(pattern@, haystack@),
{
    match regex::Regex::new(pattern) {
        Ok(re) => Some(re.is_match(haystack)),
        Err(_) => None,
    }
}

/// Whether the outcome of a search says that the pattern was found.
pub fn found_in(outcome: Option<bool>) -> (found: bool)
    ensures
        found == (outcome == Some(true)),
{
    match outcome {
        Some(found) => found,
        None => false,
    }
}

/// Whether the denial pattern is found in `path`.
pub fn path_is_denied(path: &str) -> (denied: bool)
    ensures
        denied == is_denied_path(path@),
{
    found_in(search(DENIED_FILE_REGEX, path))
}

} // verus!
