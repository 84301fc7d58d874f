//! Pattern search over bytes, by the `regex` crate.

use vstd::prelude::*;

verus! {

/// What `regex::bytes` finds for `pattern` in `haystack`: `None` when the
/// pattern does not compile, else the successive non-overlapping matches.
pub uninterp spec fn regex_find_all(pattern: Seq<char>, haystack: Seq<u8>) -> Option<Seq<Seq<u8>>>;

pub open spec fn matches_view(r: Option<Vec<Vec<u8>>>) -> Option<Seq<Seq<u8>>> {
    match r {
        Some(ms) => Some(ms@.map_values(|m: Vec<u8>| m@)),
        None => None,
    }
}

/// Relies on `regex::bytes::Regex::new` and `Regex::find_iter`: the matches of
/// a pattern, each as the bytes it covers.
#[verifier::external_body]
pub(crate) fn find_all_matches(pattern: &str, haystack: &[u8]) -> (r: Option<Vec<Vec<u8>>>)
    ensures
        matches_view(r) == regex_find_all(pattern@, haystack@),
{
    match regex::bytes::Regex::new(pattern) {
        Ok(re) => Some(re.find_iter(haystack).map(|m| m.as_bytes().to_vec()).collect()),
        Err(_) => None,
    }
}

} // verus!
