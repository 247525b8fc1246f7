//! Link resolver: finds the document's relative path in the page markup by
//! applying a pattern once and taking its first capture group.

use crate::error::{Failure, FetchError};
use vstd::prelude::*;

verus! {

/// `regex::Error`, the reason `regex::Regex::new` gives for rejecting a
/// pattern. Trusted as an opaque value: nothing is read from it.
#[verifier::external_type_specification]
#[verifier::external_body]
pub struct ExPatternError(regex::Error);

/// Whether `regex::Regex::new` accepts `pattern`: it is well-formed, and
/// what it compiles to stays within the crate's default size limit.
pub uninterp spec fn pattern_compiles(pattern: Seq<char>) -> bool;

/// What the leftmost match of `pattern` in `text` holds for capture group
/// `group`, as `regex::Regex::captures` reports it: `None` where the pattern
/// matches nowhere, `Some(None)` where it matches but the group took no part
/// in the match or does not exist, `Some(Some(s))` where the group captured
/// `s`.
pub uninterp spec fn first_match_group(pattern: Seq<char>, text: Seq<char>, group: nat) -> Option<
    Option<Seq<char>>,
>;

/// Mathematical value of what a search hands back.
pub open spec fn capture_view(found: Option<Option<String>>) -> Option<Option<Seq<char>>> {
    match found {
        None => None,
        Some(None) => Some(None),
        Some(Some(s)) => Some(Some(s@)),
    }
}

/// Compiles `pattern` with `regex::Regex::new` and searches `text` once with
/// `regex::Regex::captures`, reading capture group `group` of the leftmost
/// match through `regex::Captures::get` and `regex::Match::as_str`.
///
/// Trusted: the call fails exactly on the patterns the crate rejects, and
/// otherwise returns the crate's answer for these three arguments.
#[verifier::external_body]
fn search_group(pattern: &str, text: &str, group: usize) -> (found: Result<
    Option<Option<String>>,
    regex::Error,
>)
    ensures
        found is Ok <==> pattern_compiles(pattern@),
        found matches Ok(m) ==> capture_view(m) == first_match_group(
            pattern@,
            text@,
            group as nat,
        ),
{
    let re = regex::Regex::new(pattern)?;
    Ok(re.captures(text).map(|c| c.get(group).map(|m| m.as_str().to_string())))
}

/// Mathematical value of a resolver result.
pub open spec fn resolved_view(r: Result<String, FetchError>) -> Result<Seq<char>, Failure> {
    match r {
        Ok(path) => Ok(path@),
        Err(e) => Err(e@),
    }
}

/// The link that a finished search yields: the captured text, or
/// `LinkNotFound` where nothing was captured.
pub open spec fn link_of(found: Option<Option<Seq<char>>>) -> Result<Seq<char>, Failure> {
    match found {
        Some(Some(path)) => Ok(path),
        _ => Err(Failure::LinkNotFound),
    }
}

/// What resolving `page` with `pattern` yields.
pub open spec fn resolve_model(page: Seq<char>, pattern: Seq<char>) -> Result<Seq<char>, Failure> {
    if pattern_compiles(pattern) {
        link_of(first_match_group(pattern, page, 1))
    } else {
        Err(Failure::InvalidPattern)
    }
}

/// Turns the outcome of one search into the document's relative path.
pub fn link_from_match(found: Option<Option<String>>) -> (r: Result<String, FetchError>)
    ensures
        resolved_view(r) == link_of(capture_view(found)),
{
    match found {
        Some(Some(path)) => Ok(path),
        _ => Err(FetchError::LinkNotFound),
    }
}

/// Applies `pattern` once to `page_html` and returns its first capture group
/// as the document's relative path.
pub fn resolve(page_html: &str, pattern: &str) -> (r: Result<String, FetchError>)
    ensures
        resolved_view(r) == resolve_model(page_html@, pattern@),
{
    match search_group(pattern, page_html, 1) {
        Ok(found) => link_from_match(found),
        Err(_) => Err(FetchError::InvalidPattern),
    }
}

} // verus!
