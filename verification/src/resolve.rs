//! The redirect resolver: turns the repository's answer for a key into the
//! outcome the HTTP surface renders.

use vstd::prelude::*;

use crate::links::{find_link_by_key, found_url};
use crate::raw::RawQueryResult;

verus! {

/// The outcome of resolving a key: a redirect to the stored url, rendered as
/// a see-other response with a `Location` header, or a not-found answer with
/// an empty body.
#[derive(Debug, PartialEq)]
pub enum RedirectOutcome {
    Redirect(String),
    NoSuchKey,
}

/// Resolves a key from the raw response to its select-by-key statement: a
/// redirect to the stored url exactly when the lookup found a record with a
/// string `url` field, and a not-found outcome on every failure. A failure is
/// terminal for the request: nothing is retried.
pub fn resolve(raw: RawQueryResult) -> (r: RedirectOutcome)
    ensures
        (found_url(raw) matches Ok(u) ==> r matches RedirectOutcome::Redirect(s) && s@ == u),
        (r is NoSuchKey <==> found_url(raw) is Err),
{
    match find_link_by_key(raw) {
        Result::Ok(u) => RedirectOutcome::Redirect(u),
        Result::Err(_) => RedirectOutcome::NoSuchKey,
    }
}

} // verus!
