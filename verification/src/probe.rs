//! Length prober: the authoritative byte length of a resource, taken from
//! the transfer metadata of a request that does not read the body.

use crate::error::{Failure, FetchError};
use vstd::prelude::*;
use vstd::string::*;

verus! {

/// Mathematical value of a probe result.
pub open spec fn probed_view(r: Result<u64, FetchError>) -> Result<u64, Failure> {
    match r {
        Ok(length) => Ok(length),
        Err(e) => Err(e@),
    }
}

/// What a probe of `url` yields when the response advertised `advertised`:
/// that length, or `MissingLength` where it advertised none.
pub open spec fn probe_model(url: Seq<char>, advertised: Option<u64>) -> Result<u64, Failure> {
    match advertised {
        Some(length) => Ok(length),
        None => Err(Failure::MissingLength { url }),
    }
}

/// Decides a probe of `url` from the length its response advertised.
///
/// A response without a definite length is a failure, never a guess: the
/// cache is valid or stale by length alone.
pub fn probe_length(url: &str, advertised: Option<u64>) -> (r: Result<u64, FetchError>)
    ensures
        probed_view(r) == probe_model(url@, advertised),
{
    match advertised {
        Some(length) => Ok(length),
        None => Err(FetchError::MissingLength { url: String::from_str(url) }),
    }
}

} // verus!
