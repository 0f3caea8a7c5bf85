//! Addresses for the routes of the federation protocol. The requests
//! themselves are sent by whoever uses the library.

use vstd::prelude::*;
use std::str::FromStr;

verus! {

/// Why a text is no address.
#[verifier::external_type_specification]
#[verifier::external_body]
pub struct ExParseError(url::ParseError);

/// The address that `path` has when resolved against the base address `url`,
/// in its normal form, or why one of the two does not parse.
pub uninterp spec fn joined_url(url: Seq<char>, path: Seq<char>) -> Result<
    Seq<char>,
    url::ParseError,
>;

/// The view of an address or of the error in its place.
pub open spec fn address_view(r: Result<String, url::ParseError>) -> Result<
    Seq<char>,
    url::ParseError,
> {
    match r {
        Ok(address) => Ok(address@),
        Err(e) => Err(e),
    }
}

/// Parses `url` with `Url::from_str`, resolves `path` against it with
/// `Url::join`, and writes the result with `Url`'s `Display`. What comes out
/// is what contracts call [`joined_url`].
#[verifier::external_body]
fn join_url(url: &str, path: &str) -> (r: Result<String, url::ParseError>)
    ensures
        address_view(r) == joined_url(url@, path@),
{
    Ok(url::Url::from_str(url)?.join(path)?.to_string())
}

/// The address of the route `path` on the server at `url`.
pub fn normalize_url(url: &str, path: &str) -> (r: Result<String, url::ParseError>)
    ensures
        address_view(r) == joined_url(url@, path@),
{
    join_url(url, path)
}

} // verus!
