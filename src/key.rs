//! Key normalisation: a raw string becomes the canonical form of the URL it
//! spells, or is rejected.

use vstd::prelude::*;

verus! {

/// The canonical serialisation of the absolute URL that `raw` spells, or
/// `None` where `raw` is no such URL.
pub uninterp spec fn parsed_url(raw: Seq<char>) -> Option<Seq<char>>;

/// Relies on `reqwest::Url::parse` (the `url` crate): it accepts exactly the
/// absolute URLs, and the result's serialisation depends on the input alone.
#[verifier::external_body]
fn parse_url(raw: &str) -> (r: Option<String>)
    ensures
        r.is_some() == parsed_url(raw@).is_some(),
        r matches Some(k) ==> parsed_url(raw@) == Some(k@),
{
    match reqwest::Url::parse(raw) {
        Ok(url) => Some(url.into()),
        Err(_) => None,
    }
}

/// A raw key that is not a well-formed absolute URL.
#[derive(PartialEq, Eq, Structural, Debug, Clone, Copy)]
pub struct InvalidKey;

/// The canonical key for `raw`, or `InvalidKey` where `raw` does not parse as
/// an absolute URL.
pub fn normalize(raw: &str) -> (r: Result<String, InvalidKey>)
    ensures
        r.is_ok() == parsed_url(raw@).is_some(),
        r matches Ok(k) ==> parsed_url(raw@) == Some(k@),
{
    match parse_url(raw) {
        Some(k) => Ok(k),
        None => Err(InvalidKey),
    }
}

} // verus!
