//! Syntactic validation of submitted URLs.
use vstd::prelude::*;

verus! {

/// Whether the text parses as an absolute URL under the WHATWG URL grammar,
/// as the `url` crate implements it.
pub uninterp spec fn url_parses(s: Seq<char>) -> bool;

/// Relies on `url::Url::parse`: whether it accepts the text, which depends
/// on the text alone.
#[verifier::external_body]
fn parse_ok(s: &str) -> (ok: bool)
    ensures
        ok == url_parses(s@),
{
    url::Url::parse(s).is_ok()
}

/// Whether `url` is a valid absolute URL.
pub fn is_valid_url(url: &str) -> (ok: bool)
    ensures
        ok == url_parses(url@),
{
    parse_ok(url)
}

} // verus!
