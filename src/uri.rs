//! Parsing of endpoints into hyper's URI type.

use vstd::prelude::*;

verus! {

#[verifier::external_type_specification]
#[verifier::external_body]
pub struct ExUri(hyper::Uri);

#[verifier::external_type_specification]
#[verifier::external_body]
pub struct ExInvalidUri(hyper::http::uri::InvalidUri);

/// Whether hyper's URI parser accepts the text; it depends on the text alone.
pub uninterp spec fn uri_parses(text: Seq<char>) -> bool;

/// Relies on hyper's `Uri` parser (`FromStr for http::Uri`), which accepts
/// or rejects the text by its bytes alone, and never panics.
#[verifier::external_body]
pub(crate) fn parse_uri(text: &str) -> (r: Result<hyper::Uri, hyper::http::uri::InvalidUri>)
    ensures
        r is Ok <==> uri_parses(text@),
{
    text.parse::<hyper::Uri>()
}

} // verus!
