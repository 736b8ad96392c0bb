//! Validation of the service addresses read from configuration.
use vstd::prelude::*;
use crate::errors::{ErrorType, InternalError};

verus! {

#[verifier::external_type_specification]
#[verifier::external_body]
pub struct ExUri(http::Uri);

#[verifier::external_type_specification]
#[verifier::external_body]
pub struct ExInvalidUri(http::uri::InvalidUri);

/// Relies on `http::Uri`'s parser: whether it accepts a string depends on that string alone.
pub uninterp spec fn uri_accepts(s: Seq<char>) -> bool;

/// Relies on `<http::Uri as FromStr>::from_str`, which accepts exactly the strings of
/// its URI grammar and rejects the empty string.
#[verifier::external_body]
fn parse_uri(s: &str) -> (r: Result<http::Uri, http::uri::InvalidUri>)
    ensures
        r is Ok <==> uri_accepts(s@),
        s@.len() == 0 ==> r is Err,
{
    s.parse::<http::Uri>()
}

/// Relies on `http::uri::InvalidUri`'s `Display` for a description of the parse failure.
#[verifier::external_body]
fn invalid_uri_reason(e: &http::uri::InvalidUri) -> String {
    e.to_string()
}

/// Parses `url` as a URI. A string the URI grammar rejects gives an internal, not
/// retryable error under operation path `path` with message `msg`; the parser's own
/// description of the failure is kept as its cause.
pub fn validate_url_target(url: &str, path: &str, msg: &str) -> (r: Result<http::Uri, InternalError>)
    ensures
        r is Ok <==> uri_accepts(url@),
        url@.len() == 0 ==> r is Err,
        r is Err ==> r->Err_0.path@ == path@ && r->Err_0.err_type == ErrorType::Internal
            && !r->Err_0.temp && r->Err_0.msg@ == msg@ && r->Err_0.cause is None,
{
    match parse_uri(url) {
        Ok(uri) => Ok(uri),
        Err(e) => Err(
            InternalError::new(
                path.to_owned(),
                invalid_uri_reason(&e),
                ErrorType::Internal,
                false,
                msg.to_owned(),
            ),
        ),
    }
}

} // verus!
