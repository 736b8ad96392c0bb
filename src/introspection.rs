//! Reading the authority's answer to a token introspection request.
use vstd::prelude::*;
use crate::errors::{ErrorType, InternalError};

verus! {

/// The outcome of asking the authority about a token.
#[derive(Debug)]
pub enum HydraValidation {
    Valid { sub: String, exp: i64 },
    /// The reason the token is invalid.
    Invalid(String),
}

/// The decoded body of an introspection answer.
#[derive(Debug)]
pub struct IntrospectionResponse {
    pub active: bool,
    pub sub: Option<String>,
    pub exp: Option<i64>,
}

/// The operation path that introspection failures carry.
pub open spec fn introspection_path() -> Seq<char> {
    "auth.controller.validate_token"@
}

/// The authority's introspection endpoint under `base`.
pub fn introspection_url(base: &str) -> (r: String)
    ensures
        r@ == base@ + "/oauth2/introspect"@,
{
    let mut url = base.to_owned();
    url.append("/oauth2/introspect");
    url
}

/// The error for an introspection request that got no answer (transport failure or timeout).
pub fn introspection_unreachable(cause: String) -> (r: InternalError)
    ensures
        r.path@ == introspection_path(),
        r.err == cause,
        r.err_type == ErrorType::Internal,
        !r.temp,
        r.msg@ == "failed to request hydra client"@,
{
    InternalError::new(
        String::from_str("auth.controller.validate_token"),
        cause,
        ErrorType::Internal,
        false,
        String::from_str("failed to request hydra client"),
    )
}

/// Reads an introspection answer with HTTP status `status` and body `body` (`None` when
/// the body could not be decoded). A non-success status is a failure of the authority,
/// never a verdict on the token.
pub fn read_introspection(status: u16, body: Option<IntrospectionResponse>) -> (r: Result<
    HydraValidation,
    InternalError,
>)
    ensures
        !(200 <= status <= 299) ==> r is Err && r->Err_0.path@ == introspection_path()
            && r->Err_0.msg@ == "failed to request hydra client"@,
        200 <= status <= 299 && body is None ==> r is Err && r->Err_0.path@
            == introspection_path() && r->Err_0.msg@
            == "failed to decode the introspection response"@,
        200 <= status <= 299 && body is Some ==> match body->Some_0.sub {
            Some(sub) => if body->Some_0.active {
                r == Ok::<HydraValidation, InternalError>(
                    HydraValidation::Valid {
                        sub,
                        exp: match body->Some_0.exp {
                            Some(e) => e,
                            None => 0,
                        },
                    },
                )
            } else {
                r is Ok && r->Ok_0 is Invalid && r->Ok_0->Invalid_0@ == "token is not active"@
            },
            None => if body->Some_0.active {
                r is Ok && r->Ok_0 is Valid && r->Ok_0->sub@ == Seq::<char>::empty()
                    && r->Ok_0->exp == match body->Some_0.exp {
                    Some(e) => e,
                    None => 0,
                }
            } else {
                r is Ok && r->Ok_0 is Invalid && r->Ok_0->Invalid_0@ == "token is not active"@
            },
        },
{
    if !(200 <= status && status <= 299) {
        return Err(
            InternalError::new(
                String::from_str("auth.controller.validate_token"),
                String::from_str("the authority answered with a non-success status"),
                ErrorType::Internal,
                false,
                String::from_str("failed to request hydra client"),
            ),
        );
    }
    match body {
        None => Err(
            InternalError::new(
                String::from_str("auth.controller.validate_token"),
                String::from_str("the introspection body could not be decoded"),
                ErrorType::JsonUnmarshal,
                false,
                String::from_str("failed to decode the introspection response"),
            ),
        ),
        Some(b) => {
            if b.active {
                let exp = match b.exp {
                    Some(e) => e,
                    None => 0,
                };
                let sub = match b.sub {
                    Some(s) => s,
                    None => String::new(),
                };
                Ok(HydraValidation::Valid { sub, exp })
            } else {
                Ok(HydraValidation::Invalid(String::from_str("token is not active")))
            }
        },
    }
}

} // verus!
