//! The answer to a check: a status code, a message key for denials and errors,
//! and the headers to forward on an allow.
use vstd::prelude::*;
use crate::headers::{entry_views, HeaderEntry, HeaderName};

verus! {

/// Status codes of the check protocol.
#[derive(Clone, Copy, Debug, PartialEq, Eq, Structural)]
pub enum Code {
    Allowed,
    PermissionDenied,
    Unauthenticated,
    NotFound,
    Internal,
}

/// The three messages a caller can be shown, each looked up in the translation catalog.
#[derive(Clone, Copy, Debug, PartialEq, Eq, Structural)]
pub enum MessageKey {
    NotFound,
    InvalidToken,
    Internal,
}

pub open spec fn catalog_key(k: MessageKey) -> Seq<char> {
    match k {
        MessageKey::NotFound => "error.not_found"@,
        MessageKey::InvalidToken => "jwt.payload.invalid"@,
        MessageKey::Internal => "error.internal"@,
    }
}

pub open spec fn fallback_text(k: MessageKey) -> Seq<char> {
    match k {
        MessageKey::NotFound => "The requested path is not provided!"@,
        MessageKey::InvalidToken => "Sorry, the authentication payload is invalid, please login first"@,
        MessageKey::Internal => "Sorry, Unexpected internal server error. Our team has been notified. Please try again"@,
    }
}

impl MessageKey {
    /// The key of this message in the translation catalog.
    pub fn catalog_key(&self) -> (r: String)
        ensures
            r@ == catalog_key(*self),
    {
        match self {
            MessageKey::NotFound => String::from_str("error.not_found"),
            MessageKey::InvalidToken => String::from_str("jwt.payload.invalid"),
            MessageKey::Internal => String::from_str("error.internal"),
        }
    }

    /// The English text used when the catalog has no entry.
    pub fn fallback(&self) -> (r: String)
        ensures
            r@ == fallback_text(*self),
    {
        match self {
            MessageKey::NotFound => String::from_str("The requested path is not provided!"),
            MessageKey::InvalidToken => String::from_str(
                "Sorry, the authentication payload is invalid, please login first",
            ),
            MessageKey::Internal => String::from_str(
                "Sorry, Unexpected internal server error. Our team has been notified. Please try again",
            ),
        }
    }
}

/// The text shown for `key`: the catalog's translation when there is one, else English.
pub fn message_text(key: MessageKey, translated: Option<String>) -> (r: String)
    ensures
        r@ == match translated {
            Some(t) => t@,
            None => fallback_text(key),
        },
{
    match translated {
        Some(t) => t,
        None => key.fallback(),
    }
}

/// The answer to one check.
#[derive(Debug)]
pub struct CheckResponse {
    pub code: Code,
    /// The message to show the caller; none on an allow.
    pub message: Option<MessageKey>,
    /// Headers to set downstream; only on an allow.
    pub headers: Vec<HeaderEntry>,
}

pub open spec fn is_allow(r: CheckResponse, headers: Seq<(HeaderName, Seq<char>)>) -> bool {
    &&& r.code == Code::Allowed
    &&& r.message is None
    &&& entry_views(r.headers@) == headers
}

pub open spec fn is_refusal(r: CheckResponse, code: Code, key: MessageKey) -> bool {
    &&& r.code == code
    &&& r.message == Some(key)
    &&& r.headers@.len() == 0
}

impl CheckResponse {
    /// An allow that forwards `headers`.
    pub fn ok(headers: Vec<HeaderEntry>) -> (r: CheckResponse)
        ensures
            r.code == Code::Allowed,
            r.message is None,
            r.headers == headers,
    {
        CheckResponse { code: Code::Allowed, message: None, headers }
    }

    /// A denial for missing, invalid or revoked credentials.
    pub fn denied() -> (r: CheckResponse)
        ensures
            is_refusal(r, Code::PermissionDenied, MessageKey::InvalidToken),
    {
        CheckResponse {
            code: Code::PermissionDenied,
            message: Some(MessageKey::InvalidToken),
            headers: Vec::new(),
        }
    }

    /// The answer for a path that no route knows.
    pub fn not_found() -> (r: CheckResponse)
        ensures
            is_refusal(r, Code::NotFound, MessageKey::NotFound),
    {
        CheckResponse { code: Code::NotFound, message: Some(MessageKey::NotFound), headers: Vec::new() }
    }

    /// The answer when the decision could not be made.
    pub fn internal() -> (r: CheckResponse)
        ensures
            is_refusal(r, Code::Internal, MessageKey::Internal),
    {
        CheckResponse { code: Code::Internal, message: Some(MessageKey::Internal), headers: Vec::new() }
    }
}

} // verus!
