//! Authorization decision core for an external-authorization sidecar: route
//! classification, claim extraction, the token-status cache policy, the
//! introspection fallback, identity lookup and the forwarded-header builder.
pub mod claims;
pub mod config;
pub mod engine;
pub mod errors;
pub mod headers;
pub mod identity;
pub mod introspection;
pub mod net;
pub mod response;
pub mod routes;
pub mod text;
pub mod token_cache;
pub mod token_status;
