//! Role and capability data of a caller, as cached and forwarded downstream.
use vstd::prelude::*;
use crate::text::{join_comma, joined, views};

verus! {

/// What downstream services learn about an authenticated caller.
#[derive(Clone, Debug)]
pub struct IdentityRecord {
    /// Role names, comma-joined, in order.
    pub roles: String,
    /// Property entries (such as `theme:light`), comma-joined, in order.
    pub properties: String,
    /// Whether the caller signed up through an outside identity provider.
    pub is_federated: bool,
}

pub struct IdentityView {
    pub roles: Seq<char>,
    pub properties: Seq<char>,
    pub is_federated: bool,
}

impl View for IdentityRecord {
    type V = IdentityView;

    open spec fn view(&self) -> IdentityView {
        IdentityView {
            roles: self.roles@,
            properties: self.properties@,
            is_federated: self.is_federated,
        }
    }
}

impl IdentityRecord {
    pub fn copy(&self) -> (r: IdentityRecord)
        ensures
            r@ == self@,
    {
        IdentityRecord {
            roles: self.roles.clone(),
            properties: self.properties.clone(),
            is_federated: self.is_federated,
        }
    }
}

/// Builds the record from a store row: its roles, its properties (none when absent),
/// and the name of the outside identity provider it signed up with, if any.
pub fn identity_from_row(
    roles: Vec<String>,
    properties: Option<Vec<String>>,
    auth_service: Option<String>,
) -> (r: IdentityRecord)
    ensures
        r.roles@ == joined(views(roles@), seq![',']),
        r.properties@ == match properties {
            Some(p) => joined(views(p@), seq![',']),
            None => Seq::empty(),
        },
        r.is_federated == match auth_service {
            Some(s) => s@.len() > 0,
            None => false,
        },
{
    let is_federated = match &auth_service {
        Some(s) => s.as_str().unicode_len() > 0,
        None => false,
    };
    let properties = match properties {
        Some(p) => join_comma(&p),
        None => String::new(),
    };
    IdentityRecord { roles: join_comma(&roles), properties, is_federated }
}

/// The cache key under which the record of `email` is stored.
pub fn user_data_key(email: &str) -> (r: String)
    ensures
        r@ == "auth:user_data:"@ + email@,
{
    let mut key = String::from_str("auth:user_data:");
    key.append(email);
    key
}

} // verus!
