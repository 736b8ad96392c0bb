//! Claims of an already verified token, read from request metadata that an
//! upstream authenticator filled in.
use vstd::prelude::*;
use crate::text::{opt_seq, parse_i64, parse_i64_spec, strip_bearer, bearer_prefix, text_or_empty};

verus! {

/// Request metadata: readable (name, value) pairs in arrival order, names in lower case.
#[derive(Debug)]
pub struct Metadata {
    pub entries: Vec<(String, String)>,
}

/// The first value under `key`.
pub open spec fn first_value(pairs: Seq<(Seq<char>, Seq<char>)>, key: Seq<char>) -> Option<
    Seq<char>,
>
    decreases pairs.len(),
{
    if pairs.len() == 0 {
        None
    } else if pairs[0].0 == key {
        Some(pairs[0].1)
    } else {
        first_value(pairs.drop_first(), key)
    }
}

impl Metadata {
    pub open spec fn pairs(&self) -> Seq<(Seq<char>, Seq<char>)> {
        self.entries@.map_values(|e: (String, String)| (e.0@, e.1@))
    }

    /// The first value stored under `key`.
    pub fn get(&self, key: &str) -> (r: Option<String>)
        ensures
            opt_seq(r) == first_value(self.pairs(), key@),
    {
        let target = key.to_owned();
        let mut i: usize = 0;
        assert(self.pairs().subrange(0, self.pairs().len() as int) =~= self.pairs());
        while i < self.entries.len()
            invariant
                0 <= i <= self.entries@.len(),
                self.pairs().len() == self.entries@.len(),
                target@ == key@,
                first_value(self.pairs(), key@) == first_value(
                    self.pairs().subrange(i as int, self.pairs().len() as int),
                    key@,
                ),
            decreases self.entries@.len() - i,
        {
            let ghost rest = self.pairs().subrange(i as int, self.pairs().len() as int);
            assert(rest[0] == self.pairs()[i as int]);
            if self.entries[i].0 == target {
                return Some(self.entries[i].1.clone());
            }
            assert(rest.drop_first() =~= self.pairs().subrange(i + 1, self.pairs().len() as int));
            i = i + 1;
        }
        None
    }
}

/// Claims of the token that came with a request.
#[derive(Debug)]
pub struct JwtClaims {
    pub iss: String,
    pub sub: String,
    pub aud: Vec<String>,
    pub exp: Option<i64>,
    pub nbf: Option<i64>,
    pub iat: Option<i64>,
    /// The token id.
    pub jti: String,
}

/// A metadata value read as epoch seconds; `None` when absent or not an integer.
pub open spec fn timestamp_of(value: Option<Seq<char>>) -> Option<i64> {
    match value {
        Some(v) => parse_i64_spec(v),
        None => None,
    }
}

fn timestamp(meta: &Metadata, key: &str) -> (r: Option<i64>)
    ensures
        r == timestamp_of(first_value(meta.pairs(), key@)),
{
    match meta.get(key) {
        Some(v) => parse_i64(v.as_str()),
        None => None,
    }
}

fn text_field(meta: &Metadata, key: &str) -> (r: String)
    ensures
        r@ == text_or_empty(first_value(meta.pairs(), key@)),
{
    match meta.get(key) {
        Some(v) => v,
        None => String::new(),
    }
}

/// Reads the claims from metadata. Absent fields are empty or `None`; this never fails.
pub fn extract_jwt_claims_from_request(meta: &Metadata) -> (r: JwtClaims)
    ensures
        r.iss@ == text_or_empty(first_value(meta.pairs(), "x-jwt-iss"@)),
        r.sub@ == text_or_empty(first_value(meta.pairs(), "x-jwt-sub"@)),
        r.jti@ == text_or_empty(first_value(meta.pairs(), "x-jwt-jti"@)),
        r.exp == timestamp_of(first_value(meta.pairs(), "x-jwt-exp"@)),
        r.nbf == timestamp_of(first_value(meta.pairs(), "x-jwt-nbf"@)),
        r.iat == timestamp_of(first_value(meta.pairs(), "x-jwt-iat"@)),
        match first_value(meta.pairs(), "x-jwt-aud"@) {
            Some(a) => r.aud@.len() == 1 && r.aud@[0]@ == a,
            None => r.aud@.len() == 0,
        },
{
    let mut aud: Vec<String> = Vec::new();
    match meta.get("x-jwt-aud") {
        Some(a) => aud.push(a),
        None => {},
    }
    JwtClaims {
        iss: text_field(meta, "x-jwt-iss"),
        sub: text_field(meta, "x-jwt-sub"),
        aud,
        exp: timestamp(meta, "x-jwt-exp"),
        nbf: timestamp(meta, "x-jwt-nbf"),
        iat: timestamp(meta, "x-jwt-iat"),
        jti: text_field(meta, "x-jwt-jti"),
    }
}

/// The raw token of the `authorization` metadata value `Bearer <token>`.
pub fn extract_jwt_token_from_request(meta: &Metadata) -> (r: Option<String>)
    ensures
        match first_value(meta.pairs(), "authorization"@) {
            Some(v) => if v.len() >= 7 && v.subrange(0, 7) == bearer_prefix() {
                r is Some && r->Some_0@ == v.subrange(7, v.len() as int)
            } else {
                r is None
            },
            None => r is None,
        },
{
    match meta.get("authorization") {
        Some(v) => strip_bearer(v.as_str()),
        None => None,
    }
}

} // verus!
