//! Request headers that the decision reads, the per-request context built from them,
//! and the headers forwarded downstream on an allow.
use vstd::prelude::*;
use crate::identity::IdentityRecord;
use crate::text::{i64_text, int_text};

verus! {

/// Relies on `str::to_lowercase`: the result depends on the characters alone.
pub uninterp spec fn lower_of(s: Seq<char>) -> Seq<char>;

/// Relies on `str::to_lowercase` to fold a header name to lower case.
#[verifier::external_body]
fn lowercase(s: &str) -> (r: String)
    ensures
        r@ == lower_of(s@),
        s@.len() == 0 ==> r@.len() == 0,
{
    s.to_lowercase()
}

/// The last value under `key`: a later pair overrides an earlier one.
pub open spec fn last_value(pairs: Seq<(Seq<char>, Seq<char>)>, key: Seq<char>) -> Option<
    Seq<char>,
>
    decreases pairs.len(),
{
    if pairs.len() == 0 {
        None
    } else if pairs.last().0 == key {
        Some(pairs.last().1)
    } else {
        last_value(pairs.drop_last(), key)
    }
}

pub open spec fn pair_views(pairs: Seq<(String, String)>) -> Seq<(Seq<char>, Seq<char>)> {
    pairs.map_values(|e: (String, String)| (e.0@, e.1@))
}

/// The pairs with each name folded to lower case.
pub open spec fn lowered(pairs: Seq<(Seq<char>, Seq<char>)>) -> Seq<(Seq<char>, Seq<char>)> {
    pairs.map_values(|e: (Seq<char>, Seq<char>)| (lower_of(e.0), e.1))
}

pub open spec fn value_or_empty(pairs: Seq<(Seq<char>, Seq<char>)>, key: Seq<char>) -> Seq<char> {
    match last_value(pairs, key) {
        Some(v) => v,
        None => Seq::empty(),
    }
}

/// The HTTP attributes of a request that the decision uses.
#[derive(Debug)]
pub struct EssentialHttpHeaders {
    pub path: String,
    pub method: String,
    pub user_agent: String,
    pub x_forwarded_for: String,
    pub x_request_id: String,
    pub accept_language: String,
    /// All headers, names in lower case.
    pub headers: Vec<(String, String)>,
}

fn header_value(pairs: &Vec<(String, String)>, key: &str) -> (r: String)
    ensures
        r@ == value_or_empty(pair_views(pairs@), key@),
{
    let target = key.to_owned();
    let mut i: usize = pairs.len();
    assert(pair_views(pairs@).subrange(0, pairs@.len() as int) =~= pair_views(pairs@));
    while i > 0
        invariant
            0 <= i <= pairs@.len(),
            target@ == key@,
            last_value(pair_views(pairs@), key@) == last_value(
                pair_views(pairs@).subrange(0, i as int),
                key@,
            ),
        decreases i,
    {
        let ghost pre = pair_views(pairs@).subrange(0, i as int);
        assert(pre.last() == (pairs@[i - 1].0@, pairs@[i - 1].1@));
        if pairs[i - 1].0 == target {
            return pairs[i - 1].1.clone();
        }
        assert(pre.drop_last() =~= pair_views(pairs@).subrange(0, i - 1));
        i = i - 1;
    }
    String::new()
}

/// Picks the essential headers out of `headers`, whose names are already in lower case.
/// Where a name occurs twice the later value counts.
pub fn essential_headers_from_lowered(
    path: String,
    method: String,
    headers: Vec<(String, String)>,
) -> (r: EssentialHttpHeaders)
    ensures
        r.path == path,
        r.method == method,
        r.headers@ == headers@,
        r.user_agent@ == value_or_empty(pair_views(headers@), "user-agent"@),
        r.x_forwarded_for@ == value_or_empty(pair_views(headers@), "x-forwarded-for"@),
        r.x_request_id@ == value_or_empty(pair_views(headers@), "x-request-id"@),
        r.accept_language@ == value_or_empty(pair_views(headers@), "accept-language"@),
{
    let user_agent = header_value(&headers, "user-agent");
    let x_forwarded_for = header_value(&headers, "x-forwarded-for");
    let x_request_id = header_value(&headers, "x-request-id");
    let accept_language = header_value(&headers, "accept-language");
    EssentialHttpHeaders {
        path,
        method,
        user_agent,
        x_forwarded_for,
        x_request_id,
        accept_language,
        headers,
    }
}

/// Picks the essential headers out of the request's `headers`, matching names without
/// regard to case.
pub fn get_essential_http_headers(
    path: String,
    method: String,
    headers: &Vec<(String, String)>,
) -> (r: EssentialHttpHeaders)
    ensures
        r.path == path,
        r.method == method,
        pair_views(r.headers@) == lowered(pair_views(headers@)),
        r.user_agent@ == value_or_empty(lowered(pair_views(headers@)), "user-agent"@),
        r.x_forwarded_for@ == value_or_empty(lowered(pair_views(headers@)), "x-forwarded-for"@),
        r.x_request_id@ == value_or_empty(lowered(pair_views(headers@)), "x-request-id"@),
        r.accept_language@ == value_or_empty(lowered(pair_views(headers@)), "accept-language"@),
{
    let mut folded: Vec<(String, String)> = Vec::new();
    let mut i: usize = 0;
    while i < headers.len()
        invariant
            0 <= i <= headers@.len(),
            folded@.len() == i,
            forall|k: int|
                0 <= k < i ==> #[trigger] folded@[k].0@ == lower_of(headers@[k].0@) && folded@[k].1@
                    == headers@[k].1@,
        decreases headers@.len() - i,
    {
        let name = lowercase(headers[i].0.as_str());
        folded.push((name, headers[i].1.clone()));
        i = i + 1;
    }
    assert(pair_views(folded@) =~= lowered(pair_views(headers@)));
    essential_headers_from_lowered(path, method, folded)
}

/// The per-request context, built once and read through the whole decision.
#[derive(Debug)]
pub struct RequestContext {
    pub ip_address: String,
    pub x_forwarded_for: String,
    pub request_id: String,
    pub path: String,
    pub user_agent: String,
    pub accept_language: String,
}

impl RequestContext {
    /// The context of a request with the given essential headers. The client address is
    /// taken from the forwarded-for header.
    pub fn from_headers(h: EssentialHttpHeaders) -> (r: RequestContext)
        ensures
            r.ip_address == h.x_forwarded_for,
            r.x_forwarded_for == h.x_forwarded_for,
            r.request_id == h.x_request_id,
            r.path == h.path,
            r.user_agent == h.user_agent,
            r.accept_language == h.accept_language,
    {
        RequestContext {
            ip_address: h.x_forwarded_for.clone(),
            x_forwarded_for: h.x_forwarded_for,
            request_id: h.x_request_id,
            path: h.path,
            user_agent: h.user_agent,
            accept_language: h.accept_language,
        }
    }
}

/// Names of the headers forwarded downstream.
#[derive(Clone, Copy, Debug, PartialEq, Eq, Structural)]
pub enum HeaderName {
    SessionId,
    Token,
    CreatedAt,
    ExpiresAt,
    LastActivityAt,
    UserId,
    DeviceId,
    Roles,
    IsOauth,
    Props,
    XRequestId,
    XIpAddress,
    XForwardedFor,
    Path,
    UserAgent,
    AcceptLanguage,
}

pub open spec fn header_name_text(n: HeaderName) -> Seq<char> {
    match n {
        HeaderName::SessionId => "x-session-id"@,
        HeaderName::Token => "x-token"@,
        HeaderName::CreatedAt => "x-created-at"@,
        HeaderName::ExpiresAt => "x-expires-at"@,
        HeaderName::LastActivityAt => "x-last-activity-at"@,
        HeaderName::UserId => "x-user-id"@,
        HeaderName::DeviceId => "x-device-id"@,
        HeaderName::Roles => "x-roles"@,
        HeaderName::IsOauth => "x-is-oauth"@,
        HeaderName::Props => "x-props"@,
        HeaderName::XRequestId => "x-request-id"@,
        HeaderName::XIpAddress => "x-ip-address"@,
        HeaderName::XForwardedFor => "x-forwarded-for"@,
        HeaderName::Path => "x-path"@,
        HeaderName::UserAgent => "user-agent"@,
        HeaderName::AcceptLanguage => "accept-language"@,
    }
}

impl HeaderName {
    /// The wire name of this header.
    pub fn text(&self) -> (r: String)
        ensures
            r@ == header_name_text(*self),
    {
        match self {
            HeaderName::SessionId => String::from_str("x-session-id"),
            HeaderName::Token => String::from_str("x-token"),
            HeaderName::CreatedAt => String::from_str("x-created-at"),
            HeaderName::ExpiresAt => String::from_str("x-expires-at"),
            HeaderName::LastActivityAt => String::from_str("x-last-activity-at"),
            HeaderName::UserId => String::from_str("x-user-id"),
            HeaderName::DeviceId => String::from_str("x-device-id"),
            HeaderName::Roles => String::from_str("x-roles"),
            HeaderName::IsOauth => String::from_str("x-is-oauth"),
            HeaderName::Props => String::from_str("x-props"),
            HeaderName::XRequestId => String::from_str("x-request-id"),
            HeaderName::XIpAddress => String::from_str("x-ip-address"),
            HeaderName::XForwardedFor => String::from_str("x-forwarded-for"),
            HeaderName::Path => String::from_str("x-path"),
            HeaderName::UserAgent => String::from_str("user-agent"),
            HeaderName::AcceptLanguage => String::from_str("accept-language"),
        }
    }
}

/// One header to set downstream; it overwrites any value already under that name.
#[derive(Debug)]
pub struct HeaderEntry {
    pub name: HeaderName,
    pub value: String,
}

pub open spec fn entry_views(v: Seq<HeaderEntry>) -> Seq<(HeaderName, Seq<char>)> {
    v.map_values(|e: HeaderEntry| (e.name, e.value@))
}

/// What an authenticated caller on a protected route forwards besides the request context.
#[derive(Debug)]
pub struct Session {
    pub token_id: String,
    pub token: String,
    pub issued_at: Option<i64>,
    pub expires_at: Option<i64>,
    pub subject: String,
    pub device_id: String,
    pub identity: IdentityRecord,
}

/// `s` with header `name` appended, unless `value` is empty.
pub open spec fn with_header(s: Seq<(HeaderName, Seq<char>)>, name: HeaderName, value: Seq<
    char,
>) -> Seq<(HeaderName, Seq<char>)> {
    if value.len() == 0 {
        s
    } else {
        s.push((name, value))
    }
}

pub open spec fn opt_time_text(t: Option<i64>) -> Seq<char> {
    match t {
        Some(v) => int_text(v as int),
        None => Seq::empty(),
    }
}

pub open spec fn bool_text(b: bool) -> Seq<char> {
    if b {
        "true"@
    } else {
        "false"@
    }
}

/// The session headers, in order, each only when its value is not empty.
pub open spec fn session_headers(s: Session, now: i64) -> Seq<(HeaderName, Seq<char>)> {
    let h0 = with_header(Seq::empty(), HeaderName::SessionId, s.token_id@);
    let h1 = with_header(h0, HeaderName::Token, s.token@);
    let h2 = with_header(h1, HeaderName::CreatedAt, opt_time_text(s.issued_at));
    let h3 = with_header(h2, HeaderName::ExpiresAt, opt_time_text(s.expires_at));
    let h4 = with_header(h3, HeaderName::LastActivityAt, int_text(now as int));
    let h5 = with_header(h4, HeaderName::UserId, s.subject@);
    let h6 = with_header(h5, HeaderName::DeviceId, s.device_id@);
    let h7 = with_header(h6, HeaderName::Roles, s.identity.roles@);
    let h8 = with_header(h7, HeaderName::IsOauth, bool_text(s.identity.is_federated));
    with_header(h8, HeaderName::Props, s.identity.properties@)
}

/// `start` followed by the request context's headers, each only when not empty.
pub open spec fn context_headers(start: Seq<(HeaderName, Seq<char>)>, ctx: RequestContext) -> Seq<
    (HeaderName, Seq<char>),
> {
    let c0 = with_header(start, HeaderName::XRequestId, ctx.request_id@);
    let c1 = with_header(c0, HeaderName::XIpAddress, ctx.ip_address@);
    let c2 = with_header(c1, HeaderName::XForwardedFor, ctx.x_forwarded_for@);
    let c3 = with_header(c2, HeaderName::Path, ctx.path@);
    let c4 = with_header(c3, HeaderName::UserAgent, ctx.user_agent@);
    with_header(c4, HeaderName::AcceptLanguage, ctx.accept_language@)
}

/// The headers forwarded on an allow: the session's (for an authenticated caller),
/// then the request context's, each only when its value is not empty.
pub open spec fn forwarded_headers(ctx: RequestContext, session: Option<Session>, now: i64) -> Seq<
    (HeaderName, Seq<char>),
> {
    let start = match session {
        Some(s) => session_headers(s, now),
        None => Seq::empty(),
    };
    context_headers(start, ctx)
}

fn push_header(headers: &mut Vec<HeaderEntry>, name: HeaderName, value: String)
    ensures
        entry_views(final(headers)@) == with_header(entry_views(old(headers)@), name, value@),
{
    if value.as_str().unicode_len() > 0 {
        headers.push(HeaderEntry { name, value });
        assert(entry_views(final(headers)@) =~= entry_views(old(headers)@).push((name, value@)));
    }
}

fn opt_time_string(t: Option<i64>) -> (r: String)
    ensures
        r@ == opt_time_text(t),
{
    match t {
        Some(v) => i64_text(v),
        None => String::new(),
    }
}

fn bool_string(b: bool) -> (r: String)
    ensures
        r@ == bool_text(b),
{
    if b {
        String::from_str("true")
    } else {
        String::from_str("false")
    }
}

fn push_session_headers(headers: &mut Vec<HeaderEntry>, s: &Session, now: i64)
    requires
        old(headers)@.len() == 0,
    ensures
        entry_views(final(headers)@) == session_headers(*s, now),
{
    assert(entry_views(headers@) =~= Seq::<(HeaderName, Seq<char>)>::empty());
    push_header(headers, HeaderName::SessionId, s.token_id.clone());
    push_header(headers, HeaderName::Token, s.token.clone());
    push_header(headers, HeaderName::CreatedAt, opt_time_string(s.issued_at));
    push_header(headers, HeaderName::ExpiresAt, opt_time_string(s.expires_at));
    push_header(headers, HeaderName::LastActivityAt, i64_text(now));
    push_header(headers, HeaderName::UserId, s.subject.clone());
    push_header(headers, HeaderName::DeviceId, s.device_id.clone());
    push_header(headers, HeaderName::Roles, s.identity.roles.clone());
    push_header(headers, HeaderName::IsOauth, bool_string(s.identity.is_federated));
    push_header(headers, HeaderName::Props, s.identity.properties.clone());
}

fn push_context_headers(headers: &mut Vec<HeaderEntry>, ctx: &RequestContext)
    ensures
        entry_views(final(headers)@) == context_headers(entry_views(old(headers)@), *ctx),
{
    push_header(headers, HeaderName::XRequestId, ctx.request_id.clone());
    push_header(headers, HeaderName::XIpAddress, ctx.ip_address.clone());
    push_header(headers, HeaderName::XForwardedFor, ctx.x_forwarded_for.clone());
    push_header(headers, HeaderName::Path, ctx.path.clone());
    push_header(headers, HeaderName::UserAgent, ctx.user_agent.clone());
    push_header(headers, HeaderName::AcceptLanguage, ctx.accept_language.clone());
}

/// Builds the headers to forward on an allow, at time `now` (epoch seconds).
pub fn prepare_headers(ctx: &RequestContext, session: Option<&Session>, now: i64) -> (r: Vec<
    HeaderEntry,
>)
    ensures
        entry_views(r@) == forwarded_headers(
            *ctx,
            match session {
                Some(s) => Some(*s),
                None => None,
            },
            now,
        ),
{
    let mut headers: Vec<HeaderEntry> = Vec::new();
    match session {
        Some(s) => push_session_headers(&mut headers, s, now),
        None => {
            assert(entry_views(headers@) =~= Seq::<(HeaderName, Seq<char>)>::empty());
        },
    }
    push_context_headers(&mut headers, ctx);
    headers
}

proof fn lemma_with_header_nonempty(s: Seq<(HeaderName, Seq<char>)>, name: HeaderName, value: Seq<
    char,
>)
    requires
        forall|i: int| 0 <= i < s.len() ==> #[trigger] s[i].1.len() > 0,
    ensures
        forall|i: int|
            0 <= i < with_header(s, name, value).len() ==> #[trigger] with_header(
                s,
                name,
                value,
            )[i].1.len() > 0,
        s.len() > 0 ==> with_header(s, name, value)[0] == s[0],
{
}

/// Every forwarded header has a non-empty value, and for an authenticated caller with a
/// token id the first forwarded header is the session id, equal to that token id.
pub proof fn lemma_forwarded_headers_policy(ctx: RequestContext, session: Option<Session>, now: i64)
    ensures
        forall|i: int|
            0 <= i < forwarded_headers(ctx, session, now).len() ==> #[trigger] forwarded_headers(
                ctx,
                session,
                now,
            )[i].1.len() > 0,
        session is Some && session->Some_0.token_id@.len() > 0 ==> forwarded_headers(
            ctx,
            session,
            now,
        )[0] == (HeaderName::SessionId, session->Some_0.token_id@),
{
    let e = Seq::<(HeaderName, Seq<char>)>::empty();
    let start = match session {
        Some(s) => session_headers(s, now),
        None => e,
    };
    match session {
        Some(s) => {
            let h0 = with_header(e, HeaderName::SessionId, s.token_id@);
            lemma_with_header_nonempty(e, HeaderName::SessionId, s.token_id@);
            let h1 = with_header(h0, HeaderName::Token, s.token@);
            lemma_with_header_nonempty(h0, HeaderName::Token, s.token@);
            let h2 = with_header(h1, HeaderName::CreatedAt, opt_time_text(s.issued_at));
            lemma_with_header_nonempty(h1, HeaderName::CreatedAt, opt_time_text(s.issued_at));
            let h3 = with_header(h2, HeaderName::ExpiresAt, opt_time_text(s.expires_at));
            lemma_with_header_nonempty(h2, HeaderName::ExpiresAt, opt_time_text(s.expires_at));
            let h4 = with_header(h3, HeaderName::LastActivityAt, int_text(now as int));
            lemma_with_header_nonempty(h3, HeaderName::LastActivityAt, int_text(now as int));
            let h5 = with_header(h4, HeaderName::UserId, s.subject@);
            lemma_with_header_nonempty(h4, HeaderName::UserId, s.subject@);
            let h6 = with_header(h5, HeaderName::DeviceId, s.device_id@);
            lemma_with_header_nonempty(h5, HeaderName::DeviceId, s.device_id@);
            let r = s.identity.roles@;
            let h7 = with_header(h6, HeaderName::Roles, r);
            lemma_with_header_nonempty(h6, HeaderName::Roles, r);
            let b = bool_text(s.identity.is_federated);
            let h8 = with_header(h7, HeaderName::IsOauth, b);
            lemma_with_header_nonempty(h7, HeaderName::IsOauth, b);
            let p = s.identity.properties@;
            lemma_with_header_nonempty(h8, HeaderName::Props, p);
        },
        None => {},
    }
    let c0 = with_header(start, HeaderName::XRequestId, ctx.request_id@);
    lemma_with_header_nonempty(start, HeaderName::XRequestId, ctx.request_id@);
    let c1 = with_header(c0, HeaderName::XIpAddress, ctx.ip_address@);
    lemma_with_header_nonempty(c0, HeaderName::XIpAddress, ctx.ip_address@);
    let c2 = with_header(c1, HeaderName::XForwardedFor, ctx.x_forwarded_for@);
    lemma_with_header_nonempty(c1, HeaderName::XForwardedFor, ctx.x_forwarded_for@);
    let c3 = with_header(c2, HeaderName::Path, ctx.path@);
    lemma_with_header_nonempty(c2, HeaderName::Path, ctx.path@);
    let c4 = with_header(c3, HeaderName::UserAgent, ctx.user_agent@);
    lemma_with_header_nonempty(c3, HeaderName::UserAgent, ctx.user_agent@);
    lemma_with_header_nonempty(c4, HeaderName::AcceptLanguage, ctx.accept_language@);
}

} // verus!
