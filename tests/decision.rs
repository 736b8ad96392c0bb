use megacommerce_auth::claims::Metadata;
use megacommerce_auth::engine::{Action, CheckState, Event, Phase, Step};
use megacommerce_auth::errors::{ErrorType, InternalError};
use megacommerce_auth::headers::{HeaderName, RequestContext};
use megacommerce_auth::identity::IdentityRecord;
use megacommerce_auth::introspection::HydraValidation;
use megacommerce_auth::response::{CheckResponse, Code, MessageKey};
use megacommerce_auth::routes::{RouteEntry, RouteTable};
use megacommerce_auth::token_cache::MemoryTokenCache;
use megacommerce_auth::token_status::TokenStatus;

const NOW: i64 = 1_700_000_000;

fn routes() -> RouteTable {
    RouteTable::new(vec![
        RouteEntry { path: "/public".to_string(), protected: false },
        RouteEntry { path: "/orders".to_string(), protected: true },
    ])
}

fn ctx(path: &str) -> RequestContext {
    RequestContext {
        ip_address: "10.0.0.1".to_string(),
        x_forwarded_for: "10.0.0.1".to_string(),
        request_id: "req-1".to_string(),
        path: path.to_string(),
        user_agent: "agent".to_string(),
        accept_language: "en".to_string(),
    }
}

fn meta(jti: &str) -> Metadata {
    let mut entries = vec![
        ("x-jwt-sub".to_string(), "ada@example.com".to_string()),
        ("x-jwt-iat".to_string(), "1699990000".to_string()),
        ("x-jwt-exp".to_string(), "1700090000".to_string()),
        ("authorization".to_string(), "Bearer raw.jwt.value".to_string()),
    ];
    if !jti.is_empty() {
        entries.push(("x-jwt-jti".to_string(), jti.to_string()));
    }
    Metadata { entries }
}

fn record() -> IdentityRecord {
    IdentityRecord {
        roles: "customer,supplier".to_string(),
        properties: "verified".to_string(),
        is_federated: true,
    }
}

/// Everything the outside world did while one check ran.
struct Run {
    response: CheckResponse,
    cache_reads: usize,
    cache_writes: usize,
    introspections: usize,
    reports: usize,
}

fn vstatus(s: &TokenStatus) -> TokenStatus {
    TokenStatus { revoked: s.revoked, last_checked: s.last_checked, device_id: s.device_id.clone() }
}

/// Runs a check against an in-memory cache; the authority answers `answer`.
fn run(
    path: &str,
    m: &Metadata,
    cache: &mut MemoryTokenCache,
    answer: fn() -> Result<HydraValidation, InternalError>,
) -> Run {
    let table = routes();
    let mut step: Step = CheckState::begin(&table, ctx(path), m, NOW);
    let mut out = Run { response: CheckResponse::internal(), cache_reads: 0, cache_writes: 0, introspections: 0, reports: 0 };
    let mut identity_cached = false;
    loop {
        if step.report.is_some() {
            out.reports += 1;
        }
        let state = step.state;
        let event = match step.action {
            Action::Finish(resp) => {
                assert_eq!(state.phase, Phase::Done);
                out.response = resp;
                return out;
            }
            Action::ReadStatus { token_id } => {
                out.cache_reads += 1;
                Event::StatusRead(Ok(cache.get(&token_id)))
            }
            Action::WriteStatus { token_id, status } => {
                out.cache_writes += 1;
                cache.set(&token_id, status);
                Event::StatusWritten(Ok(()))
            }
            Action::Introspect { token } => {
                assert_eq!(token, "raw.jwt.value");
                out.introspections += 1;
                Event::Introspected(answer())
            }
            Action::ReadIdentity { subject } => {
                assert_eq!(subject, "ada@example.com");
                Event::IdentityCached(Ok(if identity_cached { Some(record()) } else { None }))
            }
            Action::QueryIdentity { .. } => Event::IdentityQueried(Ok(record())),
            Action::WriteIdentity { .. } => {
                identity_cached = true;
                Event::IdentityWritten(Ok(()))
            }
        };
        step = state.step(event);
    }
}

fn valid() -> Result<HydraValidation, InternalError> {
    Ok(HydraValidation::Valid { sub: "ada@example.com".to_string(), exp: NOW + 600 })
}

fn invalid() -> Result<HydraValidation, InternalError> {
    Ok(HydraValidation::Invalid("token is not active".to_string()))
}

fn unreachable_authority() -> Result<HydraValidation, InternalError> {
    Err(InternalError::new(
        "auth.controller.validate_token".to_string(),
        "timeout".to_string(),
        ErrorType::Internal,
        false,
        "failed to request hydra client".to_string(),
    ))
}

fn header<'a>(resp: &'a CheckResponse, name: HeaderName) -> Option<&'a str> {
    resp.headers.iter().find(|h| h.name == name).map(|h| h.value.as_str())
}

#[test]
fn unknown_path_is_not_found_without_token_work() {
    let mut cache = MemoryTokenCache::new();
    let r = run("/nowhere", &meta("T"), &mut cache, valid);
    assert_eq!(r.response.code, Code::NotFound);
    assert_eq!(r.response.message, Some(MessageKey::NotFound));
    assert_eq!((r.cache_reads, r.cache_writes, r.introspections), (0, 0, 0));
}

#[test]
fn public_path_is_allowed_with_or_without_token() {
    for m in [meta("T"), Metadata { entries: vec![] }] {
        let mut cache = MemoryTokenCache::new();
        let r = run("/public", &m, &mut cache, valid);
        assert_eq!(r.response.code, Code::Allowed);
        assert_eq!((r.cache_reads, r.cache_writes, r.introspections), (0, 0, 0));
        assert_eq!(header(&r.response, HeaderName::SessionId), None);
        assert_eq!(header(&r.response, HeaderName::XRequestId), Some("req-1"));
        assert_eq!(header(&r.response, HeaderName::Path), Some("/public"));
    }
}

#[test]
fn standard_routes_are_public() {
    let table = RouteTable::standard();
    let step = CheckState::begin(&table, ctx("/users.v1.UsersService/Login"), &meta(""), NOW);
    match step.action {
        Action::Finish(resp) => assert_eq!(resp.code, Code::Allowed),
        _ => panic!("expected an answer"),
    }
}

#[test]
fn protected_path_without_token_id_is_denied() {
    let mut cache = MemoryTokenCache::new();
    let r = run("/orders", &meta(""), &mut cache, valid);
    assert_eq!(r.response.code, Code::PermissionDenied);
    assert_eq!(r.response.message, Some(MessageKey::InvalidToken));
    assert_eq!((r.cache_reads, r.cache_writes, r.introspections), (0, 0, 0));
}

#[test]
fn revoked_token_is_denied_without_introspection() {
    let mut cache = MemoryTokenCache::new();
    cache.set("T", TokenStatus { revoked: true, last_checked: NOW, device_id: String::new() });
    let r = run("/orders", &meta("T"), &mut cache, valid);
    assert_eq!(r.response.code, Code::PermissionDenied);
    assert_eq!(r.introspections, 0);
}

#[test]
fn uncached_token_is_introspected_once_and_recorded() {
    let mut cache = MemoryTokenCache::new();
    let r = run("/orders", &meta("T"), &mut cache, valid);
    assert_eq!(r.introspections, 1);
    assert_eq!(r.response.code, Code::Allowed);
    let st = cache.get("T").expect("status recorded");
    assert!(!st.revoked);
    assert_eq!(st.last_checked, NOW);
    assert_eq!(header(&r.response, HeaderName::SessionId), Some("T"));
    assert_eq!(header(&r.response, HeaderName::Token), Some("raw.jwt.value"));
    assert_eq!(header(&r.response, HeaderName::Roles), Some("customer,supplier"));
    assert_eq!(header(&r.response, HeaderName::Props), Some("verified"));
    assert_eq!(header(&r.response, HeaderName::IsOauth), Some("true"));
    assert_eq!(header(&r.response, HeaderName::CreatedAt), Some("1699990000"));
    assert_eq!(header(&r.response, HeaderName::ExpiresAt), Some("1700090000"));
    assert_eq!(header(&r.response, HeaderName::LastActivityAt), Some("1700000000"));
    assert_eq!(header(&r.response, HeaderName::UserId), Some("ada@example.com"));
    assert!(r.response.headers.iter().all(|h| !h.value.is_empty()));
}

#[test]
fn recently_checked_token_is_trusted_from_cache() {
    let mut cache = MemoryTokenCache::new();
    cache.set("T", TokenStatus { revoked: false, last_checked: NOW - 100, device_id: "dev-9".to_string() });
    let r = run("/orders", &meta("T"), &mut cache, valid);
    assert_eq!(r.response.code, Code::Allowed);
    assert_eq!(r.introspections, 0);
    assert_eq!(r.cache_writes, 0);
    assert_eq!(header(&r.response, HeaderName::DeviceId), Some("dev-9"));
}

#[test]
fn window_edge_is_still_fresh() {
    let mut cache = MemoryTokenCache::new();
    cache.set("T", TokenStatus { revoked: false, last_checked: NOW - 300, device_id: String::new() });
    let r = run("/orders", &meta("T"), &mut cache, valid);
    assert_eq!(r.introspections, 0);
    assert_eq!(header(&r.response, HeaderName::DeviceId), None);
}

#[test]
fn stale_token_is_introspected_once() {
    let mut cache = MemoryTokenCache::new();
    cache.set("T", TokenStatus { revoked: false, last_checked: NOW - 301, device_id: "dev-9".to_string() });
    let r = run("/orders", &meta("T"), &mut cache, valid);
    assert_eq!(r.introspections, 1);
    assert_eq!(r.response.code, Code::Allowed);
    let st = cache.get("T").unwrap();
    assert_eq!(st.last_checked, NOW);
    assert_eq!(st.device_id, "dev-9");
}

#[test]
fn inactive_token_is_revoked_and_denied() {
    let mut cache = MemoryTokenCache::new();
    cache.set("T", TokenStatus { revoked: false, last_checked: NOW - 1000, device_id: String::new() });
    let r = run("/orders", &meta("T"), &mut cache, invalid);
    assert_eq!(r.response.code, Code::PermissionDenied);
    assert!(cache.get("T").unwrap().revoked);
    let again = run("/orders", &meta("T"), &mut cache, valid);
    assert_eq!(again.response.code, Code::PermissionDenied);
    assert_eq!(again.introspections, 0);
}

#[test]
fn authority_outage_is_internal_not_a_denial() {
    let mut cache = MemoryTokenCache::new();
    let r = run("/orders", &meta("T"), &mut cache, unreachable_authority);
    assert_eq!(r.response.code, Code::Internal);
    assert_eq!(r.response.message, Some(MessageKey::Internal));
    assert_eq!(r.reports, 1);
    assert!(cache.get("T").is_none());
}

#[test]
fn cache_failure_is_internal_and_reported() {
    let table = routes();
    let step = CheckState::begin(&table, ctx("/orders"), &meta("T"), NOW);
    let err = InternalError::new("auth.controller.check_token".to_string(), "down".to_string(), ErrorType::Connection, true, "failed".to_string());
    let next = step.state.step(Event::StatusRead(Err(err)));
    assert!(next.report.is_some());
    match next.action {
        Action::Finish(resp) => assert_eq!(resp.code, Code::Internal),
        _ => panic!("expected an answer"),
    }
}

#[test]
fn failed_fresh_write_does_not_change_the_allow() {
    let table = routes();
    let mut step = CheckState::begin(&table, ctx("/orders"), &meta("T"), NOW);
    step = step.state.step(Event::StatusRead(Ok(None)));
    step = step.state.step(Event::Introspected(valid()));
    step = step.state.step(Event::StatusRead(Ok(None)));
    let err = InternalError::new("auth.controller.mark_checked_ok".to_string(), "down".to_string(), ErrorType::Connection, true, "failed".to_string());
    step = step.state.step(Event::StatusWritten(Err(err)));
    assert!(step.report.is_some());
    step = step.state.step(Event::IdentityCached(Ok(Some(record()))));
    match step.action {
        Action::Finish(resp) => assert_eq!(resp.code, Code::Allowed),
        _ => panic!("expected an answer"),
    }
}

fn identity_phase(table: &RouteTable) -> Step {
    let step = CheckState::begin(table, ctx("/orders"), &meta("T"), NOW);
    step.state.step(Event::StatusRead(Ok(Some(TokenStatus { revoked: false, last_checked: NOW, device_id: String::new() }))))
}

fn finished_internal(step: &Step) -> bool {
    matches!(&step.action, Action::Finish(resp) if resp.code == Code::Internal)
}

#[test]
fn identity_store_failure_is_internal() {
    let table = routes();
    let mut step = identity_phase(&table);
    step = step.state.step(Event::IdentityCached(Ok(None)));
    let err = InternalError::new("auth.store.user_get_auth_data".to_string(), "no rows".to_string(), ErrorType::NoRows, false, "failed".to_string());
    step = step.state.step(Event::IdentityQueried(Err(err)));
    assert!(finished_internal(&step));
    let report = step.report.expect("the failure is reported");
    assert_eq!((report.path.as_str(), report.temp, report.err_type), ("auth.controller.prepare_headers", true, ErrorType::Internal));
    assert_eq!(report.err, "no rows");
    let inner = report.cause.expect("wraps the cache fill");
    assert_eq!((inner.path.as_str(), inner.temp, inner.err_type), ("auth.controller.insert_auth_cached_user_data", true, ErrorType::Internal));
    let store = inner.cause.expect("wraps the store error");
    assert_eq!((store.path.as_str(), store.err_type), ("auth.store.user_get_auth_data", ErrorType::NoRows));
    assert!(store.cause.is_none());
}

#[test]
fn identity_write_back_failure_is_internal() {
    let table = routes();
    let mut step = identity_phase(&table);
    step = step.state.step(Event::IdentityCached(Ok(None)));
    step = step.state.step(Event::IdentityQueried(Ok(record())));
    let err = InternalError::new("auth.controller.set_auth_cached_user_data".to_string(), "down".to_string(), ErrorType::Internal, false, "failed".to_string());
    step = step.state.step(Event::IdentityWritten(Err(err)));
    assert!(finished_internal(&step));
    let report = step.report.expect("the failure is reported");
    assert_eq!(report.path, "auth.controller.prepare_headers");
    let inner = report.cause.expect("wraps the cache fill");
    assert_eq!(inner.path, "auth.controller.insert_auth_cached_user_data");
    assert_eq!(inner.cause.expect("wraps the write").path, "auth.controller.set_auth_cached_user_data");
}

#[test]
fn identity_cache_read_failure_is_internal() {
    let table = routes();
    let mut step = identity_phase(&table);
    let err = InternalError::new("auth.controller.get_auth_cached_user_data".to_string(), "bad json".to_string(), ErrorType::JsonUnmarshal, true, "failed".to_string());
    step = step.state.step(Event::IdentityCached(Err(err)));
    assert!(finished_internal(&step));
    let report = step.report.expect("the failure is reported");
    assert_eq!((report.path.as_str(), report.temp, report.err_type), ("auth.controller.prepare_headers", true, ErrorType::Internal));
    assert_eq!(report.cause.expect("wraps the read").path, "auth.controller.get_auth_cached_user_data");
}

#[test]
fn unexpected_event_ends_in_internal_error() {
    let table = routes();
    let step = CheckState::begin(&table, ctx("/orders"), &meta("T"), NOW);
    let next = step.state.step(Event::IdentityWritten(Ok(())));
    match next.action {
        Action::Finish(resp) => assert_eq!(resp.code, Code::Internal),
        _ => panic!("expected an answer"),
    }
}

#[test]
fn memory_cache_round_trip_and_mark_fresh() {
    let mut cache = MemoryTokenCache::new();
    let s = TokenStatus { revoked: true, last_checked: 42, device_id: "d".to_string() };
    cache.set("id", vstatus(&s));
    let got = cache.get("id").unwrap();
    assert_eq!((got.revoked, got.last_checked, got.device_id.as_str()), (true, 42, "d"));
    cache.mark_fresh("x", 10);
    let first = cache.get("x").unwrap().last_checked;
    cache.mark_fresh("x", 20);
    let second = cache.get("x").unwrap();
    assert!(!second.revoked);
    assert!(first <= second.last_checked);
    assert_eq!(second.last_checked, 20);
    cache.revoke("new");
    let r = cache.get("new").unwrap();
    assert_eq!((r.revoked, r.last_checked, r.device_id.as_str()), (true, 0, ""));
}

#[test]
fn interleaved_confirmation_can_overwrite_a_revocation() {
    // Two checks of one token, stepped by hand in an unlucky order: the confirming
    // check reads the status before the revoking check writes, and writes after it.
    let mut cache = MemoryTokenCache::new();
    let table = routes();
    let mut confirm = CheckState::begin(&table, ctx("/orders"), &meta("T"), NOW);
    let mut revoke = CheckState::begin(&table, ctx("/orders"), &meta("T"), NOW);
    confirm = confirm.state.step(Event::StatusRead(Ok(cache.get("T"))));
    revoke = revoke.state.step(Event::StatusRead(Ok(cache.get("T"))));
    confirm = confirm.state.step(Event::Introspected(valid()));
    revoke = revoke.state.step(Event::Introspected(invalid()));
    confirm = confirm.state.step(Event::StatusRead(Ok(cache.get("T"))));
    revoke = revoke.state.step(Event::StatusRead(Ok(cache.get("T"))));
    let revoke_done = match revoke.action {
        Action::WriteStatus { token_id, status } => {
            cache.set(&token_id, status);
            revoke.state.step(Event::StatusWritten(Ok(())))
        }
        _ => panic!("expected a status write"),
    };
    assert!(cache.get("T").unwrap().revoked);
    match revoke_done.action {
        Action::Finish(resp) => assert_eq!(resp.code, Code::PermissionDenied),
        _ => panic!("expected an answer"),
    }
    match confirm.action {
        Action::WriteStatus { token_id, status } => cache.set(&token_id, status),
        _ => panic!("expected a status write"),
    }
    // The revocation is lost: the known read-modify-write hazard.
    assert!(!cache.get("T").unwrap().revoked);
}

#[test]
fn revocation_after_confirmation_sticks() {
    let mut cache = MemoryTokenCache::new();
    cache.mark_fresh("T", NOW);
    cache.revoke("T");
    let st = cache.get("T").unwrap();
    assert!(st.revoked);
    assert_eq!(st.last_checked, NOW);
}
