use megacommerce_auth::claims::{extract_jwt_claims_from_request, extract_jwt_token_from_request, Metadata};
use megacommerce_auth::config::LanguageSettings;
use megacommerce_auth::errors::{error_type_for_sql_state, ErrorType, InternalError};
use megacommerce_auth::headers::{get_essential_http_headers, prepare_headers, HeaderName, RequestContext, Session};
use megacommerce_auth::identity::{identity_from_row, user_data_key, IdentityRecord};
use megacommerce_auth::introspection::{introspection_url, read_introspection, HydraValidation, IntrospectionResponse};
use megacommerce_auth::net::validate_url_target;
use megacommerce_auth::response::{message_text, MessageKey};
use megacommerce_auth::routes::{RouteClass, RouteEntry, RouteTable};
use megacommerce_auth::text::{i64_text, join_comma, parse_i64, strip_bearer};
use megacommerce_auth::token_status::{check_token, fresh_status, needs_introspection, revoked_status, token_status_key, RedisCheck, TokenStatus};

fn pairs(v: &[(&str, &str)]) -> Vec<(String, String)> {
    v.iter().map(|(a, b)| (a.to_string(), b.to_string())).collect()
}

#[test]
fn decimal_text_of_integers() {
    assert_eq!(i64_text(0), "0");
    assert_eq!(i64_text(1700000000), "1700000000");
    assert_eq!(i64_text(-45), "-45");
    assert_eq!(i64_text(i64::MIN), "-9223372036854775808");
    assert_eq!(i64_text(i64::MAX), "9223372036854775807");
}

#[test]
fn parsing_integers_like_std() {
    for s in ["0", "42", "-42", "+7", "9223372036854775807", "-9223372036854775808", "", "-", "+", "12a", " 1", "9223372036854775808", "-9223372036854775809", "99999999999999999999999"] {
        assert_eq!(parse_i64(s), s.parse::<i64>().ok(), "input {:?}", s);
    }
}

#[test]
fn joining_and_bearer_prefix() {
    assert_eq!(join_comma(&vec![]), "");
    assert_eq!(join_comma(&vec!["a".to_string()]), "a");
    assert_eq!(join_comma(&vec!["a".to_string(), "b".to_string(), "c".to_string()]), "a,b,c");
    assert_eq!(strip_bearer("Bearer abc"), Some("abc".to_string()));
    assert_eq!(strip_bearer("Bearer "), Some(String::new()));
    assert_eq!(strip_bearer("bearer abc"), None);
    assert_eq!(strip_bearer("Basic abc"), None);
}

#[test]
fn route_classification() {
    let t = RouteTable::new(vec![
        RouteEntry { path: "/a".to_string(), protected: true },
        RouteEntry { path: "/b".to_string(), protected: false },
        RouteEntry { path: "/a".to_string(), protected: false },
    ]);
    assert_eq!(t.classify("/a"), RouteClass::Protected);
    assert_eq!(t.classify("/b"), RouteClass::Public);
    assert_eq!(t.classify("/c"), RouteClass::Unknown);
    assert_eq!(t.classify("/A"), RouteClass::Unknown);
    let s = RouteTable::standard();
    assert_eq!(s.classify("/users.v1.UsersService/CreateSupplier"), RouteClass::Public);
    assert_eq!(s.classify("/users.v1.UsersService/Login"), RouteClass::Public);
    assert_eq!(s.classify(""), RouteClass::Unknown);
}

#[test]
fn claims_from_metadata() {
    let m = Metadata {
        entries: pairs(&[
            ("x-jwt-iss", "issuer"),
            ("x-jwt-sub", "ada"),
            ("x-jwt-aud", "shop"),
            ("x-jwt-exp", "100"),
            ("x-jwt-nbf", "not-a-number"),
            ("x-jwt-jti", "T1"),
            ("x-jwt-jti", "T2"),
            ("authorization", "Bearer xyz"),
        ]),
    };
    let c = extract_jwt_claims_from_request(&m);
    assert_eq!(c.iss, "issuer");
    assert_eq!(c.sub, "ada");
    assert_eq!(c.aud, vec!["shop".to_string()]);
    assert_eq!(c.exp, Some(100));
    assert_eq!(c.nbf, None);
    assert_eq!(c.iat, None);
    assert_eq!(c.jti, "T1");
    assert_eq!(extract_jwt_token_from_request(&m), Some("xyz".to_string()));
    let empty = Metadata { entries: vec![] };
    let e = extract_jwt_claims_from_request(&empty);
    assert_eq!((e.jti.as_str(), e.sub.as_str(), e.aud.len()), ("", "", 0));
    assert_eq!(extract_jwt_token_from_request(&empty), None);
}

#[test]
fn essential_headers_ignore_name_case() {
    let raw = pairs(&[("User-Agent", "curl"), ("X-Forwarded-For", "1.2.3.4"), ("x-request-id", "r1"), ("ACCEPT-LANGUAGE", "ar")]);
    let h = get_essential_http_headers("/p".to_string(), "POST".to_string(), &raw);
    assert_eq!(h.user_agent, "curl");
    assert_eq!(h.x_forwarded_for, "1.2.3.4");
    assert_eq!(h.x_request_id, "r1");
    assert_eq!(h.accept_language, "ar");
    assert_eq!(h.headers[0].0, "user-agent");
    let ctx = RequestContext::from_headers(h);
    assert_eq!(ctx.ip_address, "1.2.3.4");
    assert_eq!(ctx.path, "/p");
}

#[test]
fn forwarded_headers_skip_empty_values() {
    let ctx = RequestContext {
        ip_address: String::new(),
        x_forwarded_for: String::new(),
        request_id: "r".to_string(),
        path: "/p".to_string(),
        user_agent: String::new(),
        accept_language: String::new(),
    };
    let session = Session {
        token_id: "T".to_string(),
        token: String::new(),
        issued_at: None,
        expires_at: Some(-5),
        subject: "ada".to_string(),
        device_id: String::new(),
        identity: IdentityRecord { roles: String::new(), properties: "theme:dark,beta".to_string(), is_federated: false },
    };
    let hs = prepare_headers(&ctx, Some(&session), 77);
    let got: Vec<(HeaderName, &str)> = hs.iter().map(|h| (h.name, h.value.as_str())).collect();
    assert_eq!(got, vec![
        (HeaderName::SessionId, "T"),
        (HeaderName::ExpiresAt, "-5"),
        (HeaderName::LastActivityAt, "77"),
        (HeaderName::UserId, "ada"),
        (HeaderName::IsOauth, "false"),
        (HeaderName::Props, "theme:dark,beta"),
        (HeaderName::XRequestId, "r"),
        (HeaderName::Path, "/p"),
    ]);
    assert_eq!(HeaderName::SessionId.text(), "x-session-id");
    assert_eq!(HeaderName::AcceptLanguage.text(), "accept-language");
    let public = prepare_headers(&ctx, None, 77);
    assert_eq!(public.len(), 2);
}

#[test]
fn introspection_answers() {
    assert_eq!(introspection_url("http://hydra:4445"), "http://hydra:4445/oauth2/introspect");
    let ok = read_introspection(200, Some(IntrospectionResponse { active: true, sub: Some("ada".to_string()), exp: Some(9) }));
    match ok {
        Ok(HydraValidation::Valid { sub, exp }) => assert_eq!((sub.as_str(), exp), ("ada", 9)),
        _ => panic!("expected a valid token"),
    }
    match read_introspection(200, Some(IntrospectionResponse { active: true, sub: None, exp: None })) {
        Ok(HydraValidation::Valid { sub, exp }) => assert_eq!((sub.as_str(), exp), ("", 0)),
        _ => panic!("expected a valid token"),
    }
    match read_introspection(200, Some(IntrospectionResponse { active: false, sub: None, exp: None })) {
        Ok(HydraValidation::Invalid(reason)) => assert_eq!(reason, "token is not active"),
        _ => panic!("expected an invalid token"),
    }
    match read_introspection(503, Some(IntrospectionResponse { active: true, sub: None, exp: None })) {
        Err(e) => assert_eq!((e.path.as_str(), e.msg.as_str()), ("auth.controller.validate_token", "failed to request hydra client")),
        _ => panic!("expected an error"),
    }
    match read_introspection(200, None) {
        Err(e) => assert_eq!(e.err_type, ErrorType::JsonUnmarshal),
        _ => panic!("expected an error"),
    }
}

#[test]
fn token_status_transitions() {
    let st = TokenStatus { revoked: false, last_checked: 5, device_id: "d".to_string() };
    match check_token(Some(st.clone())) {
        RedisCheck::Allowed { status: Some(s) } => assert_eq!(s.last_checked, 5),
        _ => panic!("expected allowed"),
    }
    assert!(matches!(check_token(None), RedisCheck::Allowed { status: None }));
    let revoked = TokenStatus { revoked: true, ..st.clone() };
    assert!(matches!(check_token(Some(revoked)), RedisCheck::Revoked(_)));
    let r = revoked_status(Some(st.clone()));
    assert_eq!((r.revoked, r.last_checked, r.device_id.as_str()), (true, 5, "d"));
    let f = fresh_status(Some(r), 99);
    assert_eq!((f.revoked, f.last_checked, f.device_id.as_str()), (false, 99, "d"));
    assert!(needs_introspection(&None, 0));
    assert!(!needs_introspection(&Some(st.clone()), 305));
    assert!(needs_introspection(&Some(st.clone()), 306));
    assert!(needs_introspection(&Some(TokenStatus { last_checked: i64::MIN, ..st.clone() }), i64::MAX));
    assert_eq!(token_status_key("T"), "auth:token_status:T");
}

#[test]
fn identity_rows_and_keys() {
    let r = identity_from_row(vec!["admin".to_string(), "supplier".to_string()], None, Some("google".to_string()));
    assert!(r.is_federated && r.properties.is_empty());
    assert_eq!(r.roles, "admin,supplier");
    let r2 = identity_from_row(vec![], Some(vec!["theme:light".to_string(), "mobile_notification:true".to_string()]), Some(String::new()));
    assert!(!r2.is_federated);
    assert_eq!(r2.roles, "");
    assert_eq!(r2.properties, "theme:light,mobile_notification:true");
    assert!(!identity_from_row(vec![], None, None).is_federated);
    assert_eq!(user_data_key("ada@example.com"), "auth:user_data:ada@example.com");
}

#[test]
fn error_names_and_messages() {
    assert_eq!(ErrorType::DBConnectionError.to_string(), "db_connection_error");
    assert_eq!(ErrorType::Connection.to_string(), "connection_exception");
    assert_eq!(ErrorType::Privileges.to_string(), "insufficient_privilege");
    assert_eq!(ErrorType::Internal.to_string(), "internal_error");
    let e = InternalError::new("a.b".to_string(), "cause".to_string(), ErrorType::NoRows, true, "m".to_string());
    assert_eq!(e.source(), Some(&"cause".to_string()));
    assert_eq!(MessageKey::NotFound.catalog_key(), "error.not_found");
    assert_eq!(message_text(MessageKey::NotFound, None), "The requested path is not provided!");
    assert_eq!(message_text(MessageKey::Internal, Some("خطأ".to_string())), "خطأ");
    let l = LanguageSettings::new(vec!["en".to_string(), "ar".to_string()], None);
    assert_eq!(l.default_language, "en");
}

#[test]
fn url_validation() {
    assert!(validate_url_target("http://localhost:50051", "auth.controller.run", "failed to run auth service server").is_ok());
    match validate_url_target("", "auth.controller.run", "failed to run auth service server") {
        Err(e) => {
            assert_eq!(e.path, "auth.controller.run");
            assert_eq!(e.err_type, ErrorType::Internal);
            assert!(!e.temp);
            assert_eq!(e.msg, "failed to run auth service server");
            assert!(!e.err.is_empty());
        }
        Ok(_) => panic!("empty URL accepted"),
    }
    match validate_url_target("http://exa mple.com", "auth.common.init_client", "failed to validate common client URL") {
        Err(e) => assert_eq!((e.path.as_str(), e.msg.as_str()), ("auth.common.init_client", "failed to validate common client URL")),
        Ok(_) => panic!("URL with a space accepted"),
    }
}

#[test]
fn message_language_falls_back_to_default() {
    let l = LanguageSettings::new(vec!["en".to_string(), "ar".to_string()], Some("ar".to_string()));
    assert_eq!(l.message_language(""), "ar");
    assert_eq!(l.message_language("en"), "en");
}

#[test]
fn store_failures_by_sql_state() {
    assert_eq!(error_type_for_sql_state("23505"), ErrorType::UniqueViolation);
    assert_eq!(error_type_for_sql_state("23503"), ErrorType::ForeignKeyViolation);
    assert_eq!(error_type_for_sql_state("23502"), ErrorType::NotNullViolation);
    assert_eq!(error_type_for_sql_state("42501"), ErrorType::Privileges);
    assert_eq!(error_type_for_sql_state("08006"), ErrorType::Connection);
    assert_eq!(error_type_for_sql_state("0"), ErrorType::Internal);
    assert_eq!(error_type_for_sql_state("42P01"), ErrorType::Internal);
}
