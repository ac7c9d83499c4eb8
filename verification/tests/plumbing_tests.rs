use user_core::config::{Config, ConfigError, EnvValues};
use user_core::endpoints::{
    admin_user_url, certs_url, profile_picture_payload, profile_picture_url, token_url,
};
use user_core::errors::{ApiError, CoreError};
use user_core::handlers::{
    default_limit, subs_request_error, users_by_subs_response, GetUsersBySubsRequest,
};
use user_core::models::{UpdateSettingRequest, UpdateUserRequest, UserBasicInfo};
use user_core::queries::{update_setting_query, update_user_query};
use user_core::strutil::{parse_u16, str_eq};

fn full_env() -> EnvValues {
    EnvValues {
        database_url: Some("postgres://db/users".to_string()),
        server_host: Some("127.0.0.1".to_string()),
        server_port: Some("8080".to_string()),
        health_port: Some("8081".to_string()),
        keycloak_url: Some("https://kc.example.com".to_string()),
        keycloak_internal_url: Some("http://keycloak:8080".to_string()),
        keycloak_realm: Some("main".to_string()),
        keycloak_client_id: Some("user-service".to_string()),
        keycloak_client_secret: Some("SECRET-REDACTED".to_string()),
        jwt_secret: Some("SECRET-REDACTED".to_string()),
    }
}

fn basic(sub: &str) -> UserBasicInfo {
    UserBasicInfo {
        sub: sub.to_string(),
        display_name: String::new(),
        profile_picture: String::new(),
        description: String::new(),
    }
}

#[test]
fn str_eq_compares_contents() {
    assert!(str_eq("abc", "abc"));
    assert!(!str_eq("abc", "abd"));
    assert!(!str_eq("abc", "ab"));
    assert!(str_eq("", ""));
}

#[test]
fn parse_u16_accepts_ports_and_rejects_the_rest() {
    assert_eq!(parse_u16("3000"), Some(3000));
    assert_eq!(parse_u16("0"), Some(0));
    assert_eq!(parse_u16("65535"), Some(65535));
    assert_eq!(parse_u16("65536"), None);
    assert_eq!(parse_u16("123456789"), None);
    assert_eq!(parse_u16(""), None);
    assert_eq!(parse_u16("80a"), None);
    assert_eq!(parse_u16("-1"), None);
}

#[test]
fn config_resolves_a_full_environment() {
    let c = Config::resolve(full_env()).unwrap();
    assert_eq!(c.database_url, "postgres://db/users");
    assert_eq!(c.server_host, "127.0.0.1");
    assert_eq!(c.server_port, 8080);
    assert_eq!(c.health_port, 8081);
    assert_eq!(c.keycloak_url, "https://kc.example.com");
    assert_eq!(c.keycloak_internal_url, "http://keycloak:8080");
    assert_eq!(c.keycloak_realm, "main");
    assert_eq!(c.keycloak_client_id, "user-service");
}

#[test]
fn config_applies_defaults() {
    let env = EnvValues {
        server_host: None,
        server_port: None,
        health_port: None,
        keycloak_internal_url: None,
        ..full_env()
    };
    let c = Config::resolve(env).unwrap();
    assert_eq!(c.server_host, "0.0.0.0");
    assert_eq!(c.server_port, 3000);
    assert_eq!(c.health_port, 3001);
    // the internal provider URL falls back to the public one
    assert_eq!(c.keycloak_internal_url, "https://kc.example.com");
}

#[test]
fn config_reports_the_missing_variable() {
    let env = EnvValues { keycloak_url: None, ..full_env() };
    match Config::resolve(env) {
        Err(ConfigError::MissingVar(v)) => assert_eq!(v, "KEYCLOAK_URL"),
        _ => panic!("the provider URL is required"),
    }
    let env = EnvValues { database_url: None, ..full_env() };
    match Config::resolve(env) {
        Err(ConfigError::MissingVar(v)) => assert_eq!(v, "DATABASE_URL"),
        _ => panic!("the database URL is required"),
    }
    let env = EnvValues { jwt_secret: None, ..full_env() };
    match Config::resolve(env) {
        Err(ConfigError::MissingVar(v)) => assert_eq!(v, "JWT_SECRET"),
        _ => panic!("the token secret is required"),
    }
}

#[test]
fn config_reports_a_bad_port() {
    let env = EnvValues { server_port: Some("eighty".to_string()), ..full_env() };
    match Config::resolve(env) {
        Err(ConfigError::InvalidPort(v)) => assert_eq!(v, "SERVER_PORT"),
        _ => panic!("a non-numeric port must be rejected"),
    }
    let env = EnvValues { health_port: Some("70000".to_string()), ..full_env() };
    match Config::resolve(env) {
        Err(ConfigError::InvalidPort(v)) => assert_eq!(v, "HEALTH_PORT"),
        _ => panic!("a port above 65535 must be rejected"),
    }
}

#[test]
fn endpoint_urls_are_built_exactly() {
    assert_eq!(
        certs_url("http://keycloak:8080", "main"),
        "http://keycloak:8080/realms/main/protocol/openid-connect/certs"
    );
    assert_eq!(
        token_url("http://keycloak:8080", "main"),
        "http://keycloak:8080/realms/main/protocol/openid-connect/token"
    );
    assert_eq!(
        admin_user_url("http://keycloak:8080", "main", "sub-1"),
        "http://keycloak:8080/admin/realms/main/users/sub-1"
    );
    assert_eq!(
        profile_picture_url("http://content:9000", "sub-1"),
        "http://content:9000/profile_picture/sub-1"
    );
}

#[test]
fn profile_picture_payload_signs_a_put_for_a_week() {
    let p = profile_picture_payload();
    assert_eq!(p.action, "Put");
    assert_eq!(p.expires_in, 604800);
}

#[test]
fn update_user_query_numbers_present_fields_in_order() {
    let req = UpdateUserRequest {
        display_name: Some("A".to_string()),
        profile_picture: None,
        description: Some("d".to_string()),
        username: None,
        email: None,
    };
    let (query, bindings) = update_user_query(&req);
    assert_eq!(
        query,
        "UPDATE users SET updated_at = NOW(), display_name = $1, description = $2 WHERE sub = $3 \
         RETURNING sub, display_name, profile_picture, description, created_at, updated_at"
    );
    assert_eq!(bindings, vec!["A".to_string(), "d".to_string()]);
}

#[test]
fn update_user_query_with_no_fields_only_touches_the_timestamp() {
    let req = UpdateUserRequest {
        display_name: None,
        profile_picture: None,
        description: None,
        username: None,
        email: None,
    };
    let (query, bindings) = update_user_query(&req);
    assert_eq!(
        query,
        "UPDATE users SET updated_at = NOW() WHERE sub = $1 RETURNING sub, display_name, \
         profile_picture, description, created_at, updated_at"
    );
    assert!(bindings.is_empty());
}

#[test]
fn update_setting_query_numbers_present_fields_in_order() {
    let req = UpdateSettingRequest { theme: Some("dark".to_string()), lang: Some("fr".to_string()) };
    let (query, bindings) = update_setting_query(&req);
    assert_eq!(
        query,
        "UPDATE param SET updated_at = NOW(), theme = $1, lang = $2 WHERE sub = $3 RETURNING sub, \
         theme, lang, created_at, updated_at"
    );
    assert_eq!(bindings, vec!["dark".to_string(), "fr".to_string()]);
    let lang_only = UpdateSettingRequest { theme: None, lang: Some("en".to_string()) };
    let (query, bindings) = update_setting_query(&lang_only);
    assert_eq!(
        query,
        "UPDATE param SET updated_at = NOW(), lang = $1 WHERE sub = $2 RETURNING sub, theme, \
         lang, created_at, updated_at"
    );
    assert_eq!(bindings, vec!["en".to_string()]);
}

#[test]
fn default_limit_is_twenty() {
    assert_eq!(default_limit(), 20);
}

#[test]
fn bulk_lookup_over_the_cap_is_a_bad_request() {
    let req = GetUsersBySubsRequest {
        subs: (0..101).map(|i| format!("sub-{}", i)).collect(),
        offset: 0,
        limit: 20,
    };
    match subs_request_error(&req) {
        Some(ApiError::BadRequest(m)) => {
            assert_eq!(m, "Too many subs requested. Maximum is 100")
        },
        _ => panic!("101 subjects exceed the cap"),
    }
    let ok = GetUsersBySubsRequest {
        subs: (0..100).map(|i| format!("sub-{}", i)).collect(),
        offset: 0,
        limit: 20,
    };
    assert!(subs_request_error(&ok).is_none());
}

#[test]
fn pagination_takes_the_requested_page() {
    let all: Vec<UserBasicInfo> = (0..5).map(|i| basic(&format!("sub-{}", i))).collect();
    let r = users_by_subs_response(all, 1, 2);
    assert_eq!(r.total, 5);
    assert_eq!(r.offset, 1);
    assert_eq!(r.limit, 2);
    assert_eq!(r.users.len(), 2);
    assert_eq!(r.users[0].sub, "sub-1");
    assert_eq!(r.users[1].sub, "sub-2");
}

#[test]
fn pagination_caps_the_limit_and_tolerates_a_large_offset() {
    let all: Vec<UserBasicInfo> = (0..3).map(|i| basic(&format!("sub-{}", i))).collect();
    let r = users_by_subs_response(all, 7, 500);
    assert_eq!(r.total, 3);
    assert_eq!(r.offset, 7);
    assert_eq!(r.limit, 100);
    assert!(r.users.is_empty());
    let all: Vec<UserBasicInfo> = (0..3).map(|i| basic(&format!("sub-{}", i))).collect();
    let r = users_by_subs_response(all, 2, 500);
    assert_eq!(r.users.len(), 1);
    assert_eq!(r.users[0].sub, "sub-2");
}

#[test]
fn api_errors_map_to_their_status_codes() {
    assert_eq!(ApiError::Unauthorized("x".to_string()).status_code(), 401);
    assert_eq!(ApiError::NotFound("x".to_string()).status_code(), 404);
    assert_eq!(ApiError::BadRequest("x".to_string()).status_code(), 400);
    assert_eq!(ApiError::ServiceUnavailable("x".to_string()).status_code(), 503);
    assert_eq!(ApiError::InternalServerError("x".to_string()).status_code(), 500);
}

#[test]
fn internal_error_detail_never_crosses_the_boundary() {
    let e = ApiError::InternalServerError("pool exhausted at 10.0.0.3".to_string());
    assert_eq!(e.response_message(), "Internal server error");
    let e = ApiError::NotFound("User not found".to_string());
    assert_eq!(e.response_message(), "User not found");
}

#[test]
fn core_errors_map_to_api_errors_as_the_surface_expects() {
    match ApiError::from_core(CoreError::DatabaseError("boom".to_string())) {
        ApiError::InternalServerError(m) => assert_eq!(m, "Database error"),
        _ => panic!("database faults are internal errors"),
    }
    match ApiError::from_core(CoreError::NotFound("User not found".to_string())) {
        ApiError::NotFound(m) => assert_eq!(m, "User not found"),
        _ => panic!("not-found keeps its message"),
    }
    match ApiError::from_core(CoreError::BadRequest("bad".to_string())) {
        ApiError::BadRequest(m) => assert_eq!(m, "bad"),
        _ => panic!("bad-request keeps its message"),
    }
    match ApiError::from_core(CoreError::Unauthorized("no".to_string())) {
        ApiError::Unauthorized(m) => assert_eq!(m, "no"),
        _ => panic!("unauthorized keeps its message"),
    }
    match ApiError::from_core(CoreError::InternalError("oops".to_string())) {
        ApiError::InternalServerError(m) => assert_eq!(m, "oops"),
        _ => panic!("internal keeps its message internally"),
    }
    match ApiError::from_core(CoreError::KeycloakError("down".to_string())) {
        ApiError::ServiceUnavailable(m) => assert_eq!(m, "Authentication service error"),
        _ => panic!("provider faults are service-unavailable"),
    }
}

#[test]
fn config_reports_the_bad_port_before_later_missing_variables() {
    let env = EnvValues {
        server_port: Some("nine".to_string()),
        keycloak_realm: None,
        ..full_env()
    };
    match Config::resolve(env) {
        Err(ConfigError::InvalidPort(v)) => assert_eq!(v, "SERVER_PORT"),
        _ => panic!("the port is read before the realm"),
    }
}

#[test]
fn pagination_with_zero_limit_returns_an_empty_page() {
    let all: Vec<UserBasicInfo> = (0..3).map(|i| basic(&format!("sub-{}", i))).collect();
    let r = users_by_subs_response(all, 0, 0);
    assert_eq!(r.total, 3);
    assert_eq!(r.limit, 0);
    assert!(r.users.is_empty());
}
