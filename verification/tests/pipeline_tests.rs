use gateway::config::{parse_port, ConfigError};
use gateway::handlers::user_info;
use gateway::pipeline::{auth_gate, dispatch, route, Dispatch, Method, PipelineOutcome, Request, RouteTarget};
use gateway::store::CredentialStore;
use gateway::strutil::{str_eq, str_eq_ci};

const UNAUTHORIZED_BODY: &str = "{\"error\":\"Unauthorized: Invalid API Key\"}";

fn store_of(keys: &[&str]) -> CredentialStore {
    CredentialStore::new(keys.iter().map(|k| k.to_string()).collect())
}

fn get_request(path: &str, headers: &[(&str, &str)]) -> Request {
    Request {
        method: Method::Get,
        path: path.to_string(),
        headers: headers.iter().map(|(n, v)| (n.to_string(), v.to_string())).collect(),
    }
}

#[test]
fn store_contains_each_configured_secret() {
    let store = store_of(&["alpha-key", "beta-key"]);
    assert!(store.contains("alpha-key"));
    assert!(store.contains("beta-key"));
    assert!(!store.contains("gamma-key"));
    assert!(!store.contains(""));
}

#[test]
fn empty_store_rejects_every_candidate() {
    let store = store_of(&[]);
    assert!(!store.contains("anything"));
    assert!(!store.contains(""));
}

#[test]
fn gate_forwards_valid_key() {
    let store = store_of(&["s3cr3t"]);
    let req = get_request("/api/user-info", &[("x-api-key", "s3cr3t")]);
    assert!(matches!(auth_gate(&store, &req), PipelineOutcome::Forward));
}

#[test]
fn gate_header_name_is_case_insensitive() {
    let store = store_of(&["s3cr3t"]);
    let req = get_request("/api/user-info", &[("X-API-Key", "s3cr3t")]);
    assert!(matches!(auth_gate(&store, &req), PipelineOutcome::Forward));
}

#[test]
fn gate_rejects_wrong_key_with_exact_body() {
    let store = store_of(&["s3cr3t"]);
    let req = get_request("/api/user-info", &[("x-api-key", "wrong")]);
    match auth_gate(&store, &req) {
        PipelineOutcome::Reject(status, body) => {
            assert_eq!(status, 401);
            assert_eq!(body, UNAUTHORIZED_BODY);
        }
        PipelineOutcome::Forward => panic!("a wrong key must not be forwarded"),
    }
}

#[test]
fn gate_rejects_absent_header() {
    let store = store_of(&["s3cr3t"]);
    let req = get_request("/api/user-info", &[("accept", "application/json")]);
    match auth_gate(&store, &req) {
        PipelineOutcome::Reject(status, body) => {
            assert_eq!(status, 401);
            assert_eq!(body, UNAUTHORIZED_BODY);
        }
        PipelineOutcome::Forward => panic!("an absent key must not be forwarded"),
    }
}

#[test]
fn gate_key_value_is_case_sensitive() {
    let store = store_of(&["s3cr3t"]);
    let req = get_request("/api/user-info", &[("x-api-key", "S3CR3T")]);
    assert!(matches!(auth_gate(&store, &req), PipelineOutcome::Reject(401, _)));
}

#[test]
fn gate_error_body_is_well_formed_json() {
    let store = store_of(&[]);
    let req = get_request("/api/user-info", &[]);
    match auth_gate(&store, &req) {
        PipelineOutcome::Reject(_, body) => {
            let v: serde_json::Value = serde_json::from_str(&body).expect("body must parse as JSON");
            assert_eq!(v["error"], serde_json::Value::String("Unauthorized: Invalid API Key".to_string()));
        }
        PipelineOutcome::Forward => panic!("an empty store must reject"),
    }
}

#[test]
fn router_maps_each_route() {
    assert_eq!(route(Method::Get, "/health"), RouteTarget::Health);
    assert_eq!(route(Method::Get, "/api/user-info"), RouteTarget::UserInfo);
    assert_eq!(route(Method::Get, "/ws/"), RouteTarget::WsUpgrade);
    assert_eq!(route(Method::Get, "/nope"), RouteTarget::NotFound);
    assert_eq!(route(Method::Get, ""), RouteTarget::NotFound);
    assert_eq!(route(Method::Other, "/health"), RouteTarget::NotFound);
}

#[test]
fn dispatch_guards_only_the_api_scope() {
    let store = store_of(&["k1"]);
    let health = get_request("/health", &[]);
    assert!(matches!(dispatch(&store, &health), Dispatch::Proceed(RouteTarget::Health)));
    let ws = get_request("/ws/", &[]);
    assert!(matches!(dispatch(&store, &ws), Dispatch::Proceed(RouteTarget::WsUpgrade)));
    let missing = get_request("/nope", &[]);
    assert!(matches!(dispatch(&store, &missing), Dispatch::Proceed(RouteTarget::NotFound)));
    let guarded = get_request("/api/user-info", &[]);
    assert!(matches!(dispatch(&store, &guarded), Dispatch::Rejected(401, _)));
}

#[test]
fn dispatch_outcome_depends_only_on_own_key() {
    let store = store_of(&["good-1", "good-2"]);
    let keys = ["good-1", "bad-1", "good-2", "bad-2", "good-1", ""];
    let outcomes: Vec<Dispatch> = keys
        .iter()
        .map(|k| dispatch(&store, &get_request("/api/user-info", &[("x-api-key", k)])))
        .collect();
    for (i, k) in keys.iter().enumerate() {
        let valid = *k == "good-1" || *k == "good-2";
        match &outcomes[i] {
            Dispatch::Proceed(t) => {
                assert!(valid, "key {:?} must not be admitted", k);
                assert_eq!(*t, RouteTarget::UserInfo);
            }
            Dispatch::Rejected(status, body) => {
                assert!(!valid, "key {:?} must be admitted", k);
                assert_eq!(*status, 401);
                assert_eq!(body, UNAUTHORIZED_BODY);
            }
        }
    }
}

#[test]
fn user_info_returns_static_profile() {
    let p = user_info();
    assert_eq!(p.user, "client123");
    assert_eq!(p.permissions, vec!["read".to_string(), "write".to_string()]);
    assert_eq!(p.roles, vec!["user".to_string()]);
}

#[test]
fn parse_port_accepts_valid_ports() {
    assert_eq!(parse_port("4000"), Ok(4000));
    assert_eq!(parse_port("0"), Ok(0));
    assert_eq!(parse_port("65535"), Ok(65535));
    assert_eq!(parse_port("08080"), Ok(8080));
}

#[test]
fn parse_port_rejects_invalid_text() {
    assert_eq!(parse_port(""), Err(ConfigError::InvalidPort));
    assert_eq!(parse_port("65536"), Err(ConfigError::InvalidPort));
    assert_eq!(parse_port("999999999999"), Err(ConfigError::InvalidPort));
    assert_eq!(parse_port("12a"), Err(ConfigError::InvalidPort));
    assert_eq!(parse_port("-1"), Err(ConfigError::InvalidPort));
    assert_eq!(parse_port(" 80"), Err(ConfigError::InvalidPort));
    assert_eq!(parse_port("http"), Err(ConfigError::InvalidPort));
}

#[test]
fn config_error_message_names_the_cause() {
    let e = parse_port("nope").unwrap_err();
    assert_eq!(e.message(), "invalid listen port: expected a decimal integer between 0 and 65535");
}

#[test]
fn str_eq_is_exact() {
    assert!(str_eq("ping", "ping"));
    assert!(!str_eq("ping", "pingg"));
    assert!(!str_eq("ping", "PING"));
    assert!(str_eq("", ""));
}

#[test]
fn str_eq_ci_folds_ascii_case_only() {
    assert!(str_eq_ci("X-API-Key", "x-api-key"));
    assert!(str_eq_ci("abc", "ABC"));
    assert!(!str_eq_ci("abc", "abd"));
    assert!(!str_eq_ci("abc", "abcd"));
}
