use pion::json::JsonValue;
use pion::server::{
    bind_address, cell_readiness, db_ready, fail_closed_without_shared_token,
    shared_token_configured, DEFAULT_BIND,
};

fn ready_flag(body: &JsonValue) -> bool {
    match body {
        JsonValue::Object(m) => matches!(m[0], (ref k, JsonValue::Bool(true)) if k == "ready"),
        other => panic!("not an object: {other:?}"),
    }
}

#[test]
fn startup_check_fails_without_token_or_insecure_opt_in() {
    let result = fail_closed_without_shared_token(None, None);
    assert!(result.is_err());
    assert!(result.unwrap_err().contains("PARTON_SHARED_TOKEN"));
}

#[test]
fn startup_check_passes_with_token_configured() {
    assert!(fail_closed_without_shared_token(Some("some-token"), None).is_ok());
}

#[test]
fn startup_check_passes_with_insecure_opt_in() {
    assert!(fail_closed_without_shared_token(None, Some("1")).is_ok());
}

#[test]
fn startup_check_fails_with_blank_token() {
    assert!(fail_closed_without_shared_token(Some("   "), None).is_err());
    assert!(!shared_token_configured(Some("   ")));
    assert!(shared_token_configured(Some(" t ")));
}

#[test]
fn cell_readiness_not_ready_without_shared_token_or_insecure_opt_in() {
    let (status, body) = cell_readiness(None, None, None);
    assert_eq!(status, 503);
    assert!(!ready_flag(&body));
}

#[test]
fn cell_readiness_ready_with_shared_token_configured() {
    let (status, body) = cell_readiness(None, Some("some-token"), None);
    assert_eq!(status, 200);
    assert!(ready_flag(&body));
}

#[test]
fn cell_readiness_ready_with_insecure_opt_in() {
    let (status, body) = cell_readiness(None, None, Some("1"));
    assert_eq!(status, 200);
    assert!(ready_flag(&body));
}

#[test]
fn cell_readiness_reports_unreachable_backend() {
    let (status, body) = cell_readiness(Some("backend unavailable: down"), Some("t"), None);
    assert_eq!(status, 503);
    assert!(!ready_flag(&body));
    match body {
        JsonValue::Object(m) => {
            assert!(matches!(&m[1], (k, JsonValue::String(r)) if k == "reason" && r == "backend unavailable: down"));
        }
        other => panic!("not an object: {other:?}"),
    }
}

#[test]
fn default_bind_address_is_loopback_only() {
    let (host, port) = DEFAULT_BIND.rsplit_once(':').expect("host:port");
    assert!(host.starts_with("127."));
    assert_eq!(port.parse::<u16>().expect("numeric port"), 3000);
    assert_eq!(bind_address(None), "127.0.0.1:3000");
    assert_eq!(bind_address(Some("0.0.0.0:8080")), "0.0.0.0:8080");
    assert_eq!(db_ready(None), (200, "ok".to_string()));
    assert_eq!(db_ready(Some("valence init: x")), (503, "valence init: x".to_string()));
}
