use pion::remote_agent::{RemoteAgentConfig, EXECUTE_PATH};

#[test]
fn config_from_env_none_when_url_unset() {
    assert!(RemoteAgentConfig::from_env(None, None).is_none());
    assert!(RemoteAgentConfig::from_env(Some("  "), Some("t")).is_none());
}

#[test]
fn config_from_env_reads_url_and_token() {
    let cfg = RemoteAgentConfig::from_env(Some("http://127.0.0.1:9999"), Some("shared-secret"))
        .expect("config present");
    assert_eq!(cfg.base_url, "http://127.0.0.1:9999");
    assert_eq!(cfg.token.as_deref(), Some("shared-secret"));
    let no_token = RemoteAgentConfig::from_env(Some(" http://h "), Some(" ")).unwrap();
    assert_eq!(no_token.base_url, "http://h");
    assert!(no_token.token.is_none());
}

#[test]
fn execute_url_drops_trailing_slashes() {
    let cfg = RemoteAgentConfig { base_url: "http://agent:8080//".to_string(), token: None };
    assert_eq!(cfg.execute_url(), "http://agent:8080/agent/execute");
    assert_eq!(EXECUTE_PATH, "/agent/execute");
}
