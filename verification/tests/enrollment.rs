use pion::enrollment::{
    build_full_token, constant_time_eq, enrollment_strict_new_nodes, enrollment_verify_source_ip,
    hex_lower_string, hex_sha256, insecure_mode_allowed, normalize_agent_host_hint,
    parse_enrollment_wire_token,
    EnrollmentError,
};

#[test]
fn parse_roundtrip_token_format() {
    let id = "abc";
    let sec = "secret";
    let w = build_full_token(id, sec);
    let (i, s) = parse_enrollment_wire_token(&w).unwrap();
    assert_eq!(i, id);
    assert_eq!(s, sec);
}

#[test]
fn wire_token_shape_and_refusals() {
    assert_eq!(build_full_token("abc", "secret"), "ghe.abc.secret");
    assert!(parse_enrollment_wire_token("abc.secret").is_none());
    assert!(parse_enrollment_wire_token("ghe.abc").is_none());
    assert!(parse_enrollment_wire_token("ghe..secret").is_none());
    assert!(parse_enrollment_wire_token("ghe.abc.").is_none());
    let (i, s) = parse_enrollment_wire_token("  ghe.id.se.cret  ").unwrap();
    assert_eq!(i, "id");
    assert_eq!(s, "se.cret");
}

#[test]
fn enrollment_verify_source_ip_defaults_to_true() {
    assert!(enrollment_verify_source_ip(None));
}

#[test]
fn enrollment_verify_source_ip_accepts_common_falsy_opt_out_spellings() {
    for v in ["0", "false", "FALSE", "no", "off", " Off "] {
        assert!(
            !enrollment_verify_source_ip(Some(v)),
            "expected {v:?} to opt out of source-ip verification"
        );
    }
}

#[test]
fn enrollment_verify_source_ip_stays_enabled_for_truthy_or_unrecognized_values() {
    for v in ["1", "true", "yes", "on", "garbage"] {
        assert!(
            enrollment_verify_source_ip(Some(v)),
            "expected {v:?} to keep source-ip verification enabled"
        );
    }
}

#[test]
fn enrollment_strict_new_nodes_defaults_to_strict() {
    assert!(enrollment_strict_new_nodes(None, None));
}

#[test]
fn enrollment_strict_new_nodes_ignores_lax_opt_out_without_insecure_mode() {
    assert!(
        enrollment_strict_new_nodes(Some("0"), None),
        "lax enrollment must require PION_ALLOW_INSECURE=1"
    );
}

#[test]
fn enrollment_strict_new_nodes_relaxes_when_insecure_mode_also_set() {
    assert!(!enrollment_strict_new_nodes(Some("0"), Some("1")));
}

#[test]
fn enrollment_strict_new_nodes_stays_strict_when_only_insecure_mode_set() {
    assert!(
        enrollment_strict_new_nodes(None, Some("1")),
        "PION_ALLOW_INSECURE alone must not relax enrollment strictness"
    );
}

#[test]
fn insecure_mode_takes_truthy_spellings_only() {
    assert!(!insecure_mode_allowed(None));
    assert!(insecure_mode_allowed(Some("1")));
    assert!(insecure_mode_allowed(Some(" TRUE ")));
    assert!(!insecure_mode_allowed(Some("0")));
    assert!(!insecure_mode_allowed(Some("maybe")));
}

#[test]
fn sha256_hex_of_known_inputs() {
    assert_eq!(
        hex_sha256(""),
        "e3b0c44298fc1c149afbf4c8996fb92427ae41e4649b934ca495991b7852b855"
    );
    assert_eq!(
        hex_sha256("abc"),
        "ba7816bf8f01cfea414140de5dae2223b00361a396177a9cb410ff61f20015ad"
    );
}

#[test]
fn constant_time_comparison_matches_equality() {
    assert!(constant_time_eq("secret", "secret"));
    assert!(!constant_time_eq("secret", "secreT"));
    assert!(!constant_time_eq("secret", "secrets"));
}

#[test]
fn host_hint_is_trimmed() {
    assert_eq!(normalize_agent_host_hint("  10.0.0.5:3000 "), "10.0.0.5:3000");
}

#[test]
fn host_hint_lowercases_host_and_keeps_port() {
    assert_eq!(normalize_agent_host_hint("  Node-A.Example:3000 "), "node-a.example:3000");
    assert_eq!(normalize_agent_host_hint("Lab.Local:8080"), "lab.local:8080");
}

#[test]
fn host_hint_defaults_port_to_3000() {
    assert_eq!(normalize_agent_host_hint(" Node-B "), "node-b:3000");
    assert_eq!(normalize_agent_host_hint("10.0.0.7"), "10.0.0.7:3000");
    assert_eq!(normalize_agent_host_hint("[::1]"), "[::1]:3000");
    assert_eq!(normalize_agent_host_hint("[::1]:9000"), "[::1]:9000");
}

#[test]
fn blank_host_hint_stays_empty() {
    assert_eq!(normalize_agent_host_hint("   "), "");
    assert_eq!(normalize_agent_host_hint(""), "");
}

#[test]
fn enrollment_error_messages() {
    assert_eq!(EnrollmentError::Expired.to_string(), "enrollment expired");
    assert_eq!(
        EnrollmentError::SourceIpMismatch.to_string(),
        "enrollment source ip does not match expected host"
    );
    assert_eq!(
        EnrollmentError::Internal { message: "db down".to_string() }.to_string(),
        "db down"
    );
}

#[test]
fn hex_of_bytes_is_two_lowercase_digits_per_byte() {
    assert_eq!(hex_lower_string(&[]), "");
    assert_eq!(hex_lower_string(&[0x00, 0x0f, 0xa5, 0xff]), "000fa5ff");
}
