use pion::json::{JsonNumber, JsonValue};
use pion::secret_ref::{
    parse_secret_ref, resolution_context, scan_secret_refs, substitute_secret_refs,
    value_contains_secret_ref_placeholder, SecretRefError,
};

fn text(s: &str) -> JsonValue {
    JsonValue::String(s.to_string())
}

fn num(n: u64) -> JsonValue {
    JsonValue::Number(JsonNumber::PosInt(n))
}

fn obj(pairs: Vec<(&str, JsonValue)>) -> JsonValue {
    JsonValue::Object(pairs.into_iter().map(|(k, v)| (k.to_string(), v)).collect())
}

fn placeholder(id: &str, version: u64, field: &str) -> JsonValue {
    obj(vec![
        ("$secret_ref", obj(vec![("id", text(id)), ("version", num(version))])),
        ("field", text(field)),
    ])
}

#[test]
fn placeholder_parses_into_its_reference() {
    let r = parse_secret_ref(&placeholder("neutrino_secret:1", 3, "password"))
        .expect("well formed")
        .expect("is a placeholder");
    assert_eq!(r.id, "neutrino_secret:1");
    assert_eq!(r.version, 3);
    assert_eq!(r.field, "password");
    assert_eq!(
        resolution_context(&r),
        "resolve secret ref field 'password' from secret neutrino_secret:1 v3"
    );
}

#[test]
fn malformed_placeholders_name_the_missing_part() {
    let no_field = obj(vec![("$secret_ref", obj(vec![("id", text("x")), ("version", num(1))]))]);
    assert_eq!(parse_secret_ref(&no_field).unwrap_err(), SecretRefError::MissingField);
    let no_id = obj(vec![
        ("$secret_ref", obj(vec![("version", num(1))])),
        ("field", text("f")),
    ]);
    assert_eq!(parse_secret_ref(&no_id).unwrap_err(), SecretRefError::MissingId);
    let no_version = obj(vec![("$secret_ref", obj(vec![("id", text("x"))])), ("field", text("f"))]);
    let e = parse_secret_ref(&no_version).unwrap_err();
    assert_eq!(e, SecretRefError::MissingVersion);
    assert_eq!(e.to_string(), "$secret_ref.version missing or not an integer");
    assert!(parse_secret_ref(&text("plain")).unwrap().is_none());
}

#[test]
fn placeholders_are_found_at_any_depth() {
    let doc = obj(vec![
        ("command", JsonValue::Array(vec![text("run"), placeholder("s", 1, "pw")])),
        ("user", text("root")),
    ]);
    assert!(value_contains_secret_ref_placeholder(&doc));
    let plain = obj(vec![("user", text("root")), ("n", num(2))]);
    assert!(!value_contains_secret_ref_placeholder(&plain));
}

#[test]
fn scan_then_substitute_replaces_every_placeholder_in_order() {
    let doc = obj(vec![
        ("a", placeholder("s1", 1, "user")),
        (
            "env",
            JsonValue::Array(vec![
                obj(vec![("name", text("PW")), ("value", placeholder("s2", 2, "password"))]),
                text("keep"),
            ]),
        ),
    ]);
    let (refs, err) = scan_secret_refs(&doc);
    assert!(err.is_none());
    assert_eq!(refs.len(), 2);
    assert_eq!(refs[0].id, "s1");
    assert_eq!(refs[1].field, "password");
    let resolved = vec!["alice".to_string(), "hunter2".to_string()];
    let out = substitute_secret_refs(doc, &resolved);
    assert!(!value_contains_secret_ref_placeholder(&out));
    match &out {
        JsonValue::Object(m) => {
            assert!(matches!(&m[0].1, JsonValue::String(s) if s == "alice"));
            match &m[1].1 {
                JsonValue::Array(items) => {
                    match &items[0] {
                        JsonValue::Object(env) => {
                            assert!(matches!(&env[1].1, JsonValue::String(s) if s == "hunter2"));
                        }
                        other => panic!("unexpected {other:?}"),
                    }
                    assert!(matches!(&items[1], JsonValue::String(s) if s == "keep"));
                }
                other => panic!("unexpected {other:?}"),
            }
        }
        other => panic!("unexpected {other:?}"),
    }
}

#[test]
fn scan_stops_at_the_first_malformed_placeholder() {
    let bad = obj(vec![("$secret_ref", obj(vec![])), ("field", text("f"))]);
    let doc = JsonValue::Array(vec![placeholder("s1", 1, "a"), bad, placeholder("s2", 1, "b")]);
    let (refs, err) = scan_secret_refs(&doc);
    assert_eq!(refs.len(), 1);
    assert_eq!(err, Some(SecretRefError::MissingId));
}
