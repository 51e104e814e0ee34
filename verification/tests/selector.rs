use pion::hardware::CpuArchitecture;
use pion::json::{JsonNumber, JsonValue};
use pion::selector::{PoolPlacementStrategy, VirtualPoolPlacementPolicy, VirtualPoolSelector};

fn text(s: &str) -> JsonValue {
    JsonValue::String(s.to_string())
}

fn num(n: u64) -> JsonValue {
    JsonValue::Number(JsonNumber::PosInt(n))
}

fn obj(pairs: Vec<(&str, JsonValue)>) -> JsonValue {
    JsonValue::Object(pairs.into_iter().map(|(k, v)| (k.to_string(), v)).collect())
}

#[test]
fn legacy_selector_json_parses_as_unconstrained() {
    let selector = VirtualPoolSelector::from_selector_json(&obj(vec![("strategy", text("manual-ui"))]))
        .expect("legacy selector parses");
    assert!(selector.is_unconstrained());
    let default = VirtualPoolSelector::default();
    assert_eq!(selector.hardware.architectures, default.hardware.architectures);
    assert_eq!(selector.hardware.min_cpu_logical, default.hardware.min_cpu_logical);
    assert_eq!(selector.hardware.min_memory_bytes, default.hardware.min_memory_bytes);
}

#[test]
fn null_and_empty_selector_json_parse_as_unconstrained() {
    assert!(VirtualPoolSelector::from_selector_json(&JsonValue::Null)
        .expect("null selector parses")
        .is_unconstrained());
    assert!(VirtualPoolSelector::from_selector_json(&obj(vec![]))
        .expect("empty selector parses")
        .is_unconstrained());
    assert!(VirtualPoolSelector::from_selector_json(&obj(vec![("hardware", obj(vec![]))]))
        .expect("empty hardware parses")
        .is_unconstrained());
}

#[test]
fn hardware_selector_parses_typed_constraints() {
    let selector = VirtualPoolSelector::from_selector_json(&obj(vec![
        ("strategy", text("manual-ui")),
        (
            "hardware",
            obj(vec![
                ("arch", text("arm64")),
                ("min_cpu_logical", num(8)),
                ("min_memory_bytes", num(34_359_738_368)),
            ]),
        ),
    ]))
    .expect("hardware selector parses");
    assert!(!selector.is_unconstrained());
    assert_eq!(selector.hardware.architectures, vec![CpuArchitecture::Aarch64]);
    assert_eq!(selector.hardware.min_cpu_logical, Some(8));
    assert_eq!(selector.hardware.min_memory_bytes, Some(34_359_738_368));
}

#[test]
fn malformed_hardware_selector_is_refused() {
    let err = VirtualPoolSelector::from_selector_json(&obj(vec![(
        "hardware",
        obj(vec![("min_memory_bytes", text("lots"))]),
    )]))
    .expect_err("malformed selector must not parse as unconstrained");
    assert!(
        err.to_string().contains("invalid type"),
        "error should explain the type mismatch, got: {}",
        err.to_string()
    );
}

#[test]
fn unset_hardware_selector_column_is_unconstrained() {
    for value in [JsonValue::Null, obj(vec![])] {
        assert!(VirtualPoolSelector::from_hardware_selector_json(&value)
            .expect("empty column parses")
            .is_unconstrained());
    }
}

#[test]
fn hardware_selector_column_is_read_ahead_of_selector_json() {
    let selector = VirtualPoolSelector::from_pool_columns(
        &obj(vec![("hardware", obj(vec![("arch", text("x86_64"))]))]),
        &obj(vec![("hardware", obj(vec![("arch", text("arm64"))]))]),
    )
    .expect("both columns parse");
    assert_eq!(selector.hardware.architectures, vec![CpuArchitecture::X86_64]);
}

#[test]
fn selector_json_hardware_is_the_fallback_when_the_column_is_empty() {
    let selector = VirtualPoolSelector::from_pool_columns(
        &JsonValue::Null,
        &obj(vec![
            ("strategy", text("manual-ui")),
            ("hardware", obj(vec![("min_cpu_logical", num(4))])),
        ]),
    )
    .expect("legacy selector parses");
    assert_eq!(selector.hardware.min_cpu_logical, Some(4));

    let unconstrained = VirtualPoolSelector::from_pool_columns(
        &JsonValue::Null,
        &obj(vec![("strategy", text("manual-ui"))]),
    )
    .expect("legacy selector without hardware parses");
    assert!(unconstrained.is_unconstrained());
}

#[test]
fn malformed_hardware_selector_column_is_refused() {
    VirtualPoolSelector::from_pool_columns(
        &obj(vec![("hardware", obj(vec![("min_cpu_logical", text("four"))]))]),
        &obj(vec![]),
    )
    .expect_err("a typo in the column must not fall through to selector_json");
}

#[test]
fn placement_policy_defaults_to_least_loaded() {
    for value in [JsonValue::Null, obj(vec![])] {
        let policy = VirtualPoolPlacementPolicy::from_placement_policy_json(&value)
            .expect("default policy parses");
        assert_eq!(policy.strategy, PoolPlacementStrategy::LeastLoaded);
    }
}

#[test]
fn placement_policy_parses_known_strategies() {
    let policy =
        VirtualPoolPlacementPolicy::from_placement_policy_json(&obj(vec![("strategy", text("most-memory"))]))
            .expect("most-memory parses");
    assert_eq!(policy.strategy, PoolPlacementStrategy::MostMemory);
    assert_eq!(policy.strategy.as_str(), "most-memory");
}

#[test]
fn placement_policy_refuses_unknown_strategy() {
    VirtualPoolPlacementPolicy::from_placement_policy_json(&obj(vec![("strategy", text("round-robin"))]))
        .expect_err("unknown strategy must not fall back to least-loaded");
}

#[test]
fn malformed_column_error_is_the_dedicated_columns_own_error() {
    let dedicated = obj(vec![("hardware", obj(vec![("min_cpu_logical", text("four"))]))]);
    let own = VirtualPoolSelector::from_hardware_selector_json(&dedicated)
        .expect_err("malformed column is refused");
    let via_columns = VirtualPoolSelector::from_pool_columns(&dedicated, &obj(vec![]))
        .expect_err("malformed column is refused");
    assert_eq!(own.to_string(), "invalid type: string \"four\", expected u32");
    assert_eq!(via_columns.to_string(), own.to_string());
}

#[test]
fn decode_error_messages_are_exact() {
    let dup = VirtualPoolSelector::from_json(&obj(vec![("hardware", JsonValue::Null), ("hardware", JsonValue::Null)]))
        .expect_err("duplicate hardware is refused");
    assert_eq!(dup.to_string(), "duplicate field `hardware`");
    let long = VirtualPoolSelector::from_json(&JsonValue::Array(vec![JsonValue::Null, JsonValue::Null]))
        .expect_err("two positional elements are refused");
    assert_eq!(long.to_string(), "invalid length 2, expected fewer elements in array");
    let unknown =
        VirtualPoolPlacementPolicy::from_placement_policy_json(&obj(vec![("strategy", text("round-robin"))]))
            .expect_err("unknown strategy is refused");
    assert_eq!(
        unknown.to_string(),
        "unknown variant `round-robin`, expected one of `least-loaded`, `most-cpu`, `most-memory`"
    );
    let negative = VirtualPoolSelector::from_hardware_selector_json(&obj(vec![(
        "hardware",
        obj(vec![("min_memory_bytes", JsonValue::Number(JsonNumber::NegInt(-3)))]),
    )]))
    .expect_err("negative memory is refused");
    assert_eq!(negative.to_string(), "invalid value: integer `-3`, expected u64");
    let arch = VirtualPoolSelector::from_hardware_selector_json(&obj(vec![(
        "hardware",
        obj(vec![("arch", num(7))]),
    )]))
    .expect_err("numeric arch is refused");
    assert_eq!(arch.to_string(), "data did not match any variant of untagged enum OneOrMany");
}
