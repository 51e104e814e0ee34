use pion::hardware::{CpuArchitecture, NodeHardwareCapabilities, NodeHardwareRequirements, UnmetRequirement};
use pion::json::{JsonNumber, JsonValue};

fn text(s: &str) -> JsonValue {
    JsonValue::String(s.to_string())
}

fn num(n: u64) -> JsonValue {
    JsonValue::Number(JsonNumber::PosInt(n))
}

fn obj(pairs: Vec<(&str, JsonValue)>) -> JsonValue {
    JsonValue::Object(pairs.into_iter().map(|(k, v)| (k.to_string(), v)).collect())
}

fn caps(arch: &str, cpu: u32, memory: u64) -> NodeHardwareCapabilities {
    NodeHardwareCapabilities::from_capabilities_json(&obj(vec![
        ("arch", text(arch)),
        ("cpu_logical", num(cpu as u64)),
        ("memory_bytes", num(memory)),
    ]))
}

#[test]
fn architecture_aliases_normalize_to_the_same_variant() {
    assert_eq!(CpuArchitecture::parse("amd64"), CpuArchitecture::X86_64);
    assert_eq!(CpuArchitecture::parse(" X86_64 "), CpuArchitecture::X86_64);
    assert_eq!(CpuArchitecture::parse("arm64"), CpuArchitecture::Aarch64);
    assert_eq!(CpuArchitecture::parse("AArch64"), CpuArchitecture::Aarch64);
    assert_eq!(CpuArchitecture::parse("armv7l"), CpuArchitecture::Arm);
    assert_eq!(
        CpuArchitecture::parse("riscv64"),
        CpuArchitecture::Other("riscv64".to_string())
    );
}

#[test]
fn capabilities_parse_from_heartbeat_payload() {
    let parsed = caps("aarch64", 8, 16 * 1024 * 1024 * 1024);
    assert_eq!(parsed.arch, Some(CpuArchitecture::Aarch64));
    assert_eq!(parsed.cpu_logical, Some(8));
    assert_eq!(parsed.memory_bytes, Some(16 * 1024 * 1024 * 1024));
    assert!(!parsed.is_unreported());
}

#[test]
fn zero_and_missing_capability_values_read_as_unreported() {
    let zeroed = caps("", 0, 0);
    assert!(zeroed.is_unreported());
    let empty = NodeHardwareCapabilities::from_capabilities_json(&obj(vec![]));
    assert!(empty.is_unreported());
    let wrong_types = NodeHardwareCapabilities::from_capabilities_json(&obj(vec![
        ("arch", num(7)),
        ("cpu_logical", text("eight")),
        ("memory_bytes", JsonValue::Array(vec![num(1)])),
    ]));
    assert!(wrong_types.is_unreported());
}

#[test]
fn default_requirements_accept_every_node() {
    let requirements = NodeHardwareRequirements::default();
    assert!(requirements.is_unconstrained());
    assert!(requirements.is_satisfied_by(&caps("x86_64", 2, 1024)));
    assert!(requirements.is_satisfied_by(&NodeHardwareCapabilities::default()));
}

#[test]
fn architecture_requirement_matches_across_aliases() {
    let requirements = NodeHardwareRequirements {
        architectures: vec![CpuArchitecture::parse("arm64")],
        ..NodeHardwareRequirements::default()
    };
    assert!(requirements.is_satisfied_by(&caps("aarch64", 4, 1024)));
    assert!(!requirements.is_satisfied_by(&caps("x86_64", 4, 1024)));
}

#[test]
fn constrained_requirement_rejects_unreported_hardware() {
    let unknown = NodeHardwareCapabilities::default();
    let arch_only = NodeHardwareRequirements {
        architectures: vec![CpuArchitecture::X86_64],
        ..NodeHardwareRequirements::default()
    };
    assert!(matches!(
        arch_only.unmet(&unknown),
        Some(UnmetRequirement::Architecture { .. })
    ));
    let cpu_only = NodeHardwareRequirements {
        min_cpu_logical: Some(2),
        ..NodeHardwareRequirements::default()
    };
    assert!(matches!(
        cpu_only.unmet(&unknown),
        Some(UnmetRequirement::CpuLogical { reported: None, .. })
    ));
    let memory_only = NodeHardwareRequirements {
        min_memory_bytes: Some(2048),
        ..NodeHardwareRequirements::default()
    };
    assert!(matches!(
        memory_only.unmet(&unknown),
        Some(UnmetRequirement::MemoryBytes { reported: None, .. })
    ));
}

#[test]
fn minimums_are_inclusive_and_report_the_first_failure() {
    let requirements = NodeHardwareRequirements {
        architectures: vec![CpuArchitecture::X86_64],
        min_cpu_logical: Some(4),
        min_memory_bytes: Some(4096),
    };
    assert!(requirements.is_satisfied_by(&caps("x86_64", 4, 4096)));
    assert_eq!(
        requirements.unmet(&caps("x86_64", 3, 4096)),
        Some(UnmetRequirement::CpuLogical {
            required: 4,
            reported: Some(3)
        })
    );
    assert_eq!(
        requirements.unmet(&caps("x86_64", 4, 4095)),
        Some(UnmetRequirement::MemoryBytes {
            required: 4096,
            reported: Some(4095)
        })
    );
    assert!(matches!(
        requirements.unmet(&caps("aarch64", 1, 1)),
        Some(UnmetRequirement::Architecture { .. })
    ));
}

#[test]
fn requirements_deserialize_single_arch_or_array() {
    let single = NodeHardwareRequirements::from_json(&obj(vec![("arch", text("arm64"))]))
        .expect("single arch string parses");
    assert_eq!(single.architectures, vec![CpuArchitecture::Aarch64]);

    let many = NodeHardwareRequirements::from_json(&obj(vec![
        ("architectures", JsonValue::Array(vec![text("x86_64"), text("arm64")])),
        ("min_cpu_logical", num(2)),
        ("min_memory_bytes", num(1024)),
    ]))
    .expect("arch array parses");
    assert_eq!(
        many.architectures,
        vec![CpuArchitecture::X86_64, CpuArchitecture::Aarch64]
    );
    assert_eq!(many.min_cpu_logical, Some(2));
    assert_eq!(many.min_memory_bytes, Some(1024));
}

#[test]
fn requirements_ignore_blank_and_null_arch_entries() {
    let blank = NodeHardwareRequirements::from_json(&obj(vec![("arch", text("  "))]))
        .expect("blank arch parses");
    assert!(blank.is_unconstrained());
    let nulled = NodeHardwareRequirements::from_json(&obj(vec![("arch", JsonValue::Null)]))
        .expect("null arch parses");
    assert!(nulled.is_unconstrained());
    let listed = NodeHardwareRequirements::from_json(&obj(vec![(
        "arch",
        JsonValue::Array(vec![text(""), text("x86_64")]),
    )]))
    .expect("list with blank parses");
    assert_eq!(listed.architectures, vec![CpuArchitecture::X86_64]);
}

#[test]
fn requirements_reject_malformed_minimums() {
    let err = NodeHardwareRequirements::from_json(&obj(vec![("min_cpu_logical", text("eight"))]))
        .expect_err("string cpu minimum must not be silently dropped");
    assert!(
        err.to_string().contains("invalid type"),
        "error should explain the type mismatch, got: {}",
        err.to_string()
    );
}

#[test]
fn requirements_round_trip_through_json() {
    let requirements = NodeHardwareRequirements {
        architectures: vec![CpuArchitecture::Aarch64],
        min_cpu_logical: Some(2),
        min_memory_bytes: None,
    };
    let json = requirements.to_json();
    match &json {
        JsonValue::Object(members) => {
            assert_eq!(members.len(), 2);
            assert_eq!(members[0].0, "arch");
            assert!(matches!(&members[0].1, JsonValue::Array(items) if items.len() == 1
                && matches!(&items[0], JsonValue::String(s) if s == "aarch64")));
            assert_eq!(members[1].0, "min_cpu_logical");
            assert!(matches!(members[1].1, JsonValue::Number(JsonNumber::PosInt(2))));
        }
        other => panic!("expected an object, got {other:?}"),
    }
    let parsed = NodeHardwareRequirements::from_json(&json).expect("re-parse requirements");
    assert_eq!(parsed.architectures, requirements.architectures);
    assert_eq!(parsed.min_cpu_logical, requirements.min_cpu_logical);
    assert_eq!(parsed.min_memory_bytes, requirements.min_memory_bytes);
}

#[test]
fn unmet_requirement_display_names_the_reported_value() {
    let unmet = UnmetRequirement::Architecture {
        accepted: vec![CpuArchitecture::X86_64, CpuArchitecture::Aarch64],
        reported: None,
    };
    assert_eq!(unmet.to_string(), "arch unreported != x86_64|aarch64");
    let unmet = UnmetRequirement::CpuLogical {
        required: 8,
        reported: Some(2),
    };
    assert_eq!(unmet.to_string(), "cpu_logical 2 < 8");
}

#[test]
fn memory_unmet_display_and_unconstrained_floor_json() {
    let unmet = UnmetRequirement::MemoryBytes { required: 4096, reported: None };
    assert_eq!(unmet.to_string(), "memory_bytes unreported < 4096");
    let json = NodeHardwareRequirements::default().to_json();
    assert!(matches!(json, JsonValue::Object(ref m) if m.is_empty()));
}

#[test]
fn other_architectures_keep_their_normalized_spelling() {
    let a = CpuArchitecture::parse("  RISCV64 ");
    assert_eq!(a.as_str(), "riscv64");
    assert_eq!(a.to_wire_string(), "riscv64");
    assert_eq!(CpuArchitecture::parse(&a.to_wire_string()), a);
}
