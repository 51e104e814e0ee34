use pion::hardware::{CpuArchitecture, UnmetRequirement};
use pion::pool_error::{summarize_unmet, PoolResolutionError};

#[test]
fn legacy_failure_messages_are_unchanged() {
    assert_eq!(
        PoolResolutionError::PoolNotFound { pool_id: "edge-west".to_string() }.to_string(),
        "pool 'edge-west' not found"
    );
    assert_eq!(
        PoolResolutionError::NoEnabledCells { pool_id: "edge-west".to_string() }.to_string(),
        "pool 'edge-west' has no enabled cell mappings"
    );
    assert_eq!(
        PoolResolutionError::NoEligibleNodes { pool_id: "edge-west".to_string() }.to_string(),
        "pool 'edge-west' has no online or draining nodes in enabled cells"
    );
}

#[test]
fn no_matching_hardware_deduplicates_reasons() {
    let err = PoolResolutionError::NoMatchingHardware {
        pool_id: "edge-west".to_string(),
        considered: 3,
        unmet: vec![
            UnmetRequirement::CpuLogical { required: 8, reported: Some(2) },
            UnmetRequirement::CpuLogical { required: 8, reported: Some(2) },
            UnmetRequirement::Architecture {
                accepted: vec![CpuArchitecture::Aarch64],
                reported: Some(CpuArchitecture::X86_64),
            },
        ],
    };
    assert_eq!(
        err.to_string(),
        "pool 'edge-west' has 3 reachable node(s) in enabled cells but none satisfy the hardware requirements (cpu_logical 2 < 8; arch x86_64 != aarch64)"
    );
}

#[test]
fn summary_of_no_reasons_says_so() {
    assert_eq!(summarize_unmet(&vec![]), "no reason recorded");
    let one = vec![UnmetRequirement::MemoryBytes { required: 10, reported: Some(9) }];
    assert_eq!(summarize_unmet(&one), "memory_bytes 9 < 10");
}

#[test]
fn internal_failure_shows_the_storage_message() {
    let err = PoolResolutionError::Internal { message: "disk on fire".to_string() };
    assert_eq!(err.to_string(), "disk on fire");
}
