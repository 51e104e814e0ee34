use pion::contracts::{
    derive_observed_health, map_health_to_node_status, map_health_to_observed_enum,
    ContainerStatusSummary, DeployPreflightStatus, ObservedHealth,
    PionControlPlaneObservedStatusHealth, RuntimeContainerActionStatus,
};

#[test]
fn derive_health_prefers_unhealthy() {
    let summary = ContainerStatusSummary { running: 10, exited: 3, unhealthy: 1 };
    assert_eq!(derive_observed_health(&summary), ObservedHealth::Unhealthy);
}

#[test]
fn derive_health_degraded_when_exited_without_unhealthy() {
    let summary = ContainerStatusSummary { running: 5, exited: 1, unhealthy: 0 };
    assert_eq!(derive_observed_health(&summary), ObservedHealth::Degraded);
}

#[test]
fn derive_health_healthy_when_only_running() {
    let summary = ContainerStatusSummary { running: 4, exited: 0, unhealthy: 0 };
    assert_eq!(derive_observed_health(&summary), ObservedHealth::Healthy);
}

#[test]
fn derive_health_unknown_when_empty_snapshot() {
    let summary = ContainerStatusSummary { running: 0, exited: 0, unhealthy: 0 };
    assert_eq!(derive_observed_health(&summary), ObservedHealth::Unknown);
}

#[test]
fn health_to_node_status_mapping_is_deterministic() {
    assert_eq!(map_health_to_node_status(ObservedHealth::Healthy).as_str(), "online");
    assert_eq!(map_health_to_node_status(ObservedHealth::Degraded).as_str(), "draining");
    assert_eq!(map_health_to_node_status(ObservedHealth::Unhealthy).as_str(), "failed");
    assert_eq!(map_health_to_node_status(ObservedHealth::Unknown).as_str(), "online");
}

#[test]
fn deploy_preflight_status_as_str_is_stable() {
    assert_eq!(DeployPreflightStatus::Pass.as_str(), "pass");
    assert_eq!(DeployPreflightStatus::Fail.as_str(), "fail");
}

#[test]
fn observed_status_mirrors_the_health_class() {
    assert_eq!(
        map_health_to_observed_enum(ObservedHealth::Degraded),
        PionControlPlaneObservedStatusHealth::Degraded
    );
    assert_eq!(
        map_health_to_observed_enum(ObservedHealth::Unknown),
        PionControlPlaneObservedStatusHealth::Unknown
    );
}

#[test]
fn runtime_action_status_wire_values() {
    assert_eq!(RuntimeContainerActionStatus::Success.as_str(), "success");
    assert_eq!(RuntimeContainerActionStatus::Denied.as_str(), "denied");
    assert_eq!(RuntimeContainerActionStatus::Failed.as_str(), "failed");
}
