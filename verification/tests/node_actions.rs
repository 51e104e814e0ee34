use pion::node_actions::{action_kind_to_capability, ContainerActionKind, NodeActionError};

#[test]
fn action_kinds_map_to_capabilities() {
    assert_eq!(action_kind_to_capability("deploy_handoff"), Some(ContainerActionKind::Deploy));
    assert_eq!(action_kind_to_capability(" Teardown_Handoff "), Some(ContainerActionKind::Stop));
    assert_eq!(action_kind_to_capability("health_check"), Some(ContainerActionKind::Deploy));
    assert_eq!(action_kind_to_capability("grow_fs"), Some(ContainerActionKind::GrowFs));
    assert_eq!(action_kind_to_capability("teleport"), None);
}

#[test]
fn node_action_errors_carry_http_hints_and_messages() {
    let e = NodeActionError::NodeNotFound { node_id: "n1".to_string() };
    assert_eq!(e.http_status_hint(), 404);
    assert_eq!(e.to_string(), "node 'n1' not found");
    let e = NodeActionError::AttemptMismatch { command_id: "c1".to_string(), expected: 2, got: -1 };
    assert_eq!(e.http_status_hint(), 400);
    assert_eq!(e.to_string(), "command c1 attempt mismatch (expected 2, got -1)");
    let e = NodeActionError::Internal { message: "boom".to_string() };
    assert_eq!(e.http_status_hint(), 500);
    assert_eq!(e.to_string(), "boom");
}
