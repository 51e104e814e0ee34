//! Node-action queue vocabulary: action kinds, the capability each kind needs, and the typed
//! failures of the enqueue / claim / report / lease APIs.
use vstd::prelude::*;

use crate::text::{lower_seq, push_signed_decimal, push_str, signed_decimal_seq, str_equal,
    trim_lower, trim_seq};

verus! {

/// Queued action kind: deploy handoff runtime container (maps to the deploy capability).
pub const NODE_ACTION_KIND_DEPLOY_HANDOFF: &'static str = "deploy_handoff";

/// Queued action kind: tear down handoff runtime container (maps to the stop capability).
pub const NODE_ACTION_KIND_TEARDOWN_HANDOFF: &'static str = "teardown_handoff";

/// Container actions an agent can be allowed to run; each node enables them one by one.
#[derive(Debug, Clone, Copy, PartialEq, Eq, Structural)]
pub enum ContainerActionKind {
    Deploy,
    EnsureNetwork,
    Start,
    Stop,
    Restart,
    Logs,
    Inspect,
    ProbeHost,
    Diagnostic,
    WireguardPeer,
    EnsureDockerImage,
    GrowFs,
    TemplatedExec,
}

/// The capability a normalized action kind needs. `health_check` and `handoff_bundle_import`
/// make the agent issue outbound HTTP requests, so they need the deploy capability.
pub open spec fn capability_of_normalized(k: Seq<char>) -> Option<ContainerActionKind> {
    if k == "deploy"@ || k == "deploy_handoff"@ {
        Some(ContainerActionKind::Deploy)
    } else if k == "ensure_network"@ {
        Some(ContainerActionKind::EnsureNetwork)
    } else if k == "start"@ {
        Some(ContainerActionKind::Start)
    } else if k == "stop"@ || k == "teardown_handoff"@ {
        Some(ContainerActionKind::Stop)
    } else if k == "restart"@ {
        Some(ContainerActionKind::Restart)
    } else if k == "logs"@ {
        Some(ContainerActionKind::Logs)
    } else if k == "inspect"@ {
        Some(ContainerActionKind::Inspect)
    } else if k == "probe_host"@ {
        Some(ContainerActionKind::ProbeHost)
    } else if k == "diagnostic"@ {
        Some(ContainerActionKind::Diagnostic)
    } else if k == "wireguard_peer"@ {
        Some(ContainerActionKind::WireguardPeer)
    } else if k == "ensure_docker_image"@ {
        Some(ContainerActionKind::EnsureDockerImage)
    } else if k == "grow_fs"@ {
        Some(ContainerActionKind::GrowFs)
    } else if k == "templated_exec"@ {
        Some(ContainerActionKind::TemplatedExec)
    } else if k == "health_check"@ || k == "handoff_bundle_import"@ {
        Some(ContainerActionKind::Deploy)
    } else {
        None
    }
}

/// The capability an action kind needs (case-insensitive, surrounding whitespace ignored);
/// `None` for an unknown kind.
pub open spec fn spec_action_capability(kind: Seq<char>) -> Option<ContainerActionKind> {
    capability_of_normalized(lower_seq(trim_seq(kind)))
}

/// The snake_case name of a container action kind, as a queued action names it.
pub open spec fn action_kind_name(c: ContainerActionKind) -> Seq<char> {
    match c {
        ContainerActionKind::Deploy => "deploy"@,
        ContainerActionKind::EnsureNetwork => "ensure_network"@,
        ContainerActionKind::Start => "start"@,
        ContainerActionKind::Stop => "stop"@,
        ContainerActionKind::Restart => "restart"@,
        ContainerActionKind::Logs => "logs"@,
        ContainerActionKind::Inspect => "inspect"@,
        ContainerActionKind::ProbeHost => "probe_host"@,
        ContainerActionKind::Diagnostic => "diagnostic"@,
        ContainerActionKind::WireguardPeer => "wireguard_peer"@,
        ContainerActionKind::EnsureDockerImage => "ensure_docker_image"@,
        ContainerActionKind::GrowFs => "grow_fs"@,
        ContainerActionKind::TemplatedExec => "templated_exec"@,
    }
}

/// Each container action kind's own name, in any letter case and with any surrounding
/// whitespace, needs exactly that kind's capability; so no two kinds' names share a
/// capability. Besides the names, the handoff kinds need deploy and stop, and `health_check`
/// and `handoff_bundle_import` need deploy.
pub proof fn lemma_action_kind_names(c: ContainerActionKind, raw: Seq<char>)
    ensures
        spec_action_capability(action_kind_name(c)) == Some(c),
        lower_seq(trim_seq(raw)) == action_kind_name(c) ==> spec_action_capability(raw) == Some(c),
        lower_seq(trim_seq(raw)) == "deploy_handoff"@ ==> spec_action_capability(raw) == Some(
            ContainerActionKind::Deploy,
        ),
        lower_seq(trim_seq(raw)) == "teardown_handoff"@ ==> spec_action_capability(raw) == Some(
            ContainerActionKind::Stop,
        ),
        lower_seq(trim_seq(raw)) == "health_check"@ ==> spec_action_capability(raw) == Some(
            ContainerActionKind::Deploy,
        ),
        lower_seq(trim_seq(raw)) == "handoff_bundle_import"@ ==> spec_action_capability(raw) == Some(
            ContainerActionKind::Deploy,
        ),
{
    reveal_strlit("deploy");
    reveal_strlit("ensure_network");
    reveal_strlit("start");
    reveal_strlit("stop");
    reveal_strlit("restart");
    reveal_strlit("logs");
    reveal_strlit("inspect");
    reveal_strlit("probe_host");
    reveal_strlit("diagnostic");
    reveal_strlit("wireguard_peer");
    reveal_strlit("ensure_docker_image");
    reveal_strlit("grow_fs");
    reveal_strlit("templated_exec");
    reveal_strlit("deploy_handoff");
    reveal_strlit("teardown_handoff");
    reveal_strlit("health_check");
    reveal_strlit("handoff_bundle_import");
    assert("deploy"@[0] == 'd' && "ensure_network"@[0] == 'e' && "start"@[0] == 's' && "stop"@[0] == 's' && "restart"@[0] == 'r' && "logs"@[0] == 'l' && "inspect"@[0] == 'i' && "probe_host"@[0] == 'p' && "diagnostic"@[0] == 'd' && "wireguard_peer"@[0] == 'w' && "ensure_docker_image"@[0] == 'e' && "grow_fs"@[0] == 'g' && "templated_exec"@[0] == 't' && "deploy_handoff"@[0] == 'd' && "teardown_handoff"@[0] == 't' && "health_check"@[0] == 'h' && "handoff_bundle_import"@[0] == 'h');
    let w = action_kind_name(c);
    crate::hardware::lemma_literal_normalized(w);
}

/// Maps a queued action kind to the capability that must be enabled on the node.
pub fn action_kind_to_capability(kind: &str) -> (r: Option<ContainerActionKind>)
    ensures
        r == spec_action_capability(kind@),
{
    let normalized = trim_lower(kind);
    let k = normalized.as_str();
    if str_equal(k, "deploy") || str_equal(k, NODE_ACTION_KIND_DEPLOY_HANDOFF) {
        Some(ContainerActionKind::Deploy)
    } else if str_equal(k, "ensure_network") {
        Some(ContainerActionKind::EnsureNetwork)
    } else if str_equal(k, "start") {
        Some(ContainerActionKind::Start)
    } else if str_equal(k, "stop") || str_equal(k, NODE_ACTION_KIND_TEARDOWN_HANDOFF) {
        Some(ContainerActionKind::Stop)
    } else if str_equal(k, "restart") {
        Some(ContainerActionKind::Restart)
    } else if str_equal(k, "logs") {
        Some(ContainerActionKind::Logs)
    } else if str_equal(k, "inspect") {
        Some(ContainerActionKind::Inspect)
    } else if str_equal(k, "probe_host") {
        Some(ContainerActionKind::ProbeHost)
    } else if str_equal(k, "diagnostic") {
        Some(ContainerActionKind::Diagnostic)
    } else if str_equal(k, "wireguard_peer") {
        Some(ContainerActionKind::WireguardPeer)
    } else if str_equal(k, "ensure_docker_image") {
        Some(ContainerActionKind::EnsureDockerImage)
    } else if str_equal(k, "grow_fs") {
        Some(ContainerActionKind::GrowFs)
    } else if str_equal(k, "templated_exec") {
        Some(ContainerActionKind::TemplatedExec)
    } else if str_equal(k, "health_check") || str_equal(k, "handoff_bundle_import") {
        Some(ContainerActionKind::Deploy)
    } else {
        None
    }
}

/// Matchable failures from enqueue, claim, report, and lease-extension APIs.
#[derive(Debug)]
pub enum NodeActionError {
    /// Target node row is missing from inventory.
    NodeNotFound {
        /// Missing node id.
        node_id: String,
    },
    /// Node exists but cannot accept actions in its current status (offline / not ready).
    NodeIneligible {
        /// Node id that was refused.
        node_id: String,
        /// Current status wire value.
        status: String,
    },
    /// Action kind is disabled for this node in the capability map.
    CapabilityDenied {
        /// Action kind that was refused.
        action_kind: String,
        /// Node id that was refused.
        node_id: String,
    },
    /// Command id is unknown (or soft-deleted).
    CommandNotFound {
        /// Missing command id.
        command_id: String,
    },
    /// Command targets a different node than the caller claimed.
    NodeMismatch {
        /// Command id whose ownership was checked.
        command_id: String,
    },
    /// Command is not in the expected `running` status for report / lease extend.
    NotRunning {
        /// Command id.
        command_id: String,
        /// Actual status.
        status: String,
    },
    /// Command is already terminal (`succeeded` / `failed`).
    AlreadyTerminal {
        /// Command id.
        command_id: String,
        /// Terminal status.
        status: String,
    },
    /// Report attempt number does not match the claimed attempt.
    AttemptMismatch {
        /// Command id.
        command_id: String,
        /// Attempt currently recorded on the command.
        expected: i64,
        /// Attempt supplied in the report body.
        got: i64,
    },
    /// Enqueue called without a non-empty correlation key / sequence.
    InvalidEnqueueKey(&'static str),
    /// Unexpected storage or serialization failure.
    Internal {
        /// What the storage layer reported.
        message: String,
    },
}

/// Suggested HTTP status for each failure.
pub open spec fn spec_http_status(e: NodeActionError) -> u16 {
    match e {
        NodeActionError::NodeNotFound { .. } | NodeActionError::CommandNotFound { .. } => 404,
        NodeActionError::CapabilityDenied { .. } | NodeActionError::NodeMismatch { .. } => 403,
        NodeActionError::NodeIneligible { .. }
        | NodeActionError::NotRunning { .. }
        | NodeActionError::AlreadyTerminal { .. }
        | NodeActionError::AttemptMismatch { .. }
        | NodeActionError::InvalidEnqueueKey(_) => 400,
        NodeActionError::Internal { .. } => 500,
    }
}

/// The operator-facing message of each failure.
pub open spec fn node_action_error_text(e: NodeActionError) -> Seq<char> {
    match e {
        NodeActionError::NodeNotFound { node_id } => "node '"@ + node_id@ + "' not found"@,
        NodeActionError::NodeIneligible { node_id, status } => "node '"@ + node_id@
            + "' cannot accept actions while status is '"@ + status@
            + "' (agent is offline or not ready)"@,
        NodeActionError::CapabilityDenied { action_kind, node_id } => "action '"@ + action_kind@
            + "' is disabled for node '"@ + node_id@ + "'"@,
        NodeActionError::CommandNotFound { command_id } => "unknown command "@ + command_id@,
        NodeActionError::NodeMismatch { command_id } => "command "@ + command_id@
            + " targets a different node"@,
        NodeActionError::NotRunning { command_id, status } => "command "@ + command_id@
            + " is not running (got "@ + status@ + ")"@,
        NodeActionError::AlreadyTerminal { command_id, status } => "command "@ + command_id@
            + " already terminal ("@ + status@ + ")"@,
        NodeActionError::AttemptMismatch { command_id, expected, got } => "command "@
            + command_id@ + " attempt mismatch (expected "@ + signed_decimal_seq(expected as int)
            + ", got "@ + signed_decimal_seq(got as int) + ")"@,
        NodeActionError::InvalidEnqueueKey(reason) => reason@,
        NodeActionError::Internal { message } => message@,
    }
}

impl NodeActionError {
    /// Suggested HTTP status for agent-facing handlers that map this error.
    pub fn http_status_hint(&self) -> (r: u16)
        ensures
            r == spec_http_status(*self),
    {
        match self {
            NodeActionError::NodeNotFound { .. } | NodeActionError::CommandNotFound { .. } => 404,
            NodeActionError::CapabilityDenied { .. } | NodeActionError::NodeMismatch { .. } => 403,
            NodeActionError::NodeIneligible { .. }
            | NodeActionError::NotRunning { .. }
            | NodeActionError::AlreadyTerminal { .. }
            | NodeActionError::AttemptMismatch { .. }
            | NodeActionError::InvalidEnqueueKey(_) => 400,
            NodeActionError::Internal { .. } => 500,
        }
    }

    /// The operator-facing message.
    pub fn to_string(&self) -> (r: String)
        ensures
            r@ == node_action_error_text(*self),
    {
        let mut s = String::new();
        match self {
            NodeActionError::NodeNotFound { node_id } => {
                push_str(&mut s, "node '");
                push_str(&mut s, node_id.as_str());
                push_str(&mut s, "' not found");
            },
            NodeActionError::NodeIneligible { node_id, status } => {
                push_str(&mut s, "node '");
                push_str(&mut s, node_id.as_str());
                push_str(&mut s, "' cannot accept actions while status is '");
                push_str(&mut s, status.as_str());
                push_str(&mut s, "' (agent is offline or not ready)");
            },
            NodeActionError::CapabilityDenied { action_kind, node_id } => {
                push_str(&mut s, "action '");
                push_str(&mut s, action_kind.as_str());
                push_str(&mut s, "' is disabled for node '");
                push_str(&mut s, node_id.as_str());
                push_str(&mut s, "'");
            },
            NodeActionError::CommandNotFound { command_id } => {
                push_str(&mut s, "unknown command ");
                push_str(&mut s, command_id.as_str());
            },
            NodeActionError::NodeMismatch { command_id } => {
                push_str(&mut s, "command ");
                push_str(&mut s, command_id.as_str());
                push_str(&mut s, " targets a different node");
            },
            NodeActionError::NotRunning { command_id, status } => {
                push_str(&mut s, "command ");
                push_str(&mut s, command_id.as_str());
                push_str(&mut s, " is not running (got ");
                push_str(&mut s, status.as_str());
                push_str(&mut s, ")");
            },
            NodeActionError::AlreadyTerminal { command_id, status } => {
                push_str(&mut s, "command ");
                push_str(&mut s, command_id.as_str());
                push_str(&mut s, " already terminal (");
                push_str(&mut s, status.as_str());
                push_str(&mut s, ")");
            },
            NodeActionError::AttemptMismatch { command_id, expected, got } => {
                push_str(&mut s, "command ");
                push_str(&mut s, command_id.as_str());
                push_str(&mut s, " attempt mismatch (expected ");
                push_signed_decimal(&mut s, *expected);
                push_str(&mut s, ", got ");
                push_signed_decimal(&mut s, *got);
                push_str(&mut s, ")");
            },
            NodeActionError::InvalidEnqueueKey(reason) => {
                push_str(&mut s, reason);
            },
            NodeActionError::Internal { message } => {
                push_str(&mut s, message.as_str());
            },
        }
        assert(s@ =~= node_action_error_text(*self));
        s
    }
}

/// What an agent receives after a successful claim.
#[derive(Debug)]
pub struct ClaimedNodeAction {
    /// Queued command id.
    pub command_id: String,
    /// Action kind wire value (for example `deploy_handoff`).
    pub action_kind: String,
    /// Payload, with secret placeholders resolved.
    pub payload_json: crate::json::JsonValue,
    /// Attempt of this claim (1-based once running).
    pub attempt: i64,
    /// Correlation key given at enqueue, if any.
    pub correlation_key: Option<String>,
    /// Sequence within the correlation stream, if any.
    pub sequence: Option<i64>,
}

/// What an agent reports after executing a claimed command.
#[derive(Debug)]
pub struct ReportNodeActionResult {
    /// Command id of the claim.
    pub command_id: String,
    /// Node that executed the action.
    pub node_id: String,
    /// Attempt of the claim.
    pub attempt: i64,
    /// Whether the agent considers the action successful.
    pub success: bool,
    /// Captured stdout.
    pub stdout: Option<String>,
    /// Captured stderr.
    pub stderr: Option<String>,
    /// Short error summary when `success` is false.
    pub error_summary: Option<String>,
    /// Structured result payload.
    pub payload_json: Option<crate::json::JsonValue>,
}

} // verus!
