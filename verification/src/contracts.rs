//! Shared control-plane data types and read-model helpers.
use vstd::prelude::*;

verus! {

/// Container counts an agent reports on each heartbeat.
#[derive(Debug, Clone, Copy, PartialEq, Eq, Structural)]
pub struct ContainerStatusSummary {
    /// Containers currently running.
    pub running: u64,
    /// Containers that have exited.
    pub exited: u64,
    /// Containers whose health check fails.
    pub unhealthy: u64,
}

/// Normalized workload health classes derived from heartbeat container counts.
#[derive(Debug, Clone, Copy, PartialEq, Eq, Structural)]
pub enum ObservedHealth {
    /// All reported containers are running with no exits or unhealthy counts.
    Healthy,
    /// Running containers exist but at least one has exited.
    Degraded,
    /// At least one container is unhealthy.
    Unhealthy,
    /// No containers or indeterminate workload state.
    Unknown,
}

/// Health class of a container summary: any unhealthy container wins, then any exit, then
/// any running container; an empty summary is unknown.
pub open spec fn spec_observed_health(s: ContainerStatusSummary) -> ObservedHealth {
    if s.unhealthy > 0 {
        ObservedHealth::Unhealthy
    } else if s.exited > 0 {
        ObservedHealth::Degraded
    } else if s.running > 0 {
        ObservedHealth::Healthy
    } else {
        ObservedHealth::Unknown
    }
}

/// Derives control-plane health class from a runtime container summary.
pub fn derive_observed_health(summary: &ContainerStatusSummary) -> (r: ObservedHealth)
    ensures
        r == spec_observed_health(*summary),
{
    if summary.unhealthy > 0 {
        ObservedHealth::Unhealthy
    } else if summary.exited > 0 {
        ObservedHealth::Degraded
    } else if summary.running > 0 {
        ObservedHealth::Healthy
    } else {
        ObservedHealth::Unknown
    }
}

/// Node status used in node inventory and read models.
#[derive(Debug, Clone, Copy, PartialEq, Eq, Structural)]
pub enum PionControlPlaneNodeStatus {
    /// Agent reachable and able to take work.
    Online,
    /// Agent reachable, winding down.
    Draining,
    /// Agent reports failing workloads.
    Failed,
}

/// Stable wire value of a node status.
pub open spec fn node_status_wire(s: PionControlPlaneNodeStatus) -> Seq<char> {
    match s {
        PionControlPlaneNodeStatus::Online => "online"@,
        PionControlPlaneNodeStatus::Draining => "draining"@,
        PionControlPlaneNodeStatus::Failed => "failed"@,
    }
}

impl PionControlPlaneNodeStatus {
    /// Stable wire value.
    pub fn as_str(self) -> (r: &'static str)
        ensures
            r@ == node_status_wire(self),
    {
        match self {
            PionControlPlaneNodeStatus::Online => "online",
            PionControlPlaneNodeStatus::Draining => "draining",
            PionControlPlaneNodeStatus::Failed => "failed",
        }
    }
}

/// Node status for a health class. Unknown means a heartbeat exists but workload health is
/// indeterminate (for example an idle node), not that the node is offline.
pub open spec fn spec_node_status(h: ObservedHealth) -> PionControlPlaneNodeStatus {
    match h {
        ObservedHealth::Unhealthy => PionControlPlaneNodeStatus::Failed,
        ObservedHealth::Degraded => PionControlPlaneNodeStatus::Draining,
        ObservedHealth::Healthy | ObservedHealth::Unknown => PionControlPlaneNodeStatus::Online,
    }
}

/// Maps derived health class to node status used in node inventory/read models.
pub fn map_health_to_node_status(health: ObservedHealth) -> (r: PionControlPlaneNodeStatus)
    ensures
        r == spec_node_status(health),
{
    match health {
        ObservedHealth::Unhealthy => PionControlPlaneNodeStatus::Failed,
        ObservedHealth::Degraded => PionControlPlaneNodeStatus::Draining,
        ObservedHealth::Healthy | ObservedHealth::Unknown => PionControlPlaneNodeStatus::Online,
    }
}

/// Observed-status health persisted in telemetry rows.
#[derive(Debug, Clone, Copy, PartialEq, Eq, Structural)]
pub enum PionControlPlaneObservedStatusHealth {
    Healthy,
    Degraded,
    Unhealthy,
    Unknown,
}

/// Maps derived health class to the observed-status value persisted in telemetry rows.
pub fn map_health_to_observed_enum(health: ObservedHealth) -> (r:
    PionControlPlaneObservedStatusHealth)
    ensures
        r == match health {
            ObservedHealth::Healthy => PionControlPlaneObservedStatusHealth::Healthy,
            ObservedHealth::Degraded => PionControlPlaneObservedStatusHealth::Degraded,
            ObservedHealth::Unhealthy => PionControlPlaneObservedStatusHealth::Unhealthy,
            ObservedHealth::Unknown => PionControlPlaneObservedStatusHealth::Unknown,
        },
{
    match health {
        ObservedHealth::Healthy => PionControlPlaneObservedStatusHealth::Healthy,
        ObservedHealth::Degraded => PionControlPlaneObservedStatusHealth::Degraded,
        ObservedHealth::Unhealthy => PionControlPlaneObservedStatusHealth::Unhealthy,
        ObservedHealth::Unknown => PionControlPlaneObservedStatusHealth::Unknown,
    }
}

/// A node whose workloads report any unhealthy container is marked failed, whatever else it
/// reports; a node reporting nothing stays online.
pub proof fn lemma_unhealthy_dominates(s: ContainerStatusSummary)
    ensures
        s.unhealthy > 0 ==> spec_node_status(spec_observed_health(s))
            == PionControlPlaneNodeStatus::Failed,
        s.unhealthy == 0 && s.exited == 0 ==> spec_node_status(spec_observed_health(s))
            == PionControlPlaneNodeStatus::Online,
{
}

/// Each health class is decided by the counts alone: unhealthy exactly when some container is
/// unhealthy; degraded exactly when none is unhealthy and some has exited, however many run;
/// healthy exactly when none is unhealthy or exited and some run; unknown exactly when all
/// three counts are zero. A degraded node is draining, whatever its running count.
pub proof fn lemma_health_classes(s: ContainerStatusSummary)
    ensures
        (spec_observed_health(s) == ObservedHealth::Unhealthy) <==> s.unhealthy > 0,
        (spec_observed_health(s) == ObservedHealth::Degraded) <==> (s.unhealthy == 0 && s.exited > 0),
        (spec_observed_health(s) == ObservedHealth::Healthy) <==> (s.unhealthy == 0 && s.exited == 0
            && s.running > 0),
        (spec_observed_health(s) == ObservedHealth::Unknown) <==> (s.unhealthy == 0 && s.exited == 0
            && s.running == 0),
        s.unhealthy == 0 && s.exited > 0 ==> spec_node_status(spec_observed_health(s))
            == PionControlPlaneNodeStatus::Draining,
{
}

/// The running count never changes the class of a node with an unhealthy or exited container:
/// two summaries that differ only in how many containers run get the same class.
pub proof fn lemma_health_ignores_running_once_exited(a: ContainerStatusSummary, b: ContainerStatusSummary)
    requires
        a.exited == b.exited,
        a.unhealthy == b.unhealthy,
        a.exited > 0 || a.unhealthy > 0,
    ensures
        spec_observed_health(a) == spec_observed_health(b),
{
}

/// Outcome of a runtime container action execution request.
#[derive(Debug, Clone, Copy, PartialEq, Eq, Structural)]
pub enum RuntimeContainerActionStatus {
    /// Action completed successfully.
    Success,
    /// Node capability disabled or policy denied the action.
    Denied,
    /// Backend or executor reported failure.
    Failed,
}

impl RuntimeContainerActionStatus {
    /// Stable wire-format value used in persisted action events.
    pub fn as_str(self) -> (r: &'static str)
        ensures
            r@ == match self {
                RuntimeContainerActionStatus::Success => "success"@,
                RuntimeContainerActionStatus::Denied => "denied"@,
                RuntimeContainerActionStatus::Failed => "failed"@,
            },
    {
        match self {
            RuntimeContainerActionStatus::Success => "success",
            RuntimeContainerActionStatus::Denied => "denied",
            RuntimeContainerActionStatus::Failed => "failed",
        }
    }
}

/// Deploy target selection for runtime deployment actions.
#[derive(Debug, Clone)]
pub enum DeployTarget {
    /// Deploy to a specific node id.
    Node(String),
    /// Deploy to any eligible node in a pool id.
    Pool(String),
}

/// Preflight verdict for a deploy target.
#[derive(Debug, Clone, Copy, PartialEq, Eq, Structural)]
pub enum DeployPreflightStatus {
    /// Target passes eligibility checks.
    Pass,
    /// Target fails one or more checks.
    Fail,
}

impl DeployPreflightStatus {
    /// Stable wire-format value used by UI/server projections.
    pub fn as_str(self) -> (r: &'static str)
        ensures
            r@ == match self {
                DeployPreflightStatus::Pass => "pass"@,
                DeployPreflightStatus::Fail => "fail"@,
            },
    {
        match self {
            DeployPreflightStatus::Pass => "pass",
            DeployPreflightStatus::Fail => "fail",
        }
    }
}

/// Preflight result for a resolved deploy target.
#[derive(Debug, Clone)]
pub struct DeployTargetPreflight {
    /// Node id selected from the deploy target.
    pub resolved_node_id: String,
    /// Pass/fail verdict.
    pub status: DeployPreflightStatus,
    /// Operator-facing explanation when deploy is blocked.
    pub message: String,
    /// True when deploy may proceed.
    pub can_deploy: bool,
}

/// Structured fields an agent may merge into a node-action result after a successful
/// `deploy_handoff` run.
#[derive(Debug, Clone, Default)]
pub struct DeployHandoffActionResult {
    /// Docker container id after a successful deploy.
    pub container_id: Option<String>,
    /// Canonical URL (no trailing slash) of the cell's import endpoint.
    pub import_base_url: Option<String>,
    /// Canonical health-check URL for the deployed cell (when wired).
    pub health_url: Option<String>,
    /// Diagnostic provenance for `import_base_url`.
    pub source: Option<String>,
}

/// Payload for queued `teardown_handoff` node actions.
#[derive(Debug, Clone)]
pub struct TeardownHandoffActionRequest {
    /// Target node id (must match the queued command row).
    pub node_id: String,
    /// Logical container name or reference to stop/remove.
    pub container_ref: String,
    /// When true, the agent also removes the container's volumes after the stop succeeds.
    pub remove_volumes: bool,
    /// Optional Docker id guard: teardown is skipped when the running id differs.
    pub expected_container_id: Option<String>,
}

} // verus!
