//! Declarative agent and control-plane scenarios, shared by end-to-end runs (which assert)
//! and benchmarks (which measure).
use vstd::prelude::*;

use crate::text::{decimal_seq, push_decimal, push_str};

verus! {

/// One step of a scenario.
#[derive(Debug, Clone, Copy, PartialEq, Eq, Structural)]
pub enum ScenarioStep {
    /// Create a host enrollment ticket and keep its wire token.
    EnrollAgent,
    /// Heartbeat until the node is accepted.
    HeartbeatUntilHealthy,
    /// Pull the shared bench image ahead of the measured path.
    PrePullImage,
    /// Enqueue a `deploy_handoff` node action for the lab node.
    EnqueueDeploy,
    /// Claim the pending action and acknowledge it without executing.
    ClaimAndAck,
    /// Claim the pending action and execute it.
    ClaimAndExecute,
    /// The target container runs.
    AssertContainerRunning,
    /// Enqueue a `teardown_handoff` node action.
    EnqueueTeardown,
    /// The target container is gone.
    AssertContainerGone,
    /// Deploy firehose: `n` actions, at most `concurrency` in flight.
    FirehoseDeploy { n: u32, concurrency: u32 },
    /// Teardown firehose.
    FirehoseTeardown { n: u32, concurrency: u32 },
    /// Extend the lease of the claimed command.
    ExtendLease,
    /// Cancel a pending or running action.
    CancelAction,
    /// Apply a re-enroll handoff directive.
    ApplyReEnroll,
    /// Apply a revoke handoff directive.
    ApplyRevoke,
}

/// A named scenario: a stable id and its ordered steps.
#[derive(Debug, Clone)]
pub struct ScenarioSpec {
    /// Stable scenario id.
    pub id: String,
    /// Steps in execution order.
    pub steps: Vec<ScenarioStep>,
}

/// The id of a configurable deploy firehose.
pub open spec fn firehose_id_text(n: u32, concurrency: u32) -> Seq<char> {
    "firehose-deploy-n"@ + decimal_seq(n as nat) + "-c"@ + decimal_seq(concurrency as nat)
}

/// Enroll, then heartbeat until healthy: the prefix of every scenario.
pub open spec fn onboarding() -> Seq<ScenarioStep> {
    seq![ScenarioStep::EnrollAgent, ScenarioStep::HeartbeatUntilHealthy]
}

fn spec_of(id: &str, steps: Vec<ScenarioStep>) -> (r: ScenarioSpec)
    ensures
        r.id@ == id@,
        r.steps@ == steps@,
{
    ScenarioSpec { id: id.to_owned(), steps }
}

fn onboarded() -> (r: Vec<ScenarioStep>)
    ensures
        r@ == onboarding(),
{
    let mut v: Vec<ScenarioStep> = Vec::new();
    v.push(ScenarioStep::EnrollAgent);
    v.push(ScenarioStep::HeartbeatUntilHealthy);
    assert(v@ =~= onboarding());
    v
}

impl ScenarioSpec {
    /// Enroll, heartbeat, deploy, claim and execute, container running: the primary
    /// correctness smoke.
    pub fn enroll_deploy_smoke() -> (r: Self)
        ensures
            r.id@ == "enroll-deploy-smoke"@,
            r.steps@ == onboarding() + seq![
                ScenarioStep::EnqueueDeploy,
                ScenarioStep::ClaimAndExecute,
                ScenarioStep::AssertContainerRunning,
            ],
    {
        let mut v = onboarded();
        v.push(ScenarioStep::EnqueueDeploy);
        v.push(ScenarioStep::ClaimAndExecute);
        v.push(ScenarioStep::AssertContainerRunning);
        let r = spec_of("enroll-deploy-smoke", v);
        assert(r.steps@ =~= onboarding() + seq![
            ScenarioStep::EnqueueDeploy,
            ScenarioStep::ClaimAndExecute,
            ScenarioStep::AssertContainerRunning,
        ]);
        r
    }

    /// Warm deploy with the image pulled first.
    pub fn enroll_deploy_warm_docker() -> (r: Self)
        ensures
            r.id@ == "enroll-deploy-warm-docker"@,
            r.steps@ == onboarding() + seq![
                ScenarioStep::PrePullImage,
                ScenarioStep::EnqueueDeploy,
                ScenarioStep::ClaimAndExecute,
                ScenarioStep::AssertContainerRunning,
            ],
    {
        let mut v = onboarded();
        v.push(ScenarioStep::PrePullImage);
        v.push(ScenarioStep::EnqueueDeploy);
        v.push(ScenarioStep::ClaimAndExecute);
        v.push(ScenarioStep::AssertContainerRunning);
        let r = spec_of("enroll-deploy-warm-docker", v);
        assert(r.steps@ =~= onboarding() + seq![
            ScenarioStep::PrePullImage,
            ScenarioStep::EnqueueDeploy,
            ScenarioStep::ClaimAndExecute,
            ScenarioStep::AssertContainerRunning,
        ]);
        r
    }

    /// Warm deploy, then teardown until the container is gone.
    pub fn enroll_teardown_gone_docker() -> (r: Self)
        ensures
            r.id@ == "enroll-teardown-gone-docker"@,
            r.steps@ == onboarding() + seq![
                ScenarioStep::PrePullImage,
                ScenarioStep::EnqueueDeploy,
                ScenarioStep::ClaimAndExecute,
                ScenarioStep::AssertContainerRunning,
                ScenarioStep::EnqueueTeardown,
                ScenarioStep::ClaimAndExecute,
                ScenarioStep::AssertContainerGone,
            ],
    {
        let mut v = onboarded();
        v.push(ScenarioStep::PrePullImage);
        v.push(ScenarioStep::EnqueueDeploy);
        v.push(ScenarioStep::ClaimAndExecute);
        v.push(ScenarioStep::AssertContainerRunning);
        v.push(ScenarioStep::EnqueueTeardown);
        v.push(ScenarioStep::ClaimAndExecute);
        v.push(ScenarioStep::AssertContainerGone);
        let r = spec_of("enroll-teardown-gone-docker", v);
        assert(r.steps@ =~= onboarding() + seq![
            ScenarioStep::PrePullImage,
            ScenarioStep::EnqueueDeploy,
            ScenarioStep::ClaimAndExecute,
            ScenarioStep::AssertContainerRunning,
            ScenarioStep::EnqueueTeardown,
            ScenarioStep::ClaimAndExecute,
            ScenarioStep::AssertContainerGone,
        ]);
        r
    }

    /// Cold deploy: no pre-pull, the pull happens inside the deploy.
    pub fn enroll_deploy_cold_docker() -> (r: Self)
        ensures
            r.id@ == "enroll-deploy-cold-docker"@,
            r.steps@ == onboarding() + seq![
                ScenarioStep::EnqueueDeploy,
                ScenarioStep::ClaimAndExecute,
                ScenarioStep::AssertContainerRunning,
            ],
    {
        let mut v = onboarded();
        v.push(ScenarioStep::EnqueueDeploy);
        v.push(ScenarioStep::ClaimAndExecute);
        v.push(ScenarioStep::AssertContainerRunning);
        let r = spec_of("enroll-deploy-cold-docker", v);
        assert(r.steps@ =~= onboarding() + seq![
            ScenarioStep::EnqueueDeploy,
            ScenarioStep::ClaimAndExecute,
            ScenarioStep::AssertContainerRunning,
        ]);
        r
    }

    /// Schedule path only: enqueue, then claim and acknowledge.
    pub fn schedule_claim_smoke() -> (r: Self)
        ensures
            r.id@ == "schedule-claim-smoke"@,
            r.steps@ == onboarding() + seq![
                ScenarioStep::EnqueueDeploy,
                ScenarioStep::ClaimAndAck,
            ],
    {
        let mut v = onboarded();
        v.push(ScenarioStep::EnqueueDeploy);
        v.push(ScenarioStep::ClaimAndAck);
        let r = spec_of("schedule-claim-smoke", v);
        assert(r.steps@ =~= onboarding() + seq![
            ScenarioStep::EnqueueDeploy,
            ScenarioStep::ClaimAndAck,
        ]);
        r
    }

    /// Heartbeat round trip: enroll once, then heartbeat.
    pub fn heartbeat_rtt_smoke() -> (r: Self)
        ensures
            r.id@ == "heartbeat-rtt-smoke"@,
            r.steps@ == onboarding(),
    {
        let v = onboarded();
        spec_of("heartbeat-rtt-smoke", v)
    }

    /// One teardown after a stub deploy.
    pub fn enroll_teardown_smoke() -> (r: Self)
        ensures
            r.id@ == "enroll-teardown-smoke"@,
            r.steps@ == onboarding() + seq![
                ScenarioStep::EnqueueDeploy,
                ScenarioStep::ClaimAndExecute,
                ScenarioStep::AssertContainerRunning,
                ScenarioStep::EnqueueTeardown,
                ScenarioStep::ClaimAndExecute,
                ScenarioStep::AssertContainerGone,
            ],
    {
        let mut v = onboarded();
        v.push(ScenarioStep::EnqueueDeploy);
        v.push(ScenarioStep::ClaimAndExecute);
        v.push(ScenarioStep::AssertContainerRunning);
        v.push(ScenarioStep::EnqueueTeardown);
        v.push(ScenarioStep::ClaimAndExecute);
        v.push(ScenarioStep::AssertContainerGone);
        let r = spec_of("enroll-teardown-smoke", v);
        assert(r.steps@ =~= onboarding() + seq![
            ScenarioStep::EnqueueDeploy,
            ScenarioStep::ClaimAndExecute,
            ScenarioStep::AssertContainerRunning,
            ScenarioStep::EnqueueTeardown,
            ScenarioStep::ClaimAndExecute,
            ScenarioStep::AssertContainerGone,
        ]);
        r
    }

    /// Small stub firehose: ten deploys, two in flight.
    pub fn firehose_deploy_stub() -> (r: Self)
        ensures
            r.id@ == "firehose-deploy-stub"@,
            r.steps@ == onboarding() + seq![
                ScenarioStep::FirehoseDeploy { n: 10, concurrency: 2 },
            ],
    {
        let mut v = onboarded();
        v.push(ScenarioStep::FirehoseDeploy { n: 10, concurrency: 2 });
        let r = spec_of("firehose-deploy-stub", v);
        assert(r.steps@ =~= onboarding() + seq![
            ScenarioStep::FirehoseDeploy { n: 10, concurrency: 2 },
        ]);
        r
    }

    /// Edge firehose: fifty deploys, four in flight, image pulled first.
    pub fn firehose_deploy_df0() -> (r: Self)
        ensures
            r.id@ == "firehose-deploy-df0"@,
            r.steps@ == onboarding() + seq![
                ScenarioStep::PrePullImage,
                ScenarioStep::FirehoseDeploy { n: 50, concurrency: 4 },
            ],
    {
        let mut v = onboarded();
        v.push(ScenarioStep::PrePullImage);
        v.push(ScenarioStep::FirehoseDeploy { n: 50, concurrency: 4 });
        let r = spec_of("firehose-deploy-df0", v);
        assert(r.steps@ =~= onboarding() + seq![
            ScenarioStep::PrePullImage,
            ScenarioStep::FirehoseDeploy { n: 50, concurrency: 4 },
        ]);
        r
    }

    /// Configurable firehose of `n` deploys, `concurrency` in flight, image pulled first.
    pub fn firehose_deploy_n(n: u32, concurrency: u32) -> (r: Self)
        ensures
            r.id@ == firehose_id_text(n, concurrency),
            r.steps@ == onboarding() + seq![
                ScenarioStep::PrePullImage,
                ScenarioStep::FirehoseDeploy { n, concurrency },
            ],
    {
        let mut id = String::new();
        push_str(&mut id, "firehose-deploy-n");
        push_decimal(&mut id, n as u64);
        push_str(&mut id, "-c");
        push_decimal(&mut id, concurrency as u64);
        assert(id@ =~= firehose_id_text(n, concurrency));
        let mut v = onboarded();
        v.push(ScenarioStep::PrePullImage);
        v.push(ScenarioStep::FirehoseDeploy { n, concurrency });
        assert(v@ =~= onboarding() + seq![
            ScenarioStep::PrePullImage,
            ScenarioStep::FirehoseDeploy { n, concurrency },
        ]);
        ScenarioSpec { id, steps: v }
    }
}

} // verus!
