use pion::scenario::{ScenarioSpec, ScenarioStep};

#[test]
fn smoke_scenarios_have_their_ids_and_steps() {
    let s = ScenarioSpec::enroll_deploy_smoke();
    assert_eq!(s.id, "enroll-deploy-smoke");
    assert_eq!(
        s.steps,
        vec![
            ScenarioStep::EnrollAgent,
            ScenarioStep::HeartbeatUntilHealthy,
            ScenarioStep::EnqueueDeploy,
            ScenarioStep::ClaimAndExecute,
            ScenarioStep::AssertContainerRunning,
        ]
    );
    assert_eq!(ScenarioSpec::heartbeat_rtt_smoke().steps.len(), 2);
    assert_eq!(ScenarioSpec::enroll_teardown_gone_docker().steps.len(), 9);
    assert_eq!(ScenarioSpec::schedule_claim_smoke().steps[3], ScenarioStep::ClaimAndAck);
    assert_eq!(ScenarioSpec::enroll_deploy_cold_docker().id, "enroll-deploy-cold-docker");
    assert_eq!(ScenarioSpec::enroll_deploy_warm_docker().steps[2], ScenarioStep::PrePullImage);
    assert_eq!(ScenarioSpec::enroll_teardown_smoke().steps[7], ScenarioStep::AssertContainerGone);
}

#[test]
fn firehose_scenarios() {
    let s = ScenarioSpec::firehose_deploy_stub();
    assert_eq!(s.steps[2], ScenarioStep::FirehoseDeploy { n: 10, concurrency: 2 });
    let s = ScenarioSpec::firehose_deploy_df0();
    assert_eq!(s.steps[3], ScenarioStep::FirehoseDeploy { n: 50, concurrency: 4 });
    let s = ScenarioSpec::firehose_deploy_n(25, 3);
    assert_eq!(s.id, "firehose-deploy-n25-c3");
    assert_eq!(s.steps[3], ScenarioStep::FirehoseDeploy { n: 25, concurrency: 3 });
}
