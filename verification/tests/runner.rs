use pion::json::{JsonNumber, JsonValue};
use pion::matrix::Executor;
use pion::node_actions::ClaimedNodeAction;
use pion::runner::{
    ack_report, container_ref_from_payload, docker_failure_message, ensure_healthy,
    firehose_failure_message, is_hard_error, ready_probe_outcome, ready_timeout_message,
    run_suffix, should_abort, step_op, stub_report, summarize_run, LabState, ProbeOutcome, RunMode,
    StepAction,
};
use pion::scenario::ScenarioStep;

fn member<'a>(v: &'a JsonValue, key: &str) -> &'a JsonValue {
    match v {
        JsonValue::Object(m) => &m.iter().find(|(k, _)| k == key).expect("member present").1,
        other => panic!("not an object: {other:?}"),
    }
}

fn text_of(v: &JsonValue) -> String {
    match v {
        JsonValue::String(s) => s.clone(),
        other => panic!("not a string: {other:?}"),
    }
}

fn lab() -> LabState {
    LabState::new(Executor::Stub, "123457000000000", "nginx:alpine")
}

#[test]
fn lab_identity_derives_from_the_run_id() {
    assert_eq!(run_suffix("abcdefghijkl"), "lkjihgfedc");
    assert_eq!(run_suffix("xyz"), "zyx");
    let l = lab();
    assert_eq!(l.node_id, "pion-lab-node-0000000007");
    assert_eq!(l.container_ref, "lab-handoff-0000000007");
    assert_eq!(l.cell_id, "local-default");
    assert!(l.host_port >= 18000 && l.host_port < 20000);
    let mut acc: u16 = 0;
    for b in "0000000007".bytes() {
        acc = acc.wrapping_mul(31).wrapping_add(u16::from(b));
    }
    assert_eq!(l.host_port, 18000 + acc % 2000);
}

#[test]
fn steps_wait_for_enrollment_and_health() {
    let mut l = lab();
    let e = l.plan_step(&ScenarioStep::HeartbeatUntilHealthy).unwrap_err();
    assert_eq!(e, "HeartbeatUntilHealthy requires EnrollAgent first");
    assert!(is_hard_error(&e));
    let e = l.plan_step(&ScenarioStep::EnqueueDeploy).unwrap_err();
    assert_eq!(e, "node not healthy; run HeartbeatUntilHealthy first");
    assert!(ensure_healthy(&l).is_err());
    assert!(matches!(l.plan_step(&ScenarioStep::EnrollAgent), Ok(StepAction::Enroll)));
    l.on_enrolled("ghe.id.secret".to_string());
    assert!(matches!(l.plan_step(&ScenarioStep::HeartbeatUntilHealthy), Ok(StepAction::Heartbeat)));
    l.on_heartbeat_ok();
    assert!(l.enrollment_token.is_none());
    assert!(ensure_healthy(&l).is_ok());
    assert!(matches!(l.plan_step(&ScenarioStep::ClaimAndAck), Ok(StepAction::ClaimAndAck)));
    assert!(matches!(l.plan_step(&ScenarioStep::ExtendLease), Ok(StepAction::Record)));
}

#[test]
fn stub_deploy_and_teardown_round_trip() {
    let mut l = lab();
    l.on_enrolled("t".to_string());
    l.on_heartbeat_ok();
    let payload = match l.plan_step(&ScenarioStep::EnqueueDeploy) {
        Ok(StepAction::EnqueueDeploy { payload, correlation_key, sequence }) => {
            assert_eq!(correlation_key, "lab:deploy");
            assert_eq!(sequence, 1);
            payload
        }
        other => panic!("unexpected plan {other:?}"),
    };
    assert_eq!(text_of(member(&payload, "container_ref")), l.container_ref);
    assert_eq!(text_of(member(&payload, "transfer_id")), "lab-xfer");
    assert_eq!(
        text_of(member(&payload, "health_url")),
        format!("http://127.0.0.1:{}/", l.host_port)
    );
    let e = l.plan_step(&ScenarioStep::AssertContainerRunning).unwrap_err();
    assert_eq!(e, format!("expected container `{}` running; stub set={{}}", l.container_ref));
    l.stub_mutate_running("deploy_handoff", &payload).unwrap();
    assert!(l.is_running(&l.container_ref.clone()));
    assert!(matches!(l.plan_step(&ScenarioStep::AssertContainerRunning), Ok(StepAction::Record)));
    let e = l.plan_step(&ScenarioStep::AssertContainerGone).unwrap_err();
    assert_eq!(e, format!("expected container `{}` gone; still in stub set", l.container_ref));
    let teardown = match l.plan_step(&ScenarioStep::EnqueueTeardown) {
        Ok(StepAction::EnqueueTeardown { payload, correlation_key, .. }) => {
            assert_eq!(correlation_key, "lab:teardown");
            payload
        }
        other => panic!("unexpected plan {other:?}"),
    };
    assert!(matches!(member(&teardown, "remove_volumes"), JsonValue::Bool(false)));
    l.stub_mutate_running("teardown_handoff", &teardown).unwrap();
    assert!(l.running.is_empty());
    assert!(matches!(l.plan_step(&ScenarioStep::AssertContainerGone), Ok(StepAction::Record)));
    let e = l.stub_mutate_running("logs", &JsonValue::Null).unwrap_err();
    assert_eq!(e, "stub executor does not handle action_kind logs");
}

#[test]
fn running_set_names_are_listed_in_the_failure() {
    let mut l = lab();
    l.mark_running("other-a");
    l.mark_running("other-a");
    l.mark_running("other-b");
    assert_eq!(l.running.len(), 2);
    let e = l.plan_step(&ScenarioStep::AssertContainerRunning).unwrap_err();
    assert!(e.ends_with("stub set={\"other-a\", \"other-b\"}"));
    l.mark_gone("other-a");
    assert_eq!(l.running, vec!["other-b".to_string()]);
}

#[test]
fn firehose_batches_cover_every_index_once_in_order() {
    let mut l = lab();
    l.on_enrolled("t".to_string());
    l.on_heartbeat_ok();
    let items = l.firehose_items(7, 3, false);
    assert_eq!(items.len(), 7);
    for (k, it) in items.iter().enumerate() {
        assert_eq!(it.index as usize, k);
        assert_eq!(it.container_ref, format!("{}-{k}", l.container_ref));
        assert_eq!(it.host_port, 19_000 + k as u16);
        assert_eq!(it.correlation_key, format!("lab:firehose:{k}"));
        assert_eq!(it.sequence, k as i64 + 1);
        assert_eq!(text_of(member(&it.payload, "transfer_id")), format!("lab-xfer-{k}"));
    }
    let zero_c = l.firehose_items(4, 0, true);
    assert_eq!(zero_c.len(), 4);
    assert_eq!(zero_c[3].correlation_key, "lab:firehose-td:3");
    assert_eq!(l.firehose_item(50_000, false).host_port, 65_535);
    match l.plan_step(&ScenarioStep::FirehoseTeardown { n: 2, concurrency: 5 }) {
        Ok(StepAction::Firehose { teardown, items }) => {
            assert!(teardown);
            assert_eq!(items.len(), 2);
        }
        other => panic!("unexpected plan {other:?}"),
    }
}

#[test]
fn payload_container_ref_is_read_back() {
    let payload = JsonValue::Object(vec![
        ("container_ref".to_string(), JsonValue::String("svc-a".to_string())),
    ]);
    assert_eq!(container_ref_from_payload(&payload), Some("svc-a".to_string()));
    let numeric = JsonValue::Object(vec![(
        "container_ref".to_string(),
        JsonValue::Number(JsonNumber::PosInt(1)),
    )]);
    assert_eq!(container_ref_from_payload(&numeric), None);
}

#[test]
fn reports_and_failure_messages() {
    let claimed = ClaimedNodeAction {
        command_id: "cmd-9".to_string(),
        action_kind: "deploy_handoff".to_string(),
        payload_json: JsonValue::Null,
        attempt: 2,
        correlation_key: None,
        sequence: None,
    };
    let r = stub_report(&claimed, "node-1");
    assert_eq!(r.command_id, "cmd-9");
    assert_eq!(r.attempt, 2);
    assert!(r.success);
    assert_eq!(r.stdout.as_deref(), Some("stub ok"));
    assert_eq!(text_of(member(r.payload_json.as_ref().unwrap(), "executor")), "stub");
    let a = ack_report(&claimed, "node-1");
    assert_eq!(a.stdout.as_deref(), Some("ack only"));
    assert_eq!(docker_failure_message(None), "docker-cli action failed: unknown");
    assert_eq!(docker_failure_message(Some("oom")), "docker-cli action failed: oom");
    assert_eq!(firehose_failure_message(true, None), "firehose teardown failed: unknown");
    assert_eq!(firehose_failure_message(false, Some("x")), "firehose deploy failed: x");
}

#[test]
fn run_abort_and_probe_decisions() {
    assert!(should_abort(RunMode::Correctness, Executor::Stub, "anything"));
    assert!(should_abort(RunMode::Benchmark, Executor::DockerCli, "soft"));
    assert!(!should_abort(RunMode::Benchmark, Executor::Stub, "no pending action to claim"));
    assert!(should_abort(RunMode::Benchmark, Executor::Stub, "topology not implemented in runner"));
    assert_eq!(step_op(&ScenarioStep::ClaimAndAck), "schedule_claim");
    assert_eq!(step_op(&ScenarioStep::ApplyReEnroll), "applyreenroll");
    assert_eq!(ready_probe_outcome(true, true, true), ProbeOutcome::Ready);
    assert_eq!(ready_probe_outcome(true, false, true), ProbeOutcome::TimedOut);
    assert_eq!(ready_probe_outcome(false, true, false), ProbeOutcome::Retry);
    assert_eq!(ready_timeout_message(18765), "Ready probe timed out for http://127.0.0.1:18765/");
    let l = lab();
    let hb = l.heartbeat_report();
    assert_eq!(hb.hostname, format!("{}.local", l.node_id));
    assert_eq!(hb.memory_bytes, 8 * 1024 * 1024 * 1024);
}

#[test]
fn queue_events_record_the_last_command() {
    let mut l = lab();
    l.on_enqueued("pna_1".to_string());
    assert_eq!(l.last_command_id.as_deref(), Some("pna_1"));
    assert_eq!(l.last_attempt, 0);
    l.on_claimed("pna_1".to_string(), 3);
    assert_eq!(l.last_command_id.as_deref(), Some("pna_1"));
    assert_eq!(l.last_attempt, 3);
}

#[test]
fn stub_firehose_records_every_container_then_forgets_them() {
    let mut l = lab();
    l.on_enrolled("ghe.id.secret".to_string());
    l.on_heartbeat_ok();
    let deploy = match l.plan_step(&ScenarioStep::FirehoseDeploy { n: 5, concurrency: 2 }) {
        Ok(StepAction::Firehose { teardown: false, items }) => items,
        other => panic!("unexpected plan: {other:?}"),
    };
    for it in &deploy {
        l.stub_mutate_running("deploy_handoff", &it.payload).unwrap();
    }
    for i in 0..5 {
        assert!(l.is_running(&format!("{}-{i}", l.container_ref)));
    }
    assert_eq!(l.running.len(), 5);
    let teardown = match l.plan_step(&ScenarioStep::FirehoseTeardown { n: 5, concurrency: 0 }) {
        Ok(StepAction::Firehose { teardown: true, items }) => items,
        other => panic!("unexpected plan: {other:?}"),
    };
    for it in &teardown {
        l.stub_mutate_running("teardown_handoff", &it.payload).unwrap();
    }
    assert!(l.running.is_empty());
}

#[test]
fn run_summary_stops_at_the_first_stopping_failure() {
    let steps = vec![
        ScenarioStep::EnrollAgent,
        ScenarioStep::FirehoseDeploy { n: 4, concurrency: 2 },
        ScenarioStep::ClaimAndExecute,
        ScenarioStep::PrePullImage,
    ];
    let outcomes = vec![Ok(()), Ok(()), Err("claim failed".to_string()), Ok(())];
    let r = summarize_run(RunMode::Correctness, Executor::Stub, &steps, &outcomes);
    assert_eq!(r.error.as_deref(), Some("claim failed"));
    assert_eq!(r.records.len(), 2);
    assert_eq!((r.records[0].step_index, r.records[0].op.as_str(), r.records[0].sample_count), (0, "enroll", 1));
    assert_eq!(
        (r.records[1].step_index, r.records[1].op.as_str(), r.records[1].sample_count),
        (1, "firehose_deploy", 4)
    );

    let r = summarize_run(RunMode::Benchmark, Executor::Stub, &steps, &outcomes);
    assert!(r.error.is_none());
    assert_eq!(r.records.len(), 3);
    assert_eq!((r.records[2].step_index, r.records[2].op.as_str()), (3, "pre_pull"));

    let hard = vec![Ok(()), Err("executor not implemented".to_string()), Ok(()), Ok(())];
    let r = summarize_run(RunMode::Benchmark, Executor::Stub, &steps, &hard);
    assert_eq!(r.error.as_deref(), Some("executor not implemented"));
    assert_eq!(r.records.len(), 1);

    let r = summarize_run(RunMode::Benchmark, Executor::DockerCli, &steps, &outcomes);
    assert_eq!(r.error.as_deref(), Some("claim failed"));
}

#[test]
fn state_handlers_keep_the_cell() {
    let mut l = lab();
    let cell = l.cell_id.clone();
    l.on_enrolled("ghe.id.secret".to_string());
    l.on_heartbeat_ok();
    l.on_enqueued("cmd-1".to_string());
    l.on_claimed("cmd-1".to_string(), 2);
    assert_eq!(l.cell_id, cell);
    assert_eq!(l.last_attempt, 2);
}
