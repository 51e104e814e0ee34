use pion::bench::{
    find_primary_step, orchestrator_slug, plan_experiment, scenario_for, BackendArg, ExecutorArg,
    ExperimentId, HardwareArg, TopologyArg,
};
use pion::bench_image::{bench_image_ref, bench_port_mapping, BENCH_HOST_PORT, DEFAULT_BENCH_IMAGE};
use pion::matrix::{Backend, Executor, Hardware, MatrixSpec, TelemetryAdapter, Topology};

#[test]
fn edge_experiments_need_the_docker_executor() {
    let err = plan_experiment(
        ExperimentId::BmD1,
        20,
        HardwareArg::AwsC6iLarge,
        BackendArg::Sqlite,
        TopologyArg::AwsSameRegion,
        ExecutorArg::Stub,
        None,
        None,
    )
    .unwrap_err();
    assert_eq!(err, "bm-d1 requires --executor docker-cli (shared deployable path)");
    let d0 = plan_experiment(
        ExperimentId::BmD0,
        80,
        HardwareArg::DevWsl,
        BackendArg::Hybrid,
        TopologyArg::IsolatedHarness,
        ExecutorArg::Stub,
        None,
        None,
    )
    .unwrap();
    assert_eq!(d0.iterations, 50);
    assert_eq!(d0.primary_metric, "schedule_ms");
    assert_eq!(d0.primary_op, "schedule_claim");
    assert_eq!(d0.scenario.id, "schedule-claim-smoke");
    assert_eq!(
        d0.matrix,
        MatrixSpec {
            topology: Topology::IsolatedHarness,
            executor: Executor::Stub,
            backend: Backend::Hybrid,
            telemetry: TelemetryAdapter::Off,
            hardware: Hardware::DevWsl,
        }
    );
}

#[test]
fn iterations_and_metrics_per_experiment() {
    let plan = |e: ExperimentId, ops: u32| {
        plan_experiment(
            e,
            ops,
            HardwareArg::AwsT3Large,
            BackendArg::Sqlite,
            TopologyArg::AwsWan,
            ExecutorArg::DockerCli,
            Some(12),
            None,
        )
        .unwrap()
    };
    assert_eq!(plan(ExperimentId::BmR0, 0).iterations, 1);
    assert_eq!(plan(ExperimentId::BmR0, 70).iterations, 70);
    assert_eq!(plan(ExperimentId::BmD1, 70).iterations, 30);
    assert_eq!(plan(ExperimentId::BmD3, 70).iterations, 20);
    assert_eq!(plan(ExperimentId::BmDf0, 70).iterations, 1);
    let d2 = plan(ExperimentId::BmD2, 5);
    assert!(d2.last_matching_step);
    assert_eq!(d2.primary_metric, "time_to_gone_ms");
    let df1 = plan(ExperimentId::BmDf1, 5);
    assert!(df1.rate_from_wall_clock);
    assert_eq!(df1.scenario.id, "firehose-deploy-n12-c4");
    assert_eq!(scenario_for(ExperimentId::BmDm1, None, None).id, "firehose-deploy-n50-c4");
    assert_eq!(ExperimentId::BmRf1.as_str(), "bm-rf1");
    assert_eq!(HardwareArg::AwsT3Large.to_hardware(), Hardware::AwsT3Large);
    assert_eq!(BackendArg::Hybrid.to_backend(), Backend::Hybrid);
    assert_eq!(TopologyArg::LocalDocker.to_topology(), Topology::LocalDocker);
    assert_eq!(ExecutorArg::DockerCli.to_executor(), Executor::DockerCli);
}

#[test]
fn primary_step_first_or_last_match() {
    let ops: Vec<String> = ["enroll", "claim_execute", "assert_running", "claim_execute"]
        .iter()
        .map(|s| s.to_string())
        .collect();
    assert_eq!(find_primary_step(&ops, "claim_execute", false), Some(1));
    assert_eq!(find_primary_step(&ops, "claim_execute", true), Some(3));
    assert_eq!(find_primary_step(&ops, "heartbeat", true), None);
    let m = MatrixSpec::isolated_harness_stub();
    assert_eq!(
        orchestrator_slug(ExperimentId::BmR0, &m),
        "bm-r0-pion-isolated-harness-stub-sqlite-off-dev-wsl"
    );
}

#[test]
fn bench_image_and_ports() {
    assert_eq!(bench_image_ref(None), DEFAULT_BENCH_IMAGE);
    assert_eq!(bench_image_ref(Some("   ")), DEFAULT_BENCH_IMAGE);
    assert_eq!(bench_image_ref(Some(" nginx:1.27 ")), "nginx:1.27");
    assert_eq!(bench_port_mapping(BENCH_HOST_PORT), "18765:80");
}
