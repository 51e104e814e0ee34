use pion::matrix::{Backend, Executor, Hardware, MatrixSpec, TelemetryAdapter, Topology};

#[test]
fn matrix_isolated_harness_stub_slug() {
    let slug = MatrixSpec::isolated_harness_stub().report_slug();
    assert!(slug.contains("isolated-harness"));
    assert!(slug.contains("stub"));
}

#[test]
fn isolated_harness_stub_defaults() {
    let m = MatrixSpec::isolated_harness_stub();
    assert_eq!(m.topology, Topology::IsolatedHarness);
    assert_eq!(m.executor, Executor::Stub);
    assert_eq!(m.backend, Backend::Sqlite);
    assert!(m.report_slug().contains("sqlite"));
}

#[test]
fn aws_wan_hybrid_uses_docker_cli_and_wan_topology() {
    let m = MatrixSpec::aws_wan_hybrid(Hardware::AwsC6iLarge);
    assert_eq!(m.topology, Topology::AwsWan);
    assert_eq!(m.executor, Executor::DockerCli);
    assert_eq!(m.backend, Backend::Hybrid);
    assert_eq!(Topology::AwsWan.as_str(), "aws-wan");
    assert!(m.report_slug().starts_with("aws-wan-docker-cli-hybrid-"));
}

#[test]
fn full_slug_and_overrides() {
    let m = MatrixSpec::aws_same_region_sqlite(Hardware::AwsT3Large).with_backend(Backend::Hybrid);
    assert_eq!(m.report_slug(), "aws-same-region-docker-cli-hybrid-off-aws-t3-large");
    let m = MatrixSpec::local_docker().with_hardware(Hardware::AwsC6iLarge);
    assert_eq!(m.report_slug(), "local-docker-docker-cli-sqlite-off-aws-c6i-large");
    assert_eq!(MatrixSpec::default(), MatrixSpec::isolated_harness_stub());
    assert_eq!(
        MatrixSpec::isolated_harness_stub_on(Hardware::AwsT3Large).hardware,
        Hardware::AwsT3Large
    );
    assert_eq!(
        MatrixSpec::aws_same_region_hybrid(Hardware::DevWsl).backend,
        Backend::Hybrid
    );
    assert_eq!(TelemetryAdapter::Console.as_str(), "console");
}

#[test]
fn topology_strings_round_trip_and_alias() {
    for t in [Topology::IsolatedHarness, Topology::LocalDocker, Topology::AwsSameRegion, Topology::AwsWan] {
        assert_eq!(Topology::parse(t.as_str()), Some(t));
    }
    assert_eq!(Topology::parse("isolated-lab"), Some(Topology::IsolatedHarness));
    assert_eq!(Topology::parse("moon"), None);
}

#[test]
fn only_aws_hardware_is_authoritative() {
    assert!(!Hardware::DevWsl.is_authoritative());
    assert!(Hardware::AwsT3Large.is_authoritative());
    assert!(Hardware::AwsC6iLarge.is_authoritative());
}
