//! Benchmark experiments: which matrix row, scenario, iteration count and primary metric each
//! experiment id runs, and which rows the shared deployable path requires.
use vstd::prelude::*;

use crate::matrix::{slug_text, Backend, Executor, Hardware, MatrixSpec, TelemetryAdapter, Topology};
use crate::scenario::{onboarding, ScenarioSpec, ScenarioStep};
use crate::text::{push_str, str_equal, strings_view};

verus! {

/// Registered experiment ids.
#[derive(Debug, Clone, Copy, PartialEq, Eq, Structural)]
pub enum ExperimentId {
    BmR0,
    BmR1,
    BmR2,
    BmRf0,
    BmRf1,
    BmD0,
    BmD1,
    BmD2,
    BmD3,
    BmDf0,
    BmDf1,
    BmDm1,
}

/// CLI name of an experiment.
pub open spec fn experiment_text(e: ExperimentId) -> Seq<char> {
    match e {
        ExperimentId::BmR0 => "bm-r0"@,
        ExperimentId::BmR1 => "bm-r1"@,
        ExperimentId::BmR2 => "bm-r2"@,
        ExperimentId::BmRf0 => "bm-rf0"@,
        ExperimentId::BmRf1 => "bm-rf1"@,
        ExperimentId::BmD0 => "bm-d0"@,
        ExperimentId::BmD1 => "bm-d1"@,
        ExperimentId::BmD2 => "bm-d2"@,
        ExperimentId::BmD3 => "bm-d3"@,
        ExperimentId::BmDf0 => "bm-df0"@,
        ExperimentId::BmDf1 => "bm-df1"@,
        ExperimentId::BmDm1 => "bm-dm1"@,
    }
}

impl ExperimentId {
    /// Stable CLI and report name.
    pub fn as_str(self) -> (r: &'static str)
        ensures
            r@ == experiment_text(self),
    {
        match self {
            ExperimentId::BmR0 => "bm-r0",
            ExperimentId::BmR1 => "bm-r1",
            ExperimentId::BmR2 => "bm-r2",
            ExperimentId::BmRf0 => "bm-rf0",
            ExperimentId::BmRf1 => "bm-rf1",
            ExperimentId::BmD0 => "bm-d0",
            ExperimentId::BmD1 => "bm-d1",
            ExperimentId::BmD2 => "bm-d2",
            ExperimentId::BmD3 => "bm-d3",
            ExperimentId::BmDf0 => "bm-df0",
            ExperimentId::BmDf1 => "bm-df1",
            ExperimentId::BmDm1 => "bm-dm1",
        }
    }
}

/// Hardware label given on the command line.
#[derive(Debug, Clone, Copy, PartialEq, Eq, Structural)]
pub enum HardwareArg {
    DevWsl,
    AwsT3Large,
    AwsC6iLarge,
}

impl HardwareArg {
    /// The matrix hardware label.
    pub fn to_hardware(self) -> (r: Hardware)
        ensures
            r == hardware_of(self),
    {
        match self {
            HardwareArg::DevWsl => Hardware::DevWsl,
            HardwareArg::AwsT3Large => Hardware::AwsT3Large,
            HardwareArg::AwsC6iLarge => Hardware::AwsC6iLarge,
        }
    }
}

/// Storage backend given on the command line.
#[derive(Debug, Clone, Copy, PartialEq, Eq, Structural)]
pub enum BackendArg {
    Sqlite,
    Hybrid,
}

impl BackendArg {
    /// The matrix backend.
    pub fn to_backend(self) -> (r: Backend)
        ensures
            r == backend_of(self),
    {
        match self {
            BackendArg::Sqlite => Backend::Sqlite,
            BackendArg::Hybrid => Backend::Hybrid,
        }
    }
}

/// Topology given on the command line.
#[derive(Debug, Clone, Copy, PartialEq, Eq, Structural)]
pub enum TopologyArg {
    IsolatedHarness,
    LocalDocker,
    AwsSameRegion,
    AwsWan,
}

impl TopologyArg {
    /// The matrix topology.
    pub fn to_topology(self) -> (r: Topology)
        ensures
            r == topology_of(self),
    {
        match self {
            TopologyArg::IsolatedHarness => Topology::IsolatedHarness,
            TopologyArg::LocalDocker => Topology::LocalDocker,
            TopologyArg::AwsSameRegion => Topology::AwsSameRegion,
            TopologyArg::AwsWan => Topology::AwsWan,
        }
    }
}

/// Executor given on the command line.
#[derive(Debug, Clone, Copy, PartialEq, Eq, Structural)]
pub enum ExecutorArg {
    Stub,
    DockerCli,
}

impl ExecutorArg {
    /// The matrix executor.
    pub fn to_executor(self) -> (r: Executor)
        ensures
            r == executor_of(self),
    {
        match self {
            ExecutorArg::Stub => Executor::Stub,
            ExecutorArg::DockerCli => Executor::DockerCli,
        }
    }
}

/// The matrix hardware of a CLI label.
pub open spec fn hardware_of(a: HardwareArg) -> Hardware {
    match a {
        HardwareArg::DevWsl => Hardware::DevWsl,
        HardwareArg::AwsT3Large => Hardware::AwsT3Large,
        HardwareArg::AwsC6iLarge => Hardware::AwsC6iLarge,
    }
}

/// The matrix backend of a CLI value.
pub open spec fn backend_of(a: BackendArg) -> Backend {
    match a {
        BackendArg::Sqlite => Backend::Sqlite,
        BackendArg::Hybrid => Backend::Hybrid,
    }
}

/// The matrix topology of a CLI value.
pub open spec fn topology_of(a: TopologyArg) -> Topology {
    match a {
        TopologyArg::IsolatedHarness => Topology::IsolatedHarness,
        TopologyArg::LocalDocker => Topology::LocalDocker,
        TopologyArg::AwsSameRegion => Topology::AwsSameRegion,
        TopologyArg::AwsWan => Topology::AwsWan,
    }
}

/// The matrix executor of a CLI value.
pub open spec fn executor_of(a: ExecutorArg) -> Executor {
    match a {
        ExecutorArg::Stub => Executor::Stub,
        ExecutorArg::DockerCli => Executor::DockerCli,
    }
}

/// Edge experiments, which run the shared deployable.
pub open spec fn is_edge(e: ExperimentId) -> bool {
    e is BmD0 || e is BmD1 || e is BmD2 || e is BmD3 || e is BmDf0 || e is BmDf1 || e is BmDm1
}

/// Firehose experiments, which report starts per second.
pub open spec fn is_firehose_rate(e: ExperimentId) -> bool {
    e is BmDf0 || e is BmDf1 || e is BmDm1
}

/// `ops` clamped to `[lo, hi]`.
pub open spec fn clamp(ops: u32, lo: u32, hi: u32) -> u32 {
    if ops < lo {
        lo
    } else if ops > hi {
        hi
    } else {
        ops
    }
}

/// Iterations of an experiment for the requested sample count `ops`.
pub open spec fn iterations_of(e: ExperimentId, ops: u32) -> u32 {
    match e {
        ExperimentId::BmRf0 | ExperimentId::BmRf1 | ExperimentId::BmDf0 | ExperimentId::BmDf1
        | ExperimentId::BmDm1 => 1,
        ExperimentId::BmD1 | ExperimentId::BmD2 => clamp(ops, 1, 30),
        ExperimentId::BmD3 => clamp(ops, 1, 20),
        ExperimentId::BmD0 => clamp(ops, 1, 50),
        _ => if ops < 1 {
            1
        } else {
            ops
        },
    }
}

/// Primary metric name and the step op whose samples feed it.
pub open spec fn primary_of(e: ExperimentId) -> (Seq<char>, Seq<char>) {
    match e {
        ExperimentId::BmR0 => ("heartbeat_rtt_ms"@, "heartbeat"@),
        ExperimentId::BmR1 => ("deploy_warm_ms"@, "claim_execute"@),
        ExperimentId::BmR2 => ("teardown_ms"@, "claim_execute"@),
        ExperimentId::BmRf0 | ExperimentId::BmRf1 | ExperimentId::BmDf0 | ExperimentId::BmDf1
        | ExperimentId::BmDm1 => ("firehose_deploy_ms"@, "firehose_deploy"@),
        ExperimentId::BmD0 => ("schedule_ms"@, "schedule_claim"@),
        ExperimentId::BmD1 => ("time_to_ready_ms"@, "claim_execute"@),
        ExperimentId::BmD2 => ("time_to_gone_ms"@, "claim_execute"@),
        ExperimentId::BmD3 => ("cold_ttr_ms"@, "claim_execute"@),
    }
}

/// Everything a driver needs to run one experiment.
#[derive(Debug)]
pub struct ExperimentPlan {
    /// The matrix row of every iteration.
    pub matrix: MatrixSpec,
    /// Number of iterations.
    pub iterations: u32,
    /// Name of the primary metric.
    pub primary_metric: &'static str,
    /// Step op whose samples feed the primary metric.
    pub primary_op: &'static str,
    /// Scenario of every iteration.
    pub scenario: ScenarioSpec,
    /// Take the samples of the last step with the primary op (teardown rows), not the first.
    pub last_matching_step: bool,
    /// Report starts per second from the wall clock (firehose rows).
    pub rate_from_wall_clock: bool,
}

/// Message of an edge experiment asked to run on the stub executor.
pub open spec fn needs_docker_text(e: ExperimentId) -> Seq<char> {
    experiment_text(e) + " requires --executor docker-cli (shared deployable path)"@
}

/// Plans one experiment. Edge experiments other than `bm-d0` need the Docker CLI executor;
/// any other combination is accepted.
pub fn plan_experiment(
    experiment: ExperimentId,
    ops: u32,
    hardware: HardwareArg,
    backend: BackendArg,
    topology: TopologyArg,
    executor: ExecutorArg,
    firehose_n: Option<u32>,
    firehose_c: Option<u32>,
) -> (r: Result<ExperimentPlan, String>)
    ensures
        match r {
            Err(m) => is_edge(experiment) && executor == ExecutorArg::Stub && experiment
                != ExperimentId::BmD0 && m@ == needs_docker_text(experiment),
            Ok(p) => {
                &&& !(is_edge(experiment) && executor == ExecutorArg::Stub && experiment
                    != ExperimentId::BmD0)
                &&& p.matrix == (MatrixSpec {
                    topology: topology_of(topology),
                    executor: executor_of(executor),
                    backend: backend_of(backend),
                    telemetry: TelemetryAdapter::Off,
                    hardware: hardware_of(hardware),
                })
                &&& p.iterations == iterations_of(experiment, ops)
                &&& (p.primary_metric@, p.primary_op@) == primary_of(experiment)
                &&& p.last_matching_step == (experiment is BmR2 || experiment is BmD2)
                &&& p.rate_from_wall_clock == is_firehose_rate(experiment)
                &&& scenario_of(experiment, firehose_n, firehose_c, p.scenario)
            },
        },
{
    let matrix = MatrixSpec {
        topology: topology.to_topology(),
        executor: executor.to_executor(),
        backend: backend.to_backend(),
        telemetry: TelemetryAdapter::Off,
        hardware: hardware.to_hardware(),
    };
    let edge = match experiment {
        ExperimentId::BmD0 | ExperimentId::BmD1 | ExperimentId::BmD2 | ExperimentId::BmD3
        | ExperimentId::BmDf0 | ExperimentId::BmDf1 | ExperimentId::BmDm1 => true,
        _ => false,
    };
    let stub = match matrix.executor {
        Executor::Stub => true,
        Executor::DockerCli => false,
    };
    let d0 = match experiment {
        ExperimentId::BmD0 => true,
        _ => false,
    };
    if edge && stub && !d0 {
        let mut m = String::new();
        push_str(&mut m, experiment.as_str());
        push_str(&mut m, " requires --executor docker-cli (shared deployable path)");
        assert(m@ =~= needs_docker_text(experiment));
        return Err(m);
    }
    let iterations: u32 = match experiment {
        ExperimentId::BmRf0 | ExperimentId::BmRf1 | ExperimentId::BmDf0 | ExperimentId::BmDf1
        | ExperimentId::BmDm1 => 1,
        ExperimentId::BmD1 | ExperimentId::BmD2 => clamp_ops(ops, 1, 30),
        ExperimentId::BmD3 => clamp_ops(ops, 1, 20),
        ExperimentId::BmD0 => clamp_ops(ops, 1, 50),
        _ => if ops < 1 {
            1
        } else {
            ops
        },
    };
    let (primary_metric, primary_op): (&'static str, &'static str) = match experiment {
        ExperimentId::BmR0 => ("heartbeat_rtt_ms", "heartbeat"),
        ExperimentId::BmR1 => ("deploy_warm_ms", "claim_execute"),
        ExperimentId::BmR2 => ("teardown_ms", "claim_execute"),
        ExperimentId::BmRf0 | ExperimentId::BmRf1 | ExperimentId::BmDf0 | ExperimentId::BmDf1
        | ExperimentId::BmDm1 => ("firehose_deploy_ms", "firehose_deploy"),
        ExperimentId::BmD0 => ("schedule_ms", "schedule_claim"),
        ExperimentId::BmD1 => ("time_to_ready_ms", "claim_execute"),
        ExperimentId::BmD2 => ("time_to_gone_ms", "claim_execute"),
        ExperimentId::BmD3 => ("cold_ttr_ms", "claim_execute"),
    };
    let scenario = scenario_for(experiment, firehose_n, firehose_c);
    let last_matching_step = match experiment {
        ExperimentId::BmR2 | ExperimentId::BmD2 => true,
        _ => false,
    };
    let rate_from_wall_clock = match experiment {
        ExperimentId::BmDf0 | ExperimentId::BmDf1 | ExperimentId::BmDm1 => true,
        _ => false,
    };
    Ok(
        ExperimentPlan {
            matrix,
            iterations,
            primary_metric,
            primary_op,
            scenario,
            last_matching_step,
            rate_from_wall_clock,
        },
    )
}

fn clamp_ops(ops: u32, lo: u32, hi: u32) -> (r: u32)
    requires
        lo <= hi,
    ensures
        r == clamp(ops, lo, hi),
{
    if ops < lo {
        lo
    } else if ops > hi {
        hi
    } else {
        ops
    }
}

/// `s` is the scenario of `e`; configurable firehoses default to fifty deploys, four in flight.
pub open spec fn scenario_of(e: ExperimentId, firehose_n: Option<u32>, firehose_c: Option<u32>, s: ScenarioSpec) -> bool {
    let on = onboarding();
    match e {
        ExperimentId::BmR0 => s.id@ == "heartbeat-rtt-smoke"@ && s.steps@ == on,
        ExperimentId::BmR1 => s.id@ == "enroll-deploy-smoke"@ && s.steps@ == on + seq![
            ScenarioStep::EnqueueDeploy,
            ScenarioStep::ClaimAndExecute,
            ScenarioStep::AssertContainerRunning,
        ],
        ExperimentId::BmR2 => s.id@ == "enroll-teardown-smoke"@ && s.steps@ == on + seq![
            ScenarioStep::EnqueueDeploy,
            ScenarioStep::ClaimAndExecute,
            ScenarioStep::AssertContainerRunning,
            ScenarioStep::EnqueueTeardown,
            ScenarioStep::ClaimAndExecute,
            ScenarioStep::AssertContainerGone,
        ],
        ExperimentId::BmRf0 | ExperimentId::BmRf1 => s.id@ == "firehose-deploy-stub"@ && s.steps@
            == on + seq![ScenarioStep::FirehoseDeploy { n: 10, concurrency: 2 }],
        ExperimentId::BmD0 => s.id@ == "schedule-claim-smoke"@ && s.steps@ == on + seq![
            ScenarioStep::EnqueueDeploy,
            ScenarioStep::ClaimAndAck,
        ],
        ExperimentId::BmD1 => s.id@ == "enroll-deploy-warm-docker"@ && s.steps@ == on + seq![
            ScenarioStep::PrePullImage,
            ScenarioStep::EnqueueDeploy,
            ScenarioStep::ClaimAndExecute,
            ScenarioStep::AssertContainerRunning,
        ],
        ExperimentId::BmD2 => s.id@ == "enroll-teardown-gone-docker"@ && s.steps@ == on + seq![
            ScenarioStep::PrePullImage,
            ScenarioStep::EnqueueDeploy,
            ScenarioStep::ClaimAndExecute,
            ScenarioStep::AssertContainerRunning,
            ScenarioStep::EnqueueTeardown,
            ScenarioStep::ClaimAndExecute,
            ScenarioStep::AssertContainerGone,
        ],
        ExperimentId::BmD3 => s.id@ == "enroll-deploy-cold-docker"@ && s.steps@ == on + seq![
            ScenarioStep::EnqueueDeploy,
            ScenarioStep::ClaimAndExecute,
            ScenarioStep::AssertContainerRunning,
        ],
        ExperimentId::BmDf0 => s.id@ == "firehose-deploy-df0"@ && s.steps@ == on + seq![
            ScenarioStep::PrePullImage,
            ScenarioStep::FirehoseDeploy { n: 50, concurrency: 4 },
        ],
        ExperimentId::BmDf1 | ExperimentId::BmDm1 => {
            let n: u32 = match firehose_n {
                Some(n) => n,
                None => 50,
            };
            let c: u32 = match firehose_c {
                Some(c) => c,
                None => 4,
            };
            s.id@ == crate::scenario::firehose_id_text(n, c) && s.steps@ == on + seq![
                ScenarioStep::PrePullImage,
                ScenarioStep::FirehoseDeploy { n, concurrency: c },
            ]
        },
    }
}

/// The scenario an experiment runs (see [`scenario_of`]).
pub fn scenario_for(experiment: ExperimentId, firehose_n: Option<u32>, firehose_c: Option<u32>) -> (r:
    ScenarioSpec)
    ensures
        scenario_of(experiment, firehose_n, firehose_c, r),
{
    match experiment {
        ExperimentId::BmR0 => ScenarioSpec::heartbeat_rtt_smoke(),
        ExperimentId::BmR1 => ScenarioSpec::enroll_deploy_smoke(),
        ExperimentId::BmR2 => ScenarioSpec::enroll_teardown_smoke(),
        ExperimentId::BmRf0 | ExperimentId::BmRf1 => ScenarioSpec::firehose_deploy_stub(),
        ExperimentId::BmD0 => ScenarioSpec::schedule_claim_smoke(),
        ExperimentId::BmD1 => ScenarioSpec::enroll_deploy_warm_docker(),
        ExperimentId::BmD2 => ScenarioSpec::enroll_teardown_gone_docker(),
        ExperimentId::BmD3 => ScenarioSpec::enroll_deploy_cold_docker(),
        ExperimentId::BmDf0 => ScenarioSpec::firehose_deploy_df0(),
        ExperimentId::BmDf1 | ExperimentId::BmDm1 => {
            let n = match firehose_n {
                Some(n) => n,
                None => 50,
            };
            let c = match firehose_c {
                Some(c) => c,
                None => 4,
            };
            ScenarioSpec::firehose_deploy_n(n, c)
        },
    }
}

/// Index of the step whose op is `op`: the first, or the last when `last` is set.
pub open spec fn matching_step(ops: Seq<Seq<char>>, op: Seq<char>, last: bool, r: Option<usize>) -> bool {
    match r {
        Some(i) => i < ops.len() && ops[i as int] == op && if last {
            forall|j: int| i < j < ops.len() ==> ops[j] != op
        } else {
            forall|j: int| 0 <= j < i ==> ops[j] != op
        },
        None => forall|j: int| 0 <= j < ops.len() ==> ops[j] != op,
    }
}

/// The step whose samples feed the primary metric, among steps with the given ops.
pub fn find_primary_step(ops: &Vec<String>, op: &str, last: bool) -> (r: Option<usize>)
    ensures
        matching_step(strings_view(ops@), op@, last, r),
{
    assert forall|j: int| 0 <= j < ops@.len() implies #[trigger] strings_view(ops@)[j]
        == ops@[j]@ by {}
    if last {
        let mut i: usize = ops.len();
        while i > 0
            invariant
                last,
                i <= ops@.len(),
                forall|j: int| i <= j < ops@.len() ==> ops@[j]@ != op@,
                forall|j: int| 0 <= j < ops@.len() ==> #[trigger] strings_view(ops@)[j] == ops@[j]@,
            decreases i,
        {
            if str_equal(ops[i - 1].as_str(), op) {
                return Some(i - 1);
            }
            i = i - 1;
        }
        None
    } else {
        let mut i: usize = 0;
        while i < ops.len()
            invariant
                !last,
                i <= ops@.len(),
                forall|j: int| 0 <= j < i ==> ops@[j]@ != op@,
                forall|j: int| 0 <= j < ops@.len() ==> #[trigger] strings_view(ops@)[j] == ops@[j]@,
            decreases ops@.len() - i,
        {
            if str_equal(ops[i].as_str(), op) {
                return Some(i);
            }
            i = i + 1;
        }
        None
    }
}

/// Report slug of an experiment on a matrix row.
pub fn orchestrator_slug(experiment: ExperimentId, matrix: &MatrixSpec) -> (r: String)
    ensures
        r@ == experiment_text(experiment) + "-pion-"@ + slug_text(*matrix),
{
    let mut s = String::new();
    push_str(&mut s, experiment.as_str());
    push_str(&mut s, "-pion-");
    let slug = matrix.report_slug();
    push_str(&mut s, slug.as_str());
    assert(s@ =~= experiment_text(experiment) + "-pion-"@ + slug_text(*matrix));
    s
}

} // verus!
