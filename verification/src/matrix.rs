//! The dimension matrix of end-to-end and benchmark runs: where the control plane runs, how
//! actions execute, which storage backs it, which telemetry adapter is on, and which hardware
//! label a report carries. Each axis value has a stable report string.
use vstd::prelude::*;

use crate::text::push_str;

verus! {

/// Where the control plane and agents run.
#[derive(Debug, Clone, Copy, PartialEq, Eq, Structural)]
pub enum Topology {
    /// In-process control plane with a stub executor (no network, no live containers).
    IsolatedHarness,
    /// Single host with a real Docker daemon.
    LocalDocker,
    /// AWS, control plane and agents in one region.
    AwsSameRegion,
    /// AWS, control plane in one region and agents in another.
    AwsWan,
}

/// How container actions execute on the agent.
#[derive(Debug, Clone, Copy, PartialEq, Eq, Structural)]
pub enum Executor {
    /// In-process stub that records synthetic container state.
    Stub,
    /// The host Docker CLI.
    DockerCli,
}

/// Storage backend of the control plane.
#[derive(Debug, Clone, Copy, PartialEq, Eq, Structural)]
pub enum Backend {
    /// Embedded SQLite.
    Sqlite,
    /// Postgres with an in-process graph cache.
    Hybrid,
}

/// Telemetry adapter of a run.
#[derive(Debug, Clone, Copy, PartialEq, Eq, Structural)]
pub enum TelemetryAdapter {
    /// No telemetry sink.
    Off,
    /// Console telemetry log.
    Console,
}

/// Hardware label of a report (not a provisioner).
#[derive(Debug, Clone, Copy, PartialEq, Eq, Structural)]
pub enum Hardware {
    /// Local WSL or laptop: never authoritative.
    DevWsl,
    /// AWS `t3.large` class.
    AwsT3Large,
    /// AWS `c6i.large`, the decision-grade row.
    AwsC6iLarge,
}

/// Report string of a topology.
pub open spec fn topology_text(t: Topology) -> Seq<char> {
    match t {
        Topology::IsolatedHarness => "isolated-harness"@,
        Topology::LocalDocker => "local-docker"@,
        Topology::AwsSameRegion => "aws-same-region"@,
        Topology::AwsWan => "aws-wan"@,
    }
}

/// The topology a report string names (`isolated-lab` is an alias of `isolated-harness`).
pub open spec fn topology_from_text(s: Seq<char>) -> Option<Topology> {
    if s == "isolated-harness"@ || s == "isolated-lab"@ {
        Some(Topology::IsolatedHarness)
    } else if s == "local-docker"@ {
        Some(Topology::LocalDocker)
    } else if s == "aws-same-region"@ {
        Some(Topology::AwsSameRegion)
    } else if s == "aws-wan"@ {
        Some(Topology::AwsWan)
    } else {
        None
    }
}

/// Report string of an executor.
pub open spec fn executor_text(e: Executor) -> Seq<char> {
    match e {
        Executor::Stub => "stub"@,
        Executor::DockerCli => "docker-cli"@,
    }
}

/// Report string of a backend.
pub open spec fn backend_text(b: Backend) -> Seq<char> {
    match b {
        Backend::Sqlite => "sqlite"@,
        Backend::Hybrid => "hybrid"@,
    }
}

/// Report string of a telemetry adapter.
pub open spec fn telemetry_text(t: TelemetryAdapter) -> Seq<char> {
    match t {
        TelemetryAdapter::Off => "off"@,
        TelemetryAdapter::Console => "console"@,
    }
}

/// Report string of a hardware label.
pub open spec fn hardware_text(h: Hardware) -> Seq<char> {
    match h {
        Hardware::DevWsl => "dev-wsl"@,
        Hardware::AwsT3Large => "aws-t3-large"@,
        Hardware::AwsC6iLarge => "aws-c6i-large"@,
    }
}

impl Topology {
    /// Stable CLI and report string.
    pub fn as_str(self) -> (r: &'static str)
        ensures
            r@ == topology_text(self),
    {
        match self {
            Topology::IsolatedHarness => "isolated-harness",
            Topology::LocalDocker => "local-docker",
            Topology::AwsSameRegion => "aws-same-region",
            Topology::AwsWan => "aws-wan",
        }
    }

    /// The topology named by `s`, if any (see [`topology_from_text`]).
    pub fn parse(s: &str) -> (r: Option<Topology>)
        ensures
            r == topology_from_text(s@),
    {
        if crate::text::str_equal(s, "isolated-harness") || crate::text::str_equal(
            s,
            "isolated-lab",
        ) {
            Some(Topology::IsolatedHarness)
        } else if crate::text::str_equal(s, "local-docker") {
            Some(Topology::LocalDocker)
        } else if crate::text::str_equal(s, "aws-same-region") {
            Some(Topology::AwsSameRegion)
        } else if crate::text::str_equal(s, "aws-wan") {
            Some(Topology::AwsWan)
        } else {
            None
        }
    }
}

impl Default for Topology {
    fn default() -> (r: Self)
        ensures
            r == Topology::IsolatedHarness,
    {
        Topology::IsolatedHarness
    }
}

impl Executor {
    /// Stable CLI and report string.
    pub fn as_str(self) -> (r: &'static str)
        ensures
            r@ == executor_text(self),
    {
        match self {
            Executor::Stub => "stub",
            Executor::DockerCli => "docker-cli",
        }
    }
}

impl Default for Executor {
    fn default() -> (r: Self)
        ensures
            r == Executor::Stub,
    {
        Executor::Stub
    }
}

impl Backend {
    /// Stable CLI and report string.
    pub fn as_str(self) -> (r: &'static str)
        ensures
            r@ == backend_text(self),
    {
        match self {
            Backend::Sqlite => "sqlite",
            Backend::Hybrid => "hybrid",
        }
    }
}

impl Default for Backend {
    fn default() -> (r: Self)
        ensures
            r == Backend::Sqlite,
    {
        Backend::Sqlite
    }
}

impl TelemetryAdapter {
    /// Stable CLI and report string.
    pub fn as_str(self) -> (r: &'static str)
        ensures
            r@ == telemetry_text(self),
    {
        match self {
            TelemetryAdapter::Off => "off",
            TelemetryAdapter::Console => "console",
        }
    }
}

impl Default for TelemetryAdapter {
    fn default() -> (r: Self)
        ensures
            r == TelemetryAdapter::Off,
    {
        TelemetryAdapter::Off
    }
}

impl Hardware {
    /// Stable CLI and report string.
    pub fn as_str(self) -> (r: &'static str)
        ensures
            r@ == hardware_text(self),
    {
        match self {
            Hardware::DevWsl => "dev-wsl",
            Hardware::AwsT3Large => "aws-t3-large",
            Hardware::AwsC6iLarge => "aws-c6i-large",
        }
    }

    /// Whether a report on this hardware may be authoritative: AWS labels only.
    pub fn is_authoritative(self) -> (r: bool)
        ensures
            r == (self is AwsT3Large || self is AwsC6iLarge),
    {
        match self {
            Hardware::AwsT3Large | Hardware::AwsC6iLarge => true,
            Hardware::DevWsl => false,
        }
    }
}

impl Default for Hardware {
    fn default() -> (r: Self)
        ensures
            r == Hardware::DevWsl,
    {
        Hardware::DevWsl
    }
}

/// One row of the cross product that a driver runs.
#[derive(Debug, Clone, Copy, PartialEq, Eq, Structural)]
pub struct MatrixSpec {
    /// Runtime topology.
    pub topology: Topology,
    /// Container executor.
    pub executor: Executor,
    /// Storage backend.
    pub backend: Backend,
    /// Telemetry adapter.
    pub telemetry: TelemetryAdapter,
    /// Hardware label.
    pub hardware: Hardware,
}

/// The report slug of a row: its five axis strings joined by `-`.
pub open spec fn slug_text(m: MatrixSpec) -> Seq<char> {
    topology_text(m.topology) + "-"@ + executor_text(m.executor) + "-"@ + backend_text(m.backend)
        + "-"@ + telemetry_text(m.telemetry) + "-"@ + hardware_text(m.hardware)
}

impl Default for MatrixSpec {
    fn default() -> (r: Self)
        ensures
            r == MatrixSpec::stub_row(Topology::IsolatedHarness, Hardware::DevWsl),
    {
        MatrixSpec::isolated_harness_stub()
    }
}

impl MatrixSpec {
    /// A stub-executor SQLite row without telemetry.
    pub open spec fn stub_row(topology: Topology, hardware: Hardware) -> MatrixSpec {
        MatrixSpec {
            topology,
            executor: Executor::Stub,
            backend: Backend::Sqlite,
            telemetry: TelemetryAdapter::Off,
            hardware,
        }
    }

    /// A Docker CLI row without telemetry.
    pub open spec fn docker_row(topology: Topology, backend: Backend, hardware: Hardware) -> MatrixSpec {
        MatrixSpec {
            topology,
            executor: Executor::DockerCli,
            backend,
            telemetry: TelemetryAdapter::Off,
            hardware,
        }
    }

    /// Default CI and local smoke row: in-process, stub executor, SQLite, dev hardware.
    pub fn isolated_harness_stub() -> (r: Self)
        ensures
            r == MatrixSpec::stub_row(Topology::IsolatedHarness, Hardware::DevWsl),
    {
        MatrixSpec {
            topology: Topology::IsolatedHarness,
            executor: Executor::Stub,
            backend: Backend::Sqlite,
            telemetry: TelemetryAdapter::Off,
            hardware: Hardware::DevWsl,
        }
    }

    /// Local Docker row on dev hardware.
    pub fn local_docker() -> (r: Self)
        ensures
            r == MatrixSpec::docker_row(Topology::LocalDocker, Backend::Sqlite, Hardware::DevWsl),
    {
        MatrixSpec {
            topology: Topology::LocalDocker,
            executor: Executor::DockerCli,
            backend: Backend::Sqlite,
            telemetry: TelemetryAdapter::Off,
            hardware: Hardware::DevWsl,
        }
    }

    /// The isolated stub row on labeled hardware.
    pub fn isolated_harness_stub_on(hardware: Hardware) -> (r: Self)
        ensures
            r == MatrixSpec::stub_row(Topology::IsolatedHarness, hardware),
    {
        MatrixSpec {
            topology: Topology::IsolatedHarness,
            executor: Executor::Stub,
            backend: Backend::Sqlite,
            telemetry: TelemetryAdapter::Off,
            hardware,
        }
    }

    /// AWS same-region hybrid row (Docker CLI).
    pub fn aws_same_region_hybrid(hardware: Hardware) -> (r: Self)
        ensures
            r == MatrixSpec::docker_row(Topology::AwsSameRegion, Backend::Hybrid, hardware),
    {
        MatrixSpec {
            topology: Topology::AwsSameRegion,
            executor: Executor::DockerCli,
            backend: Backend::Hybrid,
            telemetry: TelemetryAdapter::Off,
            hardware,
        }
    }

    /// AWS same-region SQLite row (Docker CLI).
    pub fn aws_same_region_sqlite(hardware: Hardware) -> (r: Self)
        ensures
            r == MatrixSpec::docker_row(Topology::AwsSameRegion, Backend::Sqlite, hardware),
    {
        MatrixSpec {
            topology: Topology::AwsSameRegion,
            executor: Executor::DockerCli,
            backend: Backend::Sqlite,
            telemetry: TelemetryAdapter::Off,
            hardware,
        }
    }

    /// AWS cross-region hybrid row (Docker CLI on the remote agent host).
    pub fn aws_wan_hybrid(hardware: Hardware) -> (r: Self)
        ensures
            r == MatrixSpec::docker_row(Topology::AwsWan, Backend::Hybrid, hardware),
    {
        MatrixSpec {
            topology: Topology::AwsWan,
            executor: Executor::DockerCli,
            backend: Backend::Hybrid,
            telemetry: TelemetryAdapter::Off,
            hardware,
        }
    }

    /// This row with another backend.
    pub fn with_backend(self, backend: Backend) -> (r: Self)
        ensures
            r == (MatrixSpec { backend, ..self }),
    {
        let mut m = self;
        m.backend = backend;
        m
    }

    /// This row with another hardware label.
    pub fn with_hardware(self, hardware: Hardware) -> (r: Self)
        ensures
            r == (MatrixSpec { hardware, ..self }),
    {
        let mut m = self;
        m.hardware = hardware;
        m
    }

    /// Stable id of the row for report file names (see [`slug_text`]).
    pub fn report_slug(&self) -> (r: String)
        ensures
            r@ == slug_text(*self),
    {
        let mut s = String::new();
        push_str(&mut s, self.topology.as_str());
        push_str(&mut s, "-");
        push_str(&mut s, self.executor.as_str());
        push_str(&mut s, "-");
        push_str(&mut s, self.backend.as_str());
        push_str(&mut s, "-");
        push_str(&mut s, self.telemetry.as_str());
        push_str(&mut s, "-");
        push_str(&mut s, self.hardware.as_str());
        assert(s@ =~= slug_text(*self));
        s
    }
}

/// Reading back the report string of a topology gives that topology.
pub proof fn lemma_topology_text_roundtrip(t: Topology)
    ensures
        topology_from_text(topology_text(t)) == Some(t),
{
    reveal_strlit("isolated-harness");
    reveal_strlit("isolated-lab");
    reveal_strlit("local-docker");
    reveal_strlit("aws-same-region");
    reveal_strlit("aws-wan");
    let ih = "isolated-harness"@;
    let il = "isolated-lab"@;
    let ld = "local-docker"@;
    let sr = "aws-same-region"@;
    let wan = "aws-wan"@;
    assert(ih.len() == 16 && il.len() == 12 && ld.len() == 12 && sr.len() == 15 && wan.len() == 7);
    assert(ld[0] != il[0]);
}

} // verus!
