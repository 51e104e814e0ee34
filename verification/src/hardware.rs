//! Node hardware facts reported by heartbeat, and the requirement floor placement filters with.
//!
//! [`NodeHardwareCapabilities`] is read from a node's `capabilities_json` column.
//! [`NodeHardwareRequirements`] is the constraint side: it appears inside a pool's stored
//! selector and as the per-workload floor a caller passes at resolution time.
use vstd::prelude::*;

use crate::json::{json_as_i64, json_as_str, json_as_u64, json_get, JsonValue};
use crate::text::{
    decimal_seq, lower_char, lower_seq, push_decimal, push_str, str_equal, trim_end_seq,
    trim_lower, trim_seq, trim_start_seq, trim_to_string, is_whitespace_char,
};

verus! {

/// Mathematical model of a [`CpuArchitecture`].
pub enum ArchModel {
    X86_64,
    Aarch64,
    Arm,
    Other(Seq<char>),
}

/// CPU architecture of a node, normalized across the spellings operators and agents use.
#[derive(Debug, Clone)]
pub enum CpuArchitecture {
    /// 64-bit x86 (`x86_64`, `amd64`, `x64`, `x86-64`).
    X86_64,
    /// 64-bit ARM (`aarch64`, `arm64`).
    Aarch64,
    /// 32-bit ARM (`arm`, `armv7`, `armv7l`, `armhf`).
    Arm,
    /// Any other reported architecture, lowercased and trimmed.
    Other(String),
}

impl View for CpuArchitecture {
    type V = ArchModel;

    open spec fn view(&self) -> ArchModel {
        match self {
            CpuArchitecture::X86_64 => ArchModel::X86_64,
            CpuArchitecture::Aarch64 => ArchModel::Aarch64,
            CpuArchitecture::Arm => ArchModel::Arm,
            CpuArchitecture::Other(raw) => ArchModel::Other(raw@),
        }
    }
}

/// The variant an already trimmed and lowercased spelling names.
pub open spec fn arch_of_normalized(n: Seq<char>) -> ArchModel {
    if n == "x86_64"@ || n == "amd64"@ || n == "x64"@ || n == "x86-64"@ {
        ArchModel::X86_64
    } else if n == "aarch64"@ || n == "arm64"@ {
        ArchModel::Aarch64
    } else if n == "arm"@ || n == "armv7"@ || n == "armv7l"@ || n == "armhf"@ {
        ArchModel::Arm
    } else {
        ArchModel::Other(n)
    }
}

/// `CpuArchitecture::parse`: trim, lowercase, then fold the known aliases.
pub open spec fn parse_arch(raw: Seq<char>) -> ArchModel {
    arch_of_normalized(lower_seq(trim_seq(raw)))
}

/// Canonical wire value of an architecture.
pub open spec fn arch_wire(a: ArchModel) -> Seq<char> {
    match a {
        ArchModel::X86_64 => "x86_64"@,
        ArchModel::Aarch64 => "aarch64"@,
        ArchModel::Arm => "arm"@,
        ArchModel::Other(raw) => raw,
    }
}

impl CpuArchitecture {
    /// Normalizes a reported or operator-written architecture string.
    ///
    /// Unrecognized values become [`CpuArchitecture::Other`] rather than an error.
    pub fn parse(raw: &str) -> (r: Self)
        ensures
            r@ == parse_arch(raw@),
    {
        let normalized = trim_lower(raw);
        let n = normalized.as_str();
        if str_equal(n, "x86_64") || str_equal(n, "amd64") || str_equal(n, "x64") || str_equal(
            n,
            "x86-64",
        ) {
            CpuArchitecture::X86_64
        } else if str_equal(n, "aarch64") || str_equal(n, "arm64") {
            CpuArchitecture::Aarch64
        } else if str_equal(n, "arm") || str_equal(n, "armv7") || str_equal(n, "armv7l")
            || str_equal(n, "armhf") {
            CpuArchitecture::Arm
        } else {
            CpuArchitecture::Other(normalized)
        }
    }

    /// Canonical wire value, matching what an agent reports for the known variants.
    pub fn as_str(&self) -> (r: &str)
        ensures
            r@ == arch_wire(self@),
    {
        match self {
            CpuArchitecture::X86_64 => "x86_64",
            CpuArchitecture::Aarch64 => "aarch64",
            CpuArchitecture::Arm => "arm",
            CpuArchitecture::Other(raw) => raw.as_str(),
        }
    }

    /// The wire value as an owned string (the `String` conversion serde uses).
    pub fn to_wire_string(&self) -> (r: String)
        ensures
            r@ == arch_wire(self@),
    {
        let mut s = String::new();
        push_str(&mut s, self.as_str());
        assert(s@ =~= arch_wire(self@));
        s
    }

    /// Whether two values name the same architecture.
    pub fn same_as(&self, other: &Self) -> (r: bool)
        ensures
            r == (self@ == other@),
    {
        match (self, other) {
            (CpuArchitecture::X86_64, CpuArchitecture::X86_64) => true,
            (CpuArchitecture::Aarch64, CpuArchitecture::Aarch64) => true,
            (CpuArchitecture::Arm, CpuArchitecture::Arm) => true,
            (CpuArchitecture::Other(a), CpuArchitecture::Other(b)) => str_equal(
                a.as_str(),
                b.as_str(),
            ),
            _ => false,
        }
    }

    /// A copy with the same view.
    pub fn duplicate(&self) -> (r: Self)
        ensures
            r@ == self@,
    {
        match self {
            CpuArchitecture::X86_64 => CpuArchitecture::X86_64,
            CpuArchitecture::Aarch64 => CpuArchitecture::Aarch64,
            CpuArchitecture::Arm => CpuArchitecture::Arm,
            CpuArchitecture::Other(raw) => CpuArchitecture::Other(raw.clone()),
        }
    }
}

impl PartialEq for CpuArchitecture {
    fn eq(&self, other: &Self) -> (r: bool) {
        self.same_as(other)
    }
}

impl vstd::std_specs::cmp::PartialEqSpecImpl for CpuArchitecture {
    open spec fn obeys_eq_spec() -> bool {
        true
    }

    open spec fn eq_spec(&self, other: &Self) -> bool {
        self@ == other@
    }
}

impl Eq for CpuArchitecture {

}

/// View of an optional architecture.
pub open spec fn opt_arch_view(a: Option<CpuArchitecture>) -> Option<ArchModel> {
    match a {
        Some(x) => Some(x@),
        None => None,
    }
}

/// View of a list of architectures.
pub open spec fn archs_view(v: Seq<CpuArchitecture>) -> Seq<ArchModel> {
    v.map_values(|a: CpuArchitecture| a@)
}

fn duplicate_opt_arch(a: &Option<CpuArchitecture>) -> (r: Option<CpuArchitecture>)
    ensures
        opt_arch_view(r) == opt_arch_view(*a),
{
    match a {
        Some(x) => Some(x.duplicate()),
        None => None,
    }
}

fn duplicate_archs(v: &Vec<CpuArchitecture>) -> (r: Vec<CpuArchitecture>)
    ensures
        archs_view(r@) == archs_view(v@),
{
    let mut out: Vec<CpuArchitecture> = Vec::new();
    let mut i: usize = 0;
    while i < v.len()
        invariant
            i <= v@.len(),
            archs_view(out@) =~= archs_view(v@.subrange(0, i as int)),
        decreases v@.len() - i,
    {
        let a = v[i].duplicate();
        let ghost before = out@;
        out.push(a);
        proof {
            assert(out@ =~= before.push(a));
            assert(archs_view(out@) =~= archs_view(before).push(a@));
            assert(v@.subrange(0, i + 1) =~= v@.subrange(0, i as int).push(v@[i as int]));
            assert(archs_view(v@.subrange(0, i + 1)) =~= archs_view(v@.subrange(0, i as int)).push(
                v@[i as int]@,
            ));
        }
        i = i + 1;
    }
    assert(v@.subrange(0, v@.len() as int) =~= v@);
    out
}

/// Mathematical model of [`NodeHardwareCapabilities`].
pub struct CapabilitiesModel {
    pub arch: Option<ArchModel>,
    pub cpu_logical: Option<u32>,
    pub memory_bytes: Option<u64>,
}

/// Hardware facts for one node, as last reported by its agent heartbeat.
///
/// `0` is treated as "not reported", so a node that fails to detect its RAM never appears to
/// satisfy a memory floor.
#[derive(Debug, Clone)]
pub struct NodeHardwareCapabilities {
    /// Reported CPU architecture.
    pub arch: Option<CpuArchitecture>,
    /// Logical CPU count visible to the agent.
    pub cpu_logical: Option<u32>,
    /// Total physical memory in bytes.
    pub memory_bytes: Option<u64>,
}

impl View for NodeHardwareCapabilities {
    type V = CapabilitiesModel;

    open spec fn view(&self) -> CapabilitiesModel {
        CapabilitiesModel {
            arch: opt_arch_view(self.arch),
            cpu_logical: self.cpu_logical,
            memory_bytes: self.memory_bytes,
        }
    }
}

/// Nothing about the node's hardware was reported.
pub open spec fn caps_unreported(c: CapabilitiesModel) -> bool {
    c.arch is None && c.cpu_logical is None && c.memory_bytes is None
}

/// `json_positive_u64`: a positive integer field, read as `u64` or as a non-negative `i64`.
pub open spec fn json_positive_u64(v: Option<JsonValue>) -> Option<u64> {
    let n = match v {
        Some(x) => match json_as_u64(x) {
            Some(n) => Some(n),
            None => match json_as_i64(x) {
                Some(i) => if i >= 0 {
                    Some(i as u64)
                } else {
                    None
                },
                None => None,
            },
        },
        None => None,
    };
    match n {
        Some(k) => if k > 0 {
            Some(k)
        } else {
            None
        },
        None => None,
    }
}

/// The `arch` field of a capabilities document: a non-blank string, parsed.
pub open spec fn json_reported_arch(v: JsonValue) -> Option<ArchModel> {
    match json_get(v, "arch"@) {
        Some(x) => match json_as_str(x) {
            Some(s) => if trim_seq(s).len() > 0 {
                Some(parse_arch(trim_seq(s)))
            } else {
                None
            },
            None => None,
        },
        None => None,
    }
}

/// Hardware facts read from a `capabilities_json` document.
pub open spec fn caps_from_json(v: JsonValue) -> CapabilitiesModel {
    CapabilitiesModel {
        arch: json_reported_arch(v),
        cpu_logical: match json_positive_u64(json_get(v, "cpu_logical"@)) {
            Some(n) => if n <= u32::MAX {
                Some(n as u32)
            } else {
                None
            },
            None => None,
        },
        memory_bytes: json_positive_u64(json_get(v, "memory_bytes"@)),
    }
}

fn positive_u64(v: Option<&JsonValue>) -> (r: Option<u64>)
    ensures
        r == json_positive_u64(
            match v {
                Some(x) => Some(*x),
                None => None,
            },
        ),
{
    let n = match v {
        Some(x) => match x.as_u64() {
            Some(n) => Some(n),
            None => match x.as_i64() {
                Some(i) => if i >= 0 {
                    Some(i as u64)
                } else {
                    None
                },
                None => None,
            },
        },
        None => None,
    };
    match n {
        Some(k) => if k > 0 {
            Some(k)
        } else {
            None
        },
        None => None,
    }
}

impl NodeHardwareCapabilities {
    /// Reads hardware facts out of a node's `capabilities_json` document.
    ///
    /// Best effort by design: a malformed or partial payload yields absent fields instead of an
    /// error.
    pub fn from_capabilities_json(value: &JsonValue) -> (r: Self)
        ensures
            r@ == caps_from_json(*value),
    {
        let arch = match value.get("arch") {
            Some(x) => match x.as_str() {
                Some(s) => {
                    let t = trim_to_string(s);
                    if t.as_str().unicode_len() > 0 {
                        Some(CpuArchitecture::parse(t.as_str()))
                    } else {
                        None
                    }
                },
                None => None,
            },
            None => None,
        };
        let cpu_logical = match positive_u64(value.get("cpu_logical")) {
            Some(n) => if n <= 4294967295u64 {
                Some(n as u32)
            } else {
                None
            },
            None => None,
        };
        let memory_bytes = positive_u64(value.get("memory_bytes"));
        NodeHardwareCapabilities { arch, cpu_logical, memory_bytes }
    }

    /// True when nothing about this node's hardware was reported.
    pub fn is_unreported(&self) -> (r: bool)
        ensures
            r == caps_unreported(self@),
    {
        self.arch.is_none() && self.cpu_logical.is_none() && self.memory_bytes.is_none()
    }
}

impl Default for NodeHardwareCapabilities {
    fn default() -> (r: Self)
        ensures
            caps_unreported(r@),
    {
        NodeHardwareCapabilities { arch: None, cpu_logical: None, memory_bytes: None }
    }
}

/// Mathematical model of [`NodeHardwareRequirements`].
pub struct RequirementsModel {
    pub architectures: Seq<ArchModel>,
    pub min_cpu_logical: Option<u32>,
    pub min_memory_bytes: Option<u64>,
}

/// Hardware floor a node must clear to be considered for placement.
///
/// An all-default value is *unconstrained*: it accepts every node.
#[derive(Debug, Clone)]
pub struct NodeHardwareRequirements {
    /// Accepted architectures. Empty accepts any architecture.
    pub architectures: Vec<CpuArchitecture>,
    /// Minimum logical CPU count.
    pub min_cpu_logical: Option<u32>,
    /// Minimum total memory in bytes.
    pub min_memory_bytes: Option<u64>,
}

impl View for NodeHardwareRequirements {
    type V = RequirementsModel;

    open spec fn view(&self) -> RequirementsModel {
        RequirementsModel {
            architectures: archs_view(self.architectures@),
            min_cpu_logical: self.min_cpu_logical,
            min_memory_bytes: self.min_memory_bytes,
        }
    }
}

/// The floor accepts every node.
pub open spec fn reqs_unconstrained(r: RequirementsModel) -> bool {
    r.architectures.len() == 0 && r.min_cpu_logical is None && r.min_memory_bytes is None
}

/// The architecture constraint holds: no architectures listed, or the reported one is listed.
pub open spec fn arch_ok(r: RequirementsModel, c: CapabilitiesModel) -> bool {
    r.architectures.len() == 0 || (c.arch is Some && r.architectures.contains(c.arch->0))
}

/// The CPU floor holds (inclusive); an unreported count fails a set floor.
pub open spec fn cpu_ok(r: RequirementsModel, c: CapabilitiesModel) -> bool {
    match r.min_cpu_logical {
        Some(required) => c.cpu_logical is Some && c.cpu_logical->0 >= required,
        None => true,
    }
}

/// The memory floor holds (inclusive); an unreported size fails a set floor.
pub open spec fn memory_ok(r: RequirementsModel, c: CapabilitiesModel) -> bool {
    match r.min_memory_bytes {
        Some(required) => c.memory_bytes is Some && c.memory_bytes->0 >= required,
        None => true,
    }
}

/// `c` clears every requirement of `r`.
pub open spec fn satisfies(r: RequirementsModel, c: CapabilitiesModel) -> bool {
    arch_ok(r, c) && cpu_ok(r, c) && memory_ok(r, c)
}

/// Mathematical model of [`UnmetRequirement`].
#[allow(inconsistent_fields)]
pub enum UnmetModel {
    Architecture { accepted: Seq<ArchModel>, reported: Option<ArchModel> },
    CpuLogical { required: u32, reported: Option<u32> },
    MemoryBytes { required: u64, reported: Option<u64> },
}

/// The first requirement `c` fails, checked in the order architecture, CPU, memory.
pub open spec fn first_unmet(r: RequirementsModel, c: CapabilitiesModel) -> Option<UnmetModel> {
    if !arch_ok(r, c) {
        Some(UnmetModel::Architecture { accepted: r.architectures, reported: c.arch })
    } else if !cpu_ok(r, c) {
        Some(UnmetModel::CpuLogical { required: r.min_cpu_logical->0, reported: c.cpu_logical })
    } else if !memory_ok(r, c) {
        Some(
            UnmetModel::MemoryBytes { required: r.min_memory_bytes->0, reported: c.memory_bytes },
        )
    } else {
        None
    }
}

/// One requirement a node failed, kept typed so callers can report or branch on the reason.
#[derive(Debug, Clone)]
#[allow(inconsistent_fields)]
pub enum UnmetRequirement {
    /// Node architecture is absent from the accepted set.
    Architecture {
        /// Architectures the requirement accepts.
        accepted: Vec<CpuArchitecture>,
        /// What the node reported, if anything.
        reported: Option<CpuArchitecture>,
    },
    /// Node has too few logical CPUs, or reported none.
    CpuLogical {
        /// Minimum logical CPU count.
        required: u32,
        /// What the node reported, if anything.
        reported: Option<u32>,
    },
    /// Node has too little memory, or reported none.
    MemoryBytes {
        /// Minimum memory in bytes.
        required: u64,
        /// What the node reported, if anything.
        reported: Option<u64>,
    },
}

impl View for UnmetRequirement {
    type V = UnmetModel;

    open spec fn view(&self) -> UnmetModel {
        match self {
            UnmetRequirement::Architecture { accepted, reported } => UnmetModel::Architecture {
                accepted: archs_view(accepted@),
                reported: opt_arch_view(*reported),
            },
            UnmetRequirement::CpuLogical { required, reported } => UnmetModel::CpuLogical {
                required: *required,
                reported: *reported,
            },
            UnmetRequirement::MemoryBytes { required, reported } => UnmetModel::MemoryBytes {
                required: *required,
                reported: *reported,
            },
        }
    }
}

/// View of an optional unmet requirement.
pub open spec fn opt_unmet_view(u: Option<UnmetRequirement>) -> Option<UnmetModel> {
    match u {
        Some(x) => Some(x@),
        None => None,
    }
}

fn arch_listed(archs: &Vec<CpuArchitecture>, a: &CpuArchitecture) -> (r: bool)
    ensures
        r == archs_view(archs@).contains(a@),
{
    let mut i: usize = 0;
    while i < archs.len()
        invariant
            i <= archs@.len(),
            forall|j: int| 0 <= j < i ==> archs@[j]@ != a@,
        decreases archs@.len() - i,
    {
        if archs[i].same_as(a) {
            assert(archs_view(archs@)[i as int] == a@);
            return true;
        }
        i = i + 1;
    }
    assert forall|j: int| 0 <= j < archs_view(archs@).len() implies archs_view(archs@)[j] != a@ by {
        assert(archs_view(archs@)[j] == archs@[j]@);
    }
    false
}

impl NodeHardwareRequirements {
    /// True when this floor accepts every node.
    pub fn is_unconstrained(&self) -> (r: bool)
        ensures
            r == reqs_unconstrained(self@),
    {
        self.architectures.len() == 0 && self.min_cpu_logical.is_none()
            && self.min_memory_bytes.is_none()
    }

    /// Returns the first requirement `capabilities` fails to meet, or `None` when it clears them
    /// all. A constrained field checked against an unreported capability fails.
    pub fn unmet(&self, capabilities: &NodeHardwareCapabilities) -> (r: Option<UnmetRequirement>)
        ensures
            opt_unmet_view(r) == first_unmet(self@, capabilities@),
    {
        if self.architectures.len() > 0 {
            let listed = match &capabilities.arch {
                Some(a) => arch_listed(&self.architectures, a),
                None => false,
            };
            if !listed {
                return Some(
                    UnmetRequirement::Architecture {
                        accepted: duplicate_archs(&self.architectures),
                        reported: duplicate_opt_arch(&capabilities.arch),
                    },
                );
            }
        }
        if let Some(required) = self.min_cpu_logical {
            let fails = match capabilities.cpu_logical {
                Some(have) => have < required,
                None => true,
            };
            if fails {
                return Some(
                    UnmetRequirement::CpuLogical { required, reported: capabilities.cpu_logical },
                );
            }
        }
        if let Some(required) = self.min_memory_bytes {
            let fails = match capabilities.memory_bytes {
                Some(have) => have < required,
                None => true,
            };
            if fails {
                return Some(
                    UnmetRequirement::MemoryBytes {
                        required,
                        reported: capabilities.memory_bytes,
                    },
                );
            }
        }
        None
    }

    /// True when `capabilities` clears every requirement.
    pub fn is_satisfied_by(&self, capabilities: &NodeHardwareCapabilities) -> (r: bool)
        ensures
            r == satisfies(self@, capabilities@),
    {
        let u = self.unmet(capabilities);
        proof {
            lemma_first_unmet_none_iff_satisfies(self@, capabilities@);
        }
        u.is_none()
    }
}

impl Default for NodeHardwareRequirements {
    fn default() -> (r: Self)
        ensures
            reqs_unconstrained(r@),
    {
        NodeHardwareRequirements {
            architectures: Vec::new(),
            min_cpu_logical: None,
            min_memory_bytes: None,
        }
    }
}

/// The wire values of `archs`, joined by `|`.
pub open spec fn join_wires(archs: Seq<ArchModel>) -> Seq<char>
    decreases archs.len(),
{
    if archs.len() == 0 {
        seq![]
    } else if archs.len() == 1 {
        arch_wire(archs[0])
    } else {
        join_wires(archs.drop_last()) + "|"@ + arch_wire(archs.last())
    }
}

/// A reported value, or `unreported` when there is none.
pub open spec fn reported_text(r: Option<Seq<char>>) -> Seq<char> {
    match r {
        Some(t) => t,
        None => "unreported"@,
    }
}

/// Decimal text of an optional count.
pub open spec fn opt_decimal(r: Option<u64>) -> Option<Seq<char>> {
    match r {
        Some(n) => Some(decimal_seq(n as nat)),
        None => None,
    }
}

/// The operator-facing sentence for one unmet requirement.
pub open spec fn unmet_text(u: UnmetModel) -> Seq<char> {
    match u {
        UnmetModel::Architecture { accepted, reported } => "arch "@ + reported_text(
            match reported {
                Some(a) => Some(arch_wire(a)),
                None => None,
            },
        ) + " != "@ + join_wires(accepted),
        UnmetModel::CpuLogical { required, reported } => "cpu_logical "@ + reported_text(
            opt_decimal(
                match reported {
                    Some(n) => Some(n as u64),
                    None => None,
                },
            ),
        ) + " < "@ + decimal_seq(required as nat),
        UnmetModel::MemoryBytes { required, reported } => "memory_bytes "@ + reported_text(
            opt_decimal(reported),
        ) + " < "@ + decimal_seq(required as nat),
    }
}

fn push_reported_count(s: &mut String, reported: Option<u64>)
    ensures
        final(s)@ == old(s)@ + reported_text(opt_decimal(reported)),
{
    match reported {
        Some(n) => push_decimal(s, n),
        None => push_str(s, "unreported"),
    }
}

fn push_joined_wires(s: &mut String, archs: &Vec<CpuArchitecture>)
    ensures
        final(s)@ == old(s)@ + join_wires(archs_view(archs@)),
{
    let mut i: usize = 0;
    while i < archs.len()
        invariant
            i <= archs@.len(),
            s@ == old(s)@ + join_wires(archs_view(archs@.subrange(0, i as int))),
        decreases archs@.len() - i,
    {
        let ghost before = s@;
        if i > 0 {
            push_str(s, "|");
        }
        push_str(s, archs[i].as_str());
        proof {
            let pre = archs_view(archs@.subrange(0, i as int));
            let post = archs_view(archs@.subrange(0, i + 1));
            assert(post.drop_last() =~= pre);
            assert(post.last() == archs@[i as int]@);
            if i == 0 {
                assert(pre.len() == 0);
                assert(join_wires(pre) =~= Seq::<char>::empty());
                assert(post.len() == 1);
            }
            assert(s@ =~= old(s)@ + join_wires(post));
        }
        i = i + 1;
    }
    assert(archs@.subrange(0, archs@.len() as int) =~= archs@);
}

impl UnmetRequirement {
    /// The operator-facing sentence, for example `cpu_logical 2 < 8`.
    pub fn to_string(&self) -> (r: String)
        ensures
            r@ == unmet_text(self@),
    {
        let mut s = String::new();
        match self {
            UnmetRequirement::Architecture { accepted, reported } => {
                push_str(&mut s, "arch ");
                match reported {
                    Some(a) => push_str(&mut s, a.as_str()),
                    None => push_str(&mut s, "unreported"),
                }
                push_str(&mut s, " != ");
                push_joined_wires(&mut s, accepted);
            },
            UnmetRequirement::CpuLogical { required, reported } => {
                push_str(&mut s, "cpu_logical ");
                let r64: Option<u64> = match reported {
                    Some(n) => Some(*n as u64),
                    None => None,
                };
                push_reported_count(&mut s, r64);
                push_str(&mut s, " < ");
                push_decimal(&mut s, *required as u64);
            },
            UnmetRequirement::MemoryBytes { required, reported } => {
                push_str(&mut s, "memory_bytes ");
                push_reported_count(&mut s, *reported);
                push_str(&mut s, " < ");
                push_decimal(&mut s, *required);
            },
        }
        assert(s@ =~= unmet_text(self@));
        s
    }

    /// Whether two values describe the same failure.
    pub fn same_as(&self, other: &Self) -> (r: bool)
        ensures
            r == (self@ == other@),
    {
        match (self, other) {
            (
                UnmetRequirement::Architecture { accepted: a1, reported: r1 },
                UnmetRequirement::Architecture { accepted: a2, reported: r2 },
            ) => {
                let same_reported = match (r1, r2) {
                    (Some(x), Some(y)) => x.same_as(y),
                    (None, None) => true,
                    _ => false,
                };
                same_reported && same_archs(a1, a2)
            },
            (
                UnmetRequirement::CpuLogical { required: q1, reported: r1 },
                UnmetRequirement::CpuLogical { required: q2, reported: r2 },
            ) => *q1 == *q2 && *r1 == *r2,
            (
                UnmetRequirement::MemoryBytes { required: q1, reported: r1 },
                UnmetRequirement::MemoryBytes { required: q2, reported: r2 },
            ) => *q1 == *q2 && *r1 == *r2,
            _ => false,
        }
    }
}

fn same_archs(a: &Vec<CpuArchitecture>, b: &Vec<CpuArchitecture>) -> (r: bool)
    ensures
        r == (archs_view(a@) == archs_view(b@)),
{
    if a.len() != b.len() {
        assert(archs_view(a@).len() != archs_view(b@).len());
        return false;
    }
    let mut i: usize = 0;
    while i < a.len()
        invariant
            a@.len() == b@.len(),
            i <= a@.len(),
            forall|j: int| 0 <= j < i ==> a@[j]@ == b@[j]@,
        decreases a@.len() - i,
    {
        if !a[i].same_as(&b[i]) {
            assert(archs_view(a@)[i as int] != archs_view(b@)[i as int]);
            return false;
        }
        i = i + 1;
    }
    assert(archs_view(a@) =~= archs_view(b@));
    true
}

impl PartialEq for UnmetRequirement {
    fn eq(&self, other: &Self) -> (r: bool) {
        self.same_as(other)
    }
}

impl vstd::std_specs::cmp::PartialEqSpecImpl for UnmetRequirement {
    open spec fn obeys_eq_spec() -> bool {
        true
    }

    open spec fn eq_spec(&self, other: &Self) -> bool {
        self@ == other@
    }
}

impl Eq for UnmetRequirement {

}

proof fn lemma_lower_char_idempotent(c: char)
    ensures
        lower_char(lower_char(c)) == lower_char(c),
        is_whitespace_char(lower_char(c)) == is_whitespace_char(c),
{
}

proof fn lemma_lower_seq_idempotent(s: Seq<char>)
    ensures
        lower_seq(lower_seq(s)) == lower_seq(s),
{
    assert forall|i: int| 0 <= i < s.len() implies lower_seq(lower_seq(s))[i] == lower_seq(s)[i] by {
        lemma_lower_char_idempotent(s[i]);
    }
    assert(lower_seq(lower_seq(s)) =~= lower_seq(s));
}

/// Neither end of `s` is whitespace.
pub open spec fn has_clean_ends(s: Seq<char>) -> bool {
    s.len() == 0 || (!is_whitespace_char(s[0]) && !is_whitespace_char(s.last()))
}

proof fn lemma_trim_start_clean(s: Seq<char>)
    ensures
        trim_start_seq(s).len() == 0 || !is_whitespace_char(trim_start_seq(s)[0]),
        trim_start_seq(s).len() <= s.len(),
        trim_start_seq(s) == s.subrange(s.len() - trim_start_seq(s).len(), s.len() as int),
    decreases s.len(),
{
    if s.len() > 0 && is_whitespace_char(s[0]) {
        lemma_trim_start_clean(s.drop_first());
        let t = trim_start_seq(s.drop_first());
        assert(s.drop_first().subrange(s.drop_first().len() - t.len(), s.drop_first().len() as int)
            =~= s.subrange(s.len() - t.len(), s.len() as int));
    } else {
        assert(s.subrange(0, s.len() as int) =~= s);
    }
}

proof fn lemma_trim_end_clean(s: Seq<char>)
    ensures
        trim_end_seq(s).len() == 0 || !is_whitespace_char(trim_end_seq(s).last()),
        trim_end_seq(s).len() <= s.len(),
        trim_end_seq(s) == s.subrange(0, trim_end_seq(s).len() as int),
    decreases s.len(),
{
    if s.len() > 0 && is_whitespace_char(s.last()) {
        lemma_trim_end_clean(s.drop_last());
        let t = trim_end_seq(s.drop_last());
        assert(s.drop_last().subrange(0, t.len() as int) =~= s.subrange(0, t.len() as int));
    } else {
        assert(s.subrange(0, s.len() as int) =~= s);
    }
}

proof fn lemma_trim_clean(s: Seq<char>)
    ensures
        has_clean_ends(trim_seq(s)),
{
    let u = trim_start_seq(s);
    lemma_trim_start_clean(s);
    lemma_trim_end_clean(u);
    let t = trim_end_seq(u);
    if t.len() > 0 {
        assert(t[0] == u[0]);
    }
}

proof fn lemma_clean_trim_identity(s: Seq<char>)
    requires
        has_clean_ends(s),
    ensures
        trim_seq(s) == s,
{
    assert(trim_start_seq(s) == s);
    assert(trim_end_seq(s) == s);
}

proof fn lemma_lower_keeps_clean_ends(s: Seq<char>)
    requires
        has_clean_ends(s),
    ensures
        has_clean_ends(lower_seq(s)),
{
    if s.len() > 0 {
        lemma_lower_char_idempotent(s[0]);
        lemma_lower_char_idempotent(s.last());
        assert(lower_seq(s)[0] == lower_char(s[0]));
        assert(lower_seq(s).last() == lower_char(s.last()));
    }
}

/// Normalizing twice is normalizing once.
proof fn lemma_normalize_idempotent(raw: Seq<char>)
    ensures
        lower_seq(trim_seq(lower_seq(trim_seq(raw)))) == lower_seq(trim_seq(raw)),
{
    let n = lower_seq(trim_seq(raw));
    lemma_trim_clean(raw);
    lemma_lower_keeps_clean_ends(trim_seq(raw));
    lemma_clean_trim_identity(n);
    lemma_lower_seq_idempotent(trim_seq(raw));
}

pub(crate) proof fn lemma_literal_normalized(w: Seq<char>)
    requires
        has_clean_ends(w),
        forall|i: int| 0 <= i < w.len() ==> !('A' <= #[trigger] w[i] && w[i] <= 'Z'),
    ensures
        lower_seq(trim_seq(w)) == w,
{
    lemma_clean_trim_identity(w);
    assert(lower_seq(w) =~= w);
}

/// Parsing the wire value of a parsed architecture gives the same architecture back: the
/// wire form is a fixed point of normalization, so a value read, stored and read again does
/// not drift.
pub proof fn lemma_parse_wire_roundtrip(raw: Seq<char>)
    ensures
        parse_arch(arch_wire(parse_arch(raw))) == parse_arch(raw),
{
    reveal_strlit("x86_64");
    reveal_strlit("amd64");
    reveal_strlit("x64");
    reveal_strlit("x86-64");
    reveal_strlit("aarch64");
    reveal_strlit("arm64");
    reveal_strlit("arm");
    reveal_strlit("armv7");
    reveal_strlit("armv7l");
    reveal_strlit("armhf");
    let n = lower_seq(trim_seq(raw));
    match arch_of_normalized(n) {
        ArchModel::X86_64 => {
            lemma_literal_normalized("x86_64"@);
        },
        ArchModel::Aarch64 => {
            lemma_literal_normalized("aarch64"@);
            assert("aarch64"@ != "x86_64"@);
            assert("aarch64"@ != "amd64"@);
            assert("aarch64"@ != "x64"@);
            assert("aarch64"@ != "x86-64"@);
        },
        ArchModel::Arm => {
            lemma_literal_normalized("arm"@);
            assert("arm"@ != "x86_64"@);
            assert("arm"@ != "amd64"@);
            assert("arm"@ != "x64"@);
            assert("arm"@ != "x86-64"@);
            assert("arm"@ != "aarch64"@);
            assert("arm"@ != "arm64"@);
        },
        ArchModel::Other(m) => {
            lemma_normalize_idempotent(raw);
        },
    }
}

/// Every documented spelling names its architecture, in any letter case and with any
/// surrounding whitespace: `x86_64`, `amd64`, `x64` and `x86-64` are x86_64; `aarch64` and
/// `arm64` are aarch64; `arm`, `armv7`, `armv7l` and `armhf` are 32-bit arm. Any other
/// non-blank spelling is kept, normalized, as an architecture of its own.
pub proof fn lemma_documented_arch_aliases(raw: Seq<char>)
    ensures
        ({
            let n = lower_seq(trim_seq(raw));
            n == "x86_64"@ || n == "amd64"@ || n == "x64"@ || n == "x86-64"@
        }) ==> parse_arch(raw) == ArchModel::X86_64,
        ({
            let n = lower_seq(trim_seq(raw));
            n == "aarch64"@ || n == "arm64"@
        }) ==> parse_arch(raw) == ArchModel::Aarch64,
        ({
            let n = lower_seq(trim_seq(raw));
            n == "arm"@ || n == "armv7"@ || n == "armv7l"@ || n == "armhf"@
        }) ==> parse_arch(raw) == ArchModel::Arm,
        parse_arch(raw) matches ArchModel::Other(o) ==> o == lower_seq(trim_seq(raw)),
{
    reveal_strlit("x86_64");
    reveal_strlit("amd64");
    reveal_strlit("x64");
    reveal_strlit("x86-64");
    reveal_strlit("aarch64");
    reveal_strlit("arm64");
    reveal_strlit("arm");
    reveal_strlit("armv7");
    reveal_strlit("armv7l");
    reveal_strlit("armhf");
    let n = lower_seq(trim_seq(raw));
    if n == "aarch64"@ || n == "arm64"@ {
        assert(n[0] == 'a' && n[1] != 'm');
        assert("x86_64"@[0] == 'x' && "x64"@[0] == 'x' && "x86-64"@[0] == 'x' && "amd64"@[1] == 'm');
        assert(n != "x86_64"@ && n != "amd64"@ && n != "x64"@ && n != "x86-64"@);
    }
    if n == "arm"@ || n == "armv7"@ || n == "armv7l"@ || n == "armhf"@ {
        assert(n[0] == 'a' && n[1] == 'r' && n[2] == 'm');
        assert(n != "x86_64"@ && n != "amd64"@ && n != "x64"@ && n != "x86-64"@);
        assert(n != "aarch64"@ && n != "arm64"@) by {
            if n.len() == 5 {
                assert(n[3] != '6');
            }
        }
    }
}

/// Trimming twice is trimming once.
pub(crate) proof fn lemma_trim_idempotent(x: Seq<char>)
    ensures
        trim_seq(trim_seq(x)) == trim_seq(x),
{
    lemma_trim_clean(x);
    lemma_clean_trim_identity(trim_seq(x));
}

/// The wire value of a parsed non-blank spelling is non-blank, has no surrounding whitespace,
/// and parses back to the same architecture.
pub proof fn lemma_parsed_arch_canonical(x: Seq<char>)
    requires
        trim_seq(x).len() > 0,
    ensures
        arch_wire(parse_arch(x)).len() > 0,
        trim_seq(arch_wire(parse_arch(x))) == arch_wire(parse_arch(x)),
        parse_arch(arch_wire(parse_arch(x))) == parse_arch(x),
{
    reveal_strlit("x86_64");
    reveal_strlit("aarch64");
    reveal_strlit("arm");
    lemma_parse_wire_roundtrip(x);
    let t = trim_seq(x);
    lemma_trim_clean(x);
    lemma_lower_keeps_clean_ends(t);
    let n = lower_seq(t);
    assert(n.len() == t.len());
    match parse_arch(x) {
        ArchModel::X86_64 => {
            assert(has_clean_ends("x86_64"@));
            lemma_clean_trim_identity("x86_64"@);
        },
        ArchModel::Aarch64 => {
            assert(has_clean_ends("aarch64"@));
            lemma_clean_trim_identity("aarch64"@);
        },
        ArchModel::Arm => {
            assert(has_clean_ends("arm"@));
            lemma_clean_trim_identity("arm"@);
        },
        ArchModel::Other(m) => {
            assert(m == n);
            lemma_clean_trim_identity(n);
        },
    }
}

/// No requirement is reported unmet exactly when all of them hold.
pub proof fn lemma_first_unmet_none_iff_satisfies(r: RequirementsModel, c: CapabilitiesModel)
    ensures
        first_unmet(r, c) is None <==> satisfies(r, c),
{
}

/// An unconstrained floor accepts every node, reported or not.
pub proof fn lemma_unconstrained_accepts_every_node(r: RequirementsModel, c: CapabilitiesModel)
    requires
        reqs_unconstrained(r),
    ensures
        satisfies(r, c),
        first_unmet(r, c) is None,
{
}

/// A constrained floor never accepts a node that reported nothing.
pub proof fn lemma_constrained_rejects_unreported(r: RequirementsModel, c: CapabilitiesModel)
    requires
        !reqs_unconstrained(r),
        caps_unreported(c),
    ensures
        !satisfies(r, c),
        first_unmet(r, c) is Some,
{
}

/// `more` reports everything `less` reports, with the same values.
pub open spec fn reports_at_least(less: CapabilitiesModel, more: CapabilitiesModel) -> bool {
    &&& less.arch is Some ==> more.arch == less.arch
    &&& less.cpu_logical is Some ==> more.cpu_logical == less.cpu_logical
    &&& less.memory_bytes is Some ==> more.memory_bytes == less.memory_bytes
}

/// An unreported field only ever makes a node less eligible: reporting more facts never turns
/// an eligible node ineligible.
pub proof fn lemma_reporting_more_keeps_eligibility(
    r: RequirementsModel,
    less: CapabilitiesModel,
    more: CapabilitiesModel,
)
    requires
        reports_at_least(less, more),
        satisfies(r, less),
    ensures
        satisfies(r, more),
{
}

/// A node whose figures are at least the floor's minimums (on an accepted architecture)
/// clears the floor: the minimums are inclusive.
pub proof fn lemma_minimums_inclusive(r: RequirementsModel, c: CapabilitiesModel)
    requires
        arch_ok(r, c),
        r.min_cpu_logical is Some ==> c.cpu_logical == r.min_cpu_logical,
        r.min_memory_bytes is Some ==> c.memory_bytes == r.min_memory_bytes,
    ensures
        satisfies(r, c),
{
}

} // verus!
