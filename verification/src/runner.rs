//! The decisions of the scenario runner.
//!
//! A scenario step alternates outside work (enrollment, heartbeats, queue calls, Docker) with
//! decisions on the lab state. [`LabState::plan_step`] decides, from the state and the step,
//! whether the step may run and what outside work it needs; the `on_*` and `mark_*` methods
//! apply what that work reported. Which names, ports and payloads the lab uses is decided here
//! too, so a run can be replayed from the inputs alone.
use vstd::prelude::*;
use vstd::string::StringSliceAdditionalSpecFns;

use crate::bench_image::{bench_port_mapping, port_mapping_text};
use crate::json::{bool_member, bool_pair, json_as_str, json_get, member_count, text_member, text_pair,
    texts_member, texts_pair, JsonValue};
use crate::matrix::Executor;
use crate::node_actions::{ClaimedNodeAction, ReportNodeActionResult, NODE_ACTION_KIND_DEPLOY_HANDOFF,
    NODE_ACTION_KIND_TEARDOWN_HANDOFF};
use crate::scenario::ScenarioStep;
use crate::text::{contains_seq, contains_str, decimal_seq, push_decimal, push_str, str_equal,
    strings_view};

verus! {

/// Driver mode: assert on outcomes, or collect timings only.
#[derive(Debug, Clone, Copy, PartialEq, Eq, Structural)]
pub enum RunMode {
    /// Fail the run when a step fails.
    Correctness,
    /// Collect timings; a soft step failure does not stop the run (hard ones still do).
    Benchmark,
}

/// State of the lab harness between steps.
#[derive(Debug)]
pub struct LabState {
    /// Node id the lab enrolls and heartbeats as.
    pub node_id: String,
    /// Cell id of the lab node.
    pub cell_id: String,
    /// Enrollment token until the first accepted heartbeat.
    pub enrollment_token: Option<String>,
    /// An enrollment ticket was created.
    pub enrolled: bool,
    /// A heartbeat was accepted.
    pub healthy: bool,
    /// Container refs currently running, each once.
    pub running: Vec<String>,
    /// The lab's main container ref.
    pub container_ref: String,
    /// Image the lab deploys.
    pub image_ref: String,
    /// Host port the main container publishes.
    pub host_port: u16,
    /// Last queued or claimed command id.
    pub last_command_id: Option<String>,
    /// Attempt of the last claimed command.
    pub last_attempt: i64,
    /// How actions execute.
    pub executor: Executor,
}

/// The containers a lab records as running.
pub open spec fn running_set(lab: LabState) -> Set<Seq<char>> {
    strings_view(lab.running@).to_set()
}

/// A lab state is well formed: no container is recorded twice, and only an enrolled node
/// can have been accepted.
pub open spec fn lab_wf(lab: LabState) -> bool {
    &&& strings_view(lab.running@).no_duplicates()
    &&& lab.healthy ==> lab.enrolled
}

/// The last `k` characters of `s`, last first (`s.chars().rev().take(k)`).
pub open spec fn rev_take(s: Seq<char>, k: nat) -> Seq<char> {
    let n = if s.len() < k {
        s.len()
    } else {
        k
    };
    Seq::new(n, |i: int| s[s.len() - 1 - i])
}

/// Rolling hash of bytes: `acc * 31 + b`, wrapping at 16 bits.
pub open spec fn fold_hash(b: Seq<u8>) -> u16
    decreases b.len(),
{
    if b.len() == 0 {
        0
    } else {
        ((fold_hash(b.drop_last()) as int * 31 + b.last() as int) % 65536) as u16
    }
}

/// Host port of the lab's main container for a run suffix.
pub open spec fn lab_port(suffix: Seq<char>) -> u16 {
    (18000 + fold_hash(vstd::utf8::encode_utf8(suffix)) as int % 2000) as u16
}

/// The run suffix of a run id: its last ten characters, last first.
pub fn run_suffix(run_id: &str) -> (r: String)
    ensures
        r@ == rev_take(run_id@, 10),
{
    let v = crate::text::chars_of(run_id);
    let n = v.len();
    let mut s = String::new();
    let mut k: usize = 0;
    while k < n && k < 10
        invariant
            v@ == run_id@,
            n == v@.len(),
            k <= n,
            k <= 10,
            s@ == Seq::new(k as nat, |i: int| run_id@[run_id@.len() - 1 - i]),
        decreases n - k,
    {
        crate::text::push_char(&mut s, v[n - 1 - k]);
        assert(s@ =~= Seq::new((k + 1) as nat, |i: int| run_id@[run_id@.len() - 1 - i]));
        k = k + 1;
    }
    assert(s@ =~= rev_take(run_id@, 10));
    s
}

/// The lab port for a run suffix (see [`lab_port`]).
pub fn port_for_suffix(suffix: &str) -> (r: u16)
    ensures
        r == lab_port(suffix@),
{
    let b = suffix.as_bytes();
    let n = b.len();
    let mut acc: u16 = 0;
    let mut i: usize = 0;
    while i < n
        invariant
            b@ == suffix.spec_bytes(),
            n == b@.len(),
            i <= n,
            acc == fold_hash(b@.subrange(0, i as int)),
        decreases n - i,
    {
        let x: u32 = (acc as u32) * 31 + (b[i] as u32);
        proof {
            let pre = b@.subrange(0, i + 1);
            assert(pre.drop_last() =~= b@.subrange(0, i as int));
        }
        acc = (x % 65536) as u16;
        i = i + 1;
    }
    assert(b@.subrange(0, n as int) =~= b@);
    18000 + acc % 2000
}

/// Node id of a lab run.
pub open spec fn lab_node_text(suffix: Seq<char>) -> Seq<char> {
    "pion-lab-node-"@ + suffix
}

/// Main container ref of a lab run.
pub open spec fn lab_container_text(suffix: Seq<char>) -> Seq<char> {
    "lab-handoff-"@ + suffix
}

impl LabState {
    /// The lab of a fresh run: names and port derive from the run id's suffix, nothing is
    /// enrolled or running yet.
    pub fn new(executor: Executor, run_id: &str, image_ref: &str) -> (r: Self)
        ensures
            lab_wf(r),
            r.node_id@ == lab_node_text(rev_take(run_id@, 10)),
            r.cell_id@ == "local-default"@,
            r.enrollment_token is None,
            !r.enrolled,
            !r.healthy,
            r.running@.len() == 0,
            r.container_ref@ == lab_container_text(rev_take(run_id@, 10)),
            r.image_ref@ == image_ref@,
            r.host_port == lab_port(rev_take(run_id@, 10)),
            r.last_command_id is None,
            r.last_attempt == 0,
            r.executor == executor,
    {
        let suffix = run_suffix(run_id);
        let mut node_id = String::new();
        push_str(&mut node_id, "pion-lab-node-");
        push_str(&mut node_id, suffix.as_str());
        let mut container_ref = String::new();
        push_str(&mut container_ref, "lab-handoff-");
        push_str(&mut container_ref, suffix.as_str());
        let host_port = port_for_suffix(suffix.as_str());
        let r = LabState {
            node_id,
            cell_id: "local-default".to_owned(),
            enrollment_token: None,
            enrolled: false,
            healthy: false,
            running: Vec::new(),
            container_ref,
            image_ref: image_ref.to_owned(),
            host_port,
            last_command_id: None,
            last_attempt: 0,
            executor,
        };
        assert(strings_view(r.running@) =~= Seq::<Seq<char>>::empty());
        r
    }
}

fn find_name(v: &Vec<String>, s: &str) -> (r: Option<usize>)
    ensures
        match r {
            Some(i) => i < v@.len() && v@[i as int]@ == s@,
            None => !strings_view(v@).contains(s@),
        },
{
    let mut i: usize = 0;
    while i < v.len()
        invariant
            i <= v@.len(),
            forall|j: int| 0 <= j < i ==> v@[j]@ != s@,
        decreases v@.len() - i,
    {
        if str_equal(v[i].as_str(), s) {
            return Some(i);
        }
        i = i + 1;
    }
    proof {
        if strings_view(v@).contains(s@) {
            let j = choose|j: int| 0 <= j < strings_view(v@).len() && strings_view(v@)[j] == s@;
            assert(v@[j]@ == s@);
        }
    }
    None
}

impl LabState {
    /// Whether `container_ref` is recorded as running.
    pub fn is_running(&self, container_ref: &str) -> (r: bool)
        ensures
            r == running_set(*self).contains(container_ref@),
    {
        match find_name(&self.running, container_ref) {
            Some(i) => {
                assert(strings_view(self.running@)[i as int] == container_ref@);
                true
            },
            None => false,
        }
    }

    /// Records `container_ref` as running.
    pub fn mark_running(&mut self, container_ref: &str)
        requires
            lab_wf(*old(self)),
        ensures
            lab_wf(*final(self)),
            running_set(*final(self)) == running_set(*old(self)).insert(container_ref@),
            same_but_running(*old(self), *final(self)),
    {
        let ghost before = strings_view(self.running@);
        match find_name(&self.running, container_ref) {
            Some(i) => {
                assert(before[i as int] == container_ref@);
                assert(running_set(*self) =~= running_set(*old(self)).insert(container_ref@));
            },
            None => {
                self.running.push(container_ref.to_owned());
                let ghost after = strings_view(self.running@);
                assert(after =~= before.push(container_ref@));
                assert forall|a: int, b: int| 0 <= a < b < after.len() implies after[a]
                    != after[b] by {
                    if b == after.len() - 1 {
                        assert(before.contains(before[a]));
                    }
                }
                assert forall|x: Seq<char>| #[trigger]
                    after.to_set().contains(x) <==> before.to_set().insert(
                        container_ref@,
                    ).contains(x) by {
                    if after.contains(x) {
                        let j = choose|j: int| 0 <= j < after.len() && after[j] == x;
                        if j < before.len() {
                            assert(before[j] == x);
                        }
                    }
                    if before.contains(x) {
                        let j = choose|j: int| 0 <= j < before.len() && before[j] == x;
                        assert(after[j] == x);
                    }
                    if x == container_ref@ {
                        assert(after[after.len() - 1] == x);
                    }
                }
                assert(running_set(*self) =~= running_set(*old(self)).insert(container_ref@));
            },
        }
    }

    /// Records `container_ref` as gone.
    pub fn mark_gone(&mut self, container_ref: &str)
        requires
            lab_wf(*old(self)),
        ensures
            lab_wf(*final(self)),
            running_set(*final(self)) == running_set(*old(self)).remove(container_ref@),
            same_but_running(*old(self), *final(self)),
    {
        let ghost before = strings_view(self.running@);
        match find_name(&self.running, container_ref) {
            Some(i) => {
                self.running.remove(i);
                let ghost after = strings_view(self.running@);
                assert(after =~= before.remove(i as int));
                assert forall|a: int, b: int| 0 <= a < b < after.len() implies after[a]
                    != after[b] by {
                    let a2 = if a < i { a } else { a + 1 };
                    let b2 = if b < i { b } else { b + 1 };
                    assert(after[a] == before[a2]);
                    assert(after[b] == before[b2]);
                }
                assert forall|x: Seq<char>| #[trigger]
                    after.to_set().contains(x) <==> before.to_set().remove(
                        container_ref@,
                    ).contains(x) by {
                    if after.contains(x) {
                        let j = choose|j: int| 0 <= j < after.len() && after[j] == x;
                        let j2 = if j < i { j } else { j + 1 };
                        assert(before[j2] == x);
                        assert(j2 != i);
                        assert(before[i as int] == container_ref@);
                    }
                    if before.contains(x) && x != container_ref@ {
                        let j = choose|j: int| 0 <= j < before.len() && before[j] == x;
                        assert(j != i);
                        if j < i {
                            assert(after[j] == x);
                        } else {
                            assert(after[j - 1] == x);
                        }
                    }
                }
                assert(running_set(*self) =~= running_set(*old(self)).remove(container_ref@));
            },
            None => {
                assert(running_set(*self) =~= running_set(*old(self)).remove(container_ref@));
            },
        }
    }
}

/// Health-check URL of a lab container published on `host_port`.
pub open spec fn health_url_text(host_port: u16) -> Seq<char> {
    "http://127.0.0.1:"@ + decimal_seq(host_port as nat) + "/"@
}

/// `v` is the JSON of a lab `deploy_handoff` request: no env, secrets, extra hosts or volumes,
/// one port mapping, no network and no import URL.
pub open spec fn deploy_payload_ok(
    v: JsonValue,
    node_id: Seq<char>,
    container_ref: Seq<char>,
    image_ref: Seq<char>,
    host_port: u16,
    transfer_id: Seq<char>,
) -> bool {
    &&& member_count(v) == 10
    &&& text_member(v, 0, "node_id"@, node_id)
    &&& text_member(v, 1, "container_ref"@, container_ref)
    &&& text_member(v, 2, "image_ref"@, image_ref)
    &&& texts_member(v, 3, "env_vars"@, seq![])
    &&& texts_member(v, 4, "secret_env_vars"@, seq![])
    &&& texts_member(v, 5, "port_mappings"@, seq![port_mapping_text(host_port)])
    &&& texts_member(v, 6, "extra_hosts"@, seq![])
    &&& texts_member(v, 7, "volume_mounts"@, seq![])
    &&& text_member(v, 8, "health_url"@, health_url_text(host_port))
    &&& text_member(v, 9, "transfer_id"@, transfer_id)
}

/// `v` is the JSON of a lab `teardown_handoff` request (volumes kept, no container-id guard).
pub open spec fn teardown_payload_ok(v: JsonValue, node_id: Seq<char>, container_ref: Seq<char>) -> bool {
    &&& member_count(v) == 3
    &&& text_member(v, 0, "node_id"@, node_id)
    &&& text_member(v, 1, "container_ref"@, container_ref)
    &&& bool_member(v, 2, "remove_volumes"@, false)
}

fn empty_texts(key: &str) -> (r: (String, JsonValue))
    ensures
        r.0@ == key@,
        crate::json::is_text_array(r.1, seq![]),
{
    let v: Vec<String> = Vec::new();
    let r = texts_pair(key, &v);
    assert(strings_view(v@) =~= Seq::<Seq<char>>::empty());
    r
}

impl LabState {
    /// The `deploy_handoff` payload for `container_ref` published on `host_port`.
    pub fn deploy_payload(&self, container_ref: &str, transfer_id: &str, host_port: u16) -> (r:
        JsonValue)
        ensures
            deploy_payload_ok(r, self.node_id@, container_ref@, self.image_ref@, host_port, transfer_id@),
    {
        let mapping = bench_port_mapping(host_port);
        let mut ports: Vec<String> = Vec::new();
        ports.push(mapping);
        assert(strings_view(ports@) =~= seq![port_mapping_text(host_port)]);
        let mut url = String::new();
        push_str(&mut url, "http://127.0.0.1:");
        push_decimal(&mut url, host_port as u64);
        push_str(&mut url, "/");
        assert(url@ =~= health_url_text(host_port));
        let mut m: Vec<(String, JsonValue)> = Vec::new();
        m.push(text_pair("node_id", self.node_id.as_str()));
        m.push(text_pair("container_ref", container_ref));
        m.push(text_pair("image_ref", self.image_ref.as_str()));
        m.push(empty_texts("env_vars"));
        m.push(empty_texts("secret_env_vars"));
        m.push(texts_pair("port_mappings", &ports));
        m.push(empty_texts("extra_hosts"));
        m.push(empty_texts("volume_mounts"));
        m.push(text_pair("health_url", url.as_str()));
        m.push(text_pair("transfer_id", transfer_id));
        JsonValue::Object(m)
    }

    /// The `teardown_handoff` payload for `container_ref`.
    pub fn teardown_payload(&self, container_ref: &str) -> (r: JsonValue)
        ensures
            teardown_payload_ok(r, self.node_id@, container_ref@),
    {
        let mut m: Vec<(String, JsonValue)> = Vec::new();
        m.push(text_pair("node_id", self.node_id.as_str()));
        m.push(text_pair("container_ref", container_ref));
        m.push(bool_pair("remove_volumes", false));
        JsonValue::Object(m)
    }
}

/// The container ref a claimed payload names, if it names one as a string.
pub open spec fn payload_container_ref(payload: JsonValue) -> Option<Seq<char>> {
    match json_get(payload, "container_ref"@) {
        Some(x) => json_as_str(x),
        None => None,
    }
}

/// The container ref a claimed payload names (see [`payload_container_ref`]).
pub fn container_ref_from_payload(payload: &JsonValue) -> (r: Option<String>)
    ensures
        match r {
            Some(s) => payload_container_ref(*payload) == Some(s@),
            None => payload_container_ref(*payload) is None,
        },
{
    match payload.get("container_ref") {
        Some(x) => match x.as_str() {
            Some(t) => Some(t.to_owned()),
            None => None,
        },
        None => None,
    }
}

/// Reading the container ref back from a lab deploy payload gives the ref it was built for.
pub proof fn lemma_deploy_payload_names_its_container(
    v: JsonValue,
    node_id: Seq<char>,
    container_ref: Seq<char>,
    image_ref: Seq<char>,
    host_port: u16,
    transfer_id: Seq<char>,
)
    requires
        deploy_payload_ok(v, node_id, container_ref, image_ref, host_port, transfer_id),
    ensures
        payload_container_ref(v) == Some(container_ref),
{
    reveal_strlit("node_id");
    reveal_strlit("container_ref");
    match v {
        JsonValue::Object(m) => {
            assert("node_id"@.len() == 7 && "container_ref"@.len() == 13);
            assert(m@[0].0@ != "container_ref"@);
            crate::json::lemma_member_index_first(m@, "container_ref"@, 1);
        },
        _ => {},
    }
}

/// Reading the container ref back from a lab teardown payload gives the ref it was built for.
pub proof fn lemma_teardown_payload_names_its_container(
    v: JsonValue,
    node_id: Seq<char>,
    container_ref: Seq<char>,
)
    requires
        teardown_payload_ok(v, node_id, container_ref),
    ensures
        payload_container_ref(v) == Some(container_ref),
{
    reveal_strlit("node_id");
    reveal_strlit("container_ref");
    match v {
        JsonValue::Object(m) => {
            assert("node_id"@.len() == 7 && "container_ref"@.len() == 13);
            assert(m@[0].0@ != "container_ref"@);
            crate::json::lemma_member_index_first(m@, "container_ref"@, 1);
        },
        _ => {},
    }
}

/// One action of a firehose step.
#[derive(Debug)]
pub struct FirehoseItem {
    /// Position in the firehose, from 0.
    pub index: u32,
    /// Container ref of this action.
    pub container_ref: String,
    /// Host port the container publishes (deploys).
    pub host_port: u16,
    /// Correlation key of the queued action.
    pub correlation_key: String,
    /// Sequence of the queued action within its correlation stream.
    pub sequence: i64,
    /// Queued payload.
    pub payload: JsonValue,
}

/// The outside work a step needs, once the lab state allows it.
#[derive(Debug)]
pub enum StepAction {
    /// Create a host enrollment ticket, then report its token to [`LabState::on_enrolled`].
    Enroll,
    /// Send one heartbeat and opt the node into deploy and stop, then
    /// [`LabState::on_heartbeat_ok`].
    Heartbeat,
    /// Pull the lab image.
    PrePull,
    /// Enqueue a `deploy_handoff` action.
    EnqueueDeploy { payload: JsonValue, correlation_key: String, sequence: i64 },
    /// Claim the pending action and acknowledge it.
    ClaimAndAck,
    /// Claim the pending action and execute it.
    ClaimAndExecute,
    /// Check with Docker that the main container runs and answers on its port.
    ProbeRunning,
    /// Check with Docker that the main container is gone.
    ProbeGone,
    /// Enqueue a `teardown_handoff` action.
    EnqueueTeardown { payload: JsonValue, correlation_key: String, sequence: i64 },
    /// Enqueue, claim and execute each item in order.
    Firehose { teardown: bool, items: Vec<FirehoseItem> },
    /// Nothing to do but record the step.
    Record,
}

/// Host port of firehose deploy `i`: `19000 + i`, saturating at the top port.
pub open spec fn firehose_port(i: u32) -> u16 {
    if 19000 + i > 65535 {
        65535
    } else {
        (19000 + i) as u16
    }
}

/// Item `it` is firehose action `i` of the lab.
pub open spec fn firehose_item_ok(lab: LabState, it: FirehoseItem, i: u32, teardown: bool) -> bool {
    &&& it.index == i
    &&& it.container_ref@ == lab.container_ref@ + "-"@ + decimal_seq(i as nat)
    &&& it.sequence == i + 1
    &&& if teardown {
        &&& it.correlation_key@ == "lab:firehose-td:"@ + decimal_seq(i as nat)
        &&& teardown_payload_ok(it.payload, lab.node_id@, it.container_ref@)
    } else {
        &&& it.correlation_key@ == "lab:firehose:"@ + decimal_seq(i as nat)
        &&& it.host_port == firehose_port(i)
        &&& deploy_payload_ok(
            it.payload,
            lab.node_id@,
            it.container_ref@,
            lab.image_ref@,
            firehose_port(i),
            "lab-xfer-"@ + decimal_seq(i as nat),
        )
    }
}

/// `items` are the firehose actions `0..n` of the lab, in order.
pub open spec fn firehose_items_ok(lab: LabState, items: Seq<FirehoseItem>, n: u32, teardown: bool) -> bool {
    &&& items.len() == n
    &&& forall|k: int| 0 <= k < n ==> firehose_item_ok(lab, #[trigger] items[k], k as u32, teardown)
}

/// Message of a step that needs an accepted heartbeat first.
pub open spec fn not_healthy_text() -> Seq<char> {
    "node not healthy; run HeartbeatUntilHealthy first"@
}

/// Message of a heartbeat step before enrollment.
pub open spec fn not_enrolled_text() -> Seq<char> {
    "HeartbeatUntilHealthy requires EnrollAgent first"@
}

/// `names` as a set literal: each name in double quotes, separated by `, `, in braces.
pub open spec fn name_set_text(names: Seq<Seq<char>>) -> Seq<char> {
    "{"@ + crate::text::join_seqs(names.map_values(|n: Seq<char>| "\""@ + n + "\""@), ", "@)
        + "}"@
}

/// Message of a stub run whose main container is not running.
pub open spec fn expected_running_text(container_ref: Seq<char>, running: Seq<Seq<char>>) -> Seq<char> {
    "expected container `"@ + container_ref + "` running; stub set="@ + name_set_text(running)
}

/// Message of a stub run whose main container is still running.
pub open spec fn expected_gone_text(container_ref: Seq<char>) -> Seq<char> {
    "expected container `"@ + container_ref + "` gone; still in stub set"@
}

/// The plan `r` is what `step` calls for in state `lab`.
pub open spec fn step_plan_ok(lab: LabState, step: ScenarioStep, r: Result<StepAction, String>) -> bool {
    match step {
        ScenarioStep::EnrollAgent => r matches Ok(StepAction::Enroll),
        ScenarioStep::HeartbeatUntilHealthy => if lab.enrolled {
            r matches Ok(StepAction::Heartbeat)
        } else {
            r matches Err(m) && m@ == not_enrolled_text()
        },
        ScenarioStep::PrePullImage => r matches Ok(StepAction::PrePull),
        ScenarioStep::EnqueueDeploy => if !lab.healthy {
            r matches Err(m) && m@ == not_healthy_text()
        } else {
            r matches Ok(StepAction::EnqueueDeploy { payload, correlation_key, sequence })
                && correlation_key@ == "lab:deploy"@ && sequence == 1 && deploy_payload_ok(
                payload,
                lab.node_id@,
                lab.container_ref@,
                lab.image_ref@,
                lab.host_port,
                "lab-xfer"@,
            )
        },
        ScenarioStep::ClaimAndAck => if !lab.healthy {
            r matches Err(m) && m@ == not_healthy_text()
        } else {
            r matches Ok(StepAction::ClaimAndAck)
        },
        ScenarioStep::ClaimAndExecute => if !lab.healthy {
            r matches Err(m) && m@ == not_healthy_text()
        } else {
            r matches Ok(StepAction::ClaimAndExecute)
        },
        ScenarioStep::AssertContainerRunning => match lab.executor {
            Executor::Stub => if running_set(lab).contains(lab.container_ref@) {
                r matches Ok(StepAction::Record)
            } else {
                r matches Err(m) && m@ == expected_running_text(
                    lab.container_ref@,
                    strings_view(lab.running@),
                )
            },
            Executor::DockerCli => r matches Ok(StepAction::ProbeRunning),
        },
        ScenarioStep::EnqueueTeardown => if !lab.healthy {
            r matches Err(m) && m@ == not_healthy_text()
        } else {
            r matches Ok(StepAction::EnqueueTeardown { payload, correlation_key, sequence })
                && correlation_key@ == "lab:teardown"@ && sequence == 1 && teardown_payload_ok(
                payload,
                lab.node_id@,
                lab.container_ref@,
            )
        },
        ScenarioStep::AssertContainerGone => match lab.executor {
            Executor::Stub => if !running_set(lab).contains(lab.container_ref@) {
                r matches Ok(StepAction::Record)
            } else {
                r matches Err(m) && m@ == expected_gone_text(lab.container_ref@)
            },
            Executor::DockerCli => r matches Ok(StepAction::ProbeGone),
        },
        ScenarioStep::FirehoseDeploy { n, concurrency } => if !lab.healthy {
            r matches Err(m) && m@ == not_healthy_text()
        } else {
            r matches Ok(StepAction::Firehose { teardown, items }) && !teardown
                && firehose_items_ok(lab, items@, n, false)
        },
        ScenarioStep::FirehoseTeardown { n, concurrency } => if !lab.healthy {
            r matches Err(m) && m@ == not_healthy_text()
        } else {
            r matches Ok(StepAction::Firehose { teardown, items }) && teardown
                && firehose_items_ok(lab, items@, n, true)
        },
        _ => r matches Ok(StepAction::Record),
    }
}

/// Fails unless a heartbeat was accepted.
pub fn ensure_healthy(lab: &LabState) -> (r: Result<(), String>)
    ensures
        match r {
            Ok(()) => lab.healthy,
            Err(m) => !lab.healthy && m@ == not_healthy_text(),
        },
{
    if !lab.healthy {
        return Err("node not healthy; run HeartbeatUntilHealthy first".to_owned());
    }
    Ok(())
}

fn name_set_string(names: &Vec<String>) -> (r: String)
    ensures
        r@ == name_set_text(strings_view(names@)),
{
    let mut quoted: Vec<String> = Vec::new();
    let mut k: usize = 0;
    while k < names.len()
        invariant
            k <= names@.len(),
            strings_view(quoted@) == strings_view(names@.subrange(0, k as int)).map_values(
                |n: Seq<char>| "\""@ + n + "\""@,
            ),
        decreases names@.len() - k,
    {
        let mut q = String::new();
        push_str(&mut q, "\"");
        push_str(&mut q, names[k].as_str());
        push_str(&mut q, "\"");
        let ghost before = strings_view(quoted@);
        quoted.push(q);
        proof {
            let pre = strings_view(names@.subrange(0, k as int));
            let post = strings_view(names@.subrange(0, k + 1));
            assert(post =~= pre.push(names@[k as int]@));
            assert(strings_view(quoted@) =~= before.push(q@));
            assert(post.map_values(|n: Seq<char>| "\""@ + n + "\""@) =~= pre.map_values(
                |n: Seq<char>| "\""@ + n + "\""@,
            ).push("\""@ + names@[k as int]@ + "\""@));
        }
        k = k + 1;
    }
    assert(names@.subrange(0, names@.len() as int) =~= names@);
    let mut s = String::new();
    push_str(&mut s, "{");
    crate::text::push_joined(&mut s, &quoted, ", ");
    push_str(&mut s, "}");
    assert(s@ =~= name_set_text(strings_view(names@)));
    s
}

fn join3(a: &str, b: &str, c: &str) -> (r: String)
    ensures
        r@ == a@ + b@ + c@,
{
    let mut s = String::new();
    push_str(&mut s, a);
    push_str(&mut s, b);
    push_str(&mut s, c);
    assert(s@ =~= a@ + b@ + c@);
    s
}

fn indexed(prefix: &str, i: u32) -> (r: String)
    ensures
        r@ == prefix@ + decimal_seq(i as nat),
{
    let mut s = String::new();
    push_str(&mut s, prefix);
    push_decimal(&mut s, i as u64);
    assert(s@ =~= prefix@ + decimal_seq(i as nat));
    s
}

impl LabState {
    /// Firehose action `i`.
    pub fn firehose_item(&self, i: u32, teardown: bool) -> (r: FirehoseItem)
        ensures
            firehose_item_ok(*self, r, i, teardown),
    {
        let mut cref = String::new();
        push_str(&mut cref, self.container_ref.as_str());
        push_str(&mut cref, "-");
        push_decimal(&mut cref, i as u64);
        assert(cref@ =~= self.container_ref@ + "-"@ + decimal_seq(i as nat));
        let host_port: u16 = if i > 46535 {
            65535
        } else {
            19000 + (i as u16)
        };
        let sequence: i64 = (i as i64) + 1;
        if teardown {
            let payload = self.teardown_payload(cref.as_str());
            let correlation_key = indexed("lab:firehose-td:", i);
            FirehoseItem { index: i, container_ref: cref, host_port, correlation_key, sequence, payload }
        } else {
            let transfer = indexed("lab-xfer-", i);
            let payload = self.deploy_payload(cref.as_str(), transfer.as_str(), host_port);
            let correlation_key = indexed("lab:firehose:", i);
            FirehoseItem { index: i, container_ref: cref, host_port, correlation_key, sequence, payload }
        }
    }

    /// The firehose actions `0..n`, produced batch by batch (`concurrency` per batch, at least
    /// one); the batches together give every index once, in order.
    pub fn firehose_items(&self, n: u32, concurrency: u32, teardown: bool) -> (r: Vec<FirehoseItem>)
        ensures
            firehose_items_ok(*self, r@, n, teardown),
    {
        let conc: u32 = if concurrency == 0 {
            1
        } else {
            concurrency
        };
        let mut items: Vec<FirehoseItem> = Vec::new();
        let mut batch_start: u32 = 0;
        while batch_start < n
            invariant
                batch_start <= n,
                conc >= 1,
                items@.len() == batch_start,
                forall|k: int|
                    0 <= k < batch_start ==> firehose_item_ok(
                        *self,
                        #[trigger] items@[k],
                        k as u32,
                        teardown,
                    ),
            decreases n - batch_start,
        {
            let batch_end: u32 = if n - batch_start < conc {
                n
            } else {
                batch_start + conc
            };
            let mut i: u32 = batch_start;
            while i < batch_end
                invariant
                    batch_start <= i <= batch_end <= n,
                    items@.len() == i,
                    forall|k: int|
                        0 <= k < i ==> firehose_item_ok(
                            *self,
                            #[trigger] items@[k],
                            k as u32,
                            teardown,
                        ),
                decreases batch_end - i,
            {
                let it = self.firehose_item(i, teardown);
                items.push(it);
                i = i + 1;
            }
            batch_start = batch_end;
        }
        items
    }

    /// Decides whether `step` may run in this state and what outside work it needs (see
    /// [`step_plan_ok`]).
    pub fn plan_step(&self, step: &ScenarioStep) -> (r: Result<StepAction, String>)
        requires
            lab_wf(*self),
        ensures
            step_plan_ok(*self, *step, r),
    {
        match step {
            ScenarioStep::EnrollAgent => Ok(StepAction::Enroll),
            ScenarioStep::HeartbeatUntilHealthy => {
                if !self.enrolled {
                    return Err("HeartbeatUntilHealthy requires EnrollAgent first".to_owned());
                }
                Ok(StepAction::Heartbeat)
            },
            ScenarioStep::PrePullImage => Ok(StepAction::PrePull),
            ScenarioStep::EnqueueDeploy => {
                ensure_healthy(self)?;
                let payload = self.deploy_payload(
                    self.container_ref.as_str(),
                    "lab-xfer",
                    self.host_port,
                );
                Ok(
                    StepAction::EnqueueDeploy {
                        payload,
                        correlation_key: "lab:deploy".to_owned(),
                        sequence: 1,
                    },
                )
            },
            ScenarioStep::ClaimAndAck => {
                ensure_healthy(self)?;
                Ok(StepAction::ClaimAndAck)
            },
            ScenarioStep::ClaimAndExecute => {
                ensure_healthy(self)?;
                Ok(StepAction::ClaimAndExecute)
            },
            ScenarioStep::AssertContainerRunning => match self.executor {
                Executor::Stub => {
                    if !self.is_running(self.container_ref.as_str()) {
                        let mut m = String::new();
                        push_str(&mut m, "expected container `");
                        push_str(&mut m, self.container_ref.as_str());
                        push_str(&mut m, "` running; stub set=");
                        let set = name_set_string(&self.running);
                        push_str(&mut m, set.as_str());
                        assert(m@ =~= expected_running_text(
                            self.container_ref@,
                            strings_view(self.running@),
                        ));
                        return Err(m);
                    }
                    Ok(StepAction::Record)
                },
                Executor::DockerCli => Ok(StepAction::ProbeRunning),
            },
            ScenarioStep::EnqueueTeardown => {
                ensure_healthy(self)?;
                let payload = self.teardown_payload(self.container_ref.as_str());
                Ok(
                    StepAction::EnqueueTeardown {
                        payload,
                        correlation_key: "lab:teardown".to_owned(),
                        sequence: 1,
                    },
                )
            },
            ScenarioStep::AssertContainerGone => match self.executor {
                Executor::Stub => {
                    if self.is_running(self.container_ref.as_str()) {
                        let m = join3(
                            "expected container `",
                            self.container_ref.as_str(),
                            "` gone; still in stub set",
                        );
                        return Err(m);
                    }
                    Ok(StepAction::Record)
                },
                Executor::DockerCli => Ok(StepAction::ProbeGone),
            },
            ScenarioStep::FirehoseDeploy { n, concurrency } => {
                ensure_healthy(self)?;
                let items = self.firehose_items(*n, *concurrency, false);
                Ok(StepAction::Firehose { teardown: false, items })
            },
            ScenarioStep::FirehoseTeardown { n, concurrency } => {
                ensure_healthy(self)?;
                let items = self.firehose_items(*n, *concurrency, true);
                Ok(StepAction::Firehose { teardown: true, items })
            },
            ScenarioStep::ExtendLease | ScenarioStep::CancelAction | ScenarioStep::ApplyReEnroll
            | ScenarioStep::ApplyRevoke => Ok(StepAction::Record),
        }
    }
}

/// The other fields of two lab states agree: only the recorded containers may differ.
pub open spec fn same_but_running(a: LabState, b: LabState) -> bool {
    &&& a.node_id == b.node_id
    &&& a.cell_id == b.cell_id
    &&& a.enrollment_token == b.enrollment_token
    &&& a.enrolled == b.enrolled
    &&& a.healthy == b.healthy
    &&& a.container_ref == b.container_ref
    &&& a.image_ref == b.image_ref
    &&& a.host_port == b.host_port
    &&& a.last_command_id == b.last_command_id
    &&& a.last_attempt == b.last_attempt
    &&& a.executor == b.executor
}

/// Message of a stub run asked to execute an action kind it does not know.
pub open spec fn unhandled_kind_text(kind: Seq<char>) -> Seq<char> {
    "stub executor does not handle action_kind "@ + kind
}

/// What the stub executor does to the running set for an action of `kind` with `payload`:
/// a deploy records the container the payload names (else the main one), a teardown forgets
/// it, any other kind fails.
pub open spec fn stub_effect(
    running: Set<Seq<char>>,
    main_ref: Seq<char>,
    kind: Seq<char>,
    payload: JsonValue,
) -> Result<Set<Seq<char>>, Seq<char>> {
    let target = match payload_container_ref(payload) {
        Some(c) => c,
        None => main_ref,
    };
    if kind == NODE_ACTION_KIND_DEPLOY_HANDOFF@ {
        Ok(running.insert(target))
    } else if kind == NODE_ACTION_KIND_TEARDOWN_HANDOFF@ {
        Ok(running.remove(target))
    } else {
        Err(unhandled_kind_text(kind))
    }
}

impl LabState {
    /// An enrollment ticket was created with wire token `token`.
    pub fn on_enrolled(&mut self, token: String)
        requires
            lab_wf(*old(self)),
        ensures
            lab_wf(*final(self)),
            final(self).enrolled,
            final(self).enrollment_token == Some(token),
            final(self).healthy == old(self).healthy,
            final(self).running == old(self).running,
            final(self).node_id == old(self).node_id,
            final(self).cell_id == old(self).cell_id,
            final(self).container_ref == old(self).container_ref,
            final(self).image_ref == old(self).image_ref,
            final(self).host_port == old(self).host_port,
            final(self).executor == old(self).executor,
            final(self).last_command_id == old(self).last_command_id,
            final(self).last_attempt == old(self).last_attempt,
    {
        self.enrollment_token = Some(token);
        self.enrolled = true;
    }

    /// A heartbeat was accepted: the node is healthy and the enrollment token is spent.
    pub fn on_heartbeat_ok(&mut self)
        requires
            lab_wf(*old(self)),
            old(self).enrolled,
        ensures
            lab_wf(*final(self)),
            final(self).healthy,
            final(self).enrollment_token is None,
            final(self).enrolled,
            final(self).running == old(self).running,
            final(self).node_id == old(self).node_id,
            final(self).cell_id == old(self).cell_id,
            final(self).container_ref == old(self).container_ref,
            final(self).image_ref == old(self).image_ref,
            final(self).host_port == old(self).host_port,
            final(self).executor == old(self).executor,
            final(self).last_command_id == old(self).last_command_id,
            final(self).last_attempt == old(self).last_attempt,
    {
        self.healthy = true;
        self.enrollment_token = None;
    }

    /// An action was queued as `command_id`.
    pub fn on_enqueued(&mut self, command_id: String)
        requires
            lab_wf(*old(self)),
        ensures
            lab_wf(*final(self)),
            final(self).last_command_id == Some(command_id),
            final(self).last_attempt == old(self).last_attempt,
            final(self).enrolled == old(self).enrolled,
            final(self).healthy == old(self).healthy,
            final(self).enrollment_token == old(self).enrollment_token,
            final(self).running == old(self).running,
            final(self).node_id == old(self).node_id,
            final(self).cell_id == old(self).cell_id,
            final(self).container_ref == old(self).container_ref,
            final(self).image_ref == old(self).image_ref,
            final(self).host_port == old(self).host_port,
            final(self).executor == old(self).executor,
    {
        self.last_command_id = Some(command_id);
    }

    /// The action `command_id` was claimed for attempt `attempt`.
    pub fn on_claimed(&mut self, command_id: String, attempt: i64)
        requires
            lab_wf(*old(self)),
        ensures
            lab_wf(*final(self)),
            final(self).last_command_id == Some(command_id),
            final(self).last_attempt == attempt,
            final(self).enrolled == old(self).enrolled,
            final(self).healthy == old(self).healthy,
            final(self).enrollment_token == old(self).enrollment_token,
            final(self).running == old(self).running,
            final(self).node_id == old(self).node_id,
            final(self).cell_id == old(self).cell_id,
            final(self).container_ref == old(self).container_ref,
            final(self).image_ref == old(self).image_ref,
            final(self).host_port == old(self).host_port,
            final(self).executor == old(self).executor,
    {
        self.last_command_id = Some(command_id);
        self.last_attempt = attempt;
    }

    /// The stub executor runs a claimed action of `action_kind` with `payload` (see
    /// [`stub_effect`]); a failure leaves the state as it was.
    pub fn stub_mutate_running(&mut self, action_kind: &str, payload: &JsonValue) -> (r: Result<
        (),
        String,
    >)
        requires
            lab_wf(*old(self)),
        ensures
            lab_wf(*final(self)),
            same_but_running(*old(self), *final(self)),
            match (r, stub_effect(running_set(*old(self)), old(self).container_ref@, action_kind@, *payload)) {
                (Ok(()), Ok(set)) => running_set(*final(self)) == set,
                (Err(m), Err(t)) => m@ == t && final(self).running == old(self).running,
                _ => false,
            },
    {
        let target = match container_ref_from_payload(payload) {
            Some(c) => c,
            None => self.container_ref.clone(),
        };
        if str_equal(action_kind, NODE_ACTION_KIND_DEPLOY_HANDOFF) {
            self.mark_running(target.as_str());
            Ok(())
        } else if str_equal(action_kind, NODE_ACTION_KIND_TEARDOWN_HANDOFF) {
            self.mark_gone(target.as_str());
            Ok(())
        } else {
            let mut m = String::new();
            push_str(&mut m, "stub executor does not handle action_kind ");
            push_str(&mut m, action_kind);
            assert(m@ =~= unhandled_kind_text(action_kind@));
            Err(m)
        }
    }
}

/// The summary of a failed report: its own, or `unknown`.
pub open spec fn summary_text(summary: Option<Seq<char>>) -> Seq<char> {
    match summary {
        Some(s) => s,
        None => "unknown"@,
    }
}

fn summary_string(summary: Option<&str>) -> (r: String)
    ensures
        r@ == summary_text(
            match summary {
                Some(s) => Some(s@),
                None => None,
            },
        ),
{
    match summary {
        Some(s) => s.to_owned(),
        None => "unknown".to_owned(),
    }
}

/// Message of a Docker CLI action that reported failure.
pub fn docker_failure_message(error_summary: Option<&str>) -> (r: String)
    ensures
        r@ == "docker-cli action failed: "@ + summary_text(
            match error_summary {
                Some(s) => Some(s@),
                None => None,
            },
        ),
{
    let s = summary_string(error_summary);
    let mut m = String::new();
    push_str(&mut m, "docker-cli action failed: ");
    push_str(&mut m, s.as_str());
    assert(m@ =~= "docker-cli action failed: "@ + s@);
    m
}

/// Message of a firehose action that reported failure.
pub fn firehose_failure_message(teardown: bool, error_summary: Option<&str>) -> (r: String)
    ensures
        r@ == (if teardown {
            "firehose teardown failed: "@
        } else {
            "firehose deploy failed: "@
        }) + summary_text(
            match error_summary {
                Some(s) => Some(s@),
                None => None,
            },
        ),
{
    let s = summary_string(error_summary);
    let mut m = String::new();
    if teardown {
        push_str(&mut m, "firehose teardown failed: ");
    } else {
        push_str(&mut m, "firehose deploy failed: ");
    }
    push_str(&mut m, s.as_str());
    m
}

/// Operation label of a step in the timings.
pub open spec fn step_op_text(step: ScenarioStep) -> Seq<char> {
    match step {
        ScenarioStep::EnrollAgent => "enroll"@,
        ScenarioStep::HeartbeatUntilHealthy => "heartbeat"@,
        ScenarioStep::PrePullImage => "pre_pull"@,
        ScenarioStep::EnqueueDeploy => "enqueue_deploy"@,
        ScenarioStep::ClaimAndAck => "schedule_claim"@,
        ScenarioStep::ClaimAndExecute => "claim_execute"@,
        ScenarioStep::AssertContainerRunning => "assert_running"@,
        ScenarioStep::EnqueueTeardown => "enqueue_teardown"@,
        ScenarioStep::AssertContainerGone => "assert_gone"@,
        ScenarioStep::FirehoseDeploy { .. } => "firehose_deploy"@,
        ScenarioStep::FirehoseTeardown { .. } => "firehose_teardown"@,
        ScenarioStep::ExtendLease => "extendlease"@,
        ScenarioStep::CancelAction => "cancelaction"@,
        ScenarioStep::ApplyReEnroll => "applyreenroll"@,
        ScenarioStep::ApplyRevoke => "applyrevoke"@,
    }
}

/// Operation label of a step (the lowercased variant name for steps without their own).
pub fn step_op(step: &ScenarioStep) -> (r: &'static str)
    ensures
        r@ == step_op_text(*step),
{
    match step {
        ScenarioStep::EnrollAgent => "enroll",
        ScenarioStep::HeartbeatUntilHealthy => "heartbeat",
        ScenarioStep::PrePullImage => "pre_pull",
        ScenarioStep::EnqueueDeploy => "enqueue_deploy",
        ScenarioStep::ClaimAndAck => "schedule_claim",
        ScenarioStep::ClaimAndExecute => "claim_execute",
        ScenarioStep::AssertContainerRunning => "assert_running",
        ScenarioStep::EnqueueTeardown => "enqueue_teardown",
        ScenarioStep::AssertContainerGone => "assert_gone",
        ScenarioStep::FirehoseDeploy { .. } => "firehose_deploy",
        ScenarioStep::FirehoseTeardown { .. } => "firehose_teardown",
        ScenarioStep::ExtendLease => "extendlease",
        ScenarioStep::CancelAction => "cancelaction",
        ScenarioStep::ApplyReEnroll => "applyreenroll",
        ScenarioStep::ApplyRevoke => "applyrevoke",
    }
}

/// A failure that stops even a benchmark run.
pub open spec fn hard_error(msg: Seq<char>) -> bool {
    contains_seq(msg, "not implemented"@) || contains_seq(msg, "requires"@) || contains_seq(
        msg,
        "docker-cli"@,
    )
}

/// Whether a step failure is hard (see [`hard_error`]).
pub fn is_hard_error(msg: &str) -> (r: bool)
    ensures
        r == hard_error(msg@),
{
    contains_str(msg, "not implemented") || contains_str(msg, "requires") || contains_str(
        msg,
        "docker-cli",
    )
}

/// Whether a failed step ends the run: always in correctness mode and on Docker CLI rows
/// (a skipped deploy there would leave empty statistics), else only for a hard failure.
pub fn should_abort(mode: RunMode, executor: Executor, msg: &str) -> (r: bool)
    ensures
        r == (mode == RunMode::Correctness || executor == Executor::DockerCli || hard_error(msg@)),
{
    match mode {
        RunMode::Correctness => true,
        RunMode::Benchmark => match executor {
            Executor::DockerCli => true,
            Executor::Stub => is_hard_error(msg),
        },
    }
}

/// How many timing samples a finished step records: one per item for a firehose, else one.
pub open spec fn step_samples(step: ScenarioStep) -> nat {
    match step {
        ScenarioStep::FirehoseDeploy { n, .. } => n as nat,
        ScenarioStep::FirehoseTeardown { n, .. } => n as nat,
        _ => 1,
    }
}

/// The timing record of a finished step: its index, its operation label and how many samples
/// it measured (the durations themselves are measured by the driver).
#[derive(Debug)]
pub struct StepRecord {
    pub step_index: usize,
    pub op: String,
    pub sample_count: u32,
}

/// What a scenario run ends with: the records of the steps that finished, in order, and the
/// failure that stopped the run, if one did.
#[derive(Debug)]
pub struct RunOutcome {
    pub records: Vec<StepRecord>,
    pub error: Option<String>,
}

/// The records as (index, operation label, sample count).
pub open spec fn records_view(v: Seq<StepRecord>) -> Seq<(nat, Seq<char>, nat)> {
    v.map_values(|r: StepRecord| (r.step_index as nat, r.op@, r.sample_count as nat))
}

/// A step outcome that stops the run in `mode` on `executor` (see [`should_abort`]).
pub open spec fn stops_run(mode: RunMode, executor: Executor, outcome: Result<(), String>) -> bool {
    outcome matches Err(m) && (mode == RunMode::Correctness || executor == Executor::DockerCli
        || hard_error(m@))
}

/// The run of `steps` whose steps had `outcomes`, in order: each step that succeeded adds its
/// record; a failure that stops the run ends it with that failure's message, and no later step
/// runs; a failure that does not stop the run adds no record.
pub open spec fn run_summary(
    mode: RunMode,
    executor: Executor,
    steps: Seq<ScenarioStep>,
    outcomes: Seq<Result<(), String>>,
) -> (Seq<(nat, Seq<char>, nat)>, Option<Seq<char>>)
    decreases outcomes.len(),
{
    if outcomes.len() == 0 {
        (seq![], None)
    } else {
        let (records, error) = run_summary(mode, executor, steps, outcomes.drop_last());
        let i = outcomes.len() - 1;
        if error is Some {
            (records, error)
        } else {
            match outcomes.last() {
                Ok(()) => (records.push((i as nat, step_op_text(steps[i]), step_samples(steps[i]))), None),
                Err(m) => if stops_run(mode, executor, outcomes.last()) {
                    (records, Some(m@))
                } else {
                    (records, None)
                },
            }
        }
    }
}

/// Once a step has stopped the run, the outcomes of later steps change nothing.
pub proof fn lemma_later_steps_do_not_run(
    mode: RunMode,
    executor: Executor,
    steps: Seq<ScenarioStep>,
    outcomes: Seq<Result<(), String>>,
    k: int,
)
    requires
        0 <= k < outcomes.len(),
        stops_run(mode, executor, outcomes[k]),
        run_summary(mode, executor, steps, outcomes.subrange(0, k)).1 is None,
    ensures
        run_summary(mode, executor, steps, outcomes) == run_summary(
            mode,
            executor,
            steps,
            outcomes.subrange(0, k + 1),
        ),
        run_summary(mode, executor, steps, outcomes).1 == Some(outcomes[k]->Err_0@),
    decreases outcomes.len() - k,
{
    let pre = outcomes.subrange(0, k + 1);
    assert(pre.drop_last() =~= outcomes.subrange(0, k));
    if k + 1 < outcomes.len() {
        lemma_error_sticks(mode, executor, steps, outcomes, k + 1);
    } else {
        assert(pre =~= outcomes);
    }
}

proof fn lemma_error_sticks(
    mode: RunMode,
    executor: Executor,
    steps: Seq<ScenarioStep>,
    outcomes: Seq<Result<(), String>>,
    k: int,
)
    requires
        0 <= k <= outcomes.len(),
        run_summary(mode, executor, steps, outcomes.subrange(0, k)).1 is Some,
    ensures
        run_summary(mode, executor, steps, outcomes) == run_summary(
            mode,
            executor,
            steps,
            outcomes.subrange(0, k),
        ),
    decreases outcomes.len() - k,
{
    if k < outcomes.len() {
        let post = outcomes.subrange(0, k + 1);
        assert(post.drop_last() =~= outcomes.subrange(0, k));
        lemma_error_sticks(mode, executor, steps, outcomes, k + 1);
    } else {
        assert(outcomes.subrange(0, k) =~= outcomes);
    }
}

/// What a run of `steps` ends with when its steps had `outcomes` (see [`run_summary`]).
pub fn summarize_run(
    mode: RunMode,
    executor: Executor,
    steps: &Vec<ScenarioStep>,
    outcomes: &Vec<Result<(), String>>,
) -> (r: RunOutcome)
    requires
        outcomes@.len() <= steps@.len(),
    ensures
        (records_view(r.records@), match r.error {
            Some(m) => Some(m@),
            None => None,
        }) == run_summary(mode, executor, steps@, outcomes@),
{
    let mut records: Vec<StepRecord> = Vec::new();
    let mut error: Option<String> = None;
    let mut i: usize = 0;
    while i < outcomes.len()
        invariant
            i <= outcomes@.len() <= steps@.len(),
            (records_view(records@), match error {
                Some(m) => Some(m@),
                None => None,
            }) == run_summary(mode, executor, steps@, outcomes@.subrange(0, i as int)),
        decreases outcomes@.len() - i,
    {
        let ghost pre = outcomes@.subrange(0, i as int);
        let ghost post = outcomes@.subrange(0, i + 1);
        assert(post.drop_last() =~= pre);
        assert(post.last() == outcomes@[i as int]);
        if error.is_none() {
            match &outcomes[i] {
                Ok(()) => {
                    let step = &steps[i];
                    let sample_count: u32 = match step {
                        ScenarioStep::FirehoseDeploy { n, .. } => *n,
                        ScenarioStep::FirehoseTeardown { n, .. } => *n,
                        _ => 1,
                    };
                    let ghost before = records_view(records@);
                    records.push(StepRecord { step_index: i, op: step_op(step).to_owned(), sample_count });
                    assert(records_view(records@) =~= before.push(
                        (i as nat, step_op_text(steps@[i as int]), step_samples(steps@[i as int])),
                    ));
                },
                Err(m) => {
                    if should_abort(mode, executor, m.as_str()) {
                        error = Some(m.clone());
                    }
                },
            }
        }
        i = i + 1;
    }
    assert(outcomes@.subrange(0, outcomes@.len() as int) =~= outcomes@);
    RunOutcome { records, error }
}

/// In a stub run, executing the deploy the lab queued records the main container as
/// running, so the running assertion that follows passes; executing the teardown it queued
/// forgets it, so the gone assertion passes.
pub proof fn lemma_stub_round_trip(lab: LabState, step: ScenarioStep, planned: Result<StepAction, String>)
    requires
        lab_wf(lab),
        lab.executor == Executor::Stub,
        step == ScenarioStep::EnqueueDeploy || step == ScenarioStep::EnqueueTeardown,
        lab.healthy,
        step_plan_ok(lab, step, planned),
    ensures
        match planned {
            Ok(StepAction::EnqueueDeploy { payload, .. }) => stub_effect(
                running_set(lab),
                lab.container_ref@,
                NODE_ACTION_KIND_DEPLOY_HANDOFF@,
                payload,
            ) == Ok::<Set<Seq<char>>, Seq<char>>(running_set(lab).insert(lab.container_ref@))
                && running_set(lab).insert(lab.container_ref@).contains(lab.container_ref@),
            Ok(StepAction::EnqueueTeardown { payload, .. }) => stub_effect(
                running_set(lab),
                lab.container_ref@,
                NODE_ACTION_KIND_TEARDOWN_HANDOFF@,
                payload,
            ) == Ok::<Set<Seq<char>>, Seq<char>>(running_set(lab).remove(lab.container_ref@))
                && !running_set(lab).remove(lab.container_ref@).contains(lab.container_ref@),
            _ => false,
        },
{
    reveal_strlit("deploy_handoff");
    reveal_strlit("teardown_handoff");
    assert("deploy_handoff"@.len() == 14 && "teardown_handoff"@.len() == 16);
    match planned {
        Ok(StepAction::EnqueueDeploy { payload, .. }) => {
            lemma_deploy_payload_names_its_container(
                payload,
                lab.node_id@,
                lab.container_ref@,
                lab.image_ref@,
                lab.host_port,
                "lab-xfer"@,
            );
        },
        Ok(StepAction::EnqueueTeardown { payload, .. }) => {
            lemma_teardown_payload_names_its_container(payload, lab.node_id@, lab.container_ref@);
        },
        _ => {},
    }
}

/// What one round of the readiness probe of a published port decides.
#[derive(Debug, Clone, Copy, PartialEq, Eq, Structural)]
pub enum ProbeOutcome {
    /// The port accepts connections and answers HTTP.
    Ready,
    /// The deadline passed without an answer.
    TimedOut,
    /// Sleep briefly and probe again.
    Retry,
}

/// One round of the readiness probe: ready when the port accepted a connection and answered
/// HTTP (the HTTP probe runs only after a connection); otherwise time out once the deadline
/// has passed, else retry.
pub fn ready_probe_outcome(tcp_ok: bool, http_ok: bool, past_deadline: bool) -> (r: ProbeOutcome)
    ensures
        r == (if tcp_ok && http_ok {
            ProbeOutcome::Ready
        } else if past_deadline {
            ProbeOutcome::TimedOut
        } else {
            ProbeOutcome::Retry
        }),
{
    if tcp_ok && http_ok {
        ProbeOutcome::Ready
    } else if past_deadline {
        ProbeOutcome::TimedOut
    } else {
        ProbeOutcome::Retry
    }
}

/// Loopback address probed for a published port.
pub open spec fn ready_addr_text(host_port: u16) -> Seq<char> {
    "127.0.0.1:"@ + decimal_seq(host_port as nat)
}

/// The loopback address probed for `host_port`.
pub fn ready_addr(host_port: u16) -> (r: String)
    ensures
        r@ == ready_addr_text(host_port),
{
    let mut s = String::new();
    push_str(&mut s, "127.0.0.1:");
    push_decimal(&mut s, host_port as u64);
    s
}

/// Message of a readiness probe that timed out.
pub fn ready_timeout_message(host_port: u16) -> (r: String)
    ensures
        r@ == "Ready probe timed out for http://"@ + ready_addr_text(host_port) + "/"@,
{
    let addr = ready_addr(host_port);
    let mut s = String::new();
    push_str(&mut s, "Ready probe timed out for http://");
    push_str(&mut s, addr.as_str());
    push_str(&mut s, "/");
    assert(s@ =~= "Ready probe timed out for http://"@ + ready_addr_text(host_port) + "/"@);
    s
}

/// `r` reports claim `claimed` by `node_id` as a success with the given stdout and the
/// payload `{"executor": executor}`.
pub open spec fn success_report_ok(
    r: ReportNodeActionResult,
    claimed: ClaimedNodeAction,
    node_id: Seq<char>,
    stdout: Seq<char>,
    executor: Seq<char>,
) -> bool {
    &&& r.command_id@ == claimed.command_id@
    &&& r.node_id@ == node_id
    &&& r.attempt == claimed.attempt
    &&& r.success
    &&& (r.stdout matches Some(o) && o@ == stdout)
    &&& r.stderr is None
    &&& r.error_summary is None
    &&& (r.payload_json matches Some(p) && member_count(p) == 1 && text_member(p, 0, "executor"@, executor))
}

fn success_report(claimed: &ClaimedNodeAction, node_id: &str, stdout: &str, executor: &str) -> (r:
    ReportNodeActionResult)
    ensures
        success_report_ok(r, *claimed, node_id@, stdout@, executor@),
{
    let mut p: Vec<(String, JsonValue)> = Vec::new();
    p.push(text_pair("executor", executor));
    ReportNodeActionResult {
        command_id: claimed.command_id.clone(),
        node_id: node_id.to_owned(),
        attempt: claimed.attempt,
        success: true,
        stdout: Some(stdout.to_owned()),
        stderr: None,
        error_summary: None,
        payload_json: Some(JsonValue::Object(p)),
    }
}

/// The stub executor's report of a claim it ran.
pub fn stub_report(claimed: &ClaimedNodeAction, node_id: &str) -> (r: ReportNodeActionResult)
    ensures
        success_report_ok(r, *claimed, node_id@, "stub ok"@, "stub"@),
{
    success_report(claimed, node_id, "stub ok", "stub")
}

/// The report of a claim acknowledged without executing it.
pub fn ack_report(claimed: &ClaimedNodeAction, node_id: &str) -> (r: ReportNodeActionResult)
    ensures
        success_report_ok(r, *claimed, node_id@, "ack only"@, "ack"@),
{
    success_report(claimed, node_id, "ack only", "ack")
}

/// What the lab reports in its heartbeat.
#[derive(Debug)]
pub struct LabHeartbeat {
    /// Node id.
    pub node_id: String,
    /// Cell id.
    pub cell_id: String,
    /// Host name: the node id under `.local`.
    pub hostname: String,
    /// CPU architecture label.
    pub arch: String,
    /// Logical CPUs.
    pub cpu_logical: u32,
    /// Memory in bytes.
    pub memory_bytes: u64,
    /// Number of containers running.
    pub running: u64,
    /// Enrollment token, until the first accepted heartbeat.
    pub enrollment_token: Option<String>,
}

impl LabState {
    /// The heartbeat of the lab node: a fixed 4-CPU, 8 GiB `x86_64` host running the
    /// recorded containers.
    pub fn heartbeat_report(&self) -> (r: LabHeartbeat)
        ensures
            r.node_id == self.node_id,
            r.cell_id == self.cell_id,
            r.hostname@ == self.node_id@ + ".local"@,
            r.arch@ == "x86_64"@,
            r.cpu_logical == 4,
            r.memory_bytes == 8589934592,
            r.running == self.running@.len(),
            r.enrollment_token == self.enrollment_token,
    {
        let mut hostname = String::new();
        push_str(&mut hostname, self.node_id.as_str());
        push_str(&mut hostname, ".local");
        LabHeartbeat {
            node_id: self.node_id.clone(),
            cell_id: self.cell_id.clone(),
            hostname,
            arch: "x86_64".to_owned(),
            cpu_logical: 4,
            memory_bytes: 8589934592,
            running: self.running.len() as u64,
            enrollment_token: self.enrollment_token.clone(),
        }
    }
}

/// Once the node is healthy, every step but the two container assertions is planned without
/// error; before it is enrolled, only enrollment, the image pull and the steps without work
/// are.
pub proof fn lemma_plans_after_onboarding(lab: LabState, step: ScenarioStep, r: Result<StepAction, String>)
    requires
        lab_wf(lab),
        step_plan_ok(lab, step, r),
        !(step is AssertContainerRunning || step is AssertContainerGone),
    ensures
        lab.healthy ==> r is Ok,
        !lab.enrolled && r is Ok ==> (step is EnrollAgent || step is PrePullImage || step is ExtendLease
            || step is CancelAction || step is ApplyReEnroll || step is ApplyRevoke),
{
}

/// What a stub run tracks between steps: enrollment, health, the running containers and the
/// main container.
pub struct LabModel {
    pub enrolled: bool,
    pub healthy: bool,
    pub running: Set<Seq<char>>,
    pub main_ref: Seq<char>,
}

/// The model of a lab state.
pub open spec fn lab_model(l: LabState) -> LabModel {
    LabModel {
        enrolled: l.enrolled,
        healthy: l.healthy,
        running: running_set(l),
        main_ref: l.container_ref@,
    }
}

/// The refs of firehose containers `0..n` of the main container `main`.
pub open spec fn firehose_refs(main: Seq<char>, n: u32) -> Set<Seq<char>> {
    Set::new(|x: Seq<char>| exists|i: u32| i < n && x == main + "-"@ + decimal_seq(i as nat))
}

/// The stub executor's effect on the running set of an action of `kind` on `target`.
pub open spec fn stub_set_effect(running: Set<Seq<char>>, kind: Seq<char>, target: Seq<char>) -> Option<
    Set<Seq<char>>,
> {
    if kind == NODE_ACTION_KIND_DEPLOY_HANDOFF@ {
        Some(running.insert(target))
    } else if kind == NODE_ACTION_KIND_TEARDOWN_HANDOFF@ {
        Some(running.remove(target))
    } else {
        None
    }
}

/// One step of a stub run in which every outside call succeeds. The queue `q` holds the kind
/// and target of the action queued and not yet claimed, if any; a claim with nothing queued
/// fails, and a firehose runs with nothing queued. `None` when the step fails.
pub open spec fn stub_step(
    m: LabModel,
    q: Option<(Seq<char>, Seq<char>)>,
    step: ScenarioStep,
) -> Option<(LabModel, Option<(Seq<char>, Seq<char>)>)> {
    match step {
        ScenarioStep::EnrollAgent => Some((LabModel { enrolled: true, ..m }, q)),
        ScenarioStep::HeartbeatUntilHealthy => if m.enrolled {
            Some((LabModel { healthy: true, ..m }, q))
        } else {
            None
        },
        ScenarioStep::EnqueueDeploy => if m.healthy {
            Some((m, Some((NODE_ACTION_KIND_DEPLOY_HANDOFF@, m.main_ref))))
        } else {
            None
        },
        ScenarioStep::EnqueueTeardown => if m.healthy {
            Some((m, Some((NODE_ACTION_KIND_TEARDOWN_HANDOFF@, m.main_ref))))
        } else {
            None
        },
        ScenarioStep::ClaimAndAck => if m.healthy && q is Some {
            Some((m, None))
        } else {
            None
        },
        ScenarioStep::ClaimAndExecute => if !m.healthy {
            None
        } else {
            match q {
                Some((kind, target)) => match stub_set_effect(m.running, kind, target) {
                    Some(set) => Some((LabModel { running: set, ..m }, None)),
                    None => None,
                },
                None => None,
            }
        },
        ScenarioStep::AssertContainerRunning => if m.running.contains(m.main_ref) {
            Some((m, q))
        } else {
            None
        },
        ScenarioStep::AssertContainerGone => if !m.running.contains(m.main_ref) {
            Some((m, q))
        } else {
            None
        },
        ScenarioStep::FirehoseDeploy { n, .. } => if m.healthy && q is None {
            Some((LabModel { running: m.running.union(firehose_refs(m.main_ref, n)), ..m }, q))
        } else {
            None
        },
        ScenarioStep::FirehoseTeardown { n, .. } => if m.healthy && q is None {
            Some((LabModel { running: m.running.difference(firehose_refs(m.main_ref, n)), ..m }, q))
        } else {
            None
        },
        _ => Some((m, q)),
    }
}

/// A stub run of `steps`, step by step; `None` when a step fails.
pub open spec fn stub_run(
    m: LabModel,
    q: Option<(Seq<char>, Seq<char>)>,
    steps: Seq<ScenarioStep>,
) -> Option<(LabModel, Option<(Seq<char>, Seq<char>)>)>
    decreases steps.len(),
{
    if steps.len() == 0 {
        Some((m, q))
    } else {
        match stub_step(m, q, steps[0]) {
            Some((m2, q2)) => stub_run(m2, q2, steps.drop_first()),
            None => None,
        }
    }
}

/// A fresh lab: nothing enrolled, healthy or running.
pub open spec fn fresh_model(main_ref: Seq<char>) -> LabModel {
    LabModel { enrolled: false, healthy: false, running: Set::empty(), main_ref }
}

/// Planning a step in a stub lab fails exactly when the stub run's step fails for a reason
/// the lab state decides (claims also depend on the queue, and firehoses run with nothing
/// queued).
pub proof fn lemma_plan_matches_stub_step(
    lab: LabState,
    q: Option<(Seq<char>, Seq<char>)>,
    step: ScenarioStep,
    r: Result<StepAction, String>,
)
    requires
        lab_wf(lab),
        lab.executor == Executor::Stub,
        step_plan_ok(lab, step, r),
        !(step is ClaimAndAck || step is ClaimAndExecute),
        (step is FirehoseDeploy || step is FirehoseTeardown) ==> q is None,
    ensures
        r is Ok <==> stub_step(lab_model(lab), q, step) is Some,
{
}

/// Executing a claimed lab action with the stub executor changes the running set as the stub
/// run's step does, the target being the container the queued payload names.
pub proof fn lemma_stub_effect_matches(running: Set<Seq<char>>, main_ref: Seq<char>, kind: Seq<char>, payload: JsonValue)
    ensures
        match (stub_effect(running, main_ref, kind, payload), stub_set_effect(
            running,
            kind,
            match payload_container_ref(payload) {
                Some(c) => c,
                None => main_ref,
            },
        )) {
            (Ok(a), Some(b)) => a == b,
            (Err(_), None) => true,
            _ => false,
        },
{
}

/// The action kind of a firehose.
pub open spec fn firehose_kind(teardown: bool) -> Seq<char> {
    if teardown {
        NODE_ACTION_KIND_TEARDOWN_HANDOFF@
    } else {
        NODE_ACTION_KIND_DEPLOY_HANDOFF@
    }
}

/// The stub executor runs the claimed actions of `items` in order, each of `kind` with its
/// queued payload; the first failure stops it.
pub open spec fn stub_effects(
    running: Set<Seq<char>>,
    main_ref: Seq<char>,
    kind: Seq<char>,
    items: Seq<FirehoseItem>,
) -> Result<Set<Seq<char>>, Seq<char>>
    decreases items.len(),
{
    if items.len() == 0 {
        Ok(running)
    } else {
        match stub_effects(running, main_ref, kind, items.drop_last()) {
            Ok(set) => stub_effect(set, main_ref, kind, items.last().payload),
            Err(e) => Err(e),
        }
    }
}

/// The running set after a stub firehose of `n` items over `running`: every firehose
/// container added (deploy) or removed (teardown).
pub open spec fn firehose_running(
    running: Set<Seq<char>>,
    main_ref: Seq<char>,
    n: u32,
    teardown: bool,
) -> Set<Seq<char>> {
    if teardown {
        running.difference(firehose_refs(main_ref, n))
    } else {
        running.union(firehose_refs(main_ref, n))
    }
}

proof fn lemma_firehose_refs_step(main: Seq<char>, k: u32)
    requires
        k < u32::MAX,
    ensures
        firehose_refs(main, (k + 1) as u32) == firehose_refs(main, k).insert(
            main + "-"@ + decimal_seq(k as nat),
        ),
{
    let next = (k + 1) as u32;
    assert forall|x: Seq<char>| #[trigger]
        firehose_refs(main, next).contains(x) <==> firehose_refs(main, k).insert(
            main + "-"@ + decimal_seq(k as nat),
        ).contains(x) by {
        if firehose_refs(main, next).contains(x) {
            let i = choose|i: u32| i < next && x == main + "-"@ + decimal_seq(i as nat);
            if i < k {
                assert(firehose_refs(main, k).contains(x));
            }
        }
        if firehose_refs(main, k).contains(x) {
            let i = choose|i: u32| i < k && x == main + "-"@ + decimal_seq(i as nat);
            assert(i < next);
        }
        if x == main + "-"@ + decimal_seq(k as nat) {
            assert(k < next);
        }
    }
    assert(firehose_refs(main, next) =~= firehose_refs(main, k).insert(
        main + "-"@ + decimal_seq(k as nat),
    ));
}

/// The stub executor running the planned items of a firehose, in order, adds (deploy) or
/// removes (teardown) every firehose container `main-0 .. main-(n-1)` and fails on none;
/// this is the firehose step of the stub run.
pub proof fn lemma_firehose_stub_effect(
    lab: LabState,
    items: Seq<FirehoseItem>,
    n: u32,
    concurrency: u32,
    teardown: bool,
)
    requires
        firehose_items_ok(lab, items, n, teardown),
    ensures
        stub_effects(running_set(lab), lab.container_ref@, firehose_kind(teardown), items) == Ok::<
            Set<Seq<char>>,
            Seq<char>,
        >(firehose_running(running_set(lab), lab.container_ref@, n, teardown)),
        lab.healthy ==> stub_step(
            lab_model(lab),
            None,
            if teardown {
                ScenarioStep::FirehoseTeardown { n, concurrency }
            } else {
                ScenarioStep::FirehoseDeploy { n, concurrency }
            },
        ) == Some::<(LabModel, Option<(Seq<char>, Seq<char>)>)>(
            (
                LabModel {
                    running: firehose_running(running_set(lab), lab.container_ref@, n, teardown),
                    ..lab_model(lab)
                },
                None,
            ),
        ),
{
    lemma_firehose_prefix(lab, items, n, teardown, n);
    assert(items.subrange(0, n as int) =~= items);
}

proof fn lemma_firehose_prefix(lab: LabState, items: Seq<FirehoseItem>, n: u32, teardown: bool, k: u32)
    requires
        firehose_items_ok(lab, items, n, teardown),
        k <= n,
    ensures
        stub_effects(
            running_set(lab),
            lab.container_ref@,
            firehose_kind(teardown),
            items.subrange(0, k as int),
        ) == Ok::<Set<Seq<char>>, Seq<char>>(
            firehose_running(running_set(lab), lab.container_ref@, k, teardown),
        ),
    decreases k,
{
    let main = lab.container_ref@;
    let running = running_set(lab);
    if k == 0 {
        assert(firehose_refs(main, 0) =~= Set::<Seq<char>>::empty());
        assert(running.union(firehose_refs(main, 0)) =~= running);
        assert(running.difference(firehose_refs(main, 0)) =~= running);
    } else {
        let j = (k - 1) as u32;
        lemma_firehose_prefix(lab, items, n, teardown, j);
        let pre = items.subrange(0, k as int);
        assert(pre.drop_last() =~= items.subrange(0, j as int));
        let it = items[j as int];
        assert(firehose_item_ok(lab, it, j, teardown));
        assert(pre.last() == it);
        if teardown {
            lemma_teardown_payload_names_its_container(it.payload, lab.node_id@, it.container_ref@);
        } else {
            lemma_deploy_payload_names_its_container(
                it.payload,
                lab.node_id@,
                it.container_ref@,
                lab.image_ref@,
                firehose_port(j),
                "lab-xfer-"@ + decimal_seq(j as nat),
            );
        }
        lemma_firehose_refs_step(main, j);
        reveal_strlit("deploy_handoff");
        reveal_strlit("teardown_handoff");
        assert("deploy_handoff"@.len() == 14 && "teardown_handoff"@.len() == 16);
        let r = main + "-"@ + decimal_seq(j as nat);
        assert(it.container_ref@ == r);
        if teardown {
            assert(running.difference(firehose_refs(main, j)).remove(r) =~= running.difference(
                firehose_refs(main, k),
            ));
        } else {
            assert(running.union(firehose_refs(main, j)).insert(r) =~= running.union(
                firehose_refs(main, k),
            ));
        }
    }
}

/// On the stub executor, with every outside call succeeding, each smoke scenario runs to the
/// end from a fresh lab: deploying leaves the main container running, and tearing it down
/// leaves nothing running.
pub proof fn lemma_stub_scenarios_complete(main_ref: Seq<char>)
    ensures
        stub_run(fresh_model(main_ref), None, crate::scenario::onboarding() + seq![
            ScenarioStep::EnqueueDeploy,
            ScenarioStep::ClaimAndExecute,
            ScenarioStep::AssertContainerRunning,
        ]) matches Some((m, q)) && q is None && m.running == set![main_ref],
        stub_run(fresh_model(main_ref), None, crate::scenario::onboarding() + seq![
            ScenarioStep::EnqueueDeploy,
            ScenarioStep::ClaimAndExecute,
            ScenarioStep::AssertContainerRunning,
            ScenarioStep::EnqueueTeardown,
            ScenarioStep::ClaimAndExecute,
            ScenarioStep::AssertContainerGone,
        ]) matches Some((m, q)) && q is None && m.running == Set::<Seq<char>>::empty(),
        stub_run(fresh_model(main_ref), None, crate::scenario::onboarding() + seq![
            ScenarioStep::EnqueueDeploy,
            ScenarioStep::ClaimAndAck,
        ]) is Some,
        stub_run(fresh_model(main_ref), None, crate::scenario::onboarding()) is Some,
{
    reveal_strlit("deploy_handoff");
    reveal_strlit("teardown_handoff");
    assert("deploy_handoff"@.len() == 14 && "teardown_handoff"@.len() == 16);
    let f = fresh_model(main_ref);
    let m1 = LabModel { enrolled: true, ..f };
    let m2 = LabModel { healthy: true, ..m1 };
    let dq = Some((NODE_ACTION_KIND_DEPLOY_HANDOFF@, main_ref));
    let tq = Some((NODE_ACTION_KIND_TEARDOWN_HANDOFF@, main_ref));
    let m3 = LabModel { running: f.running.insert(main_ref), ..m2 };
    let m4 = LabModel { running: m3.running.remove(main_ref), ..m2 };
    assert(m3.running =~= set![main_ref]);
    assert(m4.running =~= Set::<Seq<char>>::empty());
    let tail_gone = seq![
        ScenarioStep::AssertContainerGone,
    ];
    let s6 = seq![ScenarioStep::ClaimAndExecute, ScenarioStep::AssertContainerGone];
    let s5 = seq![ScenarioStep::EnqueueTeardown, ScenarioStep::ClaimAndExecute, ScenarioStep::AssertContainerGone];
    let s4 = seq![
        ScenarioStep::AssertContainerRunning,
        ScenarioStep::EnqueueTeardown,
        ScenarioStep::ClaimAndExecute,
        ScenarioStep::AssertContainerGone,
    ];
    assert(stub_run(m4, None, tail_gone) == stub_run(m4, None, tail_gone.drop_first()));
    assert(tail_gone.drop_first() =~= Seq::<ScenarioStep>::empty());
    assert(s6.drop_first() =~= tail_gone);
    assert(stub_run(m3, tq, s6) == stub_run(m4, None, tail_gone));
    assert(s5.drop_first() =~= s6);
    assert(stub_run(m3, None, s5) == stub_run(m3, tq, s6));
    assert(s4.drop_first() =~= s5);
    assert(stub_run(m3, None, s4) == stub_run(m3, None, s5));
    let full = crate::scenario::onboarding() + seq![
        ScenarioStep::EnqueueDeploy,
        ScenarioStep::ClaimAndExecute,
        ScenarioStep::AssertContainerRunning,
        ScenarioStep::EnqueueTeardown,
        ScenarioStep::ClaimAndExecute,
        ScenarioStep::AssertContainerGone,
    ];
    let s3 = seq![ScenarioStep::ClaimAndExecute] + s4;
    let s2 = seq![ScenarioStep::EnqueueDeploy] + s3;
    let s1 = seq![ScenarioStep::HeartbeatUntilHealthy] + s2;
    assert(s3.drop_first() =~= s4);
    assert(s3[0] == ScenarioStep::ClaimAndExecute);
    assert(stub_run(m2, dq, s3) == stub_run(m3, None, s4));
    assert(s2.drop_first() =~= s3);
    assert(s2[0] == ScenarioStep::EnqueueDeploy);
    assert(stub_run(m2, None, s2) == stub_run(m2, dq, s3));
    assert(s1.drop_first() =~= s2);
    assert(s1[0] == ScenarioStep::HeartbeatUntilHealthy);
    assert(stub_run(m1, None, s1) == stub_run(m2, None, s2));
    assert(full.drop_first() =~= s1);
    assert(full[0] == ScenarioStep::EnrollAgent);
    assert(stub_run(f, None, full) == stub_run(m1, None, s1));

    let smoke = crate::scenario::onboarding() + seq![
        ScenarioStep::EnqueueDeploy,
        ScenarioStep::ClaimAndExecute,
        ScenarioStep::AssertContainerRunning,
    ];
    let t3 = seq![ScenarioStep::ClaimAndExecute, ScenarioStep::AssertContainerRunning];
    let t2 = seq![ScenarioStep::EnqueueDeploy] + t3;
    let t1 = seq![ScenarioStep::HeartbeatUntilHealthy] + t2;
    let t4 = seq![ScenarioStep::AssertContainerRunning];
    assert(t4.drop_first() =~= Seq::<ScenarioStep>::empty());
    assert(t4[0] == ScenarioStep::AssertContainerRunning);
    assert(m3.running.contains(m3.main_ref));
    assert(stub_run(m3, None, t4) == stub_run(m3, None, t4.drop_first()));
    assert(stub_run(m3, None, t4) == Some::<(LabModel, Option<(Seq<char>, Seq<char>)>)>((m3, None)));
    assert(t3.drop_first() =~= t4);
    assert(stub_run(m2, dq, t3) == stub_run(m3, None, t4));
    assert(t2.drop_first() =~= t3);
    assert(t2[0] == ScenarioStep::EnqueueDeploy);
    assert(stub_run(m2, None, t2) == stub_run(m2, dq, t3));
    assert(t1.drop_first() =~= t2);
    assert(t1[0] == ScenarioStep::HeartbeatUntilHealthy);
    assert(stub_run(m1, None, t1) == stub_run(m2, None, t2));
    assert(smoke.drop_first() =~= t1);
    assert(smoke[0] == ScenarioStep::EnrollAgent);
    assert(stub_run(f, None, smoke) == stub_run(m1, None, t1));

    let sched = crate::scenario::onboarding() + seq![ScenarioStep::EnqueueDeploy, ScenarioStep::ClaimAndAck];
    let u3 = seq![ScenarioStep::ClaimAndAck];
    let u2 = seq![ScenarioStep::EnqueueDeploy, ScenarioStep::ClaimAndAck];
    let u1 = seq![ScenarioStep::HeartbeatUntilHealthy] + u2;
    assert(u3.drop_first() =~= Seq::<ScenarioStep>::empty());
    assert(stub_run(m2, dq, u3) == Some::<(LabModel, Option<(Seq<char>, Seq<char>)>)>((m2, None)));
    assert(u2.drop_first() =~= u3);
    assert(stub_run(m2, None, u2) == stub_run(m2, dq, u3));
    assert(u1.drop_first() =~= u2);
    assert(u1[0] == ScenarioStep::HeartbeatUntilHealthy);
    assert(stub_run(m1, None, u1) == stub_run(m2, None, u2));
    assert(sched.drop_first() =~= u1);
    assert(sched[0] == ScenarioStep::EnrollAgent);
    assert(stub_run(f, None, sched) == stub_run(m1, None, u1));

    let on = crate::scenario::onboarding();
    let v1 = seq![ScenarioStep::HeartbeatUntilHealthy];
    assert(v1.drop_first() =~= Seq::<ScenarioStep>::empty());
    assert(stub_run(m1, None, v1) == Some::<(LabModel, Option<(Seq<char>, Seq<char>)>)>((m2, None)));
    assert(on.drop_first() =~= v1);
    assert(stub_run(f, None, on) == stub_run(m1, None, v1));
}

} // verus!
