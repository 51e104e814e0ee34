//! Product telemetry of the control plane: which counter each lifecycle step increments and
//! which structured event it logs.
//!
//! Every function here computes the record to emit; handing it to a sink is the caller's
//! business. An event message longer than [`MAX_MESSAGE_LEN`] UTF-8 bytes keeps its first
//! `MAX_MESSAGE_LEN - 1` bytes and gains a trailing `…`; cutting a cut message again changes
//! nothing.
use vstd::prelude::*;
use vstd::string::StringSliceAdditionalSpecFns;
use vstd::utf8::{encode_utf8, is_char_boundary};

use crate::json::{int_pair, json_as_str, json_int, member_count, text_member, int_member, text_pair, JsonValue};
use crate::text::{push_char, push_str};

verus! {

/// Byte cap on an event message.
pub const MAX_MESSAGE_LEN: usize = 512;

/// The character that marks a cut message.
pub const ELLIPSIS: char = '\u{2026}';

/// `r` is the message `m` as an event carries it: unchanged when it fits in
/// [`MAX_MESSAGE_LEN`] bytes, else its first `MAX_MESSAGE_LEN - 1` bytes followed by `…`.
pub open spec fn truncated_ok(m: Seq<char>, r: Seq<char>) -> bool {
    if encode_utf8(m).len() <= MAX_MESSAGE_LEN {
        r == m
    } else {
        &&& r.len() > 0
        &&& r.last() == ELLIPSIS
        &&& encode_utf8(r.drop_last()) == encode_utf8(m).subrange(0, MAX_MESSAGE_LEN - 1)
    }
}

/// A message that can be cut: it fits, or the cut falls on a character boundary (its
/// byte length is a machine length, as that of every string in memory is).
pub open spec fn truncatable(m: Seq<char>) -> bool {
    &&& encode_utf8(m).len() <= usize::MAX
    &&& encode_utf8(m).len() > MAX_MESSAGE_LEN ==> is_char_boundary(
        encode_utf8(m),
        MAX_MESSAGE_LEN - 1,
    )
}

/// Caps `message` at [`MAX_MESSAGE_LEN`] bytes (see [`truncated_ok`]).
pub fn truncate_message(message: &str) -> (r: String)
    requires
        truncatable(message@),
    ensures
        truncated_ok(message@, r@),
{
    let mut s = String::new();
    if message.len() <= MAX_MESSAGE_LEN {
        push_str(&mut s, message);
        assert(s@ =~= message@);
    } else {
        let (head, _tail) = message.split_at(MAX_MESSAGE_LEN - 1);
        push_str(&mut s, head);
        push_char(&mut s, ELLIPSIS);
        assert(s@.drop_last() =~= head@);
        assert(encode_utf8(head@) =~= encode_utf8(message@).subrange(0, MAX_MESSAGE_LEN - 1));
    }
    s
}

/// Member `i` of object `v` is `message`, holding `msg` capped as [`truncated_ok`] says.
pub open spec fn message_member(v: JsonValue, i: int, msg: Seq<char>) -> bool {
    match v {
        JsonValue::Object(m) => 0 <= i < m@.len() && m@[i].0@ == "message"@ && match m@[i].1 {
            JsonValue::String(s) => truncated_ok(msg, s@),
            _ => false,
        },
        _ => false,
    }
}

fn message_pair(message: &str) -> (r: (String, JsonValue))
    requires
        truncatable(message@),
    ensures
        r.0@ == "message"@,
        match r.1 {
            JsonValue::String(s) => truncated_ok(message@, s@),
            _ => false,
        },
{
    ("message".to_owned(), JsonValue::String(truncate_message(message)))
}

/// Fields of a heartbeat event.
pub open spec fn heartbeat_fields_ok(
    v: JsonValue,
    node_id: Seq<char>,
    cell_id: Seq<char>,
    state: Seq<char>,
    message: Seq<char>,
) -> bool {
    &&& member_count(v) == 4
    &&& text_member(v, 0, "node_id"@, node_id)
    &&& text_member(v, 1, "cell_id"@, cell_id)
    &&& text_member(v, 2, "state"@, state)
    &&& message_member(v, 3, message)
}

/// Event fields for a heartbeat ingest or publish problem.
pub fn heartbeat_log_fields(node_id: &str, cell_id: &str, state: &str, message: &str) -> (r:
    JsonValue)
    requires
        truncatable(message@),
    ensures
        heartbeat_fields_ok(r, node_id@, cell_id@, state@, message@),
{
    let mut m: Vec<(String, JsonValue)> = Vec::new();
    m.push(text_pair("node_id", node_id));
    m.push(text_pair("cell_id", cell_id));
    m.push(text_pair("state", state));
    m.push(message_pair(message));
    JsonValue::Object(m)
}

/// Fields of a node-action event.
pub open spec fn node_action_fields_ok(
    v: JsonValue,
    command_id: Seq<char>,
    node_id: Seq<char>,
    action_kind: Seq<char>,
    correlation_key: Seq<char>,
    sequence: i64,
    attempt: i64,
    outcome: Seq<char>,
    message: Seq<char>,
) -> bool {
    &&& member_count(v) == 8
    &&& text_member(v, 0, "command_id"@, command_id)
    &&& text_member(v, 1, "node_id"@, node_id)
    &&& text_member(v, 2, "action_kind"@, action_kind)
    &&& text_member(v, 3, "correlation_key"@, correlation_key)
    &&& int_member(v, 4, "sequence"@, sequence)
    &&& int_member(v, 5, "attempt"@, attempt)
    &&& text_member(v, 6, "outcome"@, outcome)
    &&& message_member(v, 7, message)
}

/// Event fields for one node-action queue step; they mirror the queue row.
pub fn node_action_log_fields(
    command_id: &str,
    node_id: &str,
    action_kind: &str,
    correlation_key: &str,
    sequence: i64,
    attempt: i64,
    outcome: &str,
    message: &str,
) -> (r: JsonValue)
    requires
        truncatable(message@),
    ensures
        node_action_fields_ok(
            r,
            command_id@,
            node_id@,
            action_kind@,
            correlation_key@,
            sequence,
            attempt,
            outcome@,
            message@,
        ),
{
    let mut m: Vec<(String, JsonValue)> = Vec::new();
    m.push(text_pair("command_id", command_id));
    m.push(text_pair("node_id", node_id));
    m.push(text_pair("action_kind", action_kind));
    m.push(text_pair("correlation_key", correlation_key));
    m.push(int_pair("sequence", sequence));
    m.push(int_pair("attempt", attempt));
    m.push(text_pair("outcome", outcome));
    m.push(message_pair(message));
    JsonValue::Object(m)
}

/// Fields of a handoff-directive event.
pub open spec fn handoff_fields_ok(
    v: JsonValue,
    directive_id: Seq<char>,
    node_id: Seq<char>,
    phase: Seq<char>,
    reason: Seq<char>,
    message: Seq<char>,
) -> bool {
    &&& member_count(v) == 5
    &&& text_member(v, 0, "directive_id"@, directive_id)
    &&& text_member(v, 1, "node_id"@, node_id)
    &&& text_member(v, 2, "phase"@, phase)
    &&& text_member(v, 3, "reason"@, reason)
    &&& message_member(v, 4, message)
}

/// Event fields for one handoff-directive phase.
pub fn handoff_log_fields(
    directive_id: &str,
    node_id: &str,
    phase: &str,
    reason: &str,
    message: &str,
) -> (r: JsonValue)
    requires
        truncatable(message@),
    ensures
        handoff_fields_ok(r, directive_id@, node_id@, phase@, reason@, message@),
{
    let mut m: Vec<(String, JsonValue)> = Vec::new();
    m.push(text_pair("directive_id", directive_id));
    m.push(text_pair("node_id", node_id));
    m.push(text_pair("phase", phase));
    m.push(text_pair("reason", reason));
    m.push(message_pair(message));
    JsonValue::Object(m)
}

/// Fields of a migration event.
pub open spec fn migration_fields_ok(
    v: JsonValue,
    operation: Seq<char>,
    from_table: Seq<char>,
    to_table: Seq<char>,
    rows_copied: i64,
    outcome: Seq<char>,
    message: Seq<char>,
) -> bool {
    &&& member_count(v) == 6
    &&& text_member(v, 0, "operation"@, operation)
    &&& text_member(v, 1, "from_table"@, from_table)
    &&& text_member(v, 2, "to_table"@, to_table)
    &&& int_member(v, 3, "rows_copied"@, rows_copied)
    &&& text_member(v, 4, "outcome"@, outcome)
    &&& message_member(v, 5, message)
}

/// Event fields for one table of the control-plane table migration.
pub fn migration_log_fields(
    operation: &str,
    from_table: &str,
    to_table: &str,
    rows_copied: i64,
    outcome: &str,
    message: &str,
) -> (r: JsonValue)
    requires
        truncatable(message@),
    ensures
        migration_fields_ok(r, operation@, from_table@, to_table@, rows_copied, outcome@, message@),
{
    let mut m: Vec<(String, JsonValue)> = Vec::new();
    m.push(text_pair("operation", operation));
    m.push(text_pair("from_table", from_table));
    m.push(text_pair("to_table", to_table));
    m.push(int_pair("rows_copied", rows_copied));
    m.push(text_pair("outcome", outcome));
    m.push(message_pair(message));
    JsonValue::Object(m)
}

/// Fields of a server boot event.
pub open spec fn boot_fields_ok(v: JsonValue, step: Seq<char>, message: Seq<char>) -> bool {
    &&& member_count(v) == 2
    &&& text_member(v, 0, "step"@, step)
    &&& message_member(v, 1, message)
}

/// Event fields for one server bootstrap step.
pub fn server_boot_log_fields(step: &str, message: &str) -> (r: JsonValue)
    requires
        truncatable(message@),
    ensures
        boot_fields_ok(r, step@, message@),
{
    let mut m: Vec<(String, JsonValue)> = Vec::new();
    m.push(text_pair("step", step));
    m.push(message_pair(message));
    JsonValue::Object(m)
}

/// One structured event: its topic and its fields.
#[derive(Debug)]
pub struct EventRecord {
    pub topic: String,
    pub fields: JsonValue,
}

/// What one telemetry call emits: a counter increment, and the event it logs, if any.
#[derive(Debug)]
pub struct Emission {
    /// Counter name.
    pub counter: String,
    /// Counter labels, in order.
    pub labels: Vec<(String, String)>,
    /// Increment of the counter.
    pub increment: u64,
    /// The event logged alongside, if any.
    pub event: Option<EventRecord>,
}

/// Views of a list of label pairs.
pub open spec fn pairs_view(v: Seq<(String, String)>) -> Seq<(Seq<char>, Seq<char>)> {
    v.map_values(|p: (String, String)| (p.0@, p.1@))
}

/// `e` increments the counter `name` by one, with the labels `labels`.
pub open spec fn counts(e: Emission, name: Seq<char>, labels: Seq<(Seq<char>, Seq<char>)>) -> bool {
    &&& e.counter@ == name
    &&& e.increment == 1
    &&& pairs_view(e.labels@) == labels
}

/// The topic of the event `e` logs, if it logs one.
pub open spec fn event_topic(e: Emission) -> Option<Seq<char>> {
    match e.event {
        Some(ev) => Some(ev.topic@),
        None => None,
    }
}

/// The fields of the event `e` logs (meaningful when it logs one).
pub open spec fn event_fields(e: Emission) -> JsonValue {
    match e.event {
        Some(ev) => ev.fields,
        None => JsonValue::Null,
    }
}

fn one_label(k: &str, v: &str) -> (r: Vec<(String, String)>)
    ensures
        pairs_view(r@) == seq![(k@, v@)],
{
    let mut r: Vec<(String, String)> = Vec::new();
    r.push((k.to_owned(), v.to_owned()));
    assert(pairs_view(r@) =~= seq![(k@, v@)]);
    r
}

fn two_labels(k1: &str, v1: &str, k2: &str, v2: &str) -> (r: Vec<(String, String)>)
    ensures
        pairs_view(r@) == seq![(k1@, v1@), (k2@, v2@)],
{
    let mut r: Vec<(String, String)> = Vec::new();
    r.push((k1.to_owned(), v1.to_owned()));
    r.push((k2.to_owned(), v2.to_owned()));
    assert(pairs_view(r@) =~= seq![(k1@, v1@), (k2@, v2@)]);
    r
}

fn event(topic: &str, fields: JsonValue) -> (r: Option<EventRecord>)
    ensures
        r matches Some(ev) && ev.topic@ == topic@ && ev.fields == fields,
{
    Some(EventRecord { topic: topic.to_owned(), fields })
}

proof fn lemma_ascii_fits(m: Seq<char>)
    requires
        vstd::utf8::is_ascii_chars(m),
        m.len() <= MAX_MESSAGE_LEN,
    ensures
        truncatable(m),
        truncated_ok(m, m),
{
    vstd::utf8::is_ascii_chars_encode_utf8(m);
}

/// A server bootstrap step: counts every outcome; logs an event unless the outcome is `ok`.
pub open spec fn boot_step_ok(e: Emission, step: Seq<char>, outcome: Seq<char>, message: Seq<char>) -> bool {
    &&& counts(e, "pion_server_boot_steps"@, seq![("step"@, step), ("outcome"@, outcome)])
    &&& (e.event is None <==> outcome == "ok"@)
    &&& e.event is Some ==> event_topic(e) == Some("pion_server_boot_log"@) && boot_fields_ok(
        event_fields(e),
        step,
        message,
    )
}

/// Records the outcome of one server bootstrap step.
pub fn log_boot_step(step: &str, outcome: &str, message: &str) -> (r: Emission)
    requires
        outcome@ != "ok"@ ==> truncatable(message@),
    ensures
        boot_step_ok(r, step@, outcome@, message@),
{
    let labels = two_labels("step", step, "outcome", outcome);
    let ev = if crate::text::str_equal(outcome, "ok") {
        None
    } else {
        event("pion_server_boot_log", server_boot_log_fields(step, message))
    };
    Emission { counter: "pion_server_boot_steps".to_owned(), labels, increment: 1, event: ev }
}

/// Records a bootstrap step that went wrong, with outcome `warn`.
pub fn warn_boot_step(step: &str, message: &str) -> (r: Emission)
    requires
        truncatable(message@),
    ensures
        boot_step_ok(r, step@, "warn"@, message@),
{
    proof {
        reveal_strlit("warn");
        reveal_strlit("ok");
    }
    log_boot_step(step, "warn", message)
}

/// Telemetry context of one queued node action.
#[derive(Debug, Clone)]
pub struct NodeActionContext {
    /// Queued command row id.
    pub command_id: String,
    /// Target node id.
    pub node_id: String,
    /// Action kind wire value.
    pub action_kind: String,
    /// Orchestrator correlation key (may be empty).
    pub correlation_key: String,
    /// Sequence within the correlation stream.
    pub sequence: i64,
    /// Current attempt number (0 before claim).
    pub attempt: i64,
}

/// One node-action queue step: counted under `action`/`outcome` and logged with the context.
pub open spec fn node_step_ok(
    e: Emission,
    ctx: NodeActionContext,
    action: Seq<char>,
    outcome: Seq<char>,
    message: Seq<char>,
) -> bool {
    &&& counts(e, "pion_node_actions"@, seq![("action"@, action), ("outcome"@, outcome)])
    &&& event_topic(e) == Some("pion_node_action_log"@)
    &&& node_action_fields_ok(
        event_fields(e),
        ctx.command_id@,
        ctx.node_id@,
        ctx.action_kind@,
        ctx.correlation_key@,
        ctx.sequence,
        ctx.attempt,
        outcome,
        message,
    )
}

impl NodeActionContext {
    /// Context of a command before its correlation fields are known.
    pub fn new(command_id: &str, node_id: &str, action_kind: &str) -> (r: Self)
        ensures
            r.command_id@ == command_id@,
            r.node_id@ == node_id@,
            r.action_kind@ == action_kind@,
            r.correlation_key@ == Seq::<char>::empty(),
            r.sequence == 0,
            r.attempt == 0,
    {
        NodeActionContext {
            command_id: command_id.to_owned(),
            node_id: node_id.to_owned(),
            action_kind: action_kind.to_owned(),
            correlation_key: String::new(),
            sequence: 0,
            attempt: 0,
        }
    }

    /// The context with its correlation key and sequence set.
    pub fn with_correlation(self, correlation_key: &str, sequence: i64) -> (r: Self)
        ensures
            r.command_id == self.command_id,
            r.node_id == self.node_id,
            r.action_kind == self.action_kind,
            r.correlation_key@ == correlation_key@,
            r.sequence == sequence,
            r.attempt == self.attempt,
    {
        let mut c = self;
        c.correlation_key = correlation_key.to_owned();
        c.sequence = sequence;
        c
    }

    /// The context with its attempt number set.
    pub fn with_attempt(self, attempt: i64) -> (r: Self)
        ensures
            r.command_id == self.command_id,
            r.node_id == self.node_id,
            r.action_kind == self.action_kind,
            r.correlation_key == self.correlation_key,
            r.sequence == self.sequence,
            r.attempt == attempt,
    {
        let mut c = self;
        c.attempt = attempt;
        c
    }

    /// Counter and event for one queue lifecycle step.
    pub fn log_step(&self, action: &str, outcome: &str, message: &str) -> (r: Emission)
        requires
            truncatable(message@),
        ensures
            node_step_ok(r, *self, action@, outcome@, message@),
    {
        let fields = node_action_log_fields(
            self.command_id.as_str(),
            self.node_id.as_str(),
            self.action_kind.as_str(),
            self.correlation_key.as_str(),
            self.sequence,
            self.attempt,
            outcome,
            message,
        );
        Emission {
            counter: "pion_node_actions".to_owned(),
            labels: two_labels("action", action, "outcome", outcome),
            increment: 1,
            event: event("pion_node_action_log", fields),
        }
    }

    /// An enqueue step with the given outcome.
    pub fn log_enqueue(&self, outcome: &str, message: &str) -> (r: Emission)
        requires
            truncatable(message@),
        ensures
            node_step_ok(r, *self, "enqueue"@, outcome@, message@),
    {
        self.log_step("enqueue", outcome, message)
    }

    /// A successful claim.
    pub fn log_claim(&self, message: &str) -> (r: Emission)
        requires
            truncatable(message@),
        ensures
            node_step_ok(r, *self, "claim"@, "claimed"@, message@),
    {
        self.log_step("claim", "claimed", message)
    }

    /// A reported result (`success`, `retry`, `failed`, ...).
    pub fn log_result(&self, outcome: &str, message: &str) -> (r: Emission)
        requires
            truncatable(message@),
        ensures
            node_step_ok(r, *self, "result"@, outcome@, message@),
    {
        self.log_step("result", outcome, message)
    }

    /// A lease extension.
    pub fn log_lease_extend(&self, message: &str) -> (r: Emission)
        requires
            truncatable(message@),
        ensures
            node_step_ok(r, *self, "lease_extend"@, "ok"@, message@),
    {
        self.log_step("lease_extend", "ok", message)
    }

    /// A reconcile recovery that extended the pending window.
    pub fn log_recovery(&self, message: &str) -> (r: Emission)
        requires
            truncatable(message@),
        ensures
            node_step_ok(r, *self, "recovery"@, "extended_pending"@, message@),
    {
        self.log_step("recovery", "extended_pending", message)
    }
}

/// Text of an enqueue that changed nothing.
pub open spec fn enqueue_noop_text(status: Seq<char>, missing_replan: bool) -> Seq<char> {
    if missing_replan {
        "enqueue no-op (terminal "@ + status + ", missing replan_token)"@
    } else {
        "enqueue no-op (already "@ + status + ")"@
    }
}

/// The message of an enqueue that changed nothing.
pub fn enqueue_noop_message(status: &str, missing_replan: bool) -> (r: String)
    ensures
        r@ == enqueue_noop_text(status@, missing_replan),
{
    let mut s = String::new();
    if missing_replan {
        push_str(&mut s, "enqueue no-op (terminal ");
        push_str(&mut s, status);
        push_str(&mut s, ", missing replan_token)");
    } else {
        push_str(&mut s, "enqueue no-op (already ");
        push_str(&mut s, status);
        push_str(&mut s, ")");
    }
    assert(s@ =~= enqueue_noop_text(status@, missing_replan));
    s
}

/// Text of a terminal failure, before the cap.
pub open spec fn terminal_failure_text(last_error: Seq<char>, stderr_len: nat) -> Seq<char> {
    "result failed_terminal last_error="@ + last_error + " stderr_len="@
        + crate::text::decimal_seq(stderr_len)
}

/// The capped message of a terminal failure, with the length of the captured stderr.
pub fn terminal_failure_message(last_error: &str, stderr_len: usize) -> (r: String)
    requires
        truncatable(terminal_failure_text(last_error@, stderr_len as nat)),
    ensures
        truncated_ok(terminal_failure_text(last_error@, stderr_len as nat), r@),
{
    let mut s = String::new();
    push_str(&mut s, "result failed_terminal last_error=");
    push_str(&mut s, last_error);
    push_str(&mut s, " stderr_len=");
    crate::text::push_decimal(&mut s, stderr_len as u64);
    assert(s@ =~= terminal_failure_text(last_error@, stderr_len as nat));
    truncate_message(s.as_str())
}

/// Telemetry context of one handoff directive.
#[derive(Debug, Clone)]
pub struct HandoffDirectiveContext {
    /// Directive row id (empty before the row exists).
    pub directive_id: String,
    /// Target node id of the directive.
    pub node_id: String,
}

impl Default for HandoffDirectiveContext {
    fn default() -> (r: Self)
        ensures
            r.directive_id@ == Seq::<char>::empty(),
            r.node_id@ == Seq::<char>::empty(),
    {
        HandoffDirectiveContext { directive_id: String::new(), node_id: String::new() }
    }
}

/// One handoff phase: counted under `phase`/`outcome` and logged with the context.
pub open spec fn handoff_phase_ok(
    e: Emission,
    directive_id: Seq<char>,
    node_id: Seq<char>,
    phase: Seq<char>,
    outcome: Seq<char>,
    reason: Seq<char>,
    message: Seq<char>,
) -> bool {
    &&& counts(e, "pion_handoff_directives"@, seq![("phase"@, phase), ("outcome"@, outcome)])
    &&& event_topic(e) == Some("pion_handoff_log"@)
    &&& handoff_fields_ok(event_fields(e), directive_id, node_id, phase, reason, message)
}

impl HandoffDirectiveContext {
    /// Context with both ids.
    pub fn new(directive_id: &str, node_id: &str) -> (r: Self)
        ensures
            r.directive_id@ == directive_id@,
            r.node_id@ == node_id@,
    {
        HandoffDirectiveContext { directive_id: directive_id.to_owned(), node_id: node_id.to_owned() }
    }

    /// Context when only the node is known (collect phase).
    pub fn from_node(node_id: &str) -> (r: Self)
        ensures
            r.directive_id@ == Seq::<char>::empty(),
            r.node_id@ == node_id@,
    {
        HandoffDirectiveContext { directive_id: String::new(), node_id: node_id.to_owned() }
    }

    /// Counter and event for the outcome of one handoff phase.
    pub fn log_phase(&self, phase: &str, outcome: &str, reason: &str, message: &str) -> (r:
        Emission)
        requires
            truncatable(message@),
        ensures
            handoff_phase_ok(
                r,
                self.directive_id@,
                self.node_id@,
                phase@,
                outcome@,
                reason@,
                message@,
            ),
    {
        let fields = handoff_log_fields(
            self.directive_id.as_str(),
            self.node_id.as_str(),
            phase,
            reason,
            message,
        );
        Emission {
            counter: "pion_handoff_directives".to_owned(),
            labels: two_labels("phase", phase, "outcome", outcome),
            increment: 1,
            event: event("pion_handoff_log", fields),
        }
    }

    /// A delivery whose state transition failed, for the directive `directive_id` on this
    /// context's node.
    pub fn warn_deliver_failed(&self, directive_id: &str, error: &str) -> (r: Emission)
        requires
            truncatable(error@),
        ensures
            handoff_phase_ok(
                r,
                directive_id@,
                self.node_id@,
                "deliver"@,
                "error"@,
                "transition_failed"@,
                error@,
            ),
    {
        let ctx = HandoffDirectiveContext::new(directive_id, self.node_id.as_str());
        ctx.log_phase("deliver", "error", "transition_failed", error)
    }

    /// A collected directive row without an id, skipped.
    pub fn warn_missing_id(&self) -> (r: Emission)
        ensures
            handoff_phase_ok(
                r,
                self.directive_id@,
                self.node_id@,
                "collect"@,
                "skipped"@,
                "missing_id"@,
                "handoff directive row missing id; skipping"@,
            ),
    {
        proof {
            reveal_strlit("handoff directive row missing id; skipping");
            lemma_ascii_fits("handoff directive row missing id; skipping"@);
        }
        self.log_phase(
            "collect",
            "skipped",
            "missing_id",
            "handoff directive row missing id; skipping",
        )
    }

    /// An acknowledgment that could not be stored, skipped.
    pub fn warn_ack_skipped(&self, error: &str) -> (r: Emission)
        requires
            truncatable(error@),
        ensures
            handoff_phase_ok(
                r,
                self.directive_id@,
                self.node_id@,
                "ack"@,
                "skipped"@,
                "ack_failed"@,
                error@,
            ),
    {
        self.log_phase("ack", "skipped", "ack_failed", error)
    }

    /// A directive collection that failed, skipped.
    pub fn warn_collect_skipped(&self, error: &str) -> (r: Emission)
        requires
            truncatable(error@),
        ensures
            handoff_phase_ok(
                r,
                self.directive_id@,
                self.node_id@,
                "collect"@,
                "skipped"@,
                "collect_failed"@,
                error@,
            ),
    {
        self.log_phase("collect", "skipped", "collect_failed", error)
    }
}

/// Telemetry context of one heartbeat report.
#[derive(Debug, Clone)]
pub struct HeartbeatContext {
    /// Node id of the report.
    pub node_id: String,
    /// Cell id of the report.
    pub cell_id: String,
}

impl HeartbeatContext {
    /// Context from the ids of an ingested report.
    pub fn new(node_id: &str, cell_id: &str) -> (r: Self)
        ensures
            r.node_id@ == node_id@,
            r.cell_id@ == cell_id@,
    {
        HeartbeatContext { node_id: node_id.to_owned(), cell_id: cell_id.to_owned() }
    }

    /// A heartbeat ingested: counted, no event.
    pub fn record_ingested_ok(&self) -> (r: Emission)
        ensures
            counts(r, "pion_heartbeats_ingested"@, seq![("outcome"@, "ok"@)]),
            r.event is None,
    {
        Emission {
            counter: "pion_heartbeats_ingested".to_owned(),
            labels: one_label("outcome", "ok"),
            increment: 1,
            event: None,
        }
    }

    /// A heartbeat that failed to ingest: counted and logged with state `error`.
    pub fn record_ingested_error(&self, message: &str) -> (r: Emission)
        requires
            truncatable(message@),
        ensures
            counts(r, "pion_heartbeats_ingested"@, seq![("outcome"@, "error"@)]),
            event_topic(r) == Some("pion_heartbeat_log"@),
            heartbeat_fields_ok(event_fields(r), self.node_id@, self.cell_id@, "error"@, message@),
    {
        let fields = heartbeat_log_fields(
            self.node_id.as_str(),
            self.cell_id.as_str(),
            "error",
            message,
        );
        Emission {
            counter: "pion_heartbeats_ingested".to_owned(),
            labels: one_label("outcome", "error"),
            increment: 1,
            event: event("pion_heartbeat_log", fields),
        }
    }

    /// The outcome of publishing container state: counted; logged with state `publish` unless
    /// the outcome is `success`.
    pub fn record_publish(&self, outcome: &str, message: &str) -> (r: Emission)
        requires
            outcome@ != "success"@ ==> truncatable(message@),
        ensures
            counts(r, "pion_heartbeat_publishes"@, seq![("outcome"@, outcome@)]),
            r.event is None <==> outcome@ == "success"@,
            r.event is Some ==> event_topic(r) == Some("pion_heartbeat_log"@) && heartbeat_fields_ok(
                event_fields(r),
                self.node_id@,
                self.cell_id@,
                "publish"@,
                message@,
            ),
    {
        let ev = if crate::text::str_equal(outcome, "success") {
            None
        } else {
            event(
                "pion_heartbeat_log",
                heartbeat_log_fields(self.node_id.as_str(), self.cell_id.as_str(), "publish", message),
            )
        };
        Emission {
            counter: "pion_heartbeat_publishes".to_owned(),
            labels: one_label("outcome", outcome),
            increment: 1,
            event: ev,
        }
    }
}

/// Name of the table-migration script, as counted and logged.
pub const MIGRATION_SCRIPT: &'static str = "migrate_gluon_control_plane_tables_to_pion";

/// One table of the migration: counted under the script and `outcome`, logged with the script
/// as operation.
pub open spec fn migration_ok(
    e: Emission,
    outcome: Seq<char>,
    from: Seq<char>,
    to: Seq<char>,
    rows_copied: i64,
    message: Seq<char>,
) -> bool {
    &&& counts(
        e,
        "pion_migration_runs"@,
        seq![("script"@, MIGRATION_SCRIPT@), ("outcome"@, outcome)],
    )
    &&& event_topic(e) == Some("pion_migration_log"@)
    &&& migration_fields_ok(
        event_fields(e),
        MIGRATION_SCRIPT@,
        from,
        to,
        rows_copied,
        outcome,
        message,
    )
}

fn record_migration(outcome: &str, from: &str, to: &str, rows_copied: i64, message: &str) -> (r:
    Emission)
    requires
        truncatable(message@),
    ensures
        migration_ok(r, outcome@, from@, to@, rows_copied, message@),
{
    let fields = migration_log_fields(MIGRATION_SCRIPT, from, to, rows_copied, outcome, message);
    Emission {
        counter: "pion_migration_runs".to_owned(),
        labels: two_labels("script", MIGRATION_SCRIPT, "outcome", outcome),
        increment: 1,
        event: event("pion_migration_log", fields),
    }
}

/// Message of a table skipped because its destination already holds rows.
pub open spec fn migration_skip_text(from: Seq<char>, to: Seq<char>, row_count: i64) -> Seq<char> {
    "Skip "@ + from + " -> "@ + to + ": destination already has "@
        + crate::text::signed_decimal_seq(row_count as int) + " row(s)"@
}

/// Message of a table copied.
pub open spec fn migration_copied_text(from: Seq<char>, to: Seq<char>, rows: i64) -> Seq<char> {
    "Copied "@ + crate::text::signed_decimal_seq(rows as int) + " row(s) "@ + from + " -> "@ + to
}

/// Message of a table that failed to migrate.
pub open spec fn migration_failed_text(from: Seq<char>, to: Seq<char>, error: Seq<char>) -> Seq<char> {
    from + " -> "@ + to + ": "@ + error
}

/// A table skipped because its destination already holds `row_count` rows.
pub fn log_migration_skip(from: &str, to: &str, row_count: i64) -> (r: Emission)
    requires
        truncatable(migration_skip_text(from@, to@, row_count)),
    ensures
        migration_ok(r, "skipped"@, from@, to@, 0, migration_skip_text(from@, to@, row_count)),
{
    let mut m = String::new();
    push_str(&mut m, "Skip ");
    push_str(&mut m, from);
    push_str(&mut m, " -> ");
    push_str(&mut m, to);
    push_str(&mut m, ": destination already has ");
    crate::text::push_signed_decimal(&mut m, row_count);
    push_str(&mut m, " row(s)");
    assert(m@ =~= migration_skip_text(from@, to@, row_count));
    record_migration("skipped", from, to, 0, m.as_str())
}

/// A table copied with `rows` rows.
pub fn log_migration_copied(from: &str, to: &str, rows: i64) -> (r: Emission)
    requires
        truncatable(migration_copied_text(from@, to@, rows)),
    ensures
        migration_ok(r, "ok"@, from@, to@, rows, migration_copied_text(from@, to@, rows)),
{
    let mut m = String::new();
    push_str(&mut m, "Copied ");
    crate::text::push_signed_decimal(&mut m, rows);
    push_str(&mut m, " row(s) ");
    push_str(&mut m, from);
    push_str(&mut m, " -> ");
    push_str(&mut m, to);
    assert(m@ =~= migration_copied_text(from@, to@, rows));
    record_migration("ok", from, to, rows, m.as_str())
}

/// A table whose copy failed with `error`.
pub fn log_migration_failed(from: &str, to: &str, error: &str) -> (r: Emission)
    requires
        truncatable(migration_failed_text(from@, to@, error@)),
    ensures
        migration_ok(r, "error"@, from@, to@, 0, migration_failed_text(from@, to@, error@)),
{
    let mut m = String::new();
    push_str(&mut m, from);
    push_str(&mut m, " -> ");
    push_str(&mut m, to);
    push_str(&mut m, ": ");
    push_str(&mut m, error);
    assert(m@ =~= migration_failed_text(from@, to@, error@));
    record_migration("error", from, to, 0, m.as_str())
}

/// Outcome label of one heartbeat ingest for the operational counter
/// `pion_heartbeat_ingest_total`.
pub fn heartbeat_ingest_outcome(ok: bool) -> (r: &'static str)
    ensures
        r@ == (if ok { "ok"@ } else { "error"@ }),
{
    if ok {
        "ok"
    } else {
        "error"
    }
}

proof fn lemma_encode_push(s: Seq<char>, c: char)
    ensures
        encode_utf8(s.push(c)) == encode_utf8(s) + vstd::utf8::encode_scalar(c as u32),
    decreases s.len(),
{
    if s.len() == 0 {
        assert(s.push(c).drop_first() =~= Seq::<char>::empty());
        assert(s.push(c)[0] == c);
        assert(encode_utf8(s.push(c).drop_first()) =~= Seq::<u8>::empty());
        assert(encode_utf8(s) =~= Seq::<u8>::empty());
        assert(encode_utf8(s.push(c)) =~= vstd::utf8::encode_scalar(c as u32));
    } else {
        assert(s.push(c).drop_first() =~= s.drop_first().push(c));
        lemma_encode_push(s.drop_first(), c);
        assert(encode_utf8(s.push(c)) =~= encode_utf8(s) + vstd::utf8::encode_scalar(c as u32));
    }
}

proof fn lemma_ellipsis_bytes()
    ensures
        vstd::utf8::encode_scalar(ELLIPSIS as u32) == seq![0xe2u8, 0x80u8, 0xa6u8],
{
    let c: u32 = 0x2026;
    assert(ELLIPSIS as u32 == c);
    assert(vstd::utf8::has_width_3_encoding(c)) by (bit_vector)
        requires
            c == 0x2026u32,
    ;
    assert(!vstd::utf8::has_width_1_encoding(c) && !vstd::utf8::has_width_2_encoding(c)) by (bit_vector)
        requires
            c == 0x2026u32,
    ;
    assert(vstd::utf8::leading_byte_width_3(c) == 0xe2u8) by (bit_vector)
        requires
            c == 0x2026u32,
    ;
    assert(vstd::utf8::second_last_continuation_byte(c) == 0x80u8) by (bit_vector)
        requires
            c == 0x2026u32,
    ;
    assert(vstd::utf8::last_continuation_byte(c) == 0xa6u8) by (bit_vector)
        requires
            c == 0x2026u32,
    ;
    assert(vstd::utf8::encode_scalar(c) =~= seq![0xe2u8, 0x80u8, 0xa6u8]);
}

/// Cutting a message twice is cutting it once: a message already cut can be cut again, and
/// comes back unchanged.
pub proof fn lemma_truncate_idempotent(m: Seq<char>, r: Seq<char>, r2: Seq<char>)
    requires
        truncatable(m),
        truncated_ok(m, r),
        truncated_ok(r, r2),
    ensures
        truncatable(r),
        r2 == r,
{
    if encode_utf8(m).len() > MAX_MESSAGE_LEN {
        let head = r.drop_last();
        assert(r =~= head.push(ELLIPSIS));
        lemma_encode_push(head, ELLIPSIS);
        lemma_ellipsis_bytes();
        let bytes = encode_utf8(r);
        assert(encode_utf8(head).len() == MAX_MESSAGE_LEN - 1);
        assert(bytes.len() == MAX_MESSAGE_LEN + 2);
        assert(bytes[MAX_MESSAGE_LEN - 1] == 0xe2u8);
        vstd::utf8::encode_utf8_valid_utf8(r);
        vstd::utf8::is_char_boundary_iff_is_leading_byte(bytes, MAX_MESSAGE_LEN - 1);
        assert(truncatable(r));
        let head2 = r2.drop_last();
        assert(bytes.subrange(0, MAX_MESSAGE_LEN - 1) =~= encode_utf8(head));
        assert(encode_utf8(head2) == encode_utf8(head));
        vstd::utf8::encode_utf8_decode_utf8(head);
        vstd::utf8::encode_utf8_decode_utf8(head2);
        assert(head2 == head);
        assert(r2 =~= head2.push(ELLIPSIS));
    }
}

} // verus!
