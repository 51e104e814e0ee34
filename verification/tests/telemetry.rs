use pion::json::{JsonNumber, JsonValue};
use pion::telemetry::{
    enqueue_noop_message, heartbeat_ingest_outcome, log_boot_step, log_migration_copied,
    log_migration_failed, log_migration_skip, node_action_log_fields, server_boot_log_fields,
    terminal_failure_message, truncate_message, warn_boot_step, Emission, HandoffDirectiveContext,
    HeartbeatContext, NodeActionContext,
};

fn member<'a>(v: &'a JsonValue, key: &str) -> &'a JsonValue {
    match v {
        JsonValue::Object(m) => &m.iter().find(|(k, _)| k == key).expect("member present").1,
        other => panic!("not an object: {other:?}"),
    }
}

fn member_text(v: &JsonValue, key: &str) -> String {
    match member(v, key) {
        JsonValue::String(s) => s.clone(),
        other => panic!("not a string: {other:?}"),
    }
}

fn labels(e: &Emission) -> Vec<(String, String)> {
    e.labels.clone()
}

fn pair(k: &str, v: &str) -> (String, String) {
    (k.to_string(), v.to_string())
}

#[test]
fn short_messages_are_kept_and_long_ones_capped() {
    assert_eq!(truncate_message("hello"), "hello");
    let exact = "a".repeat(512);
    assert_eq!(truncate_message(&exact), exact);
    let long = "b".repeat(600);
    let cut = truncate_message(&long);
    assert_eq!(cut.len(), 511 + '…'.len_utf8());
    assert!(cut.ends_with('…'));
    assert!(cut.starts_with(&"b".repeat(511)));
}

#[test]
fn boot_steps_log_events_only_when_not_ok() {
    let ok = log_boot_step("valence", "ok", "fine");
    assert_eq!(ok.counter, "pion_server_boot_steps");
    assert_eq!(labels(&ok), vec![pair("step", "valence"), pair("outcome", "ok")]);
    assert_eq!(ok.increment, 1);
    assert!(ok.event.is_none());
    let warn = warn_boot_step("valence", "slow start");
    assert_eq!(labels(&warn), vec![pair("step", "valence"), pair("outcome", "warn")]);
    let ev = warn.event.expect("warn logs an event");
    assert_eq!(ev.topic, "pion_server_boot_log");
    assert_eq!(member_text(&ev.fields, "step"), "valence");
    assert_eq!(member_text(&ev.fields, "message"), "slow start");
}

#[test]
fn node_action_steps_carry_the_context() {
    let ctx = NodeActionContext::new("cmd-1", "node-1", "deploy_handoff")
        .with_correlation("wizard:1", 7)
        .with_attempt(2);
    let e = ctx.log_claim("claimed by agent");
    assert_eq!(e.counter, "pion_node_actions");
    assert_eq!(labels(&e), vec![pair("action", "claim"), pair("outcome", "claimed")]);
    let ev = e.event.expect("claim logs an event");
    assert_eq!(ev.topic, "pion_node_action_log");
    assert_eq!(member_text(&ev.fields, "command_id"), "cmd-1");
    assert_eq!(member_text(&ev.fields, "correlation_key"), "wizard:1");
    assert!(matches!(member(&ev.fields, "sequence"), JsonValue::Number(JsonNumber::PosInt(7))));
    assert!(matches!(member(&ev.fields, "attempt"), JsonValue::Number(JsonNumber::PosInt(2))));
    assert_eq!(member_text(&ev.fields, "outcome"), "claimed");
    let r = ctx.log_recovery("extended");
    assert_eq!(labels(&r), vec![pair("action", "recovery"), pair("outcome", "extended_pending")]);
    let l = ctx.log_lease_extend("lease");
    assert_eq!(labels(&l), vec![pair("action", "lease_extend"), pair("outcome", "ok")]);
    let q = ctx.log_enqueue("queued", "ok");
    assert_eq!(labels(&q), vec![pair("action", "enqueue"), pair("outcome", "queued")]);
    let res = ctx.log_result("retry", "again");
    assert_eq!(labels(&res), vec![pair("action", "result"), pair("outcome", "retry")]);
}

#[test]
fn negative_sequences_are_negative_json_integers() {
    let f = node_action_log_fields("c", "n", "k", "", -3, 0, "o", "m");
    assert!(matches!(member(&f, "sequence"), JsonValue::Number(JsonNumber::NegInt(-3))));
    let boot = server_boot_log_fields("s", "m");
    assert_eq!(member_text(&boot, "message"), "m");
}

#[test]
fn handoff_warnings_use_their_fixed_reasons() {
    let ctx = HandoffDirectiveContext::from_node("node-9");
    assert_eq!(ctx.directive_id, "");
    let e = ctx.warn_missing_id();
    assert_eq!(e.counter, "pion_handoff_directives");
    assert_eq!(labels(&e), vec![pair("phase", "collect"), pair("outcome", "skipped")]);
    let ev = e.event.expect("event");
    assert_eq!(ev.topic, "pion_handoff_log");
    assert_eq!(member_text(&ev.fields, "reason"), "missing_id");
    assert_eq!(member_text(&ev.fields, "message"), "handoff directive row missing id; skipping");
    let d = ctx.warn_deliver_failed("dir-2", "transition refused");
    let ev = d.event.expect("event");
    assert_eq!(member_text(&ev.fields, "directive_id"), "dir-2");
    assert_eq!(member_text(&ev.fields, "node_id"), "node-9");
    assert_eq!(member_text(&ev.fields, "reason"), "transition_failed");
    let a = HandoffDirectiveContext::new("d", "n").warn_ack_skipped("x");
    assert_eq!(labels(&a), vec![pair("phase", "ack"), pair("outcome", "skipped")]);
    let c = HandoffDirectiveContext::default().warn_collect_skipped("y");
    assert_eq!(member_text(&c.event.expect("event").fields, "reason"), "collect_failed");
}

#[test]
fn heartbeat_publish_logs_only_failures() {
    let ctx = HeartbeatContext::new("n1", "c1");
    let ok = ctx.record_ingested_ok();
    assert_eq!(ok.counter, "pion_heartbeats_ingested");
    assert_eq!(labels(&ok), vec![pair("outcome", "ok")]);
    assert!(ok.event.is_none());
    let err = ctx.record_ingested_error("bad report");
    assert_eq!(member_text(&err.event.expect("event").fields, "state"), "error");
    assert!(ctx.record_publish("success", "").event.is_none());
    let failed = ctx.record_publish("error", "broker down");
    assert_eq!(member_text(&failed.event.expect("event").fields, "state"), "publish");
}

#[test]
fn migration_messages_and_outcomes() {
    let skip = log_migration_skip("gluon_a", "pion_a", 12);
    assert_eq!(
        labels(&skip),
        vec![pair("script", "migrate_gluon_control_plane_tables_to_pion"), pair("outcome", "skipped")]
    );
    let ev = skip.event.expect("event");
    assert_eq!(member_text(&ev.fields, "operation"), "migrate_gluon_control_plane_tables_to_pion");
    assert_eq!(
        member_text(&ev.fields, "message"),
        "Skip gluon_a -> pion_a: destination already has 12 row(s)"
    );
    assert!(matches!(member(&ev.fields, "rows_copied"), JsonValue::Number(JsonNumber::PosInt(0))));
    let copied = log_migration_copied("gluon_a", "pion_a", 5);
    let ev = copied.event.expect("event");
    assert_eq!(member_text(&ev.fields, "message"), "Copied 5 row(s) gluon_a -> pion_a");
    assert!(matches!(member(&ev.fields, "rows_copied"), JsonValue::Number(JsonNumber::PosInt(5))));
    let failed = log_migration_failed("gluon_a", "pion_a", "locked");
    assert_eq!(member_text(&failed.event.expect("event").fields, "message"), "gluon_a -> pion_a: locked");
}

#[test]
fn queue_messages() {
    assert_eq!(
        enqueue_noop_message("succeeded", true),
        "enqueue no-op (terminal succeeded, missing replan_token)"
    );
    assert_eq!(enqueue_noop_message("running", false), "enqueue no-op (already running)");
    assert_eq!(
        terminal_failure_message("exit 1", 42),
        "result failed_terminal last_error=exit 1 stderr_len=42"
    );
    assert_eq!(heartbeat_ingest_outcome(true), "ok");
    assert_eq!(heartbeat_ingest_outcome(false), "error");
}
