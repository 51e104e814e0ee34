//! Decisions of the headless server: whether it may start, how it answers its readiness
//! probes, and where it listens.
//!
//! The server refuses to start, and reports itself not ready, unless a shared agent token is
//! configured or the operator opted into insecure mode.
use vstd::prelude::*;

use crate::enrollment::{insecure_mode_allowed, truthy_flag};
use crate::json::{bool_member, bool_pair, member_count, text_member, text_pair, JsonValue};
use crate::text::{trim_seq, trim_to_string};

verus! {

/// Request body cap of the whole application (1 MiB).
pub const APP_BODY_LIMIT_BYTES: usize = 1048576;

/// Address the server binds when `PION_BIND` is unset: loopback only.
pub const DEFAULT_BIND: &'static str = "127.0.0.1:3000";

/// `PARTON_SHARED_TOKEN` holds a non-blank value.
pub open spec fn token_configured(token: Option<Seq<char>>) -> bool {
    match token {
        Some(t) => trim_seq(t).len() > 0,
        None => false,
    }
}

/// `PION_ALLOW_INSECURE` holds a truthy value.
pub open spec fn insecure_opt_in(allow_insecure: Option<Seq<char>>) -> bool {
    match allow_insecure {
        Some(v) => truthy_flag(v),
        None => false,
    }
}

/// The view of an optional string slice.
pub open spec fn opt_view(o: Option<&str>) -> Option<Seq<char>> {
    match o {
        Some(s) => Some(s@),
        None => None,
    }
}

/// Whether a shared token is configured, given the value of `PARTON_SHARED_TOKEN`.
pub fn shared_token_configured(token: Option<&str>) -> (r: bool)
    ensures
        r == token_configured(opt_view(token)),
{
    match token {
        Some(t) => {
            let trimmed = trim_to_string(t);
            !trimmed.as_str().is_empty()
        },
        None => false,
    }
}

/// Message of a refused start.
pub open spec fn refuse_start_text() -> Seq<char> {
    "PARTON_SHARED_TOKEN is not set. pion-server refuses to start without a shared token (agents authenticate on /api/parton/* with it). Set PARTON_SHARED_TOKEN, or set PION_ALLOW_INSECURE=1 to start without one for local experiments only."@
}

/// Refuses to start unless a shared token is configured or insecure mode was opted into.
pub fn fail_closed_without_shared_token(token: Option<&str>, allow_insecure: Option<&str>) -> (r:
    Result<(), String>)
    ensures
        match r {
            Ok(()) => token_configured(opt_view(token)) || insecure_opt_in(opt_view(allow_insecure)),
            Err(m) => !token_configured(opt_view(token)) && !insecure_opt_in(
                opt_view(allow_insecure),
            ) && m@ == refuse_start_text(),
        },
{
    if shared_token_configured(token) || insecure_mode_allowed(allow_insecure) {
        return Ok(());
    }
    Err(
        "PARTON_SHARED_TOKEN is not set. pion-server refuses to start without a shared token (agents authenticate on /api/parton/* with it). Set PARTON_SHARED_TOKEN, or set PION_ALLOW_INSECURE=1 to start without one for local experiments only.".to_owned(),
    )
}

/// Reason given when the backend is up but no agent authentication is configured.
pub open spec fn not_secured_text() -> Seq<char> {
    "PARTON_SHARED_TOKEN not configured (and PION_ALLOW_INSECURE not set)"@
}

/// Cell readiness answer: `200 {"ready":true}` when the storage backend is reachable and the
/// process is securely configured; else `503 {"ready":false,"reason":...}` naming the first
/// problem (the backend error first).
pub fn cell_readiness(backend_error: Option<&str>, token: Option<&str>, allow_insecure: Option<&str>) -> (r: (u16, JsonValue))
    ensures
        match backend_error {
            Some(e) => r.0 == 503 && member_count(r.1) == 2 && bool_member(r.1, 0, "ready"@, false)
                && text_member(r.1, 1, "reason"@, e@),
            None => if token_configured(opt_view(token)) || insecure_opt_in(opt_view(allow_insecure)) {
                r.0 == 200 && member_count(r.1) == 1 && bool_member(r.1, 0, "ready"@, true)
            } else {
                r.0 == 503 && member_count(r.1) == 2 && bool_member(r.1, 0, "ready"@, false)
                    && text_member(r.1, 1, "reason"@, not_secured_text())
            },
        },
{
    if let Some(e) = backend_error {
        let mut m: Vec<(String, JsonValue)> = Vec::new();
        m.push(bool_pair("ready", false));
        m.push(text_pair("reason", e));
        return (503, JsonValue::Object(m));
    }
    if !shared_token_configured(token) && !insecure_mode_allowed(allow_insecure) {
        let mut m: Vec<(String, JsonValue)> = Vec::new();
        m.push(bool_pair("ready", false));
        m.push(text_pair("reason", "PARTON_SHARED_TOKEN not configured (and PION_ALLOW_INSECURE not set)"));
        return (503, JsonValue::Object(m));
    }
    let mut m: Vec<(String, JsonValue)> = Vec::new();
    m.push(bool_pair("ready", true));
    (200, JsonValue::Object(m))
}

/// Database readiness answer: `200 ok` when the backend is reachable, else `503` with the
/// backend error.
pub fn db_ready(backend_error: Option<&str>) -> (r: (u16, String))
    ensures
        match backend_error {
            Some(e) => r.0 == 503 && r.1@ == e@,
            None => r.0 == 200 && r.1@ == "ok"@,
        },
{
    match backend_error {
        Some(e) => (503, e.to_owned()),
        None => (200, "ok".to_owned()),
    }
}

/// Listen address: the value of `PION_BIND`, or [`DEFAULT_BIND`] when it is unset.
pub fn bind_address(bind: Option<&str>) -> (r: String)
    ensures
        r@ == match bind {
            Some(b) => b@,
            None => DEFAULT_BIND@,
        },
{
    match bind {
        Some(b) => b.to_owned(),
        None => DEFAULT_BIND.to_owned(),
    }
}

} // verus!
