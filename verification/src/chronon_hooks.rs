//! Cron job specs for the control plane's periodic maintenance sweeps.
//!
//! [`EXPIRED_LEASE_SWEEP`] is the job a scheduler registers at boot; the others are inventory
//! until their scripts exist. Every job name lives under `pion.`, no two jobs share a name,
//! and every schedule is a standard five-field cron expression.
use vstd::prelude::*;

use crate::text::{is_whitespace_char, starts_with_seq};

verus! {

/// A cron job: stable name, five-field cron expression (UTC) and intent.
#[derive(Debug, Clone, Copy, PartialEq, Eq)]
pub struct ChrononJobSpec {
    /// Stable job name.
    pub name: &'static str,
    /// Five-field cron expression: minute, hour, day of month, month, day of week.
    pub cron_expr: &'static str,
    /// What the job does and why it needs a schedule.
    pub description: &'static str,
}

/// Reconcile node actions whose lease expired without a report (the job registered at boot).
pub open spec fn expired_lease_sweep_spec() -> ChrononJobSpec {
    ChrononJobSpec {
        name: "pion.node_actions.expired_lease_sweep",
        cron_expr: "*/2 * * * *",
        description: "Reconcile node actions whose lease expired without a report back to retryable/failed.",
    }
}

/// Expire pending host-enrollment tickets past their deadline.
pub open spec fn expired_enrollment_ticket_sweep_spec() -> ChrononJobSpec {
    ChrononJobSpec {
        name: "pion.agent_enrollment.expired_ticket_sweep",
        cron_expr: "*/15 * * * *",
        description: "Mark pending host-enrollment tickets past expires_at as revoked/expired.",
    }
}

/// Prune container observations stale well beyond the freshness window.
pub open spec fn stale_container_observation_prune_spec() -> ChrononJobSpec {
    ChrononJobSpec {
        name: "pion.container_observation.stale_prune",
        cron_expr: "0 * * * *",
        description: "Delete container-observation rows stale well beyond the freshness window (decommissioned nodes).",
    }
}

/// All jobs, in registration order.
pub open spec fn jobs() -> Seq<ChrononJobSpec> {
    seq![
        expired_lease_sweep_spec(),
        expired_enrollment_ticket_sweep_spec(),
        stale_container_observation_prune_spec(),
    ]
}

/// Reconcile node actions whose lease expired without a report (the job registered at boot).
pub fn expired_lease_sweep() -> (r: ChrononJobSpec)
    ensures
        r == expired_lease_sweep_spec(),
{
    ChrononJobSpec {
        name: "pion.node_actions.expired_lease_sweep",
        cron_expr: "*/2 * * * *",
        description: "Reconcile node actions whose lease expired without a report back to retryable/failed.",
    }
}

/// Expire pending host-enrollment tickets past their deadline.
pub fn expired_enrollment_ticket_sweep() -> (r: ChrononJobSpec)
    ensures
        r == expired_enrollment_ticket_sweep_spec(),
{
    ChrononJobSpec {
        name: "pion.agent_enrollment.expired_ticket_sweep",
        cron_expr: "*/15 * * * *",
        description: "Mark pending host-enrollment tickets past expires_at as revoked/expired.",
    }
}

/// Prune container observations stale well beyond the freshness window.
pub fn stale_container_observation_prune() -> (r: ChrononJobSpec)
    ensures
        r == stale_container_observation_prune_spec(),
{
    ChrononJobSpec {
        name: "pion.container_observation.stale_prune",
        cron_expr: "0 * * * *",
        description: "Delete container-observation rows stale well beyond the freshness window (decommissioned nodes).",
    }
}

/// All jobs, in registration order.
pub fn all_jobs() -> (r: [ChrononJobSpec; 3])
    ensures
        r@ == jobs(),
{
    let r = [expired_lease_sweep(), expired_enrollment_ticket_sweep(), stale_container_observation_prune()];
    assert(r@ =~= jobs());
    r
}

/// Number of whitespace-separated fields of `s` (`str::split_whitespace().count()`): the
/// non-whitespace characters that start the text or follow whitespace.
pub open spec fn field_count(s: Seq<char>) -> nat
    decreases s.len(),
{
    if s.len() == 0 {
        0
    } else {
        field_count(s.drop_last()) + if !is_whitespace_char(s.last()) && (s.len() == 1
            || is_whitespace_char(s[s.len() - 2])) {
            1nat
        } else {
            0nat
        }
    }
}

/// Every job has a name, a description and a five-field schedule; the names are distinct
/// and all live under `pion.`.
pub proof fn lemma_jobs_well_formed()
    ensures
        forall|i: int|
            0 <= i < jobs().len() ==> {
                let j = #[trigger] jobs()[i];
                &&& j.name@.len() > 0
                &&& j.description@.len() > 0
                &&& field_count(j.cron_expr@) == 5
                &&& starts_with_seq(j.name@, "pion."@)
            },
        forall|i: int, k: int| 0 <= i < k < jobs().len() ==> jobs()[i].name@ != jobs()[k].name@,
{
    reveal_strlit("pion.node_actions.expired_lease_sweep");
    reveal_strlit("pion.agent_enrollment.expired_ticket_sweep");
    reveal_strlit("pion.container_observation.stale_prune");
    reveal_strlit("*/2 * * * *");
    reveal_strlit("*/15 * * * *");
    reveal_strlit("0 * * * *");
    reveal_strlit("Reconcile node actions whose lease expired without a report back to retryable/failed.");
    reveal_strlit("Mark pending host-enrollment tickets past expires_at as revoked/expired.");
    reveal_strlit("Delete container-observation rows stale well beyond the freshness window (decommissioned nodes).");
    reveal_strlit("pion.");
    reveal_with_fuel(field_count, 14);
    assert(field_count("*/2 * * * *"@) == 5);
    assert(field_count("*/15 * * * *"@) == 5);
    assert(field_count("0 * * * *"@) == 5);
    let a = "pion.node_actions.expired_lease_sweep"@;
    let b = "pion.agent_enrollment.expired_ticket_sweep"@;
    let c = "pion.container_observation.stale_prune"@;
    assert(a.len() == 37 && b.len() == 42 && c.len() == 38);
    assert(a.subrange(0, 5) =~= "pion."@);
    assert(b.subrange(0, 5) =~= "pion."@);
    assert(c.subrange(0, 5) =~= "pion."@);
    assert(jobs()[0] == expired_lease_sweep_spec());
    assert(jobs()[1] == expired_enrollment_ticket_sweep_spec());
    assert(jobs()[2] == stale_container_observation_prune_spec());
}

} // verus!
