//! Setup-wizard progress events (`gluon.setup_wizard.*.updated`) driven by the correlation
//! keys of node actions.
//!
//! The topic strings stay for subscriber compatibility. [`tracked_setup_wizard_update`]
//! decides which event, if any, a correlation key and phase call for; publishing it is the
//! caller's business and best effort.
use vstd::prelude::*;

use crate::text::{chars_of, find_char, first_index_of, push_str, starts_with_seq, starts_with_str,
    string_of_range, trim_seq, trim_to_string};

verus! {

/// Session id of the default setup-wizard session.
pub const DEFAULT_WIZARD_SESSION: &'static str = "default";

/// Progress of a database infrastructure stack action.
#[derive(Debug, Clone)]
pub struct PionSetupWizardDbInfraUpdated {
    /// Setup-wizard session record id.
    pub setup_wizard_session_id: String,
    /// Target cell id.
    pub cell_id: String,
    /// `phase:correlation_key`.
    pub status: String,
}

/// Progress of an application or service deploy step.
#[derive(Debug, Clone)]
pub struct PionSetupWizardServiceDeployUpdated {
    /// Setup-wizard session record id.
    pub setup_wizard_session_id: String,
    /// Target cell id.
    pub cell_id: String,
    /// `phase:correlation_key`.
    pub status: String,
}

/// Progress of a host capacity, hardware or DNS probe.
#[derive(Debug, Clone)]
pub struct PionSetupWizardCapacityUpdated {
    /// Setup-wizard session record id.
    pub setup_wizard_session_id: String,
    /// Target cell id.
    pub cell_id: String,
    /// `phase:correlation_key`.
    pub status: String,
}

/// Progress of an inter-cell reachability probe.
#[derive(Debug, Clone)]
pub struct PionSetupWizardIntercellProbeUpdated {
    /// Setup-wizard session record id.
    pub setup_wizard_session_id: String,
    /// The whole correlation key (it encodes the cell pair).
    pub cell_id: String,
    /// `phase:correlation_key`.
    pub status: String,
}

/// A host enrollment row was created, claimed or revoked.
#[derive(Debug, Clone)]
pub struct PionSetupWizardHostEnrollmentUpdated {
    /// Setup-wizard session record id.
    pub setup_wizard_session_id: String,
    /// Enrollment row id.
    pub enrollment_id: String,
    /// Wire status (`pending`, `claimed`, `revoked`, ...).
    pub status: String,
}

impl PionSetupWizardDbInfraUpdated {
    /// Topic of this event.
    pub fn topic() -> (r: &'static str)
        ensures
            r@ == "gluon.setup_wizard.db_infra.updated"@,
    {
        "gluon.setup_wizard.db_infra.updated"
    }
}

impl PionSetupWizardServiceDeployUpdated {
    /// Topic of this event.
    pub fn topic() -> (r: &'static str)
        ensures
            r@ == "gluon.setup_wizard.service_deploy.updated"@,
    {
        "gluon.setup_wizard.service_deploy.updated"
    }
}

impl PionSetupWizardCapacityUpdated {
    /// Topic of this event.
    pub fn topic() -> (r: &'static str)
        ensures
            r@ == "gluon.setup_wizard.capacity.updated"@,
    {
        "gluon.setup_wizard.capacity.updated"
    }
}

impl PionSetupWizardIntercellProbeUpdated {
    /// Topic of this event.
    pub fn topic() -> (r: &'static str)
        ensures
            r@ == "gluon.setup_wizard.intercell_probe.updated"@,
    {
        "gluon.setup_wizard.intercell_probe.updated"
    }
}

impl PionSetupWizardHostEnrollmentUpdated {
    /// Topic of this event.
    pub fn topic() -> (r: &'static str)
        ensures
            r@ == "gluon.setup_wizard.host_enrollment.updated"@,
    {
        "gluon.setup_wizard.host_enrollment.updated"
    }

    /// The event for an enrollment row's new status.
    pub fn new(setup_wizard_session_id: &str, enrollment_id: &str, status: &str) -> (r: Self)
        ensures
            r.setup_wizard_session_id@ == setup_wizard_session_id@,
            r.enrollment_id@ == enrollment_id@,
            r.status@ == status@,
    {
        PionSetupWizardHostEnrollmentUpdated {
            setup_wizard_session_id: setup_wizard_session_id.to_owned(),
            enrollment_id: enrollment_id.to_owned(),
            status: status.to_owned(),
        }
    }
}

/// The event a tracked node action calls for.
#[derive(Debug, Clone)]
pub enum SetupWizardUpdate {
    DbInfra(PionSetupWizardDbInfraUpdated),
    ServiceDeploy(PionSetupWizardServiceDeployUpdated),
    Capacity(PionSetupWizardCapacityUpdated),
    IntercellProbe(PionSetupWizardIntercellProbeUpdated),
}

/// Which of the events.
#[derive(Debug, Clone, Copy, PartialEq, Eq, Structural)]
pub enum UpdateKind {
    DbInfra,
    ServiceDeploy,
    Capacity,
    IntercellProbe,
}

/// The text of `s` before its first `:`, or all of it.
pub open spec fn before_colon(s: Seq<char>) -> Seq<char> {
    match first_index_of(s, ':') {
        Some(i) => s.subrange(0, i),
        None => s,
    }
}

/// Kind, cell id and status of the event that correlation key `key` at phase `phase` calls
/// for; `None` for a blank key or an untracked prefix. Keys are read trimmed, and the status
/// is the trimmed phase, `:`, and the trimmed key.
pub open spec fn tracked_update(key: Seq<char>, phase: Seq<char>) -> Option<(UpdateKind, Seq<char>, Seq<char>)> {
    let ck = trim_seq(key);
    let status = trim_seq(phase) + ":"@ + ck;
    if ck.len() == 0 {
        None
    } else if starts_with_seq(ck, "setup_wizard_db_infra:"@) {
        Some((UpdateKind::DbInfra, ck.subrange("setup_wizard_db_infra:"@.len() as int, ck.len() as int), status))
    } else if starts_with_seq(ck, "setup_wizard_service_deploy:"@) {
        Some((UpdateKind::ServiceDeploy, ck.subrange("setup_wizard_service_deploy:"@.len() as int, ck.len() as int), status))
    } else if starts_with_seq(ck, "host_hw_probe:"@) {
        Some((UpdateKind::Capacity, before_colon(ck.subrange("host_hw_probe:"@.len() as int, ck.len() as int)), status))
    } else if starts_with_seq(ck, "setup_wizard_intercell_probe:"@) {
        Some((UpdateKind::IntercellProbe, ck, status))
    } else if starts_with_seq(ck, "setup_wizard_dns_probe:"@) {
        Some((UpdateKind::Capacity, "global_dns"@, status))
    } else {
        None
    }
}

/// Kind, session id, cell id and status of an event.
pub open spec fn update_view(u: SetupWizardUpdate) -> (UpdateKind, Seq<char>, Seq<char>, Seq<char>) {
    match u {
        SetupWizardUpdate::DbInfra(e) => (UpdateKind::DbInfra, e.setup_wizard_session_id@, e.cell_id@, e.status@),
        SetupWizardUpdate::ServiceDeploy(e) => (UpdateKind::ServiceDeploy, e.setup_wizard_session_id@, e.cell_id@, e.status@),
        SetupWizardUpdate::Capacity(e) => (UpdateKind::Capacity, e.setup_wizard_session_id@, e.cell_id@, e.status@),
        SetupWizardUpdate::IntercellProbe(e) => (UpdateKind::IntercellProbe, e.setup_wizard_session_id@, e.cell_id@, e.status@),
    }
}

fn tail_after(ck: &Vec<char>, prefix_len: usize) -> (r: String)
    requires
        prefix_len <= ck@.len(),
    ensures
        r@ == ck@.subrange(prefix_len as int, ck@.len() as int),
{
    string_of_range(ck, prefix_len, ck.len())
}

/// The setup-wizard event that a node action with correlation key `correlation_key` reaching
/// `phase` calls for (see [`tracked_update`]), always in the default session.
pub fn tracked_setup_wizard_update(correlation_key: &str, phase: &str) -> (r: Option<SetupWizardUpdate>)
    ensures
        match (r, tracked_update(correlation_key@, phase@)) {
            (None, None) => true,
            (Some(u), Some((kind, cell, status))) => update_view(u) == (kind, DEFAULT_WIZARD_SESSION@, cell, status),
            _ => false,
        },
{
    let ck = trim_to_string(correlation_key);
    if ck.as_str().is_empty() {
        return None;
    }
    let mut status = trim_to_string(phase);
    push_str(&mut status, ":");
    push_str(&mut status, ck.as_str());
    let v = chars_of(ck.as_str());
    let session = DEFAULT_WIZARD_SESSION.to_owned();
    proof {
        reveal_strlit("setup_wizard_db_infra:");
        reveal_strlit("setup_wizard_service_deploy:");
        reveal_strlit("host_hw_probe:");
    }
    if starts_with_str(ck.as_str(), "setup_wizard_db_infra:") {
        let cell_id = tail_after(&v, 22);
        return Some(
            SetupWizardUpdate::DbInfra(
                PionSetupWizardDbInfraUpdated { setup_wizard_session_id: session, cell_id, status },
            ),
        );
    }
    if starts_with_str(ck.as_str(), "setup_wizard_service_deploy:") {
        let cell_id = tail_after(&v, 28);
        return Some(
            SetupWizardUpdate::ServiceDeploy(
                PionSetupWizardServiceDeployUpdated {
                    setup_wizard_session_id: session,
                    cell_id,
                    status,
                },
            ),
        );
    }
    if starts_with_str(ck.as_str(), "host_hw_probe:") {
        let rest = tail_after(&v, 14);
        let rv = chars_of(rest.as_str());
        let cell_id = match find_char(&rv, ':') {
            Some(i) => string_of_range(&rv, 0, i),
            None => rest,
        };
        return Some(
            SetupWizardUpdate::Capacity(
                PionSetupWizardCapacityUpdated { setup_wizard_session_id: session, cell_id, status },
            ),
        );
    }
    if starts_with_str(ck.as_str(), "setup_wizard_intercell_probe:") {
        return Some(
            SetupWizardUpdate::IntercellProbe(
                PionSetupWizardIntercellProbeUpdated {
                    setup_wizard_session_id: session,
                    cell_id: ck,
                    status,
                },
            ),
        );
    }
    if starts_with_str(ck.as_str(), "setup_wizard_dns_probe:") {
        return Some(
            SetupWizardUpdate::Capacity(
                PionSetupWizardCapacityUpdated {
                    setup_wizard_session_id: session,
                    cell_id: "global_dns".to_owned(),
                    status,
                },
            ),
        );
    }
    None
}

} // verus!
