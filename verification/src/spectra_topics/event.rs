//! Event tables and their wire topics.
use vstd::prelude::*;

use crate::spectra_topics::{event_topic, event_topic_text};

verus! {

/// Heartbeat ingest and container transition trace.
pub const HEARTBEAT_LOG: &'static str = "pion_heartbeat_log";

/// Handoff directive deliver, ack and collect trace.
pub const HANDOFF_LOG: &'static str = "pion_handoff_log";

/// Legacy table migration progress.
pub const MIGRATION_LOG: &'static str = "pion_migration_log";

/// Node action queue lifecycle trace.
pub const NODE_ACTION_LOG: &'static str = "pion_node_action_log";

/// Server bootstrap failures.
pub const SERVER_BOOT_LOG: &'static str = "pion_server_boot_log";

/// All event tables, in declaration order.
pub const ALL: [&'static str; 5] = [
    HEARTBEAT_LOG,
    HANDOFF_LOG,
    MIGRATION_LOG,
    NODE_ACTION_LOG,
    SERVER_BOOT_LOG,
];

/// The event table names, in declaration order.
pub open spec fn event_names() -> Seq<Seq<char>> {
    seq![HEARTBEAT_LOG@, HANDOFF_LOG@, MIGRATION_LOG@, NODE_ACTION_LOG@, SERVER_BOOT_LOG@]
}

/// The tables in [`ALL`] are [`event_names`].
pub proof fn lemma_all_lists_event_names()
    ensures
        ALL@.map_values(|s: &'static str| s@) == event_names(),
{
    assert(ALL@.map_values(|s: &'static str| s@) =~= event_names());
}

/// Facts on the event names: each is non-empty, starts with `pion_`, and they are distinct.
pub proof fn lemma_event_names_facts()
    ensures
        forall|i: int| 0 <= i < event_names().len() ==> #[trigger] event_names()[i].len() > 5,
        forall|i: int|
            0 <= i < event_names().len() ==> #[trigger] event_names()[i].subrange(0, 5) == "pion_"@,
        forall|i: int|
            0 <= i < event_names().len() ==> (#[trigger] event_names()[i]).last() == 'g',
        forall|i: int, j: int|
            0 <= i < j < event_names().len() ==> event_names()[i] != event_names()[j],
{
    reveal_strlit("pion_heartbeat_log");
    reveal_strlit("pion_handoff_log");
    reveal_strlit("pion_migration_log");
    reveal_strlit("pion_node_action_log");
    reveal_strlit("pion_server_boot_log");
    reveal_strlit("pion_");
    let n = event_names();
    assert(n[0].subrange(0, 5) =~= "pion_"@);
    assert(n[1].subrange(0, 5) =~= "pion_"@);
    assert(n[2].subrange(0, 5) =~= "pion_"@);
    assert(n[3].subrange(0, 5) =~= "pion_"@);
    assert(n[4].subrange(0, 5) =~= "pion_"@);
    assert(n[0][6] != n[1][6]);
    assert(n[0][5] != n[2][5] && n[0][5] != n[3][5] && n[0][5] != n[4][5]);
    assert(n[1][5] != n[2][5] && n[1][5] != n[3][5] && n[1][5] != n[4][5]);
    assert(n[2][5] != n[3][5] && n[2][5] != n[4][5] && n[3][5] != n[4][5]);
}

/// Wire topic of [`HEARTBEAT_LOG`].
pub fn heartbeat_log_topic() -> (r: String)
    ensures
        r@ == event_topic_text(HEARTBEAT_LOG@),
{
    event_topic(HEARTBEAT_LOG)
}

/// Wire topic of [`HANDOFF_LOG`].
pub fn handoff_log_topic() -> (r: String)
    ensures
        r@ == event_topic_text(HANDOFF_LOG@),
{
    event_topic(HANDOFF_LOG)
}

/// Wire topic of [`MIGRATION_LOG`].
pub fn migration_log_topic() -> (r: String)
    ensures
        r@ == event_topic_text(MIGRATION_LOG@),
{
    event_topic(MIGRATION_LOG)
}

/// Wire topic of [`NODE_ACTION_LOG`].
pub fn node_action_log_topic() -> (r: String)
    ensures
        r@ == event_topic_text(NODE_ACTION_LOG@),
{
    event_topic(NODE_ACTION_LOG)
}

/// Wire topic of [`SERVER_BOOT_LOG`].
pub fn server_boot_log_topic() -> (r: String)
    ensures
        r@ == event_topic_text(SERVER_BOOT_LOG@),
{
    event_topic(SERVER_BOOT_LOG)
}

} // verus!
