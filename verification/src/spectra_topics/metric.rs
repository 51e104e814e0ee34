//! Metric families and their wire topics.
use vstd::prelude::*;

use crate::spectra_topics::{metric_topic, metric_topic_text};

verus! {

/// Handoff directive deliver, ack and collect outcomes.
pub const HANDOFF_DIRECTIVES: &'static str = "pion_handoff_directives";

/// Container state publish outcomes.
pub const HEARTBEAT_PUBLISHES: &'static str = "pion_heartbeat_publishes";

/// Heartbeat ingest outcomes.
pub const HEARTBEATS_INGESTED: &'static str = "pion_heartbeats_ingested";

/// Migration script table operations.
pub const MIGRATION_RUNS: &'static str = "pion_migration_runs";

/// Node action queue outcomes.
pub const NODE_ACTIONS: &'static str = "pion_node_actions";

/// Server bootstrap step outcomes.
pub const SERVER_BOOT_STEPS: &'static str = "pion_server_boot_steps";

/// All metric families, in declaration order.
pub const ALL: [&'static str; 6] = [
    HANDOFF_DIRECTIVES,
    HEARTBEAT_PUBLISHES,
    HEARTBEATS_INGESTED,
    MIGRATION_RUNS,
    NODE_ACTIONS,
    SERVER_BOOT_STEPS,
];

/// The metric family names, in declaration order.
pub open spec fn metric_names() -> Seq<Seq<char>> {
    seq![
        HANDOFF_DIRECTIVES@,
        HEARTBEAT_PUBLISHES@,
        HEARTBEATS_INGESTED@,
        MIGRATION_RUNS@,
        NODE_ACTIONS@,
        SERVER_BOOT_STEPS@,
    ]
}

/// The families in [`ALL`] are [`metric_names`].
pub proof fn lemma_all_lists_metric_names()
    ensures
        ALL@.map_values(|s: &'static str| s@) == metric_names(),
{
    assert(ALL@.map_values(|s: &'static str| s@) =~= metric_names());
}

/// Facts on the metric names: each is non-empty, starts with `pion_`, ends in `s` or `d`, and they
/// are distinct.
pub proof fn lemma_metric_names_facts()
    ensures
        forall|i: int| 0 <= i < metric_names().len() ==> #[trigger] metric_names()[i].len() > 5,
        forall|i: int|
            0 <= i < metric_names().len() ==> #[trigger] metric_names()[i].subrange(0, 5)
                == "pion_"@,
        forall|i: int|
            0 <= i < metric_names().len() ==> (#[trigger] metric_names()[i]).last() == 's'
                || metric_names()[i].last() == 'd',
        forall|i: int, j: int|
            0 <= i < j < metric_names().len() ==> metric_names()[i] != metric_names()[j],
{
    reveal_strlit("pion_handoff_directives");
    reveal_strlit("pion_heartbeat_publishes");
    reveal_strlit("pion_heartbeats_ingested");
    reveal_strlit("pion_migration_runs");
    reveal_strlit("pion_node_actions");
    reveal_strlit("pion_server_boot_steps");
    reveal_strlit("pion_");
    let n = metric_names();
    assert(n[0].subrange(0, 5) =~= "pion_"@);
    assert(n[1].subrange(0, 5) =~= "pion_"@);
    assert(n[2].subrange(0, 5) =~= "pion_"@);
    assert(n[3].subrange(0, 5) =~= "pion_"@);
    assert(n[4].subrange(0, 5) =~= "pion_"@);
    assert(n[5].subrange(0, 5) =~= "pion_"@);
    assert(n[0][6] != n[1][6] && n[0][6] != n[2][6]);
    assert(n[1].len() != n[2].len() || n[1][14] != n[2][14]);
    assert(n[0][5] != n[3][5] && n[0][5] != n[4][5] && n[0][5] != n[5][5]);
    assert(n[1][5] != n[3][5] && n[1][5] != n[4][5] && n[1][5] != n[5][5]);
    assert(n[2][5] != n[3][5] && n[2][5] != n[4][5] && n[2][5] != n[5][5]);
    assert(n[3][5] != n[4][5] && n[3][5] != n[5][5] && n[4][5] != n[5][5]);
}

/// Wire topic of [`HANDOFF_DIRECTIVES`].
pub fn handoff_directives_topic() -> (r: String)
    ensures
        r@ == metric_topic_text(HANDOFF_DIRECTIVES@),
{
    metric_topic(HANDOFF_DIRECTIVES)
}

/// Wire topic of [`HEARTBEAT_PUBLISHES`].
pub fn heartbeat_publishes_topic() -> (r: String)
    ensures
        r@ == metric_topic_text(HEARTBEAT_PUBLISHES@),
{
    metric_topic(HEARTBEAT_PUBLISHES)
}

/// Wire topic of [`HEARTBEATS_INGESTED`].
pub fn heartbeats_ingested_topic() -> (r: String)
    ensures
        r@ == metric_topic_text(HEARTBEATS_INGESTED@),
{
    metric_topic(HEARTBEATS_INGESTED)
}

/// Wire topic of [`MIGRATION_RUNS`].
pub fn migration_runs_topic() -> (r: String)
    ensures
        r@ == metric_topic_text(MIGRATION_RUNS@),
{
    metric_topic(MIGRATION_RUNS)
}

/// Wire topic of [`NODE_ACTIONS`].
pub fn node_actions_topic() -> (r: String)
    ensures
        r@ == metric_topic_text(NODE_ACTIONS@),
{
    metric_topic(NODE_ACTIONS)
}

/// Wire topic of [`SERVER_BOOT_STEPS`].
pub fn server_boot_steps_topic() -> (r: String)
    ensures
        r@ == metric_topic_text(SERVER_BOOT_STEPS@),
{
    metric_topic(SERVER_BOOT_STEPS)
}

} // verus!
