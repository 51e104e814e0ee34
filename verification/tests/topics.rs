use pion::spectra_topics::{event, metric, event_topic, metric_topic, STORE};

#[test]
fn event_and_metric_names_are_distinct_and_non_empty() {
    let mut all: Vec<&str> = event::ALL.iter().copied().chain(metric::ALL.iter().copied()).collect();
    assert!(all.iter().all(|name| !name.is_empty()));
    let before = all.len();
    all.sort_unstable();
    all.dedup();
    assert_eq!(all.len(), before, "duplicate topic name across event/metric sets");
}

#[test]
fn event_topics_follow_spectra_event_convention() {
    for &name in event::ALL.iter() {
        assert_eq!(event_topic(name), format!("spectra.event.{name}"));
    }
    assert_eq!(event::heartbeat_log_topic(), "spectra.event.pion_heartbeat_log");
    assert_eq!(event::server_boot_log_topic(), "spectra.event.pion_server_boot_log");
}

#[test]
fn metric_topics_follow_spectra_metric_convention() {
    for &name in metric::ALL.iter() {
        assert_eq!(metric_topic(name), format!("spectra.metric.{name}"));
    }
    assert_eq!(metric::handoff_directives_topic(), "spectra.metric.pion_handoff_directives");
    assert_eq!(metric::heartbeats_ingested_topic(), "spectra.metric.pion_heartbeats_ingested");
    assert_eq!(STORE, "pion");
}

#[test]
fn every_topic_helper_names_its_table() {
    assert_eq!(event::handoff_log_topic(), "spectra.event.pion_handoff_log");
    assert_eq!(event::migration_log_topic(), "spectra.event.pion_migration_log");
    assert_eq!(event::node_action_log_topic(), "spectra.event.pion_node_action_log");
    assert_eq!(metric::heartbeat_publishes_topic(), "spectra.metric.pion_heartbeat_publishes");
    assert_eq!(metric::migration_runs_topic(), "spectra.metric.pion_migration_runs");
    assert_eq!(metric::node_actions_topic(), "spectra.metric.pion_node_actions");
    assert_eq!(metric::server_boot_steps_topic(), "spectra.metric.pion_server_boot_steps");
}
