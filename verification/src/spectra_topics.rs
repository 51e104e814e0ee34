//! Stable topic names of the control plane's telemetry store.
//!
//! Events (structured log tables) travel as `spectra.event.{table}` and metric families as
//! `spectra.metric.{name}`. Every name registers under the store [`STORE`]; no name is empty
//! and no name is both an event table and a metric family.
use vstd::prelude::*;

use crate::text::push_str;

pub mod event;
pub mod metric;

verus! {

/// Store every table and metric family registers under.
pub const STORE: &'static str = "pion";

/// Wire topic of an event table.
pub open spec fn event_topic_text(table: Seq<char>) -> Seq<char> {
    "spectra.event."@ + table
}

/// Wire topic of a metric family.
pub open spec fn metric_topic_text(name: Seq<char>) -> Seq<char> {
    "spectra.metric."@ + name
}

/// The wire topic of the event table `table`.
pub fn event_topic(table: &str) -> (r: String)
    ensures
        r@ == event_topic_text(table@),
{
    let mut s = String::new();
    push_str(&mut s, "spectra.event.");
    push_str(&mut s, table);
    s
}

/// The wire topic of the metric family `name`.
pub fn metric_topic(name: &str) -> (r: String)
    ensures
        r@ == metric_topic_text(name@),
{
    let mut s = String::new();
    push_str(&mut s, "spectra.metric.");
    push_str(&mut s, name);
    s
}

/// Every event table and metric family name, events first.
pub open spec fn all_names() -> Seq<Seq<char>> {
    event::event_names() + metric::metric_names()
}

/// No topic name is empty, and no two are the same, across events and metrics.
pub proof fn lemma_names_distinct_and_non_empty()
    ensures
        forall|i: int| 0 <= i < all_names().len() ==> #[trigger] all_names()[i].len() > 0,
        forall|i: int, j: int|
            0 <= i < j < all_names().len() ==> all_names()[i] != all_names()[j],
{
    event::lemma_event_names_facts();
    metric::lemma_metric_names_facts();
    let e = event::event_names();
    let m = metric::metric_names();
    let a = all_names();
    assert forall|i: int, j: int| 0 <= i < j < a.len() implies a[i] != a[j] by {
        if j < e.len() {
        } else if i >= e.len() {
            assert(a[i] == m[i - e.len()]);
            assert(a[j] == m[j - e.len()]);
        } else {
            assert(a[i] == e[i]);
            assert(a[j] == m[j - e.len()]);
            assert(e[i].last() == 'g');
            assert(m[j - e.len()].last() != 'g');
        }
    }
}

} // verus!
