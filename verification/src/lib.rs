use vstd::prelude::*;

pub mod bench;
pub mod bench_image;
pub mod chronon_hooks;
pub mod contracts;
pub mod decode;
pub mod enrollment;
pub mod hardware;
pub mod json;
pub mod matrix;
pub mod node_actions;
pub mod pool_error;
pub mod remote_agent;
pub mod runner;
pub mod scenario;
pub mod secret_ref;
pub mod selector;
pub mod server;
pub mod setup_wizard;
pub mod spectra_topics;
pub mod telemetry;
pub mod text;

verus! {

/// Seconds after which an observed-status snapshot counts as stale.
pub const OBSERVED_STALE_AFTER_SECS: i64 = 120;

} // verus!
