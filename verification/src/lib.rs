//! Supervisor for a long-running miner process: it parses the miner's
//! line-oriented output into metric records, plans the batches that a
//! monitoring backend receives, and drives the single-instance daemon
//! lifecycle. All decision logic lives here, verified; process, file and
//! network effects are carried out by the surrounding binary.

pub mod errors;
pub mod forward;
pub mod lifecycle;
pub mod metrics;
pub mod num;
pub mod parser;
pub mod pump;
pub mod supervisor;
pub mod text;

use vstd::prelude::*;

verus! {

/// The directory holding the daemon's PID file and its redirected output.
pub const DAEMON_FILE_PATH: &'static str = "/tmp/ore_miner";

/// The well-known name of the miner executable, resolved via the system
/// path when no custom path is configured.
pub const STANDALONE_BINARY_NAME: &'static str = "ore";

} // verus!
