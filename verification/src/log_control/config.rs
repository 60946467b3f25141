//! Configuration of the localhost-only runtime log-control server.

use vstd::prelude::*;

verus! {

/// Port bound by the log-control server when none is configured.
pub const DEFAULT_LOG_CONTROL_PORT: u16 = 6669;

/// Configuration for the localhost-only runtime log-control server.
#[derive(Debug, Clone, Copy, PartialEq, Eq)]
pub struct LogControlConfig {
    /// TCP port bound on `127.0.0.1`.
    pub port: u16,
}

impl Default for LogControlConfig {
    fn default() -> (res: Self)
        ensures
            res.port == DEFAULT_LOG_CONTROL_PORT,
    {
        LogControlConfig { port: DEFAULT_LOG_CONTROL_PORT }
    }
}

} // verus!
