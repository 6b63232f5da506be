//! The decisions of the auto-sync daemon. The daemon itself, a long-lived
//! task that sleeps, fetches and pulls, runs outside this library and asks
//! here what to do next.

use vstd::prelude::*;
use vstd::string::*;
use crate::models::{SyncConfig, SyncMode};

verus! {

/// The seconds after which the configuration is read again while nothing
/// is scheduled.
pub const POLL_SECONDS: u64 = 30;

/// What the daemon does in its next cycle.
#[derive(Debug, Clone, Copy, PartialEq, Eq, Structural)]
pub enum DaemonStep {
    /// Sleep, then read the configuration again.
    Recheck { after_seconds: u64 },
    /// Wait for the interval, then fetch and pull if the remote is ahead.
    PullAfter { seconds: u64 },
}

/// The next cycle under `config`: scheduled pulls run in the automatic mode
/// while synchronisation is switched on; otherwise, and for an interval of
/// zero seconds, which no timer takes, the configuration is read again
/// after 30 seconds.
pub open spec fn planned(config: Option<SyncConfig>) -> DaemonStep {
    match config {
        Some(SyncConfig { enabled: true, mode: SyncMode::Auto { interval_seconds } }) => if interval_seconds
            > 0 {
            DaemonStep::PullAfter { seconds: interval_seconds }
        } else {
            DaemonStep::Recheck { after_seconds: POLL_SECONDS }
        },
        _ => DaemonStep::Recheck { after_seconds: POLL_SECONDS },
    }
}

/// The state of the daemon: the vault directory and the configuration it
/// last read.
pub struct SyncDaemon {
    vault_path: String,
    config: Option<SyncConfig>,
}

impl SyncDaemon {
    /// The vault directory.
    pub closed spec fn spec_vault_path(&self) -> Seq<char> {
        self.vault_path@
    }

    /// The configuration last read.
    pub closed spec fn spec_config(&self) -> Option<SyncConfig> {
        self.config
    }

    /// A daemon for the vault in `vault_path`, with no configuration read
    /// yet.
    pub fn new(vault_path: &str) -> (r: Self)
        ensures
            r.spec_vault_path() == vault_path@,
            r.spec_config() is None,
    {
        SyncDaemon { vault_path: String::from_str(vault_path), config: None }
    }

    /// The vault directory.
    pub fn vault_path(&self) -> (r: &str)
        ensures
            r@ == self.spec_vault_path(),
    {
        self.vault_path.as_str()
    }

    /// Takes the configuration just read.
    pub fn update_config(&mut self, config: Option<SyncConfig>)
        ensures
            final(self).spec_config() == config,
            final(self).spec_vault_path() == old(self).spec_vault_path(),
    {
        self.config = config;
    }

    /// What to do in the next cycle.
    pub fn next_step(&self) -> (r: DaemonStep)
        ensures
            r == planned(self.spec_config()),
    {
        match self.config {
            Some(config) => {
                if config.enabled {
                    match config.mode.interval_seconds() {
                        Some(seconds) => {
                            if seconds > 0 {
                                DaemonStep::PullAfter { seconds }
                            } else {
                                DaemonStep::Recheck { after_seconds: POLL_SECONDS }
                            }
                        },
                        None => DaemonStep::Recheck { after_seconds: POLL_SECONDS },
                    }
                } else {
                    DaemonStep::Recheck { after_seconds: POLL_SECONDS }
                }
            },
            None => DaemonStep::Recheck { after_seconds: POLL_SECONDS },
        }
    }

    /// Whether to pull after a fetch that found the remote `behind` commits
    /// ahead of the local branch.
    pub fn should_pull(behind: usize) -> (r: bool)
        ensures
            r == (behind > 0),
    {
        behind > 0
    }
}

} // verus!
