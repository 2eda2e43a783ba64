//! The tunables of an adapter. They are fixed when a lifecycle manager is
//! created and copied into it.

use vstd::prelude::*;

verus! {

/// The largest capacity that an output channel can be created with.
pub open spec fn max_channel_capacity() -> int {
    (usize::MAX / 8) as int
}

/// Configuration for adapter behavior.
#[derive(Debug, Clone, Copy)]
pub struct AdapterConfig {
    /// Number of consecutive crashes after which the manager gives up.
    pub max_restarts: u8,
    /// Capacity of the output channel (bounded to prevent memory growth).
    pub channel_capacity: usize,
    /// Health check interval in seconds (for long-running subprocesses).
    pub health_check_interval_secs: u64,
    /// Timeout for one-shot calls in seconds.
    pub call_timeout_secs: u64,
    /// Graceful shutdown timeout in seconds.
    pub shutdown_timeout_secs: u64,
}

impl AdapterConfig {
    /// The configuration that is used where none is given.
    pub open spec fn standard() -> AdapterConfig {
        AdapterConfig {
            max_restarts: 3,
            channel_capacity: 100,
            health_check_interval_secs: 5,
            call_timeout_secs: 30,
            shutdown_timeout_secs: 2,
        }
    }

    /// Whether an output channel can be created for this configuration: its
    /// capacity is at least one and within the channel's limit.
    pub open spec fn valid(&self) -> bool {
        0 < self.channel_capacity <= max_channel_capacity()
    }

    /// Tests [`AdapterConfig::valid`].
    pub fn is_valid(&self) -> (ok: bool)
        ensures
            ok == self.valid(),
    {
        self.channel_capacity > 0 && self.channel_capacity <= usize::MAX / 8
    }
}

impl Default for AdapterConfig {
    fn default() -> (config: Self)
        ensures
            config == AdapterConfig::standard(),
            config.valid(),
    {
        AdapterConfig {
            max_restarts: 3,
            channel_capacity: 100,
            health_check_interval_secs: 5,
            call_timeout_secs: 30,
            shutdown_timeout_secs: 2,
        }
    }
}

} // verus!
