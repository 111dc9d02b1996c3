use vstd::prelude::*;

verus! {

/// The TCP port the supervised service binds on loopback.
pub const SERVICE_PORT: u16 = 8501;

/// Number of readiness probes issued before the prober reports a timeout.
pub const MAX_ATTEMPTS: u32 = 60;

/// Fixed pause between consecutive readiness probes, in milliseconds.
pub const PROBE_INTERVAL_MS: u64 = 500;

/// Pause after the service is first seen ready, before the window handoff.
pub const SETTLE_DELAY_MS: u64 = 500;

/// Pause between redirecting the primary window and the hide/show swap,
/// so the primary window has begun loading before the placeholder vanishes.
pub const LOAD_DELAY_MS: u64 = 250;

/// Immutable description of the one supervised service: where to probe it
/// and the timing policy for probing and for the window handoff.
pub struct ServiceConfig {
    /// Loopback URL the readiness probe targets and the primary window loads.
    pub url: String,
    /// TCP port the service binds; the termination sweep enumerates it.
    pub port: u16,
    /// Probes issued before giving up and proceeding anyway.
    pub max_attempts: u32,
    /// Delay between consecutive probes, in milliseconds.
    pub interval_ms: u64,
    /// Delay after readiness before the handoff begins, in milliseconds.
    pub settle_ms: u64,
    /// Delay between redirect and hide/show, in milliseconds.
    pub load_ms: u64,
}

impl ServiceConfig {
    /// A configuration is well formed when probing is bounded by at least
    /// one attempt.
    pub open spec fn wf(self) -> bool {
        self.max_attempts >= 1
    }
}

/// The compiled-in configuration: sixty probes half a second apart
/// (a thirty-second soft timeout) against the loopback service port.
pub fn default_config() -> (c: ServiceConfig)
    ensures
        c.url@ == "http://localhost:8501"@,
        c.port == SERVICE_PORT,
        c.max_attempts == MAX_ATTEMPTS,
        c.interval_ms == PROBE_INTERVAL_MS,
        c.settle_ms == SETTLE_DELAY_MS,
        c.load_ms == LOAD_DELAY_MS,
        c.wf(),
{
    ServiceConfig {
        url: "http://localhost:8501".to_owned(),
        port: SERVICE_PORT,
        max_attempts: MAX_ATTEMPTS,
        interval_ms: PROBE_INTERVAL_MS,
        settle_ms: SETTLE_DELAY_MS,
        load_ms: LOAD_DELAY_MS,
    }
}

} // verus!
