//! Tuning constants of the discovery pipeline, and the notification
//! preferences record.

use vstd::prelude::*;

verus! {

/// Request timeout of one API probe, in seconds.
pub const DEFAULT_TIMEOUT_SECONDS: u64 = 5;

/// Fast connect timeout of one port probe, in milliseconds; fast failure
/// keeps throughput high when scanning hundreds of addresses.
pub const DEFAULT_PORT_SCAN_TIMEOUT_MS: u64 = 500;

/// The fixed Moonraker service port.
pub const MOONRAKER_PORT: u16 = 7125;

/// The webcam stream port.
pub const WEBCAM_PORT: u16 = 8080;

/// Ceiling on simultaneous port probes.
pub const PORT_SCAN_CONCURRENCY: usize = 200;

/// Ceiling on simultaneous API probes.
pub const API_SCAN_CONCURRENCY: usize = 50;

/// Connect attempts per timeout tier of the port probe.
pub const PORT_SCAN_RETRY_COUNT: u32 = 1;

/// Attempts of the liveness probe before a host counts as failed.
pub const API_SCAN_RETRY_COUNT: u32 = 3;

/// Escalated connect timeout for slow or congested links, in milliseconds;
/// the slow retry prevents false negatives on genuinely slow networks.
pub const SLOW_NETWORK_TIMEOUT_MS: u64 = 800;

/// Whether a notification is wanted for each printer state.
#[derive(Debug, Clone, Copy, PartialEq, Eq, Structural)]
pub struct NotificationSettings {
    /// Notify when a printer starts printing.
    pub printing: bool,
    /// Notify when a print is paused.
    pub paused: bool,
    /// Notify on an error state.
    pub error: bool,
    /// Notify when a print is cancelled.
    pub cancelling: bool,
    /// Notify when a printer returns to standby.
    pub standby: bool,
}

impl Default for NotificationSettings {
    /// The default preferences: all state changes but standby are announced.
    fn default() -> (r: Self)
        ensures
            r.printing && r.paused && r.error && r.cancelling && !r.standby,
    {
        NotificationSettings {
            printing: true,
            paused: true,
            error: true,
            cancelling: true,
            standby: false,
        }
    }
}

} // verus!
