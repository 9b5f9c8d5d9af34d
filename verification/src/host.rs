//! Host records: the per-host state a scan produces and the store keeps, and
//! the debounce lifecycle of the consecutive-failure counter.

use vstd::prelude::*;
use vstd::string::StringExecFns;
use crate::status::PrinterFlags;

verus! {

broadcast use vstd::string::group_string_axioms;

/// A stored record needs this many consecutive failed checks before its
/// connectivity flips to offline — one blip is not an outage.
pub const FAILURE_DEBOUNCE_THRESHOLD: u32 = 3;

/// The record of one discovered network host, keyed by its IP address.
#[derive(Debug, Clone)]
pub struct HostInfo {
    pub id: String,
    /// Display hostname; user-editable.
    pub hostname: String,
    /// The hostname as first discovered; immutable once set.
    pub original_hostname: String,
    pub ip_address: String,
    /// The owning subnet's CIDR range.
    pub subnet: String,
    /// Connectivity: "online" or "offline".
    pub status: String,
    /// Derived device status label.
    pub device_status: String,
    pub moonraker_version: Option<String>,
    pub klippy_state: Option<String>,
    pub printer_state: Option<String>,
    /// Absent when the detailed API call failed though the service is
    /// reachable.
    pub printer_flags: Option<PrinterFlags>,
    pub last_seen: Option<String>,
    /// Consecutive failed probe cycles; reset to zero by any success.
    pub failed_attempts: Option<u32>,
}

impl HostInfo {
    /// The stored failure counter, an absent counter counting as zero.
    pub open spec fn spec_failures(&self) -> u32 {
        match self.failed_attempts {
            Some(n) => n,
            None => 0,
        }
    }

    /// The record's invariant: connectivity is one of the two labels, and the
    /// device status is never computed independently of it — an offline
    /// record shows device status "offline", whatever stale flags it retains
    /// from a previous successful probe.
    pub open spec fn wf(&self) -> bool {
        &&& (self.status@ == "online"@ || self.status@ == "offline"@)
        &&& (self.status@ == "offline"@ ==> self.device_status@ == "offline"@)
    }
}

/// The outcome of one single-host status check.
#[derive(Debug, Clone)]
pub struct HostStatusResponse {
    /// Whether the host could be classified as online.
    pub success: bool,
    /// Connectivity: "online" or "offline".
    pub status: String,
    pub device_status: Option<String>,
    pub moonraker_version: Option<String>,
    pub klippy_state: Option<String>,
    pub printer_state: Option<String>,
    pub printer_flags: Option<PrinterFlags>,
}

/// One subnet a scan may cover; only enabled subnets participate.
#[derive(Debug, Clone)]
pub struct SubnetConfig {
    /// Human label.
    pub name: String,
    /// CIDR string.
    pub range: String,
    pub enabled: bool,
}

/// The aggregate of one scan invocation; created fresh per scan and handed to
/// the caller, which merges it into its long-lived store.
#[derive(Debug, Clone)]
pub struct ScanResult {
    /// The discovered records, in probe order.
    pub hosts: Vec<HostInfo>,
    /// How many candidate addresses the scan considered.
    pub total_hosts: usize,
    /// How many hosts were found online.
    pub online_hosts: usize,
    /// Completion flag; 100 once both probing passes finish.
    pub scan_progress: u8,
}

/// The failure counter after one more failed probe cycle.
pub open spec fn spec_bumped_failures(n: u32) -> u32 {
    if n < 0xffff_ffff {
        (n + 1) as u32
    } else {
        n
    }
}

/// Whether a counter has reached the debounce threshold.
pub open spec fn spec_debounced_offline(n: u32) -> bool {
    n >= FAILURE_DEBOUNCE_THRESHOLD
}

/// Applies one failed single-host check to a stored record: the failure
/// counter increments, and only once it reaches the threshold does
/// connectivity flip to offline — the device status following it. Everything
/// else is retained.
pub fn apply_check_failure(rec: &mut HostInfo)
    ensures
        final(rec).failed_attempts == Some(spec_bumped_failures(old(rec).spec_failures())),
        spec_debounced_offline(spec_bumped_failures(old(rec).spec_failures()))
            ==> final(rec).status@ == "offline"@ && final(rec).device_status@ == "offline"@,
        !spec_debounced_offline(spec_bumped_failures(old(rec).spec_failures()))
            ==> final(rec).status == old(rec).status && final(rec).device_status == old(
            rec,
        ).device_status,
        final(rec).id == old(rec).id,
        final(rec).hostname == old(rec).hostname,
        final(rec).original_hostname == old(rec).original_hostname,
        final(rec).ip_address == old(rec).ip_address,
        final(rec).subnet == old(rec).subnet,
        final(rec).moonraker_version == old(rec).moonraker_version,
        final(rec).klippy_state == old(rec).klippy_state,
        final(rec).printer_state == old(rec).printer_state,
        final(rec).printer_flags == old(rec).printer_flags,
        final(rec).last_seen == old(rec).last_seen,
        old(rec).wf() ==> final(rec).wf(),
{
    let n0 = match rec.failed_attempts {
        Some(n) => n,
        None => 0,
    };
    let n1 = if n0 < 0xffff_ffff {
        n0 + 1
    } else {
        n0
    };
    rec.failed_attempts = Some(n1);
    if n1 >= FAILURE_DEBOUNCE_THRESHOLD {
        rec.status = String::from_str("offline");
        rec.device_status = String::from_str("offline");
    }
}

/// Applies one successful single-host check: the failure counter resets to
/// zero immediately, the classification fields take the check's outcome, and
/// the record is stamped as seen now. The display hostname, the original
/// hostname and the identity fields are retained.
pub fn apply_check_success(rec: &mut HostInfo, outcome: &HostStatusResponse, now: &String)
    requires
        outcome.success,
        outcome.status@ == "online"@,
    ensures
        final(rec).failed_attempts == Some(0u32),
        final(rec).status@ == outcome.status@,
        final(rec).device_status@ == (match outcome.device_status {
            Some(d) => d@,
            None => "standby"@,
        }),
        final(rec).moonraker_version == outcome.moonraker_version,
        final(rec).klippy_state == outcome.klippy_state,
        final(rec).printer_state == outcome.printer_state,
        final(rec).printer_flags == outcome.printer_flags,
        final(rec).last_seen matches Some(t) && t@ == now@,
        final(rec).id == old(rec).id,
        final(rec).hostname == old(rec).hostname,
        final(rec).original_hostname == old(rec).original_hostname,
        final(rec).ip_address == old(rec).ip_address,
        final(rec).subnet == old(rec).subnet,
        final(rec).wf(),
{
    rec.failed_attempts = Some(0);
    rec.status = String::from_str("online");
    rec.device_status = match &outcome.device_status {
        Some(d) => d.clone(),
        None => String::from_str("standby"),
    };
    rec.moonraker_version = clone_opt_string(&outcome.moonraker_version);
    rec.klippy_state = clone_opt_string(&outcome.klippy_state);
    rec.printer_state = clone_opt_string(&outcome.printer_state);
    rec.printer_flags = outcome.printer_flags;
    rec.last_seen = Some(now.clone());
    proof {
        reveal_strlit("online");
        reveal_strlit("offline");
        assert("online"@ != "offline"@) by {
            assert("online"@[1] == 'n' && "offline"@[1] == 'f');
        }
    }
}

/// Clones an optional string, the clone seen equal to its source.
fn clone_opt_string(s: &Option<String>) -> (r: Option<String>)
    ensures
        r == *s,
{
    match s {
        Some(v) => Some(v.clone()),
        None => None,
    }
}

/// Law: starting from a fresh counter, three consecutive failed checks — and
/// not fewer — reach the debounce threshold that flips connectivity to
/// offline. (That any success resets the counter to zero at once is the
/// contract of `apply_check_success`.)
pub proof fn lemma_failure_debounce_three_strikes()
    ensures
        !spec_debounced_offline(spec_bumped_failures(0)),
        !spec_debounced_offline(spec_bumped_failures(spec_bumped_failures(0))),
        spec_debounced_offline(
            spec_bumped_failures(spec_bumped_failures(spec_bumped_failures(0))),
        ),
{
}

} // verus!
