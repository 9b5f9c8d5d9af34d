//! Progress feedback of one running scan: the phase, a percentage, and a
//! human-readable message. The port phase spans the first 40 percent of the
//! bar, the API phase the next 50, completion the rest.

use vstd::prelude::*;
use vstd::string::StringExecFns;
use crate::text::{dec_digits, append_u64};

verus! {

/// The phases of one scan.
#[derive(Debug, Clone, Copy, PartialEq, Eq, Structural)]
pub enum ScanPhase {
    /// Preparing the scan.
    Preparing,
    /// Port-probing the candidate addresses.
    PortScanning,
    /// Probing the APIs of the port-open hosts.
    ApiChecking,
    /// The scan finished.
    Completed,
    /// The scan failed.
    Error,
}

/// Progress of one running scan.
#[derive(Debug, Clone)]
pub struct ScanProgress {
    /// Current phase.
    pub phase: ScanPhase,
    /// Progress percentage, 0 to 100.
    pub percentage: u8,
    /// The address currently being probed, if any.
    pub current_ip: Option<String>,
    /// How many candidate addresses the scan considers.
    pub total_ips: usize,
    /// How many addresses the current phase has finished.
    pub scanned_ips: usize,
    /// How many hosts were found so far.
    pub found_hosts: usize,
    /// Phase-specific message.
    pub message: String,
}

/// The port phase's share of the bar: 40 percent, by the scanned fraction.
pub open spec fn spec_port_pct(scanned: int, total: int) -> int {
    if total <= 0 {
        0
    } else if 40 * scanned / total > 40 {
        40
    } else {
        40 * scanned / total
    }
}

/// The bar during the API phase: the full port share plus up to 50 percent,
/// by the checked fraction.
pub open spec fn spec_api_pct(checked: int, total: int) -> int {
    if total <= 0 {
        40
    } else if 50 * checked / total > 50 {
        90
    } else {
        40 + 50 * checked / total
    }
}

/// The message of the port phase.
pub open spec fn spec_port_message(scanned: nat, total: nat) -> Seq<char> {
    "Scanning ports: "@ + dec_digits(scanned) + "/"@ + dec_digits(total) + " IPs"@
}

/// The message of the API phase.
pub open spec fn spec_api_message(checked: nat, total: nat, found: nat) -> Seq<char> {
    "Checking APIs: "@ + dec_digits(checked) + "/"@ + dec_digits(total) + " IPs, found "@
        + dec_digits(found) + " hosts"@
}

/// The completion message.
pub open spec fn spec_completed_message(found: nat) -> Seq<char> {
    "Scan completed! Found "@ + dec_digits(found) + " hosts"@
}

impl Default for ScanProgress {
    /// Fresh progress: preparing, nothing scanned yet.
    fn default() -> (r: Self)
        ensures
            r.phase == ScanPhase::Preparing,
            r.percentage == 0,
            r.current_ip is None,
            r.total_ips == 0,
            r.scanned_ips == 0,
            r.found_hosts == 0,
            r.message@ == "Preparing scan..."@,
    {
        ScanProgress {
            phase: ScanPhase::Preparing,
            percentage: 0,
            current_ip: None,
            total_ips: 0,
            scanned_ips: 0,
            found_hosts: 0,
            message: String::from_str("Preparing scan..."),
        }
    }
}

impl ScanProgress {
    /// Fresh progress for a scan over the given number of candidates.
    pub fn new(total_ips: usize) -> (r: Self)
        ensures
            r.phase == ScanPhase::Preparing,
            r.percentage == 0,
            r.current_ip is None,
            r.total_ips == total_ips,
            r.scanned_ips == 0,
            r.found_hosts == 0,
            r.message@ == "Preparing scan..."@,
    {
        let mut p = Self::default();
        p.total_ips = total_ips;
        p
    }

    /// Enters or advances the port-scanning phase.
    pub fn update_port_scanning(&mut self, scanned: usize)
        ensures
            final(self).phase == ScanPhase::PortScanning,
            final(self).scanned_ips == scanned,
            final(self).percentage == spec_port_pct(scanned as int, old(self).total_ips as int),
            final(self).message@ == spec_port_message(scanned as nat, old(self).total_ips as nat),
            final(self).total_ips == old(self).total_ips,
            final(self).current_ip == old(self).current_ip,
            final(self).found_hosts == old(self).found_hosts,
    {
        self.phase = ScanPhase::PortScanning;
        self.scanned_ips = scanned;
        self.percentage = if self.total_ips == 0 {
            0
        } else {
            let p = (scanned as u128) * 40 / (self.total_ips as u128);
            if p > 40 {
                40
            } else {
                p as u8
            }
        };
        let mut m = String::new();
        m.append("Scanning ports: ");
        append_u64(&mut m, scanned as u64);
        m.append("/");
        append_u64(&mut m, self.total_ips as u64);
        m.append(" IPs");
        proof {
            assert(m@ =~= spec_port_message(scanned as nat, self.total_ips as nat));
        }
        self.message = m;
    }

    /// Enters or advances the API-checking phase.
    pub fn update_api_checking(&mut self, checked: usize, found: usize)
        ensures
            final(self).phase == ScanPhase::ApiChecking,
            final(self).scanned_ips == checked,
            final(self).found_hosts == found,
            final(self).percentage == spec_api_pct(checked as int, old(self).total_ips as int),
            final(self).message@ == spec_api_message(
                checked as nat,
                old(self).total_ips as nat,
                found as nat,
            ),
            final(self).total_ips == old(self).total_ips,
            final(self).current_ip == old(self).current_ip,
    {
        self.phase = ScanPhase::ApiChecking;
        self.scanned_ips = checked;
        self.found_hosts = found;
        self.percentage = if self.total_ips == 0 {
            40
        } else {
            let p = (checked as u128) * 50 / (self.total_ips as u128);
            if p > 50 {
                90
            } else {
                40 + (p as u8)
            }
        };
        let mut m = String::new();
        m.append("Checking APIs: ");
        append_u64(&mut m, checked as u64);
        m.append("/");
        append_u64(&mut m, self.total_ips as u64);
        m.append(" IPs, found ");
        append_u64(&mut m, found as u64);
        m.append(" hosts");
        proof {
            assert(m@ =~= spec_api_message(
                checked as nat,
                self.total_ips as nat,
                found as nat,
            ));
        }
        self.message = m;
    }

    /// Marks the scan as completed.
    pub fn complete(&mut self, found_hosts: usize)
        ensures
            final(self).phase == ScanPhase::Completed,
            final(self).percentage == 100,
            final(self).found_hosts == found_hosts,
            final(self).message@ == spec_completed_message(found_hosts as nat),
            final(self).total_ips == old(self).total_ips,
            final(self).scanned_ips == old(self).scanned_ips,
            final(self).current_ip == old(self).current_ip,
    {
        self.phase = ScanPhase::Completed;
        self.percentage = 100;
        self.found_hosts = found_hosts;
        let mut m = String::new();
        m.append("Scan completed! Found ");
        append_u64(&mut m, found_hosts as u64);
        m.append(" hosts");
        proof {
            assert(m@ =~= spec_completed_message(found_hosts as nat));
        }
        self.message = m;
    }

    /// Marks the scan as failed, with the error's description.
    pub fn error(&mut self, error_message: &str)
        ensures
            final(self).phase == ScanPhase::Error,
            final(self).message@ == "Scan error: "@ + error_message@,
            final(self).percentage == old(self).percentage,
            final(self).total_ips == old(self).total_ips,
            final(self).scanned_ips == old(self).scanned_ips,
            final(self).found_hosts == old(self).found_hosts,
            final(self).current_ip == old(self).current_ip,
    {
        self.phase = ScanPhase::Error;
        let mut m = String::new();
        m.append("Scan error: ");
        m.append(error_message);
        proof {
            assert(m@ =~= "Scan error: "@ + error_message@);
        }
        self.message = m;
    }

    /// Records the address currently being probed.
    pub fn set_current_ip(&mut self, ip: Option<String>)
        ensures
            final(self).current_ip == ip,
            final(self).phase == old(self).phase,
            final(self).percentage == old(self).percentage,
            final(self).total_ips == old(self).total_ips,
            final(self).scanned_ips == old(self).scanned_ips,
            final(self).found_hosts == old(self).found_hosts,
            final(self).message == old(self).message,
    {
        self.current_ip = ip;
    }
}

} // verus!
