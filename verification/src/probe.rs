//! Per-host probing: the port-probe attempt schedule and outcome, the
//! classification of a host from its probe results, and the construction of
//! the record of a discovered host.
//!
//! The probes themselves are network I/O and belong to the caller: it runs
//! the TCP connects and HTTP requests and feeds the outcomes back in here as
//! plain values.

use vstd::prelude::*;
use vstd::string::StringExecFns;
use crate::api::MoonrakerServerInfo;
use crate::config::{DEFAULT_PORT_SCAN_TIMEOUT_MS, SLOW_NETWORK_TIMEOUT_MS, PORT_SCAN_RETRY_COUNT};
use crate::host::{HostInfo, HostStatusResponse};
use crate::status::{
    PrinterFlags, spec_resolve_status, spec_klippy_disconnected, klippy_state_view,
    status_label_chars, resolve_status, status_label,
};
use crate::text::str_eq;
use crate::time::now_rfc3339;

verus! {

broadcast use vstd::string::group_string_axioms;

/// The labels "online" and "offline" differ.
pub proof fn lemma_online_offline_distinct()
    ensures
        "online"@ != "offline"@,
{
    reveal_strlit("online");
    reveal_strlit("offline");
    assert("online"@[1] == 'n' && "offline"@[1] == 'f');
}

/// The connect-timeout schedule of the port probe, in milliseconds: each
/// timeout tier is tried `PORT_SCAN_RETRY_COUNT` times, the fast tier first,
/// then the slow-network escalation.
pub open spec fn spec_port_probe_timeouts() -> Seq<u64> {
    Seq::new(PORT_SCAN_RETRY_COUNT as nat, |i: int| DEFAULT_PORT_SCAN_TIMEOUT_MS) + Seq::new(
        PORT_SCAN_RETRY_COUNT as nat,
        |i: int| SLOW_NETWORK_TIMEOUT_MS,
    )
}

/// The port-probe attempt schedule. The caller attempts one TCP connect per
/// entry, with that connect timeout, in order, and stops at the first
/// success.
pub fn port_probe_timeouts() -> (r: Vec<u64>)
    ensures
        r@ == spec_port_probe_timeouts(),
{
    let mut r: Vec<u64> = Vec::new();
    let mut i: u32 = 0;
    while i < PORT_SCAN_RETRY_COUNT
        invariant
            i <= PORT_SCAN_RETRY_COUNT,
            r@ == Seq::new(i as nat, |k: int| DEFAULT_PORT_SCAN_TIMEOUT_MS),
        decreases PORT_SCAN_RETRY_COUNT - i,
    {
        r.push(DEFAULT_PORT_SCAN_TIMEOUT_MS);
        proof {
            assert(r@ =~= Seq::new((i + 1) as nat, |k: int| DEFAULT_PORT_SCAN_TIMEOUT_MS));
        }
        i = i + 1;
    }
    let mut j: u32 = 0;
    while j < PORT_SCAN_RETRY_COUNT
        invariant
            j <= PORT_SCAN_RETRY_COUNT,
            r@ == Seq::new(PORT_SCAN_RETRY_COUNT as nat, |k: int| DEFAULT_PORT_SCAN_TIMEOUT_MS)
                + Seq::new(j as nat, |k: int| SLOW_NETWORK_TIMEOUT_MS),
        decreases PORT_SCAN_RETRY_COUNT - j,
    {
        r.push(SLOW_NETWORK_TIMEOUT_MS);
        proof {
            assert(r@ =~= Seq::new(PORT_SCAN_RETRY_COUNT as nat, |k: int| DEFAULT_PORT_SCAN_TIMEOUT_MS)
                + Seq::new((j + 1) as nat, |k: int| SLOW_NETWORK_TIMEOUT_MS));
        }
        j = j + 1;
    }
    proof {
        assert(r@ =~= spec_port_probe_timeouts());
    }
    r
}

/// The reachability verdict from the attempt outcomes: the port is open iff
/// some attempt connected. All failure modes collapse to false — a probe
/// never raises.
pub fn port_probe_outcome(attempts: &Vec<bool>) -> (r: bool)
    ensures
        r == exists|i: int| 0 <= i < attempts@.len() && attempts@[i],
{
    let mut k: usize = 0;
    while k < attempts.len()
        invariant
            k <= attempts@.len(),
            forall|i: int| 0 <= i < k ==> !attempts@[i],
        decreases attempts@.len() - k,
    {
        if attempts[k] {
            return true;
        }
        k = k + 1;
    }
    false
}

/// The Klippy connection state an optional liveness result reports.
pub open spec fn spec_liveness_klippy(liveness: &Option<MoonrakerServerInfo>) -> Option<
    Seq<char>,
> {
    match liveness {
        Some(info) => Some(info.result.klippy_state@),
        None => None,
    }
}

/// A response for a host that could not be classified as online: no liveness
/// data to report.
fn unclassified_response() -> (r: HostStatusResponse)
    ensures
        !r.success,
        r.status@ == "offline"@,
        r.device_status is None,
        r.moonraker_version is None,
        r.klippy_state is None,
        r.printer_state is None,
        r.printer_flags is None,
{
    HostStatusResponse {
        success: false,
        status: String::from_str("offline"),
        device_status: None,
        moonraker_version: None,
        klippy_state: None,
        printer_state: None,
        printer_flags: None,
    }
}

/// Classifies one host from its probe outcomes: the port reachability, the
/// liveness result after the caller's retries, and the flags result.
///
/// A closed port, or liveness failed after retries, is "host offline". A
/// Klippy state of "disconnected" forces offline even though the HTTP layer
/// answered. Flags failed but liveness succeeded is "online, device status
/// unknown": it defaults to standby until flags return.
pub fn evaluate_host_status(
    port_open: bool,
    liveness: &Option<MoonrakerServerInfo>,
    flags: &Option<PrinterFlags>,
) -> (r: HostStatusResponse)
    ensures
        ({
            let live = port_open && liveness is Some;
            let disc = spec_klippy_disconnected(spec_liveness_klippy(liveness));
            &&& r.success == (live && !disc)
            &&& r.status@ == (if live && !disc {
                "online"@
            } else {
                "offline"@
            })
            &&& !live ==> (r.device_status is None && r.moonraker_version is None
                && r.klippy_state is None && r.printer_state is None && r.printer_flags is None)
            &&& liveness matches Some(info) ==> (live ==> ({
                let label = status_label_chars(spec_resolve_status(true, disc, *flags));
                &&& r.device_status matches Some(d) && d@ == label
                &&& r.printer_state matches Some(p) && p@ == label
                &&& r.moonraker_version matches Some(v) && v@ == info.result.moonraker_version@
                &&& r.klippy_state matches Some(k) && k@ == info.result.klippy_state@
                &&& r.printer_flags == (if disc {
                    None::<PrinterFlags>
                } else {
                    *flags
                })
            }))
        }),
{
    if !port_open {
        return unclassified_response();
    }
    match liveness {
        None => unclassified_response(),
        Some(info) => {
            let disconnected = str_eq(info.result.klippy_state.as_str(), "disconnected");
            let klippy = Some(info.result.klippy_state.clone());
            let used_flags = if disconnected {
                None
            } else {
                *flags
            };
            let resolved = resolve_status(true, &klippy, &used_flags);
            let label = status_label(&resolved);
            HostStatusResponse {
                success: !disconnected,
                status: if disconnected {
                    String::from_str("offline")
                } else {
                    String::from_str("online")
                },
                device_status: Some(label.clone()),
                moonraker_version: Some(info.result.moonraker_version.clone()),
                klippy_state: Some(info.result.klippy_state.clone()),
                printer_state: Some(label),
                printer_flags: used_flags,
            }
        },
    }
}

/// Resolves the device status of a stored record, by the fixed priority
/// order: a record whose connectivity is offline, or whose retained Klippy
/// state is "disconnected", is offline whatever flags it retains; otherwise
/// its flags resolve as usual, absent flags meaning standby.
pub fn get_printer_status(host: &HostInfo) -> (r: String)
    ensures
        r@ == status_label_chars(
            spec_resolve_status(
                host.status@ != "offline"@,
                spec_klippy_disconnected(klippy_state_view(&host.klippy_state)),
                host.printer_flags,
            ),
        ),
{
    let reachable = !str_eq(host.status.as_str(), "offline");
    let st = resolve_status(reachable, &host.klippy_state, &host.printer_flags);
    status_label(&st)
}

/// Builds the record of a host the scan classified as online: the hostname
/// the printer's own info endpoint reported (falling back to the IP string),
/// the device status resolved from the flags, the owning subnet label, the
/// given last-seen stamp, and a failure counter reset to zero.
///
/// A server reporting Klippy "disconnected" is not classified as online and
/// gets no record; `scan_record` makes that decision.
pub fn build_host_record(
    ip: &String,
    subnet: &String,
    server: &MoonrakerServerInfo,
    hostname: &Option<String>,
    flags: &Option<PrinterFlags>,
    now: &String,
) -> (r: HostInfo)
    requires
        server.result.klippy_state@ != "disconnected"@,
    ensures
        r.id@ == ip@,
        r.ip_address@ == ip@,
        r.hostname@ == (match hostname {
            Some(h) => h@,
            None => ip@,
        }),
        r.original_hostname@ == r.hostname@,
        r.subnet@ == subnet@,
        r.status@ == "online"@,
        r.device_status@ == status_label_chars(spec_resolve_status(true, false, *flags)),
        r.moonraker_version matches Some(v) && v@ == server.result.moonraker_version@,
        r.klippy_state matches Some(k) && k@ == server.result.klippy_state@,
        r.printer_state matches Some(p) && p@ == r.device_status@,
        r.printer_flags == *flags,
        r.last_seen matches Some(t) && t@ == now@,
        r.failed_attempts == Some(0u32),
        r.wf(),
{
    let name = match hostname {
        Some(h) => h.clone(),
        None => ip.clone(),
    };
    let klippy = Some(server.result.klippy_state.clone());
    let resolved = resolve_status(true, &klippy, flags);
    let label = status_label(&resolved);
    proof {
        lemma_online_offline_distinct();
    }
    HostInfo {
        id: ip.clone(),
        hostname: name.clone(),
        original_hostname: name,
        ip_address: ip.clone(),
        subnet: subnet.clone(),
        status: String::from_str("online"),
        device_status: label.clone(),
        moonraker_version: Some(server.result.moonraker_version.clone()),
        klippy_state: Some(server.result.klippy_state.clone()),
        printer_state: Some(label),
        printer_flags: *flags,
        last_seen: Some(now.clone()),
        failed_attempts: Some(0),
    }
}

/// Builds the record of a host the scan classified as online, stamped with
/// the current wall-clock time.
pub fn build_host_record_now(
    ip: &String,
    subnet: &String,
    server: &MoonrakerServerInfo,
    hostname: &Option<String>,
    flags: &Option<PrinterFlags>,
) -> (r: HostInfo)
    requires
        server.result.klippy_state@ != "disconnected"@,
    ensures
        r.id@ == ip@,
        r.ip_address@ == ip@,
        r.hostname@ == (match hostname {
            Some(h) => h@,
            None => ip@,
        }),
        r.original_hostname@ == r.hostname@,
        r.subnet@ == subnet@,
        r.status@ == "online"@,
        r.device_status@ == status_label_chars(spec_resolve_status(true, false, *flags)),
        r.moonraker_version matches Some(v) && v@ == server.result.moonraker_version@,
        r.klippy_state matches Some(k) && k@ == server.result.klippy_state@,
        r.printer_state matches Some(p) && p@ == r.device_status@,
        r.printer_flags == *flags,
        r.last_seen is Some,
        r.failed_attempts == Some(0u32),
        r.wf(),
{
    let now = now_rfc3339();
    build_host_record(ip, subnet, server, hostname, flags, &now)
}

/// Decides the scan path's outcome for one address whose port was open and
/// whose liveness probe succeeded. A server reporting Klippy "disconnected"
/// could not be classified as online: no record is built, and the host stays
/// out of the online set. Every other liveness success yields the discovered
/// record.
pub fn scan_record(
    ip: &String,
    subnet: &String,
    server: &MoonrakerServerInfo,
    hostname: &Option<String>,
    flags: &Option<PrinterFlags>,
    now: &String,
) -> (r: Option<HostInfo>)
    ensures
        (r is Some) == (server.result.klippy_state@ != "disconnected"@),
        r matches Some(rec) ==> ({
            &&& rec.id@ == ip@
            &&& rec.ip_address@ == ip@
            &&& rec.hostname@ == (match hostname {
                Some(h) => h@,
                None => ip@,
            })
            &&& rec.original_hostname@ == rec.hostname@
            &&& rec.subnet@ == subnet@
            &&& rec.status@ == "online"@
            &&& rec.device_status@ == status_label_chars(spec_resolve_status(true, false, *flags))
            &&& rec.moonraker_version matches Some(v) && v@ == server.result.moonraker_version@
            &&& rec.klippy_state matches Some(k) && k@ == server.result.klippy_state@
            &&& rec.printer_state matches Some(p) && p@ == rec.device_status@
            &&& rec.printer_flags == *flags
            &&& rec.last_seen matches Some(t) && t@ == now@
            &&& rec.failed_attempts == Some(0u32)
            &&& rec.wf()
        }),
{
    if str_eq(server.result.klippy_state.as_str(), "disconnected") {
        None
    } else {
        Some(build_host_record(ip, subnet, server, hostname, flags, now))
    }
}

/// Decides the scan path's outcome for one liveness success, stamped with
/// the current wall-clock time.
pub fn scan_record_now(
    ip: &String,
    subnet: &String,
    server: &MoonrakerServerInfo,
    hostname: &Option<String>,
    flags: &Option<PrinterFlags>,
) -> (r: Option<HostInfo>)
    ensures
        (r is Some) == (server.result.klippy_state@ != "disconnected"@),
        r matches Some(rec) ==> ({
            &&& rec.id@ == ip@
            &&& rec.ip_address@ == ip@
            &&& rec.hostname@ == (match hostname {
                Some(h) => h@,
                None => ip@,
            })
            &&& rec.original_hostname@ == rec.hostname@
            &&& rec.subnet@ == subnet@
            &&& rec.status@ == "online"@
            &&& rec.device_status@ == status_label_chars(spec_resolve_status(true, false, *flags))
            &&& rec.moonraker_version matches Some(v) && v@ == server.result.moonraker_version@
            &&& rec.klippy_state matches Some(k) && k@ == server.result.klippy_state@
            &&& rec.printer_state matches Some(p) && p@ == rec.device_status@
            &&& rec.printer_flags == *flags
            &&& rec.last_seen is Some
            &&& rec.failed_attempts == Some(0u32)
            &&& rec.wf()
        }),
{
    let now = now_rfc3339();
    scan_record(ip, subnet, server, hostname, flags, &now)
}

} // verus!
