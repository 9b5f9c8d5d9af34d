use moonraker_scan::api::{MoonrakerServerInfo, ServerInfoResult};
use moonraker_scan::host::{HostStatusResponse, apply_check_failure, apply_check_success};
use moonraker_scan::probe::{build_host_record, build_host_record_now, get_printer_status};
use moonraker_scan::status::PrinterFlags;

fn ready_info() -> MoonrakerServerInfo {
    MoonrakerServerInfo {
        result: ServerInfoResult {
            klippy_connected: true,
            klippy_state: "ready".to_string(),
            components: vec![],
            failed_components: vec![],
            registered_directories: vec![],
            warnings: vec![],
            websocket_count: 1,
            moonraker_version: "v0.9.1".to_string(),
            api_version: vec![1, 2, 1],
            api_version_string: Some("1.2.1".to_string()),
            missing_klippy_requirements: None,
        },
    }
}

fn printing_flags() -> PrinterFlags {
    PrinterFlags {
        operational: true,
        paused: false,
        printing: true,
        cancelling: false,
        pausing: false,
        resuming: false,
        sd_ready: true,
        error: false,
        ready: false,
        closed_or_error: false,
    }
}

#[test]
fn discovered_record_fields() {
    let rec = build_host_record(
        &"192.168.1.50".to_string(),
        &"192.168.1.0/24".to_string(),
        &ready_info(),
        &Some("voron".to_string()),
        &Some(printing_flags()),
        &"2024-05-01T10:00:00+00:00".to_string(),
    );
    assert_eq!(rec.id, "192.168.1.50");
    assert_eq!(rec.ip_address, "192.168.1.50");
    assert_eq!(rec.hostname, "voron");
    assert_eq!(rec.original_hostname, "voron");
    assert_eq!(rec.subnet, "192.168.1.0/24");
    assert_eq!(rec.status, "online");
    assert_eq!(rec.device_status, "printing");
    assert_eq!(rec.moonraker_version.as_deref(), Some("v0.9.1"));
    assert_eq!(rec.klippy_state.as_deref(), Some("ready"));
    assert_eq!(rec.printer_state.as_deref(), Some("printing"));
    assert_eq!(rec.last_seen.as_deref(), Some("2024-05-01T10:00:00+00:00"));
    assert_eq!(rec.failed_attempts, Some(0));
}

#[test]
fn record_hostname_falls_back_to_ip() {
    let rec = build_host_record(
        &"10.0.0.9".to_string(),
        &"10.0.0.0/24".to_string(),
        &ready_info(),
        &None,
        &None,
        &"t".to_string(),
    );
    assert_eq!(rec.hostname, "10.0.0.9");
    assert_eq!(rec.device_status, "standby");
}

#[test]
fn record_stamped_with_current_time() {
    let rec = build_host_record_now(
        &"10.0.0.9".to_string(),
        &"10.0.0.0/24".to_string(),
        &ready_info(),
        &None,
        &None,
    );
    let stamp = rec.last_seen.expect("a discovered record carries a last-seen stamp");
    assert!(stamp.contains('T'));
}

#[test]
fn three_failures_flip_connectivity_to_offline() {
    let mut rec = build_host_record(
        &"10.0.0.9".to_string(),
        &"10.0.0.0/24".to_string(),
        &ready_info(),
        &None,
        &Some(printing_flags()),
        &"t".to_string(),
    );
    apply_check_failure(&mut rec);
    assert_eq!(rec.failed_attempts, Some(1));
    assert_eq!(rec.status, "online");
    apply_check_failure(&mut rec);
    assert_eq!(rec.failed_attempts, Some(2));
    assert_eq!(rec.status, "online");
    assert_eq!(rec.device_status, "printing");
    apply_check_failure(&mut rec);
    assert_eq!(rec.failed_attempts, Some(3));
    assert_eq!(rec.status, "offline");
    assert_eq!(rec.device_status, "offline");
}

#[test]
fn one_success_resets_the_counter_and_reclassifies() {
    let mut rec = build_host_record(
        &"10.0.0.9".to_string(),
        &"10.0.0.0/24".to_string(),
        &ready_info(),
        &None,
        &None,
        &"t".to_string(),
    );
    for _ in 0..3 {
        apply_check_failure(&mut rec);
    }
    assert_eq!(rec.status, "offline");

    let outcome = HostStatusResponse {
        success: true,
        status: "online".to_string(),
        device_status: Some("paused".to_string()),
        moonraker_version: Some("v0.9.1".to_string()),
        klippy_state: Some("ready".to_string()),
        printer_state: Some("paused".to_string()),
        printer_flags: None,
    };
    apply_check_success(&mut rec, &outcome, &"t1".to_string());
    assert_eq!(rec.failed_attempts, Some(0));
    assert_eq!(rec.status, "online");
    assert_eq!(rec.device_status, "paused");
    assert_eq!(rec.last_seen.as_deref(), Some("t1"));
}

#[test]
fn counter_absent_counts_as_zero() {
    let mut rec = build_host_record(
        &"10.0.0.9".to_string(),
        &"10.0.0.0/24".to_string(),
        &ready_info(),
        &None,
        &None,
        &"t".to_string(),
    );
    rec.failed_attempts = None;
    apply_check_failure(&mut rec);
    assert_eq!(rec.failed_attempts, Some(1));
    assert_eq!(rec.status, "online");
}

#[test]
fn stored_record_status_resolution() {
    let mut rec = build_host_record(
        &"10.0.0.9".to_string(),
        &"10.0.0.0/24".to_string(),
        &ready_info(),
        &None,
        &Some(printing_flags()),
        &"t".to_string(),
    );
    assert_eq!(get_printer_status(&rec), "printing");

    // An offline record resolves offline despite the stale printing flags.
    for _ in 0..3 {
        apply_check_failure(&mut rec);
    }
    assert_eq!(get_printer_status(&rec), "offline");
}

#[test]
fn stored_record_with_disconnected_klippy_is_offline() {
    let mut rec = build_host_record(
        &"10.0.0.9".to_string(),
        &"10.0.0.0/24".to_string(),
        &ready_info(),
        &None,
        &Some(printing_flags()),
        &"t".to_string(),
    );
    rec.klippy_state = Some("disconnected".to_string());
    assert_eq!(get_printer_status(&rec), "offline");
}
