use moonraker_scan::api::{MoonrakerServerInfo, ServerInfoResult};
use moonraker_scan::config::{API_SCAN_CONCURRENCY, PORT_SCAN_CONCURRENCY};
use moonraker_scan::error::MoonrakerError;
use moonraker_scan::host::SubnetConfig;
use moonraker_scan::probe::{build_host_record, evaluate_host_status, scan_record};
use moonraker_scan::scan::{
    PortProbeResult, api_scan_batches, assemble_scan_result, candidate_ips, expand_subnets,
    find_subnet, make_batches, port_scan_batches, select_open,
};
use moonraker_scan::status::PrinterFlags;

fn subnet(range: &str, enabled: bool) -> SubnetConfig {
    SubnetConfig { name: format!("lab {}", range), range: range.to_string(), enabled }
}

fn server_info(klippy_state: &str) -> MoonrakerServerInfo {
    MoonrakerServerInfo {
        result: ServerInfoResult {
            klippy_connected: klippy_state == "ready",
            klippy_state: klippy_state.to_string(),
            components: vec!["server".to_string()],
            failed_components: vec![],
            registered_directories: vec![],
            warnings: vec![],
            websocket_count: 0,
            moonraker_version: "v0.8.0".to_string(),
            api_version: vec![1, 0, 0],
            api_version_string: None,
            missing_klippy_requirements: None,
        },
    }
}

#[test]
fn expansion_covers_all_enabled_subnets() {
    let subnets = vec![subnet("192.168.1.0/30", true), subnet("10.0.0.0/29", true)];
    let candidates = expand_subnets(&subnets).unwrap();
    assert_eq!(candidates.len(), 2 + 6);
    assert_eq!(candidates[0].ip, "192.168.1.1");
    assert_eq!(candidates[0].subnet, "192.168.1.0/30");
    assert_eq!(candidates[2].ip, "10.0.0.1");
    assert_eq!(candidates[2].subnet, "10.0.0.0/29");
}

#[test]
fn disabled_subnets_do_not_participate() {
    let subnets = vec![subnet("192.168.1.0/30", true), subnet("10.0.0.0/29", false)];
    let candidates = expand_subnets(&subnets).unwrap();
    assert_eq!(candidates.len(), 2);
    let none: Vec<SubnetConfig> = vec![subnet("192.168.1.0/30", false)];
    assert_eq!(expand_subnets(&none).unwrap().len(), 0);
}

#[test]
fn one_invalid_subnet_fails_the_whole_scan() {
    let subnets = vec![
        subnet("192.168.1.0/30", true),
        subnet("bogus/24", true),
        subnet("10.0.0.0/29", true),
    ];
    match expand_subnets(&subnets) {
        Err(MoonrakerError::InvalidSubnet(s)) => assert_eq!(s, "bogus/24"),
        _ => panic!("expected InvalidSubnet to abort the whole call"),
    }
}

#[test]
fn invalid_but_disabled_subnet_is_ignored() {
    let subnets = vec![subnet("192.168.1.0/30", true), subnet("bogus/24", false)];
    assert!(expand_subnets(&subnets).is_ok());
}

#[test]
fn find_subnet_maps_address_to_owner() {
    let subnets = vec![subnet("192.168.1.0/30", true), subnet("10.0.0.0/29", true)];
    let candidates = expand_subnets(&subnets).unwrap();
    assert_eq!(find_subnet(&candidates, &"10.0.0.3".to_string()).unwrap(), "10.0.0.0/29");
    assert_eq!(find_subnet(&candidates, &"192.168.1.2".to_string()).unwrap(), "192.168.1.0/30");
    assert!(find_subnet(&candidates, &"172.16.0.1".to_string()).is_none());
}

#[test]
fn batches_respect_the_ceiling() {
    let items: Vec<String> = (0..10).map(|i| format!("10.0.0.{}", i)).collect();
    let batches = make_batches(&items, 3);
    let sizes: Vec<usize> = batches.iter().map(|b| b.len()).collect();
    assert_eq!(sizes, vec![3, 3, 3, 1]);
    let flat: Vec<String> = batches.into_iter().flatten().collect();
    assert_eq!(flat, items);
}

#[test]
fn port_batches_never_exceed_port_ceiling() {
    let items: Vec<String> = (0..450).map(|i| format!("host-{}", i)).collect();
    let batches = port_scan_batches(&items);
    assert_eq!(batches.len(), 3);
    for b in &batches {
        assert!(b.len() <= PORT_SCAN_CONCURRENCY);
        assert!(!b.is_empty());
    }
    let flat: Vec<String> = batches.into_iter().flatten().collect();
    assert_eq!(flat, items);
}

#[test]
fn api_batches_never_exceed_api_ceiling() {
    let items: Vec<String> = (0..120).map(|i| format!("host-{}", i)).collect();
    let batches = api_scan_batches(&items);
    assert_eq!(batches.len(), 3);
    for b in &batches {
        assert!(b.len() <= API_SCAN_CONCURRENCY);
    }
    let flat: Vec<String> = batches.into_iter().flatten().collect();
    assert_eq!(flat, items);
}

#[test]
fn only_port_open_hosts_reach_the_api_phase() {
    let results = vec![
        PortProbeResult { ip: "10.0.0.1".to_string(), open: true },
        PortProbeResult { ip: "10.0.0.2".to_string(), open: false },
        PortProbeResult { ip: "10.0.0.3".to_string(), open: true },
        PortProbeResult { ip: "10.0.0.4".to_string(), open: false },
    ];
    let open = select_open(&results);
    assert_eq!(open, vec!["10.0.0.1".to_string(), "10.0.0.3".to_string()]);
}

#[test]
fn one_failing_port_probe_in_ten_gives_nine_online() {
    let subnets = vec![subnet("192.168.7.0/28", true)];
    let candidates = expand_subnets(&subnets).unwrap();
    let ips = candidate_ips(&candidates);
    let ten: Vec<String> = ips.into_iter().take(10).collect();
    assert_eq!(ten.len(), 10);

    // A mock port prober that always fails for one address of the batch.
    let unlucky = "192.168.7.4".to_string();
    let port_results: Vec<PortProbeResult> = ten
        .iter()
        .map(|ip| PortProbeResult { ip: ip.clone(), open: *ip != unlucky })
        .collect();
    let open = select_open(&port_results);
    assert_eq!(open.len(), 9);
    assert!(!open.contains(&unlucky));

    // Every port-open host answers its API probes.
    let info = server_info("ready");
    let outcomes: Vec<_> = open
        .iter()
        .map(|ip| {
            let subnet_of = find_subnet(&candidates, ip).unwrap();
            Some(build_host_record(ip, &subnet_of, &info, &None, &None, &"t0".to_string()))
        })
        .collect();
    let result = assemble_scan_result(10, outcomes);
    assert_eq!(result.total_hosts, 10);
    assert_eq!(result.online_hosts, 9);
    assert_eq!(result.scan_progress, 100);
    assert_eq!(result.hosts.len(), 9);
    assert!(result.hosts.iter().all(|h| h.ip_address != unlucky));
}

#[test]
fn failed_hosts_are_absorbed_not_fatal() {
    let info = server_info("ready");
    let rec = build_host_record(
        &"10.0.0.1".to_string(),
        &"10.0.0.0/29".to_string(),
        &info,
        &None,
        &None,
        &"t0".to_string(),
    );
    let outcomes = vec![Some(rec), None, None];
    let result = assemble_scan_result(3, outcomes);
    assert_eq!(result.total_hosts, 3);
    assert_eq!(result.online_hosts, 1);
    assert_eq!(result.hosts[0].ip_address, "10.0.0.1");
}

#[test]
fn disconnected_klippy_host_is_excluded_from_the_online_set() {
    let dropped = scan_record(
        &"10.0.0.9".to_string(),
        &"10.0.0.0/24".to_string(),
        &server_info("disconnected"),
        &None,
        &None,
        &"t0".to_string(),
    );
    assert!(dropped.is_none());

    // One reachable host reports Klippy disconnected, one is healthy: only
    // the healthy one is counted online.
    let healthy = scan_record(
        &"10.0.0.8".to_string(),
        &"10.0.0.0/24".to_string(),
        &server_info("ready"),
        &None,
        &None,
        &"t0".to_string(),
    );
    assert!(healthy.is_some());
    let result = assemble_scan_result(2, vec![dropped, healthy]);
    assert_eq!(result.total_hosts, 2);
    assert_eq!(result.online_hosts, 1);
    assert_eq!(result.hosts[0].ip_address, "10.0.0.8");
}

#[test]
fn find_subnet_returns_the_first_owner_of_a_duplicated_address() {
    // 10.0.0.0/30 and 10.0.0.0/29 overlap: 10.0.0.1 belongs to both.
    let subnets = vec![subnet("10.0.0.0/30", true), subnet("10.0.0.0/29", true)];
    let candidates = expand_subnets(&subnets).unwrap();
    assert_eq!(find_subnet(&candidates, &"10.0.0.1".to_string()).unwrap(), "10.0.0.0/30");
}

#[test]
fn closed_port_yields_unclassified_offline() {
    let r = evaluate_host_status(false, &Some(server_info("ready")), &None);
    assert!(!r.success);
    assert_eq!(r.status, "offline");
    assert!(r.device_status.is_none());
    assert!(r.moonraker_version.is_none());
}

#[test]
fn liveness_failure_yields_offline() {
    let r = evaluate_host_status(true, &None, &None);
    assert!(!r.success);
    assert_eq!(r.status, "offline");
    assert!(r.klippy_state.is_none());
}

#[test]
fn klippy_disconnected_is_offline_despite_reachable_http() {
    let printing = PrinterFlags {
        operational: true,
        paused: false,
        printing: true,
        cancelling: false,
        pausing: false,
        resuming: false,
        sd_ready: false,
        error: false,
        ready: false,
        closed_or_error: false,
    };
    let r = evaluate_host_status(true, &Some(server_info("disconnected")), &Some(printing));
    assert!(!r.success);
    assert_eq!(r.status, "offline");
    assert_eq!(r.device_status.as_deref(), Some("offline"));
    assert_eq!(r.klippy_state.as_deref(), Some("disconnected"));
    assert!(r.printer_flags.is_none());
}

#[test]
fn flags_failure_with_liveness_success_defaults_to_standby() {
    let r = evaluate_host_status(true, &Some(server_info("ready")), &None);
    assert!(r.success);
    assert_eq!(r.status, "online");
    assert_eq!(r.device_status.as_deref(), Some("standby"));
    assert_eq!(r.moonraker_version.as_deref(), Some("v0.8.0"));
}

#[test]
fn flags_drive_the_device_status_when_present() {
    let mut f = PrinterFlags {
        operational: true,
        paused: false,
        printing: true,
        cancelling: false,
        pausing: false,
        resuming: false,
        sd_ready: true,
        error: false,
        ready: false,
        closed_or_error: false,
    };
    let r = evaluate_host_status(true, &Some(server_info("ready")), &Some(f));
    assert!(r.success);
    assert_eq!(r.device_status.as_deref(), Some("printing"));
    f.error = true;
    let r2 = evaluate_host_status(true, &Some(server_info("ready")), &Some(f));
    assert_eq!(r2.device_status.as_deref(), Some("error"));
}
