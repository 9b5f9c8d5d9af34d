use moonraker_scan::progress::{ScanPhase, ScanProgress};

#[test]
fn fresh_progress_is_preparing() {
    let p = ScanProgress::new(254);
    assert_eq!(p.phase, ScanPhase::Preparing);
    assert_eq!(p.percentage, 0);
    assert_eq!(p.total_ips, 254);
    assert_eq!(p.scanned_ips, 0);
    assert_eq!(p.found_hosts, 0);
    assert!(p.current_ip.is_none());
    assert_eq!(p.message, "Preparing scan...");
}

#[test]
fn port_phase_spans_the_first_forty_percent() {
    let mut p = ScanProgress::new(10);
    p.update_port_scanning(0);
    assert_eq!(p.phase, ScanPhase::PortScanning);
    assert_eq!(p.percentage, 0);
    p.update_port_scanning(5);
    assert_eq!(p.percentage, 20);
    assert_eq!(p.message, "Scanning ports: 5/10 IPs");
    p.update_port_scanning(10);
    assert_eq!(p.percentage, 40);
}

#[test]
fn api_phase_spans_the_next_fifty_percent() {
    let mut p = ScanProgress::new(10);
    p.update_api_checking(0, 0);
    assert_eq!(p.phase, ScanPhase::ApiChecking);
    assert_eq!(p.percentage, 40);
    p.update_api_checking(5, 2);
    assert_eq!(p.percentage, 65);
    assert_eq!(p.scanned_ips, 5);
    assert_eq!(p.found_hosts, 2);
    assert_eq!(p.message, "Checking APIs: 5/10 IPs, found 2 hosts");
    p.update_api_checking(10, 3);
    assert_eq!(p.percentage, 90);
}

#[test]
fn empty_scan_reports_zero_then_forty() {
    let mut p = ScanProgress::new(0);
    p.update_port_scanning(0);
    assert_eq!(p.percentage, 0);
    p.update_api_checking(0, 0);
    assert_eq!(p.percentage, 40);
}

#[test]
fn completion_is_one_hundred() {
    let mut p = ScanProgress::new(10);
    p.complete(3);
    assert_eq!(p.phase, ScanPhase::Completed);
    assert_eq!(p.percentage, 100);
    assert_eq!(p.found_hosts, 3);
    assert_eq!(p.message, "Scan completed! Found 3 hosts");
}

#[test]
fn error_keeps_counts_and_names_the_cause() {
    let mut p = ScanProgress::new(10);
    p.update_port_scanning(5);
    p.error("Invalid subnet: zzz");
    assert_eq!(p.phase, ScanPhase::Error);
    assert_eq!(p.message, "Scan error: Invalid subnet: zzz");
    assert_eq!(p.scanned_ips, 5);
    assert_eq!(p.total_ips, 10);
}

#[test]
fn current_ip_is_tracked() {
    let mut p = ScanProgress::new(10);
    p.set_current_ip(Some("10.0.0.1".to_string()));
    assert_eq!(p.current_ip.as_deref(), Some("10.0.0.1"));
    p.set_current_ip(None);
    assert!(p.current_ip.is_none());
}
