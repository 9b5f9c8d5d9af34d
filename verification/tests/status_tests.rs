use moonraker_scan::status::{DeviceStatus, PrinterFlags, resolve_status, status_label};

fn calm_flags() -> PrinterFlags {
    PrinterFlags {
        operational: true,
        paused: false,
        printing: false,
        cancelling: false,
        pausing: false,
        resuming: false,
        sd_ready: false,
        error: false,
        ready: true,
        closed_or_error: false,
    }
}

#[test]
fn error_beats_printing() {
    let mut f = calm_flags();
    f.error = true;
    f.printing = true;
    assert_eq!(f.get_status(), DeviceStatus::Error);
}

#[test]
fn cancelling_beats_error_and_printing() {
    let mut f = calm_flags();
    f.cancelling = true;
    f.error = true;
    f.printing = true;
    assert_eq!(f.get_status(), DeviceStatus::Cancelling);
}

#[test]
fn paused_beats_printing() {
    let mut f = calm_flags();
    f.paused = true;
    f.printing = true;
    assert_eq!(f.get_status(), DeviceStatus::Paused);
}

#[test]
fn printing_when_only_printing() {
    let mut f = calm_flags();
    f.printing = true;
    assert_eq!(f.get_status(), DeviceStatus::Printing);
}

#[test]
fn calm_flags_are_standby() {
    assert_eq!(calm_flags().get_status(), DeviceStatus::Standby);
    let mut f = calm_flags();
    f.ready = false;
    assert_eq!(f.get_status(), DeviceStatus::Standby);
}

#[test]
fn unreachable_is_offline_whatever_the_flags() {
    let mut f = calm_flags();
    f.printing = true;
    let st = resolve_status(false, &Some("ready".to_string()), &Some(f));
    assert_eq!(st, DeviceStatus::Offline);
}

#[test]
fn klippy_disconnected_forces_offline_despite_printing() {
    let mut f = calm_flags();
    f.printing = true;
    let st = resolve_status(true, &Some("disconnected".to_string()), &Some(f));
    assert_eq!(st, DeviceStatus::Offline);
}

#[test]
fn reachable_without_flags_is_standby() {
    let st = resolve_status(true, &Some("ready".to_string()), &None);
    assert_eq!(st, DeviceStatus::Standby);
    let st2 = resolve_status(true, &None, &None);
    assert_eq!(st2, DeviceStatus::Standby);
}

#[test]
fn resolution_is_deterministic() {
    let mut f = calm_flags();
    f.error = true;
    f.printing = true;
    let a = resolve_status(true, &Some("ready".to_string()), &Some(f));
    let b = resolve_status(true, &Some("ready".to_string()), &Some(f));
    assert_eq!(a, b);
    assert_eq!(a, DeviceStatus::Error);
}

#[test]
fn status_labels() {
    assert_eq!(status_label(&DeviceStatus::Offline), "offline");
    assert_eq!(status_label(&DeviceStatus::Cancelling), "cancelling");
    assert_eq!(status_label(&DeviceStatus::Error), "error");
    assert_eq!(status_label(&DeviceStatus::Paused), "paused");
    assert_eq!(status_label(&DeviceStatus::Printing), "printing");
    assert_eq!(status_label(&DeviceStatus::Standby), "standby");
}
