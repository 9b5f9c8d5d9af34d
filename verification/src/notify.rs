//! Composition of the system notifications the pipeline triggers. The library
//! builds the title and body; handing them to the platform's notification
//! service is the caller's part.

use vstd::prelude::*;
use vstd::string::StringExecFns;

verus! {

/// One system notification: a title and a body.
#[derive(Debug, Clone)]
pub struct SystemNotification {
    pub title: String,
    pub body: String,
}

/// Composes the notification announcing a printer's status change.
pub fn send_status_change_notification(hostname: &str, old_status: &str, new_status: &str) -> (r:
    SystemNotification)
    ensures
        r.title@ == "Printer Status Changed"@,
        r.body@ == hostname@ + ": "@ + old_status@ + " -> "@ + new_status@,
{
    let mut body = String::new();
    body.append(hostname);
    body.append(": ");
    body.append(old_status);
    body.append(" -> ");
    body.append(new_status);
    proof {
        assert(body@ =~= hostname@ + ": "@ + old_status@ + " -> "@ + new_status@);
    }
    SystemNotification { title: String::from_str("Printer Status Changed"), body }
}

/// Composes the notification announcing a newly discovered printer.
pub fn send_printer_discovered_notification(hostname: &str, ip_address: &str) -> (r:
    SystemNotification)
    ensures
        r.title@ == "New Printer Discovered"@,
        r.body@ == hostname@ + " ("@ + ip_address@ + ")"@,
{
    let mut body = String::new();
    body.append(hostname);
    body.append(" (");
    body.append(ip_address);
    body.append(")");
    proof {
        assert(body@ =~= hostname@ + " ("@ + ip_address@ + ")"@);
    }
    SystemNotification { title: String::from_str("New Printer Discovered"), body }
}

/// Composes the notification announcing a printer that went offline.
pub fn send_printer_offline_notification(hostname: &str, ip_address: &str) -> (r:
    SystemNotification)
    ensures
        r.title@ == "Printer Offline"@,
        r.body@ == hostname@ + " ("@ + ip_address@ + ") is no longer responding"@,
{
    let mut body = String::new();
    body.append(hostname);
    body.append(" (");
    body.append(ip_address);
    body.append(") is no longer responding");
    proof {
        assert(body@ =~= hostname@ + " ("@ + ip_address@ + ") is no longer responding"@);
    }
    SystemNotification { title: String::from_str("Printer Offline"), body }
}

} // verus!
