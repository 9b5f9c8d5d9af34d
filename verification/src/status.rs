//! The status resolver: a pure function from the connectivity outcome, the
//! Klippy connection state and the raw flag set to one device state, by a
//! fixed priority order. The order is user-facing and deliberate: it ranks
//! operator-relevant urgency, and the first match wins.

use vstd::prelude::*;
use vstd::string::StringExecFns;

verus! {

/// The ten independent booleans reported by the controller's own state
/// object. No invariant couples them — the device may report contradictory
/// combinations (both `printing` and `paused`); the resolution order is what
/// imposes determinism, not the data.
#[derive(Debug, Clone, Copy, PartialEq, Eq, Structural)]
pub struct PrinterFlags {
    /// Printer is operational and ready.
    pub operational: bool,
    /// Print is currently paused.
    pub paused: bool,
    /// Print is currently running.
    pub printing: bool,
    /// Print is being cancelled.
    pub cancelling: bool,
    /// Print is being paused.
    pub pausing: bool,
    /// Print is being resumed.
    pub resuming: bool,
    /// SD card is ready.
    pub sd_ready: bool,
    /// Printer is in an error state.
    pub error: bool,
    /// Printer is ready for printing.
    pub ready: bool,
    /// Printer is closed or in an error state.
    pub closed_or_error: bool,
}

/// One device state.
#[derive(Debug, Clone, Copy, PartialEq, Eq, Structural)]
pub enum DeviceStatus {
    Offline,
    Cancelling,
    Error,
    Paused,
    Printing,
    Standby,
}

/// The state a present flag set resolves to: cancelling, then error, then
/// paused, then printing, then standby — first match wins.
pub open spec fn spec_flag_status(f: PrinterFlags) -> DeviceStatus {
    if f.cancelling {
        DeviceStatus::Cancelling
    } else if f.error {
        DeviceStatus::Error
    } else if f.paused {
        DeviceStatus::Paused
    } else if f.printing {
        DeviceStatus::Printing
    } else {
        DeviceStatus::Standby
    }
}

impl PrinterFlags {
    /// Determines the printer status from the flags by the fixed priority
    /// order.
    pub fn get_status(&self) -> (r: DeviceStatus)
        ensures
            r == spec_flag_status(*self),
    {
        if self.cancelling {
            DeviceStatus::Cancelling
        } else if self.error {
            DeviceStatus::Error
        } else if self.paused {
            DeviceStatus::Paused
        } else if self.printing {
            DeviceStatus::Printing
        } else {
            DeviceStatus::Standby
        }
    }
}

/// Whether an optional Klippy connection state string is the hard
/// "disconnected" override.
pub open spec fn spec_klippy_disconnected(klippy_state: Option<Seq<char>>) -> bool {
    klippy_state matches Some(s) && s == "disconnected"@
}

/// The view of an optional Klippy state string.
pub open spec fn klippy_state_view(klippy_state: &Option<String>) -> Option<Seq<char>> {
    match klippy_state {
        Some(s) => Some(s@),
        None => None,
    }
}

/// The deterministic status precedence. Not reachable, or Klippy reported
/// "disconnected": offline. Flags present: their resolution. Flags absent but
/// the host reachable: standby (device status unknown until flags return).
pub open spec fn spec_resolve_status(
    reachable: bool,
    klippy_disconnected: bool,
    flags: Option<PrinterFlags>,
) -> DeviceStatus {
    if !reachable || klippy_disconnected {
        DeviceStatus::Offline
    } else {
        match flags {
            Some(f) => spec_flag_status(f),
            None => DeviceStatus::Standby,
        }
    }
}

/// Resolves the device status from the connectivity outcome, the optional
/// Klippy state string of the liveness probe, and the optional flag set.
/// A pure function: no I/O, no shared state.
pub fn resolve_status(
    reachable: bool,
    klippy_state: &Option<String>,
    flags: &Option<PrinterFlags>,
) -> (r: DeviceStatus)
    ensures
        r == spec_resolve_status(
            reachable,
            spec_klippy_disconnected(klippy_state_view(klippy_state)),
            *flags,
        ),
{
    let disconnected = match klippy_state {
        Some(s) => {
            let needle = String::from_str("disconnected");
            *s == needle
        },
        None => false,
    };
    if !reachable || disconnected {
        DeviceStatus::Offline
    } else {
        match flags {
            Some(f) => f.get_status(),
            None => DeviceStatus::Standby,
        }
    }
}

/// The user-facing label of a device status.
pub open spec fn status_label_chars(s: DeviceStatus) -> Seq<char> {
    match s {
        DeviceStatus::Offline => "offline"@,
        DeviceStatus::Cancelling => "cancelling"@,
        DeviceStatus::Error => "error"@,
        DeviceStatus::Paused => "paused"@,
        DeviceStatus::Printing => "printing"@,
        DeviceStatus::Standby => "standby"@,
    }
}

/// The label of a device status as an owned string.
pub fn status_label(s: &DeviceStatus) -> (r: String)
    ensures
        r@ == status_label_chars(*s),
{
    match s {
        DeviceStatus::Offline => String::from_str("offline"),
        DeviceStatus::Cancelling => String::from_str("cancelling"),
        DeviceStatus::Error => String::from_str("error"),
        DeviceStatus::Paused => String::from_str("paused"),
        DeviceStatus::Printing => String::from_str("printing"),
        DeviceStatus::Standby => String::from_str("standby"),
    }
}

/// Law: resolution respects the fixed priority order. In particular, a flag
/// set reporting both `error` and `printing` resolves to error, not printing,
/// and `cancelling` outranks everything but offline.
pub proof fn lemma_status_priority(reachable: bool, klippy_disconnected: bool, f: PrinterFlags)
    requires
        reachable,
        !klippy_disconnected,
    ensures
        f.cancelling ==> spec_resolve_status(reachable, klippy_disconnected, Some(f))
            == DeviceStatus::Cancelling,
        !f.cancelling && f.error ==> spec_resolve_status(reachable, klippy_disconnected, Some(f))
            == DeviceStatus::Error,
        !f.cancelling && !f.error && f.paused ==> spec_resolve_status(
            reachable,
            klippy_disconnected,
            Some(f),
        ) == DeviceStatus::Paused,
        !f.cancelling && !f.error && !f.paused && f.printing ==> spec_resolve_status(
            reachable,
            klippy_disconnected,
            Some(f),
        ) == DeviceStatus::Printing,
        !f.cancelling && !f.error && !f.paused && !f.printing ==> spec_resolve_status(
            reachable,
            klippy_disconnected,
            Some(f),
        ) == DeviceStatus::Standby,
{
}

/// Law: a Klippy connection state of "disconnected" forces the status to
/// offline, whatever the flags report — even `printing: true`.
pub proof fn lemma_klippy_disconnected_forces_offline(
    reachable: bool,
    flags: Option<PrinterFlags>,
)
    ensures
        spec_resolve_status(reachable, true, flags) == DeviceStatus::Offline,
{
}

} // verus!
