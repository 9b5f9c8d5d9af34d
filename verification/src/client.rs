//! Addressing of the controller's REST surface: the probe URLs and the
//! printer control actions with their endpoint paths.

use vstd::prelude::*;
use vstd::string::StringExecFns;
use crate::text::{dec_digits, append_u64, str_eq};
use crate::config::MOONRAKER_PORT;
use crate::error::{MoonrakerError, MoonrakerResult};

verus! {

broadcast use vstd::string::group_string_axioms;

/// Builds the URL of an API endpoint on a host, over the fixed service port.
pub fn build_moonraker_url(host: &str, endpoint: &str) -> (r: String)
    ensures
        r@ == "http://"@ + host@ + ":"@ + dec_digits(MOONRAKER_PORT as nat) + "/"@ + endpoint@,
{
    let mut s = String::new();
    s.append("http://");
    s.append(host);
    s.append(":");
    append_u64(&mut s, MOONRAKER_PORT as u64);
    s.append("/");
    s.append(endpoint);
    proof {
        assert(s@ =~= "http://"@ + host@ + ":"@ + dec_digits(MOONRAKER_PORT as nat) + "/"@
            + endpoint@);
    }
    s
}

/// The available printer control actions.
#[derive(Debug, Clone, Copy, PartialEq, Eq, Structural)]
pub enum PrinterAction {
    /// Start a print job.
    Start,
    /// Pause the current print.
    Pause,
    /// Cancel the current print.
    Cancel,
    /// Emergency-stop the printer.
    EmergencyStop,
}

/// The endpoint path of each action.
pub open spec fn spec_action_endpoint(a: PrinterAction) -> Seq<char> {
    match a {
        PrinterAction::Start => "printer/print/start"@,
        PrinterAction::Pause => "printer/print/pause"@,
        PrinterAction::Cancel => "printer/print/cancel"@,
        PrinterAction::EmergencyStop => "printer/emergency_stop"@,
    }
}

impl PrinterAction {
    /// The API endpoint path of this action.
    pub fn to_endpoint(&self) -> (r: &'static str)
        ensures
            r@ == spec_action_endpoint(*self),
    {
        match self {
            PrinterAction::Start => "printer/print/start",
            PrinterAction::Pause => "printer/print/pause",
            PrinterAction::Cancel => "printer/print/cancel",
            PrinterAction::EmergencyStop => "printer/emergency_stop",
        }
    }

    /// Parses an action name; an unknown name is an API error carrying a
    /// description.
    pub fn from_string(action: &str) -> (r: MoonrakerResult<PrinterAction>)
        ensures
            action@ == "start"@ ==> r == Ok::<PrinterAction, MoonrakerError>(PrinterAction::Start),
            action@ == "pause"@ ==> r == Ok::<PrinterAction, MoonrakerError>(PrinterAction::Pause),
            action@ == "cancel"@ ==> r == Ok::<PrinterAction, MoonrakerError>(
                PrinterAction::Cancel,
            ),
            action@ == "emergency_stop"@ ==> r == Ok::<PrinterAction, MoonrakerError>(
                PrinterAction::EmergencyStop,
            ),
            r is Err ==> action@ != "start"@ && action@ != "pause"@ && action@ != "cancel"@
                && action@ != "emergency_stop"@,
            r is Ok ==> (action@ == "start"@ || action@ == "pause"@ || action@ == "cancel"@
                || action@ == "emergency_stop"@),
            r matches Err(e) ==> (e matches MoonrakerError::ApiFailure(s) && s@
                == "Unknown printer action: "@ + action@),
    {
        proof {
            reveal_strlit("start");
            reveal_strlit("pause");
            reveal_strlit("cancel");
            reveal_strlit("emergency_stop");
            assert("start"@[0] == 's' && "pause"@[0] == 'p' && "cancel"@[0] == 'c'
                && "emergency_stop"@[0] == 'e');
        }
        if str_eq(action, "start") {
            Ok(PrinterAction::Start)
        } else if str_eq(action, "pause") {
            Ok(PrinterAction::Pause)
        } else if str_eq(action, "cancel") {
            Ok(PrinterAction::Cancel)
        } else if str_eq(action, "emergency_stop") {
            Ok(PrinterAction::EmergencyStop)
        } else {
            let mut m = String::new();
            m.append("Unknown printer action: ");
            m.append(action);
            proof {
                assert(m@ =~= "Unknown printer action: "@ + action@);
            }
            Err(MoonrakerError::ApiFailure(m))
        }
    }
}

} // verus!
