//! The data the controller's REST endpoints report, as plain values: the
//! server/liveness info of `/server/info` and the printer info of
//! `/printer/info`. The caller performs the HTTP requests and parsing and
//! hands these records in.

use vstd::prelude::*;

verus! {

/// Server information reported by the liveness endpoint.
#[derive(Debug, Clone)]
pub struct MoonrakerServerInfo {
    pub result: ServerInfoResult,
}

/// Detailed server information, including the Klippy connection state.
#[derive(Debug, Clone)]
pub struct ServerInfoResult {
    pub klippy_connected: bool,
    pub klippy_state: String,
    pub components: Vec<String>,
    pub failed_components: Vec<String>,
    pub registered_directories: Vec<String>,
    pub warnings: Vec<String>,
    pub websocket_count: i32,
    pub moonraker_version: String,
    pub api_version: Vec<i32>,
    pub api_version_string: Option<String>,
    pub missing_klippy_requirements: Option<Vec<String>>,
}

/// Printer information reported by the printer info endpoint.
#[derive(Debug, Clone)]
pub struct MoonrakerPrinterInfo {
    pub result: PrinterInfoResult,
}

/// Detailed printer information; the hostname, when reported, names the host
/// in discovery results.
#[derive(Debug, Clone)]
pub struct PrinterInfoResult {
    pub state: String,
    pub state_message: String,
    pub hostname: Option<String>,
    pub software_version: Option<String>,
    pub cpu_info: Option<String>,
    pub klipper_path: Option<String>,
    pub python_path: Option<String>,
    pub log_file: Option<String>,
    pub config_file: Option<String>,
}

} // verus!
