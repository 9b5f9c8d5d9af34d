//! Failure taxonomy of the discovery pipeline.
//!
//! Only `InvalidSubnet` crosses the scan-call boundary: every other failure is
//! absorbed per host ("this host could not be classified as online").

use vstd::prelude::*;
use vstd::string::StringExecFns;

verus! {

/// The error conditions of the pipeline.
#[derive(Debug)]
pub enum MoonrakerError {
    /// A malformed CIDR string, or one outside the supported enumeration
    /// range; fatal to the whole scan call. Carries the offending string.
    InvalidSubnet(String),
    /// Port closed, or a TCP-level failure; absorbed per host.
    Unreachable,
    /// HTTP, transport or parse failure on a probe endpoint after the local
    /// retries were exhausted; absorbed per host. Carries a description.
    ApiFailure(String),
    /// The controller answered but reported its Klippy daemon disconnected;
    /// the host is forced offline despite the reachable HTTP layer.
    KlippyDisconnected,
}

impl MoonrakerError {
    /// A human-readable description of the error.
    pub fn message(&self) -> (r: String)
        ensures
            self matches MoonrakerError::InvalidSubnet(s) ==> r@ == "Invalid subnet: "@ + s@,
            self matches MoonrakerError::Unreachable ==> r@ == "Host not reachable"@,
            self matches MoonrakerError::ApiFailure(s) ==> r@ == "API error: "@ + s@,
            self matches MoonrakerError::KlippyDisconnected ==> r@ == "Klippy disconnected"@,
    {
        match self {
            MoonrakerError::InvalidSubnet(s) => {
                let mut m = String::new();
                m.append("Invalid subnet: ");
                m.append(s.as_str());
                proof {
                    assert(m@ =~= "Invalid subnet: "@ + s@);
                }
                m
            },
            MoonrakerError::Unreachable => String::from_str("Host not reachable"),
            MoonrakerError::ApiFailure(s) => {
                let mut m = String::new();
                m.append("API error: ");
                m.append(s.as_str());
                proof {
                    assert(m@ =~= "API error: "@ + s@);
                }
                m
            },
            MoonrakerError::KlippyDisconnected => String::from_str("Klippy disconnected"),
        }
    }
}

/// The result type of pipeline operations.
pub type MoonrakerResult<T> = Result<T, MoonrakerError>;

} // verus!
