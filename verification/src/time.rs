//! The wall-clock stamp of a probe result.

use vstd::prelude::*;

verus! {

/// Relies on `chrono::Utc::now` and `DateTime::to_rfc3339` for the current
/// wall-clock time as an RFC 3339 string. The value depends on the clock, so
/// nothing is assumed of it.
#[verifier::external_body]
pub fn now_rfc3339() -> String {
    chrono::Utc::now().to_rfc3339()
}

} // verus!
