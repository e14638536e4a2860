//! The wall clock, behind trusted wrappers: the time now and the compact
//! local-time stamp that names a final report.

use vstd::prelude::*;

verus! {

/// Relies on chrono::Local::now: seconds since the Unix epoch at the moment
/// of the call.  The clock decides the value, so nothing is promised of it.
#[verifier::external_body]
pub fn now_unix() -> i64 {
    chrono::Local::now().timestamp()
}

/// Relies on chrono::Local::now and chrono's %Y%m%d_%H%M%S formatting: the
/// current local time as a compact stamp.  The clock and the machine's time
/// zone decide the text, so nothing is promised of it.
#[verifier::external_body]
pub fn local_timestamp_compact() -> String {
    format!("{}", chrono::Local::now().format("%Y%m%d_%H%M%S"))
}

} // verus!
