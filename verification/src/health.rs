//! Interpretation of the worker health probe.
//!
//! The host issues a plain HTTP GET against the worker's fixed loopback
//! address and hands the outcome here as the status code it observed, if the
//! request completed at all. Only a successful status counts as healthy; a
//! transport failure — connection refused because no worker is listening,
//! for instance after a failed spawn — is reported as "not healthy", never
//! as an error.

use vstd::prelude::*;

verus! {

/// An HTTP status in the success range.
pub open spec fn healthy_status(status: u16) -> bool {
    200 <= status < 300
}

/// Decide health from the probe outcome: `None` is a transport failure and
/// never an error, so the call always succeeds and reports healthy exactly
/// for a completed request with a success status.
pub fn check_server_health(status: &Option<u16>) -> (r: Result<bool, String>)
    ensures
        r is Ok,
        r->Ok_0 == (status is Some && healthy_status(status->0)),
{
    match status {
        Some(code) => Ok(200 <= *code && *code < 300),
        None => Ok(false),
    }
}

} // verus!
