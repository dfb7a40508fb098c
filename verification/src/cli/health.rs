//! Health check commands for Kubernetes exec probes: exit 0 when healthy,
//! 1 otherwise.

use vstd::prelude::*;
use crate::cli::ipc_client::CliError;

verus! {

/// Exit code of a healthy probe.
pub const EXIT_HEALTHY: i32 = 0;
/// Exit code of an unhealthy probe.
pub const EXIT_UNHEALTHY: i32 = 1;

/// Exit code of a probe, given what the check returned: healthy only when
/// the check succeeded and reported health.
pub fn check_exit_code(outcome: &Result<bool, CliError>) -> (r: i32)
    ensures
        r == (if outcome matches Ok(true) { EXIT_HEALTHY } else { EXIT_UNHEALTHY }),
{
    match outcome {
        Ok(true) => EXIT_HEALTHY,
        Ok(false) => EXIT_UNHEALTHY,
        Err(_) => EXIT_UNHEALTHY,
    }
}

/// Exit code of the verbose health command, given whether a report came
/// back and, if so, whether it was healthy.
pub fn report_exit_code(report_ok: Option<bool>) -> (r: i32)
    ensures
        r == (if report_ok == Some(true) { EXIT_HEALTHY } else { EXIT_UNHEALTHY }),
{
    match report_ok {
        Some(true) => EXIT_HEALTHY,
        _ => EXIT_UNHEALTHY,
    }
}

} // verus!
