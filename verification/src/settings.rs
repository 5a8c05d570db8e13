//! Outcome mapping for the two requests that open the system settings
//! application on its privacy pane.
//!
//! Input monitoring and full disk access have no programmatic prompt; their
//! request operations launch an external process that opens the settings
//! pane at a well-known URL. The shell reports the launch as `Some(Ok(()))`
//! (the opener process was spawned and exited), `Some(Err(message))` (the
//! opener could not be launched; `message` is the operating system's error
//! text), or `None` (no launch was attempted — the case off the target
//! platform). The request's public outcome is success exactly when no launch
//! failure occurred, and a failure surfaces the OS message verbatim.

use vstd::prelude::*;

verus! {

/// Whether the reported launch is a failure to start the opener process.
pub open spec fn launch_failed(launch: Option<Result<(), String>>) -> bool {
    launch matches Some(Err(_))
}

/// The message of a failed launch (the empty sequence when none failed).
pub open spec fn launch_message(launch: Option<Result<(), String>>) -> Seq<char> {
    match launch {
        Some(Err(message)) => message@,
        _ => Seq::empty(),
    }
}

/// The public outcome of a settings-pane request for a reported launch:
/// the failure message verbatim if the opener could not be launched, success
/// otherwise — including when no launch was attempted at all.
pub open spec fn settings_request_outcome(launch: Option<Result<(), String>>) -> Result<(), Seq<char>> {
    match launch {
        Some(Err(message)) => Err(message@),
        _ => Ok(()),
    }
}

} // verus!
