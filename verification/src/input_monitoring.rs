//! Input-monitoring permission: the HID access query collapsed to a
//! boolean, and a request that opens the system settings on the
//! input-monitoring privacy pane.

use vstd::prelude::*;
use crate::hid::HidAccess;
use crate::hid::input_monitoring_granted;
use crate::platform::Platform;
use crate::settings::launch_failed;
use crate::settings::launch_message;
use crate::settings::settings_request_outcome;

verus! {

/// The settings URL of the input-monitoring privacy pane, opened by the
/// request operation on the target platform.
pub fn input_monitoring_settings_url() -> (url: &'static str)
    ensures
        url@ == "x-apple.systempreferences:com.apple.preference.security?Privacy_ListenEvent"@,
{
    "x-apple.systempreferences:com.apple.preference.security?Privacy_ListenEvent"
}

/// Check input-monitoring permission.
///
/// `status` is the decoded answer the shell observed from the native HID
/// access query for the listen-for-input-events request type (`None` for a
/// code outside the native enumeration). Granted exactly when the status is
/// the success code. Off the target platform the check is granted by
/// default and `status` is ignored.
pub fn check_input_monitoring_permission(platform: Platform, status: Option<HidAccess>) -> (granted: bool)
    ensures
        granted == input_monitoring_granted(platform, status),
{
    match platform {
        Platform::MacOs => matches!(status, Some(HidAccess::Granted)),
        Platform::Other => true,
    }
}

/// Request input-monitoring permission.
///
/// This permission has no programmatic prompt: on the target platform the
/// shell launches an external process that opens the settings application on
/// the input-monitoring privacy pane and reports the launch in `launch`
/// (`None` off the target platform, where no launch is attempted). The
/// request succeeds exactly when no launch failure occurred — whether or not
/// the user ever interacts with the opened pane — and a failure surfaces the
/// operating system's message verbatim.
pub fn request_input_monitoring_permission(
    platform: Platform,
    launch: Option<Result<(), String>>,
) -> (r: Result<(), String>)
    requires
        platform is MacOs <==> launch is Some,
        launch matches Some(Err(message)) ==> message@.len() > 0,
    ensures
        r is Ok <==> !launch_failed(launch),
        r matches Err(message) ==> message@ == launch_message(launch) && message@.len() > 0,
        r matches Err(message) ==> settings_request_outcome(launch) == Err::<(), Seq<char>>(message@),
        platform is Other ==> r is Ok,
{
    match launch {
        Some(Err(message)) => Err(message),
        _ => Ok(()),
    }
}

} // verus!
