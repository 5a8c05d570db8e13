//! Screen-recording permission: the non-intrusive preflight query and the
//! fire-and-forget capture-access request.

use vstd::prelude::*;
use crate::platform::Platform;

verus! {

/// Whether the screen-recording check reports granted: on the target
/// platform, exactly the boolean the native preflight query returned;
/// elsewhere, granted by default.
pub open spec fn screen_recording_granted(platform: Platform, preflight_granted: bool) -> bool {
    platform is Other || preflight_granted
}

/// Whether the screen-recording request dispatches the native
/// capture-access request: only on the target platform.
pub open spec fn screen_recording_prompt_dispatched(platform: Platform) -> bool {
    platform is MacOs
}

/// Check screen-recording permission.
///
/// `preflight_granted` is the boolean the shell observed from the native
/// preflight query, which reports capture access directly with no
/// intermediate enumeration to collapse. (On some OS versions the preflight
/// itself registers the app's intent in the privacy pane — a platform quirk
/// left as is.) Off the target platform the check is granted by default and
/// the observation is ignored.
pub fn check_screen_recording_permission(platform: Platform, preflight_granted: bool) -> (granted: bool)
    ensures
        granted == screen_recording_granted(platform, preflight_granted),
{
    match platform {
        Platform::MacOs => preflight_granted,
        Platform::Other => true,
    }
}

/// Request screen-recording permission.
///
/// Returns whether the native capture-access request is to be dispatched:
/// true exactly on the target platform. The native call may itself raise a
/// system prompt; its return value is discarded — fire-and-forget, like the
/// other request operations — and off the target platform the request is a
/// no-op.
pub fn request_screen_recording_permission(platform: Platform) -> (dispatch_prompt: bool)
    ensures
        dispatch_prompt == screen_recording_prompt_dispatched(platform),
{
    match platform {
        Platform::MacOs => true,
        Platform::Other => false,
    }
}

} // verus!
