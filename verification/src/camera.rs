//! Camera permission: the video-capture authorization status, collapsed to a
//! boolean, and the fire-and-forget prompt request.

use vstd::prelude::*;
use crate::media::MediaAuthStatus;
use crate::media::media_granted;
use crate::media::media_prompt_dispatched;
use crate::platform::Platform;

verus! {

/// The native media-type identifier for video capture, handed to the
/// registry's status query and to the prompt request.
pub fn camera_media_type() -> (media_type: &'static str)
    ensures
        media_type@ == "vide"@,
{
    "vide"
}

/// Check camera permission.
///
/// `status` is the decoded authorization status the shell observed for the
/// video media type (`None` for a code outside the native enumeration).
/// Granted exactly when the status is the explicitly-authorized one;
/// not-determined, denied, restricted and unrecognized all report not
/// granted. Off the target platform the check is granted by default and
/// `status` is ignored.
pub fn check_camera_permission(platform: Platform, status: Option<MediaAuthStatus>) -> (granted: bool)
    ensures
        granted == media_granted(platform, status),
{
    match platform {
        Platform::MacOs => matches!(status, Some(MediaAuthStatus::Authorized)),
        Platform::Other => true,
    }
}

/// Request camera permission.
///
/// Returns whether the native camera prompt is to be dispatched — true
/// exactly on the target platform — and the request's own outcome, which is
/// always success: the dispatch is fire-and-forget, carries no completion
/// callback, and the user's eventual decision is observable only through a
/// later check.
pub fn request_camera_permission(platform: Platform) -> (r: (bool, Result<(), String>))
    ensures
        r.0 == media_prompt_dispatched(platform),
        r.1 == Ok::<(), String>(()),
{
    match platform {
        Platform::MacOs => (true, Ok(())),
        Platform::Other => (false, Ok(())),
    }
}

} // verus!
