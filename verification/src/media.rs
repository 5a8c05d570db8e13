//! The media-capture authorization status the native registry reports for a
//! media type (video or audio), and its collapse to a boolean.
//!
//! The native registry distinguishes four states; the public contract of the
//! camera and microphone checks collapses them to granted / not granted, with
//! only the explicitly-authorized state mapping to granted.

use vstd::prelude::*;
use crate::platform::Platform;

verus! {

/// The four authorization states the native media registry can report for a
/// capture media type.
#[derive(Clone, Copy, Debug, PartialEq, Eq, Structural)]
pub enum MediaAuthStatus {
    /// The user has not yet been asked.
    NotDetermined,
    /// Access is restricted by policy; the user cannot grant it.
    Restricted,
    /// The user denied access.
    Denied,
    /// The user explicitly authorized access.
    Authorized,
}

/// The status a raw native code denotes, or none for a code outside the
/// native enumeration.
pub open spec fn media_status_of_code(code: int) -> Option<MediaAuthStatus> {
    if code == 0 {
        Some(MediaAuthStatus::NotDetermined)
    } else if code == 1 {
        Some(MediaAuthStatus::Restricted)
    } else if code == 2 {
        Some(MediaAuthStatus::Denied)
    } else if code == 3 {
        Some(MediaAuthStatus::Authorized)
    } else {
        None
    }
}

/// Whether a camera or microphone check reports granted: on the target
/// platform, exactly when the observed status is the explicitly-authorized
/// one (an unrecognized code, `None`, is not granted); elsewhere, granted by
/// default.
pub open spec fn media_granted(platform: Platform, status: Option<MediaAuthStatus>) -> bool {
    platform is Other || status == Some(MediaAuthStatus::Authorized)
}

/// Whether a camera or microphone request dispatches the native prompt:
/// only on the target platform.
pub open spec fn media_prompt_dispatched(platform: Platform) -> bool {
    platform is MacOs
}

/// Decode the raw status code the native media registry returned.
///
/// A code outside the native enumeration decodes to `None`; the checks treat
/// it as not granted, so a status that cannot be read degrades to
/// not-granted rather than to an error.
pub fn media_auth_status_from_raw(code: i32) -> (status: Option<MediaAuthStatus>)
    ensures
        status == media_status_of_code(code as int),
{
    if code == 0 {
        Some(MediaAuthStatus::NotDetermined)
    } else if code == 1 {
        Some(MediaAuthStatus::Restricted)
    } else if code == 2 {
        Some(MediaAuthStatus::Denied)
    } else if code == 3 {
        Some(MediaAuthStatus::Authorized)
    } else {
        None
    }
}

} // verus!
