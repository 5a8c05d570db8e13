//! Accessibility permission: is this process trusted to drive other
//! applications through the accessibility API?
//!
//! On the target platform the shell observes the native trust state (the
//! process-is-trusted query) and may dispatch the native trust prompt; both
//! are modelled here as plain values.

use vstd::prelude::*;
use crate::platform::Platform;

verus! {

/// Whether the accessibility check reports granted: on the target platform,
/// exactly the native trust state; elsewhere, granted by default.
pub open spec fn accessibility_granted(platform: Platform, process_trusted: bool) -> bool {
    platform is Other || process_trusted
}

/// Whether the accessibility request dispatches the native trust prompt:
/// only on the target platform.
pub open spec fn accessibility_prompt_dispatched(platform: Platform) -> bool {
    platform is MacOs
}

/// Check accessibility permission.
///
/// `process_trusted` is the native trust state the shell observed (whether
/// the calling process is currently trusted for accessibility control); it is
/// ignored off the target platform, where the check is granted by default.
pub fn check_accessibility_permission(platform: Platform, process_trusted: bool) -> (granted: bool)
    ensures
        granted == accessibility_granted(platform, process_trusted),
{
    match platform {
        Platform::MacOs => process_trusted,
        Platform::Other => true,
    }
}

/// Request accessibility permission.
///
/// Returns whether the native "trust this process" prompt is to be
/// dispatched: true exactly on the target platform. The dispatch is
/// fire-and-forget — the user's eventual decision is observable only through
/// a later check — and off the target platform the request is a no-op.
pub fn request_accessibility_permission(platform: Platform) -> (dispatch_prompt: bool)
    ensures
        dispatch_prompt == accessibility_prompt_dispatched(platform),
{
    match platform {
        Platform::MacOs => true,
        Platform::Other => false,
    }
}

} // verus!
