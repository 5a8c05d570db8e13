//! The low-level HID access-check status and its collapse to a boolean.
//!
//! The input-monitoring check consults the HID subsystem's access query with
//! a fixed request-type code identifying "listen for input events"; the
//! query answers with one of three status codes, and only the success code
//! maps to granted.

use vstd::prelude::*;
use crate::platform::Platform;

verus! {

/// The fixed request-type code handed to the native HID access query:
/// listen for input events.
pub const HID_REQUEST_TYPE_LISTEN_EVENT: u32 = 1;

/// The three access states the native HID access query can report.
#[derive(Clone, Copy, Debug, PartialEq, Eq, Structural)]
pub enum HidAccess {
    /// Access is granted: the success code.
    Granted,
    /// The user denied access.
    Denied,
    /// The user has not yet decided.
    Unknown,
}

/// The status a raw native code denotes, or none for a code outside the
/// native enumeration.
pub open spec fn hid_access_of_code(code: int) -> Option<HidAccess> {
    if code == 0 {
        Some(HidAccess::Granted)
    } else if code == 1 {
        Some(HidAccess::Denied)
    } else if code == 2 {
        Some(HidAccess::Unknown)
    } else {
        None
    }
}

/// Whether the input-monitoring check reports granted: on the target
/// platform, exactly when the observed status is the success code (an
/// unrecognized code, `None`, is not granted); elsewhere, granted by
/// default.
pub open spec fn input_monitoring_granted(platform: Platform, status: Option<HidAccess>) -> bool {
    platform is Other || status == Some(HidAccess::Granted)
}

/// Decode the raw status code the native HID access query returned.
///
/// A code outside the native enumeration decodes to `None`; the check treats
/// it as not granted, so a status that cannot be read degrades to
/// not-granted rather than to an error.
pub fn hid_access_from_raw(code: u32) -> (status: Option<HidAccess>)
    ensures
        status == hid_access_of_code(code as int),
{
    if code == 0 {
        Some(HidAccess::Granted)
    } else if code == 1 {
        Some(HidAccess::Denied)
    } else if code == 2 {
        Some(HidAccess::Unknown)
    } else {
        None
    }
}

} // verus!
