//! Full-disk-access permission: a best-effort directory-probe heuristic, and
//! a request that opens the system settings on the full-disk-access privacy
//! pane.
//!
//! There is no direct API for this permission. Status is inferred by
//! attempting to list two OS-maintained directories under the user's home
//! that are normally unreadable without full disk access; if either listing
//! succeeds the permission is reported granted. The probe paths are
//! community practice, not an official API, and may need updating if the OS
//! changes which paths are protected — a fragility kept deliberate and
//! isolated here.

use vstd::prelude::*;
use crate::platform::Platform;
use crate::settings::launch_failed;
use crate::settings::launch_message;
use crate::settings::settings_request_outcome;

verus! {

/// Whether at least one probe directory was enumerable.
pub open spec fn any_probe_listable(listable: Seq<bool>) -> bool {
    exists|i: int| 0 <= i < listable.len() && listable[i]
}

/// Whether the full-disk-access check reports granted: on the target
/// platform, exactly when the home directory was resolved and at least one
/// probe directory was enumerable; elsewhere, granted by default.
pub open spec fn full_disk_access_granted(platform: Platform, probes: Option<Seq<bool>>) -> bool {
    ||| platform is Other
    ||| (probes matches Some(listable) && any_probe_listable(listable))
}

/// The probe outcomes as a sequence (`None` when the home directory could
/// not be resolved and nothing was probed).
pub open spec fn probes_view(probes: Option<Vec<bool>>) -> Option<Seq<bool>> {
    match probes {
        Some(listable) => Some(listable@),
        None => None,
    }
}

/// The probe directories, relative to the user's home directory: a
/// sandboxed container path of one built-in system app and a user-library
/// path of another, both normally unreadable without full disk access.
pub fn full_disk_access_probe_dirs() -> (dirs: Vec<&'static str>)
    ensures
        dirs@.len() == 2,
        dirs@[0]@ == "Library/Containers/com.apple.stocks"@,
        dirs@[1]@ == "Library/Safari"@,
{
    let mut dirs: Vec<&'static str> = Vec::new();
    dirs.push("Library/Containers/com.apple.stocks");
    dirs.push("Library/Safari");
    dirs
}

/// Check full-disk-access permission.
///
/// `probes` reports, for each probe directory in order, whether the shell
/// could list its contents; `None` means the home directory itself could not
/// be resolved, which reports not granted. Granted exactly when at least one
/// probe succeeded. Off the target platform the check is granted by default
/// and `probes` is ignored.
pub fn check_full_disk_access_permission(platform: Platform, probes: Option<Vec<bool>>) -> (granted: bool)
    ensures
        granted == full_disk_access_granted(platform, probes_view(probes)),
{
    match platform {
        Platform::Other => true,
        Platform::MacOs => match probes {
            None => false,
            Some(listable) => {
                let mut i: usize = 0;
                while i < listable.len()
                    invariant
                        probes_view(probes) == Some(listable@),
                        i <= listable.len(),
                        forall|j: int| 0 <= j < i ==> !listable@[j],
                    decreases listable.len() - i,
                {
                    if listable[i] {
                        proof {
                            assert(any_probe_listable(listable@)) by {
                                assert(listable@[i as int]);
                            }
                        }
                        return true;
                    }
                    i = i + 1;
                }
                false
            },
        },
    }
}

/// The settings URL of the full-disk-access privacy pane, opened by the
/// request operation on the target platform.
pub fn full_disk_access_settings_url() -> (url: &'static str)
    ensures
        url@ == "x-apple.systempreferences:com.apple.preference.security?Privacy_AllFiles"@,
{
    "x-apple.systempreferences:com.apple.preference.security?Privacy_AllFiles"
}

/// Request full-disk-access permission.
///
/// This permission has no programmatic prompt: on the target platform the
/// shell launches an external process that opens the settings application on
/// the full-disk-access privacy pane and reports the launch in `launch`
/// (`None` off the target platform, where no launch is attempted). The
/// request succeeds exactly when no launch failure occurred — whether or not
/// the user ever interacts with the opened pane — and a failure surfaces the
/// operating system's message verbatim.
pub fn request_full_disk_access_permission(
    platform: Platform,
    launch: Option<Result<(), String>>,
) -> (r: Result<(), String>)
    requires
        platform is MacOs <==> launch is Some,
        launch matches Some(Err(message)) ==> message@.len() > 0,
    ensures
        r is Ok <==> !launch_failed(launch),
        r matches Err(message) ==> message@ == launch_message(launch) && message@.len() > 0,
        r matches Err(message) ==> settings_request_outcome(launch) == Err::<(), Seq<char>>(message@),
        platform is Other ==> r is Ok,
{
    match launch {
        Some(Err(message)) => Err(message),
        _ => Ok(()),
    }
}

} // verus!
