//! Cross-cutting laws of the permission operations, stated over the spec
//! functions that the operations' own contracts use.

use vstd::prelude::*;
use crate::accessibility::accessibility_granted;
use crate::accessibility::accessibility_prompt_dispatched;
use crate::full_disk_access::any_probe_listable;
use crate::full_disk_access::full_disk_access_granted;
use crate::hid::HidAccess;
use crate::hid::input_monitoring_granted;
use crate::media::MediaAuthStatus;
use crate::media::media_granted;
use crate::media::media_prompt_dispatched;
use crate::platform::Platform;
use crate::screen_recording::screen_recording_granted;
use crate::screen_recording::screen_recording_prompt_dispatched;
use crate::settings::launch_failed;
use crate::settings::launch_message;
use crate::settings::settings_request_outcome;

verus! {

/// Portability default: off the target platform, every check reports
/// granted, whatever native state was (or was not) observed.
pub proof fn lemma_non_target_checks_granted(
    process_trusted: bool,
    media_status: Option<MediaAuthStatus>,
    preflight_granted: bool,
    hid_status: Option<HidAccess>,
    probes: Option<Seq<bool>>,
)
    ensures
        accessibility_granted(Platform::Other, process_trusted),
        media_granted(Platform::Other, media_status),
        screen_recording_granted(Platform::Other, preflight_granted),
        input_monitoring_granted(Platform::Other, hid_status),
        full_disk_access_granted(Platform::Other, probes),
{
}

/// Portability default: off the target platform, no request dispatches a
/// native prompt, and a settings-pane request with no launch attempted
/// succeeds — so every request completes without error and without
/// observable side effect.
pub proof fn lemma_non_target_requests_trivial()
    ensures
        !accessibility_prompt_dispatched(Platform::Other),
        !media_prompt_dispatched(Platform::Other),
        !screen_recording_prompt_dispatched(Platform::Other),
        !launch_failed(None),
        settings_request_outcome(None) == Ok::<(), Seq<char>>(()),
{
}

/// The full-disk-access heuristic over its two designated probes: granted
/// exactly when at least one probe directory was enumerable, and not granted
/// when the home directory could not be resolved and nothing was probed.
pub proof fn lemma_full_disk_access_two_probes(first_listable: bool, second_listable: bool)
    ensures
        full_disk_access_granted(
            Platform::MacOs,
            Some(seq![first_listable, second_listable]),
        ) == (first_listable || second_listable),
        !full_disk_access_granted(Platform::MacOs, None),
{
    let listable = seq![first_listable, second_listable];
    if first_listable {
        assert(any_probe_listable(listable)) by {
            assert(listable[0]);
        }
    } else if second_listable {
        assert(any_probe_listable(listable)) by {
            assert(listable[1]);
        }
    } else {
        assert(!any_probe_listable(listable)) by {
            assert(forall|i: int| 0 <= i < listable.len() ==> !listable[i]);
        }
    }
}

/// Status collapse for camera and microphone: on the target platform, only
/// the explicitly-authorized status maps to granted; not-determined,
/// restricted, denied and an unreadable status all map to not granted.
pub proof fn lemma_media_status_collapse(status: MediaAuthStatus)
    ensures
        media_granted(Platform::MacOs, Some(status)) <==> status is Authorized,
        !media_granted(Platform::MacOs, None),
{
}

/// Status collapse for input monitoring: on the target platform, only the
/// success code maps to granted.
pub proof fn lemma_hid_status_collapse(status: HidAccess)
    ensures
        input_monitoring_granted(Platform::MacOs, Some(status)) <==> status is Granted,
        !input_monitoring_granted(Platform::MacOs, None),
{
}

/// A settings-pane request fails exactly when the opener process could not
/// be launched, and then surfaces the operating system's message verbatim;
/// a launch that succeeded — whether or not the user interacts with the
/// opened pane — yields success.
pub proof fn lemma_settings_launch_failure_surfaced(launch: Option<Result<(), String>>)
    ensures
        settings_request_outcome(launch) is Err <==> launch_failed(launch),
        launch_failed(launch) ==> settings_request_outcome(launch) == Err::<(), Seq<char>>(
            launch_message(launch),
        ),
        launch matches Some(Ok(u)) ==> settings_request_outcome(launch) == Ok::<(), Seq<char>>(u),
{
}

/// Idempotence: a check is a function of the platform and the observed
/// native state alone, so two invocations with no intervening change in
/// that state yield the same boolean.
pub proof fn lemma_checks_idempotent(
    platform: Platform,
    process_trusted1: bool,
    process_trusted2: bool,
    media_status1: Option<MediaAuthStatus>,
    media_status2: Option<MediaAuthStatus>,
    preflight_granted1: bool,
    preflight_granted2: bool,
    hid_status1: Option<HidAccess>,
    hid_status2: Option<HidAccess>,
    probes1: Option<Seq<bool>>,
    probes2: Option<Seq<bool>>,
)
    requires
        process_trusted1 == process_trusted2,
        media_status1 == media_status2,
        preflight_granted1 == preflight_granted2,
        hid_status1 == hid_status2,
        probes1 == probes2,
    ensures
        accessibility_granted(platform, process_trusted1) == accessibility_granted(
            platform,
            process_trusted2,
        ),
        media_granted(platform, media_status1) == media_granted(platform, media_status2),
        screen_recording_granted(platform, preflight_granted1) == screen_recording_granted(
            platform,
            preflight_granted2,
        ),
        input_monitoring_granted(platform, hid_status1) == input_monitoring_granted(
            platform,
            hid_status2,
        ),
        full_disk_access_granted(platform, probes1) == full_disk_access_granted(platform, probes2),
{
}

} // verus!
