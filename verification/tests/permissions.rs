use macos_permissions::accessibility::check_accessibility_permission;
use macos_permissions::accessibility::request_accessibility_permission;
use macos_permissions::camera::camera_media_type;
use macos_permissions::camera::check_camera_permission;
use macos_permissions::camera::request_camera_permission;
use macos_permissions::full_disk_access::check_full_disk_access_permission;
use macos_permissions::full_disk_access::full_disk_access_probe_dirs;
use macos_permissions::full_disk_access::full_disk_access_settings_url;
use macos_permissions::full_disk_access::request_full_disk_access_permission;
use macos_permissions::hid::hid_access_from_raw;
use macos_permissions::hid::HidAccess;
use macos_permissions::hid::HID_REQUEST_TYPE_LISTEN_EVENT;
use macos_permissions::input_monitoring::check_input_monitoring_permission;
use macos_permissions::input_monitoring::input_monitoring_settings_url;
use macos_permissions::input_monitoring::request_input_monitoring_permission;
use macos_permissions::media::media_auth_status_from_raw;
use macos_permissions::media::MediaAuthStatus;
use macos_permissions::microphone::check_microphone_permission;
use macos_permissions::microphone::microphone_media_type;
use macos_permissions::microphone::request_microphone_permission;
use macos_permissions::platform::Platform;
use macos_permissions::screen_recording::check_screen_recording_permission;
use macos_permissions::screen_recording::request_screen_recording_permission;

#[test]
fn non_target_checks_report_granted() {
    assert!(check_accessibility_permission(Platform::Other, false));
    assert!(check_camera_permission(Platform::Other, None));
    assert!(check_camera_permission(
        Platform::Other,
        Some(MediaAuthStatus::Denied)
    ));
    assert!(check_microphone_permission(Platform::Other, None));
    assert!(check_microphone_permission(
        Platform::Other,
        Some(MediaAuthStatus::Restricted)
    ));
    assert!(check_screen_recording_permission(Platform::Other, false));
    assert!(check_input_monitoring_permission(Platform::Other, None));
    assert!(check_input_monitoring_permission(
        Platform::Other,
        Some(HidAccess::Denied)
    ));
    assert!(check_full_disk_access_permission(Platform::Other, None));
    assert!(check_full_disk_access_permission(
        Platform::Other,
        Some(vec![false, false])
    ));
}

#[test]
fn non_target_requests_succeed_without_side_effect() {
    assert!(!request_accessibility_permission(Platform::Other));
    assert!(!request_screen_recording_permission(Platform::Other));

    let camera = request_camera_permission(Platform::Other);
    assert!(!camera.0);
    assert_eq!(camera.1, Ok(()));

    let microphone = request_microphone_permission(Platform::Other);
    assert!(!microphone.0);
    assert_eq!(microphone.1, Ok(()));

    assert_eq!(
        request_input_monitoring_permission(Platform::Other, None),
        Ok(())
    );
    assert_eq!(
        request_full_disk_access_permission(Platform::Other, None),
        Ok(())
    );
}

#[test]
fn target_requests_dispatch_native_prompt() {
    assert!(request_accessibility_permission(Platform::MacOs));
    assert!(request_screen_recording_permission(Platform::MacOs));

    let camera = request_camera_permission(Platform::MacOs);
    assert!(camera.0);
    assert_eq!(camera.1, Ok(()));

    let microphone = request_microphone_permission(Platform::MacOs);
    assert!(microphone.0);
    assert_eq!(microphone.1, Ok(()));
}

#[test]
fn accessibility_reports_native_trust_state() {
    assert!(check_accessibility_permission(Platform::MacOs, true));
    assert!(!check_accessibility_permission(Platform::MacOs, false));
}

#[test]
fn media_status_decoding() {
    assert_eq!(
        media_auth_status_from_raw(0),
        Some(MediaAuthStatus::NotDetermined)
    );
    assert_eq!(
        media_auth_status_from_raw(1),
        Some(MediaAuthStatus::Restricted)
    );
    assert_eq!(media_auth_status_from_raw(2), Some(MediaAuthStatus::Denied));
    assert_eq!(
        media_auth_status_from_raw(3),
        Some(MediaAuthStatus::Authorized)
    );
    assert_eq!(media_auth_status_from_raw(4), None);
    assert_eq!(media_auth_status_from_raw(-1), None);
    assert_eq!(media_auth_status_from_raw(i32::MAX), None);
}

#[test]
fn camera_granted_only_when_authorized() {
    assert!(check_camera_permission(
        Platform::MacOs,
        Some(MediaAuthStatus::Authorized)
    ));
    assert!(!check_camera_permission(
        Platform::MacOs,
        Some(MediaAuthStatus::NotDetermined)
    ));
    assert!(!check_camera_permission(
        Platform::MacOs,
        Some(MediaAuthStatus::Restricted)
    ));
    assert!(!check_camera_permission(
        Platform::MacOs,
        Some(MediaAuthStatus::Denied)
    ));
    assert!(!check_camera_permission(Platform::MacOs, None));
}

#[test]
fn microphone_granted_only_when_authorized() {
    assert!(check_microphone_permission(
        Platform::MacOs,
        Some(MediaAuthStatus::Authorized)
    ));
    assert!(!check_microphone_permission(
        Platform::MacOs,
        Some(MediaAuthStatus::NotDetermined)
    ));
    assert!(!check_microphone_permission(
        Platform::MacOs,
        Some(MediaAuthStatus::Restricted)
    ));
    assert!(!check_microphone_permission(
        Platform::MacOs,
        Some(MediaAuthStatus::Denied)
    ));
    assert!(!check_microphone_permission(Platform::MacOs, None));
}

#[test]
fn media_type_identifiers() {
    assert_eq!(camera_media_type(), "vide");
    assert_eq!(microphone_media_type(), "soun");
}

#[test]
fn hid_status_decoding() {
    assert_eq!(hid_access_from_raw(0), Some(HidAccess::Granted));
    assert_eq!(hid_access_from_raw(1), Some(HidAccess::Denied));
    assert_eq!(hid_access_from_raw(2), Some(HidAccess::Unknown));
    assert_eq!(hid_access_from_raw(3), None);
    assert_eq!(hid_access_from_raw(u32::MAX), None);
    assert_eq!(HID_REQUEST_TYPE_LISTEN_EVENT, 1);
}

#[test]
fn input_monitoring_granted_only_on_success_code() {
    assert!(check_input_monitoring_permission(
        Platform::MacOs,
        Some(HidAccess::Granted)
    ));
    assert!(!check_input_monitoring_permission(
        Platform::MacOs,
        Some(HidAccess::Denied)
    ));
    assert!(!check_input_monitoring_permission(
        Platform::MacOs,
        Some(HidAccess::Unknown)
    ));
    assert!(!check_input_monitoring_permission(Platform::MacOs, None));
}

#[test]
fn full_disk_access_probe_combinations() {
    assert!(!check_full_disk_access_permission(
        Platform::MacOs,
        Some(vec![false, false])
    ));
    assert!(check_full_disk_access_permission(
        Platform::MacOs,
        Some(vec![true, false])
    ));
    assert!(check_full_disk_access_permission(
        Platform::MacOs,
        Some(vec![false, true])
    ));
    assert!(check_full_disk_access_permission(
        Platform::MacOs,
        Some(vec![true, true])
    ));
}

#[test]
fn full_disk_access_unresolved_home_reports_not_granted() {
    assert!(!check_full_disk_access_permission(Platform::MacOs, None));
    assert!(!check_full_disk_access_permission(
        Platform::MacOs,
        Some(vec![])
    ));
}

#[test]
fn full_disk_access_probe_directories() {
    let dirs = full_disk_access_probe_dirs();
    assert_eq!(
        dirs,
        vec!["Library/Containers/com.apple.stocks", "Library/Safari"]
    );
}

#[test]
fn settings_pane_urls() {
    assert_eq!(
        input_monitoring_settings_url(),
        "x-apple.systempreferences:com.apple.preference.security?Privacy_ListenEvent"
    );
    assert_eq!(
        full_disk_access_settings_url(),
        "x-apple.systempreferences:com.apple.preference.security?Privacy_AllFiles"
    );
}

#[test]
fn settings_request_surfaces_launch_failure_verbatim() {
    let message = "No such file or directory (os error 2)".to_string();
    assert_eq!(
        request_input_monitoring_permission(Platform::MacOs, Some(Err(message.clone()))),
        Err(message.clone())
    );
    assert_eq!(
        request_full_disk_access_permission(Platform::MacOs, Some(Err(message.clone()))),
        Err(message)
    );
}

#[test]
fn settings_request_succeeds_when_opener_launched() {
    assert_eq!(
        request_input_monitoring_permission(Platform::MacOs, Some(Ok(()))),
        Ok(())
    );
    assert_eq!(
        request_full_disk_access_permission(Platform::MacOs, Some(Ok(()))),
        Ok(())
    );
}

#[test]
fn screen_recording_scenario() {
    // Not yet granted: the check reports false, a request dispatches the
    // native prompt and returns at once, and a later check still reports
    // false until the user grants access out-of-band.
    assert!(!check_screen_recording_permission(Platform::MacOs, false));
    assert!(request_screen_recording_permission(Platform::MacOs));
    assert!(!check_screen_recording_permission(Platform::MacOs, false));
    // After the user grants access, the preflight reports it.
    assert!(check_screen_recording_permission(Platform::MacOs, true));
}

#[test]
fn checks_idempotent_on_unchanged_state() {
    for platform in [Platform::MacOs, Platform::Other] {
        for trusted in [false, true] {
            assert_eq!(
                check_accessibility_permission(platform, trusted),
                check_accessibility_permission(platform, trusted)
            );
        }
        for status in [
            None,
            Some(MediaAuthStatus::NotDetermined),
            Some(MediaAuthStatus::Restricted),
            Some(MediaAuthStatus::Denied),
            Some(MediaAuthStatus::Authorized),
        ] {
            assert_eq!(
                check_camera_permission(platform, status),
                check_camera_permission(platform, status)
            );
            assert_eq!(
                check_microphone_permission(platform, status),
                check_microphone_permission(platform, status)
            );
        }
        for hid in [
            None,
            Some(HidAccess::Granted),
            Some(HidAccess::Denied),
            Some(HidAccess::Unknown),
        ] {
            assert_eq!(
                check_input_monitoring_permission(platform, hid),
                check_input_monitoring_permission(platform, hid)
            );
        }
        for preflight in [false, true] {
            assert_eq!(
                check_screen_recording_permission(platform, preflight),
                check_screen_recording_permission(platform, preflight)
            );
        }
        for probes in [None, Some(vec![false, true]), Some(vec![false, false])] {
            assert_eq!(
                check_full_disk_access_permission(platform, probes.clone()),
                check_full_disk_access_permission(platform, probes)
            );
        }
    }
}
