use smalltalk_island::digest::{hex_label, task_truth_v2_baseline_sha256};
use smalltalk_island::permissions::{
    app_permissions_status, permission_status, settings_url, PermissionKind,
};

#[test]
fn permission_status_keeps_restart_state_separate_from_grant_state() {
    let status = permission_status("screen_recording", false, false, true);
    assert!(!status.granted);
    assert!(!status.can_request);
    assert!(status.restart_required);
}

#[test]
fn app_status_is_granted_only_when_every_permission_is() {
    let status = app_permissions_status(true, false, false, true, true, true);
    assert!(status.all_granted);
    let keys: Vec<&str> = status.permissions.iter().map(|p| p.key.as_str()).collect();
    assert_eq!(keys, vec!["screen_recording", "accessibility", "input_monitoring"]);
    assert!(status.permissions[1].can_request);
    assert!(!status.permissions[2].restart_required);

    let status = app_permissions_status(true, false, true, true, false, false);
    assert!(!status.all_granted);
    assert!(status.permissions[0].restart_required);
    assert!(!status.permissions[1].can_request);
}

#[test]
fn settings_pages_are_the_privacy_panes() {
    assert_eq!(
        settings_url(PermissionKind::ScreenRecording),
        "x-apple.systempreferences:com.apple.preference.security?Privacy_ScreenCapture"
    );
    assert_eq!(
        settings_url(PermissionKind::Accessibility),
        "x-apple.systempreferences:com.apple.preference.security?Privacy_Accessibility"
    );
    assert_eq!(
        settings_url(PermissionKind::InputMonitoring),
        "x-apple.systempreferences:com.apple.preference.security?Privacy_ListenEvent"
    );
}

#[test]
fn baseline_identity_is_the_prefixed_sha256_hex() {
    assert_eq!(
        task_truth_v2_baseline_sha256(b""),
        "sha256:e3b0c44298fc1c149afbf4c8996fb92427ae41e4649b934ca495991b7852b855"
    );
    assert_eq!(
        task_truth_v2_baseline_sha256(b"abc"),
        "sha256:ba7816bf8f01cfea414140de5dae2223b00361a396177a9cb410ff61f20015ad"
    );
    assert_eq!(task_truth_v2_baseline_sha256(b"hello world").len(), 71);
}

#[test]
fn hex_labels_use_two_lowercase_digits_per_byte() {
    assert_eq!(hex_label("x:", &[0x00, 0x0f, 0xa0, 0xff]), "x:000fa0ff");
    assert_eq!(hex_label("", &[]), "");
}
