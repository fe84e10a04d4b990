//! The system permissions the app needs, and how their status is reported.
//! Asking the system is left to the app; this decides what is reported.
use vstd::prelude::*;
use crate::text::copy_str;

verus! {

/// A system permission the app needs.
#[derive(Debug, Clone, Copy, PartialEq, Eq)]
pub enum PermissionKind {
    ScreenRecording,
    Accessibility,
    InputMonitoring,
}

/// The status of one permission. Whether it is granted, whether the app can
/// still ask for it, and whether a restart is needed for a grant to take
/// effect are kept apart.
#[derive(Debug, Clone, PartialEq, Eq)]
pub struct RequiredPermissionStatus {
    pub key: String,
    pub granted: bool,
    pub can_request: bool,
    pub restart_required: bool,
}

/// The status of every permission the app needs.
#[derive(Debug, Clone, PartialEq, Eq)]
pub struct AppPermissionsStatus {
    pub permissions: Vec<RequiredPermissionStatus>,
    pub all_granted: bool,
}

/// The status of one permission, with each flag as given.
pub fn permission_status(key: &str, granted: bool, can_request: bool, restart_required: bool) -> (r:
    RequiredPermissionStatus)
    ensures
        r.key@ == key@,
        r.granted == granted,
        r.can_request == can_request,
        r.restart_required == restart_required,
{
    RequiredPermissionStatus { key: copy_str(key), granted, can_request, restart_required }
}

/// The key under which a permission is reported.
pub open spec fn permission_key(kind: PermissionKind) -> Seq<char> {
    match kind {
        PermissionKind::ScreenRecording => "screen_recording"@,
        PermissionKind::Accessibility => "accessibility"@,
        PermissionKind::InputMonitoring => "input_monitoring"@,
    }
}

/// The status of every permission: screen recording as the capture layer
/// reports it, then accessibility and input monitoring, which can be asked
/// for where the platform supports it and never need a restart. All are
/// granted when each is.
pub fn app_permissions_status(
    screen_granted: bool,
    screen_can_request: bool,
    screen_restart_required: bool,
    accessibility_granted: bool,
    input_monitoring_granted: bool,
    supported: bool,
) -> (r: AppPermissionsStatus)
    ensures
        r.permissions@.len() == 3,
        r.permissions@[0].key@ == permission_key(PermissionKind::ScreenRecording),
        r.permissions@[0].granted == screen_granted,
        r.permissions@[0].can_request == screen_can_request,
        r.permissions@[0].restart_required == screen_restart_required,
        r.permissions@[1].key@ == permission_key(PermissionKind::Accessibility),
        r.permissions@[1].granted == accessibility_granted,
        r.permissions@[1].can_request == supported,
        !r.permissions@[1].restart_required,
        r.permissions@[2].key@ == permission_key(PermissionKind::InputMonitoring),
        r.permissions@[2].granted == input_monitoring_granted,
        r.permissions@[2].can_request == supported,
        !r.permissions@[2].restart_required,
        r.all_granted == forall|i: int| 0 <= i < 3 ==> #[trigger] r.permissions@[i].granted,
{
    let mut permissions: Vec<RequiredPermissionStatus> = Vec::new();
    permissions.push(
        permission_status(
            "screen_recording",
            screen_granted,
            screen_can_request,
            screen_restart_required,
        ),
    );
    permissions.push(permission_status("accessibility", accessibility_granted, supported, false));
    permissions.push(permission_status("input_monitoring", input_monitoring_granted, supported, false));
    let mut all_granted = true;
    let mut i: usize = 0;
    while i < permissions.len()
        invariant
            i <= permissions@.len(),
            permissions@.len() == 3,
            all_granted == forall|k: int| 0 <= k < i ==> #[trigger] permissions@[k].granted,
        decreases permissions@.len() - i,
    {
        all_granted = all_granted && permissions[i].granted;
        i = i + 1;
    }
    AppPermissionsStatus { permissions, all_granted }
}

/// The System Settings page of a permission.
pub open spec fn settings_page(kind: PermissionKind) -> Seq<char> {
    match kind {
        PermissionKind::ScreenRecording => "x-apple.systempreferences:com.apple.preference.security?Privacy_ScreenCapture"@,
        PermissionKind::Accessibility => "x-apple.systempreferences:com.apple.preference.security?Privacy_Accessibility"@,
        PermissionKind::InputMonitoring => "x-apple.systempreferences:com.apple.preference.security?Privacy_ListenEvent"@,
    }
}

/// The System Settings page of a permission.
pub fn settings_url(permission: PermissionKind) -> (r: &'static str)
    ensures
        r@ == settings_page(permission),
{
    match permission {
        PermissionKind::ScreenRecording => "x-apple.systempreferences:com.apple.preference.security?Privacy_ScreenCapture",
        PermissionKind::Accessibility => "x-apple.systempreferences:com.apple.preference.security?Privacy_Accessibility",
        PermissionKind::InputMonitoring => "x-apple.systempreferences:com.apple.preference.security?Privacy_ListenEvent",
    }
}

} // verus!
