use crate::text::owned;
use vstd::prelude::*;

verus! {

/// State of one permission.
#[derive(Debug, Clone, Copy, PartialEq, Eq, Structural)]
pub enum PermissionState {
    Granted,
    Denied,
    NotDetermined,
    Restricted,
    /// The platform has no such permission.
    NotApplicable,
}

/// The permissions dictation depends on.
#[derive(Debug, Clone, Copy, PartialEq, Eq, Structural)]
pub struct PermissionStatus {
    /// Needed for global hotkeys on macOS.
    pub accessibility: bool,
    /// Needed for recording.
    pub microphone: PermissionState,
}

/// The platform the application runs on.
#[derive(Debug, Clone, Copy, PartialEq, Eq, Structural)]
pub enum Platform {
    MacOs,
    Windows,
    Other,
}

/// What the caller found out about the system: whether the process is
/// trusted for accessibility and whether a default input device shows up.
/// Only macOS reads them.
#[derive(Debug, Clone, Copy, PartialEq, Eq, Structural)]
pub struct PermissionProbe {
    pub platform: Platform,
    pub accessibility_trusted: bool,
    pub input_device_found: bool,
}

/// On macOS, accessibility as probed, and the microphone granted exactly when
/// an input device shows up; elsewhere nothing needs granting.
pub fn check_permissions(probe: PermissionProbe) -> (r: PermissionStatus)
    ensures
        probe.platform == Platform::MacOs ==> r == (PermissionStatus {
            accessibility: probe.accessibility_trusted,
            microphone: if probe.input_device_found {
                PermissionState::Granted
            } else {
                PermissionState::Denied
            },
        }),
        probe.platform != Platform::MacOs ==> r == (PermissionStatus {
            accessibility: true,
            microphone: PermissionState::NotApplicable,
        }),
{
    match probe.platform {
        Platform::MacOs => PermissionStatus {
            accessibility: probe.accessibility_trusted,
            microphone: if probe.input_device_found {
                PermissionState::Granted
            } else {
                PermissionState::Denied
            },
        },
        _ => PermissionStatus { accessibility: true, microphone: PermissionState::NotApplicable },
    }
}

pub const ACCESSIBILITY_SETTINGS: &'static str = "x-apple.systempreferences:com.apple.preference.security?Privacy_Accessibility";

pub const MICROPHONE_SETTINGS: &'static str = "x-apple.systempreferences:com.apple.preference.security?Privacy_Microphone";

/// The settings page to open for accessibility: only macOS has one.
pub fn open_accessibility_settings(platform: Platform) -> (r: Option<String>)
    ensures
        platform == Platform::MacOs ==> (r matches Some(u) && u@ == ACCESSIBILITY_SETTINGS@),
        platform != Platform::MacOs ==> r is None,
{
    match platform {
        Platform::MacOs => Some(owned(ACCESSIBILITY_SETTINGS)),
        _ => None,
    }
}

/// The settings page to open for the microphone: only macOS has one.
pub fn open_microphone_settings(platform: Platform) -> (r: Option<String>)
    ensures
        platform == Platform::MacOs ==> (r matches Some(u) && u@ == MICROPHONE_SETTINGS@),
        platform != Platform::MacOs ==> r is None,
{
    match platform {
        Platform::MacOs => Some(owned(MICROPHONE_SETTINGS)),
        _ => None,
    }
}

/// Whether asking for the microphone succeeds at once: it does wherever the
/// permission is granted or does not apply; otherwise the caller opens the
/// settings page.
pub fn microphone_request_granted(status: PermissionStatus) -> (r: bool)
    ensures
        r == (status.microphone == PermissionState::Granted || status.microphone
            == PermissionState::NotApplicable),
{
    match status.microphone {
        PermissionState::Granted => true,
        PermissionState::NotApplicable => true,
        _ => false,
    }
}

} // verus!
