//! What is decided before the window opens, and before a command touches a device.

use crate::app_config::{ApplicationPreferences, NetworkProxyPreferences};
use crate::device_info;
use crate::device_info::DeviceInfo;
use crate::environment::{BuildChannel, RuntimePolicy};
use crate::error::{DogiError, ErrorKind};
use crate::report;
use crate::service;
use crate::text;
use vstd::prelude::*;

verus! {

/// Why the window does not open. `elevated` tells that the command runs for another user.
pub fn launch_fault(elevated: bool) -> (r: Option<DogiError>)
    ensures
        service::fault_view(r) == if elevated {
            Some(
                (
                    ErrorKind::InvalidArgument,
                    "run the Dogi GUI as the desktop user, without sudo"@,
                ),
            )
        } else {
            None
        },
{
    if elevated {
        Some(
            DogiError::InvalidArgument(
                "run the Dogi GUI as the desktop user, without sudo".to_owned(),
            ),
        )
    } else {
        None
    }
}

/// Whether the runtime can be managed from the window.
#[derive(Clone, Copy, Debug, PartialEq, Eq, Structural)]
pub enum DesktopRuntimeAvailability {
    Available,
    Development,
    Unmanaged,
}

/// Whether the runtime can be managed from the window.
pub fn runtime_availability(channel: BuildChannel, policy: &RuntimePolicy) -> (r:
    DesktopRuntimeAvailability)
    ensures
        r == (if policy.integration != crate::environment::RuntimeIntegration::ForegroundOnly {
            DesktopRuntimeAvailability::Available
        } else if channel == BuildChannel::Development {
            DesktopRuntimeAvailability::Development
        } else {
            DesktopRuntimeAvailability::Unmanaged
        }),
{
    if policy.persistent_management_supported() {
        DesktopRuntimeAvailability::Available
    } else if channel == BuildChannel::Development {
        DesktopRuntimeAvailability::Development
    } else {
        DesktopRuntimeAvailability::Unmanaged
    }
}

/// The preferences that the window starts with, and why they are not the kept ones.
pub fn starting_preferences(
    loaded: Result<ApplicationPreferences, String>,
    fallback: ApplicationPreferences,
) -> (r: (ApplicationPreferences, Option<String>))
    ensures
        match loaded {
            Ok(preferences) => r.0 == preferences && r.1 is None,
            Err(detail) => r.0 == fallback && text::optional(r.1) == Some(detail@),
        },
{
    match loaded {
        Ok(preferences) => (preferences, None),
        Err(detail) => (fallback, Some(detail)),
    }
}

/// The proxy that the window starts with, and why it is not the kept one.
pub fn starting_proxy(
    loaded: Result<NetworkProxyPreferences, String>,
    fallback: NetworkProxyPreferences,
) -> (r: (NetworkProxyPreferences, Option<String>))
    ensures
        match loaded {
            Ok(preferences) => r.0@ == preferences@ && r.1 is None,
            Err(detail) => r.0@ == fallback@ && text::optional(r.1) == Some(detail@),
        },
{
    match loaded {
        Ok(preferences) => (preferences, None),
        Err(detail) => (fallback, Some(detail)),
    }
}

/// Whether a command may write to a device: only where the user says so.
pub fn check_device_write(allowed: bool) -> (r: Result<(), DogiError>)
    ensures
        match r {
            Ok(_) => allowed,
            Err(e) => !allowed && e@ == (
                ErrorKind::InvalidArgument,
                "config apply requires --allow-device-write"@,
            ),
        },
{
    if allowed {
        Ok(())
    } else {
        Err(DogiError::InvalidArgument("config apply requires --allow-device-write".to_owned()))
    }
}

/// What the settings of a device are kept under: what the device is known by, or else
/// the name that the user gave.
pub fn resolve_device_settings_id(found: &Option<DeviceInfo>, device_id: &str) -> (r: String)
    ensures
        r@ == match found {
            Some(device) => device_info::settings_key(*device),
            None => device_id@,
        },
{
    match found {
        Some(device) => device_info::device_settings_id(device),
        None => device_id.to_owned(),
    }
}

/// What is printed when a session of the runtime begins. `pausing` is the word for
/// actions that are not carried out.
pub fn session_banner(
    device_id: &str,
    execute_actions: bool,
    allow_device_write: bool,
    pausing: &str,
) -> (lines: Vec<String>)
    ensures
        text::texts(lines@) == seq![
            "Runtime service for "@ + device_id@,
            "  mode: actions "@ + ((if execute_actions {
                "enabled"@
            } else {
                pausing@
            }) + ", device writes "@ + report::switched(allow_device_write)),
        ],
{
    let mode: &str = if execute_actions {
        "enabled"
    } else {
        pausing
    };
    let line = text::concat3(mode, ", device writes ", report::enabled_text(allow_device_write));
    let mut lines: Vec<String> = Vec::new();
    assert(text::texts(lines@) =~= Seq::<Seq<char>>::empty());
    report::add_line(&mut lines, "Runtime service for ", device_id);
    report::add_line(&mut lines, "  mode: actions ", line.as_str());
    assert(text::texts(lines@) =~= seq![
        "Runtime service for "@ + device_id@,
        "  mode: actions "@ + line@,
    ]);
    lines
}

/// What is printed of a write to the device.
pub fn apply_summary(failed_steps: usize) -> (r: String)
    ensures
        r@ == "  device apply: "@ + text::decimal(failed_steps as nat) + " failed step"@
            + report::plural_ending(failed_steps as nat),
{
    let mut r = "  device apply: ".to_owned();
    text::push_decimal(&mut r, failed_steps as u64);
    r.append(" failed step");
    r.append(report::plural(failed_steps));
    r
}

/// The window is opened by the user of the desktop alone, and devices are written only where the
/// user allowed it.
pub proof fn law_launches_are_permitted(elevated: bool, allowed: bool)
    ensures
        forall|r: Option<DogiError>|
            #![trigger call_ensures(launch_fault, (elevated,), r)]
            call_ensures(launch_fault, (elevated,), r) ==> (r is Some <==> elevated),
        forall|r: Result<(), DogiError>|
            #![trigger call_ensures(check_device_write, (allowed,), r)]
            call_ensures(check_device_write, (allowed,), r) ==> (r is Ok <==> allowed),
{
}

/// The background service can be offered where the installation has one, and otherwise it is
/// told whether that is because the build is one for development.
pub proof fn law_availability_is_told(channel: BuildChannel, policy: &RuntimePolicy)
    ensures
        forall|r: DesktopRuntimeAvailability|
            #![trigger call_ensures(runtime_availability, (channel, policy), r)]
            call_ensures(runtime_availability, (channel, policy), r) ==> {
                &&& r is Available <==> policy.integration is DebianSystemd
                    || policy.integration is PortableSystemd
                &&& policy.integration is ForegroundOnly && channel is Development ==> r
                    is Development
                &&& policy.integration is ForegroundOnly && channel is Stable ==> r is Unmanaged
            },
{
}

/// What was loaded is what the program starts with, and what could not be loaded is told and
/// replaced.
pub proof fn law_loaded_preferences_are_used(
    preferences: ApplicationPreferences,
    fallback: ApplicationPreferences,
    detail: String,
    found: &Option<DeviceInfo>,
    device_id: &str,
)
    ensures
        forall|r: (ApplicationPreferences, Option<String>)|
            #![trigger call_ensures(starting_preferences, (Ok(preferences), fallback), r)]
            call_ensures(starting_preferences, (Ok(preferences), fallback), r) ==> r.0 == preferences
                && r.1 is None,
        forall|r: (ApplicationPreferences, Option<String>)|
            #![trigger call_ensures(starting_preferences, (Err(detail), fallback), r)]
            call_ensures(starting_preferences, (Err(detail), fallback), r) ==> r.0 == fallback
                && r.1 is Some && r.1->0@ == detail@,
        forall|proxy: NetworkProxyPreferences, other: NetworkProxyPreferences, r: (NetworkProxyPreferences, Option<String>)|
            #![trigger call_ensures(starting_proxy, (Ok(proxy), other), r)]
            call_ensures(starting_proxy, (Ok(proxy), other), r) ==> r.0@ == proxy@ && r.1 is None,
        forall|other: NetworkProxyPreferences, r: (NetworkProxyPreferences, Option<String>)|
            #![trigger call_ensures(starting_proxy, (Err(detail), other), r)]
            call_ensures(starting_proxy, (Err(detail), other), r) ==> r.0@ == other@ && r.1 is Some
                && r.1->0@ == detail@,
        forall|r: String|
            #![trigger call_ensures(resolve_device_settings_id, (found, device_id), r)]
            call_ensures(resolve_device_settings_id, (found, device_id), r) ==> (found is None ==> r@
                == device_id@) && (found matches Some(device) ==> r@ == device_info::settings_key(
                *device,
            )),
{
}

}
