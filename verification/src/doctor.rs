//! The diagnosis of the machine.

use crate::device_info;
use crate::device_info::{CapabilityState, DeviceInfo};
use crate::error;
use crate::error::DogiError;
use crate::report;
use crate::text;
use vstd::prelude::*;

verus! {

pub const LINUX_UDEV_RULE_PATH: &'static str = "/etc/udev/rules.d/70-dogi-logitech.rules";

pub const LINUX_UDEV_RULE: &'static str =
    "# Access to Logitech HID nodes and to virtual input for the user at this machine.
KERNEL==\"hidraw*\", SUBSYSTEM==\"hidraw\", ATTRS{idVendor}==\"046d\", MODE=\"0660\", TAG+=\"uaccess\"
KERNEL==\"uinput\", SUBSYSTEM==\"misc\", MODE=\"0660\", TAG+=\"uaccess\", OPTIONS+=\"static_node=uinput\"
";

pub const LINUX_UDEV_RELOAD_HINT: &'static str =
    "sudo udevadm control --reload-rules && sudo udevadm trigger --subsystem-match=hidraw && sudo udevadm trigger --subsystem-match=misc";

pub const LINUX_UINPUT_HINT: &'static str = "Dogi custom actions need write access to /dev/uinput";

pub const LINUX_PERMISSION_HINT: &'static str =
    "HID++ discovery, explicit apply, and app-profile transitions need read/write access to the HID++ endpoint";

/// Whether something the runtime needs is there.
#[derive(Debug, PartialEq, Eq)]
pub struct RuntimeEnvironmentStatus {
    pub available: bool,
    pub detail: String,
}

impl View for RuntimeEnvironmentStatus {
    type V = (bool, Seq<char>);

    open spec fn view(&self) -> (bool, Seq<char>) {
        (self.available, self.detail@)
    }
}

/// Whether the user service is installed, and where.
#[derive(Debug, PartialEq, Eq)]
pub struct SystemdUserServiceStatus {
    pub path: Option<String>,
    pub installed: bool,
}

/// Whether virtual input can be made. `failure` tells why the device could not be
/// opened.
pub fn runtime_uinput_status(failure: &Option<String>) -> (r: RuntimeEnvironmentStatus)
    ensures
        r@ == match failure {
            None => (true, "opened for writing"@),
            Some(detail) => (false, "failed to open /dev/uinput for writing: "@ + detail@),
        },
{
    match failure {
        None => RuntimeEnvironmentStatus {
            available: true,
            detail: "opened for writing".to_owned(),
        },
        Some(detail) => RuntimeEnvironmentStatus {
            available: false,
            detail: text::concat2("failed to open /dev/uinput for writing: ", detail.as_str()),
        },
    }
}

/// How the X11 property lister ended.
#[derive(Debug, PartialEq, Eq)]
pub enum ProbeEnd {
    Succeeded,
    Failed { stderr: String },
    NotRun { detail: String },
}

/// Whether the application that has the focus can be told.
pub fn active_window_status(end: &ProbeEnd) -> (r: RuntimeEnvironmentStatus)
    ensures
        r@ == match end {
            ProbeEnd::Succeeded => (true, "xprop is available"@),
            ProbeEnd::Failed { stderr } => (
                false,
                "xprop returned non-zero status: "@ + text::trimmed(stderr@),
            ),
            ProbeEnd::NotRun { detail } => (false, "xprop is not available: "@ + detail@),
        },
{
    match end {
        ProbeEnd::Succeeded => RuntimeEnvironmentStatus {
            available: true,
            detail: "xprop is available".to_owned(),
        },
        ProbeEnd::Failed { stderr } => RuntimeEnvironmentStatus {
            available: false,
            detail: text::concat2(
                "xprop returned non-zero status: ",
                text::trim(stderr.as_str()).as_str(),
            ),
        },
        ProbeEnd::NotRun { detail } => RuntimeEnvironmentStatus {
            available: false,
            detail: text::concat2("xprop is not available: ", detail.as_str()),
        },
    }
}

/// Whether the user service is installed. `exists` tells that there is something at its
/// path.
pub fn systemd_user_service_status(path: Result<String, DogiError>, exists: bool) -> (r:
    SystemdUserServiceStatus)
    ensures
        match path {
            Ok(path) => text::optional(r.path) == Some(path@) && r.installed == exists,
            Err(e) => text::optional(r.path) == Some("unavailable: "@ + error::message_of(e@))
                && !r.installed,
        },
{
    match path {
        Ok(path) => SystemdUserServiceStatus { path: Some(path), installed: exists },
        Err(error) => SystemdUserServiceStatus {
            path: Some(text::concat2("unavailable: ", error.message().as_str())),
            installed: false,
        },
    }
}

/// What devices are counted by.
#[derive(Clone, Copy, Debug, PartialEq, Eq, Structural)]
pub enum DeviceTrait {
    Logitech,
    Hidpp,
    Readable,
    ReadWrite,
}

/// Whether a device counts.
pub open spec fn has_trait(d: DeviceInfo, t: DeviceTrait) -> bool {
    match t {
        DeviceTrait::Logitech => d.vendor_id == device_info::LOGITECH_VENDOR_ID,
        DeviceTrait::Hidpp => d.capabilities.hidpp == CapabilityState::Supported,
        DeviceTrait::Readable => d.access.hidraw_readable,
        DeviceTrait::ReadWrite => d.access.hidraw_readwrite,
    }
}

/// How many of the first `n` devices count.
pub open spec fn counted(devices: Seq<DeviceInfo>, n: nat, t: DeviceTrait) -> nat
    decreases n,
{
    if n == 0 || n > devices.len() {
        0
    } else if has_trait(devices[n - 1], t) {
        counted(devices, (n - 1) as nat, t) + 1
    } else {
        counted(devices, (n - 1) as nat, t)
    }
}

/// How many devices count.
pub fn count_devices(devices: &Vec<DeviceInfo>, t: DeviceTrait) -> (r: usize)
    ensures
        r == counted(devices@, devices@.len(), t),
{
    let mut count: usize = 0;
    let mut i: usize = 0;
    while i < devices.len()
        invariant
            i <= devices@.len(),
            count <= i,
            count == counted(devices@, i as nat, t),
        decreases devices@.len() - i,
    {
        let d = &devices[i];
        let counts = match t {
            DeviceTrait::Logitech => d.vendor_id == device_info::LOGITECH_VENDOR_ID,
            DeviceTrait::Hidpp => d.capabilities.hidpp == CapabilityState::Supported,
            DeviceTrait::Readable => d.access.hidraw_readable,
            DeviceTrait::ReadWrite => d.access.hidraw_readwrite,
        };
        if counts {
            count += 1;
        }
        i += 1;
    }
    count
}

/// The diagnosis.
#[derive(Debug, PartialEq, Eq)]
pub struct DoctorReport {
    pub build_channel: String,
    pub distribution: String,
    pub runtime_integration: String,
    pub config_directory: String,
    pub cache_directory: String,
    pub runtime_directory: String,
    pub updates_supported: bool,
    pub hid_backend: &'static str,
    pub device_writer_status: &'static str,
    pub total_hid_devices: usize,
    pub logitech_devices: usize,
    pub hidpp_interfaces: usize,
    pub hidraw_readable: usize,
    pub hidraw_readwrite: usize,
    pub linux_permission_hint: Option<&'static str>,
    pub linux_udev_rule_path: Option<&'static str>,
    pub linux_udev_rule: Option<&'static str>,
    pub linux_udev_reload_hint: Option<&'static str>,
    pub runtime_uinput_path: Option<&'static str>,
    pub runtime_uinput_writable: bool,
    pub runtime_uinput_detail: String,
    pub runtime_uinput_hint: Option<&'static str>,
    pub active_window_backend: Option<&'static str>,
    pub active_window_available: bool,
    pub active_window_detail: String,
    pub systemd_user_service_path: Option<String>,
    pub systemd_user_service_installed: bool,
}

/// The view of a fixed text that may be missing.
pub open spec fn fixed(s: Option<&'static str>) -> Option<Seq<char>> {
    match s {
        Some(s) => Some(s@),
        None => None,
    }
}

/// Whether a diagnosis has the fixed parts.
pub open spec fn has_fixed_parts(r: DoctorReport) -> bool {
    &&& r.hid_backend@ == "linux-sysfs-hidraw"@
    &&& r.device_writer_status@ == "explicit apply and configured app-profile transitions"@
    &&& fixed(r.linux_permission_hint) == Some(LINUX_PERMISSION_HINT@)
    &&& fixed(r.linux_udev_rule_path) == Some(LINUX_UDEV_RULE_PATH@)
    &&& fixed(r.linux_udev_rule) == Some(LINUX_UDEV_RULE@)
    &&& fixed(r.linux_udev_reload_hint) == Some(LINUX_UDEV_RELOAD_HINT@)
    &&& fixed(r.runtime_uinput_path) == Some("/dev/uinput"@)
    &&& fixed(r.runtime_uinput_hint) == Some(LINUX_UINPUT_HINT@)
    &&& fixed(r.active_window_backend) == Some("xprop"@)
}

/// Whether a diagnosis counts some devices.
pub open spec fn counts_devices(r: DoctorReport, devices: Seq<DeviceInfo>) -> bool {
    &&& r.total_hid_devices == devices.len()
    &&& r.logitech_devices == counted(devices, devices.len(), DeviceTrait::Logitech)
    &&& r.hidpp_interfaces == counted(devices, devices.len(), DeviceTrait::Hidpp)
    &&& r.hidraw_readable == counted(devices, devices.len(), DeviceTrait::Readable)
    &&& r.hidraw_readwrite == counted(devices, devices.len(), DeviceTrait::ReadWrite)
}

/// The diagnosis of the devices, without that of the installation.
pub fn doctor_report_from_devices_with_environment(
    all_devices: &Vec<DeviceInfo>,
    uinput: RuntimeEnvironmentStatus,
    active_window: RuntimeEnvironmentStatus,
    service: SystemdUserServiceStatus,
) -> (r: DoctorReport)
    ensures
        has_fixed_parts(r),
        counts_devices(r, all_devices@),
        r.build_channel@ == "unknown"@,
        r.distribution@ == "unknown"@,
        r.runtime_integration@ == "unknown"@,
        r.config_directory@ == Seq::<char>::empty(),
        r.cache_directory@ == Seq::<char>::empty(),
        r.runtime_directory@ == Seq::<char>::empty(),
        !r.updates_supported,
        (r.runtime_uinput_writable, r.runtime_uinput_detail@) == uinput@,
        (r.active_window_available, r.active_window_detail@) == active_window@,
        text::optional(r.systemd_user_service_path) == text::optional(service.path),
        r.systemd_user_service_installed == service.installed,
{
    DoctorReport {
        build_channel: "unknown".to_owned(),
        distribution: "unknown".to_owned(),
        runtime_integration: "unknown".to_owned(),
        config_directory: String::new(),
        cache_directory: String::new(),
        runtime_directory: String::new(),
        updates_supported: false,
        hid_backend: "linux-sysfs-hidraw",
        device_writer_status: "explicit apply and configured app-profile transitions",
        total_hid_devices: all_devices.len(),
        logitech_devices: count_devices(all_devices, DeviceTrait::Logitech),
        hidpp_interfaces: count_devices(all_devices, DeviceTrait::Hidpp),
        hidraw_readable: count_devices(all_devices, DeviceTrait::Readable),
        hidraw_readwrite: count_devices(all_devices, DeviceTrait::ReadWrite),
        linux_permission_hint: Some(LINUX_PERMISSION_HINT),
        linux_udev_rule_path: Some(LINUX_UDEV_RULE_PATH),
        linux_udev_rule: Some(LINUX_UDEV_RULE),
        linux_udev_reload_hint: Some(LINUX_UDEV_RELOAD_HINT),
        runtime_uinput_path: Some("/dev/uinput"),
        runtime_uinput_writable: uinput.available,
        runtime_uinput_detail: uinput.detail,
        runtime_uinput_hint: Some(LINUX_UINPUT_HINT),
        active_window_backend: Some("xprop"),
        active_window_available: active_window.available,
        active_window_detail: active_window.detail,
        systemd_user_service_path: service.path,
        systemd_user_service_installed: service.installed,
    }
}

/// What the installation is, as it is shown.
#[derive(Debug, PartialEq, Eq)]
pub struct InstallationFacts {
    pub build_channel: String,
    pub distribution: String,
    pub runtime_integration: String,
    pub config_directory: String,
    pub cache_directory: String,
    pub runtime_directory: String,
    pub updates_supported: bool,
}

/// The diagnosis of the devices and of the installation.
pub fn doctor_report_from_devices(devices_report: DoctorReport, facts: InstallationFacts) -> (r:
    DoctorReport)
    ensures
        r == (DoctorReport {
            build_channel: facts.build_channel,
            distribution: facts.distribution,
            runtime_integration: facts.runtime_integration,
            config_directory: facts.config_directory,
            cache_directory: facts.cache_directory,
            runtime_directory: facts.runtime_directory,
            updates_supported: facts.updates_supported,
            ..devices_report
        }),
{
    let mut report = devices_report;
    report.build_channel = facts.build_channel;
    report.distribution = facts.distribution;
    report.runtime_integration = facts.runtime_integration;
    report.config_directory = facts.config_directory;
    report.cache_directory = facts.cache_directory;
    report.runtime_directory = facts.runtime_directory;
    report.updates_supported = facts.updates_supported;
    report
}

/// What is printed of the installation and the devices.
pub open spec fn summary_lines(r: DoctorReport) -> Seq<Seq<char>> {
    seq![
        "dogi doctor"@,
        "  Build channel: "@ + r.build_channel@,
        "  Distribution: "@ + r.distribution@,
        "  Runtime integration: "@ + r.runtime_integration@,
        "  Config directory: "@ + r.config_directory@,
        "  Cache directory: "@ + r.cache_directory@,
        "  Runtime directory: "@ + r.runtime_directory@,
        "  Automatic updates: "@ + report::switched(r.updates_supported),
        "  HID backend: "@ + r.hid_backend@,
        "  Device writer: "@ + r.device_writer_status@,
        "  HID devices: "@ + text::decimal(r.total_hid_devices as nat),
        "  Logitech devices: "@ + text::decimal(r.logitech_devices as nat),
        "  HID++ interfaces: "@ + text::decimal(r.hidpp_interfaces as nat),
        "  Readable hidraw nodes: "@ + text::decimal(r.hidraw_readable as nat),
        "  Read/write hidraw nodes: "@ + text::decimal(r.hidraw_readwrite as nat),
    ]
}

/// What is printed of the permissions.
pub open spec fn permission_lines(r: DoctorReport) -> Seq<Seq<char>> {
    report::optional_line("  Linux permissions: "@, fixed(r.linux_permission_hint)) + (match (
        r.linux_udev_rule_path,
        r.linux_udev_rule,
        r.linux_udev_reload_hint,
    ) {
        (Some(path), Some(rule), Some(hint)) => seq![
            "  udev rule path: "@ + path@,
            "  udev rule: "@ + rule@,
            "  reload rules: "@ + hint@,
        ],
        _ => Seq::empty(),
    })
}

/// What is printed of virtual input.
pub open spec fn uinput_lines(r: DoctorReport) -> Seq<Seq<char>> {
    (match r.runtime_uinput_path {
        Some(path) => seq![
            "  uinput: "@ + ((if r.runtime_uinput_writable {
                "writable"@
            } else {
                "not writable"@
            }) + " ("@ + path@ + ")"@),
            "  uinput detail: "@ + r.runtime_uinput_detail@,
        ],
        None => Seq::empty(),
    }) + report::optional_line("  runtime permissions: "@, fixed(r.runtime_uinput_hint))
}

/// What is printed of the desktop and the service.
pub open spec fn desktop_lines(r: DoctorReport) -> Seq<Seq<char>> {
    (match r.active_window_backend {
        Some(backend) => seq![
            "  active-window backend: "@ + (backend@ + " ("@ + (if r.active_window_available {
                "available"@
            } else {
                "unavailable"@
            }) + ")"@),
            "  active-window detail: "@ + r.active_window_detail@,
        ],
        None => Seq::empty(),
    }) + (match r.systemd_user_service_path {
        Some(path) => seq![
            "  systemd user service: "@ + path@,
            "  service installed: "@ + report::truth(r.systemd_user_service_installed),
        ],
        None => Seq::empty(),
    })
}

/// What is printed of a diagnosis.
pub open spec fn doctor_lines(r: DoctorReport) -> Seq<Seq<char>> {
    summary_lines(r) + permission_lines(r) + uinput_lines(r) + desktop_lines(r)
}

fn add_number(lines: &mut Vec<String>, label: &str, value: usize)
    ensures
        text::texts(final(lines)@) == text::texts(old(lines)@).push(
            label@ + text::decimal(value as nat),
        ),
{
    report::add_line(lines, label, text::decimal_text(value as u64).as_str());
}

fn summary_report(r: &DoctorReport) -> (lines: Vec<String>)
    ensures
        text::texts(lines@) == summary_lines(*r),
{
    let mut lines: Vec<String> = Vec::new();
    assert(text::texts(lines@) =~= Seq::<Seq<char>>::empty());
    report::add_text(&mut lines, "dogi doctor");
    report::add_line(&mut lines, "  Build channel: ", r.build_channel.as_str());
    report::add_line(&mut lines, "  Distribution: ", r.distribution.as_str());
    report::add_line(&mut lines, "  Runtime integration: ", r.runtime_integration.as_str());
    report::add_line(&mut lines, "  Config directory: ", r.config_directory.as_str());
    report::add_line(&mut lines, "  Cache directory: ", r.cache_directory.as_str());
    report::add_line(&mut lines, "  Runtime directory: ", r.runtime_directory.as_str());
    report::add_line(&mut lines, "  Automatic updates: ", report::enabled_text(r.updates_supported));
    report::add_line(&mut lines, "  HID backend: ", r.hid_backend);
    report::add_line(&mut lines, "  Device writer: ", r.device_writer_status);
    add_number(&mut lines, "  HID devices: ", r.total_hid_devices);
    add_number(&mut lines, "  Logitech devices: ", r.logitech_devices);
    add_number(&mut lines, "  HID++ interfaces: ", r.hidpp_interfaces);
    add_number(&mut lines, "  Readable hidraw nodes: ", r.hidraw_readable);
    add_number(&mut lines, "  Read/write hidraw nodes: ", r.hidraw_readwrite);
    assert(text::texts(lines@) =~= summary_lines(*r));
    lines
}

fn permission_report(r: &DoctorReport) -> (lines: Vec<String>)
    ensures
        text::texts(lines@) == permission_lines(*r),
{
    let mut lines: Vec<String> = Vec::new();
    assert(text::texts(lines@) =~= Seq::<Seq<char>>::empty());
    if let Some(hint) = r.linux_permission_hint {
        report::add_line(&mut lines, "  Linux permissions: ", hint);
    }
    match (r.linux_udev_rule_path, r.linux_udev_rule, r.linux_udev_reload_hint) {
        (Some(path), Some(rule), Some(hint)) => {
            report::add_line(&mut lines, "  udev rule path: ", path);
            report::add_line(&mut lines, "  udev rule: ", rule);
            report::add_line(&mut lines, "  reload rules: ", hint);
        },
        _ => (),
    }
    assert(text::texts(lines@) =~= permission_lines(*r));
    lines
}

fn uinput_report(r: &DoctorReport) -> (lines: Vec<String>)
    ensures
        text::texts(lines@) == uinput_lines(*r),
{
    let mut lines: Vec<String> = Vec::new();
    assert(text::texts(lines@) =~= Seq::<Seq<char>>::empty());
    if let Some(path) = r.runtime_uinput_path {
        let state: &str = if r.runtime_uinput_writable {
            "writable"
        } else {
            "not writable"
        };
        let mut value = text::concat3(state, " (", path);
        value.append(")");
        report::add_line(&mut lines, "  uinput: ", value.as_str());
        report::add_line(&mut lines, "  uinput detail: ", r.runtime_uinput_detail.as_str());
    }
    if let Some(hint) = r.runtime_uinput_hint {
        report::add_line(&mut lines, "  runtime permissions: ", hint);
    }
    assert(text::texts(lines@) =~= uinput_lines(*r));
    lines
}

fn desktop_report(r: &DoctorReport) -> (lines: Vec<String>)
    ensures
        text::texts(lines@) == desktop_lines(*r),
{
    let mut lines: Vec<String> = Vec::new();
    assert(text::texts(lines@) =~= Seq::<Seq<char>>::empty());
    if let Some(backend) = r.active_window_backend {
        let state: &str = if r.active_window_available {
            "available"
        } else {
            "unavailable"
        };
        let mut value = text::concat3(backend, " (", state);
        value.append(")");
        report::add_line(&mut lines, "  active-window backend: ", value.as_str());
        report::add_line(&mut lines, "  active-window detail: ", r.active_window_detail.as_str());
    }
    if let Some(path) = &r.systemd_user_service_path {
        report::add_line(&mut lines, "  systemd user service: ", path.as_str());
        report::add_line(
            &mut lines,
            "  service installed: ",
            report::truth_text(r.systemd_user_service_installed),
        );
    }
    assert(text::texts(lines@) =~= desktop_lines(*r));
    lines
}

/// What is printed of a diagnosis.
pub fn doctor_text(r: &DoctorReport) -> (lines: Vec<String>)
    ensures
        text::texts(lines@) == doctor_lines(*r),
{
    let mut lines = summary_report(r);
    report::add_all(&mut lines, permission_report(r));
    report::add_all(&mut lines, uinput_report(r));
    report::add_all(&mut lines, desktop_report(r));
    lines
}

/// The devices of a kind are counted one by one: one more of a kind is one more in its count
/// alone.
pub proof fn law_devices_are_counted(devices: Seq<DeviceInfo>, d: DeviceInfo)
    ensures
        ({
            let more = devices.push(d);
            let n = devices.len();
            &&& counted(more, n + 1, DeviceTrait::Logitech) == counted(
                devices,
                n,
                DeviceTrait::Logitech,
            ) + if d.vendor_id == 0x046d {
                1nat
            } else {
                0nat
            }
            &&& counted(more, n + 1, DeviceTrait::Hidpp) == counted(devices, n, DeviceTrait::Hidpp)
                + if d.capabilities.hidpp is Supported {
                1nat
            } else {
                0nat
            }
            &&& counted(more, n + 1, DeviceTrait::Readable) == counted(
                devices,
                n,
                DeviceTrait::Readable,
            ) + if d.access.hidraw_readable {
                1nat
            } else {
                0nat
            }
            &&& counted(more, n + 1, DeviceTrait::ReadWrite) == counted(
                devices,
                n,
                DeviceTrait::ReadWrite,
            ) + if d.access.hidraw_readwrite {
                1nat
            } else {
                0nat
            }
        }),
        counted(Seq::empty(), 0, DeviceTrait::Logitech) == 0,
{
    lemma_count_is_local(devices, devices.push(d), devices.len(), DeviceTrait::Logitech);
    lemma_count_is_local(devices, devices.push(d), devices.len(), DeviceTrait::Hidpp);
    lemma_count_is_local(devices, devices.push(d), devices.len(), DeviceTrait::Readable);
    lemma_count_is_local(devices, devices.push(d), devices.len(), DeviceTrait::ReadWrite);
}

proof fn lemma_count_is_local(a: Seq<DeviceInfo>, b: Seq<DeviceInfo>, n: nat, t: DeviceTrait)
    requires
        n <= a.len() && n <= b.len(),
        forall|i: int| 0 <= i < n ==> a[i] == #[trigger] b[i],
    ensures
        counted(a, n, t) == counted(b, n, t),
    decreases n,
{
    if n > 0 {
        lemma_count_is_local(a, b, (n - 1) as nat, t);
        assert(a[n - 1] == b[n - 1]);
    }
}

/// What the report says of the system is what was found: the counts of the devices, whether the
/// virtual input device and the active window can be used, and the unit of the service.
pub proof fn law_reports_say_what_was_found(
    devices: &Vec<DeviceInfo>,
    uinput: RuntimeEnvironmentStatus,
    active_window: RuntimeEnvironmentStatus,
    service: SystemdUserServiceStatus,
)
    ensures
        forall|r: DoctorReport|
            #![trigger call_ensures(doctor_report_from_devices_with_environment, (devices, uinput, active_window, service), r)]
            call_ensures(
                doctor_report_from_devices_with_environment,
                (devices, uinput, active_window, service),
                r,
            ) ==> {
                &&& r.total_hid_devices == devices@.len()
                &&& r.logitech_devices == counted(
                    devices@,
                    devices@.len(),
                    DeviceTrait::Logitech,
                )
                &&& r.hidpp_interfaces == counted(devices@, devices@.len(), DeviceTrait::Hidpp)
                &&& r.hidraw_readable == counted(devices@, devices@.len(), DeviceTrait::Readable)
                &&& r.hidraw_readwrite == counted(devices@, devices@.len(), DeviceTrait::ReadWrite)
                &&& r.runtime_uinput_writable == uinput@.0 && r.runtime_uinput_detail@ == uinput@.1
                &&& r.active_window_available == active_window@.0 && r.active_window_detail@
                    == active_window@.1
                &&& text::optional(r.systemd_user_service_path) == text::optional(service.path)
                &&& r.systemd_user_service_installed == service.installed
                &&& r.hid_backend@ == "linux-sysfs-hidraw"@
                &&& r.runtime_uinput_path is Some && r.runtime_uinput_path->0@ == "/dev/uinput"@
                &&& r.active_window_backend is Some && r.active_window_backend->0@ == "xprop"@
                &&& r.linux_udev_rule_path is Some && r.linux_udev_rule_path->0@
                    == "/etc/udev/rules.d/70-dogi-logitech.rules"@
            },
        forall|failure: &Option<String>, r: RuntimeEnvironmentStatus|
            #![trigger call_ensures(runtime_uinput_status, (failure,), r)]
            call_ensures(runtime_uinput_status, (failure,), r) ==> (r@.0 <==> failure is None),
        forall|end: &ProbeEnd, r: RuntimeEnvironmentStatus|
            #![trigger call_ensures(active_window_status, (end,), r)]
            call_ensures(active_window_status, (end,), r) ==> (r@.0 <==> end is Succeeded),
        forall|path: Result<String, DogiError>, exists: bool, r: SystemdUserServiceStatus|
            #![trigger call_ensures(systemd_user_service_status, (path, exists), r)]
            call_ensures(systemd_user_service_status, (path, exists), r) ==> (r.installed <==> path
                is Ok && exists) && (path is Ok ==> text::optional(r.path) == Some(path->Ok_0@)),
{
}

/// What the report says is printed, each fact on a line of its own.
pub proof fn law_reports_are_printed(r: DoctorReport)
    ensures
        summary_lines(r).len() == 15,
        summary_lines(r)[1] == "  Build channel: "@ + r.build_channel@,
        summary_lines(r)[2] == "  Distribution: "@ + r.distribution@,
        summary_lines(r)[3] == "  Runtime integration: "@ + r.runtime_integration@,
        summary_lines(r)[4] == "  Config directory: "@ + r.config_directory@,
        summary_lines(r)[5] == "  Cache directory: "@ + r.cache_directory@,
        summary_lines(r)[6] == "  Runtime directory: "@ + r.runtime_directory@,
        r.updates_supported ==> summary_lines(r)[7] == "  Automatic updates: "@ + "enabled"@,
        !r.updates_supported ==> summary_lines(r)[7] == "  Automatic updates: "@ + "disabled"@,
        summary_lines(r)[8] == "  HID backend: "@ + r.hid_backend@,
        summary_lines(r)[9] == "  Device writer: "@ + r.device_writer_status@,
        summary_lines(r)[10] == "  HID devices: "@ + text::decimal(r.total_hid_devices as nat),
        summary_lines(r)[11] == "  Logitech devices: "@ + text::decimal(r.logitech_devices as nat),
        summary_lines(r)[12] == "  HID++ interfaces: "@ + text::decimal(r.hidpp_interfaces as nat),
        summary_lines(r)[13] == "  Readable hidraw nodes: "@ + text::decimal(
            r.hidraw_readable as nat,
        ),
        summary_lines(r)[14] == "  Read/write hidraw nodes: "@ + text::decimal(
            r.hidraw_readwrite as nat,
        ),
        doctor_lines(r).len() >= 15 && doctor_lines(r).take(15) == summary_lines(r),
        r.runtime_uinput_path matches Some(path) ==> (r.runtime_uinput_writable ==> uinput_lines(
            r,
        )[0] == "  uinput: "@ + ("writable"@ + " ("@ + path@ + ")"@)) && (
        !r.runtime_uinput_writable ==> uinput_lines(r)[0] == "  uinput: "@ + ("not writable"@ + " ("@
            + path@ + ")"@)),
{
    assert(doctor_lines(r).take(15) =~= summary_lines(r));
}

/// What is known of the installation is put into the report, which keeps the rest.
pub proof fn law_installations_are_reported(report: DoctorReport, facts: InstallationFacts)
    ensures
        forall|r: DoctorReport|
            #![trigger call_ensures(doctor_report_from_devices, (report, facts), r)]
            call_ensures(doctor_report_from_devices, (report, facts), r) ==> {
                &&& r.build_channel == facts.build_channel && r.distribution == facts.distribution
                &&& r.runtime_integration == facts.runtime_integration
                &&& r.config_directory == facts.config_directory && r.cache_directory
                    == facts.cache_directory && r.runtime_directory == facts.runtime_directory
                &&& r.updates_supported == facts.updates_supported
                &&& r.logitech_devices == report.logitech_devices && r.hidpp_interfaces
                    == report.hidpp_interfaces && r.total_hid_devices == report.total_hid_devices
                &&& r.runtime_uinput_writable == report.runtime_uinput_writable
                &&& r.active_window_available == report.active_window_available
            },
{
}

}
