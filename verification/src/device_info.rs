//! Devices as a scan finds them, their names and identities, and which of them the
//! runtime serves.

use crate::battery::{BatteryInfo, BatterySource, BatteryStatus};
use crate::error::{DogiError, ErrorKind};
use crate::text;
use vstd::prelude::*;

verus! {

pub const LOGITECH_VENDOR_ID: u16 = 0x046d;

pub const ACTIVE_DEVICE_STATE_VERSION: u8 = 1;

/// The bus that a device hangs on.
#[derive(Clone, Copy, Debug, PartialEq, Eq, Structural)]
pub enum BusKind {
    Usb,
    Bluetooth,
    Other,
}

/// How a device reaches the computer.
#[derive(Clone, Copy, Debug, PartialEq, Eq, Structural)]
pub enum ConnectionKind {
    Usb,
    Bluetooth,
    Bolt,
    Unifying,
    Unknown,
}

/// The kind of a wireless receiver.
#[derive(Clone, Copy, Debug, PartialEq, Eq, Structural)]
pub enum ReceiverKind {
    Bolt,
    Unifying,
}

/// Whether a device can do something.
#[derive(Clone, Copy, Debug, PartialEq, Eq, Structural)]
pub enum CapabilityState {
    Supported,
    Unsupported,
    Unknown,
}

/// When a device is written to.
#[derive(Clone, Copy, Debug, PartialEq, Eq, Structural)]
pub enum WritePolicy {
    ReadOnly,
    ExplicitApply,
}

/// The version of the protocol that a device speaks.
#[derive(Clone, Copy, Debug, PartialEq, Eq, Structural)]
pub struct HidppProtocolVersion {
    pub major: u8,
    pub minor: u8,
}

/// A feature that a device offers.
#[derive(Clone, Debug, PartialEq, Eq)]
pub struct HidppFeatureInfo {
    pub index: u8,
    pub feature_id: u16,
    pub name: String,
    pub flags: u8,
    pub version: u8,
}

/// A device that is paired with a receiver.
#[derive(Clone, Debug, PartialEq, Eq)]
pub struct PairedDeviceInfo {
    pub slot: u8,
    pub name: Option<String>,
    pub kind: Option<String>,
    pub wpid: Option<String>,
    pub protocol: Option<HidppProtocolVersion>,
    pub unit_id: Option<String>,
    pub model_id: Option<String>,
    pub feature_count: usize,
    pub features_complete: bool,
    pub features: Vec<HidppFeatureInfo>,
}

/// A page of usages and a usage on it.
#[derive(Clone, Copy, Debug, PartialEq, Eq, Structural)]
pub struct HidUsage {
    pub usage_page: u16,
    pub usage: u16,
}

/// What the reports of a device look like.
#[derive(Clone, Debug, PartialEq, Eq)]
pub struct ReportDescriptorInfo {
    pub byte_len: usize,
    pub report_ids: Vec<u8>,
    pub has_input_reports: bool,
    pub has_output_reports: bool,
    pub has_feature_reports: bool,
    pub vendor_usage_pages: Vec<u16>,
    pub hidpp_usage: Option<HidUsage>,
}

/// What may be done with a device.
#[derive(Clone, Copy, Debug, PartialEq, Eq, Structural)]
pub struct DeviceAccess {
    pub sysfs_readable: bool,
    pub hidraw_readable: bool,
    pub hidraw_readwrite: bool,
    pub write_policy: WritePolicy,
}

/// What a device can do.
#[derive(Clone, Copy, Debug, PartialEq, Eq, Structural)]
pub struct DeviceCapabilities {
    pub hidpp: CapabilityState,
    pub battery: CapabilityState,
    pub dpi: CapabilityState,
    pub button_mapping: CapabilityState,
    pub onboard_profiles: CapabilityState,
    pub wheel_mode: CapabilityState,
}

/// A device as a scan finds it.
#[derive(Clone, Debug, PartialEq, Eq)]
pub struct DeviceInfo {
    pub id: String,
    pub name: String,
    pub paired_device: Option<PairedDeviceInfo>,
    pub manufacturer: Option<String>,
    pub serial_number: Option<String>,
    pub bus: BusKind,
    pub bus_id: Option<u16>,
    pub vendor_id: u16,
    pub product_id: u16,
    pub release_number: Option<u16>,
    pub connection: ConnectionKind,
    pub receiver_kind: Option<ReceiverKind>,
    pub path: String,
    pub sysfs_path: String,
    pub physical_path: Option<String>,
    pub driver: Option<String>,
    pub interface_number: Option<i32>,
    pub usage_page: Option<u16>,
    pub usage: Option<u16>,
    pub access: DeviceAccess,
    pub battery: BatteryInfo,
    pub report_descriptor: ReportDescriptorInfo,
    pub capabilities: DeviceCapabilities,
}

impl Default for ReportDescriptorInfo {
    fn default() -> (r: Self)
        ensures
            r.byte_len == 0,
            r.report_ids@.len() == 0,
            !r.has_input_reports,
            !r.has_output_reports,
            !r.has_feature_reports,
            r.vendor_usage_pages@.len() == 0,
            r.hidpp_usage is None,
    {
        ReportDescriptorInfo {
            byte_len: 0,
            report_ids: Vec::new(),
            has_input_reports: false,
            has_output_reports: false,
            has_feature_reports: false,
            vendor_usage_pages: Vec::new(),
            hidpp_usage: None,
        }
    }
}

impl Default for DeviceAccess {
    fn default() -> (r: Self)
        ensures
            r == (DeviceAccess {
                sysfs_readable: false,
                hidraw_readable: false,
                hidraw_readwrite: false,
                write_policy: WritePolicy::ExplicitApply,
            }),
    {
        DeviceAccess {
            sysfs_readable: false,
            hidraw_readable: false,
            hidraw_readwrite: false,
            write_policy: WritePolicy::ExplicitApply,
        }
    }
}

impl Default for DeviceCapabilities {
    fn default() -> (r: Self)
        ensures
            r == (DeviceCapabilities {
                hidpp: CapabilityState::Unknown,
                battery: CapabilityState::Unknown,
                dpi: CapabilityState::Unknown,
                button_mapping: CapabilityState::Unknown,
                onboard_profiles: CapabilityState::Unknown,
                wheel_mode: CapabilityState::Unknown,
            }),
    {
        DeviceCapabilities {
            hidpp: CapabilityState::Unknown,
            battery: CapabilityState::Unknown,
            dpi: CapabilityState::Unknown,
            button_mapping: CapabilityState::Unknown,
            onboard_profiles: CapabilityState::Unknown,
            wheel_mode: CapabilityState::Unknown,
        }
    }
}

/// The name of a bus.
pub open spec fn bus_label(bus: BusKind) -> Seq<char> {
    match bus {
        BusKind::Usb => "USB"@,
        BusKind::Bluetooth => "Bluetooth"@,
        BusKind::Other => "other"@,
    }
}

/// The name of a connection.
pub open spec fn connection_label(connection: ConnectionKind) -> Seq<char> {
    match connection {
        ConnectionKind::Usb => "USB"@,
        ConnectionKind::Bluetooth => "Bluetooth"@,
        ConnectionKind::Bolt => "Bolt"@,
        ConnectionKind::Unifying => "Unifying"@,
        ConnectionKind::Unknown => "unknown"@,
    }
}

/// The name of a kind of receiver.
pub open spec fn receiver_label(receiver: ReceiverKind) -> Seq<char> {
    match receiver {
        ReceiverKind::Bolt => "Bolt"@,
        ReceiverKind::Unifying => "Unifying"@,
    }
}

/// The name of what is known of a capability.
pub open spec fn capability_label(state: CapabilityState) -> Seq<char> {
    match state {
        CapabilityState::Supported => "yes"@,
        CapabilityState::Unsupported => "no"@,
        CapabilityState::Unknown => "unknown"@,
    }
}

/// The name of a policy.
pub open spec fn policy_label(policy: WritePolicy) -> Seq<char> {
    match policy {
        WritePolicy::ReadOnly => "read-only"@,
        WritePolicy::ExplicitApply => "explicit apply"@,
    }
}

impl BusKind {
    pub fn label(self) -> (r: &'static str)
        ensures
            r@ == bus_label(self),
    {
        match self {
            BusKind::Usb => "USB",
            BusKind::Bluetooth => "Bluetooth",
            BusKind::Other => "other",
        }
    }
}

impl ConnectionKind {
    pub fn label(self) -> (r: &'static str)
        ensures
            r@ == connection_label(self),
    {
        match self {
            ConnectionKind::Usb => "USB",
            ConnectionKind::Bluetooth => "Bluetooth",
            ConnectionKind::Bolt => "Bolt",
            ConnectionKind::Unifying => "Unifying",
            ConnectionKind::Unknown => "unknown",
        }
    }
}

impl ReceiverKind {
    pub fn label(self) -> (r: &'static str)
        ensures
            r@ == receiver_label(self),
    {
        match self {
            ReceiverKind::Bolt => "Bolt",
            ReceiverKind::Unifying => "Unifying",
        }
    }
}

impl CapabilityState {
    pub fn label(self) -> (r: &'static str)
        ensures
            r@ == capability_label(self),
    {
        match self {
            CapabilityState::Supported => "yes",
            CapabilityState::Unsupported => "no",
            CapabilityState::Unknown => "unknown",
        }
    }
}

impl WritePolicy {
    pub fn label(self) -> (r: &'static str)
        ensures
            r@ == policy_label(self),
    {
        match self {
            WritePolicy::ReadOnly => "read-only",
            WritePolicy::ExplicitApply => "explicit apply",
        }
    }
}

/// The name of a status.
pub open spec fn status_label(status: BatteryStatus) -> Seq<char> {
    match status {
        BatteryStatus::Charging => "charging"@,
        BatteryStatus::Full => "full"@,
        BatteryStatus::Discharging => "discharging"@,
        BatteryStatus::Low => "low"@,
        BatteryStatus::Critical => "critical"@,
        BatteryStatus::Unknown => "unknown"@,
        BatteryStatus::Offline => "offline"@,
    }
}

/// The name of a source.
pub open spec fn source_label(source: BatterySource) -> Seq<char> {
    match source {
        BatterySource::Hidpp => "HID++"@,
        BatterySource::NotQueried => "not queried"@,
    }
}

/// A reading in words.
pub open spec fn battery_summary(level: Option<u8>, status: BatteryStatus) -> Seq<char> {
    match level {
        Some(percent) => text::decimal(percent as nat) + "%, "@ + status_label(status),
        None => status_label(status),
    }
}

impl BatteryStatus {
    pub fn label(self) -> (r: &'static str)
        ensures
            r@ == status_label(self),
    {
        match self {
            BatteryStatus::Charging => "charging",
            BatteryStatus::Full => "full",
            BatteryStatus::Discharging => "discharging",
            BatteryStatus::Low => "low",
            BatteryStatus::Critical => "critical",
            BatteryStatus::Unknown => "unknown",
            BatteryStatus::Offline => "offline",
        }
    }
}

impl BatterySource {
    pub fn label(self) -> (r: &'static str)
        ensures
            r@ == source_label(self),
    {
        match self {
            BatterySource::Hidpp => "HID++",
            BatterySource::NotQueried => "not queried",
        }
    }
}

impl BatteryInfo {
    /// The reading in words.
    pub fn summary(&self) -> (r: String)
        ensures
            r@ == battery_summary(self.level_percent, self.status),
    {
        match self.level_percent {
            Some(percent) => {
                let mut r = text::decimal_text(percent as u64);
                r.append("%, ");
                r.append(self.status.label());
                r
            },
            None => self.status.label().to_owned(),
        }
    }
}

/// The text before the first `:slot:` of an identity: the receiver that a device
/// is reached through.
pub open spec fn endpoint_of(id: Seq<char>) -> Seq<char> {
    if text::has_part(id, ":slot:"@) {
        id.take(first_part(id, ":slot:"@, 0))
    } else {
        id
    }
}

/// Where a part first occurs in a text, from `i` on.
pub open spec fn first_part(s: Seq<char>, part: Seq<char>, i: int) -> int
    decreases s.len() - i,
{
    if i < 0 || i >= s.len() || text::occurs_at(s, part, i) {
        i
    } else {
        first_part(s, part, i + 1)
    }
}

proof fn lemma_first_part(s: Seq<char>, part: Seq<char>, i: int, at: int)
    requires
        0 <= i <= at < s.len(),
        text::occurs_at(s, part, at),
        forall|k: int| i <= k < at ==> !text::occurs_at(s, part, k),
    ensures
        first_part(s, part, i) == at,
    decreases at - i,
{
    if i < at {
        lemma_first_part(s, part, i + 1, at);
    }
}

/// The receiver that a device is reached through.
pub fn hidpp_endpoint_id(id: &str) -> (r: String)
    ensures
        r@ == endpoint_of(id@),
{
    match text::find_part(id, ":slot:") {
        None => id.to_owned(),
        Some(at) => {
            proof {
                reveal_strlit(":slot:");
                lemma_first_part(id@, ":slot:"@, 0, at as int);
            }
            let chars = text::chars_of(id);
            let r = text::text_of(&chars, 0, at);
            assert(id@.subrange(0, at as int) =~= id@.take(at as int));
            r
        },
    }
}

/// The name of a product by its number in the catalogue of the maker.
pub open spec fn known_name(code: Option<Seq<char>>) -> Option<Seq<char>> {
    match code {
        Some(code) => if text::has_prefix(text::lowered(code), "b034"@) {
            Some("MX Master 3S"@)
        } else {
            None
        },
        None => None,
    }
}

/// The name of a device: the one that it gives itself, else the one that its model
/// or its number on the receiver tells. The number of the receiver tells nothing.
pub open spec fn resolved_name(device: DeviceInfo) -> Option<Seq<char>> {
    match device.paired_device {
        None => None,
        Some(paired) => match text::optional(paired.name) {
            Some(name) => Some(name),
            None => match known_name(text::optional(paired.model_id)) {
                Some(name) => Some(name),
                None => known_name(text::optional(paired.wpid)),
            },
        },
    }
}

/// The name under which a device is shown.
pub open spec fn shown_name(device: DeviceInfo) -> Seq<char> {
    match resolved_name(device) {
        Some(name) => name,
        None => device.name@,
    }
}

fn known_product(code: &Option<String>) -> (r: Option<&'static str>)
    ensures
        match r {
            Some(name) => known_name(text::optional(*code)) == Some(name@),
            None => known_name(text::optional(*code)) is None,
        },
{
    match code {
        Some(code) => {
            let lowered = text::lower_text(code.as_str());
            if text::starts_with(lowered.as_str(), "b034") {
                Some("MX Master 3S")
            } else {
                None
            }
        },
        None => None,
    }
}

/// The name of a device, as far as it is known.
pub fn resolved_logitech_device_name(device: &DeviceInfo) -> (r: Option<&str>)
    ensures
        match r {
            Some(name) => resolved_name(*device) == Some(name@),
            None => resolved_name(*device) is None,
        },
{
    match &device.paired_device {
        None => None,
        Some(paired) => match &paired.name {
            Some(name) => Some(name.as_str()),
            None => match known_product(&paired.model_id) {
                Some(name) => Some(name),
                None => known_product(&paired.wpid),
            },
        },
    }
}

/// The name under which a device is shown.
pub fn display_device_name(device: &DeviceInfo) -> (r: &str)
    ensures
        r@ == shown_name(*device),
{
    match resolved_logitech_device_name(device) {
        Some(name) => name,
        None => device.name.as_str(),
    }
}

/// The identity under which the settings of a device are kept: that of the unit,
/// wherever it is plugged in, and else that of the connection.
pub open spec fn settings_key(device: DeviceInfo) -> Seq<char> {
    match device.paired_device {
        Some(paired) => match text::optional(paired.unit_id) {
            Some(unit) => text::hex_digits(device.vendor_id as nat, 4, false) + ":unit:"@
                + text::letters_and_digits(unit),
            None => device.id@,
        },
        None => device.id@,
    }
}

/// The identity under which the settings of a device are kept.
pub fn device_settings_id(device: &DeviceInfo) -> (r: String)
    ensures
        r@ == settings_key(*device),
{
    match &device.paired_device {
        Some(paired) => match &paired.unit_id {
            Some(unit) => {
                let mut r = String::new();
                text::push_hex(&mut r, device.vendor_id as u32, 4, false);
                r.append(":unit:");
                r.append(text::keep_letters_and_digits(unit.as_str()).as_str());
                assert(r@ =~= settings_key(*device));
                r
            },
            None => device.id.clone(),
        },
        None => device.id.clone(),
    }
}

/// A device keeps its settings when it moves to another slot or receiver.
pub proof fn law_settings_follow_the_unit(a: DeviceInfo, b: DeviceInfo)
    requires
        a.vendor_id == b.vendor_id,
        a.paired_device matches Some(p) && b.paired_device matches Some(q) && p.unit_id is Some
            && text::optional(p.unit_id) == text::optional(q.unit_id),
    ensures
        settings_key(a) == settings_key(b),
{
}

/// The numbers of the maker and of the product.
pub open spec fn product_numbers(device: DeviceInfo) -> Seq<char> {
    text::hex_digits(device.vendor_id as nat, 4, false) + ":"@ + text::hex_digits(
        device.product_id as nat,
        4,
        false,
    )
}

impl DeviceInfo {
    /// Whether Logitech made the device.
    pub fn is_logitech(&self) -> (r: bool)
        ensures
            r == (self.vendor_id == LOGITECH_VENDOR_ID),
    {
        self.vendor_id == LOGITECH_VENDOR_ID
    }

    /// The numbers of the maker and of the product.
    pub fn product_key(&self) -> (r: String)
        ensures
            r@ == product_numbers(*self),
    {
        let mut r = String::new();
        text::push_hex(&mut r, self.vendor_id as u32, 4, false);
        r.append(":");
        text::push_hex(&mut r, self.product_id as u32, 4, false);
        assert(r@ =~= product_numbers(*self));
        r
    }
}

impl ReportDescriptorInfo {
    /// Whether the device speaks the protocol over these reports.
    pub fn is_hidpp_interface(&self) -> (r: bool)
        ensures
            r == self.hidpp_usage is Some,
    {
        self.hidpp_usage.is_some()
    }
}

/// Whether the runtime can serve a device.
pub open spec fn is_candidate(device: DeviceInfo) -> bool {
    &&& device.vendor_id == LOGITECH_VENDOR_ID
    &&& device.paired_device is Some
    &&& device.report_descriptor.hidpp_usage is Some
}

/// How much a device is preferred: the less, the more.
pub open spec fn rank_of(device: DeviceInfo) -> u8 {
    if resolved_name(device) matches Some(name) && text::has_prefix(name, "MX Master 3S"@) {
        0
    } else if device.paired_device matches Some(paired) && text::optional(paired.kind) matches Some(
        kind,
    ) && text::lowered(kind) == text::lowered("mouse"@) {
        1
    } else {
        2
    }
}

/// Whether the runtime can serve a device.
pub fn runtime_device_candidate(device: &DeviceInfo) -> (r: bool)
    ensures
        r == is_candidate(*device),
{
    device.is_logitech() && device.paired_device.is_some()
        && device.report_descriptor.is_hidpp_interface()
}

/// How much a device is preferred.
pub fn runtime_device_rank(device: &DeviceInfo) -> (r: u8)
    ensures
        r == rank_of(*device),
{
    let named = match resolved_logitech_device_name(device) {
        Some(name) => text::starts_with(name, "MX Master 3S"),
        None => false,
    };
    if named {
        return 0;
    }
    if let Some(paired) = &device.paired_device {
        if let Some(kind) = &paired.kind {
            if text::same_ignoring_case(kind.as_str(), "mouse") {
                return 1;
            }
        }
    }
    2
}

/// Whether one device is served rather than another.
pub open spec fn goes_before(a: DeviceInfo, b: DeviceInfo) -> bool {
    if rank_of(a) != rank_of(b) {
        rank_of(a) < rank_of(b)
    } else if settings_key(a) != settings_key(b) {
        text::precedes(settings_key(a), settings_key(b))
    } else {
        text::precedes(a.id@, b.id@)
    }
}

/// Whether a device may be chosen: the runtime can serve it, and it has the wanted
/// identity where one is wanted.
pub open spec fn may_be_chosen(device: DeviceInfo, key: Option<Seq<char>>) -> bool {
    is_candidate(device) && (key matches Some(k) ==> settings_key(device) == k)
}

/// The place of the device that is chosen among the first `n`: of those that may
/// be, the first that no other goes before.
pub open spec fn choice(devices: Seq<DeviceInfo>, key: Option<Seq<char>>, n: nat) -> Option<int>
    decreases n,
{
    if n == 0 || n > devices.len() {
        None
    } else {
        let before = choice(devices, key, (n - 1) as nat);
        if may_be_chosen(devices[n - 1], key) && (before matches Some(i) ==> goes_before(
            devices[n - 1],
            devices[i],
        )) {
            Some(n - 1)
        } else {
            before
        }
    }
}

/// The place of the device that is served: the preferred one where it is there,
/// else the best.
pub open spec fn selection(devices: Seq<DeviceInfo>, preferred: Option<Seq<char>>) -> Option<int> {
    match preferred {
        None => choice(devices, None, devices.len()),
        Some(key) => match choice(devices, Some(key), devices.len()) {
            Some(i) => Some(i),
            None => choice(devices, None, devices.len()),
        },
    }
}

proof fn lemma_goes_before_transitive(a: DeviceInfo, b: DeviceInfo, c: DeviceInfo)
    requires
        !goes_before(b, a),
        !goes_before(c, b),
    ensures
        !goes_before(c, a),
{
    text::lemma_precedes_total(settings_key(a), settings_key(b));
    text::lemma_precedes_total(settings_key(b), settings_key(c));
    text::lemma_precedes_total(settings_key(a), settings_key(c));
    text::lemma_precedes_total(a.id@, b.id@);
    text::lemma_precedes_total(b.id@, c.id@);
    text::lemma_precedes_total(a.id@, c.id@);
    if goes_before(c, a) {
        if rank_of(a) == rank_of(b) && rank_of(b) == rank_of(c) {
            if text::precedes(settings_key(a), settings_key(b)) && text::precedes(
                settings_key(b),
                settings_key(c),
            ) {
                text::lemma_precedes_transitive(
                    settings_key(a),
                    settings_key(b),
                    settings_key(c),
                );
            }
            if text::precedes(a.id@, b.id@) && text::precedes(b.id@, c.id@) {
                text::lemma_precedes_transitive(a.id@, b.id@, c.id@);
            }
        }
    }
}

/// The device that is chosen is one that may be, none that may be goes before it,
/// and none is chosen only where none may be.
pub proof fn lemma_choice(devices: Seq<DeviceInfo>, key: Option<Seq<char>>, n: nat)
    requires
        n <= devices.len(),
    ensures
        choice(devices, key, n) matches Some(i) ==> 0 <= i < n && may_be_chosen(devices[i], key),
        forall|j: int|
            0 <= j < n && may_be_chosen(#[trigger] devices[j], key) ==> (choice(
                devices,
                key,
                n,
            ) matches Some(i) && !goes_before(devices[j], devices[i])),
    decreases n,
{
    if n > 0 {
        lemma_choice(devices, key, (n - 1) as nat);
        let d = devices[n - 1];
        text::lemma_precedes_total(settings_key(d), settings_key(d));
        text::lemma_precedes_total(d.id@, d.id@);
        let before = choice(devices, key, (n - 1) as nat);
        let after = choice(devices, key, n);
        assert forall|j: int| 0 <= j < n && may_be_chosen(#[trigger] devices[j], key) implies (
        after matches Some(i) && !goes_before(devices[j], devices[i])) by {
            if j < n - 1 && after == Some(n - 1) {
                let b = devices[before->Some_0];
                text::lemma_precedes_total(settings_key(b), settings_key(d));
                text::lemma_precedes_total(b.id@, d.id@);
                lemma_goes_before_transitive(d, b, devices[j]);
            }
        }
    }
}

/// The device that is served is one that the runtime can serve, whenever there is
/// one. Where the preferred one is there, it is served, and else none goes before
/// the one that is.
pub proof fn law_selection_is_stable(devices: Seq<DeviceInfo>, preferred: Option<Seq<char>>)
    ensures
        selection(devices, preferred) is Some <==> exists|j: int|
            0 <= j < devices.len() && is_candidate(#[trigger] devices[j]),
        selection(devices, preferred) matches Some(i) ==> {
            &&& 0 <= i < devices.len()
            &&& is_candidate(devices[i])
            &&& (exists|j: int|
                0 <= j < devices.len() && may_be_chosen(#[trigger] devices[j], preferred)) ==> (
            preferred matches Some(k) ==> settings_key(devices[i]) == k)
            &&& forall|j: int|
                0 <= j < devices.len() && is_candidate(#[trigger] devices[j]) && (
                preferred is None || settings_key(devices[i]) != preferred->Some_0)
                    ==> !goes_before(devices[j], devices[i])
        },
{
    lemma_choice(devices, None, devices.len());
    if preferred is Some {
        lemma_choice(devices, preferred, devices.len());
    }
    assert forall|j: int| 0 <= j < devices.len() && is_candidate(#[trigger] devices[j]) implies
        may_be_chosen(devices[j], None) by {}
}

/// Once a device is served, it stays served while it is there, whatever comes or
/// goes beside it.
pub proof fn law_served_device_is_kept(
    before: Seq<DeviceInfo>,
    preferred: Option<Seq<char>>,
    after: Seq<DeviceInfo>,
    j: int,
)
    requires
        selection(before, preferred) matches Some(i) && 0 <= j < after.len() && is_candidate(
            after[j],
        ) && settings_key(after[j]) == settings_key(before[i]),
    ensures
        ({
            let key = settings_key(before[selection(before, preferred)->Some_0]);
            selection(after, Some(key)) matches Some(k) && 0 <= k < after.len() && settings_key(
                after[k],
            ) == key
        }),
{
    let key = settings_key(before[selection(before, preferred)->Some_0]);
    lemma_choice(after, Some(key), after.len());
    assert(may_be_chosen(after[j], Some(key)));
}

fn device_goes_before(a: &DeviceInfo, b: &DeviceInfo) -> (r: bool)
    ensures
        r == goes_before(*a, *b),
{
    let rank_a: u8 = runtime_device_rank(a);
    let rank_b: u8 = runtime_device_rank(b);
    if rank_a != rank_b {
        return rank_a < rank_b;
    }
    let key_a = device_settings_id(a);
    let key_b = device_settings_id(b);
    if !text::same_text(key_a.as_str(), key_b.as_str()) {
        return text::comes_before(key_a.as_str(), key_b.as_str());
    }
    text::comes_before(a.id.as_str(), b.id.as_str())
}

fn best_candidate(devices: &[DeviceInfo], key: Option<&str>) -> (r: Option<usize>)
    ensures
        match r {
            Some(i) => i < devices@.len() && choice(
                devices@,
                match key {
                    Some(k) => Some(k@),
                    None => None,
                },
                devices@.len(),
            ) == Some(i as int),
            None => choice(
                devices@,
                match key {
                    Some(k) => Some(k@),
                    None => None,
                },
                devices@.len(),
            ) is None,
        },
{
    let ghost wanted: Option<Seq<char>> = match key {
        Some(k) => Some(k@),
        None => None,
    };
    let mut best: Option<usize> = None;
    let mut i: usize = 0;
    while i < devices.len()
        invariant
            i <= devices@.len(),
            wanted == (match key {
                Some(k) => Some(k@),
                None => None,
            }),
            match best {
                Some(b) => b < i && choice(devices@, wanted, i as nat) == Some(b as int),
                None => choice(devices@, wanted, i as nat) is None,
            },
        decreases devices@.len() - i,
    {
        let device = &devices[i];
        let eligible = runtime_device_candidate(device) && match key {
            Some(k) => text::same_text(device_settings_id(device).as_str(), k),
            None => true,
        };
        if eligible {
            let better = match best {
                Some(b) => device_goes_before(device, &devices[b]),
                None => true,
            };
            if better {
                best = Some(i);
            }
        }
        i += 1;
    }
    best
}

/// Which device the runtime serves, and which it served last.
#[derive(Debug, PartialEq, Eq)]
pub struct ActiveDeviceSelector {
    pub preference_key: Option<String>,
}

impl ActiveDeviceSelector {
    /// A selector that remembers what was stored, as far as that is sound.
    pub fn load(stored: Option<(u8, String)>) -> (r: Self)
        ensures
            text::optional(r.preference_key) == (match stored {
                Some((version, key)) => if version == ACTIVE_DEVICE_STATE_VERSION && text::trimmed(
                    key@,
                ).len() > 0 {
                    Some(key@)
                } else {
                    None
                },
                None => None,
            }),
    {
        match stored {
            Some((version, key)) => {
                if version == ACTIVE_DEVICE_STATE_VERSION && !text::blank(key.as_str()) {
                    ActiveDeviceSelector { preference_key: Some(key) }
                } else {
                    ActiveDeviceSelector { preference_key: None }
                }
            },
            None => ActiveDeviceSelector { preference_key: None },
        }
    }

    /// A selector that prefers a device.
    pub fn in_memory(preference_key: Option<&str>) -> (r: Self)
        ensures
            text::optional(r.preference_key) == (match preference_key {
                Some(key) => Some(key@),
                None => None,
            }),
    {
        match preference_key {
            Some(key) => ActiveDeviceSelector { preference_key: Some(key.to_owned()) },
            None => ActiveDeviceSelector { preference_key: None },
        }
    }

    /// Picks the device to serve, and remembers it. The answer is its identity and
    /// whether what is remembered has to be stored.
    pub fn select(&mut self, devices: &[DeviceInfo]) -> (r: Option<(String, bool)>)
        ensures
            match selection(devices@, text::optional(old(self).preference_key)) {
                None => {
                    &&& r is None
                    &&& text::optional(final(self).preference_key) == text::optional(
                        old(self).preference_key,
                    )
                },
                Some(i) => {
                    let key = settings_key(devices@[i]);
                    &&& r matches Some((id, store)) && id@ == devices@[i].id@ && store == (
                    text::optional(old(self).preference_key) != Some(key))
                    &&& text::optional(final(self).preference_key) == Some(key)
                },
            },
    {
        let preferred = match &self.preference_key {
            Some(key) => best_candidate(devices, Some(key.as_str())),
            None => None,
        };
        let found = match preferred {
            Some(i) => Some(i),
            None => best_candidate(devices, None),
        };
        let at: usize = match found {
            Some(i) => i,
            None => {
                return None;
            },
        };
        let key = device_settings_id(&devices[at]);
        let id = devices[at].id.clone();
        let known = match &self.preference_key {
            Some(k) => text::same_text(k.as_str(), key.as_str()),
            None => false,
        };
        if known {
            return Some((id, false));
        }
        self.preference_key = Some(key);
        Some((id, true))
    }
}

/// How many of the first `n` devices the runtime can serve.
pub open spec fn candidate_count(devices: Seq<DeviceInfo>, n: nat) -> nat
    decreases n,
{
    if n == 0 || n > devices.len() {
        0
    } else {
        candidate_count(devices, (n - 1) as nat) + if is_candidate(devices[n - 1]) {
            1nat
        } else {
            0nat
        }
    }
}

/// The names of those of the first `n` devices that the runtime can serve.
pub open spec fn candidate_names(devices: Seq<DeviceInfo>, n: nat) -> Seq<Seq<char>>
    decreases n,
{
    if n == 0 || n > devices.len() {
        Seq::empty()
    } else {
        let before = candidate_names(devices, (n - 1) as nat);
        let device = devices[n - 1];
        if is_candidate(device) {
            before.push(device.id@ + " ("@ + shown_name(device) + ")"@)
        } else {
            before
        }
    }
}

/// The one device that the runtime can serve. Where there is more than one, the
/// user has to say which.
pub fn select_runtime_device_id(devices: &[DeviceInfo]) -> (r: Result<String, DogiError>)
    ensures
        candidate_count(devices@, devices@.len()) == 0 ==> r is Err && r->Err_0@.0
            == ErrorKind::DeviceNotFound,
        candidate_count(devices@, devices@.len()) == 1 ==> r is Ok && exists|i: int|
            0 <= i < devices@.len() && is_candidate(#[trigger] devices@[i]) && r->Ok_0@
                == devices@[i].id@,
        candidate_count(devices@, devices@.len()) > 1 ==> r is Err && r->Err_0@ == (
            ErrorKind::InvalidArgument,
            "multiple paired HID++ Logitech devices found; pass --device-id explicitly: "@
                + text::joined(candidate_names(devices@, devices@.len()), ", "@),
        ),
{
    let mut names: Vec<String> = Vec::new();
    let mut last: Option<usize> = None;
    let mut i: usize = 0;
    assert(text::texts(names@) =~= Seq::<Seq<char>>::empty());
    while i < devices.len()
        invariant
            i <= devices@.len(),
            names@.len() == candidate_count(devices@, i as nat),
            text::texts(names@) == candidate_names(devices@, i as nat),
            names@.len() <= i,
            match last {
                Some(k) => k < i && is_candidate(devices@[k as int]) && names@.len() > 0,
                None => names@.len() == 0,
            },
        decreases devices@.len() - i,
    {
        let device = &devices[i];
        if runtime_device_candidate(device) {
            let mut name = text::concat3(device.id.as_str(), " (", display_device_name(device));
            name.append(")");
            names.push(name);
            last = Some(i);
        }
        i += 1;
        assert(text::texts(names@) =~= candidate_names(devices@, i as nat));
    }
    let found: usize = match last {
        None => {
            return Err(DogiError::DeviceNotFound);
        },
        Some(k) => k,
    };
    if names.len() == 1 {
        return Ok(devices[found].id.clone());
    }
    Err(
        DogiError::InvalidArgument(
            text::concat2(
                "multiple paired HID++ Logitech devices found; pass --device-id explicitly: ",
                text::join(&names, ", ").as_str(),
            ),
        ),
    )
}

/// A device is served where Logitech made it, something is paired with it, and it can be asked.
/// An MX Master 3S goes before every other mouse, and a mouse before anything else.
pub proof fn law_mice_go_first(a: DeviceInfo, b: DeviceInfo)
    ensures
        is_candidate(a) <==> a.vendor_id == 0x046d && a.paired_device is Some
            && a.report_descriptor.hidpp_usage is Some,
        rank_of(a) == 0 <==> (resolved_name(a) is Some && text::has_prefix(
            resolved_name(a)->0,
            "MX Master 3S"@,
        )),
        rank_of(a) != 0 && a.paired_device is Some && a.paired_device->0.kind is Some
            && text::lowered(a.paired_device->0.kind->0@) == "mouse"@ ==> rank_of(a) == 1,
        rank_of(a) <= 2,
        rank_of(a) < rank_of(b) ==> goes_before(a, b) && !goes_before(b, a),
        rank_of(a) == rank_of(b) && text::precedes(settings_key(a), settings_key(b)) && settings_key(
            a,
        ) != settings_key(b) ==> goes_before(a, b),
        rank_of(a) == rank_of(b) && settings_key(a) == settings_key(b) ==> (goes_before(a, b)
            <==> text::precedes(a.id@, b.id@)),
{
    reveal_strlit("mouse");
    assert(text::lowered("mouse"@) =~= "mouse"@);
}

/// A device has the name that it says it has; one that says none is known by the first digits
/// of its model or its product, and otherwise by the name of what it is connected through.
pub proof fn law_devices_have_their_names(device: DeviceInfo)
    ensures
        device.paired_device is None ==> shown_name(device) == device.name@,
        device.paired_device matches Some(paired) ==> {
            &&& paired.name is Some ==> shown_name(device) == paired.name->0@
            &&& paired.name is None && paired.model_id is Some && text::has_prefix(
                text::lowered(paired.model_id->0@),
                "b034"@,
            ) ==> shown_name(device) == "MX Master 3S"@
            &&& paired.name is None && paired.wpid is Some && text::has_prefix(
                text::lowered(paired.wpid->0@),
                "b034"@,
            ) ==> shown_name(device) == "MX Master 3S"@
            &&& paired.name is None && !(paired.model_id is Some && text::has_prefix(
                text::lowered(paired.model_id->0@),
                "b034"@,
            )) && !(paired.wpid is Some && text::has_prefix(
                text::lowered(paired.wpid->0@),
                "b034"@,
            )) ==> shown_name(device) == device.name@
        },
{
}

/// Settings are kept under the unit of a device where it has one, and under its identifier
/// otherwise; different units have different settings.
pub proof fn law_settings_are_kept_by_unit(device: DeviceInfo)
    ensures
        device.paired_device is None || device.paired_device->0.unit_id is None ==> settings_key(
            device,
        ) == device.id@,
        device.paired_device is Some && device.paired_device->0.unit_id is Some ==> settings_key(
            device,
        ) == text::hex_digits(device.vendor_id as nat, 4, false) + ":unit:"@
            + device.paired_device->0.unit_id->0@.filter(
            |c: char| '0' <= c <= '9' || 'a' <= c <= 'z' || 'A' <= c <= 'Z',
        ),
        product_numbers(device) == text::hex_digits(device.vendor_id as nat, 4, false) + ":"@
            + text::hex_digits(device.product_id as nat, 4, false),
{
    assert((|c: char| text::is_alphanumeric(c)) =~= (|c: char|
        '0' <= c <= '9' || 'a' <= c <= 'z' || 'A' <= c <= 'Z'));
}

/// What a device is connected through is the identifier up to the slot.
pub proof fn law_endpoints_have_no_slot(endpoint: Seq<char>, slot: Seq<char>)
    requires
        !text::has_part(endpoint, ":slot:"@),
        forall|k: int|
            0 <= k < endpoint.len() ==> !#[trigger] text::occurs_at(
                with_slot(endpoint, slot),
                ":slot:"@,
                k,
            ),
    ensures
        endpoint_of(endpoint) == endpoint,
        endpoint_of(with_slot(endpoint, slot)) == endpoint,
{
    let whole = with_slot(endpoint, slot);
    let n = endpoint.len() as int;
    reveal_strlit(":slot:");
    assert(whole.subrange(n, n + ":slot:"@.len()) =~= ":slot:"@);
    assert(text::occurs_at(whole, ":slot:"@, n));
    lemma_first_part(whole, ":slot:"@, 0, n);
    assert(whole.take(n) =~= endpoint);
}

/// The identifier of a slot of an endpoint.
pub open spec fn with_slot(endpoint: Seq<char>, slot: Seq<char>) -> Seq<char> {
    endpoint + ":slot:"@ + slot
}

/// The device that was served before is asked for again, whatever else is there, and otherwise
/// the one that goes first; and what is served is remembered.
pub proof fn law_served_device_is_remembered(devices: &[DeviceInfo])
    ensures
        forall|selector: &mut ActiveDeviceSelector, r: Option<(String, bool)>|
            #![trigger call_ensures(ActiveDeviceSelector::select, (selector, devices), r)]
            call_ensures(ActiveDeviceSelector::select, (selector, devices), r) ==> {
                let before = text::optional((*selector).preference_key);
                &&& r is None <==> !exists|j: int|
                    0 <= j < devices@.len() && is_candidate(#[trigger] devices@[j])
                &&& r matches Some((id, store)) ==> exists|i: int|
                    0 <= i < devices@.len() && is_candidate(#[trigger] devices@[i]) && id@
                        == devices@[i].id@ && text::optional(final(selector).preference_key)
                        == Some(settings_key(devices@[i])) && store == (before != Some(
                        settings_key(devices@[i]),
                    ))
                &&& r is None ==> text::optional(final(selector).preference_key) == before
            },
        forall|version: u8, key: String, r: ActiveDeviceSelector|
            #![trigger call_ensures(ActiveDeviceSelector::load, (Some((version, key)), ), r)]
            call_ensures(ActiveDeviceSelector::load, (Some((version, key)),), r) ==> {
                &&& version == 1 && text::trimmed(key@).len() > 0 ==> text::optional(
                    r.preference_key,
                ) == Some(key@)
                &&& version != 1 || text::trimmed(key@).len() == 0 ==> r.preference_key is None
            },
{
    assert forall|selector: &mut ActiveDeviceSelector, r: Option<(String, bool)>|
        #![trigger call_ensures(ActiveDeviceSelector::select, (selector, devices), r)]
        call_ensures(ActiveDeviceSelector::select, (selector, devices), r) implies {
        let before = text::optional((*selector).preference_key);
        &&& r is None <==> !exists|j: int|
            0 <= j < devices@.len() && is_candidate(#[trigger] devices@[j])
        &&& r matches Some((id, store)) ==> exists|i: int|
            0 <= i < devices@.len() && is_candidate(#[trigger] devices@[i]) && id@ == devices@[i].id@
                && text::optional(final(selector).preference_key) == Some(settings_key(devices@[i]))
                && store == (before != Some(settings_key(devices@[i])))
        &&& r is None ==> text::optional(final(selector).preference_key) == before
    } by {
        law_selection_is_stable(devices@, text::optional((*selector).preference_key));
    }
}

/// A device need not be named where there is exactly one.
pub proof fn law_only_device_is_taken(devices: &[DeviceInfo], i: int)
    requires
        0 <= i < devices@.len(),
        is_candidate(devices@[i]),
        forall|j: int| 0 <= j < devices@.len() && j != i ==> !is_candidate(#[trigger] devices@[j]),
    ensures
        forall|r: Result<String, DogiError>|
            #![trigger call_ensures(select_runtime_device_id, (devices,), r)]
            call_ensures(select_runtime_device_id, (devices,), r) ==> r is Ok && r->Ok_0@
                == devices@[i].id@,
{
    lemma_one_candidate(devices@, devices@.len(), i);
}

proof fn lemma_one_candidate(devices: Seq<DeviceInfo>, n: nat, i: int)
    requires
        n <= devices.len(),
        0 <= i < devices.len(),
        is_candidate(devices[i]),
        forall|j: int| 0 <= j < devices.len() && j != i ==> !is_candidate(#[trigger] devices[j]),
    ensures
        candidate_count(devices, n) == if i < n {
            1nat
        } else {
            0nat
        },
    decreases n,
{
    if n > 0 {
        lemma_one_candidate(devices, (n - 1) as nat, i);
    }
}

/// The words for what a device is and has.
pub proof fn law_words_for_devices()
    ensures
        bus_label(BusKind::Usb) == "USB"@ && bus_label(BusKind::Bluetooth) == "Bluetooth"@
            && bus_label(BusKind::Other) == "other"@,
        connection_label(ConnectionKind::Usb) == "USB"@ && connection_label(
            ConnectionKind::Bluetooth,
        ) == "Bluetooth"@ && connection_label(ConnectionKind::Bolt) == "Bolt"@
            && connection_label(ConnectionKind::Unifying) == "Unifying"@ && connection_label(
            ConnectionKind::Unknown,
        ) == "unknown"@,
        receiver_label(ReceiverKind::Bolt) == "Bolt"@ && receiver_label(ReceiverKind::Unifying)
            == "Unifying"@,
        capability_label(CapabilityState::Supported) == "yes"@ && capability_label(
            CapabilityState::Unsupported,
        ) == "no"@ && capability_label(CapabilityState::Unknown) == "unknown"@,
        policy_label(WritePolicy::ReadOnly) == "read-only"@ && policy_label(
            WritePolicy::ExplicitApply,
        ) == "explicit apply"@,
        status_label(BatteryStatus::Charging) == "charging"@ && status_label(BatteryStatus::Full)
            == "full"@ && status_label(BatteryStatus::Discharging) == "discharging"@
            && status_label(BatteryStatus::Low) == "low"@ && status_label(BatteryStatus::Critical)
            == "critical"@ && status_label(BatteryStatus::Unknown) == "unknown"@ && status_label(
            BatteryStatus::Offline,
        ) == "offline"@,
        source_label(BatterySource::Hidpp) == "HID++"@ && source_label(BatterySource::NotQueried)
            == "not queried"@,
        forall|percent: u8, status: BatteryStatus|
            #[trigger] battery_summary(Some(percent), status) == text::decimal(percent as nat)
                + "%, "@ + status_label(status),
        forall|status: BatteryStatus| #[trigger]
            battery_summary(None, status) == status_label(status),
{
}

}
