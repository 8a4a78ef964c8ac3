//! Notifications about the battery of a mouse: when the user is told that it runs
//! low or that it is full, and when the battery is looked at again.
//!
//! Times are milliseconds of a monotonic clock.

use crate::error::{DogiError, ErrorKind};
use crate::table::Table;
use crate::text;
use vstd::prelude::*;

verus! {

pub const BATTERY_POLL_INTERVAL_MS: u64 = 900_000;

pub const BATTERY_CONFIRMATION_INTERVAL_MS: u64 = 30_000;

pub const BATTERY_CHARGING_POLL_INTERVAL_MS: u64 = 120_000;

pub const BATTERY_RETRY_INTERVAL_MS: u64 = 300_000;

pub const PREFERENCE_POLL_INTERVAL_MS: u64 = 30_000;

pub const STATE_VERSION: u8 = 2;

pub const LOW_THRESHOLD_PERCENT: u8 = 20;

pub const CRITICAL_THRESHOLD_PERCENT: u8 = 10;

pub const RECOVERY_THRESHOLD_PERCENT: u8 = 25;

/// What a mouse says of its battery.
#[derive(Clone, Copy, Debug, PartialEq, Eq, Structural)]
pub enum BatteryStatus {
    Charging,
    Full,
    Discharging,
    Low,
    Critical,
    Unknown,
    Offline,
}

/// Where a reading comes from.
#[derive(Clone, Copy, Debug, PartialEq, Eq, Structural)]
pub enum BatterySource {
    Hidpp,
    NotQueried,
}

/// A reading of the battery.
#[derive(Clone, Debug, PartialEq, Eq)]
pub struct BatteryInfo {
    pub level_percent: Option<u8>,
    pub status: BatteryStatus,
    pub source: BatterySource,
    pub detail: Option<String>,
}

impl BatteryInfo {
    /// The reading of a mouse that was not asked.
    pub fn not_queried(detail: &str) -> (r: Self)
        ensures
            r.level_percent is None,
            r.status == BatteryStatus::Unknown,
            r.source == BatterySource::NotQueried,
            text::optional(r.detail) == Some(detail@),
    {
        BatteryInfo {
            level_percent: None,
            status: BatteryStatus::Unknown,
            source: BatterySource::NotQueried,
            detail: Some(detail.to_owned()),
        }
    }
}

/// How serious a low battery is.
#[derive(Clone, Copy, Debug, PartialEq, Eq, Structural)]
pub enum BatteryAlertLevel {
    Low,
    Critical,
}

/// What the user is to be told.
#[derive(Clone, Copy, Debug, PartialEq, Eq, Structural)]
pub enum BatteryAlertDecision {
    Nothing,
    ClearLowBattery,
    NotifyLowBattery { level: BatteryAlertLevel, percent: u8 },
    NotifyFullyCharged,
}

/// What waits to be seen a second time.
#[derive(Clone, Copy, Debug, PartialEq, Eq, Structural)]
pub enum PendingObservationKind {
    LowBattery(BatteryAlertLevel),
    FullyCharged,
}

/// What waits to be seen again, and how often it was seen.
#[derive(Clone, Copy, Debug, PartialEq, Eq, Structural)]
pub struct PendingObservation {
    pub kind: PendingObservationKind,
    pub count: u8,
}

/// How far a charge of the battery has come.
#[derive(Clone, Copy, Debug, PartialEq, Eq, Structural)]
pub enum ChargeCycleState {
    Idle,
    Charging,
    FullNotified,
}

/// What is remembered of a device.
#[derive(Clone, Copy, Debug, PartialEq, Eq)]
pub struct StoredDeviceNotificationState {
    pub low_battery_alert: Option<BatteryAlertLevel>,
    pub charge_cycle: ChargeCycleState,
}

/// A device of which nothing is remembered.
pub open spec fn fresh_device() -> StoredDeviceNotificationState {
    StoredDeviceNotificationState {
        low_battery_alert: None,
        charge_cycle: ChargeCycleState::Idle,
    }
}

impl Default for StoredDeviceNotificationState {
    fn default() -> (r: Self)
        ensures
            r == fresh_device(),
    {
        StoredDeviceNotificationState {
            low_battery_alert: None,
            charge_cycle: ChargeCycleState::Idle,
        }
    }
}

fn same_level(a: Option<BatteryAlertLevel>, b: Option<BatteryAlertLevel>) -> (r: bool)
    ensures
        r == (a == b),
{
    match (a, b) {
        (Some(x), Some(y)) => x == y,
        (None, None) => true,
        _ => false,
    }
}

fn same_device_state(
    a: StoredDeviceNotificationState,
    b: StoredDeviceNotificationState,
) -> (r: bool)
    ensures
        r == (a == b),
{
    same_level(a.low_battery_alert, b.low_battery_alert) && a.charge_cycle == b.charge_cycle
}

/// A reading that says something of the battery.
#[derive(Clone, Copy, Debug, PartialEq, Eq)]
pub struct BatterySample {
    pub percent: Option<u8>,
    pub status: BatteryStatus,
}

/// What a reading says of the battery: nothing unless it comes from a mouse that
/// is there.
pub open spec fn sample_of(battery: BatteryInfo) -> Option<BatterySample> {
    if battery.source == BatterySource::Hidpp && battery.status != BatteryStatus::Offline {
        Some(BatterySample { percent: battery.level_percent, status: battery.status })
    } else {
        None
    }
}

/// Whether the battery is out of danger.
pub open spec fn is_recovered(sample: BatterySample) -> bool {
    ||| sample.status == BatteryStatus::Charging
    ||| sample.status == BatteryStatus::Full
    ||| sample.percent matches Some(p) && p >= RECOVERY_THRESHOLD_PERCENT
}

/// How low the battery is, if it is low.
pub open spec fn alert_of(sample: BatterySample) -> Option<(BatteryAlertLevel, u8)> {
    match sample.percent {
        None => None,
        Some(p) => if p <= CRITICAL_THRESHOLD_PERCENT {
            Some((BatteryAlertLevel::Critical, p))
        } else if p <= LOW_THRESHOLD_PERCENT {
            Some((BatteryAlertLevel::Low, p))
        } else {
            None
        },
    }
}

impl BatterySample {
    /// What a reading says of the battery.
    pub fn from_info(battery: &BatteryInfo) -> (r: Option<Self>)
        ensures
            r == sample_of(*battery),
    {
        if battery.source == BatterySource::Hidpp && battery.status != BatteryStatus::Offline {
            Some(BatterySample { percent: battery.level_percent, status: battery.status })
        } else {
            None
        }
    }

    /// Whether the battery is out of danger.
    pub fn recovered(self) -> (r: bool)
        ensures
            r == is_recovered(self),
    {
        self.status == BatteryStatus::Charging || self.status == BatteryStatus::Full
            || match self.percent {
            Some(p) => p >= RECOVERY_THRESHOLD_PERCENT,
            None => false,
        }
    }

    /// How low the battery is, if it is low.
    pub fn alert(self) -> (r: Option<(BatteryAlertLevel, u8)>)
        ensures
            r == alert_of(self),
    {
        match self.percent {
            None => None,
            Some(p) => if p <= CRITICAL_THRESHOLD_PERCENT {
                Some((BatteryAlertLevel::Critical, p))
            } else if p <= LOW_THRESHOLD_PERCENT {
                Some((BatteryAlertLevel::Low, p))
            } else {
                None
            },
        }
    }
}

/// What waits, without a full charge.
pub open spec fn without_full(pending: Option<PendingObservation>) -> Option<PendingObservation> {
    if pending matches Some(p) && p.kind == PendingObservationKind::FullyCharged {
        None
    } else {
        pending
    }
}

/// What waits, without a low battery.
pub open spec fn without_low(pending: Option<PendingObservation>) -> Option<PendingObservation> {
    if pending matches Some(p) && p.kind is LowBattery {
        None
    } else {
        pending
    }
}

/// How often something was seen, with this time.
pub open spec fn times_seen(
    pending: Option<PendingObservation>,
    kind: PendingObservationKind,
) -> int {
    match pending {
        Some(p) => if p.kind == kind {
            if p.count == u8::MAX {
                u8::MAX as int
            } else {
                p.count + 1
            }
        } else {
            1
        },
        None => 1,
    }
}

/// What is known of a device, what waits for it, and what the user is to be told.
pub struct DeviceObservation {
    pub state: StoredDeviceNotificationState,
    pub pending: Option<PendingObservation>,
    pub decision: BatteryAlertDecision,
}

/// The first half of an observation: how far the charge has come.
pub open spec fn charge_observed(
    state: StoredDeviceNotificationState,
    pending: Option<PendingObservation>,
    full_enabled: bool,
    status: BatteryStatus,
) -> DeviceObservation {
    let kind = PendingObservationKind::FullyCharged;
    if status == BatteryStatus::Full && state.charge_cycle == ChargeCycleState::Charging
        && full_enabled {
        let seen = times_seen(pending, kind);
        DeviceObservation {
            state,
            pending: Some(PendingObservation { kind, count: seen as u8 }),
            decision: if seen >= 2 {
                BatteryAlertDecision::NotifyFullyCharged
            } else {
                BatteryAlertDecision::Nothing
            },
        }
    } else {
        DeviceObservation {
            state: StoredDeviceNotificationState {
                charge_cycle: match status {
                    BatteryStatus::Charging => if state.charge_cycle == ChargeCycleState::Idle {
                        ChargeCycleState::Charging
                    } else {
                        state.charge_cycle
                    },
                    BatteryStatus::Full => if state.charge_cycle == ChargeCycleState::Charging {
                        ChargeCycleState::FullNotified
                    } else {
                        state.charge_cycle
                    },
                    BatteryStatus::Discharging => ChargeCycleState::Idle,
                    BatteryStatus::Low => ChargeCycleState::Idle,
                    BatteryStatus::Critical => ChargeCycleState::Idle,
                    _ => state.charge_cycle,
                },
                ..state
            },
            pending: without_full(pending),
            decision: BatteryAlertDecision::Nothing,
        }
    }
}

/// Whether a low battery is news: it was not told yet, or it has become critical.
pub open spec fn is_news(told: Option<BatteryAlertLevel>, level: BatteryAlertLevel) -> bool {
    ||| told is None
    ||| told == Some(BatteryAlertLevel::Low) && level == BatteryAlertLevel::Critical
}

/// The second half of an observation: how low the battery is.
pub open spec fn level_observed(
    before: DeviceObservation,
    low_enabled: bool,
    sample: BatterySample,
) -> DeviceObservation {
    if !low_enabled || is_recovered(sample) {
        DeviceObservation {
            state: StoredDeviceNotificationState { low_battery_alert: None, ..before.state },
            pending: without_low(before.pending),
            decision: if before.state.low_battery_alert is Some && before.decision
                == BatteryAlertDecision::Nothing {
                BatteryAlertDecision::ClearLowBattery
            } else {
                before.decision
            },
        }
    } else if alert_of(sample) matches Some(alert) && is_news(
        before.state.low_battery_alert,
        alert.0,
    ) {
        let alert = alert_of(sample)->Some_0;
        let kind = PendingObservationKind::LowBattery(alert.0);
        let seen = times_seen(before.pending, kind);
        DeviceObservation {
            pending: Some(PendingObservation { kind, count: seen as u8 }),
            decision: if seen >= 2 {
                BatteryAlertDecision::NotifyLowBattery { level: alert.0, percent: alert.1 }
            } else {
                before.decision
            },
            ..before
        }
    } else {
        DeviceObservation { pending: without_low(before.pending), ..before }
    }
}

/// What an observation makes of a device.
pub open spec fn device_observed(
    state: StoredDeviceNotificationState,
    pending: Option<PendingObservation>,
    low_enabled: bool,
    full_enabled: bool,
    sample: BatterySample,
) -> DeviceObservation {
    level_observed(charge_observed(state, pending, full_enabled, sample.status), low_enabled, sample)
}

/// The user is told nothing on the strength of one sample.
pub proof fn law_alerts_need_confirmation(
    state: StoredDeviceNotificationState,
    low_enabled: bool,
    full_enabled: bool,
    sample: BatterySample,
)
    ensures
        ({
            let decision = device_observed(state, None, low_enabled, full_enabled, sample).decision;
            !(decision is NotifyLowBattery) && !(decision is NotifyFullyCharged)
        }),
{
}

/// Once the user was told of a low battery, only its becoming critical is told
/// again, and a critical one is told once.
pub proof fn law_alerts_only_escalate(
    state: StoredDeviceNotificationState,
    pending: Option<PendingObservation>,
    low_enabled: bool,
    full_enabled: bool,
    sample: BatterySample,
)
    ensures
        device_observed(state, pending, low_enabled, full_enabled, sample).decision matches
            BatteryAlertDecision::NotifyLowBattery { level, percent } ==> {
            &&& alert_of(sample) == Some((level, percent))
            &&& is_news(state.low_battery_alert, level)
            &&& low_enabled
        },
        state.low_battery_alert == Some(BatteryAlertLevel::Critical) ==> !(device_observed(
            state,
            pending,
            low_enabled,
            full_enabled,
            sample,
        ).decision is NotifyLowBattery),
{
}

/// A full battery is told only at the end of a charge that was seen.
pub proof fn law_full_needs_a_charge(
    state: StoredDeviceNotificationState,
    pending: Option<PendingObservation>,
    low_enabled: bool,
    full_enabled: bool,
    sample: BatterySample,
)
    ensures
        device_observed(state, pending, low_enabled, full_enabled, sample).decision
            == BatteryAlertDecision::NotifyFullyCharged ==> state.charge_cycle
            == ChargeCycleState::Charging && full_enabled && sample.status == BatteryStatus::Full,
{
}

/// After a full charge was told, it is not told again before the battery has been
/// seen to discharge.
pub proof fn law_full_is_rearmed_by_discharge(
    state: StoredDeviceNotificationState,
    pending: Option<PendingObservation>,
    low_enabled: bool,
    full_enabled: bool,
    sample: BatterySample,
)
    requires
        state.charge_cycle == ChargeCycleState::FullNotified,
        sample.status != BatteryStatus::Discharging,
        sample.status != BatteryStatus::Low,
        sample.status != BatteryStatus::Critical,
    ensures
        ({
            let after = device_observed(state, pending, low_enabled, full_enabled, sample);
            &&& after.state.charge_cycle == ChargeCycleState::FullNotified
            &&& after.decision != BatteryAlertDecision::NotifyFullyCharged
        }),
{
}

/// What waits to be seen again, with this time; and whether it was seen often
/// enough.
fn confirm(pending: Option<PendingObservation>, kind: PendingObservationKind) -> (r: (
    PendingObservation,
    bool,
))
    ensures
        r.0 == (PendingObservation { kind, count: times_seen(pending, kind) as u8 }),
        r.1 == (times_seen(pending, kind) >= 2),
{
    let count: u8 = match pending {
        Some(p) => if p.kind == kind {
            p.count.saturating_add(1)
        } else {
            1
        },
        None => 1,
    };
    (PendingObservation { kind, count }, count >= 2)
}

fn drop_full(pending: Option<PendingObservation>) -> (r: Option<PendingObservation>)
    ensures
        r == without_full(pending),
{
    match pending {
        Some(p) => if p.kind == PendingObservationKind::FullyCharged {
            None
        } else {
            Some(p)
        },
        None => None,
    }
}

fn drop_low(pending: Option<PendingObservation>) -> (r: Option<PendingObservation>)
    ensures
        r == without_low(pending),
{
    match pending {
        Some(p) => match p.kind {
            PendingObservationKind::LowBattery(_) => None,
            PendingObservationKind::FullyCharged => Some(p),
        },
        None => None,
    }
}

/// What an observation makes of a device.
pub fn observe_device(
    state: StoredDeviceNotificationState,
    pending: Option<PendingObservation>,
    low_enabled: bool,
    full_enabled: bool,
    sample: BatterySample,
) -> (r: DeviceObservation)
    ensures
        r == device_observed(state, pending, low_enabled, full_enabled, sample),
{
    let mut state = state;
    let mut pending = pending;
    let mut decision = BatteryAlertDecision::Nothing;
    match sample.status {
        BatteryStatus::Charging => {
            pending = drop_full(pending);
            if state.charge_cycle == ChargeCycleState::Idle {
                state.charge_cycle = ChargeCycleState::Charging;
            }
        },
        BatteryStatus::Full => {
            if state.charge_cycle == ChargeCycleState::Charging {
                if full_enabled {
                    let (waiting, confirmed) = confirm(
                        pending,
                        PendingObservationKind::FullyCharged,
                    );
                    pending = Some(waiting);
                    if confirmed {
                        decision = BatteryAlertDecision::NotifyFullyCharged;
                    }
                } else {
                    pending = drop_full(pending);
                    state.charge_cycle = ChargeCycleState::FullNotified;
                }
            } else {
                pending = drop_full(pending);
            }
        },
        BatteryStatus::Discharging | BatteryStatus::Low | BatteryStatus::Critical => {
            pending = drop_full(pending);
            state.charge_cycle = ChargeCycleState::Idle;
        },
        BatteryStatus::Unknown | BatteryStatus::Offline => {
            pending = drop_full(pending);
        },
    }
    if !low_enabled || sample.recovered() {
        pending = drop_low(pending);
        if state.low_battery_alert.is_some() && decision == BatteryAlertDecision::Nothing {
            decision = BatteryAlertDecision::ClearLowBattery;
        }
        state.low_battery_alert = None;
    } else if let Some((level, percent)) = sample.alert() {
        let news = match state.low_battery_alert {
            None => true,
            Some(BatteryAlertLevel::Low) => level == BatteryAlertLevel::Critical,
            Some(BatteryAlertLevel::Critical) => false,
        };
        if news {
            let (waiting, confirmed) = confirm(pending, PendingObservationKind::LowBattery(level));
            pending = Some(waiting);
            if confirmed {
                decision = BatteryAlertDecision::NotifyLowBattery { level, percent };
            }
        } else {
            pending = drop_low(pending);
        }
    } else {
        pending = drop_low(pending);
    }
    DeviceObservation { state, pending, decision }
}

/// What is remembered of all devices, and when to look again.
#[derive(Debug)]
pub struct BatteryNotificationMonitor {
    pub devices: Table<StoredDeviceNotificationState>,
    pub pending: Table<PendingObservation>,
    pub notification_ids: Table<u32>,
    pub active_device: Option<String>,
    pub low_battery_notifications_enabled: bool,
    pub full_battery_notifications_enabled: bool,
    pub next_check: u64,
    pub next_preference_check: u64,
}

/// The mathematical value of [`BatteryNotificationMonitor`].
#[verifier::ext_equal]
pub struct MonitorView {
    pub devices: Map<Seq<char>, StoredDeviceNotificationState>,
    pub pending: Map<Seq<char>, PendingObservation>,
    pub notification_ids: Map<Seq<char>, u32>,
    pub active_device: Option<Seq<char>>,
    pub low_enabled: bool,
    pub full_enabled: bool,
    pub next_check: u64,
    pub next_preference_check: u64,
}

impl View for BatteryNotificationMonitor {
    type V = MonitorView;

    open spec fn view(&self) -> MonitorView {
        MonitorView {
            devices: self.devices@,
            pending: self.pending@,
            notification_ids: self.notification_ids@,
            active_device: text::optional(self.active_device),
            low_enabled: self.low_battery_notifications_enabled,
            full_enabled: self.full_battery_notifications_enabled,
            next_check: self.next_check,
            next_preference_check: self.next_preference_check,
        }
    }
}

/// What is remembered of a device.
pub open spec fn state_of(
    devices: Map<Seq<char>, StoredDeviceNotificationState>,
    device: Seq<char>,
) -> StoredDeviceNotificationState {
    if devices.dom().contains(device) {
        devices[device]
    } else {
        fresh_device()
    }
}

/// What is remembered once a device has another state; of a device in its first
/// state nothing needs to be remembered.
pub open spec fn with_state(
    devices: Map<Seq<char>, StoredDeviceNotificationState>,
    device: Seq<char>,
    state: StoredDeviceNotificationState,
) -> Map<Seq<char>, StoredDeviceNotificationState> {
    if state_of(devices, device) == state {
        devices
    } else if state == fresh_device() {
        devices.remove(device)
    } else {
        devices.insert(device, state)
    }
}

/// What waits for a device.
pub open spec fn waiting_for(
    pending: Map<Seq<char>, PendingObservation>,
    device: Seq<char>,
) -> Option<PendingObservation> {
    if pending.dom().contains(device) {
        Some(pending[device])
    } else {
        None
    }
}

/// What waits once something else waits for a device.
pub open spec fn with_waiting(
    pending: Map<Seq<char>, PendingObservation>,
    device: Seq<char>,
    waiting: Option<PendingObservation>,
) -> Map<Seq<char>, PendingObservation> {
    match waiting {
        Some(p) => pending.insert(device, p),
        None => pending.remove(device),
    }
}

/// The monitor after a device was observed.
pub open spec fn monitor_observed(
    m: MonitorView,
    device: Seq<char>,
    sample: Option<BatterySample>,
) -> MonitorView {
    match sample {
        None => MonitorView { pending: m.pending.remove(device), ..m },
        Some(sample) => {
            let after = device_observed(
                state_of(m.devices, device),
                waiting_for(m.pending, device),
                m.low_enabled,
                m.full_enabled,
                sample,
            );
            MonitorView {
                devices: with_state(m.devices, device, after.state),
                pending: with_waiting(m.pending, device, after.pending),
                ..m
            }
        },
    }
}

/// What the user is to be told after a device was observed.
pub open spec fn decision_of(
    m: MonitorView,
    device: Seq<char>,
    sample: Option<BatterySample>,
) -> BatteryAlertDecision {
    match sample {
        None => BatteryAlertDecision::Nothing,
        Some(sample) => device_observed(
            state_of(m.devices, device),
            waiting_for(m.pending, device),
            m.low_enabled,
            m.full_enabled,
            sample,
        ).decision,
    }
}

/// A reading that says nothing of the battery changes nothing that is remembered
/// and tells the user nothing.
pub proof fn law_unavailable_readings_change_nothing(m: MonitorView, device: Seq<char>)
    ensures
        monitor_observed(m, device, None).devices == m.devices,
        decision_of(m, device, None) == BatteryAlertDecision::Nothing,
{
}

/// An observation of one device leaves the others as they are.
pub proof fn law_devices_are_independent(
    m: MonitorView,
    device: Seq<char>,
    other: Seq<char>,
    sample: Option<BatterySample>,
)
    requires
        other != device,
    ensures
        state_of(monitor_observed(m, device, sample).devices, other) == state_of(m.devices, other),
        waiting_for(monitor_observed(m, device, sample).pending, other) == waiting_for(
            m.pending,
            other,
        ),
{
}

/// What is remembered of a device is what it was given.
pub proof fn law_state_is_remembered(
    devices: Map<Seq<char>, StoredDeviceNotificationState>,
    device: Seq<char>,
    state: StoredDeviceNotificationState,
)
    ensures
        state_of(with_state(devices, device, state), device) == state,
{
}

/// A time that lies `interval` after `now`.
pub open spec fn later(now: u64, interval: u64) -> u64 {
    if now + interval > u64::MAX {
        u64::MAX
    } else {
        (now + interval) as u64
    }
}

/// How long it is from `now` until `then`.
pub open spec fn until(now: u64, then: u64) -> u64 {
    if then > now {
        (then - now) as u64
    } else {
        0
    }
}

/// What has to be done about the battery now.
#[derive(Clone, Copy, Debug, PartialEq, Eq)]
pub enum CheckStep {
    /// It is not time yet.
    NotDue,
    /// The user wants no notifications; a shown one is closed.
    Disabled { close: Option<u32> },
    /// The battery has to be read.
    ReadBattery,
}

/// What has to be shown after a reading.
#[derive(Clone, Copy, Debug, PartialEq, Eq)]
pub enum NotificationStep {
    Nothing,
    Close { id: Option<u32> },
    ShowLowBattery { level: BatteryAlertLevel, percent: u8, replaces: Option<u32> },
    ShowFullyCharged { replaces: Option<u32> },
}

/// The notification that is shown for a device.
pub open spec fn shown_for(ids: Map<Seq<char>, u32>, device: Seq<char>) -> Option<u32> {
    if ids.dom().contains(device) {
        Some(ids[device])
    } else {
        None
    }
}

/// What has to be shown for a decision.
pub open spec fn step_for(
    decision: BatteryAlertDecision,
    shown: Option<u32>,
) -> NotificationStep {
    match decision {
        BatteryAlertDecision::Nothing => NotificationStep::Nothing,
        BatteryAlertDecision::ClearLowBattery => NotificationStep::Close { id: shown },
        BatteryAlertDecision::NotifyLowBattery { level, percent } =>
            NotificationStep::ShowLowBattery { level, percent, replaces: shown },
        BatteryAlertDecision::NotifyFullyCharged => NotificationStep::ShowFullyCharged {
            replaces: shown,
        },
    }
}

/// How long to wait after a check.
pub open spec fn pause_after(m: MonitorView, device: Seq<char>, succeeded: bool) -> u64 {
    if !succeeded {
        BATTERY_RETRY_INTERVAL_MS
    } else if m.pending.dom().contains(device) {
        BATTERY_CONFIRMATION_INTERVAL_MS
    } else if state_of(m.devices, device).charge_cycle == ChargeCycleState::Charging {
        BATTERY_CHARGING_POLL_INTERVAL_MS
    } else {
        BATTERY_POLL_INTERVAL_MS
    }
}

impl BatteryNotificationMonitor {
    /// No key occurs twice in what is remembered.
    pub open spec fn wf(&self) -> bool {
        self.devices.wf() && self.pending.wf() && self.notification_ids.wf()
    }

    /// A monitor that remembers nothing.
    pub fn empty(now: u64) -> (r: Self)
        ensures
            r.wf(),
            r@ == (MonitorView {
                devices: Map::empty(),
                pending: Map::empty(),
                notification_ids: Map::empty(),
                active_device: None,
                low_enabled: true,
                full_enabled: true,
                next_check: now,
                next_preference_check: now,
            }),
    {
        BatteryNotificationMonitor {
            devices: Table::new(),
            pending: Table::new(),
            notification_ids: Table::new(),
            active_device: None,
            low_battery_notifications_enabled: true,
            full_battery_notifications_enabled: true,
            next_check: now,
            next_preference_check: now,
        }
    }

    /// A monitor that remembers what was stored.
    pub fn load(version: u8, devices: Table<StoredDeviceNotificationState>, now: u64) -> (r: Result<
        Self,
        DogiError,
    >)
        requires
            devices.wf(),
        ensures
            if version == STATE_VERSION {
                r matches Ok(m) && m.wf() && m@ == (MonitorView {
                    devices: devices@,
                    pending: Map::empty(),
                    notification_ids: Map::empty(),
                    active_device: None,
                    low_enabled: true,
                    full_enabled: true,
                    next_check: now,
                    next_preference_check: now,
                })
            } else {
                r is Err && r->Err_0@ == (
                    ErrorKind::Config,
                    "unsupported battery notification state version "@ + text::decimal(
                        version as nat,
                    ) + "; expected 2"@,
                )
            },
    {
        if version != STATE_VERSION {
            let mut detail = "unsupported battery notification state version ".to_owned();
            text::push_decimal(&mut detail, version as u64);
            detail.append("; expected 2");
            return Err(DogiError::Config(detail));
        }
        let mut m = BatteryNotificationMonitor::empty(now);
        m.devices = devices;
        Ok(m)
    }

    /// Turns to a device; another one than before is looked at at once.
    pub fn activate(&mut self, device_id: &str, now: u64)
        requires
            old(self).wf(),
        ensures
            final(self).wf(),
            final(self)@ == (if old(self)@.active_device == Some(device_id@) {
                old(self)@
            } else {
                MonitorView {
                    active_device: Some(device_id@),
                    next_check: now,
                    next_preference_check: now,
                    ..old(self)@
                }
            }),
    {
        let same = match &self.active_device {
            Some(active) => text::same_text(active.as_str(), device_id),
            None => false,
        };
        if !same {
            self.active_device = Some(device_id.to_owned());
            self.next_check = now;
            self.next_preference_check = now;
        }
    }

    /// Whether it is time to look at the battery.
    pub fn is_due(&self, now: u64) -> (r: bool)
        ensures
            r == (now >= self@.next_check),
    {
        now >= self.next_check
    }

    /// Whether it is time to look at the preferences.
    pub fn preferences_due(&self, now: u64) -> (r: bool)
        ensures
            r == (now >= self@.next_preference_check),
    {
        now >= self.next_preference_check
    }

    /// How long events may be waited for before something else is due.
    pub fn read_timeout(&self, maximum: u64, now: u64) -> (r: u64)
        ensures
            r <= maximum,
            r <= until(now, self@.next_check),
            r <= until(now, self@.next_preference_check),
            r == maximum || r == until(now, self@.next_check) || r == until(
                now,
                self@.next_preference_check,
            ),
    {
        let check: u64 = self.next_check.saturating_sub(now);
        let preferences: u64 = self.next_preference_check.saturating_sub(now);
        let mut r: u64 = maximum;
        if check < r {
            r = check;
        }
        if preferences < r {
            r = preferences;
        }
        r
    }

    /// What is remembered of a device.
    fn device_state(&self, device_id: &str) -> (r: StoredDeviceNotificationState)
        requires
            self.wf(),
        ensures
            r == state_of(self@.devices, device_id@),
    {
        match self.devices.get(device_id) {
            Some(state) => *state,
            None => StoredDeviceNotificationState::default(),
        }
    }

    /// Remembers the state of a device. The answer is whether that has to be
    /// stored.
    fn set_device_state(&mut self, device_id: &str, state: StoredDeviceNotificationState) -> (r:
        bool)
        requires
            old(self).wf(),
        ensures
            final(self).wf(),
            final(self)@ == (MonitorView {
                devices: with_state(old(self)@.devices, device_id@, state),
                ..old(self)@
            }),
            r == (state_of(old(self)@.devices, device_id@) != state),
    {
        if same_device_state(self.device_state(device_id), state) {
            return false;
        }
        if same_device_state(state, StoredDeviceNotificationState::default()) {
            let _ = self.devices.remove(device_id);
        } else {
            self.devices.insert(device_id, state);
        }
        true
    }

    /// Whether something waits to be seen again.
    pub fn awaiting_confirmation(&self, device_id: &str) -> (r: bool)
        requires
            self.wf(),
        ensures
            r == self@.pending.dom().contains(device_id@),
    {
        self.pending.contains(device_id)
    }

    /// Takes in a reading. The answer is what the user is to be told and whether
    /// what is remembered has to be stored.
    pub fn observe(&mut self, device_id: &str, battery: &BatteryInfo) -> (r: (
        BatteryAlertDecision,
        bool,
    ))
        requires
            old(self).wf(),
        ensures
            final(self).wf(),
            final(self)@ == monitor_observed(old(self)@, device_id@, sample_of(*battery)),
            r.0 == decision_of(old(self)@, device_id@, sample_of(*battery)),
            r.1 == (state_of(final(self)@.devices, device_id@) != state_of(
                old(self)@.devices,
                device_id@,
            )),
    {
        let sample = match BatterySample::from_info(battery) {
            Some(sample) => sample,
            None => {
                let _ = self.pending.remove(device_id);
                return (BatteryAlertDecision::Nothing, false);
            },
        };
        let waiting = match self.pending.get(device_id) {
            Some(p) => Some(*p),
            None => None,
        };
        let after = observe_device(
            self.device_state(device_id),
            waiting,
            self.low_battery_notifications_enabled,
            self.full_battery_notifications_enabled,
            sample,
        );
        match after.pending {
            Some(p) => self.pending.insert(device_id, p),
            None => {
                let _ = self.pending.remove(device_id);
            },
        }
        let changed = self.set_device_state(device_id, after.state);
        (after.decision, changed)
    }

    /// The user was told of a low battery. The answer is whether that has to be
    /// stored.
    pub fn mark_low_battery_notified(&mut self, device_id: &str, level: BatteryAlertLevel) -> (r:
        bool)
        requires
            old(self).wf(),
        ensures
            final(self).wf(),
            final(self)@ == (MonitorView {
                pending: old(self)@.pending.remove(device_id@),
                devices: with_state(
                    old(self)@.devices,
                    device_id@,
                    StoredDeviceNotificationState {
                        low_battery_alert: Some(level),
                        ..state_of(old(self)@.devices, device_id@)
                    },
                ),
                ..old(self)@
            }),
            r == (state_of(old(self)@.devices, device_id@).low_battery_alert != Some(level)),
    {
        let _ = self.pending.remove(device_id);
        let mut state = self.device_state(device_id);
        state.low_battery_alert = Some(level);
        self.set_device_state(device_id, state)
    }

    /// The user was told of a full battery. The answer is whether that has to be
    /// stored.
    pub fn mark_fully_charged_notified(&mut self, device_id: &str) -> (r: bool)
        requires
            old(self).wf(),
        ensures
            final(self).wf(),
            final(self)@ == (MonitorView {
                pending: if waiting_for(old(self)@.pending, device_id@) matches Some(p) && p.kind
                    == PendingObservationKind::FullyCharged {
                    old(self)@.pending.remove(device_id@)
                } else {
                    old(self)@.pending
                },
                devices: with_state(
                    old(self)@.devices,
                    device_id@,
                    StoredDeviceNotificationState {
                        charge_cycle: ChargeCycleState::FullNotified,
                        ..state_of(old(self)@.devices, device_id@)
                    },
                ),
                ..old(self)@
            }),
            r == (state_of(old(self)@.devices, device_id@).charge_cycle
                != ChargeCycleState::FullNotified),
    {
        self.remove_pending_full(device_id);
        let mut state = self.device_state(device_id);
        state.charge_cycle = ChargeCycleState::FullNotified;
        self.set_device_state(device_id, state)
    }

    fn remove_pending_full(&mut self, device_id: &str)
        requires
            old(self).wf(),
        ensures
            final(self).wf(),
            final(self)@ == (MonitorView {
                pending: if waiting_for(old(self)@.pending, device_id@) matches Some(p) && p.kind
                    == PendingObservationKind::FullyCharged {
                    old(self)@.pending.remove(device_id@)
                } else {
                    old(self)@.pending
                },
                ..old(self)@
            }),
    {
        let full = match self.pending.get(device_id) {
            Some(p) => p.kind == PendingObservationKind::FullyCharged,
            None => false,
        };
        if full {
            let _ = self.pending.remove(device_id);
        }
    }

    fn remove_pending_low(&mut self, device_id: &str)
        requires
            old(self).wf(),
        ensures
            final(self).wf(),
            final(self)@ == (MonitorView {
                pending: if waiting_for(old(self)@.pending, device_id@) matches Some(p)
                    && p.kind is LowBattery {
                    old(self)@.pending.remove(device_id@)
                } else {
                    old(self)@.pending
                },
                ..old(self)@
            }),
    {
        let low = match self.pending.get(device_id) {
            Some(p) => match p.kind {
                PendingObservationKind::LowBattery(_) => true,
                PendingObservationKind::FullyCharged => false,
            },
            None => false,
        };
        if low {
            let _ = self.pending.remove(device_id);
        }
    }
}

/// The preferences that have just been changed.
#[derive(Clone, Copy, Debug, PartialEq, Eq)]
pub struct PreferenceChange {
    pub low_turned_off: bool,
    pub full_turned_off: bool,
    pub any_enabled: bool,
    /// Whether what is remembered has to be stored first.
    pub save: bool,
}

/// The state of a device of which no low battery was told.
pub open spec fn without_alert(state: StoredDeviceNotificationState) -> StoredDeviceNotificationState {
    StoredDeviceNotificationState { low_battery_alert: None, ..state }
}

/// What waits for all devices, once a full charge of one no longer waits.
pub open spec fn full_dropped(
    pending: Map<Seq<char>, PendingObservation>,
    device: Seq<char>,
) -> Map<Seq<char>, PendingObservation> {
    if waiting_for(pending, device) matches Some(p) && p.kind
        == PendingObservationKind::FullyCharged {
        pending.remove(device)
    } else {
        pending
    }
}

/// What waits for all devices, once a low battery of one no longer waits.
pub open spec fn low_dropped(
    pending: Map<Seq<char>, PendingObservation>,
    device: Seq<char>,
) -> Map<Seq<char>, PendingObservation> {
    if waiting_for(pending, device) matches Some(p) && p.kind is LowBattery {
        pending.remove(device)
    } else {
        pending
    }
}

/// The change that two preferences make, if they make one.
pub open spec fn preference_change(
    m: MonitorView,
    device: Seq<char>,
    low: bool,
    full: bool,
) -> Option<PreferenceChange> {
    if m.low_enabled == low && m.full_enabled == full {
        None
    } else {
        Some(
            PreferenceChange {
                low_turned_off: m.low_enabled && !low,
                full_turned_off: m.full_enabled && !full,
                any_enabled: low || full,
                save: m.low_enabled && !low && state_of(
                    m.devices,
                    device,
                ).low_battery_alert is Some,
            },
        )
    }
}

/// The monitor after the preferences were read: what it remembers of a low battery
/// is forgotten when the user no longer wants to be told.
pub open spec fn preferences_read(
    m: MonitorView,
    device: Seq<char>,
    low: bool,
    full: bool,
    now: u64,
) -> MonitorView {
    let read = MonitorView {
        low_enabled: low,
        full_enabled: full,
        next_preference_check: later(now, PREFERENCE_POLL_INTERVAL_MS),
        ..m
    };
    if m.low_enabled && !low {
        MonitorView {
            pending: low_dropped(m.pending, device),
            devices: with_state(m.devices, device, without_alert(state_of(m.devices, device))),
            ..read
        }
    } else {
        read
    }
}

/// The monitor once a change of the preferences is stored.
pub open spec fn preferences_applied(
    m: MonitorView,
    device: Seq<char>,
    change: PreferenceChange,
    now: u64,
) -> MonitorView {
    MonitorView {
        notification_ids: if change.low_turned_off {
            m.notification_ids.remove(device)
        } else {
            m.notification_ids
        },
        pending: if change.full_turned_off {
            full_dropped(m.pending, device)
        } else {
            m.pending
        },
        next_check: if change.any_enabled {
            now
        } else {
            m.next_check
        },
        ..m
    }
}

/// A user who does not want to be told of a low battery is not told, and one who
/// wants to be told again is told as if for the first time.
pub proof fn law_turning_off_forgets_the_alert(
    m: MonitorView,
    device: Seq<char>,
    full: bool,
    now: u64,
)
    requires
        m.low_enabled,
    ensures
        state_of(
            preferences_read(m, device, false, full, now).devices,
            device,
        ).low_battery_alert is None,
        forall|sample: Option<BatterySample>|
            !(#[trigger] decision_of(
                preferences_read(m, device, false, full, now),
                device,
                sample,
            ) is NotifyLowBattery),
{
}

fn time_after(now: u64, interval: u64) -> (r: u64)
    ensures
        r == later(now, interval),
{
    now.saturating_add(interval)
}

impl BatteryNotificationMonitor {
    /// Takes in what the user wants to be told. Nothing but the time of the next
    /// look is changed where the user wants what they wanted before; otherwise
    /// `finish_preferences` follows, once what is remembered is stored.
    pub fn update_preferences(
        &mut self,
        device_id: &str,
        low_battery_enabled: bool,
        full_battery_enabled: bool,
        now: u64,
    ) -> (r: Option<PreferenceChange>)
        requires
            old(self).wf(),
        ensures
            final(self).wf(),
            final(self)@ == preferences_read(
                old(self)@,
                device_id@,
                low_battery_enabled,
                full_battery_enabled,
                now,
            ),
            r == preference_change(
                old(self)@,
                device_id@,
                low_battery_enabled,
                full_battery_enabled,
            ),
    {
        self.next_preference_check = time_after(now, PREFERENCE_POLL_INTERVAL_MS);
        let low_changed = self.low_battery_notifications_enabled != low_battery_enabled;
        let full_changed = self.full_battery_notifications_enabled != full_battery_enabled;
        if !low_changed && !full_changed {
            return None;
        }
        self.low_battery_notifications_enabled = low_battery_enabled;
        self.full_battery_notifications_enabled = full_battery_enabled;
        let low_turned_off = low_changed && !low_battery_enabled;
        let save = if low_turned_off {
            self.clear_low_battery(device_id)
        } else {
            false
        };
        Some(
            PreferenceChange {
                low_turned_off,
                full_turned_off: full_changed && !full_battery_enabled,
                any_enabled: low_battery_enabled || full_battery_enabled,
                save,
            },
        )
    }

    /// Completes a change of the preferences. The answer is the notification that
    /// has to be closed.
    pub fn finish_preferences(
        &mut self,
        device_id: &str,
        change: PreferenceChange,
        now: u64,
    ) -> (r: Option<u32>)
        requires
            old(self).wf(),
        ensures
            final(self).wf(),
            final(self)@ == preferences_applied(old(self)@, device_id@, change, now),
            r == (if change.low_turned_off {
                shown_for(old(self)@.notification_ids, device_id@)
            } else {
                None
            }),
    {
        let shown = if change.low_turned_off {
            self.take_notification(device_id)
        } else {
            None
        };
        if change.full_turned_off {
            self.remove_pending_full(device_id);
        }
        if change.any_enabled {
            self.next_check = now;
        }
        shown
    }

    /// Forgets that the user was told of a low battery. The answer is whether they
    /// were.
    fn clear_low_battery(&mut self, device_id: &str) -> (r: bool)
        requires
            old(self).wf(),
        ensures
            final(self).wf(),
            final(self)@ == (MonitorView {
                pending: low_dropped(old(self)@.pending, device_id@),
                devices: with_state(
                    old(self)@.devices,
                    device_id@,
                    without_alert(state_of(old(self)@.devices, device_id@)),
                ),
                ..old(self)@
            }),
            r == (state_of(old(self)@.devices, device_id@).low_battery_alert is Some),
    {
        self.remove_pending_low(device_id);
        let mut state = self.device_state(device_id);
        state.low_battery_alert = None;
        self.set_device_state(device_id, state)
    }

    /// Forgets the notification that is shown for a device.
    fn take_notification(&mut self, device_id: &str) -> (r: Option<u32>)
        requires
            old(self).wf(),
        ensures
            final(self).wf(),
            final(self)@ == (MonitorView {
                notification_ids: old(self)@.notification_ids.remove(device_id@),
                ..old(self)@
            }),
            r == shown_for(old(self)@.notification_ids, device_id@),
    {
        let shown = match self.notification_ids.get(device_id) {
            Some(id) => Some(*id),
            None => None,
        };
        let _ = self.notification_ids.remove(device_id);
        shown
    }

    /// Begins a look at the battery, where it is time for one.
    pub fn check_if_due(&mut self, device_id: &str, now: u64) -> (r: CheckStep)
        requires
            old(self).wf(),
        ensures
            final(self).wf(),
            if now < old(self)@.next_check {
                r == CheckStep::NotDue && final(self)@ == old(self)@
            } else if old(self)@.low_enabled || old(self)@.full_enabled {
                r == CheckStep::ReadBattery && final(self)@ == old(self)@
            } else {
                &&& r == (CheckStep::Disabled {
                    close: shown_for(old(self)@.notification_ids, device_id@),
                })
                &&& final(self)@ == (MonitorView {
                    notification_ids: old(self)@.notification_ids.remove(device_id@),
                    next_check: later(now, BATTERY_POLL_INTERVAL_MS),
                    ..old(self)@
                })
            },
    {
        if now < self.next_check {
            return CheckStep::NotDue;
        }
        if !self.low_battery_notifications_enabled && !self.full_battery_notifications_enabled {
            let close = self.take_notification(device_id);
            self.next_check = time_after(now, BATTERY_POLL_INTERVAL_MS);
            return CheckStep::Disabled { close };
        }
        CheckStep::ReadBattery
    }

    /// The battery could not be read, or what was read could not be stored.
    pub fn miss_reading(&mut self, now: u64)
        requires
            old(self).wf(),
        ensures
            final(self).wf(),
            final(self)@ == (MonitorView {
                next_check: later(now, BATTERY_RETRY_INTERVAL_MS),
                ..old(self)@
            }),
    {
        self.next_check = time_after(now, BATTERY_RETRY_INTERVAL_MS);
    }

    /// What has to be shown for a decision; a notification that has to be closed
    /// is forgotten.
    pub fn begin_notification(
        &mut self,
        device_id: &str,
        decision: BatteryAlertDecision,
    ) -> (r: NotificationStep)
        requires
            old(self).wf(),
        ensures
            final(self).wf(),
            r == step_for(decision, shown_for(old(self)@.notification_ids, device_id@)),
            final(self)@ == (if decision == BatteryAlertDecision::ClearLowBattery {
                MonitorView {
                    notification_ids: old(self)@.notification_ids.remove(device_id@),
                    ..old(self)@
                }
            } else {
                old(self)@
            }),
    {
        let shown = match self.notification_ids.get(device_id) {
            Some(id) => Some(*id),
            None => None,
        };
        match decision {
            BatteryAlertDecision::Nothing => NotificationStep::Nothing,
            BatteryAlertDecision::ClearLowBattery => {
                let _ = self.notification_ids.remove(device_id);
                NotificationStep::Close { id: shown }
            },
            BatteryAlertDecision::NotifyLowBattery { level, percent } => {
                NotificationStep::ShowLowBattery { level, percent, replaces: shown }
            },
            BatteryAlertDecision::NotifyFullyCharged => {
                NotificationStep::ShowFullyCharged { replaces: shown }
            },
        }
    }

    /// A notification of a low battery is shown. The answer is whether what is
    /// remembered has to be stored.
    pub fn show_low_battery(
        &mut self,
        device_id: &str,
        notification_id: u32,
        level: BatteryAlertLevel,
    ) -> (r: bool)
        requires
            old(self).wf(),
        ensures
            final(self).wf(),
            final(self)@ == (MonitorView {
                notification_ids: old(self)@.notification_ids.insert(device_id@, notification_id),
                pending: old(self)@.pending.remove(device_id@),
                devices: with_state(
                    old(self)@.devices,
                    device_id@,
                    StoredDeviceNotificationState {
                        low_battery_alert: Some(level),
                        ..state_of(old(self)@.devices, device_id@)
                    },
                ),
                ..old(self)@
            }),
            r == (state_of(old(self)@.devices, device_id@).low_battery_alert != Some(level)),
    {
        self.notification_ids.insert(device_id, notification_id);
        self.mark_low_battery_notified(device_id, level)
    }

    /// A notification of a full battery is shown. The answer is whether what is
    /// remembered has to be stored.
    pub fn show_fully_charged(&mut self, device_id: &str) -> (r: bool)
        requires
            old(self).wf(),
        ensures
            final(self).wf(),
            final(self)@ == (MonitorView {
                notification_ids: old(self)@.notification_ids.remove(device_id@),
                pending: full_dropped(old(self)@.pending, device_id@),
                devices: with_state(
                    old(self)@.devices,
                    device_id@,
                    StoredDeviceNotificationState {
                        charge_cycle: ChargeCycleState::FullNotified,
                        ..state_of(old(self)@.devices, device_id@)
                    },
                ),
                ..old(self)@
            }),
            r == (state_of(old(self)@.devices, device_id@).charge_cycle
                != ChargeCycleState::FullNotified),
    {
        let _ = self.notification_ids.remove(device_id);
        self.mark_fully_charged_notified(device_id)
    }

    /// Ends a look at the battery: sooner or later it is looked at again.
    pub fn finish_check(&mut self, device_id: &str, succeeded: bool, now: u64)
        requires
            old(self).wf(),
        ensures
            final(self).wf(),
            final(self)@ == (MonitorView {
                next_check: later(now, pause_after(old(self)@, device_id@, succeeded)),
                ..old(self)@
            }),
    {
        let pause: u64 = if !succeeded {
            BATTERY_RETRY_INTERVAL_MS
        } else if self.awaiting_confirmation(device_id) {
            BATTERY_CONFIRMATION_INTERVAL_MS
        } else if self.device_state(device_id).charge_cycle == ChargeCycleState::Charging {
            BATTERY_CHARGING_POLL_INTERVAL_MS
        } else {
            BATTERY_POLL_INTERVAL_MS
        };
        self.next_check = time_after(now, pause);
    }
}

/// A battery that runs low is told. With such notifications on, and nothing told yet, two
/// readings in a row of a percentage up to 20, of a mouse that neither charges nor is full,
/// end in a notification of that percentage: a critical one up to 10 per cent, a low one
/// above. The first of them waits for the second.
pub proof fn law_low_battery_is_told_at_the_second_reading(
    m: MonitorView,
    device: Seq<char>,
    first: BatteryInfo,
    second: BatteryInfo,
    p: u8,
)
    requires
        m.low_enabled,
        state_of(m.devices, device).low_battery_alert is None,
        waiting_for(m.pending, device) is None,
        p <= 20,
        first.source == BatterySource::Hidpp && second.source == BatterySource::Hidpp,
        first.level_percent == Some(p) && second.level_percent == Some(p),
        first.status == BatteryStatus::Discharging || first.status == BatteryStatus::Low
            || first.status == BatteryStatus::Critical || first.status == BatteryStatus::Unknown,
        second.status == BatteryStatus::Discharging || second.status == BatteryStatus::Low
            || second.status == BatteryStatus::Critical || second.status == BatteryStatus::Unknown,
    ensures
        ({
            let seen = monitor_observed(m, device, sample_of(first));
            let level = if p <= 10 {
                BatteryAlertLevel::Critical
            } else {
                BatteryAlertLevel::Low
            };
            &&& decision_of(m, device, sample_of(first)) == BatteryAlertDecision::Nothing
            &&& seen.pending.dom().contains(device)
            &&& decision_of(seen, device, sample_of(second))
                == (BatteryAlertDecision::NotifyLowBattery { level, percent: p })
        }),
{
}

/// A low battery that was told is told again once it is critical, at the second reading of
/// 10 per cent or less.
pub proof fn law_critical_battery_is_told_after_a_low_one(
    m: MonitorView,
    device: Seq<char>,
    reading: BatteryInfo,
    p: u8,
)
    requires
        m.low_enabled,
        state_of(m.devices, device).low_battery_alert == Some(BatteryAlertLevel::Low),
        waiting_for(m.pending, device) is None,
        p <= 10,
        reading.source == BatterySource::Hidpp,
        reading.level_percent == Some(p),
        reading.status == BatteryStatus::Discharging || reading.status == BatteryStatus::Low
            || reading.status == BatteryStatus::Critical,
    ensures
        ({
            let seen = monitor_observed(m, device, sample_of(reading));
            &&& decision_of(m, device, sample_of(reading)) == BatteryAlertDecision::Nothing
            &&& decision_of(seen, device, sample_of(reading))
                == (BatteryAlertDecision::NotifyLowBattery {
                level: BatteryAlertLevel::Critical,
                percent: p,
            })
        }),
{
}

/// A full battery is told: with such notifications on, a mouse that was seen to charge and
/// is then full at two readings in a row ends in a notification, once.
pub proof fn law_full_battery_is_told_after_a_charge(
    m: MonitorView,
    device: Seq<char>,
    charging: BatteryInfo,
    full: BatteryInfo,
)
    requires
        m.full_enabled,
        state_of(m.devices, device).charge_cycle == ChargeCycleState::Idle,
        charging.source == BatterySource::Hidpp && charging.status == BatteryStatus::Charging,
        full.source == BatterySource::Hidpp && full.status == BatteryStatus::Full,
    ensures
        ({
            let c = monitor_observed(m, device, sample_of(charging));
            let f = monitor_observed(c, device, sample_of(full));
            &&& state_of(c.devices, device).charge_cycle == ChargeCycleState::Charging
            &&& !(decision_of(c, device, sample_of(full)) is NotifyFullyCharged)
            &&& f.pending.dom().contains(device)
            &&& decision_of(f, device, sample_of(full))
                == BatteryAlertDecision::NotifyFullyCharged
        }),
{
}

/// A low battery that was told is cleared as soon as the mouse charges, is full, or is at
/// 25 per cent or more; between 20 and 25 per cent it stays told, and is not told anew.
pub proof fn law_told_battery_is_cleared_by_recovery(
    m: MonitorView,
    device: Seq<char>,
    reading: BatteryInfo,
)
    requires
        state_of(m.devices, device).low_battery_alert is Some,
        waiting_for(m.pending, device) is None,
        reading.source == BatterySource::Hidpp,
        reading.status != BatteryStatus::Offline,
    ensures
        ({
            let after = monitor_observed(m, device, sample_of(reading));
            let recovered = reading.status == BatteryStatus::Charging || reading.status
                == BatteryStatus::Full || (reading.level_percent is Some && reading.level_percent->0
                >= 25);
            &&& !m.low_enabled || recovered ==> state_of(
                after.devices,
                device,
            ).low_battery_alert is None && decision_of(m, device, sample_of(reading))
                == BatteryAlertDecision::ClearLowBattery
            &&& m.low_enabled && !recovered ==> state_of(after.devices, device).low_battery_alert
                == state_of(m.devices, device).low_battery_alert
            &&& m.low_enabled && !recovered && (reading.level_percent matches Some(p) && p > 20)
                ==> (decision_of(m, device, sample_of(reading)) == BatteryAlertDecision::Nothing
                && !after.pending.dom().contains(device))
        }),
{
}

/// A reading of a mouse that was not asked, or that is not there, is none; any other is
/// taken as it is.
pub proof fn law_readings_are_taken_as_they_are(reading: BatteryInfo)
    ensures
        sample_of(reading) is Some <==> reading.source == BatterySource::Hidpp && reading.status
            != BatteryStatus::Offline,
        sample_of(reading) matches Some(sample) ==> sample.percent == reading.level_percent
            && sample.status == reading.status,
{
}

/// When the battery is read again after a check: after five minutes where it failed, after
/// half a minute where a reading waits to be confirmed, after two minutes while it charges,
/// and otherwise after a quarter of an hour.
pub proof fn law_battery_is_read_again(device: &str, succeeded: bool, now: u64)
    requires
        now <= u64::MAX - 900_000,
    ensures
        forall|m: &mut BatteryNotificationMonitor, r: ()|
            #![trigger call_ensures(BatteryNotificationMonitor::finish_check, (m, device, succeeded, now), r)]
            call_ensures(
                BatteryNotificationMonitor::finish_check,
                (m, device, succeeded, now),
                r,
            ) ==> {
                let before = (*m)@;
                let after = final(m)@;
                let pause = after.next_check - now;
                &&& !succeeded ==> pause == 300_000
                &&& succeeded && before.pending.dom().contains(device@) ==> pause == 30_000
                &&& succeeded && !before.pending.dom().contains(device@) && state_of(
                    before.devices,
                    device@,
                ).charge_cycle == ChargeCycleState::Charging ==> pause == 120_000
                &&& succeeded && !before.pending.dom().contains(device@) && state_of(
                    before.devices,
                    device@,
                ).charge_cycle != ChargeCycleState::Charging ==> pause == 900_000
                &&& after == (MonitorView { next_check: after.next_check, ..before })
            },
        forall|m: &mut BatteryNotificationMonitor, r: ()|
            #![trigger call_ensures(BatteryNotificationMonitor::miss_reading, (m, now), r)]
            call_ensures(BatteryNotificationMonitor::miss_reading, (m, now), r) ==> final(m)@.next_check == now + 300_000,
        forall|m: &mut BatteryNotificationMonitor, low: bool, full: bool, r: Option<PreferenceChange>|
            #![trigger call_ensures(BatteryNotificationMonitor::update_preferences, (m, device, low, full, now), r)]
            call_ensures(
                BatteryNotificationMonitor::update_preferences,
                (m, device, low, full, now),
                r,
            ) ==> final(m)@.next_preference_check == now + 30_000 && final(m)@.low_enabled == low
                && final(m)@.full_enabled == full && final(m)@.next_check == (*m)@.next_check,
{
}

/// The battery is read when it is time and the user wants to be told of anything.
pub proof fn law_battery_is_read_when_it_is_time(device: &str, now: u64)
    ensures
        forall|m: &mut BatteryNotificationMonitor, r: CheckStep|
            #![trigger call_ensures(BatteryNotificationMonitor::check_if_due, (m, device, now), r)]
            call_ensures(BatteryNotificationMonitor::check_if_due, (m, device, now), r) ==> {
                let before = (*m)@;
                let wanted = before.low_enabled || before.full_enabled;
                &&& r == CheckStep::NotDue <==> now < before.next_check
                &&& r == CheckStep::ReadBattery <==> now >= before.next_check && wanted
                &&& now >= before.next_check && !wanted
                    && before.notification_ids.dom().contains(device@) ==> r
                    == (CheckStep::Disabled { close: Some(before.notification_ids[device@]) })
                &&& now >= before.next_check && !wanted
                    && !before.notification_ids.dom().contains(device@) ==> r
                    == (CheckStep::Disabled { close: None })
            },
        forall|m: &BatteryNotificationMonitor, r: bool|
            #![trigger call_ensures(BatteryNotificationMonitor::is_due, (m, now), r)]
            call_ensures(BatteryNotificationMonitor::is_due, (m, now), r) ==> r == (m@.next_check
                <= now),
        forall|m: &BatteryNotificationMonitor, r: bool|
            #![trigger call_ensures(BatteryNotificationMonitor::preferences_due, (m, now), r)]
            call_ensures(BatteryNotificationMonitor::preferences_due, (m, now), r) ==> r == (
            m@.next_preference_check <= now),
{
}

/// A decision is shown as it is, in the place of the notification that the device has; and
/// one that is cleared is closed and forgotten.
pub proof fn law_decisions_are_shown(device: &str, decision: BatteryAlertDecision)
    ensures
        forall|m: &mut BatteryNotificationMonitor, r: NotificationStep|
            #![trigger call_ensures(BatteryNotificationMonitor::begin_notification, (m, device, decision), r)]
            call_ensures(
                BatteryNotificationMonitor::begin_notification,
                (m, device, decision),
                r,
            ) ==> {
                let ids = (*m)@.notification_ids;
                let shown = if ids.dom().contains(device@) {
                    Some(ids[device@])
                } else {
                    None
                };
                &&& decision is Nothing ==> r == NotificationStep::Nothing
                &&& decision is ClearLowBattery ==> r == (NotificationStep::Close { id: shown })
                    && !final(m)@.notification_ids.dom().contains(device@)
                &&& decision matches BatteryAlertDecision::NotifyLowBattery { level, percent }
                    ==> r == (NotificationStep::ShowLowBattery { level, percent, replaces: shown })
                &&& decision is NotifyFullyCharged ==> r == (NotificationStep::ShowFullyCharged {
                    replaces: shown,
                })
            },
{
}

/// What was told of a battery is remembered, and is not told again.
pub proof fn law_told_alerts_are_remembered(
    device: &str,
    id: u32,
    level: BatteryAlertLevel,
    sample: Option<BatterySample>,
)
    ensures
        forall|m: &mut BatteryNotificationMonitor, r: bool|
            #![trigger call_ensures(BatteryNotificationMonitor::show_low_battery, (m, device, id, level), r)]
            call_ensures(
                BatteryNotificationMonitor::show_low_battery,
                (m, device, id, level),
                r,
            ) ==> {
                let after = final(m)@;
                &&& after.notification_ids.dom().contains(device@)
                &&& after.notification_ids[device@] == id
                &&& state_of(after.devices, device@).low_battery_alert == Some(level)
                &&& state_of(after.devices, device@).charge_cycle == state_of(
                    (*m)@.devices,
                    device@,
                ).charge_cycle
                &&& !after.pending.dom().contains(device@)
                &&& r == (state_of((*m)@.devices, device@).low_battery_alert != Some(level))
                &&& !(decision_of(after, device@, sample) is NotifyLowBattery)
            },
        forall|m: &mut BatteryNotificationMonitor, r: bool|
            #![trigger call_ensures(BatteryNotificationMonitor::show_fully_charged, (m, device), r)]
            call_ensures(BatteryNotificationMonitor::show_fully_charged, (m, device), r) ==> {
                let after = final(m)@;
                &&& !after.notification_ids.dom().contains(device@)
                &&& state_of(after.devices, device@).charge_cycle == ChargeCycleState::FullNotified
                &&& state_of(after.devices, device@).low_battery_alert == state_of(
                    (*m)@.devices,
                    device@,
                ).low_battery_alert
                &&& r == (state_of((*m)@.devices, device@).charge_cycle
                    != ChargeCycleState::FullNotified)
                &&& !(decision_of(after, device@, sample) is NotifyFullyCharged)
            },
{
}

/// Turning notifications off closes what is shown, and turning some on has the battery read
/// at once.
pub proof fn law_changed_wishes_take_effect(device: &str, low: bool, full: bool, now: u64)
    ensures
        forall|m: &mut BatteryNotificationMonitor, r: Option<PreferenceChange>|
            #![trigger call_ensures(BatteryNotificationMonitor::update_preferences, (m, device, low, full, now), r)]
            call_ensures(
                BatteryNotificationMonitor::update_preferences,
                (m, device, low, full, now),
                r,
            ) ==> {
                let before = (*m)@;
                &&& r is None <==> before.low_enabled == low && before.full_enabled == full
                &&& r matches Some(change) ==> change.low_turned_off == (before.low_enabled && !low)
                    && change.full_turned_off == (before.full_enabled && !full)
                    && change.any_enabled == (low || full) && change.save == (before.low_enabled
                    && !low && state_of(before.devices, device@).low_battery_alert is Some)
            },
        forall|m: &mut BatteryNotificationMonitor, change: PreferenceChange, r: Option<u32>|
            #![trigger call_ensures(BatteryNotificationMonitor::finish_preferences, (m, device, change, now), r)]
            call_ensures(
                BatteryNotificationMonitor::finish_preferences,
                (m, device, change, now),
                r,
            ) ==> {
                let ids = (*m)@.notification_ids;
                &&& change.low_turned_off && ids.dom().contains(device@) ==> r == Some(ids[device@])
                    && !final(m)@.notification_ids.dom().contains(device@)
                &&& !change.low_turned_off ==> r is None && final(m)@.notification_ids == ids
                &&& change.any_enabled ==> final(m)@.next_check == now
                &&& !change.any_enabled ==> final(m)@.next_check == (*m)@.next_check
            },
{
}

/// A monitor starts with everything to be told, nothing told, and the first check at once;
/// what was stored of version 2 is what it remembers, and another device is checked at once.
pub proof fn law_monitors_start_ready(
    version: u8,
    devices: Table<StoredDeviceNotificationState>,
    device: &str,
    now: u64,
)
    ensures
        forall|m: BatteryNotificationMonitor|
            #![trigger call_ensures(BatteryNotificationMonitor::empty, (now,), m)]
            call_ensures(BatteryNotificationMonitor::empty, (now,), m) ==> m@.low_enabled
                && m@.full_enabled && m@.next_check == now && m@.next_preference_check == now
                && m@.devices.dom().is_empty() && m@.pending.dom().is_empty(),
        forall|r: Result<BatteryNotificationMonitor, DogiError>|
            #![trigger call_ensures(BatteryNotificationMonitor::load, (version, devices, now), r)]
            call_ensures(BatteryNotificationMonitor::load, (version, devices, now), r) ==> {
                &&& r is Ok <==> version == 2
                &&& r matches Ok(m) ==> m@.devices == devices@ && m@.low_enabled && m@.full_enabled
                    && m@.next_check == now && m@.next_preference_check == now
            },
        forall|m: &mut BatteryNotificationMonitor, r: ()|
            #![trigger call_ensures(BatteryNotificationMonitor::activate, (m, device, now), r)]
            call_ensures(BatteryNotificationMonitor::activate, (m, device, now), r) ==> {
                &&& final(m)@.active_device == Some(device@)
                &&& final(m)@.devices == (*m)@.devices
                &&& (*m)@.active_device != Some(device@) ==> final(m)@.next_check == now && final(m)@.next_preference_check == now
                &&& (*m)@.active_device == Some(device@) ==> final(m)@ == (*m)@
            },
{
}

/// A percentage of up to 10 is critical, one of up to 20 is low, and a higher one is neither; a
/// battery that charges, is full or has 25 percent again has recovered.
pub proof fn law_levels_of_a_battery(sample: BatterySample)
    ensures
        forall|r: Option<(BatteryAlertLevel, u8)>|
            #![trigger call_ensures(BatterySample::alert, (sample,), r)]
            call_ensures(BatterySample::alert, (sample,), r) ==> {
                &&& sample.percent is None ==> r is None
                &&& sample.percent matches Some(p) ==> (p <= 10 ==> r == Some(
                    (BatteryAlertLevel::Critical, p),
                )) && (10 < p <= 20 ==> r == Some((BatteryAlertLevel::Low, p))) && (p > 20 ==> r
                    is None)
            },
        forall|r: bool|
            #![trigger call_ensures(BatterySample::recovered, (sample,), r)]
            call_ensures(BatterySample::recovered, (sample,), r) ==> (r <==> sample.status is Charging
                || sample.status is Full || (sample.percent is Some && sample.percent->0 >= 25)),
        forall|info: &BatteryInfo, r: Option<BatterySample>|
            #![trigger call_ensures(BatterySample::from_info, (info,), r)]
            call_ensures(BatterySample::from_info, (info,), r) ==> (r is Some <==> info.source
                is Hidpp && !(info.status is Offline)) && (r matches Some(s) ==> s.percent
                == info.level_percent && s.status == info.status),
        forall|m: &BatteryNotificationMonitor, maximum: u64, now: u64, r: u64|
            #![trigger call_ensures(BatteryNotificationMonitor::read_timeout, (m, maximum, now), r)]
            call_ensures(BatteryNotificationMonitor::read_timeout, (m, maximum, now), r) ==> {
                &&& r <= maximum
                &&& now <= m@.next_check ==> now + r <= m@.next_check
                &&& now <= m@.next_preference_check ==> now + r <= m@.next_preference_check
                &&& maximum + now <= m@.next_check && maximum + now <= m@.next_preference_check
                    ==> r == maximum
            },
{
}

/// Wishes that do not turn low battery notifications off leave what is remembered as it is, and
/// turning them off forgets what was told of this device alone.
pub proof fn law_unchanged_wishes_forget_nothing(
    m: MonitorView,
    device: Seq<char>,
    other: Seq<char>,
    low: bool,
    full: bool,
    now: u64,
)
    ensures
        !m.low_enabled || low ==> preferences_read(m, device, low, full, now).devices == m.devices
            && preferences_read(m, device, low, full, now).pending == m.pending,
        m.low_enabled && !low ==> state_of(
            preferences_read(m, device, low, full, now).devices,
            device,
        ).low_battery_alert is None,
        other != device ==> state_of(preferences_read(m, device, low, full, now).devices, other)
            == state_of(m.devices, other),
        preferences_read(m, device, low, full, now).notification_ids == m.notification_ids,
{
}

}
