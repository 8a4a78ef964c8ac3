//! The runtime session of one device: each turn of its loop as decisions over
//! what was observed, with the work on the device and the desktop left to the
//! caller.
//!
//! A turn goes through these steps. The caller reports the saved settings
//! ([`RuntimeSession::reload_base_settings`]) and the desktop sessions
//! ([`RuntimeSession::synchronize_session`], [`RuntimeSession::pause_step`]), asks
//! what to do ([`RuntimeSession::observe`]), carries out what
//! [`RuntimeSession::device_step`] asks for, and reports how it went
//! ([`RuntimeSession::conclude`]). Then it waits for events and counts them
//! ([`RuntimeSession::record_event`]).

use crate::control::{CompletionView, HorizontalScrollPreview, PreviewCompletion, RuntimeHealthSnapshot, RuntimeReadiness, SharedPreviewState};
use crate::control;
use crate::error::{DogiError, ErrorKind};
use crate::error;
use crate::lease::{LeaseStep, RuntimeDeviceLease};
use crate::lease;
use crate::plan::SettingsApplyReport;
use crate::plan;
use crate::runtime_plan::{LocalRuntimePlan, ResolvedRuntimeAction, RuntimeCommand, ThumbWheelRuntimeAction};
use crate::runtime_plan;
use crate::session::{SessionObserver, SessionSnapshot};
use crate::session;
use crate::settings::Master3sSettings;
use crate::settings;
use crate::text;
use vstd::prelude::*;

verus! {

/// What the runtime was started with.
#[derive(Debug)]
pub struct RuntimeSupervisorOptions {
    pub device_id: Option<String>,
    pub max_events: Option<u64>,
    pub idle_timeout_ms: u64,
    pub execute_actions: bool,
    pub allow_device_write: bool,
}

/// How a session ended.
#[derive(Clone, Copy, Debug, PartialEq, Eq, Structural)]
pub enum RuntimeSessionOutcome {
    Completed,
    SwitchDevice,
}

/// The settings that the session last brought into effect.
#[derive(Debug, PartialEq, Eq)]
pub struct RuntimeEffectiveState {
    pub profile_name: Option<String>,
    pub settings: Option<Master3sSettings>,
    pub preview_active: bool,
}

/// The mathematical value of [`RuntimeEffectiveState`].
#[verifier::ext_equal]
pub struct EffectiveView {
    pub profile_name: Option<Seq<char>>,
    pub settings: Option<settings::SettingsView>,
    pub preview_active: bool,
}

impl View for RuntimeEffectiveState {
    type V = EffectiveView;

    open spec fn view(&self) -> EffectiveView {
        EffectiveView {
            profile_name: text::optional(self.profile_name),
            settings: lease::optional_settings(self.settings),
            preview_active: self.preview_active,
        }
    }
}

impl Default for RuntimeEffectiveState {
    fn default() -> (r: Self)
        ensures
            r@ == (EffectiveView { profile_name: None, settings: None, preview_active: false }),
    {
        RuntimeEffectiveState { profile_name: None, settings: None, preview_active: false }
    }
}

impl RuntimeEffectiveState {
    /// Whether anything differs from what is in effect.
    pub fn needs_update(
        &self,
        profile_name: &Option<String>,
        s: &Master3sSettings,
        preview_active: bool,
    ) -> (r: bool)
        ensures
            r == (self@ != EffectiveView {
                profile_name: text::optional(*profile_name),
                settings: Some(s@),
                preview_active,
            }),
    {
        let same = text::same_optional(&self.profile_name, profile_name)
            && !self.settings_changed(s) && self.preview_active == preview_active;
        if same {
            assert(self@ =~= EffectiveView {
                profile_name: text::optional(*profile_name),
                settings: Some(s@),
                preview_active,
            });
        }
        !same
    }

    /// Whether the settings differ from those in effect.
    pub fn settings_changed(&self, s: &Master3sSettings) -> (r: bool)
        ensures
            r == (self@.settings != Some(s@)),
    {
        match &self.settings {
            Some(current) => !settings::same_settings(current, s),
            None => true,
        }
    }

    /// Other settings are in effect now.
    pub fn update(&mut self, profile_name: Option<String>, s: &Master3sSettings, preview_active: bool)
        ensures
            final(self)@ == (EffectiveView {
                profile_name: text::optional(profile_name),
                settings: Some(s@),
                preview_active,
            }),
    {
        self.profile_name = profile_name;
        self.settings = Some(s.clone());
        self.preview_active = preview_active;
    }
}

/// The device that a session is for, as far as it was named.
#[derive(Debug, PartialEq, Eq)]
pub enum DeviceChoice {
    Named(String),
    Automatic,
}

/// The device that a session is for: the one that was named, else the one of the
/// preview, else one that is picked from those present.
pub open spec fn requested_device(
    named: Option<Seq<char>>,
    preview_device: Option<Seq<char>>,
) -> Option<Seq<char>> {
    match named {
        Some(device) => Some(device),
        None => preview_device,
    }
}

/// Finds out which device a session is for.
pub fn choose_device(named: &Option<String>, preview_device: &Option<String>) -> (r: Result<
    DeviceChoice,
    DogiError,
>)
    ensures
        match requested_device(text::optional(*named), text::optional(*preview_device)) {
            None => r == Ok::<DeviceChoice, DogiError>(DeviceChoice::Automatic),
            Some(device) => if text::trimmed(device).len() == 0 {
                r is Err && r->Err_0@ == (
                    ErrorKind::InvalidArgument,
                    "--device-id cannot be empty"@,
                )
            } else {
                r matches Ok(DeviceChoice::Named(id)) && id@ == text::trimmed(device)
            },
        },
{
    let requested: &Option<String> = if named.is_some() {
        named
    } else {
        preview_device
    };
    match requested {
        None => Ok(DeviceChoice::Automatic),
        Some(device) => {
            let device = text::trim(device.as_str());
            if device.as_str().is_empty() {
                Err(DogiError::InvalidArgument("--device-id cannot be empty".to_owned()))
            } else {
                Ok(DeviceChoice::Named(device))
            }
        },
    }
}

/// The session of one device.
#[derive(Debug)]
pub struct RuntimeSession {
    pub device_named: bool,
    pub preview_overrode_auto_selection: bool,
    pub max_events: Option<u64>,
    pub execute_actions: bool,
    pub base_settings: Master3sSettings,
    pub lease: RuntimeDeviceLease,
    pub effective: RuntimeEffectiveState,
    pub preview_error: Option<(u64, String)>,
    pub session_generation: u64,
    pub processed_events: u64,
}

/// The mathematical value of [`RuntimeSession`].
#[verifier::ext_equal]
pub struct SessionView {
    pub device_named: bool,
    pub preview_overrode: bool,
    pub max_events: Option<u64>,
    pub execute_actions: bool,
    pub base: settings::SettingsView,
    pub lease: lease::DeviceLeaseView,
    pub effective: EffectiveView,
    pub preview_error: Option<(u64, Seq<char>)>,
    pub session_generation: u64,
    pub processed_events: u64,
}

impl View for RuntimeSession {
    type V = SessionView;

    open spec fn view(&self) -> SessionView {
        SessionView {
            device_named: self.device_named,
            preview_overrode: self.preview_overrode_auto_selection,
            max_events: self.max_events,
            execute_actions: self.execute_actions,
            base: self.base_settings@,
            lease: self.lease@,
            effective: self.effective@,
            preview_error: match self.preview_error {
                Some((generation, detail)) => Some((generation, detail@)),
                None => None,
            },
            session_generation: self.session_generation,
            processed_events: self.processed_events,
        }
    }
}

/// What a turn sets out to do.
#[derive(Debug)]
pub struct TurnPlan {
    /// What the device is to be given.
    pub target: Master3sSettings,
    /// The settings that are in effect for the active application.
    pub effective: Master3sSettings,
    /// The profile of the active application.
    pub profile_name: Option<String>,
    /// The preview that is shown.
    pub active_preview: Option<HorizontalScrollPreview>,
    /// Whether any preview is wanted.
    pub preview_wanted: bool,
    /// The generation of that wish.
    pub generation: u64,
    /// Whether another profile is in effect now.
    pub profile_changed: bool,
    /// Whether a preview begins or ends.
    pub preview_transition: bool,
    /// Whether something may have to be written to the device.
    pub device_work: bool,
    /// What the desktop sessions allow.
    pub policy: session::RuntimePolicy,
    /// The generation of the desktop sessions.
    pub session_generation: u64,
}

/// The mathematical value of [`TurnPlan`].
#[verifier::ext_equal]
pub struct TurnPlanView {
    pub target: settings::SettingsView,
    pub effective: settings::SettingsView,
    pub profile_name: Option<Seq<char>>,
    pub active_preview: Option<control::PreviewView>,
    pub preview_wanted: bool,
    pub generation: u64,
    pub profile_changed: bool,
    pub preview_transition: bool,
    pub device_work: bool,
    pub policy: session::RuntimePolicy,
    pub session_generation: u64,
}

impl View for TurnPlan {
    type V = TurnPlanView;

    open spec fn view(&self) -> TurnPlanView {
        TurnPlanView {
            target: self.target@,
            effective: self.effective@,
            profile_name: text::optional(self.profile_name),
            active_preview: control::optional_preview(self.active_preview),
            preview_wanted: self.preview_wanted,
            generation: self.generation,
            profile_changed: self.profile_changed,
            preview_transition: self.preview_transition,
            device_work: self.device_work,
            policy: self.policy,
            session_generation: self.session_generation,
        }
    }
}

/// How a turn goes on once everything was observed.
#[derive(Debug)]
pub enum Turn {
    SwitchDevice,
    Proceed(TurnPlan),
}

/// The mathematical value of [`Turn`].
#[verifier::ext_equal]
pub enum TurnView {
    SwitchDevice,
    Proceed(TurnPlanView),
}

impl View for Turn {
    type V = TurnView;

    open spec fn view(&self) -> TurnView {
        match self {
            Turn::SwitchDevice => TurnView::SwitchDevice,
            Turn::Proceed(plan) => TurnView::Proceed(plan@),
        }
    }
}

/// The preview that is meant for a device.
pub open spec fn preview_for(
    wanted: Option<control::PreviewView>,
    device_id: Seq<char>,
) -> Option<control::PreviewView> {
    match wanted {
        Some(preview) => if preview.device_id == device_id {
            Some(preview)
        } else {
            None
        },
        None => None,
    }
}

/// What is said of a preview that is meant for another device.
pub open spec fn wrong_device_text(preview_device: Seq<char>, device_id: Seq<char>) -> Seq<char> {
    "preview device "@ + preview_device + " is not the active runtime device "@ + device_id
}

/// The wish for a preview, as far as it concerns the session.
#[derive(Debug)]
pub struct PreviewWish {
    /// The preview that is shown.
    pub active: Option<HorizontalScrollPreview>,
    /// Whether any preview is wanted.
    pub wanted: bool,
    /// The generation of the wish.
    pub generation: u64,
}

/// The mathematical value of [`PreviewWish`].
#[verifier::ext_equal]
pub struct WishView {
    pub active: Option<control::PreviewView>,
    pub wanted: bool,
    pub generation: u64,
}

impl View for PreviewWish {
    type V = WishView;

    open spec fn view(&self) -> WishView {
        WishView {
            active: control::optional_preview(self.active),
            wanted: self.wanted,
            generation: self.generation,
        }
    }
}

/// Whether the session has to make way for one of another device: the preview
/// that it was begun for is gone, or another device is wanted and none was named.
pub open spec fn makes_way(s: SessionView, wanted: Option<control::PreviewView>) -> bool {
    let requested = preview_for(wanted, s.lease.device_id);
    ||| s.preview_overrode && requested is None
    ||| wanted is Some && requested is None && !s.device_named
}

/// The session without a failure that belongs to an earlier wish. A session that
/// loses the preview it was begun for ends as it is.
pub open spec fn failure_pruned(s: SessionView, c: control::StateView) -> SessionView {
    if s.preview_overrode && preview_for(control::wanted(c), s.lease.device_id) is None {
        s
    } else if s.preview_error matches Some(e) && e.0 != c.generation {
        SessionView { preview_error: None, ..s }
    } else {
        s
    }
}

/// What is answered to a wish that cannot be granted: the desktop sessions do not
/// allow it, or it is for another device than the one that was named.
pub open spec fn wish_refusal(
    s: SessionView,
    c: control::StateView,
    snapshot: session::SnapshotView,
) -> Option<Seq<char>> {
    match control::wanted(c) {
        None => None,
        Some(preview) => if preview.device_id == s.lease.device_id {
            if session::policy_of(snapshot.mode).preview_local_actions {
                None
            } else {
                Some(snapshot.detail)
            }
        } else if makes_way(s, control::wanted(c)) {
            None
        } else {
            Some(wrong_device_text(preview.device_id, s.lease.device_id))
        },
    }
}

/// The control interface once a wish that cannot be granted was answered.
pub open spec fn refusal_published(
    s: SessionView,
    c: control::StateView,
    snapshot: session::SnapshotView,
) -> control::StateView {
    match wish_refusal(s, c, snapshot) {
        Some(detail) => control::after_publish(c, c.generation, CompletionView::Failed(detail)),
        None => c,
    }
}

/// The wish for a preview, as far as the desktop sessions allow it.
pub open spec fn wish_of(
    s: SessionView,
    c: control::StateView,
    snapshot: session::SnapshotView,
) -> WishView {
    WishView {
        active: if session::policy_of(snapshot.mode).preview_local_actions {
            preview_for(control::wanted(c), s.lease.device_id)
        } else {
            None
        },
        wanted: control::wanted(c) is Some,
        generation: c.generation,
    }
}

/// What a turn sets out to do, from the settings for the active application and
/// the wish for a preview.
pub open spec fn planned_turn(
    s: SessionView,
    snapshot: session::SnapshotView,
    effective: settings::SettingsView,
    profile_name: Option<Seq<char>>,
    wish: WishView,
) -> TurnPlanView {
    let policy = session::policy_of(snapshot.mode);
    let target = lease::target_settings(effective, wish.active is Some);
    let preview_transition = policy.preview_local_actions && s.effective.preview_active
        != wish.active is Some;
    TurnPlanView {
        target,
        effective,
        profile_name,
        active_preview: wish.active,
        preview_wanted: wish.wanted,
        generation: wish.generation,
        profile_changed: policy.apply_automatic_device_changes && s.effective.profile_name
            != profile_name,
        preview_transition,
        device_work: {
            ||| preview_transition
            ||| policy.apply_automatic_device_changes && s.effective.settings != Some(target)
            ||| policy.apply_automatic_device_changes && !lease::holds_target(s.lease, target)
        },
        policy,
        session_generation: snapshot.generation,
    }
}

/// How a turn goes on after everything was observed: the wish for a preview at
/// time `now`, the desktop sessions and the settings for the active application.
pub open spec fn turn_of(
    s: SessionView,
    c: control::StateView,
    snapshot: session::SnapshotView,
    effective: settings::SettingsView,
    profile_name: Option<Seq<char>>,
    now: u64,
) -> TurnView {
    let c1 = control::after_expiry(c, now);
    if makes_way(s, control::wanted(c1)) {
        TurnView::SwitchDevice
    } else {
        TurnView::Proceed(
            planned_turn(s, snapshot, effective, profile_name, wish_of(s, c1, snapshot)),
        )
    }
}

/// What has to be done to the device in a turn.
#[derive(Debug)]
pub enum DeviceStep {
    /// Nothing.
    Idle,
    /// The desktop sessions changed meanwhile: begin the turn again.
    Again,
    /// A preview is wanted, but nothing may be written.
    Refused,
    /// The device holds the target already.
    Adopt { target: Master3sSettings },
    /// The plan has to be carried out.
    Write { target: Master3sSettings, plan: plan::SettingsApplyPlan },
}

/// The mathematical value of [`DeviceStep`].
#[verifier::ext_equal]
pub enum DeviceStepView {
    Idle,
    Again,
    Refused,
    Adopt { target: settings::SettingsView },
    Write { target: settings::SettingsView, plan: plan::PlanView },
}

impl View for DeviceStep {
    type V = DeviceStepView;

    open spec fn view(&self) -> DeviceStepView {
        match self {
            DeviceStep::Idle => DeviceStepView::Idle,
            DeviceStep::Again => DeviceStepView::Again,
            DeviceStep::Refused => DeviceStepView::Refused,
            DeviceStep::Adopt { target } => DeviceStepView::Adopt { target: target@ },
            DeviceStep::Write { target, plan } => DeviceStepView::Write {
                target: target@,
                plan: plan@,
            },
        }
    }
}

/// Whether a failure to change the device is a failure of the preview.
pub open spec fn concerns_preview(turn: TurnPlanView) -> bool {
    turn.active_preview is Some || turn.preview_transition
}

/// What has to be done to the device in a turn, under the desktop sessions
/// observed last.
pub open spec fn device_step_of(
    s: SessionView,
    turn: TurnPlanView,
    latest: session::SnapshotView,
) -> DeviceStepView {
    if !turn.device_work {
        DeviceStepView::Idle
    } else if !session::changes_permitted(latest, turn.session_generation) {
        DeviceStepView::Again
    } else if s.lease.writes_enabled {
        match lease::target_step(s.lease, turn.target, turn.preview_transition) {
            lease::LeaseStepView::Nothing => DeviceStepView::Idle,
            lease::LeaseStepView::Adopt { target } => DeviceStepView::Adopt { target },
            lease::LeaseStepView::Write { target, plan } => DeviceStepView::Write { target, plan },
        }
    } else if concerns_preview(turn) {
        DeviceStepView::Refused
    } else {
        DeviceStepView::Idle
    }
}

/// How the work on the device went.
#[derive(Debug)]
pub enum DeviceWork {
    /// There was nothing to do.
    Idle,
    /// A preview is wanted, but nothing may be written.
    Refused,
    /// The device holds the target already.
    Adopted { target: Master3sSettings },
    /// The plan was carried out, with this result.
    Written { target: Master3sSettings, outcome: Result<SettingsApplyReport, DogiError> },
}

/// The mathematical value of [`DeviceWork`].
pub enum WorkView {
    Idle,
    Refused,
    Adopted { target: settings::SettingsView },
    Written {
        target: settings::SettingsView,
        outcome: Result<plan::ReportView, (ErrorKind, Seq<char>)>,
    },
}

impl View for DeviceWork {
    type V = WorkView;

    open spec fn view(&self) -> WorkView {
        match self {
            DeviceWork::Idle => WorkView::Idle,
            DeviceWork::Refused => WorkView::Refused,
            DeviceWork::Adopted { target } => WorkView::Adopted { target: target@ },
            DeviceWork::Written { target, outcome } => WorkView::Written {
                target: target@,
                outcome: lease::write_outcome(*outcome),
            },
        }
    }
}

/// The failure of the work on the device, if there was one.
pub open spec fn work_failure(work: WorkView) -> Option<(ErrorKind, Seq<char>)> {
    match work {
        WorkView::Written { target, outcome } => lease::write_failure(outcome),
        _ => None,
    }
}

/// What is said of the preview when the work on the device failed.
pub open spec fn preview_failure(work: WorkView) -> Option<Seq<char>> {
    match work {
        WorkView::Refused => Some("horizontal scroll preview needs device-write access"@),
        _ => match work_failure(work) {
            Some(error) => Some(error::message_of(error)),
            None => None,
        },
    }
}

/// The lease after the work on the device.
pub open spec fn lease_after(l: lease::DeviceLeaseView, work: WorkView) -> lease::DeviceLeaseView {
    match work {
        WorkView::Adopted { target } => lease::holding(l, target),
        WorkView::Written { target, outcome } => if lease::write_failure(outcome) is None {
            lease::holding(l, target)
        } else {
            l
        },
        _ => l,
    }
}

/// How a turn ends.
#[derive(Debug)]
pub enum TurnEnd {
    /// The work on the device failed, and the session with it.
    Failed(DogiError),
    /// The desktop sessions changed meanwhile: begin the turn again.
    Again,
    /// Wait for events and resolve them by this plan.
    Listen(LocalRuntimePlan),
}

/// The mathematical value of [`TurnEnd`].
#[verifier::ext_equal]
pub enum TurnEndView {
    Failed((ErrorKind, Seq<char>)),
    Again,
    Listen(runtime_plan::RuntimePlanView),
}

impl View for TurnEnd {
    type V = TurnEndView;

    open spec fn view(&self) -> TurnEndView {
        match self {
            TurnEnd::Failed(error) => TurnEndView::Failed(error@),
            TurnEnd::Again => TurnEndView::Again,
            TurnEnd::Listen(plan) => TurnEndView::Listen(plan@),
        }
    }
}

/// The runtime plan of a turn: that of the settings in effect, with the thumb
/// wheel scrolling at the speed of the preview while one is shown.
pub open spec fn turn_runtime_plan(turn: TurnPlanView) -> runtime_plan::RuntimePlanView {
    let base = runtime_plan::runtime_plan_of(settings::normal_settings(turn.effective));
    match turn.active_preview {
        Some(preview) => runtime_plan::RuntimePlanView {
            thumb_wheel: Some(
                ThumbWheelRuntimeAction::HorizontalScroll { speed_percent: preview.speed_percent },
            ),
            ..base
        },
        None => base,
    }
}

/// Whether the work on the device failed the session itself, not only a preview.
pub open spec fn fails_session(turn: TurnPlanView, work: WorkView) -> bool {
    work_failure(work) is Some && !concerns_preview(turn)
}

/// Whether the desktop sessions took back, since the turn began, that the device
/// may be changed.
pub open spec fn overtaken(turn: TurnPlanView, latest: session::SnapshotView) -> bool {
    turn.policy.apply_automatic_device_changes && !session::changes_permitted(
        latest,
        turn.session_generation,
    )
}

/// The failure of the preview that is on record after the work on the device.
pub open spec fn recorded_failure(s: SessionView, turn: TurnPlanView, work: WorkView) -> Option<
    (u64, Seq<char>),
> {
    match preview_failure(work) {
        Some(detail) => Some((turn.generation, detail)),
        None => s.preview_error,
    }
}

/// The session after a turn.
pub open spec fn session_after(
    s: SessionView,
    turn: TurnPlanView,
    work: WorkView,
    latest: session::SnapshotView,
) -> SessionView {
    if fails_session(turn, work) {
        SessionView { lease: lease_after(s.lease, work), ..s }
    } else {
        SessionView {
            lease: lease_after(s.lease, work),
            preview_error: recorded_failure(s, turn, work),
            effective: if turn.policy.apply_automatic_device_changes && !overtaken(turn, latest) {
                EffectiveView {
                    profile_name: turn.profile_name,
                    settings: Some(turn.target),
                    preview_active: turn.active_preview is Some,
                }
            } else {
                s.effective
            },
            ..s
        }
    }
}

/// The control interface once a failure of the preview was answered.
pub open spec fn failure_published(
    c: control::StateView,
    turn: TurnPlanView,
    work: WorkView,
) -> control::StateView {
    match preview_failure(work) {
        Some(detail) => control::after_publish(
            c,
            turn.generation,
            CompletionView::Failed(detail),
        ),
        None => c,
    }
}

/// The control interface once the wish was answered for which nothing failed now.
pub open spec fn wish_answered(
    s: SessionView,
    c: control::StateView,
    turn: TurnPlanView,
    work: WorkView,
) -> control::StateView {
    if turn.policy.preview_local_actions && preview_failure(work) is None && (!turn.preview_wanted
        || turn.active_preview is Some) {
        control::after_publish(
            c,
            turn.generation,
            match s.preview_error {
                Some(e) => CompletionView::Failed(e.1),
                None => CompletionView::Applied,
            },
        )
    } else {
        c
    }
}

/// The control interface once the health after a turn was reported.
pub open spec fn health_reported(
    c: control::StateView,
    turn: TurnPlanView,
    work: WorkView,
) -> control::StateView {
    match preview_failure(work) {
        Some(detail) => control::StateView {
            health: control::health_of(RuntimeReadiness::Degraded, Some(detail)),
            ..c
        },
        None => if turn.policy.execute_local_actions {
            control::StateView { health: control::health_of(RuntimeReadiness::Ready, None), ..c }
        } else {
            c
        },
    }
}

/// The control interface after a turn.
pub open spec fn control_after(
    s: SessionView,
    c: control::StateView,
    turn: TurnPlanView,
    work: WorkView,
    latest: session::SnapshotView,
) -> control::StateView {
    if fails_session(turn, work) {
        c
    } else {
        let told = failure_published(c, turn, work);
        if overtaken(turn, latest) {
            told
        } else {
            health_reported(wish_answered(s, told, turn, work), turn, work)
        }
    }
}

/// How a turn ends.
pub open spec fn turn_end(
    turn: TurnPlanView,
    work: WorkView,
    latest: session::SnapshotView,
) -> TurnEndView {
    if fails_session(turn, work) {
        TurnEndView::Failed(work_failure(work)->Some_0)
    } else if overtaken(turn, latest) {
        TurnEndView::Again
    } else {
        TurnEndView::Listen(turn_runtime_plan(turn))
    }
}

impl RuntimeSession {
    /// Begins a session.
    pub fn new(
        options: &RuntimeSupervisorOptions,
        preview_device: bool,
        device_id: &str,
        base_settings: Master3sSettings,
    ) -> (r: Self)
        ensures
            r@ == (SessionView {
                device_named: options.device_id is Some,
                preview_overrode: options.device_id is None && preview_device,
                max_events: options.max_events,
                execute_actions: options.execute_actions,
                base: base_settings@,
                lease: lease::DeviceLeaseView {
                    device_id: device_id@,
                    writes_enabled: options.allow_device_write,
                    state: lease::LeaseStateView {
                        base: settings::normal_settings(base_settings@),
                        owned: None,
                    },
                },
                effective: EffectiveView {
                    profile_name: None,
                    settings: None,
                    preview_active: false,
                },
                preview_error: None,
                session_generation: 0,
                processed_events: 0,
            }),
    {
        let lease = RuntimeDeviceLease::new(device_id, options.allow_device_write, &base_settings);
        RuntimeSession {
            device_named: options.device_id.is_some(),
            preview_overrode_auto_selection: options.device_id.is_none() && preview_device,
            max_events: options.max_events,
            execute_actions: options.execute_actions,
            base_settings,
            lease,
            effective: RuntimeEffectiveState::default(),
            preview_error: None,
            session_generation: 0,
            processed_events: 0,
        }
    }

    /// Whether no event is waited for at all.
    pub fn ends_at_once(&self) -> (r: bool)
        ensures
            r == (self@.max_events == Some(0u64)),
    {
        match self.max_events {
            Some(n) => n == 0,
            None => false,
        }
    }

    /// Takes in the saved settings. The answer is whether they changed.
    pub fn reload_base_settings(&mut self, loaded: Master3sSettings) -> (r: bool)
        ensures
            r == (loaded@ != old(self)@.base),
            final(self)@ == (if r {
                SessionView {
                    base: loaded@,
                    lease: lease::DeviceLeaseView {
                        state: lease::LeaseStateView {
                            base: settings::normal_settings(loaded@),
                            ..old(self)@.lease.state
                        },
                        ..old(self)@.lease
                    },
                    ..old(self)@
                }
            } else {
                old(self)@
            }),
    {
        if settings::same_settings(&loaded, &self.base_settings) {
            return false;
        }
        self.lease.update_base_settings(&loaded);
        self.base_settings = loaded;
        true
    }

    /// Takes in the desktop sessions. The answer is whether they changed, so that
    /// what was resolved under the earlier ones has to be dropped.
    pub fn synchronize_session(&mut self, snapshot: &SessionSnapshot) -> (r: bool)
        ensures
            r == (old(self)@.session_generation != snapshot@.generation),
            final(self)@ == (SessionView {
                session_generation: snapshot@.generation,
                ..old(self)@
            }),
    {
        if self.session_generation == snapshot.generation {
            return false;
        }
        self.session_generation = snapshot.generation;
        true
    }

    /// What has to be done to the device before anything else: where it may not be
    /// changed automatically, it is released.
    pub fn pause_step(&self, snapshot: &SessionSnapshot) -> (r: LeaseStep)
        ensures
            r@ == (if session::policy_of(snapshot@.mode).apply_automatic_device_changes {
                lease::LeaseStepView::Nothing
            } else {
                lease::release_step(self@.lease)
            }),
    {
        if snapshot.policy().apply_automatic_device_changes {
            LeaseStep::Nothing
        } else {
            self.lease.release_base()
        }
    }

    /// Reports that the runtime pauses, where the device may not be changed.
    pub fn report_pause(&self, control: &mut SharedPreviewState, snapshot: &SessionSnapshot)
        ensures
            final(control)@ == (if session::policy_of(
                snapshot@.mode,
            ).apply_automatic_device_changes {
                old(control)@
            } else {
                control::StateView {
                    health: control::health_of(RuntimeReadiness::Paused, None),
                    ..old(control)@
                }
            }),
    {
        if !snapshot.policy().apply_automatic_device_changes {
            control.publish_health(RuntimeHealthSnapshot::new(RuntimeReadiness::Paused, None));
        }
    }

    /// Sets out what a turn does, from everything that was observed.
    pub fn observe(
        &mut self,
        control: &mut SharedPreviewState,
        snapshot: &SessionSnapshot,
        effective: &Master3sSettings,
        profile_name: Option<String>,
        now: u64,
    ) -> (r: Turn)
        ensures
            r@ == turn_of(
                old(self)@,
                old(control)@,
                snapshot@,
                effective@,
                text::optional(profile_name),
                now,
            ),
            final(self)@ == failure_pruned(old(self)@, control::after_expiry(old(control)@, now)),
            final(control)@ == refusal_published(
                old(self)@,
                control::after_expiry(old(control)@, now),
                snapshot@,
            ),
    {
        match self.consider_wish(control, snapshot, now) {
            None => Turn::SwitchDevice,
            Some(wish) => {
                let plan = self.plan_turn(snapshot, effective, profile_name, wish);
                Turn::Proceed(plan)
            },
        }
    }

    /// Looks at the wish for a preview and answers one that cannot be granted.
    /// There is no wish to go on with where the session makes way.
    fn consider_wish(
        &mut self,
        control: &mut SharedPreviewState,
        snapshot: &SessionSnapshot,
        now: u64,
    ) -> (r: Option<PreviewWish>)
        ensures
            ({
                let c = control::after_expiry(old(control)@, now);
                &&& r is None <==> makes_way(old(self)@, control::wanted(c))
                &&& r matches Some(wish) ==> wish@ == wish_of(old(self)@, c, snapshot@)
                &&& final(self)@ == failure_pruned(old(self)@, c)
                &&& final(control)@ == refusal_published(old(self)@, c, snapshot@)
            }),
    {
        let wish = control.snapshot(now);
        let generation = wish.generation;
        let allowed = snapshot.policy().preview_local_actions;
        let wanted = wish.preview.is_some();
        let mut other_device: Option<String> = None;
        let requested: Option<HorizontalScrollPreview> = match wish.preview {
            Some(preview) => {
                if preview.device_id == self.lease.device_id {
                    Some(preview)
                } else {
                    other_device = Some(preview.device_id);
                    None
                }
            },
            None => None,
        };
        if self.preview_overrode_auto_selection && requested.is_none() {
            return None;
        }
        let outdated = match &self.preview_error {
            Some((at, _)) => *at != generation,
            None => false,
        };
        if outdated {
            self.preview_error = None;
        }
        if requested.is_some() && !allowed {
            control.publish(generation, PreviewCompletion::Failed(snapshot.detail.clone()));
        }
        if let Some(device) = &other_device {
            if !self.device_named {
                return None;
            }
            let mut detail = text::concat3(
                "preview device ",
                device.as_str(),
                " is not the active runtime device ",
            );
            detail.append(self.lease.device_id.as_str());
            control.publish(generation, PreviewCompletion::Failed(detail));
        }
        let active = if allowed {
            requested
        } else {
            None
        };
        Some(PreviewWish { active, wanted, generation })
    }

    /// Sets out what a turn does.
    fn plan_turn(
        &self,
        snapshot: &SessionSnapshot,
        effective: &Master3sSettings,
        profile_name: Option<String>,
        wish: PreviewWish,
    ) -> (r: TurnPlan)
        ensures
            r@ == planned_turn(
                self@,
                snapshot@,
                effective@,
                text::optional(profile_name),
                wish@,
            ),
    {
        let policy = snapshot.policy();
        let target = lease::runtime_device_settings(effective, wish.active.as_ref());
        let profile_changed = policy.apply_automatic_device_changes && !text::same_optional(
            &self.effective.profile_name,
            &profile_name,
        );
        let preview_transition = policy.preview_local_actions && self.effective.preview_active
            != wish.active.is_some();
        let target_changed = policy.apply_automatic_device_changes
            && self.effective.settings_changed(&target);
        let device_reacquire = policy.apply_automatic_device_changes && !self.lease.owns_target(
            &target,
        );
        TurnPlan {
            target,
            effective: effective.clone(),
            profile_name,
            active_preview: wish.active,
            preview_wanted: wish.wanted,
            generation: wish.generation,
            profile_changed,
            preview_transition,
            device_work: target_changed || preview_transition || device_reacquire,
            policy,
            session_generation: snapshot.generation,
        }
    }

    /// What has to be done to the device in a turn.
    pub fn device_step(&self, turn: &TurnPlan, observer: &SessionObserver) -> (r: DeviceStep)
        ensures
            r@ == device_step_of(self@, turn@, observer.current@),
    {
        if !turn.device_work {
            return DeviceStep::Idle;
        }
        if !observer.permits_automatic_device_changes(turn.session_generation) {
            return DeviceStep::Again;
        }
        if self.lease.writes_enabled {
            match self.lease.apply_target(&turn.target, turn.preview_transition) {
                LeaseStep::Nothing => DeviceStep::Idle,
                LeaseStep::Adopt { target } => DeviceStep::Adopt { target },
                LeaseStep::Write { target, plan } => DeviceStep::Write { target, plan },
            }
        } else if turn.active_preview.is_some() || turn.preview_transition {
            DeviceStep::Refused
        } else {
            DeviceStep::Idle
        }
    }

    /// Ends a turn, from how the work on the device went.
    pub fn conclude(
        &mut self,
        control: &mut SharedPreviewState,
        turn: TurnPlan,
        work: DeviceWork,
        observer: &SessionObserver,
    ) -> (r: TurnEnd)
        ensures
            final(self)@ == session_after(old(self)@, turn@, work@, observer.current@),
            final(control)@ == control_after(
                old(self)@,
                old(control)@,
                turn@,
                work@,
                observer.current@,
            ),
            r@ == turn_end(turn@, work@, observer.current@),
    {
        let failure = match self.take_in_work(&turn, work) {
            Ok(failure) => failure,
            Err(error) => {
                return TurnEnd::Failed(error);
            },
        };
        let failed = failure.is_some();
        if let Some(detail) = &failure {
            control.publish(turn.generation, PreviewCompletion::Failed(detail.clone()));
        }
        if turn.policy.apply_automatic_device_changes && !observer.permits_automatic_device_changes(
            turn.session_generation,
        ) {
            return TurnEnd::Again;
        }
        if turn.policy.apply_automatic_device_changes {
            self.take_effect(&turn);
        }
        if turn.policy.preview_local_actions && !failed && (!turn.preview_wanted
            || turn.active_preview.is_some()) {
            let completion = match &self.preview_error {
                Some((_, detail)) => PreviewCompletion::Failed(detail.clone()),
                None => PreviewCompletion::Applied,
            };
            control.publish(turn.generation, completion);
        }
        if turn.policy.execute_local_actions && !failed {
            control.publish_health(RuntimeHealthSnapshot::new(RuntimeReadiness::Ready, None));
        } else if failed {
            control.publish_health(RuntimeHealthSnapshot::new(RuntimeReadiness::Degraded, failure));
        }
        TurnEnd::Listen(plan_runtime(&turn))
    }

    /// Takes in how the work on the device went. The answer is the failure of the
    /// preview, or the error that ends the session.
    fn take_in_work(&mut self, turn: &TurnPlan, work: DeviceWork) -> (r: Result<
        Option<String>,
        DogiError,
    >)
        ensures
            r is Err <==> fails_session(turn@, work@),
            r matches Err(error) ==> error@ == work_failure(work@)->Some_0,
            r matches Ok(failure) ==> text::optional(failure) == preview_failure(work@),
            final(self)@ == (SessionView {
                lease: lease_after(old(self)@.lease, work@),
                preview_error: if fails_session(turn@, work@) {
                    old(self)@.preview_error
                } else {
                    recorded_failure(old(self)@, turn@, work@)
                },
                ..old(self)@
            }),
    {
        let failure: Option<String> = match settle_lease(&mut self.lease, work) {
            LeaseOutcome::Settled => None,
            LeaseOutcome::Refused => Some(
                "horizontal scroll preview needs device-write access".to_owned(),
            ),
            LeaseOutcome::Failed(error) => {
                if !(turn.active_preview.is_some() || turn.preview_transition) {
                    return Err(error);
                }
                Some(error.message())
            },
        };
        if let Some(detail) = &failure {
            self.preview_error = Some((turn.generation, detail.clone()));
        }
        Ok(failure)
    }

    /// The settings of a turn are in effect now.
    fn take_effect(&mut self, turn: &TurnPlan)
        ensures
            final(self)@ == (SessionView {
                effective: EffectiveView {
                    profile_name: turn@.profile_name,
                    settings: Some(turn@.target),
                    preview_active: turn@.active_preview is Some,
                },
                ..old(self)@
            }),
    {
        let preview_active = turn.active_preview.is_some();
        if self.effective.needs_update(&turn.profile_name, &turn.target, preview_active) {
            self.effective.update(
                text::copy_optional(&turn.profile_name),
                &turn.target,
                preview_active,
            );
        }
    }

    /// Counts an event. The answer is whether the session is complete.
    pub fn record_event(&mut self) -> (r: bool)
        ensures
            final(self)@ == (SessionView {
                processed_events: counted(old(self)@.processed_events),
                ..old(self)@
            }),
            r == (final(self)@.max_events matches Some(n) && final(self)@.processed_events >= n),
    {
        self.processed_events = self.processed_events.saturating_add(1);
        match self.max_events {
            Some(n) => self.processed_events >= n,
            None => false,
        }
    }
}

/// What became of the hold on the device.
enum LeaseOutcome {
    Settled,
    Refused,
    Failed(DogiError),
}

/// Takes in how the work on the device went.
fn settle_lease(held: &mut RuntimeDeviceLease, work: DeviceWork) -> (r: LeaseOutcome)
    ensures
        final(held)@ == lease_after(old(held)@, work@),
        r is Refused <==> work is Refused,
        match r {
            LeaseOutcome::Failed(error) => work_failure(work@) == Some(error@),
            _ => work_failure(work@) is None,
        },
{
    match work {
        DeviceWork::Idle => LeaseOutcome::Settled,
        DeviceWork::Refused => LeaseOutcome::Refused,
        DeviceWork::Adopted { target } => {
            held.adopt(target);
            LeaseOutcome::Settled
        },
        DeviceWork::Written { target, outcome } => {
            match held.finish_write(target, outcome) {
                Ok(()) => LeaseOutcome::Settled,
                Err(error) => LeaseOutcome::Failed(error),
            }
        },
    }
}

/// The runtime plan of a turn.
fn plan_runtime(turn: &TurnPlan) -> (r: LocalRuntimePlan)
    ensures
        r@ == turn_runtime_plan(turn@),
{
    let mut plan = runtime_plan::build_master3s_runtime_plan(&turn.effective.normalized());
    if let Some(preview) = &turn.active_preview {
        plan.thumb_wheel = Some(
            ThumbWheelRuntimeAction::HorizontalScroll { speed_percent: preview.speed_percent },
        );
    }
    plan
}

/// The count of events after one more.
pub open spec fn counted(n: u64) -> u64 {
    if n == u64::MAX {
        n
    } else {
        (n + 1) as u64
    }
}

/// While the desktop sessions do not allow it, a turn neither writes to the device
/// nor shows a preview: all that is ever written then is the release.
pub proof fn law_paused_session_leaves_the_device_alone(
    s: SessionView,
    c: control::StateView,
    snapshot: session::SnapshotView,
    effective: settings::SettingsView,
    profile_name: Option<Seq<char>>,
    now: u64,
    latest: session::SnapshotView,
)
    requires
        snapshot.mode != session::GraphicalSessionMode::LocalActive,
    ensures
        turn_of(s, c, snapshot, effective, profile_name, now) matches TurnView::Proceed(turn)
            ==> {
            &&& device_step_of(s, turn, latest) == DeviceStepView::Idle
            &&& turn.active_preview is None
            &&& !turn.profile_changed
        },
{
}

/// If the desktop sessions change while a turn is under way, the device is not
/// written to for the decisions of that turn.
pub proof fn law_session_change_stops_the_write(
    s: SessionView,
    turn: TurnPlanView,
    current: session::SnapshotView,
    next: session::SnapshotView,
)
    requires
        turn.session_generation == current.generation,
        current.mode != next.mode || current.detail != next.detail,
    ensures
        device_step_of(s, turn, session::published(current, next)) == DeviceStepView::Idle
            || device_step_of(s, turn, session::published(current, next)) == DeviceStepView::Again,
{
    session::law_session_change_revokes_permissions(current, next);
}

/// A turn that the device went along with leaves it holding the target, so that
/// the next turn with the same settings has nothing to write.
pub proof fn law_settled_session_writes_nothing(
    s: SessionView,
    c: control::StateView,
    turn: TurnPlanView,
    work: WorkView,
    snapshot: session::SnapshotView,
    now: u64,
)
    requires
        snapshot.mode == session::GraphicalSessionMode::LocalActive,
        turn.session_generation == snapshot.generation,
        turn.policy == session::policy_of(snapshot.mode),
        turn.target == lease::target_settings(turn.effective, turn.active_preview is Some),
        work matches WorkView::Written { target, outcome } && target == turn.target
            && lease::write_failure(outcome) is None,
        control::wanted(control::after_expiry(c, now)) == turn.active_preview,
        turn.active_preview matches Some(p) ==> p.device_id == s.lease.device_id,
        s.preview_overrode ==> turn.active_preview is Some,
    ensures
        ({
            let after = session_after(s, turn, work, snapshot);
            turn_of(after, c, snapshot, turn.effective, turn.profile_name, now) matches
                TurnView::Proceed(next) && !next.device_work && !next.profile_changed
        }),
{
    let after = session_after(s, turn, work, snapshot);
    settings::law_normal_form_is_stable(
        if turn.active_preview is Some {
            settings::SettingsView {
                thumb_wheel: settings::ThumbWheelMode::HorizontalScroll,
                thumb_wheel_speed_percent: lease::PREVIEW_DIVERSION_SPEED_PERCENT,
                ..turn.effective
            }
        } else {
            turn.effective
        },
    );
    assert(after.lease.state.owned == Some(turn.target));
    assert(settings::normal_settings(turn.target) == turn.target);
}

/// How the actions of an event are carried out.
#[derive(Clone, Copy, Debug, PartialEq, Eq, Structural)]
pub enum ExecutionStep {
    /// They are not.
    Nothing,
    /// By the executor that is open, which the session is asked for before each of them.
    UseExecutor,
    /// By an executor that has to be opened, and then in the same way.
    OpenExecutor,
    /// None of them needs an executor.
    WithoutExecutor,
}

/// Whether an action injects any input.
pub open spec fn is_executable(command: runtime_plan::CommandView) -> bool {
    !(command is Noop || command is Unsupported)
}

/// Whether an action injects any input.
pub fn action_is_executable(action: &ResolvedRuntimeAction) -> (r: bool)
    ensures
        r == is_executable(action@.command),
{
    match &action.command {
        RuntimeCommand::Noop | RuntimeCommand::Unsupported => false,
        _ => true,
    }
}

/// Whether some action injects input.
pub fn any_executable(actions: &Vec<ResolvedRuntimeAction>) -> (r: bool)
    ensures
        r == exists|i: int| 0 <= i < actions@.len() && is_executable((#[trigger] actions@[i])@.command),
{
    let mut i: usize = 0;
    while i < actions.len()
        invariant
            i <= actions@.len(),
            forall|k: int| 0 <= k < i ==> !is_executable((#[trigger] actions@[k])@.command),
        decreases actions@.len() - i,
    {
        if action_is_executable(&actions[i]) {
            return true;
        }
        i += 1;
    }
    false
}

/// How the actions of an event are carried out.
pub fn execution_step(
    execute_actions: bool,
    executor_open: bool,
    actions: &Vec<ResolvedRuntimeAction>,
    observer: &SessionObserver,
    generation: u64,
) -> (r: ExecutionStep)
    ensures
        r == (if !execute_actions {
            ExecutionStep::Nothing
        } else if executor_open {
            ExecutionStep::UseExecutor
        } else if exists|i: int|
            0 <= i < actions@.len() && is_executable((#[trigger] actions@[i])@.command) {
            if session::actions_permitted(observer.current@, generation) {
                ExecutionStep::OpenExecutor
            } else {
                ExecutionStep::Nothing
            }
        } else {
            ExecutionStep::WithoutExecutor
        }),
{
    if !execute_actions {
        return ExecutionStep::Nothing;
    }
    if executor_open {
        return ExecutionStep::UseExecutor;
    }
    if any_executable(actions) {
        if !observer.permits_actions(generation) {
            return ExecutionStep::Nothing;
        }
        return ExecutionStep::OpenExecutor;
    }
    ExecutionStep::WithoutExecutor
}

/// The result of a session, from how its loop ended and how releasing the device
/// failed, if it did.
pub open spec fn result_with(
    outcome: Result<RuntimeSessionOutcome, (ErrorKind, Seq<char>)>,
    failure: Option<(ErrorKind, Seq<char>)>,
) -> Result<RuntimeSessionOutcome, (ErrorKind, Seq<char>)> {
    match (outcome, failure) {
        (_, None) => outcome,
        (Ok(_), Some(failure)) => Err((ErrorKind::BackendUnavailable, unreleased_text(failure))),
        (Err(error), Some(failure)) => Err(
            (
                ErrorKind::BackendUnavailable,
                error::message_of(error) + "; base device settings restoration also failed: "@
                    + error::message_of(failure),
            ),
        ),
    }
}

/// What is said where a device could not be released.
pub open spec fn unreleased_text(failure: (ErrorKind, Seq<char>)) -> Seq<char> {
    "failed to restore base device settings: "@ + error::message_of(failure)
}

/// The value of how a session ended.
pub open spec fn outcome_view(outcome: Result<RuntimeSessionOutcome, DogiError>) -> Result<
    RuntimeSessionOutcome,
    (ErrorKind, Seq<char>),
> {
    match outcome {
        Ok(end) => Ok(end),
        Err(error) => Err(error@),
    }
}

/// The value of how releasing a device failed, if it did.
pub open spec fn restoration_view(restoration: Result<(), DogiError>) -> Option<
    (ErrorKind, Seq<char>),
> {
    match restoration {
        Ok(_) => None,
        Err(error) => Some(error@),
    }
}

fn describe_unreleased(failure: &DogiError) -> (r: String)
    ensures
        r@ == unreleased_text(failure@),
{
    text::concat2("failed to restore base device settings: ", failure.message().as_str())
}

/// The result of a session, from how its loop ended and whether the device could
/// be released.
pub fn session_result(
    outcome: Result<RuntimeSessionOutcome, DogiError>,
    restoration: Result<(), DogiError>,
) -> (r: Result<RuntimeSessionOutcome, DogiError>)
    ensures
        outcome_view(r) == result_with(outcome_view(outcome), restoration_view(restoration)),
{
    match (outcome, restoration) {
        (Ok(end), Ok(())) => Ok(end),
        (Err(error), Ok(())) => Err(error),
        (Ok(_), Err(failure)) => Err(DogiError::BackendUnavailable(describe_unreleased(&failure))),
        (Err(error), Err(failure)) => Err(
            DogiError::BackendUnavailable(
                text::concat3(
                    error.message().as_str(),
                    "; base device settings restoration also failed: ",
                    failure.message().as_str(),
                ),
            ),
        ),
    }
}

/// How far the end of a session is that took hold of a device. Whatever ended it, the
/// device is released before the hold is let go of.
#[derive(Debug, PartialEq, Eq)]
pub enum SessionClosing {
    /// The loop ended, and the device is released.
    Releasing { outcome: Result<RuntimeSessionOutcome, DogiError> },
    /// The hold is let go of, and what is not released yet is.
    LettingGo { result: Result<RuntimeSessionOutcome, DogiError> },
    /// The session is over.
    Closed { result: Result<RuntimeSessionOutcome, DogiError> },
}

/// The mathematical value of [`SessionClosing`].
#[verifier::ext_equal]
pub enum ClosingView {
    Releasing { outcome: Result<RuntimeSessionOutcome, (ErrorKind, Seq<char>)> },
    LettingGo { result: Result<RuntimeSessionOutcome, (ErrorKind, Seq<char>)> },
    Closed { result: Result<RuntimeSessionOutcome, (ErrorKind, Seq<char>)> },
}

impl View for SessionClosing {
    type V = ClosingView;

    open spec fn view(&self) -> ClosingView {
        match self {
            SessionClosing::Releasing { outcome } => ClosingView::Releasing {
                outcome: outcome_view(*outcome),
            },
            SessionClosing::LettingGo { result } => ClosingView::LettingGo {
                result: outcome_view(*result),
            },
            SessionClosing::Closed { result } => ClosingView::Closed {
                result: outcome_view(*result),
            },
        }
    }
}

/// What is done to the device on the way to the end of a session.
pub open spec fn closing_step(closing: ClosingView, held: lease::DeviceLeaseView) -> lease::LeaseStepView {
    if closing is Closed {
        lease::LeaseStepView::Nothing
    } else {
        lease::release_step(held)
    }
}

/// The hold on a device once it was released, or could not be.
pub open spec fn lease_once_released(
    held: lease::DeviceLeaseView,
    failure: Option<(ErrorKind, Seq<char>)>,
) -> lease::DeviceLeaseView {
    match lease::release_step(held) {
        lease::LeaseStepView::Nothing => held,
        lease::LeaseStepView::Adopt { target } => lease::holding(held, target),
        lease::LeaseStepView::Write { target, plan } => if failure is Some {
            held
        } else {
            lease::holding(held, target)
        },
    }
}

/// What follows once the device was released, or could not be.
pub open spec fn closing_after(
    closing: ClosingView,
    failure: Option<(ErrorKind, Seq<char>)>,
) -> ClosingView {
    match closing {
        ClosingView::Releasing { outcome } => ClosingView::LettingGo {
            result: result_with(outcome, failure),
        },
        ClosingView::LettingGo { result } => ClosingView::Closed { result },
        ClosingView::Closed { result } => closing,
    }
}

/// What is said where the hold on a device is let go of that could not be released.
pub open spec fn closing_notice(
    closing: ClosingView,
    failure: Option<(ErrorKind, Seq<char>)>,
) -> Option<Seq<char>> {
    match (closing, failure) {
        (ClosingView::LettingGo { result }, Some(failure)) => Some(unreleased_text(failure)),
        _ => None,
    }
}

/// The control interface once the device was released, or could not be.
pub open spec fn control_once_released(
    closing: ClosingView,
    c: control::StateView,
    failure: Option<(ErrorKind, Seq<char>)>,
) -> control::StateView {
    match closing_notice(closing, failure) {
        Some(detail) => control::StateView {
            health: control::health_of(RuntimeReadiness::Degraded, Some(detail)),
            ..c
        },
        None => c,
    }
}

impl SessionClosing {
    /// The hold was taken, and no loop could begin.
    pub fn not_begun(error: DogiError) -> (r: Self)
        ensures
            r@ == (ClosingView::LettingGo { result: Err(error@) }),
    {
        SessionClosing::LettingGo { result: Err(error) }
    }

    /// The loop ended.
    pub fn ended(outcome: Result<RuntimeSessionOutcome, DogiError>) -> (r: Self)
        ensures
            r@ == (ClosingView::Releasing { outcome: outcome_view(outcome) }),
    {
        SessionClosing::Releasing { outcome }
    }

    /// What is to be done to the device.
    pub fn step(&self, held: &RuntimeDeviceLease) -> (r: LeaseStep)
        ensures
            r@ == closing_step(self@, held@),
    {
        match self {
            SessionClosing::Closed { .. } => LeaseStep::Nothing,
            _ => held.release_base(),
        }
    }

    /// Takes in how that went. The answer is the line for the log, where there is one.
    pub fn note_release(
        self,
        control: &mut SharedPreviewState,
        restoration: Result<(), DogiError>,
    ) -> (r: (Self, Option<String>))
        ensures
            r.0@ == closing_after(self@, restoration_view(restoration)),
            text::optional(r.1) == closing_notice(self@, restoration_view(restoration)),
            final(control)@ == control_once_released(
                self@,
                old(control)@,
                restoration_view(restoration),
            ),
    {
        match self {
            SessionClosing::Releasing { outcome } => (
                SessionClosing::LettingGo { result: session_result(outcome, restoration) },
                None,
            ),
            SessionClosing::LettingGo { result } => match restoration {
                Ok(()) => (SessionClosing::Closed { result }, None),
                Err(failure) => {
                    let detail = describe_unreleased(&failure);
                    control.publish_health(
                        RuntimeHealthSnapshot::new(RuntimeReadiness::Degraded, Some(detail.clone())),
                    );
                    (SessionClosing::Closed { result }, Some(detail))
                },
            },
            SessionClosing::Closed { result } => (SessionClosing::Closed { result }, None),
        }
    }
}

/// However a session ends that took hold of a device, be it that its loop ended well or
/// badly (`outcome`) or could not begin (`error`), the device is released before the
/// session is over. Where releasing it worked, now or at the second try, a device that
/// may be written is left with the settings that the user saved, and nothing more is to
/// be done to it. Where it failed to the last, the runtime is reported as degraded. What
/// the session came to does not depend on the second try.
pub proof fn law_base_settings_are_released_however_a_session_ends(
    held: lease::DeviceLeaseView,
    c: control::StateView,
    outcome: Result<RuntimeSessionOutcome, (ErrorKind, Seq<char>)>,
    error: (ErrorKind, Seq<char>),
    first: Option<(ErrorKind, Seq<char>)>,
    last: Option<(ErrorKind, Seq<char>)>,
)
    ensures
        ({
            let ended = ClosingView::Releasing { outcome };
            let going = closing_after(ended, first);
            let released = lease_once_released(held, first);
            &&& closing_step(ended, held) == lease::release_step(held)
            &&& going == ClosingView::LettingGo { result: result_with(outcome, first) }
            &&& closing_step(going, released) == lease::release_step(released)
            &&& first is None ==> lease::release_step(released) is Nothing
            &&& closing_after(going, last) == ClosingView::Closed {
                result: result_with(outcome, first),
            }
            &&& left_released(lease_once_released(released, last), last)
            &&& control_once_released(ended, c, first) == c
            &&& reported_degraded(control_once_released(going, c, last), c, last)
        }),
        ({
            let going = ClosingView::LettingGo { result: Err(error) };
            &&& closing_step(going, held) == lease::release_step(held)
            &&& closing_after(going, last) == ClosingView::Closed { result: Err(error) }
            &&& left_released(lease_once_released(held, last), last)
            &&& reported_degraded(control_once_released(going, c, last), c, last)
        }),
{
}

/// Whether a device is left with the settings that the user saved, unless it may not be
/// written or releasing it failed.
pub open spec fn left_released(
    held: lease::DeviceLeaseView,
    failure: Option<(ErrorKind, Seq<char>)>,
) -> bool {
    failure is None && held.writes_enabled ==> {
        &&& held.state.owned == Some(lease::released_settings(held.state.base))
        &&& lease::release_step(held) is Nothing
    }
}

/// Whether the runtime is reported as degraded where releasing the device failed, and
/// nothing is reported else.
pub open spec fn reported_degraded(
    after: control::StateView,
    before: control::StateView,
    failure: Option<(ErrorKind, Seq<char>)>,
) -> bool {
    match failure {
        Some(failure) => after == control::StateView {
            health: control::health_of(
                RuntimeReadiness::Degraded,
                Some(unreleased_text(failure)),
            ),
            ..before
        },
        None => after == before,
    }
}

/// Whether what was done to the device is what a step asked for, and succeeded: a write
/// was committed, and no part of it failed.
pub open spec fn carried_out(step: DeviceStepView, work: WorkView) -> bool {
    match step {
        DeviceStepView::Idle => work is Idle,
        DeviceStepView::Adopt { target } => work == (WorkView::Adopted { target }),
        DeviceStepView::Write { target, plan } => match work {
            WorkView::Written { target: written, outcome } => match outcome {
                Ok(report) => written == target && report.transaction
                    == plan::SettingsTransactionState::Committed && forall|i: int|
                    0 <= i < report.outcomes.len() ==> (#[trigger] report.outcomes[i]).status
                        == plan::SettingsApplyStatus::Applied,
                Err(_) => false,
            },
            _ => false,
        },
        _ => false,
    }
}

/// The settings of the active application reach the mouse. On an unlocked local desktop,
/// where the device may be written, a turn asks for a write, unless the device is known to
/// hold just these settings; and what it writes is what the application wants: the pointer
/// speed, the wheel, the scrolling, the thumb wheel and each button, wherever the device
/// is not known to have them. This holds for the first turn as for every later one.
pub proof fn law_settings_of_the_active_application_reach_the_mouse(
    s: SessionView,
    c: control::StateView,
    snapshot: session::SnapshotView,
    effective: settings::SettingsView,
    profile_name: Option<Seq<char>>,
    now: u64,
    button: settings::Master3sButton,
)
    requires
        snapshot.mode == session::GraphicalSessionMode::LocalActive,
        s.lease.writes_enabled,
        control::wanted(control::after_expiry(c, now)) is None,
        !s.preview_overrode,
        50 <= effective.pointer_speed_percent <= 200,
        1 <= effective.smart_shift_threshold <= 50,
        25 <= effective.thumb_wheel_speed_percent <= 400,
    ensures
        turn_of(s, c, snapshot, effective, profile_name, now) is Proceed,
        ({
            let after = failure_pruned(s, control::after_expiry(c, now));
            let turn = turn_of(s, c, snapshot, effective, profile_name, now)->Proceed_0;
            let step = device_step_of(after, turn, snapshot);
            let known = s.lease.state.owned;
            let steps = step->plan.steps;
            &&& after.lease == s.lease
            &&& turn.target == settings::normal_settings(effective)
            &&& known != Some(turn.target) ==> {
                ||| step == (DeviceStepView::Adopt { target: turn.target })
                ||| step is Write && step->Write_target == turn.target && step->plan.device_id
                    == s.lease.device_id
            }
            &&& known is None || known->0.pointer_speed_percent != effective.pointer_speed_percent
                ==> step is Write && plan::sets_pointer(steps, effective.pointer_speed_percent)
            &&& known is None || known->0.ratchet_mode != effective.ratchet_mode
                || known->0.smart_shift_enabled != effective.smart_shift_enabled
                || known->0.smart_shift_threshold != effective.smart_shift_threshold
                ==> step is Write && plan::sets_wheel(
                steps,
                effective.ratchet_mode,
                effective.smart_shift_enabled,
                effective.smart_shift_threshold,
            )
            &&& known is None || known->0.high_resolution_scroll
                != effective.high_resolution_scroll || known->0.natural_scroll
                != effective.natural_scroll ==> step is Write && plan::sets_scrolling(
                steps,
                effective.high_resolution_scroll,
                effective.natural_scroll,
            )
            &&& known is None || known->0.thumb_wheel != effective.thumb_wheel
                || known->0.thumb_wheel_speed_percent != effective.thumb_wheel_speed_percent
                ==> step is Write && plan::sets_thumb_wheel(
                steps,
                effective.thumb_wheel,
                effective.thumb_wheel_speed_percent,
            )
            &&& known is None || settings::action_for(known->0.buttons, button)
                != settings::action_for(effective.buttons, button) ==> step is Write
                && plan::sets_button(
                steps,
                button,
                settings::action_for(effective.buttons, button),
            )
        }),
{
    let after = failure_pruned(s, control::after_expiry(c, now));
    let turn = turn_of(s, c, snapshot, effective, profile_name, now)->Proceed_0;
    let step = device_step_of(after, turn, snapshot);
    settings::law_normal_form_is_stable(effective);
    settings::law_normal_form_keeps_what_a_mouse_takes(effective, button, 0);
    let target = settings::normal_settings(effective);
    let force = turn.preview_transition;
    let plan = lease::reconcile_plan(s.lease.device_id, s.lease.state.owned, target, force);
    match s.lease.state.owned {
        None => {
            plan::law_full_plan_sets_everything(s.lease.device_id, target, button);
            lease::law_unknown_device_is_written_in_full(s.lease.device_id, target, force);
        },
        Some(known) => {
            plan::law_difference_plan_sets_what_differs(
                s.lease.device_id,
                known,
                target,
                button,
            );
            let base = plan::difference_plan(s.lease.device_id, known, target);
            assert forall|x: plan::SettingsApplyStep| base.steps.contains(x) implies (
            #[trigger] plan.steps.contains(x)) by {
                let k = base.steps.index_of(x);
                assert(plan.steps[k] == x);
            }
        },
    }
}

/// A turn that proceeded and whose work succeeded leaves the device holding the settings
/// of that turn, and the session records them and the profile as in effect. So a session
/// never counts settings as in effect that it did not write.
pub proof fn law_settings_in_effect_are_on_the_mouse(
    s: SessionView,
    c: control::StateView,
    snapshot: session::SnapshotView,
    effective: settings::SettingsView,
    profile_name: Option<Seq<char>>,
    now: u64,
    work: WorkView,
)
    requires
        snapshot.mode == session::GraphicalSessionMode::LocalActive,
        s.lease.writes_enabled,
        turn_of(s, c, snapshot, effective, profile_name, now) is Proceed,
        carried_out(
            device_step_of(
                failure_pruned(s, control::after_expiry(c, now)),
                turn_of(s, c, snapshot, effective, profile_name, now)->Proceed_0,
                snapshot,
            ),
            work,
        ),
    ensures
        ({
            let before = failure_pruned(s, control::after_expiry(c, now));
            let turn = turn_of(s, c, snapshot, effective, profile_name, now)->Proceed_0;
            let after = session_after(before, turn, work, snapshot);
            &&& after.lease.state.owned == Some(turn.target)
            &&& after.lease.writes_enabled && after.lease.device_id == s.lease.device_id
            &&& after.lease.state.base == s.lease.state.base
            &&& after.effective.settings == Some(turn.target)
            &&& after.effective.profile_name == profile_name
            &&& turn_end(turn, work, snapshot) is Listen
            &&& turn.active_preview is None ==> turn.target == settings::normal_settings(effective)
        }),
{
    let turn = turn_of(s, c, snapshot, effective, profile_name, now)->Proceed_0;
    settings::law_normal_form_is_stable(
        if turn.active_preview is Some {
            settings::SettingsView {
                thumb_wheel: settings::ThumbWheelMode::HorizontalScroll,
                thumb_wheel_speed_percent: lease::PREVIEW_DIVERSION_SPEED_PERCENT,
                ..effective
            }
        } else {
            effective
        },
    );
    if let WorkView::Written { target, outcome } = work {
        plan::law_applied_means_committed_without_failures(outcome->Ok_0);
    }
}

/// A preview that is wanted of this device is shown on an unlocked local desktop: the
/// thumb wheel is handed to the runtime, which scrolls at the speed of the preview, and
/// all else on the mouse is as the active application wants it. Once the mouse went along,
/// the wish is answered with success and the runtime is ready.
pub proof fn law_wanted_preview_is_shown(
    s: SessionView,
    c: control::StateView,
    snapshot: session::SnapshotView,
    effective: settings::SettingsView,
    profile_name: Option<Seq<char>>,
    now: u64,
    p: control::PreviewView,
    work: WorkView,
)
    requires
        snapshot.mode == session::GraphicalSessionMode::LocalActive,
        control::wanted(control::after_expiry(c, now)) == Some(p),
        p.device_id == s.lease.device_id,
    ensures
        turn_of(s, c, snapshot, effective, profile_name, now) is Proceed,
        ({
            let c1 = control::after_expiry(c, now);
            let before = failure_pruned(s, c1);
            let turn = turn_of(s, c, snapshot, effective, profile_name, now)->Proceed_0;
            let step = device_step_of(before, turn, snapshot);
            let answered = control_after(
                before,
                refusal_published(s, c1, snapshot),
                turn,
                work,
                snapshot,
            );
            &&& refusal_published(s, c1, snapshot) == c1
            &&& turn.active_preview == Some(p)
            &&& turn.generation == c1.generation
            &&& turn.target == (settings::SettingsView {
                thumb_wheel: settings::ThumbWheelMode::HorizontalScroll,
                thumb_wheel_speed_percent: 101,
                ..settings::normal_settings(effective)
            })
            &&& turn_runtime_plan(turn).thumb_wheel == Some(
                ThumbWheelRuntimeAction::HorizontalScroll { speed_percent: p.speed_percent },
            )
            &&& s.lease.writes_enabled && !s.effective.preview_active ==> step is Write
                && step->Write_target == turn.target
            &&& carried_out(step, work) && before.preview_error is None ==> {
                &&& answered.completed_generation == c1.generation
                &&& answered.completion == Some(CompletionView::Applied)
                &&& answered.health.readiness == RuntimeReadiness::Ready
                &&& answered.health.last_error is None
                &&& turn_end(turn, work, snapshot) == TurnEndView::Listen(turn_runtime_plan(turn))
            }
        }),
{
    let c1 = control::after_expiry(c, now);
    let before = failure_pruned(s, c1);
    let turn = turn_of(s, c, snapshot, effective, profile_name, now)->Proceed_0;
    settings::law_normal_form_is_stable(
        settings::SettingsView {
            thumb_wheel: settings::ThumbWheelMode::HorizontalScroll,
            thumb_wheel_speed_percent: lease::PREVIEW_DIVERSION_SPEED_PERCENT,
            ..effective
        },
    );
    match s.lease.state.owned {
        None => lease::law_unknown_device_is_written_in_full(s.lease.device_id, turn.target, true),
        Some(known) => {
            let base = plan::difference_plan(s.lease.device_id, known, turn.target).steps;
            if lease::routes_thumb_wheel(base) {
                assert(base.len() > 0);
            }
        },
    }
    if let WorkView::Written { target, outcome } = work {
        if outcome is Ok {
            plan::law_applied_means_committed_without_failures(outcome->Ok_0);
        }
    }
}

/// Where nothing may be written, a preview that would have to be begun is refused: it is
/// answered with a failure that says so, and the runtime is degraded.
pub proof fn law_preview_needs_device_writes(
    s: SessionView,
    c: control::StateView,
    snapshot: session::SnapshotView,
    effective: settings::SettingsView,
    profile_name: Option<Seq<char>>,
    now: u64,
)
    requires
        snapshot.mode == session::GraphicalSessionMode::LocalActive,
        !s.lease.writes_enabled,
        !s.effective.preview_active,
        control::wanted(control::after_expiry(c, now)) matches Some(p) && p.device_id
            == s.lease.device_id,
    ensures
        ({
            let c1 = control::after_expiry(c, now);
            let before = failure_pruned(s, c1);
            let turn = turn_of(s, c, snapshot, effective, profile_name, now)->Proceed_0;
            let after = control_after(before, c1, turn, WorkView::Refused, snapshot);
            &&& turn_of(s, c, snapshot, effective, profile_name, now) is Proceed
            &&& device_step_of(before, turn, snapshot) == DeviceStepView::Refused
            &&& after.completed_generation == c1.generation
            &&& after.completion == Some(
                CompletionView::Failed("horizontal scroll preview needs device-write access"@),
            )
            &&& after.health.readiness == RuntimeReadiness::Degraded && after.health.degraded
        }),
{
}

/// A preview of another device makes a session give way where the device was not named;
/// where it was, the session stays, shows nothing, and answers the wish with a failure
/// that names both devices.
pub proof fn law_preview_of_another_device(
    s: SessionView,
    c: control::StateView,
    snapshot: session::SnapshotView,
    effective: settings::SettingsView,
    profile_name: Option<Seq<char>>,
    now: u64,
    p: control::PreviewView,
)
    requires
        control::wanted(control::after_expiry(c, now)) == Some(p),
        p.device_id != s.lease.device_id,
        !s.preview_overrode,
    ensures
        ({
            let c1 = control::after_expiry(c, now);
            let turn = turn_of(s, c, snapshot, effective, profile_name, now);
            let told = refusal_published(s, c1, snapshot);
            &&& turn is SwitchDevice <==> !s.device_named
            &&& s.device_named ==> turn->Proceed_0.active_preview is None
                && told.completed_generation == c1.generation && told.completion == Some(
                CompletionView::Failed(
                    "preview device "@ + p.device_id + " is not the active runtime device "@
                        + s.lease.device_id,
                ),
            )
        }),
{
}

/// While the desktop is not an unlocked local one, a preview of this device is answered
/// with why that is so; and whatever the runtime did to the mouse is taken back.
pub proof fn law_paused_runtime_refuses_previews(
    s: SessionView,
    c: control::StateView,
    snapshot: session::SnapshotView,
)
    requires
        snapshot.mode != session::GraphicalSessionMode::LocalActive,
        control::wanted(c) matches Some(p) && p.device_id == s.lease.device_id,
    ensures
        refusal_published(s, c, snapshot).completed_generation == c.generation,
        refusal_published(s, c, snapshot).completion == Some(
            CompletionView::Failed(snapshot.detail),
        ),
{
}

/// A write that fails in a turn without a preview ends the session with that failure, and
/// neither the device nor the profile counts as changed.
pub proof fn law_failed_write_ends_the_session(
    s: SessionView,
    c: control::StateView,
    turn: TurnPlanView,
    target: settings::SettingsView,
    error: (ErrorKind, Seq<char>),
    latest: session::SnapshotView,
)
    requires
        turn.active_preview is None,
        !turn.preview_transition,
    ensures
        ({
            let work = WorkView::Written { target, outcome: Err(error) };
            &&& turn_end(turn, work, latest) == TurnEndView::Failed(error)
            &&& session_after(s, turn, work, latest) == s
            &&& control_after(s, c, turn, work, latest) == c
        }),
{
}

/// A write that fails while a preview is shown or ended is told as a failure of the
/// preview; the session goes on.
pub proof fn law_failed_preview_keeps_the_session(
    s: SessionView,
    c: control::StateView,
    turn: TurnPlanView,
    target: settings::SettingsView,
    error: (ErrorKind, Seq<char>),
    latest: session::SnapshotView,
)
    requires
        turn.active_preview is Some || turn.preview_transition,
        turn.generation == c.generation,
        turn.policy == session::policy_of(session::GraphicalSessionMode::LocalActive),
        latest.mode == session::GraphicalSessionMode::LocalActive,
        latest.generation == turn.session_generation,
    ensures
        ({
            let work = WorkView::Written { target, outcome: Err(error) };
            let after = control_after(s, c, turn, work, latest);
            &&& turn_end(turn, work, latest) == TurnEndView::Listen(turn_runtime_plan(turn))
            &&& session_after(s, turn, work, latest).preview_error == Some(
                (turn.generation, error::message_of(error)),
            )
            &&& session_after(s, turn, work, latest).lease == s.lease
            &&& after.completion == Some(CompletionView::Failed(error::message_of(error)))
            &&& after.completed_generation == c.generation
            &&& after.health.readiness == RuntimeReadiness::Degraded
        }),
{
}

/// A device that the user named is used before the one of a preview, and where neither is named
/// one is chosen.
pub proof fn law_named_devices_are_used(named: &Option<String>, wanted: &Option<String>)
    ensures
        forall|r: Result<DeviceChoice, DogiError>|
            #![trigger call_ensures(choose_device, (named, wanted), r)]
            call_ensures(choose_device, (named, wanted), r) ==> {
                &&& named is None && wanted is None ==> r == Ok::<DeviceChoice, DogiError>(
                    DeviceChoice::Automatic,
                )
                &&& named is Some && text::trimmed(named->0@).len() > 0 ==> (r matches Ok(
                    DeviceChoice::Named(id),
                ) && id@ == text::trimmed(named->0@))
                &&& named is None && wanted is Some && text::trimmed(wanted->0@).len() > 0 ==> (
                r matches Ok(DeviceChoice::Named(id)) && id@ == text::trimmed(wanted->0@))
                &&& named is Some && text::trimmed(named->0@).len() == 0 ==> r is Err
            },
{
}

/// A session begins with nothing in effect, writes the device only where the user allowed it,
/// and ends at once where it is to serve no event.
pub proof fn law_sessions_begin_with_nothing_in_effect(
    options: &RuntimeSupervisorOptions,
    preview: bool,
    device_id: &str,
    base: Master3sSettings,
)
    ensures
        forall|s: RuntimeSession|
            #![trigger call_ensures(RuntimeSession::new, (options, preview, device_id, base), s)]
            call_ensures(RuntimeSession::new, (options, preview, device_id, base), s) ==> {
                &&& s@.effective.settings is None && s@.effective.profile_name is None
                &&& s@.lease.device_id == device_id@ && s@.lease.state.owned is None
                &&& s@.lease.writes_enabled == options.allow_device_write
                &&& s@.execute_actions == options.execute_actions
                &&& s@.max_events == options.max_events
                &&& s@.base == base@
                &&& s@.device_named == (options.device_id is Some)
                &&& s@.preview_overrode == (options.device_id is None && preview)
                &&& s@.processed_events == 0
            },
        forall|s: &RuntimeSession, r: bool|
            #![trigger call_ensures(RuntimeSession::ends_at_once, (s,), r)]
            call_ensures(RuntimeSession::ends_at_once, (s,), r) ==> (r <==> s@.max_events == Some(
                0u64,
            )),
        forall|s: &mut RuntimeSession, r: bool|
            #![trigger call_ensures(RuntimeSession::record_event, (s,), r)]
            call_ensures(RuntimeSession::record_event, (s,), r) ==> {
                &&& (*s)@.processed_events < u64::MAX ==> final(s)@.processed_events == (
                *s)@.processed_events + 1
                &&& (*s)@.max_events is None ==> !r
                &&& (*s)@.max_events matches Some(n) ==> (r <==> final(s)@.processed_events >= n)
                &&& final(s)@.lease == (*s)@.lease && final(s)@.effective == (*s)@.effective
            },
{
}

/// What a session observes, is to write and has written is what is planned for its turn.
pub proof fn law_turns_are_taken_as_planned(
    snapshot: &SessionSnapshot,
    effective: &Master3sSettings,
    profile_name: Option<String>,
    now: u64,
    observer: &SessionObserver,
)
    ensures
        forall|s: &mut RuntimeSession, c: &mut SharedPreviewState, r: Turn|
            #![trigger call_ensures(RuntimeSession::observe, (s, c, snapshot, effective, profile_name, now), r)]
            call_ensures(
                RuntimeSession::observe,
                (s, c, snapshot, effective, profile_name, now),
                r,
            ) ==> {
                &&& r@ == turn_of(
                    (*s)@,
                    (*c)@,
                    snapshot@,
                    effective@,
                    text::optional(profile_name),
                    now,
                )
                &&& final(s)@.lease == (*s)@.lease && final(s)@.effective == (*s)@.effective
            },
        forall|s: &RuntimeSession, turn: &TurnPlan, r: DeviceStep|
            #![trigger call_ensures(RuntimeSession::device_step, (s, turn, observer), r)]
            call_ensures(RuntimeSession::device_step, (s, turn, observer), r) ==> r@
                == device_step_of(s@, turn@, observer.current@),
        forall|s: &mut RuntimeSession, c: &mut SharedPreviewState, turn: TurnPlan, work: DeviceWork, r: TurnEnd|
            #![trigger call_ensures(RuntimeSession::conclude, (s, c, turn, work, observer), r)]
            call_ensures(RuntimeSession::conclude, (s, c, turn, work, observer), r) ==> final(s)@
                == session_after((*s)@, turn@, work@, observer.current@) && r@ == turn_end(
                turn@,
                work@,
                observer.current@,
            ),
{
}

/// Settings that were loaded again are taken where they differ, and a session of the desktop
/// that is another one is noticed.
pub proof fn law_changes_around_a_session_are_noticed(
    loaded: Master3sSettings,
    snapshot: &SessionSnapshot,
)
    ensures
        forall|s: &mut RuntimeSession, r: bool|
            #![trigger call_ensures(RuntimeSession::reload_base_settings, (s, loaded), r)]
            call_ensures(RuntimeSession::reload_base_settings, (s, loaded), r) ==> {
                &&& r <==> loaded@ != (*s)@.base
                &&& final(s)@.base == loaded@
                &&& r ==> final(s)@.lease.state.base == settings::normal_settings(loaded@)
                &&& final(s)@.lease.state.owned == (*s)@.lease.state.owned
            },
        forall|s: &mut RuntimeSession, r: bool|
            #![trigger call_ensures(RuntimeSession::synchronize_session, (s, snapshot), r)]
            call_ensures(RuntimeSession::synchronize_session, (s, snapshot), r) ==> {
                &&& r <==> (*s)@.session_generation != snapshot@.generation
                &&& final(s)@.session_generation == snapshot@.generation
            },
        forall|s: &RuntimeSession, r: LeaseStep|
            #![trigger call_ensures(RuntimeSession::pause_step, (s, snapshot), r)]
            call_ensures(RuntimeSession::pause_step, (s, snapshot), r) ==> {
                &&& snapshot@.mode is LocalActive ==> r@ is Nothing
                &&& !(snapshot@.mode is LocalActive) ==> r@ == lease::release_step(s@.lease)
            },
        forall|s: &RuntimeSession, c: &mut SharedPreviewState, r: ()|
            #![trigger call_ensures(RuntimeSession::report_pause, (s, c, snapshot), r)]
            call_ensures(RuntimeSession::report_pause, (s, c, snapshot), r) ==> {
                &&& snapshot@.mode is LocalActive ==> final(c)@ == (*c)@
                &&& !(snapshot@.mode is LocalActive) ==> final(c)@.health.readiness is Paused
            },
{
}

/// What is in effect is remembered, and needs no change exactly where all of it is the same.
pub proof fn law_effects_are_remembered(
    profile: Option<String>,
    s: &Master3sSettings,
    preview: bool,
)
    ensures
        forall|e: &mut RuntimeEffectiveState, r: ()|
            #![trigger call_ensures(RuntimeEffectiveState::update, (e, profile, s, preview), r)]
            call_ensures(RuntimeEffectiveState::update, (e, profile, s, preview), r) ==> final(
                e
            )@.profile_name == text::optional(profile) && final(e)@.settings == Some(s@) && final(
                e
            )@.preview_active == preview,
        forall|e: &RuntimeEffectiveState, r: bool|
            #![trigger call_ensures(RuntimeEffectiveState::needs_update, (e, &profile, s, preview), r)]
            call_ensures(RuntimeEffectiveState::needs_update, (e, &profile, s, preview), r) ==> (!r
                <==> e@.profile_name == text::optional(profile) && e@.settings == Some(s@)
                && e@.preview_active == preview),
        forall|e: &RuntimeEffectiveState, r: bool|
            #![trigger call_ensures(RuntimeEffectiveState::settings_changed, (e, s), r)]
            call_ensures(RuntimeEffectiveState::settings_changed, (e, s), r) ==> (!r
                <==> e@.settings == Some(s@)),
{
}

/// Actions are carried out where they are wanted; what carries them out is opened for the first
/// that needs it, while the session of the desktop is the one that they came from.
pub proof fn law_actions_are_carried_out(
    execute: bool,
    open: bool,
    actions: &Vec<ResolvedRuntimeAction>,
    observer: &SessionObserver,
    generation: u64,
    i: int,
)
    ensures
        forall|r: ExecutionStep|
            #![trigger call_ensures(execution_step, (execute, open, actions, observer, generation), r)]
            call_ensures(execution_step, (execute, open, actions, observer, generation), r) ==> {
                let needed = exists|k: int|
                    0 <= k < actions@.len() && is_executable((#[trigger] actions@[k])@.command);
                let permitted = session::actions_permitted(observer.current@, generation);
                &&& !execute ==> r is Nothing
                &&& execute && open ==> r is UseExecutor
                &&& execute && !open && needed && permitted ==> r is OpenExecutor
                &&& execute && !open && needed && !permitted ==> r is Nothing
                &&& execute && !open && !needed ==> r is WithoutExecutor
            },
        forall|action: &ResolvedRuntimeAction, r: bool|
            #![trigger call_ensures(action_is_executable, (action,), r)]
            call_ensures(action_is_executable, (action,), r) ==> (!r <==> action@.command is Noop
                || action@.command is Unsupported),
{
}

}
