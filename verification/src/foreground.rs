//! The runtime as it is run from a terminal: the same loop as that of the
//! supervised one, without a view of the desktop sessions, and more careful with
//! the device: only a change of the profile or of the preview is written to it.
//!
//! A turn goes through [`ForegroundSession::reload_base_settings`],
//! [`ForegroundSession::observe`], [`ForegroundSession::device_step`] and
//! [`ForegroundSession::conclude`]; then events are waited for and counted.

use crate::control::{CompletionView, HorizontalScrollPreview, PreviewCompletion, SharedPreviewState};
use crate::control;
use crate::error::DogiError;
use crate::lease;
use crate::plan::{HidppFeature, SettingsApplyPlan, SettingsApplyReport, SettingsApplyStatus};
use crate::plan;
use crate::runtime_plan::{LocalRuntimePlan, ThumbWheelRuntimeAction};
use crate::runtime_plan;
use crate::settings::Master3sSettings;
use crate::settings;
use crate::supervisor::{PreviewWish, RuntimeEffectiveState, RuntimeSupervisorOptions};
use crate::supervisor;
use crate::text;
use vstd::prelude::*;

verus! {

/// The time between two attempts to reach a device, in milliseconds.
pub const RECONNECT_INTERVAL_MS: u64 = 3_000;

/// The plan for a change that was observed. Of a device of which nothing is known
/// nothing is changed, except that the routing of the thumb wheel is written where
/// that is asked for.
pub open spec fn transition_plan(
    device_id: Seq<char>,
    baseline: Option<settings::SettingsView>,
    target: settings::SettingsView,
    force_thumb_wheel: bool,
) -> plan::PlanView {
    lease::reconcile_plan(
        device_id,
        Some(
            match baseline {
                Some(base) => base,
                None => target,
            },
        ),
        target,
        force_thumb_wheel,
    )
}

/// The plan for a change that was observed.
pub fn plan_transition(
    device_id: &str,
    baseline: Option<&Master3sSettings>,
    target: &Master3sSettings,
    force_thumb_wheel: bool,
) -> (r: SettingsApplyPlan)
    ensures
        r@ == transition_plan(
            device_id@,
            match baseline {
                Some(b) => Some(b@),
                None => None,
            },
            target@,
            force_thumb_wheel,
        ),
{
    let base: &Master3sSettings = match baseline {
        Some(base) => base,
        None => target,
    };
    lease::runtime_device_apply_plan(device_id, Some(base), target, force_thumb_wheel)
}

/// The start of a session writes nothing to the device.
pub proof fn law_startup_writes_nothing(device_id: Seq<char>, target: settings::SettingsView)
    ensures
        transition_plan(device_id, None, target, false).steps.len() == 0,
{
    plan::lemma_no_change_no_steps(target, plan::step_count());
}

/// A session that begins during a preview writes the routing of the thumb wheel
/// and nothing else.
pub proof fn law_reconnect_writes_only_the_thumb_wheel(
    device_id: Seq<char>,
    target: settings::SettingsView,
)
    ensures
        transition_plan(device_id, None, target, true).steps == seq![
            plan::thumb_wheel_step(target),
        ],
{
    plan::lemma_no_change_no_steps(target, plan::step_count());
    assert(!lease::routes_thumb_wheel(Seq::<plan::SettingsApplyStep>::empty()));
    assert(transition_plan(device_id, None, target, true).steps =~= seq![
        plan::thumb_wheel_step(target),
    ]);
}

/// Where the profile and the settings stay, the start and the end of a preview
/// write the routing of the thumb wheel in any case.
pub proof fn law_preview_transition_routes_the_thumb_wheel(
    device_id: Seq<char>,
    baseline: Option<settings::SettingsView>,
    target: settings::SettingsView,
)
    ensures
        lease::routes_thumb_wheel(transition_plan(device_id, baseline, target, true).steps),
{
    let base = match baseline {
        Some(base) => base,
        None => target,
    };
    let steps = plan::difference_plan(device_id, base, target).steps;
    if !lease::routes_thumb_wheel(steps) {
        let all = steps.push(plan::thumb_wheel_step(target));
        assert(all[steps.len() as int].feature == HidppFeature::ThumbWheel);
    }
}

/// Whether an outcome says that the thumb wheel could not be routed.
pub open spec fn thumb_wheel_failed(outcome: plan::OutcomeView) -> bool {
    outcome.feature == HidppFeature::ThumbWheel && (outcome.status == SettingsApplyStatus::Failed
        || outcome.status == SettingsApplyStatus::Unsupported)
}

/// What the first of the outcomes from `i` on says that could not route the thumb
/// wheel.
pub open spec fn thumb_wheel_failure_from(outcomes: Seq<plan::OutcomeView>, i: int) -> Option<
    Seq<char>,
>
    decreases outcomes.len() - i,
{
    if i < 0 || i >= outcomes.len() {
        None
    } else if thumb_wheel_failed(outcomes[i]) {
        Some(
            match outcomes[i].detail {
                Some(detail) => detail,
                None => outcomes[i].title,
            },
        )
    } else {
        thumb_wheel_failure_from(outcomes, i + 1)
    }
}

/// Why a report means that the preview could not be shown.
pub fn preview_thumb_wheel_failure(report: &SettingsApplyReport) -> (r: Option<String>)
    ensures
        text::optional(r) == thumb_wheel_failure_from(report@.outcomes, 0),
{
    let mut i: usize = 0;
    while i < report.outcomes.len()
        invariant
            i <= report.outcomes@.len(),
            thumb_wheel_failure_from(report@.outcomes, 0) == thumb_wheel_failure_from(
                report@.outcomes,
                i as int,
            ),
        decreases report.outcomes@.len() - i,
    {
        let outcome = &report.outcomes[i];
        assert(report@.outcomes[i as int] == outcome@);
        if outcome.feature == HidppFeature::ThumbWheel && (outcome.status
            == SettingsApplyStatus::Failed || outcome.status == SettingsApplyStatus::Unsupported) {
            return Some(
                match &outcome.detail {
                    Some(detail) => detail.clone(),
                    None => outcome.title.clone(),
                },
            );
        }
        i += 1;
    }
    None
}

/// How many of the first `n` outcomes failed, whether at first or on the way back.
pub open spec fn failed_outcomes(outcomes: Seq<plan::OutcomeView>, n: nat) -> nat
    decreases n,
{
    if n == 0 || n > outcomes.len() {
        0
    } else {
        let status = outcomes[n - 1].status;
        failed_outcomes(outcomes, (n - 1) as nat) + if status == SettingsApplyStatus::Failed
            || status == SettingsApplyStatus::RollbackFailed {
            1nat
        } else {
            0nat
        }
    }
}

/// How many steps failed.
pub fn count_failed_apply_steps(report: &SettingsApplyReport) -> (r: usize)
    ensures
        r == failed_outcomes(report@.outcomes, report@.outcomes.len()),
{
    let mut count: usize = 0;
    let mut i: usize = 0;
    while i < report.outcomes.len()
        invariant
            i <= report.outcomes@.len(),
            count <= i,
            count == failed_outcomes(report@.outcomes, i as nat),
        decreases report.outcomes@.len() - i,
    {
        assert(report@.outcomes[i as int] == report.outcomes@[i as int]@);
        let status = report.outcomes[i].status;
        if status == SettingsApplyStatus::Failed || status == SettingsApplyStatus::RollbackFailed {
            count += 1;
        }
        i += 1;
    }
    count
}

/// The session of one device.
#[derive(Debug)]
pub struct ForegroundSession {
    pub device_id: String,
    pub device_named: bool,
    pub max_events: Option<u64>,
    pub execute_actions: bool,
    pub allow_device_write: bool,
    pub base_settings: Master3sSettings,
    pub effective: RuntimeEffectiveState,
    pub preview_error: Option<(u64, String)>,
    pub settings_warned: bool,
    pub focus_warned: bool,
    pub processed_events: u64,
}

/// The mathematical value of [`ForegroundSession`].
#[verifier::ext_equal]
pub struct ForegroundView {
    pub device_id: Seq<char>,
    pub device_named: bool,
    pub max_events: Option<u64>,
    pub execute_actions: bool,
    pub writes_enabled: bool,
    pub base: settings::SettingsView,
    pub effective: supervisor::EffectiveView,
    pub preview_error: Option<(u64, Seq<char>)>,
    pub settings_warned: bool,
    pub focus_warned: bool,
    pub processed_events: u64,
}

impl View for ForegroundSession {
    type V = ForegroundView;

    open spec fn view(&self) -> ForegroundView {
        ForegroundView {
            device_id: self.device_id@,
            device_named: self.device_named,
            max_events: self.max_events,
            execute_actions: self.execute_actions,
            writes_enabled: self.allow_device_write,
            base: self.base_settings@,
            effective: self.effective@,
            preview_error: match self.preview_error {
                Some((generation, detail)) => Some((generation, detail@)),
                None => None,
            },
            settings_warned: self.settings_warned,
            focus_warned: self.focus_warned,
            processed_events: self.processed_events,
        }
    }
}

/// What a turn sets out to do.
#[derive(Debug)]
pub struct ForegroundTurn {
    pub target: Master3sSettings,
    pub effective: Master3sSettings,
    pub profile_name: Option<String>,
    pub active_preview: Option<HorizontalScrollPreview>,
    pub preview_wanted: bool,
    pub generation: u64,
    pub profile_changed: bool,
    pub preview_transition: bool,
    /// What would have to be written to the device.
    pub plan: Option<SettingsApplyPlan>,
}

/// The mathematical value of [`ForegroundTurn`].
#[verifier::ext_equal]
pub struct ForegroundTurnView {
    pub target: settings::SettingsView,
    pub effective: settings::SettingsView,
    pub profile_name: Option<Seq<char>>,
    pub active_preview: Option<control::PreviewView>,
    pub preview_wanted: bool,
    pub generation: u64,
    pub profile_changed: bool,
    pub preview_transition: bool,
    pub plan: Option<plan::PlanView>,
}

/// The value of an optional plan.
pub open spec fn optional_plan(p: Option<SettingsApplyPlan>) -> Option<plan::PlanView> {
    match p {
        Some(p) => Some(p@),
        None => None,
    }
}

impl View for ForegroundTurn {
    type V = ForegroundTurnView;

    open spec fn view(&self) -> ForegroundTurnView {
        ForegroundTurnView {
            target: self.target@,
            effective: self.effective@,
            profile_name: text::optional(self.profile_name),
            active_preview: control::optional_preview(self.active_preview),
            preview_wanted: self.preview_wanted,
            generation: self.generation,
            profile_changed: self.profile_changed,
            preview_transition: self.preview_transition,
            plan: optional_plan(self.plan),
        }
    }
}

/// Whether the session has to make way for one of another device: one is wanted,
/// and none was named.
pub open spec fn makes_way(s: ForegroundView, wanted: Option<control::PreviewView>) -> bool {
    wanted is Some && supervisor::preview_for(wanted, s.device_id) is None && !s.device_named
}

/// The session without a failure that belongs to an earlier wish.
pub open spec fn failure_pruned(s: ForegroundView, generation: u64) -> ForegroundView {
    if s.preview_error matches Some(e) && e.0 != generation {
        ForegroundView { preview_error: None, ..s }
    } else {
        s
    }
}

/// The control interface once a wish for another device was answered.
pub open spec fn refusal_published(s: ForegroundView, c: control::StateView) -> control::StateView {
    match control::wanted(c) {
        Some(preview) => if preview.device_id != s.device_id && s.device_named {
            control::after_publish(
                c,
                c.generation,
                CompletionView::Failed(
                    supervisor::wrong_device_text(preview.device_id, s.device_id),
                ),
            )
        } else {
            c
        },
        None => c,
    }
}

/// The wish for a preview.
pub open spec fn wish_of(s: ForegroundView, c: control::StateView) -> supervisor::WishView {
    supervisor::WishView {
        active: supervisor::preview_for(control::wanted(c), s.device_id),
        wanted: control::wanted(c) is Some,
        generation: c.generation,
    }
}

/// What a turn sets out to do.
pub open spec fn planned_turn(
    s: ForegroundView,
    effective: settings::SettingsView,
    profile_name: Option<Seq<char>>,
    wish: supervisor::WishView,
) -> ForegroundTurnView {
    let target = lease::target_settings(effective, wish.active is Some);
    let profile_changed = s.effective.profile_name != profile_name;
    let preview_transition = s.effective.preview_active != wish.active is Some;
    ForegroundTurnView {
        target,
        effective,
        profile_name,
        active_preview: wish.active,
        preview_wanted: wish.wanted,
        generation: wish.generation,
        profile_changed,
        preview_transition,
        plan: if profile_changed || preview_transition {
            Some(
                transition_plan(s.device_id, s.effective.settings, target, preview_transition),
            )
        } else {
            None
        },
    }
}

/// What has to be done to the device in a turn.
#[derive(Clone, Copy, Debug, PartialEq, Eq, Structural)]
pub enum ForegroundStep {
    /// Nothing.
    Idle,
    /// Something would have to be written, but nothing may be.
    Skipped,
    /// The plan has to be carried out.
    Write,
}

/// What has to be done to the device in a turn.
pub open spec fn step_of(s: ForegroundView, turn: ForegroundTurnView) -> ForegroundStep {
    match turn.plan {
        None => ForegroundStep::Idle,
        Some(p) => if p.steps.len() == 0 {
            ForegroundStep::Idle
        } else if s.writes_enabled {
            ForegroundStep::Write
        } else {
            ForegroundStep::Skipped
        },
    }
}

/// How the work on the device went.
#[derive(Debug)]
pub enum ForegroundWork {
    Idle,
    Skipped,
    Written(SettingsApplyReport),
}

/// The mathematical value of [`ForegroundWork`].
#[verifier::ext_equal]
pub enum ForegroundWorkView {
    Idle,
    Skipped,
    Written(plan::ReportView),
}

impl View for ForegroundWork {
    type V = ForegroundWorkView;

    open spec fn view(&self) -> ForegroundWorkView {
        match self {
            ForegroundWork::Idle => ForegroundWorkView::Idle,
            ForegroundWork::Skipped => ForegroundWorkView::Skipped,
            ForegroundWork::Written(report) => ForegroundWorkView::Written(report@),
        }
    }
}

/// What is said of the preview when the work on the device failed.
pub open spec fn preview_failure(
    turn: ForegroundTurnView,
    work: ForegroundWorkView,
) -> Option<Seq<char>> {
    if turn.active_preview is Some || turn.preview_transition {
        match work {
            ForegroundWorkView::Idle => None,
            ForegroundWorkView::Skipped => Some(
                "horizontal scroll preview needs device-write access"@,
            ),
            ForegroundWorkView::Written(report) => thumb_wheel_failure_from(report.outcomes, 0),
        }
    } else {
        None
    }
}

/// The session after a turn.
pub open spec fn session_after(
    s: ForegroundView,
    turn: ForegroundTurnView,
    work: ForegroundWorkView,
) -> ForegroundView {
    ForegroundView {
        preview_error: match preview_failure(turn, work) {
            Some(detail) => Some((turn.generation, detail)),
            None => s.preview_error,
        },
        effective: supervisor::EffectiveView {
            profile_name: turn.profile_name,
            settings: Some(turn.target),
            preview_active: turn.active_preview is Some,
        },
        ..s
    }
}

/// The control interface after a turn.
pub open spec fn control_after(
    s: ForegroundView,
    c: control::StateView,
    turn: ForegroundTurnView,
    work: ForegroundWorkView,
) -> control::StateView {
    match preview_failure(turn, work) {
        Some(detail) => control::after_publish(
            c,
            turn.generation,
            CompletionView::Failed(detail),
        ),
        None => if !turn.preview_wanted || turn.active_preview is Some {
            control::after_publish(
                c,
                turn.generation,
                match s.preview_error {
                    Some(e) => CompletionView::Failed(e.1),
                    None => CompletionView::Applied,
                },
            )
        } else {
            c
        },
    }
}

/// The runtime plan of a turn.
pub open spec fn turn_runtime_plan(turn: ForegroundTurnView) -> runtime_plan::RuntimePlanView {
    let base = runtime_plan::runtime_plan_of(settings::normal_settings(turn.effective));
    match turn.active_preview {
        Some(preview) => runtime_plan::RuntimePlanView {
            thumb_wheel: Some(
                ThumbWheelRuntimeAction::HorizontalScroll { speed_percent: preview.speed_percent },
            ),
            ..base
        },
        None => base,
    }
}

/// What reading the saved settings came to.
#[derive(Clone, Copy, Debug, PartialEq, Eq, Structural)]
pub enum Reload {
    Unchanged,
    Changed,
    /// They could not be read, and the user is told so.
    Warn,
    /// They could not be read, and the user was told so before.
    Silent,
}

impl ForegroundSession {
    /// Begins a session.
    pub fn new(
        options: &RuntimeSupervisorOptions,
        device_id: &str,
        base_settings: Master3sSettings,
    ) -> (r: Self)
        ensures
            r@ == (ForegroundView {
                device_id: device_id@,
                device_named: options.device_id is Some,
                max_events: options.max_events,
                execute_actions: options.execute_actions,
                writes_enabled: options.allow_device_write,
                base: base_settings@,
                effective: supervisor::EffectiveView {
                    profile_name: None,
                    settings: None,
                    preview_active: false,
                },
                preview_error: None,
                settings_warned: false,
                focus_warned: false,
                processed_events: 0,
            }),
    {
        ForegroundSession {
            device_id: device_id.to_owned(),
            device_named: options.device_id.is_some(),
            max_events: options.max_events,
            execute_actions: options.execute_actions,
            allow_device_write: options.allow_device_write,
            base_settings,
            effective: RuntimeEffectiveState::default(),
            preview_error: None,
            settings_warned: false,
            focus_warned: false,
            processed_events: 0,
        }
    }

    /// Whether no event is waited for at all.
    pub fn ends_at_once(&self) -> (r: bool)
        ensures
            r == (self@.max_events == Some(0u64)),
    {
        match self.max_events {
            Some(n) => n == 0,
            None => false,
        }
    }

    /// Takes in the saved settings; where they could not be read, those before
    /// stay, and the user is told once.
    pub fn reload_base_settings(&mut self, loaded: Result<Master3sSettings, DogiError>) -> (r:
        Reload)
        ensures
            match loaded {
                Ok(s) => {
                    &&& r == (if s@ == old(self)@.base {
                        Reload::Unchanged
                    } else {
                        Reload::Changed
                    })
                    &&& final(self)@ == (ForegroundView {
                        base: s@,
                        settings_warned: false,
                        ..old(self)@
                    })
                },
                Err(_) => {
                    &&& r == (if old(self)@.settings_warned {
                        Reload::Silent
                    } else {
                        Reload::Warn
                    })
                    &&& final(self)@ == (ForegroundView { settings_warned: true, ..old(self)@ })
                },
            },
    {
        match loaded {
            Ok(s) => {
                self.settings_warned = false;
                if settings::same_settings(&s, &self.base_settings) {
                    return Reload::Unchanged;
                }
                self.base_settings = s;
                Reload::Changed
            },
            Err(_) => {
                if self.settings_warned {
                    return Reload::Silent;
                }
                self.settings_warned = true;
                Reload::Warn
            },
        }
    }

    /// The active application could not be found out. The answer is whether the
    /// user is told.
    pub fn miss_focus(&mut self) -> (r: bool)
        ensures
            r == !old(self)@.focus_warned,
            final(self)@ == (ForegroundView { focus_warned: true, ..old(self)@ }),
    {
        let first = !self.focus_warned;
        self.focus_warned = true;
        first
    }

    /// Sets out what a turn does. There is none where the session makes way for
    /// one of another device.
    pub fn observe(
        &mut self,
        control: &mut SharedPreviewState,
        effective: &Master3sSettings,
        profile_name: Option<String>,
        now: u64,
    ) -> (r: Option<ForegroundTurn>)
        ensures
            ({
                let c = control::after_expiry(old(control)@, now);
                &&& final(self)@ == failure_pruned(old(self)@, c.generation)
                &&& r is None <==> makes_way(old(self)@, control::wanted(c))
                &&& r matches Some(turn) ==> turn@ == planned_turn(
                    old(self)@,
                    effective@,
                    text::optional(profile_name),
                    wish_of(old(self)@, c),
                )
                &&& final(control)@ == refusal_published(old(self)@, c)
            }),
    {
        let wish = self.consider_wish(control, now)?;
        Some(self.plan_turn(effective, profile_name, wish))
    }

    fn consider_wish(&mut self, control: &mut SharedPreviewState, now: u64) -> (r: Option<
        PreviewWish,
    >)
        ensures
            ({
                let c = control::after_expiry(old(control)@, now);
                &&& r is None <==> makes_way(old(self)@, control::wanted(c))
                &&& r matches Some(wish) ==> wish@ == wish_of(old(self)@, c)
                &&& final(self)@ == failure_pruned(old(self)@, c.generation)
                &&& final(control)@ == refusal_published(old(self)@, c)
            }),
    {
        let wish = control.snapshot(now);
        let generation = wish.generation;
        let outdated = match &self.preview_error {
            Some((at, _)) => *at != generation,
            None => false,
        };
        if outdated {
            self.preview_error = None;
        }
        let wanted = wish.preview.is_some();
        let mut active: Option<HorizontalScrollPreview> = None;
        if let Some(preview) = wish.preview {
            if preview.device_id == self.device_id {
                active = Some(preview);
            } else {
                if !self.device_named {
                    return None;
                }
                let mut detail = text::concat3(
                    "preview device ",
                    preview.device_id.as_str(),
                    " is not the active runtime device ",
                );
                detail.append(self.device_id.as_str());
                control.publish(generation, PreviewCompletion::Failed(detail));
            }
        }
        Some(PreviewWish { active, wanted, generation })
    }

    fn plan_turn(
        &self,
        effective: &Master3sSettings,
        profile_name: Option<String>,
        wish: PreviewWish,
    ) -> (r: ForegroundTurn)
        ensures
            r@ == planned_turn(self@, effective@, text::optional(profile_name), wish@),
    {
        let target = lease::runtime_device_settings(effective, wish.active.as_ref());
        let profile_changed = !text::same_optional(&self.effective.profile_name, &profile_name);
        let preview_transition = self.effective.preview_active != wish.active.is_some();
        let plan = if profile_changed || preview_transition {
            Some(
                plan_transition(
                    self.device_id.as_str(),
                    self.effective.settings.as_ref(),
                    &target,
                    preview_transition,
                ),
            )
        } else {
            None
        };
        ForegroundTurn {
            target,
            effective: effective.clone(),
            profile_name,
            active_preview: wish.active,
            preview_wanted: wish.wanted,
            generation: wish.generation,
            profile_changed,
            preview_transition,
            plan,
        }
    }

    /// What has to be done to the device in a turn.
    pub fn device_step(&self, turn: &ForegroundTurn) -> (r: ForegroundStep)
        ensures
            r == step_of(self@, turn@),
    {
        match &turn.plan {
            None => ForegroundStep::Idle,
            Some(p) => if p.steps.len() == 0 {
                ForegroundStep::Idle
            } else if self.allow_device_write {
                ForegroundStep::Write
            } else {
                ForegroundStep::Skipped
            },
        }
    }

    /// Ends a turn, from how the work on the device went. The answer is the plan
    /// by which events are resolved.
    pub fn conclude(
        &mut self,
        control: &mut SharedPreviewState,
        turn: ForegroundTurn,
        work: ForegroundWork,
    ) -> (r: LocalRuntimePlan)
        ensures
            final(self)@ == session_after(old(self)@, turn@, work@),
            final(control)@ == control_after(old(self)@, old(control)@, turn@, work@),
            r@ == turn_runtime_plan(turn@),
    {
        let failure = failure_of(&turn, &work);
        match failure {
            Some(detail) => {
                control.publish(turn.generation, PreviewCompletion::Failed(detail.clone()));
                self.preview_error = Some((turn.generation, detail));
            },
            None => {
                if !turn.preview_wanted || turn.active_preview.is_some() {
                    let completion = match &self.preview_error {
                        Some((_, detail)) => PreviewCompletion::Failed(detail.clone()),
                        None => PreviewCompletion::Applied,
                    };
                    control.publish(turn.generation, completion);
                }
            },
        }
        let preview_active = turn.active_preview.is_some();
        if self.effective.needs_update(&turn.profile_name, &turn.target, preview_active) {
            self.effective.update(
                text::copy_optional(&turn.profile_name),
                &turn.target,
                preview_active,
            );
        }
        let mut plan = runtime_plan::build_master3s_runtime_plan(&turn.effective.normalized());
        if let Some(preview) = &turn.active_preview {
            plan.thumb_wheel = Some(
                ThumbWheelRuntimeAction::HorizontalScroll { speed_percent: preview.speed_percent },
            );
        }
        plan
    }

    /// Counts an event. The answer is whether the session is complete.
    pub fn record_event(&mut self) -> (r: bool)
        ensures
            final(self)@ == (ForegroundView {
                processed_events: supervisor::counted(old(self)@.processed_events),
                ..old(self)@
            }),
            r == (final(self)@.max_events matches Some(n) && final(self)@.processed_events >= n),
    {
        self.processed_events = self.processed_events.saturating_add(1);
        match self.max_events {
            Some(n) => self.processed_events >= n,
            None => false,
        }
    }
}

/// What is said of the preview when the work on the device failed.
fn failure_of(turn: &ForegroundTurn, work: &ForegroundWork) -> (r: Option<String>)
    ensures
        text::optional(r) == preview_failure(turn@, work@),
{
    if turn.active_preview.is_some() || turn.preview_transition {
        match work {
            ForegroundWork::Idle => None,
            ForegroundWork::Skipped => Some(
                "horizontal scroll preview needs device-write access".to_owned(),
            ),
            ForegroundWork::Written(report) => preview_thumb_wheel_failure(report),
        }
    } else {
        None
    }
}

/// A turn under the same profile and the same wish as the one before writes
/// nothing, even if the settings were edited meanwhile.
pub proof fn law_only_transitions_are_written(
    s: ForegroundView,
    turn: ForegroundTurnView,
    work: ForegroundWorkView,
    effective: settings::SettingsView,
    wish: supervisor::WishView,
)
    requires
        wish.active is Some == turn.active_preview is Some,
    ensures
        step_of(
            session_after(s, turn, work),
            planned_turn(session_after(s, turn, work), effective, turn.profile_name, wish),
        ) == ForegroundStep::Idle,
{
}

/// How often the same failure came in a row.
#[derive(Debug, PartialEq, Eq)]
pub struct ReconnectLog {
    pub previous_error: String,
    pub repeated_failures: u32,
}

/// What the user is told of a failure.
#[derive(Clone, Copy, Debug, PartialEq, Eq, Structural)]
pub enum ReconnectNotice {
    Nothing,
    Waiting,
    StillWaiting { attempts: u32 },
}

/// How often a failure came in a row, with this time.
pub open spec fn failures_in_row(previous: Seq<char>, repeated: u32, detail: Seq<char>) -> u32 {
    if detail == previous {
        if repeated == u32::MAX {
            repeated
        } else {
            (repeated + 1) as u32
        }
    } else {
        1
    }
}

impl ReconnectLog {
    /// Nothing failed yet.
    pub fn new() -> (r: Self)
        ensures
            r.previous_error@ == Seq::<char>::empty(),
            r.repeated_failures == 0,
    {
        ReconnectLog { previous_error: String::new(), repeated_failures: 0 }
    }

    /// Takes in a failure. The user is told of a new one at once, and of one that
    /// comes again each twentieth time.
    pub fn record(&mut self, detail: &str) -> (r: ReconnectNotice)
        ensures
            final(self).previous_error@ == detail@,
            final(self).repeated_failures == failures_in_row(
                old(self).previous_error@,
                old(self).repeated_failures,
                detail@,
            ),
            r == (if detail@ != old(self).previous_error@ {
                ReconnectNotice::Waiting
            } else if final(self).repeated_failures % 20 == 0 {
                ReconnectNotice::StillWaiting { attempts: final(self).repeated_failures }
            } else {
                ReconnectNotice::Nothing
            }),
    {
        if text::same_text(detail, self.previous_error.as_str()) {
            self.repeated_failures = self.repeated_failures.saturating_add(1);
            if self.repeated_failures % 20 == 0 {
                return ReconnectNotice::StillWaiting { attempts: self.repeated_failures };
            }
            return ReconnectNotice::Nothing;
        }
        self.previous_error = detail.to_owned();
        self.repeated_failures = 1;
        ReconnectNotice::Waiting
    }
}

/// The settings of the application that comes to the front reach the mouse: where the
/// device holds some settings and the profile changes, a turn asks for what differs to be
/// written, as the application wants it; and once it was written, the profile is in effect.
pub proof fn law_changed_profile_reaches_the_mouse(
    s: ForegroundView,
    c: control::StateView,
    effective: settings::SettingsView,
    profile_name: Option<Seq<char>>,
    held: settings::SettingsView,
    work: ForegroundWorkView,
)
    requires
        control::wanted(c) is None,
        s.effective.settings == Some(held),
        s.effective.profile_name != profile_name,
        s.writes_enabled,
        50 <= effective.pointer_speed_percent <= 200,
        25 <= effective.thumb_wheel_speed_percent <= 400,
    ensures
        ({
            let turn = planned_turn(s, effective, profile_name, wish_of(s, c));
            let steps = turn.plan->0.steps;
            let after = session_after(s, turn, work);
            &&& turn.profile_changed && turn.plan is Some
            &&& turn.plan->0.device_id == s.device_id
            &&& held.pointer_speed_percent != effective.pointer_speed_percent ==> step_of(s, turn)
                == ForegroundStep::Write && plan::sets_pointer(
                steps,
                effective.pointer_speed_percent,
            )
            &&& held.natural_scroll != effective.natural_scroll || held.high_resolution_scroll
                != effective.high_resolution_scroll ==> step_of(s, turn) == ForegroundStep::Write
                && plan::sets_scrolling(
                steps,
                effective.high_resolution_scroll,
                effective.natural_scroll,
            )
            &&& held.thumb_wheel != effective.thumb_wheel || held.thumb_wheel_speed_percent
                != effective.thumb_wheel_speed_percent ==> step_of(s, turn)
                == ForegroundStep::Write && plan::sets_thumb_wheel(
                steps,
                effective.thumb_wheel,
                effective.thumb_wheel_speed_percent,
            )
            &&& after.effective.profile_name == profile_name
            &&& after.effective.settings == Some(settings::normal_settings(effective))
        }),
{
    settings::law_normal_form_keeps_what_a_mouse_takes(
        effective,
        settings::Master3sButton::Back,
        0,
    );
    let target = settings::normal_settings(effective);
    let turn = planned_turn(s, effective, profile_name, wish_of(s, c));
    plan::law_difference_plan_sets_what_differs(
        s.device_id,
        held,
        target,
        settings::Master3sButton::Back,
    );
    let base = plan::difference_plan(s.device_id, held, target);
    assert forall|x: plan::SettingsApplyStep| base.steps.contains(x) implies (
    #[trigger] turn.plan->0.steps.contains(x)) by {
        assert(turn.plan->0.steps[base.steps.index_of(x)] == x);
    }
}

/// A preview that is wanted of this device routes the thumb wheel to the runtime and is
/// shown at its speed; once the mouse went along it is answered with success.
pub proof fn law_foreground_shows_wanted_previews(
    s: ForegroundView,
    c: control::StateView,
    effective: settings::SettingsView,
    profile_name: Option<Seq<char>>,
    p: control::PreviewView,
    report: plan::ReportView,
)
    requires
        control::wanted(c) == Some(p),
        p.device_id == s.device_id,
        !s.effective.preview_active,
        s.writes_enabled,
        s.preview_error is None,
        report.outcomes.len() == 0 || forall|i: int|
            0 <= i < report.outcomes.len() ==> (#[trigger] report.outcomes[i]).status
                == SettingsApplyStatus::Applied,
    ensures
        ({
            let turn = planned_turn(s, effective, profile_name, wish_of(s, c));
            let after = control_after(s, c, turn, ForegroundWorkView::Written(report));
            &&& !makes_way(s, Some(p))
            &&& step_of(s, turn) == ForegroundStep::Write
            &&& lease::routes_thumb_wheel(turn.plan->0.steps)
            &&& turn_runtime_plan(turn).thumb_wheel == Some(
                ThumbWheelRuntimeAction::HorizontalScroll { speed_percent: p.speed_percent },
            )
            &&& after.completed_generation == c.generation
            &&& after.completion == Some(CompletionView::Applied)
        }),
{
    let turn = planned_turn(s, effective, profile_name, wish_of(s, c));
    law_preview_transition_routes_the_thumb_wheel(s.device_id, s.effective.settings, turn.target);
    lemma_no_thumb_wheel_failure(report.outcomes, 0);
}

proof fn lemma_no_thumb_wheel_failure(outcomes: Seq<plan::OutcomeView>, i: int)
    requires
        0 <= i,
        forall|k: int|
            0 <= k < outcomes.len() ==> (#[trigger] outcomes[k]).status
                == SettingsApplyStatus::Applied,
    ensures
        thumb_wheel_failure_from(outcomes, i) is None,
    decreases outcomes.len() - i,
{
    if i < outcomes.len() {
        assert(outcomes[i].status == SettingsApplyStatus::Applied);
        lemma_no_thumb_wheel_failure(outcomes, i + 1);
    }
}

/// The first failure to route the thumb wheel is what is said of a preview.
pub proof fn law_failed_routing_is_told(outcomes: Seq<plan::OutcomeView>, i: int)
    requires
        0 <= i < outcomes.len(),
        outcomes[i].feature == HidppFeature::ThumbWheel,
        outcomes[i].status == SettingsApplyStatus::Failed || outcomes[i].status
            == SettingsApplyStatus::Unsupported,
        forall|k: int|
            0 <= k < i ==> (#[trigger] outcomes[k]).feature != HidppFeature::ThumbWheel,
    ensures
        thumb_wheel_failure_from(outcomes, 0) == Some(
            match outcomes[i].detail {
                Some(detail) => detail,
                None => outcomes[i].title,
            },
        ),
{
    lemma_first_routing_failure(outcomes, 0, i);
}

proof fn lemma_first_routing_failure(outcomes: Seq<plan::OutcomeView>, from: int, i: int)
    requires
        0 <= from <= i < outcomes.len(),
        forall|k: int|
            0 <= k < i ==> (#[trigger] outcomes[k]).feature != HidppFeature::ThumbWheel,
    ensures
        thumb_wheel_failure_from(outcomes, from) == thumb_wheel_failure_from(outcomes, i),
    decreases i - from,
{
    if from < i {
        assert(outcomes[from].feature != HidppFeature::ThumbWheel);
        lemma_first_routing_failure(outcomes, from + 1, i);
    }
}

/// Steps that failed, or could not be taken back, are counted.
pub proof fn law_failed_steps_are_counted(outcomes: Seq<plan::OutcomeView>, o: plan::OutcomeView)
    ensures
        failed_outcomes(Seq::empty(), 0) == 0,
        failed_outcomes(outcomes.push(o), outcomes.len() + 1) == failed_outcomes(
            outcomes,
            outcomes.len(),
        ) + if o.status is Failed || o.status is RollbackFailed {
            1nat
        } else {
            0nat
        },
{
    lemma_failed_is_local(outcomes, outcomes.push(o), outcomes.len());
}

proof fn lemma_failed_is_local(a: Seq<plan::OutcomeView>, b: Seq<plan::OutcomeView>, n: nat)
    requires
        n <= a.len() && n <= b.len(),
        forall|i: int| 0 <= i < n ==> a[i] == #[trigger] b[i],
    ensures
        failed_outcomes(a, n) == failed_outcomes(b, n),
    decreases n,
{
    if n > 0 {
        lemma_failed_is_local(a, b, (n - 1) as nat);
        assert(a[n - 1] == b[n - 1]);
    }
}

/// A session begins with nothing in effect, and writes the device only where the user allowed it.
pub proof fn law_foreground_begins_with_nothing_in_effect(
    options: &RuntimeSupervisorOptions,
    device_id: &str,
    base: Master3sSettings,
)
    ensures
        forall|s: ForegroundSession|
            #![trigger call_ensures(ForegroundSession::new, (options, device_id, base), s)]
            call_ensures(ForegroundSession::new, (options, device_id, base), s) ==> {
                &&& s@.device_id == device_id@ && s@.base == base@
                &&& s@.writes_enabled == options.allow_device_write
                &&& s@.execute_actions == options.execute_actions
                &&& s@.max_events == options.max_events
                &&& s@.device_named == (options.device_id is Some)
                &&& s@.effective.settings is None && s@.effective.profile_name is None
                &&& !s@.settings_warned && !s@.focus_warned && s@.processed_events == 0
            },
        forall|s: &ForegroundSession, r: bool|
            #![trigger call_ensures(ForegroundSession::ends_at_once, (s,), r)]
            call_ensures(ForegroundSession::ends_at_once, (s,), r) ==> (r <==> s@.max_events == Some(
                0u64,
            )),
        forall|s: &mut ForegroundSession, r: bool|
            #![trigger call_ensures(ForegroundSession::record_event, (s,), r)]
            call_ensures(ForegroundSession::record_event, (s,), r) ==> {
                &&& (*s)@.processed_events < u64::MAX ==> final(s)@.processed_events == (
                *s)@.processed_events + 1
                &&& (*s)@.max_events is None ==> !r
                &&& (*s)@.max_events matches Some(n) ==> (r <==> final(s)@.processed_events >= n)
            },
{
}

/// Settings that were loaded again are taken; the user is told of ones that could not be, and
/// of a focus that could not be read, once.
pub proof fn law_foreground_warns_once(loaded: Master3sSettings, error: DogiError)
    ensures
        forall|s: &mut ForegroundSession, r: Reload|
            #![trigger call_ensures(ForegroundSession::reload_base_settings, (s, Ok(loaded)), r)]
            call_ensures(ForegroundSession::reload_base_settings, (s, Ok(loaded)), r) ==> {
                &&& loaded@ == (*s)@.base ==> r is Unchanged
                &&& loaded@ != (*s)@.base ==> r is Changed
                &&& final(s)@.base == loaded@ && !final(s)@.settings_warned
            },
        forall|s: &mut ForegroundSession, r: Reload|
            #![trigger call_ensures(ForegroundSession::reload_base_settings, (s, Err(error)), r)]
            call_ensures(ForegroundSession::reload_base_settings, (s, Err(error)), r) ==> {
                &&& !(*s)@.settings_warned ==> r is Warn
                &&& (*s)@.settings_warned ==> r is Silent
                &&& final(s)@.base == (*s)@.base && final(s)@.settings_warned
            },
        forall|s: &mut ForegroundSession, r: bool|
            #![trigger call_ensures(ForegroundSession::miss_focus, (s,), r)]
            call_ensures(ForegroundSession::miss_focus, (s,), r) ==> (r <==> !(*s)@.focus_warned)
                && final(s)@.focus_warned,
{
}

/// A device that is gone is waited for: the first failure of a kind is told, and then every
/// twentieth of the same.
pub proof fn law_reconnections_are_told_sparsely(detail: &str)
    ensures
        forall|log: &mut ReconnectLog, r: ReconnectNotice|
            #![trigger call_ensures(ReconnectLog::record, (log, detail), r)]
            call_ensures(ReconnectLog::record, (log, detail), r) ==> {
                let before = (*log).repeated_failures;
                let same = (*log).previous_error@ == detail@;
                &&& final(log).previous_error@ == detail@
                &&& !same ==> r is Waiting && final(log).repeated_failures == 1
                &&& same && before < u32::MAX ==> final(log).repeated_failures == before + 1
                &&& same && before < u32::MAX && (before + 1) % 20 == 0 ==> r
                    == (ReconnectNotice::StillWaiting { attempts: (before + 1) as u32 })
                &&& same && before < u32::MAX && (before + 1) % 20 != 0 ==> r is Nothing
            },
{
}

/// A preview of the device is taken up; one of another device makes a session give way where its
/// device was not named, and where it was, is answered with a failure that names both.
pub proof fn law_foreground_considers_previews(
    effective: &Master3sSettings,
    profile: Option<String>,
    now: u64,
)
    ensures
        forall|s: &mut ForegroundSession, c: &mut SharedPreviewState, r: Option<ForegroundTurn>|
            #![trigger call_ensures(ForegroundSession::observe, (s, c, effective, profile, now), r)]
            call_ensures(ForegroundSession::observe, (s, c, effective, profile, now), r) ==> {
                let wish = control::wanted(control::after_expiry((*c)@, now));
                let device = (*s)@.device_id;
                &&& wish is None ==> r is Some && r->0@.active_preview is None
                &&& wish matches Some(p) ==> (p.device_id == device ==> r is Some
                    && r->0@.active_preview == Some(p))
                &&& wish matches Some(p) ==> (p.device_id != device && !(*s)@.device_named ==> r
                    is None)
                &&& wish matches Some(p) ==> (p.device_id != device && (*s)@.device_named ==> r
                    is Some && r->0@.active_preview is None && final(c)@.completion == Some(
                    CompletionView::Failed(
                        "preview device "@ + p.device_id + " is not the active runtime device "@
                            + device,
                    ),
                ))
                &&& r matches Some(turn) ==> turn@.effective == effective@ && turn@.profile_name
                    == text::optional(profile)
            },
{
}

}
