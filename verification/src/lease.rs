//! The hold that the runtime has on the settings of a device: what it writes
//! while it runs, and what it gives back when it stops.

use crate::control;
use crate::error::{DogiError, ErrorKind};
use crate::plan::{HidppFeature, SettingsApplyOperation, SettingsApplyPlan, SettingsApplyReport, SettingsApplyStep};
use crate::plan;
use crate::settings::{ButtonAction, Master3sButton, Master3sSettings, ThumbWheelMode};
use crate::settings;
use vstd::prelude::*;

verus! {

/// The speed at which the thumb wheel is diverted to the runtime during a
/// preview; it differs from the speed of the mouse itself.
pub const PREVIEW_DIVERSION_SPEED_PERCENT: u16 = 101;

/// Whether two steps change the same thing: the same button, or else the same
/// feature.
pub open spec fn same_subject(a: SettingsApplyStep, b: SettingsApplyStep) -> bool {
    match (a.operation, b.operation) {
        (
            SettingsApplyOperation::ButtonMapping { button: x, action: _ },
            SettingsApplyOperation::ButtonMapping { button: y, action: _ },
        ) => x == y,
        _ => a.feature == b.feature,
    }
}

/// Whether some step changes the same thing as `step`.
pub open spec fn covered(steps: Seq<SettingsApplyStep>, step: SettingsApplyStep) -> bool {
    exists|i: int| 0 <= i < steps.len() && same_subject(#[trigger] steps[i], step)
}

/// The steps with the first `n` of `extra` added where nothing covers them yet.
pub open spec fn merged_steps(
    steps: Seq<SettingsApplyStep>,
    extra: Seq<SettingsApplyStep>,
    n: nat,
) -> Seq<SettingsApplyStep>
    decreases n,
{
    if n == 0 {
        steps
    } else {
        let before = merged_steps(steps, extra, (n - 1) as nat);
        if covered(before, extra[n - 1]) {
            before
        } else {
            before.push(extra[n - 1])
        }
    }
}

/// Whether two steps change the same thing.
fn changes_the_same(a: &SettingsApplyStep, b: &SettingsApplyStep) -> (r: bool)
    ensures
        r == same_subject(*a, *b),
{
    match (a.operation, b.operation) {
        (
            SettingsApplyOperation::ButtonMapping { button: x, action: _ },
            SettingsApplyOperation::ButtonMapping { button: y, action: _ },
        ) => x == y,
        _ => a.feature == b.feature,
    }
}

/// Whether some step changes the same thing as `step`.
fn is_covered(steps: &Vec<SettingsApplyStep>, step: &SettingsApplyStep) -> (r: bool)
    ensures
        r == covered(steps@, *step),
{
    let mut i: usize = 0;
    while i < steps.len()
        invariant
            i <= steps@.len(),
            forall|k: int| 0 <= k < i ==> !same_subject(#[trigger] steps@[k], *step),
        decreases steps@.len() - i,
    {
        if changes_the_same(&steps[i], step) {
            return true;
        }
        i += 1;
    }
    false
}

/// Adds steps to a plan where nothing covers them yet.
pub fn merge_missing_steps(target: &mut SettingsApplyPlan, steps: &Vec<SettingsApplyStep>)
    ensures
        final(target)@ == (plan::PlanView {
            steps: merged_steps(old(target)@.steps, steps@, steps@.len()),
            ..old(target)@
        }),
{
    let mut i: usize = 0;
    while i < steps.len()
        invariant
            i <= steps@.len(),
            target@ == (plan::PlanView {
                steps: merged_steps(old(target)@.steps, steps@, i as nat),
                ..old(target)@
            }),
        decreases steps@.len() - i,
    {
        let step = steps[i];
        if !is_covered(&target.steps, &step) {
            target.steps.push(step);
        }
        i += 1;
        assert(target@ =~= (plan::PlanView {
            steps: merged_steps(old(target)@.steps, steps@, i as nat),
            ..old(target)@
        }));
    }
}

/// Whether some step is for the thumb wheel.
pub open spec fn routes_thumb_wheel(steps: Seq<SettingsApplyStep>) -> bool {
    exists|i: int| 0 <= i < steps.len() && (#[trigger] steps[i]).feature == HidppFeature::ThumbWheel
}

/// The steps, with the routing of the thumb wheel added if it is not among them.
pub open spec fn with_thumb_wheel(
    steps: Seq<SettingsApplyStep>,
    target: settings::SettingsView,
) -> Seq<SettingsApplyStep> {
    if routes_thumb_wheel(steps) {
        steps
    } else {
        steps.push(plan::thumb_wheel_step(target))
    }
}

/// The plan that takes a device to the target: every step if it is not known what
/// the device holds, else the steps that change something. The routing of the
/// thumb wheel is written in any case where that is asked for.
pub open spec fn reconcile_plan(
    device_id: Seq<char>,
    baseline: Option<settings::SettingsView>,
    target: settings::SettingsView,
    force_thumb_wheel: bool,
) -> plan::PlanView {
    let base = match baseline {
        None => plan::full_plan(device_id, target),
        Some(baseline) => plan::difference_plan(device_id, baseline, target),
    };
    if force_thumb_wheel {
        plan::PlanView { steps: with_thumb_wheel(base.steps, target), ..base }
    } else {
        base
    }
}

/// The plan that takes a device to the target.
pub fn runtime_device_apply_plan(
    device_id: &str,
    baseline: Option<&Master3sSettings>,
    target: &Master3sSettings,
    force_thumb_wheel: bool,
) -> (r: SettingsApplyPlan)
    ensures
        r@ == reconcile_plan(
            device_id@,
            match baseline {
                Some(b) => Some(b@),
                None => None,
            },
            target@,
            force_thumb_wheel,
        ),
{
    let mut result = match baseline {
        None => {
            let full = plan::build_master3s_apply_plan(device_id, target);
            proof {
                lemma_all_steps_write(full@.steps, full@.steps.len());
                assert(full@.steps.take(full@.steps.len() as int) =~= full@.steps);
            }
            device_writes(full)
        },
        Some(base) => plan::build_master3s_device_diff_plan(device_id, base, target),
    };
    let ghost before = result@;
    if force_thumb_wheel {
        let full = plan::build_master3s_apply_plan(device_id, target);
        let mut forced: Vec<SettingsApplyStep> = Vec::new();
        let mut i: usize = 0;
        while i < full.steps.len()
            invariant
                full@ == plan::full_plan(device_id@, target@),
                i <= full.steps@.len(),
                forced@ == (if i <= 3 {
                    Seq::<SettingsApplyStep>::empty()
                } else {
                    seq![plan::thumb_wheel_step(target@)]
                }),
            decreases full.steps@.len() - i,
        {
            assert(full.steps@[i as int] == plan::step_at(target@, i as int));
            if full.steps[i].feature == HidppFeature::ThumbWheel {
                forced.push(full.steps[i]);
                assert(forced@ =~= seq![plan::thumb_wheel_step(target@)]);
            }
            i += 1;
        }
        merge_missing_steps(&mut result, &forced);
        proof {
            lemma_merge_thumb_wheel(before.steps, target@);
            assert(result@ =~= (plan::PlanView {
                steps: with_thumb_wheel(before.steps, target@),
                ..before
            }));
        }
    }
    result
}

proof fn lemma_merge_thumb_wheel(steps: Seq<SettingsApplyStep>, target: settings::SettingsView)
    ensures
        merged_steps(steps, seq![plan::thumb_wheel_step(target)], 1) == with_thumb_wheel(
            steps,
            target,
        ),
{
    let step = plan::thumb_wheel_step(target);
    assert(merged_steps(steps, seq![step], 0) == steps);
    assert(covered(steps, step) == routes_thumb_wheel(steps)) by {
        if covered(steps, step) {
            let i = choose|i: int| 0 <= i < steps.len() && same_subject(#[trigger] steps[i], step);
            assert(steps[i].feature == HidppFeature::ThumbWheel);
        }
        if routes_thumb_wheel(steps) {
            let i = choose|i: int|
                0 <= i < steps.len() && (#[trigger] steps[i]).feature == HidppFeature::ThumbWheel;
            assert(same_subject(steps[i], step));
        }
    }
}

/// The steps that write to the device, of the first `n`.
pub open spec fn writing_steps(steps: Seq<SettingsApplyStep>, n: nat) -> Seq<SettingsApplyStep>
    decreases n,
{
    if n == 0 {
        Seq::empty()
    } else if steps[n - 1].requires_device_write {
        writing_steps(steps, (n - 1) as nat).push(steps[n - 1])
    } else {
        writing_steps(steps, (n - 1) as nat)
    }
}

/// Where every step writes to the device, none is left out.
proof fn lemma_all_steps_write(steps: Seq<SettingsApplyStep>, n: nat)
    requires
        n <= steps.len(),
        forall|i: int| 0 <= i < n ==> (#[trigger] steps[i]).requires_device_write,
    ensures
        writing_steps(steps, n) == steps.take(n as int),
    decreases n,
{
    if n > 0 {
        lemma_all_steps_write(steps, (n - 1) as nat);
        assert(steps[n - 1].requires_device_write);
        assert(steps.take(n as int) =~= steps.take(n - 1).push(steps[n - 1]));
    }
}

/// The plan with the steps that do not write to the device left out.
fn device_writes(full: SettingsApplyPlan) -> (r: SettingsApplyPlan)
    ensures
        r@ == (plan::PlanView {
            steps: writing_steps(full@.steps, full@.steps.len()),
            ..full@
        }),
{
    let mut steps: Vec<SettingsApplyStep> = Vec::new();
    let mut i: usize = 0;
    while i < full.steps.len()
        invariant
            i <= full.steps@.len(),
            steps@ == writing_steps(full.steps@, i as nat),
        decreases full.steps@.len() - i,
    {
        let step = full.steps[i];
        if step.requires_device_write {
            steps.push(step);
        }
        i += 1;
    }
    SettingsApplyPlan { device_id: full.device_id, profile_name: full.profile_name, steps }
}

/// The bindings after every button has been given its native behaviour.
pub open spec fn native_buttons() -> Seq<settings::ButtonBinding> {
    settings::normal_buttons(Seq::empty())
}

/// The settings that a device is left with: those that the user saved, with the
/// thumb wheel and all buttons doing what the mouse does by itself.
pub open spec fn released_settings(base: settings::SettingsView) -> settings::SettingsView {
    settings::SettingsView {
        thumb_wheel: ThumbWheelMode::HorizontalScroll,
        thumb_wheel_speed_percent: settings::DEFAULT_THUMB_WHEEL_SPEED_PERCENT,
        buttons: native_buttons(),
        ..settings::normal_settings(base)
    }
}

/// A released device needs no runtime: every button and the thumb wheel do what
/// the mouse does by itself, and all else is as the user saved it.
pub proof fn law_released_device_is_native(
    base: settings::SettingsView,
    button: Master3sButton,
)
    ensures
        settings::action_for(released_settings(base).buttons, button) == ButtonAction::Native,
        crate::runtime_plan::thumb_wheel_action(released_settings(base)) is None,
        released_settings(base).pointer_speed_percent == settings::normal_settings(
            base,
        ).pointer_speed_percent,
        plan::wheel_step(released_settings(base)) == plan::wheel_step(
            settings::normal_settings(base),
        ),
        plan::scroll_step(released_settings(base)) == plan::scroll_step(
            settings::normal_settings(base),
        ),
{
    settings::lemma_normal_buttons_action(Seq::empty(), button);
}

/// The settings that a device is left with.
pub fn released_device_settings(base: &Master3sSettings) -> (r: Master3sSettings)
    ensures
        r@ == released_settings(base@),
{
    let mut s = base.normalized();
    s.thumb_wheel = ThumbWheelMode::HorizontalScroll;
    s.thumb_wheel_speed_percent = settings::DEFAULT_THUMB_WHEEL_SPEED_PERCENT;
    let buttons = Master3sButton::all();
    let mut i: usize = 0;
    while i < buttons.len()
        invariant
            buttons@ == settings::all_buttons(),
            i <= buttons@.len(),
            s@ == (settings::SettingsView { buttons: s@.buttons, ..released_settings(base@) }),
            forall|k: int|
                0 <= k < i ==> settings::action_for(s@.buttons, #[trigger] buttons@[k])
                    == ButtonAction::Native,
        decreases buttons@.len() - i,
    {
        let ghost before = s@.buttons;
        s.set_button_action(buttons[i], ButtonAction::Native);
        proof {
            assert forall|k: int| 0 <= k < i + 1 implies settings::action_for(
                s@.buttons,
                #[trigger] buttons@[k],
            ) == ButtonAction::Native by {
                settings::law_assignment_changes_one_button(
                    before,
                    buttons@[i as int],
                    ButtonAction::Native,
                    buttons@[k],
                );
            }
        }
        i += 1;
    }
    let r = s.normalized();
    proof {
        assert forall|k: int| 0 <= k < settings::all_buttons().len() implies r@.buttons[k]
            == native_buttons()[k] by {
            assert(settings::action_for(s@.buttons, buttons@[k]) == ButtonAction::Native);
        }
        assert(r@.buttons =~= native_buttons());
        settings::law_normal_form_is_stable(base@);
        assert(r@ =~= released_settings(base@));
    }
    r
}

/// The settings that a device is given: the effective ones, and during a preview
/// with the thumb wheel diverted to the runtime.
pub open spec fn target_settings(
    effective: settings::SettingsView,
    preview: bool,
) -> settings::SettingsView {
    settings::normal_settings(
        if preview {
            settings::SettingsView {
                thumb_wheel: ThumbWheelMode::HorizontalScroll,
                thumb_wheel_speed_percent: PREVIEW_DIVERSION_SPEED_PERCENT,
                ..effective
            }
        } else {
            effective
        },
    )
}

/// The settings that a device is given.
pub fn runtime_device_settings(
    effective: &Master3sSettings,
    preview: Option<&control::HorizontalScrollPreview>,
) -> (r: Master3sSettings)
    ensures
        r@ == target_settings(effective@, preview is Some),
{
    let mut s = effective.clone();
    if preview.is_some() {
        s.thumb_wheel = ThumbWheelMode::HorizontalScroll;
        s.thumb_wheel_speed_percent = PREVIEW_DIVERSION_SPEED_PERCENT;
    }
    s.normalized()
}

/// A preview diverts the thumb wheel to the runtime, whatever the settings are,
/// and changes nothing else.
pub proof fn law_preview_only_diverts_the_thumb_wheel(effective: settings::SettingsView)
    ensures
        crate::runtime_plan::thumb_wheel_action(target_settings(effective, true)) is Some,
        target_settings(effective, true) == (settings::SettingsView {
            thumb_wheel: ThumbWheelMode::HorizontalScroll,
            thumb_wheel_speed_percent: PREVIEW_DIVERSION_SPEED_PERCENT,
            ..settings::normal_settings(effective)
        }),
{
}

/// What the runtime knows of a device that it holds: the settings that the user
/// saved, and those that it wrote last.
#[derive(Debug, PartialEq, Eq)]
pub struct RuntimeDeviceLeaseState {
    pub base_settings: Master3sSettings,
    pub owned_target: Option<Master3sSettings>,
}

/// The mathematical value of [`RuntimeDeviceLeaseState`].
#[verifier::ext_equal]
pub struct LeaseStateView {
    pub base: settings::SettingsView,
    pub owned: Option<settings::SettingsView>,
}

/// The value of optional settings.
pub open spec fn optional_settings(s: Option<Master3sSettings>) -> Option<settings::SettingsView> {
    match s {
        Some(t) => Some(t@),
        None => None,
    }
}

impl View for RuntimeDeviceLeaseState {
    type V = LeaseStateView;

    open spec fn view(&self) -> LeaseStateView {
        LeaseStateView {
            base: self.base_settings@,
            owned: optional_settings(self.owned_target),
        }
    }
}

/// What has to be written so that the device is released, if anything: the
/// settings and the plan.
pub open spec fn release_of(state: LeaseStateView, device_id: Seq<char>) -> Option<
    (settings::SettingsView, plan::PlanView),
> {
    let target = released_settings(state.base);
    if state.owned == Some(target) {
        None
    } else {
        Some((target, reconcile_plan(device_id, state.owned, target, false)))
    }
}

/// Once a device has been released it stays released: there is nothing more to
/// write, until something else was written or the saved settings changed.
pub proof fn law_release_is_final(state: LeaseStateView, device_id: Seq<char>)
    requires
        release_of(state, device_id) is Some,
    ensures
        release_of(
            LeaseStateView { owned: Some(release_of(state, device_id)->Some_0.0), ..state },
            device_id,
        ) is None,
{
}

/// A device that is known to hold the target needs no step, unless the routing of
/// the thumb wheel is to be written in any case; then that is the only one.
pub proof fn law_owned_target_needs_no_write(
    device_id: Seq<char>,
    target: settings::SettingsView,
)
    ensures
        reconcile_plan(device_id, Some(target), target, false).steps.len() == 0,
        reconcile_plan(device_id, Some(target), target, true).steps =~= seq![
            plan::thumb_wheel_step(target),
        ],
{
    plan::lemma_no_change_no_steps(target, plan::step_count());
}

/// A device of which nothing is known is written in full.
pub proof fn law_unknown_device_is_written_in_full(
    device_id: Seq<char>,
    target: settings::SettingsView,
    force: bool,
)
    ensures
        reconcile_plan(device_id, None, target, force) == plan::full_plan(device_id, target),
{
    let steps = plan::full_steps(target);
    assert(steps[3].feature == HidppFeature::ThumbWheel);
}

impl RuntimeDeviceLeaseState {
    /// Nothing is known of what the device holds.
    pub fn new(base_settings: &Master3sSettings) -> (r: Self)
        ensures
            r@ == (LeaseStateView { base: settings::normal_settings(base_settings@), owned: None }),
    {
        RuntimeDeviceLeaseState { base_settings: base_settings.normalized(), owned_target: None }
    }

    /// The user saved other settings.
    pub fn update_base_settings(&mut self, s: &Master3sSettings)
        ensures
            final(self)@ == (LeaseStateView { base: settings::normal_settings(s@), ..old(self)@ }),
    {
        self.base_settings = s.normalized();
    }

    /// Whether the device is known to hold the target.
    pub fn owns_target(&self, target: &Master3sSettings) -> (r: bool)
        ensures
            r == (self@.owned == Some(settings::normal_settings(target@))),
    {
        match &self.owned_target {
            Some(owned) => settings::same_settings(owned, &target.normalized()),
            None => false,
        }
    }

    /// The target in normal form and the plan that takes the device to it.
    pub fn target_plan(
        &self,
        device_id: &str,
        target: &Master3sSettings,
        force_thumb_wheel: bool,
    ) -> (r: (Master3sSettings, SettingsApplyPlan))
        ensures
            r.0@ == settings::normal_settings(target@),
            r.1@ == reconcile_plan(
                device_id@,
                self@.owned,
                settings::normal_settings(target@),
                force_thumb_wheel,
            ),
    {
        let target = target.normalized();
        let plan = runtime_device_apply_plan(
            device_id,
            self.owned_target.as_ref(),
            &target,
            force_thumb_wheel,
        );
        (target, plan)
    }

    /// What has to be written so that the device is released, if anything.
    pub fn release_plan(&self, device_id: &str) -> (r: Option<
        (Master3sSettings, SettingsApplyPlan),
    >)
        ensures
            match r {
                Some((target, plan)) => release_of(self@, device_id@) == Some((target@, plan@)),
                None => release_of(self@, device_id@) is None,
            },
    {
        let target = released_device_settings(&self.base_settings);
        if let Some(owned) = &self.owned_target {
            if settings::same_settings(owned, &target) {
                return None;
            }
        }
        let plan = runtime_device_apply_plan(
            device_id,
            self.owned_target.as_ref(),
            &target,
            false,
        );
        Some((target, plan))
    }

    /// The device now holds the target.
    pub fn commit(&mut self, target: Master3sSettings)
        ensures
            final(self)@ == (LeaseStateView { owned: Some(target@), ..old(self)@ }),
    {
        self.owned_target = Some(target);
    }
}

/// What has to be done to the device before a target counts as written.
#[derive(Debug)]
pub enum LeaseStep {
    /// Nothing may be written.
    Nothing,
    /// The device holds the target already.
    Adopt { target: Master3sSettings },
    /// The plan has to be carried out.
    Write { target: Master3sSettings, plan: SettingsApplyPlan },
}

/// The mathematical value of [`LeaseStep`].
#[verifier::ext_equal]
pub enum LeaseStepView {
    Nothing,
    Adopt { target: settings::SettingsView },
    Write { target: settings::SettingsView, plan: plan::PlanView },
}

impl View for LeaseStep {
    type V = LeaseStepView;

    open spec fn view(&self) -> LeaseStepView {
        match self {
            LeaseStep::Nothing => LeaseStepView::Nothing,
            LeaseStep::Adopt { target } => LeaseStepView::Adopt { target: target@ },
            LeaseStep::Write { target, plan } => LeaseStepView::Write {
                target: target@,
                plan: plan@,
            },
        }
    }
}

/// The hold on a device, with the permission to write to it.
#[derive(Debug)]
pub struct RuntimeDeviceLease {
    pub device_id: String,
    pub writes_enabled: bool,
    pub state: RuntimeDeviceLeaseState,
}

/// The mathematical value of [`RuntimeDeviceLease`].
#[verifier::ext_equal]
pub struct DeviceLeaseView {
    pub device_id: Seq<char>,
    pub writes_enabled: bool,
    pub state: LeaseStateView,
}

impl View for RuntimeDeviceLease {
    type V = DeviceLeaseView;

    open spec fn view(&self) -> DeviceLeaseView {
        DeviceLeaseView {
            device_id: self.device_id@,
            writes_enabled: self.writes_enabled,
            state: self.state@,
        }
    }
}

/// A planned write: an empty plan is adopted without touching the device.
pub open spec fn planned(target: settings::SettingsView, plan: plan::PlanView) -> LeaseStepView {
    if plan.steps.len() == 0 {
        LeaseStepView::Adopt { target }
    } else {
        LeaseStepView::Write { target, plan }
    }
}

/// What has to be done so that the device holds the target.
pub open spec fn target_step(
    lease: DeviceLeaseView,
    target: settings::SettingsView,
    force_thumb_wheel: bool,
) -> LeaseStepView {
    let normal = settings::normal_settings(target);
    if !lease.writes_enabled {
        LeaseStepView::Nothing
    } else {
        planned(
            normal,
            reconcile_plan(lease.device_id, lease.state.owned, normal, force_thumb_wheel),
        )
    }
}

/// What has to be done so that the device is released.
pub open spec fn release_step(lease: DeviceLeaseView) -> LeaseStepView {
    if !lease.writes_enabled {
        LeaseStepView::Nothing
    } else {
        match release_of(lease.state, lease.device_id) {
            None => LeaseStepView::Nothing,
            Some((target, plan)) => planned(target, plan),
        }
    }
}

/// Whether the device counts as holding the target; without permission to write
/// there is nothing to hold.
pub open spec fn holds_target(lease: DeviceLeaseView, target: settings::SettingsView) -> bool {
    !lease.writes_enabled || lease.state.owned == Some(settings::normal_settings(target))
}

/// The lease once a target counts as written.
pub open spec fn holding(lease: DeviceLeaseView, target: settings::SettingsView) -> DeviceLeaseView {
    DeviceLeaseView {
        state: LeaseStateView { owned: Some(target), ..lease.state },
        ..lease
    }
}

/// Why a write did not succeed: the error of the device, or what its report
/// amounts to.
pub open spec fn write_failure(outcome: Result<plan::ReportView, (ErrorKind, Seq<char>)>) -> Option<
    (ErrorKind, Seq<char>),
> {
    match outcome {
        Err(error) => Some(error),
        Ok(report) => match plan::apply_failure(report) {
            Some(detail) => Some((ErrorKind::BackendUnavailable, detail)),
            None => None,
        },
    }
}

/// The value of what a device answered to a plan.
pub open spec fn write_outcome(outcome: Result<SettingsApplyReport, DogiError>) -> Result<
    plan::ReportView,
    (ErrorKind, Seq<char>),
> {
    match outcome {
        Ok(report) => Ok(report@),
        Err(error) => Err(error@),
    }
}

impl RuntimeDeviceLease {
    /// Takes hold of a device.
    pub fn new(device_id: &str, writes_enabled: bool, base_settings: &Master3sSettings) -> (r: Self)
        ensures
            r@ == (DeviceLeaseView {
                device_id: device_id@,
                writes_enabled,
                state: LeaseStateView {
                    base: settings::normal_settings(base_settings@),
                    owned: None,
                },
            }),
    {
        RuntimeDeviceLease {
            device_id: device_id.to_owned(),
            writes_enabled,
            state: RuntimeDeviceLeaseState::new(base_settings),
        }
    }

    /// The user saved other settings.
    pub fn update_base_settings(&mut self, s: &Master3sSettings)
        ensures
            final(self)@ == (DeviceLeaseView {
                state: LeaseStateView {
                    base: settings::normal_settings(s@),
                    ..old(self)@.state
                },
                ..old(self)@
            }),
    {
        self.state.update_base_settings(s);
    }

    /// Whether the device counts as holding the target.
    pub fn owns_target(&self, target: &Master3sSettings) -> (r: bool)
        ensures
            r == holds_target(self@, target@),
    {
        !self.writes_enabled || self.state.owns_target(target)
    }

    /// What has to be done so that the device holds the target.
    pub fn apply_target(&self, target: &Master3sSettings, force_thumb_wheel: bool) -> (r: LeaseStep)
        ensures
            r@ == target_step(self@, target@, force_thumb_wheel),
    {
        if !self.writes_enabled {
            return LeaseStep::Nothing;
        }
        let (target, plan) = self.state.target_plan(
            self.device_id.as_str(),
            target,
            force_thumb_wheel,
        );
        if plan.steps.len() == 0 {
            LeaseStep::Adopt { target }
        } else {
            LeaseStep::Write { target, plan }
        }
    }

    /// What has to be done so that the device is released.
    pub fn release_base(&self) -> (r: LeaseStep)
        ensures
            r@ == release_step(self@),
    {
        if !self.writes_enabled {
            return LeaseStep::Nothing;
        }
        match self.state.release_plan(self.device_id.as_str()) {
            None => LeaseStep::Nothing,
            Some((target, plan)) => {
                if plan.steps.len() == 0 {
                    LeaseStep::Adopt { target }
                } else {
                    LeaseStep::Write { target, plan }
                }
            },
        }
    }

    /// Takes in what became of a write: the target counts as held only if the
    /// device was changed and verified in full.
    pub fn finish_write(
        &mut self,
        target: Master3sSettings,
        outcome: Result<SettingsApplyReport, DogiError>,
    ) -> (r: Result<(), DogiError>)
        ensures
            match write_failure(write_outcome(outcome)) {
                Some(error) => r is Err && r->Err_0@ == error && final(self)@ == old(self)@,
                None => r is Ok && final(self)@ == holding(old(self)@, target@),
            },
    {
        match outcome {
            Err(error) => Err(error),
            Ok(report) => match plan::ensure_device_apply_succeeded(&report) {
                Err(error) => Err(error),
                Ok(()) => {
                    self.state.commit(target);
                    Ok(())
                },
            },
        }
    }

    /// The device holds the target without a write.
    pub fn adopt(&mut self, target: Master3sSettings)
        ensures
            final(self)@ == holding(old(self)@, target@),
    {
        self.state.commit(target);
    }
}

/// A device that may be written gets all of its target where nothing is known of what it
/// holds, and one that may not be written gets nothing.
pub proof fn law_target_is_written(
    lease: DeviceLeaseView,
    target: settings::SettingsView,
    force: bool,
    button: Master3sButton,
)
    ensures
        ({
            let step = target_step(lease, target, force);
            let normal = settings::normal_settings(target);
            &&& !lease.writes_enabled ==> step is Nothing
            &&& lease.writes_enabled && lease.state.owned is None ==> step is Write
                && step->Write_target == normal && step->plan.device_id == lease.device_id
                && plan::sets_pointer(step->plan.steps, normal.pointer_speed_percent)
                && plan::sets_wheel(
                step->plan.steps,
                normal.ratchet_mode,
                normal.smart_shift_enabled,
                normal.smart_shift_threshold,
            ) && plan::sets_scrolling(
                step->plan.steps,
                normal.high_resolution_scroll,
                normal.natural_scroll,
            ) && plan::sets_thumb_wheel(
                step->plan.steps,
                normal.thumb_wheel,
                normal.thumb_wheel_speed_percent,
            ) && plan::sets_button(
                step->plan.steps,
                button,
                settings::action_for(target.buttons, button),
            )
            &&& lease.writes_enabled && lease.state.owned == Some(normal) && !force ==> step
                == (LeaseStepView::Adopt { target: normal })
            &&& lease.writes_enabled && force ==> step is Write && step->Write_target == normal
                && plan::sets_thumb_wheel(
                step->plan.steps,
                normal.thumb_wheel,
                normal.thumb_wheel_speed_percent,
            )
        }),
{
    let normal = settings::normal_settings(target);
    plan::law_full_plan_sets_everything(lease.device_id, normal, button);
    settings::law_normal_form_keeps_what_a_mouse_takes(target, button, 0);
    law_owned_target_needs_no_write(lease.device_id, normal);
    law_unknown_device_is_written_in_full(lease.device_id, normal, force);
    if lease.writes_enabled && force {
        let base = reconcile_plan(lease.device_id, lease.state.owned, normal, false);
        let steps = with_thumb_wheel(base.steps, normal);
        assert(reconcile_plan(lease.device_id, lease.state.owned, normal, true).steps == steps);
        match lease.state.owned {
            None => {},
            Some(owned) => {
                plan::law_difference_plan_sets_what_differs(
                    lease.device_id,
                    owned,
                    normal,
                    button,
                );
                lemma_thumb_wheel_routed(lease.device_id, owned, normal);
            },
        }
    }
}

proof fn lemma_thumb_wheel_routed(
    device_id: Seq<char>,
    owned: settings::SettingsView,
    target: settings::SettingsView,
)
    ensures
        plan::sets_thumb_wheel(
            with_thumb_wheel(plan::difference_plan(device_id, owned, target).steps, target),
            target.thumb_wheel,
            target.thumb_wheel_speed_percent,
        ),
{
    let steps = plan::difference_plan(device_id, owned, target).steps;
    let wanted = plan::thumb_wheel_step(target);
    if routes_thumb_wheel(steps) {
        let k = choose|k: int|
            0 <= k < steps.len() && (#[trigger] steps[k]).feature == HidppFeature::ThumbWheel;
        plan::law_only_changes_are_written(owned, target, k);
        assert(steps[k] == wanted);
    } else {
        assert(steps.push(wanted)[steps.len() as int] == wanted);
    }
}

/// A device that is given back does by itself what a mouse does: each button is its own, the
/// thumb wheel scrolls at its plain speed, and every other setting stays as the user has it.
pub proof fn law_released_device_keeps_the_other_settings(
    base: settings::SettingsView,
    button: Master3sButton,
)
    ensures
        ({
            let r = released_settings(base);
            let n = settings::normal_settings(base);
            &&& r.thumb_wheel == ThumbWheelMode::HorizontalScroll
            &&& r.thumb_wheel_speed_percent == 100
            &&& settings::action_for(r.buttons, button) == ButtonAction::Native
            &&& r.pointer_speed_percent == n.pointer_speed_percent
            &&& r.smart_shift_enabled == n.smart_shift_enabled
            &&& r.smart_shift_threshold == n.smart_shift_threshold
            &&& r.ratchet_mode == n.ratchet_mode
            &&& r.high_resolution_scroll == n.high_resolution_scroll
            &&& r.natural_scroll == n.natural_scroll
            &&& r.profile_name == n.profile_name
        }),
{
    law_released_device_is_native(base, button);
}

/// While something is shown as a preview the thumb wheel is diverted, at one percent more
/// than its plain speed, and the rest of the settings is what it was.
pub proof fn law_preview_diverts_at_nearly_plain_speed(
    effective: settings::SettingsView,
    button: Master3sButton,
)
    ensures
        ({
            let t = target_settings(effective, true);
            let n = settings::normal_settings(effective);
            &&& t.thumb_wheel == ThumbWheelMode::HorizontalScroll
            &&& t.thumb_wheel_speed_percent == 101
            &&& settings::action_for(t.buttons, button) == settings::action_for(
                effective.buttons,
                button,
            )
            &&& t.pointer_speed_percent == n.pointer_speed_percent
            &&& t.smart_shift_threshold == n.smart_shift_threshold
            &&& t.ratchet_mode == effective.ratchet_mode
            &&& t.natural_scroll == effective.natural_scroll
            &&& t.gestures == effective.gestures
            &&& target_settings(effective, false) == n
        }),
{
    settings::law_normal_form_keeps_what_a_mouse_takes(effective, button, 0);
    law_preview_only_diverts_the_thumb_wheel(effective);
}

/// A write that was committed without a failure makes the target what the device holds; any
/// other leaves it unknown whether it does, and is reported.
pub proof fn law_only_finished_writes_are_held(
    target: Master3sSettings,
    outcome: Result<SettingsApplyReport, DogiError>,
)
    ensures
        forall|lease: &mut RuntimeDeviceLease, r: Result<(), DogiError>|
            #![trigger call_ensures(RuntimeDeviceLease::finish_write, (lease, target, outcome), r)]
            call_ensures(RuntimeDeviceLease::finish_write, (lease, target, outcome), r) ==> {
                &&& outcome is Err ==> r is Err && r->Err_0@ == outcome->Err_0@ && final(lease)@ == (
                *lease)@
                &&& r is Ok ==> final(lease)@.state.owned == Some(target@) && final(
                    lease
                )@.state.base == (*lease)@.state.base
                &&& r is Err ==> final(lease)@ == (*lease)@
                &&& outcome matches Ok(report) ==> (r is Ok <==> report@.transaction
                    == plan::SettingsTransactionState::Committed && forall|i: int|
                    0 <= i < report@.outcomes.len() ==> {
                        ||| (#[trigger] report@.outcomes[i]).status == plan::SettingsApplyStatus::Applied
                        ||| report@.outcomes[i].status == plan::SettingsApplyStatus::Skipped
                    })
            },
{
    match outcome {
        Ok(report) => {
            plan::law_applied_means_committed_without_failures(report@);
        },
        Err(_) => {},
    }
}

/// A device that may be written is given back by writing what differs from a mouse that does
/// everything by itself.
pub proof fn law_release_writes_the_native_settings(lease: DeviceLeaseView)
    ensures
        !lease.writes_enabled ==> release_step(lease) is Nothing,
        lease.writes_enabled && lease.state.owned is None ==> release_step(lease) is Write
            && release_step(lease)->Write_target == released_settings(lease.state.base),
        lease.writes_enabled && lease.state.owned == Some(released_settings(lease.state.base))
            ==> release_step(lease) is Nothing,
        release_step(lease) matches LeaseStepView::Write { target, plan } ==> target
            == released_settings(lease.state.base) && plan.device_id == lease.device_id,
{
    plan::law_full_plan_sets_everything(
        lease.device_id,
        released_settings(lease.state.base),
        Master3sButton::Back,
    );
}

/// Steps that are added leave the steps that are there where they are, and what an added one
/// is about is then written.
pub proof fn law_missing_steps_are_added(
    steps: Seq<SettingsApplyStep>,
    extra: Seq<SettingsApplyStep>,
    i: int,
)
    ensures
        steps.len() <= merged_steps(steps, extra, extra.len()).len(),
        0 <= i < steps.len() ==> merged_steps(steps, extra, extra.len())[i] == steps[i],
        0 <= i < extra.len() ==> covered(merged_steps(steps, extra, extra.len()), extra[i]),
{
    lemma_merged(steps, extra, extra.len(), i);
}

proof fn lemma_merged(
    steps: Seq<SettingsApplyStep>,
    extra: Seq<SettingsApplyStep>,
    n: nat,
    i: int,
)
    requires
        n <= extra.len(),
    ensures
        steps.len() <= merged_steps(steps, extra, n).len(),
        0 <= i < steps.len() ==> merged_steps(steps, extra, n)[i] == steps[i],
        0 <= i < n ==> covered(merged_steps(steps, extra, n), extra[i]),
    decreases n,
{
    if n > 0 {
        lemma_merged(steps, extra, (n - 1) as nat, i);
        let before = merged_steps(steps, extra, (n - 1) as nat);
        let after = merged_steps(steps, extra, n);
        if 0 <= i < n - 1 {
            let k = choose|k: int| 0 <= k < before.len() && same_subject(#[trigger] before[k], extra[i]);
            assert(after[k] == before[k]);
        } else if i == n - 1 && !covered(before, extra[n - 1]) {
            assert(after[before.len() as int] == extra[i]);
            assert(same_subject(after[before.len() as int], extra[i]));
        }
    }
}

/// Of a plan, the steps that write the device are carried out, all of them and in their order.
pub proof fn law_writing_steps_are_carried_out(steps: Seq<SettingsApplyStep>, step: SettingsApplyStep)
    ensures
        writing_steps(Seq::empty(), 0).len() == 0,
        step.requires_device_write ==> writing_steps(steps.push(step), steps.len() + 1)
            == writing_steps(steps, steps.len()).push(step),
        !step.requires_device_write ==> writing_steps(steps.push(step), steps.len() + 1)
            == writing_steps(steps, steps.len()),
{
    lemma_writing_is_local(steps, steps.push(step), steps.len());
}

proof fn lemma_writing_is_local(a: Seq<SettingsApplyStep>, b: Seq<SettingsApplyStep>, n: nat)
    requires
        n <= a.len() && n <= b.len(),
        forall|i: int| 0 <= i < n ==> a[i] == #[trigger] b[i],
    ensures
        writing_steps(a, n) == writing_steps(b, n),
    decreases n,
{
    if n > 0 {
        lemma_writing_is_local(a, b, (n - 1) as nat);
        assert(a[n - 1] == b[n - 1]);
    }
}

/// A lease is what it is made with, and holds what is committed to it.
pub proof fn law_leases_hold_what_is_committed(
    device_id: &str,
    writes: bool,
    base: &Master3sSettings,
    target: Master3sSettings,
)
    ensures
        forall|l: RuntimeDeviceLease|
            #![trigger call_ensures(RuntimeDeviceLease::new, (device_id, writes, base), l)]
            call_ensures(RuntimeDeviceLease::new, (device_id, writes, base), l) ==> l@.device_id
                == device_id@ && l@.writes_enabled == writes && l@.state.owned is None
                && l@.state.base == settings::normal_settings(base@),
        forall|l: &mut RuntimeDeviceLease, r: ()|
            #![trigger call_ensures(RuntimeDeviceLease::adopt, (l, target), r)]
            call_ensures(RuntimeDeviceLease::adopt, (l, target), r) ==> final(l)@.state.owned == Some(
                target@,
            ) && final(l)@.state.base == (*l)@.state.base,
        forall|l: &mut RuntimeDeviceLease, r: ()|
            #![trigger call_ensures(RuntimeDeviceLease::update_base_settings, (l, base), r)]
            call_ensures(RuntimeDeviceLease::update_base_settings, (l, base), r) ==> final(
                l
            )@.state.base == settings::normal_settings(base@) && final(l)@.state.owned == (
            *l)@.state.owned,
        forall|l: &RuntimeDeviceLease, t: &Master3sSettings, r: bool|
            #![trigger call_ensures(RuntimeDeviceLease::owns_target, (l, t), r)]
            call_ensures(RuntimeDeviceLease::owns_target, (l, t), r) ==> (r <==> !l@.writes_enabled
                || l@.state.owned == Some(settings::normal_settings(t@))),
{
}

}
