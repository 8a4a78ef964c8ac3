//! Plans that write settings to the mouse, and the reports of carrying them out.

use crate::error::{DogiError, ErrorKind};
use crate::settings::{ButtonAction, Master3sButton, Master3sSettings, ThumbWheelMode, WheelRatchetMode};
use crate::settings;
use crate::text;
use vstd::prelude::*;

verus! {

/// The HID++ feature that a step writes to.
#[derive(Clone, Copy, Debug, PartialEq, Eq, Structural)]
pub enum HidppFeature {
    PointerSpeed,
    SmartShift,
    HiresWheel,
    ThumbWheel,
    ReprogrammableControls,
}

/// What a step changes.
#[derive(Clone, Copy, Debug, PartialEq, Eq, Structural)]
pub enum SettingsApplyOperation {
    PointerSpeed { percent: u8 },
    WheelBehavior { ratchet_mode: WheelRatchetMode, smart_shift: bool, threshold: u8 },
    ScrollBehavior { high_resolution: bool, natural: bool },
    ThumbWheelRouting { mode: ThumbWheelMode, speed_percent: u16 },
    ButtonMapping { button: Master3sButton, action: ButtonAction },
}

/// One step of a plan.
#[derive(Clone, Copy, Debug, PartialEq, Eq, Structural)]
pub struct SettingsApplyStep {
    pub feature: HidppFeature,
    pub operation: SettingsApplyOperation,
    pub requires_device_write: bool,
}

/// The steps that bring a device to the wanted settings.
#[derive(Debug, PartialEq, Eq)]
pub struct SettingsApplyPlan {
    pub device_id: String,
    pub profile_name: String,
    pub steps: Vec<SettingsApplyStep>,
}

/// The mathematical value of [`SettingsApplyPlan`].
#[verifier::ext_equal]
pub struct PlanView {
    pub device_id: Seq<char>,
    pub profile_name: Seq<char>,
    pub steps: Seq<SettingsApplyStep>,
}

impl View for SettingsApplyPlan {
    type V = PlanView;

    open spec fn view(&self) -> PlanView {
        PlanView {
            device_id: self.device_id@,
            profile_name: self.profile_name@,
            steps: self.steps@,
        }
    }
}

impl Clone for SettingsApplyPlan {
    fn clone(&self) -> (r: Self)
        ensures
            r@ == self@,
    {
        let mut steps: Vec<SettingsApplyStep> = Vec::new();
        let mut i: usize = 0;
        while i < self.steps.len()
            invariant
                i <= self.steps@.len(),
                steps@ == self.steps@.take(i as int),
            decreases self.steps@.len() - i,
        {
            steps.push(self.steps[i]);
            i += 1;
            assert(steps@ == self.steps@.take(i as int));
        }
        assert(self.steps@.take(self.steps@.len() as int) == self.steps@);
        SettingsApplyPlan {
            device_id: self.device_id.clone(),
            profile_name: self.profile_name.clone(),
            steps,
        }
    }
}

/// Whether two plans have the same value.
pub fn same_plan(a: &SettingsApplyPlan, b: &SettingsApplyPlan) -> (r: bool)
    ensures
        r == (a@ == b@),
{
    if !(a.device_id == b.device_id && a.profile_name == b.profile_name) {
        return false;
    }
    if a.steps.len() != b.steps.len() {
        return false;
    }
    let mut i: usize = 0;
    while i < a.steps.len()
        invariant
            i <= a.steps@.len() == b.steps@.len(),
            forall|k: int| 0 <= k < i ==> a.steps@[k] == b.steps@[k],
        decreases a.steps@.len() - i,
    {
        if a.steps[i] != b.steps[i] {
            return false;
        }
        i += 1;
    }
    assert(a@ =~= b@);
    true
}

/// The step that sets the pointer speed.
pub open spec fn pointer_step(s: settings::SettingsView) -> SettingsApplyStep {
    SettingsApplyStep {
        feature: HidppFeature::PointerSpeed,
        operation: SettingsApplyOperation::PointerSpeed { percent: s.pointer_speed_percent },
        requires_device_write: true,
    }
}

/// The step that sets how the main wheel turns.
pub open spec fn wheel_step(s: settings::SettingsView) -> SettingsApplyStep {
    SettingsApplyStep {
        feature: HidppFeature::SmartShift,
        operation: SettingsApplyOperation::WheelBehavior {
            ratchet_mode: s.ratchet_mode,
            smart_shift: s.smart_shift_enabled,
            threshold: s.smart_shift_threshold,
        },
        requires_device_write: true,
    }
}

/// The step that sets how the main wheel scrolls.
pub open spec fn scroll_step(s: settings::SettingsView) -> SettingsApplyStep {
    SettingsApplyStep {
        feature: HidppFeature::HiresWheel,
        operation: SettingsApplyOperation::ScrollBehavior {
            high_resolution: s.high_resolution_scroll,
            natural: s.natural_scroll,
        },
        requires_device_write: true,
    }
}

/// The step that routes the thumb wheel.
pub open spec fn thumb_wheel_step(s: settings::SettingsView) -> SettingsApplyStep {
    SettingsApplyStep {
        feature: HidppFeature::ThumbWheel,
        operation: SettingsApplyOperation::ThumbWheelRouting {
            mode: s.thumb_wheel,
            speed_percent: s.thumb_wheel_speed_percent,
        },
        requires_device_write: true,
    }
}

/// The step that assigns one button.
pub open spec fn button_step(s: settings::SettingsView, button: Master3sButton) -> SettingsApplyStep {
    SettingsApplyStep {
        feature: HidppFeature::ReprogrammableControls,
        operation: SettingsApplyOperation::ButtonMapping {
            button,
            action: settings::action_for(s.buttons, button),
        },
        requires_device_write: true,
    }
}

/// The step at position `i` of the full plan for the settings.
pub open spec fn step_at(s: settings::SettingsView, i: int) -> SettingsApplyStep {
    if i == 0 {
        pointer_step(s)
    } else if i == 1 {
        wheel_step(s)
    } else if i == 2 {
        scroll_step(s)
    } else if i == 3 {
        thumb_wheel_step(s)
    } else {
        button_step(s, settings::all_buttons()[i - 4])
    }
}

/// How many steps the full plan has: four and one per button.
pub open spec fn step_count() -> nat {
    4 + settings::all_buttons().len()
}

/// All steps that write the settings, whatever the device holds.
pub open spec fn full_steps(s: settings::SettingsView) -> Seq<SettingsApplyStep> {
    Seq::new(step_count(), |i: int| step_at(s, i))
}

/// The steps among the first `n` that differ between two settings.
pub open spec fn changed_steps(
    base: settings::SettingsView,
    target: settings::SettingsView,
    n: nat,
) -> Seq<SettingsApplyStep>
    decreases n,
{
    if n == 0 {
        Seq::empty()
    } else {
        let before = changed_steps(base, target, (n - 1) as nat);
        if step_at(base, n - 1) == step_at(target, n - 1) {
            before
        } else {
            before.push(step_at(target, n - 1))
        }
    }
}

/// The plan that writes all settings to a device.
pub open spec fn full_plan(device_id: Seq<char>, s: settings::SettingsView) -> PlanView {
    PlanView { device_id, profile_name: s.profile_name, steps: full_steps(s) }
}

/// The plan that takes a device from one settings to another.
pub open spec fn difference_plan(
    device_id: Seq<char>,
    base: settings::SettingsView,
    target: settings::SettingsView,
) -> PlanView {
    PlanView {
        device_id,
        profile_name: target.profile_name,
        steps: changed_steps(base, target, step_count()),
    }
}

/// Taking a device to the settings it has needs no step.
pub proof fn lemma_no_change_no_steps(s: settings::SettingsView, n: nat)
    ensures
        changed_steps(s, s, n) == Seq::<SettingsApplyStep>::empty(),
    decreases n,
{
    if n > 0 {
        lemma_no_change_no_steps(s, (n - 1) as nat);
    }
}

/// A step of the full plan is part of a difference exactly where the device does not
/// have it already.
pub proof fn law_difference_covers_changes(
    base: settings::SettingsView,
    target: settings::SettingsView,
    i: int,
)
    requires
        0 <= i < step_count(),
    ensures
        step_at(base, i) != step_at(target, i) <==> changed_steps(base, target, step_count()).contains(
            step_at(target, i),
        ),
{
    lemma_difference(base, target, step_count(), i);
}

/// Nothing else is part of a difference: each of its steps writes a setting that is
/// to change.
pub proof fn law_only_changes_are_written(
    base: settings::SettingsView,
    target: settings::SettingsView,
    k: int,
)
    requires
        0 <= k < changed_steps(base, target, step_count()).len(),
    ensures
        exists|i: int|
            0 <= i < step_count() && step_at(base, i) != #[trigger] step_at(target, i)
                && changed_steps(base, target, step_count())[k] == step_at(target, i),
{
    lemma_difference_step(base, target, step_count(), k);
}

proof fn lemma_difference_step(
    base: settings::SettingsView,
    target: settings::SettingsView,
    n: nat,
    k: int,
)
    requires
        n <= step_count(),
        0 <= k < changed_steps(base, target, n).len(),
    ensures
        exists|i: int|
            0 <= i < n && step_at(base, i) != #[trigger] step_at(target, i) && changed_steps(
                base,
                target,
                n,
            )[k] == step_at(target, i),
    decreases n,
{
    let before = changed_steps(base, target, (n - 1) as nat);
    if k < before.len() {
        lemma_difference_step(base, target, (n - 1) as nat, k);
        assert(changed_steps(base, target, n)[k] == before[k]);
    } else {
        assert(changed_steps(base, target, n)[k] == step_at(target, n - 1));
    }
}

proof fn lemma_difference(
    base: settings::SettingsView,
    target: settings::SettingsView,
    n: nat,
    i: int,
)
    requires
        0 <= i < step_count(),
        n <= step_count(),
    ensures
        (i < n && step_at(base, i) != step_at(target, i)) <==> changed_steps(
            base,
            target,
            n,
        ).contains(step_at(target, i)),
    decreases n,
{
    if n > 0 {
        lemma_difference(base, target, (n - 1) as nat, i);
        let before = changed_steps(base, target, (n - 1) as nat);
        let after = changed_steps(base, target, n);
        if step_at(base, n - 1) != step_at(target, n - 1) {
            assert(after == before.push(step_at(target, n - 1)));
            assert(after[after.len() - 1] == step_at(target, n - 1));
            if before.contains(step_at(target, i)) {
                let k = choose|k: int| 0 <= k < before.len() && before[k] == step_at(target, i);
                assert(after[k] == step_at(target, i));
            }
            if after.contains(step_at(target, i)) && !before.contains(step_at(target, i)) {
                let k = choose|k: int| 0 <= k < after.len() && after[k] == step_at(target, i);
                if k < before.len() {
                    assert(before[k] == step_at(target, i));
                }
                lemma_steps_are_distinct(target, i, n - 1);
            }
        }
    }
}

/// No two positions of a plan hold the same step.
proof fn lemma_steps_are_distinct(s: settings::SettingsView, i: int, j: int)
    requires
        0 <= i < step_count(),
        0 <= j < step_count(),
    ensures
        step_at(s, i) == step_at(s, j) ==> i == j,
{
    if i >= 4 && j >= 4 && step_at(s, i) == step_at(s, j) {
        let a = settings::all_buttons()[i - 4];
        let b = settings::all_buttons()[j - 4];
        assert(a == b);
        settings::lemma_button_position(a);
    }
}

/// Lists the step at one position of the full plan.
fn plan_step(s: &Master3sSettings, buttons: &Vec<Master3sButton>, i: usize) -> (r: SettingsApplyStep)
    requires
        buttons@ == settings::all_buttons(),
        i < step_count(),
    ensures
        r == step_at(s@, i as int),
{
    if i == 0 {
        SettingsApplyStep {
            feature: HidppFeature::PointerSpeed,
            operation: SettingsApplyOperation::PointerSpeed { percent: s.pointer_speed_percent },
            requires_device_write: true,
        }
    } else if i == 1 {
        SettingsApplyStep {
            feature: HidppFeature::SmartShift,
            operation: SettingsApplyOperation::WheelBehavior {
                ratchet_mode: s.ratchet_mode,
                smart_shift: s.smart_shift_enabled,
                threshold: s.smart_shift_threshold,
            },
            requires_device_write: true,
        }
    } else if i == 2 {
        SettingsApplyStep {
            feature: HidppFeature::HiresWheel,
            operation: SettingsApplyOperation::ScrollBehavior {
                high_resolution: s.high_resolution_scroll,
                natural: s.natural_scroll,
            },
            requires_device_write: true,
        }
    } else if i == 3 {
        SettingsApplyStep {
            feature: HidppFeature::ThumbWheel,
            operation: SettingsApplyOperation::ThumbWheelRouting {
                mode: s.thumb_wheel,
                speed_percent: s.thumb_wheel_speed_percent,
            },
            requires_device_write: true,
        }
    } else {
        let button = buttons[i - 4];
        SettingsApplyStep {
            feature: HidppFeature::ReprogrammableControls,
            operation: SettingsApplyOperation::ButtonMapping {
                button,
                action: s.button_action(button),
            },
            requires_device_write: true,
        }
    }
}

/// The plan that writes all settings to a device.
pub fn build_master3s_apply_plan(device_id: &str, s: &Master3sSettings) -> (r: SettingsApplyPlan)
    ensures
        r@ == full_plan(device_id@, s@),
{
    let buttons = Master3sButton::all();
    let count: usize = 4 + buttons.len();
    let mut steps: Vec<SettingsApplyStep> = Vec::new();
    let mut i: usize = 0;
    while i < count
        invariant
            buttons@ == settings::all_buttons(),
            count == step_count(),
            i <= count,
            steps@ == full_steps(s@).take(i as int),
        decreases count - i,
    {
        steps.push(plan_step(s, &buttons, i));
        i += 1;
        assert(steps@ == full_steps(s@).take(i as int));
    }
    assert(full_steps(s@).take(count as int) == full_steps(s@));
    SettingsApplyPlan {
        device_id: device_id.to_owned(),
        profile_name: s.profile_name.clone(),
        steps,
    }
}

/// The plan that takes a device from one settings to another.
pub fn build_master3s_device_diff_plan(
    device_id: &str,
    base: &Master3sSettings,
    target: &Master3sSettings,
) -> (r: SettingsApplyPlan)
    ensures
        r@ == difference_plan(device_id@, base@, target@),
{
    let buttons = Master3sButton::all();
    let count: usize = 4 + buttons.len();
    let mut steps: Vec<SettingsApplyStep> = Vec::new();
    let mut i: usize = 0;
    while i < count
        invariant
            buttons@ == settings::all_buttons(),
            count == step_count(),
            i <= count,
            steps@ == changed_steps(base@, target@, i as nat),
        decreases count - i,
    {
        let wanted = plan_step(target, &buttons, i);
        if plan_step(base, &buttons, i) != wanted {
            steps.push(wanted);
        }
        i += 1;
    }
    SettingsApplyPlan {
        device_id: device_id.to_owned(),
        profile_name: target.profile_name.clone(),
        steps,
    }
}

/// How carrying out one step ended.
#[derive(Clone, Copy, Debug, PartialEq, Eq, Structural)]
pub enum SettingsApplyStatus {
    Applied,
    Skipped,
    Unsupported,
    Failed,
    RolledBack,
    RollbackFailed,
}

/// How a whole settings transaction ended.
#[derive(Clone, Copy, Debug, PartialEq, Eq, Structural)]
pub enum SettingsTransactionState {
    Committed,
    Rejected,
    RolledBack,
    RecoveryRequired,
}

/// What became of one step.
#[derive(Debug, PartialEq, Eq)]
pub struct SettingsApplyOutcome {
    pub title: String,
    pub feature: HidppFeature,
    pub status: SettingsApplyStatus,
    pub detail: Option<String>,
}

/// What became of a plan.
#[derive(Debug, PartialEq, Eq)]
pub struct SettingsApplyReport {
    pub device_id: String,
    pub profile_name: String,
    pub transaction: SettingsTransactionState,
    pub outcomes: Vec<SettingsApplyOutcome>,
}

/// The mathematical value of [`SettingsApplyOutcome`].
#[verifier::ext_equal]
pub struct OutcomeView {
    pub title: Seq<char>,
    pub feature: HidppFeature,
    pub status: SettingsApplyStatus,
    pub detail: Option<Seq<char>>,
}

/// The mathematical value of [`SettingsApplyReport`].
#[verifier::ext_equal]
pub struct ReportView {
    pub device_id: Seq<char>,
    pub profile_name: Seq<char>,
    pub transaction: SettingsTransactionState,
    pub outcomes: Seq<OutcomeView>,
}

impl View for SettingsApplyOutcome {
    type V = OutcomeView;

    open spec fn view(&self) -> OutcomeView {
        OutcomeView {
            title: self.title@,
            feature: self.feature,
            status: self.status,
            detail: text::optional(self.detail),
        }
    }
}

impl View for SettingsApplyReport {
    type V = ReportView;

    open spec fn view(&self) -> ReportView {
        ReportView {
            device_id: self.device_id@,
            profile_name: self.profile_name@,
            transaction: self.transaction,
            outcomes: Seq::new(self.outcomes@.len(), |i: int| self.outcomes@[i]@),
        }
    }
}

impl SettingsApplyReport {
    /// Whether the device holds the wanted settings and nothing was rolled back.
    pub fn committed(&self) -> (r: bool)
        ensures
            r == (self.transaction == SettingsTransactionState::Committed),
    {
        self.transaction == SettingsTransactionState::Committed
    }
}

impl SettingsTransactionState {
    /// The name of the state in messages.
    pub open spec fn name_spec(self) -> Seq<char> {
        match self {
            SettingsTransactionState::Committed => "Committed"@,
            SettingsTransactionState::Rejected => "Rejected"@,
            SettingsTransactionState::RolledBack => "RolledBack"@,
            SettingsTransactionState::RecoveryRequired => "RecoveryRequired"@,
        }
    }

    /// The name of the state in messages.
    pub fn name(self) -> (r: &'static str)
        ensures
            r@ == self.name_spec(),
    {
        match self {
            SettingsTransactionState::Committed => "Committed",
            SettingsTransactionState::Rejected => "Rejected",
            SettingsTransactionState::RolledBack => "RolledBack",
            SettingsTransactionState::RecoveryRequired => "RecoveryRequired",
        }
    }
}

/// Whether the outcome of a step means that the device does not hold what was
/// asked for.
pub open spec fn step_failed(status: SettingsApplyStatus) -> bool {
    ||| status == SettingsApplyStatus::Failed
    ||| status == SettingsApplyStatus::Unsupported
    ||| status == SettingsApplyStatus::RolledBack
    ||| status == SettingsApplyStatus::RollbackFailed
}

/// What is said of an outcome: its detail, or else its title.
pub open spec fn outcome_text(outcome: OutcomeView) -> Seq<char> {
    match outcome.detail {
        Some(detail) => detail,
        None => outcome.title,
    }
}

/// What is said of the failed steps among the first `n`.
pub open spec fn failure_texts(outcomes: Seq<OutcomeView>, n: nat) -> Seq<Seq<char>>
    decreases n,
{
    if n == 0 {
        Seq::empty()
    } else {
        let before = failure_texts(outcomes, (n - 1) as nat);
        if step_failed(outcomes[n - 1].status) {
            before.push(outcome_text(outcomes[n - 1]))
        } else {
            before
        }
    }
}

/// The failure that a report amounts to: none if it committed and no step
/// failed, else the failed steps, or the state that the transaction ended in.
pub open spec fn apply_failure(report: ReportView) -> Option<Seq<char>> {
    let failures = failure_texts(report.outcomes, report.outcomes.len());
    if report.transaction == SettingsTransactionState::Committed && failures.len() == 0 {
        None
    } else if failures.len() == 0 {
        Some(
            "device settings could not be committed and verified: "@ + ("transaction ended in "@
                + report.transaction.name_spec()),
        )
    } else {
        Some(
            "device settings could not be committed and verified: "@ + text::joined(
                failures,
                "; "@,
            ),
        )
    }
}

/// Accepts a report only if the device was changed and verified in full.
pub fn ensure_device_apply_succeeded(report: &SettingsApplyReport) -> (r: Result<(), DogiError>)
    ensures
        match apply_failure(report@) {
            None => r is Ok,
            Some(detail) => r is Err && r->Err_0@ == (ErrorKind::BackendUnavailable, detail),
        },
{
    let mut failures: Vec<String> = Vec::new();
    let mut i: usize = 0;
    while i < report.outcomes.len()
        invariant
            i <= report.outcomes@.len(),
            text::texts(failures@) == failure_texts(report@.outcomes, i as nat),
        decreases report.outcomes@.len() - i,
    {
        let outcome = &report.outcomes[i];
        let failed = match outcome.status {
            SettingsApplyStatus::Failed | SettingsApplyStatus::Unsupported
            | SettingsApplyStatus::RolledBack | SettingsApplyStatus::RollbackFailed => true,
            SettingsApplyStatus::Applied | SettingsApplyStatus::Skipped => false,
        };
        let ghost before = failures@;
        if failed {
            let said = match &outcome.detail {
                Some(detail) => detail.clone(),
                None => outcome.title.clone(),
            };
            failures.push(said);
            assert(text::texts(failures@) == text::texts(before).push(
                outcome_text(report@.outcomes[i as int]),
            ));
        }
        i += 1;
    }
    if report.committed() && failures.len() == 0 {
        return Ok(());
    }
    let detail = if failures.len() == 0 {
        text::concat2("transaction ended in ", report.transaction.name())
    } else {
        text::join(&failures, "; ")
    };
    let message = text::concat2(
        "device settings could not be committed and verified: ",
        detail.as_str(),
    );
    Err(DogiError::BackendUnavailable(message))
}

/// A plan for a device of which nothing is known sets every setting of the mouse to what
/// is wanted, on that device.
pub proof fn law_full_plan_sets_everything(
    device_id: Seq<char>,
    s: settings::SettingsView,
    button: Master3sButton,
)
    ensures
        ({
            let p = full_plan(device_id, s);
            &&& p.device_id == device_id && p.profile_name == s.profile_name
            &&& p.steps.len() == 9
            &&& sets_pointer(p.steps, s.pointer_speed_percent)
            &&& sets_wheel(
                p.steps,
                s.ratchet_mode,
                s.smart_shift_enabled,
                s.smart_shift_threshold,
            )
            &&& sets_scrolling(p.steps, s.high_resolution_scroll, s.natural_scroll)
            &&& sets_thumb_wheel(p.steps, s.thumb_wheel, s.thumb_wheel_speed_percent)
            &&& sets_button(p.steps, button, settings::action_for(s.buttons, button))
        }),
{
    let steps = full_plan(device_id, s).steps;
    let at = 4 + settings::button_position(button);
    assert(settings::all_buttons()[at - 4] == button);
    assert(steps[0].operation == (SettingsApplyOperation::PointerSpeed {
        percent: s.pointer_speed_percent,
    }));
    assert(steps[1].operation == (SettingsApplyOperation::WheelBehavior {
        ratchet_mode: s.ratchet_mode,
        smart_shift: s.smart_shift_enabled,
        threshold: s.smart_shift_threshold,
    }));
    assert(steps[2].operation == (SettingsApplyOperation::ScrollBehavior {
        high_resolution: s.high_resolution_scroll,
        natural: s.natural_scroll,
    }));
    assert(steps[3].operation == (SettingsApplyOperation::ThumbWheelRouting {
        mode: s.thumb_wheel,
        speed_percent: s.thumb_wheel_speed_percent,
    }));
    assert(steps[at].operation == (SettingsApplyOperation::ButtonMapping {
        button,
        action: settings::action_for(s.buttons, button),
    }));
}

/// Whether some step writes the pointer speed.
pub open spec fn sets_pointer(steps: Seq<SettingsApplyStep>, percent: u8) -> bool {
    steps.contains(
        SettingsApplyStep {
            feature: HidppFeature::PointerSpeed,
            operation: SettingsApplyOperation::PointerSpeed { percent },
            requires_device_write: true,
        },
    )
}

/// Whether some step writes how the wheel turns.
pub open spec fn sets_wheel(
    steps: Seq<SettingsApplyStep>,
    ratchet_mode: WheelRatchetMode,
    smart_shift: bool,
    threshold: u8,
) -> bool {
    steps.contains(
        SettingsApplyStep {
            feature: HidppFeature::SmartShift,
            operation: SettingsApplyOperation::WheelBehavior {
                ratchet_mode,
                smart_shift,
                threshold,
            },
            requires_device_write: true,
        },
    )
}

/// Whether some step writes how the wheel scrolls.
pub open spec fn sets_scrolling(
    steps: Seq<SettingsApplyStep>,
    high_resolution: bool,
    natural: bool,
) -> bool {
    steps.contains(
        SettingsApplyStep {
            feature: HidppFeature::HiresWheel,
            operation: SettingsApplyOperation::ScrollBehavior { high_resolution, natural },
            requires_device_write: true,
        },
    )
}

/// Whether some step writes what the thumb wheel does.
pub open spec fn sets_thumb_wheel(
    steps: Seq<SettingsApplyStep>,
    mode: ThumbWheelMode,
    speed_percent: u16,
) -> bool {
    steps.contains(
        SettingsApplyStep {
            feature: HidppFeature::ThumbWheel,
            operation: SettingsApplyOperation::ThumbWheelRouting { mode, speed_percent },
            requires_device_write: true,
        },
    )
}

/// Whether some step writes what a button does.
pub open spec fn sets_button(
    steps: Seq<SettingsApplyStep>,
    button: Master3sButton,
    action: ButtonAction,
) -> bool {
    steps.contains(
        SettingsApplyStep {
            feature: HidppFeature::ReprogrammableControls,
            operation: SettingsApplyOperation::ButtonMapping { button, action },
            requires_device_write: true,
        },
    )
}

/// A plan for a device that is known to hold some settings writes a setting exactly where
/// the wanted one differs, and writes it as it is wanted.
pub proof fn law_difference_plan_sets_what_differs(
    device_id: Seq<char>,
    base: settings::SettingsView,
    target: settings::SettingsView,
    button: Master3sButton,
)
    ensures
        ({
            let p = difference_plan(device_id, base, target);
            &&& p.device_id == device_id && p.profile_name == target.profile_name
            &&& base.pointer_speed_percent != target.pointer_speed_percent <==> sets_pointer(
                p.steps,
                target.pointer_speed_percent,
            )
            &&& base.ratchet_mode != target.ratchet_mode || base.smart_shift_enabled
                != target.smart_shift_enabled || base.smart_shift_threshold
                != target.smart_shift_threshold <==> sets_wheel(
                p.steps,
                target.ratchet_mode,
                target.smart_shift_enabled,
                target.smart_shift_threshold,
            )
            &&& base.high_resolution_scroll != target.high_resolution_scroll || base.natural_scroll
                != target.natural_scroll <==> sets_scrolling(
                p.steps,
                target.high_resolution_scroll,
                target.natural_scroll,
            )
            &&& base.thumb_wheel != target.thumb_wheel || base.thumb_wheel_speed_percent
                != target.thumb_wheel_speed_percent <==> sets_thumb_wheel(
                p.steps,
                target.thumb_wheel,
                target.thumb_wheel_speed_percent,
            )
            &&& settings::action_for(base.buttons, button) != settings::action_for(
                target.buttons,
                button,
            ) <==> sets_button(
                p.steps,
                button,
                settings::action_for(target.buttons, button),
            )
        }),
{
    let at = 4 + settings::button_position(button);
    assert(settings::all_buttons()[at - 4] == button);
    law_difference_covers_changes(base, target, 0);
    law_difference_covers_changes(base, target, 1);
    law_difference_covers_changes(base, target, 2);
    law_difference_covers_changes(base, target, 3);
    law_difference_covers_changes(base, target, at);
}

/// Settings were applied exactly where the transaction was committed and no step of it
/// failed, was not supported or was taken back.
pub proof fn law_applied_means_committed_without_failures(report: ReportView)
    ensures
        apply_failure(report) is None <==> report.transaction == SettingsTransactionState::Committed
            && forall|i: int|
            0 <= i < report.outcomes.len() ==> {
                ||| (#[trigger] report.outcomes[i]).status == SettingsApplyStatus::Applied
                ||| report.outcomes[i].status == SettingsApplyStatus::Skipped
            },
{
    lemma_failures(report.outcomes, report.outcomes.len());
}

proof fn lemma_failures(outcomes: Seq<OutcomeView>, n: nat)
    requires
        n <= outcomes.len(),
    ensures
        failure_texts(outcomes, n).len() == 0 <==> forall|i: int|
            0 <= i < n ==> {
                ||| (#[trigger] outcomes[i]).status == SettingsApplyStatus::Applied
                ||| outcomes[i].status == SettingsApplyStatus::Skipped
            },
    decreases n,
{
    if n > 0 {
        lemma_failures(outcomes, (n - 1) as nat);
        if step_failed(outcomes[n - 1].status) {
            assert(outcomes[n - 1].status != SettingsApplyStatus::Applied);
        }
    }
}

/// Plans are the same exactly where they are for the same device and profile and have the same
/// steps.
pub proof fn law_same_plans_agree_in_everything(a: &SettingsApplyPlan, b: &SettingsApplyPlan)
    ensures
        forall|r: bool|
            #![trigger call_ensures(same_plan, (a, b), r)]
            call_ensures(same_plan, (a, b), r) ==> (r <==> a@.device_id == b@.device_id
                && a@.profile_name == b@.profile_name && a@.steps == b@.steps),
{
}

}
