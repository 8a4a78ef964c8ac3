//! What the commands print of profiles and plans.

use crate::focus;
use crate::focus::ActiveApplication;
use crate::labels;
use crate::plan;
use crate::plan::{SettingsApplyPlan, SettingsApplyReport, SettingsApplyOutcome, SettingsApplyStep};
use crate::report;
use crate::runtime_plan;
use crate::runtime_plan::{LocalRuntimePlan, RuntimeButtonBinding};
use crate::settings;
use crate::settings::{AppProfile, AppProfileOverrides, ButtonBinding, Master3sSettings};
use crate::text;
use vstd::prelude::*;

verus! {

/// The profile of a mouse, and what the runtime has to do for it.
#[derive(Debug, PartialEq, Eq)]
pub struct ConfigReport {
    pub path: String,
    pub settings: Master3sSettings,
    pub runtime_plan: LocalRuntimePlan,
}

impl ConfigReport {
    /// The profile that is kept at a path.
    pub fn new(path: String, settings: &Master3sSettings) -> (r: Self)
        ensures
            r.path@ == path@,
            r.settings@ == settings::normal_settings(settings@),
            r.runtime_plan@ == runtime_plan::runtime_plan_of(
                settings::normal_settings(settings@),
            ),
    {
        let settings = settings.normalized();
        let runtime_plan = runtime_plan::build_master3s_runtime_plan(&settings);
        ConfigReport { path, settings, runtime_plan }
    }
}

/// The line of a profile of an application.
pub open spec fn profile_line(p: settings::ProfileView) -> Seq<char> {
    "    "@ + (p.name + ": "@ + labels::field_label(p.field) + " "@ + p.value + " · "@
        + text::decimal(AppProfileOverrides::count_spec(p.overrides) as nat) + " override group"@
        + report::plural_ending(AppProfileOverrides::count_spec(p.overrides) as nat))
}

/// The lines of the profiles of applications.
pub open spec fn profile_lines(profiles: Seq<settings::ProfileView>) -> Seq<Seq<char>> {
    seq!["  app profiles: "@ + text::decimal(profiles.len())] + profiles.map_values(
        |p: settings::ProfileView| profile_line(p),
    )
}

/// The line of a profile of an application, without its indentation.
fn describe_profile(p: &AppProfile) -> (r: String)
    ensures
        "    "@ + r@ == profile_line(p@),
{
    let count = p.overrides.count();
    let mut line = text::concat3(p.name.as_str(), ": ", p.matcher.field.label());
    line.append(" ");
    line.append(p.matcher.value.as_str());
    line.append(" · ");
    text::push_decimal(&mut line, count as u64);
    line.append(" override group");
    line.append(report::plural(count));
    line
}

/// The lines of the profiles of applications.
pub fn app_profiles_report(profiles: &Vec<AppProfile>) -> (lines: Vec<String>)
    ensures
        text::texts(lines@) == profile_lines(settings::profile_views(profiles@)),
{
    let ghost views = settings::profile_views(profiles@);
    let ghost rows = views.map_values(|p: settings::ProfileView| profile_line(p));
    let mut lines: Vec<String> = Vec::new();
    assert(text::texts(lines@) =~= Seq::<Seq<char>>::empty());
    report::add_line(
        &mut lines,
        "  app profiles: ",
        text::decimal_text(profiles.len() as u64).as_str(),
    );
    let ghost head = text::texts(lines@);
    assert(head =~= seq!["  app profiles: "@ + text::decimal(views.len())]);
    let mut i: usize = 0;
    assert(head =~= head + rows.take(0));
    while i < profiles.len()
        invariant
            i <= profiles@.len(),
            views == settings::profile_views(profiles@),
            views.len() == profiles@.len(),
            rows == views.map_values(|p: settings::ProfileView| profile_line(p)),
            text::texts(lines@) == head + rows.take(i as int),
        decreases profiles@.len() - i,
    {
        let line = describe_profile(&profiles[i]);
        report::add_line(&mut lines, "    ", line.as_str());
        i += 1;
        assert(views[i as int - 1] == profiles@[i as int - 1]@);
        assert(head + rows.take(i as int) =~= (head + rows.take(i as int - 1)).push(
            rows[i as int - 1],
        ));
    }
    assert(rows.take(i as int) =~= rows);
    lines
}

/// The line of a button.
pub open spec fn button_line(b: ButtonBinding) -> Seq<char> {
    "    "@ + (settings::button_label(b.button) + ": "@ + runtime_plan::button_action_label(
        b.action,
    ))
}

/// What is printed of the mouse itself.
pub open spec fn mouse_lines(path: Seq<char>, s: settings::SettingsView) -> Seq<Seq<char>> {
    seq![
        "Master 3S profile"@,
        "  path: "@ + path,
        "  profile: "@ + s.profile_name,
        "  pointer speed: "@ + (text::decimal(s.pointer_speed_percent as nat) + "%"@),
        "  SmartShift: "@ + (report::switched(s.smart_shift_enabled) + " at threshold "@
            + text::decimal(s.smart_shift_threshold as nat)),
        "  wheel mode: "@ + labels::ratchet_label(s.ratchet_mode),
        "  smooth scrolling: "@ + report::switched(s.high_resolution_scroll),
        "  scroll direction: "@ + (if s.natural_scroll {
            "natural"@
        } else {
            "standard"@
        }),
        "  thumb wheel: "@ + labels::thumb_mode_label(s.thumb_wheel),
        "  horizontal thumb wheel speed: "@ + (text::decimal(s.thumb_wheel_speed_percent as nat)
            + "%"@),
        "  buttons:"@,
    ] + s.buttons.map_values(|b: ButtonBinding| button_line(b))
}

/// What is printed of what the runtime has to do.
pub open spec fn runtime_line(plan: runtime_plan::RuntimePlanView) -> Seq<char> {
    "  local runtime: "@ + (if LocalRuntimePlan::listens(plan) {
        text::joined(runtime_plan::summary_parts(plan), ", "@)
    } else {
        "not required"@
    })
}

/// What is printed of a profile.
pub open spec fn config_lines(r: ConfigReport) -> Seq<Seq<char>> {
    mouse_lines(r.path@, r.settings@) + profile_lines(r.settings@.app_profiles) + seq![
        runtime_line(r.runtime_plan@),
    ]
}

/// A number with a percent sign.
fn percent(n: u64) -> (r: String)
    ensures
        r@ == text::decimal(n as nat) + "%"@,
{
    let mut r = text::decimal_text(n);
    r.append("%");
    r
}

fn mouse_report(path: &str, s: &Master3sSettings) -> (lines: Vec<String>)
    ensures
        text::texts(lines@) == mouse_lines(path@, s@),
{
    let mut lines: Vec<String> = Vec::new();
    assert(text::texts(lines@) =~= Seq::<Seq<char>>::empty());
    report::add_text(&mut lines, "Master 3S profile");
    report::add_line(&mut lines, "  path: ", path);
    report::add_line(&mut lines, "  profile: ", s.profile_name.as_str());
    report::add_line(&mut lines, "  pointer speed: ", percent(s.pointer_speed_percent as u64).as_str());
    let shift = text::concat3(
        report::enabled_text(s.smart_shift_enabled),
        " at threshold ",
        text::decimal_text(s.smart_shift_threshold as u64).as_str(),
    );
    report::add_line(&mut lines, "  SmartShift: ", shift.as_str());
    report::add_line(&mut lines, "  wheel mode: ", s.ratchet_mode.label());
    report::add_line(&mut lines, "  smooth scrolling: ", report::enabled_text(s.high_resolution_scroll));
    let direction: &str = if s.natural_scroll {
        "natural"
    } else {
        "standard"
    };
    report::add_line(&mut lines, "  scroll direction: ", direction);
    report::add_line(&mut lines, "  thumb wheel: ", s.thumb_wheel.label());
    report::add_line(
        &mut lines,
        "  horizontal thumb wheel speed: ",
        percent(s.thumb_wheel_speed_percent as u64).as_str(),
    );
    report::add_text(&mut lines, "  buttons:");
    let ghost head = text::texts(lines@);
    let ghost rows = s.buttons@.map_values(|b: ButtonBinding| button_line(b));
    let mut i: usize = 0;
    assert(head =~= head + rows.take(0));
    while i < s.buttons.len()
        invariant
            i <= s.buttons@.len(),
            rows == s.buttons@.map_values(|b: ButtonBinding| button_line(b)),
            text::texts(lines@) == head + rows.take(i as int),
        decreases s.buttons@.len() - i,
    {
        let binding = s.buttons[i];
        let line = text::concat3(binding.button.label(), ": ", binding.action.label());
        report::add_line(&mut lines, "    ", line.as_str());
        i += 1;
        assert(head + rows.take(i as int) =~= (head + rows.take(i as int - 1)).push(
            rows[i as int - 1],
        ));
    }
    assert(rows.take(i as int) =~= rows);
    assert(text::texts(lines@) =~= mouse_lines(path@, s@));
    lines
}

/// What is printed of a profile.
pub fn config_report(r: &ConfigReport) -> (lines: Vec<String>)
    ensures
        text::texts(lines@) == config_lines(*r),
{
    let mut lines = mouse_report(r.path.as_str(), &r.settings);
    report::add_all(&mut lines, app_profiles_report(&r.settings.app_profiles));
    let runtime = if r.runtime_plan.requires_listener() {
        r.runtime_plan.summary()
    } else {
        "not required".to_owned()
    };
    report::add_line(&mut lines, "  local runtime: ", runtime.as_str());
    assert(text::texts(lines@) =~= config_lines(*r));
    lines
}

/// The line of a button that the runtime acts for.
pub open spec fn runtime_button_line(b: RuntimeButtonBinding) -> Seq<char> {
    "    "@ + (settings::button_label(b.button) + " -> "@ + runtime_plan::button_action_label(
        b.action,
    ) + " (control 0x"@ + text::hex_digits(b.control_id as nat, 4, true) + ")"@)
}

/// What is printed of what the runtime has to do.
pub open spec fn runtime_plan_lines(plan: runtime_plan::RuntimePlanView) -> Seq<Seq<char>> {
    seq![
        "Master 3S local runtime"@,
        "  profile: "@ + plan.profile_name,
        "  required: "@ + report::truth(LocalRuntimePlan::listens(plan)),
        "  summary: "@ + text::joined(runtime_plan::summary_parts(plan), ", "@),
    ] + (match plan.thumb_wheel {
        Some(action) => seq!["  thumb wheel: "@ + runtime_plan::thumb_wheel_label(action)],
        None => Seq::empty(),
    }) + (if plan.buttons.len() > 0 {
        seq!["  buttons:"@] + plan.buttons.map_values(
            |b: RuntimeButtonBinding| runtime_button_line(b),
        )
    } else {
        Seq::empty()
    }) + seq!["  app profiles: "@ + text::decimal(plan.app_profiles.len())]
}

fn add_runtime_buttons(lines: &mut Vec<String>, buttons: &Vec<RuntimeButtonBinding>)
    ensures
        text::texts(final(lines)@) == text::texts(old(lines)@) + buttons@.map_values(
            |b: RuntimeButtonBinding| runtime_button_line(b),
        ),
{
    let ghost before = text::texts(lines@);
    let ghost rows = buttons@.map_values(|b: RuntimeButtonBinding| runtime_button_line(b));
    let mut i: usize = 0;
    assert(before =~= before + rows.take(0));
    while i < buttons.len()
        invariant
            i <= buttons@.len(),
            rows == buttons@.map_values(|b: RuntimeButtonBinding| runtime_button_line(b)),
            text::texts(lines@) == before + rows.take(i as int),
        decreases buttons@.len() - i,
    {
        let binding = buttons[i];
        let mut line = text::concat3(binding.button.label(), " -> ", binding.action.label());
        line.append(" (control 0x");
        text::push_hex(&mut line, binding.control_id as u32, 4, true);
        line.append(")");
        report::add_line(lines, "    ", line.as_str());
        i += 1;
        assert(before + rows.take(i as int) =~= (before + rows.take(i as int - 1)).push(
            rows[i as int - 1],
        ));
    }
    assert(rows.take(i as int) =~= rows);
}

/// What is printed of what the runtime has to do.
pub fn runtime_plan_report(plan: &LocalRuntimePlan) -> (lines: Vec<String>)
    ensures
        text::texts(lines@) == runtime_plan_lines(plan@),
{
    let mut lines: Vec<String> = Vec::new();
    assert(text::texts(lines@) =~= Seq::<Seq<char>>::empty());
    report::add_text(&mut lines, "Master 3S local runtime");
    report::add_line(&mut lines, "  profile: ", plan.profile_name.as_str());
    report::add_line(&mut lines, "  required: ", report::truth_text(plan.requires_listener()));
    report::add_line(&mut lines, "  summary: ", plan.summary().as_str());
    if let Some(action) = plan.thumb_wheel {
        report::add_line(&mut lines, "  thumb wheel: ", action.label().as_str());
    }
    if plan.buttons.len() > 0 {
        report::add_text(&mut lines, "  buttons:");
        add_runtime_buttons(&mut lines, &plan.buttons);
    }
    report::add_line(
        &mut lines,
        "  app profiles: ",
        text::decimal_text(plan.app_profiles.len() as u64).as_str(),
    );
    assert(text::texts(lines@) =~= runtime_plan_lines(plan@));
    lines
}

/// The line of a step.
pub open spec fn step_line(step: SettingsApplyStep) -> Seq<char> {
    "  - ["@ + (labels::step_scope(step) + "] "@ + labels::step_title(step.operation))
}

/// What is printed of a plan.
pub open spec fn plan_lines(p: plan::PlanView) -> Seq<Seq<char>> {
    seq![
        "Apply plan for "@ + p.device_id,
        "  profile: "@ + p.profile_name,
        "  requires device write: "@ + report::truth(plan_writes(p.steps)),
    ] + p.steps.map_values(|step: SettingsApplyStep| step_line(step))
}

/// Whether a step writes to the device.
pub open spec fn plan_writes(steps: Seq<SettingsApplyStep>) -> bool {
    exists|i: int| 0 <= i < steps.len() && (#[trigger] steps[i]).requires_device_write
}

impl SettingsApplyPlan {
    /// Whether a step writes to the device.
    pub fn requires_device_write(&self) -> (r: bool)
        ensures
            r == plan_writes(self@.steps),
    {
        let mut i: usize = 0;
        while i < self.steps.len()
            invariant
                i <= self.steps@.len(),
                forall|k: int|
                    0 <= k < i ==> !(#[trigger] self.steps@[k]).requires_device_write,
            decreases self.steps@.len() - i,
        {
            if self.steps[i].requires_device_write {
                return true;
            }
            i += 1;
        }
        false
    }
}

/// What is printed of a plan.
pub fn apply_plan_report(p: &SettingsApplyPlan) -> (lines: Vec<String>)
    ensures
        text::texts(lines@) == plan_lines(p@),
{
    let mut lines: Vec<String> = Vec::new();
    assert(text::texts(lines@) =~= Seq::<Seq<char>>::empty());
    report::add_line(&mut lines, "Apply plan for ", p.device_id.as_str());
    report::add_line(&mut lines, "  profile: ", p.profile_name.as_str());
    report::add_line(
        &mut lines,
        "  requires device write: ",
        report::truth_text(p.requires_device_write()),
    );
    let ghost head = text::texts(lines@);
    let ghost rows = p.steps@.map_values(|step: SettingsApplyStep| step_line(step));
    let mut i: usize = 0;
    assert(head =~= head + rows.take(0));
    while i < p.steps.len()
        invariant
            i <= p.steps@.len(),
            rows == p.steps@.map_values(|step: SettingsApplyStep| step_line(step)),
            text::texts(lines@) == head + rows.take(i as int),
        decreases p.steps@.len() - i,
    {
        let step = p.steps[i];
        let line = text::concat3(step.scope(), "] ", step.title().as_str());
        report::add_line(&mut lines, "  - [", line.as_str());
        i += 1;
        assert(head + rows.take(i as int) =~= (head + rows.take(i as int - 1)).push(
            rows[i as int - 1],
        ));
    }
    assert(rows.take(i as int) =~= rows);
    assert(text::texts(lines@) =~= plan_lines(p@));
    lines
}

/// The line of what became of a step.
pub open spec fn outcome_line(o: plan::OutcomeView) -> Seq<char> {
    "  - ["@ + (labels::status_label(o.status) + "] "@ + o.title + (match o.detail {
        Some(detail) => " ("@ + detail + ")"@,
        None => Seq::empty(),
    }))
}

/// What is printed of what became of a plan.
pub open spec fn apply_lines(r: plan::ReportView) -> Seq<Seq<char>> {
    seq![
        "Apply report for "@ + r.device_id,
        "  profile: "@ + r.profile_name,
        "  transaction: "@ + labels::transaction_label(r.transaction),
    ] + r.outcomes.map_values(|o: plan::OutcomeView| outcome_line(o))
}

/// The line of what became of a step, without its start.
fn describe_outcome(o: &SettingsApplyOutcome) -> (r: String)
    ensures
        "  - ["@ + r@ == outcome_line(o@),
{
    let mut line = text::concat3(labels::apply_status_label(o.status), "] ", o.title.as_str());
    if let Some(detail) = &o.detail {
        line.append(" (");
        line.append(detail.as_str());
        line.append(")");
    }
    assert("  - ["@ + line@ =~= outcome_line(o@));
    line
}

/// What is printed of what became of a plan.
pub fn apply_report(r: &SettingsApplyReport) -> (lines: Vec<String>)
    ensures
        text::texts(lines@) == apply_lines(r@),
{
    let mut lines: Vec<String> = Vec::new();
    assert(text::texts(lines@) =~= Seq::<Seq<char>>::empty());
    report::add_line(&mut lines, "Apply report for ", r.device_id.as_str());
    report::add_line(&mut lines, "  profile: ", r.profile_name.as_str());
    report::add_line(
        &mut lines,
        "  transaction: ",
        labels::transaction_status_label(r.transaction),
    );
    let ghost head = text::texts(lines@);
    let ghost rows = r@.outcomes.map_values(|o: plan::OutcomeView| outcome_line(o));
    let mut i: usize = 0;
    assert(head =~= head + rows.take(0));
    while i < r.outcomes.len()
        invariant
            i <= r.outcomes@.len(),
            rows == r@.outcomes.map_values(|o: plan::OutcomeView| outcome_line(o)),
            text::texts(lines@) == head + rows.take(i as int),
        decreases r.outcomes@.len() - i,
    {
        let line = describe_outcome(&r.outcomes[i]);
        report::add_line(&mut lines, "  - [", line.as_str());
        i += 1;
        assert(r@.outcomes[i as int - 1] == r.outcomes@[i as int - 1]@);
        assert(head + rows.take(i as int) =~= (head + rows.take(i as int - 1)).push(
            rows[i as int - 1],
        ));
    }
    assert(rows.take(i as int) =~= rows);
    assert(text::texts(lines@) =~= apply_lines(r@));
    lines
}

/// The parts of an application that are known, in words.
pub open spec fn application_summary(a: focus::ApplicationView) -> Seq<char> {
    match (a.name, a.class, a.executable) {
        (Some(name), Some(class), _) => name + " ("@ + class + ")"@,
        (Some(name), None, _) => name,
        (None, Some(class), _) => class,
        (None, None, Some(executable)) => executable,
        (None, None, None) => Seq::empty(),
    }
}

impl ActiveApplication {
    /// The parts of the application that are known, in words.
    pub fn summary(&self) -> (r: String)
        ensures
            r@ == application_summary(self@),
    {
        match (&self.name, &self.class, &self.executable) {
            (Some(name), Some(class), _) => {
                let mut r = text::concat3(name.as_str(), " (", class.as_str());
                r.append(")");
                r
            },
            (Some(name), None, _) => name.clone(),
            (None, Some(class), _) => class.clone(),
            (None, None, Some(executable)) => executable.clone(),
            (None, None, None) => String::new(),
        }
    }
}

/// What is printed where another application has the focus.
pub fn profile_change_report(
    application: &Option<ActiveApplication>,
    profile: &Option<String>,
) -> (lines: Vec<String>)
    ensures
        text::texts(lines@) == seq![
            "  active app: "@ + (match application {
                Some(a) if application_summary(a@).len() > 0 => application_summary(a@),
                _ => "unknown application"@,
            }),
            "  active profile: "@ + (match text::optional(*profile) {
                Some(profile) => profile,
                None => "default profile"@,
            }),
        ],
{
    let shown = match application {
        Some(a) => {
            let summary = a.summary();
            if summary.as_str().is_empty() {
                "unknown application".to_owned()
            } else {
                summary
            }
        },
        None => "unknown application".to_owned(),
    };
    let chosen = match profile {
        Some(profile) => profile.clone(),
        None => "default profile".to_owned(),
    };
    let mut lines: Vec<String> = Vec::new();
    assert(text::texts(lines@) =~= Seq::<Seq<char>>::empty());
    report::add_line(&mut lines, "  active app: ", shown.as_str());
    report::add_line(&mut lines, "  active profile: ", chosen.as_str());
    assert(text::texts(lines@) =~= seq!["  active app: "@ + shown@, "  active profile: "@ + chosen@]);
    lines
}

/// The settings are printed, each on a line of its own.
pub proof fn law_settings_are_printed(path: Seq<char>, s: settings::SettingsView, i: int)
    ensures
        ({
            let lines = mouse_lines(path, s);
            &&& lines.len() == 11 + s.buttons.len()
            &&& lines[1] == "  path: "@ + path
            &&& lines[2] == "  profile: "@ + s.profile_name
            &&& lines[3] == "  pointer speed: "@ + (text::decimal(s.pointer_speed_percent as nat)
                + "%"@)
            &&& s.smart_shift_enabled ==> lines[4] == "  SmartShift: "@ + ("enabled"@
                + " at threshold "@ + text::decimal(s.smart_shift_threshold as nat))
            &&& !s.smart_shift_enabled ==> lines[4] == "  SmartShift: "@ + ("disabled"@
                + " at threshold "@ + text::decimal(s.smart_shift_threshold as nat))
            &&& lines[5] == "  wheel mode: "@ + labels::ratchet_label(s.ratchet_mode)
            &&& s.high_resolution_scroll ==> lines[6] == "  smooth scrolling: "@ + "enabled"@
            &&& !s.high_resolution_scroll ==> lines[6] == "  smooth scrolling: "@ + "disabled"@
            &&& s.natural_scroll ==> lines[7] == "  scroll direction: "@ + "natural"@
            &&& !s.natural_scroll ==> lines[7] == "  scroll direction: "@ + "standard"@
            &&& lines[8] == "  thumb wheel: "@ + labels::thumb_mode_label(s.thumb_wheel)
            &&& lines[9] == "  horizontal thumb wheel speed: "@ + (text::decimal(
                s.thumb_wheel_speed_percent as nat,
            ) + "%"@)
            &&& 0 <= i < s.buttons.len() ==> lines[11 + i] == "    "@ + (settings::button_label(
                s.buttons[i].button,
            ) + ": "@ + runtime_plan::button_action_label(s.buttons[i].action))
        }),
{
}

/// The profiles are counted and printed, one per line.
pub proof fn law_profiles_are_printed(profiles: Seq<settings::ProfileView>, i: int)
    ensures
        profile_lines(profiles).len() == profiles.len() + 1,
        profile_lines(profiles)[0] == "  app profiles: "@ + text::decimal(profiles.len()),
        0 <= i < profiles.len() ==> profile_lines(profiles)[i + 1] == profile_line(profiles[i]),
{
}

/// A plan is printed with each of its steps, whether any writes the device, and for which device
/// it is.
pub proof fn law_plans_are_printed(p: plan::PlanView, i: int)
    ensures
        plan_lines(p).len() == p.steps.len() + 3,
        plan_lines(p)[0] == "Apply plan for "@ + p.device_id,
        plan_lines(p)[1] == "  profile: "@ + p.profile_name,
        0 <= i < p.steps.len() && p.steps[i].requires_device_write ==> plan_lines(p)[2]
            == "  requires device write: "@ + "true"@,
        (forall|k: int| 0 <= k < p.steps.len() ==> !(#[trigger] p.steps[k]).requires_device_write)
            ==> plan_lines(p)[2] == "  requires device write: "@ + "false"@,
        0 <= i < p.steps.len() ==> plan_lines(p)[i + 3] == "  - ["@ + (labels::step_scope(
            p.steps[i],
        ) + "] "@ + labels::step_title(p.steps[i].operation)),
{
}

/// What became of a plan is printed with each outcome.
pub proof fn law_outcomes_are_printed(r: plan::ReportView, i: int)
    ensures
        apply_lines(r).len() == r.outcomes.len() + 3,
        apply_lines(r)[0] == "Apply report for "@ + r.device_id,
        apply_lines(r)[1] == "  profile: "@ + r.profile_name,
        apply_lines(r)[2] == "  transaction: "@ + labels::transaction_label(r.transaction),
        0 <= i < r.outcomes.len() && r.outcomes[i].detail is Some ==> apply_lines(r)[i + 3]
            == "  - ["@ + (labels::status_label(r.outcomes[i].status) + "] "@ + r.outcomes[i].title
            + (" ("@ + r.outcomes[i].detail->0 + ")"@)),
{
}

/// An application is told by its name and its class, or by what of them is known.
pub proof fn law_applications_are_told(name: Seq<char>, class: Seq<char>, program: Option<Seq<char>>)
    ensures
        application_summary(
            focus::ApplicationView { name: Some(name), class: Some(class), executable: program },
        ) == name + " ("@ + class + ")"@,
        application_summary(
            focus::ApplicationView { name: Some(name), class: None, executable: program },
        ) == name,
        application_summary(
            focus::ApplicationView { name: None, class: Some(class), executable: program },
        ) == class,
        program matches Some(executable) ==> application_summary(
            focus::ApplicationView { name: None, class: None, executable: program },
        ) == executable,
{
}

/// What is reported of a configuration is its normal form and the plan that it makes.
pub proof fn law_reports_show_the_normal_form(path: String, s: &Master3sSettings)
    ensures
        forall|r: ConfigReport|
            #![trigger call_ensures(ConfigReport::new, (path, s), r)]
            call_ensures(ConfigReport::new, (path, s), r) ==> r.path@ == path@ && r.settings@
                == settings::normal_settings(s@) && r.runtime_plan@
                == runtime_plan::runtime_plan_of(settings::normal_settings(s@)),
        forall|p: runtime_plan::RuntimePlanView|
            LocalRuntimePlan::listens(p) ==> #[trigger] runtime_line(p) == "  local runtime: "@
                + text::joined(runtime_plan::summary_parts(p), ", "@),
        forall|p: runtime_plan::RuntimePlanView|
            !LocalRuntimePlan::listens(p) ==> #[trigger] runtime_line(p) == "  local runtime: "@
                + "not required"@,
{
}

/// What the runtime has to do is printed: for the thumb wheel, for each button with its control,
/// and whether there is anything.
pub proof fn law_runtime_plans_are_printed(plan: runtime_plan::RuntimePlanView, i: int)
    ensures
        runtime_plan_lines(plan)[1] == "  profile: "@ + plan.profile_name,
        plan.thumb_wheel is Some || plan.buttons.len() > 0 ==> runtime_plan_lines(plan)[2]
            == "  required: "@ + "true"@,
        plan.thumb_wheel is None && plan.buttons.len() == 0 ==> runtime_plan_lines(plan)[2]
            == "  required: "@ + "false"@,
        plan.thumb_wheel matches Some(action) ==> runtime_plan_lines(plan)[4] == "  thumb wheel: "@
            + runtime_plan::thumb_wheel_label(action),
        plan.thumb_wheel is Some && 0 <= i < plan.buttons.len() ==> runtime_plan_lines(plan)[6 + i]
            == "    "@ + (settings::button_label(plan.buttons[i].button) + " -> "@
            + runtime_plan::button_action_label(plan.buttons[i].action) + " (control 0x"@
            + text::hex_digits(plan.buttons[i].control_id as nat, 4, true) + ")"@),
        runtime_plan_lines(plan).last() == "  app profiles: "@ + text::decimal(
            plan.app_profiles.len(),
        ),
{
}

/// A configuration is printed with its settings, its profiles and what the runtime has to do.
pub proof fn law_configurations_are_printed(r: ConfigReport)
    ensures
        config_lines(r).len() == 13 + r.settings@.buttons.len() + r.settings@.app_profiles.len(),
        config_lines(r).take(11 + r.settings@.buttons.len() as int) == mouse_lines(r.path@, r.settings@),
        config_lines(r)[11 + r.settings@.buttons.len() as int] == "  app profiles: "@ + text::decimal(
            r.settings@.app_profiles.len(),
        ),
        config_lines(r).last() == runtime_line(r.runtime_plan@),
{
    assert(config_lines(r).take(11 + r.settings@.buttons.len() as int) =~= mouse_lines(
        r.path@,
        r.settings@,
    ));
}

}
