//! What the local runtime has to do for the settings, and the events and actions
//! that it deals with.

use crate::settings::{AppProfile, ButtonAction, Action, Master3sButton, Master3sSettings, ThumbWheelMode};
use crate::settings;
use crate::text;
use vstd::prelude::*;

verus! {

/// A key that the runtime can press.
#[derive(Clone, Copy, Debug, PartialEq, Eq, Structural)]
pub enum RuntimeKey {
    Control,
    Shift,
    Alt,
    Super,
    Tab,
    Equal,
    Minus,
    Left,
    Right,
    C,
    V,
    VolumeUp,
    VolumeDown,
}

/// A mouse button that the runtime can press.
#[derive(Clone, Copy, Debug, PartialEq, Eq, Structural)]
pub enum RuntimeMouseButton {
    Middle,
}

/// Input that the runtime injects.
#[derive(Debug, PartialEq, Eq)]
pub enum RuntimeCommand {
    KeyChord(Vec<RuntimeKey>),
    MouseButton(RuntimeMouseButton),
    HorizontalScroll { delta: i16, resolution: u16, direction: i8, speed_percent: u16 },
    Noop,
    Unsupported,
}

/// The mathematical value of [`RuntimeCommand`].
#[verifier::ext_equal]
pub enum CommandView {
    KeyChord(Seq<RuntimeKey>),
    MouseButton(RuntimeMouseButton),
    HorizontalScroll { delta: i16, resolution: u16, direction: i8, speed_percent: u16 },
    Noop,
    Unsupported,
}

impl View for RuntimeCommand {
    type V = CommandView;

    open spec fn view(&self) -> CommandView {
        match self {
            RuntimeCommand::KeyChord(keys) => CommandView::KeyChord(keys@),
            RuntimeCommand::MouseButton(button) => CommandView::MouseButton(*button),
            RuntimeCommand::HorizontalScroll { delta, resolution, direction, speed_percent } =>
                CommandView::HorizontalScroll {
                    delta: *delta,
                    resolution: *resolution,
                    direction: *direction,
                    speed_percent: *speed_percent,
                },
            RuntimeCommand::Noop => CommandView::Noop,
            RuntimeCommand::Unsupported => CommandView::Unsupported,
        }
    }
}

/// A copy of a list of keys.
pub fn copy_keys(keys: &Vec<RuntimeKey>) -> (r: Vec<RuntimeKey>)
    ensures
        r@ == keys@,
{
    let mut r: Vec<RuntimeKey> = Vec::new();
    let mut i: usize = 0;
    while i < keys.len()
        invariant
            i <= keys@.len(),
            r@ == keys@.take(i as int),
        decreases keys@.len() - i,
    {
        r.push(keys[i]);
        i += 1;
        assert(r@ == keys@.take(i as int));
    }
    assert(keys@.take(keys@.len() as int) == keys@);
    r
}

impl Clone for RuntimeCommand {
    fn clone(&self) -> (r: Self)
        ensures
            r@ == self@,
    {
        match self {
            RuntimeCommand::KeyChord(keys) => RuntimeCommand::KeyChord(copy_keys(keys)),
            RuntimeCommand::MouseButton(button) => RuntimeCommand::MouseButton(*button),
            RuntimeCommand::HorizontalScroll { delta, resolution, direction, speed_percent } =>
                RuntimeCommand::HorizontalScroll {
                    delta: *delta,
                    resolution: *resolution,
                    direction: *direction,
                    speed_percent: *speed_percent,
                },
            RuntimeCommand::Noop => RuntimeCommand::Noop,
            RuntimeCommand::Unsupported => RuntimeCommand::Unsupported,
        }
    }
}

/// What an action answers to.
#[derive(Clone, Copy, Debug, PartialEq, Eq, Structural)]
pub enum RuntimeActionSource {
    ThumbWheel,
    Button(Master3sButton),
    Gesture { button: Master3sButton, direction: settings::GestureDirection },
    UnknownControlId(u16),
}

/// An action that an event was resolved to.
#[derive(Debug, PartialEq, Eq)]
pub struct ResolvedRuntimeAction {
    pub source: RuntimeActionSource,
    pub command: RuntimeCommand,
}

/// The mathematical value of [`ResolvedRuntimeAction`].
#[verifier::ext_equal]
pub struct ActionView {
    pub source: RuntimeActionSource,
    pub command: CommandView,
}

impl View for ResolvedRuntimeAction {
    type V = ActionView;

    open spec fn view(&self) -> ActionView {
        ActionView { source: self.source, command: self.command@ }
    }
}

impl Clone for ResolvedRuntimeAction {
    fn clone(&self) -> (r: Self)
        ensures
            r@ == self@,
    {
        ResolvedRuntimeAction { source: self.source, command: self.command.clone() }
    }
}

/// Something the mouse reported to the runtime.
#[derive(Debug, PartialEq, Eq)]
pub enum Master3sRuntimeEvent {
    ThumbWheel { delta: i16, phase: Option<u8>, resolution: u16, direction: i8 },
    DivertedButtons { buttons: Vec<Master3sButton>, unknown_control_ids: Vec<u16> },
    RawMovement { x: i16, y: i16 },
}

/// The mathematical value of [`Master3sRuntimeEvent`].
#[verifier::ext_equal]
pub enum EventView {
    ThumbWheel { delta: i16, phase: Option<u8>, resolution: u16, direction: i8 },
    DivertedButtons { buttons: Seq<Master3sButton>, unknown_control_ids: Seq<u16> },
    RawMovement { x: i16, y: i16 },
}

impl View for Master3sRuntimeEvent {
    type V = EventView;

    open spec fn view(&self) -> EventView {
        match self {
            Master3sRuntimeEvent::ThumbWheel { delta, phase, resolution, direction } =>
                EventView::ThumbWheel {
                    delta: *delta,
                    phase: *phase,
                    resolution: *resolution,
                    direction: *direction,
                },
            Master3sRuntimeEvent::DivertedButtons { buttons, unknown_control_ids } =>
                EventView::DivertedButtons {
                    buttons: buttons@,
                    unknown_control_ids: unknown_control_ids@,
                },
            Master3sRuntimeEvent::RawMovement { x, y } => EventView::RawMovement { x: *x, y: *y },
        }
    }
}

/// What the runtime does with the thumb wheel.
#[derive(Clone, Copy, Debug, PartialEq, Eq, Structural)]
pub enum ThumbWheelRuntimeAction {
    HorizontalScroll { speed_percent: u16 },
    TabSwitch,
    Zoom,
    Volume,
    Disabled,
}

/// A button that the runtime acts for.
#[derive(Clone, Copy, Debug, PartialEq, Eq, Structural)]
pub struct RuntimeButtonBinding {
    pub button: Master3sButton,
    pub action: ButtonAction,
    pub control_id: u16,
}

/// What the runtime has to do for the settings.
#[derive(Debug, PartialEq, Eq)]
pub struct LocalRuntimePlan {
    pub profile_name: String,
    pub thumb_wheel: Option<ThumbWheelRuntimeAction>,
    pub buttons: Vec<RuntimeButtonBinding>,
    pub app_profiles: Vec<AppProfile>,
}

/// The mathematical value of [`LocalRuntimePlan`].
#[verifier::ext_equal]
pub struct RuntimePlanView {
    pub profile_name: Seq<char>,
    pub thumb_wheel: Option<ThumbWheelRuntimeAction>,
    pub buttons: Seq<RuntimeButtonBinding>,
    pub app_profiles: Seq<settings::ProfileView>,
}

impl View for LocalRuntimePlan {
    type V = RuntimePlanView;

    open spec fn view(&self) -> RuntimePlanView {
        RuntimePlanView {
            profile_name: self.profile_name@,
            thumb_wheel: self.thumb_wheel,
            buttons: self.buttons@,
            app_profiles: settings::profile_views(self.app_profiles@),
        }
    }
}

/// What the runtime does with the thumb wheel: nothing where the mouse scrolls
/// at its own speed.
pub open spec fn thumb_wheel_action(s: settings::SettingsView) -> Option<ThumbWheelRuntimeAction> {
    match s.thumb_wheel {
        ThumbWheelMode::HorizontalScroll => if s.thumb_wheel_speed_percent
            == settings::DEFAULT_THUMB_WHEEL_SPEED_PERCENT {
            None
        } else {
            Some(
                ThumbWheelRuntimeAction::HorizontalScroll {
                    speed_percent: s.thumb_wheel_speed_percent,
                },
            )
        },
        ThumbWheelMode::TabSwitch => Some(ThumbWheelRuntimeAction::TabSwitch),
        ThumbWheelMode::Zoom => Some(ThumbWheelRuntimeAction::Zoom),
        ThumbWheelMode::Volume => Some(ThumbWheelRuntimeAction::Volume),
        ThumbWheelMode::Disabled => Some(ThumbWheelRuntimeAction::Disabled),
    }
}

/// Whether the runtime has to act for a button.
pub open spec fn needs_runtime(action: ButtonAction) -> bool {
    action != ButtonAction::Native
}

/// The buttons among the first `n` that the runtime has to act for.
pub open spec fn runtime_buttons(
    bindings: Seq<settings::ButtonBinding>,
    n: nat,
) -> Seq<RuntimeButtonBinding>
    decreases n,
{
    if n == 0 {
        Seq::empty()
    } else {
        let before = runtime_buttons(bindings, (n - 1) as nat);
        let binding = bindings[n - 1];
        if needs_runtime(binding.action) {
            before.push(
                RuntimeButtonBinding {
                    button: binding.button,
                    action: binding.action,
                    control_id: settings::control_id_of(binding.button),
                },
            )
        } else {
            before
        }
    }
}

/// What the runtime has to do for the settings.
pub open spec fn runtime_plan_of(s: settings::SettingsView) -> RuntimePlanView {
    RuntimePlanView {
        profile_name: s.profile_name,
        thumb_wheel: thumb_wheel_action(s),
        buttons: runtime_buttons(s.buttons, s.buttons.len()),
        app_profiles: s.app_profiles,
    }
}

/// Whether the runtime has to act for a button.
pub fn button_action_requires_runtime(action: ButtonAction) -> (r: bool)
    ensures
        r == needs_runtime(action),
{
    action != ButtonAction::Native
}

/// What the runtime has to do for the settings.
pub fn build_master3s_runtime_plan(s: &Master3sSettings) -> (r: LocalRuntimePlan)
    ensures
        r@ == runtime_plan_of(s@),
{
    let thumb_wheel = match s.thumb_wheel {
        ThumbWheelMode::HorizontalScroll => if s.thumb_wheel_speed_percent
            == settings::DEFAULT_THUMB_WHEEL_SPEED_PERCENT {
            None
        } else {
            Some(
                ThumbWheelRuntimeAction::HorizontalScroll {
                    speed_percent: s.thumb_wheel_speed_percent,
                },
            )
        },
        ThumbWheelMode::TabSwitch => Some(ThumbWheelRuntimeAction::TabSwitch),
        ThumbWheelMode::Zoom => Some(ThumbWheelRuntimeAction::Zoom),
        ThumbWheelMode::Volume => Some(ThumbWheelRuntimeAction::Volume),
        ThumbWheelMode::Disabled => Some(ThumbWheelRuntimeAction::Disabled),
    };
    let mut buttons: Vec<RuntimeButtonBinding> = Vec::new();
    let mut i: usize = 0;
    while i < s.buttons.len()
        invariant
            i <= s.buttons@.len(),
            buttons@ == runtime_buttons(s.buttons@, i as nat),
        decreases s.buttons@.len() - i,
    {
        let binding = s.buttons[i];
        if button_action_requires_runtime(binding.action) {
            buttons.push(
                RuntimeButtonBinding {
                    button: binding.button,
                    action: binding.action,
                    control_id: settings::master3s_button_control_id(binding.button),
                },
            );
        }
        i += 1;
    }
    LocalRuntimePlan {
        profile_name: s.profile_name.clone(),
        thumb_wheel,
        buttons,
        app_profiles: settings::copy_profiles(&s.app_profiles),
    }
}

/// The name of what the runtime does with the thumb wheel.
pub open spec fn thumb_wheel_label(action: ThumbWheelRuntimeAction) -> Seq<char> {
    match action {
        ThumbWheelRuntimeAction::HorizontalScroll { speed_percent } => "horizontal scroll at "@
            + text::decimal(speed_percent as nat) + "%"@,
        ThumbWheelRuntimeAction::TabSwitch => "tab switch"@,
        ThumbWheelRuntimeAction::Zoom => "zoom"@,
        ThumbWheelRuntimeAction::Volume => "volume"@,
        ThumbWheelRuntimeAction::Disabled => "disabled"@,
    }
}

impl ThumbWheelRuntimeAction {
    /// The name that the user is shown.
    pub fn label(self) -> (r: String)
        ensures
            r@ == thumb_wheel_label(self),
    {
        match self {
            ThumbWheelRuntimeAction::HorizontalScroll { speed_percent } => {
                let mut r = "horizontal scroll at ".to_owned();
                text::push_decimal(&mut r, speed_percent as u64);
                r.append("%");
                r
            },
            ThumbWheelRuntimeAction::TabSwitch => "tab switch".to_owned(),
            ThumbWheelRuntimeAction::Zoom => "zoom".to_owned(),
            ThumbWheelRuntimeAction::Volume => "volume".to_owned(),
            ThumbWheelRuntimeAction::Disabled => "disabled".to_owned(),
        }
    }
}

/// The name of an action.
pub open spec fn action_label(action: Action) -> Seq<char> {
    match action {
        Action::Back => "back"@,
        Action::Forward => "forward"@,
        Action::Overview => "overview"@,
        Action::WindowSwitcher => "switch windows"@,
        Action::PreviousWorkspace => "previous workspace"@,
        Action::NextWorkspace => "next workspace"@,
        Action::MiddleClick => "middle click"@,
        Action::Copy => "copy"@,
        Action::Paste => "paste"@,
        Action::Disabled => "disabled"@,
    }
}

impl Action {
    /// The name that the user is shown.
    pub fn label(self) -> (r: &'static str)
        ensures
            r@ == action_label(self),
    {
        match self {
            Action::Back => "back",
            Action::Forward => "forward",
            Action::Overview => "overview",
            Action::WindowSwitcher => "switch windows",
            Action::PreviousWorkspace => "previous workspace",
            Action::NextWorkspace => "next workspace",
            Action::MiddleClick => "middle click",
            Action::Copy => "copy",
            Action::Paste => "paste",
            Action::Disabled => "disabled",
        }
    }
}

/// The name of what a button does.
pub open spec fn button_action_label(action: ButtonAction) -> Seq<char> {
    match action {
        ButtonAction::Native => "default behavior"@,
        ButtonAction::Gestures => "gestures"@,
        ButtonAction::Action(action) => action_label(action),
    }
}

impl ButtonAction {
    /// The name that the user is shown.
    pub fn label(self) -> (r: &'static str)
        ensures
            r@ == button_action_label(self),
    {
        match self {
            ButtonAction::Native => "default behavior",
            ButtonAction::Gestures => "gestures",
            ButtonAction::Action(action) => action.label(),
        }
    }
}

/// The summary of what the runtime does for a button.
pub open spec fn button_summary(binding: RuntimeButtonBinding) -> Seq<char> {
    settings::button_label(binding.button) + " "@ + button_action_label(binding.action)
}

/// What the runtime does, one part for the thumb wheel and one for each button.
pub open spec fn summary_parts(plan: RuntimePlanView) -> Seq<Seq<char>> {
    (match plan.thumb_wheel {
        Some(action) => seq!["thumb wheel "@ + thumb_wheel_label(action)],
        None => Seq::empty(),
    }) + Seq::new(plan.buttons.len(), |i: int| button_summary(plan.buttons[i]))
}

impl LocalRuntimePlan {
    /// Whether there is anything for the runtime to do.
    pub open spec fn listens(plan: RuntimePlanView) -> bool {
        plan.thumb_wheel is Some || plan.buttons.len() > 0
    }

    /// Whether there is anything for the runtime to do.
    pub fn requires_listener(&self) -> (r: bool)
        ensures
            r == LocalRuntimePlan::listens(self@),
    {
        self.thumb_wheel.is_some() || self.buttons.len() > 0
    }

    /// What the runtime does, in one line.
    pub fn summary(&self) -> (r: String)
        ensures
            r@ == text::joined(summary_parts(self@), ", "@),
    {
        let mut parts: Vec<String> = Vec::new();
        if let Some(action) = self.thumb_wheel {
            parts.push(text::concat2("thumb wheel ", action.label().as_str()));
        }
        let ghost head = text::texts(parts@);
        let mut i: usize = 0;
        while i < self.buttons.len()
            invariant
                i <= self.buttons@.len(),
                text::texts(parts@) == head + Seq::new(
                    self.buttons@.len(),
                    |k: int| button_summary(self.buttons@[k]),
                ).take(i as int),
            decreases self.buttons@.len() - i,
        {
            let binding = self.buttons[i];
            let ghost before = parts@;
            parts.push(text::concat3(binding.button.label(), " ", binding.action.label()));
            i += 1;
            assert(text::texts(parts@) == text::texts(before).push(button_summary(binding)));
            assert(text::texts(parts@) == head + Seq::new(
                self.buttons@.len(),
                |k: int| button_summary(self.buttons@[k]),
            ).take(i as int));
        }
        assert(text::texts(parts@) == summary_parts(self@));
        text::join(&parts, ", ")
    }
}

/// A mouse set to native behaviour needs no runtime.
pub proof fn law_native_settings_need_no_runtime(s: settings::SettingsView)
    requires
        s.thumb_wheel == ThumbWheelMode::HorizontalScroll,
        s.thumb_wheel_speed_percent == settings::DEFAULT_THUMB_WHEEL_SPEED_PERCENT,
        forall|i: int| 0 <= i < s.buttons.len() ==> (#[trigger] s.buttons[i]).action == ButtonAction::Native,
    ensures
        !LocalRuntimePlan::listens(runtime_plan_of(s)),
{
    lemma_native_buttons(s.buttons, s.buttons.len());
}

proof fn lemma_native_buttons(bindings: Seq<settings::ButtonBinding>, n: nat)
    requires
        n <= bindings.len(),
        forall|i: int| 0 <= i < bindings.len() ==> (#[trigger] bindings[i]).action == ButtonAction::Native,
    ensures
        runtime_buttons(bindings, n).len() == 0,
    decreases n,
{
    if n > 0 {
        lemma_native_buttons(bindings, (n - 1) as nat);
    }
}

/// The runtime serves each button that does something else than the mouse makes it do by
/// itself, under the number by which the mouse reports it, and no other; and the thumb
/// wheel, unless it scrolls at its own speed.
pub proof fn law_runtime_serves_what_the_mouse_does_not(s: settings::SettingsView, i: int)
    ensures
        ({
            let p = runtime_plan_of(s);
            &&& p.profile_name == s.profile_name && p.app_profiles == s.app_profiles
            &&& 0 <= i < s.buttons.len() && s.buttons[i].action != ButtonAction::Native
                ==> p.buttons.contains(
                RuntimeButtonBinding {
                    button: s.buttons[i].button,
                    action: s.buttons[i].action,
                    control_id: settings::control_id_of(s.buttons[i].button),
                },
            )
            &&& 0 <= i < p.buttons.len() ==> p.buttons[i].action != ButtonAction::Native
                && p.buttons[i].control_id == settings::control_id_of(p.buttons[i].button)
                && s.buttons.contains(
                settings::ButtonBinding { button: p.buttons[i].button, action: p.buttons[i].action },
            )
            &&& s.thumb_wheel == ThumbWheelMode::HorizontalScroll && s.thumb_wheel_speed_percent
                == 100 <==> p.thumb_wheel is None
            &&& s.thumb_wheel == ThumbWheelMode::HorizontalScroll && s.thumb_wheel_speed_percent
                != 100 ==> p.thumb_wheel == Some(
                ThumbWheelRuntimeAction::HorizontalScroll {
                    speed_percent: s.thumb_wheel_speed_percent,
                },
            )
            &&& s.thumb_wheel == ThumbWheelMode::TabSwitch <==> p.thumb_wheel == Some(
                ThumbWheelRuntimeAction::TabSwitch,
            )
            &&& s.thumb_wheel == ThumbWheelMode::Zoom <==> p.thumb_wheel == Some(
                ThumbWheelRuntimeAction::Zoom,
            )
            &&& s.thumb_wheel == ThumbWheelMode::Volume <==> p.thumb_wheel == Some(
                ThumbWheelRuntimeAction::Volume,
            )
            &&& s.thumb_wheel == ThumbWheelMode::Disabled <==> p.thumb_wheel == Some(
                ThumbWheelRuntimeAction::Disabled,
            )
            &&& LocalRuntimePlan::listens(p) <==> p.thumb_wheel is Some || p.buttons.len() > 0
        }),
{
    lemma_served_buttons(s.buttons, s.buttons.len());
    let p = runtime_plan_of(s);
    if 0 <= i < s.buttons.len() && s.buttons[i].action != ButtonAction::Native {
        assert(s.buttons[i].action != ButtonAction::Native);
    }
    if 0 <= i < p.buttons.len() {
        assert(p.buttons[i].action != ButtonAction::Native);
    }
}

proof fn lemma_served_buttons(bindings: Seq<settings::ButtonBinding>, n: nat)
    requires
        n <= bindings.len(),
    ensures
        forall|i: int|
            0 <= i < n && (#[trigger] bindings[i]).action != ButtonAction::Native
                ==> runtime_buttons(bindings, n).contains(
                RuntimeButtonBinding {
                    button: bindings[i].button,
                    action: bindings[i].action,
                    control_id: settings::control_id_of(bindings[i].button),
                },
            ),
        forall|k: int|
            0 <= k < runtime_buttons(bindings, n).len() ==> {
                let b = #[trigger] runtime_buttons(bindings, n)[k];
                &&& b.action != ButtonAction::Native
                &&& b.control_id == settings::control_id_of(b.button)
                &&& bindings.contains(
                    settings::ButtonBinding { button: b.button, action: b.action },
                )
            },
    decreases n,
{
    if n > 0 {
        lemma_served_buttons(bindings, (n - 1) as nat);
        let before = runtime_buttons(bindings, (n - 1) as nat);
        let after = runtime_buttons(bindings, n);
        let last = bindings[n - 1];
        assert(bindings.contains(settings::ButtonBinding { button: last.button, action: last.action }))
            by {
            assert(bindings[n - 1] == (settings::ButtonBinding {
                button: last.button,
                action: last.action,
            }));
        }
        assert forall|i: int| 0 <= i < n && (#[trigger] bindings[i]).action
            != ButtonAction::Native implies after.contains(
            RuntimeButtonBinding {
                button: bindings[i].button,
                action: bindings[i].action,
                control_id: settings::control_id_of(bindings[i].button),
            },
        ) by {
            let b = RuntimeButtonBinding {
                button: bindings[i].button,
                action: bindings[i].action,
                control_id: settings::control_id_of(bindings[i].button),
            };
            if i == n - 1 {
                assert(after.last() == b);
                assert(after[after.len() - 1] == b);
            } else {
                let k = before.index_of(b);
                assert(after[k] == b);
            }
        }
        assert forall|k: int| 0 <= k < after.len() implies {
            let b = #[trigger] after[k];
            &&& b.action != ButtonAction::Native
            &&& b.control_id == settings::control_id_of(b.button)
            &&& bindings.contains(settings::ButtonBinding { button: b.button, action: b.action })
        } by {
            if k < before.len() {
                assert(after[k] == before[k]);
            }
        }
    }
}

/// The words for what a button and the thumb wheel do.
pub proof fn law_words_for_actions(speed_percent: u16)
    ensures
        action_label(Action::Back) == "back"@,
        action_label(Action::Forward) == "forward"@,
        action_label(Action::Overview) == "overview"@,
        action_label(Action::WindowSwitcher) == "switch windows"@,
        action_label(Action::PreviousWorkspace) == "previous workspace"@,
        action_label(Action::NextWorkspace) == "next workspace"@,
        action_label(Action::MiddleClick) == "middle click"@,
        action_label(Action::Copy) == "copy"@,
        action_label(Action::Paste) == "paste"@,
        action_label(Action::Disabled) == "disabled"@,
        button_action_label(ButtonAction::Native) == "default behavior"@,
        button_action_label(ButtonAction::Gestures) == "gestures"@,
        forall|action: Action|
            #[trigger] button_action_label(ButtonAction::Action(action)) == action_label(action),
        thumb_wheel_label(ThumbWheelRuntimeAction::HorizontalScroll { speed_percent })
            == "horizontal scroll at "@ + text::decimal(speed_percent as nat) + "%"@,
        thumb_wheel_label(ThumbWheelRuntimeAction::TabSwitch) == "tab switch"@,
        thumb_wheel_label(ThumbWheelRuntimeAction::Zoom) == "zoom"@,
        thumb_wheel_label(ThumbWheelRuntimeAction::Volume) == "volume"@,
        thumb_wheel_label(ThumbWheelRuntimeAction::Disabled) == "disabled"@,
{
}

/// What the runtime does is summed up with a part for the thumb wheel and one for each button,
/// in order.
pub proof fn law_summaries_name_everything(plan: RuntimePlanView, i: int)
    ensures
        plan.thumb_wheel is None ==> summary_parts(plan).len() == plan.buttons.len(),
        plan.thumb_wheel is Some ==> summary_parts(plan).len() == plan.buttons.len() + 1,
        plan.thumb_wheel matches Some(action) ==> summary_parts(plan)[0] == "thumb wheel "@
            + thumb_wheel_label(action),
        plan.thumb_wheel is None && 0 <= i < plan.buttons.len() ==> summary_parts(plan)[i]
            == settings::button_label(plan.buttons[i].button) + " "@ + button_action_label(
            plan.buttons[i].action,
        ),
        plan.thumb_wheel is Some && 0 <= i < plan.buttons.len() ==> summary_parts(plan)[i + 1]
            == settings::button_label(plan.buttons[i].button) + " "@ + button_action_label(
            plan.buttons[i].action,
        ),
{
}

}
