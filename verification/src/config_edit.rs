//! Changes to the saved settings, as they are asked for on the command line.

use crate::error::{DogiError, ErrorKind};
use crate::settings::{Action, AppProfile, AppProfileOverrides, ApplicationMatchField, ApplicationMatcher, ButtonAction, ButtonBinding, GestureBindings, GestureDirection, Master3sButton, Master3sSettings, ThumbWheelMode, WheelRatchetMode};
use crate::settings;
use crate::text;
use vstd::prelude::*;

verus! {

/// A button and what it is to do.
#[derive(Clone, Copy, Debug, PartialEq, Eq, Structural)]
pub struct CliButtonMapping {
    pub button: Master3sButton,
    pub action: ButtonAction,
}

/// A gesture and what it is to do.
#[derive(Clone, Copy, Debug, PartialEq, Eq, Structural)]
pub struct CliGestureMapping {
    pub direction: GestureDirection,
    pub action: Action,
}

/// A change of the settings.
#[derive(Debug)]
pub struct ConfigSetArgs {
    pub profile_name: Option<String>,
    pub pointer_speed: Option<u8>,
    pub smart_shift: bool,
    pub no_smart_shift: bool,
    pub smart_shift_threshold: Option<u8>,
    pub wheel_mode: Option<WheelRatchetMode>,
    pub high_resolution_scroll: bool,
    pub no_high_resolution_scroll: bool,
    pub natural_scroll: bool,
    pub no_natural_scroll: bool,
    pub thumb_wheel: Option<ThumbWheelMode>,
    pub thumb_wheel_speed: Option<u16>,
    pub button_mappings: Vec<CliButtonMapping>,
}

/// A change of the profile of an application.
#[derive(Debug)]
pub struct ConfigAppProfileSetArgs {
    pub app: String,
    pub match_field: ApplicationMatchField,
    pub pointer_speed: Option<u8>,
    pub wheel_mode: Option<WheelRatchetMode>,
    pub smart_shift_threshold: Option<u8>,
    pub smooth_scrolling: bool,
    pub no_smooth_scrolling: bool,
    pub natural_scrolling: bool,
    pub standard_scrolling: bool,
    pub thumb_wheel: Option<ThumbWheelMode>,
    pub thumb_wheel_speed: Option<u16>,
    pub button_mappings: Vec<CliButtonMapping>,
    pub gesture_mappings: Vec<CliGestureMapping>,
}

/// A name without anything but letters and digits, in lower case.
pub open spec fn plain_name(value: Seq<char>) -> Seq<char> {
    text::lowered(text::letters_and_digits(value))
}

/// A name without anything but letters and digits, in lower case.
pub fn normalize_cli_name(value: &str) -> (r: String)
    ensures
        r@ == plain_name(value@),
{
    text::lower_text(text::keep_letters_and_digits(value).as_str())
}

/// The button of a name.
pub open spec fn button_named(name: Seq<char>) -> Option<Master3sButton> {
    if name == "back"@ || name == "backbutton"@ {
        Some(Master3sButton::Back)
    } else if name == "forward"@ || name == "forwardbutton"@ {
        Some(Master3sButton::Forward)
    } else if name == "gesture"@ || name == "gesturebutton"@ {
        Some(Master3sButton::Gesture)
    } else if name == "modeshift"@ || name == "modeshiftbutton"@ || name == "mode"@ {
        Some(Master3sButton::ModeShift)
    } else if name == "middle"@ || name == "middleclick"@ || name == "middlebutton"@ {
        Some(Master3sButton::Middle)
    } else {
        None
    }
}

/// The action of a name.
pub open spec fn action_named(name: Seq<char>) -> Option<Action> {
    if name == "back"@ {
        Some(Action::Back)
    } else if name == "forward"@ {
        Some(Action::Forward)
    } else if name == "overview"@ || name == "activitiesoverview"@ || name == "missioncontrol"@ {
        Some(Action::Overview)
    } else if name == "switchwindows"@ || name == "windowswitcher"@ || name == "appexpose"@ || name
        == "expose"@ {
        Some(Action::WindowSwitcher)
    } else if name == "previousworkspace"@ || name == "desktopleft"@ || name == "leftdesktop"@ {
        Some(Action::PreviousWorkspace)
    } else if name == "nextworkspace"@ || name == "desktopright"@ || name == "rightdesktop"@ {
        Some(Action::NextWorkspace)
    } else if name == "middleclick"@ || name == "middle"@ {
        Some(Action::MiddleClick)
    } else if name == "copy"@ {
        Some(Action::Copy)
    } else if name == "paste"@ {
        Some(Action::Paste)
    } else if name == "disabled"@ || name == "disable"@ || name == "none"@ {
        Some(Action::Disabled)
    } else {
        None
    }
}

/// What a button can be told to do under a name.
pub open spec fn button_action_named(name: Seq<char>) -> Option<ButtonAction> {
    if name == "native"@ || name == "default"@ || name == "defaultbehavior"@ {
        Some(ButtonAction::Native)
    } else if name == "gestures"@ || name == "gesture"@ {
        Some(ButtonAction::Gestures)
    } else {
        match action_named(name) {
            Some(action) => Some(ButtonAction::Action(action)),
            None => None,
        }
    }
}

/// The gesture of a name.
pub open spec fn direction_named(name: Seq<char>) -> Option<GestureDirection> {
    if name == "click"@ || name == "none"@ {
        Some(GestureDirection::Click)
    } else if name == "up"@ {
        Some(GestureDirection::Up)
    } else if name == "down"@ {
        Some(GestureDirection::Down)
    } else if name == "left"@ {
        Some(GestureDirection::Left)
    } else if name == "right"@ {
        Some(GestureDirection::Right)
    } else {
        None
    }
}

/// Whether a text is one of three.
fn is_one_of(name: &str, a: &str, b: &str, c: &str) -> (r: bool)
    ensures
        r == (name@ == a@ || name@ == b@ || name@ == c@),
{
    text::same_text(name, a) || text::same_text(name, b) || text::same_text(name, c)
}

/// What is said of a name that means nothing.
pub open spec fn unknown_text(what: Seq<char>, value: Seq<char>) -> Seq<char> {
    "unknown "@ + what + " '"@ + value + "'"@
}

fn unknown(what: &str, value: &str) -> (r: String)
    ensures
        r@ == unknown_text(what@, value@),
{
    let mut r = text::concat3("unknown ", what, " '");
    r.append(value);
    r.append("'");
    r
}

/// Reads the name of a button.
pub fn parse_master3s_button(value: &str) -> (r: Result<Master3sButton, String>)
    ensures
        match button_named(plain_name(value@)) {
            Some(button) => r == Ok::<Master3sButton, String>(button),
            None => r is Err && r->Err_0@ == unknown_text("Master 3S button"@, value@),
        },
{
    let name = normalize_cli_name(value);
    let n = name.as_str();
    if is_one_of(n, "back", "backbutton", "backbutton") {
        Ok(Master3sButton::Back)
    } else if is_one_of(n, "forward", "forwardbutton", "forwardbutton") {
        Ok(Master3sButton::Forward)
    } else if is_one_of(n, "gesture", "gesturebutton", "gesturebutton") {
        Ok(Master3sButton::Gesture)
    } else if is_one_of(n, "modeshift", "modeshiftbutton", "mode") {
        Ok(Master3sButton::ModeShift)
    } else if is_one_of(n, "middle", "middleclick", "middlebutton") {
        Ok(Master3sButton::Middle)
    } else {
        Err(unknown("Master 3S button", value))
    }
}

/// Reads the name of an action.
pub fn parse_action(value: &str) -> (r: Result<Action, String>)
    ensures
        match action_named(plain_name(value@)) {
            Some(action) => r == Ok::<Action, String>(action),
            None => r is Err && r->Err_0@ == unknown_text("action"@, value@),
        },
{
    let name = normalize_cli_name(value);
    let n = name.as_str();
    if text::same_text(n, "back") {
        Ok(Action::Back)
    } else if text::same_text(n, "forward") {
        Ok(Action::Forward)
    } else if is_one_of(n, "overview", "activitiesoverview", "missioncontrol") {
        Ok(Action::Overview)
    } else if is_one_of(n, "switchwindows", "windowswitcher", "appexpose") || text::same_text(
        n,
        "expose",
    ) {
        Ok(Action::WindowSwitcher)
    } else if is_one_of(n, "previousworkspace", "desktopleft", "leftdesktop") {
        Ok(Action::PreviousWorkspace)
    } else if is_one_of(n, "nextworkspace", "desktopright", "rightdesktop") {
        Ok(Action::NextWorkspace)
    } else if is_one_of(n, "middleclick", "middle", "middle") {
        Ok(Action::MiddleClick)
    } else if text::same_text(n, "copy") {
        Ok(Action::Copy)
    } else if text::same_text(n, "paste") {
        Ok(Action::Paste)
    } else if is_one_of(n, "disabled", "disable", "none") {
        Ok(Action::Disabled)
    } else {
        Err(unknown("action", value))
    }
}

/// Reads what a button is to do.
pub fn parse_button_action(value: &str) -> (r: Result<ButtonAction, String>)
    ensures
        match button_action_named(plain_name(value@)) {
            Some(action) => r == Ok::<ButtonAction, String>(action),
            None => r is Err && r->Err_0@ == unknown_text("action"@, value@),
        },
{
    let name = normalize_cli_name(value);
    let n = name.as_str();
    if is_one_of(n, "native", "default", "defaultbehavior") {
        Ok(ButtonAction::Native)
    } else if is_one_of(n, "gestures", "gesture", "gesture") {
        Ok(ButtonAction::Gestures)
    } else {
        match parse_action(value) {
            Ok(action) => Ok(ButtonAction::Action(action)),
            Err(error) => Err(error),
        }
    }
}

/// What a text such as `back=copy` assigns, or what is wrong with it.
pub open spec fn button_mapping_of(value: Seq<char>) -> Result<CliButtonMapping, Seq<char>> {
    match text::halves(value, '=') {
        None => Err("expected BUTTON=ACTION, for example back=copy"@),
        Some((button, action)) => match button_named(plain_name(button)) {
            None => Err(unknown_text("Master 3S button"@, button)),
            Some(b) => match button_action_named(plain_name(action)) {
                None => Err(unknown_text("action"@, action)),
                Some(a) => Ok(CliButtonMapping { button: b, action: a }),
            },
        },
    }
}

/// Reads a text such as `back=copy`.
pub fn parse_button_mapping(value: &str) -> (r: Result<CliButtonMapping, String>)
    ensures
        match button_mapping_of(value@) {
            Ok(mapping) => r == Ok::<CliButtonMapping, String>(mapping),
            Err(detail) => r is Err && r->Err_0@ == detail,
        },
{
    match text::split_once(value, '=') {
        None => Err("expected BUTTON=ACTION, for example back=copy".to_owned()),
        Some((button, action)) => {
            let button = match parse_master3s_button(button.as_str()) {
                Ok(button) => button,
                Err(error) => {
                    return Err(error);
                },
            };
            match parse_button_action(action.as_str()) {
                Ok(action) => Ok(CliButtonMapping { button, action }),
                Err(error) => Err(error),
            }
        },
    }
}

/// What a text such as `up=overview` assigns, or what is wrong with it.
pub open spec fn gesture_mapping_of(value: Seq<char>) -> Result<CliGestureMapping, Seq<char>> {
    match text::halves(value, '=') {
        None => Err("expected DIRECTION=ACTION, for example up=overview"@),
        Some((direction, action)) => match direction_named(plain_name(direction)) {
            None => Err(unknown_text("gesture direction"@, direction)),
            Some(d) => match action_named(plain_name(action)) {
                None => Err(unknown_text("action"@, action)),
                Some(a) => Ok(CliGestureMapping { direction: d, action: a }),
            },
        },
    }
}

/// Reads a text such as `up=overview`.
pub fn parse_gesture_mapping(value: &str) -> (r: Result<CliGestureMapping, String>)
    ensures
        match gesture_mapping_of(value@) {
            Ok(mapping) => r == Ok::<CliGestureMapping, String>(mapping),
            Err(detail) => r is Err && r->Err_0@ == detail,
        },
{
    match text::split_once(value, '=') {
        None => Err("expected DIRECTION=ACTION, for example up=overview".to_owned()),
        Some((direction, action)) => {
            let name = normalize_cli_name(direction.as_str());
            let n = name.as_str();
            let direction = if is_one_of(n, "click", "none", "none") {
                GestureDirection::Click
            } else if text::same_text(n, "up") {
                GestureDirection::Up
            } else if text::same_text(n, "down") {
                GestureDirection::Down
            } else if text::same_text(n, "left") {
                GestureDirection::Left
            } else if text::same_text(n, "right") {
                GestureDirection::Right
            } else {
                return Err(unknown("gesture direction", direction.as_str()));
            };
            match parse_action(action.as_str()) {
                Ok(action) => Ok(CliGestureMapping { direction, action }),
                Err(error) => Err(error),
            }
        },
    }
}

/// Buttons after the first `n` mappings were assigned.
pub open spec fn assigned(
    buttons: Seq<ButtonBinding>,
    mappings: Seq<CliButtonMapping>,
    n: nat,
) -> Seq<ButtonBinding>
    decreases n,
{
    if n == 0 || n > mappings.len() {
        buttons
    } else {
        settings::with_action(
            assigned(buttons, mappings, (n - 1) as nat),
            mappings[n - 1].button,
            mappings[n - 1].action,
        )
    }
}

/// How the wheel turns after a change, and whether it shifts by itself.
pub open spec fn wheel_after(
    mode: WheelRatchetMode,
    shifts: bool,
    args: ConfigSetArgs,
) -> (WheelRatchetMode, bool) {
    match args.wheel_mode {
        Some(wanted) => (wanted, wanted == WheelRatchetMode::SmartShift),
        None => {
            let on = if args.smart_shift {
                (WheelRatchetMode::SmartShift, true)
            } else {
                (mode, shifts)
            };
            if args.no_smart_shift {
                (
                    if on.0 == WheelRatchetMode::SmartShift {
                        WheelRatchetMode::Ratchet
                    } else {
                        on.0
                    },
                    false,
                )
            } else {
                on
            }
        },
    }
}

/// A switch after a change.
pub open spec fn switch_after(value: bool, on: bool, off: bool) -> bool {
    if off {
        false
    } else {
        value || on
    }
}

/// Settings after a change.
pub open spec fn edited(s: settings::SettingsView, args: ConfigSetArgs) -> settings::SettingsView {
    settings::SettingsView {
        profile_name: match args.profile_name {
            Some(name) => name@,
            None => s.profile_name,
        },
        pointer_speed_percent: match args.pointer_speed {
            Some(n) => n,
            None => s.pointer_speed_percent,
        },
        smart_shift_enabled: wheel_after(s.ratchet_mode, s.smart_shift_enabled, args).1,
        smart_shift_threshold: match args.smart_shift_threshold {
            Some(n) => n,
            None => s.smart_shift_threshold,
        },
        ratchet_mode: wheel_after(s.ratchet_mode, s.smart_shift_enabled, args).0,
        high_resolution_scroll: switch_after(
            s.high_resolution_scroll,
            args.high_resolution_scroll,
            args.no_high_resolution_scroll,
        ),
        natural_scroll: switch_after(
            s.natural_scroll,
            args.natural_scroll,
            args.no_natural_scroll,
        ),
        thumb_wheel: match args.thumb_wheel {
            Some(mode) => mode,
            None => s.thumb_wheel,
        },
        thumb_wheel_speed_percent: match args.thumb_wheel_speed {
            Some(n) => n,
            None => s.thumb_wheel_speed_percent,
        },
        buttons: assigned(s.buttons, args.button_mappings@, args.button_mappings@.len()),
        ..s
    }
}

fn change_wheel(mode: WheelRatchetMode, shifts: bool, args: &ConfigSetArgs) -> (r: (
    WheelRatchetMode,
    bool,
))
    ensures
        r == wheel_after(mode, shifts, *args),
{
    let mut mode = mode;
    let mut shifts = shifts;
    if args.smart_shift {
        shifts = true;
        mode = WheelRatchetMode::SmartShift;
    }
    if args.no_smart_shift {
        shifts = false;
        if mode == WheelRatchetMode::SmartShift {
            mode = WheelRatchetMode::Ratchet;
        }
    }
    if let Some(wheel_mode) = args.wheel_mode {
        mode = wheel_mode;
        shifts = wheel_mode == WheelRatchetMode::SmartShift;
    }
    (mode, shifts)
}

fn change_switch(value: bool, on: bool, off: bool) -> (r: bool)
    ensures
        r == switch_after(value, on, off),
{
    if off {
        false
    } else {
        value || on
    }
}

fn assign_buttons(s: &mut Master3sSettings, mappings: &Vec<CliButtonMapping>)
    ensures
        final(s)@ == (settings::SettingsView {
            buttons: assigned(old(s)@.buttons, mappings@, mappings@.len()),
            ..old(s)@
        }),
{
    let ghost before = s@;
    let mut i: usize = 0;
    while i < mappings.len()
        invariant
            i <= mappings@.len(),
            s@ == (settings::SettingsView {
                buttons: assigned(before.buttons, mappings@, i as nat),
                ..before
            }),
        decreases mappings@.len() - i,
    {
        let mapping = mappings[i];
        s.set_button_action(mapping.button, mapping.action);
        i += 1;
    }
}

/// Changes settings.
pub fn apply_config_set_args(s: &mut Master3sSettings, args: &ConfigSetArgs)
    ensures
        final(s)@ == edited(old(s)@, *args),
{
    if let Some(profile_name) = &args.profile_name {
        s.profile_name = profile_name.clone();
    }
    s.pointer_speed_percent = args.pointer_speed.unwrap_or(s.pointer_speed_percent);
    let (mode, shifts) = change_wheel(s.ratchet_mode, s.smart_shift_enabled, args);
    s.ratchet_mode = mode;
    s.smart_shift_enabled = shifts;
    s.smart_shift_threshold = args.smart_shift_threshold.unwrap_or(s.smart_shift_threshold);
    s.high_resolution_scroll = change_switch(
        s.high_resolution_scroll,
        args.high_resolution_scroll,
        args.no_high_resolution_scroll,
    );
    s.natural_scroll = change_switch(
        s.natural_scroll,
        args.natural_scroll,
        args.no_natural_scroll,
    );
    s.thumb_wheel = args.thumb_wheel.unwrap_or(s.thumb_wheel);
    s.thumb_wheel_speed_percent = args.thumb_wheel_speed.unwrap_or(s.thumb_wheel_speed_percent);
    assign_buttons(s, &args.button_mappings);
}

/// A change that names nothing changes nothing.
pub proof fn law_empty_change_changes_nothing(s: settings::SettingsView, args: ConfigSetArgs)
    requires
        args.profile_name is None,
        args.pointer_speed is None,
        !args.smart_shift && !args.no_smart_shift,
        args.smart_shift_threshold is None,
        args.wheel_mode is None,
        !args.high_resolution_scroll && !args.no_high_resolution_scroll,
        !args.natural_scroll && !args.no_natural_scroll,
        args.thumb_wheel is None,
        args.thumb_wheel_speed is None,
        args.button_mappings@.len() == 0,
    ensures
        edited(s, args) == s,
{
}

/// Gestures after the first `n` mappings were assigned.
pub open spec fn gestures_after(
    gestures: GestureBindings,
    mappings: Seq<CliGestureMapping>,
    n: nat,
) -> GestureBindings
    decreases n,
{
    if n == 0 || n > mappings.len() {
        gestures
    } else {
        let before = gestures_after(gestures, mappings, (n - 1) as nat);
        let action = mappings[n - 1].action;
        match mappings[n - 1].direction {
            GestureDirection::Click => GestureBindings { click: action, ..before },
            GestureDirection::Up => GestureBindings { up: action, ..before },
            GestureDirection::Down => GestureBindings { down: action, ..before },
            GestureDirection::Left => GestureBindings { left: action, ..before },
            GestureDirection::Right => GestureBindings { right: action, ..before },
        }
    }
}

/// The bindings that mappings ask for.
pub open spec fn bindings_of(mappings: Seq<CliButtonMapping>) -> Seq<ButtonBinding> {
    Seq::new(
        mappings.len(),
        |i: int| ButtonBinding { button: mappings[i].button, action: mappings[i].action },
    )
}

/// Whether gestures are asked for while the gesture button is to do something
/// else.
pub open spec fn gestures_conflict(args: ConfigAppProfileSetArgs) -> bool {
    let buttons = bindings_of(args.button_mappings@);
    let at = settings::binding_index(buttons, Master3sButton::Gesture, 0);
    args.gesture_mappings@.len() > 0 && at < buttons.len() && buttons[at].action
        != ButtonAction::Gestures
}

/// The bindings of a profile: those that are asked for, and the gesture button
/// does gestures where any gesture is asked for.
pub open spec fn profile_buttons(args: ConfigAppProfileSetArgs) -> Seq<ButtonBinding> {
    let buttons = bindings_of(args.button_mappings@);
    if args.gesture_mappings@.len() > 0 && settings::binding_index(
        buttons,
        Master3sButton::Gesture,
        0,
    ) >= buttons.len() {
        buttons.push(
            ButtonBinding { button: Master3sButton::Gesture, action: ButtonAction::Gestures },
        )
    } else {
        buttons
    }
}

/// One of two switches, where one is set.
pub open spec fn either(on: bool, off: bool) -> Option<bool> {
    if on {
        Some(true)
    } else if off {
        Some(false)
    } else {
        None
    }
}

/// The settings that a profile replaces.
pub open spec fn requested_overrides(args: ConfigAppProfileSetArgs) -> settings::OverridesView {
    settings::OverridesView {
        pointer_speed_percent: args.pointer_speed,
        smart_shift_threshold: args.smart_shift_threshold,
        ratchet_mode: args.wheel_mode,
        high_resolution_scroll: either(args.smooth_scrolling, args.no_smooth_scrolling),
        natural_scroll: either(args.natural_scrolling, args.standard_scrolling),
        thumb_wheel: args.thumb_wheel,
        thumb_wheel_speed_percent: args.thumb_wheel_speed,
        buttons: profile_buttons(args),
        gestures: if args.gesture_mappings@.len() > 0 {
            Some(
                gestures_after(
                    settings::default_gestures(),
                    args.gesture_mappings@,
                    args.gesture_mappings@.len(),
                ),
            )
        } else {
            None
        },
    }
}

/// The profile that is asked for.
pub open spec fn requested_profile(args: ConfigAppProfileSetArgs) -> settings::ProfileView {
    settings::normal_profile(
        settings::ProfileView {
            name: text::trimmed(args.app@),
            field: args.match_field,
            value: text::trimmed(args.app@),
            overrides: requested_overrides(args),
        },
    )
}

/// What is wrong with a profile that is asked for.
pub open spec fn profile_fault(args: ConfigAppProfileSetArgs) -> Option<Seq<char>> {
    if text::trimmed(args.app@).len() == 0 {
        Some("app profile name cannot be empty"@)
    } else if gestures_conflict(args) {
        Some("gesture mappings require --button gesture=gestures"@)
    } else if AppProfileOverrides::count_spec(requested_overrides(args)) == 0 {
        Some("app profile requires at least one override"@)
    } else {
        None
    }
}

/// The first profile of a name at or after `i`, or the number of profiles.
pub open spec fn profile_index(profiles: Seq<settings::ProfileView>, key: Seq<char>, i: int) -> int
    decreases profiles.len() - i,
{
    if 0 <= i < profiles.len() && plain_name(profiles[i].name) != key {
        profile_index(profiles, key, i + 1)
    } else {
        i
    }
}

/// Profiles once one of them was set: in the place of the first of that name, or
/// at the end.
pub open spec fn with_profile(
    profiles: Seq<settings::ProfileView>,
    profile: settings::ProfileView,
) -> Seq<settings::ProfileView> {
    let at = profile_index(profiles, plain_name(profile.name), 0);
    if at < profiles.len() {
        profiles.update(at, profile)
    } else {
        profiles.push(profile)
    }
}

/// Those of the first `n` profiles that have another name.
pub open spec fn without_name(
    profiles: Seq<settings::ProfileView>,
    key: Seq<char>,
    n: nat,
) -> Seq<settings::ProfileView>
    decreases n,
{
    if n == 0 || n > profiles.len() {
        Seq::empty()
    } else {
        let before = without_name(profiles, key, (n - 1) as nat);
        if plain_name(profiles[n - 1].name) != key {
            before.push(profiles[n - 1])
        } else {
            before
        }
    }
}

/// Whether some profile has a name.
pub open spec fn has_name(profiles: Seq<settings::ProfileView>, key: Seq<char>) -> bool {
    exists|i: int| 0 <= i < profiles.len() && plain_name((#[trigger] profiles[i]).name) == key
}

proof fn lemma_profile_index(profiles: Seq<settings::ProfileView>, key: Seq<char>, i: int)
    requires
        0 <= i <= profiles.len(),
    ensures
        i <= profile_index(profiles, key, i) <= profiles.len(),
        profile_index(profiles, key, i) < profiles.len() ==> plain_name(
            profiles[profile_index(profiles, key, i)].name,
        ) == key,
        forall|k: int|
            i <= k < profile_index(profiles, key, i) ==> plain_name((#[trigger] profiles[k]).name)
                != key,
    decreases profiles.len() - i,
{
    if i < profiles.len() && plain_name(profiles[i].name) != key {
        lemma_profile_index(profiles, key, i + 1);
    }
}

/// A profile that was set is there, and the profiles of other names are as they
/// were.
pub proof fn law_setting_a_profile_keeps_the_others(
    profiles: Seq<settings::ProfileView>,
    profile: settings::ProfileView,
)
    ensures
        with_profile(profiles, profile).contains(profile),
        forall|i: int|
            0 <= i < profiles.len() && plain_name((#[trigger] profiles[i]).name) != plain_name(
                profile.name,
            ) ==> with_profile(profiles, profile)[i] == profiles[i],
        with_profile(profiles, profile).len() <= profiles.len() + 1,
        has_name(profiles, plain_name(profile.name)) ==> with_profile(profiles, profile).len()
            == profiles.len(),
{
    let key = plain_name(profile.name);
    lemma_profile_index(profiles, key, 0);
    let at = profile_index(profiles, key, 0);
    let after = with_profile(profiles, profile);
    if at < profiles.len() {
        assert(after[at] == profile);
    } else {
        assert(after[profiles.len() as int] == profile);
    }
}

proof fn lemma_without_name(profiles: Seq<settings::ProfileView>, key: Seq<char>, n: nat)
    requires
        n <= profiles.len(),
    ensures
        without_name(profiles, key, n).len() <= n,
        !has_name(without_name(profiles, key, n), key),
        without_name(profiles, key, n).len() == n <==> (forall|i: int|
            0 <= i < n ==> plain_name((#[trigger] profiles[i]).name) != key),
        without_name(profiles, key, n).len() == n ==> without_name(profiles, key, n)
            == profiles.take(n as int),
    decreases n,
{
    if n > 0 {
        lemma_without_name(profiles, key, (n - 1) as nat);
        let before = without_name(profiles, key, (n - 1) as nat);
        let after = without_name(profiles, key, n);
        assert forall|i: int| 0 <= i < after.len() implies plain_name((#[trigger] after[i]).name)
            != key by {
            if i < before.len() {
                assert(after[i] == before[i]);
            }
        }
        if after.len() == n {
            assert(profiles.take(n as int) =~= profiles.take(n - 1).push(profiles[n - 1]));
        }
    } else {
        assert(profiles.take(0) =~= Seq::<settings::ProfileView>::empty());
    }
}

/// After a profile was removed, no profile has its name.
pub proof fn law_removed_profile_is_gone(profiles: Seq<settings::ProfileView>, key: Seq<char>)
    ensures
        !has_name(without_name(profiles, key, profiles.len()), key),
        !has_name(profiles, key) ==> without_name(profiles, key, profiles.len()) == profiles,
{
    lemma_without_name(profiles, key, profiles.len());
    if !has_name(profiles, key) {
        assert(profiles.take(profiles.len() as int) =~= profiles);
    }
}

/// The name of a profile without the spaces around it.
pub fn clean_app_profile_name(value: &str) -> (r: Result<String, DogiError>)
    ensures
        if text::trimmed(value@).len() == 0 {
            r is Err && r->Err_0@ == (
                ErrorKind::InvalidArgument,
                "app profile name cannot be empty"@,
            )
        } else {
            r is Ok && r->Ok_0@ == text::trimmed(value@)
        },
{
    let trimmed = text::trim(value);
    if trimmed.as_str().is_empty() {
        return Err(DogiError::InvalidArgument("app profile name cannot be empty".to_owned()));
    }
    Ok(trimmed)
}

fn collect_gestures(mappings: &Vec<CliGestureMapping>) -> (r: GestureBindings)
    ensures
        r == gestures_after(settings::default_gestures(), mappings@, mappings@.len()),
{
    let mut gestures = GestureBindings::default();
    let mut i: usize = 0;
    while i < mappings.len()
        invariant
            i <= mappings@.len(),
            gestures == gestures_after(settings::default_gestures(), mappings@, i as nat),
        decreases mappings@.len() - i,
    {
        let action = mappings[i].action;
        match mappings[i].direction {
            GestureDirection::Click => {
                gestures.click = action;
            },
            GestureDirection::Up => {
                gestures.up = action;
            },
            GestureDirection::Down => {
                gestures.down = action;
            },
            GestureDirection::Left => {
                gestures.left = action;
            },
            GestureDirection::Right => {
                gestures.right = action;
            },
        }
        i += 1;
    }
    gestures
}

fn collect_bindings(mappings: &Vec<CliButtonMapping>) -> (r: Vec<ButtonBinding>)
    ensures
        r@ == bindings_of(mappings@),
{
    let mut bindings: Vec<ButtonBinding> = Vec::new();
    let mut i: usize = 0;
    while i < mappings.len()
        invariant
            i <= mappings@.len(),
            bindings@ == bindings_of(mappings@).take(i as int),
        decreases mappings@.len() - i,
    {
        bindings.push(ButtonBinding { button: mappings[i].button, action: mappings[i].action });
        i += 1;
        assert(bindings@ =~= bindings_of(mappings@).take(i as int));
    }
    assert(bindings_of(mappings@).take(mappings@.len() as int) =~= bindings_of(mappings@));
    bindings
}

fn one_of_two(on: bool, off: bool) -> (r: Option<bool>)
    ensures
        r == either(on, off),
{
    if on {
        Some(true)
    } else if off {
        Some(false)
    } else {
        None
    }
}

fn build_overrides(args: &ConfigAppProfileSetArgs) -> (r: Result<AppProfileOverrides, DogiError>)
    ensures
        if gestures_conflict(*args) {
            r is Err && r->Err_0@ == (
                ErrorKind::InvalidArgument,
                "gesture mappings require --button gesture=gestures"@,
            )
        } else {
            r is Ok && r->Ok_0@ == requested_overrides(*args)
        },
{
    let gestures = collect_gestures(&args.gesture_mappings);
    let mut buttons = collect_bindings(&args.button_mappings);
    let any_gesture = args.gesture_mappings.len() > 0;
    if any_gesture {
        let at = settings::find_binding(&buttons, Master3sButton::Gesture);
        if at < buttons.len() {
            if buttons[at].action != ButtonAction::Gestures {
                return Err(
                    DogiError::InvalidArgument(
                        "gesture mappings require --button gesture=gestures".to_owned(),
                    ),
                );
            }
        } else {
            buttons.push(
                ButtonBinding { button: Master3sButton::Gesture, action: ButtonAction::Gestures },
            );
        }
    }
    Ok(
        AppProfileOverrides {
            pointer_speed_percent: args.pointer_speed,
            smart_shift_threshold: args.smart_shift_threshold,
            ratchet_mode: args.wheel_mode,
            high_resolution_scroll: one_of_two(args.smooth_scrolling, args.no_smooth_scrolling),
            natural_scroll: one_of_two(args.natural_scrolling, args.standard_scrolling),
            thumb_wheel: args.thumb_wheel,
            thumb_wheel_speed_percent: args.thumb_wheel_speed,
            buttons,
            gestures: if any_gesture {
                Some(gestures)
            } else {
                None
            },
        },
    )
}

fn find_profile(profiles: &Vec<AppProfile>, key: &str) -> (r: usize)
    ensures
        r == profile_index(settings::profile_views(profiles@), key@, 0),
        r <= profiles@.len(),
{
    let mut i: usize = 0;
    while i < profiles.len()
        invariant
            i <= profiles@.len(),
            profile_index(settings::profile_views(profiles@), key@, i as int) == profile_index(
                settings::profile_views(profiles@),
                key@,
                0,
            ),
        decreases profiles@.len() - i,
    {
        if text::same_text(normalize_cli_name(profiles[i].name.as_str()).as_str(), key) {
            return i;
        }
        i += 1;
    }
    i
}

/// Adds the profile of an application, or replaces the one that it has.
pub fn upsert_app_profile(s: &mut Master3sSettings, args: &ConfigAppProfileSetArgs) -> (r: Result<
    (),
    DogiError,
>)
    ensures
        match profile_fault(*args) {
            Some(detail) => {
                &&& r is Err && r->Err_0@ == (ErrorKind::InvalidArgument, detail)
                &&& final(s)@ == old(s)@
            },
            None => {
                &&& r is Ok
                &&& final(s)@ == (settings::SettingsView {
                    app_profiles: with_profile(old(s)@.app_profiles, requested_profile(*args)),
                    ..old(s)@
                })
            },
        },
{
    let app_name = match clean_app_profile_name(args.app.as_str()) {
        Ok(name) => name,
        Err(error) => {
            return Err(error);
        },
    };
    let overrides = match build_overrides(args) {
        Ok(overrides) => overrides,
        Err(error) => {
            return Err(error);
        },
    };
    if overrides.count() == 0 {
        return Err(
            DogiError::InvalidArgument("app profile requires at least one override".to_owned()),
        );
    }
    let key = normalize_cli_name(app_name.as_str());
    let profile = AppProfile {
        name: app_name.clone(),
        matcher: ApplicationMatcher { field: args.match_field, value: app_name },
        overrides,
    }.normalized();
    let at = find_profile(&s.app_profiles, key.as_str());
    let ghost before = settings::profile_views(s.app_profiles@);
    if at < s.app_profiles.len() {
        s.app_profiles.set(at, profile);
        assert(settings::profile_views(s.app_profiles@) =~= before.update(
            at as int,
            requested_profile(*args),
        ));
    } else {
        s.app_profiles.push(profile);
        assert(settings::profile_views(s.app_profiles@) =~= before.push(requested_profile(*args)));
    }
    Ok(())
}

/// Removes the profile of an application.
pub fn remove_app_profile(s: &mut Master3sSettings, app_name: &str) -> (r: Result<(), DogiError>)
    ensures
        ({
            let name = text::trimmed(app_name@);
            if name.len() == 0 {
                &&& r is Err && r->Err_0@ == (
                    ErrorKind::InvalidArgument,
                    "app profile name cannot be empty"@,
                )
                &&& final(s)@ == old(s)@
            } else if !has_name(old(s)@.app_profiles, plain_name(name)) {
                &&& r is Err && r->Err_0@ == (
                    ErrorKind::InvalidArgument,
                    "app profile not found: "@ + name,
                )
                &&& final(s)@ == old(s)@
            } else {
                &&& r is Ok
                &&& final(s)@ == (settings::SettingsView {
                    app_profiles: without_name(
                        old(s)@.app_profiles,
                        plain_name(name),
                        old(s)@.app_profiles.len(),
                    ),
                    ..old(s)@
                })
            }
        }),
{
    let app_name = match clean_app_profile_name(app_name) {
        Ok(name) => name,
        Err(error) => {
            return Err(error);
        },
    };
    let key = normalize_cli_name(app_name.as_str());
    let ghost all = settings::profile_views(s.app_profiles@);
    let original_len = s.app_profiles.len();
    let mut kept: Vec<AppProfile> = Vec::new();
    let mut i: usize = 0;
    assert(settings::profile_views(kept@) =~= without_name(all, key@, 0));
    while i < s.app_profiles.len()
        invariant
            all == settings::profile_views(s.app_profiles@),
            i <= s.app_profiles@.len(),
            settings::profile_views(kept@) == without_name(all, key@, i as nat),
        decreases s.app_profiles@.len() - i,
    {
        let ghost before = kept@;
        let name = normalize_cli_name(s.app_profiles[i].name.as_str());
        if !text::same_text(name.as_str(), key.as_str()) {
            kept.push(s.app_profiles[i].clone());
        }
        i += 1;
        assert(settings::profile_views(kept@) =~= without_name(all, key@, i as nat));
    }
    proof {
        lemma_without_name(all, key@, all.len());
    }
    if kept.len() == original_len {
        return Err(
            DogiError::InvalidArgument(
                text::concat2("app profile not found: ", app_name.as_str()),
            ),
        );
    }
    s.app_profiles = kept;
    Ok(())
}

/// Each option that is given takes effect, and a setting of which none is given stays: the
/// name, the pointer speed, the threshold, how the wheel turns and scrolls, the thumb wheel
/// and its speed, the buttons. Gestures and profiles of applications stay in any case.
pub proof fn law_given_options_take_effect(s: settings::SettingsView, args: ConfigSetArgs)
    ensures
        ({
            let r = edited(s, args);
            &&& args.profile_name matches Some(name) ==> r.profile_name == name@
            &&& args.profile_name is None ==> r.profile_name == s.profile_name
            &&& args.pointer_speed matches Some(n) ==> r.pointer_speed_percent == n
            &&& args.pointer_speed is None ==> r.pointer_speed_percent == s.pointer_speed_percent
            &&& args.smart_shift_threshold matches Some(n) ==> r.smart_shift_threshold == n
            &&& args.smart_shift_threshold is None ==> r.smart_shift_threshold
                == s.smart_shift_threshold
            &&& args.thumb_wheel matches Some(mode) ==> r.thumb_wheel == mode
            &&& args.thumb_wheel is None ==> r.thumb_wheel == s.thumb_wheel
            &&& args.thumb_wheel_speed matches Some(n) ==> r.thumb_wheel_speed_percent == n
            &&& args.thumb_wheel_speed is None ==> r.thumb_wheel_speed_percent
                == s.thumb_wheel_speed_percent
            &&& args.no_high_resolution_scroll ==> !r.high_resolution_scroll
            &&& args.high_resolution_scroll && !args.no_high_resolution_scroll
                ==> r.high_resolution_scroll
            &&& !args.high_resolution_scroll && !args.no_high_resolution_scroll
                ==> r.high_resolution_scroll == s.high_resolution_scroll
            &&& args.no_natural_scroll ==> !r.natural_scroll
            &&& args.natural_scroll && !args.no_natural_scroll ==> r.natural_scroll
            &&& !args.natural_scroll && !args.no_natural_scroll ==> r.natural_scroll
                == s.natural_scroll
            &&& args.wheel_mode matches Some(mode) ==> r.ratchet_mode == mode
                && r.smart_shift_enabled == (mode == WheelRatchetMode::SmartShift)
            &&& args.wheel_mode is None && args.no_smart_shift ==> !r.smart_shift_enabled
                && r.ratchet_mode != WheelRatchetMode::SmartShift
            &&& args.wheel_mode is None && args.no_smart_shift && !args.smart_shift
                && s.ratchet_mode != WheelRatchetMode::SmartShift ==> r.ratchet_mode
                == s.ratchet_mode
            &&& args.wheel_mode is None && args.smart_shift && !args.no_smart_shift
                ==> r.smart_shift_enabled && r.ratchet_mode == WheelRatchetMode::SmartShift
            &&& args.wheel_mode is None && !args.smart_shift && !args.no_smart_shift
                ==> r.smart_shift_enabled == s.smart_shift_enabled && r.ratchet_mode
                == s.ratchet_mode
            &&& r.gestures == s.gestures
            &&& r.app_profiles == s.app_profiles
        }),
{
}

/// A button does what the last mapping of it says, and one without a mapping what it did.
pub proof fn law_last_mapping_of_a_button_takes_effect(
    s: settings::SettingsView,
    args: ConfigSetArgs,
    button: Master3sButton,
    i: int,
)
    ensures
        ({
            let mappings = args.button_mappings@;
            let now = settings::action_for(edited(s, args).buttons, button);
            &&& 0 <= i < mappings.len() && mappings[i].button == button && (forall|k: int|
                i < k < mappings.len() ==> (#[trigger] mappings[k]).button != button) ==> now
                == mappings[i].action
            &&& (forall|k: int|
                0 <= k < mappings.len() ==> (#[trigger] mappings[k]).button != button) ==> now
                == settings::action_for(s.buttons, button)
        }),
{
    let mappings = args.button_mappings@;
    lemma_last_mapping(s.buttons, mappings, button, i, mappings.len());
}

proof fn lemma_last_mapping(
    buttons: Seq<ButtonBinding>,
    mappings: Seq<CliButtonMapping>,
    button: Master3sButton,
    i: int,
    n: nat,
)
    requires
        n <= mappings.len(),
    ensures
        0 <= i < n && mappings[i].button == button && (forall|k: int|
            i < k < n ==> (#[trigger] mappings[k]).button != button) ==> settings::action_for(
            assigned(buttons, mappings, n),
            button,
        ) == mappings[i].action,
        (forall|k: int| 0 <= k < n ==> (#[trigger] mappings[k]).button != button)
            ==> settings::action_for(assigned(buttons, mappings, n), button)
            == settings::action_for(buttons, button),
    decreases n,
{
    if n > 0 {
        lemma_last_mapping(buttons, mappings, button, i, (n - 1) as nat);
        let before = assigned(buttons, mappings, (n - 1) as nat);
        let last = mappings[n - 1];
        settings::law_assignment_changes_one_button(before, last.button, last.action, button);
        if i < n - 1 && 0 <= i && mappings[i].button == button && (forall|k: int|
            i < k < n ==> (#[trigger] mappings[k]).button != button) {
            assert(mappings[n - 1].button != button);
        }
        if forall|k: int| 0 <= k < n ==> (#[trigger] mappings[k]).button != button {
            assert(mappings[n - 1].button != button);
        }
    }
}

/// A profile that is asked for has the name of the application, is matched by it, and
/// replaces just what is asked for: each number in its range, each switch, mode and button
/// as given; and gestures, where any is given.
pub proof fn law_profile_replaces_what_is_asked_for(args: ConfigAppProfileSetArgs, i: int)
    ensures
        ({
            let p = requested_profile(args);
            let o = p.overrides;
            &&& p.name == text::trimmed(args.app@) && p.value == text::trimmed(args.app@)
            &&& p.field == args.match_field
            &&& args.pointer_speed is None <==> o.pointer_speed_percent is None
            &&& args.pointer_speed matches Some(n) ==> (50 <= n <= 200 ==> o.pointer_speed_percent
                == Some(n))
            &&& args.pointer_speed matches Some(n) ==> (n < 50 ==> o.pointer_speed_percent == Some(
                50u8,
            ))
            &&& args.pointer_speed matches Some(n) ==> (n > 200 ==> o.pointer_speed_percent == Some(
                200u8,
            ))
            &&& args.smart_shift_threshold is None <==> o.smart_shift_threshold is None
            &&& args.smart_shift_threshold matches Some(n) ==> (1 <= n <= 50
                ==> o.smart_shift_threshold == Some(n))
            &&& args.thumb_wheel_speed is None <==> o.thumb_wheel_speed_percent is None
            &&& args.thumb_wheel_speed matches Some(n) ==> (25 <= n <= 400
                ==> o.thumb_wheel_speed_percent == Some(n))
            &&& o.ratchet_mode == args.wheel_mode
            &&& o.thumb_wheel == args.thumb_wheel
            &&& args.smooth_scrolling ==> o.high_resolution_scroll == Some(true)
            &&& args.no_smooth_scrolling && !args.smooth_scrolling ==> o.high_resolution_scroll
                == Some(false)
            &&& !args.smooth_scrolling && !args.no_smooth_scrolling
                ==> o.high_resolution_scroll is None
            &&& args.natural_scrolling ==> o.natural_scroll == Some(true)
            &&& args.standard_scrolling && !args.natural_scrolling ==> o.natural_scroll == Some(
                false,
            )
            &&& !args.natural_scrolling && !args.standard_scrolling ==> o.natural_scroll is None
            &&& 0 <= i < args.button_mappings@.len() ==> i < o.buttons.len()
                && o.buttons[i].button == args.button_mappings@[i].button && o.buttons[i].action
                == args.button_mappings@[i].action
            &&& o.gestures is Some <==> args.gesture_mappings@.len() > 0
            &&& args.gesture_mappings@.len() == 0 ==> o.buttons.len()
                == args.button_mappings@.len()
            &&& o.buttons.len() <= args.button_mappings@.len() + 1
        }),
{
}

/// A gesture does what the last mapping of it says, and one without a mapping what it does
/// by default.
pub proof fn law_last_mapping_of_a_gesture_takes_effect(
    args: ConfigAppProfileSetArgs,
    direction: GestureDirection,
    i: int,
)
    requires
        0 <= i < args.gesture_mappings@.len(),
    ensures
        ({
            let mappings = args.gesture_mappings@;
            let now = gesture_of(requested_profile(args).overrides.gestures->0, direction);
            &&& mappings[i].direction == direction && (forall|k: int|
                i < k < mappings.len() ==> (#[trigger] mappings[k]).direction != direction) ==> now
                == mappings[i].action
            &&& (forall|k: int|
                0 <= k < mappings.len() ==> (#[trigger] mappings[k]).direction != direction)
                ==> now == gesture_of(settings::default_gestures(), direction)
        }),
{
    let mappings = args.gesture_mappings@;
    lemma_last_gesture(settings::default_gestures(), mappings, direction, i, mappings.len());
}

/// What a gesture does.
pub open spec fn gesture_of(gestures: GestureBindings, direction: GestureDirection) -> Action {
    match direction {
        GestureDirection::Click => gestures.click,
        GestureDirection::Up => gestures.up,
        GestureDirection::Down => gestures.down,
        GestureDirection::Left => gestures.left,
        GestureDirection::Right => gestures.right,
    }
}

proof fn lemma_last_gesture(
    gestures: GestureBindings,
    mappings: Seq<CliGestureMapping>,
    direction: GestureDirection,
    i: int,
    n: nat,
)
    requires
        n <= mappings.len(),
    ensures
        0 <= i < n && mappings[i].direction == direction && (forall|k: int|
            i < k < n ==> (#[trigger] mappings[k]).direction != direction) ==> gesture_of(
            gestures_after(gestures, mappings, n),
            direction,
        ) == mappings[i].action,
        (forall|k: int| 0 <= k < n ==> (#[trigger] mappings[k]).direction != direction)
            ==> gesture_of(gestures_after(gestures, mappings, n), direction) == gesture_of(
            gestures,
            direction,
        ),
    decreases n,
{
    if n > 0 {
        lemma_last_gesture(gestures, mappings, direction, i, (n - 1) as nat);
        if 0 <= i < n - 1 && mappings[i].direction == direction && (forall|k: int|
            i < k < n ==> (#[trigger] mappings[k]).direction != direction) {
            assert(mappings[n - 1].direction != direction);
        }
        if forall|k: int| 0 <= k < n ==> (#[trigger] mappings[k]).direction != direction {
            assert(mappings[n - 1].direction != direction);
        }
    }
}

/// A profile is refused only where it has no name, where gestures are given while the
/// gesture button is to do something else, or where it would replace nothing.
pub proof fn law_sound_profiles_are_accepted(args: ConfigAppProfileSetArgs)
    requires
        text::trimmed(args.app@).len() > 0,
        args.gesture_mappings@.len() == 0,
    ensures
        profile_fault(args) is None <==> args.pointer_speed is Some || args.smart_shift_threshold
            is Some || args.wheel_mode is Some || args.smooth_scrolling || args.no_smooth_scrolling
            || args.natural_scrolling || args.standard_scrolling || args.thumb_wheel is Some
            || args.thumb_wheel_speed is Some || args.button_mappings@.len() > 0,
{
}

/// A button is named by these words, whatever else stands between their letters.
pub proof fn law_buttons_are_known_by_name(name: Seq<char>)
    ensures
        name == "back"@ || name == "backbutton"@ <==> button_named(name) == Some(
            Master3sButton::Back,
        ),
        name == "forward"@ || name == "forwardbutton"@ <==> button_named(name) == Some(
            Master3sButton::Forward,
        ),
        name == "gesture"@ || name == "gesturebutton"@ <==> button_named(name) == Some(
            Master3sButton::Gesture,
        ),
        name == "modeshift"@ || name == "modeshiftbutton"@ || name == "mode"@ <==> button_named(
            name,
        ) == Some(Master3sButton::ModeShift),
        name == "middle"@ || name == "middleclick"@ || name == "middlebutton"@ <==> button_named(
            name,
        ) == Some(Master3sButton::Middle),
{
    reveal_strlit("back");
    reveal_strlit("backbutton");
    reveal_strlit("forward");
    reveal_strlit("forwardbutton");
    reveal_strlit("gesture");
    reveal_strlit("gesturebutton");
    reveal_strlit("modeshift");
    reveal_strlit("modeshiftbutton");
    reveal_strlit("mode");
    reveal_strlit("middle");
    reveal_strlit("middleclick");
    reveal_strlit("middlebutton");
    assert("back"@[0] == 'b' && "backbutton"@[0] == 'b' && "forward"@[0] == 'f'
        && "forwardbutton"@[0] == 'f' && "gesture"@[0] == 'g' && "gesturebutton"@[0] == 'g');
    assert("modeshift"@[0] == 'm' && "modeshiftbutton"@[0] == 'm' && "mode"@[0] == 'm');
    assert("modeshift"@[1] == 'o' && "modeshiftbutton"@[1] == 'o' && "mode"@[1] == 'o');
    assert("middle"@[0] == 'm' && "middleclick"@[0] == 'm' && "middlebutton"@[0] == 'm');
    assert("middle"@[1] == 'i' && "middleclick"@[1] == 'i' && "middlebutton"@[1] == 'i');
}

/// An action is named by these words.
pub proof fn law_actions_are_known_by_name(name: Seq<char>)
    ensures
        name == "back"@ ==> action_named(name) == Some(Action::Back),
        name == "forward"@ ==> action_named(name) == Some(Action::Forward),
        name == "overview"@ || name == "activitiesoverview"@ || name == "missioncontrol"@
            ==> action_named(name) == Some(Action::Overview),
        name == "switchwindows"@ || name == "windowswitcher"@ || name == "appexpose"@ || name
            == "expose"@ ==> action_named(name) == Some(Action::WindowSwitcher),
        name == "previousworkspace"@ || name == "desktopleft"@ || name == "leftdesktop"@
            ==> action_named(name) == Some(Action::PreviousWorkspace),
        name == "nextworkspace"@ || name == "desktopright"@ || name == "rightdesktop"@
            ==> action_named(name) == Some(Action::NextWorkspace),
        name == "middleclick"@ || name == "middle"@ ==> action_named(name) == Some(
            Action::MiddleClick,
        ),
        name == "copy"@ ==> action_named(name) == Some(Action::Copy),
        name == "paste"@ ==> action_named(name) == Some(Action::Paste),
        name == "disabled"@ || name == "disable"@ || name == "none"@ ==> action_named(name) == Some(
            Action::Disabled,
        ),
        name == "native"@ || name == "default"@ || name == "defaultbehavior"@
            ==> button_action_named(name) == Some(ButtonAction::Native),
        name == "gestures"@ || name == "gesture"@ ==> button_action_named(name) == Some(
            ButtonAction::Gestures,
        ),
        action_named(name) matches Some(action) ==> button_action_named(name) == Some(
            ButtonAction::Action(action),
        ),
        name == "click"@ || name == "none"@ ==> direction_named(name) == Some(
            GestureDirection::Click,
        ),
        name == "up"@ ==> direction_named(name) == Some(GestureDirection::Up),
        name == "down"@ ==> direction_named(name) == Some(GestureDirection::Down),
        name == "left"@ ==> direction_named(name) == Some(GestureDirection::Left),
        name == "right"@ ==> direction_named(name) == Some(GestureDirection::Right),
{
    reveal_strlit("back");
    reveal_strlit("forward");
    reveal_strlit("overview");
    reveal_strlit("activitiesoverview");
    reveal_strlit("missioncontrol");
    reveal_strlit("switchwindows");
    reveal_strlit("windowswitcher");
    reveal_strlit("appexpose");
    reveal_strlit("expose");
    reveal_strlit("previousworkspace");
    reveal_strlit("desktopleft");
    reveal_strlit("leftdesktop");
    reveal_strlit("nextworkspace");
    reveal_strlit("desktopright");
    reveal_strlit("rightdesktop");
    reveal_strlit("middleclick");
    reveal_strlit("middle");
    reveal_strlit("copy");
    reveal_strlit("paste");
    reveal_strlit("disabled");
    reveal_strlit("disable");
    reveal_strlit("none");
    reveal_strlit("native");
    reveal_strlit("default");
    reveal_strlit("defaultbehavior");
    reveal_strlit("gestures");
    reveal_strlit("gesture");
    reveal_strlit("click");
    reveal_strlit("up");
    reveal_strlit("down");
    reveal_strlit("left");
    reveal_strlit("right");
    assert("back"@[0] == 'b' && "forward"@[0] == 'f' && "overview"@[0] == 'o'
        && "activitiesoverview"@[0] == 'a' && "missioncontrol"@[0] == 'm' && "switchwindows"@[0]
        == 's' && "windowswitcher"@[0] == 'w' && "appexpose"@[0] == 'a' && "expose"@[0] == 'e'
        && "previousworkspace"@[0] == 'p' && "desktopleft"@[0] == 'd' && "leftdesktop"@[0] == 'l'
        && "nextworkspace"@[0] == 'n' && "desktopright"@[0] == 'd' && "rightdesktop"@[0] == 'r'
        && "middleclick"@[0] == 'm' && "middle"@[0] == 'm' && "copy"@[0] == 'c' && "paste"@[0]
        == 'p' && "disabled"@[0] == 'd' && "disable"@[0] == 'd' && "none"@[0] == 'n' && "native"@[0]
        == 'n' && "default"@[0] == 'd' && "gestures"@[0] == 'g' && "click"@[0] == 'c' && "up"@[0]
        == 'u' && "down"@[0] == 'd' && "left"@[0] == 'l' && "right"@[0] == 'r');
    assert("activitiesoverview"@.len() == 18 && "appexpose"@.len() == 9);
    assert("previousworkspace"@.len() == 17 && "paste"@.len() == 5);
    assert("missioncontrol"@[1] == 'i' && "missioncontrol"@[2] == 's' && "middleclick"@[2] == 'd'
        && "middle"@[2] == 'd');
    assert("nextworkspace"@.len() == 13 && "none"@.len() == 4 && "native"@.len() == 6);
    assert("desktopleft"@.len() == 11 && "desktopright"@.len() == 12 && "disabled"@.len() == 8
        && "disable"@.len() == 7 && "default"@.len() == 7 && "down"@.len() == 4);
    assert("defaultbehavior"@.len() == 15 && "gesture"@[0] == 'g');
    assert("disable"@[1] == 'i' && "default"@[1] == 'e');
    assert("left"@.len() == 4 && "leftdesktop"@.len() == 11);
    assert("right"@.len() == 5 && "rightdesktop"@.len() == 12);
}

/// A text of two parts assigns what its parts name: the button before the first `=`, and
/// behind it what the button is to do.
pub proof fn law_mappings_assign_what_they_name(button: Seq<char>, action: Seq<char>)
    requires
        !button.contains('='),
    ensures
        button_named(plain_name(button)) is Some && button_action_named(plain_name(action)) is Some
            ==> button_mapping_of(button + seq!['='] + action) == Ok::<CliButtonMapping, Seq<char>>(
            CliButtonMapping {
                button: button_named(plain_name(button))->0,
                action: button_action_named(plain_name(action))->0,
            },
        ),
        direction_named(plain_name(button)) is Some && action_named(plain_name(action)) is Some
            ==> gesture_mapping_of(button + seq!['='] + action) == Ok::<
            CliGestureMapping,
            Seq<char>,
        >(
            CliGestureMapping {
                direction: direction_named(plain_name(button))->0,
                action: action_named(plain_name(action))->0,
            },
        ),
{
    let whole = button + seq!['='] + action;
    lemma_first_sign(whole, button.len() as int, 0);
    assert(whole.take(button.len() as int) =~= button);
    assert(whole.skip(button.len() as int + 1) =~= action);
}

proof fn lemma_first_sign(s: Seq<char>, n: int, i: int)
    requires
        0 <= i <= n < s.len(),
        s[n] == '=',
        forall|k: int| 0 <= k < n ==> #[trigger] s.take(n)[k] != '=',
    ensures
        text::index_from(s, '=', i) == n,
    decreases n - i,
{
    if i < n {
        assert(s.take(n)[i] != '=');
        lemma_first_sign(s, n, i + 1);
    }
}

/// Changing the settings sets what is asked for and leaves the rest: stated of the settings
/// themselves.
pub proof fn law_settings_are_changed_as_asked(args: &ConfigSetArgs)
    ensures
        forall|s: &mut Master3sSettings, r: ()|
            #![trigger call_ensures(apply_config_set_args, (s, args), r)]
            call_ensures(apply_config_set_args, (s, args), r) ==> {
                let b = *s;
                let a = *final(s);
                &&& args.pointer_speed matches Some(n) ==> a.pointer_speed_percent == n
                &&& args.pointer_speed is None ==> a.pointer_speed_percent
                    == b.pointer_speed_percent
                &&& args.smart_shift_threshold matches Some(n) ==> a.smart_shift_threshold == n
                &&& args.smart_shift_threshold is None ==> a.smart_shift_threshold
                    == b.smart_shift_threshold
                &&& args.thumb_wheel matches Some(mode) ==> a.thumb_wheel == mode
                &&& args.thumb_wheel is None ==> a.thumb_wheel == b.thumb_wheel
                &&& args.thumb_wheel_speed matches Some(n) ==> a.thumb_wheel_speed_percent == n
                &&& args.thumb_wheel_speed is None ==> a.thumb_wheel_speed_percent
                    == b.thumb_wheel_speed_percent
                &&& args.profile_name matches Some(name) ==> a.profile_name@ == name@
                &&& args.profile_name is None ==> a.profile_name@ == b.profile_name@
                &&& a.gestures == b.gestures
            },
{
    assert forall|s: &mut Master3sSettings, r: ()|
        #![trigger call_ensures(apply_config_set_args, (s, args), r)]
        call_ensures(apply_config_set_args, (s, args), r) implies final(s)@ == edited((*s)@, *args) by {
        law_given_options_take_effect((*s)@, *args);
    }
}

}
