//! The settings of a mouse, and their normal form.

use vstd::prelude::*;

verus! {

pub const MIN_POINTER_SPEED_PERCENT: u8 = 50;

pub const MAX_POINTER_SPEED_PERCENT: u8 = 200;

pub const MIN_SMART_SHIFT_THRESHOLD: u8 = 1;

pub const MAX_SMART_SHIFT_THRESHOLD: u8 = 50;

pub const MIN_THUMB_WHEEL_SPEED_PERCENT: u16 = 25;

pub const MAX_THUMB_WHEEL_SPEED_PERCENT: u16 = 400;

pub const DEFAULT_THUMB_WHEEL_SPEED_PERCENT: u16 = 100;

/// How the main wheel turns.
#[derive(Clone, Copy, Debug, PartialEq, Eq, Structural)]
pub enum WheelRatchetMode {
    Ratchet,
    FreeSpin,
    SmartShift,
}

/// What the thumb wheel does.
#[derive(Clone, Copy, Debug, PartialEq, Eq, Structural)]
pub enum ThumbWheelMode {
    HorizontalScroll,
    TabSwitch,
    Zoom,
    Volume,
    Disabled,
}

/// The buttons that can be assigned.
#[derive(Clone, Copy, Debug, PartialEq, Eq, Structural)]
pub enum Master3sButton {
    Back,
    Forward,
    Gesture,
    ModeShift,
    Middle,
}

/// An action that the local runtime carries out.
#[derive(Clone, Copy, Debug, PartialEq, Eq, Structural)]
pub enum Action {
    Back,
    Forward,
    Overview,
    WindowSwitcher,
    PreviousWorkspace,
    NextWorkspace,
    MiddleClick,
    Copy,
    Paste,
    Disabled,
}

/// What a button does: what the mouse does by itself, gestures, or an action.
#[derive(Clone, Copy, Debug, PartialEq, Eq, Structural)]
pub enum ButtonAction {
    Native,
    Gestures,
    Action(Action),
}

/// Where a gesture goes.
#[derive(Clone, Copy, Debug, PartialEq, Eq, Structural)]
pub enum GestureDirection {
    Click,
    Up,
    Down,
    Left,
    Right,
}

/// Which property of the active application a profile is matched against.
#[derive(Clone, Copy, Debug, PartialEq, Eq, Structural)]
pub enum ApplicationMatchField {
    Any,
    Title,
    Class,
    Executable,
}

/// One button and what it does.
#[derive(Clone, Copy, Debug, PartialEq, Eq, Structural)]
pub struct ButtonBinding {
    pub button: Master3sButton,
    pub action: ButtonAction,
}

/// What the five gestures do, and how far the mouse has to move for one.
#[derive(Clone, Copy, Debug, PartialEq, Eq, Structural)]
pub struct GestureBindings {
    pub threshold: u16,
    pub click: Action,
    pub up: Action,
    pub down: Action,
    pub left: Action,
    pub right: Action,
}

/// The settings that an application profile replaces.
#[derive(Debug, PartialEq, Eq)]
pub struct AppProfileOverrides {
    pub pointer_speed_percent: Option<u8>,
    pub smart_shift_threshold: Option<u8>,
    pub ratchet_mode: Option<WheelRatchetMode>,
    pub high_resolution_scroll: Option<bool>,
    pub natural_scroll: Option<bool>,
    pub thumb_wheel: Option<ThumbWheelMode>,
    pub thumb_wheel_speed_percent: Option<u16>,
    pub buttons: Vec<ButtonBinding>,
    pub gestures: Option<GestureBindings>,
}

/// Which application a profile is for.
#[derive(Debug, PartialEq, Eq)]
pub struct ApplicationMatcher {
    pub field: ApplicationMatchField,
    pub value: String,
}

/// Settings that hold while one application is active.
#[derive(Debug, PartialEq, Eq)]
pub struct AppProfile {
    pub name: String,
    pub matcher: ApplicationMatcher,
    pub overrides: AppProfileOverrides,
}

/// All settings of a mouse.
#[derive(Debug, PartialEq, Eq)]
pub struct Master3sSettings {
    pub profile_name: String,
    pub pointer_speed_percent: u8,
    pub smart_shift_enabled: bool,
    pub smart_shift_threshold: u8,
    pub ratchet_mode: WheelRatchetMode,
    pub high_resolution_scroll: bool,
    pub natural_scroll: bool,
    pub thumb_wheel: ThumbWheelMode,
    pub thumb_wheel_speed_percent: u16,
    pub buttons: Vec<ButtonBinding>,
    pub gestures: GestureBindings,
    pub app_profiles: Vec<AppProfile>,
}

/// The mathematical value of [`AppProfileOverrides`].
#[verifier::ext_equal]
pub struct OverridesView {
    pub pointer_speed_percent: Option<u8>,
    pub smart_shift_threshold: Option<u8>,
    pub ratchet_mode: Option<WheelRatchetMode>,
    pub high_resolution_scroll: Option<bool>,
    pub natural_scroll: Option<bool>,
    pub thumb_wheel: Option<ThumbWheelMode>,
    pub thumb_wheel_speed_percent: Option<u16>,
    pub buttons: Seq<ButtonBinding>,
    pub gestures: Option<GestureBindings>,
}

/// The mathematical value of [`AppProfile`].
#[verifier::ext_equal]
pub struct ProfileView {
    pub name: Seq<char>,
    pub field: ApplicationMatchField,
    pub value: Seq<char>,
    pub overrides: OverridesView,
}

/// The mathematical value of [`Master3sSettings`].
#[verifier::ext_equal]
pub struct SettingsView {
    pub profile_name: Seq<char>,
    pub pointer_speed_percent: u8,
    pub smart_shift_enabled: bool,
    pub smart_shift_threshold: u8,
    pub ratchet_mode: WheelRatchetMode,
    pub high_resolution_scroll: bool,
    pub natural_scroll: bool,
    pub thumb_wheel: ThumbWheelMode,
    pub thumb_wheel_speed_percent: u16,
    pub buttons: Seq<ButtonBinding>,
    pub gestures: GestureBindings,
    pub app_profiles: Seq<ProfileView>,
}

impl View for AppProfileOverrides {
    type V = OverridesView;

    open spec fn view(&self) -> OverridesView {
        OverridesView {
            pointer_speed_percent: self.pointer_speed_percent,
            smart_shift_threshold: self.smart_shift_threshold,
            ratchet_mode: self.ratchet_mode,
            high_resolution_scroll: self.high_resolution_scroll,
            natural_scroll: self.natural_scroll,
            thumb_wheel: self.thumb_wheel,
            thumb_wheel_speed_percent: self.thumb_wheel_speed_percent,
            buttons: self.buttons@,
            gestures: self.gestures,
        }
    }
}

impl View for AppProfile {
    type V = ProfileView;

    open spec fn view(&self) -> ProfileView {
        ProfileView {
            name: self.name@,
            field: self.matcher.field,
            value: self.matcher.value@,
            overrides: self.overrides@,
        }
    }
}

/// The values of a list of profiles.
pub open spec fn profile_views(profiles: Seq<AppProfile>) -> Seq<ProfileView> {
    Seq::new(profiles.len(), |i: int| profiles[i]@)
}

impl View for Master3sSettings {
    type V = SettingsView;

    open spec fn view(&self) -> SettingsView {
        SettingsView {
            profile_name: self.profile_name@,
            pointer_speed_percent: self.pointer_speed_percent,
            smart_shift_enabled: self.smart_shift_enabled,
            smart_shift_threshold: self.smart_shift_threshold,
            ratchet_mode: self.ratchet_mode,
            high_resolution_scroll: self.high_resolution_scroll,
            natural_scroll: self.natural_scroll,
            thumb_wheel: self.thumb_wheel,
            thumb_wheel_speed_percent: self.thumb_wheel_speed_percent,
            buttons: self.buttons@,
            gestures: self.gestures,
            app_profiles: profile_views(self.app_profiles@),
        }
    }
}

impl Clone for AppProfileOverrides {
    fn clone(&self) -> (r: Self)
        ensures
            r@ == self@,
    {
        AppProfileOverrides {
            pointer_speed_percent: self.pointer_speed_percent,
            smart_shift_threshold: self.smart_shift_threshold,
            ratchet_mode: self.ratchet_mode,
            high_resolution_scroll: self.high_resolution_scroll,
            natural_scroll: self.natural_scroll,
            thumb_wheel: self.thumb_wheel,
            thumb_wheel_speed_percent: self.thumb_wheel_speed_percent,
            buttons: copy_bindings(&self.buttons),
            gestures: self.gestures,
        }
    }
}

impl Clone for AppProfile {
    fn clone(&self) -> (r: Self)
        ensures
            r@ == self@,
    {
        AppProfile {
            name: self.name.clone(),
            matcher: ApplicationMatcher {
                field: self.matcher.field,
                value: self.matcher.value.clone(),
            },
            overrides: self.overrides.clone(),
        }
    }
}

impl Clone for Master3sSettings {
    fn clone(&self) -> (r: Self)
        ensures
            r@ == self@,
    {
        Master3sSettings {
            profile_name: self.profile_name.clone(),
            pointer_speed_percent: self.pointer_speed_percent,
            smart_shift_enabled: self.smart_shift_enabled,
            smart_shift_threshold: self.smart_shift_threshold,
            ratchet_mode: self.ratchet_mode,
            high_resolution_scroll: self.high_resolution_scroll,
            natural_scroll: self.natural_scroll,
            thumb_wheel: self.thumb_wheel,
            thumb_wheel_speed_percent: self.thumb_wheel_speed_percent,
            buttons: copy_bindings(&self.buttons),
            gestures: self.gestures,
            app_profiles: copy_profiles(&self.app_profiles),
        }
    }
}

/// A copy of a list of bindings.
pub fn copy_bindings(bindings: &Vec<ButtonBinding>) -> (r: Vec<ButtonBinding>)
    ensures
        r@ == bindings@,
{
    let mut r: Vec<ButtonBinding> = Vec::new();
    let mut i: usize = 0;
    while i < bindings.len()
        invariant
            i <= bindings@.len(),
            r@ == bindings@.take(i as int),
        decreases bindings@.len() - i,
    {
        r.push(bindings[i]);
        i += 1;
        assert(r@ == bindings@.take(i as int));
    }
    assert(bindings@.take(bindings@.len() as int) == bindings@);
    r
}

/// A copy of a list of profiles.
pub fn copy_profiles(profiles: &Vec<AppProfile>) -> (r: Vec<AppProfile>)
    ensures
        profile_views(r@) == profile_views(profiles@),
{
    let mut r: Vec<AppProfile> = Vec::new();
    let mut i: usize = 0;
    while i < profiles.len()
        invariant
            i <= profiles@.len(),
            profile_views(r@) == profile_views(profiles@).take(i as int),
        decreases profiles@.len() - i,
    {
        let ghost before = r@;
        r.push(profiles[i].clone());
        i += 1;
        assert(profile_views(r@) == profile_views(before).push(profiles@[i - 1]@));
        assert(profile_views(r@) == profile_views(profiles@).take(i as int));
    }
    assert(profile_views(profiles@).take(profiles@.len() as int) == profile_views(profiles@));
    r
}

/// Whether two lists of bindings are the same.
pub fn same_bindings(a: &Vec<ButtonBinding>, b: &Vec<ButtonBinding>) -> (r: bool)
    ensures
        r == (a@ == b@),
{
    if a.len() != b.len() {
        return false;
    }
    let mut i: usize = 0;
    while i < a.len()
        invariant
            i <= a@.len() == b@.len(),
            forall|k: int| 0 <= k < i ==> a@[k] == b@[k],
        decreases a@.len() - i,
    {
        if a[i] != b[i] {
            return false;
        }
        i += 1;
    }
    assert(a@ == b@);
    true
}

/// Whether two optional numbers are the same.
fn same_u8(a: Option<u8>, b: Option<u8>) -> (r: bool)
    ensures
        r == (a == b),
{
    match (a, b) {
        (Some(x), Some(y)) => x == y,
        (None, None) => true,
        _ => false,
    }
}

fn same_u16(a: Option<u16>, b: Option<u16>) -> (r: bool)
    ensures
        r == (a == b),
{
    match (a, b) {
        (Some(x), Some(y)) => x == y,
        (None, None) => true,
        _ => false,
    }
}

fn same_bool(a: Option<bool>, b: Option<bool>) -> (r: bool)
    ensures
        r == (a == b),
{
    match (a, b) {
        (Some(x), Some(y)) => x == y,
        (None, None) => true,
        _ => false,
    }
}

fn same_ratchet(a: Option<WheelRatchetMode>, b: Option<WheelRatchetMode>) -> (r: bool)
    ensures
        r == (a == b),
{
    match (a, b) {
        (Some(x), Some(y)) => x == y,
        (None, None) => true,
        _ => false,
    }
}

fn same_thumb_wheel(a: Option<ThumbWheelMode>, b: Option<ThumbWheelMode>) -> (r: bool)
    ensures
        r == (a == b),
{
    match (a, b) {
        (Some(x), Some(y)) => x == y,
        (None, None) => true,
        _ => false,
    }
}

fn same_gestures(a: Option<GestureBindings>, b: Option<GestureBindings>) -> (r: bool)
    ensures
        r == (a == b),
{
    match (a, b) {
        (Some(x), Some(y)) => x == y,
        (None, None) => true,
        _ => false,
    }
}

/// Whether two profiles have the same value.
pub fn same_profile(a: &AppProfile, b: &AppProfile) -> (r: bool)
    ensures
        r == (a@ == b@),
{
    let x = &a.overrides;
    let y = &b.overrides;
    let r = a.name == b.name && a.matcher.field == b.matcher.field && a.matcher.value
        == b.matcher.value && same_u8(x.pointer_speed_percent, y.pointer_speed_percent) && same_u8(
        x.smart_shift_threshold,
        y.smart_shift_threshold,
    ) && same_ratchet(x.ratchet_mode, y.ratchet_mode) && same_bool(
        x.high_resolution_scroll,
        y.high_resolution_scroll,
    ) && same_bool(x.natural_scroll, y.natural_scroll) && same_thumb_wheel(
        x.thumb_wheel,
        y.thumb_wheel,
    ) && same_u16(x.thumb_wheel_speed_percent, y.thumb_wheel_speed_percent) && same_bindings(
        &x.buttons,
        &y.buttons,
    ) && same_gestures(x.gestures, y.gestures);
    if r {
        assert(a@.overrides =~= b@.overrides);
        assert(a@ =~= b@);
    }
    r
}

/// Whether two lists of profiles have the same values in the same order.
pub fn same_profiles(a: &Vec<AppProfile>, b: &Vec<AppProfile>) -> (r: bool)
    ensures
        r == (profile_views(a@) == profile_views(b@)),
{
    if a.len() != b.len() {
        assert(profile_views(a@).len() != profile_views(b@).len());
        return false;
    }
    let mut i: usize = 0;
    while i < a.len()
        invariant
            i <= a@.len() == b@.len(),
            forall|k: int| 0 <= k < i ==> (#[trigger] a@[k])@ == b@[k]@,
        decreases a@.len() - i,
    {
        if !same_profile(&a[i], &b[i]) {
            assert(profile_views(a@)[i as int] != profile_views(b@)[i as int]);
            return false;
        }
        i += 1;
    }
    assert(profile_views(a@) =~= profile_views(b@));
    true
}

/// Whether two settings have the same value.
pub fn same_settings(a: &Master3sSettings, b: &Master3sSettings) -> (r: bool)
    ensures
        r == (a@ == b@),
{
    let r = a.profile_name == b.profile_name && a.pointer_speed_percent == b.pointer_speed_percent
        && a.smart_shift_enabled == b.smart_shift_enabled && a.smart_shift_threshold
        == b.smart_shift_threshold && a.ratchet_mode == b.ratchet_mode && a.high_resolution_scroll
        == b.high_resolution_scroll && a.natural_scroll == b.natural_scroll && a.thumb_wheel
        == b.thumb_wheel && a.thumb_wheel_speed_percent == b.thumb_wheel_speed_percent
        && same_bindings(&a.buttons, &b.buttons) && a.gestures == b.gestures && same_profiles(
        &a.app_profiles,
        &b.app_profiles,
    );
    if r {
        assert(a@ =~= b@);
    }
    r
}

/// The assignable buttons in the order in which settings list them.
pub open spec fn all_buttons() -> Seq<Master3sButton> {
    seq![
        Master3sButton::Back,
        Master3sButton::Forward,
        Master3sButton::Gesture,
        Master3sButton::ModeShift,
        Master3sButton::Middle,
    ]
}

/// The place of a button in [`all_buttons`].
pub open spec fn button_position(button: Master3sButton) -> int {
    match button {
        Master3sButton::Back => 0,
        Master3sButton::Forward => 1,
        Master3sButton::Gesture => 2,
        Master3sButton::ModeShift => 3,
        Master3sButton::Middle => 4,
    }
}

/// Every button has its own place among all of them.
pub proof fn lemma_button_position(button: Master3sButton)
    ensures
        0 <= button_position(button) < all_buttons().len(),
        all_buttons()[button_position(button)] == button,
        forall|i: int|
            0 <= i < all_buttons().len() && all_buttons()[i] == button ==> i == button_position(
                button,
            ),
{
}

impl Master3sButton {
    /// The assignable buttons.
    pub fn all() -> (r: Vec<Master3sButton>)
        ensures
            r@ == all_buttons(),
    {
        let mut r: Vec<Master3sButton> = Vec::new();
        r.push(Master3sButton::Back);
        r.push(Master3sButton::Forward);
        r.push(Master3sButton::Gesture);
        r.push(Master3sButton::ModeShift);
        r.push(Master3sButton::Middle);
        assert(r@ =~= all_buttons());
        r
    }

    /// The name that the user is shown.
    pub fn label(self) -> (r: &'static str)
        ensures
            r@ == button_label(self),
    {
        match self {
            Master3sButton::Back => "Back button",
            Master3sButton::Forward => "Forward button",
            Master3sButton::Gesture => "Gesture button",
            Master3sButton::ModeShift => "Mode shift button",
            Master3sButton::Middle => "Middle button",
        }
    }
}

/// The name that the user is shown for a button.
pub open spec fn button_label(button: Master3sButton) -> Seq<char> {
    match button {
        Master3sButton::Back => "Back button"@,
        Master3sButton::Forward => "Forward button"@,
        Master3sButton::Gesture => "Gesture button"@,
        Master3sButton::ModeShift => "Mode shift button"@,
        Master3sButton::Middle => "Middle button"@,
    }
}

/// The HID++ control identifier of a button.
pub open spec fn control_id_of(button: Master3sButton) -> u16 {
    match button {
        Master3sButton::Back => 0x0053,
        Master3sButton::Forward => 0x0056,
        Master3sButton::Gesture => 0x00c3,
        Master3sButton::ModeShift => 0x00c4,
        Master3sButton::Middle => 0x0052,
    }
}

/// The button that a control identifier stands for.
pub open spec fn button_of_control(control_id: u16) -> Option<Master3sButton> {
    if control_id == 0x0053 {
        Some(Master3sButton::Back)
    } else if control_id == 0x0056 {
        Some(Master3sButton::Forward)
    } else if control_id == 0x00c3 {
        Some(Master3sButton::Gesture)
    } else if control_id == 0x00c4 {
        Some(Master3sButton::ModeShift)
    } else if control_id == 0x0052 {
        Some(Master3sButton::Middle)
    } else {
        None
    }
}

/// Control identifiers and buttons name each other: each button is found again
/// from its identifier, and no other identifier stands for it.
pub proof fn law_control_ids_identify_buttons(button: Master3sButton, control_id: u16)
    ensures
        button_of_control(control_id) == Some(button) <==> control_id == control_id_of(button),
{
}

/// The HID++ control identifier of a button.
pub fn master3s_button_control_id(button: Master3sButton) -> (r: u16)
    ensures
        r == control_id_of(button),
{
    match button {
        Master3sButton::Back => 0x0053,
        Master3sButton::Forward => 0x0056,
        Master3sButton::Gesture => 0x00c3,
        Master3sButton::ModeShift => 0x00c4,
        Master3sButton::Middle => 0x0052,
    }
}

/// The button that a control identifier stands for.
pub fn master3s_button_from_control_id(control_id: u16) -> (r: Option<Master3sButton>)
    ensures
        r == button_of_control(control_id),
{
    if control_id == 0x0053 {
        Some(Master3sButton::Back)
    } else if control_id == 0x0056 {
        Some(Master3sButton::Forward)
    } else if control_id == 0x00c3 {
        Some(Master3sButton::Gesture)
    } else if control_id == 0x00c4 {
        Some(Master3sButton::ModeShift)
    } else if control_id == 0x0052 {
        Some(Master3sButton::Middle)
    } else {
        None
    }
}

/// The first binding of a button at or after position `i`, or the number of
/// bindings.
pub open spec fn binding_index(
    bindings: Seq<ButtonBinding>,
    button: Master3sButton,
    i: int,
) -> int
    decreases bindings.len() - i,
{
    if 0 <= i < bindings.len() && bindings[i].button != button {
        binding_index(bindings, button, i + 1)
    } else {
        i
    }
}

/// The search for a binding ends at the first one of that button.
pub proof fn lemma_binding_index(bindings: Seq<ButtonBinding>, button: Master3sButton, i: int)
    requires
        0 <= i <= bindings.len(),
    ensures
        i <= binding_index(bindings, button, i) <= bindings.len(),
        forall|k: int|
            i <= k < binding_index(bindings, button, i) ==> (#[trigger] bindings[k]).button
                != button,
        binding_index(bindings, button, i) < bindings.len() ==> bindings[binding_index(
            bindings,
            button,
            i,
        )].button == button,
    decreases bindings.len() - i,
{
    if i < bindings.len() && bindings[i].button != button {
        lemma_binding_index(bindings, button, i + 1);
    }
}

/// What a list of bindings assigns to a button: the first binding of that
/// button, or the native behaviour.
pub open spec fn action_for(bindings: Seq<ButtonBinding>, button: Master3sButton) -> ButtonAction {
    let at = binding_index(bindings, button, 0);
    if at < bindings.len() {
        bindings[at].action
    } else {
        ButtonAction::Native
    }
}

/// The bindings after a button has been assigned: its first binding is replaced,
/// or a new one stands at the end.
pub open spec fn with_action(
    bindings: Seq<ButtonBinding>,
    button: Master3sButton,
    action: ButtonAction,
) -> Seq<ButtonBinding> {
    let at = binding_index(bindings, button, 0);
    if at < bindings.len() {
        bindings.update(at, ButtonBinding { button, action })
    } else {
        bindings.push(ButtonBinding { button, action })
    }
}

/// The first binding of a button, or the number of bindings.
pub fn find_binding(bindings: &Vec<ButtonBinding>, button: Master3sButton) -> (r: usize)
    ensures
        r == binding_index(bindings@, button, 0),
        r <= bindings@.len(),
{
    let mut i: usize = 0;
    while i < bindings.len() && bindings[i].button != button
        invariant
            i <= bindings@.len(),
            binding_index(bindings@, button, i as int) == binding_index(bindings@, button, 0),
        decreases bindings@.len() - i,
    {
        i += 1;
    }
    i
}

/// A search is decided by the prefix it looks at.
proof fn lemma_binding_index_at(
    bindings: Seq<ButtonBinding>,
    button: Master3sButton,
    i: int,
    at: int,
)
    requires
        0 <= i <= at <= bindings.len(),
        forall|k: int| i <= k < at ==> (#[trigger] bindings[k]).button != button,
        at < bindings.len() ==> bindings[at].button == button,
    ensures
        binding_index(bindings, button, i) == at,
    decreases at - i,
{
    if i < at {
        lemma_binding_index_at(bindings, button, i + 1, at);
    }
}

/// After a button has been assigned, it has that action, and every other button
/// keeps the one it had.
pub proof fn law_assignment_changes_one_button(
    bindings: Seq<ButtonBinding>,
    button: Master3sButton,
    action: ButtonAction,
    other: Master3sButton,
)
    ensures
        action_for(with_action(bindings, button, action), button) == action,
        other != button ==> action_for(with_action(bindings, button, action), other) == action_for(
            bindings,
            other,
        ),
{
    let at = binding_index(bindings, button, 0);
    lemma_binding_index(bindings, button, 0);
    lemma_binding_index(bindings, other, 0);
    let after = with_action(bindings, button, action);
    lemma_binding_index_at(after, button, 0, at);
    if other != button {
        let there = binding_index(bindings, other, 0);
        if there < bindings.len() {
            lemma_binding_index_at(after, other, 0, there);
        } else {
            lemma_binding_index_at(after, other, 0, after.len() as int);
        }
    }
}

/// A number moved into the range from `low` to `high`.
pub open spec fn clamped(n: int, low: int, high: int) -> int {
    if n < low {
        low
    } else if n > high {
        high
    } else {
        n
    }
}

/// Exactly one binding per button, in the order of [`all_buttons`].
pub open spec fn normal_buttons(bindings: Seq<ButtonBinding>) -> Seq<ButtonBinding> {
    Seq::new(
        all_buttons().len(),
        |i: int|
            ButtonBinding {
                button: all_buttons()[i],
                action: action_for(bindings, all_buttons()[i]),
            },
    )
}

/// The normal form of profile overrides: numbers are in range.
pub open spec fn normal_overrides(o: OverridesView) -> OverridesView {
    OverridesView {
        pointer_speed_percent: match o.pointer_speed_percent {
            Some(n) => Some(clamped(n as int, 50, 200) as u8),
            None => None,
        },
        smart_shift_threshold: match o.smart_shift_threshold {
            Some(n) => Some(clamped(n as int, 1, 50) as u8),
            None => None,
        },
        thumb_wheel_speed_percent: match o.thumb_wheel_speed_percent {
            Some(n) => Some(clamped(n as int, 25, 400) as u16),
            None => None,
        },
        ..o
    }
}

/// The normal form of a profile.
pub open spec fn normal_profile(p: ProfileView) -> ProfileView {
    ProfileView { overrides: normal_overrides(p.overrides), ..p }
}

/// The normal form of settings: numbers are in range, each button is bound once
/// and profiles are in normal form.
pub open spec fn normal_settings(s: SettingsView) -> SettingsView {
    SettingsView {
        pointer_speed_percent: clamped(s.pointer_speed_percent as int, 50, 200) as u8,
        smart_shift_threshold: clamped(s.smart_shift_threshold as int, 1, 50) as u8,
        thumb_wheel_speed_percent: clamped(s.thumb_wheel_speed_percent as int, 25, 400) as u16,
        buttons: normal_buttons(s.buttons),
        app_profiles: Seq::new(
            s.app_profiles.len(),
            |i: int| normal_profile(s.app_profiles[i]),
        ),
        ..s
    }
}

/// In normal form each button does what it was bound to.
pub proof fn lemma_normal_buttons_action(bindings: Seq<ButtonBinding>, button: Master3sButton)
    ensures
        action_for(normal_buttons(bindings), button) == action_for(bindings, button),
{
    let normal = normal_buttons(bindings);
    lemma_button_position(button);
    let at = button_position(button);
    assert(normal[at].button == button);
    assert forall|k: int| 0 <= k < at implies (#[trigger] normal[k]).button != button by {
        assert(normal[k].button == all_buttons()[k]);
    }
    lemma_binding_index_at(normal, button, 0, at);
}

/// Normalizing settings that are in normal form changes nothing.
pub proof fn law_normal_form_is_stable(s: SettingsView)
    ensures
        normal_settings(normal_settings(s)) == normal_settings(s),
{
    let once = normal_settings(s);
    let twice = normal_settings(once);
    assert forall|i: int| 0 <= i < once.buttons.len() implies once.buttons[i]
        == twice.buttons[i] by {
        lemma_normal_buttons_action(s.buttons, all_buttons()[i]);
    }
    assert(once.buttons =~= twice.buttons);
    assert forall|i: int| 0 <= i < once.app_profiles.len() implies once.app_profiles[i]
        == twice.app_profiles[i] by {
        let p = s.app_profiles[i];
        assert(normal_overrides(normal_overrides(p.overrides)) =~= normal_overrides(p.overrides));
    }
    assert(once.app_profiles =~= twice.app_profiles);
}

/// In normal form every number is in the range that the device accepts.
pub proof fn law_normal_form_is_in_range(s: SettingsView)
    ensures
        50 <= normal_settings(s).pointer_speed_percent <= 200,
        1 <= normal_settings(s).smart_shift_threshold <= 50,
        25 <= normal_settings(s).thumb_wheel_speed_percent <= 400,
        normal_settings(s).buttons.len() == all_buttons().len(),
{
}

fn clamp_u8(n: u8, low: u8, high: u8) -> (r: u8)
    requires
        low <= high,
    ensures
        r == clamped(n as int, low as int, high as int),
{
    if n < low {
        low
    } else if n > high {
        high
    } else {
        n
    }
}

/// A number moved into the range from `low` to `high`.
pub fn clamp_u16(n: u16, low: u16, high: u16) -> (r: u16)
    requires
        low <= high,
    ensures
        r == clamped(n as int, low as int, high as int),
{
    if n < low {
        low
    } else if n > high {
        high
    } else {
        n
    }
}

impl AppProfileOverrides {
    /// How many groups of settings the profile replaces.
    pub open spec fn count_spec(o: OverridesView) -> int {
        (if o.pointer_speed_percent is Some { 1int } else { 0 })
            + (if o.smart_shift_threshold is Some { 1int } else { 0 })
            + (if o.ratchet_mode is Some { 1int } else { 0 })
            + (if o.high_resolution_scroll is Some { 1int } else { 0 })
            + (if o.natural_scroll is Some { 1int } else { 0 })
            + (if o.thumb_wheel is Some { 1int } else { 0 })
            + (if o.thumb_wheel_speed_percent is Some { 1int } else { 0 })
            + (if o.buttons.len() > 0 { 1int } else { 0 })
            + (if o.gestures is Some { 1int } else { 0 })
    }

    /// How many groups of settings the profile replaces.
    pub fn count(&self) -> (r: usize)
        ensures
            r == AppProfileOverrides::count_spec(self@),
    {
        let mut r: usize = 0;
        if self.pointer_speed_percent.is_some() {
            r += 1;
        }
        if self.smart_shift_threshold.is_some() {
            r += 1;
        }
        if self.ratchet_mode.is_some() {
            r += 1;
        }
        if self.high_resolution_scroll.is_some() {
            r += 1;
        }
        if self.natural_scroll.is_some() {
            r += 1;
        }
        if self.thumb_wheel.is_some() {
            r += 1;
        }
        if self.thumb_wheel_speed_percent.is_some() {
            r += 1;
        }
        if self.buttons.len() > 0 {
            r += 1;
        }
        if self.gestures.is_some() {
            r += 1;
        }
        r
    }
}

impl Default for AppProfileOverrides {
    fn default() -> (r: Self)
        ensures
            AppProfileOverrides::count_spec(r@) == 0,
    {
        AppProfileOverrides {
            pointer_speed_percent: None,
            smart_shift_threshold: None,
            ratchet_mode: None,
            high_resolution_scroll: None,
            natural_scroll: None,
            thumb_wheel: None,
            thumb_wheel_speed_percent: None,
            buttons: Vec::new(),
            gestures: None,
        }
    }
}

impl AppProfile {
    /// The profile in normal form.
    pub fn normalized(&self) -> (r: AppProfile)
        ensures
            r@ == normal_profile(self@),
    {
        let mut r = self.clone();
        r.overrides.pointer_speed_percent = match self.overrides.pointer_speed_percent {
            Some(n) => Some(clamp_u8(n, 50, 200)),
            None => None,
        };
        r.overrides.smart_shift_threshold = match self.overrides.smart_shift_threshold {
            Some(n) => Some(clamp_u8(n, 1, 50)),
            None => None,
        };
        r.overrides.thumb_wheel_speed_percent = match self.overrides.thumb_wheel_speed_percent {
            Some(n) => Some(clamp_u16(n, 25, 400)),
            None => None,
        };
        assert(r@.overrides =~= normal_overrides(self@.overrides));
        assert(r@ =~= normal_profile(self@));
        r
    }
}

/// The gestures that a new profile starts with.
pub open spec fn default_gestures() -> GestureBindings {
    GestureBindings {
        threshold: 50,
        click: Action::Overview,
        up: Action::Overview,
        down: Action::WindowSwitcher,
        left: Action::PreviousWorkspace,
        right: Action::NextWorkspace,
    }
}

impl Default for GestureBindings {
    fn default() -> (r: Self)
        ensures
            r == default_gestures(),
    {
        GestureBindings {
            threshold: 50,
            click: Action::Overview,
            up: Action::Overview,
            down: Action::WindowSwitcher,
            left: Action::PreviousWorkspace,
            right: Action::NextWorkspace,
        }
    }
}

/// The settings of a mouse that has not been configured.
pub open spec fn default_settings() -> SettingsView {
    SettingsView {
        profile_name: "Default"@,
        pointer_speed_percent: 100,
        smart_shift_enabled: true,
        smart_shift_threshold: 16,
        ratchet_mode: WheelRatchetMode::SmartShift,
        high_resolution_scroll: false,
        natural_scroll: false,
        thumb_wheel: ThumbWheelMode::HorizontalScroll,
        thumb_wheel_speed_percent: DEFAULT_THUMB_WHEEL_SPEED_PERCENT,
        buttons: normal_buttons(Seq::empty()),
        gestures: default_gestures(),
        app_profiles: Seq::empty(),
    }
}

/// The default settings are in normal form.
pub proof fn law_defaults_are_normal()
    ensures
        normal_settings(default_settings()) == default_settings(),
{
    let d = default_settings();
    assert forall|i: int| 0 <= i < d.buttons.len() implies d.buttons[i] == normal_buttons(
        d.buttons,
    )[i] by {
        lemma_normal_buttons_action(Seq::empty(), all_buttons()[i]);
    }
    assert(d.buttons =~= normal_buttons(d.buttons));
    assert(normal_settings(d).app_profiles =~= d.app_profiles);
}

impl Default for Master3sSettings {
    fn default() -> (r: Self)
        ensures
            r@ == default_settings(),
    {
        let r = Master3sSettings {
            profile_name: "Default".to_owned(),
            pointer_speed_percent: 100,
            smart_shift_enabled: true,
            smart_shift_threshold: 16,
            ratchet_mode: WheelRatchetMode::SmartShift,
            high_resolution_scroll: false,
            natural_scroll: false,
            thumb_wheel: ThumbWheelMode::HorizontalScroll,
            thumb_wheel_speed_percent: DEFAULT_THUMB_WHEEL_SPEED_PERCENT,
            buttons: normalize_buttons(&Vec::new()),
            gestures: GestureBindings::default(),
            app_profiles: Vec::new(),
        };
        assert(r@ =~= default_settings());
        r
    }
}

/// Exactly one binding per button.
pub fn normalize_buttons(bindings: &Vec<ButtonBinding>) -> (r: Vec<ButtonBinding>)
    ensures
        r@ == normal_buttons(bindings@),
{
    let buttons = Master3sButton::all();
    let mut r: Vec<ButtonBinding> = Vec::new();
    let mut i: usize = 0;
    while i < buttons.len()
        invariant
            buttons@ == all_buttons(),
            i <= buttons@.len(),
            r@ == normal_buttons(bindings@).take(i as int),
        decreases buttons@.len() - i,
    {
        let at = find_binding(bindings, buttons[i]);
        let action = if at < bindings.len() {
            bindings[at].action
        } else {
            ButtonAction::Native
        };
        r.push(ButtonBinding { button: buttons[i], action });
        i += 1;
        assert(r@ == normal_buttons(bindings@).take(i as int));
    }
    assert(normal_buttons(bindings@).take(buttons@.len() as int) == normal_buttons(bindings@));
    r
}

impl Master3sSettings {
    /// What a button does.
    pub fn button_action(&self, button: Master3sButton) -> (r: ButtonAction)
        ensures
            r == action_for(self@.buttons, button),
    {
        let at = find_binding(&self.buttons, button);
        if at < self.buttons.len() {
            self.buttons[at].action
        } else {
            ButtonAction::Native
        }
    }

    /// Assigns a button.
    pub fn set_button_action(&mut self, button: Master3sButton, action: ButtonAction)
        ensures
            final(self)@ == (SettingsView {
                buttons: with_action(old(self)@.buttons, button, action),
                ..old(self)@
            }),
    {
        let at = find_binding(&self.buttons, button);
        if at < self.buttons.len() {
            self.buttons.set(at, ButtonBinding { button, action });
        } else {
            self.buttons.push(ButtonBinding { button, action });
        }
    }

    /// The settings in normal form.
    pub fn normalized(&self) -> (r: Master3sSettings)
        ensures
            r@ == normal_settings(self@),
    {
        let mut app_profiles: Vec<AppProfile> = Vec::new();
        let mut i: usize = 0;
        while i < self.app_profiles.len()
            invariant
                i <= self.app_profiles@.len(),
                profile_views(app_profiles@) == normal_settings(self@).app_profiles.take(i as int),
            decreases self.app_profiles@.len() - i,
        {
            let ghost before = app_profiles@;
            app_profiles.push(self.app_profiles[i].normalized());
            i += 1;
            assert(profile_views(app_profiles@) == profile_views(before).push(
                normal_profile(self.app_profiles@[i - 1]@),
            ));
            assert(profile_views(app_profiles@) == normal_settings(self@).app_profiles.take(
                i as int,
            ));
        }
        let r = Master3sSettings {
            profile_name: self.profile_name.clone(),
            pointer_speed_percent: clamp_u8(self.pointer_speed_percent, 50, 200),
            smart_shift_enabled: self.smart_shift_enabled,
            smart_shift_threshold: clamp_u8(self.smart_shift_threshold, 1, 50),
            ratchet_mode: self.ratchet_mode,
            high_resolution_scroll: self.high_resolution_scroll,
            natural_scroll: self.natural_scroll,
            thumb_wheel: self.thumb_wheel,
            thumb_wheel_speed_percent: clamp_u16(self.thumb_wheel_speed_percent, 25, 400),
            buttons: normalize_buttons(&self.buttons),
            gestures: self.gestures,
            app_profiles,
        };
        assert(r@ =~= normal_settings(self@));
        r
    }
}

/// What a button does is told by the first binding of it, and a button without one does
/// what the mouse does by itself.
pub proof fn law_first_binding_decides(bindings: Seq<ButtonBinding>, button: Master3sButton, i: int)
    ensures
        0 <= i < bindings.len() && bindings[i].button == button && (forall|k: int|
            0 <= k < i ==> (#[trigger] bindings[k]).button != button) ==> action_for(
            bindings,
            button,
        ) == bindings[i].action,
        (forall|k: int| 0 <= k < bindings.len() ==> (#[trigger] bindings[k]).button != button)
            ==> action_for(bindings, button) == ButtonAction::Native,
{
    lemma_first_binding(bindings, button, 0);
    let at = binding_index(bindings, button, 0);
    if 0 <= i < bindings.len() && bindings[i].button == button && (forall|k: int|
        0 <= k < i ==> (#[trigger] bindings[k]).button != button) {
        assert(at <= i);
        if at < i {
            assert(bindings[at].button != button);
        }
    }
}

proof fn lemma_first_binding(bindings: Seq<ButtonBinding>, button: Master3sButton, i: int)
    requires
        0 <= i <= bindings.len(),
    ensures
        i <= binding_index(bindings, button, i) <= bindings.len(),
        binding_index(bindings, button, i) < bindings.len() ==> bindings[binding_index(
            bindings,
            button,
            i,
        )].button == button,
        forall|k: int|
            i <= k < binding_index(bindings, button, i) ==> (#[trigger] bindings[k]).button
                != button,
    decreases bindings.len() - i,
{
    if i < bindings.len() && bindings[i].button != button {
        lemma_first_binding(bindings, button, i + 1);
    }
}

/// The normal form keeps every number that a mouse takes, and moves any other to the
/// nearest one that it takes: a pointer speed from 50 to 200 per cent, a threshold from 1
/// to 50, a speed of the thumb wheel from 25 to 400 per cent. All else stays, and each
/// button does what it did.
pub proof fn law_normal_form_keeps_what_a_mouse_takes(s: SettingsView, button: Master3sButton, i: int)
    ensures
        ({
            let n = normal_settings(s);
            &&& 50 <= s.pointer_speed_percent <= 200 ==> n.pointer_speed_percent
                == s.pointer_speed_percent
            &&& s.pointer_speed_percent < 50 ==> n.pointer_speed_percent == 50
            &&& s.pointer_speed_percent > 200 ==> n.pointer_speed_percent == 200
            &&& 1 <= s.smart_shift_threshold <= 50 ==> n.smart_shift_threshold
                == s.smart_shift_threshold
            &&& s.smart_shift_threshold == 0 ==> n.smart_shift_threshold == 1
            &&& s.smart_shift_threshold > 50 ==> n.smart_shift_threshold == 50
            &&& 25 <= s.thumb_wheel_speed_percent <= 400 ==> n.thumb_wheel_speed_percent
                == s.thumb_wheel_speed_percent
            &&& s.thumb_wheel_speed_percent < 25 ==> n.thumb_wheel_speed_percent == 25
            &&& s.thumb_wheel_speed_percent > 400 ==> n.thumb_wheel_speed_percent == 400
            &&& n.profile_name == s.profile_name
            &&& n.smart_shift_enabled == s.smart_shift_enabled
            &&& n.ratchet_mode == s.ratchet_mode
            &&& n.high_resolution_scroll == s.high_resolution_scroll
            &&& n.natural_scroll == s.natural_scroll
            &&& n.thumb_wheel == s.thumb_wheel
            &&& n.gestures == s.gestures
            &&& n.buttons.len() == 5
            &&& action_for(n.buttons, button) == action_for(s.buttons, button)
            &&& n.app_profiles.len() == s.app_profiles.len()
            &&& 0 <= i < s.app_profiles.len() ==> {
                let p = n.app_profiles[i];
                let q = s.app_profiles[i];
                &&& p.name == q.name && p.field == q.field && p.value == q.value
                &&& p.overrides.ratchet_mode == q.overrides.ratchet_mode
                &&& p.overrides.high_resolution_scroll == q.overrides.high_resolution_scroll
                &&& p.overrides.natural_scroll == q.overrides.natural_scroll
                &&& p.overrides.thumb_wheel == q.overrides.thumb_wheel
                &&& p.overrides.buttons == q.overrides.buttons
                &&& p.overrides.gestures == q.overrides.gestures
                &&& q.overrides.pointer_speed_percent matches Some(v) ==> (50 <= v <= 200
                    ==> p.overrides.pointer_speed_percent == Some(v))
                &&& q.overrides.pointer_speed_percent is None
                    ==> p.overrides.pointer_speed_percent is None
                &&& q.overrides.smart_shift_threshold matches Some(v) ==> (1 <= v <= 50
                    ==> p.overrides.smart_shift_threshold == Some(v))
                &&& q.overrides.smart_shift_threshold is None
                    ==> p.overrides.smart_shift_threshold is None
                &&& q.overrides.thumb_wheel_speed_percent matches Some(v) ==> (25 <= v <= 400
                    ==> p.overrides.thumb_wheel_speed_percent == Some(v))
                &&& q.overrides.thumb_wheel_speed_percent is None
                    ==> p.overrides.thumb_wheel_speed_percent is None
            }
        }),
{
    lemma_normal_buttons_action(s.buttons, button);
}

/// The buttons of the mouse are reported under these numbers.
pub proof fn law_control_numbers()
    ensures
        control_id_of(Master3sButton::Middle) == 0x52,
        control_id_of(Master3sButton::Back) == 0x53,
        control_id_of(Master3sButton::Forward) == 0x56,
        control_id_of(Master3sButton::Gesture) == 0xc3,
        control_id_of(Master3sButton::ModeShift) == 0xc4,
{
}

/// What a mouse does before the user chose anything: the pointer at its own speed, a wheel
/// that shifts by itself, and every button and the thumb wheel as the mouse has them.
pub proof fn law_defaults_leave_the_mouse_as_it_is(button: Master3sButton)
    ensures
        ({
            let s = default_settings();
            &&& s.pointer_speed_percent == 100
            &&& s.thumb_wheel == ThumbWheelMode::HorizontalScroll
            &&& s.thumb_wheel_speed_percent == 100
            &&& s.ratchet_mode == WheelRatchetMode::SmartShift && s.smart_shift_enabled
            &&& s.smart_shift_threshold == 16
            &&& !s.high_resolution_scroll && !s.natural_scroll
            &&& s.app_profiles.len() == 0
            &&& action_for(s.buttons, button) == ButtonAction::Native
            &&& s.gestures.up == Action::Overview && s.gestures.down == Action::WindowSwitcher
            &&& s.gestures.left == Action::PreviousWorkspace
            &&& s.gestures.right == Action::NextWorkspace
            &&& s.gestures.click == Action::Overview && s.gestures.threshold == 50
        }),
{
    lemma_normal_buttons_action(Seq::empty(), button);
}

/// Settings are the same exactly where every one of them is.
pub proof fn law_same_settings_agree_in_everything(a: &Master3sSettings, b: &Master3sSettings, i: int)
    ensures
        forall|r: bool|
            #![trigger call_ensures(same_settings, (a, b), r)]
            call_ensures(same_settings, (a, b), r) ==> {
                &&& r ==> a.profile_name@ == b.profile_name@ && a.pointer_speed_percent
                    == b.pointer_speed_percent && a.smart_shift_enabled == b.smart_shift_enabled
                    && a.smart_shift_threshold == b.smart_shift_threshold && a.ratchet_mode
                    == b.ratchet_mode && a.high_resolution_scroll == b.high_resolution_scroll
                    && a.natural_scroll == b.natural_scroll && a.thumb_wheel == b.thumb_wheel
                    && a.thumb_wheel_speed_percent == b.thumb_wheel_speed_percent && a.buttons@
                    == b.buttons@ && a.gestures == b.gestures && a.app_profiles@.len()
                    == b.app_profiles@.len()
                &&& r && 0 <= i < a.app_profiles@.len() ==> a.app_profiles@[i]@
                    == b.app_profiles@[i]@
                &&& a@ == b@ ==> r
            },
        forall|x: &Vec<ButtonBinding>, y: &Vec<ButtonBinding>, r: bool|
            #![trigger call_ensures(same_bindings, (x, y), r)]
            call_ensures(same_bindings, (x, y), r) ==> (r <==> x@ == y@),
        forall|x: &AppProfile, y: &AppProfile, r: bool|
            #![trigger call_ensures(same_profile, (x, y), r)]
            call_ensures(same_profile, (x, y), r) ==> (r <==> x@ == y@),
{
    assert forall|r: bool|
        #![trigger call_ensures(same_settings, (a, b), r)]
        call_ensures(same_settings, (a, b), r) && r && 0 <= i < a.app_profiles@.len() implies
        a.app_profiles@[i]@ == b.app_profiles@[i]@ by {
        assert(a@.app_profiles.len() == b@.app_profiles.len());
        assert(a@.app_profiles[i] == b@.app_profiles[i]);
    }
    assert forall|r: bool|
        #![trigger call_ensures(same_settings, (a, b), r)]
        call_ensures(same_settings, (a, b), r) && r implies a.app_profiles@.len()
        == b.app_profiles@.len() by {
        assert(a@.app_profiles.len() == b@.app_profiles.len());
    }
}

/// A button that is given something to do does that, and the other buttons what they did.
pub proof fn law_changed_button_does_what_it_is_given(
    button: Master3sButton,
    other: Master3sButton,
    action: ButtonAction,
)
    ensures
        forall|s: &mut Master3sSettings, r: ()|
            #![trigger call_ensures(Master3sSettings::set_button_action, (s, button, action), r)]
            call_ensures(Master3sSettings::set_button_action, (s, button, action), r) ==> {
                &&& action_for(final(s)@.buttons, button) == action
                &&& other != button ==> action_for(final(s)@.buttons, other) == action_for(
                    (*s)@.buttons,
                    other,
                )
                &&& final(s)@.pointer_speed_percent == (*s)@.pointer_speed_percent && final(
                    s
                )@.gestures == (*s)@.gestures
            },
        forall|s: &Master3sSettings, r: ButtonAction|
            #![trigger call_ensures(Master3sSettings::button_action, (s, button), r)]
            call_ensures(Master3sSettings::button_action, (s, button), r) ==> r == action_for(
                s@.buttons,
                button,
            ),
        forall|s: &Master3sSettings, r: Master3sSettings|
            #![trigger call_ensures(Master3sSettings::normalized, (s,), r)]
            call_ensures(Master3sSettings::normalized, (s,), r) ==> r@ == normal_settings(s@),
{
    assert forall|s: &mut Master3sSettings, r: ()|
        #![trigger call_ensures(Master3sSettings::set_button_action, (s, button, action), r)]
        call_ensures(Master3sSettings::set_button_action, (s, button, action), r) implies {
        &&& action_for(final(s)@.buttons, button) == action
        &&& other != button ==> action_for(final(s)@.buttons, other) == action_for(
            (*s)@.buttons,
            other,
        )
    } by {
        lemma_given_action((*s)@.buttons, button, other, action);
    }
}

proof fn lemma_given_action(
    bindings: Seq<ButtonBinding>,
    button: Master3sButton,
    other: Master3sButton,
    action: ButtonAction,
)
    ensures
        action_for(with_action(bindings, button, action), button) == action,
        other != button ==> action_for(with_action(bindings, button, action), other) == action_for(
            bindings,
            other,
        ),
{
    let after = with_action(bindings, button, action);
    let at = binding_index(bindings, button, 0);
    lemma_first_binding(bindings, button, 0);
    lemma_first_binding(after, button, 0);
    lemma_first_binding(bindings, other, 0);
    lemma_first_binding(after, other, 0);
    let now = binding_index(after, button, 0);
    assert(after[at] == (ButtonBinding { button, action }));
    if now < at {
        assert(after[now] == bindings[now]);
    }
    assert(now == at);
    if other != button {
        let x = binding_index(bindings, other, 0);
        let y = binding_index(after, other, 0);
        if x < bindings.len() {
            assert(after[x] == bindings[x]);
            if y < x {
                assert(after[y] == bindings[y] || after[y].button == button);
                assert(bindings[y].button != other);
            }
            if x < y {
                assert(after[x].button != other);
            }
        } else if y < after.len() {
            assert(after[y].button == other);
            if y < bindings.len() && y != at {
                assert(bindings[y].button != other);
            }
        }
    }
}

/// The names of the buttons, and how many groups of settings a profile replaces.
pub proof fn law_words_and_counts(o: OverridesView)
    ensures
        button_label(Master3sButton::Back) == "Back button"@,
        button_label(Master3sButton::Forward) == "Forward button"@,
        button_label(Master3sButton::Gesture) == "Gesture button"@,
        button_label(Master3sButton::ModeShift) == "Mode shift button"@,
        button_label(Master3sButton::Middle) == "Middle button"@,
        0 <= AppProfileOverrides::count_spec(o) <= 9,
        AppProfileOverrides::count_spec(o) == 0 <==> o.pointer_speed_percent is None
            && o.smart_shift_threshold is None && o.ratchet_mode is None && o.high_resolution_scroll
            is None && o.natural_scroll is None && o.thumb_wheel is None
            && o.thumb_wheel_speed_percent is None && o.buttons.len() == 0 && o.gestures is None,
        AppProfileOverrides::count_spec(o) == 9 <==> o.pointer_speed_percent is Some
            && o.smart_shift_threshold is Some && o.ratchet_mode is Some && o.high_resolution_scroll
            is Some && o.natural_scroll is Some && o.thumb_wheel is Some
            && o.thumb_wheel_speed_percent is Some && o.buttons.len() > 0 && o.gestures is Some,
{
}

}
