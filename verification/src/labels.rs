//! The names of settings and actions that the user is shown.

use crate::plan::{SettingsApplyOperation, SettingsApplyStatus, SettingsApplyStep,
    SettingsTransactionState};
use crate::runtime_plan;
use crate::runtime_plan::{RuntimeCommand, RuntimeKey};
use crate::settings;
use crate::settings::{ApplicationMatchField, GestureDirection, ThumbWheelMode, WheelRatchetMode};
use crate::text;
use vstd::prelude::*;

verus! {

/// The name of a mode of the wheel.
pub open spec fn ratchet_label(mode: WheelRatchetMode) -> Seq<char> {
    match mode {
        WheelRatchetMode::Ratchet => "ratchet"@,
        WheelRatchetMode::FreeSpin => "free spin"@,
        WheelRatchetMode::SmartShift => "SmartShift"@,
    }
}

impl WheelRatchetMode {
    /// The name that the user is shown.
    pub fn label(self) -> (r: &'static str)
        ensures
            r@ == ratchet_label(self),
    {
        match self {
            WheelRatchetMode::Ratchet => "ratchet",
            WheelRatchetMode::FreeSpin => "free spin",
            WheelRatchetMode::SmartShift => "SmartShift",
        }
    }
}

/// The name of a mode of the thumb wheel.
pub open spec fn thumb_mode_label(mode: ThumbWheelMode) -> Seq<char> {
    match mode {
        ThumbWheelMode::HorizontalScroll => "horizontal scroll"@,
        ThumbWheelMode::TabSwitch => "tab switch"@,
        ThumbWheelMode::Zoom => "zoom"@,
        ThumbWheelMode::Volume => "volume"@,
        ThumbWheelMode::Disabled => "disabled"@,
    }
}

impl ThumbWheelMode {
    /// The name that the user is shown.
    pub fn label(self) -> (r: &'static str)
        ensures
            r@ == thumb_mode_label(self),
    {
        match self {
            ThumbWheelMode::HorizontalScroll => "horizontal scroll",
            ThumbWheelMode::TabSwitch => "tab switch",
            ThumbWheelMode::Zoom => "zoom",
            ThumbWheelMode::Volume => "volume",
            ThumbWheelMode::Disabled => "disabled",
        }
    }
}

/// The name of what a profile is matched by.
pub open spec fn field_label(field: ApplicationMatchField) -> Seq<char> {
    match field {
        ApplicationMatchField::Any => "any"@,
        ApplicationMatchField::Title => "title"@,
        ApplicationMatchField::Class => "class"@,
        ApplicationMatchField::Executable => "executable"@,
    }
}

impl ApplicationMatchField {
    /// The name that the user is shown.
    pub fn label(self) -> (r: &'static str)
        ensures
            r@ == field_label(self),
    {
        match self {
            ApplicationMatchField::Any => "any",
            ApplicationMatchField::Title => "title",
            ApplicationMatchField::Class => "class",
            ApplicationMatchField::Executable => "executable",
        }
    }
}

/// The name of a gesture.
pub open spec fn direction_label(direction: GestureDirection) -> Seq<char> {
    match direction {
        GestureDirection::Click => "click"@,
        GestureDirection::Up => "up"@,
        GestureDirection::Down => "down"@,
        GestureDirection::Left => "left"@,
        GestureDirection::Right => "right"@,
    }
}

impl GestureDirection {
    /// The name that the user is shown.
    pub fn label(self) -> (r: &'static str)
        ensures
            r@ == direction_label(self),
    {
        match self {
            GestureDirection::Click => "click",
            GestureDirection::Up => "up",
            GestureDirection::Down => "down",
            GestureDirection::Left => "left",
            GestureDirection::Right => "right",
        }
    }
}

/// The name of a key.
pub open spec fn key_label(key: RuntimeKey) -> Seq<char> {
    match key {
        RuntimeKey::Control => "Ctrl"@,
        RuntimeKey::Shift => "Shift"@,
        RuntimeKey::Alt => "Alt"@,
        RuntimeKey::Super => "Super"@,
        RuntimeKey::Tab => "Tab"@,
        RuntimeKey::Equal => "="@,
        RuntimeKey::Minus => "-"@,
        RuntimeKey::Left => "Left"@,
        RuntimeKey::Right => "Right"@,
        RuntimeKey::C => "C"@,
        RuntimeKey::V => "V"@,
        RuntimeKey::VolumeUp => "Volume Up"@,
        RuntimeKey::VolumeDown => "Volume Down"@,
    }
}

impl RuntimeKey {
    /// The name that the user is shown.
    pub fn label(self) -> (r: &'static str)
        ensures
            r@ == key_label(self),
    {
        match self {
            RuntimeKey::Control => "Ctrl",
            RuntimeKey::Shift => "Shift",
            RuntimeKey::Alt => "Alt",
            RuntimeKey::Super => "Super",
            RuntimeKey::Tab => "Tab",
            RuntimeKey::Equal => "=",
            RuntimeKey::Minus => "-",
            RuntimeKey::Left => "Left",
            RuntimeKey::Right => "Right",
            RuntimeKey::C => "C",
            RuntimeKey::V => "V",
            RuntimeKey::VolumeUp => "Volume Up",
            RuntimeKey::VolumeDown => "Volume Down",
        }
    }
}

/// The names of some keys.
pub open spec fn key_labels(keys: Seq<RuntimeKey>) -> Seq<Seq<char>> {
    keys.map_values(|key: RuntimeKey| key_label(key))
}

/// The name of a command.
pub open spec fn command_label(command: runtime_plan::CommandView) -> Seq<char> {
    match command {
        runtime_plan::CommandView::KeyChord(keys) => text::joined(key_labels(keys), "+"@),
        runtime_plan::CommandView::MouseButton(_) => "middle click"@,
        runtime_plan::CommandView::HorizontalScroll { .. } => "horizontal scroll"@,
        runtime_plan::CommandView::Noop => "no action"@,
        runtime_plan::CommandView::Unsupported => "unsupported"@,
    }
}

impl RuntimeCommand {
    /// The name that the user is shown.
    pub fn label(&self) -> (r: String)
        ensures
            r@ == command_label(self@),
    {
        match self {
            RuntimeCommand::KeyChord(keys) => {
                let mut names: Vec<String> = Vec::new();
                let mut i: usize = 0;
                while i < keys.len()
                    invariant
                        i <= keys@.len(),
                        text::texts(names@) == key_labels(keys@).take(i as int),
                    decreases keys@.len() - i,
                {
                    let ghost before = names@;
                    names.push(keys[i].label().to_owned());
                    assert(text::texts(names@) =~= text::texts(before).push(
                        key_label(keys@[i as int]),
                    ));
                    i += 1;
                    assert(key_labels(keys@).take(i as int) =~= key_labels(keys@).take(
                        i as int - 1,
                    ).push(key_label(keys@[i as int - 1])));
                }
                assert(key_labels(keys@).take(i as int) =~= key_labels(keys@));
                text::join(&names, "+")
            },
            RuntimeCommand::MouseButton(_) => "middle click".to_owned(),
            RuntimeCommand::HorizontalScroll { .. } => "horizontal scroll".to_owned(),
            RuntimeCommand::Noop => "no action".to_owned(),
            RuntimeCommand::Unsupported => "unsupported".to_owned(),
        }
    }
}

/// The title of a step.
pub open spec fn step_title(operation: SettingsApplyOperation) -> Seq<char> {
    match operation {
        SettingsApplyOperation::PointerSpeed { percent } => "pointer speed "@ + text::decimal(
            percent as nat,
        ) + "%"@,
        SettingsApplyOperation::WheelBehavior { ratchet_mode, .. } => "wheel mode "@
            + ratchet_label(ratchet_mode),
        SettingsApplyOperation::ScrollBehavior { .. } => "scroll behavior"@,
        SettingsApplyOperation::ThumbWheelRouting { mode, .. } => "thumb wheel "@
            + thumb_mode_label(mode),
        SettingsApplyOperation::ButtonMapping { button, action } => settings::button_label(button)
            + " "@ + runtime_plan::button_action_label(action),
    }
}

/// Where a step is carried out.
pub open spec fn step_scope(step: SettingsApplyStep) -> Seq<char> {
    if step.requires_device_write {
        "device"@
    } else {
        "local runtime"@
    }
}

impl SettingsApplyStep {
    /// The title that the user is shown.
    pub fn title(&self) -> (r: String)
        ensures
            r@ == step_title(self.operation),
    {
        match self.operation {
            SettingsApplyOperation::PointerSpeed { percent } => {
                let mut r = "pointer speed ".to_owned();
                text::push_decimal(&mut r, percent as u64);
                r.append("%");
                r
            },
            SettingsApplyOperation::WheelBehavior { ratchet_mode, .. } => text::concat2(
                "wheel mode ",
                ratchet_mode.label(),
            ),
            SettingsApplyOperation::ScrollBehavior { .. } => "scroll behavior".to_owned(),
            SettingsApplyOperation::ThumbWheelRouting { mode, .. } => text::concat2(
                "thumb wheel ",
                mode.label(),
            ),
            SettingsApplyOperation::ButtonMapping { button, action } => text::concat3(
                button.label(),
                " ",
                action.label(),
            ),
        }
    }

    /// Where the step is carried out.
    pub fn scope(&self) -> (r: &'static str)
        ensures
            r@ == step_scope(*self),
    {
        if self.requires_device_write {
            "device"
        } else {
            "local runtime"
        }
    }
}

/// How a transaction ended, in words.
pub open spec fn transaction_label(status: SettingsTransactionState) -> Seq<char> {
    match status {
        SettingsTransactionState::Committed => "committed"@,
        SettingsTransactionState::Rejected => "rejected before write"@,
        SettingsTransactionState::RolledBack => "rolled back"@,
        SettingsTransactionState::RecoveryRequired => "recovery required"@,
    }
}

/// How a transaction ended, in words.
pub fn transaction_status_label(status: SettingsTransactionState) -> (r: &'static str)
    ensures
        r@ == transaction_label(status),
{
    match status {
        SettingsTransactionState::Committed => "committed",
        SettingsTransactionState::Rejected => "rejected before write",
        SettingsTransactionState::RolledBack => "rolled back",
        SettingsTransactionState::RecoveryRequired => "recovery required",
    }
}

/// How a step ended, in words.
pub open spec fn status_label(status: SettingsApplyStatus) -> Seq<char> {
    match status {
        SettingsApplyStatus::Applied => "applied"@,
        SettingsApplyStatus::Skipped => "skipped"@,
        SettingsApplyStatus::Unsupported => "unsupported"@,
        SettingsApplyStatus::Failed => "failed"@,
        SettingsApplyStatus::RolledBack => "rolled back"@,
        SettingsApplyStatus::RollbackFailed => "rollback failed"@,
    }
}

/// How a step ended, in words.
pub fn apply_status_label(status: SettingsApplyStatus) -> (r: &'static str)
    ensures
        r@ == status_label(status),
{
    match status {
        SettingsApplyStatus::Applied => "applied",
        SettingsApplyStatus::Skipped => "skipped",
        SettingsApplyStatus::Unsupported => "unsupported",
        SettingsApplyStatus::Failed => "failed",
        SettingsApplyStatus::RolledBack => "rolled back",
        SettingsApplyStatus::RollbackFailed => "rollback failed",
    }
}

/// The words for what a mouse can be set to.
pub proof fn law_words_for_settings()
    ensures
        ratchet_label(WheelRatchetMode::Ratchet) == "ratchet"@,
        ratchet_label(WheelRatchetMode::FreeSpin) == "free spin"@,
        ratchet_label(WheelRatchetMode::SmartShift) == "SmartShift"@,
        thumb_mode_label(ThumbWheelMode::HorizontalScroll) == "horizontal scroll"@,
        thumb_mode_label(ThumbWheelMode::TabSwitch) == "tab switch"@,
        thumb_mode_label(ThumbWheelMode::Zoom) == "zoom"@,
        thumb_mode_label(ThumbWheelMode::Volume) == "volume"@,
        thumb_mode_label(ThumbWheelMode::Disabled) == "disabled"@,
        field_label(ApplicationMatchField::Any) == "any"@,
        field_label(ApplicationMatchField::Title) == "title"@,
        field_label(ApplicationMatchField::Class) == "class"@,
        field_label(ApplicationMatchField::Executable) == "executable"@,
        direction_label(GestureDirection::Click) == "click"@,
        direction_label(GestureDirection::Up) == "up"@,
        direction_label(GestureDirection::Down) == "down"@,
        direction_label(GestureDirection::Left) == "left"@,
        direction_label(GestureDirection::Right) == "right"@,
{
}

/// The words for keys, and for what is done with them.
pub proof fn law_words_for_commands(a: RuntimeKey, b: RuntimeKey)
    ensures
        key_label(RuntimeKey::Control) == "Ctrl"@ && key_label(RuntimeKey::Shift) == "Shift"@
            && key_label(RuntimeKey::Alt) == "Alt"@ && key_label(RuntimeKey::Super) == "Super"@
            && key_label(RuntimeKey::Tab) == "Tab"@ && key_label(RuntimeKey::Equal) == "="@
            && key_label(RuntimeKey::Minus) == "-"@ && key_label(RuntimeKey::Left) == "Left"@
            && key_label(RuntimeKey::Right) == "Right"@ && key_label(RuntimeKey::C) == "C"@
            && key_label(RuntimeKey::V) == "V"@ && key_label(RuntimeKey::VolumeUp) == "Volume Up"@
            && key_label(RuntimeKey::VolumeDown) == "Volume Down"@,
        command_label(runtime_plan::CommandView::KeyChord(seq![a])) == key_label(a),
        command_label(runtime_plan::CommandView::KeyChord(seq![a, b])) == key_label(a) + "+"@
            + key_label(b),
        command_label(runtime_plan::CommandView::Noop) == "no action"@,
        command_label(runtime_plan::CommandView::Unsupported) == "unsupported"@,
{
    assert(key_labels(seq![a]) =~= seq![key_label(a)]);
    assert(key_labels(seq![a, b]) =~= seq![key_label(a), key_label(b)]);
    assert(seq![key_label(a), key_label(b)].drop_last() =~= seq![key_label(a)]);
    reveal_with_fuel(text::joined, 3);
}

/// The words for a step of a plan, and for what became of it.
pub proof fn law_words_for_steps(
    percent: u8,
    mode: WheelRatchetMode,
    thumb: ThumbWheelMode,
    step: SettingsApplyStep,
)
    ensures
        step_title(SettingsApplyOperation::PointerSpeed { percent }) == "pointer speed "@
            + text::decimal(percent as nat) + "%"@,
        forall|smart_shift: bool, threshold: u8|
            #[trigger] step_title(
                SettingsApplyOperation::WheelBehavior { ratchet_mode: mode, smart_shift, threshold },
            ) == "wheel mode "@ + ratchet_label(mode),
        forall|speed_percent: u16|
            #[trigger] step_title(
                SettingsApplyOperation::ThumbWheelRouting { mode: thumb, speed_percent },
            ) == "thumb wheel "@ + thumb_mode_label(thumb),
        step.requires_device_write ==> step_scope(step) == "device"@,
        !step.requires_device_write ==> step_scope(step) == "local runtime"@,
        transaction_label(SettingsTransactionState::Committed) == "committed"@,
        transaction_label(SettingsTransactionState::Rejected) == "rejected before write"@,
        transaction_label(SettingsTransactionState::RolledBack) == "rolled back"@,
        transaction_label(SettingsTransactionState::RecoveryRequired) == "recovery required"@,
        status_label(SettingsApplyStatus::Applied) == "applied"@,
        status_label(SettingsApplyStatus::Skipped) == "skipped"@,
        status_label(SettingsApplyStatus::Unsupported) == "unsupported"@,
        status_label(SettingsApplyStatus::Failed) == "failed"@,
        status_label(SettingsApplyStatus::RolledBack) == "rolled back"@,
        status_label(SettingsApplyStatus::RollbackFailed) == "rollback failed"@,
{
}

}
