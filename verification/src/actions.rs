//! Input that the runtime injects: what becomes of resolved actions, and the input
//! events that stand for them.

use crate::error::DogiError;
use crate::error;
use crate::runtime_plan::{ResolvedRuntimeAction, RuntimeCommand, RuntimeKey, RuntimeMouseButton};
use crate::runtime_plan;
use crate::session::SessionObserver;
use crate::session;
use crate::settings;
use crate::supervisor;
use crate::text;
use vstd::prelude::*;

verus! {

/// What became of an action.
#[derive(Clone, Copy, Debug, PartialEq, Eq, Structural)]
pub enum RuntimeActionExecutionStatus {
    Executed,
    Skipped,
    Unsupported,
    Failed,
}

impl RuntimeActionExecutionStatus {
    /// The name of a status.
    pub open spec fn label_spec(self) -> Seq<char> {
        match self {
            RuntimeActionExecutionStatus::Executed => "executed"@,
            RuntimeActionExecutionStatus::Skipped => "skipped"@,
            RuntimeActionExecutionStatus::Unsupported => "unsupported"@,
            RuntimeActionExecutionStatus::Failed => "failed"@,
        }
    }

    /// The name of the status.
    pub fn label(self) -> (r: &'static str)
        ensures
            r@ == self.label_spec(),
    {
        match self {
            RuntimeActionExecutionStatus::Executed => "executed",
            RuntimeActionExecutionStatus::Skipped => "skipped",
            RuntimeActionExecutionStatus::Unsupported => "unsupported",
            RuntimeActionExecutionStatus::Failed => "failed",
        }
    }
}

/// An action and what became of it.
#[derive(Debug, PartialEq, Eq)]
pub struct RuntimeActionExecution {
    pub action: ResolvedRuntimeAction,
    pub status: RuntimeActionExecutionStatus,
    pub detail: Option<String>,
}

/// The mathematical value of [`RuntimeActionExecution`].
#[verifier::ext_equal]
pub struct ExecutionView {
    pub action: runtime_plan::ActionView,
    pub status: RuntimeActionExecutionStatus,
    pub detail: Option<Seq<char>>,
}

impl View for RuntimeActionExecution {
    type V = ExecutionView;

    open spec fn view(&self) -> ExecutionView {
        ExecutionView {
            action: self.action@,
            status: self.status,
            detail: text::optional(self.detail),
        }
    }
}

/// What went wrong with a command, if anything did.
pub open spec fn failure_of(outcome: Result<(), DogiError>) -> Option<Seq<char>> {
    match outcome {
        Ok(_) => None,
        Err(error) => Some(error::message_of(error@)),
    }
}

/// What carries out commands. Nothing is claimed of what it does with one.
pub trait RuntimeActionExecutor {
    /// Carries out a command.
    fn execute_command(&mut self, command: &RuntimeCommand) -> Result<(), DogiError>;
}

/// What becomes of an action that injects no input.
pub open spec fn skipped(action: runtime_plan::ActionView) -> ExecutionView {
    if action.command is Noop {
        ExecutionView {
            action,
            status: RuntimeActionExecutionStatus::Skipped,
            detail: Some("no action configured"@),
        }
    } else {
        ExecutionView {
            action,
            status: RuntimeActionExecutionStatus::Unsupported,
            detail: Some("cannot execute this runtime command"@),
        }
    }
}

/// What becomes of an action that injects input, from how its command went: `None`
/// where it was carried out, and else what went wrong.
pub open spec fn attempted(
    action: runtime_plan::ActionView,
    failure: Option<Seq<char>>,
) -> ExecutionView {
    match failure {
        None => ExecutionView {
            action,
            status: RuntimeActionExecutionStatus::Executed,
            detail: None,
        },
        Some(detail) => ExecutionView {
            action,
            status: RuntimeActionExecutionStatus::Failed,
            detail: Some(detail),
        },
    }
}

/// Whether a report tells what became of an action; its detail tells what went wrong
/// with the command.
pub open spec fn reports(action: runtime_plan::ActionView, execution: ExecutionView) -> bool {
    if supervisor::is_executable(action.command) {
        execution == attempted(action, execution.detail)
    } else {
        execution == skipped(action)
    }
}

/// What became of an action that injects no input.
pub fn skip_action(action: &ResolvedRuntimeAction) -> (r: RuntimeActionExecution)
    requires
        !supervisor::is_executable(action@.command),
    ensures
        r@ == skipped(action@),
{
    match &action.command {
        RuntimeCommand::Noop => RuntimeActionExecution {
            action: action.clone(),
            status: RuntimeActionExecutionStatus::Skipped,
            detail: Some("no action configured".to_owned()),
        },
        _ => RuntimeActionExecution {
            action: action.clone(),
            status: RuntimeActionExecutionStatus::Unsupported,
            detail: Some("cannot execute this runtime command".to_owned()),
        },
    }
}

/// What became of an action, from how its command went.
pub fn record_execution(action: &ResolvedRuntimeAction, outcome: Result<(), DogiError>) -> (r:
    RuntimeActionExecution)
    ensures
        r@ == attempted(action@, failure_of(outcome)),
{
    match outcome {
        Ok(()) => RuntimeActionExecution {
            action: action.clone(),
            status: RuntimeActionExecutionStatus::Executed,
            detail: None,
        },
        Err(error) => RuntimeActionExecution {
            action: action.clone(),
            status: RuntimeActionExecutionStatus::Failed,
            detail: Some(error.message()),
        },
    }
}

/// Carries out an action and reports what became of it. An action that injects input is
/// one call of the executor with its command, which takes the executor from what it was
/// to what it is then, and whose answer is what is reported. Any other leaves the
/// executor alone.
fn execute_runtime_action_with<E: RuntimeActionExecutor>(
    action: &ResolvedRuntimeAction,
    executor: &mut E,
) -> (r: RuntimeActionExecution)
    ensures
        reports(action@, r@),
        if supervisor::is_executable(action@.command) {
            exists|call: &mut E, answer: Result<(), DogiError>|
                *call == *old(executor) && *final(call) == *final(executor)
                    && #[trigger] call_ensures(
                    E::execute_command,
                    (call, &action.command),
                    answer,
                ) && r@ == attempted(action@, failure_of(answer))
        } else {
            *final(executor) == *old(executor)
        },
{
    if supervisor::action_is_executable(action) {
        let outcome = executor.execute_command(&action.command);
        record_execution(action, outcome)
    } else {
        skip_action(action)
    }
}

/// Carries out actions, one after the other, and reports what became of each. Every
/// command that injects input is handed to the executor once and in order, whatever
/// became of the ones before; what injects no input does not reach the executor.
///
/// `states` are what the executor is before the first action and after each of them:
/// from one to the next there is one call with the command of the action, whose answer is
/// reported, or nothing.
pub fn execute_runtime_actions_with<E: RuntimeActionExecutor>(
    actions: &Vec<ResolvedRuntimeAction>,
    executor: &mut E,
) -> (r: Vec<RuntimeActionExecution>)
    ensures
        r@.len() == actions@.len(),
        forall|i: int| 0 <= i < actions@.len() ==> reports(actions@[i]@, (#[trigger] r@[i])@),
        exists|states: Seq<E>|
            states.len() == actions@.len() + 1 && #[trigger] states[0] == *old(executor)
                && states.last() == *final(executor) && forall|i: int|
                0 <= i < actions@.len() ==> if supervisor::is_executable(
                    (#[trigger] actions@[i])@.command,
                ) {
                    exists|call: &mut E, answer: Result<(), DogiError>|
                        *call == states[i] && *final(call) == states[i + 1]
                            && #[trigger] call_ensures(
                            E::execute_command,
                            (call, &actions@[i].command),
                            answer,
                        ) && r@[i]@ == attempted(actions@[i]@, failure_of(answer))
                } else {
                    states[i + 1] == states[i]
                },
{
    let mut executions: Vec<RuntimeActionExecution> = Vec::new();
    let mut i: usize = 0;
    let ghost mut states: Seq<E> = seq![*executor];
    while i < actions.len()
        invariant
            i <= actions@.len(),
            executions@.len() == i,
            forall|k: int| 0 <= k < i ==> reports(actions@[k]@, (#[trigger] executions@[k])@),
            states.len() == i + 1,
            states[0] == *old(executor),
            states.last() == *executor,
            forall|k: int|
                0 <= k < i ==> if supervisor::is_executable((#[trigger] actions@[k])@.command) {
                    exists|call: &mut E, answer: Result<(), DogiError>|
                        *call == states[k] && *final(call) == states[k + 1]
                            && #[trigger] call_ensures(
                            E::execute_command,
                            (call, &actions@[k].command),
                            answer,
                        ) && executions@[k]@ == attempted(actions@[k]@, failure_of(answer))
                } else {
                    states[k + 1] == states[k]
                },
        decreases actions@.len() - i,
    {
        let execution = execute_runtime_action_with(&actions[i], executor);
        executions.push(execution);
        proof {
            states = states.push(*executor);
        }
        i += 1;
    }
    assert(states[0] == *old(executor));
    executions
}

/// Actions of an event that are carried out one by one, each only while the desktop
/// session under which they were resolved still is in front.
#[derive(Debug, PartialEq, Eq)]
pub struct GuardedActions {
    pub actions: Vec<ResolvedRuntimeAction>,
    pub generation: u64,
    pub executions: Vec<RuntimeActionExecution>,
    pub stopped: bool,
}

/// The mathematical value of [`GuardedActions`].
#[verifier::ext_equal]
pub struct GuardedView {
    pub actions: Seq<runtime_plan::ActionView>,
    pub generation: u64,
    pub executions: Seq<ExecutionView>,
    pub stopped: bool,
}

impl View for GuardedActions {
    type V = GuardedView;

    open spec fn view(&self) -> GuardedView {
        GuardedView {
            actions: self.actions@.map_values(|a: ResolvedRuntimeAction| a@),
            generation: self.generation,
            executions: self.executions@.map_values(|e: RuntimeActionExecution| e@),
            stopped: self.stopped,
        }
    }
}

impl GuardedView {
    /// The reports are about the first actions, in order.
    pub open spec fn wf(self) -> bool {
        &&& self.executions.len() <= self.actions.len()
        &&& forall|i: int|
            0 <= i < self.executions.len() ==> reports(
                self.actions[i],
                #[trigger] self.executions[i],
            )
    }

    /// Whether there is an action left that may be carried out.
    pub open spec fn wants_more(self) -> bool {
        !self.stopped && self.executions.len() < self.actions.len()
    }
}

/// What comes of asking the session for the next action: where it permits the action,
/// the action is reported, and where it does not, the executor stays what it is and no
/// further action is carried out. So it does where the action injects no input.
pub open spec fn guarded_step<E>(
    before: GuardedView,
    after: GuardedView,
    permitted: bool,
    executor_before: E,
    executor_after: E,
) -> bool {
    if permitted {
        let action = before.actions[before.executions.len() as int];
        let execution = after.executions.last();
        &&& after == GuardedView { executions: before.executions.push(execution), ..before }
        &&& reports(action, execution)
        &&& !supervisor::is_executable(action.command) ==> executor_after == executor_before
    } else {
        &&& after == GuardedView { stopped: true, ..before }
        &&& executor_after == executor_before
    }
}

/// Once the session does not permit an action, it is the last one that is asked for, and
/// nothing more reaches the executor.
pub proof fn law_refused_actions_are_not_handed_over<E>(
    states: Seq<GuardedView>,
    permitted: Seq<bool>,
    executors: Seq<E>,
    refused: int,
)
    requires
        states.len() == permitted.len() + 1,
        executors.len() == permitted.len() + 1,
        forall|i: int|
            0 <= i < permitted.len() ==> states[i].wants_more() && #[trigger] guarded_step(
                states[i],
                states[i + 1],
                permitted[i],
                executors[i],
                executors[i + 1],
            ),
        0 <= refused < permitted.len(),
        !permitted[refused],
    ensures
        refused == permitted.len() - 1,
        executors.last() == executors[refused],
        states.last().executions == states[refused].executions,
        !states.last().wants_more(),
{
    assert(guarded_step(
        states[refused],
        states[refused + 1],
        permitted[refused],
        executors[refused],
        executors[refused + 1],
    ));
    if refused + 1 < permitted.len() {
        let next = refused + 1;
        assert(guarded_step(
            states[next],
            states[next + 1],
            permitted[next],
            executors[next],
            executors[next + 1],
        ));
    }
}

impl GuardedActions {
    /// Nothing is carried out yet. `generation` is that of the observation under which the
    /// actions were resolved.
    pub fn begin(actions: Vec<ResolvedRuntimeAction>, generation: u64) -> (r: Self)
        ensures
            r@.wf(),
            r@ == (GuardedView {
                actions: actions@.map_values(|a: ResolvedRuntimeAction| a@),
                generation,
                executions: Seq::empty(),
                stopped: false,
            }),
    {
        let r = GuardedActions { actions, generation, executions: Vec::new(), stopped: false };
        assert(r@.executions =~= Seq::<ExecutionView>::empty());
        r
    }

    /// Whether there is an action left that may be carried out.
    pub fn wants_more(&self) -> (r: bool)
        ensures
            r == self@.wants_more(),
    {
        !self.stopped && self.executions.len() < self.actions.len()
    }

    /// Asks the session for the next action, and carries it out where it is permitted. An
    /// action that injects input is then one call of the executor with its command, whose
    /// answer is reported.
    pub fn advance<E: RuntimeActionExecutor>(&mut self, observer: &SessionObserver, executor: &mut E)
        requires
            old(self)@.wf(),
            old(self)@.wants_more(),
        ensures
            final(self)@.wf(),
            final(self).actions == old(self).actions,
            guarded_step(
                old(self)@,
                final(self)@,
                session::actions_permitted(observer.current@, old(self)@.generation),
                *old(executor),
                *final(executor),
            ),
            ({
                let action = old(self).actions@[old(self).executions@.len() as int];
                session::actions_permitted(observer.current@, old(self)@.generation)
                    && supervisor::is_executable(action@.command) ==> exists|
                    call: &mut E,
                    answer: Result<(), DogiError>,
                |
                    *call == *old(executor) && *final(call) == *final(executor)
                        && #[trigger] call_ensures(
                        E::execute_command,
                        (call, &action.command),
                        answer,
                    ) && final(self)@.executions.last() == attempted(action@, failure_of(answer))
            }),
    {
        let ghost before = self@;
        if !observer.permits_actions(self.generation) {
            self.stopped = true;
            assert(self@ =~= (GuardedView { stopped: true, ..before }));
            return;
        }
        let at: usize = self.executions.len();
        let execution = execute_runtime_action_with(&self.actions[at], executor);
        let ghost reported = execution@;
        self.executions.push(execution);
        proof {
            assert(before.actions[at as int] == self.actions@[at as int]@);
            assert(self@ =~= (GuardedView {
                executions: before.executions.push(reported),
                ..before
            }));
            assert(self@.executions.last() == reported);
        }
    }
}

/// Reports what becomes of actions none of which injects input. There is no report
/// where some does: an executor has to be opened then.
pub fn execute_runtime_actions(actions: &Vec<ResolvedRuntimeAction>) -> (r: Option<
    Vec<RuntimeActionExecution>,
>)
    ensures
        r is None <==> exists|i: int|
            0 <= i < actions@.len() && supervisor::is_executable(
                (#[trigger] actions@[i])@.command,
            ),
        r matches Some(executions) ==> executions@.len() == actions@.len() && forall|i: int|
            0 <= i < actions@.len() ==> (#[trigger] executions@[i])@ == skipped(actions@[i]@),
{
    let mut executions: Vec<RuntimeActionExecution> = Vec::new();
    let mut i: usize = 0;
    while i < actions.len()
        invariant
            i <= actions@.len(),
            executions@.len() == i,
            forall|k: int| 0 <= k < i ==> (#[trigger] executions@[k])@ == skipped(actions@[k]@),
            forall|k: int|
                0 <= k < i ==> !supervisor::is_executable((#[trigger] actions@[k])@.command),
        decreases actions@.len() - i,
    {
        if supervisor::action_is_executable(&actions[i]) {
            return None;
        }
        executions.push(skip_action(&actions[i]));
        i += 1;
    }
    Some(executions)
}

pub const UINPUT_PATH: &'static str = "/dev/uinput";

pub const EV_SYN: u16 = 0x00;

pub const EV_KEY: u16 = 0x01;

pub const EV_REL: u16 = 0x02;

pub const SYN_REPORT: u16 = 0;

pub const REL_HWHEEL: u16 = 0x06;

pub const REL_HWHEEL_HI_RES: u16 = 0x0c;

pub const KEY_MINUS: u16 = 12;

pub const KEY_EQUAL: u16 = 13;

pub const KEY_TAB: u16 = 15;

pub const KEY_LEFTCTRL: u16 = 29;

pub const KEY_LEFTSHIFT: u16 = 42;

pub const KEY_C: u16 = 46;

pub const KEY_V: u16 = 47;

pub const KEY_LEFTALT: u16 = 56;

pub const KEY_LEFT: u16 = 105;

pub const KEY_RIGHT: u16 = 106;

pub const KEY_VOLUMEDOWN: u16 = 114;

pub const KEY_VOLUMEUP: u16 = 115;

pub const KEY_LEFTMETA: u16 = 125;

pub const BTN_MIDDLE: u16 = 274;

pub const UI_DEV_CREATE: u32 = 0x5501;

pub const UI_DEV_DESTROY: u32 = 0x5502;

pub const UI_SET_EVBIT: u32 = 0x4004_5564;

pub const UI_SET_KEYBIT: u32 = 0x4004_5565;

pub const UI_SET_RELBIT: u32 = 0x4004_5566;

/// The number of a request to a driver: the direction in the two highest bits, the
/// size of the argument in the next fourteen, the driver in the next eight, and
/// the request in the lowest eight.
pub open spec fn request_number(direction: nat, driver: nat, request: nat, size: nat) -> nat {
    ((direction * 0x4000 + size) * 0x100 + driver) * 0x100 + request
}

fn ioctl_ioc(direction: u32, driver: u32, request: u32, size: u32) -> (r: u32)
    requires
        direction < 4,
        driver < 0x100,
        request < 0x100,
        size < 0x4000,
    ensures
        r == request_number(direction as nat, driver as nat, request as nat, size as nat),
{
    assert((direction << 30) | (driver << 8) | request | (size << 16) == ((direction * 0x4000
        + size) * 0x100 + driver) * 0x100 + request) by (bit_vector)
        requires
            direction < 4,
            driver < 0x100,
            request < 0x100,
            size < 0x4000,
    ;
    (direction << 30) | (driver << 8) | request | (size << 16)
}

/// The number of a request without an argument.
pub fn ioctl_io(driver: u8, request: u8) -> (r: u32)
    ensures
        r == request_number(0, driver as nat, request as nat, 0),
{
    ioctl_ioc(0, driver as u32, request as u32, 0)
}

/// The number of a request with an argument that the driver reads.
pub fn ioctl_iow(driver: u8, request: u8, size: u32) -> (r: u32)
    requires
        size < 0x4000,
    ensures
        r == request_number(1, driver as nat, request as nat, size as nat),
{
    ioctl_ioc(1, driver as u32, request as u32, size)
}

/// The code of a key.
pub open spec fn key_code(key: RuntimeKey) -> u16 {
    match key {
        RuntimeKey::Control => KEY_LEFTCTRL,
        RuntimeKey::Shift => KEY_LEFTSHIFT,
        RuntimeKey::Alt => KEY_LEFTALT,
        RuntimeKey::Super => KEY_LEFTMETA,
        RuntimeKey::Tab => KEY_TAB,
        RuntimeKey::Equal => KEY_EQUAL,
        RuntimeKey::Minus => KEY_MINUS,
        RuntimeKey::Left => KEY_LEFT,
        RuntimeKey::Right => KEY_RIGHT,
        RuntimeKey::C => KEY_C,
        RuntimeKey::V => KEY_V,
        RuntimeKey::VolumeUp => KEY_VOLUMEUP,
        RuntimeKey::VolumeDown => KEY_VOLUMEDOWN,
    }
}

/// The code of a key.
pub fn linux_key_code(key: RuntimeKey) -> (r: u16)
    ensures
        r == key_code(key),
{
    match key {
        RuntimeKey::Control => KEY_LEFTCTRL,
        RuntimeKey::Shift => KEY_LEFTSHIFT,
        RuntimeKey::Alt => KEY_LEFTALT,
        RuntimeKey::Super => KEY_LEFTMETA,
        RuntimeKey::Tab => KEY_TAB,
        RuntimeKey::Equal => KEY_EQUAL,
        RuntimeKey::Minus => KEY_MINUS,
        RuntimeKey::Left => KEY_LEFT,
        RuntimeKey::Right => KEY_RIGHT,
        RuntimeKey::C => KEY_C,
        RuntimeKey::V => KEY_V,
        RuntimeKey::VolumeUp => KEY_VOLUMEUP,
        RuntimeKey::VolumeDown => KEY_VOLUMEDOWN,
    }
}

/// The codes that the virtual input device is registered with.
pub open spec fn registered_codes() -> Seq<u16> {
    seq![
        KEY_MINUS,
        KEY_EQUAL,
        KEY_TAB,
        KEY_LEFTCTRL,
        KEY_LEFTSHIFT,
        KEY_C,
        KEY_V,
        KEY_LEFTALT,
        KEY_LEFT,
        KEY_RIGHT,
        KEY_VOLUMEDOWN,
        KEY_VOLUMEUP,
        KEY_LEFTMETA,
        BTN_MIDDLE,
    ]
}

/// The codes that the virtual input device is registered with.
pub fn supported_key_codes() -> (r: Vec<u16>)
    ensures
        r@ == registered_codes(),
{
    let r: Vec<u16> = vec![
        KEY_MINUS,
        KEY_EQUAL,
        KEY_TAB,
        KEY_LEFTCTRL,
        KEY_LEFTSHIFT,
        KEY_C,
        KEY_V,
        KEY_LEFTALT,
        KEY_LEFT,
        KEY_RIGHT,
        KEY_VOLUMEDOWN,
        KEY_VOLUMEUP,
        KEY_LEFTMETA,
        BTN_MIDDLE,
    ];
    assert(r@ =~= registered_codes());
    r
}

/// An event of the virtual input device.
#[derive(Clone, Copy, Debug, PartialEq, Eq, Structural)]
pub struct InputEvent {
    pub kind: u16,
    pub code: u16,
    pub value: i32,
}

/// The event that completes a group of events.
pub open spec fn sync_event() -> InputEvent {
    InputEvent { kind: EV_SYN, code: SYN_REPORT, value: 0 }
}

/// The event of a key that goes down (1) or up (0).
pub open spec fn key_event(code: u16, value: i32) -> InputEvent {
    InputEvent { kind: EV_KEY, code, value }
}

/// The events of keys that go down in order.
pub open spec fn presses(keys: Seq<RuntimeKey>) -> Seq<InputEvent> {
    Seq::new(keys.len(), |i: int| key_event(key_code(keys[i]), 1))
}

/// The events of keys that go up, the last one first.
pub open spec fn releases(keys: Seq<RuntimeKey>) -> Seq<InputEvent> {
    Seq::new(keys.len(), |i: int| key_event(key_code(keys[keys.len() - 1 - i]), 0))
}

/// The events of a key chord.
pub open spec fn chord_events(keys: Seq<RuntimeKey>) -> Seq<InputEvent> {
    presses(keys).push(sync_event()) + releases(keys).push(sync_event())
}

/// The events of a click.
pub open spec fn click_events(code: u16) -> Seq<InputEvent> {
    seq![key_event(code, 1), sync_event(), key_event(code, 0), sync_event()]
}

/// Every key of a chord goes down and up again, and no event has a code that the
/// device is not registered with.
pub proof fn law_chord_releases_every_key(keys: Seq<RuntimeKey>, i: int)
    requires
        0 <= i < keys.len(),
    ensures
        chord_events(keys)[i] == key_event(key_code(keys[i]), 1),
        chord_events(keys)[2 * keys.len() - i] == key_event(key_code(keys[i]), 0),
        chord_events(keys).len() == 2 * keys.len() + 2,
        registered_codes().contains(key_code(keys[i])),
{
    let codes = registered_codes();
    let at = match keys[i] {
        RuntimeKey::Minus => 0int,
        RuntimeKey::Equal => 1,
        RuntimeKey::Tab => 2,
        RuntimeKey::Control => 3,
        RuntimeKey::Shift => 4,
        RuntimeKey::C => 5,
        RuntimeKey::V => 6,
        RuntimeKey::Alt => 7,
        RuntimeKey::Left => 8,
        RuntimeKey::Right => 9,
        RuntimeKey::VolumeDown => 10,
        RuntimeKey::VolumeUp => 11,
        RuntimeKey::Super => 12,
    };
    assert(codes[at] == key_code(keys[i]));
}

/// How far the wheel is to turn: in units of 1/120 of a step, and in whole steps.
#[derive(Clone, Copy, Debug, PartialEq, Eq, Structural)]
pub struct HorizontalScrollMovement {
    pub high_resolution: i32,
    pub low_resolution: i32,
}

/// What earlier turns of the thumb wheel left over.
#[derive(Clone, Copy, Debug, PartialEq, Eq)]
pub struct HorizontalScrollAccumulator {
    pub signature: Option<(u16, i8, u16)>,
    pub scale_remainder: i64,
    pub low_resolution_remainder: i64,
}

/// The quotient of a division towards zero.
pub open spec fn quotient(a: int, b: int) -> int {
    if a >= 0 {
        a / b
    } else {
        -((-a) / b)
    }
}

/// What a division towards zero leaves over.
pub open spec fn remainder(a: int, b: int) -> int {
    if a >= 0 {
        a % b
    } else {
        -((-a) % b)
    }
}

/// A number moved into the range of 32 bits.
pub open spec fn within_i32(n: int) -> i32 {
    if n < i32::MIN {
        i32::MIN
    } else if n > i32::MAX {
        i32::MAX
    } else {
        n as i32
    }
}

/// What a turn of the thumb wheel is scaled by: resolution, direction and speed.
pub open spec fn scale_of(resolution: u16, direction: i8, speed_percent: u16) -> (u16, i8, u16) {
    (
        if resolution == 0 {
            1
        } else {
            resolution
        },
        if direction < 0 {
            -1i8
        } else {
            1i8
        },
        settings::clamped(speed_percent as int, 25, 400) as u16,
    )
}

/// What is left over for a turn with a scale: nothing where the scale changed.
pub open spec fn carried(a: HorizontalScrollAccumulator, scale: (u16, i8, u16)) -> (int, int) {
    if a.signature == Some(scale) {
        (a.scale_remainder as int, a.low_resolution_remainder as int)
    } else {
        (0, 0)
    }
}

/// How far a turn goes, in hundredths of a unit, with what is left over.
pub open spec fn scaled(delta: int, scale: (u16, i8, u16), left: int) -> int {
    delta * scale.0 * scale.1 * scale.2 + left
}

/// The units of a turn.
pub open spec fn units(a: HorizontalScrollAccumulator, delta: i16, scale: (u16, i8, u16)) -> int {
    quotient(scaled(delta as int, scale, carried(a, scale).0), 100)
}

/// The accumulator after a turn.
pub open spec fn turned(
    a: HorizontalScrollAccumulator,
    delta: i16,
    scale: (u16, i8, u16),
) -> HorizontalScrollAccumulator {
    HorizontalScrollAccumulator {
        signature: Some(scale),
        scale_remainder: remainder(scaled(delta as int, scale, carried(a, scale).0), 100) as i64,
        low_resolution_remainder: remainder(carried(a, scale).1 + units(a, delta, scale), 120)
            as i64,
    }
}

/// How far the wheel is to turn.
pub open spec fn movement(
    a: HorizontalScrollAccumulator,
    delta: i16,
    scale: (u16, i8, u16),
) -> HorizontalScrollMovement {
    HorizontalScrollMovement {
        high_resolution: within_i32(units(a, delta, scale)),
        low_resolution: within_i32(quotient(carried(a, scale).1 + units(a, delta, scale), 120)),
    }
}

/// Nothing of a turn is lost: what is not a whole unit, and what is not a whole
/// step, is kept for the next turn.
pub proof fn law_no_movement_is_lost(
    a: HorizontalScrollAccumulator,
    delta: i16,
    scale: (u16, i8, u16),
)
    requires
        a.wf(),
    ensures
        100 * units(a, delta, scale) + turned(a, delta, scale).scale_remainder == scaled(
            delta as int,
            scale,
            carried(a, scale).0,
        ),
        120 * quotient(carried(a, scale).1 + units(a, delta, scale), 120) + turned(
            a,
            delta,
            scale,
        ).low_resolution_remainder == carried(a, scale).1 + units(a, delta, scale),
        turned(a, delta, scale).wf(),
{
}

fn divide(a: i64, b: i64) -> (r: (i64, i64))
    requires
        i64::MIN < a,
        0 < b,
    ensures
        r.0 == quotient(a as int, b as int),
        r.1 == remainder(a as int, b as int),
        -b < r.1 < b,
        a >= 0 ==> 0 <= r.0 <= a,
        a < 0 ==> a <= r.0 <= 0,
{
    if a >= 0 {
        let n: u64 = a as u64;
        let d: u64 = b as u64;
        proof {
            assert(0 <= n / d <= n) by (nonlinear_arith)
                requires
                    d > 0,
            ;
        }
        ((n / d) as i64, (n % d) as i64)
    } else {
        let n: u64 = (-a) as u64;
        let d: u64 = b as u64;
        proof {
            assert(0 <= n / d <= n) by (nonlinear_arith)
                requires
                    d > 0,
            ;
        }
        let q: i64 = (n / d) as i64;
        let m: i64 = (n % d) as i64;
        (-q, -m)
    }
}

fn saturating_i32(value: i64) -> (r: i32)
    ensures
        r == within_i32(value as int),
{
    if value < i32::MIN as i64 {
        i32::MIN
    } else if value > i32::MAX as i64 {
        i32::MAX
    } else {
        value as i32
    }
}

impl Default for HorizontalScrollAccumulator {
    fn default() -> (r: Self)
        ensures
            r == (HorizontalScrollAccumulator {
                signature: None,
                scale_remainder: 0,
                low_resolution_remainder: 0,
            }),
    {
        HorizontalScrollAccumulator {
            signature: None,
            scale_remainder: 0,
            low_resolution_remainder: 0,
        }
    }
}

impl HorizontalScrollAccumulator {
    /// What is left over is less than a unit, and less than a step.
    pub open spec fn wf(self) -> bool {
        &&& -100 < self.scale_remainder < 100
        &&& -120 < self.low_resolution_remainder < 120
    }

    /// Turns the thumb wheel.
    pub fn scale(&mut self, delta: i16, resolution: u16, direction: i8, speed_percent: u16) -> (r:
        HorizontalScrollMovement)
        requires
            old(self).wf(),
        ensures
            final(self).wf(),
            *final(self) == turned(
                *old(self),
                delta,
                scale_of(resolution, direction, speed_percent),
            ),
            r == movement(*old(self), delta, scale_of(resolution, direction, speed_percent)),
    {
        let resolution: u16 = if resolution == 0 {
            1
        } else {
            resolution
        };
        let direction: i8 = if direction < 0 {
            -1
        } else {
            1
        };
        let speed: u16 = settings::clamp_u16(speed_percent, 25, 400);
        let same = match self.signature {
            Some((r, d, s)) => r == resolution && d == direction && s == speed,
            None => false,
        };
        if !same {
            self.signature = Some((resolution, direction, speed));
            self.scale_remainder = 0;
            self.low_resolution_remainder = 0;
        }
        let ghost scale = (resolution, direction, speed);
        let base: i64 = multiply(delta, resolution, direction, speed);
        let numerator: i64 = base + self.scale_remainder;
        let (high, scale_remainder) = divide(numerator, 100);
        self.scale_remainder = scale_remainder;
        let sum: i64 = self.low_resolution_remainder + high;
        let (low, low_remainder) = divide(sum, 120);
        self.low_resolution_remainder = low_remainder;
        HorizontalScrollMovement {
            high_resolution: saturating_i32(high),
            low_resolution: saturating_i32(low),
        }
    }
}

fn multiply(delta: i16, resolution: u16, direction: i8, speed: u16) -> (r: i64)
    requires
        direction == 1 || direction == -1,
        speed <= 400,
    ensures
        r == delta * resolution * direction * speed,
        -1_000_000_000_000 <= r <= 1_000_000_000_000,
{
    let d: i64 = delta as i64;
    let n: i64 = resolution as i64;
    proof {
        assert(-32768 * 65535 <= d * n <= 32767 * 65535) by (nonlinear_arith)
            requires
                -32768 <= d <= 32767,
                0 <= n <= 65535,
        ;
    }
    let a: i64 = d * n;
    let b: i64 = if direction < 0 {
        -a
    } else {
        a
    };
    let s: i64 = speed as i64;
    proof {
        assert(b == a * direction) by (nonlinear_arith)
            requires
                direction == 1 && b == a || direction == -1 && b == -a,
        ;
        assert(-32768 * 65535 * 400 <= b * s <= 32768 * 65535 * 400) by (nonlinear_arith)
            requires
                -32768 * 65535 <= b <= 32768 * 65535,
                0 <= s <= 400,
        ;
        assert(b * s == delta * resolution * direction * speed);
    }
    b * s
}

/// The virtual input device: what it makes of commands.
#[derive(Debug)]
pub struct VirtualInput {
    pub horizontal_scroll: HorizontalScrollAccumulator,
}

/// The events of a turn of the wheel; none where it does not turn.
pub open spec fn scroll_events(m: HorizontalScrollMovement) -> Seq<InputEvent> {
    let low = if m.low_resolution != 0 {
        seq![InputEvent { kind: EV_REL, code: REL_HWHEEL, value: m.low_resolution }]
    } else {
        Seq::empty()
    };
    let high = if m.high_resolution != 0 {
        seq![InputEvent { kind: EV_REL, code: REL_HWHEEL_HI_RES, value: m.high_resolution }]
    } else {
        Seq::empty()
    };
    if m.high_resolution == 0 && m.low_resolution == 0 {
        Seq::empty()
    } else {
        low + high + seq![sync_event()]
    }
}

/// The events of a command.
pub open spec fn command_events(
    a: HorizontalScrollAccumulator,
    command: runtime_plan::CommandView,
) -> Seq<InputEvent> {
    match command {
        runtime_plan::CommandView::KeyChord(keys) => chord_events(keys),
        runtime_plan::CommandView::MouseButton(RuntimeMouseButton::Middle) => click_events(
            BTN_MIDDLE,
        ),
        runtime_plan::CommandView::HorizontalScroll {
            delta,
            resolution,
            direction,
            speed_percent,
        } => scroll_events(movement(a, delta, scale_of(resolution, direction, speed_percent))),
        runtime_plan::CommandView::Noop => Seq::empty(),
        runtime_plan::CommandView::Unsupported => Seq::empty(),
    }
}

fn sync() -> (r: InputEvent)
    ensures
        r == sync_event(),
{
    InputEvent { kind: EV_SYN, code: SYN_REPORT, value: 0 }
}

fn key(code: u16, value: i32) -> (r: InputEvent)
    ensures
        r == key_event(code, value),
{
    InputEvent { kind: EV_KEY, code, value }
}

/// The events of a key chord.
pub fn key_chord(keys: &Vec<RuntimeKey>) -> (r: Vec<InputEvent>)
    ensures
        r@ == chord_events(keys@),
{
    let mut events: Vec<InputEvent> = Vec::new();
    let mut i: usize = 0;
    while i < keys.len()
        invariant
            i <= keys@.len(),
            events@ == presses(keys@).take(i as int),
        decreases keys@.len() - i,
    {
        events.push(key(linux_key_code(keys[i]), 1));
        i += 1;
        assert(events@ =~= presses(keys@).take(i as int));
    }
    assert(presses(keys@).take(keys@.len() as int) =~= presses(keys@));
    events.push(sync());
    let ghost down = events@;
    let mut j: usize = 0;
    assert(events@ =~= down + releases(keys@).take(0));
    while j < keys.len()
        invariant
            j <= keys@.len(),
            events@ == down + releases(keys@).take(j as int),
        decreases keys@.len() - j,
    {
        events.push(key(linux_key_code(keys[keys.len() - 1 - j]), 0));
        j += 1;
        assert(events@ =~= down + releases(keys@).take(j as int));
    }
    assert(releases(keys@).take(keys@.len() as int) =~= releases(keys@));
    events.push(sync());
    assert(events@ =~= chord_events(keys@));
    events
}

impl VirtualInput {
    /// A device on which nothing was done yet.
    pub fn new() -> (r: Self)
        ensures
            r.horizontal_scroll.wf(),
            r.horizontal_scroll == (HorizontalScrollAccumulator {
                signature: None,
                scale_remainder: 0,
                low_resolution_remainder: 0,
            }),
    {
        VirtualInput { horizontal_scroll: HorizontalScrollAccumulator::default() }
    }

    /// The events of a command.
    pub fn execute_command(&mut self, command: &RuntimeCommand) -> (r: Vec<InputEvent>)
        requires
            old(self).horizontal_scroll.wf(),
        ensures
            final(self).horizontal_scroll.wf(),
            r@ == command_events(old(self).horizontal_scroll, command@),
            final(self).horizontal_scroll == (match command@ {
                runtime_plan::CommandView::HorizontalScroll {
                    delta,
                    resolution,
                    direction,
                    speed_percent,
                } => turned(
                    old(self).horizontal_scroll,
                    delta,
                    scale_of(resolution, direction, speed_percent),
                ),
                _ => old(self).horizontal_scroll,
            }),
    {
        let mut events: Vec<InputEvent> = Vec::new();
        match command {
            RuntimeCommand::KeyChord(keys) => {
                return key_chord(keys);
            },
            RuntimeCommand::MouseButton(RuntimeMouseButton::Middle) => {
                events.push(key(BTN_MIDDLE, 1));
                events.push(sync());
                events.push(key(BTN_MIDDLE, 0));
                events.push(sync());
                assert(events@ =~= click_events(BTN_MIDDLE));
            },
            RuntimeCommand::HorizontalScroll { delta, resolution, direction, speed_percent } => {
                let m = self.horizontal_scroll.scale(
                    *delta,
                    *resolution,
                    *direction,
                    *speed_percent,
                );
                if m.high_resolution == 0 && m.low_resolution == 0 {
                    assert(events@ =~= scroll_events(m));
                    return events;
                }
                if m.low_resolution != 0 {
                    events.push(
                        InputEvent { kind: EV_REL, code: REL_HWHEEL, value: m.low_resolution },
                    );
                }
                if m.high_resolution != 0 {
                    events.push(
                        InputEvent {
                            kind: EV_REL,
                            code: REL_HWHEEL_HI_RES,
                            value: m.high_resolution,
                        },
                    );
                }
                events.push(sync());
                assert(events@ =~= scroll_events(m));
            },
            RuntimeCommand::Noop | RuntimeCommand::Unsupported => {},
        }
        assert(events@ =~= command_events(old(self).horizontal_scroll, command@));
        events
    }
}

/// The numbers of the requests are those that the driver defines: creation and removal
/// without an argument, and the registration of a kind of event, a key or an axis with
/// a number of four bytes.
pub proof fn law_requests_are_those_of_the_driver()
    ensures
        UI_DEV_CREATE == request_number(0, 'U' as nat, 1, 0),
        UI_DEV_DESTROY == request_number(0, 'U' as nat, 2, 0),
        UI_SET_EVBIT == request_number(1, 'U' as nat, 100, 4),
        UI_SET_KEYBIT == request_number(1, 'U' as nat, 101, 4),
        UI_SET_RELBIT == request_number(1, 'U' as nat, 102, 4),
{
}

pub const BUS_USB: u16 = 0x03;

pub const DOGI_UINPUT_VENDOR: u16 = 0x046d;

pub const DOGI_UINPUT_PRODUCT: u16 = 0xd061;

pub const DOGI_UINPUT_NAME: &'static str = "dogi virtual input";

/// How long the desktop is given to notice the virtual input device.
pub const UINPUT_SETTLE_MS: u64 = 100;

/// A step by which the virtual input device comes about.
#[derive(Clone, Copy, Debug, PartialEq, Eq, Structural)]
pub enum SetupStep {
    /// A request with an argument.
    Request { number: u32, value: u16 },
    /// The device is described.
    Describe { bus: u16, vendor: u16, product: u16, version: u16 },
    /// The device is created.
    Create,
}

/// The step that registers a code.
pub open spec fn request_step(number: u32, value: u16) -> SetupStep {
    SetupStep::Request { number, value }
}

/// The steps by which the virtual input device comes about: first its keys and axes are
/// registered, then it is described, and then it is created.
pub open spec fn setup() -> Seq<SetupStep> {
    seq![request_step(UI_SET_EVBIT, EV_KEY)] + Seq::new(
        registered_codes().len(),
        |i: int| request_step(UI_SET_KEYBIT, registered_codes()[i]),
    ) + seq![
        request_step(UI_SET_EVBIT, EV_REL),
        request_step(UI_SET_RELBIT, REL_HWHEEL),
        request_step(UI_SET_RELBIT, REL_HWHEEL_HI_RES),
        SetupStep::Describe {
            bus: BUS_USB,
            vendor: DOGI_UINPUT_VENDOR,
            product: DOGI_UINPUT_PRODUCT,
            version: 1,
        },
        SetupStep::Create,
    ]
}

/// The steps by which the virtual input device comes about.
pub fn setup_steps() -> (r: Vec<SetupStep>)
    ensures
        r@ == setup(),
{
    let codes = supported_key_codes();
    let ghost keys = Seq::new(
        registered_codes().len(),
        |i: int| request_step(UI_SET_KEYBIT, registered_codes()[i]),
    );
    let mut steps: Vec<SetupStep> = Vec::new();
    steps.push(SetupStep::Request { number: UI_SET_EVBIT, value: EV_KEY });
    let ghost start = steps@;
    let mut i: usize = 0;
    assert(steps@ =~= start + keys.take(0));
    while i < codes.len()
        invariant
            codes@ == registered_codes(),
            keys == Seq::new(
                registered_codes().len(),
                |i: int| request_step(UI_SET_KEYBIT, registered_codes()[i]),
            ),
            i <= codes@.len(),
            steps@ == start + keys.take(i as int),
        decreases codes@.len() - i,
    {
        steps.push(SetupStep::Request { number: UI_SET_KEYBIT, value: codes[i] });
        i += 1;
        assert(steps@ =~= start + keys.take(i as int));
    }
    assert(keys.take(keys.len() as int) =~= keys);
    steps.push(SetupStep::Request { number: UI_SET_EVBIT, value: EV_REL });
    steps.push(SetupStep::Request { number: UI_SET_RELBIT, value: REL_HWHEEL });
    steps.push(SetupStep::Request { number: UI_SET_RELBIT, value: REL_HWHEEL_HI_RES });
    steps.push(
        SetupStep::Describe {
            bus: BUS_USB,
            vendor: DOGI_UINPUT_VENDOR,
            product: DOGI_UINPUT_PRODUCT,
            version: 1,
        },
    );
    steps.push(SetupStep::Create);
    assert(steps@ =~= setup());
    steps
}

/// Whether the virtual input device was set up for an event. The events that complete a
/// group need no registration.
pub open spec fn event_is_registered(event: InputEvent) -> bool {
    ||| event.kind == EV_SYN
    ||| event.kind == EV_KEY && setup().contains(request_step(UI_SET_KEYBIT, event.code))
    ||| event.kind == EV_REL && setup().contains(request_step(UI_SET_RELBIT, event.code))
}

proof fn lemma_key_is_registered(key: RuntimeKey)
    ensures
        setup().contains(request_step(UI_SET_KEYBIT, key_code(key))),
        setup().contains(request_step(UI_SET_KEYBIT, BTN_MIDDLE)),
{
    let codes = registered_codes();
    let i: int = match key {
        RuntimeKey::Control => 3,
        RuntimeKey::Shift => 4,
        RuntimeKey::Alt => 7,
        RuntimeKey::Super => 12,
        RuntimeKey::Tab => 2,
        RuntimeKey::Equal => 1,
        RuntimeKey::Minus => 0,
        RuntimeKey::Left => 8,
        RuntimeKey::Right => 9,
        RuntimeKey::C => 5,
        RuntimeKey::V => 6,
        RuntimeKey::VolumeUp => 11,
        RuntimeKey::VolumeDown => 10,
    };
    assert(codes[i] == key_code(key));
    assert(setup()[1 + i] == request_step(UI_SET_KEYBIT, codes[i]));
    assert(setup()[14] == request_step(UI_SET_KEYBIT, BTN_MIDDLE));
}

/// Whatever a command comes to, the virtual input device was set up for it.
pub proof fn law_events_are_registered(
    a: HorizontalScrollAccumulator,
    command: runtime_plan::CommandView,
    i: int,
)
    requires
        0 <= i < command_events(a, command).len(),
    ensures
        event_is_registered(command_events(a, command)[i]),
{
    lemma_key_is_registered(RuntimeKey::Control);
    assert(setup()[16] == request_step(UI_SET_RELBIT, REL_HWHEEL));
    assert(setup()[17] == request_step(UI_SET_RELBIT, REL_HWHEEL_HI_RES));
    match command {
        runtime_plan::CommandView::KeyChord(keys) => {
            let n = keys.len() as int;
            if i < n {
                lemma_key_is_registered(keys[i]);
                assert(chord_events(keys)[i] == key_event(key_code(keys[i]), 1));
            } else if n < i < 2 * n + 1 {
                lemma_key_is_registered(keys[n - 1 - (i - n - 1)]);
                assert(chord_events(keys)[i] == key_event(
                    key_code(keys[n - 1 - (i - n - 1)]),
                    0,
                ));
            }
        },
        _ => {},
    }
}

/// Each key has the code that the kernel gives to it.
pub proof fn law_keys_have_the_codes_of_the_kernel(key: RuntimeKey)
    ensures
        key == RuntimeKey::Minus ==> key_code(key) == 12,
        key == RuntimeKey::Equal ==> key_code(key) == 13,
        key == RuntimeKey::Tab ==> key_code(key) == 15,
        key == RuntimeKey::Control ==> key_code(key) == 29,
        key == RuntimeKey::Shift ==> key_code(key) == 42,
        key == RuntimeKey::C ==> key_code(key) == 46,
        key == RuntimeKey::V ==> key_code(key) == 47,
        key == RuntimeKey::Alt ==> key_code(key) == 56,
        key == RuntimeKey::Left ==> key_code(key) == 105,
        key == RuntimeKey::Right ==> key_code(key) == 106,
        key == RuntimeKey::VolumeDown ==> key_code(key) == 114,
        key == RuntimeKey::VolumeUp ==> key_code(key) == 115,
        key == RuntimeKey::Super ==> key_code(key) == 125,
{
}

/// A chord presses its keys in order and then releases them, the last one first, and
/// completes either group. Key events have the kind 1, with 1 for down and 0 for up; an
/// event that completes a group is all zeros.
pub proof fn law_chord_is_pressed_and_released(
    a: HorizontalScrollAccumulator,
    keys: Seq<RuntimeKey>,
    i: int,
)
    requires
        0 <= i < keys.len(),
    ensures
        ({
            let events = command_events(a, runtime_plan::CommandView::KeyChord(keys));
            let n = keys.len() as int;
            &&& events.len() == 2 * n + 2
            &&& events[i] == (InputEvent { kind: 1, code: key_code(keys[i]), value: 1 })
            &&& events[n] == (InputEvent { kind: 0, code: 0, value: 0 })
            &&& events[2 * n - i] == (InputEvent { kind: 1, code: key_code(keys[i]), value: 0 })
            &&& events[2 * n + 1] == (InputEvent { kind: 0, code: 0, value: 0 })
        }),
{
    law_chord_releases_every_key(keys, i);
}

/// A click of the middle button is the code 274 down and up, each completed; what injects
/// no input makes no event.
pub proof fn law_click_is_pressed_and_released(a: HorizontalScrollAccumulator)
    ensures
        command_events(
            a,
            runtime_plan::CommandView::MouseButton(RuntimeMouseButton::Middle),
        ) == seq![
            InputEvent { kind: 1, code: 274, value: 1 },
            InputEvent { kind: 0, code: 0, value: 0 },
            InputEvent { kind: 1, code: 274, value: 0 },
            InputEvent { kind: 0, code: 0, value: 0 },
        ],
        command_events(a, runtime_plan::CommandView::Noop).len() == 0,
        command_events(a, runtime_plan::CommandView::Unsupported).len() == 0,
{
}

/// A turn of the thumb wheel scrolls as far as the turn, the resolution and the speed say,
/// in the direction of the wheel, with what the turns before left over at the same scale.
/// What is less than a unit, or than a step of 120 units, is left over for the next turn,
/// with the sign of the movement.
pub proof fn law_scrolling_follows_the_thumb_wheel(
    a: HorizontalScrollAccumulator,
    delta: i16,
    resolution: u16,
    direction: i8,
    speed_percent: u16,
)
    requires
        a.wf(),
        resolution > 0,
        25 <= speed_percent <= 400,
    ensures
        ({
            let d: i8 = if direction < 0 {
                -1i8
            } else {
                1
            };
            let scale = scale_of(resolution, direction, speed_percent);
            let same = a.signature == Some((resolution, d, speed_percent));
            let left = if same {
                a.scale_remainder as int
            } else {
                0
            };
            let left_of_step = if same {
                a.low_resolution_remainder as int
            } else {
                0
            };
            let after = turned(a, delta, scale);
            let m = movement(a, delta, scale);
            let way = delta * resolution * d * speed_percent + left;
            &&& after.signature == Some((resolution, d, speed_percent))
            &&& -100 < after.scale_remainder < 100 && -120 < after.low_resolution_remainder < 120
            &&& way >= 0 ==> after.scale_remainder >= 0 && m.high_resolution >= 0
            &&& way <= 0 ==> after.scale_remainder <= 0 && m.high_resolution <= 0
            &&& i32::MIN < m.high_resolution < i32::MAX ==> 100 * m.high_resolution
                + after.scale_remainder == way
            &&& i32::MIN < m.high_resolution < i32::MAX && i32::MIN < m.low_resolution
                < i32::MAX ==> 120 * m.low_resolution + after.low_resolution_remainder
                == left_of_step + m.high_resolution
        }),
{
    let scale = scale_of(resolution, direction, speed_percent);
    law_no_movement_is_lost(a, delta, scale);
}

/// A speed beyond 25 to 400 per cent is taken as the nearest of these, a resolution of
/// zero as one, and a direction by its sign alone.
pub proof fn law_scroll_scale_is_kept_in_range(resolution: u16, direction: i8, speed_percent: u16)
    ensures
        speed_percent < 25 ==> scale_of(resolution, direction, speed_percent) == scale_of(
            resolution,
            direction,
            25,
        ),
        speed_percent > 400 ==> scale_of(resolution, direction, speed_percent) == scale_of(
            resolution,
            direction,
            400,
        ),
        scale_of(0, direction, speed_percent) == scale_of(1, direction, speed_percent),
        direction < 0 ==> scale_of(resolution, direction, speed_percent) == scale_of(
            resolution,
            -1i8,
            speed_percent,
        ),
        direction >= 0 ==> scale_of(resolution, direction, speed_percent) == scale_of(
            resolution,
            1,
            speed_percent,
        ),
{
}

/// A movement is told to the desktop as it is: whole steps on the axis 6, units on the
/// axis 12, as relative events of the kind 2, completed; and nothing where nothing moves.
pub proof fn law_movement_is_told_as_it_is(
    a: HorizontalScrollAccumulator,
    delta: i16,
    resolution: u16,
    direction: i8,
    speed_percent: u16,
)
    ensures
        ({
            let events = command_events(
                a,
                runtime_plan::CommandView::HorizontalScroll {
                    delta,
                    resolution,
                    direction,
                    speed_percent,
                },
            );
            let m = movement(a, delta, scale_of(resolution, direction, speed_percent));
            let sync = InputEvent { kind: 0, code: 0, value: 0 };
            let steps = InputEvent { kind: 2, code: 6, value: m.low_resolution };
            let units = InputEvent { kind: 2, code: 12, value: m.high_resolution };
            &&& m.low_resolution == 0 && m.high_resolution == 0 ==> events.len() == 0
            &&& m.low_resolution != 0 && m.high_resolution != 0 ==> events == seq![
                steps,
                units,
                sync,
            ]
            &&& m.low_resolution == 0 && m.high_resolution != 0 ==> events == seq![units, sync]
            &&& m.low_resolution != 0 && m.high_resolution == 0 ==> events == seq![steps, sync]
        }),
{
}

/// Chords, clicks and scrolling are carried out, and reported by how that went; what is
/// configured to do nothing is skipped, and what cannot be done is reported as such.
pub proof fn law_reports_tell_what_became_of_an_action(
    action: runtime_plan::ActionView,
    failure: Option<Seq<char>>,
)
    ensures
        supervisor::is_executable(action.command) <==> action.command is KeyChord
            || action.command is MouseButton || action.command is HorizontalScroll,
        failure is None ==> attempted(action, failure) == (ExecutionView {
            action,
            status: RuntimeActionExecutionStatus::Executed,
            detail: None,
        }),
        failure is Some ==> attempted(action, failure) == (ExecutionView {
            action,
            status: RuntimeActionExecutionStatus::Failed,
            detail: failure,
        }),
        action.command is Noop ==> skipped(action).status == RuntimeActionExecutionStatus::Skipped
            && skipped(action).action == action,
        action.command is Unsupported ==> skipped(action).status
            == RuntimeActionExecutionStatus::Unsupported && skipped(action).action == action,
{
}

/// Before the virtual input device is created, it is told of keys (1) and of relative
/// axes (2), of each key code and of the two axes, and it is described with the vendor and
/// product numbers of its own. The creation comes last.
pub proof fn law_device_is_set_up_before_it_is_created(code: u16)
    ensures
        ({
            let steps = setup();
            &&& steps.last() == SetupStep::Create
            &&& forall|i: int| 0 <= i < steps.len() - 1 ==> !(#[trigger] steps[i] is Create)
            &&& steps.contains(SetupStep::Request { number: 0x4004_5564, value: 1 })
            &&& steps.contains(SetupStep::Request { number: 0x4004_5564, value: 2 })
            &&& steps.contains(SetupStep::Request { number: 0x4004_5566, value: 6 })
            &&& steps.contains(SetupStep::Request { number: 0x4004_5566, value: 12 })
            &&& steps.contains(
                SetupStep::Describe { bus: 3, vendor: 0x046d, product: 0xd061, version: 1 },
            )
            &&& registered_codes().contains(code) ==> steps.contains(
                SetupStep::Request { number: 0x4004_5565, value: code },
            )
        }),
{
    let steps = setup();
    let codes = registered_codes();
    assert(codes.len() == 14);
    assert(steps.len() == 20);
    assert(steps[0] == (SetupStep::Request { number: 0x4004_5564, value: 1 }));
    assert(steps[15] == (SetupStep::Request { number: 0x4004_5564, value: 2 }));
    assert(steps[16] == (SetupStep::Request { number: 0x4004_5566, value: 6 }));
    assert(steps[17] == (SetupStep::Request { number: 0x4004_5566, value: 12 }));
    assert(steps[18] == (SetupStep::Describe {
        bus: 3,
        vendor: 0x046d,
        product: 0xd061,
        version: 1,
    }));
    assert(steps[19] == SetupStep::Create);
    if codes.contains(code) {
        let k = choose|k: int| 0 <= k < codes.len() && codes[k] == code;
        assert(steps[1 + k] == (SetupStep::Request { number: 0x4004_5565, value: code }));
    }
}

/// Each key is sent as the code that the kernel has for it, by the function that sends it.
pub proof fn law_key_codes_are_sent()
    ensures
        forall|key: RuntimeKey, code: u16|
            #![trigger call_ensures(linux_key_code, (key,), code)]
            call_ensures(linux_key_code, (key,), code) ==> {
                &&& key is Minus ==> code == 12
                &&& key is Equal ==> code == 13
                &&& key is Tab ==> code == 15
                &&& key is Control ==> code == 29
                &&& key is Shift ==> code == 42
                &&& key is C ==> code == 46
                &&& key is V ==> code == 47
                &&& key is Alt ==> code == 56
                &&& key is Left ==> code == 105
                &&& key is Right ==> code == 106
                &&& key is VolumeDown ==> code == 114
                &&& key is VolumeUp ==> code == 115
                &&& key is Super ==> code == 125
            },
{
}

/// A report is of the action that was handed over: one that injects input was carried out where
/// nothing is said of it and failed otherwise, and any other was neither.
pub proof fn law_reports_are_of_their_action(
    action: runtime_plan::ActionView,
    execution: ExecutionView,
)
    requires
        reports(action, execution),
    ensures
        execution.action == action,
        action.command is KeyChord || action.command is MouseButton
            || action.command is HorizontalScroll ==> {
            &&& execution.status is Executed <==> execution.detail is None
            &&& execution.status is Failed <==> execution.detail is Some
        },
        action.command is Noop ==> execution.status is Skipped,
        action.command is Unsupported ==> execution.status is Unsupported,
        execution.detail is None ==> execution.status is Executed,
{
}

/// The words for what became of an action.
pub proof fn law_words_for_reports()
    ensures
        RuntimeActionExecutionStatus::Executed.label_spec() == "executed"@,
        RuntimeActionExecutionStatus::Skipped.label_spec() == "skipped"@,
        RuntimeActionExecutionStatus::Unsupported.label_spec() == "unsupported"@,
        RuntimeActionExecutionStatus::Failed.label_spec() == "failed"@,
{
}

}
