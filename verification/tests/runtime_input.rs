use dogi::actions::{
    execute_runtime_actions, execute_runtime_actions_with, ioctl_io, ioctl_iow, key_chord,
    linux_key_code, record_execution, setup_steps, skip_action, supported_key_codes,
    GuardedActions, SetupStep,
    HorizontalScrollAccumulator, HorizontalScrollMovement, InputEvent,
    RuntimeActionExecutionStatus, RuntimeActionExecutor, VirtualInput, EV_KEY, EV_REL, EV_SYN,
    KEY_EQUAL, KEY_LEFTCTRL, KEY_VOLUMEDOWN, REL_HWHEEL, REL_HWHEEL_HI_RES, SYN_REPORT,
    UI_DEV_CREATE, UI_DEV_DESTROY, UI_SET_EVBIT, UI_SET_KEYBIT, UI_SET_RELBIT,
};
use dogi::device_info::HidppFeatureInfo;
use dogi::error::DogiError;
use dogi::pointer::{
    prepare, supported_dpi, DeviceSettingValue, PreparedHidChange, ADJUSTABLE_DPI, POINTER_SPEED,
};
use dogi::reader::DeviceReader;
use dogi::runtime_events::{
    parse_notification, HIDPP_FEATURE_REPROG_CONTROLS_V4, HIDPP_FEATURE_THUMB_WHEEL,
    HIDPP_LONG_REPORT_ID, HIDPP_SHORT_REPORT_ID,
};
use dogi::runtime_plan::{
    Master3sRuntimeEvent, ResolvedRuntimeAction, RuntimeActionSource, RuntimeCommand, RuntimeKey,
    RuntimeMouseButton,
};
use dogi::session::{GraphicalSessionMode, SessionObserver, SessionSnapshot};
use dogi::settings::Master3sButton;

#[test]
fn maps_runtime_keys_to_linux_codes() {
    assert_eq!(linux_key_code(RuntimeKey::Control), KEY_LEFTCTRL);
    assert_eq!(linux_key_code(RuntimeKey::Equal), KEY_EQUAL);
    assert_eq!(linux_key_code(RuntimeKey::VolumeDown), KEY_VOLUMEDOWN);
}

#[test]
fn key_codes_are_those_of_the_kernel() {
    assert_eq!(KEY_LEFTCTRL, 29);
    assert_eq!(KEY_EQUAL, 13);
    assert_eq!(KEY_VOLUMEDOWN, 114);
    let codes = supported_key_codes();
    for key in [
        RuntimeKey::Control,
        RuntimeKey::Shift,
        RuntimeKey::Alt,
        RuntimeKey::Super,
        RuntimeKey::Tab,
        RuntimeKey::Equal,
        RuntimeKey::Minus,
        RuntimeKey::Left,
        RuntimeKey::Right,
        RuntimeKey::C,
        RuntimeKey::V,
        RuntimeKey::VolumeUp,
        RuntimeKey::VolumeDown,
    ] {
        assert!(codes.contains(&linux_key_code(key)), "{key:?}");
    }
}

#[test]
fn uinput_ioctl_values_match_linux_headers() {
    assert_eq!(UI_DEV_CREATE, 0x5501);
    assert_eq!(UI_DEV_DESTROY, 0x5502);
    assert_eq!(UI_SET_EVBIT, 0x40045564);
    assert_eq!(UI_SET_KEYBIT, 0x40045565);
    assert_eq!(UI_SET_RELBIT, 0x40045566);
}

#[test]
fn ioctl_numbers_are_packed_from_their_parts() {
    assert_eq!(ioctl_io(b'U', 1), 0x5501);
    assert_eq!(ioctl_iow(b'U', 100, 4), 0x40045564);
}

#[test]
fn scales_horizontal_scroll_and_carries_fractional_remainders() {
    let mut accumulator = HorizontalScrollAccumulator::default();

    assert_eq!(
        accumulator.scale(1, 8, 1, 25),
        HorizontalScrollMovement {
            high_resolution: 2,
            low_resolution: 0,
        }
    );
    assert_eq!(
        accumulator.scale(1, 3, 1, 50),
        HorizontalScrollMovement {
            high_resolution: 1,
            low_resolution: 0,
        }
    );
    assert_eq!(
        accumulator.scale(1, 3, 1, 50),
        HorizontalScrollMovement {
            high_resolution: 2,
            low_resolution: 0,
        }
    );
}

#[test]
fn emits_low_resolution_steps_after_120_high_resolution_units() {
    let mut accumulator = HorizontalScrollAccumulator::default();

    assert_eq!(
        accumulator.scale(15, 8, 1, 100),
        HorizontalScrollMovement {
            high_resolution: 120,
            low_resolution: 1,
        }
    );
    assert_eq!(
        accumulator.scale(15, 8, -1, 100),
        HorizontalScrollMovement {
            high_resolution: -120,
            low_resolution: -1,
        }
    );
}

#[test]
fn small_movements_add_up_without_loss() {
    let mut accumulator = HorizontalScrollAccumulator::default();
    let mut high: i32 = 0;
    let mut low: i32 = 0;
    for _ in 0..90 {
        let movement = accumulator.scale(1, 3, 1, 50);
        high += movement.high_resolution;
        low += movement.low_resolution;
    }
    assert_eq!(high, 135);
    assert_eq!(low, 1);
    assert_eq!(accumulator.scale_remainder, 0);
    assert_eq!(accumulator.low_resolution_remainder, 15);
}

#[test]
fn extreme_movements_do_not_overflow() {
    let mut accumulator = HorizontalScrollAccumulator::default();
    let movement = accumulator.scale(i16::MIN, 1, i8::MIN, u16::MAX);
    assert!(movement.high_resolution > 0);
    let none = accumulator.scale(0, 0, 0, 0);
    assert_eq!(none.high_resolution, 0);
}

#[derive(Default)]
struct RecordingExecutor {
    commands: Vec<RuntimeCommand>,
    fail_next: bool,
}

impl RuntimeActionExecutor for RecordingExecutor {
    fn execute_command(&mut self, command: &RuntimeCommand) -> Result<(), DogiError> {
        self.commands.push(command.clone());
        if self.fail_next {
            self.fail_next = false;
            Err(DogiError::Transport("synthetic failure".to_owned()))
        } else {
            Ok(())
        }
    }
}

#[test]
fn executes_supported_actions_and_reports_status() {
    let actions = vec![
        ResolvedRuntimeAction {
            source: RuntimeActionSource::ThumbWheel,
            command: RuntimeCommand::KeyChord(vec![RuntimeKey::Control, RuntimeKey::Equal]),
        },
        ResolvedRuntimeAction {
            source: RuntimeActionSource::Button(Master3sButton::Middle),
            command: RuntimeCommand::MouseButton(RuntimeMouseButton::Middle),
        },
    ];
    let mut executor = RecordingExecutor::default();

    let executions = execute_runtime_actions_with(&actions, &mut executor);

    assert_eq!(executions.len(), 2);
    assert!(executions
        .iter()
        .all(|execution| execution.status == RuntimeActionExecutionStatus::Executed));
    assert_eq!(executor.commands.len(), 2);
}

fn inert_actions() -> Vec<ResolvedRuntimeAction> {
    vec![
        ResolvedRuntimeAction {
            source: RuntimeActionSource::Button(Master3sButton::Back),
            command: RuntimeCommand::Noop,
        },
        ResolvedRuntimeAction {
            source: RuntimeActionSource::UnknownControlId(0xbeef),
            command: RuntimeCommand::Unsupported,
        },
    ]
}

#[test]
fn commands_reach_the_executor_once_and_in_order() {
    let chord = RuntimeCommand::KeyChord(vec![RuntimeKey::Control, RuntimeKey::Equal]);
    let click = RuntimeCommand::MouseButton(RuntimeMouseButton::Middle);
    let mut actions = inert_actions();
    for command in [chord.clone(), click.clone()] {
        actions.insert(
            actions.len() - 1,
            ResolvedRuntimeAction {
                source: RuntimeActionSource::ThumbWheel,
                command,
            },
        );
    }
    let mut executor = RecordingExecutor {
        commands: Vec::new(),
        fail_next: true,
    };
    let executions = execute_runtime_actions_with(&actions, &mut executor);
    assert_eq!(executor.commands, [chord, click]);
    assert_eq!(
        executions
            .iter()
            .map(|execution| execution.status)
            .collect::<Vec<_>>(),
        [
            RuntimeActionExecutionStatus::Skipped,
            RuntimeActionExecutionStatus::Failed,
            RuntimeActionExecutionStatus::Executed,
            RuntimeActionExecutionStatus::Unsupported,
        ]
    );
}

#[test]
fn actions_end_with_the_session_that_they_were_resolved_under() {
    let local = SessionSnapshot::observed(GraphicalSessionMode::LocalActive);
    let mut observer = SessionObserver::new(local);
    let generation = observer.current.generation;
    let click = ResolvedRuntimeAction {
        source: RuntimeActionSource::ThumbWheel,
        command: RuntimeCommand::MouseButton(RuntimeMouseButton::Middle),
    };
    let actions = vec![click.clone(), click.clone(), click];
    let mut executor = RecordingExecutor::default();
    let mut run = GuardedActions::begin(actions, generation);
    assert!(run.wants_more());
    run.advance(&observer, &mut executor);
    assert_eq!(executor.commands.len(), 1);
    assert!(run.wants_more());
    observer.publish(SessionSnapshot::observed(GraphicalSessionMode::LocalLocked));
    run.advance(&observer, &mut executor);
    assert!(!run.wants_more());
    assert_eq!(executor.commands.len(), 1);
    assert_eq!(run.executions.len(), 1);
}

#[test]
fn skips_noop_and_unsupported_without_touching_executor() {
    let actions = inert_actions();
    let mut executor = RecordingExecutor::default();

    let executions = execute_runtime_actions_with(&actions, &mut executor);

    assert_eq!(
        executions
            .iter()
            .map(|execution| execution.status)
            .collect::<Vec<_>>(),
        vec![
            RuntimeActionExecutionStatus::Skipped,
            RuntimeActionExecutionStatus::Unsupported,
        ]
    );
    assert!(executor.commands.is_empty());
}

#[test]
fn reports_executor_failures_per_action() {
    let actions = vec![ResolvedRuntimeAction {
        source: RuntimeActionSource::ThumbWheel,
        command: RuntimeCommand::KeyChord(vec![RuntimeKey::VolumeUp]),
    }];
    let mut executor = RecordingExecutor {
        fail_next: true,
        ..RecordingExecutor::default()
    };

    let executions = execute_runtime_actions_with(&actions, &mut executor);

    assert_eq!(executions[0].status, RuntimeActionExecutionStatus::Failed);
    assert!(executions[0]
        .detail
        .as_ref()
        .is_some_and(|detail| detail.contains("synthetic failure")));
}

#[test]
fn a_failure_does_not_stop_the_actions_behind_it() {
    let actions = vec![
        ResolvedRuntimeAction {
            source: RuntimeActionSource::ThumbWheel,
            command: RuntimeCommand::KeyChord(vec![RuntimeKey::VolumeUp]),
        },
        ResolvedRuntimeAction {
            source: RuntimeActionSource::Button(Master3sButton::Back),
            command: RuntimeCommand::Noop,
        },
        ResolvedRuntimeAction {
            source: RuntimeActionSource::ThumbWheel,
            command: RuntimeCommand::KeyChord(vec![RuntimeKey::VolumeDown]),
        },
    ];
    let mut executor = RecordingExecutor {
        fail_next: true,
        ..RecordingExecutor::default()
    };

    let executions = execute_runtime_actions_with(&actions, &mut executor);

    assert_eq!(
        executions
            .iter()
            .map(|execution| execution.status)
            .collect::<Vec<_>>(),
        vec![
            RuntimeActionExecutionStatus::Failed,
            RuntimeActionExecutionStatus::Skipped,
            RuntimeActionExecutionStatus::Executed,
        ]
    );
    assert_eq!(
        executor.commands,
        vec![
            RuntimeCommand::KeyChord(vec![RuntimeKey::VolumeUp]),
            RuntimeCommand::KeyChord(vec![RuntimeKey::VolumeDown]),
        ]
    );
}

#[test]
fn system_execution_does_not_open_uinput_for_non_actionable_commands() {
    let actions = inert_actions();

    let executions = execute_runtime_actions(&actions).unwrap();

    assert_eq!(
        executions
            .iter()
            .map(|execution| execution.status)
            .collect::<Vec<_>>(),
        vec![
            RuntimeActionExecutionStatus::Skipped,
            RuntimeActionExecutionStatus::Unsupported,
        ]
    );
}

#[test]
fn an_actionable_command_needs_the_virtual_device() {
    let mut actions = inert_actions();
    actions.push(ResolvedRuntimeAction {
        source: RuntimeActionSource::ThumbWheel,
        command: RuntimeCommand::KeyChord(vec![RuntimeKey::C]),
    });
    assert!(execute_runtime_actions(&actions).is_none());
}

#[test]
fn outcomes_are_recorded_with_their_action() {
    let action = ResolvedRuntimeAction {
        source: RuntimeActionSource::ThumbWheel,
        command: RuntimeCommand::KeyChord(vec![RuntimeKey::V]),
    };
    let executed = record_execution(&action, Ok(()));
    assert_eq!(executed.status, RuntimeActionExecutionStatus::Executed);
    assert_eq!(executed.detail, None);
    assert_eq!(executed.action, action);
    let failed = record_execution(&action, Err(DogiError::Transport("gone".to_owned())));
    assert_eq!(failed.status, RuntimeActionExecutionStatus::Failed);
    let skipped = skip_action(&inert_actions()[0]);
    assert_eq!(skipped.status, RuntimeActionExecutionStatus::Skipped);
}

#[test]
fn a_key_chord_is_released_in_reverse_order() {
    let events = key_chord(&vec![RuntimeKey::Control, RuntimeKey::C]);
    let control = linux_key_code(RuntimeKey::Control);
    let c = linux_key_code(RuntimeKey::C);
    let keys: Vec<(u16, i32)> = events
        .iter()
        .filter(|event| event.kind == EV_KEY)
        .map(|event| (event.code, event.value))
        .collect();
    assert_eq!(keys, vec![(control, 1), (c, 1), (c, 0), (control, 0)]);
    assert_eq!(
        *events.last().unwrap(),
        InputEvent {
            kind: EV_SYN,
            code: SYN_REPORT,
            value: 0,
        }
    );
}

#[test]
fn horizontal_scrolling_is_sent_in_both_resolutions() {
    let mut input = VirtualInput::new();
    let events = input.execute_command(&RuntimeCommand::HorizontalScroll {
        delta: 15,
        resolution: 8,
        direction: 1,
        speed_percent: 100,
    });
    let moves: Vec<(u16, i32)> = events
        .iter()
        .filter(|event| event.kind == EV_REL)
        .map(|event| (event.code, event.value))
        .collect();
    assert_eq!(moves, vec![(REL_HWHEEL, 1), (REL_HWHEEL_HI_RES, 120)]);
}

#[test]
fn the_virtual_device_is_set_up_for_its_keys_and_wheels() {
    let steps = setup_steps();
    assert_eq!(
        steps[0],
        SetupStep::Request {
            number: UI_SET_EVBIT,
            value: EV_KEY,
        }
    );
    for code in supported_key_codes() {
        assert!(steps.contains(&SetupStep::Request {
            number: UI_SET_KEYBIT,
            value: code,
        }));
    }
    assert!(steps.contains(&SetupStep::Request {
        number: UI_SET_RELBIT,
        value: REL_HWHEEL_HI_RES,
    }));
    assert_eq!(*steps.last().unwrap(), SetupStep::Create);
    assert_eq!(
        steps[steps.len() - 2],
        SetupStep::Describe {
            bus: 3,
            vendor: 0x046d,
            product: 0xd061,
            version: 1,
        }
    );
}

fn pointer_feature(id: u16) -> HidppFeatureInfo {
    HidppFeatureInfo {
        index: 13,
        feature_id: id,
        name: "test".to_owned(),
        flags: 0,
        version: 2,
    }
}

/// A device that answers as a function says.
struct Answering<F: FnMut(u8, u8, &[u8]) -> Result<Vec<u8>, DogiError>>(F);

impl<F: FnMut(u8, u8, &[u8]) -> Result<Vec<u8>, DogiError>> DeviceReader for Answering<F> {
    fn read(&mut self, index: u8, function: u8, payload: &[u8]) -> Result<Vec<u8>, DogiError> {
        (self.0)(index, function, payload)
    }
}

fn list(values: &[u16]) -> Vec<u8> {
    std::iter::once(0)
        .chain(values.iter().flat_map(|value| value.to_be_bytes()))
        .chain([0, 0])
        .collect()
}

fn dpi_change(percent: u8, current: u16, default: u16) -> Result<PreparedHidChange, DogiError> {
    prepare(
        &[pointer_feature(ADJUSTABLE_DPI)],
        percent,
        &mut Answering(|index: u8, function: u8, payload: &[u8]| {
            assert_eq!(index, 13);
            match function {
                0x00 => {
                    assert!(payload.is_empty());
                    Ok(vec![1])
                }
                0x10 => {
                    assert_eq!(payload, [0]);
                    Ok(list(&[200, 0xe032, 8000]))
                }
                0x20 => {
                    assert_eq!(payload, [0]);
                    Ok([
                        vec![0],
                        current.to_be_bytes().to_vec(),
                        default.to_be_bytes().to_vec(),
                    ]
                    .concat())
                }
                _ => panic!("preparation must not write"),
            }
        }),
    )
}

#[test]
fn master3s_uses_dpi_without_requiring_pointer_speed() {
    let change = dpi_change(125, 800, 1000).unwrap();
    assert_eq!(change.feature_id, ADJUSTABLE_DPI);
    assert_eq!(change.read_function, 0x20);
    assert_eq!(change.write_function, 0x30);
    assert_eq!(change.before_write, [0, 3, 32]);
    assert_eq!(change.after_write, [0, 4, 226]);
    assert_eq!(
        change.before_value,
        DeviceSettingValue::PointerDpi { dpi: 800 }
    );
    assert_eq!(
        change.after_value,
        DeviceSettingValue::PointerDpi { dpi: 1250 }
    );
    assert_eq!(change.verification[1].response_index, 1);
    assert_eq!(change.verification[2].before, 32);
}

#[test]
fn percentage_uses_default_dpi_not_the_last_applied_value() {
    let first = dpi_change(150, 1000, 1000).unwrap();
    let repeated = dpi_change(150, 1500, 1000).unwrap();
    assert_eq!(first.after_write, repeated.after_write);
    assert_eq!(repeated.before_write, repeated.after_write);
    assert_eq!(
        dpi_change(100, 1500, 1000).unwrap().after_value,
        DeviceSettingValue::PointerDpi { dpi: 1000 }
    );
}

#[test]
fn dpi_values_are_rounded_to_supported_steps_and_bounded() {
    assert_eq!(
        dpi_change(123, 1000, 1000).unwrap().after_value,
        DeviceSettingValue::PointerDpi { dpi: 1250 }
    );
    assert_eq!(
        dpi_change(200, 8000, 8000).unwrap().after_value,
        DeviceSettingValue::PointerDpi { dpi: 8000 }
    );
}

#[test]
fn missing_default_is_unsupported_instead_of_compounding_current_dpi() {
    assert!(matches!(
        dpi_change(120, 1000, 0),
        Err(DogiError::UnsupportedFeature(_))
    ));
}

#[test]
fn unsupported_pointer_capability_never_sends_a_request() {
    assert!(matches!(
        prepare(
            &[],
            100,
            &mut Answering(|_: u8, _: u8, _: &[u8]| panic!("unexpected I/O"))
        ),
        Err(DogiError::UnsupportedFeature(_))
    ));
}

#[test]
fn transport_failures_are_not_reported_as_missing_capabilities() {
    assert!(matches!(
        prepare(
            &[pointer_feature(ADJUSTABLE_DPI)],
            100,
            &mut Answering(|_: u8, _: u8, _: &[u8]| {
                Err(DogiError::Transport("timed out".to_owned()))
            })
        ),
        Err(DogiError::Transport(_))
    ));
    assert!(matches!(
        prepare(
            &[pointer_feature(ADJUSTABLE_DPI)],
            100,
            &mut Answering(|_: u8, _: u8, _: &[u8]| Ok(vec![]))
        ),
        Err(DogiError::Protocol(_))
    ));
}

#[test]
fn preserves_multiplier_support_for_other_device_firmware() {
    let change = prepare(
        &[pointer_feature(POINTER_SPEED)],
        200,
        &mut Answering(|_: u8, function: u8, payload: &[u8]| {
            assert_eq!(function, 0);
            assert!(payload.is_empty());
            Ok(vec![1, 0])
        }),
    )
    .unwrap();
    assert_eq!(change.feature_id, POINTER_SPEED);
    assert_eq!(change.after_write, [1, 255]);
}

type Asked = Vec<(u8, u8, Vec<u8>)>;

/// What a device is asked that gives these answers and then fails.
fn questions(
    features: &[HidppFeatureInfo],
    answers: &[Vec<u8>],
) -> (Asked, Result<PreparedHidChange, DogiError>) {
    let mut asked: Asked = Vec::new();
    let result = prepare(
        features,
        100,
        &mut Answering(|index: u8, function: u8, payload: &[u8]| {
            asked.push((index, function, payload.to_vec()));
            match answers.get(asked.len() - 1) {
                Some(answer) => Ok(answer.clone()),
                None => Err(DogiError::Transport("timed out".to_owned())),
            }
        }),
    );
    (asked, result)
}

#[test]
fn a_device_is_asked_in_order_and_only_while_it_answers() {
    let count = (13, 0x00, vec![]);
    let offered = (13, 0x10, vec![0]);
    let current = (13, 0x20, vec![0]);
    let features = [pointer_feature(ADJUSTABLE_DPI)];
    let answers = [vec![1], list(&[400, 800]), vec![0, 1, 144, 1, 144]];

    let (asked, result) = questions(&features, &answers);
    assert_eq!(asked, [count.clone(), offered.clone(), current.clone()]);
    assert_eq!(result.unwrap().after_write, [0, 1, 144]);

    for answered in 0..3 {
        let (asked, result) = questions(&features, &answers[..answered]);
        let expected = [count.clone(), offered.clone(), current.clone()];
        assert_eq!(asked, expected[..=answered]);
        assert_eq!(result, Err(DogiError::Transport("timed out".to_owned())));
    }

    let (asked, result) = questions(&features, &[vec![2]]);
    assert_eq!(asked, [count.clone()]);
    assert!(matches!(result, Err(DogiError::UnsupportedFeature(_))));
    let (asked, result) = questions(&features, &[vec![1], list(&[])]);
    assert_eq!(asked, [count, offered]);
    assert!(matches!(result, Err(DogiError::Protocol(_))));
}

#[test]
fn a_device_is_asked_for_its_multiplier_once() {
    let features = [pointer_feature(ADJUSTABLE_DPI), pointer_feature(POINTER_SPEED)];
    let (asked, result) = questions(&features, &[vec![1, 0]]);
    assert_eq!(asked, [(13, 0x00, vec![])]);
    assert_eq!(result.unwrap().feature_id, POINTER_SPEED);
    let (asked, result) = questions(&features, &[]);
    assert_eq!(asked, [(13, 0x00, vec![])]);
    assert!(matches!(result, Err(DogiError::Transport(_))));
}

#[test]
fn parses_discrete_and_range_dpi_without_accepting_malformed_lists() {
    assert_eq!(
        supported_dpi(&list(&[400, 800, 1600])).unwrap(),
        [400, 800, 1600]
    );
    assert_eq!(
        supported_dpi(&list(&[400, 0xe064, 700])).unwrap(),
        [400, 500, 600, 700]
    );
    for reply in [
        vec![],
        vec![1, 0, 0],
        vec![0, 1, 144],
        list(&[]),
        list(&[800, 400]),
        list(&[400, 0xe000, 800]),
        list(&[400, 0xe064, 450]),
        list(&[400, 0xe001]),
    ] {
        assert!(supported_dpi(&reply).is_err(), "{reply:?}");
    }
}

#[test]
fn parses_thumb_wheel_notification() {
    let features = vec![feature(16, HIDPP_FEATURE_THUMB_WHEEL)];
    let report = [HIDPP_SHORT_REPORT_ID, 1, 16, 0x00, 0xff, 0xec, 0, 0, 1];

    assert_eq!(
        parse_notification(&report, &features),
        Some(Master3sRuntimeEvent::ThumbWheel {
            delta: -20,
            phase: Some(1),
            resolution: 1,
            direction: 1,
        })
    );
}

#[test]
fn parses_diverted_button_notification() {
    let features = vec![feature(9, HIDPP_FEATURE_REPROG_CONTROLS_V4)];
    let report = [
        HIDPP_LONG_REPORT_ID,
        1,
        9,
        0x00,
        0x00,
        0x53,
        0x00,
        0xc3,
        0xbe,
        0xef,
        0,
        0,
    ];

    assert_eq!(
        parse_notification(&report, &features),
        Some(Master3sRuntimeEvent::DivertedButtons {
            buttons: vec![Master3sButton::Back, Master3sButton::Gesture],
            unknown_control_ids: vec![0xbeef],
        })
    );
}

#[test]
fn parses_raw_movement_notification() {
    let features = vec![feature(9, HIDPP_FEATURE_REPROG_CONTROLS_V4)];
    let report = [HIDPP_LONG_REPORT_ID, 1, 9, 0x10, 0xff, 0xec, 0x00, 0x19];

    assert_eq!(
        parse_notification(&report, &features),
        Some(Master3sRuntimeEvent::RawMovement { x: -20, y: 25 })
    );
}

#[test]
fn ignores_request_replies_and_unknown_features() {
    let features = vec![feature(16, HIDPP_FEATURE_THUMB_WHEEL)];
    let reply = [HIDPP_SHORT_REPORT_ID, 1, 16, 0x08, 0, 0];
    let unknown_feature = [HIDPP_SHORT_REPORT_ID, 1, 17, 0x00, 0, 0];

    assert_eq!(parse_notification(&reply, &features), None);
    assert_eq!(parse_notification(&unknown_feature, &features), None);
}

#[test]
fn short_reports_hold_no_event() {
    let features = vec![feature(9, HIDPP_FEATURE_REPROG_CONTROLS_V4)];
    assert_eq!(parse_notification(&[], &features), None);
    assert_eq!(
        parse_notification(&[HIDPP_LONG_REPORT_ID, 1, 9, 0x10, 0xff, 0xec, 0x00], &features),
        None
    );
    assert_eq!(
        parse_notification(&[0x02, 1, 9, 0x10, 0xff, 0xec, 0x00, 0x19], &features),
        None
    );
}

fn feature(index: u8, feature_id: u16) -> HidppFeatureInfo {
    HidppFeatureInfo {
        index,
        feature_id,
        name: format!("FEATURE_{feature_id:04X}"),
        flags: 0,
        version: 1,
    }
}
