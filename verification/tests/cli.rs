use dogi::actions::{RuntimeActionExecution, RuntimeActionExecutionStatus};
use dogi::battery::BatteryInfo;
use dogi::config_edit::{
    apply_config_set_args, parse_button_mapping, parse_gesture_mapping, remove_app_profile,
    upsert_app_profile, ConfigAppProfileSetArgs, ConfigSetArgs,
};
use dogi::control::HorizontalScrollPreview;
use dogi::device::DeviceService;
use dogi::device_info::{
    display_device_name, select_runtime_device_id, BusKind, CapabilityState, ConnectionKind,
    DeviceAccess, DeviceCapabilities, DeviceInfo, HidUsage, PairedDeviceInfo, ReceiverKind,
    ReportDescriptorInfo, LOGITECH_VENDOR_ID,
};
use dogi::doctor::{
    doctor_report_from_devices, doctor_report_from_devices_with_environment, doctor_text,
    InstallationFacts, RuntimeEnvironmentStatus, SystemdUserServiceStatus, LINUX_UDEV_RULE,
};
use dogi::error::DogiError;
use dogi::foreground::{plan_transition, ForegroundSession, ReconnectLog, ReconnectNotice, Reload};
use dogi::lease::{runtime_device_settings, PREVIEW_DIVERSION_SPEED_PERCENT};
use dogi::plan::{
    HidppFeature, SettingsApplyOutcome, SettingsApplyReport, SettingsApplyStatus,
    SettingsTransactionState,
};
use dogi::profile_report::{
    app_profiles_report, apply_plan_report, apply_report, config_report, profile_change_report,
    runtime_plan_report, ConfigReport,
};
use dogi::report::device_report;
use dogi::runtime_plan::{
    Master3sRuntimeEvent, ResolvedRuntimeAction, RuntimeActionSource, RuntimeCommand, RuntimeKey,
};
use dogi::settings::{
    Action, AppProfile, AppProfileOverrides, ApplicationMatchField, ApplicationMatcher,
    ButtonAction, GestureDirection, Master3sButton, Master3sSettings, ThumbWheelMode,
};
use dogi::store::StoredMaster3sSettings;
use dogi::supervisor::{RuntimeEffectiveState, RuntimeSupervisorOptions};
use dogi::terminal::{
    cuts_cleanly, device_fits_table, device_table, format_resolved_runtime_action,
    format_runtime_action_execution, format_runtime_event, listen_report, loop_event_report,
    truncate, RuntimeListenReport,
};

fn app_profile_args(app: &str) -> ConfigAppProfileSetArgs {
    ConfigAppProfileSetArgs {
        app: app.to_owned(),
        match_field: ApplicationMatchField::Any,
        pointer_speed: None,
        wheel_mode: None,
        smart_shift_threshold: None,
        smooth_scrolling: false,
        no_smooth_scrolling: false,
        natural_scrolling: false,
        standard_scrolling: false,
        thumb_wheel: None,
        thumb_wheel_speed: None,
        button_mappings: Vec::new(),
        gesture_mappings: Vec::new(),
    }
}

fn test_app_profile(name: &str) -> AppProfile {
    AppProfile {
        name: name.to_owned(),
        matcher: ApplicationMatcher {
            field: ApplicationMatchField::Any,
            value: name.to_owned(),
        },
        overrides: AppProfileOverrides {
            pointer_speed_percent: Some(80),
            thumb_wheel: Some(ThumbWheelMode::Zoom),
            ..AppProfileOverrides::default()
        },
    }
}

fn make_runtime_device(id: &str, hidpp: bool, paired: bool) -> DeviceInfo {
    DeviceInfo {
        id: id.to_owned(),
        name: "Logitech USB Receiver".to_owned(),
        paired_device: paired.then(|| PairedDeviceInfo {
            slot: 1,
            name: Some("MX Master 3S".to_owned()),
            kind: Some("mouse".to_owned()),
            wpid: None,
            protocol: None,
            unit_id: None,
            model_id: None,
            feature_count: 0,
            features_complete: true,
            features: Vec::new(),
        }),
        manufacturer: Some("Logitech".to_owned()),
        serial_number: None,
        bus: BusKind::Usb,
        bus_id: Some(0x0003),
        vendor_id: LOGITECH_VENDOR_ID,
        product_id: 0xc548,
        release_number: None,
        connection: ConnectionKind::Bolt,
        receiver_kind: Some(ReceiverKind::Bolt),
        path: format!("/dev/{id}"),
        sysfs_path: format!("/sys/class/hidraw/{id}"),
        physical_path: None,
        driver: Some("hid-generic".to_owned()),
        interface_number: None,
        usage_page: None,
        usage: None,
        access: DeviceAccess::default(),
        battery: BatteryInfo::not_queried("test"),
        report_descriptor: ReportDescriptorInfo {
            hidpp_usage: hidpp.then_some(HidUsage {
                usage_page: 0xff00,
                usage: 0x0001,
            }),
            ..ReportDescriptorInfo::default()
        },
        capabilities: DeviceCapabilities {
            hidpp: if hidpp {
                CapabilityState::Supported
            } else {
                CapabilityState::Unknown
            },
            ..DeviceCapabilities::default()
        },
    }
}

#[test]
fn truncate_keeps_short_values() {
    assert_eq!(truncate("dogi", 12), "dogi");
}

#[test]
fn truncate_marks_long_values() {
    assert_eq!(truncate("0123456789", 5), "0123~");
}

#[test]
fn truncate_counts_bytes_before_the_mark() {
    assert_eq!(truncate("0123456789", 1), "0");
    assert_eq!(truncate("0123456789", 0), "");
    assert!(cuts_cleanly("αβγδε", 3));
    assert_eq!(truncate("αβγδε", 3), "α~");
    assert!(!cuts_cleanly("αβγδε", 4));
    assert!(cuts_cleanly("αβγδε", 5));
}

#[test]
fn runtime_effective_state_adopts_initial_and_changed_settings() {
    let base = Master3sSettings::default();
    let mut state = RuntimeEffectiveState::default();

    assert!(state.needs_update(&None, &base, false));

    state.update(None, &base, false);

    assert!(!state.needs_update(&None, &base, false));
    assert!(state.needs_update(&None, &base, true));
    assert!(state.needs_update(&Some("Firefox".to_owned()), &base, false));

    let faster = Master3sSettings {
        pointer_speed_percent: 135,
        ..Master3sSettings::default()
    };

    assert!(state.needs_update(&None, &faster, false));
    assert!(state.settings_changed(&faster));

    state.update(Some("Firefox".to_owned()), &faster, false);

    assert!(!state.needs_update(&Some("Firefox".to_owned()), &faster, false));

    let edited_profile = Master3sSettings {
        pointer_speed_percent: 145,
        ..Master3sSettings::default()
    };
    assert!(state.needs_update(&Some("Firefox".to_owned()), &edited_profile, false));

    assert!(state.needs_update(&Some("Code".to_owned()), &faster, false));
}

#[test]
fn runtime_preview_only_forces_thumb_wheel_diversion() {
    let base = Master3sSettings {
        pointer_speed_percent: 135,
        thumb_wheel: ThumbWheelMode::Zoom,
        thumb_wheel_speed_percent: 250,
        ..Master3sSettings::default()
    };
    let preview = HorizontalScrollPreview {
        lease_id: "lease".to_owned(),
        device_id: "device".to_owned(),
        speed_percent: 175,
    };

    let target = runtime_device_settings(&base, Some(&preview));

    assert_eq!(target.pointer_speed_percent, 135);
    assert_eq!(target.thumb_wheel, ThumbWheelMode::HorizontalScroll);
    assert_eq!(target.thumb_wheel_speed_percent, PREVIEW_DIVERSION_SPEED_PERCENT);
    assert_eq!(runtime_device_settings(&base, None), base.normalized());
}

#[test]
fn runtime_preview_transition_always_writes_thumb_wheel_routing() {
    let settings = Master3sSettings {
        thumb_wheel: ThumbWheelMode::HorizontalScroll,
        thumb_wheel_speed_percent: PREVIEW_DIVERSION_SPEED_PERCENT,
        ..Master3sSettings::default()
    };

    let ordinary = plan_transition("device", Some(&settings), &settings, false);
    let preview = plan_transition("device", Some(&settings), &settings, true);

    assert!(ordinary.steps.is_empty());
    assert_eq!(preview.steps.len(), 1);
    assert_eq!(preview.steps[0].feature, HidppFeature::ThumbWheel);
}

#[test]
fn runtime_startup_never_reconciles_saved_defaults_to_the_mouse() {
    let settings = Master3sSettings::default();

    let plan = plan_transition("device", None, &settings, false);

    assert!(plan.steps.is_empty());
}

#[test]
fn runtime_reconnect_during_preview_writes_only_thumb_wheel_routing() {
    let settings = Master3sSettings {
        pointer_speed_percent: 175,
        high_resolution_scroll: true,
        natural_scroll: true,
        thumb_wheel: ThumbWheelMode::HorizontalScroll,
        thumb_wheel_speed_percent: PREVIEW_DIVERSION_SPEED_PERCENT,
        ..Master3sSettings::default()
    };

    let plan = plan_transition("device", None, &settings, true);

    assert_eq!(plan.steps.len(), 1);
    assert_eq!(plan.steps[0].feature, HidppFeature::ThumbWheel);
}

#[test]
fn runtime_reload_updates_base_settings_from_saved_config() {
    let daemon = DeviceService::with_config_path("/tmp/runtime-reload.json");
    let options = RuntimeSupervisorOptions {
        device_id: None,
        max_events: None,
        idle_timeout_ms: 1000,
        execute_actions: false,
        allow_device_write: false,
    };
    let mut session = ForegroundSession::new(&options, "device-a", Master3sSettings::default());
    session.settings_warned = true;
    let saved = Master3sSettings {
        pointer_speed_percent: 135,
        ..Master3sSettings::default()
    };

    let (store, _) = daemon
        .save_master3s_settings_for_device(StoredMaster3sSettings::default(), "device-a", &saved)
        .unwrap();

    let loaded = daemon.load_master3s_settings_for_device(&store, "device-a");
    assert!(matches!(
        session.reload_base_settings(Ok(loaded)),
        Reload::Changed
    ));
    assert_eq!(session.base_settings.pointer_speed_percent, 135);
    assert!(!session.settings_warned);
    let loaded = daemon.load_master3s_settings_for_device(&store, "device-a");
    assert!(matches!(
        session.reload_base_settings(Ok(loaded)),
        Reload::Unchanged
    ));
    assert!(matches!(
        session.reload_base_settings(Err(DogiError::Config("broken".to_owned()))),
        Reload::Warn
    ));
    assert!(matches!(
        session.reload_base_settings(Err(DogiError::Config("broken".to_owned()))),
        Reload::Silent
    ));
}

#[test]
fn udev_rules_cover_hidraw_and_uinput() {
    assert!(LINUX_UDEV_RULE.contains("hidraw"));
    assert!(LINUX_UDEV_RULE.contains("ATTRS{idVendor}==\"046d\""));
    assert!(LINUX_UDEV_RULE.contains("uinput"));
    assert!(LINUX_UDEV_RULE.contains("static_node=uinput"));
    assert!(LINUX_UDEV_RULE.matches("TAG+=\"uaccess\"").count() >= 2);
}

#[test]
fn auto_selects_single_runtime_device() {
    let devices = vec![
        make_runtime_device("hidraw0", false, false),
        make_runtime_device("hidraw1", true, true),
    ];

    assert_eq!(select_runtime_device_id(&devices).unwrap(), "hidraw1");
}

#[test]
fn auto_select_requires_explicit_id_for_multiple_runtime_devices() {
    let devices = vec![
        make_runtime_device("hidraw1", true, true),
        make_runtime_device("hidraw2", true, true),
    ];

    let error = select_runtime_device_id(&devices).unwrap_err().message();

    assert!(error.contains("multiple paired HID++ Logitech devices"));
    assert!(error.contains("hidraw1"));
    assert!(error.contains("hidraw2"));
}

#[test]
fn no_runtime_device_is_not_found() {
    assert_eq!(
        select_runtime_device_id(&[]).unwrap_err(),
        DogiError::DeviceNotFound
    );
}

#[test]
fn doctor_report_includes_logitech_runtime_diagnostics() {
    let report = doctor_report_from_devices_with_environment(
        &Vec::new(),
        RuntimeEnvironmentStatus {
            available: true,
            detail: "uinput ok".to_owned(),
        },
        RuntimeEnvironmentStatus {
            available: false,
            detail: "xprop missing".to_owned(),
        },
        SystemdUserServiceStatus {
            path: Some("/home/test/.config/systemd/user/dogi-runtime.service".to_owned()),
            installed: false,
        },
    );

    assert_eq!(
        report.linux_udev_rule_path,
        Some("/etc/udev/rules.d/70-dogi-logitech.rules")
    );
    assert!(report.linux_udev_rule.is_some_and(|rule| rule.contains("hidraw")
        && rule.contains("046d")
        && rule.contains("uinput")));
    assert!(report
        .linux_udev_reload_hint
        .is_some_and(|hint| hint.contains("udevadm")));
    assert_eq!(report.runtime_uinput_path, Some("/dev/uinput"));
    assert!(report.runtime_uinput_writable);
    assert_eq!(report.runtime_uinput_detail, "uinput ok");
    assert_eq!(report.active_window_backend, Some("xprop"));
    assert!(!report.active_window_available);
    assert_eq!(report.active_window_detail, "xprop missing");
    assert_eq!(
        report.systemd_user_service_path.as_deref(),
        Some("/home/test/.config/systemd/user/dogi-runtime.service")
    );
    assert!(!report.systemd_user_service_installed);
}

#[test]
fn doctor_text_counts_devices_and_names_the_installation() {
    let mut readable = make_runtime_device("hidraw1", true, true);
    readable.access.hidraw_readable = true;
    let mut foreign = make_runtime_device("hidraw2", false, false);
    foreign.vendor_id = 0x1234;
    let report = doctor_report_from_devices(
        doctor_report_from_devices_with_environment(
            &vec![readable, foreign],
            RuntimeEnvironmentStatus {
                available: false,
                detail: "no uinput".to_owned(),
            },
            RuntimeEnvironmentStatus {
                available: true,
                detail: "xprop is available".to_owned(),
            },
            SystemdUserServiceStatus {
                path: None,
                installed: false,
            },
        ),
        InstallationFacts {
            build_channel: "stable".to_owned(),
            distribution: "debian".to_owned(),
            runtime_integration: "debian-systemd".to_owned(),
            config_directory: "/home/a/.config/dogi".to_owned(),
            cache_directory: "/home/a/.cache/dogi".to_owned(),
            runtime_directory: "/run/user/1000/dogi".to_owned(),
            updates_supported: true,
        },
    );
    let lines = doctor_text(&report);
    assert_eq!(lines[0], "dogi doctor");
    assert_eq!(lines[1], "  Build channel: stable");
    assert_eq!(lines[7], "  Automatic updates: enabled");
    assert!(lines.contains(&"  HID devices: 2".to_owned()));
    assert!(lines.contains(&"  Logitech devices: 1".to_owned()));
    assert!(lines.contains(&"  HID++ interfaces: 1".to_owned()));
    assert!(lines.contains(&"  Readable hidraw nodes: 1".to_owned()));
    assert!(lines.contains(&"  Read/write hidraw nodes: 0".to_owned()));
    assert!(lines.contains(&"  uinput: not writable (/dev/uinput)".to_owned()));
    assert!(lines.contains(&"  active-window backend: xprop (available)".to_owned()));
    assert!(!lines.iter().any(|line| line.contains("systemd user service")));
}

#[test]
fn config_report_includes_runtime_plan() {
    let settings = Master3sSettings {
        thumb_wheel: ThumbWheelMode::Zoom,
        ..Master3sSettings::default()
    };
    let report = ConfigReport::new("/tmp/dogi.json".to_owned(), &settings);

    assert!(report.runtime_plan.requires_listener());
    assert!(report.runtime_plan.summary().contains("thumb wheel zoom"));
}

#[test]
fn config_report_lists_the_profile_line_by_line() {
    let settings = Master3sSettings {
        thumb_wheel: ThumbWheelMode::Zoom,
        app_profiles: vec![test_app_profile("Firefox")],
        ..Master3sSettings::default()
    };
    let report = ConfigReport::new("/tmp/dogi.json".to_owned(), &settings);
    let lines = config_report(&report);
    assert_eq!(lines[0], "Master 3S profile");
    assert_eq!(lines[1], "  path: /tmp/dogi.json");
    assert!(lines.contains(&"  thumb wheel: zoom".to_owned()));
    assert!(lines.contains(&"  app profiles: 1".to_owned()));
    assert!(lines.contains(&"    Firefox: any Firefox · 2 override groups".to_owned()));
    assert!(lines.last().unwrap().starts_with("  local runtime: thumb wheel zoom"));
    assert_eq!(app_profiles_report(&Vec::new()), vec!["  app profiles: 0".to_owned()]);
    let plan_lines = runtime_plan_report(&report.runtime_plan);
    assert_eq!(plan_lines[0], "Master 3S local runtime");
    assert_eq!(plan_lines[2], "  required: true");
    assert_eq!(plan_lines[4], "  thumb wheel: zoom");
    assert_eq!(plan_lines.last().unwrap(), "  app profiles: 1");
}

#[test]
fn apply_reports_list_steps_and_outcomes() {
    let settings = Master3sSettings::default();
    let plan = dogi::plan::build_master3s_apply_plan("device-1", &settings);
    let lines = apply_plan_report(&plan);
    assert_eq!(lines[0], "Apply plan for device-1");
    assert_eq!(lines[2], "  requires device write: true");
    assert_eq!(lines.len(), 3 + plan.steps.len());
    let report = SettingsApplyReport {
        device_id: "device-1".to_owned(),
        profile_name: "Default".to_owned(),
        transaction: SettingsTransactionState::RolledBack,
        outcomes: vec![SettingsApplyOutcome {
            title: "pointer speed 100%".to_owned(),
            feature: HidppFeature::PointerSpeed,
            status: SettingsApplyStatus::RollbackFailed,
            detail: Some("timeout".to_owned()),
        }],
    };
    assert_eq!(
        apply_report(&report),
        vec![
            "Apply report for device-1".to_owned(),
            "  profile: Default".to_owned(),
            "  transaction: rolled back".to_owned(),
            "  - [rollback failed] pointer speed 100% (timeout)".to_owned(),
        ]
    );
}

#[test]
fn formats_runtime_events() {
    assert_eq!(
        format_runtime_event(&Master3sRuntimeEvent::ThumbWheel {
            delta: -12,
            phase: Some(1),
            resolution: 8,
            direction: -1,
        }),
        "thumb wheel delta -12, phase 1, resolution 8, direction -1"
    );
    assert_eq!(
        format_runtime_event(&Master3sRuntimeEvent::DivertedButtons {
            buttons: vec![Master3sButton::Back],
            unknown_control_ids: vec![0xbeef],
        }),
        "diverted buttons Back button; unknown 0xBEEF"
    );
}

#[test]
fn formats_the_other_runtime_events() {
    assert_eq!(
        format_runtime_event(&Master3sRuntimeEvent::RawMovement { x: 3, y: -4 }),
        "gesture movement x 3, y -4"
    );
    assert_eq!(
        format_runtime_event(&Master3sRuntimeEvent::DivertedButtons {
            buttons: Vec::new(),
            unknown_control_ids: Vec::new(),
        }),
        "diverted buttons none"
    );
    assert_eq!(
        format_runtime_event(&Master3sRuntimeEvent::DivertedButtons {
            buttons: Vec::new(),
            unknown_control_ids: vec![1, 2],
        }),
        "diverted buttons unknown 0x0001, 0x0002"
    );
}

#[test]
fn formats_runtime_actions() {
    assert_eq!(
        format_resolved_runtime_action(&ResolvedRuntimeAction {
            source: RuntimeActionSource::Button(Master3sButton::Back),
            command: RuntimeCommand::KeyChord(vec![RuntimeKey::Alt, RuntimeKey::Left]),
        }),
        "Back button -> Alt+Left"
    );
    assert_eq!(
        format_resolved_runtime_action(&ResolvedRuntimeAction {
            source: RuntimeActionSource::UnknownControlId(0xbeef),
            command: RuntimeCommand::Unsupported,
        }),
        "unknown control 0xBEEF -> unsupported"
    );
}

#[test]
fn formats_runtime_action_executions() {
    assert_eq!(
        format_runtime_action_execution(&RuntimeActionExecution {
            action: ResolvedRuntimeAction {
                source: RuntimeActionSource::ThumbWheel,
                command: RuntimeCommand::KeyChord(vec![RuntimeKey::Control, RuntimeKey::Equal]),
            },
            status: RuntimeActionExecutionStatus::Executed,
            detail: None,
        }),
        "thumb wheel -> Ctrl+= [executed]"
    );
    assert_eq!(
        format_runtime_action_execution(&RuntimeActionExecution {
            action: ResolvedRuntimeAction {
                source: RuntimeActionSource::UnknownControlId(0xbeef),
                command: RuntimeCommand::Unsupported,
            },
            status: RuntimeActionExecutionStatus::Unsupported,
            detail: Some("cannot execute this runtime command".to_owned()),
        }),
        "unknown control 0xBEEF -> unsupported [unsupported]: cannot execute this runtime command"
    );
}

#[test]
fn listen_and_loop_reports_list_events_and_actions() {
    let settings = Master3sSettings {
        thumb_wheel: ThumbWheelMode::Zoom,
        ..Master3sSettings::default()
    };
    let action = ResolvedRuntimeAction {
        source: RuntimeActionSource::Gesture {
            button: Master3sButton::Gesture,
            direction: GestureDirection::Left,
        },
        command: RuntimeCommand::Noop,
    };
    let report = RuntimeListenReport {
        device_id: "device".to_owned(),
        runtime_plan: dogi::runtime_plan::build_master3s_runtime_plan(&settings),
        events: vec![Master3sRuntimeEvent::RawMovement { x: 1, y: 2 }],
        actions: vec![action.clone()],
        executions: Vec::new(),
        execute_actions: true,
    };
    let lines = listen_report(&report);
    assert_eq!(lines[0], "Runtime listener for device");
    assert_eq!(lines[1], "  mode: execute local actions");
    assert_eq!(lines[3], "  events: 1");
    assert_eq!(lines[4], "  - gesture movement x 1, y 2");
    assert_eq!(lines[6], "  - Gesture button gesture left -> no action");
    assert_eq!(lines[7], "  executions: 0");
    let lines = loop_event_report(
        &Master3sRuntimeEvent::RawMovement { x: 1, y: 2 },
        &vec![action],
        &Vec::new(),
        true,
    );
    assert_eq!(
        lines,
        vec![
            "  event: gesture movement x 1, y 2".to_owned(),
            "    actions:".to_owned(),
            "      Gesture button gesture left -> no action".to_owned(),
            "    executions: none".to_owned(),
        ]
    );
}

#[test]
fn profile_changes_name_the_application() {
    let application = dogi::focus::ActiveApplication::new(
        Some("dogi - Mozilla Firefox".to_owned()),
        Some("firefox".to_owned()),
        None,
    );
    assert_eq!(
        profile_change_report(&Some(application), &Some("Firefox".to_owned())),
        vec![
            "  active app: dogi - Mozilla Firefox (firefox)".to_owned(),
            "  active profile: Firefox".to_owned(),
        ]
    );
    assert_eq!(
        profile_change_report(&None, &None),
        vec![
            "  active app: unknown application".to_owned(),
            "  active profile: default profile".to_owned(),
        ]
    );
}

#[test]
fn config_set_updates_button_mappings() {
    let args = ConfigSetArgs {
        profile_name: None,
        pointer_speed: None,
        smart_shift: false,
        no_smart_shift: false,
        smart_shift_threshold: None,
        wheel_mode: None,
        high_resolution_scroll: false,
        no_high_resolution_scroll: false,
        natural_scroll: false,
        no_natural_scroll: false,
        thumb_wheel: None,
        thumb_wheel_speed: None,
        button_mappings: vec![parse_button_mapping("gesture=copy").unwrap()],
    };
    let mut settings = Master3sSettings::default();

    apply_config_set_args(&mut settings, &args);

    assert_eq!(
        settings.button_action(Master3sButton::Gesture),
        ButtonAction::Action(Action::Copy)
    );
}

#[test]
fn app_profile_set_adds_new_profile_with_explicit_overrides() {
    let mut settings = Master3sSettings {
        app_profiles: Vec::new(),
        ..Master3sSettings::default()
    };
    let mut args = app_profile_args(" firefox ");
    args.pointer_speed = Some(100);
    args.thumb_wheel = Some(ThumbWheelMode::HorizontalScroll);

    upsert_app_profile(&mut settings, &args).unwrap();

    assert_eq!(settings.app_profiles.len(), 1);
    assert_eq!(settings.app_profiles[0].name, "firefox");
    assert_eq!(
        settings.app_profiles[0].overrides.pointer_speed_percent,
        Some(100)
    );
    assert_eq!(
        settings.app_profiles[0].overrides.thumb_wheel,
        Some(ThumbWheelMode::HorizontalScroll)
    );
}

#[test]
fn app_profile_set_replaces_existing_override_set() {
    let mut settings = Master3sSettings {
        app_profiles: vec![test_app_profile("Firefox")],
        ..Master3sSettings::default()
    };
    let mut args = app_profile_args("firefox");
    args.pointer_speed = Some(95);

    upsert_app_profile(&mut settings, &args).unwrap();

    assert_eq!(settings.app_profiles.len(), 1);
    assert_eq!(settings.app_profiles[0].name, "firefox");
    assert_eq!(
        settings.app_profiles[0].overrides.pointer_speed_percent,
        Some(95)
    );
    assert_eq!(settings.app_profiles[0].overrides.thumb_wheel, None);
}

#[test]
fn app_profile_gesture_mapping_enables_the_gesture_button() {
    let mut settings = Master3sSettings {
        app_profiles: Vec::new(),
        ..Master3sSettings::default()
    };
    let mut args = app_profile_args("Firefox");
    args.gesture_mappings
        .push(parse_gesture_mapping("left=copy").unwrap());

    upsert_app_profile(&mut settings, &args).unwrap();

    let overrides = &settings.app_profiles[0].overrides;
    assert_eq!(overrides.gestures.as_ref().unwrap().left, Action::Copy);
    assert!(overrides.buttons.iter().any(|binding| {
        binding.button == Master3sButton::Gesture && binding.action == ButtonAction::Gestures
    }));
}

#[test]
fn app_profile_set_rejects_an_empty_override_set() {
    let mut settings = Master3sSettings::default();

    let error = upsert_app_profile(&mut settings, &app_profile_args("Firefox")).unwrap_err();

    assert_eq!(
        error.message(),
        "invalid argument: app profile requires at least one override"
    );
}

#[test]
fn app_profile_set_rejects_conflicting_gesture_configuration() {
    let mut settings = Master3sSettings::default();
    let mut args = app_profile_args("Firefox");
    args.button_mappings
        .push(parse_button_mapping("gesture=copy").unwrap());
    args.gesture_mappings
        .push(parse_gesture_mapping("left=paste").unwrap());

    let error = upsert_app_profile(&mut settings, &args).unwrap_err();

    assert_eq!(
        error.message(),
        "invalid argument: gesture mappings require --button gesture=gestures"
    );
}

#[test]
fn app_profile_remove_deletes_by_normalized_name() {
    let mut settings = Master3sSettings {
        app_profiles: vec![test_app_profile("Visual Studio Code")],
        ..Master3sSettings::default()
    };

    remove_app_profile(&mut settings, "visual-studio-code").unwrap();

    assert!(settings.app_profiles.is_empty());
}

#[test]
fn app_profile_remove_reports_missing_profile() {
    let mut settings = Master3sSettings {
        app_profiles: Vec::new(),
        ..Master3sSettings::default()
    };

    let error = remove_app_profile(&mut settings, "firefox")
        .unwrap_err()
        .message();

    assert!(error.contains("app profile not found"));
}

#[test]
fn rejects_invalid_button_mapping() {
    assert!(parse_button_mapping("gesture").is_err());
    assert!(parse_button_mapping("gesture=launchpad").is_err());
}

#[test]
fn mappings_say_what_they_do_not_know() {
    assert_eq!(
        parse_button_mapping("gesture=launchpad").unwrap_err(),
        "unknown action 'launchpad'"
    );
    assert_eq!(
        parse_button_mapping("wheel=copy").unwrap_err(),
        "unknown Master 3S button 'wheel'"
    );
    assert_eq!(
        parse_gesture_mapping("round=copy").unwrap_err(),
        "unknown gesture direction 'round'"
    );
    assert_eq!(
        parse_button_mapping("Mode-Shift=Desktop Left").unwrap().action,
        ButtonAction::Action(Action::PreviousWorkspace)
    );
}

#[test]
fn display_device_name_uses_known_model_id_when_hidpp_name_is_missing() {
    let mut device = make_runtime_device("hidraw0", true, true);
    let paired = device.paired_device.as_mut().unwrap();
    paired.name = None;
    paired.model_id = Some("B03400000000".to_owned());

    assert_eq!(display_device_name(&device), "MX Master 3S");
}

#[test]
fn display_device_name_uses_receiver_wpid_when_feature_name_is_missing() {
    let mut device = make_runtime_device("hidraw0", true, true);
    let paired = device.paired_device.as_mut().unwrap();
    paired.name = None;
    paired.model_id = None;
    paired.wpid = Some("B034".to_owned());

    assert_eq!(display_device_name(&device), "MX Master 3S");
}

#[test]
fn display_device_name_does_not_map_receiver_product_id_to_mouse() {
    let device = make_runtime_device("hidraw0", true, false);

    assert_eq!(display_device_name(&device), "Logitech USB Receiver");
}

#[test]
fn device_table_pads_its_columns() {
    let device = make_runtime_device("hidraw1", true, true);
    assert!(device_fits_table(&device));
    let lines = device_table(&vec![device], false);
    assert_eq!(lines.len(), 2);
    assert_eq!(
        lines[0],
        format!(
            "{:<27}  {:<28}  {:<9}  {:<11}  {:<7}  PATH",
            "ID", "NAME", "VID:PID", "CONNECTION", "HID++"
        )
    );
    assert!(lines[1].starts_with(&format!("{:<27}  {:<28}  046d:c548", "hidraw1", "MX Master 3S")));
    assert!(lines[1].ends_with("  /dev/hidraw1"));
    assert_eq!(
        device_table(&Vec::new(), true),
        vec!["no HID devices found".to_owned()]
    );
    assert_eq!(
        device_table(&Vec::new(), false),
        vec!["no Logitech HID devices found".to_owned()]
    );
}

#[test]
fn device_report_lists_what_is_known() {
    let lines = device_report(&make_runtime_device("hidraw1", true, true));
    assert_eq!(lines[0], "MX Master 3S");
    assert_eq!(lines[1], "  id: hidraw1");
    assert!(lines.contains(&"  bus id: 0x0003".to_owned()));
    assert!(lines.contains(&"  paired device:".to_owned()));
    assert!(lines.contains(&"    feature list: none".to_owned()));
    assert!(lines.contains(&"    report ids: none".to_owned()));
}

#[test]
fn reconnect_log_repeats_itself_rarely() {
    let mut log = ReconnectLog::new();
    assert!(matches!(log.record("gone"), ReconnectNotice::Waiting));
    for _ in 0..18 {
        assert!(matches!(log.record("gone"), ReconnectNotice::Nothing));
    }
    assert!(matches!(
        log.record("gone"),
        ReconnectNotice::StillWaiting { attempts: 20 }
    ));
    assert!(matches!(log.record("busy"), ReconnectNotice::Waiting));
}
