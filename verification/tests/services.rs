use dogi::app_config::{NetworkProxyPreferences, StoredApplicationConfig};
use dogi::battery::{
    BatteryInfo, BatteryNotificationMonitor, BatterySource, BatteryStatus,
    BATTERY_POLL_INTERVAL_MS, BATTERY_RETRY_INTERVAL_MS,
};
use dogi::control::{RuntimeReadiness, SharedPreviewState};
use dogi::device::DeviceService;
use dogi::device_info::{
    BusKind, ConnectionKind, DeviceAccess, DeviceCapabilities, DeviceInfo, ReportDescriptorInfo,
    LOGITECH_VENDOR_ID,
};
use dogi::doctor::{
    active_window_status, runtime_uinput_status, systemd_user_service_status, ProbeEnd,
};
use dogi::environment::{
    resolve_paths, runtime_policy, BuildChannel, Distribution, PathVariables, UserContext,
};
use dogi::error::{DogiError, ErrorKind};
use dogi::focus::{xprop_failed, xprop_missing};
use dogi::foreground::{count_failed_apply_steps, ForegroundSession};
use dogi::launch::{
    apply_summary, check_device_write, resolve_device_settings_id, session_banner,
    starting_preferences, starting_proxy,
};
use dogi::lease::LeaseStep;
use dogi::network::credential_write_error;
use dogi::notifications::{notification_error, show_update_ready, NotificationUrgency};
use dogi::plan::{
    HidppFeature, SettingsApplyOutcome, SettingsApplyReport, SettingsApplyStatus,
    SettingsTransactionState,
};
use dogi::runtime_plan::{ResolvedRuntimeAction, RuntimeActionSource, RuntimeCommand, RuntimeKey};
use dogi::service::{
    command_to_restart, conclude_restart, manager_fault, printed_unit, service_failure_detail,
    service_status, uinput_fault, unit_path, SocketFinding, STATIC_DEBIAN_UNIT,
};
use dogi::session::{GraphicalSessionMode, SessionObserver, SessionSnapshot};
use dogi::settings::Master3sSettings;
use dogi::store::StoredMaster3sSettings;
use dogi::supervisor::{
    execution_step, ExecutionStep, RuntimeSession, RuntimeSupervisorOptions,
};
use dogi::transaction::{keeps_journal, FlowStage, JournalSource, RecoveryStep};

fn device(id: &str, vendor_id: u16) -> DeviceInfo {
    DeviceInfo {
        id: id.to_owned(),
        name: "Mouse".to_owned(),
        paired_device: None,
        manufacturer: None,
        serial_number: None,
        bus: BusKind::Usb,
        bus_id: Some(3),
        vendor_id,
        product_id: 0xc548,
        release_number: None,
        connection: ConnectionKind::Usb,
        receiver_kind: None,
        path: format!("/dev/{id}"),
        sysfs_path: format!("/sys/class/hidraw/{id}"),
        physical_path: None,
        driver: None,
        interface_number: None,
        usage_page: None,
        usage: None,
        access: DeviceAccess::default(),
        battery: BatteryInfo::not_queried("test"),
        report_descriptor: ReportDescriptorInfo::default(),
        capabilities: DeviceCapabilities::default(),
    }
}

fn options(max_events: Option<u64>) -> RuntimeSupervisorOptions {
    RuntimeSupervisorOptions {
        device_id: None,
        max_events,
        idle_timeout_ms: 1_000,
        execute_actions: true,
        allow_device_write: true,
    }
}

fn chord() -> ResolvedRuntimeAction {
    ResolvedRuntimeAction {
        source: RuntimeActionSource::ThumbWheel,
        command: RuntimeCommand::KeyChord(vec![RuntimeKey::Control, RuntimeKey::C]),
    }
}

fn noop() -> ResolvedRuntimeAction {
    ResolvedRuntimeAction {
        source: RuntimeActionSource::ThumbWheel,
        command: RuntimeCommand::Noop,
    }
}

#[test]
fn only_logitech_devices_are_listed_and_found_by_id() {
    let service = DeviceService::new();
    let found = vec![
        device("hidraw0", 0x1234),
        device("hidraw1", LOGITECH_VENDOR_ID),
        device("hidraw2", LOGITECH_VENDOR_ID),
    ];
    assert_eq!(service.find_device(&found, "hidraw2").unwrap().path, "/dev/hidraw2");
    assert_eq!(
        service.find_device(&found, "hidraw9").unwrap_err().kind(),
        ErrorKind::DeviceNotFound
    );
    let listed = service.scan_devices(found);
    let ids = listed.iter().map(|device| device.id.as_str()).collect::<Vec<_>>();
    assert_eq!(ids, ["hidraw1", "hidraw2"]);
}

#[test]
fn a_change_begins_with_its_preparation() {
    let service = DeviceService::for_paths("/c/settings.json", "/c/transactions", "/c/old.json");
    let settings = Master3sSettings::default();
    let (normal, plan, flow) = service.apply_master3s_settings("mouse", &settings);
    assert_eq!(normal.profile_name, settings.profile_name);
    assert_eq!(plan.device_id, "mouse");
    assert_eq!(flow.stage, FlowStage::Preparing);
    let (_, preview) = service.prepare_master3s_settings_transaction(&settings);
    assert_eq!(preview.stage, FlowStage::Preparing);
    assert_eq!(preview.transaction_dir.as_deref(), Some("/c/transactions"));
}

#[test]
fn nothing_is_recovered_without_a_journal() {
    let service = DeviceService::for_paths("/c/settings.json", "/c/transactions", "/c/old.json");
    let step = service.recover_interrupted_runtime_transaction("/c/x.json", JournalSource::Missing);
    assert!(matches!(step, RecoveryStep::Nothing));
}

#[test]
fn a_preserved_former_journal_is_told_once() {
    let mut service =
        DeviceService::for_paths("/c/settings.json", "/c/transactions", "/c/old.json");
    service.record_legacy_transaction("/c/old.json.bak");
    assert!(service.take_recovery_notice().unwrap().contains("/c/old.json.bak"));
    assert!(service.take_recovery_notice().is_none());
}

#[test]
fn a_reset_gives_the_default_settings_back() {
    let service = DeviceService::with_config_path("/c/settings.json");
    let mut changed = Master3sSettings::default();
    changed.pointer_speed_percent = 180;
    let (saved, _) = service
        .save_master3s_settings(StoredMaster3sSettings::default(), &changed)
        .unwrap();
    assert_eq!(service.load_master3s_settings(&saved).pointer_speed_percent, 180);
    let (saved, path) = service.reset_master3s_settings(saved).unwrap();
    assert_eq!(path, "/c/settings.json");
    assert_eq!(
        service.load_master3s_settings(&saved).pointer_speed_percent,
        Master3sSettings::default().pointer_speed_percent
    );
}

#[test]
fn every_file_of_the_application_has_its_place() {
    let user = UserContext {
        home: "/home/tester".to_owned(),
        uid: None,
        gid: None,
    };
    let variables = PathVariables {
        config_home: Some("/cfg".to_owned()),
        cache_home: Some("/cache".to_owned()),
        runtime_dir: Some("/run/user/7".to_owned()),
        euid: 7,
    };
    let paths = resolve_paths(BuildChannel::Stable, &user, &variables);
    let all = [
        paths.application_config(),
        paths.device_settings(),
        paths.device_transaction(),
        paths.device_transactions_dir(),
        paths.device_transaction_lock(),
        paths.update_cache(),
        paths.battery_notification_state(),
        paths.runtime_active_device(),
        paths.runtime_control_socket(),
        paths.gui_instance_lock(),
    ];
    for (i, path) in all.iter().enumerate() {
        assert!(
            path.starts_with("/cfg/") || path.starts_with("/cache/") || path.starts_with("/run/"),
            "{path}"
        );
        assert!(!all[i + 1..].contains(path), "{path}");
    }
}

#[test]
fn commands_for_another_user_reach_their_session() {
    let own = UserContext {
        home: "/home/tester".to_owned(),
        uid: None,
        gid: None,
    };
    let names = own
        .command_environment()
        .iter()
        .map(|variable| (variable.name, variable.value.clone()))
        .collect::<Vec<_>>();
    assert_eq!(
        names,
        [
            ("HOME", "/home/tester".to_owned()),
            ("XDG_CONFIG_HOME", "/home/tester/.config".to_owned()),
        ]
    );
    let other = UserContext {
        uid: Some(1000),
        gid: Some(1000),
        ..own
    };
    let names = other
        .command_environment()
        .iter()
        .map(|variable| (variable.name, variable.value.clone()))
        .collect::<Vec<_>>();
    assert_eq!(names.len(), 4);
    assert!(names.contains(&("XDG_RUNTIME_DIR", "/run/user/1000".to_owned())));
    assert!(names.contains(&(
        "DBUS_SESSION_BUS_ADDRESS",
        "unix:path=/run/user/1000/bus".to_owned()
    )));
}

#[test]
fn background_operations_follow_the_integration() {
    let debian = runtime_policy(BuildChannel::Stable, &Distribution::Debian);
    let unmanaged = runtime_policy(BuildChannel::Stable, &Distribution::Unmanaged);
    assert!(debian.default_background_operations_enabled());
    assert!(!unmanaged.default_background_operations_enabled());
}

#[test]
fn probes_say_what_they_found() {
    let writable = runtime_uinput_status(&None);
    assert!(writable.available);
    assert_eq!(writable.detail, "opened for writing");
    let denied = runtime_uinput_status(&Some("denied".to_owned()));
    assert!(!denied.available);
    assert_eq!(denied.detail, "failed to open /dev/uinput for writing: denied");
    assert!(active_window_status(&ProbeEnd::Succeeded).available);
    let failed = active_window_status(&ProbeEnd::Failed {
        stderr: " no display\n".to_owned(),
    });
    assert_eq!(failed.detail, "xprop returned non-zero status: no display");
    let missing = active_window_status(&ProbeEnd::NotRun {
        detail: "gone".to_owned(),
    });
    assert_eq!(missing.detail, "xprop is not available: gone");
    let service = systemd_user_service_status(Ok("/unit".to_owned()), true);
    assert_eq!(service.path.as_deref(), Some("/unit"));
    assert!(service.installed);
    let service =
        systemd_user_service_status(Err(DogiError::BackendUnavailable("no".to_owned())), true);
    assert!(service.path.unwrap().starts_with("unavailable: "));
    assert!(!service.installed);
}

#[test]
fn errors_of_the_desktop_name_their_cause() {
    let cases = [
        (
            xprop_missing("gone"),
            "xprop is required for X11 active-window profile detection: gone",
        ),
        (
            xprop_failed(" bad window \n"),
            "xprop failed for active-window profile detection: bad window",
        ),
        (
            notification_error("no bus"),
            "desktop notifications are unavailable: no bus",
        ),
        (
            credential_write_error("locked"),
            "could not save the proxy password in the desktop credential store: locked",
        ),
    ];
    for (error, detail) in cases {
        assert_eq!(error.kind(), ErrorKind::BackendUnavailable);
        assert!(error.message().ends_with(detail), "{}", error.message());
    }
}

#[test]
fn an_update_is_announced_with_normal_urgency() {
    let shown = show_update_ready("Ready".to_owned(), "Install it".to_owned());
    assert_eq!(shown.replaces_id, 0);
    assert_eq!(shown.title, "Ready");
    assert_eq!(shown.body, "Install it");
    assert_eq!(shown.urgency, NotificationUrgency::Normal);
    assert_eq!(shown.urgency.level(), 1);
}

#[test]
fn unreadable_preferences_fall_back_and_are_told() {
    let fallback = StoredApplicationConfig::initial(true, true).load_preferences();
    let mut saved = fallback;
    saved.background_operations_enabled = false;
    let (used, fault) = starting_preferences(Ok(saved), fallback);
    assert!(!used.background_operations_enabled);
    assert!(fault.is_none());
    let (used, fault) = starting_preferences(Err("broken".to_owned()), fallback);
    assert!(used.background_operations_enabled);
    assert_eq!(fault.as_deref(), Some("broken"));
    let (used, fault) = starting_proxy(
        Err("broken".to_owned()),
        NetworkProxyPreferences::default(),
    );
    assert_eq!(used.port, NetworkProxyPreferences::default().port);
    assert_eq!(fault.as_deref(), Some("broken"));
}

#[test]
fn settings_are_written_only_when_that_is_allowed() {
    assert!(check_device_write(true).is_ok());
    let error = check_device_write(false).unwrap_err();
    assert_eq!(error.kind(), ErrorKind::InvalidArgument);
}

#[test]
fn settings_of_an_absent_device_are_kept_under_its_id() {
    assert_eq!(resolve_device_settings_id(&None, "hidraw7"), "hidraw7");
}

#[test]
fn the_banner_tells_what_is_enabled() {
    assert_eq!(
        session_banner("mouse", true, false, "dry-run"),
        [
            "Runtime service for mouse",
            "  mode: actions enabled, device writes disabled",
        ]
    );
    assert_eq!(
        session_banner("mouse", false, true, "dry-run")[1],
        "  mode: actions dry-run, device writes enabled"
    );
}

fn outcome(status: SettingsApplyStatus) -> SettingsApplyOutcome {
    SettingsApplyOutcome {
        title: "Step".to_owned(),
        feature: HidppFeature::ThumbWheel,
        status,
        detail: None,
    }
}

#[test]
fn failed_steps_are_counted_and_told() {
    let report = SettingsApplyReport {
        device_id: "mouse".to_owned(),
        profile_name: "Default".to_owned(),
        transaction: SettingsTransactionState::Committed,
        outcomes: vec![
            outcome(SettingsApplyStatus::Applied),
            outcome(SettingsApplyStatus::Failed),
            outcome(SettingsApplyStatus::Skipped),
        ],
    };
    assert_eq!(count_failed_apply_steps(&report), 1);
    assert_eq!(apply_summary(1), "  device apply: 1 failed step");
    assert_eq!(apply_summary(0), "  device apply: 0 failed steps");
}

#[test]
fn a_journal_stays_while_the_device_has_to_be_recovered() {
    let report = |transaction: SettingsTransactionState| SettingsApplyReport {
        device_id: "mouse".to_owned(),
        profile_name: "Default".to_owned(),
        transaction,
        outcomes: Vec::new(),
    };
    assert!(keeps_journal(&report(SettingsTransactionState::RecoveryRequired)));
    assert!(!keeps_journal(&report(SettingsTransactionState::RolledBack)));
    assert!(!keeps_journal(&report(SettingsTransactionState::Committed)));
}

#[test]
fn a_missing_focus_is_told_once() {
    let mut session = ForegroundSession::new(&options(None), "mouse", Master3sSettings::default());
    assert!(session.miss_focus());
    assert!(!session.miss_focus());
}

#[test]
fn the_service_restarts_as_a_unit() {
    let command = command_to_restart();
    assert_eq!(command.args, ["--user", "restart", "dogi-runtime.service"]);
    assert_eq!(command.operation, "restart the Dogi runtime");
    let stopped = service_status(
        true,
        false,
        GraphicalSessionMode::LocalActive,
        String::new(),
        None,
        true,
    );
    assert!(!stopped.active);
    let restarted = conclude_restart(stopped);
    assert!(restarted.active);
    assert!(restarted.enabled);
}

#[test]
fn faults_of_the_service_are_named() {
    assert!(manager_fault("/s", &SocketFinding::Socket).is_none());
    assert!(manager_fault("/s", &SocketFinding::OtherFile)
        .unwrap()
        .message()
        .ends_with("/s is not a systemd user-manager socket"));
    assert!(manager_fault("/s", &SocketFinding::Missing("gone".to_owned()))
        .unwrap()
        .message()
        .ends_with("systemd user manager is unavailable at /s: gone"));
    assert!(uinput_fault(false, &None).is_none());
    assert!(uinput_fault(true, &None).is_some());
    assert!(uinput_fault(false, &Some("denied".to_owned()))
        .unwrap()
        .message()
        .contains("cannot access /dev/uinput: denied."));
    assert_eq!(
        service_failure_detail(None),
        "Dogi desktop runtime did not remain active"
    );
    assert_eq!(
        service_failure_detail(Some((String::new(), "exit-code\n".to_owned()))),
        "exit-code"
    );
}

#[test]
fn each_integration_has_its_unit() {
    let debian = runtime_policy(BuildChannel::Stable, &Distribution::Debian);
    assert_eq!(printed_unit(&debian, "/usr/bin/dogi").unwrap(), STATIC_DEBIAN_UNIT);
    assert_eq!(
        unit_path(&debian, "/home/tester").unwrap(),
        "/usr/lib/systemd/user/dogi-runtime.service"
    );
    let portable = runtime_policy(
        BuildChannel::Stable,
        &Distribution::Portable {
            root: "/opt/dogi".to_owned(),
        },
    );
    assert!(printed_unit(&portable, "/opt/dogi/bin/dogi")
        .unwrap()
        .contains("ExecStart=/opt/dogi/bin/dogi runtime run"));
    assert_eq!(
        unit_path(&portable, "/home/tester").unwrap(),
        "/home/tester/.config/systemd/user/dogi-runtime.service"
    );
    let unmanaged = runtime_policy(BuildChannel::Stable, &Distribution::Unmanaged);
    assert!(printed_unit(&unmanaged, "/x").is_err());
    assert!(unit_path(&unmanaged, "/home/tester").is_err());
}

#[test]
fn a_paused_session_gives_the_device_back() {
    let session = RuntimeSession::new(&options(None), false, "mouse", Master3sSettings::default());
    let mut control = SharedPreviewState::default();
    let local = SessionSnapshot::observed(GraphicalSessionMode::LocalActive);
    assert!(!local.actions_paused());
    assert!(matches!(session.pause_step(&local), LeaseStep::Nothing));
    session.report_pause(&mut control, &local);
    assert_eq!(control.health.readiness, RuntimeReadiness::Starting);
    let locked = SessionSnapshot::observed(GraphicalSessionMode::LocalLocked);
    assert!(locked.actions_paused());
    assert!(matches!(session.pause_step(&locked), LeaseStep::Write { .. }));
    session.report_pause(&mut control, &locked);
    assert_eq!(control.health.readiness, RuntimeReadiness::Paused);
}

#[test]
fn an_executor_is_opened_only_for_actions_that_are_permitted() {
    let local = SessionObserver::new(SessionSnapshot::observed(GraphicalSessionMode::LocalActive));
    let locked = SessionObserver::new(SessionSnapshot::observed(GraphicalSessionMode::LocalLocked));
    let actions = vec![noop(), chord()];
    let idle = vec![noop()];
    let now = local.current.generation;
    assert_eq!(execution_step(false, true, &actions, &local, now), ExecutionStep::Nothing);
    assert_eq!(execution_step(true, true, &idle, &local, now), ExecutionStep::UseExecutor);
    assert_eq!(execution_step(true, false, &actions, &local, now), ExecutionStep::OpenExecutor);
    assert_eq!(execution_step(true, false, &actions, &locked, now), ExecutionStep::Nothing);
    assert_eq!(execution_step(true, false, &actions, &local, now + 1), ExecutionStep::Nothing);
    assert_eq!(execution_step(true, false, &idle, &locked, now), ExecutionStep::WithoutExecutor);
}

#[test]
fn the_battery_is_read_when_it_is_due() {
    let mut monitor = BatteryNotificationMonitor::empty(0);
    monitor.activate("mouse", 100);
    assert!(monitor.preferences_due(100));
    assert_eq!(monitor.read_timeout(1_000, 100), 0);
    assert_eq!(monitor.read_timeout(1_000, 40), 60);
    monitor.miss_reading(100);
    assert!(!monitor.is_due(100 + BATTERY_RETRY_INTERVAL_MS - 1));
    assert!(monitor.is_due(100 + BATTERY_RETRY_INTERVAL_MS));
    let battery = BatteryInfo {
        level_percent: Some(80),
        status: BatteryStatus::Discharging,
        source: BatterySource::Hidpp,
        detail: None,
    };
    monitor.observe("mouse", &battery);
    monitor.finish_check("mouse", true, 1_000);
    assert!(!monitor.is_due(1_000 + BATTERY_POLL_INTERVAL_MS - 1));
    assert!(monitor.is_due(1_000 + BATTERY_POLL_INTERVAL_MS));
    monitor.finish_check("mouse", false, 2_000);
    assert!(monitor.is_due(2_000 + BATTERY_RETRY_INTERVAL_MS));
}
