use dogi::battery::{
    BatteryAlertDecision, BatteryAlertLevel, BatteryInfo, BatteryNotificationMonitor,
    BatterySource, BatteryStatus, CheckStep, NotificationStep, StoredDeviceNotificationState,
    STATE_VERSION,
};
use dogi::control::{
    claim_socket, preview_request, read_control_frame, ConnectionLimiter, ControlStep, PreviewCompletion,
    RuntimeControlClient, RuntimeControlRequest, RuntimeControlResponse, RuntimeHealthSnapshot,
    RuntimeReadiness, SharedPreviewState, SocketStep, CONTROL_MAX_CONNECTIONS, CONTROL_MAX_FRAME_BYTES, PREVIEW_LEASE_TTL_MS,
    VERSION,
};
use dogi::device_info::{
    hidpp_endpoint_id, ActiveDeviceSelector, BusKind, ConnectionKind, DeviceAccess,
    DeviceCapabilities, DeviceInfo, HidUsage, PairedDeviceInfo, ReceiverKind,
    ReportDescriptorInfo,
};
use dogi::error::DogiError;
use dogi::failure::{
    any_revision_changed, publish_once, retry_slice, FailureTracker, PathRevision, RunStep,
    RuntimeFailure, RuntimeFailureKind, RuntimeRun, DEGRADED_RETRY_DELAY_MS,
    TRANSIENT_RETRY_DELAY_MS,
};
use dogi::lease::{LeaseStep, RuntimeDeviceLease, RuntimeDeviceLeaseState};
use dogi::plan::{
    ensure_device_apply_succeeded, HidppFeature, SettingsApplyOperation, SettingsApplyOutcome,
    SettingsApplyPlan, SettingsApplyReport, SettingsApplyStatus, SettingsTransactionState,
};
use dogi::session::{
    classify_sessions, next_generation, session_is_relevant, GraphicalSessionMode, RuntimePolicy,
    SessionFacts, SessionObserver, SessionSnapshot,
};
use dogi::settings::{
    Action, ButtonAction, Master3sButton, Master3sSettings, ThumbWheelMode, WheelRatchetMode,
    DEFAULT_THUMB_WHEEL_SPEED_PERCENT,
};
use dogi::supervisor::{
    choose_device, session_result, DeviceChoice, DeviceStep, DeviceWork, RuntimeSession,
    RuntimeSessionOutcome, RuntimeSupervisorOptions, SessionClosing, Turn, TurnEnd,
};
use dogi::table::Table;

// --- battery -----------------------------------------------------------------

fn battery(percent: u8, status: BatteryStatus) -> BatteryInfo {
    BatteryInfo {
        level_percent: Some(percent),
        status,
        source: BatterySource::Hidpp,
        detail: None,
    }
}

fn battery_status_only(status: BatteryStatus) -> BatteryInfo {
    BatteryInfo {
        level_percent: None,
        status,
        source: BatterySource::Hidpp,
        detail: None,
    }
}

fn observe(monitor: &mut BatteryNotificationMonitor, info: &BatteryInfo) -> BatteryAlertDecision {
    monitor.observe("mouse", info).0
}

fn set_preferences(monitor: &mut BatteryNotificationMonitor, low: bool, full: bool) {
    if let Some(change) = monitor.update_preferences("mouse", low, full, 0) {
        monitor.finish_preferences("mouse", change, 0);
    }
}

fn reloaded(monitor: &BatteryNotificationMonitor) -> BatteryNotificationMonitor {
    let mut devices: Table<StoredDeviceNotificationState> = Table::new();
    for i in 0..monitor.devices.len() {
        devices.insert(monitor.devices.key(i), *monitor.devices.value(i));
    }
    BatteryNotificationMonitor::load(STATE_VERSION, devices, 0).unwrap()
}

#[test]
fn low_and_critical_alerts_require_confirmation_and_only_escalate() {
    let mut monitor = BatteryNotificationMonitor::empty(0);
    let low = battery(20, BatteryStatus::Low);
    let critical = battery(10, BatteryStatus::Critical);

    assert_eq!(observe(&mut monitor, &low), BatteryAlertDecision::Nothing);
    assert_eq!(
        observe(&mut monitor, &low),
        BatteryAlertDecision::NotifyLowBattery {
            level: BatteryAlertLevel::Low,
            percent: 20,
        }
    );
    monitor.mark_low_battery_notified("mouse", BatteryAlertLevel::Low);
    assert_eq!(observe(&mut monitor, &low), BatteryAlertDecision::Nothing);
    assert_eq!(
        observe(&mut monitor, &critical),
        BatteryAlertDecision::Nothing
    );
    assert_eq!(
        observe(&mut monitor, &critical),
        BatteryAlertDecision::NotifyLowBattery {
            level: BatteryAlertLevel::Critical,
            percent: 10,
        }
    );
    monitor.mark_low_battery_notified("mouse", BatteryAlertLevel::Critical);
    assert_eq!(
        observe(&mut monitor, &critical),
        BatteryAlertDecision::Nothing
    );
}

#[test]
fn charging_and_recovery_rearm_the_device() {
    let mut monitor = BatteryNotificationMonitor::empty(0);
    observe(&mut monitor, &battery(8, BatteryStatus::Critical));
    observe(&mut monitor, &battery(8, BatteryStatus::Critical));
    monitor.mark_low_battery_notified("mouse", BatteryAlertLevel::Critical);

    assert_eq!(
        observe(&mut monitor, &battery(9, BatteryStatus::Charging)),
        BatteryAlertDecision::ClearLowBattery
    );
    assert_eq!(
        observe(&mut monitor, &battery(20, BatteryStatus::Low)),
        BatteryAlertDecision::Nothing
    );
    assert!(monitor.awaiting_confirmation("mouse"));
}

#[test]
fn unavailable_samples_never_change_the_alert_state() {
    let mut monitor = BatteryNotificationMonitor::empty(0);
    let unavailable = BatteryInfo::not_queried("mouse is asleep");

    assert_eq!(
        observe(&mut monitor, &unavailable),
        BatteryAlertDecision::Nothing
    );
    assert!(!monitor.awaiting_confirmation("mouse"));
}

#[test]
fn notified_state_survives_a_runtime_restart() {
    let mut monitor = BatteryNotificationMonitor::empty(0);
    assert!(monitor.mark_low_battery_notified("mouse", BatteryAlertLevel::Low));

    let mut reloaded = reloaded(&monitor);
    assert_eq!(
        observe(&mut reloaded, &battery(18, BatteryStatus::Low)),
        BatteryAlertDecision::Nothing
    );
}

#[test]
fn disabling_notifications_clears_persisted_suppression() {
    let mut monitor = BatteryNotificationMonitor::empty(0);
    monitor.mark_low_battery_notified("mouse", BatteryAlertLevel::Low);

    set_preferences(&mut monitor, false, true);
    let mut reloaded = reloaded(&monitor);
    assert_eq!(
        observe(&mut reloaded, &battery(18, BatteryStatus::Low)),
        BatteryAlertDecision::Nothing
    );
    assert!(reloaded.awaiting_confirmation("mouse"));
}

#[test]
fn full_charge_requires_a_confirmed_transition_from_charging() {
    let mut monitor = BatteryNotificationMonitor::empty(0);
    let full = battery(100, BatteryStatus::Full);

    assert_eq!(observe(&mut monitor, &full), BatteryAlertDecision::Nothing);
    assert_eq!(observe(&mut monitor, &full), BatteryAlertDecision::Nothing);
    assert_eq!(
        observe(&mut monitor, &battery(99, BatteryStatus::Charging)),
        BatteryAlertDecision::Nothing
    );
    assert_eq!(observe(&mut monitor, &full), BatteryAlertDecision::Nothing);
    assert!(monitor.awaiting_confirmation("mouse"));
    assert_eq!(
        observe(&mut monitor, &full),
        BatteryAlertDecision::NotifyFullyCharged
    );

    monitor.mark_fully_charged_notified("mouse");
    assert_eq!(observe(&mut monitor, &full), BatteryAlertDecision::Nothing);
}

#[test]
fn full_charge_is_not_rearmed_until_the_device_discharges() {
    let mut monitor = BatteryNotificationMonitor::empty(0);
    observe(&mut monitor, &battery(95, BatteryStatus::Charging));
    observe(&mut monitor, &battery(100, BatteryStatus::Full));
    observe(&mut monitor, &battery(100, BatteryStatus::Full));
    monitor.mark_fully_charged_notified("mouse");

    assert_eq!(
        observe(&mut monitor, &battery(100, BatteryStatus::Charging)),
        BatteryAlertDecision::Nothing
    );
    assert_eq!(
        observe(&mut monitor, &battery(100, BatteryStatus::Full)),
        BatteryAlertDecision::Nothing
    );

    observe(&mut monitor, &battery(99, BatteryStatus::Discharging));
    observe(&mut monitor, &battery(99, BatteryStatus::Charging));
    observe(&mut monitor, &battery(100, BatteryStatus::Full));
    assert_eq!(
        observe(&mut monitor, &battery(100, BatteryStatus::Full)),
        BatteryAlertDecision::NotifyFullyCharged
    );
}

#[test]
fn charging_state_survives_a_runtime_restart() {
    let mut monitor = BatteryNotificationMonitor::empty(0);
    assert!(
        monitor
            .observe("mouse", &battery(90, BatteryStatus::Charging))
            .1
    );

    let mut reloaded = reloaded(&monitor);
    assert_eq!(
        observe(&mut reloaded, &battery_status_only(BatteryStatus::Full)),
        BatteryAlertDecision::Nothing
    );
    assert_eq!(
        observe(&mut reloaded, &battery_status_only(BatteryStatus::Full)),
        BatteryAlertDecision::NotifyFullyCharged
    );
}

#[test]
fn disabling_full_notifications_consumes_the_current_charge_cycle() {
    let mut monitor = BatteryNotificationMonitor::empty(0);
    observe(&mut monitor, &battery(90, BatteryStatus::Charging));
    set_preferences(&mut monitor, true, false);
    assert_eq!(
        observe(&mut monitor, &battery(100, BatteryStatus::Full)),
        BatteryAlertDecision::Nothing
    );

    set_preferences(&mut monitor, true, true);
    assert_eq!(
        observe(&mut monitor, &battery(100, BatteryStatus::Full)),
        BatteryAlertDecision::Nothing
    );
}

#[test]
fn another_device_is_not_affected_by_a_reading() {
    let mut monitor = BatteryNotificationMonitor::empty(0);
    monitor.observe("other", &battery(20, BatteryStatus::Low));
    observe(&mut monitor, &battery(90, BatteryStatus::Charging));
    assert!(monitor.awaiting_confirmation("other"));
    assert!(!monitor.awaiting_confirmation("mouse"));
}

#[test]
fn an_unknown_state_format_is_refused() {
    let refused = BatteryNotificationMonitor::load(STATE_VERSION + 1, Table::new(), 0);
    assert!(matches!(refused, Err(DogiError::Config(_))));
}

#[test]
fn checks_wait_for_their_time() {
    let mut monitor = BatteryNotificationMonitor::empty(0);
    monitor.activate("mouse", 1_000);
    let due = monitor.next_check;
    assert!(!monitor.is_due(due - 1));
    assert!(monitor.is_due(due));
    assert_eq!(
        monitor.check_if_due("mouse", due - 1),
        CheckStep::NotDue
    );
    assert_eq!(
        monitor.begin_notification("mouse", BatteryAlertDecision::Nothing),
        NotificationStep::Nothing
    );
}

// --- control -----------------------------------------------------------------

fn set(
    shared: &mut SharedPreviewState,
    lease: &str,
    speed: u16,
    now: u64,
) -> Result<(u64, bool), String> {
    shared.set_preview(lease.to_owned(), "device".to_owned(), speed, now)
}

#[test]
fn control_preview_lease_refresh_does_not_create_a_new_generation() {
    let mut shared = SharedPreviewState::default();
    let (generation, ready) = set(&mut shared, "lease", 175, 0).unwrap();
    assert!(!ready);
    shared.publish(generation, PreviewCompletion::Applied);

    let (refreshed_generation, ready) = set(&mut shared, "lease", 175, 1).unwrap();

    assert_eq!(refreshed_generation, generation);
    assert!(ready);
}

#[test]
fn control_stale_owner_cannot_clear_a_newer_preview() {
    let mut shared = SharedPreviewState::default();
    set(&mut shared, "new", 200, 0).unwrap();

    let (_, already_applied) = shared.clear_preview("old");

    assert!(already_applied);
    assert_eq!(
        shared.snapshot(1).preview.unwrap().lease_id,
        "new".to_owned()
    );
}

#[test]
fn control_response_failure_maps_to_backend_error() {
    let error = RuntimeControlResponse::failure("preview unavailable")
        .into_result()
        .unwrap_err();
    assert!(error.message().contains("preview unavailable"));
}

#[test]
fn health_status_reports_version_readiness_and_last_error() {
    let mut shared = SharedPreviewState::default();
    shared.publish_health(RuntimeHealthSnapshot::new(
        RuntimeReadiness::Degraded,
        Some("device unavailable".to_owned()),
    ));

    let response = match shared.apply_request(RuntimeControlRequest::Status, 0) {
        ControlStep::Respond(response) => response,
        ControlStep::Wait { .. } => panic!("a status query never waits"),
    };
    let status = response.into_status().unwrap();

    assert_eq!(status.version, VERSION);
    assert_eq!(status.readiness, RuntimeReadiness::Degraded);
    assert!(status.degraded);
    assert_eq!(status.last_error.as_deref(), Some("device unavailable"));
}

#[test]
fn control_active_preview_lease_cannot_be_stolen_by_another_gui() {
    let mut shared = SharedPreviewState::default();
    set(&mut shared, "first", 125, 0).unwrap();

    let error = set(&mut shared, "second", 200, 1).unwrap_err();

    assert!(error.contains("another Dogi window"));
    assert_eq!(shared.snapshot(1).preview.unwrap().lease_id, "first");
}

#[test]
fn preview_lease_refresh_does_not_create_a_new_generation() {
    let mut shared = SharedPreviewState::default();
    let (generation, _) = set(&mut shared, "lease", 175, 0).unwrap();
    shared.publish(generation, PreviewCompletion::Applied);
    for now in [1, PREVIEW_LEASE_TTL_MS - 1, 2 * PREVIEW_LEASE_TTL_MS - 2] {
        assert_eq!(set(&mut shared, "lease", 175, now), Ok((generation, true)));
    }
}

#[test]
fn stale_owner_cannot_clear_a_newer_preview() {
    let mut shared = SharedPreviewState::default();
    let (generation, _) = set(&mut shared, "new", 200, 0).unwrap();
    assert_eq!(shared.clear_preview("old"), (generation, true));
    assert!(shared.snapshot(1).preview.is_some());
    assert_eq!(shared.clear_preview("new"), (generation + 1, false));
    assert!(shared.snapshot(1).preview.is_none());
}

#[test]
fn response_failure_maps_to_backend_error() {
    assert_eq!(
        RuntimeControlResponse::failure("preview unavailable").into_result(),
        Err(DogiError::BackendUnavailable(
            "preview unavailable".to_owned()
        ))
    );
    assert_eq!(RuntimeControlResponse::success().into_result(), Ok(()));
}

#[test]
fn active_preview_lease_cannot_be_stolen_by_another_gui() {
    let mut shared = SharedPreviewState::default();
    set(&mut shared, "first", 125, 0).unwrap();
    assert!(set(&mut shared, "second", 200, PREVIEW_LEASE_TTL_MS - 1).is_err());
    assert_eq!(
        shared.snapshot(PREVIEW_LEASE_TTL_MS - 1).preview.unwrap().speed_percent,
        125
    );
}

#[test]
fn a_lapsed_lease_can_be_taken_over() {
    let mut shared = SharedPreviewState::default();
    let (first, _) = set(&mut shared, "first", 125, 0).unwrap();
    assert!(shared.snapshot(PREVIEW_LEASE_TTL_MS).preview.is_none());
    let (second, ready) = set(&mut shared, "second", 200, PREVIEW_LEASE_TTL_MS + 1).unwrap();
    assert!(second > first);
    assert!(!ready);
    assert_eq!(
        shared
            .snapshot(PREVIEW_LEASE_TTL_MS + 1)
            .preview
            .unwrap()
            .lease_id,
        "second"
    );
}

#[test]
fn oversized_control_frame_is_rejected() {
    let mut bytes = vec![b'x'; CONTROL_MAX_FRAME_BYTES + 1];
    bytes.push(b'\n');
    let detail = read_control_frame(&bytes).unwrap_err();
    let response = RuntimeControlResponse::failure(&detail);

    assert!(!response.ok);
    assert!(response.detail.contains("exceeds"));
}

#[test]
fn a_control_frame_ends_with_its_line() {
    assert_eq!(
        read_control_frame(b"\"status\"\nmore").unwrap(),
        b"\"status\"\n".to_vec()
    );
    assert!(read_control_frame(b"").is_err());
    assert!(read_control_frame(b"\"status\"").is_err());
    let mut largest = vec![b'x'; CONTROL_MAX_FRAME_BYTES - 1];
    largest.push(b'\n');
    assert_eq!(read_control_frame(&largest).unwrap(), largest);
}

#[test]
fn control_connection_limit_rejects_excess_clients() {
    let mut connections = ConnectionLimiter::new();
    for _ in 0..CONTROL_MAX_CONNECTIONS {
        assert!(connections.try_acquire());
    }
    assert!(!connections.try_acquire());
    connections.release();
    assert!(connections.try_acquire());
}

#[test]
fn a_window_asks_under_its_own_name() {
    let client = RuntimeControlClient::new("/rt/dogi/control.sock".to_owned(), 12, 34);
    assert_eq!(client.lease_id, "gui-12-34");
    assert_ne!(
        client.lease_id,
        RuntimeControlClient::new(String::new(), 1, 234).lease_id
    );
    assert_eq!(
        client.clear_horizontal_scroll_preview(),
        RuntimeControlRequest::ClearHorizontalScrollPreview {
            lease_id: "gui-12-34".to_owned()
        }
    );
    assert!(client.set_horizontal_scroll_preview(" ", 100).is_err());
    assert!(client.set_horizontal_scroll_preview("device", 100).is_ok());
}

#[test]
fn a_socket_that_answers_is_not_taken_over() {
    assert_eq!(claim_socket("/rt/s", false, false), SocketStep::Bind);
    assert_eq!(claim_socket("/rt/s", true, false), SocketStep::RemoveFirst);
    match claim_socket("/rt/s", true, true) {
        SocketStep::Refuse(error) => assert!(error.message().contains("already owns /rt/s")),
        other => panic!("{other:?}"),
    }
}

#[test]
fn requests_are_checked_before_they_are_sent() {
    assert_eq!(
        preview_request("lease", " device ", 999).unwrap(),
        RuntimeControlRequest::SetHorizontalScrollPreview {
            lease_id: "lease".to_owned(),
            device_id: "device".to_owned(),
            speed_percent: 400,
        }
    );
    assert!(matches!(
        preview_request("lease", "  ", 100),
        Err(DogiError::InvalidArgument(_))
    ));
}

#[test]
fn a_preview_request_waits_for_the_device() {
    let mut shared = SharedPreviewState::default();
    let request = preview_request("lease", "device", 175).unwrap();
    let (generation, release) = match shared.apply_request(request, 0) {
        ControlStep::Wait {
            generation,
            release,
        } => (generation, release),
        ControlStep::Respond(_) => panic!("nothing was applied yet"),
    };
    assert!(shared.finish_request(generation, &release, false).is_none());
    shared.publish(generation, PreviewCompletion::Failed("no device".to_owned()));
    let response = shared.finish_request(generation, &release, false).unwrap();
    assert!(!response.ok);
    assert!(shared.snapshot(1).preview.is_none());
}

// --- session -----------------------------------------------------------------

const LOCAL: SessionFacts = SessionFacts {
    active: true,
    remote: false,
    locked: false,
    has_seat: true,
};
const REMOTE: SessionFacts = SessionFacts {
    active: true,
    remote: true,
    locked: false,
    has_seat: false,
};

#[test]
fn local_active_session_enables_runtime_mutations() {
    let mode = classify_sessions(&[LOCAL]);
    let policy = RuntimePolicy::for_mode(mode);

    assert_eq!(mode, GraphicalSessionMode::LocalActive);
    assert!(policy.execute_local_actions);
    assert!(policy.apply_automatic_device_changes);
    assert!(policy.preview_local_actions);
}

#[test]
fn remote_only_session_is_observation_only() {
    let mode = classify_sessions(&[REMOTE]);
    let policy = RuntimePolicy::for_mode(mode);

    assert_eq!(mode, GraphicalSessionMode::RemoteOnly);
    assert!(!policy.execute_local_actions);
    assert!(!policy.apply_automatic_device_changes);
    assert!(!policy.preview_local_actions);
}

#[test]
fn locked_local_session_is_observation_only() {
    let mode = classify_sessions(&[SessionFacts {
        locked: true,
        ..LOCAL
    }]);

    assert_eq!(mode, GraphicalSessionMode::LocalLocked);
    assert!(!RuntimePolicy::for_mode(mode).execute_local_actions);
}

#[test]
fn concurrent_local_and_remote_sessions_fail_closed() {
    assert_eq!(
        classify_sessions(&[LOCAL, REMOTE]),
        GraphicalSessionMode::Unknown
    );
}

#[test]
fn an_active_graphical_session_without_a_seat_or_remote_origin_is_ambiguous() {
    assert_eq!(
        classify_sessions(&[SessionFacts {
            has_seat: false,
            ..LOCAL
        }]),
        GraphicalSessionMode::Unknown
    );
}

#[test]
fn inactive_sessions_do_not_enable_actions() {
    let mode = classify_sessions(&[SessionFacts {
        active: false,
        ..LOCAL
    }]);

    assert_eq!(mode, GraphicalSessionMode::Inactive);
    assert!(!RuntimePolicy::for_mode(mode).execute_local_actions);
}

#[test]
fn a_session_transition_revokes_existing_action_generations() {
    let mut observer = SessionObserver::new(SessionSnapshot::observed(
        GraphicalSessionMode::LocalActive,
    ));
    let generation = observer.snapshot().generation;
    assert!(observer.permits_actions(generation));
    assert!(observer.permits_automatic_device_changes(generation));

    observer.publish(SessionSnapshot::observed(GraphicalSessionMode::RemoteOnly));

    assert!(!observer.permits_actions(generation));
    assert!(!observer.permits_automatic_device_changes(generation));
    assert!(observer.snapshot().generation > generation);
}

#[test]
fn only_own_graphical_sessions_are_looked_at() {
    assert!(session_is_relevant(1000, 1000, "x11"));
    assert!(session_is_relevant(1000, 1000, "wayland"));
    assert!(!session_is_relevant(1000, 1000, "tty"));
    assert!(!session_is_relevant(1000, 1001, "x11"));
    assert_eq!(classify_sessions(&[]), GraphicalSessionMode::Inactive);
    assert_eq!(next_generation(7), 8);
}

// --- supervisor --------------------------------------------------------------

fn base_settings() -> Master3sSettings {
    Master3sSettings {
        pointer_speed_percent: 85,
        smart_shift_threshold: 37,
        high_resolution_scroll: true,
        natural_scroll: false,
        ..Master3sSettings::default()
    }
    .normalized()
}

fn profile_settings(base: &Master3sSettings) -> Master3sSettings {
    let mut profile = Master3sSettings {
        profile_name: "Default / Editing".to_owned(),
        pointer_speed_percent: 165,
        smart_shift_enabled: false,
        smart_shift_threshold: 7,
        ratchet_mode: WheelRatchetMode::FreeSpin,
        high_resolution_scroll: false,
        natural_scroll: true,
        thumb_wheel: ThumbWheelMode::Zoom,
        thumb_wheel_speed_percent: 225,
        ..base.clone()
    };
    for button in Master3sButton::all() {
        profile.set_button_action(button, ButtonAction::Action(Action::Copy));
    }
    profile.normalized()
}

fn assert_complete_hardware_plan(plan: &SettingsApplyPlan) {
    for feature in [
        HidppFeature::PointerSpeed,
        HidppFeature::SmartShift,
        HidppFeature::HiresWheel,
        HidppFeature::ThumbWheel,
    ] {
        assert_eq!(
            plan.steps
                .iter()
                .filter(|step| step.feature == feature)
                .count(),
            1,
            "missing or duplicated {feature:?} step"
        );
    }
    assert_eq!(
        plan.steps
            .iter()
            .filter(|step| step.feature == HidppFeature::ReprogrammableControls)
            .count(),
        Master3sButton::all().len()
    );
    assert!(plan.steps.iter().all(|step| step.requires_device_write));
}

fn assert_released_target(target: &Master3sSettings, base: &Master3sSettings) {
    let base = base.normalized();
    assert_eq!(target.pointer_speed_percent, base.pointer_speed_percent);
    assert_eq!(target.smart_shift_enabled, base.smart_shift_enabled);
    assert_eq!(target.smart_shift_threshold, base.smart_shift_threshold);
    assert_eq!(target.ratchet_mode, base.ratchet_mode);
    assert_eq!(target.high_resolution_scroll, base.high_resolution_scroll);
    assert_eq!(target.natural_scroll, base.natural_scroll);
    assert_eq!(target.thumb_wheel, ThumbWheelMode::HorizontalScroll);
    assert_eq!(
        target.thumb_wheel_speed_percent,
        DEFAULT_THUMB_WHEEL_SPEED_PERCENT
    );
    assert!(Master3sButton::all()
        .into_iter()
        .all(|button| target.button_action(button) == ButtonAction::Native));
}

#[test]
fn restart_without_a_matching_profile_reconciles_all_base_hardware() {
    let base = base_settings();
    let state = RuntimeDeviceLeaseState::new(&base);

    let (target, plan) = state.target_plan("device", &base, false);

    assert_eq!(target, base.normalized());
    assert_complete_hardware_plan(&plan);
}

#[test]
fn profile_to_session_pause_restores_base_hardware_and_native_routes() {
    let base = base_settings();
    let mut state = RuntimeDeviceLeaseState::new(&base);
    let (profile, _) = state.target_plan("device", &profile_settings(&base), false);
    state.commit(profile);

    let (target, plan) = state
        .release_plan("device")
        .expect("profile target requires restoration");

    assert_released_target(&target, &base);
    assert_complete_hardware_plan(&plan);
}

#[test]
fn profile_to_service_stop_restores_the_latest_saved_base() {
    let base = base_settings();
    let mut state = RuntimeDeviceLeaseState::new(&base);
    let (profile, _) = state.target_plan("device", &profile_settings(&base), false);
    state.commit(profile);
    let updated_base = Master3sSettings {
        pointer_speed_percent: 115,
        smart_shift_threshold: 31,
        natural_scroll: true,
        ..base
    };
    state.update_base_settings(&updated_base);

    let (target, plan) = state
        .release_plan("device")
        .expect("service stop requires restoration");

    assert_released_target(&target, &updated_base);
    assert!(plan.steps.iter().any(|step| {
        matches!(
            step.operation,
            SettingsApplyOperation::PointerSpeed { percent: 115 }
        )
    }));
    assert!(plan.steps.iter().any(|step| {
        matches!(
            step.operation,
            SettingsApplyOperation::WheelBehavior { threshold: 31, .. }
        )
    }));
}

#[test]
fn failure_classes_have_distinct_health_and_backoff() {
    let terminal = RuntimeFailure::classify(DogiError::Config("invalid schema".to_owned()));
    let transient = RuntimeFailure::classify(DogiError::DeviceNotFound);

    assert_eq!(terminal.kind, RuntimeFailureKind::Terminal);
    assert_eq!(terminal.readiness(), RuntimeReadiness::Terminal);
    assert_eq!(terminal.retry_delay(), None);
    assert_eq!(transient.kind, RuntimeFailureKind::Transient);
    assert_eq!(transient.retry_delay(), Some(TRANSIENT_RETRY_DELAY_MS));
}

#[test]
fn a_missing_backend_degrades_the_runtime() {
    let degraded =
        RuntimeFailure::classify(DogiError::UnsupportedFeature("thumb wheel".to_owned()));
    assert_eq!(degraded.kind, RuntimeFailureKind::Degraded);
    assert_eq!(degraded.readiness(), RuntimeReadiness::Degraded);
    assert_eq!(degraded.retry_delay(), Some(DEGRADED_RETRY_DELAY_MS));
}

#[test]
fn readiness_snapshot_marks_only_ready_state_as_ready() {
    let ready = RuntimeHealthSnapshot {
        version: "1".to_owned(),
        readiness: RuntimeReadiness::Ready,
        degraded: false,
        last_error: None,
    };
    assert!(ready.ready());
    for readiness in [
        RuntimeReadiness::Starting,
        RuntimeReadiness::Paused,
        RuntimeReadiness::Reconnecting,
        RuntimeReadiness::Degraded,
        RuntimeReadiness::Terminal,
    ] {
        assert!(!RuntimeHealthSnapshot::new(readiness, None).ready());
    }
}

fn apply_report(status: SettingsApplyStatus, state: SettingsTransactionState) -> SettingsApplyReport {
    SettingsApplyReport {
        device_id: "device".to_owned(),
        profile_name: "profile".to_owned(),
        transaction: state,
        outcomes: vec![SettingsApplyOutcome {
            title: "Set pointer speed".to_owned(),
            feature: HidppFeature::PointerSpeed,
            status,
            detail: Some("original value restored".to_owned()),
        }],
    }
}

#[test]
fn rolled_back_device_transaction_is_not_accepted_as_applied() {
    let report = apply_report(
        SettingsApplyStatus::RolledBack,
        SettingsTransactionState::RolledBack,
    );

    assert!(ensure_device_apply_succeeded(&report).is_err());
    assert!(ensure_device_apply_succeeded(&apply_report(
        SettingsApplyStatus::Applied,
        SettingsTransactionState::Committed,
    ))
    .is_ok());
}

fn runtime_device(endpoint: &str, slot: u8, unit_id: &str) -> DeviceInfo {
    DeviceInfo {
        id: format!("{endpoint}:slot:{slot:02x}:wpid:b034"),
        name: "Logitech Bolt Receiver".to_owned(),
        paired_device: Some(PairedDeviceInfo {
            slot,
            name: Some("MX Master 3S".to_owned()),
            kind: Some("mouse".to_owned()),
            wpid: Some("B034".to_owned()),
            protocol: None,
            unit_id: Some(unit_id.to_owned()),
            model_id: Some("B034".to_owned()),
            feature_count: 0,
            features_complete: true,
            features: Vec::new(),
        }),
        manufacturer: Some("Logitech".to_owned()),
        serial_number: Some(format!("SERIAL-{endpoint}")),
        bus: BusKind::Usb,
        bus_id: Some(0x0003),
        vendor_id: 0x046d,
        product_id: 0xc548,
        release_number: None,
        connection: ConnectionKind::Bolt,
        receiver_kind: Some(ReceiverKind::Bolt),
        path: format!("/dev/{endpoint}"),
        sysfs_path: format!("/sys/class/hidraw/{endpoint}"),
        physical_path: Some(format!("usb-{endpoint}")),
        driver: Some("hid-generic".to_owned()),
        interface_number: Some(2),
        usage_page: Some(0xff00),
        usage: Some(0x0001),
        access: DeviceAccess::default(),
        battery: BatteryInfo::not_queried("test"),
        report_descriptor: ReportDescriptorInfo {
            hidpp_usage: Some(HidUsage {
                usage_page: 0xff00,
                usage: 0x0001,
            }),
            ..ReportDescriptorInfo::default()
        },
        capabilities: DeviceCapabilities::default(),
    }
}

fn selected(selector: &mut ActiveDeviceSelector, devices: &[DeviceInfo]) -> Option<String> {
    selector.select(devices).map(|choice| choice.0)
}

#[test]
fn same_receiver_dual_slots_choose_one_stable_event_consumer() {
    let first = runtime_device("receiver-a", 1, "UNIT-B");
    let second = runtime_device("receiver-a", 2, "UNIT-A");
    let mut selector = ActiveDeviceSelector::in_memory(None);

    let choice = selected(&mut selector, &[first.clone(), second.clone()])
        .expect("a runtime device is selected");

    assert_eq!(choice, second.id);
    assert_eq!(hidpp_endpoint_id(&first.id), hidpp_endpoint_id(&second.id));
}

#[test]
fn dual_receivers_keep_the_persisted_active_device() {
    let preferred = runtime_device("receiver-b", 1, "UNIT-B");
    let other = runtime_device("receiver-a", 1, "UNIT-A");
    let mut initial = ActiveDeviceSelector::load(None);
    let (choice, store) = initial
        .select(std::slice::from_ref(&preferred))
        .expect("the only receiver is selected");
    assert_eq!(choice, preferred.id);
    assert!(store);

    let stored = initial.preference_key.clone().map(|key| (1, key));
    let mut restarted = ActiveDeviceSelector::load(stored);
    let choice = selected(&mut restarted, &[other, preferred.clone()])
        .expect("persisted receiver is selected");

    assert_eq!(choice, preferred.id);
}

#[test]
fn active_device_disconnect_falls_back_and_does_not_flap_on_reconnect() {
    let preferred = runtime_device("receiver-a", 1, "UNIT-A");
    let fallback = runtime_device("receiver-b", 1, "UNIT-B");
    let mut selector = ActiveDeviceSelector::in_memory(Some("046d:unit:UNITA"));
    assert_eq!(
        selected(&mut selector, &[fallback.clone(), preferred.clone()]),
        Some(preferred.id.clone())
    );

    assert_eq!(
        selected(&mut selector, std::slice::from_ref(&fallback)),
        Some(fallback.id.clone())
    );
    assert_eq!(
        selected(&mut selector, &[preferred, fallback.clone()]),
        Some(fallback.id)
    );
}

#[test]
fn no_device_is_selected_where_none_is_connected() {
    let mut selector = ActiveDeviceSelector::in_memory(None);
    assert_eq!(selector.select(&[]), None);
}

#[test]
fn a_named_device_is_not_replaced_by_the_preview() {
    assert_eq!(
        choose_device(&Some("a".to_owned()), &None).unwrap(),
        DeviceChoice::Named("a".to_owned())
    );
    assert_eq!(choose_device(&None, &None).unwrap(), DeviceChoice::Automatic);
    assert_eq!(
        choose_device(&None, &Some("b".to_owned())).unwrap(),
        DeviceChoice::Named("b".to_owned())
    );
    assert_eq!(
        choose_device(&Some("a".to_owned()), &Some("b".to_owned())).unwrap(),
        DeviceChoice::Named("a".to_owned())
    );
    assert!(matches!(
        choose_device(&Some("  ".to_owned()), &None),
        Err(DogiError::InvalidArgument(_))
    ));
}

#[test]
fn a_lease_without_writes_leaves_the_device_alone() {
    let base = base_settings();
    let lease = RuntimeDeviceLease::new("device", false, &base);
    assert!(!matches!(
        lease.apply_target(&profile_settings(&base), false),
        LeaseStep::Write { .. }
    ));
    assert!(!matches!(lease.release_base(), LeaseStep::Write { .. }));
}

#[test]
fn a_failed_restoration_is_reported() {
    let transport = || DogiError::Transport("gone".to_owned());
    assert_eq!(
        session_result(Ok(RuntimeSessionOutcome::Completed), Ok(())),
        Ok(RuntimeSessionOutcome::Completed)
    );
    assert!(session_result(Ok(RuntimeSessionOutcome::Completed), Err(transport())).is_err());
    assert!(session_result(Err(transport()), Ok(())).is_err());
}

#[test]
fn a_device_is_released_however_its_session_ends() {
    let gone = || DogiError::Transport("gone".to_owned());
    let committed = || SettingsApplyReport {
        device_id: "device".to_owned(),
        profile_name: String::new(),
        transaction: SettingsTransactionState::Committed,
        outcomes: Vec::new(),
    };
    let base = base_settings();

    let mut control = SharedPreviewState::default();
    let mut lease = RuntimeDeviceLease::new("device", true, &base);
    let closing = SessionClosing::not_begun(gone());
    match closing.step(&lease) {
        LeaseStep::Write { target, .. } => lease.finish_write(target, Ok(committed())).unwrap(),
        other => panic!("{other:?}"),
    }
    let before = control.health.clone();
    let (closing, notice) = closing.note_release(&mut control, Ok(()));
    assert_eq!(notice, None);
    assert_eq!(control.health, before);
    assert!(matches!(closing.step(&lease), LeaseStep::Nothing));
    assert_eq!(closing, SessionClosing::Closed { result: Err(gone()) });

    let lease = RuntimeDeviceLease::new("device", true, &base);
    let closing = SessionClosing::ended(Ok(RuntimeSessionOutcome::Completed));
    assert!(matches!(closing.step(&lease), LeaseStep::Write { .. }));
    let (closing, notice) = closing.note_release(&mut control, Err(gone()));
    assert_eq!(notice, None);
    assert_eq!(control.health, before);
    assert!(matches!(closing.step(&lease), LeaseStep::Write { .. }));
    let (closing, notice) = closing.note_release(&mut control, Err(gone()));
    let detail = format!("failed to restore base device settings: {}", gone().message());
    assert_eq!(notice, Some(detail.clone()));
    assert_eq!(
        control.health,
        RuntimeHealthSnapshot::new(RuntimeReadiness::Degraded, Some(detail.clone()))
    );
    assert_eq!(
        closing,
        SessionClosing::Closed {
            result: Err(DogiError::BackendUnavailable(detail))
        }
    );

    let (closing, _) = SessionClosing::ended(Ok(RuntimeSessionOutcome::SwitchDevice))
        .note_release(&mut control, Ok(()));
    let (closing, _) = closing.note_release(&mut control, Ok(()));
    assert_eq!(
        closing,
        SessionClosing::Closed {
            result: Ok(RuntimeSessionOutcome::SwitchDevice)
        }
    );
}

#[test]
fn a_turn_writes_the_profile_and_then_listens() {
    let options = RuntimeSupervisorOptions {
        device_id: Some("device".to_owned()),
        max_events: Some(1),
        idle_timeout_ms: 1_000,
        execute_actions: true,
        allow_device_write: true,
    };
    let base = base_settings();
    let profile = profile_settings(&base);
    let mut session = RuntimeSession::new(&options, false, "device", base);
    let mut control = SharedPreviewState::default();
    let snapshot = SessionSnapshot::observed(GraphicalSessionMode::LocalActive);
    let observer = SessionObserver::new(snapshot.clone());
    let snapshot = observer.snapshot();
    assert!(!session.ends_at_once());
    session.synchronize_session(&snapshot);
    let turn = match session.observe(
        &mut control,
        &snapshot,
        &profile,
        Some("Editing".to_owned()),
        0,
    ) {
        Turn::Proceed(turn) => turn,
        Turn::SwitchDevice => panic!("the device is named"),
    };
    let target = match session.device_step(&turn, &observer) {
        DeviceStep::Write { target, plan } => {
            assert_complete_hardware_plan(&plan);
            target
        }
        other => panic!("{other:?}"),
    };
    let work = DeviceWork::Written {
        target,
        outcome: Ok(apply_report(
            SettingsApplyStatus::Applied,
            SettingsTransactionState::Committed,
        )),
    };
    match session.conclude(&mut control, turn, work, &observer) {
        TurnEnd::Listen(plan) => assert!(plan.requires_listener()),
        other => panic!("{other:?}"),
    }
    assert!(session.lease.owns_target(&profile));
    assert!(session.record_event());
}

// --- failures ----------------------------------------------------------------

#[test]
fn a_repeated_failure_is_told_once_and_then_rarely() {
    let mut tracker = FailureTracker::new();
    let mut control = SharedPreviewState::default();
    let failure = RuntimeFailure::classify(DogiError::DeviceNotFound);
    assert!(tracker.publish(&mut control, &failure).is_some());
    for _ in 2..20 {
        assert!(tracker.publish(&mut control, &failure).is_none());
    }
    let line = tracker.publish(&mut control, &failure).unwrap();
    assert!(line.contains("20 attempts"), "{line}");
    assert_eq!(control.health.readiness, failure.readiness());
    tracker.reset();
    assert!(tracker.publish(&mut control, &failure).is_some());
}

#[test]
fn a_bounded_run_ends_with_its_first_failure() {
    let mut control = SharedPreviewState::default();
    let mut run = RuntimeRun::new(true);
    assert!(matches!(
        run.conclude(Err(DogiError::DeviceNotFound), &mut control),
        RunStep::Fail(_)
    ));
    let mut endless = RuntimeRun::new(false);
    match endless.conclude(Err(DogiError::DeviceNotFound), &mut control) {
        RunStep::Wait { delay, line } => {
            assert_eq!(delay, Some(TRANSIENT_RETRY_DELAY_MS));
            assert!(line.is_some());
        }
        other => panic!("{other:?}"),
    }
    assert_eq!(
        endless.conclude(Ok(RuntimeSessionOutcome::SwitchDevice), &mut control),
        RunStep::Continue
    );
}

#[test]
fn waiting_is_cut_into_slices() {
    assert_eq!(retry_slice(0, 1_000), Some(250));
    assert_eq!(retry_slice(900, 1_000), Some(100));
    assert_eq!(retry_slice(1_000, 1_000), None);
}

#[test]
fn a_changed_file_ends_the_waiting() {
    let revision = PathRevision {
        length: 3,
        modified: Some(7),
        is_directory: false,
    };
    let changed = PathRevision {
        modified: Some(8),
        ..revision
    };
    assert!(!any_revision_changed(
        &vec![Some(revision), None],
        &vec![Some(revision), None]
    ));
    assert!(any_revision_changed(
        &vec![Some(revision), None],
        &vec![Some(changed), None]
    ));
    assert!(any_revision_changed(
        &vec![Some(revision), None],
        &vec![Some(revision), Some(revision)]
    ));
}

#[test]
fn a_message_is_told_once() {
    let mut previous = String::new();
    assert!(publish_once(&mut previous, "no focus", "focus").is_some());
    assert!(publish_once(&mut previous, "no focus", "focus").is_none());
    assert!(publish_once(&mut previous, "other", "focus").is_some());
}
