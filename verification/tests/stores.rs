use dogi::device::{journal_paths, DeviceService};
use dogi::plan::{
    SettingsApplyPlan, SettingsApplyReport, SettingsTransactionState,
};
use dogi::settings::{
    Action, AppProfile, AppProfileOverrides, ApplicationMatchField, ApplicationMatcher,
    ButtonAction, Master3sButton, Master3sSettings, ThumbWheelMode, WheelRatchetMode,
};
use dogi::settings_merge::{merge_profiles, rebase};
use dogi::store::{
    read_store, SettingsSource, StoreStep, StoredMaster3sSettings, SETTINGS_FILE_VERSION,
};
use dogi::transaction::{
    summarize_recoveries, DeviceTransactionPhase, FlowEvent, FlowResult, FlowStage, JournalSource,
    PreparedSettingsTransaction, RecoveryOutcome, RecoveryStep, StoredDeviceTransaction,
    DEVICE_TRANSACTION_FILE_VERSION,
};

fn with_speed(percent: u8) -> Master3sSettings {
    Master3sSettings {
        pointer_speed_percent: percent,
        ..Master3sSettings::default()
    }
}

#[test]
fn device_saves_and_loads_settings_from_config_path() {
    let daemon = DeviceService::with_config_path("/c/devices.json");
    let (store, saved_path) = daemon
        .save_master3s_settings(StoredMaster3sSettings::default(), &with_speed(125))
        .unwrap();

    assert_eq!(saved_path, "/c/devices.json");
    assert_eq!(daemon.load_master3s_settings(&store).pointer_speed_percent, 125);
}

#[test]
fn device_missing_settings_file_uses_default() {
    let daemon = DeviceService::with_config_path("/c/devices.json");
    match read_store("/c/devices.json", SettingsSource::Missing) {
        StoreStep::Use(store) => assert_eq!(
            daemon.load_master3s_settings(&store),
            Master3sSettings::default()
        ),
        other => panic!("{other:?}"),
    }
}

#[test]
fn device_saved_settings_are_normalized() {
    let daemon = DeviceService::with_config_path("/c/devices.json");
    let (store, _) = daemon
        .save_master3s_settings(StoredMaster3sSettings::default(), &with_speed(250))
        .unwrap();
    assert_eq!(daemon.load_master3s_settings(&store).pointer_speed_percent, 200);
}

/// What is loaded in place of unusable settings, and what is said of it.
fn replaced(source: SettingsSource) -> (Master3sSettings, String) {
    let step = read_store("/c/devices.json", source);
    match &step {
        StoreStep::Replace { label, store, .. } => {
            assert!(!label.is_empty());
            assert_eq!(*store, StoredMaster3sSettings::default());
        }
        other => panic!("{other:?}"),
    }
    let mut daemon = DeviceService::with_config_path("/c/devices.json");
    let store = daemon
        .conclude_reading(step, &Some("/c/backup.json".to_owned()))
        .unwrap();
    let loaded = daemon.load_master3s_settings(&store);
    let notice = daemon.take_recovery_notice().unwrap();
    assert_eq!(daemon.take_recovery_notice(), None);
    (loaded, notice)
}

#[test]
fn usable_settings_are_read_without_a_notice() {
    let mut daemon = DeviceService::with_config_path("/c/devices.json");
    let missing = read_store("/c/devices.json", SettingsSource::Missing);
    let store = daemon.conclude_reading(missing, &None).unwrap();
    assert_eq!(daemon.load_master3s_settings(&store), Master3sSettings::default());
    assert_eq!(daemon.take_recovery_notice(), None);

    let (loaded, notice) = replaced(SettingsSource::NotJson("expected value".to_owned()));
    assert_eq!(loaded, Master3sSettings::default());
    assert!(notice.contains("preserved"));

    let unreadable = read_store(
        "/c/devices.json",
        SettingsSource::Unreadable("denied".to_owned()),
    );
    assert_eq!(
        daemon.conclude_reading(unreadable, &None).unwrap_err().message(),
        "configuration error: failed to read /c/devices.json: denied"
    );
    assert_eq!(daemon.take_recovery_notice(), None);
}

#[test]
fn unversioned_settings_are_preserved_and_replaced_with_defaults() {
    let (loaded, notice) = replaced(SettingsSource::Document {
        version: None,
        store: Err("missing field `version`".to_owned()),
    });
    assert_eq!(loaded, Master3sSettings::default());
    assert!(notice.contains("preserved"));
}

#[test]
fn obsolete_settings_schema_is_preserved_and_reset() {
    let (loaded, notice) = replaced(SettingsSource::Document {
        version: Some(4),
        store: Ok(StoredMaster3sSettings {
            version: 4,
            default: with_speed(135),
            ..StoredMaster3sSettings::default()
        }),
    });
    assert_eq!(loaded, Master3sSettings::default());
    assert!(notice.contains("unsupported schema version 4"), "{notice}");
}

#[test]
fn future_settings_schema_is_preserved_and_reset() {
    let (loaded, notice) = replaced(SettingsSource::Document {
        version: Some(u64::from(SETTINGS_FILE_VERSION) + 1),
        store: Ok(StoredMaster3sSettings {
            version: SETTINGS_FILE_VERSION + 1,
            ..StoredMaster3sSettings::default()
        }),
    });
    assert_eq!(loaded, Master3sSettings::default());
    assert!(notice.contains("unsupported schema version"));
}

#[test]
fn device_device_settings_are_isolated_and_fall_back_to_default() {
    let daemon = DeviceService::with_config_path("/c/devices.json");
    let (store, _) = daemon
        .save_master3s_settings(StoredMaster3sSettings::default(), &with_speed(90))
        .unwrap();
    let (store, _) = daemon
        .save_master3s_settings_for_device(store, "device-a", &with_speed(125))
        .unwrap();

    assert_eq!(
        daemon
            .load_master3s_settings_for_device(&store, "device-a")
            .pointer_speed_percent,
        125
    );
    assert_eq!(
        daemon
            .load_master3s_settings_for_device(&store, "device-b")
            .pointer_speed_percent,
        90
    );
    assert_eq!(daemon.load_master3s_settings(&store).pointer_speed_percent, 90);
}

#[test]
fn device_updating_default_preserves_saved_device_settings() {
    let daemon = DeviceService::with_config_path("/c/devices.json");
    let (store, _) = daemon
        .save_master3s_settings_for_device(
            StoredMaster3sSettings::default(),
            "device-a",
            &with_speed(140),
        )
        .unwrap();
    let (store, _) = daemon
        .save_master3s_settings(store, &with_speed(80))
        .unwrap();

    assert_eq!(
        daemon
            .load_master3s_settings_for_device(&store, "device-a")
            .pointer_speed_percent,
        140
    );
}

#[test]
fn concurrent_device_updates_do_not_lose_each_other() {
    let daemon = DeviceService::with_config_path("/c/devices.json");
    for (first, second) in [
        (("device-a", 110), ("device-b", 140)),
        (("device-b", 140), ("device-a", 110)),
    ] {
        let mut store = StoredMaster3sSettings::default();
        for (device, speed) in [first, second] {
            store = daemon
                .save_master3s_settings_for_device(store, device, &with_speed(speed))
                .unwrap()
                .0;
        }
        assert_eq!(
            daemon
                .load_master3s_settings_for_device(&store, "device-a")
                .pointer_speed_percent,
            110
        );
        assert_eq!(
            daemon
                .load_master3s_settings_for_device(&store, "device-b")
                .pointer_speed_percent,
            140
        );
    }
}

#[test]
fn settings_without_a_path_are_not_saved() {
    let daemon = DeviceService::new();
    assert!(daemon.master3s_settings_path().is_err());
    assert!(daemon
        .save_master3s_settings(StoredMaster3sSettings::default(), &with_speed(80))
        .is_err());
}

fn prepared(slot: u8, unit: &str) -> PreparedSettingsTransaction {
    PreparedSettingsTransaction {
        device_id: format!("receiver:slot:{slot:02}:wpid:B034"),
        stable_device_key: format!("receiver-a-{unit}"),
        profile_name: "Default".to_owned(),
        changes: Vec::new(),
    }
}

fn committed_journal(speed: u8) -> StoredDeviceTransaction {
    StoredDeviceTransaction {
        version: DEVICE_TRANSACTION_FILE_VERSION,
        phase: DeviceTransactionPhase::DeviceCommitted,
        transaction: prepared(1, "AABBCCDD"),
        settings_id: Some("device-a".to_owned()),
        settings: Some(with_speed(speed)),
    }
}

#[test]
fn committed_device_transaction_rolls_configuration_forward_after_restart() {
    let daemon = DeviceService::with_config_path("/c/devices.json");
    let step = daemon.recover_interrupted_settings_transaction(
        "/c/transactions/a.json",
        JournalSource::Journal(committed_journal(135)),
    );
    match step {
        RecoveryStep::RollForward {
            settings_id,
            settings,
        } => {
            assert_eq!(settings_id, "device-a");
            let (store, _) = daemon
                .save_master3s_settings_for_device(
                    StoredMaster3sSettings::default(),
                    &settings_id,
                    &settings,
                )
                .unwrap();
            assert_eq!(
                daemon
                    .load_master3s_settings_for_device(&store, "device-a")
                    .pointer_speed_percent,
                135
            );
        }
        other => panic!("{other:?}"),
    }
}

#[test]
fn a_corrupt_device_journal_does_not_block_another_device() {
    let mut daemon = DeviceService::with_config_path("/c/devices.json");
    let paths = journal_paths(&vec![
        "/c/t/b.json".to_owned(),
        "/c/t/aaa-corrupt.json".to_owned(),
        "/c/t/notes.txt".to_owned(),
    ]);
    assert_eq!(paths, vec!["/c/t/aaa-corrupt.json", "/c/t/b.json"]);
    match daemon.recover_interrupted_settings_transaction(&paths[0], JournalSource::Invalid) {
        RecoveryStep::Preserve { notice, .. } => {
            daemon.record_preserved_transaction(notice, &Some("/c/t/x".to_owned()), &paths[0])
        }
        other => panic!("{other:?}"),
    }
    assert!(daemon.take_recovery_notice().is_some());
    assert!(matches!(
        daemon.recover_interrupted_settings_transaction(
            &paths[1],
            JournalSource::Journal(committed_journal(145))
        ),
        RecoveryStep::RollForward { .. }
    ));
    let summary = summarize_recoveries(vec![
        RecoveryOutcome {
            path: paths[0].clone(),
            result: Ok(None),
        },
        RecoveryOutcome {
            path: paths[1].clone(),
            result: Ok(None),
        },
    ]);
    assert_eq!(summary, Ok(None));
}

#[test]
fn device_plans_local_runtime_actions() {
    let daemon = DeviceService::new();
    let settings = Master3sSettings {
        thumb_wheel: ThumbWheelMode::Zoom,
        ..Master3sSettings::default()
    };

    let plan = daemon.plan_master3s_runtime(&settings);

    assert!(plan.requires_listener());
    assert!(plan.summary().contains("thumb wheel zoom"));
}

#[test]
fn native_settings_need_no_listener() {
    let plan = DeviceService::new().plan_master3s_runtime(&Master3sSettings::default());
    assert!(!plan.requires_listener());
}

fn report(state: SettingsTransactionState) -> SettingsApplyReport {
    SettingsApplyReport {
        device_id: "device".to_owned(),
        profile_name: "Default".to_owned(),
        transaction: state,
        outcomes: Vec::new(),
    }
}

fn reviewed() -> (DeviceService, SettingsApplyPlan, Master3sSettings) {
    let mut daemon = DeviceService::with_config_path("/c/devices.json");
    let settings = with_speed(120).normalized();
    let plan = daemon.plan_master3s_settings("device", &settings);
    daemon.keep_prepared("device", settings.clone(), plan.clone(), prepared(1, "AA"));
    (daemon, plan, settings)
}

#[test]
fn a_change_is_journaled_before_it_is_written() {
    let (mut daemon, plan, settings) = reviewed();
    let mut flow = daemon
        .commit_prepared_master3s_settings("device", "device-a", &settings, &plan)
        .unwrap();
    let mut stages = vec![flow.stage];
    for _ in 0..12 {
        let event = match flow.stage {
            FlowStage::Recovering => FlowEvent::Recovered(None),
            FlowStage::PreparingAgain => FlowEvent::Prepared(prepared(1, "AA")),
            FlowStage::Executing => {
                FlowEvent::Executed(report(SettingsTransactionState::Committed))
            }
            FlowStage::Saving => FlowEvent::Saved("/c/devices.json".to_owned()),
            FlowStage::Finished => break,
            _ => FlowEvent::Done,
        };
        flow.advance(event);
        stages.push(flow.stage);
    }
    let journal = stages
        .iter()
        .position(|stage| *stage == FlowStage::WritingJournal)
        .unwrap();
    let write = stages
        .iter()
        .position(|stage| *stage == FlowStage::Executing)
        .unwrap();
    assert!(journal < write);
    match flow.result {
        Some(FlowResult::Committed { report, path }) => {
            assert!(report.committed());
            assert_eq!(path, "/c/devices.json");
        }
        other => panic!("{other:?}"),
    }
}

#[test]
fn an_unreviewed_change_is_not_committed() {
    let (mut daemon, plan, settings) = reviewed();
    let other = with_speed(60);
    assert!(daemon
        .commit_prepared_master3s_settings("device", "device-a", &other, &plan)
        .is_err());
    let (mut daemon, plan, _) = reviewed();
    assert!(daemon
        .commit_prepared_master3s_settings("other", "device-a", &settings, &plan)
        .is_err());
}

#[test]
fn editing_one_control_preserves_other_saved_controls() {
    let base = Master3sSettings::default();
    let mut saved = base.clone();
    saved.thumb_wheel_speed_percent = 392;
    saved.ratchet_mode = WheelRatchetMode::FreeSpin;
    saved.gestures.threshold = 90;
    saved.gestures.left = Action::Copy;
    saved.set_button_action(Master3sButton::Forward, ButtonAction::Action(Action::Paste));
    let saved = saved.normalized();
    let mut draft = base.clone();
    draft.smart_shift_threshold = 35;
    draft.gestures.up = Action::MiddleClick;
    draft.set_button_action(Master3sButton::Back, ButtonAction::Action(Action::Copy));

    let merged = rebase(&base, &draft, &saved);

    let mut expected = saved;
    expected.smart_shift_threshold = 35;
    expected.gestures.up = Action::MiddleClick;
    expected.set_button_action(Master3sButton::Back, ButtonAction::Action(Action::Copy));
    assert_eq!(merged, expected);
}

#[test]
fn explicit_speed_edit_wins_and_reverted_edits_do_not_override_saved_settings() {
    let base = Master3sSettings::default();
    let saved = Master3sSettings {
        pointer_speed_percent: 135,
        thumb_wheel_speed_percent: 392,
        ..base.clone()
    };
    let draft = Master3sSettings {
        thumb_wheel_speed_percent: 225,
        ..base.clone()
    };
    let merged = rebase(&base, &draft, &saved);
    assert_eq!(merged.thumb_wheel_speed_percent, 225);
    assert_eq!(merged.pointer_speed_percent, 135);
    assert_eq!(rebase(&base, &base, &saved), saved);
}

#[test]
fn profile_edits_preserve_unrelated_saved_profiles() {
    let profile = |name: &str, speed: u8| AppProfile {
        name: name.to_owned(),
        matcher: ApplicationMatcher {
            field: ApplicationMatchField::Executable,
            value: name.to_owned(),
        },
        overrides: AppProfileOverrides {
            pointer_speed_percent: Some(speed),
            ..Default::default()
        },
    };
    let base = vec![profile("Firefox", 100), profile("Remove", 100)];
    let draft = vec![profile(" firefox ", 125), profile("New", 130)];
    let saved = vec![
        profile("Terminal", 90),
        profile("Firefox", 110),
        profile("Remove", 120),
    ];

    assert_eq!(
        merge_profiles(&base, &draft, &saved),
        vec![
            profile("Terminal", 90),
            profile(" firefox ", 125),
            profile("New", 130)
        ]
    );
}
