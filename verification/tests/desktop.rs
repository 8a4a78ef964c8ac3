use dogi::app_config::{
    conclude_reading, describe_replacement, read_config, ApplicationLanguage, ApplicationPreferenceChange,
    ApplicationPreferences, ApplicationTheme, CloseBehavior, ConfigSource, ConfigStep,
    NetworkProxyMode, NetworkProxyPreferences, NetworkProxyProtocol, StoredApplicationConfig,
    APP_CONFIG_SCHEMA_VERSION,
};
use dogi::environment::{
    current_user, detect_distribution, elevated_user, portable_marker_path, portable_root,
    resolve_paths, runtime_policy, update_policy, BuildChannel, Distribution, PathVariables,
    RuntimeIntegration, UserContext,
};
use dogi::error::DogiError;
use dogi::focus::{
    parse_active_window_id, parse_quoted_strings, parse_window_properties,
    SystemActiveApplicationProvider,
};
use dogi::launch::{launch_fault, runtime_availability, DesktopRuntimeAvailability};
use dogi::network::{
    conclude_save, credential_read_error, credential_removal_error, normalize, plan_save,
    CredentialChange, NetworkProxyDraft, ProxySave,
};
use dogi::notifications::{
    fully_charged_content, in_chinese, low_battery_content, show_fully_charged, show_low_battery,
    BatteryNotificationLevel, NotificationUrgency,
};
use dogi::persistence::{
    next_write_step, private_directory_components, quarantine_name, sibling_lock_path,
    temporary_name, wait_for_lock, LockWait, WriteStep,
};
use dogi::proxy::{
    policy_from_preferences, policy_route, proxy_route, resolve_system_proxy, ManualProtocol,
    PolicyStep, ProxyAddress, ProxyPolicy, RouteProtocol, SystemRoute,
};
use dogi::service::{
    commands_to_start, commands_to_stop, conclude_start, ensure_persistent_integration,
    pause_reason, portable_unit, removal_step, service_status, systemctl_fault, systemd_quote,
    unit_changes, user_unit_path, validate_integration, CommandEnd, DesktopRuntimePauseReason,
    FoundUnits, RemovalStep, UnitSource, STATIC_DEBIAN_UNIT,
};
use dogi::session::GraphicalSessionMode;

// --- focus -------------------------------------------------------------------

#[test]
fn parses_active_window_id() {
    assert_eq!(
        parse_active_window_id("_NET_ACTIVE_WINDOW(WINDOW): window id # 0x03a00007\n"),
        Some("0x03a00007".to_owned())
    );
    assert_eq!(
        parse_active_window_id("_NET_ACTIVE_WINDOW(WINDOW): window id # 0x0\n"),
        None
    );
}

#[test]
fn parses_window_properties() {
    let app = parse_window_properties(
        "WM_CLASS(STRING) = \"Navigator\", \"firefox\"\n\
         _NET_WM_NAME(UTF8_STRING) = \"dogi - Mozilla Firefox\"\n",
    )
    .unwrap();

    assert_eq!(app.name.as_deref(), Some("dogi - Mozilla Firefox"));
    assert_eq!(app.class.as_deref(), Some("firefox"));
    assert_eq!(app.executable.as_deref(), Some("Navigator"));
}

#[test]
fn parses_escaped_xprop_strings() {
    assert_eq!(
        parse_quoted_strings("\"one \\\"quoted\\\" value\", \"two\""),
        vec!["one \"quoted\" value".to_owned(), "two".to_owned()]
    );
}

#[test]
fn windows_without_properties_are_no_application() {
    assert_eq!(parse_window_properties("WM_CLASS:  not found.\n"), None);
    assert_eq!(parse_window_properties(""), None);
    let only_name = parse_window_properties("WM_NAME(STRING) = \"xterm\"\n").unwrap();
    assert_eq!(only_name.name.as_deref(), Some("xterm"));
    assert_eq!(only_name.class, None);
}

#[test]
fn the_window_is_asked_for_after_the_root() {
    let provider = SystemActiveApplicationProvider::new();
    assert_eq!(provider.root_query(), vec!["-root", "_NET_ACTIVE_WINDOW"]);
    let query = provider
        .window_query("_NET_ACTIVE_WINDOW(WINDOW): window id # 0x2a\n")
        .unwrap();
    assert_eq!(query[..2], ["-id".to_owned(), "0x2a".to_owned()]);
    assert_eq!(provider.window_query("nothing"), None);
}

// --- notifications -----------------------------------------------------------

#[test]
fn low_battery_copy_is_localized_and_device_specific() {
    assert_eq!(
        low_battery_content(
            ApplicationLanguage::SimplifiedChinese,
            "",
            "MX Master 3S",
            18,
            BatteryNotificationLevel::Low,
        ),
        (
            "MX Master 3S 电量低".to_owned(),
            "剩余 18%，请及时充电。".to_owned(),
        )
    );
    assert_eq!(
        low_battery_content(
            ApplicationLanguage::English,
            "",
            "MX Master 3S",
            8,
            BatteryNotificationLevel::Critical,
        ),
        (
            "MX Master 3S battery is critically low".to_owned(),
            "Only 8% remains. Connect a charging cable.".to_owned(),
        )
    );
}

#[test]
fn fully_charged_copy_is_localized_and_device_specific() {
    assert_eq!(
        fully_charged_content(ApplicationLanguage::SimplifiedChinese, "", "MX Master 3S"),
        (
            "MX Master 3S 已充满".to_owned(),
            "充电已完成，可以拔下充电线。".to_owned(),
        )
    );
    assert_eq!(
        fully_charged_content(ApplicationLanguage::English, "", "MX Master 3S"),
        (
            "MX Master 3S is fully charged".to_owned(),
            "Charging is complete. You can disconnect the cable.".to_owned(),
        )
    );
}

#[test]
fn the_system_language_follows_the_locale() {
    assert!(in_chinese(ApplicationLanguage::System, "zh_CN.UTF-8"));
    assert!(!in_chinese(ApplicationLanguage::System, "en_US.UTF-8"));
    assert!(!in_chinese(ApplicationLanguage::English, "zh_CN.UTF-8"));
    assert!(in_chinese(ApplicationLanguage::SimplifiedChinese, "C"));
}

#[test]
fn a_notification_replaces_the_one_before() {
    let critical = show_low_battery(
        ApplicationLanguage::English,
        "",
        "Mouse",
        5,
        BatteryNotificationLevel::Critical,
        Some(7),
    );
    assert_eq!(critical.replaces_id, 7);
    assert_eq!(critical.urgency, NotificationUrgency::Critical);
    assert_eq!(critical.urgency.level(), 2);
    let full = show_fully_charged(ApplicationLanguage::English, "", "Mouse", None);
    assert_eq!(full.replaces_id, 0);
    assert_eq!(full.urgency.level(), 1);
}

// --- environment -------------------------------------------------------------

fn no_variables() -> PathVariables {
    PathVariables {
        config_home: None,
        cache_home: None,
        runtime_dir: None,
        euid: 1000,
    }
}

fn tester() -> UserContext {
    UserContext {
        home: "/home/tester".to_owned(),
        uid: Some(1000),
        gid: Some(1000),
    }
}

#[test]
fn development_paths_have_an_isolated_namespace() {
    let paths = resolve_paths(BuildChannel::Development, &tester(), &no_variables());

    assert_eq!(paths.config, "/home/tester/.config/dogi-development");
    assert_eq!(paths.cache, "/home/tester/.cache/dogi-development");
    assert_eq!(paths.runtime, "/run/user/1000/dogi-development");
    assert_eq!(
        paths.global_runtime_lock,
        "/run/user/1000/dogi-runtime.lock"
    );
}

#[test]
fn stable_paths_follow_the_variables() {
    let own = UserContext {
        uid: None,
        gid: None,
        ..tester()
    };
    let variables = PathVariables {
        config_home: Some("/cfg".to_owned()),
        cache_home: Some("/cache".to_owned()),
        runtime_dir: Some("/rt".to_owned()),
        euid: 1000,
    };
    let paths = resolve_paths(BuildChannel::Stable, &own, &variables);
    assert_eq!(paths.config, "/cfg/dogi");
    assert_eq!(paths.cache, "/cache/dogi");
    assert_eq!(paths.runtime, "/rt/dogi");
    assert!(paths.application_config().starts_with("/cfg/dogi/"));
    assert!(paths.update_cache().starts_with("/cache/dogi/"));
    assert!(paths.runtime_control_socket().starts_with("/rt/dogi/"));
}

#[test]
fn development_builds_ignore_installation_layouts() {
    assert_eq!(
        detect_distribution(
            BuildChannel::Development,
            "/usr/bin/dogi",
            &Some("debian\n".to_owned()),
            &None
        ),
        Distribution::Unmanaged
    );
}

#[test]
fn unmanaged_stable_binaries_do_not_gain_persistent_integrations() {
    let runtime = runtime_policy(BuildChannel::Stable, &Distribution::Unmanaged);
    let updates = update_policy(BuildChannel::Stable, &Distribution::Unmanaged);

    assert_eq!(runtime.integration, RuntimeIntegration::ForegroundOnly);
    assert!(!updates.enabled);
}

#[test]
fn install_detects_a_complete_portable_layout() {
    assert_eq!(
        portable_root("/opt/dogi/bin/dogi"),
        Some("/opt/dogi".to_owned())
    );
    assert_eq!(
        detect_distribution(
            BuildChannel::Stable,
            "/opt/dogi/bin/dogi",
            &None,
            &Some("portable\n".to_owned())
        ),
        Distribution::Portable {
            root: "/opt/dogi".to_owned()
        }
    );
    assert!(portable_marker_path("/opt/dogi").starts_with("/opt/dogi/"));
}

#[test]
fn install_arbitrary_release_binary_is_not_treated_as_portable() {
    assert_eq!(portable_root("/tmp/dogi"), None);
    assert_eq!(
        detect_distribution(BuildChannel::Stable, "/tmp/dogi", &None, &None),
        Distribution::Unmanaged
    );
}

#[test]
fn the_packaged_binary_needs_its_marker() {
    assert_eq!(
        detect_distribution(
            BuildChannel::Stable,
            "/usr/bin/dogi",
            &Some("debian\n".to_owned()),
            &None
        ),
        Distribution::Debian
    );
    assert_eq!(
        detect_distribution(BuildChannel::Stable, "/usr/bin/dogi", &None, &None),
        Distribution::Unmanaged
    );
}

#[test]
fn an_elevated_process_acts_for_its_caller() {
    let passwd = Some("tester:x:1000:1000::/home/tester:/bin/sh\n".to_owned());
    let user = elevated_user(
        0,
        &Some("1000".to_owned()),
        &Some("1001".to_owned()),
        &passwd,
    )
    .unwrap();
    assert_eq!(user.home, "/home/tester");
    assert_eq!(user.uid, Some(1000));
    assert_eq!(user.gid, Some(1001));
    assert_eq!(
        elevated_user(1000, &Some("1000".to_owned()), &None, &passwd),
        None
    );
    assert_eq!(elevated_user(0, &Some("0".to_owned()), &None, &passwd), None);
    assert!(current_user(None, None).is_err());
    assert_eq!(
        current_user(None, Some("/home/x".to_owned())).unwrap().home,
        "/home/x"
    );
}

#[test]
fn the_desktop_does_not_run_as_root() {
    assert!(launch_fault(true).is_some());
    assert!(launch_fault(false).is_none());
    let policy = runtime_policy(BuildChannel::Stable, &Distribution::Debian);
    assert_eq!(
        runtime_availability(BuildChannel::Stable, &policy),
        DesktopRuntimeAvailability::Available
    );
    let policy = runtime_policy(BuildChannel::Development, &Distribution::Unmanaged);
    assert_eq!(
        runtime_availability(BuildChannel::Development, &policy),
        DesktopRuntimeAvailability::Development
    );
}

// --- persistence -------------------------------------------------------------

#[test]
fn lock_path_is_stable_and_hidden() {
    assert_eq!(
        sibling_lock_path("/tmp/config.json"),
        "/tmp/.config.json.lock"
    );
}

#[test]
fn a_file_is_written_beside_and_then_renamed() {
    let mut step = WriteStep::WriteTemporary;
    let mut seen = Vec::new();
    while step != WriteStep::Done {
        seen.push(step);
        step = next_write_step(step, true);
    }
    assert_eq!(
        seen,
        vec![
            WriteStep::WriteTemporary,
            WriteStep::SyncTemporary,
            WriteStep::Rename,
            WriteStep::SyncDirectory,
        ]
    );
    assert_eq!(
        next_write_step(WriteStep::SyncTemporary, false),
        WriteStep::RemoveTemporary
    );
}

#[test]
fn temporary_and_quarantined_files_stay_in_their_directory() {
    let temporary = temporary_name("/a/config.json", 12, 255, 3);
    assert!(temporary.starts_with('.'), "{temporary}");
    assert!(temporary.contains("config.json"));
    assert_ne!(temporary, temporary_name("/a/config.json", 12, 255, 4));
    let backup = quarantine_name("/a/config.json", "incompatible-config", 99, 0);
    assert!(backup.contains("incompatible-config"), "{backup}");
    assert_ne!(
        backup,
        quarantine_name("/a/config.json", "incompatible-config", 99, 1)
    );
}

#[test]
fn waiting_for_a_lock_is_bounded() {
    let LockWait {
        sleep_ms,
        next_delay_ms,
    } = wait_for_lock(0, 1_000, 10).unwrap();
    assert_eq!(sleep_ms, 10);
    assert!(next_delay_ms >= 10);
    assert_eq!(wait_for_lock(995, 1_000, 10).unwrap().sleep_ms, 5);
    assert_eq!(wait_for_lock(0, 1_000, 40).unwrap().next_delay_ms, 50);
    assert!(wait_for_lock(1_001, 1_000, 10).is_none());
}

#[test]
fn private_directories_are_plain_names() {
    assert_eq!(
        private_directory_components("/home/tester/.config").unwrap(),
        vec!["home", "tester", ".config"]
    );
    assert!(private_directory_components("/home/../etc").is_err());
}

// --- service -----------------------------------------------------------------

#[test]
fn package_unit_is_fixed_and_hardened() {
    assert!(STATIC_DEBIAN_UNIT.contains(
        "ExecStart=/usr/bin/dogi runtime run --idle-timeout-ms 1000 --execute-actions --allow-device-write"
    ));
    assert!(STATIC_DEBIAN_UNIT.contains("Restart=on-failure"));
    assert!(STATIC_DEBIAN_UNIT.contains("RuntimeDirectory=dogi"));
    assert!(STATIC_DEBIAN_UNIT.contains("CacheDirectory=dogi"));
    assert!(STATIC_DEBIAN_UNIT.contains("ProtectSystem=strict"));
}

#[test]
fn portable_unit_quotes_its_fixed_executable() {
    let service = portable_unit("/opt/dogi bin/bin/dogi");
    assert!(service.starts_with("# Generated by Dogi portable integration."));
    assert!(service.contains(
        "ExecStart=\"/opt/dogi bin/bin/dogi\" runtime run --idle-timeout-ms 1000 --execute-actions"
    ));
}

#[test]
fn systemd_arguments_are_quoted_only_when_needed() {
    assert_eq!(systemd_quote("/usr/bin/dogi"), "/usr/bin/dogi");
    assert_eq!(systemd_quote("device 1"), "\"device 1\"");
    assert_eq!(systemd_quote("device\"1"), "\"device\\\"1\"");
    assert_eq!(systemd_quote("/opt/dogi%20/dogi"), "\"/opt/dogi%%20/dogi\"");
}

#[test]
fn only_a_verified_local_session_has_no_pause_reason() {
    assert_eq!(
        pause_reason(GraphicalSessionMode::LocalActive),
        DesktopRuntimePauseReason::Nothing
    );
    assert_eq!(
        pause_reason(GraphicalSessionMode::RemoteOnly),
        DesktopRuntimePauseReason::RemoteLogin
    );
    assert_eq!(
        pause_reason(GraphicalSessionMode::LocalLocked),
        DesktopRuntimePauseReason::DesktopLocked
    );
    assert_eq!(
        pause_reason(GraphicalSessionMode::Unknown),
        DesktopRuntimePauseReason::Unknown
    );
}

#[test]
fn a_service_is_ready_only_where_it_can_act() {
    let ready = service_status(
        true,
        true,
        GraphicalSessionMode::LocalActive,
        "local".to_owned(),
        None,
        true,
    );
    assert!(ready.ready && !ready.paused);
    let without_input = service_status(
        true,
        true,
        GraphicalSessionMode::LocalActive,
        "local".to_owned(),
        Some("no access".to_owned()),
        true,
    );
    assert!(!without_input.ready);
    let locked = service_status(
        true,
        true,
        GraphicalSessionMode::LocalLocked,
        "locked".to_owned(),
        None,
        true,
    );
    assert!(locked.paused);
    assert!(conclude_start(ready, String::new()).is_ok());
    let stopped = service_status(
        true,
        false,
        GraphicalSessionMode::LocalActive,
        "local".to_owned(),
        None,
        true,
    );
    match conclude_start(stopped, "exited".to_owned()) {
        Err(error) => assert!(error.message().contains("exited")),
        Ok(status) => panic!("{status:?}"),
    }
}

#[test]
fn foreign_units_are_left_alone() {
    let own = FoundUnits {
        vendor_is_file: false,
        vendor_exists: false,
        user_exists: true,
        user_contents: Some(portable_unit("/opt/dogi/bin/dogi")),
    };
    let unit = user_unit_path("/home/tester");
    assert!(unit.starts_with("/home/tester/"));
    let portable = runtime_policy(
        BuildChannel::Stable,
        &Distribution::Portable {
            root: "/opt/dogi".to_owned(),
        },
    );
    assert!(validate_integration(false, &portable, &own, &unit).is_none());
    let foreign = FoundUnits {
        user_contents: Some("[Service]\nExecStart=/bin/true\n".to_owned()),
        ..own
    };
    assert!(validate_integration(false, &portable, &foreign, &unit).is_some());
    let unmanaged = runtime_policy(BuildChannel::Stable, &Distribution::Unmanaged);
    let fault = validate_integration(false, &unmanaged, &foreign, &unit).unwrap();
    assert!(fault.message().ends_with(&unmanaged.management_detail));
    let fault = validate_integration(true, &unmanaged, &foreign, &unit).unwrap();
    assert!(fault.message().ends_with("without sudo"));
    assert!(matches!(
        removal_step(
            RuntimeIntegration::PortableSystemd,
            &UnitSource::Contents("[Service]\n".to_owned()),
            &unit
        ),
        Err(_)
    ));
    assert_eq!(
        removal_step(
            RuntimeIntegration::PortableSystemd,
            &UnitSource::Contents(portable_unit("/opt/dogi/bin/dogi")),
            &unit
        )
        .unwrap(),
        RemovalStep::Remove
    );
    assert_eq!(
        removal_step(RuntimeIntegration::PortableSystemd, &UnitSource::Missing, &unit).unwrap(),
        RemovalStep::Nothing
    );
}

#[test]
fn the_manager_is_reloaded_where_the_unit_changed() {
    let first = commands_to_start(RuntimeIntegration::PortableSystemd, true);
    assert!(first
        .iter()
        .any(|command| command.args.contains(&"daemon-reload".to_owned())));
    let unit = portable_unit("/opt/dogi/bin/dogi");
    assert!(!unit_changes(&Some(unit.clone()), &unit));
    assert!(unit_changes(&None, &unit));
    let running = service_status(
        true,
        true,
        GraphicalSessionMode::LocalActive,
        String::new(),
        None,
        true,
    );
    assert!(!commands_to_stop(&running).is_empty());
    assert!(systemctl_fault("start", &CommandEnd::Succeeded).is_none());
    assert!(systemctl_fault("start", &CommandEnd::NotRun("missing".to_owned())).is_some());
    let policy = runtime_policy(BuildChannel::Stable, &Distribution::Unmanaged);
    assert!(ensure_persistent_integration(false, &policy).is_some());
    let policy = runtime_policy(BuildChannel::Stable, &Distribution::Debian);
    assert!(ensure_persistent_integration(false, &policy).is_none());
    assert!(ensure_persistent_integration(true, &policy).is_some());
}

// --- application config ------------------------------------------------------

fn stored() -> StoredApplicationConfig {
    StoredApplicationConfig::initial(true, true)
}

#[test]
fn application_app_config_round_trip_preserves_the_versioned_schema() {
    let mut config = stored();
    config.save_preference(ApplicationPreferenceChange::Language(
        ApplicationLanguage::SimplifiedChinese,
    ));
    let expected = StoredApplicationConfig {
        preferences: ApplicationPreferences {
            language: ApplicationLanguage::SimplifiedChinese,
            ..stored().preferences
        },
        ..stored()
    };
    assert_eq!(config.preferences.theme, ApplicationTheme::System);
    assert_eq!(config, expected);
    assert_eq!(config.schema_version, 6);
    match read_config("config.json", ConfigSource::Config(config), stored()) {
        ConfigStep::Use(config) => assert_eq!(config, expected),
        other => panic!("{other:?}"),
    }
}

#[test]
fn application_missing_app_config_uses_system_language() {
    match read_config("config.json", ConfigSource::Missing, stored()) {
        ConfigStep::Use(config) => {
            assert_eq!(config, stored());
            assert_eq!(config.preferences.language, ApplicationLanguage::System);
        }
        other => panic!("{other:?}"),
    }
}

#[test]
fn application_appearance_and_behavior_updates_preserve_each_other() {
    let mut config = stored();
    config.save_preference(ApplicationPreferenceChange::Theme(ApplicationTheme::Dark));
    config.save_preference(ApplicationPreferenceChange::CloseBehavior(
        CloseBehavior::MinimizeToTray,
    ));
    config.save_preference(ApplicationPreferenceChange::Language(
        ApplicationLanguage::English,
    ));

    let preferences = config.load_preferences();
    assert_eq!(preferences.language, ApplicationLanguage::English);
    assert_eq!(preferences.theme, ApplicationTheme::Dark);
    assert_eq!(preferences.close_behavior, CloseBehavior::MinimizeToTray);
    assert!(preferences.background_operations_enabled);

    config.save_preference(ApplicationPreferenceChange::BackgroundOperationsEnabled(
        false,
    ));
    let preferences = config.load_preferences();
    assert!(!preferences.background_operations_enabled);
    assert_eq!(preferences.close_behavior, CloseBehavior::MinimizeToTray);
}

#[test]
fn application_preference_port_round_trips_presentation_values() {
    let mut config = stored();
    for change in [
        ApplicationPreferenceChange::Language(ApplicationLanguage::SimplifiedChinese),
        ApplicationPreferenceChange::Theme(ApplicationTheme::Dark),
        ApplicationPreferenceChange::CloseBehavior(CloseBehavior::MinimizeToTray),
        ApplicationPreferenceChange::BackgroundOperationsEnabled(false),
        ApplicationPreferenceChange::LowBatteryNotificationsEnabled(false),
        ApplicationPreferenceChange::FullBatteryNotificationsEnabled(false),
        ApplicationPreferenceChange::AutomaticUpdateChecksEnabled(false),
    ] {
        config.save_preference(change);
    }

    assert_eq!(
        config.load_preferences(),
        ApplicationPreferences {
            language: ApplicationLanguage::SimplifiedChinese,
            theme: ApplicationTheme::Dark,
            close_behavior: CloseBehavior::MinimizeToTray,
            background_operations_enabled: false,
            low_battery_notifications_enabled: false,
            full_battery_notifications_enabled: false,
            automatic_update_checks_enabled: false,
        }
    );
}

/// Why a file is replaced by the defaults, and what the user is told.
fn replacement(source: ConfigSource, backup: Option<String>) -> (String, String) {
    let step = read_config("/c/config.json", source, stored());
    let why = match &step {
        ConfigStep::Replace { reason, config } => {
            assert_eq!(*config, stored());
            reason.clone()
        }
        other => panic!("{other:?}"),
    };
    let (used, notice) = conclude_reading(step, &backup).unwrap();
    assert_eq!(used, stored());
    let notice = notice.unwrap();
    assert_eq!(notice, describe_replacement(&why, &backup));
    (why, notice)
}

#[test]
fn incompatible_schema_is_preserved_and_replaced_with_defaults() {
    let (_, notice) = replacement(
        ConfigSource::Config(StoredApplicationConfig {
            schema_version: 1,
            ..stored()
        }),
        Some("/c/.incompatible-config.json".to_owned()),
    );
    assert!(notice.contains("restored to defaults") && notice.contains("preserved"));
}

#[test]
fn application_successful_update_checks_are_throttled_for_the_configured_interval() {
    let mut config = stored();
    let checked_at: u64 = 1_000_000;
    let interval: u64 = 24 * 60 * 60;

    assert!(config.automatic_update_check_due(checked_at, interval));
    config.record_successful_update_check(checked_at);
    assert!(!config.automatic_update_check_due(checked_at + interval - 1, interval));
    assert!(config.automatic_update_check_due(checked_at + interval, interval));
}

#[test]
fn network_proxy_round_trip_preserves_manual_settings_without_a_secret() {
    let mut config = stored();
    let preferences = NetworkProxyPreferences {
        mode: NetworkProxyMode::Manual,
        protocol: NetworkProxyProtocol::Socks5,
        host: "127.0.0.1".to_owned(),
        port: 7890,
        authentication_enabled: true,
        username: "proxy-user".to_owned(),
        password_saved: true,
    };

    config.save_network_proxy(&preferences);

    assert_eq!(config.load_network_proxy(), preferences);
    assert_eq!(config.load_preferences(), stored().load_preferences());
}

#[test]
fn malformed_config_is_preserved_and_replaced_with_defaults() {
    let (_, notice) = replacement(ConfigSource::Malformed("missing field".to_owned()), None);
    assert_eq!(
        notice,
        "Application settings were restored to defaults because could not decode \
         /c/config.json: missing field."
    );
}

#[test]
fn future_app_config_schema_is_preserved_and_replaced_with_defaults() {
    let (reason, _) = replacement(
        ConfigSource::Config(StoredApplicationConfig {
            schema_version: APP_CONFIG_SCHEMA_VERSION + 1,
            ..stored()
        }),
        None,
    );
    assert!(reason.contains('7'), "{reason}");
}

#[test]
fn an_unreadable_config_is_not_replaced() {
    assert!(matches!(
        read_config(
            "/c/config.json",
            ConfigSource::Unreadable("denied".to_owned()),
            stored()
        ),
        ConfigStep::Fail { .. }
    ));
}

// --- network -----------------------------------------------------------------

#[test]
fn manual_proxy_requires_a_bare_host() {
    let preferences = NetworkProxyPreferences {
        mode: NetworkProxyMode::Manual,
        host: "https://proxy.example.com".to_owned(),
        ..NetworkProxyPreferences::default()
    };
    assert!(normalize(preferences).is_err());
}

#[test]
fn manual_proxy_normalization_preserves_supported_protocols() {
    let preferences = NetworkProxyPreferences {
        mode: NetworkProxyMode::Manual,
        protocol: NetworkProxyProtocol::Socks5,
        host: " 127.0.0.1 ".to_owned(),
        port: 7890,
        ..NetworkProxyPreferences::default()
    };
    let normalized = normalize(preferences).unwrap();
    assert_eq!(normalized.host, "127.0.0.1");
    assert_eq!(normalized.protocol, NetworkProxyProtocol::Socks5);
}

fn ready_policy(preferences: NetworkProxyPreferences, password: Option<&str>) -> ProxyPolicy {
    match policy_from_preferences(preferences, password.map(str::to_owned)).unwrap() {
        PolicyStep::Ready(policy) => policy,
        PolicyStep::ReadPassword => panic!("no password is needed"),
    }
}

#[test]
fn direct_policy_explicitly_disables_proxying() {
    let preferences = NetworkProxyPreferences {
        mode: NetworkProxyMode::Direct,
        ..NetworkProxyPreferences::default()
    };
    let policy = ready_policy(preferences, None);

    assert_eq!(policy, ProxyPolicy::Direct);
    assert_eq!(policy_route(&policy), Some(String::new()));
}

#[test]
fn manual_policy_builds_a_redacted_route_description() {
    let preferences = NetworkProxyPreferences {
        mode: NetworkProxyMode::Manual,
        protocol: NetworkProxyProtocol::Http,
        host: "proxy.example.com".to_owned(),
        port: 8080,
        ..NetworkProxyPreferences::default()
    };
    let policy = ready_policy(preferences, None);

    assert_eq!(
        policy_route(&policy).unwrap(),
        "HTTP · proxy.example.com:8080"
    );
    match policy {
        ProxyPolicy::Manual(manual) => assert_eq!(manual.address.host, "proxy.example.com"),
        other => panic!("{other:?}"),
    }
}

#[test]
fn credentials_do_not_show_in_the_route() {
    let preferences = NetworkProxyPreferences {
        mode: NetworkProxyMode::Manual,
        protocol: NetworkProxyProtocol::Socks5,
        host: "proxy.example.com".to_owned(),
        port: 1080,
        authentication_enabled: true,
        username: "someone".to_owned(),
        password_saved: true,
    };
    assert_eq!(
        policy_from_preferences(preferences.clone(), None).unwrap(),
        PolicyStep::ReadPassword
    );
    let policy = ready_policy(preferences, Some("hidden"));
    let route = policy_route(&policy).unwrap();
    assert!(route.ends_with("proxy.example.com:1080"), "{route}");
    assert!(!route.contains("someone") && !route.contains("hidden"));
    match policy {
        ProxyPolicy::Manual(manual) => {
            assert_eq!(manual.protocol, ManualProtocol::Socks5h);
            assert_eq!(
                manual.credentials,
                Some(("someone".to_owned(), "hidden".to_owned()))
            );
        }
        other => panic!("{other:?}"),
    }
}

#[test]
fn unauthenticated_proxy_can_be_saved_without_a_credential_store() {
    let preferences = NetworkProxyPreferences {
        mode: NetworkProxyMode::Manual,
        host: "proxy.example.com".to_owned(),
        port: 8080,
        ..NetworkProxyPreferences::default()
    };
    let mut config = stored();
    let original = config.load_network_proxy();

    let (saved, change) = plan_save(
        NetworkProxyDraft::from_preferences(preferences.clone()),
        &original,
    )
    .unwrap();
    assert_eq!(change, CredentialChange::Preserve);
    config.save_network_proxy(&saved);
    let saved = conclude_save(saved, None, None).unwrap();

    assert_eq!(saved, preferences);
    assert_eq!(config.load_network_proxy(), preferences);
}

#[test]
fn a_password_is_stored_and_removed_with_its_setting() {
    let authenticated = NetworkProxyPreferences {
        mode: NetworkProxyMode::Manual,
        host: "proxy.example.com".to_owned(),
        port: 8080,
        authentication_enabled: true,
        username: "someone".to_owned(),
        ..NetworkProxyPreferences::default()
    };
    let mut draft = NetworkProxyDraft::from_preferences(authenticated.clone());
    draft.password = "hidden".to_owned();
    let (saved, change) = plan_save(draft, &NetworkProxyPreferences::default()).unwrap();
    assert_eq!(change, CredentialChange::Store("hidden".to_owned()));
    assert!(saved.password_saved);

    let (kept, change) = plan_save(
        NetworkProxyDraft::from_preferences(saved.clone()),
        &saved,
    )
    .unwrap();
    assert_eq!(change, CredentialChange::Preserve);
    assert_eq!(kept, saved);

    let direct = NetworkProxyPreferences {
        mode: NetworkProxyMode::Direct,
        ..NetworkProxyPreferences::default()
    };
    let (cleared, change) =
        plan_save(NetworkProxyDraft::from_preferences(direct), &saved).unwrap();
    assert_eq!(change, CredentialChange::Remove);
    assert!(!cleared.password_saved);
}

#[test]
fn a_failed_save_reports_what_could_not_be_restored() {
    let preferences = NetworkProxyPreferences::default();
    let failure = || DogiError::Config("disk full".to_owned());
    let error = conclude_save(preferences.clone(), Some(failure()), None).unwrap_err();
    assert!(error.message().contains("disk full"));
    let error =
        conclude_save(preferences, Some(failure()), Some("keyring locked".to_owned())).unwrap_err();
    assert!(error.message().contains("keyring locked"));
    assert!(credential_removal_error(true, "none").is_none());
    assert!(credential_removal_error(false, "locked").is_some());
    assert_ne!(
        credential_read_error(true, "x").message(),
        credential_read_error(false, "x").message()
    );
}

fn authenticated_draft() -> NetworkProxyDraft {
    let mut draft = NetworkProxyDraft::from_preferences(NetworkProxyPreferences {
        mode: NetworkProxyMode::Manual,
        host: " proxy.example.com ".to_owned(),
        port: 8080,
        authentication_enabled: true,
        username: "someone".to_owned(),
        ..NetworkProxyPreferences::default()
    });
    draft.password = "hidden".to_owned();
    draft
}

#[test]
fn a_failed_password_change_puts_the_former_proxy_back() {
    let mut config = stored();
    let original = config.load_network_proxy();
    let failure = || DogiError::BackendUnavailable("locked".to_owned());

    let begun = ProxySave::begin(authenticated_draft(), config.load_network_proxy());
    match &begun {
        ProxySave::Saving { preferences, .. } => config.save_network_proxy(preferences),
        other => panic!("{other:?}"),
    }
    assert_eq!(config.load_network_proxy().host, "proxy.example.com");
    let saved = begun.note_saved(None);
    match &saved {
        ProxySave::ChangingCredential { change, .. } => {
            assert_eq!(*change, CredentialChange::Store("hidden".to_owned()));
        }
        other => panic!("{other:?}"),
    }
    let failed = saved.note_credential(Some(failure()));
    match &failed {
        ProxySave::Restoring { original, .. } => config.save_network_proxy(original),
        other => panic!("{other:?}"),
    }
    assert_eq!(config.load_network_proxy(), original);
    assert_eq!(config, stored());
    match failed.note_restored(None) {
        ProxySave::Ended { result } => assert_eq!(result, Err(failure())),
        other => panic!("{other:?}"),
    }

    let failed = ProxySave::begin(authenticated_draft(), original)
        .note_saved(None)
        .note_credential(Some(failure()));
    match failed.note_restored(Some("disk full".to_owned())) {
        ProxySave::Ended { result } => assert!(result
            .unwrap_err()
            .message()
            .ends_with("locked; application settings could not be restored: disk full")),
        other => panic!("{other:?}"),
    }
}

#[test]
fn a_proxy_is_saved_before_its_password() {
    let begin = || ProxySave::begin(authenticated_draft(), NetworkProxyPreferences::default());
    match begin().note_saved(None).note_credential(None) {
        ProxySave::Ended { result } => assert!(result.unwrap().password_saved),
        other => panic!("{other:?}"),
    }
    match begin().note_saved(Some("disk full".to_owned())) {
        ProxySave::Ended { result } => {
            assert_eq!(result, Err(DogiError::Config("disk full".to_owned())));
        }
        other => panic!("{other:?}"),
    }
    assert!(matches!(
        begin().note_credential(None).note_restored(None),
        ProxySave::Saving { .. }
    ));
    let mut draft = authenticated_draft();
    draft.password = String::new();
    match ProxySave::begin(draft, NetworkProxyPreferences::default()) {
        ProxySave::Ended { result } => assert_eq!(
            result,
            Err(DogiError::InvalidArgument(
                "enter the proxy password before saving".to_owned()
            ))
        ),
        other => panic!("{other:?}"),
    }
    let direct = NetworkProxyDraft::from_preferences(NetworkProxyPreferences::default());
    match ProxySave::begin(direct, NetworkProxyPreferences::default()).note_saved(None) {
        ProxySave::Ended { result } => assert!(result.is_ok()),
        other => panic!("{other:?}"),
    }
}

#[test]
fn the_first_usable_system_proxy_is_taken() {
    assert_eq!(
        resolve_system_proxy(&vec!["direct://".to_owned()]),
        SystemRoute::Direct
    );
    match resolve_system_proxy(&vec![
        "http://proxy.example.com:3128".to_owned(),
        "direct://".to_owned(),
    ]) {
        SystemRoute::Through { uri, address } => {
            assert_eq!(uri, "http://proxy.example.com:3128");
            assert_eq!(
                address,
                ProxyAddress {
                    protocol: RouteProtocol::Http,
                    host: "proxy.example.com".to_owned(),
                    port: 3128,
                }
            );
            assert_eq!(proxy_route(&address), "HTTP · proxy.example.com:3128");
        }
        other => panic!("{other:?}"),
    }
}
