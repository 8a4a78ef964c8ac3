//! The preferences of the application, and what is kept of them.

use crate::text;
use vstd::prelude::*;

verus! {

pub const APP_CONFIG_SCHEMA_VERSION: u16 = 6;

pub const DEFAULT_PROXY_PORT: u16 = 7890;

/// The language of the interface.
#[derive(Clone, Copy, Debug, PartialEq, Eq, Structural)]
pub enum ApplicationLanguage {
    System,
    English,
    SimplifiedChinese,
}

/// The colours of the interface.
#[derive(Clone, Copy, Debug, PartialEq, Eq, Structural)]
pub enum ApplicationTheme {
    System,
    Light,
    Dark,
}

/// What closing the window does.
#[derive(Clone, Copy, Debug, PartialEq, Eq, Structural)]
pub enum CloseBehavior {
    Quit,
    MinimizeToTray,
}

/// Whose proxy is used.
#[derive(Clone, Copy, Debug, PartialEq, Eq, Structural)]
pub enum NetworkProxyMode {
    System,
    Direct,
    Manual,
}

/// How a proxy is spoken to.
#[derive(Clone, Copy, Debug, PartialEq, Eq, Structural)]
pub enum NetworkProxyProtocol {
    Http,
    Https,
    Socks5,
}

/// What the user prefers.
#[derive(Clone, Copy, Debug, PartialEq, Eq, Structural)]
pub struct ApplicationPreferences {
    pub language: ApplicationLanguage,
    pub theme: ApplicationTheme,
    pub close_behavior: CloseBehavior,
    pub background_operations_enabled: bool,
    pub low_battery_notifications_enabled: bool,
    pub full_battery_notifications_enabled: bool,
    pub automatic_update_checks_enabled: bool,
}

/// A change of what the user prefers.
#[derive(Clone, Copy, Debug, PartialEq, Eq, Structural)]
pub enum ApplicationPreferenceChange {
    Language(ApplicationLanguage),
    Theme(ApplicationTheme),
    CloseBehavior(CloseBehavior),
    BackgroundOperationsEnabled(bool),
    LowBatteryNotificationsEnabled(bool),
    FullBatteryNotificationsEnabled(bool),
    AutomaticUpdateChecksEnabled(bool),
}

/// The proxy that the user wants. Its password is kept elsewhere.
#[derive(Debug, PartialEq, Eq)]
pub struct NetworkProxyPreferences {
    pub mode: NetworkProxyMode,
    pub protocol: NetworkProxyProtocol,
    pub host: String,
    pub port: u16,
    pub authentication_enabled: bool,
    pub username: String,
    pub password_saved: bool,
}

/// The mathematical value of [`NetworkProxyPreferences`].
#[verifier::ext_equal]
pub struct ProxyView {
    pub mode: NetworkProxyMode,
    pub protocol: NetworkProxyProtocol,
    pub host: Seq<char>,
    pub port: u16,
    pub authentication_enabled: bool,
    pub username: Seq<char>,
    pub password_saved: bool,
}

impl View for NetworkProxyPreferences {
    type V = ProxyView;

    open spec fn view(&self) -> ProxyView {
        ProxyView {
            mode: self.mode,
            protocol: self.protocol,
            host: self.host@,
            port: self.port,
            authentication_enabled: self.authentication_enabled,
            username: self.username@,
            password_saved: self.password_saved,
        }
    }
}

impl Clone for NetworkProxyPreferences {
    fn clone(&self) -> (r: Self)
        ensures
            r@ == self@,
    {
        NetworkProxyPreferences {
            mode: self.mode,
            protocol: self.protocol,
            host: self.host.clone(),
            port: self.port,
            authentication_enabled: self.authentication_enabled,
            username: self.username.clone(),
            password_saved: self.password_saved,
        }
    }
}

/// The proxy before the user chose one.
pub open spec fn default_proxy() -> ProxyView {
    ProxyView {
        mode: NetworkProxyMode::System,
        protocol: NetworkProxyProtocol::Http,
        host: Seq::empty(),
        port: DEFAULT_PROXY_PORT,
        authentication_enabled: false,
        username: Seq::empty(),
        password_saved: false,
    }
}

impl Default for NetworkProxyPreferences {
    fn default() -> (r: Self)
        ensures
            r@ == default_proxy(),
    {
        NetworkProxyPreferences {
            mode: NetworkProxyMode::System,
            protocol: NetworkProxyProtocol::Http,
            host: String::new(),
            port: DEFAULT_PROXY_PORT,
            authentication_enabled: false,
            username: String::new(),
            password_saved: false,
        }
    }
}

/// What is kept of the preferences.
#[derive(Debug, PartialEq, Eq)]
pub struct StoredApplicationConfig {
    pub schema_version: u16,
    pub preferences: ApplicationPreferences,
    pub last_successful_check_unix_seconds: Option<u64>,
    pub proxy: NetworkProxyPreferences,
}

/// The mathematical value of [`StoredApplicationConfig`].
#[verifier::ext_equal]
pub struct ConfigView {
    pub schema_version: u16,
    pub preferences: ApplicationPreferences,
    pub last_check: Option<u64>,
    pub proxy: ProxyView,
}

impl View for StoredApplicationConfig {
    type V = ConfigView;

    open spec fn view(&self) -> ConfigView {
        ConfigView {
            schema_version: self.schema_version,
            preferences: self.preferences,
            last_check: self.last_successful_check_unix_seconds,
            proxy: self.proxy@,
        }
    }
}

/// What is kept before the user chose anything, of an installation that runs in the
/// background and that updates itself or not.
pub open spec fn initial_config(background: bool, updates: bool) -> ConfigView {
    ConfigView {
        schema_version: APP_CONFIG_SCHEMA_VERSION,
        preferences: ApplicationPreferences {
            language: ApplicationLanguage::System,
            theme: ApplicationTheme::System,
            close_behavior: CloseBehavior::Quit,
            background_operations_enabled: background,
            low_battery_notifications_enabled: true,
            full_battery_notifications_enabled: true,
            automatic_update_checks_enabled: updates,
        },
        last_check: None,
        proxy: default_proxy(),
    }
}

/// The preferences after a change.
pub open spec fn preferences_after(
    p: ApplicationPreferences,
    change: ApplicationPreferenceChange,
) -> ApplicationPreferences {
    match change {
        ApplicationPreferenceChange::Language(language) => ApplicationPreferences { language, ..p },
        ApplicationPreferenceChange::Theme(theme) => ApplicationPreferences { theme, ..p },
        ApplicationPreferenceChange::CloseBehavior(close_behavior) => ApplicationPreferences {
            close_behavior,
            ..p
        },
        ApplicationPreferenceChange::BackgroundOperationsEnabled(enabled) =>
            ApplicationPreferences { background_operations_enabled: enabled, ..p },
        ApplicationPreferenceChange::LowBatteryNotificationsEnabled(enabled) =>
            ApplicationPreferences { low_battery_notifications_enabled: enabled, ..p },
        ApplicationPreferenceChange::FullBatteryNotificationsEnabled(enabled) =>
            ApplicationPreferences { full_battery_notifications_enabled: enabled, ..p },
        ApplicationPreferenceChange::AutomaticUpdateChecksEnabled(enabled) =>
            ApplicationPreferences { automatic_update_checks_enabled: enabled, ..p },
    }
}

/// Whether two changes are of the same preference.
pub open spec fn same_preference(
    a: ApplicationPreferenceChange,
    b: ApplicationPreferenceChange,
) -> bool {
    ||| a is Language && b is Language
    ||| a is Theme && b is Theme
    ||| a is CloseBehavior && b is CloseBehavior
    ||| a is BackgroundOperationsEnabled && b is BackgroundOperationsEnabled
    ||| a is LowBatteryNotificationsEnabled && b is LowBatteryNotificationsEnabled
    ||| a is FullBatteryNotificationsEnabled && b is FullBatteryNotificationsEnabled
    ||| a is AutomaticUpdateChecksEnabled && b is AutomaticUpdateChecksEnabled
}

/// Of two changes of one preference the last one counts, and changes of different
/// preferences do not touch each other.
pub proof fn law_preferences_are_independent(
    p: ApplicationPreferences,
    a: ApplicationPreferenceChange,
    b: ApplicationPreferenceChange,
)
    ensures
        same_preference(a, b) ==> preferences_after(preferences_after(p, a), b)
            == preferences_after(p, b),
        !same_preference(a, b) ==> preferences_after(preferences_after(p, a), b)
            == preferences_after(preferences_after(p, b), a),
{
}

/// Whether it is time to look for updates.
pub open spec fn check_due(last: Option<u64>, now: u64, interval: u64) -> bool {
    match last {
        None => true,
        Some(last) => (if now > last {
            now - last
        } else {
            0
        }) >= interval,
    }
}

/// After a look for updates the next one is not due before the interval is over,
/// and due from then on.
pub proof fn law_update_checks_are_throttled(checked_at: u64, now: u64, interval: u64)
    requires
        interval > 0,
    ensures
        check_due(Some(checked_at), now, interval) <==> now >= checked_at + interval,
{
}

/// What reading the file of the preferences gave.
#[derive(Debug)]
pub enum ConfigSource {
    Missing,
    Unreadable(String),
    Malformed(String),
    Config(StoredApplicationConfig),
}

/// What is done with what was read.
#[derive(Debug)]
pub enum ConfigStep {
    /// It is used.
    Use(StoredApplicationConfig),
    /// It is kept elsewhere, and `config` is written in its place and used.
    Replace { reason: String, config: StoredApplicationConfig },
    /// It cannot be used.
    Fail { detail: String },
}

/// The mathematical value of [`ConfigStep`].
#[verifier::ext_equal]
pub enum ConfigStepView {
    Use(ConfigView),
    Replace { reason: Seq<char>, config: ConfigView },
    Fail { detail: Seq<char> },
}

impl View for ConfigStep {
    type V = ConfigStepView;

    open spec fn view(&self) -> ConfigStepView {
        match self {
            ConfigStep::Use(config) => ConfigStepView::Use(config@),
            ConfigStep::Replace { reason, config } => ConfigStepView::Replace {
                reason: reason@,
                config: config@,
            },
            ConfigStep::Fail { detail } => ConfigStepView::Fail { detail: detail@ },
        }
    }
}

/// What is done with what was read from a path.
pub open spec fn reading_of(path: Seq<char>, source: ConfigSource, defaults: ConfigView) -> ConfigStepView {
    match source {
        ConfigSource::Missing => ConfigStepView::Use(defaults),
        ConfigSource::Unreadable(detail) => ConfigStepView::Fail {
            detail: "could not read "@ + path + ": "@ + detail@,
        },
        ConfigSource::Malformed(detail) => ConfigStepView::Replace {
            reason: "could not decode "@ + path + ": "@ + detail@,
            config: defaults,
        },
        ConfigSource::Config(config) => if config@.schema_version == APP_CONFIG_SCHEMA_VERSION {
            ConfigStepView::Use(config@)
        } else {
            ConfigStepView::Replace {
                reason: "unsupported application config schema "@ + text::decimal(
                    config@.schema_version as nat,
                ) + "; expected 6"@,
                config: defaults,
            }
        },
    }
}

/// What is said where preferences were replaced.
pub open spec fn replacement_notice(reason: Seq<char>, backup: Option<Seq<char>>) -> Seq<char> {
    "Application settings were restored to defaults because "@ + reason + "."@ + (match backup {
        Some(backup) => " The original was preserved at "@ + backup + "."@,
        None => Seq::empty(),
    })
}

/// What is said where preferences were replaced.
pub fn describe_replacement(reason: &str, backup: &Option<String>) -> (r: String)
    ensures
        r@ == replacement_notice(reason@, text::optional(*backup)),
{
    let mut notice = text::concat3(
        "Application settings were restored to defaults because ",
        reason,
        ".",
    );
    if let Some(backup) = backup {
        notice.append(" The original was preserved at ");
        notice.append(backup.as_str());
        notice.append(".");
    }
    assert(notice@ =~= replacement_notice(reason@, text::optional(*backup)));
    notice
}

impl StoredApplicationConfig {
    /// What is kept before the user chose anything.
    pub fn initial(background: bool, updates: bool) -> (r: Self)
        ensures
            r@ == initial_config(background, updates),
    {
        StoredApplicationConfig {
            schema_version: APP_CONFIG_SCHEMA_VERSION,
            preferences: ApplicationPreferences {
                language: ApplicationLanguage::System,
                theme: ApplicationTheme::System,
                close_behavior: CloseBehavior::Quit,
                background_operations_enabled: background,
                low_battery_notifications_enabled: true,
                full_battery_notifications_enabled: true,
                automatic_update_checks_enabled: updates,
            },
            last_successful_check_unix_seconds: None,
            proxy: NetworkProxyPreferences::default(),
        }
    }

    /// What the user prefers.
    pub fn load_preferences(&self) -> (r: ApplicationPreferences)
        ensures
            r == self@.preferences,
    {
        self.preferences
    }

    /// The proxy that the user wants.
    pub fn load_network_proxy(&self) -> (r: NetworkProxyPreferences)
        ensures
            r@ == self@.proxy,
    {
        self.proxy.clone()
    }

    /// Takes in the proxy that the user wants.
    pub fn save_network_proxy(&mut self, preferences: &NetworkProxyPreferences)
        ensures
            final(self)@ == (ConfigView { proxy: preferences@, ..old(self)@ }),
    {
        self.proxy = preferences.clone();
    }

    /// Takes in a change of what the user prefers.
    pub fn save_preference(&mut self, change: ApplicationPreferenceChange)
        ensures
            final(self)@ == (ConfigView {
                preferences: preferences_after(old(self)@.preferences, change),
                ..old(self)@
            }),
    {
        match change {
            ApplicationPreferenceChange::Language(language) => {
                self.preferences.language = language;
            },
            ApplicationPreferenceChange::Theme(theme) => {
                self.preferences.theme = theme;
            },
            ApplicationPreferenceChange::CloseBehavior(behavior) => {
                self.preferences.close_behavior = behavior;
            },
            ApplicationPreferenceChange::BackgroundOperationsEnabled(enabled) => {
                self.preferences.background_operations_enabled = enabled;
            },
            ApplicationPreferenceChange::LowBatteryNotificationsEnabled(enabled) => {
                self.preferences.low_battery_notifications_enabled = enabled;
            },
            ApplicationPreferenceChange::FullBatteryNotificationsEnabled(enabled) => {
                self.preferences.full_battery_notifications_enabled = enabled;
            },
            ApplicationPreferenceChange::AutomaticUpdateChecksEnabled(enabled) => {
                self.preferences.automatic_update_checks_enabled = enabled;
            },
        }
    }

    /// Whether it is time to look for updates.
    pub fn automatic_update_check_due(&self, now_seconds: u64, interval_seconds: u64) -> (r: bool)
        ensures
            r == check_due(self@.last_check, now_seconds, interval_seconds),
    {
        match self.last_successful_check_unix_seconds {
            None => true,
            Some(last) => now_seconds.saturating_sub(last) >= interval_seconds,
        }
    }

    /// Notes that it was looked for updates.
    pub fn record_successful_update_check(&mut self, checked_at_seconds: u64)
        ensures
            final(self)@ == (ConfigView { last_check: Some(checked_at_seconds), ..old(self)@ }),
    {
        self.last_successful_check_unix_seconds = Some(checked_at_seconds);
    }
}

/// What is done with what was read from a path.
pub fn read_config(path: &str, source: ConfigSource, defaults: StoredApplicationConfig) -> (r:
    ConfigStep)
    ensures
        r@ == reading_of(path@, source, defaults@),
{
    match source {
        ConfigSource::Missing => ConfigStep::Use(defaults),
        ConfigSource::Unreadable(detail) => {
            let mut message = text::concat3("could not read ", path, ": ");
            message.append(detail.as_str());
            ConfigStep::Fail { detail: message }
        },
        ConfigSource::Malformed(detail) => {
            let mut reason = text::concat3("could not decode ", path, ": ");
            reason.append(detail.as_str());
            ConfigStep::Replace { reason, config: defaults }
        },
        ConfigSource::Config(config) => {
            if config.schema_version == APP_CONFIG_SCHEMA_VERSION {
                return ConfigStep::Use(config);
            }
            let mut reason = "unsupported application config schema ".to_owned();
            text::push_decimal(&mut reason, config.schema_version as u64);
            reason.append("; expected 6");
            ConfigStep::Replace { reason, config: defaults }
        },
    }
}

/// The preferences that are in use once a step was carried out, and what the user is told
/// of it. Where they were replaced, `backup` is the place of what was set aside.
pub fn conclude_reading(step: ConfigStep, backup: &Option<String>) -> (r: Result<
    (StoredApplicationConfig, Option<String>),
    String,
>)
    ensures
        match step@ {
            ConfigStepView::Use(config) => r matches Ok((used, notice)) && used@ == config
                && notice is None,
            ConfigStepView::Replace { reason, config } => r matches Ok((used, notice)) && used@
                == config && text::optional(notice) == Some(
                replacement_notice(reason, text::optional(*backup)),
            ),
            ConfigStepView::Fail { detail } => r is Err && r->Err_0@ == detail,
        },
{
    match step {
        ConfigStep::Use(config) => Ok((config, None)),
        ConfigStep::Replace { reason, config } => {
            let notice = describe_replacement(reason.as_str(), backup);
            Ok((config, Some(notice)))
        },
        ConfigStep::Fail { detail } => Err(detail),
    }
}

/// Whatever a readable file holds that are no preferences of this version, the defaults
/// take its place.
pub proof fn law_unusable_preferences_give_way_to_the_defaults(
    path: Seq<char>,
    source: ConfigSource,
    defaults: ConfigView,
)
    ensures
        source is Missing ==> reading_of(path, source, defaults) == ConfigStepView::Use(defaults),
        source is Malformed || (source matches ConfigSource::Config(config)
            && config@.schema_version != APP_CONFIG_SCHEMA_VERSION) <==> reading_of(
            path,
            source,
            defaults,
        ) is Replace,
        reading_of(path, source, defaults) matches ConfigStepView::Replace { reason, config }
            ==> config == defaults,
{
}

/// A change of one preference sets that preference and no other.
pub proof fn law_changed_preference_is_set(
    p: ApplicationPreferences,
    language: ApplicationLanguage,
    theme: ApplicationTheme,
    close_behavior: CloseBehavior,
    enabled: bool,
)
    ensures
        preferences_after(p, ApplicationPreferenceChange::Language(language)) == (
        ApplicationPreferences { language, ..p }),
        preferences_after(p, ApplicationPreferenceChange::Theme(theme)) == (
        ApplicationPreferences { theme, ..p }),
        preferences_after(p, ApplicationPreferenceChange::CloseBehavior(close_behavior)) == (
        ApplicationPreferences { close_behavior, ..p }),
        preferences_after(p, ApplicationPreferenceChange::BackgroundOperationsEnabled(enabled)) == (
        ApplicationPreferences { background_operations_enabled: enabled, ..p }),
        preferences_after(p, ApplicationPreferenceChange::LowBatteryNotificationsEnabled(enabled))
            == (ApplicationPreferences { low_battery_notifications_enabled: enabled, ..p }),
        preferences_after(p, ApplicationPreferenceChange::FullBatteryNotificationsEnabled(enabled))
            == (ApplicationPreferences { full_battery_notifications_enabled: enabled, ..p }),
        preferences_after(p, ApplicationPreferenceChange::AutomaticUpdateChecksEnabled(enabled))
            == (ApplicationPreferences { automatic_update_checks_enabled: enabled, ..p }),
{
}

/// Before the user chose anything, the language and the theme are those of the system, closing
/// quits, batteries are told of, and the network is used as the system uses it.
pub proof fn law_first_preferences(background: bool, updates: bool)
    ensures
        ({
            let c = initial_config(background, updates);
            &&& c.schema_version == 6
            &&& c.preferences.language == ApplicationLanguage::System
            &&& c.preferences.theme == ApplicationTheme::System
            &&& c.preferences.close_behavior == CloseBehavior::Quit
            &&& c.preferences.background_operations_enabled == background
            &&& c.preferences.low_battery_notifications_enabled
            &&& c.preferences.full_battery_notifications_enabled
            &&& c.preferences.automatic_update_checks_enabled == updates
            &&& c.last_check is None
            &&& c.proxy.mode == NetworkProxyMode::System
            &&& c.proxy.protocol == NetworkProxyProtocol::Http
            &&& c.proxy.port == 7890
            &&& c.proxy.host.len() == 0 && c.proxy.username.len() == 0
            &&& !c.proxy.authentication_enabled && !c.proxy.password_saved
        }),
{
}

/// What was saved is what is read: a configuration of version 6 is used as it is, and after a
/// change the rest of it is as it was.
pub proof fn law_saved_preferences_are_used(
    path: Seq<char>,
    config: StoredApplicationConfig,
    defaults: ConfigView,
    change: ApplicationPreferenceChange,
    proxy: &NetworkProxyPreferences,
    now: u64,
)
    ensures
        config@.schema_version == 6 ==> reading_of(path, ConfigSource::Config(config), defaults)
            == ConfigStepView::Use(config@),
        config@.schema_version != 6 ==> reading_of(
            path,
            ConfigSource::Config(config),
            defaults,
        ) is Replace,
        forall|c: &mut StoredApplicationConfig, r: ()|
            #![trigger call_ensures(StoredApplicationConfig::save_preference, (c, change), r)]
            call_ensures(StoredApplicationConfig::save_preference, (c, change), r) ==> {
                &&& final(c)@.schema_version == (*c)@.schema_version
                &&& final(c)@.last_check == (*c)@.last_check
                &&& final(c)@.proxy == (*c)@.proxy
                &&& final(c)@.preferences == preferences_after((*c)@.preferences, change)
            },
        forall|c: &mut StoredApplicationConfig, r: ()|
            #![trigger call_ensures(StoredApplicationConfig::save_network_proxy, (c, proxy), r)]
            call_ensures(StoredApplicationConfig::save_network_proxy, (c, proxy), r) ==> {
                &&& final(c)@.proxy == proxy@
                &&& final(c)@.schema_version == (*c)@.schema_version
                &&& final(c)@.last_check == (*c)@.last_check
                &&& final(c)@.preferences == (*c)@.preferences
            },
        forall|c: &mut StoredApplicationConfig, r: ()|
            #![trigger call_ensures(StoredApplicationConfig::record_successful_update_check, (c, now), r)]
            call_ensures(StoredApplicationConfig::record_successful_update_check, (c, now), r) ==> {
                &&& final(c)@.last_check == Some(now)
                &&& final(c)@.schema_version == (*c)@.schema_version
                &&& final(c)@.preferences == (*c)@.preferences
                &&& final(c)@.proxy == (*c)@.proxy
            },
        forall|c: &StoredApplicationConfig, r: ApplicationPreferences|
            #![trigger call_ensures(StoredApplicationConfig::load_preferences, (c,), r)]
            call_ensures(StoredApplicationConfig::load_preferences, (c,), r) ==> r
                == c@.preferences,
{
}

/// A check for updates is due where none succeeded yet, and then once the interval went by.
pub proof fn law_update_checks_come_due(c: &StoredApplicationConfig, now: u64, interval: u64)
    ensures
        forall|r: bool|
            #![trigger call_ensures(StoredApplicationConfig::automatic_update_check_due, (c, now, interval), r)]
            call_ensures(
                StoredApplicationConfig::automatic_update_check_due,
                (c, now, interval),
                r,
            ) ==> {
                &&& c@.last_check is None ==> r
                &&& c@.last_check matches Some(last) ==> (interval > 0 ==> (r <==> now >= last
                    + interval))
            },
{
}

/// What is told at the end of reading: nothing where the configuration is used, the reason and
/// the place of the original where it was replaced, and the failure where it cannot be read.
pub proof fn law_replacements_are_told(step: ConfigStep, backup: &Option<String>)
    ensures
        forall|r: Result<(StoredApplicationConfig, Option<String>), String>|
            #![trigger call_ensures(conclude_reading, (step, backup), r)]
            call_ensures(conclude_reading, (step, backup), r) ==> {
                &&& r is Ok <==> !(step is Fail)
                &&& step matches ConfigStep::Use(config) ==> r->Ok_0.0@ == config@ && r->Ok_0.1 is None
                &&& step matches ConfigStep::Replace { reason, config } ==> r->Ok_0.0@ == config@
                    && r->Ok_0.1 is Some
                &&& step matches ConfigStep::Fail { detail } ==> r->Err_0@ == detail@
            },
{
}

}
