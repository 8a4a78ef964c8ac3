//! Where the application lives: its build, how it was installed, whose desktop it
//! serves, and the places of its files.

use crate::error::{DogiError, ErrorKind};
use crate::paths;
use crate::text;
use vstd::prelude::*;

verus! {

pub const DEBIAN_EXECUTABLE: &'static str = "/usr/bin/dogi";

pub const DEBIAN_DISTRIBUTION_MARKER: &'static str = "/usr/lib/dogi/distribution";

pub const PORTABLE_DISTRIBUTION_MARKER: &'static str = "share/dogi/distribution";

/// What a build is for.
#[derive(Clone, Copy, Debug, PartialEq, Eq, Structural)]
pub enum BuildChannel {
    Stable,
    Development,
}

/// How the application was installed.
#[derive(Debug, PartialEq, Eq)]
pub enum Distribution {
    Debian,
    Portable { root: String },
    Unmanaged,
}

/// The mathematical value of [`Distribution`].
#[verifier::ext_equal]
pub enum DistributionView {
    Debian,
    Portable { root: Seq<char> },
    Unmanaged,
}

impl View for Distribution {
    type V = DistributionView;

    open spec fn view(&self) -> DistributionView {
        match self {
            Distribution::Debian => DistributionView::Debian,
            Distribution::Portable { root } => DistributionView::Portable { root: root@ },
            Distribution::Unmanaged => DistributionView::Unmanaged,
        }
    }
}

/// How the runtime is kept running.
#[derive(Clone, Copy, Debug, PartialEq, Eq, Structural)]
pub enum RuntimeIntegration {
    DebianSystemd,
    PortableSystemd,
    ForegroundOnly,
}

/// What may be done with the runtime.
#[derive(Debug, PartialEq, Eq)]
pub struct RuntimePolicy {
    pub integration: RuntimeIntegration,
    pub management_detail: String,
}

/// What may be done about updates.
#[derive(Debug, PartialEq, Eq)]
pub struct UpdatePolicy {
    pub enabled: bool,
    pub detail: String,
}

/// Whose desktop the application serves.
#[derive(Debug, PartialEq, Eq)]
pub struct UserContext {
    pub home: String,
    pub uid: Option<u32>,
    pub gid: Option<u32>,
}

/// The places of the files of the application.
#[derive(Debug, PartialEq, Eq)]
pub struct AppPaths {
    pub config: String,
    pub cache: String,
    pub session_runtime: String,
    pub runtime: String,
    pub global_runtime_lock: String,
}

impl BuildChannel {
    /// The channel of a name; what is not stable is for development.
    pub fn named(name: &str) -> (r: Self)
        ensures
            r == (if name@ == "stable"@ {
                BuildChannel::Stable
            } else {
                BuildChannel::Development
            }),
    {
        if text::same_text(name, "stable") {
            BuildChannel::Stable
        } else {
            BuildChannel::Development
        }
    }

    /// The name of a channel.
    pub open spec fn label_spec(self) -> Seq<char> {
        match self {
            BuildChannel::Stable => "stable"@,
            BuildChannel::Development => "development"@,
        }
    }

    /// The name of the channel.
    pub fn label(self) -> (r: &'static str)
        ensures
            r@ == self.label_spec(),
    {
        match self {
            BuildChannel::Stable => "stable",
            BuildChannel::Development => "development",
        }
    }
}

impl Distribution {
    /// The name of a distribution.
    pub open spec fn label_spec(d: DistributionView) -> Seq<char> {
        match d {
            DistributionView::Debian => "debian"@,
            DistributionView::Portable { root } => "portable"@,
            DistributionView::Unmanaged => "unmanaged"@,
        }
    }

    /// The name of the distribution.
    pub fn label(&self) -> (r: &'static str)
        ensures
            r@ == Distribution::label_spec(self@),
    {
        match self {
            Distribution::Debian => "debian",
            Distribution::Portable { .. } => "portable",
            Distribution::Unmanaged => "unmanaged",
        }
    }
}

impl RuntimeIntegration {
    /// The name of an integration.
    pub open spec fn label_spec(self) -> Seq<char> {
        match self {
            RuntimeIntegration::DebianSystemd => "debian-systemd"@,
            RuntimeIntegration::PortableSystemd => "portable-systemd"@,
            RuntimeIntegration::ForegroundOnly => "foreground-only"@,
        }
    }

    /// The name of the integration.
    pub fn label(self) -> (r: &'static str)
        ensures
            r@ == self.label_spec(),
    {
        match self {
            RuntimeIntegration::DebianSystemd => "debian-systemd",
            RuntimeIntegration::PortableSystemd => "portable-systemd",
            RuntimeIntegration::ForegroundOnly => "foreground-only",
        }
    }
}

/// Whether a marker says what is expected.
pub open spec fn marks(marker: Option<Seq<char>>, expected: Seq<char>) -> bool {
    marker matches Some(value) && text::trimmed(value) == expected
}

fn marker_has_value(marker: &Option<String>, expected: &str) -> (r: bool)
    ensures
        r == marks(text::optional(*marker), expected@),
{
    match marker {
        Some(value) => text::same_text(text::trim(value.as_str()).as_str(), expected),
        None => false,
    }
}

/// The root of a portable installation, as far as the path of the program tells:
/// it is `bin/dogi` below the root.
pub open spec fn root_of(executable: Seq<char>) -> Option<Seq<char>> {
    match paths::parent_of(executable) {
        None => None,
        Some(bin) => if paths::name_of(bin) == Some("bin"@) && paths::name_of(executable) == Some(
            "dogi"@,
        ) {
            paths::parent_of(bin)
        } else {
            None
        },
    }
}

/// The root of a portable installation, as far as the path of the program tells.
pub fn portable_root(executable: &str) -> (r: Option<String>)
    ensures
        text::optional(r) == root_of(executable@),
{
    let bin = match paths::parent(executable) {
        Some(bin) => bin,
        None => {
            return None;
        },
    };
    let in_bin = match paths::file_name(bin.as_str()) {
        Some(name) => text::same_text(name.as_str(), "bin"),
        None => false,
    };
    let is_dogi = match paths::file_name(executable) {
        Some(name) => text::same_text(name.as_str(), "dogi"),
        None => false,
    };
    if in_bin && is_dogi {
        paths::parent(bin.as_str())
    } else {
        None
    }
}

/// Where a portable installation has its marker.
pub fn portable_marker_path(root: &str) -> (r: String)
    ensures
        r@ == paths::joined(root@, "share/dogi/distribution"@),
{
    paths::join(root, PORTABLE_DISTRIBUTION_MARKER)
}

/// How the application was installed, by the path of the program and the markers
/// of the two kinds of installation.
pub open spec fn distribution_of(
    channel: BuildChannel,
    executable: Seq<char>,
    debian_marker: Option<Seq<char>>,
    portable_marker: Option<Seq<char>>,
) -> DistributionView {
    if channel == BuildChannel::Development {
        DistributionView::Unmanaged
    } else if executable == "/usr/bin/dogi"@ && marks(debian_marker, "debian"@) {
        DistributionView::Debian
    } else {
        match root_of(executable) {
            Some(root) => if marks(portable_marker, "portable"@) {
                DistributionView::Portable { root }
            } else {
                DistributionView::Unmanaged
            },
            None => DistributionView::Unmanaged,
        }
    }
}

/// How the application was installed.
pub fn detect_distribution(
    channel: BuildChannel,
    executable: &str,
    debian_marker: &Option<String>,
    portable_marker: &Option<String>,
) -> (r: Distribution)
    ensures
        r@ == distribution_of(
            channel,
            executable@,
            text::optional(*debian_marker),
            text::optional(*portable_marker),
        ),
{
    if channel == BuildChannel::Development {
        return Distribution::Unmanaged;
    }
    if text::same_text(executable, DEBIAN_EXECUTABLE) && marker_has_value(debian_marker, "debian") {
        return Distribution::Debian;
    }
    match portable_root(executable) {
        Some(root) => {
            if marker_has_value(portable_marker, "portable") {
                Distribution::Portable { root }
            } else {
                Distribution::Unmanaged
            }
        },
        None => Distribution::Unmanaged,
    }
}

/// How the runtime is kept running.
pub open spec fn integration_of(channel: BuildChannel, d: DistributionView) -> RuntimeIntegration {
    if channel == BuildChannel::Development {
        RuntimeIntegration::ForegroundOnly
    } else {
        match d {
            DistributionView::Debian => RuntimeIntegration::DebianSystemd,
            DistributionView::Portable { root } => RuntimeIntegration::PortableSystemd,
            DistributionView::Unmanaged => RuntimeIntegration::ForegroundOnly,
        }
    }
}

/// What is said of how the runtime is kept running.
pub open spec fn management_text(channel: BuildChannel, d: DistributionView) -> Seq<char> {
    if channel == BuildChannel::Development {
        "Development builds use an explicit foreground runtime and never modify the installed background service"@
    } else {
        match d {
            DistributionView::Debian => "Managed by the system-installed Dogi user service"@,
            DistributionView::Portable { root } =>
                "Managed by an explicitly enabled portable Dogi user service"@,
            DistributionView::Unmanaged =>
                "Persistent background integration is unavailable for an unmanaged Dogi binary"@,
        }
    }
}

/// What may be done with the runtime.
pub fn runtime_policy(channel: BuildChannel, distribution: &Distribution) -> (r: RuntimePolicy)
    ensures
        r.integration == integration_of(channel, distribution@),
        r.management_detail@ == management_text(channel, distribution@),
{
    if channel == BuildChannel::Development {
        return RuntimePolicy {
            integration: RuntimeIntegration::ForegroundOnly,
            management_detail: "Development builds use an explicit foreground runtime and never modify the installed background service".to_owned(),
        };
    }
    match distribution {
        Distribution::Debian => RuntimePolicy {
            integration: RuntimeIntegration::DebianSystemd,
            management_detail: "Managed by the system-installed Dogi user service".to_owned(),
        },
        Distribution::Portable { .. } => RuntimePolicy {
            integration: RuntimeIntegration::PortableSystemd,
            management_detail: "Managed by an explicitly enabled portable Dogi user service".to_owned(),
        },
        Distribution::Unmanaged => RuntimePolicy {
            integration: RuntimeIntegration::ForegroundOnly,
            management_detail: "Persistent background integration is unavailable for an unmanaged Dogi binary".to_owned(),
        },
    }
}

impl RuntimePolicy {
    /// Whether the runtime can be kept running in the background.
    pub fn persistent_management_supported(&self) -> (r: bool)
        ensures
            r == (self.integration != RuntimeIntegration::ForegroundOnly),
    {
        self.integration != RuntimeIntegration::ForegroundOnly
    }

    /// Whether the runtime runs in the background unless the user says otherwise.
    pub fn default_background_operations_enabled(&self) -> (r: bool)
        ensures
            r == (self.integration == RuntimeIntegration::DebianSystemd),
    {
        self.integration == RuntimeIntegration::DebianSystemd
    }
}

/// Whether the application updates itself.
pub open spec fn updates_enabled(channel: BuildChannel, d: DistributionView) -> bool {
    channel == BuildChannel::Stable && !(d is Unmanaged)
}

/// Why the application does not update itself.
pub open spec fn update_text(channel: BuildChannel, d: DistributionView) -> Seq<char> {
    if channel == BuildChannel::Development {
        "Automatic updates are disabled for development builds"@
    } else if d is Unmanaged {
        "Automatic updates require a Dogi Debian or portable installation"@
    } else {
        Seq::empty()
    }
}

/// What may be done about updates.
pub fn update_policy(channel: BuildChannel, distribution: &Distribution) -> (r: UpdatePolicy)
    ensures
        r.enabled == updates_enabled(channel, distribution@),
        r.detail@ == update_text(channel, distribution@),
{
    if channel == BuildChannel::Development {
        return UpdatePolicy {
            enabled: false,
            detail: "Automatic updates are disabled for development builds".to_owned(),
        };
    }
    match distribution {
        Distribution::Debian | Distribution::Portable { .. } => UpdatePolicy {
            enabled: true,
            detail: String::new(),
        },
        Distribution::Unmanaged => UpdatePolicy {
            enabled: false,
            detail: "Automatic updates require a Dogi Debian or portable installation".to_owned(),
        },
    }
}

/// A development build touches nothing that is installed: it counts as installed
/// nowhere, stays in the foreground and does not update itself.
pub proof fn law_development_builds_are_isolated(
    executable: Seq<char>,
    debian_marker: Option<Seq<char>>,
    portable_marker: Option<Seq<char>>,
    d: DistributionView,
)
    ensures
        distribution_of(
            BuildChannel::Development,
            executable,
            debian_marker,
            portable_marker,
        ) == DistributionView::Unmanaged,
        integration_of(BuildChannel::Development, d) == RuntimeIntegration::ForegroundOnly,
        !updates_enabled(BuildChannel::Development, d),
{
}

/// The directory of the application in a place that it shares.
pub open spec fn namespace(channel: BuildChannel) -> Seq<char> {
    match channel {
        BuildChannel::Stable => "dogi"@,
        BuildChannel::Development => "dogi-development"@,
    }
}

/// What the environment says of a place, where it counts: it does not for a user on
/// whose behalf another one runs the application.
pub open spec fn user_place(
    user: UserContext,
    variable: Option<Seq<char>>,
    fallback: Seq<char>,
) -> Seq<char> {
    match variable {
        Some(path) => if user.uid is None && path.len() > 0 {
            path
        } else {
            paths::joined(user.home@, fallback)
        },
        None => paths::joined(user.home@, fallback),
    }
}

/// The directory of a session.
pub open spec fn session_place(user: UserContext, variable: Option<Seq<char>>, euid: u32) -> Seq<char> {
    match user.uid {
        Some(uid) => "/run/user/"@ + text::decimal(uid as nat),
        None => match variable {
            Some(path) => if path.len() > 0 {
                path
            } else {
                "/run/user/"@ + text::decimal(euid as nat)
            },
            None => "/run/user/"@ + text::decimal(euid as nat),
        },
    }
}

fn user_scoped_path(user: &UserContext, variable: &Option<String>, fallback: &str) -> (r: String)
    ensures
        r@ == user_place(*user, text::optional(*variable), fallback@),
{
    if user.uid.is_none() {
        if let Some(path) = variable {
            if !path.as_str().is_empty() {
                return path.clone();
            }
        }
    }
    paths::join(user.home.as_str(), fallback)
}

fn user_runtime(uid: u32) -> (r: String)
    ensures
        r@ == "/run/user/"@ + text::decimal(uid as nat),
{
    let mut r = "/run/user/".to_owned();
    text::push_decimal(&mut r, uid as u64);
    r
}

fn runtime_home(user: &UserContext, variable: &Option<String>, euid: u32) -> (r: String)
    ensures
        r@ == session_place(*user, text::optional(*variable), euid),
{
    if let Some(uid) = user.uid {
        return user_runtime(uid);
    }
    if let Some(path) = variable {
        if !path.as_str().is_empty() {
            return path.clone();
        }
    }
    user_runtime(euid)
}

/// The mathematical value of [`AppPaths`].
#[verifier::ext_equal]
pub struct PathsView {
    pub config: Seq<char>,
    pub cache: Seq<char>,
    pub session_runtime: Seq<char>,
    pub runtime: Seq<char>,
    pub global_runtime_lock: Seq<char>,
}

impl View for AppPaths {
    type V = PathsView;

    open spec fn view(&self) -> PathsView {
        PathsView {
            config: self.config@,
            cache: self.cache@,
            session_runtime: self.session_runtime@,
            runtime: self.runtime@,
            global_runtime_lock: self.global_runtime_lock@,
        }
    }
}

/// What the environment says of the places of files.
#[derive(Debug)]
pub struct PathVariables {
    pub config_home: Option<String>,
    pub cache_home: Option<String>,
    pub runtime_dir: Option<String>,
    pub euid: u32,
}

/// The places of the files of the application.
pub open spec fn paths_of(channel: BuildChannel, user: UserContext, variables: PathVariables) -> PathsView {
    let session = session_place(user, text::optional(variables.runtime_dir), variables.euid);
    PathsView {
        config: paths::joined(
            user_place(user, text::optional(variables.config_home), ".config"@),
            namespace(channel),
        ),
        cache: paths::joined(
            user_place(user, text::optional(variables.cache_home), ".cache"@),
            namespace(channel),
        ),
        session_runtime: session,
        runtime: paths::joined(session, namespace(channel)),
        global_runtime_lock: paths::joined(session, "dogi-runtime.lock"@),
    }
}

/// The places of the files of the application.
pub fn resolve_paths(channel: BuildChannel, user: &UserContext, variables: &PathVariables) -> (r:
    AppPaths)
    ensures
        r@ == paths_of(channel, *user, *variables),
{
    let name = match channel {
        BuildChannel::Stable => "dogi",
        BuildChannel::Development => "dogi-development",
    };
    let config_home = user_scoped_path(user, &variables.config_home, ".config");
    let cache_home = user_scoped_path(user, &variables.cache_home, ".cache");
    let session = runtime_home(user, &variables.runtime_dir, variables.euid);
    AppPaths {
        config: paths::join(config_home.as_str(), name),
        cache: paths::join(cache_home.as_str(), name),
        runtime: paths::join(session.as_str(), name),
        global_runtime_lock: paths::join(session.as_str(), "dogi-runtime.lock"),
        session_runtime: session,
    }
}

impl AppPaths {
    pub fn application_config(&self) -> (r: String)
        ensures
            r@ == paths::joined(self@.config, "config.json"@),
    {
        paths::join(self.config.as_str(), "config.json")
    }

    pub fn device_settings(&self) -> (r: String)
        ensures
            r@ == paths::joined(self@.config, "master3s.json"@),
    {
        paths::join(self.config.as_str(), "master3s.json")
    }

    pub fn device_transaction(&self) -> (r: String)
        ensures
            r@ == paths::joined(self@.config, "device-transaction.json"@),
    {
        paths::join(self.config.as_str(), "device-transaction.json")
    }

    pub fn device_transactions_dir(&self) -> (r: String)
        ensures
            r@ == paths::joined(self@.config, "device-transactions"@),
    {
        paths::join(self.config.as_str(), "device-transactions")
    }

    pub fn device_transaction_lock(&self) -> (r: String)
        ensures
            r@ == paths::joined(self@.runtime, "device-transaction.lock"@),
    {
        paths::join(self.runtime.as_str(), "device-transaction.lock")
    }

    pub fn update_cache(&self) -> (r: String)
        ensures
            r@ == paths::joined(self@.cache, "updates"@),
    {
        paths::join(self.cache.as_str(), "updates")
    }

    pub fn battery_notification_state(&self) -> (r: String)
        ensures
            r@ == paths::joined(self@.cache, "battery-notifications.json"@),
    {
        paths::join(self.cache.as_str(), "battery-notifications.json")
    }

    pub fn runtime_active_device(&self) -> (r: String)
        ensures
            r@ == paths::joined(self@.cache, "runtime-active-device.json"@),
    {
        paths::join(self.cache.as_str(), "runtime-active-device.json")
    }

    pub fn runtime_control_socket(&self) -> (r: String)
        ensures
            r@ == paths::joined(self@.runtime, "runtime-control.sock"@),
    {
        paths::join(self.runtime.as_str(), "runtime-control.sock")
    }

    pub fn gui_instance_lock(&self) -> (r: String)
        ensures
            r@ == paths::joined(self@.runtime, "gui.lock"@),
    {
        paths::join(self.runtime.as_str(), "gui.lock")
    }
}

/// The home of a user in a line of the list of users: its sixth field, where the
/// third is the number of the user.
pub open spec fn home_in(line: Seq<char>, uid: u32) -> Option<Seq<char>> {
    let fields = text::pieces(line, ':');
    if fields.len() >= 6 && text::is_number(fields[2], u32::MAX as nat) && text::digits_value(
        text::digits_part(fields[2]),
    ) == uid && fields[5].len() > 0 {
        Some(fields[5])
    } else {
        None
    }
}

/// The home of a user in the lines from `i` on.
pub open spec fn home_from(lines: Seq<Seq<char>>, uid: u32, i: int) -> Option<Seq<char>>
    decreases lines.len() - i,
{
    if i < 0 || i >= lines.len() {
        None
    } else {
        match home_in(lines[i], uid) {
            Some(home) => Some(home),
            None => home_from(lines, uid, i + 1),
        }
    }
}

fn find_home(passwd: &str, uid: u32) -> (r: Option<String>)
    ensures
        text::optional(r) == home_from(text::lines_of(passwd@), uid, 0),
{
    let lines = text::lines(passwd);
    let ghost all = text::lines_of(passwd@);
    let mut i: usize = 0;
    while i < lines.len()
        invariant
            all == text::lines_of(passwd@),
            text::texts(lines@) == all,
            i <= lines@.len(),
            home_from(all, uid, 0) == home_from(all, uid, i as int),
        decreases lines@.len() - i,
    {
        assert(all[i as int] == lines@[i as int]@);
        let fields = text::split(lines[i].as_str(), ':');
        let ghost f = text::texts(fields@);
        if fields.len() >= 6 {
            assert(f[2] == fields@[2]@ && f[5] == fields@[5]@);
            if let Some(n) = text::parse_number(fields[2].as_str(), u32::MAX as u64) {
                if n == uid as u64 && !fields[5].as_str().is_empty() {
                    return Some(fields[5].clone());
                }
            }
        }
        i += 1;
    }
    None
}

/// The user on whose behalf the application runs with higher rights: the one who
/// called for them, unless that is the administrator.
pub open spec fn elevated(
    euid: u32,
    sudo_uid: Option<Seq<char>>,
    sudo_gid: Option<Seq<char>>,
    passwd: Option<Seq<char>>,
) -> Option<(Seq<char>, u32, u32)> {
    if euid == 0 && sudo_uid is Some && sudo_gid is Some && text::is_number(
        sudo_uid->Some_0,
        u32::MAX as nat,
    ) && text::is_number(sudo_gid->Some_0, u32::MAX as nat) && passwd is Some {
        let uid = text::digits_value(text::digits_part(sudo_uid->Some_0)) as u32;
        let gid = text::digits_value(text::digits_part(sudo_gid->Some_0)) as u32;
        if uid == 0 {
            None
        } else {
            match home_from(text::lines_of(passwd->Some_0), uid, 0) {
                Some(home) => Some((home, uid, gid)),
                None => None,
            }
        }
    } else {
        None
    }
}

/// The user on whose behalf the application runs with higher rights.
pub fn elevated_user(
    euid: u32,
    sudo_uid: &Option<String>,
    sudo_gid: &Option<String>,
    passwd: &Option<String>,
) -> (r: Option<UserContext>)
    ensures
        match elevated(
            euid,
            text::optional(*sudo_uid),
            text::optional(*sudo_gid),
            text::optional(*passwd),
        ) {
            Some((home, uid, gid)) => r matches Some(user) && user.home@ == home && user.uid
                == Some(uid) && user.gid == Some(gid),
            None => r is None,
        },
{
    if euid != 0 {
        return None;
    }
    let uid: u64 = match sudo_uid {
        Some(s) => match text::parse_number(s.as_str(), u32::MAX as u64) {
            Some(n) => n,
            None => {
                return None;
            },
        },
        None => {
            return None;
        },
    };
    let gid: u64 = match sudo_gid {
        Some(s) => match text::parse_number(s.as_str(), u32::MAX as u64) {
            Some(n) => n,
            None => {
                return None;
            },
        },
        None => {
            return None;
        },
    };
    if uid == 0 {
        return None;
    }
    match passwd {
        Some(passwd) => match find_home(passwd.as_str(), uid as u32) {
            Some(home) => Some(
                UserContext { home, uid: Some(uid as u32), gid: Some(gid as u32) },
            ),
            None => None,
        },
        None => None,
    }
}

/// The user of the desktop: the one on whose behalf the application runs, and else
/// the one whose home the environment names.
pub fn current_user(elevated: Option<UserContext>, home: Option<String>) -> (r: Result<
    UserContext,
    DogiError,
>)
    ensures
        match elevated {
            Some(user) => r == Ok::<UserContext, DogiError>(user),
            None => match home {
                Some(home) => if home@.len() > 0 {
                    r matches Ok(user) && user.home@ == home@ && user.uid is None && user.gid
                        is None
                } else {
                    r is Err && r->Err_0@ == (
                        ErrorKind::Config,
                        "HOME is not set for desktop integration"@,
                    )
                },
                None => r is Err && r->Err_0@ == (
                    ErrorKind::Config,
                    "HOME is not set for desktop integration"@,
                ),
            },
        },
{
    if let Some(user) = elevated {
        return Ok(user);
    }
    if let Some(home) = home {
        if !home.as_str().is_empty() {
            return Ok(UserContext { home, uid: None, gid: None });
        }
    }
    Err(DogiError::Config("HOME is not set for desktop integration".to_owned()))
}

/// A variable of the environment of a program and its value.
#[derive(Debug, PartialEq, Eq)]
pub struct Variable {
    pub name: &'static str,
    pub value: String,
}

/// The variables that a program of the user is run with.
pub open spec fn variables_for(user: UserContext) -> Seq<(Seq<char>, Seq<char>)> {
    let base = seq![
        ("HOME"@, user.home@),
        ("XDG_CONFIG_HOME"@, paths::joined(user.home@, ".config"@)),
    ];
    match user.uid {
        Some(uid) => base.push(
            ("XDG_RUNTIME_DIR"@, "/run/user/"@ + text::decimal(uid as nat)),
        ).push(
            (
                "DBUS_SESSION_BUS_ADDRESS"@,
                "unix:path="@ + ("/run/user/"@ + text::decimal(uid as nat)) + "/bus"@,
            ),
        ),
        None => base,
    }
}

impl UserContext {
    /// The variables that a program of the user is run with.
    pub fn command_environment(&self) -> (r: Vec<Variable>)
        ensures
            r@.map_values(|v: Variable| (v.name@, v.value@)) == variables_for(*self),
    {
        let mut r: Vec<Variable> = Vec::new();
        r.push(Variable { name: "HOME", value: self.home.clone() });
        r.push(
            Variable {
                name: "XDG_CONFIG_HOME",
                value: paths::join(self.home.as_str(), ".config"),
            },
        );
        if let Some(uid) = self.uid {
            let place = user_runtime(uid);
            let bus = text::concat3("unix:path=", place.as_str(), "/bus");
            r.push(Variable { name: "XDG_RUNTIME_DIR", value: place });
            r.push(Variable { name: "DBUS_SESSION_BUS_ADDRESS", value: bus });
        }
        assert(r@.map_values(|v: Variable| (v.name@, v.value@)) =~= variables_for(*self));
        r
    }
}

/// A released build that runs as the system's program beside the mark of the package is the
/// package; one that runs as `bin/dogi` below a directory with the mark of the portable
/// archive is that archive; and nothing else is managed.
pub proof fn law_installed_builds_are_recognised(
    executable: Seq<char>,
    root: Seq<char>,
    debian_marker: Seq<char>,
    portable_marker: Seq<char>,
)
    ensures
        executable == "/usr/bin/dogi"@ && text::trimmed(debian_marker) == "debian"@
            ==> distribution_of(
            BuildChannel::Stable,
            executable,
            Some(debian_marker),
            Some(portable_marker),
        ) == DistributionView::Debian,
        root_of(executable) == Some(root) && text::trimmed(portable_marker) == "portable"@
            ==> distribution_of(BuildChannel::Stable, executable, None, Some(portable_marker))
            == (DistributionView::Portable { root }),
        text::trimmed(portable_marker) != "portable"@ ==> distribution_of(
            BuildChannel::Stable,
            executable,
            None,
            Some(portable_marker),
        ) == DistributionView::Unmanaged,
        distribution_of(BuildChannel::Stable, executable, None, None)
            == DistributionView::Unmanaged,
{
}

/// A program lies in an archive where it is the `dogi` in a directory `bin` of it.
pub proof fn law_portable_root_lies_two_up(root: Seq<char>)
    requires
        root.len() > 0,
        root.last() != '/',
        paths::trimmed_len(root, root.len() as int) == root.len(),
    ensures
        root_of(root + "/"@ + "bin"@ + "/"@ + "dogi"@) == Some(root),
{
    reveal_strlit("/");
    reveal_strlit("bin");
    reveal_strlit("dogi");
    reveal_strlit(".");
    reveal_strlit("..");
    let bin = paths::joined(root, "bin"@);
    assert(bin =~= root + "/"@ + "bin"@);
    assert("bin"@[0] == 'b' && "bin"@[1] == 'i' && "bin"@[2] == 'n');
    assert("dogi"@[0] == 'd' && "dogi"@[1] == 'o' && "dogi"@[2] == 'g' && "dogi"@[3] == 'i');
    assert(!"bin"@.contains('/'));
    assert(!"dogi"@.contains('/'));
    assert("bin"@.len() == 3 && "dogi"@.len() == 4 && "."@.len() == 1 && ".."@.len() == 2);
    paths::law_join_and_take_apart(root, "bin"@);
    assert(bin.last() == 'n');
    assert(paths::trimmed_len(bin, bin.len() as int) == bin.len());
    paths::law_join_and_take_apart(bin, "dogi"@);
    assert(paths::joined(bin, "dogi"@) =~= root + "/"@ + "bin"@ + "/"@ + "dogi"@);
}

/// The package has the service of the system, the archive one that the user turns on, and
/// anything else none; both may update themselves.
pub proof fn law_installed_builds_are_served(root: Seq<char>)
    ensures
        integration_of(BuildChannel::Stable, DistributionView::Debian)
            == RuntimeIntegration::DebianSystemd,
        integration_of(BuildChannel::Stable, DistributionView::Portable { root })
            == RuntimeIntegration::PortableSystemd,
        integration_of(BuildChannel::Stable, DistributionView::Unmanaged)
            == RuntimeIntegration::ForegroundOnly,
        updates_enabled(BuildChannel::Stable, DistributionView::Debian),
        updates_enabled(BuildChannel::Stable, DistributionView::Portable { root }),
        !updates_enabled(BuildChannel::Stable, DistributionView::Unmanaged),
        forall|policy: &RuntimePolicy, r: bool|
            #![trigger call_ensures(RuntimePolicy::persistent_management_supported, (policy,), r)]
            call_ensures(RuntimePolicy::persistent_management_supported, (policy,), r) ==> (r
                <==> policy.integration is DebianSystemd || policy.integration is PortableSystemd),
        forall|policy: &RuntimePolicy, r: bool|
            #![trigger call_ensures(RuntimePolicy::default_background_operations_enabled, (policy,), r)]
            call_ensures(RuntimePolicy::default_background_operations_enabled, (policy,), r) ==> (r
                <==> policy.integration is DebianSystemd),
        forall|name: &str, r: BuildChannel|
            #![trigger call_ensures(BuildChannel::named, (name,), r)]
            call_ensures(BuildChannel::named, (name,), r) ==> (r is Stable <==> name@ == "stable"@),
{
}

/// What a build keeps lies in the directories of the user, under the name of the build, so that
/// a development build shares nothing but the lock of the runtime with a released one.
pub proof fn law_places_of_a_user(channel: BuildChannel, user: UserContext, variables: PathVariables)
    ensures
        ({
            let p = paths_of(channel, user, variables);
            let name = if channel is Stable {
                "dogi"@
            } else {
                "dogi-development"@
            };
            let session = match user.uid {
                Some(uid) => "/run/user/"@ + text::decimal(uid as nat),
                None => if variables.runtime_dir is Some && variables.runtime_dir->0@.len() > 0 {
                    variables.runtime_dir->0@
                } else {
                    "/run/user/"@ + text::decimal(variables.euid as nat)
                },
            };
            &&& user.uid is None && variables.config_home is Some
                && variables.config_home->0@.len() > 0 ==> p.config == paths::joined(
                variables.config_home->0@,
                name,
            )
            &&& user.uid is Some || variables.config_home is None
                || variables.config_home->0@.len() == 0 ==> p.config == paths::joined(
                paths::joined(user.home@, ".config"@),
                name,
            )
            &&& user.uid is None && variables.cache_home is Some
                && variables.cache_home->0@.len() > 0 ==> p.cache == paths::joined(
                variables.cache_home->0@,
                name,
            )
            &&& user.uid is Some || variables.cache_home is None
                || variables.cache_home->0@.len() == 0 ==> p.cache == paths::joined(
                paths::joined(user.home@, ".cache"@),
                name,
            )
            &&& p.session_runtime == session
            &&& p.runtime == paths::joined(session, name)
            &&& p.global_runtime_lock == paths::joined(session, "dogi-runtime.lock"@)
        }),
{
}

/// The files of a build have these names.
pub proof fn law_file_names(p: &AppPaths)
    ensures
        forall|r: String|
            #![trigger call_ensures(AppPaths::application_config, (p,), r)]
            call_ensures(AppPaths::application_config, (p,), r) ==> r@ == paths::joined(
                p@.config,
                "config.json"@,
            ),
        forall|r: String|
            #![trigger call_ensures(AppPaths::device_settings, (p,), r)]
            call_ensures(AppPaths::device_settings, (p,), r) ==> r@ == paths::joined(
                p@.config,
                "master3s.json"@,
            ),
        forall|r: String|
            #![trigger call_ensures(AppPaths::device_transaction, (p,), r)]
            call_ensures(AppPaths::device_transaction, (p,), r) ==> r@ == paths::joined(
                p@.config,
                "device-transaction.json"@,
            ),
        forall|r: String|
            #![trigger call_ensures(AppPaths::device_transactions_dir, (p,), r)]
            call_ensures(AppPaths::device_transactions_dir, (p,), r) ==> r@ == paths::joined(
                p@.config,
                "device-transactions"@,
            ),
        forall|r: String|
            #![trigger call_ensures(AppPaths::device_transaction_lock, (p,), r)]
            call_ensures(AppPaths::device_transaction_lock, (p,), r) ==> r@ == paths::joined(
                p@.runtime,
                "device-transaction.lock"@,
            ),
        forall|r: String|
            #![trigger call_ensures(AppPaths::update_cache, (p,), r)]
            call_ensures(AppPaths::update_cache, (p,), r) ==> r@ == paths::joined(
                p@.cache,
                "updates"@,
            ),
        forall|r: String|
            #![trigger call_ensures(AppPaths::battery_notification_state, (p,), r)]
            call_ensures(AppPaths::battery_notification_state, (p,), r) ==> r@ == paths::joined(
                p@.cache,
                "battery-notifications.json"@,
            ),
        forall|r: String|
            #![trigger call_ensures(AppPaths::runtime_active_device, (p,), r)]
            call_ensures(AppPaths::runtime_active_device, (p,), r) ==> r@ == paths::joined(
                p@.cache,
                "runtime-active-device.json"@,
            ),
        forall|r: String|
            #![trigger call_ensures(AppPaths::runtime_control_socket, (p,), r)]
            call_ensures(AppPaths::runtime_control_socket, (p,), r) ==> r@ == paths::joined(
                p@.runtime,
                "runtime-control.sock"@,
            ),
        forall|r: String|
            #![trigger call_ensures(AppPaths::gui_instance_lock, (p,), r)]
            call_ensures(AppPaths::gui_instance_lock, (p,), r) ==> r@ == paths::joined(
                p@.runtime,
                "gui.lock"@,
            ),
{
}

/// A program that was started with `sudo` works for the user who did so: with their numbers and
/// the home that the list of users gives them; without it, for the user whose home is set.
pub proof fn law_elevated_programs_serve_their_user(
    uid: u32,
    gid: u32,
    passwd: Seq<char>,
    home: Seq<char>,
    i: int,
)
    requires
        uid > 0,
        0 <= i < text::lines_of(passwd).len(),
        home_in(text::lines_of(passwd)[i], uid) == Some(home),
        forall|k: int|
            0 <= k < i ==> home_in(#[trigger] text::lines_of(passwd)[k], uid) is None,
    ensures
        elevated(
            0,
            Some(text::decimal(uid as nat)),
            Some(text::decimal(gid as nat)),
            Some(passwd),
        ) == Some((home, uid, gid)),
        forall|euid: u32|
            euid != 0 ==> #[trigger] elevated(
                euid,
                Some(text::decimal(uid as nat)),
                Some(text::decimal(gid as nat)),
                Some(passwd),
            ) is None,
        elevated(0, None, Some(text::decimal(gid as nat)), Some(passwd)) is None,
        elevated(0, Some(text::decimal(uid as nat)), None, Some(passwd)) is None,
{
    text::lemma_decimal_is_read_back(uid as nat);
    text::lemma_decimal_is_read_back(gid as nat);
    lemma_first_home(text::lines_of(passwd), uid, 0, i);
}

proof fn lemma_first_home(lines: Seq<Seq<char>>, uid: u32, i: int, n: int)
    requires
        0 <= i <= n < lines.len(),
        home_in(lines[n], uid) is Some,
        forall|k: int| i <= k < n ==> home_in(#[trigger] lines[k], uid) is None,
    ensures
        home_from(lines, uid, i) == home_in(lines[n], uid),
    decreases n - i,
{
    if i < n {
        assert(home_in(lines[i], uid) is None);
        lemma_first_home(lines, uid, i + 1, n);
    }
}

/// In a line of the list of users the third field is the number and the sixth the home.
pub proof fn law_homes_are_the_sixth_field(line: Seq<char>, uid: u32)
    requires
        text::pieces(line, ':').len() >= 6,
        text::pieces(line, ':')[2] == text::decimal(uid as nat),
        text::pieces(line, ':')[5].len() > 0,
    ensures
        home_in(line, uid) == Some(text::pieces(line, ':')[5]),
        forall|other: u32| other != uid ==> #[trigger] home_in(line, other) is None,
{
    text::lemma_decimal_is_read_back(uid as nat);
}

/// What a program that acts for a user is told of their places.
pub proof fn law_variables_of_a_user(user: UserContext, uid: u32)
    ensures
        variables_for(user)[0] == ("HOME"@, user.home@),
        variables_for(user)[1] == ("XDG_CONFIG_HOME"@, paths::joined(user.home@, ".config"@)),
        user.uid is None ==> variables_for(user).len() == 2,
        user.uid == Some(uid) ==> variables_for(user).len() == 4 && variables_for(user)[2] == (
            "XDG_RUNTIME_DIR"@,
            "/run/user/"@ + text::decimal(uid as nat),
        ) && variables_for(user)[3] == (
            "DBUS_SESSION_BUS_ADDRESS"@,
            "unix:path="@ + ("/run/user/"@ + text::decimal(uid as nat)) + "/bus"@,
        ),
        forall|who: UserContext, home: Option<String>, r: Result<UserContext, DogiError>|
            #![trigger call_ensures(current_user, (Some(who), home), r)]
            call_ensures(current_user, (Some(who), home), r) ==> r == Ok::<UserContext, DogiError>(
                who,
            ),
        forall|home: Option<String>, r: Result<UserContext, DogiError>|
            #![trigger call_ensures(current_user, (None, home), r)]
            call_ensures(current_user, (None, home), r) ==> {
                &&& r is Ok <==> home is Some && home->0@.len() > 0
                &&& r matches Ok(who) ==> who.home@ == home->0@ && who.uid is None && who.gid is None
            },
{
}

/// What is said of a build that is not managed or not updated.
pub proof fn law_words_for_builds(d: DistributionView, root: Seq<char>)
    ensures
        BuildChannel::Stable.label_spec() == "stable"@,
        BuildChannel::Development.label_spec() == "development"@,
        Distribution::label_spec(DistributionView::Debian) == "debian"@,
        Distribution::label_spec(DistributionView::Portable { root }) == "portable"@,
        Distribution::label_spec(DistributionView::Unmanaged) == "unmanaged"@,
        RuntimeIntegration::DebianSystemd.label_spec() == "debian-systemd"@,
        RuntimeIntegration::PortableSystemd.label_spec() == "portable-systemd"@,
        RuntimeIntegration::ForegroundOnly.label_spec() == "foreground-only"@,
        management_text(BuildChannel::Stable, DistributionView::Debian)
            == "Managed by the system-installed Dogi user service"@,
        management_text(BuildChannel::Stable, DistributionView::Portable { root })
            == "Managed by an explicitly enabled portable Dogi user service"@,
        management_text(BuildChannel::Stable, DistributionView::Unmanaged)
            == "Persistent background integration is unavailable for an unmanaged Dogi binary"@,
        update_text(BuildChannel::Development, d)
            == "Automatic updates are disabled for development builds"@,
        update_text(BuildChannel::Stable, DistributionView::Unmanaged)
            == "Automatic updates require a Dogi Debian or portable installation"@,
        update_text(BuildChannel::Stable, DistributionView::Debian).len() == 0,
{
}

}
