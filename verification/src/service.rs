//! The user service that runs the runtime in the background: its units, the commands
//! that start and stop it, and the state that is shown.

use crate::environment::{RuntimeIntegration, RuntimePolicy};
use crate::error::{DogiError, ErrorKind};
use crate::paths;
use crate::session::GraphicalSessionMode;
use crate::text;
use vstd::prelude::*;

verus! {

pub const SERVICE_NAME: &'static str = "dogi-runtime.service";

pub const VENDOR_UNIT_PATH: &'static str = "/usr/lib/systemd/user/dogi-runtime.service";

pub const USER_UNIT_RELATIVE_PATH: &'static str = ".config/systemd/user/dogi-runtime.service";

/// The first line of a unit that the portable integration wrote.
pub const PORTABLE_MARK: &'static str = "# Generated by Dogi portable integration.";

/// The first line of a unit that former releases wrote.
pub const FORMER_MARK: &'static str = "# Generated by Dogi. Manual changes will be replaced.";

/// The unit of the Debian package.
pub const STATIC_DEBIAN_UNIT: &'static str = "[Unit]
Description=Dogi desktop runtime
PartOf=graphical-session.target
After=graphical-session.target

[Service]
Type=simple
ExecStart=/usr/bin/dogi runtime run --idle-timeout-ms 1000 --execute-actions --allow-device-write
Restart=on-failure
RestartSec=2
RuntimeDirectory=dogi
CacheDirectory=dogi
ConfigurationDirectory=dogi
NoNewPrivileges=true
ProtectSystem=strict

[Install]
WantedBy=graphical-session.target
";

/// What stands in a portable unit between its mark and the executable.
pub const PORTABLE_UNIT_HEAD: &'static str = "
[Unit]
Description=Dogi desktop runtime
PartOf=graphical-session.target
After=graphical-session.target

[Service]
Type=simple
ExecStart=";

/// What stands in a portable unit behind the executable.
pub const PORTABLE_UNIT_TAIL: &'static str =
    " runtime run --idle-timeout-ms 1000 --execute-actions --allow-device-write
Restart=on-failure
RestartSec=2
RuntimeDirectory=dogi
CacheDirectory=dogi
NoNewPrivileges=true

[Install]
WantedBy=graphical-session.target
";

/// Whether a character needs no quotes in a unit.
pub open spec fn is_plain(c: char) -> bool {
    text::is_alphanumeric(c) || c == '/' || c == '.' || c == '_' || c == ':' || c == '-'
}

/// Whether a text needs no quotes in a unit.
pub open spec fn needs_no_quotes(s: Seq<char>) -> bool {
    forall|i: int| 0 <= i < s.len() ==> is_plain(#[trigger] s[i])
}

/// What stands for a character between quotes in a unit.
pub open spec fn escaped_char(c: char) -> Seq<char> {
    if c == '\\' {
        seq!['\\', '\\']
    } else if c == '"' {
        seq!['\\', '"']
    } else if c == '%' {
        seq!['%', '%']
    } else {
        seq![c]
    }
}

/// What stands for the first `n` characters of a text between quotes in a unit.
pub open spec fn escaped_prefix(s: Seq<char>, n: nat) -> Seq<char>
    decreases n,
{
    if n == 0 {
        Seq::empty()
    } else {
        escaped_prefix(s, (n - 1) as nat) + escaped_char(s[n - 1])
    }
}

/// A text as an argument in a unit.
pub open spec fn quoted(s: Seq<char>) -> Seq<char> {
    if needs_no_quotes(s) {
        s
    } else {
        seq!['"'] + escaped_prefix(s, s.len()) + seq!['"']
    }
}

/// A text as an argument in a unit.
pub fn systemd_quote(value: &str) -> (r: String)
    ensures
        r@ == quoted(value@),
{
    let chars = text::chars_of(value);
    let mut plain = true;
    let mut i: usize = 0;
    while i < chars.len()
        invariant
            chars@ == value@,
            i <= chars@.len(),
            plain <==> (forall|k: int| 0 <= k < i ==> is_plain(#[trigger] value@[k])),
        decreases chars@.len() - i,
    {
        let c = chars[i];
        if !(text::alphanumeric(c) || c == '/' || c == '.' || c == '_' || c == ':' || c == '-') {
            assert(!is_plain(value@[i as int]));
            plain = false;
        }
        i += 1;
    }
    if plain {
        return value.to_owned();
    }
    let mut escaped = String::new();
    escaped.push('"');
    let mut j: usize = 0;
    assert(escaped@ =~= seq!['"'] + escaped_prefix(value@, 0));
    while j < chars.len()
        invariant
            chars@ == value@,
            j <= chars@.len(),
            escaped@ == seq!['"'] + escaped_prefix(value@, j as nat),
        decreases chars@.len() - j,
    {
        let c = chars[j];
        let ghost before = escaped@;
        if c == '\\' || c == '"' {
            escaped.push('\\');
        } else if c == '%' {
            escaped.push('%');
        }
        escaped.push(c);
        assert(escaped@ =~= before + escaped_char(c));
        j += 1;
        assert(escaped@ =~= seq!['"'] + escaped_prefix(value@, j as nat));
    }
    escaped.push('"');
    assert(escaped@ =~= quoted(value@));
    escaped
}

/// What the service manager reads between quotes, from position `i` on.
pub open spec fn unescaped(s: Seq<char>, i: int) -> Seq<char>
    decreases s.len() - i,
{
    if i < 0 || i >= s.len() {
        Seq::empty()
    } else if i + 1 < s.len() && (s[i] == '\\' || s[i] == '%') {
        seq![s[i + 1]] + unescaped(s, i + 2)
    } else {
        seq![s[i]] + unescaped(s, i + 1)
    }
}

/// What the service manager reads as an argument.
pub open spec fn read_argument(s: Seq<char>) -> Seq<char> {
    if s.len() >= 2 && s[0] == '"' {
        unescaped(s.subrange(1, s.len() - 1), 0)
    } else {
        s
    }
}

proof fn lemma_unescaped(s: Seq<char>, n: nat, rest: Seq<char>)
    requires
        n <= s.len(),
    ensures
        unescaped(escaped_prefix(s, n) + rest, 0) == s.take(n as int) + unescaped(rest, 0),
    decreases n,
{
    if n == 0 {
        assert(escaped_prefix(s, n) + rest =~= rest);
        assert(s.take(0) + unescaped(rest, 0) =~= unescaped(rest, 0));
    } else {
        let c = s[n - 1];
        let tail = escaped_char(c) + rest;
        lemma_unescaped(s, (n - 1) as nat, tail);
        assert(escaped_prefix(s, n) + rest =~= escaped_prefix(s, (n - 1) as nat) + tail);
        if c == '\\' || c == '"' || c == '%' {
            assert(tail.skip(2) =~= rest);
            lemma_unescaped_skip(tail, rest, 2);
            assert(tail[1] == c);
            assert(unescaped(tail, 0) == seq![c] + unescaped(tail, 2));
        } else {
            assert(tail.skip(1) =~= rest);
            lemma_unescaped_skip(tail, rest, 1);
            assert(tail[0] == c);
            assert(unescaped(tail, 0) == seq![c] + unescaped(tail, 1));
        }
        assert(s.take(n as int) =~= s.take(n - 1) + seq![c]);
        assert(s.take(n - 1) + (seq![c] + unescaped(rest, 0)) =~= s.take(n as int) + unescaped(
            rest,
            0,
        ));
    }
}

/// Reading on from a position is reading what stands behind it.
proof fn lemma_unescaped_skip(s: Seq<char>, rest: Seq<char>, n: int)
    requires
        0 <= n <= s.len(),
        rest == s.skip(n),
    ensures
        unescaped(s, n) == unescaped(rest, 0),
{
    lemma_unescaped_shift(s, rest, n, 0);
}

proof fn lemma_unescaped_shift(s: Seq<char>, rest: Seq<char>, n: int, i: int)
    requires
        0 <= n <= s.len(),
        0 <= i,
        rest == s.skip(n),
    ensures
        unescaped(s, n + i) == unescaped(rest, i),
    decreases rest.len() - i,
{
    if i < rest.len() {
        assert(s[n + i] == rest[i]);
        if i + 1 < rest.len() {
            assert(s[n + i + 1] == rest[i + 1]);
        }
        if i + 1 < rest.len() && (rest[i] == '\\' || rest[i] == '%') {
            lemma_unescaped_shift(s, rest, n, i + 2);
        } else {
            lemma_unescaped_shift(s, rest, n, i + 1);
        }
    }
}

/// What is quoted is read back as it was.
pub proof fn law_quoted_arguments_are_read_back(s: Seq<char>)
    ensures
        read_argument(quoted(s)) == s,
{
    if needs_no_quotes(s) {
        if s.len() >= 2 {
            assert(is_plain(s[0]));
        }
    } else {
        let inner = escaped_prefix(s, s.len());
        assert(quoted(s).subrange(1, quoted(s).len() - 1) =~= inner);
        lemma_unescaped(s, s.len(), Seq::empty());
        assert(inner + Seq::<char>::empty() =~= inner);
        assert(s.take(s.len() as int) + unescaped(Seq::empty(), 0) =~= s);
    }
}

/// The unit of an executable that was not installed from a package.
pub open spec fn portable_unit_text(binary: Seq<char>) -> Seq<char> {
    PORTABLE_MARK@ + PORTABLE_UNIT_HEAD@ + quoted(binary) + PORTABLE_UNIT_TAIL@
}

/// The unit of an executable that was not installed from a package.
pub fn portable_unit(binary: &str) -> (r: String)
    ensures
        r@ == portable_unit_text(binary@),
{
    let argument = systemd_quote(binary);
    let mut unit = text::concat3(PORTABLE_MARK, PORTABLE_UNIT_HEAD, argument.as_str());
    unit.append(PORTABLE_UNIT_TAIL);
    unit
}

/// Whether a unit was written by the portable integration.
pub open spec fn is_portable_unit(contents: Seq<char>) -> bool {
    text::has_prefix(contents, PORTABLE_MARK@)
}

/// A unit that the portable integration writes is known as its own, so that it is
/// replaced and removed without a complaint.
pub proof fn law_own_units_are_known(binary: Seq<char>)
    ensures
        is_portable_unit(portable_unit_text(binary)),
{
    assert(portable_unit_text(binary).take(PORTABLE_MARK@.len() as int) =~= PORTABLE_MARK@);
}

/// Why the runtime does not act.
#[derive(Clone, Copy, Debug, PartialEq, Eq, Structural)]
pub enum DesktopRuntimePauseReason {
    Nothing,
    DesktopLocked,
    RemoteLogin,
    NoLocalDesktop,
    Unknown,
}

/// Why the runtime does not act in a session.
pub open spec fn pause_reason_in(mode: GraphicalSessionMode) -> DesktopRuntimePauseReason {
    match mode {
        GraphicalSessionMode::LocalActive => DesktopRuntimePauseReason::Nothing,
        GraphicalSessionMode::LocalLocked => DesktopRuntimePauseReason::DesktopLocked,
        GraphicalSessionMode::RemoteOnly => DesktopRuntimePauseReason::RemoteLogin,
        GraphicalSessionMode::Inactive => DesktopRuntimePauseReason::NoLocalDesktop,
        GraphicalSessionMode::Unknown => DesktopRuntimePauseReason::Unknown,
    }
}

/// Why the runtime does not act in a session.
pub fn pause_reason(mode: GraphicalSessionMode) -> (r: DesktopRuntimePauseReason)
    ensures
        r == pause_reason_in(mode),
        r == DesktopRuntimePauseReason::Nothing <==> mode == GraphicalSessionMode::LocalActive,
{
    match mode {
        GraphicalSessionMode::LocalActive => DesktopRuntimePauseReason::Nothing,
        GraphicalSessionMode::LocalLocked => DesktopRuntimePauseReason::DesktopLocked,
        GraphicalSessionMode::RemoteOnly => DesktopRuntimePauseReason::RemoteLogin,
        GraphicalSessionMode::Inactive => DesktopRuntimePauseReason::NoLocalDesktop,
        GraphicalSessionMode::Unknown => DesktopRuntimePauseReason::Unknown,
    }
}

/// The state of the service that is shown.
#[derive(Debug, PartialEq, Eq)]
pub struct DesktopRuntimeStatus {
    pub enabled: bool,
    pub active: bool,
    pub ready: bool,
    pub paused: bool,
    pub pause_reason: DesktopRuntimePauseReason,
    pub app_profiles_supported: bool,
    pub detail: String,
}

/// The mathematical value of [`DesktopRuntimeStatus`].
#[verifier::ext_equal]
pub struct ServiceView {
    pub enabled: bool,
    pub active: bool,
    pub ready: bool,
    pub paused: bool,
    pub pause_reason: DesktopRuntimePauseReason,
    pub app_profiles_supported: bool,
    pub detail: Seq<char>,
}

impl View for DesktopRuntimeStatus {
    type V = ServiceView;

    open spec fn view(&self) -> ServiceView {
        ServiceView {
            enabled: self.enabled,
            active: self.active,
            ready: self.ready,
            paused: self.paused,
            pause_reason: self.pause_reason,
            app_profiles_supported: self.app_profiles_supported,
            detail: self.detail@,
        }
    }
}

/// The state that is shown of a service. `input_fault` tells why no input can be made.
pub open spec fn status_of(
    enabled: bool,
    active: bool,
    mode: GraphicalSessionMode,
    session_detail: Seq<char>,
    input_fault: Option<Seq<char>>,
    app_profiles_supported: bool,
) -> ServiceView {
    let reason = if active {
        pause_reason_in(mode)
    } else {
        DesktopRuntimePauseReason::Nothing
    };
    let paused = reason != DesktopRuntimePauseReason::Nothing;
    let detail = if paused {
        session_detail
    } else {
        match input_fault {
            Some(fault) if active => fault,
            _ => Seq::empty(),
        }
    };
    ServiceView {
        enabled,
        active,
        ready: active && !paused && detail.len() == 0,
        paused,
        pause_reason: reason,
        app_profiles_supported,
        detail,
    }
}

/// The state that is shown of a service. `input_fault` tells why no input can be made.
pub fn service_status(
    enabled: bool,
    active: bool,
    mode: GraphicalSessionMode,
    session_detail: String,
    input_fault: Option<String>,
    app_profiles_supported: bool,
) -> (r: DesktopRuntimeStatus)
    ensures
        r@ == status_of(
            enabled,
            active,
            mode,
            session_detail@,
            text::optional(input_fault),
            app_profiles_supported,
        ),
{
    let reason = if active {
        pause_reason(mode)
    } else {
        DesktopRuntimePauseReason::Nothing
    };
    let paused = reason != DesktopRuntimePauseReason::Nothing;
    let detail = if paused {
        session_detail
    } else if active {
        match input_fault {
            Some(fault) => fault,
            None => String::new(),
        }
    } else {
        String::new()
    };
    let ready = active && !paused && detail.as_str().is_empty();
    DesktopRuntimeStatus {
        enabled,
        active,
        ready,
        paused,
        pause_reason: reason,
        app_profiles_supported,
        detail,
    }
}

/// A service is ready only in a session at this machine that is not locked, and only
/// where it can make input.
pub proof fn law_ready_services_can_act(
    enabled: bool,
    active: bool,
    mode: GraphicalSessionMode,
    session_detail: Seq<char>,
    input_fault: Option<Seq<char>>,
    app_profiles_supported: bool,
)
    ensures
        status_of(
            enabled,
            active,
            mode,
            session_detail,
            input_fault,
            app_profiles_supported,
        ).ready <==> active && mode == GraphicalSessionMode::LocalActive && (match input_fault {
            Some(fault) => fault.len() == 0,
            None => true,
        }),
{
}

/// Whether the service may be managed. `elevated` tells that the command runs for
/// another user.
pub open spec fn management_fault(
    elevated: bool,
    integration: RuntimeIntegration,
    detail: Seq<char>,
) -> Option<(ErrorKind, Seq<char>)> {
    if elevated {
        Some(
            (
                ErrorKind::InvalidArgument,
                "manage the Dogi user service as the desktop user, without sudo"@,
            ),
        )
    } else if integration == RuntimeIntegration::ForegroundOnly {
        Some((ErrorKind::BackendUnavailable, detail))
    } else {
        None
    }
}

/// The view of a failure that may not have happened.
pub open spec fn fault_view(fault: Option<DogiError>) -> Option<(ErrorKind, Seq<char>)> {
    match fault {
        Some(error) => Some(error@),
        None => None,
    }
}

/// Why the service may not be managed.
pub fn ensure_persistent_integration(elevated: bool, policy: &RuntimePolicy) -> (r: Option<
    DogiError,
>)
    ensures
        fault_view(r) == management_fault(elevated, policy.integration, policy.management_detail@),
{
    if elevated {
        return Some(
            DogiError::InvalidArgument(
                "manage the Dogi user service as the desktop user, without sudo".to_owned(),
            ),
        );
    }
    if policy.persistent_management_supported() {
        None
    } else {
        Some(DogiError::BackendUnavailable(policy.management_detail.clone()))
    }
}

/// What is found of the units on this machine.
#[derive(Debug, PartialEq, Eq)]
pub struct FoundUnits {
    /// The unit of the package is a file.
    pub vendor_is_file: bool,
    /// There is something where the unit of the package stands.
    pub vendor_exists: bool,
    /// There is something where the unit of the user stands.
    pub user_exists: bool,
    /// What the unit of the user says, where it can be read.
    pub user_contents: Option<String>,
}

/// Why the units on this machine stand in the way.
pub open spec fn units_fault(
    integration: RuntimeIntegration,
    found: FoundUnits,
    user_unit: Seq<char>,
) -> Option<Seq<char>> {
    match integration {
        RuntimeIntegration::DebianSystemd => if !found.vendor_is_file {
            Some("the Debian package-owned Dogi runtime unit is missing"@)
        } else if found.user_exists {
            Some(
                user_unit
                    + " overrides the package-owned Dogi runtime; remove that user unit before enabling the packaged service"@,
            )
        } else {
            None
        },
        RuntimeIntegration::PortableSystemd => if found.vendor_exists {
            Some("portable runtime integration cannot override an installed Dogi Debian service"@)
        } else {
            match found.user_contents {
                Some(contents) if !is_portable_unit(contents@) => Some(
                    "refusing to overwrite an unmanaged service unit at "@ + user_unit,
                ),
                _ => None,
            }
        },
        RuntimeIntegration::ForegroundOnly => None,
    }
}

/// Why the service cannot be set up: an installation without a service has none to set
/// up, and with another one the units on this machine may stand in the way.
pub open spec fn integration_fault(
    elevated: bool,
    policy: RuntimePolicy,
    found: FoundUnits,
    user_unit: Seq<char>,
) -> Option<(ErrorKind, Seq<char>)> {
    if policy.integration == RuntimeIntegration::ForegroundOnly {
        management_fault(elevated, policy.integration, policy.management_detail@)
    } else {
        match units_fault(policy.integration, found, user_unit) {
            Some(detail) => Some((ErrorKind::Config, detail)),
            None => None,
        }
    }
}

/// Why the service cannot be set up.
pub fn validate_integration(
    elevated: bool,
    policy: &RuntimePolicy,
    found: &FoundUnits,
    user_unit: &str,
) -> (r: Option<DogiError>)
    ensures
        fault_view(r) == integration_fault(elevated, *policy, *found, user_unit@),
        policy.integration == RuntimeIntegration::ForegroundOnly ==> r is Some,
{
    match policy.integration {
        RuntimeIntegration::DebianSystemd => {
            if !found.vendor_is_file {
                return Some(
                    DogiError::Config(
                        "the Debian package-owned Dogi runtime unit is missing".to_owned(),
                    ),
                );
            }
            if found.user_exists {
                return Some(
                    DogiError::Config(
                        text::concat2(
                            user_unit,
                            " overrides the package-owned Dogi runtime; remove that user unit before enabling the packaged service",
                        ),
                    ),
                );
            }
            None
        },
        RuntimeIntegration::PortableSystemd => {
            if found.vendor_exists {
                return Some(
                    DogiError::Config(
                        "portable runtime integration cannot override an installed Dogi Debian service".to_owned(),
                    ),
                );
            }
            if let Some(contents) = &found.user_contents {
                if !text::starts_with(contents.as_str(), PORTABLE_MARK) {
                    return Some(
                        DogiError::Config(
                            text::concat2(
                                "refusing to overwrite an unmanaged service unit at ",
                                user_unit,
                            ),
                        ),
                    );
                }
            }
            None
        },
        RuntimeIntegration::ForegroundOnly => ensure_persistent_integration(elevated, policy),
    }
}

/// The place of the unit of the user.
pub fn user_unit_path(home: &str) -> (r: String)
    ensures
        r@ == paths::joined(home@, USER_UNIT_RELATIVE_PATH@),
{
    paths::join(home, USER_UNIT_RELATIVE_PATH)
}

/// Whether the unit of the user has to be written.
pub fn unit_changes(installed: &Option<String>, contents: &str) -> (r: bool)
    ensures
        r == (text::optional(*installed) != Some(contents@)),
{
    match installed {
        Some(installed) => !text::same_text(installed.as_str(), contents),
        None => true,
    }
}

/// A command for the service manager of the user, and what it is to do.
#[derive(Debug, PartialEq, Eq)]
pub struct ServiceCommand {
    pub args: Vec<String>,
    pub operation: &'static str,
}

/// The mathematical value of [`ServiceCommand`].
#[verifier::ext_equal]
pub struct CommandView {
    pub args: Seq<Seq<char>>,
    pub operation: Seq<char>,
}

impl View for ServiceCommand {
    type V = CommandView;

    open spec fn view(&self) -> CommandView {
        CommandView { args: text::texts(self.args@), operation: self.operation@ }
    }
}

/// The views of some commands.
pub open spec fn command_views(commands: Seq<ServiceCommand>) -> Seq<CommandView> {
    commands.map_values(|command: ServiceCommand| command@)
}

/// A command of one word for the service manager of the user.
pub open spec fn plain_command(word: Seq<char>, operation: Seq<char>) -> CommandView {
    CommandView { args: seq!["--user"@, word], operation }
}

/// A command on the service.
pub open spec fn unit_command(word: Seq<char>, operation: Seq<char>) -> CommandView {
    CommandView { args: seq!["--user"@, word, SERVICE_NAME@], operation }
}

/// The commands that make the service run. `unit_changed` tells that its unit was
/// written anew.
pub open spec fn start_commands(integration: RuntimeIntegration, unit_changed: bool) -> Seq<
    CommandView,
> {
    (if unit_changed || integration == RuntimeIntegration::DebianSystemd {
        seq![plain_command("daemon-reload"@, "reload the Dogi runtime"@)]
    } else {
        Seq::empty()
    }) + seq![
        unit_command("enable"@, "enable the Dogi runtime"@),
        unit_command(
            if unit_changed {
                "restart"@
            } else {
                "start"@
            },
            "start the Dogi runtime"@,
        ),
    ]
}

/// The commands that stop a service.
pub open spec fn stop_commands(enabled: bool, active: bool) -> Seq<CommandView> {
    if enabled || active {
        seq![
            CommandView {
                args: seq!["--user"@, "disable"@, "--now"@, SERVICE_NAME@],
                operation: "stop the Dogi runtime"@,
            },
        ]
    } else {
        Seq::empty()
    }
}

/// A command of one word for the service manager of the user.
fn manager_command(word: &str, operation: &'static str) -> (r: ServiceCommand)
    ensures
        r@ == plain_command(word@, operation@),
{
    let args = vec!["--user".to_owned(), word.to_owned()];
    assert(text::texts(args@) =~= seq!["--user"@, word@]);
    ServiceCommand { args, operation }
}

/// A command on the service.
fn service_command(word: &str, operation: &'static str) -> (r: ServiceCommand)
    ensures
        r@ == unit_command(word@, operation@),
{
    let args = vec!["--user".to_owned(), word.to_owned(), SERVICE_NAME.to_owned()];
    assert(text::texts(args@) =~= seq!["--user"@, word@, SERVICE_NAME@]);
    ServiceCommand { args, operation }
}

/// The commands that make the service run. `unit_changed` tells that its unit was
/// written anew.
pub fn commands_to_start(integration: RuntimeIntegration, unit_changed: bool) -> (r: Vec<
    ServiceCommand,
>)
    ensures
        command_views(r@) == start_commands(integration, unit_changed),
{
    let mut commands: Vec<ServiceCommand> = Vec::new();
    if unit_changed || integration == RuntimeIntegration::DebianSystemd {
        commands.push(manager_command("daemon-reload", "reload the Dogi runtime"));
    }
    commands.push(service_command("enable", "enable the Dogi runtime"));
    let word: &str = if unit_changed {
        "restart"
    } else {
        "start"
    };
    commands.push(service_command(word, "start the Dogi runtime"));
    assert(command_views(commands@) =~= start_commands(integration, unit_changed));
    commands
}

/// The command that starts the running service anew.
pub fn command_to_restart() -> (r: ServiceCommand)
    ensures
        r@ == unit_command("restart"@, "restart the Dogi runtime"@),
{
    service_command("restart", "restart the Dogi runtime")
}

/// The commands that stop a service.
pub fn commands_to_stop(status: &DesktopRuntimeStatus) -> (r: Vec<ServiceCommand>)
    ensures
        command_views(r@) == stop_commands(status@.enabled, status@.active),
{
    let mut commands: Vec<ServiceCommand> = Vec::new();
    if status.enabled || status.active {
        let args = vec![
            "--user".to_owned(),
            "disable".to_owned(),
            "--now".to_owned(),
            SERVICE_NAME.to_owned(),
        ];
        assert(text::texts(args@) =~= seq!["--user"@, "disable"@, "--now"@, SERVICE_NAME@]);
        commands.push(ServiceCommand { args, operation: "stop the Dogi runtime" });
    }
    assert(command_views(commands@) =~= stop_commands(status@.enabled, status@.active));
    commands
}

/// The state of the service once it was started; a failure where it did not stay up.
pub fn conclude_start(status: DesktopRuntimeStatus, failure_detail: String) -> (r: Result<
    DesktopRuntimeStatus,
    DogiError,
>)
    ensures
        match r {
            Ok(s) => status@.active && s@ == status@,
            Err(e) => !status@.active && e@ == (ErrorKind::BackendUnavailable, failure_detail@),
        },
{
    if !status.active {
        return Err(DogiError::BackendUnavailable(failure_detail));
    }
    Ok(status)
}

/// The state of the service once it was started anew.
pub fn conclude_restart(status: DesktopRuntimeStatus) -> (r: DesktopRuntimeStatus)
    ensures
        r@ == (ServiceView { active: true, ..status@ }),
{
    let mut status = status;
    status.active = true;
    status
}

/// What a command says of itself: what it reported as wrong, or else what it printed.
pub open spec fn detail_of(stderr: Seq<char>, stdout: Seq<char>) -> Seq<char> {
    if text::trimmed(stderr).len() > 0 {
        text::trimmed(stderr)
    } else {
        text::trimmed(stdout)
    }
}

/// What a command says of itself.
pub fn command_detail(stderr: &str, stdout: &str) -> (r: String)
    ensures
        r@ == detail_of(stderr@, stdout@),
{
    let reported = text::trim(stderr);
    if !reported.as_str().is_empty() {
        return reported;
    }
    text::trim(stdout)
}

/// Why the service did not stay up, from what the service manager says of it.
pub fn service_failure_detail(report: Option<(String, String)>) -> (r: String)
    ensures
        r@ == match report {
            Some((stderr, stdout)) if detail_of(stderr@, stdout@).len() > 0 => detail_of(
                stderr@,
                stdout@,
            ),
            _ => "Dogi desktop runtime did not remain active"@,
        },
{
    if let Some((stderr, stdout)) = report {
        let detail = command_detail(stderr.as_str(), stdout.as_str());
        if !detail.as_str().is_empty() {
            return detail;
        }
    }
    "Dogi desktop runtime did not remain active".to_owned()
}

/// How a command for the service manager ended.
#[derive(Debug, PartialEq, Eq)]
pub enum CommandEnd {
    Succeeded,
    /// It could not be run.
    NotRun(String),
    /// It failed, with what it reported and what it printed.
    Failed { stderr: String, stdout: String },
}

/// Why a command did not do what it is for.
pub fn systemctl_fault(operation: &str, end: &CommandEnd) -> (r: Option<DogiError>)
    ensures
        fault_view(r) == match end {
            CommandEnd::Succeeded => None,
            CommandEnd::NotRun(detail) => Some(
                (
                    ErrorKind::BackendUnavailable,
                    "failed to "@ + operation@ + ": "@ + detail@,
                ),
            ),
            CommandEnd::Failed { stderr, stdout } => Some(
                (
                    ErrorKind::BackendUnavailable,
                    "could not "@ + operation@ + ": "@ + detail_of(stderr@, stdout@),
                ),
            ),
        },
{
    match end {
        CommandEnd::Succeeded => None,
        CommandEnd::NotRun(detail) => {
            let mut message = text::concat3("failed to ", operation, ": ");
            message.append(detail.as_str());
            Some(DogiError::BackendUnavailable(message))
        },
        CommandEnd::Failed { stderr, stdout } => {
            let mut message = text::concat3("could not ", operation, ": ");
            let detail = command_detail(stderr.as_str(), stdout.as_str());
            message.append(detail.as_str());
            Some(DogiError::BackendUnavailable(message))
        },
    }
}

/// What is found where the socket of the service manager stands.
#[derive(Debug, PartialEq, Eq)]
pub enum SocketFinding {
    Socket,
    OtherFile,
    Missing(String),
}

/// Why the service manager of the user cannot be reached.
pub fn manager_fault(socket: &str, finding: &SocketFinding) -> (r: Option<DogiError>)
    ensures
        fault_view(r) == match finding {
            SocketFinding::Socket => None,
            SocketFinding::OtherFile => Some(
                (
                    ErrorKind::BackendUnavailable,
                    socket@ + " is not a systemd user-manager socket"@,
                ),
            ),
            SocketFinding::Missing(detail) => Some(
                (
                    ErrorKind::BackendUnavailable,
                    "systemd user manager is unavailable at "@ + socket@ + ": "@ + detail@,
                ),
            ),
        },
{
    match finding {
        SocketFinding::Socket => None,
        SocketFinding::OtherFile => Some(
            DogiError::BackendUnavailable(
                text::concat2(socket, " is not a systemd user-manager socket"),
            ),
        ),
        SocketFinding::Missing(detail) => {
            let mut message = text::concat3(
                "systemd user manager is unavailable at ",
                socket,
                ": ",
            );
            message.append(detail.as_str());
            Some(DogiError::BackendUnavailable(message))
        },
    }
}

/// Why no input can be made: the command runs for another user, or the device could not
/// be opened.
pub fn uinput_fault(elevated: bool, opened: &Option<String>) -> (r: Option<DogiError>)
    ensures
        fault_view(r) == if elevated {
            Some(
                (
                    ErrorKind::BackendUnavailable,
                    "run the Dogi GUI as the desktop user, without sudo"@,
                ),
            )
        } else {
            match opened {
                None => None,
                Some(detail) => Some(
                    (
                        ErrorKind::BackendUnavailable,
                        "cannot access /dev/uinput: "@ + detail@
                            + ". Install Dogi's udev rules, then sign in again"@,
                    ),
                ),
            }
        },
{
    if elevated {
        return Some(
            DogiError::BackendUnavailable(
                "run the Dogi GUI as the desktop user, without sudo".to_owned(),
            ),
        );
    }
    match opened {
        None => None,
        Some(detail) => Some(
            DogiError::BackendUnavailable(
                text::concat3(
                    "cannot access /dev/uinput: ",
                    detail.as_str(),
                    ". Install Dogi's udev rules, then sign in again",
                ),
            ),
        ),
    }
}

/// Whether profiles of applications can be told apart: on X11, with its property lister.
pub fn app_profiles_supported(session_type: &Option<String>, lister_runs: bool) -> (r: bool)
    ensures
        r == ((session_type matches Some(t) && text::lowered(t@) == text::lowered("x11"@))
            && lister_runs),
{
    match session_type {
        Some(t) => text::same_ignoring_case(t.as_str(), "x11") && lister_runs,
        None => false,
    }
}

/// The unit that is printed.
pub fn printed_unit(policy: &RuntimePolicy, executable: &str) -> (r: Result<String, DogiError>)
    ensures
        match r {
            Ok(unit) => match policy.integration {
                RuntimeIntegration::DebianSystemd => unit@ == STATIC_DEBIAN_UNIT@,
                RuntimeIntegration::PortableSystemd => unit@ == portable_unit_text(executable@),
                RuntimeIntegration::ForegroundOnly => false,
            },
            Err(e) => policy.integration == RuntimeIntegration::ForegroundOnly && e@ == (
                ErrorKind::BackendUnavailable,
                policy.management_detail@,
            ),
        },
{
    match policy.integration {
        RuntimeIntegration::DebianSystemd => Ok(STATIC_DEBIAN_UNIT.to_owned()),
        RuntimeIntegration::PortableSystemd => Ok(portable_unit(executable)),
        RuntimeIntegration::ForegroundOnly => Err(
            DogiError::BackendUnavailable(policy.management_detail.clone()),
        ),
    }
}

/// The place of the unit.
pub fn unit_path(policy: &RuntimePolicy, home: &str) -> (r: Result<String, DogiError>)
    ensures
        match r {
            Ok(path) => match policy.integration {
                RuntimeIntegration::DebianSystemd => path@ == VENDOR_UNIT_PATH@,
                RuntimeIntegration::PortableSystemd => path@ == paths::joined(
                    home@,
                    USER_UNIT_RELATIVE_PATH@,
                ),
                RuntimeIntegration::ForegroundOnly => false,
            },
            Err(e) => policy.integration == RuntimeIntegration::ForegroundOnly && e@ == (
                ErrorKind::BackendUnavailable,
                policy.management_detail@,
            ),
        },
{
    match policy.integration {
        RuntimeIntegration::DebianSystemd => Ok(VENDOR_UNIT_PATH.to_owned()),
        RuntimeIntegration::PortableSystemd => Ok(user_unit_path(home)),
        RuntimeIntegration::ForegroundOnly => Err(
            DogiError::BackendUnavailable(policy.management_detail.clone()),
        ),
    }
}

/// What reading the unit of the user gave.
#[derive(Debug, PartialEq, Eq)]
pub enum UnitSource {
    Missing,
    Unreadable(String),
    Contents(String),
}

/// What is done with the unit of the user when the integration is removed.
#[derive(Debug, PartialEq, Eq)]
pub enum RemovalStep {
    /// There is nothing to remove.
    Nothing,
    /// The unit is removed.
    Remove,
}

/// Whether a unit of the user may be removed.
pub open spec fn is_removable(integration: RuntimeIntegration, contents: Seq<char>) -> bool {
    is_portable_unit(contents) || (integration == RuntimeIntegration::DebianSystemd
        && text::has_prefix(contents, FORMER_MARK@))
}

/// What is done with the unit of the user when the integration is removed.
pub fn removal_step(integration: RuntimeIntegration, source: &UnitSource, path: &str) -> (r: Result<
    RemovalStep,
    DogiError,
>)
    ensures
        match source {
            UnitSource::Missing => r == Ok::<RemovalStep, DogiError>(RemovalStep::Nothing),
            UnitSource::Unreadable(detail) => r matches Err(e) && e@ == (
                ErrorKind::Config,
                "failed to read "@ + path@ + ": "@ + detail@,
            ),
            UnitSource::Contents(contents) => if is_removable(integration, contents@) {
                r == Ok::<RemovalStep, DogiError>(RemovalStep::Remove)
            } else {
                r matches Err(e) && e@ == (
                    ErrorKind::Config,
                    "refusing to remove an unmanaged service unit at "@ + path@,
                )
            },
        },
{
    match source {
        UnitSource::Missing => Ok(RemovalStep::Nothing),
        UnitSource::Unreadable(detail) => {
            let mut message = text::concat3("failed to read ", path, ": ");
            message.append(detail.as_str());
            Err(DogiError::Config(message))
        },
        UnitSource::Contents(contents) => {
            if text::starts_with(contents.as_str(), PORTABLE_MARK) || (integration
                == RuntimeIntegration::DebianSystemd && text::starts_with(
                contents.as_str(),
                FORMER_MARK,
            )) {
                Ok(RemovalStep::Remove)
            } else {
                Err(
                    DogiError::Config(
                        text::concat2("refusing to remove an unmanaged service unit at ", path),
                    ),
                )
            }
        },
    }
}

/// A service that runs is paused where the session is not the unlocked local desktop, and
/// says why; one that does not run is neither paused nor ready.
pub proof fn law_service_status_tells_the_session(
    enabled: bool,
    active: bool,
    mode: GraphicalSessionMode,
    session_detail: Seq<char>,
    input_fault: Option<Seq<char>>,
    supported: bool,
)
    ensures
        ({
            let s = status_of(enabled, active, mode, session_detail, input_fault, supported);
            &&& s.enabled == enabled && s.active == active && s.app_profiles_supported == supported
            &&& s.paused <==> active && !(mode is LocalActive)
            &&& s.paused ==> s.detail == session_detail && !s.ready
            &&& !active ==> s.pause_reason is Nothing && s.detail.len() == 0 && !s.ready
            &&& active && mode is LocalActive && input_fault is Some ==> s.detail == input_fault->0
            &&& active && mode is LocalActive && input_fault is None ==> s.ready && s.detail.len()
                == 0
            &&& active && mode is LocalLocked ==> s.pause_reason is DesktopLocked
            &&& active && mode is RemoteOnly ==> s.pause_reason is RemoteLogin
            &&& active && mode is Inactive ==> s.pause_reason is NoLocalDesktop
            &&& active && mode is Unknown ==> s.pause_reason is Unknown
        }),
{
}

/// The service is managed by the user of the desktop, in an installation that has one.
pub proof fn law_services_are_managed_by_their_user(
    elevated: bool,
    integration: RuntimeIntegration,
    detail: Seq<char>,
)
    ensures
        management_fault(elevated, integration, detail) is None <==> !elevated && !(
        integration is ForegroundOnly),
        !elevated && integration is ForegroundOnly ==> management_fault(
            elevated,
            integration,
            detail,
        ) == Some((ErrorKind::BackendUnavailable, detail)),
{
}

/// The service of the package needs its unit and no unit of the user in its place; that of an
/// archive needs that no package is installed and that the unit of the user is its own.
pub proof fn law_units_do_not_override_each_other(found: FoundUnits, user_unit: Seq<char>)
    ensures
        units_fault(RuntimeIntegration::DebianSystemd, found, user_unit) is None
            <==> found.vendor_is_file && !found.user_exists,
        units_fault(RuntimeIntegration::PortableSystemd, found, user_unit) is None
            <==> !found.vendor_exists && (found.user_contents is None || text::has_prefix(
            found.user_contents->0@,
            "# Generated by Dogi portable integration."@,
        )),
{
}

/// The service is started by reloading what changed, enabling it and starting it, or restarting
/// it where its unit changed; and stopped by disabling it at once, where it is on.
pub proof fn law_services_are_started_and_stopped(
    integration: RuntimeIntegration,
    changed: bool,
    enabled: bool,
    active: bool,
)
    ensures
        ({
            let commands = start_commands(integration, changed);
            let reloads = changed || integration is DebianSystemd;
            let n: int = if reloads {
                1
            } else {
                0
            };
            &&& commands.len() == n + 2
            &&& reloads ==> commands[0].args == seq!["--user"@, "daemon-reload"@]
            &&& commands[n].args == seq!["--user"@, "enable"@, "dogi-runtime.service"@]
            &&& changed ==> commands[n + 1].args == seq![
                "--user"@,
                "restart"@,
                "dogi-runtime.service"@,
            ]
            &&& !changed ==> commands[n + 1].args == seq![
                "--user"@,
                "start"@,
                "dogi-runtime.service"@,
            ]
        }),
        enabled || active ==> stop_commands(enabled, active).len() == 1 && stop_commands(
            enabled,
            active,
        )[0].args == seq!["--user"@, "disable"@, "--now"@, "dogi-runtime.service"@],
        !enabled && !active ==> stop_commands(enabled, active).len() == 0,
{
}

/// A start succeeded where the service runs, and the failure is told where it does not; a unit
/// is written again exactly where it is not what it should be.
pub proof fn law_starts_are_told(
    status: DesktopRuntimeStatus,
    detail: String,
    installed: &Option<String>,
    contents: &str,
)
    ensures
        forall|r: Result<DesktopRuntimeStatus, DogiError>|
            #![trigger call_ensures(conclude_start, (status, detail), r)]
            call_ensures(conclude_start, (status, detail), r) ==> {
                &&& r is Ok <==> status@.active
                &&& r matches Ok(s) ==> s@ == status@
                &&& r matches Err(e) ==> e@ == (ErrorKind::BackendUnavailable, detail@)
            },
        forall|r: bool|
            #![trigger call_ensures(unit_changes, (installed, contents), r)]
            call_ensures(unit_changes, (installed, contents), r) ==> (!r <==> installed is Some
                && installed->0@ == contents@),
        forall|r: DesktopRuntimeStatus|
            #![trigger call_ensures(conclude_restart, (status,), r)]
            call_ensures(conclude_restart, (status,), r) ==> r@.active && r@.enabled
                == status@.enabled && r@.ready == status@.ready,
{
}

/// A unit is removed where it is one of Dogi's own, also of one that an earlier release wrote
/// where the package replaced it; none is removed that somebody else wrote.
pub proof fn law_only_own_units_are_removed(
    integration: RuntimeIntegration,
    contents: Seq<char>,
    source: &UnitSource,
    path: &str,
)
    ensures
        is_removable(integration, contents) <==> text::has_prefix(
            contents,
            "# Generated by Dogi portable integration."@,
        ) || (integration is DebianSystemd && text::has_prefix(
            contents,
            "# Generated by Dogi. Manual changes will be replaced."@,
        )),
        forall|r: Result<RemovalStep, DogiError>|
            #![trigger call_ensures(removal_step, (integration, source, path), r)]
            call_ensures(removal_step, (integration, source, path), r) ==> {
                &&& source is Missing ==> r == Ok::<RemovalStep, DogiError>(RemovalStep::Nothing)
                &&& source is Unreadable ==> r is Err
                &&& source matches UnitSource::Contents(found) ==> (is_removable(
                    integration,
                    found@,
                ) ==> r == Ok::<RemovalStep, DogiError>(RemovalStep::Remove)) && (!is_removable(
                    integration,
                    found@,
                ) ==> r is Err)
            },
{
}

/// The unit of a build: that of the package as it is delivered, and for an archive one that runs
/// its program; each at its place.
pub proof fn law_units_are_written_down(policy: &RuntimePolicy, executable: &str, home: &str)
    ensures
        forall|r: Result<String, DogiError>|
            #![trigger call_ensures(printed_unit, (policy, executable), r)]
            call_ensures(printed_unit, (policy, executable), r) ==> {
                &&& r is Err <==> policy.integration is ForegroundOnly
                &&& policy.integration is DebianSystemd ==> r->Ok_0@ == STATIC_DEBIAN_UNIT@
                &&& policy.integration is PortableSystemd ==> r->Ok_0@ == portable_unit_text(
                    executable@,
                )
            },
        forall|r: Result<String, DogiError>|
            #![trigger call_ensures(unit_path, (policy, home), r)]
            call_ensures(unit_path, (policy, home), r) ==> {
                &&& r is Err <==> policy.integration is ForegroundOnly
                &&& policy.integration is DebianSystemd ==> r->Ok_0@
                    == "/usr/lib/systemd/user/dogi-runtime.service"@
                &&& policy.integration is PortableSystemd ==> r->Ok_0@ == paths::joined(
                    home@,
                    ".config/systemd/user/dogi-runtime.service"@,
                )
            },
{
}

/// What a command said is its error output, or its output where that is blank.
pub proof fn law_commands_are_quoted(stderr: Seq<char>, stdout: Seq<char>, end: &CommandEnd, what: &str)
    ensures
        text::trimmed(stderr).len() > 0 ==> detail_of(stderr, stdout) == text::trimmed(stderr),
        text::trimmed(stderr).len() == 0 ==> detail_of(stderr, stdout) == text::trimmed(stdout),
        forall|r: Option<DogiError>|
            #![trigger call_ensures(systemctl_fault, (what, end), r)]
            call_ensures(systemctl_fault, (what, end), r) ==> (r is None <==> end is Succeeded),
        forall|finding: &SocketFinding, r: Option<DogiError>|
            #![trigger call_ensures(manager_fault, (what, finding), r)]
            call_ensures(manager_fault, (what, finding), r) ==> (r is None <==> finding is Socket),
        forall|elevated: bool, opened: &Option<String>, r: Option<DogiError>|
            #![trigger call_ensures(uinput_fault, (elevated, opened), r)]
            call_ensures(uinput_fault, (elevated, opened), r) ==> (r is None <==> !elevated
                && opened is None),
        forall|session_type: &Option<String>, runs: bool, r: bool|
            #![trigger call_ensures(app_profiles_supported, (session_type, runs), r)]
            call_ensures(app_profiles_supported, (session_type, runs), r) ==> (r <==> runs
                && session_type is Some && text::lowered(session_type->0@) == "x11"@),
{
    reveal_strlit("x11");
    assert(text::lowered("x11"@) =~= "x11"@);
}

/// An installation may have its service where its units do not stand in the way, and one
/// without a service says why.
pub proof fn law_integrations_are_validated(
    elevated: bool,
    policy: &RuntimePolicy,
    found: &FoundUnits,
    user_unit: &str,
)
    ensures
        forall|r: Option<DogiError>|
            #![trigger call_ensures(validate_integration, (elevated, policy, found, user_unit), r)]
            call_ensures(validate_integration, (elevated, policy, found, user_unit), r) ==> {
                &&& policy.integration is ForegroundOnly ==> r is Some
                &&& !(policy.integration is ForegroundOnly) ==> (r is None <==> units_fault(
                    policy.integration,
                    *found,
                    user_unit@,
                ) is None)
            },
        forall|r: Option<DogiError>|
            #![trigger call_ensures(ensure_persistent_integration, (elevated, policy), r)]
            call_ensures(ensure_persistent_integration, (elevated, policy), r) ==> (r is None
                <==> !elevated && !(policy.integration is ForegroundOnly)),
        forall|home: &str, r: String|
            #![trigger call_ensures(user_unit_path, (home,), r)]
            call_ensures(user_unit_path, (home,), r) ==> r@ == paths::joined(
                home@,
                ".config/systemd/user/dogi-runtime.service"@,
            ),
        forall|r: ServiceCommand|
            #![trigger call_ensures(command_to_restart, (), r)]
            call_ensures(command_to_restart, (), r) ==> r@.args == seq![
                "--user"@,
                "restart"@,
                "dogi-runtime.service"@,
            ],
        forall|report: Option<(String, String)>, r: String|
            #![trigger call_ensures(service_failure_detail, (report,), r)]
            call_ensures(service_failure_detail, (report,), r) ==> (report is None ==> r@
                == "Dogi desktop runtime did not remain active"@),
{
}

}
