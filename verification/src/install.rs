//! How an update is installed: which package is taken, what the package manager is
//! asked, and what its answers mean.

use crate::environment::Distribution;
use crate::paths;
use crate::persistence::FileFault;
use crate::release;
use crate::release::{ReleaseAssetKind, ReleaseCandidate};
use crate::text;
use crate::version;
use crate::version::ReleaseVersion;
use vstd::prelude::*;

verus! {

pub const INTERNAL_DEBIAN_INSTALL: &'static str = "--dogi-internal-install-debian";

pub const INTERNAL_RELAUNCH: &'static str = "--dogi-internal-relaunch";

pub const HELPER_VERIFICATION_EXIT: u8 = 65;

pub const HELPER_INSTALLATION_EXIT: u8 = 70;

/// Why an update was not installed.
#[derive(Debug, PartialEq, Eq)]
pub enum InstallationError {
    Cancelled,
    Verification(String),
    Authorization(String),
    Failed(String),
}

/// The mathematical value of [`InstallationError`].
#[verifier::ext_equal]
pub enum InstallationFault {
    Cancelled,
    Verification(Seq<char>),
    Authorization(Seq<char>),
    Failed(Seq<char>),
}

impl View for InstallationError {
    type V = InstallationFault;

    open spec fn view(&self) -> InstallationFault {
        match self {
            InstallationError::Cancelled => InstallationFault::Cancelled,
            InstallationError::Verification(detail) => InstallationFault::Verification(detail@),
            InstallationError::Authorization(detail) => InstallationFault::Authorization(detail@),
            InstallationError::Failed(detail) => InstallationFault::Failed(detail@),
        }
    }
}

/// How the application was installed.
#[derive(Debug, PartialEq, Eq)]
pub enum Installation {
    Debian { architecture: &'static str },
    Portable { root: String, target: &'static str },
}

/// The names of an architecture: in packages, and as a target.
pub open spec fn architecture_names(machine: Seq<char>) -> Option<(Seq<char>, Seq<char>)> {
    if machine == "x86_64"@ {
        Some(("amd64"@, "x86_64-unknown-linux-gnu"@))
    } else if machine == "aarch64"@ {
        Some(("arm64"@, "aarch64-unknown-linux-gnu"@))
    } else {
        None
    }
}

/// The names of an architecture: in packages, and as a target.
pub fn platform_architecture(machine: &str) -> (r: Result<(&'static str, &'static str), String>)
    ensures
        match r {
            Ok((architecture, target)) => architecture_names(machine@) == Some(
                (architecture@, target@),
            ),
            Err(detail) => architecture_names(machine@) is None && detail@
                == "automatic updates are not available for "@ + machine@,
        },
{
    if text::same_text(machine, "x86_64") {
        Ok(("amd64", "x86_64-unknown-linux-gnu"))
    } else if text::same_text(machine, "aarch64") {
        Ok(("arm64", "aarch64-unknown-linux-gnu"))
    } else {
        Err(text::concat2("automatic updates are not available for ", machine))
    }
}

impl Installation {
    /// How the application was installed on a machine.
    pub fn for_environment(machine: &str, distribution: &Distribution) -> (r: Result<
        Installation,
        String,
    >)
        ensures
            match architecture_names(machine@) {
                None => r matches Err(detail) && detail@
                    == "automatic updates are not available for "@ + machine@,
                Some((architecture, target)) => match distribution {
                    Distribution::Debian => r matches Ok(Installation::Debian { architecture: a })
                        && a@ == architecture,
                    Distribution::Portable { root } => r matches Ok(
                        Installation::Portable { root: place, target: t },
                    ) && place@ == root@ && t@ == target,
                    Distribution::Unmanaged => r matches Err(detail) && detail@
                        == "automatic installation is available only for Dogi Debian and portable packages"@,
                },
            },
    {
        let (architecture, target) = match platform_architecture(machine) {
            Ok(names) => names,
            Err(detail) => return Err(detail),
        };
        match distribution {
            Distribution::Debian => Ok(Installation::Debian { architecture }),
            Distribution::Portable { root } => Ok(
                Installation::Portable { root: root.clone(), target },
            ),
            Distribution::Unmanaged => Err(
                "automatic installation is available only for Dogi Debian and portable packages".to_owned(),
            ),
        }
    }

    /// Which package of a release is taken.
    pub fn asset_kind(&self) -> (r: ReleaseAssetKind)
        ensures
            r == match self {
                Installation::Debian { architecture } => ReleaseAssetKind::Debian {
                    architecture: *architecture,
                },
                Installation::Portable { target, .. } => ReleaseAssetKind::Portable {
                    target: *target,
                },
            },
    {
        match self {
            Installation::Debian { architecture } => ReleaseAssetKind::Debian { architecture },
            Installation::Portable { target, .. } => ReleaseAssetKind::Portable { target },
        }
    }

    /// Checks that a downloaded package is the one of a release.
    pub fn check_name(&self, artifact: &str, candidate: &ReleaseCandidate) -> (r: Result<
        (),
        InstallationError,
    >)
        ensures
            ({
                let kind = match self {
                    Installation::Debian { architecture } => ReleaseAssetKind::Debian {
                        architecture: *architecture,
                    },
                    Installation::Portable { target, .. } => ReleaseAssetKind::Portable {
                        target: *target,
                    },
                };
                let expected = release::asset_name(
                    kind,
                    version::version_text(candidate@.version),
                );
                let fits = candidate@.name == expected && paths::name_of(artifact@) == Some(
                    expected,
                );
                match r {
                    Ok(_) => fits,
                    Err(e) => !fits && e@ == InstallationFault::Verification(
                        "the downloaded package does not match the selected release"@,
                    ),
                }
            }),
    {
        let expected = self.asset_kind().expected_name(&candidate.version);
        let same_file = match paths::file_name(artifact) {
            Some(name) => text::same_text(name.as_str(), expected.as_str()),
            None => false,
        };
        if !text::same_text(candidate.artifact.name.as_str(), expected.as_str()) || !same_file {
            return Err(
                InstallationError::Verification(
                    "the downloaded package does not match the selected release".to_owned(),
                ),
            );
        }
        Ok(())
    }
}

/// A detail, or what is said where there is none.
pub open spec fn detail_or(detail: Seq<char>, fallback: Seq<char>) -> Seq<char> {
    if detail.len() == 0 {
        fallback
    } else {
        detail
    }
}

/// A detail, or what is said where there is none.
pub fn nonempty_detail(detail: String, fallback: &str) -> (r: String)
    ensures
        r@ == detail_or(detail@, fallback@),
{
    if detail.as_str().is_empty() {
        fallback.to_owned()
    } else {
        detail
    }
}

/// What the end of the authorized installer means.
pub open spec fn debian_fault(code: Option<i32>, detail: Seq<char>) -> InstallationFault {
    match code {
        Some(code) => if code == 126 {
            InstallationFault::Cancelled
        } else if code == 127 {
            InstallationFault::Authorization("administrator authorization is unavailable"@)
        } else if code == HELPER_VERIFICATION_EXIT {
            InstallationFault::Verification(
                detail_or(detail, "the privileged installer rejected the release package"@),
            )
        } else {
            InstallationFault::Failed(
                detail_or(
                    detail,
                    "the system package installer exited with status "@ + text::signed_decimal(
                        code as int,
                    ),
                ),
            )
        },
        None => InstallationFault::Failed("the system package installer was interrupted"@),
    }
}

/// What the end of the authorized installer means.
pub fn debian_install_error(code: Option<i32>, detail: String) -> (r: InstallationError)
    ensures
        r@ == debian_fault(code, detail@),
{
    match code {
        Some(code) => if code == 126 {
            InstallationError::Cancelled
        } else if code == 127 {
            InstallationError::Authorization(
                "administrator authorization is unavailable".to_owned(),
            )
        } else if code == HELPER_VERIFICATION_EXIT as i32 {
            InstallationError::Verification(
                nonempty_detail(detail, "the privileged installer rejected the release package"),
            )
        } else {
            let mut fallback = "the system package installer exited with status ".to_owned();
            text::push_signed(&mut fallback, code as i64);
            InstallationError::Failed(nonempty_detail(detail, fallback.as_str()))
        },
        None => InstallationError::Failed(
            "the system package installer was interrupted".to_owned(),
        ),
    }
}

/// The command that the authorized installer is started with, behind the name of the
/// application.
pub fn debian_install_arguments(
    artifact: &str,
    candidate: &ReleaseCandidate,
    architecture: &str,
) -> (r: Vec<String>)
    ensures
        text::texts(r@) == seq![
            INTERNAL_DEBIAN_INSTALL@,
            artifact@,
            text::decimal(candidate@.size as nat),
            candidate@.sha256,
            version::version_text(candidate@.version),
            architecture@,
        ],
{
    let arguments = vec![
        INTERNAL_DEBIAN_INSTALL.to_owned(),
        artifact.to_owned(),
        text::decimal_text(candidate.artifact.size),
        candidate.artifact.sha256.clone(),
        candidate.version.text(),
        architecture.to_owned(),
    ];
    assert(text::texts(arguments@) =~= seq![
        INTERNAL_DEBIAN_INSTALL@,
        artifact@,
        text::decimal(candidate@.size as nat),
        candidate@.sha256,
        version::version_text(candidate@.version),
        architecture@,
    ]);
    arguments
}

/// Why the authorized installer gives up.
#[derive(Debug, PartialEq, Eq)]
pub enum PrivilegedInstallError {
    Verification(String),
    Installation(String),
}

impl View for PrivilegedInstallError {
    type V = (bool, Seq<char>);

    /// Whether the package was refused, and what is said.
    open spec fn view(&self) -> (bool, Seq<char>) {
        match self {
            PrivilegedInstallError::Verification(detail) => (true, detail@),
            PrivilegedInstallError::Installation(detail) => (false, detail@),
        }
    }
}

impl PrivilegedInstallError {
    /// The status that the authorized installer ends with.
    pub fn exit_code(&self) -> (r: u8)
        ensures
            r == (if self@.0 {
                HELPER_VERIFICATION_EXIT
            } else {
                HELPER_INSTALLATION_EXIT
            }),
    {
        match self {
            PrivilegedInstallError::Verification(_) => HELPER_VERIFICATION_EXIT,
            PrivilegedInstallError::Installation(_) => HELPER_INSTALLATION_EXIT,
        }
    }

    /// What is said.
    pub fn detail(&self) -> (r: String)
        ensures
            r@ == self@.1,
    {
        match self {
            PrivilegedInstallError::Verification(detail) => detail.clone(),
            PrivilegedInstallError::Installation(detail) => detail.clone(),
        }
    }
}

/// A refused package is told from a failed installation by the status that the installer
/// ends with.
pub proof fn law_refusals_are_reported_as_such(detail: Seq<char>)
    ensures
        debian_fault(Some(HELPER_VERIFICATION_EXIT as i32), detail) is Verification,
        debian_fault(Some(HELPER_INSTALLATION_EXIT as i32), detail) is Failed,
{
}

/// The size and the digest that the installer is asked to find.
pub open spec fn integrity_of(size: Seq<char>, digest: Seq<char>) -> Result<
    (u64, Seq<char>),
    Seq<char>,
> {
    if !(text::is_number(size, u64::MAX as nat) && 1 <= text::digits_value(text::digits_part(size))
        <= release::MAX_ARTIFACT_SIZE) {
        Err("the requested package size is invalid"@)
    } else if !release::is_hex_of(digest, 64) {
        Err("the requested package SHA-256 digest is invalid"@)
    } else {
        Ok((text::digits_value(text::digits_part(size)) as u64, text::lowered(digest)))
    }
}

/// The size and the digest that the installer is asked to find.
pub fn parse_install_integrity(size: &str, digest: &str) -> (r: Result<
    (u64, String),
    PrivilegedInstallError,
>)
    ensures
        match r {
            Ok((s, d)) => integrity_of(size@, digest@) == Ok::<(u64, Seq<char>), Seq<char>>(
                (s, d@),
            ),
            Err(e) => e@.0 && integrity_of(size@, digest@) == Err::<(u64, Seq<char>), Seq<char>>(
                e@.1,
            ),
        },
{
    let size: u64 = match text::parse_number(size, u64::MAX) {
        Some(size) => size,
        None => return Err(
            PrivilegedInstallError::Verification("the requested package size is invalid".to_owned()),
        ),
    };
    if size == 0 || size > release::MAX_ARTIFACT_SIZE {
        return Err(
            PrivilegedInstallError::Verification("the requested package size is invalid".to_owned()),
        );
    }
    if !release::hex_of(digest, 64) {
        return Err(
            PrivilegedInstallError::Verification(
                "the requested package SHA-256 digest is invalid".to_owned(),
            ),
        );
    }
    Ok((size, text::lower_text(digest)))
}

/// What the authorized installer is asked for.
#[derive(Debug, PartialEq, Eq)]
pub struct PrivilegedRequest {
    pub artifact: String,
    pub name: String,
    pub size: u64,
    pub sha256: String,
    pub version: ReleaseVersion,
    pub architecture: String,
}

/// The mathematical value of [`PrivilegedRequest`].
#[verifier::ext_equal]
pub struct RequestView {
    pub artifact: Seq<char>,
    pub name: Seq<char>,
    pub size: u64,
    pub sha256: Seq<char>,
    pub version: version::VersionView,
    pub architecture: Seq<char>,
}

impl View for PrivilegedRequest {
    type V = RequestView;

    open spec fn view(&self) -> RequestView {
        RequestView {
            artifact: self.artifact@,
            name: self.name@,
            size: self.size,
            sha256: self.sha256@,
            version: self.version@,
            architecture: self.architecture@,
        }
    }
}

/// The name of the Debian package of a version.
pub open spec fn debian_name(version: Seq<char>, architecture: Seq<char>) -> Seq<char> {
    "dogi_"@ + version + "_"@ + architecture + ".deb"@
}

/// What the authorized installer is asked for, from its arguments: a package, its size,
/// its digest, its version and its architecture. An argument is missing where it is no
/// text. `parsed` is the version that the fourth one names.
pub open spec fn request_of(
    arguments: Seq<Option<Seq<char>>>,
    machine: Seq<char>,
    parsed: Option<version::VersionView>,
) -> Result<RequestView, Seq<char>> {
    if arguments.len() != 5 {
        Err("invalid internal package installation request"@)
    } else if arguments[3] is None || parsed is None {
        Err("the requested package version is invalid"@)
    } else if arguments[4] is None {
        Err("the requested package architecture is invalid"@)
    } else {
        let architecture = arguments[4]->0;
        let name = debian_name(version::version_text(parsed->0), architecture);
        match architecture_names(machine) {
            None => Err("automatic updates are not available for "@ + machine),
            Some((expected, _)) => if architecture != expected {
                Err("the requested package architecture does not match this system"@)
            } else if arguments[0] is None || paths::name_of(arguments[0]->0) != Some(name) {
                Err("the requested package name does not match the release"@)
            } else {
                let size = match arguments[1] {
                    Some(size) => size,
                    None => Seq::empty(),
                };
                let digest = match arguments[2] {
                    Some(digest) => digest,
                    None => Seq::empty(),
                };
                match integrity_of(size, digest) {
                    Err(detail) => Err(detail),
                    Ok((size, sha256)) => Ok(
                        RequestView {
                            artifact: arguments[0]->0,
                            name,
                            size,
                            sha256,
                            version: parsed->0,
                            architecture,
                        },
                    ),
                }
            },
        }
    }
}

/// The views of some arguments.
pub open spec fn argument_views(arguments: Seq<Option<String>>) -> Seq<Option<Seq<char>>> {
    arguments.map_values(|argument: Option<String>| text::optional(argument))
}

/// A refused request.
fn refused(detail: &str) -> (r: PrivilegedInstallError)
    ensures
        r@ == (true, detail@),
{
    PrivilegedInstallError::Verification(detail.to_owned())
}

/// An argument, or nothing where it is no text.
fn argument_text(argument: &Option<String>) -> (r: String)
    ensures
        r@ == match text::optional(*argument) {
            Some(s) => s,
            None => Seq::empty(),
        },
{
    match argument {
        Some(s) => s.clone(),
        None => String::new(),
    }
}

/// Reads what the authorized installer is asked for, where `parsed` is the version that
/// the fourth argument names.
pub fn judge_request(
    arguments: &Vec<Option<String>>,
    machine: &str,
    parsed: Option<ReleaseVersion>,
) -> (r: Result<PrivilegedRequest, PrivilegedInstallError>)
    ensures
        match r {
            Ok(request) => request_of(
                argument_views(arguments@),
                machine@,
                version::version_view(parsed),
            ) == Ok::<RequestView, Seq<char>>(request@),
            Err(e) => e@.0 && request_of(
                argument_views(arguments@),
                machine@,
                version::version_view(parsed),
            ) == Err::<RequestView, Seq<char>>(e@.1),
        },
{
    let ghost views = argument_views(arguments@);
    assert(views.len() == arguments@.len());
    if arguments.len() != 5 {
        return Err(refused("invalid internal package installation request"));
    }
    assert(views[0] == text::optional(arguments@[0]));
    assert(views[1] == text::optional(arguments@[1]));
    assert(views[2] == text::optional(arguments@[2]));
    assert(views[3] == text::optional(arguments@[3]));
    assert(views[4] == text::optional(arguments@[4]));
    let version = match (&arguments[3], parsed) {
        (Some(_), Some(version)) => version,
        _ => return Err(refused("the requested package version is invalid")),
    };
    let architecture = match &arguments[4] {
        Some(architecture) => architecture.clone(),
        None => return Err(refused("the requested package architecture is invalid")),
    };
    let expected = match platform_architecture(machine) {
        Ok((expected, _)) => expected,
        Err(detail) => return Err(PrivilegedInstallError::Verification(detail)),
    };
    if !text::same_text(architecture.as_str(), expected) {
        return Err(refused("the requested package architecture does not match this system"));
    }
    let written = version.text();
    let mut name = text::concat3("dogi_", written.as_str(), "_");
    name.append(architecture.as_str());
    name.append(".deb");
    assert(name@ =~= debian_name(written@, architecture@));
    let artifact = match &arguments[0] {
        Some(artifact) => artifact.clone(),
        None => return Err(refused("the requested package name does not match the release")),
    };
    let same_file = match paths::file_name(artifact.as_str()) {
        Some(file) => text::same_text(file.as_str(), name.as_str()),
        None => false,
    };
    if !same_file {
        return Err(refused("the requested package name does not match the release"));
    }
    let size = argument_text(&arguments[1]);
    let digest = argument_text(&arguments[2]);
    match parse_install_integrity(size.as_str(), digest.as_str()) {
        Err(error) => Err(error),
        Ok((size, sha256)) => Ok(
            PrivilegedRequest { artifact, name, size, sha256, version, architecture },
        ),
    }
}

/// Reads what the authorized installer is asked for.
pub fn read_request(arguments: &Vec<Option<String>>, machine: &str) -> (r: Result<
    PrivilegedRequest,
    PrivilegedInstallError,
>)
    ensures
        ({
            let views = argument_views(arguments@);
            let parsed = if views.len() == 5 && views[3] is Some {
                version::semver_of(views[3]->0)
            } else {
                None
            };
            match r {
                Ok(request) => request_of(views, machine@, parsed) == Ok::<RequestView, Seq<char>>(
                    request@,
                ),
                Err(e) => e@.0 && request_of(views, machine@, parsed) == Err::<
                    RequestView,
                    Seq<char>,
                >(e@.1),
            }
        }),
{
    let parsed = if arguments.len() == 5 {
        assert(argument_views(arguments@)[3] == text::optional(arguments@[3]));
        match &arguments[3] {
            Some(version) => ReleaseVersion::parse(version.as_str()),
            None => None,
        }
    } else {
        None
    };
    judge_request(arguments, machine, parsed)
}

/// Why the authorized installer cannot begin: it is not authorized, or the package
/// manager is missing.
pub fn installer_fault(authorized: bool, tools_present: bool) -> (r: Option<PrivilegedInstallError>)
    ensures
        match r {
            None => authorized && tools_present,
            Some(e) => e@ == (
                false,
                if !authorized {
                    "the internal package installer requires administrator authorization"@
                } else {
                    "the Debian package installer is unavailable"@
                },
            ) && !(authorized && tools_present),
        },
{
    if !authorized {
        return Some(
            PrivilegedInstallError::Installation(
                "the internal package installer requires administrator authorization".to_owned(),
            ),
        );
    }
    if !tools_present {
        return Some(
            PrivilegedInstallError::Installation(
                "the Debian package installer is unavailable".to_owned(),
            ),
        );
    }
    None
}

/// How a question to the package manager was answered.
#[derive(Debug, PartialEq, Eq)]
pub enum PackageAnswer {
    /// It could not be asked.
    NotAsked(String),
    /// It knows nothing.
    Failed,
    /// It answered, but not with a text.
    NotText,
    Text(String),
}

/// The installed version, from what the package manager answered, where `parsed` is the
/// version that the answer names without the white space around it.
pub open spec fn installed_version(
    answer: PackageAnswer,
    parsed: Option<version::VersionView>,
) -> Result<version::VersionView, Seq<char>> {
    match answer {
        PackageAnswer::NotAsked(detail) => Err(
            "could not inspect the installed Dogi version: "@ + detail@,
        ),
        PackageAnswer::Failed => Err("Dogi is not registered in the Debian package database"@),
        PackageAnswer::NotText => Err("the installed Dogi package has an unsupported version"@),
        PackageAnswer::Text(_) => match parsed {
            Some(v) => Ok(v),
            None => Err("the installed Dogi package has an unsupported version"@),
        },
    }
}

/// The view of an installed version, or of why it is not known.
pub open spec fn installed_view(answer: Result<ReleaseVersion, PrivilegedInstallError>) -> Result<
    version::VersionView,
    Seq<char>,
> {
    match answer {
        Ok(version) => Ok(version@),
        Err(e) => Err(e@.1),
    }
}

/// The installed version, from what the package manager answered, where `parsed` is the
/// version that the answer names without the white space around it.
pub fn judge_installed(answer: &PackageAnswer, parsed: Option<ReleaseVersion>) -> (r: Result<
    ReleaseVersion,
    PrivilegedInstallError,
>)
    ensures
        installed_view(r) == installed_version(*answer, version::version_view(parsed)),
        r matches Err(e) ==> !e@.0,
{
    match answer {
        PackageAnswer::NotAsked(detail) => Err(
            PrivilegedInstallError::Installation(
                text::concat2("could not inspect the installed Dogi version: ", detail.as_str()),
            ),
        ),
        PackageAnswer::Failed => Err(
            PrivilegedInstallError::Installation(
                "Dogi is not registered in the Debian package database".to_owned(),
            ),
        ),
        PackageAnswer::NotText => Err(
            PrivilegedInstallError::Installation(
                "the installed Dogi package has an unsupported version".to_owned(),
            ),
        ),
        PackageAnswer::Text(_) => match parsed {
            Some(version) => Ok(version),
            None => Err(
                PrivilegedInstallError::Installation(
                    "the installed Dogi package has an unsupported version".to_owned(),
                ),
            ),
        },
    }
}

/// The installed version, from what the package manager answered.
pub fn installed_dogi_version(answer: &PackageAnswer) -> (r: Result<
    ReleaseVersion,
    PrivilegedInstallError,
>)
    ensures
        installed_view(r) == installed_version(
            *answer,
            match answer {
                PackageAnswer::Text(stdout) => version::semver_of(text::trimmed(stdout@)),
                _ => None,
            },
        ),
        r matches Err(e) ==> !e@.0,
{
    let parsed = match answer {
        PackageAnswer::Text(stdout) => ReleaseVersion::parse(text::trim(stdout.as_str()).as_str()),
        _ => None,
    };
    judge_installed(answer, parsed)
}

/// Refuses a package that is not newer than what is installed.
pub fn check_newer(version: &ReleaseVersion, installed: &ReleaseVersion) -> (r: Result<
    (),
    PrivilegedInstallError,
>)
    ensures
        match r {
            Ok(_) => !version::semver_at_most(version@, installed@),
            Err(e) => version::semver_at_most(version@, installed@) && e@ == (
                true,
                "Dogi "@ + version::version_text(version@)
                    + " is not newer than the installed version "@ + version::version_text(
                    installed@,
                ),
            ),
        },
        version@ == installed@ ==> r is Err,
        version::number_order(version@, installed@) < 0 ==> r is Err,
        version::number_order(version@, installed@) > 0 ==> r is Ok,
{
    if version.newer_than(installed) {
        return Ok(());
    }
    let mut detail = text::concat3(
        "Dogi ",
        version.text().as_str(),
        " is not newer than the installed version ",
    );
    detail.append(installed.text().as_str());
    Err(PrivilegedInstallError::Verification(detail))
}

/// The fields of a Debian package that are looked at, and what they have to say.
pub open spec fn expected_fields(version: Seq<char>, architecture: Seq<char>) -> Seq<
    (Seq<char>, Seq<char>),
> {
    seq![("Package"@, "dogi"@), ("Version"@, version), ("Architecture"@, architecture)]
}

/// The fields of a Debian package that are looked at, and what they have to say.
pub fn package_fields(version: &ReleaseVersion, architecture: &str) -> (r: Vec<
    (&'static str, String),
>)
    ensures
        r@.map_values(|field: (&'static str, String)| (field.0@, field.1@)) == expected_fields(
            version::version_text(version@),
            architecture@,
        ),
{
    let fields: Vec<(&'static str, String)> = vec![
        ("Package", "dogi".to_owned()),
        ("Version", version.text()),
        ("Architecture", architecture.to_owned()),
    ];
    assert(fields@.map_values(|field: (&'static str, String)| (field.0@, field.1@))
        =~= expected_fields(version::version_text(version@), architecture@));
    fields
}

/// Checks what a Debian package says in a field.
pub fn check_field(field: &str, expected: &str, answer: &PackageAnswer) -> (r: Result<(), String>)
    ensures
        match answer {
            PackageAnswer::NotAsked(detail) => r matches Err(e) && e@
                == "could not inspect the downloaded package: "@ + detail@,
            PackageAnswer::Failed => r matches Err(e) && e@
                == "the downloaded Debian package is invalid"@,
            PackageAnswer::NotText => r matches Err(e) && e@
                == "the Debian package metadata is not UTF-8"@,
            PackageAnswer::Text(actual) => if text::trimmed(actual@) == expected@ {
                r is Ok
            } else {
                r matches Err(e) && e@ == "the Debian package has an unexpected "@ + field@
            },
        },
{
    match answer {
        PackageAnswer::NotAsked(detail) => Err(
            text::concat2("could not inspect the downloaded package: ", detail.as_str()),
        ),
        PackageAnswer::Failed => Err("the downloaded Debian package is invalid".to_owned()),
        PackageAnswer::NotText => Err("the Debian package metadata is not UTF-8".to_owned()),
        PackageAnswer::Text(actual) => {
            let said = text::trim(actual.as_str());
            if text::same_text(said.as_str(), expected) {
                Ok(())
            } else {
                Err(text::concat2("the Debian package has an unexpected ", field))
            }
        },
    }
}

/// What the end of the package manager means.
pub fn check_installer_end(success: bool, code: Option<i32>) -> (r: Result<
    (),
    PrivilegedInstallError,
>)
    ensures
        match r {
            Ok(_) => success,
            Err(e) => !success && e@ == (
                false,
                "the system package installer exited with "@ + (match code {
                    None => "an interruption"@,
                    Some(code) => "status "@ + text::signed_decimal(code as int),
                }),
            ),
        },
{
    if success {
        return Ok(());
    }
    let mut detail = "the system package installer exited with ".to_owned();
    match code {
        None => detail.append("an interruption"),
        Some(code) => {
            detail.append("status ");
            text::push_signed(&mut detail, code as i64);
            assert(detail@ =~= "the system package installer exited with "@ + ("status "@
                + text::signed_decimal(code as int)));
        },
    }
    Err(PrivilegedInstallError::Installation(detail))
}

/// Checks that the version that was asked for is installed.
pub fn check_installed(actual: &ReleaseVersion, version: &ReleaseVersion) -> (r: Result<
    (),
    PrivilegedInstallError,
>)
    ensures
        match r {
            Ok(_) => actual@ == version@,
            Err(e) => actual@ != version@ && e@ == (
                false,
                "the package installer completed but Dogi "@ + version::version_text(actual@)
                    + " is installed instead of "@ + version::version_text(version@),
            ),
        },
{
    if actual.same(version) {
        return Ok(());
    }
    let mut detail = text::concat3(
        "the package installer completed but Dogi ",
        actual.text().as_str(),
        " is installed instead of ",
    );
    detail.append(version.text().as_str());
    Err(PrivilegedInstallError::Installation(detail))
}

/// What is found of an unpacked portable release.
#[derive(Clone, Copy, Debug, PartialEq, Eq, Structural)]
pub struct PortableFindings {
    pub binary_is_file: bool,
    pub desktop_file: bool,
    pub metadata_file: bool,
    pub license: bool,
    /// The permission bits of the executable.
    pub mode: u32,
}

/// Whether an executable may be run by anyone.
pub open spec fn may_be_run(mode: u32) -> bool {
    mode & 0o111 != 0
}

/// Checks that an unpacked portable release is complete.
pub fn validate_portable_root(found: &PortableFindings) -> (r: Result<(), String>)
    ensures
        ({
            let complete = found.binary_is_file && found.desktop_file && found.metadata_file
                && found.license;
            match r {
                Ok(_) => complete && may_be_run(found.mode),
                Err(detail) => !(complete && may_be_run(found.mode)) && detail@ == (
                if !complete {
                    "the portable update package is incomplete"@
                } else {
                    "the portable update executable is not executable"@
                }),
            }
        }),
{
    if !found.binary_is_file || !found.desktop_file || !found.metadata_file || !found.license {
        return Err("the portable update package is incomplete".to_owned());
    }
    if found.mode & 0o111 == 0 {
        return Err("the portable update executable is not executable".to_owned());
    }
    Ok(())
}

/// How a command for the service manager ended after an update.
#[derive(Debug, PartialEq, Eq)]
pub enum RefreshEnd {
    Succeeded,
    NotRun(String),
    Failed(String),
}

/// Why the running service is not refreshed after an update, from how a command that is
/// to do `action` ended.
pub fn refresh_fault(action: &str, end: &RefreshEnd) -> (r: Option<String>)
    ensures
        text::optional(r) == refresh_warning(action@, *end),
{
    match end {
        RefreshEnd::Succeeded => None,
        RefreshEnd::NotRun(detail) => {
            let mut message = text::concat3("Dogi was updated, but it could not ", action, ": ");
            message.append(detail.as_str());
            Some(message)
        },
        RefreshEnd::Failed(stderr) => {
            let detail = text::trim(stderr.as_str());
            if detail.as_str().is_empty() {
                Some(text::concat2("Dogi was updated, but it could not ", action))
            } else {
                let mut message = text::concat3(
                    "Dogi was updated, but it could not ",
                    action,
                    ": ",
                );
                message.append(detail.as_str());
                Some(message)
            }
        },
    }
}

/// Why the running service is not well after an update. `failed` tells that the service
/// manager reports it as failed, or why it could not be asked.
pub fn health_fault(failed: &Result<bool, String>) -> (r: Option<String>)
    ensures
        text::optional(r) == match failed {
            Err(detail) => Some(
                "Dogi was updated, but the background service health could not be checked: "@
                    + detail@,
            ),
            Ok(true) => Some(
                "Dogi was updated, but the background service failed after it was restarted"@,
            ),
            Ok(false) => None,
        },
{
    match failed {
        Err(detail) => Some(
            text::concat2(
                "Dogi was updated, but the background service health could not be checked: ",
                detail.as_str(),
            ),
        ),
        Ok(failed) => if *failed {
            Some(
                "Dogi was updated, but the background service failed after it was restarted".to_owned(),
            )
        } else {
            None
        },
    }
}

/// The process that is waited for before the application starts anew.
pub open spec fn relaunch_parent(arguments: Seq<Option<Seq<char>>>) -> Result<i32, Seq<char>> {
    if arguments.len() != 1 {
        Err("invalid internal restart request"@)
    } else {
        match arguments[0] {
            Some(pid) if text::is_number(pid, i32::MAX as nat) && text::digits_value(
                text::digits_part(pid),
            ) > 1 => Ok(text::digits_value(text::digits_part(pid)) as i32),
            _ => Err("invalid internal restart process id"@),
        }
    }
}

/// The process that is waited for before the application starts anew.
pub fn read_relaunch(arguments: &Vec<Option<String>>) -> (r: Result<i32, String>)
    ensures
        match r {
            Ok(pid) => pid > 1 && relaunch_parent(argument_views(arguments@)) == Ok::<i32, Seq<char>>(
                pid,
            ),
            Err(detail) => relaunch_parent(argument_views(arguments@)) == Err::<i32, Seq<char>>(
                detail@,
            ),
        },
{
    let ghost views = argument_views(arguments@);
    assert(views.len() == arguments@.len());
    if arguments.len() != 1 {
        return Err("invalid internal restart request".to_owned());
    }
    assert(views[0] == text::optional(arguments@[0]));
    match &arguments[0] {
        Some(pid) => match text::parse_number(pid.as_str(), i32::MAX as u64) {
            Some(number) => if number > 1 {
                Ok(number as i32)
            } else {
                Err("invalid internal restart process id".to_owned())
            },
            None => Err("invalid internal restart process id".to_owned()),
        },
        None => Err("invalid internal restart process id".to_owned()),
    }
}

/// What the application asks the authorized installer for is what the installer reads.
pub proof fn law_request_is_read_back(
    artifact: Seq<char>,
    candidate: release::CandidateView,
    machine: Seq<char>,
    architecture: Seq<char>,
)
    requires
        version::reads_back(candidate.version),
        1 <= candidate.size <= release::MAX_ARTIFACT_SIZE,
        release::is_hex_of(candidate.sha256, 64),
        text::lowered(candidate.sha256) == candidate.sha256,
        architecture_names(machine) matches Some(names) && names.0 == architecture,
        paths::name_of(artifact) == Some(
            debian_name(version::version_text(candidate.version), architecture),
        ),
    ensures
        request_of(
            seq![
                Some(artifact),
                Some(text::decimal(candidate.size as nat)),
                Some(candidate.sha256),
                Some(version::version_text(candidate.version)),
                Some(architecture),
            ],
            machine,
            version::semver_of(version::version_text(candidate.version)),
        ) == Ok::<RequestView, Seq<char>>(
            RequestView {
                artifact,
                name: debian_name(version::version_text(candidate.version), architecture),
                size: candidate.size,
                sha256: candidate.sha256,
                version: candidate.version,
                architecture,
            },
        ),
{
    text::lemma_decimal_is_read_back(candidate.size as nat);
}

/// How many names are tried for the directory of an authorized installation.
pub const STAGING_ATTEMPTS: u8 = 32;

/// How many names are tried for a directory of a portable replacement.
pub const SIBLING_ATTEMPTS: u8 = 16;

/// How often it is looked whether the application has ended before it starts anew.
pub const RELAUNCH_POLLS: u32 = 600;

/// How long it is waited in between.
pub const RELAUNCH_POLL_MS: u64 = 100;

/// The name of a directory for the work of an installation.
pub open spec fn transaction_name_of(prefix: Seq<char>, process: u32, nonce: u128, attempt: u8) -> Seq<
    char,
> {
    prefix + "-"@ + text::decimal(process as nat) + "-"@ + text::decimal(nonce as nat) + "-"@
        + text::decimal(attempt as nat)
}

/// The name of a directory for the work of an installation.
pub fn transaction_name(prefix: &str, process: u32, nonce: u128, attempt: u8) -> (r: String)
    ensures
        r@ == transaction_name_of(prefix@, process, nonce, attempt),
{
    let mut name = text::concat2(prefix, "-");
    text::push_decimal(&mut name, process as u64);
    name.append("-");
    text::push_wide_decimal(&mut name, nonce);
    name.append("-");
    text::push_decimal(&mut name, attempt as u64);
    name
}

/// Whether the directory of an authorized installation was made (or the next name has to
/// be tried), from how the attempt with a number went.
pub fn staging_made(attempt: u8, result: Result<(), FileFault>) -> (r: Result<
    bool,
    PrivilegedInstallError,
>)
    ensures
        match result {
            Ok(_) => r == Ok::<bool, PrivilegedInstallError>(true),
            Err(fault) => if !fault.exists {
                r is Err && r->Err_0@ == (
                    false,
                    "could not create the protected package staging directory: "@ + fault.detail@,
                )
            } else if attempt + 1 < STAGING_ATTEMPTS {
                r == Ok::<bool, PrivilegedInstallError>(false)
            } else {
                r is Err && r->Err_0@ == (
                    false,
                    "could not allocate a protected package staging directory"@,
                )
            },
        },
{
    match result {
        Ok(_) => Ok(true),
        Err(fault) => {
            if !fault.exists {
                return Err(
                    PrivilegedInstallError::Installation(
                        text::concat2(
                            "could not create the protected package staging directory: ",
                            fault.detail.as_str(),
                        ),
                    ),
                );
            }
            if attempt < STAGING_ATTEMPTS - 1 {
                return Ok(false);
            }
            Err(
                PrivilegedInstallError::Installation(
                    "could not allocate a protected package staging directory".to_owned(),
                ),
            )
        },
    }
}

/// Whether a name for a directory of a portable replacement can be taken (or the next one
/// has to be tried), from whether something has the name with a number already.
pub fn sibling_is_free(attempt: u8, taken: bool) -> (r: Result<bool, String>)
    ensures
        if !taken {
            r == Ok::<bool, String>(true)
        } else if attempt + 1 < SIBLING_ATTEMPTS {
            r == Ok::<bool, String>(false)
        } else {
            r is Err && r->Err_0@ == "could not allocate a unique update transaction path"@
        },
{
    if !taken {
        return Ok(true);
    }
    if attempt < SIBLING_ATTEMPTS - 1 {
        return Ok(false);
    }
    Err("could not allocate a unique update transaction path".to_owned())
}

/// What is to be done before the application starts anew.
#[derive(Debug, PartialEq, Eq)]
pub enum RelaunchStep {
    /// The application has ended: it is started.
    Launch,
    /// It is looked again later.
    Wait,
    GiveUp(String),
}

/// What is to be done before the application starts anew, from how often it was waited
/// and whether the application still runs.
pub fn relaunch_step(waited: u32, running: bool) -> (r: RelaunchStep)
    ensures
        match r {
            RelaunchStep::Launch => waited < RELAUNCH_POLLS && !running,
            RelaunchStep::Wait => waited < RELAUNCH_POLLS && running,
            RelaunchStep::GiveUp(detail) => waited >= RELAUNCH_POLLS && detail@
                == "the previous Dogi process did not exit within one minute"@,
        },
{
    if waited >= RELAUNCH_POLLS {
        return RelaunchStep::GiveUp(
            "the previous Dogi process did not exit within one minute".to_owned(),
        );
    }
    if running {
        RelaunchStep::Wait
    } else {
        RelaunchStep::Launch
    }
}

/// Where the refreshing of the running service stands.
#[derive(Clone, Copy, Debug, PartialEq, Eq, Structural)]
pub enum RefreshStage {
    /// The service manager reads the units again.
    Reloading,
    /// The service is restarted, where it runs.
    Restarting,
    /// It is looked whether the service failed.
    CheckingHealth,
    Done,
}

/// The refreshing of the running service after an update. It stops with the first thing
/// that goes wrong, and the update stays installed all the same.
#[derive(Debug, PartialEq, Eq)]
pub struct ServiceRefresh {
    pub stage: RefreshStage,
    /// What went wrong.
    pub warning: Option<String>,
}

/// What is done in a stage, in words.
pub open spec fn refresh_action(stage: RefreshStage) -> Seq<char> {
    match stage {
        RefreshStage::Reloading => "reload the updated background service definition"@,
        _ => "restart the Dogi background service"@,
    }
}

/// What a command that did not succeed is reported as.
pub open spec fn refresh_warning(action: Seq<char>, end: RefreshEnd) -> Option<Seq<char>> {
    match end {
        RefreshEnd::Succeeded => None,
        RefreshEnd::NotRun(detail) => Some(
            "Dogi was updated, but it could not "@ + action + ": "@ + detail@,
        ),
        RefreshEnd::Failed(stderr) => if text::trimmed(stderr@).len() == 0 {
            Some("Dogi was updated, but it could not "@ + action)
        } else {
            Some("Dogi was updated, but it could not "@ + action + ": "@ + text::trimmed(stderr@))
        },
    }
}

impl ServiceRefresh {
    /// Begins, where there is a service manager.
    pub fn begin(manager_present: bool) -> (r: Self)
        ensures
            if manager_present {
                r.stage is Reloading && r.warning is None
            } else {
                r.stage is Done && text::optional(r.warning) == Some(
                    "Dogi was updated, but systemd is unavailable; restart the background service manually"@,
                )
            },
    {
        if manager_present {
            ServiceRefresh { stage: RefreshStage::Reloading, warning: None }
        } else {
            ServiceRefresh {
                stage: RefreshStage::Done,
                warning: Some(
                    "Dogi was updated, but systemd is unavailable; restart the background service manually".to_owned(),
                ),
            }
        }
    }

    /// The arguments for the service manager in a stage.
    pub fn arguments(&self) -> (r: Vec<String>)
        ensures
            text::texts(r@) == match self.stage {
                RefreshStage::Reloading => seq!["--user"@, "daemon-reload"@],
                RefreshStage::Restarting => seq![
                    "--user"@,
                    "try-restart"@,
                    "dogi-runtime.service"@,
                ],
                RefreshStage::CheckingHealth => seq![
                    "--user"@,
                    "is-failed"@,
                    "--quiet"@,
                    "dogi-runtime.service"@,
                ],
                RefreshStage::Done => Seq::empty(),
            },
    {
        let mut r: Vec<String> = Vec::new();
        match self.stage {
            RefreshStage::Reloading => {
                r.push("--user".to_owned());
                r.push("daemon-reload".to_owned());
                assert(text::texts(r@) =~= seq!["--user"@, "daemon-reload"@]);
            },
            RefreshStage::Restarting => {
                r.push("--user".to_owned());
                r.push("try-restart".to_owned());
                r.push("dogi-runtime.service".to_owned());
                assert(text::texts(r@) =~= seq![
                    "--user"@,
                    "try-restart"@,
                    "dogi-runtime.service"@,
                ]);
            },
            RefreshStage::CheckingHealth => {
                r.push("--user".to_owned());
                r.push("is-failed".to_owned());
                r.push("--quiet".to_owned());
                r.push("dogi-runtime.service".to_owned());
                assert(text::texts(r@) =~= seq![
                    "--user"@,
                    "is-failed"@,
                    "--quiet"@,
                    "dogi-runtime.service"@,
                ]);
            },
            RefreshStage::Done => {
                assert(text::texts(r@) =~= Seq::<Seq<char>>::empty());
            },
        }
        r
    }

    /// The command of a stage ended.
    pub fn note_command(&mut self, end: &RefreshEnd)
        requires
            old(self).stage is Reloading || old(self).stage is Restarting,
            old(self).warning is None,
        ensures
            text::optional(final(self).warning) == refresh_warning(
                refresh_action(old(self).stage),
                *end,
            ),
            final(self).stage == (if !(*end is Succeeded) {
                RefreshStage::Done
            } else if old(self).stage is Reloading {
                RefreshStage::Restarting
            } else {
                RefreshStage::CheckingHealth
            }),
    {
        let reloading = match self.stage {
            RefreshStage::Reloading => true,
            _ => false,
        };
        let action = if reloading {
            "reload the updated background service definition"
        } else {
            "restart the Dogi background service"
        };
        self.warning = refresh_fault(action, end);
        self.stage = if self.warning.is_some() {
            RefreshStage::Done
        } else if reloading {
            RefreshStage::Restarting
        } else {
            RefreshStage::CheckingHealth
        };
    }

    /// It was looked whether the service failed, or that could not be found out.
    pub fn note_health(&mut self, failed: &Result<bool, String>)
        requires
            old(self).stage is CheckingHealth,
        ensures
            final(self).stage is Done,
            text::optional(final(self).warning) == match failed {
                Err(detail) => Some(
                    "Dogi was updated, but the background service health could not be checked: "@
                        + detail@,
                ),
                Ok(true) => Some(
                    "Dogi was updated, but the background service failed after it was restarted"@,
                ),
                Ok(false) => None,
            },
    {
        self.warning = health_fault(failed);
        self.stage = RefreshStage::Done;
    }
}

/// The packages of a machine are named after these architectures, and no other machine is
/// updated.
pub proof fn law_architectures(machine: Seq<char>)
    ensures
        machine == "x86_64"@ ==> architecture_names(machine) == Some(
            ("amd64"@, "x86_64-unknown-linux-gnu"@),
        ),
        machine == "aarch64"@ ==> architecture_names(machine) == Some(
            ("arm64"@, "aarch64-unknown-linux-gnu"@),
        ),
        machine != "x86_64"@ && machine != "aarch64"@ ==> architecture_names(machine) is None,
{
    reveal_strlit("x86_64");
    reveal_strlit("aarch64");
    assert("x86_64"@[0] == 'x' && "aarch64"@[0] == 'a');
}

/// How the helper ended tells what became of an installation: 126 that the user dismissed it,
/// 127 that it was not authorized, 65 that the package was refused, and anything else that
/// it failed.
pub proof fn law_helper_ends_are_understood(code: i32, detail: Seq<char>, e: &PrivilegedInstallError)
    ensures
        debian_fault(Some(126i32), detail) is Cancelled,
        debian_fault(Some(127i32), detail) is Authorization,
        debian_fault(Some(65i32), detail) is Verification,
        code != 126 && code != 127 && code != 65 ==> debian_fault(Some(code), detail) is Failed,
        debian_fault(None, detail) is Failed,
        detail.len() > 0 ==> debian_fault(Some(65i32), detail) == InstallationFault::Verification(
            detail,
        ),
        detail.len() > 0 && code != 126 && code != 127 && code != 65 ==> debian_fault(
            Some(code),
            detail,
        ) == InstallationFault::Failed(detail),
        forall|r: u8|
            #![trigger call_ensures(PrivilegedInstallError::exit_code, (e,), r)]
            call_ensures(PrivilegedInstallError::exit_code, (e,), r) ==> (e is Verification ==> r
                == 65) && (e is Installation ==> r == 70),
{
}

/// A size and a digest are taken where the size is a number from 1 to 128 MiB and the digest
/// has 64 hexadecimal digits.
pub proof fn law_integrity_is_read(size: u64, digest: Seq<char>)
    requires
        digest.len() == 64,
        forall|k: int|
            0 <= k < 64 ==> '0' <= #[trigger] digest[k] <= '9' || 'a' <= digest[k] <= 'f',
    ensures
        1 <= size <= 134_217_728 ==> integrity_of(text::decimal(size as nat), digest) == Ok::<
            (u64, Seq<char>),
            Seq<char>,
        >((size, digest)),
        size == 0 || size > 134_217_728 ==> integrity_of(text::decimal(size as nat), digest) is Err,
        forall|wrong: Seq<char>|
            wrong.len() != 64 ==> #[trigger] integrity_of(text::decimal(size as nat), wrong) is Err,
{
    text::lemma_decimal_is_read_back(size as nat);
    assert(text::lowered(digest) =~= digest);
}

/// An installation updates itself as it was installed, with the package of its machine.
pub proof fn law_installations_are_recognised(machine: &str, root: String)
    ensures
        forall|r: Result<Installation, String>|
            #![trigger call_ensures(Installation::for_environment, (machine, &Distribution::Debian), r)]
            call_ensures(Installation::for_environment, (machine, &Distribution::Debian), r) ==> {
                &&& machine@ == "x86_64"@ ==> (r matches Ok(Installation::Debian { architecture })
                    && architecture@ == "amd64"@)
                &&& machine@ == "aarch64"@ ==> (r matches Ok(Installation::Debian { architecture })
                    && architecture@ == "arm64"@)
            },
        forall|r: Result<Installation, String>|
            #![trigger call_ensures(Installation::for_environment, (machine, &Distribution::Portable { root }), r)]
            call_ensures(
                Installation::for_environment,
                (machine, &Distribution::Portable { root }),
                r,
            ) ==> {
                &&& machine@ == "x86_64"@ ==> (r matches Ok(
                    Installation::Portable { root: place, target },
                ) && place@ == root@ && target@ == "x86_64-unknown-linux-gnu"@)
                &&& machine@ == "aarch64"@ ==> (r matches Ok(
                    Installation::Portable { root: place, target },
                ) && place@ == root@ && target@ == "aarch64-unknown-linux-gnu"@)
            },
        forall|r: Result<Installation, String>|
            #![trigger call_ensures(Installation::for_environment, (machine, &Distribution::Unmanaged), r)]
            call_ensures(Installation::for_environment, (machine, &Distribution::Unmanaged), r)
                ==> r is Err,
{
    law_architectures(machine@);
}

/// A package is installed under the name of its release alone.
pub proof fn law_package_name_has_to_fit(
    artifact: &str,
    candidate: &ReleaseCandidate,
    architecture: &'static str,
)
    ensures
        forall|r: Result<(), InstallationError>|
            #![trigger call_ensures(Installation::check_name, (&Installation::Debian { architecture }, artifact, candidate), r)]
            call_ensures(
                Installation::check_name,
                (&Installation::Debian { architecture }, artifact, candidate),
                r,
            ) ==> {
                let expected = "dogi_"@ + version::version_text(candidate@.version) + "_"@
                    + architecture@ + ".deb"@;
                r is Ok <==> candidate@.name == expected && paths::name_of(artifact@) == Some(
                    expected,
                )
            },
{
}

/// A portable package is complete where its program, its desktop entry, its metadata and its
/// licenses are there, and the program may be run by somebody.
pub proof fn law_portable_packages_are_complete(found: &PortableFindings)
    ensures
        forall|r: Result<(), String>|
            #![trigger call_ensures(validate_portable_root, (found,), r)]
            call_ensures(validate_portable_root, (found,), r) ==> (r is Ok <==> found.binary_is_file
                && found.desktop_file && found.metadata_file && found.license && (found.mode & 0o111)
                != 0),
{
}

/// After an update the background service is reloaded, restarted where it runs and asked
/// whether it failed, one after the other; the first that goes wrong is told and ends it.
pub proof fn law_service_is_refreshed(end: &RefreshEnd, health: &Result<bool, String>)
    ensures
        forall|r: ServiceRefresh|
            #![trigger call_ensures(ServiceRefresh::begin, (true,), r)]
            call_ensures(ServiceRefresh::begin, (true,), r) ==> r.stage is Reloading && r.warning
                is None,
        forall|r: ServiceRefresh|
            #![trigger call_ensures(ServiceRefresh::begin, (false,), r)]
            call_ensures(ServiceRefresh::begin, (false,), r) ==> r.stage is Done && r.warning is Some,
        forall|refresh: &mut ServiceRefresh, r: ()|
            #![trigger call_ensures(ServiceRefresh::note_command, (refresh, end), r)]
            call_ensures(ServiceRefresh::note_command, (refresh, end), r) ==> {
                &&& end is Succeeded && (*refresh).stage is Reloading ==> final(refresh).stage
                    is Restarting
                &&& end is Succeeded && (*refresh).stage is Restarting ==> final(refresh).stage
                    is CheckingHealth
                &&& !(end is Succeeded) ==> final(refresh).stage is Done
                &&& end is Succeeded <==> final(refresh).warning is None
            },
        forall|refresh: &mut ServiceRefresh, r: ()|
            #![trigger call_ensures(ServiceRefresh::note_health, (refresh, health), r)]
            call_ensures(ServiceRefresh::note_health, (refresh, health), r) ==> final(refresh).stage
                is Done && (final(refresh).warning is None <==> health == Ok::<bool, String>(
                false,
            )),
        forall|refresh: &ServiceRefresh, r: Vec<String>|
            #![trigger call_ensures(ServiceRefresh::arguments, (refresh,), r)]
            call_ensures(ServiceRefresh::arguments, (refresh,), r) ==> {
                &&& refresh.stage is Reloading ==> text::texts(r@) == seq![
                    "--user"@,
                    "daemon-reload"@,
                ]
                &&& refresh.stage is Restarting ==> text::texts(r@) == seq![
                    "--user"@,
                    "try-restart"@,
                    "dogi-runtime.service"@,
                ]
                &&& refresh.stage is CheckingHealth ==> text::texts(r@) == seq![
                    "--user"@,
                    "is-failed"@,
                    "--quiet"@,
                    "dogi-runtime.service"@,
                ]
            },
{
}

/// The new program waits for the old one to end, for up to a minute, and starts as soon as
/// it has.
pub proof fn law_relaunch_waits_a_minute(waited: u32, running: bool)
    ensures
        RELAUNCH_POLLS * RELAUNCH_POLL_MS == 60_000,
        forall|r: RelaunchStep|
            #![trigger call_ensures(relaunch_step, (waited, running), r)]
            call_ensures(relaunch_step, (waited, running), r) ==> {
                &&& waited < 600 && !running ==> r is Launch
                &&& waited < 600 && running ==> r is Wait
                &&& waited >= 600 ==> r is GiveUp
            },
{
}

/// The process to wait for is read from the only argument, and is neither 0 nor 1.
pub proof fn law_relaunch_names_the_old_process(pid: i32, arguments: Seq<Option<Seq<char>>>)
    ensures
        pid > 1 ==> relaunch_parent(seq![Some(text::decimal(pid as nat))]) == Ok::<i32, Seq<char>>(
            pid,
        ),
        pid == 0 || pid == 1 ==> relaunch_parent(seq![Some(text::decimal(pid as nat))]) is Err,
        arguments.len() != 1 ==> relaunch_parent(arguments) is Err,
        arguments.len() == 1 && arguments[0] is None ==> relaunch_parent(arguments) is Err,
{
    if pid >= 0 {
        text::lemma_decimal_is_read_back(pid as nat);
    }
}

/// A place that is taken is tried again under another name, so often and no more.
pub proof fn law_places_are_tried_again(attempt: u8, fault: FileFault)
    ensures
        forall|r: Result<bool, PrivilegedInstallError>|
            #![trigger call_ensures(staging_made, (attempt, Ok(())), r)]
            call_ensures(staging_made, (attempt, Ok(())), r) ==> r == Ok::<
                bool,
                PrivilegedInstallError,
            >(true),
        forall|r: Result<bool, PrivilegedInstallError>|
            #![trigger call_ensures(staging_made, (attempt, Err(fault)), r)]
            call_ensures(staging_made, (attempt, Err(fault)), r) ==> {
                &&& fault.exists && attempt < 31 ==> r == Ok::<bool, PrivilegedInstallError>(false)
                &&& !fault.exists || attempt >= 31 ==> r is Err
            },
        forall|taken: bool, r: Result<bool, String>|
            #![trigger call_ensures(sibling_is_free, (attempt, taken), r)]
            call_ensures(sibling_is_free, (attempt, taken), r) ==> {
                &&& !taken ==> r == Ok::<bool, String>(true)
                &&& taken && attempt < 15 ==> r == Ok::<bool, String>(false)
                &&& taken && attempt >= 15 ==> r is Err
            },
{
}

/// A package says what it is in these fields.
pub proof fn law_package_fields(v: Seq<char>, architecture: Seq<char>)
    ensures
        expected_fields(v, architecture).len() == 3,
        expected_fields(v, architecture)[0] == ("Package"@, "dogi"@),
        expected_fields(v, architecture)[1] == ("Version"@, v),
        expected_fields(v, architecture)[2] == ("Architecture"@, architecture),
{
}

/// A package of the machine is asked for, the version that is installed is read from what the
/// system says of it, and only a newer one replaces it.
pub proof fn law_packages_are_checked(
    authorized: bool,
    tools: bool,
    answer: &PackageAnswer,
    new: &ReleaseVersion,
    old_version: &ReleaseVersion,
    field: &str,
    expected: &str,
)
    ensures
        forall|r: Option<PrivilegedInstallError>|
            #![trigger call_ensures(installer_fault, (authorized, tools), r)]
            call_ensures(installer_fault, (authorized, tools), r) ==> (r is None <==> authorized
                && tools),
        forall|r: Result<ReleaseVersion, PrivilegedInstallError>|
            #![trigger call_ensures(installed_dogi_version, (answer,), r)]
            call_ensures(installed_dogi_version, (answer,), r) ==> {
                &&& r is Ok <==> (answer matches PackageAnswer::Text(said) && version::semver_of(
                    text::trimmed(said@),
                ) is Some)
                &&& r matches Ok(v) ==> (answer matches PackageAnswer::Text(said)
                    && version::semver_of(text::trimmed(said@)) == Some(v@))
            },
        forall|r: Result<(), PrivilegedInstallError>|
            #![trigger call_ensures(check_newer, (new, old_version), r)]
            call_ensures(check_newer, (new, old_version), r) ==> {
                &&& new@ == old_version@ ==> r is Err
                &&& new.major > old_version.major ==> r is Ok
                &&& new.major < old_version.major ==> r is Err
                &&& new.major == old_version.major && new.minor > old_version.minor ==> r is Ok
                &&& new.major == old_version.major && new.minor < old_version.minor ==> r is Err
                &&& new.major == old_version.major && new.minor == old_version.minor && new.patch
                    > old_version.patch ==> r is Ok
                &&& new.major == old_version.major && new.minor == old_version.minor && new.patch
                    < old_version.patch ==> r is Err
            },
        forall|r: Result<(), String>|
            #![trigger call_ensures(check_field, (field, expected, answer), r)]
            call_ensures(check_field, (field, expected, answer), r) ==> (r is Ok <==> (
            answer matches PackageAnswer::Text(said) && text::trimmed(said@) == expected@)),
        forall|success: bool, code: Option<i32>, r: Result<(), PrivilegedInstallError>|
            #![trigger call_ensures(check_installer_end, (success, code), r)]
            call_ensures(check_installer_end, (success, code), r) ==> (r is Ok <==> success),
        forall|r: Result<(), PrivilegedInstallError>|
            #![trigger call_ensures(check_installed, (new, old_version), r)]
            call_ensures(check_installed, (new, old_version), r) ==> (r is Ok <==> new@
                == old_version@),
{
}

/// The helper is asked to install the package with its size, its digest, its version and the
/// architecture, in this order.
pub proof fn law_helper_is_asked_in_order(
    artifact: &str,
    candidate: &ReleaseCandidate,
    architecture: &str,
)
    ensures
        forall|r: Vec<String>|
            #![trigger call_ensures(debian_install_arguments, (artifact, candidate, architecture), r)]
            call_ensures(debian_install_arguments, (artifact, candidate, architecture), r)
                ==> text::texts(r@) == seq![
                "--dogi-internal-install-debian"@,
                artifact@,
                text::decimal(candidate@.size as nat),
                candidate@.sha256,
                version::version_text(candidate@.version),
                architecture@,
            ],
        INTERNAL_RELAUNCH@ == "--dogi-internal-relaunch"@,
        forall|prefix: &str, process: u32, nonce: u128, attempt: u8, r: String|
            #![trigger call_ensures(transaction_name, (prefix, process, nonce, attempt), r)]
            call_ensures(transaction_name, (prefix, process, nonce, attempt), r) ==> r@ == prefix@
                + "-"@ + text::decimal(process as nat) + "-"@ + text::decimal(nonce as nat) + "-"@
                + text::decimal(attempt as nat),
        forall|what: &str, end: &RefreshEnd, r: Option<String>|
            #![trigger call_ensures(refresh_fault, (what, end), r)]
            call_ensures(refresh_fault, (what, end), r) ==> (r is None <==> end is Succeeded),
        forall|health: &Result<bool, String>, r: Option<String>|
            #![trigger call_ensures(health_fault, (health,), r)]
            call_ensures(health_fault, (health,), r) ==> (r is None <==> health == Ok::<
                bool,
                String,
            >(false)),
{
}

}
