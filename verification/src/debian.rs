//! The authorized installation of a Debian package: what is checked, in which order,
//! before and after the package manager is run.

use crate::install::{
    check_field, check_installed, check_installer_end, check_newer, installed_dogi_version,
    installer_fault, package_fields, read_request, PackageAnswer, PrivilegedInstallError,
    PrivilegedRequest,
};
use crate::install;
use crate::text;
use crate::version::ReleaseVersion;
use crate::version;
use vstd::prelude::*;

verus! {

/// How many fields of a package are looked at.
pub const FIELD_COUNT: usize = 3;

/// Where the installation stands.
#[derive(Clone, Copy, Debug, PartialEq, Eq, Structural)]
pub enum InstallStage {
    /// The package manager is asked for the installed version.
    Asking,
    /// The package is copied to where nobody else can change it, and checked.
    Staging,
    /// The copy is looked at.
    Inspecting,
    /// A field of the copy is read.
    Checking { at: usize },
    /// The package manager installs the copy.
    Installing,
    /// The package manager is asked for the installed version again.
    Confirming,
    Done,
    Failed,
}

/// The authorized installation of a Debian package.
#[derive(Debug, PartialEq, Eq)]
pub struct PrivilegedInstall {
    pub request: PrivilegedRequest,
    pub stage: InstallStage,
    /// The version that was installed before.
    pub replaces: Option<ReleaseVersion>,
    /// What the package says in the fields that were read.
    pub fields: Vec<String>,
}

/// The mathematical value of [`PrivilegedInstall`].
#[verifier::ext_equal]
pub struct InstallView {
    pub request: install::RequestView,
    pub stage: InstallStage,
    pub replaces: Option<version::VersionView>,
    pub fields: Seq<Seq<char>>,
}

impl View for PrivilegedInstall {
    type V = InstallView;

    open spec fn view(&self) -> InstallView {
        InstallView {
            request: self.request@,
            stage: self.stage,
            replaces: version::version_view(self.replaces),
            fields: text::texts(self.fields@),
        }
    }
}

/// What the fields of the package have to say.
pub open spec fn wanted_fields(request: install::RequestView) -> Seq<(Seq<char>, Seq<char>)> {
    install::expected_fields(version::version_text(request.version), request.architecture)
}

impl InstallView {
    /// Whether the version that is to be installed is known to be newer.
    pub open spec fn is_upgrade(self) -> bool {
        self.replaces matches Some(before) && !version::semver_at_most(
            self.request.version,
            before,
        )
    }

    /// Whether every field that was read says what it has to say.
    pub open spec fn fields_fit(self) -> bool {
        self.fields.len() <= FIELD_COUNT && forall|i: int|
            0 <= i < self.fields.len() ==> text::trimmed(#[trigger] self.fields[i])
                == wanted_fields(self.request)[i].1
    }

    /// What is known of the package in each stage.
    pub open spec fn wf(self) -> bool {
        &&& self.fields_fit()
        &&& match self.stage {
            InstallStage::Asking => self.fields.len() == 0,
            InstallStage::Staging => self.is_upgrade() && self.fields.len() == 0,
            InstallStage::Inspecting => self.is_upgrade() && self.fields.len() == 0,
            InstallStage::Checking { at } => self.is_upgrade() && at < FIELD_COUNT
                && self.fields.len() == at,
            InstallStage::Installing => self.is_upgrade() && self.fields.len() == FIELD_COUNT,
            InstallStage::Confirming => self.is_upgrade() && self.fields.len() == FIELD_COUNT,
            InstallStage::Done => self.is_upgrade() && self.fields.len() == FIELD_COUNT,
            InstallStage::Failed => true,
        }
    }
}

/// The package manager is run only for a package of a newer version whose fields name
/// this application, that version and the architecture that was asked for.
pub proof fn law_only_checked_upgrades_are_installed(i: InstallView)
    requires
        i.wf(),
        i.stage is Installing,
    ensures
        i.is_upgrade(),
        i.fields.len() == 3,
        text::trimmed(i.fields[0]) == "dogi"@,
        text::trimmed(i.fields[1]) == version::version_text(i.request.version),
        text::trimmed(i.fields[2]) == i.request.architecture,
{
}

/// The installation with another stage.
pub open spec fn at_stage(i: InstallView, stage: InstallStage) -> InstallView {
    InstallView { stage, ..i }
}

impl PrivilegedInstall {
    /// An installation that is authorized, that can be carried out, and that was asked
    /// for in the right form.
    pub fn begin(
        authorized: bool,
        tools_present: bool,
        arguments: &Vec<Option<String>>,
        machine: &str,
    ) -> (r: Result<Self, PrivilegedInstallError>)
        ensures
            ({
                let views = install::argument_views(arguments@);
                let parsed = if views.len() == 5 && views[3] is Some {
                    version::semver_of(views[3]->0)
                } else {
                    None
                };
                let asked = install::request_of(views, machine@, parsed);
                match r {
                    Ok(i) => authorized && tools_present && asked == Ok::<
                        install::RequestView,
                        Seq<char>,
                    >(i@.request) && i@.stage is Asking && i@.replaces is None && i@.wf(),
                    Err(e) => if !authorized {
                        e@ == (
                            false,
                            "the internal package installer requires administrator authorization"@,
                        )
                    } else if !tools_present {
                        e@ == (false, "the Debian package installer is unavailable"@)
                    } else {
                        e@.0 && asked == Err::<install::RequestView, Seq<char>>(e@.1)
                    },
                }
            }),
    {
        match installer_fault(authorized, tools_present) {
            Some(fault) => return Err(fault),
            None => {},
        }
        match read_request(arguments, machine) {
            Err(error) => Err(error),
            Ok(request) => Ok(
                PrivilegedInstall {
                    request,
                    stage: InstallStage::Asking,
                    replaces: None,
                    fields: Vec::new(),
                },
            ),
        }
    }

    fn fail(&mut self, error: PrivilegedInstallError) -> (r: Result<(), PrivilegedInstallError>)
        requires
            old(self)@.wf(),
        ensures
            r == Err::<(), PrivilegedInstallError>(error),
            final(self)@ == at_stage(old(self)@, InstallStage::Failed),
            final(self)@.wf(),
    {
        self.stage = InstallStage::Failed;
        assert(self@ == at_stage(old(self)@, InstallStage::Failed));
        Err(error)
    }

    /// The package manager told which version is installed. Only a newer one goes on.
    pub fn note_installed(&mut self, answer: &PackageAnswer) -> (r: Result<
        (),
        PrivilegedInstallError,
    >)
        requires
            old(self)@.wf(),
            old(self)@.stage is Asking,
        ensures
            final(self)@.wf(),
            ({
                let before = install::installed_version(
                    *answer,
                    match answer {
                        PackageAnswer::Text(stdout) => version::semver_of(text::trimmed(stdout@)),
                        _ => None,
                    },
                );
                match before {
                    Err(detail) => r is Err && r->Err_0@ == (false, detail) && final(self)@
                        == at_stage(old(self)@, InstallStage::Failed),
                    Ok(before) => if version::semver_at_most(old(self)@.request.version, before) {
                        r is Err && r->Err_0@ == (
                            true,
                            "Dogi "@ + version::version_text(old(self)@.request.version)
                                + " is not newer than the installed version "@
                                + version::version_text(before),
                        ) && final(self)@ == at_stage(old(self)@, InstallStage::Failed)
                    } else {
                        r is Ok && final(self)@ == (InstallView {
                            stage: InstallStage::Staging,
                            replaces: Some(before),
                            ..old(self)@
                        })
                    },
                }
            }),
    {
        let installed = match installed_dogi_version(answer) {
            Ok(installed) => installed,
            Err(error) => return self.fail(error),
        };
        match check_newer(&self.request.version, &installed) {
            Ok(_) => {},
            Err(error) => return self.fail(error),
        }
        self.replaces = Some(installed);
        self.stage = InstallStage::Staging;
        Ok(())
    }

    /// The package was copied and checked, or was not.
    pub fn note_staged(&mut self, copied: Result<(), PrivilegedInstallError>) -> (r: Result<
        (),
        PrivilegedInstallError,
    >)
        requires
            old(self)@.wf(),
            old(self)@.stage is Staging,
        ensures
            final(self)@.wf(),
            match copied {
                Ok(_) => r is Ok,
                Err(error) => r == Err::<(), PrivilegedInstallError>(error),
            },
            final(self)@ == at_stage(
                old(self)@,
                if copied is Ok {
                    InstallStage::Inspecting
                } else {
                    InstallStage::Failed
                },
            ),
    {
        match copied {
            Ok(_) => {
                self.stage = InstallStage::Inspecting;
                Ok(())
            },
            Err(error) => self.fail(error),
        }
    }

    /// The copy was looked at: whether it is a file of its own, or why that is not known.
    pub fn note_inspected(&mut self, regular: Result<bool, String>) -> (r: Result<
        (),
        PrivilegedInstallError,
    >)
        requires
            old(self)@.wf(),
            old(self)@.stage is Inspecting,
        ensures
            final(self)@.wf(),
            final(self)@ == at_stage(
                old(self)@,
                if regular == Ok::<bool, String>(true) {
                    InstallStage::Checking { at: 0 }
                } else {
                    InstallStage::Failed
                },
            ),
            match regular {
                Ok(true) => r is Ok,
                Ok(false) => r is Err && r->Err_0@ == (
                    true,
                    "the downloaded package is not a regular file"@,
                ),
                Err(detail) => r is Err && r->Err_0@ == (
                    true,
                    "could not inspect the downloaded package: "@ + detail@,
                ),
            },
    {
        match regular {
            Ok(regular) => {
                if regular {
                    self.stage = InstallStage::Checking { at: 0 };
                    Ok(())
                } else {
                    self.fail(
                        PrivilegedInstallError::Verification(
                            "the downloaded package is not a regular file".to_owned(),
                        ),
                    )
                }
            },
            Err(detail) => self.fail(
                PrivilegedInstallError::Verification(
                    text::concat2("could not inspect the downloaded package: ", detail.as_str()),
                ),
            ),
        }
    }

    /// The field that is to be read.
    pub fn wanted_field(&self) -> (r: (&'static str, String))
        requires
            self@.wf(),
            self@.stage is Checking,
        ensures
            (r.0@, r.1@) == wanted_fields(self@.request)[self@.fields.len() as int],
    {
        let at: usize = self.fields.len();
        let fields = package_fields(&self.request.version, self.request.architecture.as_str());
        let ghost views = fields@.map_values(
            |field: (&'static str, String)| (field.0@, field.1@),
        );
        assert(views == wanted_fields(self@.request));
        assert(views.len() == fields@.len());
        assert(self@.fields.len() == self.fields@.len());
        assert(views[at as int] == (fields@[at as int].0@, fields@[at as int].1@));
        (fields[at].0, fields[at].1.clone())
    }

    /// The package manager told what the copy says in the field.
    pub fn note_field(&mut self, answer: &PackageAnswer) -> (r: Result<(), PrivilegedInstallError>)
        requires
            old(self)@.wf(),
            old(self)@.stage is Checking,
        ensures
            final(self)@.wf(),
            ({
                let at = old(self)@.fields.len();
                let wanted = wanted_fields(old(self)@.request)[at as int];
                match answer {
                    PackageAnswer::Text(said) => if text::trimmed(said@) == wanted.1 {
                        r is Ok && final(self)@ == (InstallView {
                            stage: if at + 1 < FIELD_COUNT {
                                InstallStage::Checking { at: (at + 1) as usize }
                            } else {
                                InstallStage::Installing
                            },
                            fields: old(self)@.fields.push(said@),
                            ..old(self)@
                        })
                    } else {
                        r is Err && r->Err_0@ == (
                            true,
                            "the Debian package has an unexpected "@ + wanted.0,
                        ) && final(self)@ == at_stage(old(self)@, InstallStage::Failed)
                    },
                    PackageAnswer::NotAsked(detail) => r is Err && r->Err_0@ == (
                        true,
                        "could not inspect the downloaded package: "@ + detail@,
                    ) && final(self)@ == at_stage(old(self)@, InstallStage::Failed),
                    PackageAnswer::Failed => r is Err && r->Err_0@ == (
                        true,
                        "the downloaded Debian package is invalid"@,
                    ) && final(self)@ == at_stage(old(self)@, InstallStage::Failed),
                    PackageAnswer::NotText => r is Err && r->Err_0@ == (
                        true,
                        "the Debian package metadata is not UTF-8"@,
                    ) && final(self)@ == at_stage(old(self)@, InstallStage::Failed),
                }
            }),
    {
        let (field, expected) = self.wanted_field();
        match check_field(field, expected.as_str(), answer) {
            Ok(_) => {},
            Err(detail) => return self.fail(PrivilegedInstallError::Verification(detail)),
        }
        let ghost before = self@;
        match answer {
            PackageAnswer::Text(said) => {
                self.fields.push(said.clone());
                proof {
                    assert(text::texts(self.fields@) =~= before.fields.push(said@));
                }
            },
            _ => {},
        }
        let at: usize = self.fields.len();
        assert(self@.fields.len() == self.fields@.len());
        if at < FIELD_COUNT {
            self.stage = InstallStage::Checking { at };
        } else {
            self.stage = InstallStage::Installing;
        }
        Ok(())
    }

    /// The package manager ended, with a status, or could not be run.
    pub fn note_end(&mut self, ended: Result<(bool, Option<i32>), String>) -> (r: Result<
        (),
        PrivilegedInstallError,
    >)
        requires
            old(self)@.wf(),
            old(self)@.stage is Installing,
        ensures
            final(self)@.wf(),
            match ended {
                Ok((true, _)) => r is Ok && final(self)@ == at_stage(
                    old(self)@,
                    InstallStage::Confirming,
                ),
                Ok((false, code)) => r is Err && r->Err_0@ == (
                    false,
                    "the system package installer exited with "@ + (match code {
                        None => "an interruption"@,
                        Some(code) => "status "@ + text::signed_decimal(code as int),
                    }),
                ) && final(self)@ == at_stage(old(self)@, InstallStage::Failed),
                Err(detail) => r is Err && r->Err_0@ == (
                    false,
                    "could not run the system package installer: "@ + detail@,
                ) && final(self)@ == at_stage(old(self)@, InstallStage::Failed),
            },
    {
        match ended {
            Ok((success, code)) => match check_installer_end(success, code) {
                Ok(_) => {
                    self.stage = InstallStage::Confirming;
                    Ok(())
                },
                Err(error) => self.fail(error),
            },
            Err(detail) => self.fail(
                PrivilegedInstallError::Installation(
                    text::concat2("could not run the system package installer: ", detail.as_str()),
                ),
            ),
        }
    }

    /// The package manager told which version is installed now. It has to be the one
    /// that was asked for.
    pub fn note_confirmed(&mut self, answer: &PackageAnswer) -> (r: Result<
        (),
        PrivilegedInstallError,
    >)
        requires
            old(self)@.wf(),
            old(self)@.stage is Confirming,
        ensures
            final(self)@.wf(),
            ({
                let now = install::installed_version(
                    *answer,
                    match answer {
                        PackageAnswer::Text(stdout) => version::semver_of(text::trimmed(stdout@)),
                        _ => None,
                    },
                );
                match now {
                    Err(detail) => r is Err && r->Err_0@ == (false, detail) && final(self)@
                        == at_stage(old(self)@, InstallStage::Failed),
                    Ok(now) => if now == old(self)@.request.version {
                        r is Ok && final(self)@ == at_stage(old(self)@, InstallStage::Done)
                    } else {
                        r is Err && r->Err_0@ == (
                            false,
                            "the package installer completed but Dogi "@ + version::version_text(
                                now,
                            ) + " is installed instead of "@ + version::version_text(
                                old(self)@.request.version,
                            ),
                        ) && final(self)@ == at_stage(old(self)@, InstallStage::Failed)
                    },
                }
            }),
    {
        let installed = match installed_dogi_version(answer) {
            Ok(installed) => installed,
            Err(error) => return self.fail(error),
        };
        match check_installed(&installed, &self.request.version) {
            Ok(_) => {
                self.stage = InstallStage::Done;
                Ok(())
            },
            Err(error) => self.fail(error),
        }
    }
}

/// An installation whose every step goes well comes to its end: the installed version is asked
/// for, the package is copied, looked at and asked for its three fields, it is installed, and
/// then the version is asked for again.
pub proof fn law_sound_installation_comes_to_its_end(
    answer: &PackageAnswer,
    code: Option<i32>,
)
    ensures
        forall|i: &mut PrivilegedInstall, before: version::VersionView, r: Result<(), PrivilegedInstallError>|
            #![trigger call_ensures(PrivilegedInstall::note_installed, (i, answer), r), version::semver_at_most((*i)@.request.version, before)]
            call_ensures(PrivilegedInstall::note_installed, (i, answer), r) && (answer matches
                PackageAnswer::Text(said) && version::semver_of(text::trimmed(said@)) == Some(
                before,
            )) ==> {
                &&& !version::semver_at_most((*i)@.request.version, before) ==> r is Ok && final(i)@.stage
                    is Staging && final(i)@.replaces == Some(before) && final(i)@.request == (*i)@.request
                &&& version::semver_at_most((*i)@.request.version, before) ==> r is Err && final(i)@.stage
                    is Failed
            },
        forall|i: &mut PrivilegedInstall, r: Result<(), PrivilegedInstallError>|
            #![trigger call_ensures(PrivilegedInstall::note_staged, (i, Ok(())), r)]
            call_ensures(PrivilegedInstall::note_staged, (i, Ok(())), r) ==> r is Ok && final(i)@.stage
                is Inspecting && final(i)@.request == (*i)@.request,
        forall|i: &mut PrivilegedInstall, regular: bool, r: Result<(), PrivilegedInstallError>|
            #![trigger call_ensures(PrivilegedInstall::note_inspected, (i, Ok(regular)), r)]
            call_ensures(PrivilegedInstall::note_inspected, (i, Ok(regular)), r) ==> {
                &&& regular ==> r is Ok && final(i)@.stage == (InstallStage::Checking { at: 0 })
                &&& !regular ==> r is Err && final(i)@.stage is Failed
            },
        forall|i: &mut PrivilegedInstall, success: bool, r: Result<(), PrivilegedInstallError>|
            #![trigger call_ensures(PrivilegedInstall::note_end, (i, Ok((success, code))), r)]
            call_ensures(PrivilegedInstall::note_end, (i, Ok((success, code))), r) ==> {
                &&& success ==> r is Ok && final(i)@.stage is Confirming
                &&& !success ==> r is Err && final(i)@.stage is Failed
            },
        forall|i: &mut PrivilegedInstall, r: Result<(), PrivilegedInstallError>|
            #![trigger call_ensures(PrivilegedInstall::note_confirmed, (i, answer), r)]
            call_ensures(PrivilegedInstall::note_confirmed, (i, answer), r) ==> {
                &&& (answer matches PackageAnswer::Text(said) && version::semver_of(
                    text::trimmed(said@),
                ) == Some((*i)@.request.version)) <==> r is Ok
                &&& r is Ok ==> final(i)@.stage is Done
                &&& r is Err ==> final(i)@.stage is Failed
            },
{
}

/// The three fields are asked for in their order, and the package is installed once the last
/// of them is the wanted one.
pub proof fn law_fields_are_checked_in_their_order(answer: &PackageAnswer)
    ensures
        forall|i: &mut PrivilegedInstall, r: Result<(), PrivilegedInstallError>|
            #![trigger call_ensures(PrivilegedInstall::note_field, (i, answer), r)]
            call_ensures(PrivilegedInstall::note_field, (i, answer), r) ==> {
                let n = (*i)@.fields.len();
                let wanted = if n == 0 {
                    "dogi"@
                } else if n == 1 {
                    version::version_text((*i)@.request.version)
                } else {
                    (*i)@.request.architecture
                };
                &&& n < 3 ==> (r is Ok <==> (answer matches PackageAnswer::Text(said)
                    && text::trimmed(said@) == wanted))
                &&& r is Ok && n < 2 ==> final(i)@.stage == (InstallStage::Checking {
                    at: (n + 1) as usize,
                }) && final(i)@.fields.len() == n + 1
                &&& r is Ok && n == 2 ==> final(i)@.stage is Installing
                &&& r is Err ==> final(i)@.stage is Failed
            },
{
}

}
