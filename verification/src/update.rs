//! The updates of the application: when it is looked for one, which one is ready, and
//! what its installation comes to.

use crate::app_config;
use crate::app_config::StoredApplicationConfig;
use crate::install;
use crate::install::InstallationError;
use crate::release;
use crate::release::{ApiRelease, ApiTag, ApiTagReference, ReleaseAssetKind, ReleaseCandidate};
use crate::tag;
use crate::text;
use crate::version;
use crate::version::ReleaseVersion;
use vstd::prelude::*;

verus! {

pub const AUTOMATIC_CHECK_INTERVAL_SECONDS: u64 = 86400;

/// What kind of failure an update met.
#[derive(Clone, Copy, Debug, PartialEq, Eq, Structural)]
pub enum UpdateErrorKind {
    Policy,
    Network,
    Verification,
    Storage,
    Authorization,
    Installation,
    State,
    Internal,
}

/// What kind of failure the user is shown.
#[derive(Clone, Copy, Debug, PartialEq, Eq, Structural)]
pub enum ApplicationUpdateErrorKind {
    Unavailable,
    Network,
    Verification,
    Storage,
    Authorization,
    Installation,
    State,
    Internal,
}

/// A failure of an update.
#[derive(Debug, PartialEq, Eq)]
pub struct UpdateError {
    pub kind: UpdateErrorKind,
    pub detail: String,
}

impl View for UpdateError {
    type V = (UpdateErrorKind, Seq<char>);

    open spec fn view(&self) -> (UpdateErrorKind, Seq<char>) {
        (self.kind, self.detail@)
    }
}

/// What kind of failure the user is shown.
pub open spec fn shown_kind(kind: UpdateErrorKind) -> ApplicationUpdateErrorKind {
    match kind {
        UpdateErrorKind::Policy => ApplicationUpdateErrorKind::Unavailable,
        UpdateErrorKind::Network => ApplicationUpdateErrorKind::Network,
        UpdateErrorKind::Verification => ApplicationUpdateErrorKind::Verification,
        UpdateErrorKind::Storage => ApplicationUpdateErrorKind::Storage,
        UpdateErrorKind::Authorization => ApplicationUpdateErrorKind::Authorization,
        UpdateErrorKind::Installation => ApplicationUpdateErrorKind::Installation,
        UpdateErrorKind::State => ApplicationUpdateErrorKind::State,
        UpdateErrorKind::Internal => ApplicationUpdateErrorKind::Internal,
    }
}

impl UpdateError {
    pub fn new(kind: UpdateErrorKind, detail: String) -> (r: Self)
        ensures
            r@ == (kind, detail@),
    {
        UpdateError { kind, detail }
    }

    /// What kind of failure the user is shown.
    pub fn application_kind(&self) -> (r: ApplicationUpdateErrorKind)
        ensures
            r == shown_kind(self@.0),
    {
        match self.kind {
            UpdateErrorKind::Policy => ApplicationUpdateErrorKind::Unavailable,
            UpdateErrorKind::Network => ApplicationUpdateErrorKind::Network,
            UpdateErrorKind::Verification => ApplicationUpdateErrorKind::Verification,
            UpdateErrorKind::Storage => ApplicationUpdateErrorKind::Storage,
            UpdateErrorKind::Authorization => ApplicationUpdateErrorKind::Authorization,
            UpdateErrorKind::Installation => ApplicationUpdateErrorKind::Installation,
            UpdateErrorKind::State => ApplicationUpdateErrorKind::State,
            UpdateErrorKind::Internal => ApplicationUpdateErrorKind::Internal,
        }
    }
}

/// Why it is never looked for updates: the policy of the installation is checked before
/// anything else.
pub fn update_fault(enabled: bool, policy_detail: &str, as_root: bool) -> (r: Option<UpdateError>)
    ensures
        match r {
            None => enabled && !as_root,
            Some(e) => !(enabled && !as_root) && e@ == (
                UpdateErrorKind::Policy,
                if !enabled {
                    policy_detail@
                } else {
                    "Automatic updates are disabled when Dogi runs as root"@
                },
            ),
        },
{
    if !enabled {
        return Some(UpdateError::new(UpdateErrorKind::Policy, policy_detail.to_owned()));
    }
    if as_root {
        return Some(
            UpdateError::new(
                UpdateErrorKind::Policy,
                "Automatic updates are disabled when Dogi runs as root".to_owned(),
            ),
        );
    }
    None
}

/// Who wants to look for an update.
#[derive(Clone, Copy, Debug, PartialEq, Eq, Structural)]
pub enum ApplicationUpdateCheckIntent {
    Automatic,
    Manual,
}

/// What an operation on updates came to.
#[derive(Debug, PartialEq, Eq)]
pub enum ApplicationUpdateResult {
    /// It is too early to look for an update.
    Deferred,
    UpToDate,
    Ready { version: String },
    InstalledNeedsRestart { version: String, detail: String },
    Cancelled,
}

/// The mathematical value of [`ApplicationUpdateResult`].
#[verifier::ext_equal]
pub enum UpdateResultView {
    Deferred,
    UpToDate,
    Ready { version: Seq<char> },
    InstalledNeedsRestart { version: Seq<char>, detail: Seq<char> },
    Cancelled,
}

impl View for ApplicationUpdateResult {
    type V = UpdateResultView;

    open spec fn view(&self) -> UpdateResultView {
        match self {
            ApplicationUpdateResult::Deferred => UpdateResultView::Deferred,
            ApplicationUpdateResult::UpToDate => UpdateResultView::UpToDate,
            ApplicationUpdateResult::Ready { version } => UpdateResultView::Ready {
                version: version@,
            },
            ApplicationUpdateResult::InstalledNeedsRestart { version, detail } =>
                UpdateResultView::InstalledNeedsRestart { version: version@, detail: detail@ },
            ApplicationUpdateResult::Cancelled => UpdateResultView::Cancelled,
        }
    }
}

/// How far it was found out whether there is a release to install. A release is offered
/// only once its tag was checked.
#[derive(Debug, PartialEq, Eq)]
pub enum ReleaseCheck {
    /// It is asked for the latest release.
    AskingRelease,
    /// It is asked what the tag of the release refers to.
    AskingReference { candidate: ReleaseCandidate },
    /// It is asked for the tag with the name that the reference gave.
    AskingTag { candidate: ReleaseCandidate, sha: String },
    /// There is no newer release.
    UpToDate,
    /// The release may be downloaded and installed.
    Offered { candidate: ReleaseCandidate },
    /// The release is not trusted.
    Refused { detail: String },
}

/// The mathematical value of [`ReleaseCheck`].
#[verifier::ext_equal]
pub enum CheckView {
    AskingRelease,
    AskingReference { candidate: release::CandidateView },
    AskingTag { candidate: release::CandidateView, sha: Seq<char> },
    UpToDate,
    Offered { candidate: release::CandidateView },
    Refused { detail: Seq<char> },
}

impl View for ReleaseCheck {
    type V = CheckView;

    open spec fn view(&self) -> CheckView {
        match self {
            ReleaseCheck::AskingRelease => CheckView::AskingRelease,
            ReleaseCheck::AskingReference { candidate } => CheckView::AskingReference {
                candidate: candidate@,
            },
            ReleaseCheck::AskingTag { candidate, sha } => CheckView::AskingTag {
                candidate: candidate@,
                sha: sha@,
            },
            ReleaseCheck::UpToDate => CheckView::UpToDate,
            ReleaseCheck::Offered { candidate } => CheckView::Offered { candidate: candidate@ },
            ReleaseCheck::Refused { detail } => CheckView::Refused { detail: detail@ },
        }
    }
}

/// What follows from the latest release.
pub open spec fn after_release(
    check: CheckView,
    current: version::VersionView,
    kind: ReleaseAssetKind,
    found: ApiRelease,
) -> CheckView {
    if check is AskingRelease {
        match release::verdict_on(current, kind, found) {
            release::Verdict::Refuse(detail) => CheckView::Refused { detail },
            release::Verdict::UpToDate => CheckView::UpToDate,
            release::Verdict::Offer(candidate) => CheckView::AskingReference { candidate },
        }
    } else {
        check
    }
}

/// What follows from what the tag of the release refers to.
pub open spec fn after_reference(check: CheckView, reference: ApiTagReference) -> CheckView {
    match check {
        CheckView::AskingReference { candidate } => if release::is_annotated(
            reference,
            version::version_text(candidate.version),
        ) {
            CheckView::AskingTag { candidate, sha: reference.object.sha@ }
        } else {
            CheckView::Refused { detail: "the release does not reference an annotated tag"@ }
        },
        _ => check,
    }
}

/// What follows from the tag of the release.
pub open spec fn after_tag(check: CheckView, found: ApiTag, signers: Seq<char>) -> CheckView {
    match check {
        CheckView::AskingTag { candidate, sha } => match tag::distrust(
            candidate.version,
            sha,
            found,
            signers,
        ) {
            Some(detail) => CheckView::Refused { detail },
            None => CheckView::Offered { candidate },
        },
        _ => check,
    }
}

/// A release is offered only if it is newer and of the right kind, its tag is an annotated
/// one, and that tag is signed by the signers. Each answer alone offers nothing.
pub proof fn law_only_checked_releases_are_offered(
    current: version::VersionView,
    kind: ReleaseAssetKind,
    found: ApiRelease,
    reference: ApiTagReference,
    found_tag: ApiTag,
    signers: Seq<char>,
)
    ensures
        ({
            let asked = after_release(CheckView::AskingRelease, current, kind, found);
            let referred = after_reference(asked, reference);
            &&& !(asked is Offered)
            &&& !(referred is Offered)
            &&& after_tag(referred, found_tag, signers) matches CheckView::Offered { candidate } ==> {
                &&& release::verdict_on(current, kind, found) == release::Verdict::Offer(candidate)
                &&& release::is_annotated(reference, version::version_text(candidate.version))
                &&& tag::distrust(
                    candidate.version,
                    reference.object.sha@,
                    found_tag,
                    signers,
                ) is None
            }
        }),
{
}

impl ReleaseCheck {
    /// It is asked for the latest release first.
    pub fn begin() -> (r: Self)
        ensures
            r@ == CheckView::AskingRelease,
    {
        ReleaseCheck::AskingRelease
    }

    /// Takes in the latest release.
    pub fn note_release(
        self,
        current: &ReleaseVersion,
        kind: &ReleaseAssetKind,
        found: &ApiRelease,
    ) -> (r: Self)
        ensures
            r@ == after_release(self@, current@, *kind, *found),
    {
        match self {
            ReleaseCheck::AskingRelease => match release::validate_release(current, kind, found) {
                Err(detail) => ReleaseCheck::Refused { detail },
                Ok(None) => ReleaseCheck::UpToDate,
                Ok(Some(candidate)) => ReleaseCheck::AskingReference { candidate },
            },
            other => other,
        }
    }

    /// Takes in what the tag of the release refers to.
    pub fn note_reference(self, reference: &ApiTagReference) -> (r: Self)
        ensures
            r@ == after_reference(self@, *reference),
    {
        match self {
            ReleaseCheck::AskingReference { candidate } => match release::check_reference(
                &candidate.version,
                reference,
            ) {
                Ok(_) => ReleaseCheck::AskingTag { candidate, sha: reference.object.sha.clone() },
                Err(detail) => ReleaseCheck::Refused { detail },
            },
            other => other,
        }
    }

    /// Takes in the tag of the release.
    pub fn note_tag(self, found: &ApiTag, signers: &str) -> (r: Self)
        ensures
            r@ == after_tag(self@, *found, signers@),
    {
        match self {
            ReleaseCheck::AskingTag { candidate, sha } => match tag::verify_tag(
                &candidate.version,
                sha.as_str(),
                found,
                signers,
            ) {
                Ok(_) => ReleaseCheck::Offered { candidate },
                Err(detail) => ReleaseCheck::Refused { detail },
            },
            other => other,
        }
    }
}

/// A release that was downloaded and checked.
#[derive(Debug, PartialEq, Eq)]
pub struct PreparedUpdate {
    pub candidate: ReleaseCandidate,
    pub download: String,
}

/// The update that is ready, if there is one.
#[derive(Debug, PartialEq, Eq)]
pub struct UpdateService {
    pub prepared: Option<PreparedUpdate>,
}

impl View for UpdateService {
    type V = Option<(release::CandidateView, Seq<char>)>;

    open spec fn view(&self) -> Option<(release::CandidateView, Seq<char>)> {
        match self.prepared {
            Some(prepared) => Some((prepared.candidate@, prepared.download@)),
            None => None,
        }
    }
}

/// What the end of an installation means.
pub open spec fn installation_result(
    version: Seq<char>,
    outcome: Result<Option<Seq<char>>, install::InstallationFault>,
) -> Result<UpdateResultView, (UpdateErrorKind, Seq<char>)> {
    match outcome {
        Ok(warning) => Ok(
            UpdateResultView::InstalledNeedsRestart {
                version,
                detail: match warning {
                    Some(warning) => warning,
                    None => Seq::empty(),
                },
            },
        ),
        Err(install::InstallationFault::Cancelled) => Ok(UpdateResultView::Cancelled),
        Err(install::InstallationFault::Verification(detail)) => Err(
            (UpdateErrorKind::Verification, detail),
        ),
        Err(install::InstallationFault::Authorization(detail)) => Err(
            (UpdateErrorKind::Authorization, detail),
        ),
        Err(install::InstallationFault::Failed(detail)) => Err(
            (UpdateErrorKind::Installation, detail),
        ),
    }
}

/// How a check for updates ended, and whether its time is recorded: that of one that
/// succeeded is, that of one that failed is not.
#[derive(Debug, PartialEq, Eq)]
pub struct CheckEnd {
    pub result: Result<ApplicationUpdateResult, UpdateError>,
    pub recorded: bool,
}

/// The mathematical value of [`CheckEnd`].
#[verifier::ext_equal]
pub struct CheckEndView {
    pub result: Result<UpdateResultView, (UpdateErrorKind, Seq<char>)>,
    pub recorded: bool,
}

impl View for CheckEnd {
    type V = CheckEndView;

    open spec fn view(&self) -> CheckEndView {
        CheckEndView {
            result: match self.result {
                Ok(result) => Ok(result@),
                Err(error) => Err(error@),
            },
            recorded: self.recorded,
        }
    }
}

/// What a check came to.
pub open spec fn checked_view(check: Result<ReleaseCheck, UpdateError>) -> Result<
    CheckView,
    (UpdateErrorKind, Seq<char>),
> {
    match check {
        Ok(check) => Ok(check@),
        Err(error) => Err(error@),
    }
}

/// What a download came to.
pub open spec fn download_view(download: Result<String, UpdateError>) -> Result<
    Seq<char>,
    (UpdateErrorKind, Seq<char>),
> {
    match download {
        Ok(place) => Ok(place@),
        Err(error) => Err(error@),
    }
}

/// The update that is ready once a check ended, and what is said and recorded of the
/// check; nothing while the check still asks. A failure leaves the update that was ready
/// before.
pub open spec fn check_conclusion(
    ready: Option<(release::CandidateView, Seq<char>)>,
    check: Result<CheckView, (UpdateErrorKind, Seq<char>)>,
    download: Result<Seq<char>, (UpdateErrorKind, Seq<char>)>,
) -> Option<(Option<(release::CandidateView, Seq<char>)>, CheckEndView)> {
    match check {
        Err(error) => Some((ready, failed_check(error))),
        Ok(CheckView::UpToDate) => Some((None, successful_check(UpdateResultView::UpToDate))),
        Ok(CheckView::Refused { detail }) => Some(
            (ready, failed_check((UpdateErrorKind::Verification, detail))),
        ),
        Ok(CheckView::Offered { candidate }) => match download {
            Err(error) => Some((ready, failed_check(error))),
            Ok(place) => Some(
                (
                    Some((candidate, place)),
                    successful_check(
                        UpdateResultView::Ready {
                            version: version::version_text(candidate.version),
                        },
                    ),
                ),
            ),
        },
        Ok(_) => None,
    }
}

/// A check that failed is not recorded.
pub open spec fn failed_check(error: (UpdateErrorKind, Seq<char>)) -> CheckEndView {
    CheckEndView { result: Err(error), recorded: false }
}

/// A check that succeeded is recorded.
pub open spec fn successful_check(result: UpdateResultView) -> CheckEndView {
    CheckEndView { result: Ok(result), recorded: true }
}

/// The preferences once a check ended at a time.
pub open spec fn config_after_check(
    config: app_config::ConfigView,
    end: CheckEndView,
    now_seconds: u64,
) -> app_config::ConfigView {
    if end.recorded {
        app_config::ConfigView { last_check: Some(now_seconds), ..config }
    } else {
        config
    }
}

impl CheckEnd {
    /// Records the time of a check that succeeded.
    pub fn record(&self, config: &mut StoredApplicationConfig, now_seconds: u64)
        ensures
            final(config)@ == config_after_check(old(config)@, self@, now_seconds),
    {
        if self.recorded {
            config.record_successful_update_check(now_seconds);
        }
    }
}

/// The time of a check is recorded exactly where the check succeeded, and then no
/// automatic check is due before the interval is over. One that failed leaves the
/// preferences and the update that was ready, so that the next check is due when it was.
pub proof fn law_only_successful_checks_are_recorded(
    ready: Option<(release::CandidateView, Seq<char>)>,
    check: Result<CheckView, (UpdateErrorKind, Seq<char>)>,
    download: Result<Seq<char>, (UpdateErrorKind, Seq<char>)>,
    config: app_config::ConfigView,
    now: u64,
    later: u64,
    interval: u64,
)
    requires
        check_conclusion(ready, check, download) is Some,
    ensures
        ({
            let (left, end) = check_conclusion(ready, check, download)->0;
            let after = config_after_check(config, end, now);
            &&& end.recorded <==> end.result is Ok
            &&& end.recorded ==> after.last_check == Some(now) && (now <= later < now + interval
                ==> !app_config::check_due(after.last_check, later, interval))
            &&& !end.recorded ==> after == config && left == ready
        }),
{
}

impl UpdateService {
    /// No update is ready yet.
    pub fn new() -> (r: Self)
        ensures
            r@ is None,
    {
        UpdateService { prepared: None }
    }

    /// Whether it is looked for an update now. `due` tells that the last look was long
    /// enough ago.
    pub fn begin_check(&self, intent: ApplicationUpdateCheckIntent, due: bool) -> (r: Option<
        ApplicationUpdateResult,
    >)
        ensures
            intent == ApplicationUpdateCheckIntent::Automatic && !due <==> r is Some,
            r matches Some(result) ==> result@ == UpdateResultView::Deferred,
    {
        if intent == ApplicationUpdateCheckIntent::Automatic && !due {
            Some(ApplicationUpdateResult::Deferred)
        } else {
            None
        }
    }

    /// Notes that there is no newer release.
    pub fn note_up_to_date(&mut self) -> (r: ApplicationUpdateResult)
        ensures
            final(self)@ is None,
            r@ == UpdateResultView::UpToDate,
    {
        self.prepared = None;
        ApplicationUpdateResult::UpToDate
    }

    /// Notes that the release that a check offered was downloaded. Where the check offered
    /// none, there is nothing to note.
    pub fn note_ready(&mut self, check: ReleaseCheck, download: String) -> (r: Option<
        ApplicationUpdateResult,
    >)
        ensures
            match check@ {
                CheckView::Offered { candidate } => {
                    &&& final(self)@ == Some((candidate, download@))
                    &&& r matches Some(result) && result@ == (UpdateResultView::Ready {
                        version: version::version_text(candidate.version),
                    })
                },
                _ => r is None && *final(self) == *old(self),
            },
    {
        match check {
            ReleaseCheck::Offered { candidate } => {
                let version = candidate.version.text();
                self.prepared = Some(PreparedUpdate { candidate, download });
                Some(ApplicationUpdateResult::Ready { version })
            },
            _ => None,
        }
    }

    /// Takes in how a check ended. `download` is the place of the release that the check
    /// offered. There is nothing to take in while the check still asks.
    pub fn conclude_check(
        &mut self,
        check: Result<ReleaseCheck, UpdateError>,
        download: Result<String, UpdateError>,
    ) -> (r: Option<CheckEnd>)
        ensures
            match check_conclusion(old(self)@, checked_view(check), download_view(download)) {
                Some((ready, end)) => {
                    &&& final(self)@ == ready
                    &&& r matches Some(told) && told@ == end
                },
                None => r is None && *final(self) == *old(self),
            },
    {
        let check = match check {
            Ok(check) => check,
            Err(error) => return Some(CheckEnd { result: Err(error), recorded: false }),
        };
        match check {
            ReleaseCheck::UpToDate => Some(
                CheckEnd { result: Ok(self.note_up_to_date()), recorded: true },
            ),
            ReleaseCheck::Refused { detail } => Some(
                CheckEnd {
                    result: Err(UpdateError::new(UpdateErrorKind::Verification, detail)),
                    recorded: false,
                },
            ),
            ReleaseCheck::Offered { candidate } => match download {
                Err(error) => Some(CheckEnd { result: Err(error), recorded: false }),
                Ok(download) => match self.note_ready(
                    ReleaseCheck::Offered { candidate },
                    download,
                ) {
                    Some(result) => Some(CheckEnd { result: Ok(result), recorded: true }),
                    None => None,
                },
            },
            _ => None,
        }
    }

    /// The failure to install where no update is ready.
    pub fn install_fault(&self) -> (r: Option<UpdateError>)
        ensures
            r is None <==> self@ is Some,
            r matches Some(e) ==> e@ == (
                UpdateErrorKind::State,
                "no verified Dogi update is ready to install"@,
            ),
    {
        match self.prepared {
            Some(_) => None,
            None => Some(
                UpdateError::new(
                    UpdateErrorKind::State,
                    "no verified Dogi update is ready to install".to_owned(),
                ),
            ),
        }
    }

    /// What the end of the installation of the update that is ready means. A warning
    /// tells what did not go well beside it.
    pub fn conclude_install(&self, outcome: Result<Option<String>, InstallationError>) -> (r:
        Result<ApplicationUpdateResult, UpdateError>)
        requires
            self@ is Some,
        ensures
            ({
                let expected = installation_result(
                    version::version_text((self@->0).0.version),
                    match outcome {
                        Ok(warning) => Ok(text::optional(warning)),
                        Err(e) => Err(e@),
                    },
                );
                match r {
                    Ok(result) => expected == Ok::<
                        UpdateResultView,
                        (UpdateErrorKind, Seq<char>),
                    >(result@),
                    Err(e) => expected == Err::<UpdateResultView, (UpdateErrorKind, Seq<char>)>(
                        e@,
                    ),
                }
            }),
    {
        let version = match &self.prepared {
            Some(prepared) => prepared.candidate.version.text(),
            None => String::new(),
        };
        match outcome {
            Ok(warning) => {
                let detail = match warning {
                    Some(warning) => warning,
                    None => String::new(),
                };
                Ok(ApplicationUpdateResult::InstalledNeedsRestart { version, detail })
            },
            Err(InstallationError::Cancelled) => Ok(ApplicationUpdateResult::Cancelled),
            Err(InstallationError::Verification(detail)) => Err(
                UpdateError::new(UpdateErrorKind::Verification, detail),
            ),
            Err(InstallationError::Authorization(detail)) => Err(
                UpdateError::new(UpdateErrorKind::Authorization, detail),
            ),
            Err(InstallationError::Failed(detail)) => Err(
                UpdateError::new(UpdateErrorKind::Installation, detail),
            ),
        }
    }
}

/// A dismissed authorization is no failure, and only then is the installation called
/// off.
pub proof fn law_dismissal_is_no_failure(version: Seq<char>, code: Option<i32>, detail: Seq<char>)
    ensures
        installation_result(version, Err(install::debian_fault(code, detail))) == Ok::<
            UpdateResultView,
            (UpdateErrorKind, Seq<char>),
        >(UpdateResultView::Cancelled) <==> code == Some(126i32),
{
}

/// A release that is judged to be worth offering, refers to an annotated tag and has a tag that
/// is trusted is offered; and what was offered and downloaded is ready to install.
pub proof fn law_sound_release_becomes_ready(
    current: version::VersionView,
    kind: ReleaseAssetKind,
    found: ApiRelease,
    reference: ApiTagReference,
    found_tag: ApiTag,
    signers: Seq<char>,
    candidate: release::CandidateView,
    ready: Option<(release::CandidateView, Seq<char>)>,
    place: Seq<char>,
)
    requires
        release::verdict_on(current, kind, found) == release::Verdict::Offer(candidate),
        release::is_annotated(reference, version::version_text(candidate.version)),
        tag::distrust(candidate.version, reference.object.sha@, found_tag, signers) is None,
    ensures
        ({
            let asked = after_release(CheckView::AskingRelease, current, kind, found);
            let referred = after_reference(asked, reference);
            let offered = after_tag(referred, found_tag, signers);
            &&& asked == (CheckView::AskingReference { candidate })
            &&& referred == (CheckView::AskingTag { candidate, sha: reference.object.sha@ })
            &&& offered == (CheckView::Offered { candidate })
            &&& check_conclusion(ready, Ok(offered), Ok(place)) == Some(
                (
                    Some((candidate, place)),
                    CheckEndView {
                        result: Ok(
                            UpdateResultView::Ready {
                                version: version::version_text(candidate.version),
                            },
                        ),
                        recorded: true,
                    },
                ),
            )
        }),
{
}

/// What is found of no use is told: no newer release is no failure and leaves nothing to
/// install, and every failure leaves what was ready.
pub proof fn law_checks_end_with_what_was_found(
    ready: Option<(release::CandidateView, Seq<char>)>,
    candidate: release::CandidateView,
    detail: Seq<char>,
    error: (UpdateErrorKind, Seq<char>),
    download: Result<Seq<char>, (UpdateErrorKind, Seq<char>)>,
)
    ensures
        check_conclusion(ready, Ok(CheckView::UpToDate), download) == Some(
            (
                None::<(release::CandidateView, Seq<char>)>,
                CheckEndView { result: Ok(UpdateResultView::UpToDate), recorded: true },
            ),
        ),
        check_conclusion(ready, Err(error), download) == Some(
            (ready, CheckEndView { result: Err(error), recorded: false }),
        ),
        check_conclusion(ready, Ok(CheckView::Refused { detail }), download) == Some(
            (
                ready,
                CheckEndView {
                    result: Err((UpdateErrorKind::Verification, detail)),
                    recorded: false,
                },
            ),
        ),
        check_conclusion(ready, Ok(CheckView::Offered { candidate }), Err(error)) == Some(
            (ready, CheckEndView { result: Err(error), recorded: false }),
        ),
{
}

/// Updates are for ordinary users of an installation that may update itself; an automatic check
/// waits until one is due, a check that the user asks for never does; and a day goes by
/// between two automatic checks.
pub proof fn law_checks_are_made_when_wanted(
    enabled: bool,
    policy_detail: &str,
    as_root: bool,
    intent: ApplicationUpdateCheckIntent,
    due: bool,
)
    ensures
        AUTOMATIC_CHECK_INTERVAL_SECONDS == 24 * 60 * 60,
        forall|r: Option<UpdateError>|
            #![trigger call_ensures(update_fault, (enabled, policy_detail, as_root), r)]
            call_ensures(update_fault, (enabled, policy_detail, as_root), r) ==> {
                &&& r is None <==> enabled && !as_root
                &&& !enabled ==> r->0@ == (UpdateErrorKind::Policy, policy_detail@)
            },
        forall|service: &UpdateService, r: Option<ApplicationUpdateResult>|
            #![trigger call_ensures(UpdateService::begin_check, (service, intent, due), r)]
            call_ensures(UpdateService::begin_check, (service, intent, due), r) ==> {
                &&& intent is Manual || due ==> r is None
                &&& intent is Automatic && !due ==> r is Some && r->0@ is Deferred
            },
{
}

/// An update is installed only where one is ready, and what became of it is told: the version
/// and the warning of one that was installed, and each failure by its kind.
pub proof fn law_installations_are_told(
    version: Seq<char>,
    warning: Seq<char>,
    detail: Seq<char>,
    service: &UpdateService,
)
    ensures
        installation_result(version, Ok(Some(warning))) == Ok::<
            UpdateResultView,
            (UpdateErrorKind, Seq<char>),
        >(UpdateResultView::InstalledNeedsRestart { version, detail: warning }),
        installation_result(version, Ok(None)) == Ok::<
            UpdateResultView,
            (UpdateErrorKind, Seq<char>),
        >(UpdateResultView::InstalledNeedsRestart { version, detail: Seq::empty() }),
        installation_result(version, Err(install::InstallationFault::Cancelled)) == Ok::<
            UpdateResultView,
            (UpdateErrorKind, Seq<char>),
        >(UpdateResultView::Cancelled),
        installation_result(version, Err(install::InstallationFault::Verification(detail)))
            == Err::<UpdateResultView, (UpdateErrorKind, Seq<char>)>(
            (UpdateErrorKind::Verification, detail),
        ),
        installation_result(version, Err(install::InstallationFault::Authorization(detail)))
            == Err::<UpdateResultView, (UpdateErrorKind, Seq<char>)>(
            (UpdateErrorKind::Authorization, detail),
        ),
        installation_result(version, Err(install::InstallationFault::Failed(detail))) == Err::<
            UpdateResultView,
            (UpdateErrorKind, Seq<char>),
        >((UpdateErrorKind::Installation, detail)),
        forall|r: Option<UpdateError>|
            #![trigger call_ensures(UpdateService::install_fault, (service,), r)]
            call_ensures(UpdateService::install_fault, (service,), r) ==> (r is None <==> service@
                is Some) && (r matches Some(e) ==> e@.0 is State),
{
}

/// Each kind of failure is shown as itself, and what the installation does not allow as
/// unavailable.
pub proof fn law_failures_are_shown_by_kind()
    ensures
        shown_kind(UpdateErrorKind::Policy) is Unavailable,
        shown_kind(UpdateErrorKind::Network) is Network,
        shown_kind(UpdateErrorKind::Verification) is Verification,
        shown_kind(UpdateErrorKind::Storage) is Storage,
        shown_kind(UpdateErrorKind::Authorization) is Authorization,
        shown_kind(UpdateErrorKind::Installation) is Installation,
        shown_kind(UpdateErrorKind::State) is State,
        shown_kind(UpdateErrorKind::Internal) is Internal,
{
}

/// What was offered and downloaded is ready to install until there is nothing newer.
pub proof fn law_offers_become_ready(check: ReleaseCheck, download: String)
    ensures
        forall|service: &mut UpdateService, r: Option<ApplicationUpdateResult>|
            #![trigger call_ensures(UpdateService::note_ready, (service, check, download), r)]
            call_ensures(UpdateService::note_ready, (service, check, download), r) ==> {
                &&& check@ matches CheckView::Offered { candidate } ==> final(service)@ == Some(
                    (candidate, download@),
                ) && r is Some && r->0@ == (UpdateResultView::Ready {
                    version: version::version_text(candidate.version),
                })
                &&& !(check@ is Offered) ==> r is None && final(service)@ == (*service)@
            },
        forall|service: &mut UpdateService, r: ApplicationUpdateResult|
            #![trigger call_ensures(UpdateService::note_up_to_date, (service,), r)]
            call_ensures(UpdateService::note_up_to_date, (service,), r) ==> final(service)@ is None
                && r@ is UpToDate,
        forall|end: &CheckEnd, config: &mut StoredApplicationConfig, now: u64, r: ()|
            #![trigger call_ensures(CheckEnd::record, (end, config, now), r)]
            call_ensures(CheckEnd::record, (end, config, now), r) ==> {
                &&& end@.recorded ==> final(config)@.last_check == Some(now)
                &&& !end@.recorded ==> final(config)@ == (*config)@
                &&& final(config)@.preferences == (*config)@.preferences
            },
{
}

}
