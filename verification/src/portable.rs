//! How a portable installation is replaced by a newer one: the steps, what is undone
//! where one of them fails, and why a complete version is there at any time.

use crate::text;
use vstd::prelude::*;

verus! {

/// Why the activation is undone.
#[derive(Clone, Copy, Debug, PartialEq, Eq, Structural)]
pub enum RevertCause {
    /// The activation could not be made durable.
    Activation,
    /// The version before the last one could not be put aside.
    Rotation,
    /// The last version could not be kept.
    Keeping,
    /// That the last version is kept could not be made durable.
    Persistence,
}

/// Where the replacement stands, and so what is to be done next.
#[derive(Debug, PartialEq, Eq)]
pub enum PortableStage {
    /// A directory is made for the work.
    CreatingStaging,
    /// The package is copied and checked.
    Verifying,
    /// A directory is made for the new version.
    CreatingRoot,
    /// The package is unpacked and checked.
    Extracting,
    /// The work is thrown away after a failure.
    Discarding { detail: String },
    /// The new version is made durable.
    SyncingTree,
    /// A name is found for the version before the last one.
    NamingRetired,
    /// The new version takes the place of the last one, which takes its place.
    Exchanging,
    /// The activation is made durable.
    SyncingActivation,
    /// The version before the last one is put aside.
    Rotating,
    /// The last version takes the place that is kept for it.
    Keeping,
    /// That the last version is kept is made durable.
    SyncingRotation,
    /// The last version is fetched back after a failure.
    FetchingBack { detail: String },
    /// The activation is undone after a failure.
    Reverting { cause: RevertCause, detail: String },
    /// The version before the last one is put back after a failure.
    RestoringBackup { detail: String, activated: bool },
    /// The version before the last one is removed.
    RemovingRetired,
    /// The end of the exchange is made durable.
    SyncingEnd,
    /// The directory for the work is removed.
    Cleaning,
    /// The removal is made durable.
    SyncingCleanup,
    /// The new version is installed.
    Installed,
    /// The replacement failed. `activated` tells that the new version stays all the
    /// same.
    Failed { detail: String, verification: bool, activated: bool },
}

/// The mathematical value of [`PortableStage`].
#[verifier::ext_equal]
pub enum StageView {
    CreatingStaging,
    Verifying,
    CreatingRoot,
    Extracting,
    Discarding { detail: Seq<char> },
    SyncingTree,
    NamingRetired,
    Exchanging,
    SyncingActivation,
    Rotating,
    Keeping,
    SyncingRotation,
    FetchingBack { detail: Seq<char> },
    Reverting { cause: RevertCause, detail: Seq<char> },
    RestoringBackup { detail: Seq<char>, activated: bool },
    RemovingRetired,
    SyncingEnd,
    Cleaning,
    SyncingCleanup,
    Installed,
    Failed { detail: Seq<char>, verification: bool, activated: bool },
}

impl View for PortableStage {
    type V = StageView;

    open spec fn view(&self) -> StageView {
        match self {
            PortableStage::CreatingStaging => StageView::CreatingStaging,
            PortableStage::Verifying => StageView::Verifying,
            PortableStage::CreatingRoot => StageView::CreatingRoot,
            PortableStage::Extracting => StageView::Extracting,
            PortableStage::Discarding { detail } => StageView::Discarding { detail: detail@ },
            PortableStage::SyncingTree => StageView::SyncingTree,
            PortableStage::NamingRetired => StageView::NamingRetired,
            PortableStage::Exchanging => StageView::Exchanging,
            PortableStage::SyncingActivation => StageView::SyncingActivation,
            PortableStage::Rotating => StageView::Rotating,
            PortableStage::Keeping => StageView::Keeping,
            PortableStage::SyncingRotation => StageView::SyncingRotation,
            PortableStage::FetchingBack { detail } => StageView::FetchingBack { detail: detail@ },
            PortableStage::Reverting { cause, detail } => StageView::Reverting {
                cause: *cause,
                detail: detail@,
            },
            PortableStage::RestoringBackup { detail, activated } => StageView::RestoringBackup {
                detail: detail@,
                activated: *activated,
            },
            PortableStage::RemovingRetired => StageView::RemovingRetired,
            PortableStage::SyncingEnd => StageView::SyncingEnd,
            PortableStage::Cleaning => StageView::Cleaning,
            PortableStage::SyncingCleanup => StageView::SyncingCleanup,
            PortableStage::Installed => StageView::Installed,
            PortableStage::Failed { detail, verification, activated } => StageView::Failed {
                detail: detail@,
                verification: *verification,
                activated: *activated,
            },
        }
    }
}

/// What is said where the activation was undone, or where undoing it failed too.
pub open spec fn revert_text(
    cause: RevertCause,
    detail: Seq<char>,
    failure: Option<Seq<char>>,
) -> Seq<char> {
    match (cause, failure) {
        (RevertCause::Activation, None) =>
            "could not persist the atomic portable activation: "@ + detail,
        (RevertCause::Activation, Some(failure)) =>
            "could not persist the portable activation ("@ + detail + ") or revert it ("@ + failure
            + ")"@,
        (RevertCause::Rotation, None) =>
            "could not rotate the previous portable version: "@ + detail,
        (RevertCause::Rotation, Some(failure)) =>
            "the update was activated, but its previous-version slot could not be rotated ("@
            + detail + ") and activation could not be reverted ("@ + failure + ")"@,
        (RevertCause::Keeping, None) =>
            "could not preserve the previous portable version: "@ + detail,
        (RevertCause::Keeping, Some(failure)) =>
            "the update was activated, but its previous version could not be preserved ("@ + detail
            + ") and activation could not be reverted ("@ + failure + ")"@,
        (RevertCause::Persistence, None) =>
            "could not persist the portable backup rotation: "@ + detail,
        (RevertCause::Persistence, Some(failure)) =>
            "could not persist the portable backup rotation ("@ + detail
            + ") or revert activation ("@ + failure + ")"@,
    }
}

/// What is said where the activation was undone, or where undoing it failed too.
fn describe_revert(cause: RevertCause, detail: &str, failure: &Option<String>) -> (r: String)
    ensures
        r@ == revert_text(cause, detail@, text::optional(*failure)),
{
    match failure {
        None => {
            let start: &str = match cause {
                RevertCause::Activation => "could not persist the atomic portable activation: ",
                RevertCause::Rotation => "could not rotate the previous portable version: ",
                RevertCause::Keeping => "could not preserve the previous portable version: ",
                RevertCause::Persistence => "could not persist the portable backup rotation: ",
            };
            text::concat2(start, detail)
        },
        Some(failure) => {
            let (start, middle): (&str, &str) = match cause {
                RevertCause::Activation => (
                    "could not persist the portable activation (",
                    ") or revert it (",
                ),
                RevertCause::Rotation => (
                    "the update was activated, but its previous-version slot could not be rotated (",
                    ") and activation could not be reverted (",
                ),
                RevertCause::Keeping => (
                    "the update was activated, but its previous version could not be preserved (",
                    ") and activation could not be reverted (",
                ),
                RevertCause::Persistence => (
                    "could not persist the portable backup rotation (",
                    ") or revert activation (",
                ),
            };
            let mut r = text::concat3(start, detail, middle);
            r.append(failure.as_str());
            r.append(")");
            r
        },
    }
}

/// A failure before anything was activated.
pub open spec fn plain_failure(start: Seq<char>, detail: Seq<char>) -> StageView {
    StageView::Failed { detail: start + detail, verification: false, activated: false }
}

/// A failure after the new version was activated.
pub open spec fn late_failure(start: Seq<char>, detail: Seq<char>) -> StageView {
    StageView::Failed { detail: start + detail, verification: false, activated: true }
}

/// The end of undoing: the version before the last one is put back where it was put
/// aside.
pub open spec fn after_revert(rotates: bool, detail: Seq<char>, activated: bool) -> StageView {
    if rotates {
        StageView::RestoringBackup { detail, activated }
    } else {
        StageView::Failed { detail, verification: false, activated }
    }
}

/// The stage after a step was done. `rotates` tells that there is a version before the
/// last one.
pub open spec fn stage_after_success(stage: StageView, rotates: bool) -> StageView {
    match stage {
        StageView::CreatingStaging => StageView::Verifying,
        StageView::Verifying => StageView::CreatingRoot,
        StageView::CreatingRoot => StageView::Extracting,
        StageView::Extracting => StageView::SyncingTree,
        StageView::Discarding { detail } => StageView::Failed {
            detail,
            verification: false,
            activated: false,
        },
        StageView::SyncingTree => if rotates {
            StageView::NamingRetired
        } else {
            StageView::Exchanging
        },
        StageView::NamingRetired => StageView::Exchanging,
        StageView::Exchanging => StageView::SyncingActivation,
        StageView::SyncingActivation => if rotates {
            StageView::Rotating
        } else {
            StageView::Keeping
        },
        StageView::Rotating => StageView::Keeping,
        StageView::Keeping => StageView::SyncingRotation,
        StageView::SyncingRotation => if rotates {
            StageView::RemovingRetired
        } else {
            StageView::SyncingEnd
        },
        StageView::FetchingBack { detail } => StageView::Reverting {
            cause: RevertCause::Persistence,
            detail,
        },
        StageView::Reverting { cause, detail } => match cause {
            RevertCause::Activation => StageView::Failed {
                detail: revert_text(cause, detail, None),
                verification: false,
                activated: false,
            },
            RevertCause::Rotation => StageView::Failed {
                detail: revert_text(cause, detail, None),
                verification: false,
                activated: false,
            },
            _ => after_revert(rotates, revert_text(cause, detail, None), false),
        },
        StageView::RestoringBackup { detail, activated } => StageView::Failed {
            detail,
            verification: false,
            activated,
        },
        StageView::RemovingRetired => StageView::SyncingEnd,
        StageView::SyncingEnd => StageView::Cleaning,
        StageView::Cleaning => StageView::SyncingCleanup,
        StageView::SyncingCleanup => StageView::Installed,
        StageView::Installed => stage,
        StageView::Failed { .. } => stage,
    }
}

/// The stage after a step failed.
pub open spec fn stage_after_failure(stage: StageView, rotates: bool, error: Seq<char>) -> StageView {
    match stage {
        StageView::CreatingStaging => plain_failure(
            "could not prepare the portable update: "@,
            error,
        ),
        StageView::Verifying => StageView::Failed {
            detail: error,
            verification: true,
            activated: false,
        },
        StageView::CreatingRoot => plain_failure("could not prepare the portable update: "@, error),
        StageView::Extracting => StageView::Discarding { detail: error },
        StageView::Discarding { detail } => StageView::Failed {
            detail,
            verification: false,
            activated: false,
        },
        StageView::SyncingTree => plain_failure(
            "could not persist the portable update before activation: "@,
            error,
        ),
        StageView::NamingRetired => StageView::Failed {
            detail: error,
            verification: false,
            activated: false,
        },
        StageView::Exchanging => plain_failure(
            "could not atomically activate the portable update: "@,
            error,
        ),
        StageView::SyncingActivation => StageView::Reverting {
            cause: RevertCause::Activation,
            detail: error,
        },
        StageView::Rotating => StageView::Reverting {
            cause: RevertCause::Rotation,
            detail: error,
        },
        StageView::Keeping => StageView::Reverting { cause: RevertCause::Keeping, detail: error },
        StageView::SyncingRotation => StageView::FetchingBack { detail: error },
        StageView::FetchingBack { detail } => after_revert(
            rotates,
            revert_text(RevertCause::Persistence, detail, Some(error)),
            true,
        ),
        StageView::Reverting { cause, detail } => match cause {
            RevertCause::Activation => StageView::Failed {
                detail: revert_text(cause, detail, Some(error)),
                verification: false,
                activated: true,
            },
            RevertCause::Rotation => StageView::Failed {
                detail: revert_text(cause, detail, Some(error)),
                verification: false,
                activated: true,
            },
            _ => after_revert(rotates, revert_text(cause, detail, Some(error)), true),
        },
        StageView::RestoringBackup { detail, activated } => StageView::Failed {
            detail,
            verification: false,
            activated,
        },
        StageView::RemovingRetired => StageView::SyncingEnd,
        StageView::SyncingEnd => late_failure(
            "could not persist portable transaction cleanup: "@,
            error,
        ),
        StageView::Cleaning => late_failure("could not clean the portable transaction: "@, error),
        StageView::SyncingCleanup => late_failure(
            "could not persist portable transaction cleanup: "@,
            error,
        ),
        StageView::Installed => stage,
        StageView::Failed { .. } => stage,
    }
}

/// The stage after a step. `failure` tells why the step was not done.
pub open spec fn stage_after(stage: StageView, rotates: bool, failure: Option<Seq<char>>) -> StageView {
    match failure {
        None => stage_after_success(stage, rotates),
        Some(error) => stage_after_failure(stage, rotates, error),
    }
}

/// The replacement of a portable installation.
#[derive(Debug, PartialEq, Eq)]
pub struct PortableInstall {
    pub stage: PortableStage,
    /// There is a version before the last one.
    pub rotates: bool,
}

/// A failure before or after the activation.
fn failed(start: &str, detail: &str, activated: bool) -> (r: PortableStage)
    ensures
        r@ == (StageView::Failed { detail: start@ + detail@, verification: false, activated }),
{
    PortableStage::Failed { detail: text::concat2(start, detail), verification: false, activated }
}

/// The end of undoing.
fn finish_revert(rotates: bool, detail: String, activated: bool) -> (r: PortableStage)
    ensures
        r@ == after_revert(rotates, detail@, activated),
{
    if rotates {
        PortableStage::RestoringBackup { detail, activated }
    } else {
        PortableStage::Failed { detail, verification: false, activated }
    }
}

/// The stage once undoing the activation was tried.
fn reverted(
    rotates: bool,
    cause: RevertCause,
    detail: &str,
    failure: Option<String>,
) -> (r: PortableStage)
    ensures
        r@ == stage_after(
            StageView::Reverting { cause, detail: detail@ },
            rotates,
            text::optional(failure),
        ),
{
    let activated = failure.is_some();
    let message = describe_revert(cause, detail, &failure);
    match cause {
        RevertCause::Activation => PortableStage::Failed {
            detail: message,
            verification: false,
            activated,
        },
        RevertCause::Rotation => PortableStage::Failed {
            detail: message,
            verification: false,
            activated,
        },
        _ => finish_revert(rotates, message, activated),
    }
}

/// The stage after a step was done.
fn succeed(stage: PortableStage, rotates: bool) -> (r: PortableStage)
    ensures
        r@ == stage_after_success(stage@, rotates),
{
    match stage {
        PortableStage::CreatingStaging => PortableStage::Verifying,
        PortableStage::Verifying => PortableStage::CreatingRoot,
        PortableStage::CreatingRoot => PortableStage::Extracting,
        PortableStage::Extracting => PortableStage::SyncingTree,
        PortableStage::Discarding { detail } => PortableStage::Failed {
            detail,
            verification: false,
            activated: false,
        },
        PortableStage::SyncingTree => if rotates {
            PortableStage::NamingRetired
        } else {
            PortableStage::Exchanging
        },
        PortableStage::NamingRetired => PortableStage::Exchanging,
        PortableStage::Exchanging => PortableStage::SyncingActivation,
        PortableStage::SyncingActivation => if rotates {
            PortableStage::Rotating
        } else {
            PortableStage::Keeping
        },
        PortableStage::Rotating => PortableStage::Keeping,
        PortableStage::Keeping => PortableStage::SyncingRotation,
        PortableStage::SyncingRotation => if rotates {
            PortableStage::RemovingRetired
        } else {
            PortableStage::SyncingEnd
        },
        PortableStage::FetchingBack { detail } => PortableStage::Reverting {
            cause: RevertCause::Persistence,
            detail,
        },
        PortableStage::Reverting { cause, detail } => reverted(
            rotates,
            cause,
            detail.as_str(),
            None,
        ),
        PortableStage::RestoringBackup { detail, activated } => PortableStage::Failed {
            detail,
            verification: false,
            activated,
        },
        PortableStage::RemovingRetired => PortableStage::SyncingEnd,
        PortableStage::SyncingEnd => PortableStage::Cleaning,
        PortableStage::Cleaning => PortableStage::SyncingCleanup,
        PortableStage::SyncingCleanup => PortableStage::Installed,
        PortableStage::Installed => PortableStage::Installed,
        PortableStage::Failed { detail, verification, activated } => PortableStage::Failed {
            detail,
            verification,
            activated,
        },
    }
}

/// The stage after a step failed.
fn fail(stage: PortableStage, rotates: bool, error: String) -> (r: PortableStage)
    ensures
        r@ == stage_after_failure(stage@, rotates, error@),
{
    match stage {
        PortableStage::CreatingStaging => failed(
            "could not prepare the portable update: ",
            error.as_str(),
            false,
        ),
        PortableStage::Verifying => PortableStage::Failed {
            detail: error,
            verification: true,
            activated: false,
        },
        PortableStage::CreatingRoot => failed(
            "could not prepare the portable update: ",
            error.as_str(),
            false,
        ),
        PortableStage::Extracting => PortableStage::Discarding { detail: error },
        PortableStage::Discarding { detail } => PortableStage::Failed {
            detail,
            verification: false,
            activated: false,
        },
        PortableStage::SyncingTree => failed(
            "could not persist the portable update before activation: ",
            error.as_str(),
            false,
        ),
        PortableStage::NamingRetired => PortableStage::Failed {
            detail: error,
            verification: false,
            activated: false,
        },
        PortableStage::Exchanging => failed(
            "could not atomically activate the portable update: ",
            error.as_str(),
            false,
        ),
        PortableStage::SyncingActivation => PortableStage::Reverting {
            cause: RevertCause::Activation,
            detail: error,
        },
        PortableStage::Rotating => PortableStage::Reverting {
            cause: RevertCause::Rotation,
            detail: error,
        },
        PortableStage::Keeping => PortableStage::Reverting {
            cause: RevertCause::Keeping,
            detail: error,
        },
        PortableStage::SyncingRotation => PortableStage::FetchingBack { detail: error },
        PortableStage::FetchingBack { detail } => {
            let message = describe_revert(
                RevertCause::Persistence,
                detail.as_str(),
                &Some(error),
            );
            finish_revert(rotates, message, true)
        },
        PortableStage::Reverting { cause, detail } => reverted(
            rotates,
            cause,
            detail.as_str(),
            Some(error),
        ),
        PortableStage::RestoringBackup { detail, activated } => PortableStage::Failed {
            detail,
            verification: false,
            activated,
        },
        PortableStage::RemovingRetired => PortableStage::SyncingEnd,
        PortableStage::SyncingEnd => failed(
            "could not persist portable transaction cleanup: ",
            error.as_str(),
            true,
        ),
        PortableStage::Cleaning => failed(
            "could not clean the portable transaction: ",
            error.as_str(),
            true,
        ),
        PortableStage::SyncingCleanup => failed(
            "could not persist portable transaction cleanup: ",
            error.as_str(),
            true,
        ),
        PortableStage::Installed => PortableStage::Installed,
        PortableStage::Failed { detail, verification, activated } => PortableStage::Failed {
            detail,
            verification,
            activated,
        },
    }
}

impl PortableInstall {
    /// Begins the replacement. `rotates` tells that there is a version before the last
    /// one.
    pub fn begin(rotates: bool) -> (r: Self)
        ensures
            r.stage@ == StageView::CreatingStaging,
            r.rotates == rotates,
    {
        PortableInstall { stage: PortableStage::CreatingStaging, rotates }
    }

    /// Takes in whether there is a version before the last one. It is looked for once the
    /// new one is complete, and from then on the answer stands.
    pub fn note_previous(self, exists: bool) -> (r: Self)
        ensures
            r.stage == self.stage,
            r.rotates == (if self.stage@ is SyncingTree {
                exists
            } else {
                self.rotates
            }),
    {
        let rotates = match self.stage {
            PortableStage::SyncingTree => exists,
            _ => self.rotates,
        };
        PortableInstall { stage: self.stage, rotates }
    }

    /// Takes in how the step of the stage ended.
    pub fn advance(self, result: Result<(), String>) -> (r: Self)
        ensures
            r.rotates == self.rotates,
            r.stage@ == stage_after(
                self.stage@,
                self.rotates,
                match result {
                    Ok(_) => None,
                    Err(error) => Some(error@),
                },
            ),
    {
        let rotates = self.rotates;
        let stage = match result {
            Ok(_) => succeed(self.stage, rotates),
            Err(error) => fail(self.stage, rotates, error),
        };
        PortableInstall { stage, rotates }
    }
}

/// Until the new version is complete, nothing depends on whether there is one before the
/// last.
pub proof fn law_previous_version_matters_once_the_new_one_is_complete(
    stage: StageView,
    failure: Option<Seq<char>>,
)
    requires
        stage is CreatingStaging || stage is Verifying || stage is CreatingRoot
            || stage is Extracting || stage is Discarding,
    ensures
        stage_after(stage, true, failure) == stage_after(stage, false, failure),
{
}

/// A complete version.
pub enum Tree {
    /// The one that is to be installed.
    New,
    /// The one that was installed when the replacement began.
    Last,
    /// The one before that.
    Former,
}

/// The places that versions are in.
pub struct Places {
    /// The place that the application is started from.
    pub live: Option<Tree>,
    /// The place where the new version is unpacked.
    pub staged: Option<Tree>,
    /// The place of the last version.
    pub backup: Option<Tree>,
    /// The place of a version that is to be removed.
    pub retired: Option<Tree>,
}

/// The places before the replacement.
pub open spec fn first_places(rotates: bool) -> Places {
    Places {
        live: Some(Tree::Last),
        staged: None,
        backup: if rotates {
            Some(Tree::Former)
        } else {
            None
        },
        retired: None,
    }
}

/// The places after the step of a stage was done. A step that fails leaves them as
/// they are, for each of them is one system call.
pub open spec fn places_after(stage: StageView, places: Places) -> Places {
    match stage {
        StageView::Extracting => Places { staged: Some(Tree::New), ..places },
        StageView::Discarding { .. } => Places { staged: None, ..places },
        StageView::Exchanging => Places { live: places.staged, staged: places.live, ..places },
        StageView::Reverting { .. } => Places { live: places.staged, staged: places.live, ..places },
        StageView::Rotating => Places { retired: places.backup, backup: None, ..places },
        StageView::Keeping => Places { backup: places.staged, staged: None, ..places },
        StageView::FetchingBack { .. } => Places { staged: places.backup, backup: None, ..places },
        StageView::RestoringBackup { .. } => Places {
            backup: places.retired,
            retired: None,
            ..places
        },
        StageView::RemovingRetired => Places { retired: None, ..places },
        StageView::Cleaning => Places { staged: None, ..places },
        _ => places,
    }
}

/// The places that a stage can be reached with.
pub open spec fn fits(stage: StageView, rotates: bool, places: Places) -> bool {
    let former = if rotates {
        Some(Tree::Former)
    } else {
        None
    };
    let untouched = places.live == Some(Tree::Last) && places.backup == former && places.retired
        is None;
    let exchanged = places.live == Some(Tree::New) && places.staged == Some(Tree::Last);
    match stage {
        StageView::CreatingStaging | StageView::Verifying | StageView::CreatingRoot
        | StageView::Extracting | StageView::Discarding { .. } => untouched,
        StageView::SyncingTree | StageView::NamingRetired | StageView::Exchanging => untouched
            && places.staged == Some(Tree::New),
        StageView::SyncingActivation => exchanged && places.backup == former && places.retired
            is None,
        StageView::Rotating => exchanged && places.backup == former && places.retired is None,
        StageView::Keeping => exchanged && places.backup is None && places.retired == former,
        StageView::SyncingRotation => places.live == Some(Tree::New) && places.backup == Some(
            Tree::Last,
        ) && places.retired == former,
        StageView::FetchingBack { .. } => places.live == Some(Tree::New) && places.backup == Some(
            Tree::Last,
        ) && places.retired == former,
        StageView::Reverting { .. } => exchanged,
        StageView::RestoringBackup { activated, .. } => places.live == Some(
            if activated {
                Tree::New
            } else {
                Tree::Last
            },
        ),
        StageView::RemovingRetired | StageView::SyncingEnd | StageView::Cleaning
        | StageView::SyncingCleanup | StageView::Installed => places.live == Some(Tree::New)
            && places.backup == Some(Tree::Last),
        StageView::Failed { activated, .. } => places.live == Some(
            if activated {
                Tree::New
            } else {
                Tree::Last
            },
        ),
    }
}

/// The replacement begins with what is installed.
pub proof fn law_replacement_begins_untouched(rotates: bool)
    ensures
        fits(StageView::CreatingStaging, rotates, first_places(rotates)),
{
}

/// Whatever step fails, the places stay as the stage tells.
pub proof fn law_places_follow_the_stage(
    stage: StageView,
    rotates: bool,
    places: Places,
    failure: Option<Seq<char>>,
)
    requires
        fits(stage, rotates, places),
    ensures
        failure is None ==> fits(
            stage_after(stage, rotates, failure),
            rotates,
            places_after(stage, places),
        ),
        failure is Some ==> fits(stage_after(stage, rotates, failure), rotates, places),
{
}

/// At any time a complete version is where the application is started from.
pub proof fn law_live_version_is_never_missing(stage: StageView, rotates: bool, places: Places)
    requires
        fits(stage, rotates, places),
    ensures
        places.live == Some(Tree::New) || places.live == Some(Tree::Last),
{
}

/// An installed version is live, and exactly the last one is kept beside it. A failure
/// tells which version is live; where undoing did not fail, it is the last one.
pub proof fn law_end_tells_the_live_version(stage: StageView, rotates: bool, places: Places)
    requires
        fits(stage, rotates, places),
    ensures
        stage is Installed ==> places.live == Some(Tree::New) && places.backup == Some(Tree::Last),
        stage matches StageView::Failed { activated, .. } ==> (activated <==> places.live == Some(
            Tree::New,
        )),
{
}

/// How many steps are left at most.
pub open spec fn steps_left(stage: StageView) -> nat {
    match stage {
        StageView::CreatingStaging => 20,
        StageView::Verifying => 19,
        StageView::CreatingRoot => 18,
        StageView::Extracting => 17,
        StageView::Discarding { .. } => 1,
        StageView::SyncingTree => 16,
        StageView::NamingRetired => 15,
        StageView::Exchanging => 14,
        StageView::SyncingActivation => 13,
        StageView::Rotating => 12,
        StageView::Keeping => 11,
        StageView::SyncingRotation => 10,
        StageView::FetchingBack { .. } => 3,
        StageView::Reverting { .. } => 2,
        StageView::RestoringBackup { .. } => 1,
        StageView::RemovingRetired => 5,
        StageView::SyncingEnd => 4,
        StageView::Cleaning => 3,
        StageView::SyncingCleanup => 2,
        StageView::Installed => 0,
        StageView::Failed { .. } => 0,
    }
}

/// The replacement comes to an end, whatever fails.
pub proof fn law_replacement_ends(stage: StageView, rotates: bool, failure: Option<Seq<char>>)
    requires
        !(stage is Installed),
        !(stage is Failed),
    ensures
        steps_left(stage_after(stage, rotates, failure)) < steps_left(stage),
{
}

/// A replacement whose every step goes well runs through its stages in this order and ends
/// with the new version installed; the previous version is put aside only where there is one
/// that was kept before.
pub proof fn law_sound_replacement_is_installed()
    ensures
        forall|rotates: bool|
            #![trigger stage_after(StageView::CreatingStaging, rotates, None)]
            {
                &&& stage_after(StageView::CreatingStaging, rotates, None) is Verifying
                &&& stage_after(StageView::Verifying, rotates, None) is CreatingRoot
                &&& stage_after(StageView::CreatingRoot, rotates, None) is Extracting
                &&& stage_after(StageView::Extracting, rotates, None) is SyncingTree
                &&& stage_after(StageView::NamingRetired, rotates, None) is Exchanging
                &&& stage_after(StageView::Exchanging, rotates, None) is SyncingActivation
                &&& stage_after(StageView::Rotating, rotates, None) is Keeping
                &&& stage_after(StageView::Keeping, rotates, None) is SyncingRotation
                &&& stage_after(StageView::RemovingRetired, rotates, None) is SyncingEnd
                &&& stage_after(StageView::SyncingEnd, rotates, None) is Cleaning
                &&& stage_after(StageView::Cleaning, rotates, None) is SyncingCleanup
                &&& stage_after(StageView::SyncingCleanup, rotates, None) is Installed
            },
        stage_after(StageView::SyncingTree, true, None) is NamingRetired,
        stage_after(StageView::SyncingTree, false, None) is Exchanging,
        stage_after(StageView::SyncingActivation, true, None) is Rotating,
        stage_after(StageView::SyncingActivation, false, None) is Keeping,
        stage_after(StageView::SyncingRotation, true, None) is RemovingRetired,
        stage_after(StageView::SyncingRotation, false, None) is SyncingEnd,
{
}

/// A step that fails before the versions were exchanged leaves the one in use; one that fails
/// after has them exchanged back, and where that works the one that was in use is in use
/// again. What failed is told.
pub proof fn law_failed_replacement_is_taken_back(rotates: bool, error: Seq<char>, other: Seq<char>)
    ensures
        stage_after(StageView::Verifying, rotates, Some(error)) == (StageView::Failed {
            detail: error,
            verification: true,
            activated: false,
        }),
        stage_after(StageView::CreatingStaging, rotates, Some(error)) matches StageView::Failed {
            verification,
            activated,
            ..
        } && !verification && !activated,
        stage_after(StageView::SyncingTree, rotates, Some(error)) matches StageView::Failed {
            verification,
            activated,
            ..
        } && !verification && !activated,
        stage_after(StageView::Exchanging, rotates, Some(error)) matches StageView::Failed {
            verification,
            activated,
            ..
        } && !verification && !activated,
        stage_after(
            stage_after(StageView::Extracting, rotates, Some(error)),
            rotates,
            None,
        ) == (StageView::Failed { detail: error, verification: false, activated: false }),
        stage_after(StageView::SyncingActivation, rotates, Some(error)) is Reverting,
        stage_after(StageView::Rotating, rotates, Some(error)) is Reverting,
        stage_after(StageView::Keeping, rotates, Some(error)) is Reverting,
        stage_after(StageView::SyncingRotation, rotates, Some(error)) is FetchingBack,
        stage_after(
            stage_after(StageView::SyncingRotation, rotates, Some(error)),
            rotates,
            None,
        ) is Reverting,
        forall|cause: RevertCause|
            #![trigger stage_after(StageView::Reverting { cause, detail: error }, rotates, None)]
            {
                let over = stage_after(
                    StageView::Reverting { cause, detail: error },
                    rotates,
                    None,
                );
                ||| (over matches StageView::Failed { activated, .. } && !activated)
                ||| (rotates && (over matches StageView::RestoringBackup { activated, .. }
                    && !activated))
            },
        forall|cause: RevertCause|
            #![trigger stage_after(StageView::Reverting { cause, detail: error }, rotates, Some(other))]
            {
                let over = stage_after(
                    StageView::Reverting { cause, detail: error },
                    rotates,
                    Some(other),
                );
                ||| (over matches StageView::Failed { activated, .. } && activated)
                ||| (rotates && (over matches StageView::RestoringBackup { activated, .. }
                    && activated))
            },
{
}

/// Whether there is a version that was kept before is asked when the new one is complete, and
/// decides how it is put in place.
pub proof fn law_kept_version_is_looked_for(exists: bool)
    ensures
        forall|install: PortableInstall, r: PortableInstall|
            #![trigger call_ensures(PortableInstall::note_previous, (install, exists), r)]
            call_ensures(PortableInstall::note_previous, (install, exists), r) ==> {
                &&& r.stage == install.stage
                &&& install.stage@ is SyncingTree ==> r.rotates == exists
                &&& !(install.stage@ is SyncingTree) ==> r.rotates == install.rotates
            },
{
}

/// A package is at fault only where it was looked at and refused; a failure after the new
/// version was put in place for good leaves it in place.
pub proof fn law_failures_tell_where_they_came(stage: StageView, rotates: bool, error: Seq<char>)
    ensures
        !(stage is Verifying) && !(stage is Failed) ==> (stage_after(stage, rotates, Some(error))
            matches StageView::Failed { verification, .. } ==> !verification),
        stage is SyncingEnd || stage is Cleaning || stage is SyncingCleanup ==> (stage_after(
            stage,
            rotates,
            Some(error),
        ) matches StageView::Failed { activated, .. } && activated),
        stage is RemovingRetired ==> stage_after(stage, rotates, Some(error)) is SyncingEnd,
{
}

}
