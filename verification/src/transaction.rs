//! Changes of a device that survive an interruption: a journal is on disk before
//! the device is written to, and stays there until the device is known to hold
//! either what it held before or what it was given.

use crate::error::{DogiError, ErrorKind};
use crate::error;
use crate::paths;
use crate::plan::{SettingsApplyReport, SettingsTransactionState};
use crate::plan;
use crate::pointer::{DeviceSettingValue, PreparedHidChange};
use crate::pointer;
use crate::settings::Master3sSettings;
use crate::settings;
use crate::text;
use vstd::prelude::*;

verus! {

pub const DEVICE_TRANSACTION_FILE_VERSION: u8 = 2;

/// A change of a device that is ready to be carried out.
#[derive(Debug, PartialEq, Eq)]
pub struct PreparedSettingsTransaction {
    pub device_id: String,
    pub stable_device_key: String,
    pub profile_name: String,
    pub changes: Vec<PreparedHidChange>,
}

/// The mathematical value of [`PreparedSettingsTransaction`].
#[verifier::ext_equal]
pub struct TransactionView {
    pub device_id: Seq<char>,
    pub key: Seq<char>,
    pub profile_name: Seq<char>,
    pub changes: Seq<pointer::ChangeView>,
}

/// The values of a list of changes.
pub open spec fn change_views(changes: Seq<PreparedHidChange>) -> Seq<pointer::ChangeView> {
    Seq::new(changes.len(), |i: int| changes[i]@)
}

impl View for PreparedSettingsTransaction {
    type V = TransactionView;

    open spec fn view(&self) -> TransactionView {
        TransactionView {
            device_id: self.device_id@,
            key: self.stable_device_key@,
            profile_name: self.profile_name@,
            changes: change_views(self.changes@),
        }
    }
}

/// One line of what a change would do.
#[derive(Debug, PartialEq, Eq)]
pub struct SettingsApplyPreviewStep {
    pub title: String,
    pub before: DeviceSettingValue,
    pub after: DeviceSettingValue,
}

/// What a change would do.
#[derive(Debug, PartialEq, Eq)]
pub struct SettingsApplyPreview {
    pub device_id: String,
    pub profile_name: String,
    pub steps: Vec<SettingsApplyPreviewStep>,
}

/// The mathematical value of [`SettingsApplyPreviewStep`].
#[verifier::ext_equal]
pub struct PreviewStepView {
    pub title: Seq<char>,
    pub before: DeviceSettingValue,
    pub after: DeviceSettingValue,
}

/// The mathematical value of [`SettingsApplyPreview`].
#[verifier::ext_equal]
pub struct ApplyPreviewView {
    pub device_id: Seq<char>,
    pub profile_name: Seq<char>,
    pub steps: Seq<PreviewStepView>,
}

impl View for SettingsApplyPreviewStep {
    type V = PreviewStepView;

    open spec fn view(&self) -> PreviewStepView {
        PreviewStepView { title: self.title@, before: self.before, after: self.after }
    }
}

/// The values of a list of lines.
pub open spec fn preview_step_views(steps: Seq<SettingsApplyPreviewStep>) -> Seq<PreviewStepView> {
    Seq::new(steps.len(), |i: int| steps[i]@)
}

impl View for SettingsApplyPreview {
    type V = ApplyPreviewView;

    open spec fn view(&self) -> ApplyPreviewView {
        ApplyPreviewView {
            device_id: self.device_id@,
            profile_name: self.profile_name@,
            steps: preview_step_views(self.steps@),
        }
    }
}

/// What a change would do, line by line.
pub open spec fn preview_of(t: TransactionView) -> ApplyPreviewView {
    ApplyPreviewView {
        device_id: t.device_id,
        profile_name: t.profile_name,
        steps: Seq::new(
            t.changes.len(),
            |i: int|
                PreviewStepView {
                    title: t.changes[i].title,
                    before: t.changes[i].before_value,
                    after: t.changes[i].after_value,
                },
        ),
    }
}

impl PreparedSettingsTransaction {
    /// What the change would do.
    pub fn preview(&self) -> (r: SettingsApplyPreview)
        ensures
            r@ == preview_of(self@),
    {
        let mut steps: Vec<SettingsApplyPreviewStep> = Vec::new();
        let ghost all = preview_of(self@).steps;
        let mut i: usize = 0;
        assert(preview_step_views(steps@) =~= all.take(0));
        while i < self.changes.len()
            invariant
                i <= self.changes@.len(),
                all == preview_of(self@).steps,
                preview_step_views(steps@) == all.take(i as int),
            decreases self.changes@.len() - i,
        {
            let change = &self.changes[i];
            assert(self@.changes[i as int] == change@);
            let ghost before = preview_step_views(steps@);
            steps.push(
                SettingsApplyPreviewStep {
                    title: change.title.clone(),
                    before: change.before_value,
                    after: change.after_value,
                },
            );
            assert(preview_step_views(steps@) =~= before.push(all[i as int]));
            i += 1;
            assert(preview_step_views(steps@) =~= all.take(i as int));
        }
        assert(all.take(all.len() as int) =~= all);
        SettingsApplyPreview {
            device_id: self.device_id.clone(),
            profile_name: self.profile_name.clone(),
            steps,
        }
    }
}

/// How far a change has come.
#[derive(Clone, Copy, Debug, PartialEq, Eq, Structural)]
pub enum DeviceTransactionPhase {
    Prepared,
    DeviceCommitted,
}

/// Who completes an interrupted change.
#[derive(Clone, Copy, Debug, PartialEq, Eq, Structural)]
pub enum RecoveryMode {
    Gui,
    Runtime,
}

/// The journal of a change.
#[derive(Debug, PartialEq, Eq)]
pub struct StoredDeviceTransaction {
    pub version: u8,
    pub phase: DeviceTransactionPhase,
    pub transaction: PreparedSettingsTransaction,
    pub settings_id: Option<String>,
    pub settings: Option<Master3sSettings>,
}

/// The mathematical value of [`StoredDeviceTransaction`].
#[verifier::ext_equal]
pub struct JournalView {
    pub version: u8,
    pub phase: DeviceTransactionPhase,
    pub transaction: TransactionView,
    pub settings_id: Option<Seq<char>>,
    pub settings: Option<settings::SettingsView>,
}

/// The value of optional settings.
pub open spec fn optional_settings(s: Option<Master3sSettings>) -> Option<settings::SettingsView> {
    match s {
        Some(s) => Some(s@),
        None => None,
    }
}

impl View for StoredDeviceTransaction {
    type V = JournalView;

    open spec fn view(&self) -> JournalView {
        JournalView {
            version: self.version,
            phase: self.phase,
            transaction: self.transaction@,
            settings_id: text::optional(self.settings_id),
            settings: optional_settings(self.settings),
        }
    }
}

/// The name of a device as part of the name of a file.
pub open spec fn file_key(key: Seq<char>) -> Seq<char> {
    Seq::new(
        key.len(),
        |i: int|
            if text::is_alphanumeric(key[i]) || key[i] == '-' {
                key[i]
            } else {
                '_'
            },
    )
}

/// Where the journal of a device is, or why there is no place for it.
pub open spec fn journal_path(directory: Option<Seq<char>>, key: Seq<char>) -> Result<
    Seq<char>,
    (ErrorKind, Seq<char>),
> {
    match directory {
        Some(directory) => Ok(paths::joined(directory, file_key(key) + ".json"@)),
        None => Err(
            (
                ErrorKind::Config,
                "device transaction storage is unavailable without an application environment"@,
            ),
        ),
    }
}

/// Where the journal of a device is.
pub fn transaction_path_for(
    directory: &Option<String>,
    transaction: &PreparedSettingsTransaction,
) -> (r: Result<String, DogiError>)
    ensures
        match journal_path(text::optional(*directory), transaction@.key) {
            Ok(path) => r is Ok && r->Ok_0@ == path,
            Err(error) => r is Err && r->Err_0@ == error,
        },
{
    let directory = match directory {
        Some(directory) => directory,
        None => {
            return Err(
                DogiError::Config(
                    "device transaction storage is unavailable without an application environment".to_owned(),
                ),
            );
        },
    };
    let chars = text::chars_of(transaction.stable_device_key.as_str());
    let mut name = String::new();
    let mut i: usize = 0;
    while i < chars.len()
        invariant
            chars@ == transaction@.key,
            i <= chars@.len(),
            name@ == file_key(chars@).take(i as int),
        decreases chars@.len() - i,
    {
        let c = chars[i];
        if text::alphanumeric(c) || c == '-' {
            name.push(c);
        } else {
            name.push('_');
        }
        i += 1;
        assert(name@ =~= file_key(chars@).take(i as int));
    }
    assert(file_key(chars@).take(chars@.len() as int) =~= file_key(chars@));
    name.append(".json");
    Ok(paths::join(directory.as_str(), name.as_str()))
}

/// What a change is carried out for.
#[derive(Clone, Copy, Debug, PartialEq, Eq, Structural)]
pub enum FlowKind {
    /// The device alone is changed.
    Apply,
    /// It is only found out what would be changed.
    Preview,
    /// The device is changed and the settings are saved.
    Commit,
}

/// What a change waits for.
#[derive(Clone, Copy, Debug, PartialEq, Eq, Structural)]
pub enum FlowStage {
    Preparing,
    Locking,
    Recovering,
    PreparingAgain,
    WritingJournal,
    Executing,
    MarkingCommitted,
    Saving,
    WritingBack,
    RollingBack,
    Clearing,
    Finished,
}

/// What comes of a change.
#[derive(Debug)]
pub enum FlowResult {
    Applied(SettingsApplyReport),
    Previewed(SettingsApplyPreview),
    Committed { report: SettingsApplyReport, path: String },
    Failed(DogiError),
}

/// The mathematical value of [`FlowResult`].
#[verifier::ext_equal]
pub enum ResultView {
    Applied(plan::ReportView),
    Previewed(ApplyPreviewView),
    Committed { report: plan::ReportView, path: Seq<char> },
    Failed((ErrorKind, Seq<char>)),
}

impl View for FlowResult {
    type V = ResultView;

    open spec fn view(&self) -> ResultView {
        match self {
            FlowResult::Applied(report) => ResultView::Applied(report@),
            FlowResult::Previewed(preview) => ResultView::Previewed(preview@),
            FlowResult::Committed { report, path } => ResultView::Committed {
                report: report@,
                path: path@,
            },
            FlowResult::Failed(error) => ResultView::Failed(error@),
        }
    }
}

/// The value of an optional result.
pub open spec fn optional_result(r: Option<FlowResult>) -> Option<ResultView> {
    match r {
        Some(r) => Some(r@),
        None => None,
    }
}

/// The value of an optional report.
pub open spec fn optional_report(r: Option<SettingsApplyReport>) -> Option<plan::ReportView> {
    match r {
        Some(r) => Some(r@),
        None => None,
    }
}

/// The value of an optional journal.
pub open spec fn optional_journal(r: Option<StoredDeviceTransaction>) -> Option<JournalView> {
    match r {
        Some(r) => Some(r@),
        None => None,
    }
}

/// A change on its way.
#[derive(Debug)]
pub struct TransactionFlow {
    pub kind: FlowKind,
    pub stage: FlowStage,
    pub transaction_dir: Option<String>,
    pub config_path: Option<String>,
    /// Where the journal is.
    pub path: String,
    pub journal: Option<StoredDeviceTransaction>,
    /// What the device reported.
    pub report: Option<SettingsApplyReport>,
    /// Why the settings could not be saved.
    pub save_error: Option<DogiError>,
    /// What comes of the change, once that is decided.
    pub result: Option<FlowResult>,
    /// What would be changed, for a preview.
    pub prepared: Option<PreparedSettingsTransaction>,
}

/// The mathematical value of [`TransactionFlow`].
#[verifier::ext_equal]
pub struct FlowView {
    pub kind: FlowKind,
    pub stage: FlowStage,
    pub transaction_dir: Option<Seq<char>>,
    pub config_path: Option<Seq<char>>,
    pub path: Seq<char>,
    pub journal: Option<JournalView>,
    pub report: Option<plan::ReportView>,
    pub save_error: Option<(ErrorKind, Seq<char>)>,
    pub result: Option<ResultView>,
    pub prepared: Option<TransactionView>,
}

impl View for TransactionFlow {
    type V = FlowView;

    open spec fn view(&self) -> FlowView {
        FlowView {
            kind: self.kind,
            stage: self.stage,
            transaction_dir: text::optional(self.transaction_dir),
            config_path: text::optional(self.config_path),
            path: self.path@,
            journal: optional_journal(self.journal),
            report: optional_report(self.report),
            save_error: match self.save_error {
                Some(error) => Some(error@),
                None => None,
            },
            result: optional_result(self.result),
            prepared: match self.prepared {
                Some(t) => Some(t@),
                None => None,
            },
        }
    }
}

/// What happened meanwhile: how the step that the change waited for went.
#[derive(Debug)]
pub enum FlowEvent {
    Prepared(PreparedSettingsTransaction),
    Recovered(Option<SettingsApplyReport>),
    Executed(SettingsApplyReport),
    RolledBack(SettingsApplyReport),
    Saved(String),
    /// The lock is held, the journal is written, or it is gone.
    Done,
    Failed(DogiError),
}

/// The mathematical value of [`FlowEvent`].
#[verifier::ext_equal]
pub enum FlowEventView {
    Prepared(TransactionView),
    Recovered(Option<plan::ReportView>),
    Executed(plan::ReportView),
    RolledBack(plan::ReportView),
    Saved(Seq<char>),
    Done,
    Failed((ErrorKind, Seq<char>)),
}

impl View for FlowEvent {
    type V = FlowEventView;

    open spec fn view(&self) -> FlowEventView {
        match self {
            FlowEvent::Prepared(t) => FlowEventView::Prepared(t@),
            FlowEvent::Recovered(report) => FlowEventView::Recovered(optional_report(*report)),
            FlowEvent::Executed(report) => FlowEventView::Executed(report@),
            FlowEvent::RolledBack(report) => FlowEventView::RolledBack(report@),
            FlowEvent::Saved(path) => FlowEventView::Saved(path@),
            FlowEvent::Done => FlowEventView::Done,
            FlowEvent::Failed(error) => FlowEventView::Failed(error@),
        }
    }
}

/// Whether an event is an answer to what a change waits for.
pub open spec fn answers(stage: FlowStage, event: FlowEventView) -> bool {
    match event {
        FlowEventView::Failed(_) => stage != FlowStage::Finished,
        FlowEventView::Prepared(_) => stage == FlowStage::Preparing || stage
            == FlowStage::PreparingAgain,
        FlowEventView::Recovered(_) => stage == FlowStage::Recovering,
        FlowEventView::Executed(_) => stage == FlowStage::Executing,
        FlowEventView::RolledBack(_) => stage == FlowStage::RollingBack,
        FlowEventView::Saved(_) => stage == FlowStage::Saving,
        FlowEventView::Done => stage == FlowStage::Locking || stage == FlowStage::WritingJournal
            || stage == FlowStage::MarkingCommitted || stage == FlowStage::WritingBack || stage
            == FlowStage::Clearing,
    }
}

/// The change is over.
pub open spec fn finished(f: FlowView, result: ResultView) -> FlowView {
    FlowView { stage: FlowStage::Finished, result: Some(result), ..f }
}

/// The change is over once the journal is gone.
pub open spec fn cleared(f: FlowView, result: ResultView) -> FlowView {
    FlowView { stage: FlowStage::Clearing, result: Some(result), ..f }
}

/// What is said where the device is not the one that it was.
pub open spec fn identity_changed(kind: FlowKind) -> (ErrorKind, Seq<char>) {
    (
        ErrorKind::Protocol,
        if kind == FlowKind::Preview {
            "device identity changed while preparing the settings preview"@
        } else {
            "device identity changed while preparing the settings transaction"@
        },
    )
}

/// What is said where an earlier change is still not completed.
pub open spec fn recovery_pending(path: Seq<char>) -> (ErrorKind, Seq<char>) {
    (
        ErrorKind::Config,
        "the previous settings transaction for this device still needs recovery ("@ + path + ")"@,
    )
}

/// What is said where the application has no place for the settings.
pub open spec fn no_settings_path() -> (ErrorKind, Seq<char>) {
    (
        ErrorKind::Config,
        "device settings are unavailable without an application environment"@,
    )
}

/// The journal of a change that has just been prepared, without settings.
pub open spec fn fresh_journal(t: TransactionView) -> JournalView {
    JournalView {
        version: DEVICE_TRANSACTION_FILE_VERSION,
        phase: DeviceTransactionPhase::Prepared,
        transaction: t,
        settings_id: None,
        settings: None,
    }
}

/// A journal in another phase.
pub open spec fn in_phase(journal: Option<JournalView>, phase: DeviceTransactionPhase) -> Option<
    JournalView,
> {
    match journal {
        Some(journal) => Some(JournalView { phase, ..journal }),
        None => None,
    }
}

/// Whether the device may hold neither what it held nor what it was given.
pub open spec fn undecided(report: plan::ReportView) -> bool {
    report.transaction == SettingsTransactionState::RecoveryRequired
}

/// The change after the device reported: the journal goes unless it is needed.
pub open spec fn settled(
    f: FlowView,
    report: plan::ReportView,
    result: ResultView,
) -> FlowView {
    if undecided(report) {
        finished(f, result)
    } else {
        cleared(f, result)
    }
}

/// The change after the device was prepared.
pub open spec fn after_prepared(f: FlowView, t: TransactionView) -> FlowView {
    match journal_path(f.transaction_dir, t.key) {
        Err(error) => finished(f, ResultView::Failed(error)),
        Ok(path) => if f.stage == FlowStage::Preparing {
            FlowView { stage: FlowStage::Locking, path, ..f }
        } else if path != f.path {
            finished(f, ResultView::Failed(identity_changed(f.kind)))
        } else if f.kind == FlowKind::Preview {
            finished(
                FlowView { prepared: Some(t), ..f },
                ResultView::Previewed(preview_of(t)),
            )
        } else {
            FlowView {
                stage: FlowStage::WritingJournal,
                journal: Some(fresh_journal(t)),
                ..f
            }
        },
    }
}

/// The change after an earlier one was completed.
pub open spec fn after_recovered(f: FlowView, report: Option<plan::ReportView>) -> FlowView {
    if report matches Some(report) && undecided(report) {
        finished(f, ResultView::Failed(recovery_pending(f.path)))
    } else if f.kind == FlowKind::Commit {
        FlowView { stage: FlowStage::WritingJournal, ..f }
    } else {
        FlowView { stage: FlowStage::PreparingAgain, ..f }
    }
}

/// The change after it was carried out.
pub open spec fn after_executed(f: FlowView, report: plan::ReportView) -> FlowView {
    if f.kind == FlowKind::Commit {
        if report.transaction == SettingsTransactionState::Committed {
            FlowView {
                stage: FlowStage::MarkingCommitted,
                journal: in_phase(f.journal, DeviceTransactionPhase::DeviceCommitted),
                report: Some(report),
                ..f
            }
        } else {
            settled(
                f,
                report,
                match f.config_path {
                    Some(path) => ResultView::Committed { report, path },
                    None => ResultView::Failed(no_settings_path()),
                },
            )
        }
    } else {
        settled(f, report, ResultView::Applied(report))
    }
}

/// What is said where the settings could not be saved, and the device was taken
/// back.
pub open spec fn save_failure(
    save_error: Option<(ErrorKind, Seq<char>)>,
    recovery: plan::ReportView,
) -> (ErrorKind, Seq<char>) {
    (
        ErrorKind::Config,
        "settings were not saved; device rollback was "@ + (if recovery.transaction
            == SettingsTransactionState::RolledBack {
            "verified"@
        } else {
            "incomplete"@
        }) + ": "@ + (match save_error {
            Some(error) => error::message_of(error),
            None => Seq::empty(),
        }),
    )
}

/// The change after the settings were saved.
pub open spec fn after_saved(f: FlowView, path: Seq<char>) -> FlowView {
    match f.report {
        Some(report) => FlowView {
            report: None,
            ..cleared(f, ResultView::Committed { report, path })
        },
        None => f,
    }
}

/// The change after a step went wrong. Where the device refused the change, the
/// journal goes; where the settings could not be saved, the device is taken back;
/// any other failure ends the change at once.
pub open spec fn after_failure(f: FlowView, error: (ErrorKind, Seq<char>)) -> FlowView {
    match f.stage {
        FlowStage::Executing => cleared(f, ResultView::Failed(error)),
        FlowStage::Saving => FlowView {
            stage: FlowStage::WritingBack,
            journal: in_phase(f.journal, DeviceTransactionPhase::Prepared),
            save_error: Some(error),
            ..f
        },
        _ => finished(f, ResultView::Failed(error)),
    }
}

/// The change after a step went well that tells nothing more.
pub open spec fn after_done(f: FlowView) -> FlowView {
    FlowView {
        stage: match f.stage {
            FlowStage::Locking => FlowStage::Recovering,
            FlowStage::WritingJournal => FlowStage::Executing,
            FlowStage::MarkingCommitted => FlowStage::Saving,
            FlowStage::WritingBack => FlowStage::RollingBack,
            _ => FlowStage::Finished,
        },
        ..f
    }
}

/// The change after an event.
pub open spec fn flow_after(f: FlowView, event: FlowEventView) -> FlowView {
    match event {
        FlowEventView::Prepared(t) => after_prepared(f, t),
        FlowEventView::Recovered(report) => after_recovered(f, report),
        FlowEventView::Executed(report) => after_executed(f, report),
        FlowEventView::RolledBack(report) => settled(
            f,
            report,
            ResultView::Failed(save_failure(f.save_error, report)),
        ),
        FlowEventView::Saved(path) => after_saved(f, path),
        FlowEventView::Done => after_done(f),
        FlowEventView::Failed(error) => after_failure(f, error),
    }
}

/// What is known of a change at its stage: what it needs there is there.
pub open spec fn flow_ok(f: FlowView) -> bool {
    &&& f.stage == FlowStage::Finished || f.stage == FlowStage::Clearing ==> f.result is Some
    &&& on_disk(f.stage) || f.stage == FlowStage::WritingJournal ==> f.journal is Some
    &&& f.kind == FlowKind::Commit && before_writing(f.stage) ==> f.journal is Some
    &&& f.stage == FlowStage::MarkingCommitted || f.stage == FlowStage::Saving ==> f.report is Some
    &&& f.kind == FlowKind::Preview ==> f.stage == FlowStage::Finished || before_writing(f.stage)
    &&& f.stage == FlowStage::MarkingCommitted || f.stage == FlowStage::Saving || f.stage
        == FlowStage::WritingBack || f.stage == FlowStage::RollingBack ==> f.kind
        == FlowKind::Commit
}

/// Whether the journal of the change is on disk while a stage is waited for.
pub open spec fn on_disk(stage: FlowStage) -> bool {
    stage == FlowStage::Executing || stage == FlowStage::MarkingCommitted || stage
        == FlowStage::Saving || stage == FlowStage::WritingBack || stage == FlowStage::RollingBack
        || stage == FlowStage::Clearing
}

/// Whether a stage comes before the journal is written.
pub open spec fn before_writing(stage: FlowStage) -> bool {
    stage == FlowStage::Preparing || stage == FlowStage::Locking || stage
        == FlowStage::Recovering || stage == FlowStage::PreparingAgain
}

/// Every event that answers what a change waits for leaves it in order.
pub proof fn law_flow_stays_in_order(f: FlowView, event: FlowEventView)
    requires
        flow_ok(f),
        answers(f.stage, event),
    ensures
        flow_ok(flow_after(f, event)),
{
}

/// The device is written to only where the journal is on disk: the stage before is
/// the one in which it was written.
pub proof fn law_no_write_without_a_journal(f: FlowView, event: FlowEventView)
    requires
        flow_ok(f),
        answers(f.stage, event),
        flow_after(f, event).stage == FlowStage::Executing,
    ensures
        f.stage == FlowStage::WritingJournal,
        event == FlowEventView::Done,
        f.journal is Some,
        flow_after(f, event).journal == f.journal,
{
}

/// The journal is removed only where the device is known to hold what it held
/// before or what it was given: never after a report that leaves that open.
pub proof fn law_journal_is_kept_while_undecided(f: FlowView, event: FlowEventView)
    requires
        flow_ok(f),
        answers(f.stage, event),
        (event matches FlowEventView::Executed(report) && undecided(report)) || (
        event matches FlowEventView::RolledBack(report) && undecided(report)),
    ensures
        flow_after(f, event).stage == FlowStage::Finished,
{
}

/// Before the settings are saved, the journal says that the device holds them, and
/// before the device is taken back, the journal says that it has to be.
pub proof fn law_journal_tells_what_is_to_be_done(f: FlowView, event: FlowEventView)
    requires
        flow_ok(f),
        answers(f.stage, event),
    ensures
        f.stage != FlowStage::MarkingCommitted && flow_after(f, event).stage
            == FlowStage::MarkingCommitted ==> flow_after(f, event).journal->Some_0.phase
            == DeviceTransactionPhase::DeviceCommitted,
        f.stage != FlowStage::WritingBack && flow_after(f, event).stage == FlowStage::WritingBack
            ==> flow_after(f, event).journal->Some_0.phase == DeviceTransactionPhase::Prepared,
        flow_after(f, event).stage == FlowStage::Saving ==> f.stage
            == FlowStage::MarkingCommitted && flow_after(f, event).journal == f.journal,
        flow_after(f, event).stage == FlowStage::RollingBack ==> f.stage == FlowStage::WritingBack
            && flow_after(f, event).journal == f.journal,
{
}

/// Only a committed change of the device is saved.
pub proof fn law_only_committed_settings_are_saved(f: FlowView, event: FlowEventView)
    requires
        flow_ok(f),
        answers(f.stage, event),
        flow_after(f, event).stage == FlowStage::MarkingCommitted,
    ensures
        event matches FlowEventView::Executed(report) && report.transaction
            == SettingsTransactionState::Committed,
        f.kind == FlowKind::Commit,
{
}

impl TransactionFlow {
    /// Begins a change of a device, or a preview of one.
    pub fn begin(kind: FlowKind, transaction_dir: &Option<String>, config_path: &Option<String>) -> (r:
        Self)
        requires
            kind != FlowKind::Commit,
        ensures
            flow_ok(r@),
            r@ == (FlowView {
                kind,
                stage: FlowStage::Preparing,
                transaction_dir: text::optional(*transaction_dir),
                config_path: text::optional(*config_path),
                path: Seq::empty(),
                journal: None,
                report: None,
                save_error: None,
                result: None,
                prepared: None,
            }),
    {
        TransactionFlow {
            kind,
            stage: FlowStage::Preparing,
            transaction_dir: text::copy_optional(transaction_dir),
            config_path: text::copy_optional(config_path),
            path: String::new(),
            journal: None,
            report: None,
            save_error: None,
            result: None,
            prepared: None,
        }
    }

    /// Begins a change of a device that was prepared before, and the saving of its
    /// settings.
    pub fn begin_commit(
        transaction_dir: &Option<String>,
        config_path: &Option<String>,
        journal: StoredDeviceTransaction,
    ) -> (r: Self)
        ensures
            flow_ok(r@),
            r@ == after_prepared(
                FlowView {
                    kind: FlowKind::Commit,
                    stage: FlowStage::Preparing,
                    transaction_dir: text::optional(*transaction_dir),
                    config_path: text::optional(*config_path),
                    path: Seq::empty(),
                    journal: Some(journal@),
                    report: None,
                    save_error: None,
                    result: None,
                    prepared: None,
                },
                journal@.transaction,
            ),
    {
        let path = transaction_path_for(transaction_dir, &journal.transaction);
        let mut flow = TransactionFlow {
            kind: FlowKind::Commit,
            stage: FlowStage::Preparing,
            transaction_dir: text::copy_optional(transaction_dir),
            config_path: text::copy_optional(config_path),
            path: String::new(),
            journal: Some(journal),
            report: None,
            save_error: None,
            result: None,
            prepared: None,
        };
        match path {
            Ok(path) => {
                flow.stage = FlowStage::Locking;
                flow.path = path;
            },
            Err(error) => {
                flow.finish(FlowResult::Failed(error));
            },
        }
        flow
    }

    fn finish(&mut self, result: FlowResult)
        ensures
            final(self)@ == finished(old(self)@, result@),
    {
        self.stage = FlowStage::Finished;
        self.result = Some(result);
    }

    fn clear(&mut self, result: FlowResult)
        ensures
            final(self)@ == cleared(old(self)@, result@),
    {
        self.stage = FlowStage::Clearing;
        self.result = Some(result);
    }

    fn settle(&mut self, decided: bool, result: FlowResult)
        ensures
            final(self)@ == (if decided {
                cleared(old(self)@, result@)
            } else {
                finished(old(self)@, result@)
            }),
    {
        if decided {
            self.clear(result);
        } else {
            self.finish(result);
        }
    }

    fn mark(&mut self, phase: DeviceTransactionPhase)
        ensures
            final(self)@ == (FlowView { journal: in_phase(old(self)@.journal, phase), ..old(self)@ }),
    {
        let journal = self.journal.take();
        self.journal = match journal {
            Some(mut journal) => {
                journal.phase = phase;
                Some(journal)
            },
            None => None,
        };
    }

    fn prepared(&mut self, transaction: PreparedSettingsTransaction)
        ensures
            final(self)@ == after_prepared(old(self)@, transaction@),
    {
        let path = match transaction_path_for(&self.transaction_dir, &transaction) {
            Ok(path) => path,
            Err(error) => {
                self.finish(FlowResult::Failed(error));
                return;
            },
        };
        if self.stage == FlowStage::Preparing {
            self.stage = FlowStage::Locking;
            self.path = path;
            return;
        }
        if !text::same_text(path.as_str(), self.path.as_str()) {
            let detail = if self.kind == FlowKind::Preview {
                "device identity changed while preparing the settings preview"
            } else {
                "device identity changed while preparing the settings transaction"
            };
            self.finish(FlowResult::Failed(DogiError::Protocol(detail.to_owned())));
            return;
        }
        if self.kind == FlowKind::Preview {
            let preview = transaction.preview();
            self.prepared = Some(transaction);
            self.finish(FlowResult::Previewed(preview));
            return;
        }
        self.journal = Some(
            StoredDeviceTransaction {
                version: DEVICE_TRANSACTION_FILE_VERSION,
                phase: DeviceTransactionPhase::Prepared,
                transaction,
                settings_id: None,
                settings: None,
            },
        );
        self.stage = FlowStage::WritingJournal;
    }

    fn recovered(&mut self, report: Option<SettingsApplyReport>)
        ensures
            final(self)@ == after_recovered(old(self)@, optional_report(report)),
    {
        let pending = match &report {
            Some(report) => report.transaction == SettingsTransactionState::RecoveryRequired,
            None => false,
        };
        if pending {
            let detail = text::concat3(
                "the previous settings transaction for this device still needs recovery (",
                self.path.as_str(),
                ")",
            );
            self.finish(FlowResult::Failed(DogiError::Config(detail)));
        } else if self.kind == FlowKind::Commit {
            self.stage = FlowStage::WritingJournal;
        } else {
            self.stage = FlowStage::PreparingAgain;
        }
    }

    fn executed(&mut self, report: SettingsApplyReport)
        ensures
            final(self)@ == after_executed(old(self)@, report@),
    {
        let decided = report.transaction != SettingsTransactionState::RecoveryRequired;
        if self.kind != FlowKind::Commit {
            self.settle(decided, FlowResult::Applied(report));
        } else if report.committed() {
            self.mark(DeviceTransactionPhase::DeviceCommitted);
            self.report = Some(report);
            self.stage = FlowStage::MarkingCommitted;
        } else {
            let result = match &self.config_path {
                Some(path) => FlowResult::Committed { report, path: path.clone() },
                None => FlowResult::Failed(
                    DogiError::Config(
                        "device settings are unavailable without an application environment".to_owned(),
                    ),
                ),
            };
            self.settle(decided, result);
        }
    }

    fn rolled_back(&mut self, report: SettingsApplyReport)
        ensures
            final(self)@ == settled(
                old(self)@,
                report@,
                ResultView::Failed(save_failure(old(self)@.save_error, report@)),
            ),
    {
        let verified = report.transaction == SettingsTransactionState::RolledBack;
        let mut detail = text::concat3(
            "settings were not saved; device rollback was ",
            if verified {
                "verified"
            } else {
                "incomplete"
            },
            ": ",
        );
        if let Some(error) = &self.save_error {
            detail.append(error.message().as_str());
        }
        assert(detail@ =~= save_failure(self@.save_error, report@).1);
        let decided = report.transaction != SettingsTransactionState::RecoveryRequired;
        self.settle(decided, FlowResult::Failed(DogiError::Config(detail)));
    }

    fn failed(&mut self, error: DogiError)
        ensures
            final(self)@ == after_failure(old(self)@, error@),
    {
        match self.stage {
            FlowStage::Executing => self.clear(FlowResult::Failed(error)),
            FlowStage::Saving => {
                self.mark(DeviceTransactionPhase::Prepared);
                self.save_error = Some(error);
                self.stage = FlowStage::WritingBack;
            },
            _ => self.finish(FlowResult::Failed(error)),
        }
    }

    /// Takes in how the step went that the change waited for. The stage then tells
    /// the next step.
    pub fn advance(&mut self, event: FlowEvent)
        requires
            flow_ok(old(self)@),
            answers(old(self)@.stage, event@),
        ensures
            flow_ok(final(self)@),
            final(self)@ == flow_after(old(self)@, event@),
    {
        match event {
            FlowEvent::Prepared(transaction) => self.prepared(transaction),
            FlowEvent::Recovered(report) => self.recovered(report),
            FlowEvent::Executed(report) => self.executed(report),
            FlowEvent::RolledBack(report) => self.rolled_back(report),
            FlowEvent::Saved(path) => {
                let report = self.report.take();
                if let Some(report) = report {
                    self.clear(FlowResult::Committed { report, path });
                }
            },
            FlowEvent::Done => {
                self.stage = match self.stage {
                    FlowStage::Locking => FlowStage::Recovering,
                    FlowStage::WritingJournal => FlowStage::Executing,
                    FlowStage::MarkingCommitted => FlowStage::Saving,
                    FlowStage::WritingBack => FlowStage::RollingBack,
                    _ => FlowStage::Finished,
                };
            },
            FlowEvent::Failed(error) => self.failed(error),
        }
    }
}

/// What reading a journal gave.
#[derive(Debug)]
pub enum JournalSource {
    Missing,
    Unreadable(String),
    Invalid,
    Journal(StoredDeviceTransaction),
}

/// What is done with an interrupted change.
#[derive(Debug)]
pub enum RecoveryStep {
    /// Nothing.
    Nothing,
    /// The journal is kept elsewhere under a label and ignored; the notice about
    /// it begins so.
    Preserve { label: &'static str, notice: &'static str },
    /// The device is taken back to what it held.
    RollBack(PreparedSettingsTransaction),
    /// What the device holds is saved.
    RollForward { settings_id: String, settings: Master3sSettings },
    /// It cannot be completed.
    Fail(DogiError),
}

/// The mathematical value of [`RecoveryStep`].
#[verifier::ext_equal]
pub enum RecoveryStepView {
    Nothing,
    Preserve { label: Seq<char>, notice: Seq<char> },
    RollBack(TransactionView),
    RollForward { settings_id: Seq<char>, settings: settings::SettingsView },
    Fail((ErrorKind, Seq<char>)),
}

impl View for RecoveryStep {
    type V = RecoveryStepView;

    open spec fn view(&self) -> RecoveryStepView {
        match self {
            RecoveryStep::Nothing => RecoveryStepView::Nothing,
            RecoveryStep::Preserve { label, notice } => RecoveryStepView::Preserve {
                label: label@,
                notice: notice@,
            },
            RecoveryStep::RollBack(t) => RecoveryStepView::RollBack(t@),
            RecoveryStep::RollForward { settings_id, settings } => RecoveryStepView::RollForward {
                settings_id: settings_id@,
                settings: settings@,
            },
            RecoveryStep::Fail(error) => RecoveryStepView::Fail(error@),
        }
    }
}

/// What is done with an interrupted change. A device that holds what it was given
/// keeps it where the settings can be saved, and in any other case the device is
/// taken back.
pub open spec fn recovery_of(path: Seq<char>, source: JournalSource, mode: RecoveryMode) -> RecoveryStepView {
    match source {
        JournalSource::Missing => RecoveryStepView::Nothing,
        JournalSource::Unreadable(detail) => RecoveryStepView::Fail(
            (ErrorKind::Config, "failed to read "@ + path + ": "@ + detail@),
        ),
        JournalSource::Invalid => RecoveryStepView::Preserve {
            label: "invalid-transaction"@,
            notice: "An invalid device transaction was preserved at "@,
        },
        JournalSource::Journal(journal) => if journal.version != DEVICE_TRANSACTION_FILE_VERSION {
            RecoveryStepView::Preserve {
                label: "unsupported-transaction"@,
                notice: "An unsupported device transaction was preserved at "@,
            }
        } else if journal.phase == DeviceTransactionPhase::Prepared || mode
            == RecoveryMode::Runtime {
            RecoveryStepView::RollBack(journal.transaction@)
        } else {
            match (text::optional(journal.settings_id), optional_settings(journal.settings)) {
                (None, _) => RecoveryStepView::Fail(
                    (
                        ErrorKind::Config,
                        "committed device transaction has no settings identifier"@,
                    ),
                ),
                (_, None) => RecoveryStepView::Fail(
                    (ErrorKind::Config, "committed device transaction has no settings payload"@),
                ),
                (Some(settings_id), Some(settings)) => RecoveryStepView::RollForward {
                    settings_id,
                    settings,
                },
            }
        },
    }
}

/// What is done with an interrupted change.
pub fn recovery_step(path: &str, source: JournalSource, mode: RecoveryMode) -> (r: RecoveryStep)
    ensures
        r@ == recovery_of(path@, source, mode),
{
    let journal = match source {
        JournalSource::Missing => {
            return RecoveryStep::Nothing;
        },
        JournalSource::Unreadable(detail) => {
            let mut message = text::concat3("failed to read ", path, ": ");
            message.append(detail.as_str());
            return RecoveryStep::Fail(DogiError::Config(message));
        },
        JournalSource::Invalid => {
            return RecoveryStep::Preserve {
                label: "invalid-transaction",
                notice: "An invalid device transaction was preserved at ",
            };
        },
        JournalSource::Journal(journal) => journal,
    };
    if journal.version != DEVICE_TRANSACTION_FILE_VERSION {
        return RecoveryStep::Preserve {
            label: "unsupported-transaction",
            notice: "An unsupported device transaction was preserved at ",
        };
    }
    if journal.phase == DeviceTransactionPhase::Prepared || mode == RecoveryMode::Runtime {
        return RecoveryStep::RollBack(journal.transaction);
    }
    match journal.settings_id {
        None => RecoveryStep::Fail(
            DogiError::Config(
                "committed device transaction has no settings identifier".to_owned(),
            ),
        ),
        Some(settings_id) => match journal.settings {
            None => RecoveryStep::Fail(
                DogiError::Config(
                    "committed device transaction has no settings payload".to_owned(),
                ),
            ),
            Some(settings) => RecoveryStep::RollForward { settings_id, settings },
        },
    }
}

/// A change that the device was known to hold when it was interrupted is completed
/// with the settings of its journal.
pub proof fn law_committed_change_rolls_forward(
    path: Seq<char>,
    journal: StoredDeviceTransaction,
    settings_id: Seq<char>,
    s: settings::SettingsView,
)
    requires
        journal@.version == DEVICE_TRANSACTION_FILE_VERSION,
        journal@.phase == DeviceTransactionPhase::DeviceCommitted,
        journal@.settings_id == Some(settings_id),
        journal@.settings == Some(s),
    ensures
        recovery_of(path, JournalSource::Journal(journal), RecoveryMode::Gui)
            == (RecoveryStepView::RollForward { settings_id, settings: s }),
{
}

/// Whether the journal of a change stays where it is after the device was taken back.
pub fn keeps_journal(report: &SettingsApplyReport) -> (r: bool)
    ensures
        r == undecided(report@),
{
    report.transaction == SettingsTransactionState::RecoveryRequired
}

/// Whether the journal of a change stays where it is, once what is done with the change
/// was carried out. `report` tells what came of taking the device back.
pub open spec fn journal_stays(step: RecoveryStepView, report: plan::ReportView) -> bool {
    match step {
        RecoveryStepView::RollBack(_) => undecided(report),
        RecoveryStepView::Fail(_) => true,
        _ => false,
    }
}

/// The runtime takes the device back whatever the journal says of it, and saves no
/// settings. The journal then stays exactly where the device still has to be recovered.
pub proof fn law_runtime_recovery_only_rolls_back(
    path: Seq<char>,
    journal: StoredDeviceTransaction,
    report: plan::ReportView,
)
    requires
        journal@.version == DEVICE_TRANSACTION_FILE_VERSION,
    ensures
        ({
            let step = recovery_of(path, JournalSource::Journal(journal), RecoveryMode::Runtime);
            &&& step == RecoveryStepView::RollBack(journal@.transaction)
            &&& journal_stays(step, report) <==> report.transaction
                == SettingsTransactionState::RecoveryRequired
        }),
{
}

/// A change that the device was not known to hold is taken back by whoever recovers it,
/// and its journal stays exactly where the device still has to be recovered.
pub proof fn law_prepared_change_rolls_back(
    path: Seq<char>,
    journal: StoredDeviceTransaction,
    mode: RecoveryMode,
    report: plan::ReportView,
)
    requires
        journal@.version == DEVICE_TRANSACTION_FILE_VERSION,
        journal@.phase == DeviceTransactionPhase::Prepared,
    ensures
        ({
            let step = recovery_of(path, JournalSource::Journal(journal), mode);
            &&& step == RecoveryStepView::RollBack(journal@.transaction)
            &&& journal_stays(step, report) <==> report.transaction
                == SettingsTransactionState::RecoveryRequired
        }),
{
}

/// What came of the recovery of one device.
#[derive(Debug)]
pub struct RecoveryOutcome {
    pub path: String,
    pub result: Result<Option<SettingsApplyReport>, DogiError>,
}

/// The failures among the first `n` outcomes.
pub open spec fn recovery_failures(outcomes: Seq<RecoveryOutcome>, n: nat) -> Seq<Seq<char>>
    decreases n,
{
    if n == 0 || n > outcomes.len() {
        Seq::empty()
    } else {
        let before = recovery_failures(outcomes, (n - 1) as nat);
        match outcomes[n - 1].result {
            Err(error) => before.push(
                outcomes[n - 1].path@ + ": "@ + error::message_of(error@),
            ),
            Ok(_) => before,
        }
    }
}

/// The first report among the first `n` outcomes.
pub open spec fn first_report(outcomes: Seq<RecoveryOutcome>, n: nat) -> Option<plan::ReportView>
    decreases n,
{
    if n == 0 || n > outcomes.len() {
        None
    } else {
        match first_report(outcomes, (n - 1) as nat) {
            Some(report) => Some(report),
            None => match outcomes[n - 1].result {
                Ok(report) => optional_report(report),
                Err(_) => None,
            },
        }
    }
}

/// What came of the recovery of all devices: the first report, unless something
/// failed. A failure of one device does not keep the others from being recovered.
pub fn summarize_recoveries(outcomes: Vec<RecoveryOutcome>) -> (r: Result<
    Option<SettingsApplyReport>,
    DogiError,
>)
    ensures
        ({
            let failures = recovery_failures(outcomes@, outcomes@.len());
            if failures.len() == 0 {
                r is Ok && optional_report(r->Ok_0) == first_report(outcomes@, outcomes@.len())
            } else {
                r is Err && r->Err_0@ == (
                    ErrorKind::Config,
                    "some device transactions could not be recovered; other devices were still processed: "@
                        + text::joined(failures, "; "@),
                )
            }
        }),
{
    let ghost all = outcomes@;
    let mut rest = outcomes;
    let mut failures: Vec<String> = Vec::new();
    let mut first: Option<SettingsApplyReport> = None;
    let mut i: usize = 0;
    let n: usize = rest.len();
    assert(text::texts(failures@) =~= recovery_failures(all, 0));
    assert(rest@ =~= all.skip(0));
    while i < n
        invariant
            n == all.len(),
            i <= n,
            rest@ == all.skip(i as int),
            text::texts(failures@) == recovery_failures(all, i as nat),
            optional_report(first) == first_report(all, i as nat),
        decreases n - i,
    {
        let outcome = rest.remove(0);
        assert(outcome == all[i as int]);
        match outcome.result {
            Ok(report) => {
                if first.is_none() {
                    first = report;
                }
            },
            Err(error) => {
                failures.push(
                    text::concat3(outcome.path.as_str(), ": ", error.message().as_str()),
                );
            },
        }
        i += 1;
        assert(rest@ =~= all.skip(i as int));
        assert(text::texts(failures@) =~= recovery_failures(all, i as nat));
    }
    if failures.len() == 0 {
        return Ok(first);
    }
    Err(
        DogiError::Config(
            text::concat2(
                "some device transactions could not be recovered; other devices were still processed: ",
                text::join(&failures, "; ").as_str(),
            ),
        ),
    )
}

/// A change that meets no failure is carried out: the device is prepared, locked, recovered
/// and prepared again, the journal is written before the device is, and in the end the
/// journal goes and the report of the device is the result.
pub proof fn law_apply_is_carried_out(
    f: FlowView,
    t: TransactionView,
    again: TransactionView,
    report: plan::ReportView,
)
    requires
        f.kind == FlowKind::Apply,
        f.stage == FlowStage::Preparing,
        f.transaction_dir is Some,
        again.key == t.key,
        report.transaction != SettingsTransactionState::RecoveryRequired,
    ensures
        ({
            let locked = flow_after(flow_after(f, FlowEventView::Prepared(t)), FlowEventView::Done);
            let ready = flow_after(locked, FlowEventView::Recovered(None));
            let journaled = flow_after(ready, FlowEventView::Prepared(again));
            let writing = flow_after(journaled, FlowEventView::Done);
            let written = flow_after(writing, FlowEventView::Executed(report));
            let over = flow_after(written, FlowEventView::Done);
            &&& locked.stage == FlowStage::Recovering
            &&& ready.stage == FlowStage::PreparingAgain
            &&& journaled.stage == FlowStage::WritingJournal
            &&& journaled.journal is Some && journaled.journal->0.transaction == again
            &&& journaled.journal->0.version == 2
            &&& journaled.journal->0.phase == DeviceTransactionPhase::Prepared
            &&& writing.stage == FlowStage::Executing
            &&& written.stage == FlowStage::Clearing
            &&& over.stage == FlowStage::Finished
            &&& over.result == Some(ResultView::Applied(report))
        }),
{
}

/// A preview that meets no failure changes nothing and shows each change as it was
/// prepared, with what the device holds and what it would hold.
pub proof fn law_preview_shows_the_prepared_changes(
    f: FlowView,
    t: TransactionView,
    again: TransactionView,
    i: int,
)
    requires
        f.kind == FlowKind::Preview,
        f.stage == FlowStage::Preparing,
        f.transaction_dir is Some,
        again.key == t.key,
    ensures
        ({
            let locked = flow_after(flow_after(f, FlowEventView::Prepared(t)), FlowEventView::Done);
            let ready = flow_after(locked, FlowEventView::Recovered(None));
            let over = flow_after(ready, FlowEventView::Prepared(again));
            let shown = over.result->0->Previewed_0;
            &&& over.stage == FlowStage::Finished
            &&& over.prepared == Some(again)
            &&& over.result is Some && over.result->0 is Previewed
            &&& shown.device_id == again.device_id && shown.profile_name == again.profile_name
            &&& shown.steps.len() == again.changes.len()
            &&& 0 <= i < again.changes.len() ==> shown.steps[i] == (PreviewStepView {
                title: again.changes[i].title,
                before: again.changes[i].before_value,
                after: again.changes[i].after_value,
            })
        }),
{
}

/// A reviewed change that meets no failure is committed: once the device has it, the
/// journal says so, the settings are saved, the journal goes, and the report and the place
/// of the settings are the result.
pub proof fn law_commit_is_carried_out(f: FlowView, report: plan::ReportView, path: Seq<char>)
    requires
        flow_ok(f),
        f.kind == FlowKind::Commit,
        f.stage == FlowStage::WritingJournal,
        report.transaction == SettingsTransactionState::Committed,
    ensures
        ({
            let writing = flow_after(f, FlowEventView::Done);
            let marking = flow_after(writing, FlowEventView::Executed(report));
            let saving = flow_after(marking, FlowEventView::Done);
            let clearing = flow_after(saving, FlowEventView::Saved(path));
            let over = flow_after(clearing, FlowEventView::Done);
            &&& writing.stage == FlowStage::Executing
            &&& marking.stage == FlowStage::MarkingCommitted
            &&& marking.journal is Some && marking.journal->0.phase
                == DeviceTransactionPhase::DeviceCommitted
            &&& marking.journal->0.transaction == f.journal->0.transaction
            &&& marking.journal->0.settings == f.journal->0.settings
            &&& marking.journal->0.settings_id == f.journal->0.settings_id
            &&& saving.stage == FlowStage::Saving
            &&& clearing.stage == FlowStage::Clearing
            &&& over.stage == FlowStage::Finished
            &&& over.result == Some(ResultView::Committed { report, path })
        }),
{
}

/// Where the settings cannot be saved that the device took, the journal is set back and
/// the device is taken back, and the failure says whether that worked.
pub proof fn law_unsaved_settings_are_taken_back(
    f: FlowView,
    error: (ErrorKind, Seq<char>),
    recovery: plan::ReportView,
)
    requires
        flow_ok(f),
        f.kind == FlowKind::Commit,
        f.stage == FlowStage::Saving,
    ensures
        ({
            let back = flow_after(f, FlowEventView::Failed(error));
            let rolling = flow_after(back, FlowEventView::Done);
            let end = flow_after(rolling, FlowEventView::RolledBack(recovery));
            let words = end.result->0->Failed_0;
            &&& back.stage == FlowStage::WritingBack
            &&& back.journal is Some && back.journal->0.phase == DeviceTransactionPhase::Prepared
            &&& rolling.stage == FlowStage::RollingBack
            &&& end.result is Some && end.result->0 is Failed
            &&& words == (
                ErrorKind::Config,
                "settings were not saved; device rollback was "@ + (if recovery.transaction
                    == SettingsTransactionState::RolledBack {
                    "verified"@
                } else {
                    "incomplete"@
                }) + ": "@ + error::message_of(error),
            )
            &&& end.stage == (if recovery.transaction
                == SettingsTransactionState::RecoveryRequired {
                FlowStage::Finished
            } else {
                FlowStage::Clearing
            })
        }),
{
}

/// A change of another device than the one that was locked is not carried out, nor one of
/// a device whose last change still has to be recovered.
pub proof fn law_changes_of_the_wrong_device_are_refused(
    f: FlowView,
    t: TransactionView,
    report: plan::ReportView,
)
    ensures
        f.stage == FlowStage::PreparingAgain && (f.transaction_dir matches Some(d)
            && paths::joined(d, file_key(t.key) + ".json"@) != f.path) ==> {
            let end = flow_after(f, FlowEventView::Prepared(t));
            end.stage == FlowStage::Finished && end.result is Some && end.result->0 is Failed
        },
        f.stage == FlowStage::Recovering && report.transaction
            == SettingsTransactionState::RecoveryRequired ==> {
            let end = flow_after(f, FlowEventView::Recovered(Some(report)));
            end.stage == FlowStage::Finished && end.result is Some && end.result->0 is Failed
        },
{
}

/// What is found instead of a journal of this version is not acted on: nothing where there
/// is none, a failure where it cannot be read, and otherwise it is kept elsewhere.
pub proof fn law_only_sound_journals_are_acted_on(
    path: Seq<char>,
    source: JournalSource,
    mode: RecoveryMode,
)
    ensures
        ({
            let step = recovery_of(path, source, mode);
            &&& source is Missing ==> step is Nothing
            &&& source is Unreadable ==> step is Fail
            &&& source is Invalid ==> step is Preserve
            &&& source matches JournalSource::Journal(journal) ==> (journal.version != 2
                <==> step is Preserve)
        }),
{
}

/// The journal of a device lies in the directory of the journals, under a name that is made
/// of the key of the device and holds nothing but letters, digits, `-` and `_`.
pub proof fn law_journal_names_are_plain(directory: Seq<char>, key: Seq<char>, i: int)
    requires
        0 <= i < key.len(),
    ensures
        journal_path(Some(directory), key) == Ok::<Seq<char>, (ErrorKind, Seq<char>)>(
            paths::joined(directory, file_key(key) + ".json"@),
        ),
        file_key(key).len() == key.len(),
        'a' <= key[i] <= 'z' || 'A' <= key[i] <= 'Z' || '0' <= key[i] <= '9' || key[i] == '-'
            ==> file_key(key)[i] == key[i],
        !('a' <= key[i] <= 'z' || 'A' <= key[i] <= 'Z' || '0' <= key[i] <= '9' || key[i] == '-')
            ==> file_key(key)[i] == '_',
        journal_path(None, key) is Err,
{
}

/// A journal stays as long as the device may still have to be recovered: where taking it
/// back did not come to an end, and where the recovery failed.
pub proof fn law_journals_of_unrecovered_devices_stay(
    t: TransactionView,
    report: plan::ReportView,
    error: (ErrorKind, Seq<char>),
)
    ensures
        journal_stays(RecoveryStepView::RollBack(t), report) <==> report.transaction
            == SettingsTransactionState::RecoveryRequired,
        journal_stays(RecoveryStepView::Fail(error), report),
        !journal_stays(RecoveryStepView::Nothing, report),
{
}

/// Every change that could not be recovered is told, with its place and why; where all could
/// be, the first report is.
pub proof fn law_failed_recoveries_are_told(outcomes: Seq<RecoveryOutcome>, o: RecoveryOutcome)
    ensures
        recovery_failures(Seq::empty(), 0).len() == 0,
        o.result is Ok ==> recovery_failures(outcomes.push(o), outcomes.len() + 1)
            == recovery_failures(outcomes, outcomes.len()),
        o.result matches Err(e) ==> recovery_failures(outcomes.push(o), outcomes.len() + 1)
            == recovery_failures(outcomes, outcomes.len()).push(
            o.path@ + ": "@ + error::message_of(e@),
        ),
        first_report(outcomes, outcomes.len()) is Some ==> first_report(
            outcomes.push(o),
            outcomes.len() + 1,
        ) == first_report(outcomes, outcomes.len()),
        first_report(outcomes, outcomes.len()) is None && (o.result matches Ok(Some(report)))
            ==> first_report(outcomes.push(o), outcomes.len() + 1) == Some(o.result->Ok_0->0@),
        forall|all: Vec<RecoveryOutcome>, r: Result<Option<SettingsApplyReport>, DogiError>|
            #![trigger call_ensures(summarize_recoveries, (all,), r)]
            call_ensures(summarize_recoveries, (all,), r) ==> (r is Ok <==> recovery_failures(
                all@,
                all@.len(),
            ).len() == 0),
{
    lemma_recoveries_are_local(outcomes, outcomes.push(o), outcomes.len());
}

proof fn lemma_recoveries_are_local(a: Seq<RecoveryOutcome>, b: Seq<RecoveryOutcome>, n: nat)
    requires
        n <= a.len() && n <= b.len(),
        forall|i: int| 0 <= i < n ==> a[i] == #[trigger] b[i],
    ensures
        recovery_failures(a, n) == recovery_failures(b, n),
        first_report(a, n) == first_report(b, n),
    decreases n,
{
    if n > 0 {
        lemma_recoveries_are_local(a, b, (n - 1) as nat);
        assert(a[n - 1] == b[n - 1]);
    }
}

/// A journal of this version is acted on as far as it got: where the settings window recovers
/// it, a change that the device took is carried on; any other is taken back.
pub proof fn law_journals_are_acted_on(path: Seq<char>, journal: StoredDeviceTransaction)
    requires
        journal.version == 2,
    ensures
        recovery_of(path, JournalSource::Journal(journal), RecoveryMode::Runtime)
            == RecoveryStepView::RollBack(journal.transaction@),
        journal.phase is Prepared ==> recovery_of(
            path,
            JournalSource::Journal(journal),
            RecoveryMode::Gui,
        ) == RecoveryStepView::RollBack(journal.transaction@),
        journal.phase is DeviceCommitted && journal.settings_id is Some && journal.settings is Some
            ==> recovery_of(path, JournalSource::Journal(journal), RecoveryMode::Gui) == (
        RecoveryStepView::RollForward {
            settings_id: journal.settings_id->0@,
            settings: journal.settings->0@,
        }),
        journal.phase is DeviceCommitted && (journal.settings_id is None || journal.settings
            is None) ==> recovery_of(path, JournalSource::Journal(journal), RecoveryMode::Gui)
            is Fail,
{
}

/// A flow begins by preparing, with nothing done yet.
pub proof fn law_flows_begin_by_preparing(
    kind: FlowKind,
    directory: &Option<String>,
    config: &Option<String>,
)
    ensures
        forall|f: TransactionFlow|
            #![trigger call_ensures(TransactionFlow::begin, (kind, directory, config), f)]
            call_ensures(TransactionFlow::begin, (kind, directory, config), f) ==> f@.stage
                is Preparing && f@.kind == kind && f@.journal is None && f@.result is None
                && f@.transaction_dir == text::optional(*directory) && f@.config_path
                == text::optional(*config),
        forall|f: &mut TransactionFlow, event: FlowEvent, r: ()|
            #![trigger call_ensures(TransactionFlow::advance, (f, event), r)]
            call_ensures(TransactionFlow::advance, (f, event), r) ==> final(f)@ == flow_after(
                (*f)@,
                event@,
            ),
{
}

}
