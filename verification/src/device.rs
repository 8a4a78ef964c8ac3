//! The service that the interfaces of the application use to deal with devices and
//! their settings. What it decides stands here; the caller carries it out and hands
//! in what came of it.

use crate::device_info::{DeviceInfo, LOGITECH_VENDOR_ID};
use crate::error::{DogiError, ErrorKind};
use crate::paths;
use crate::plan::SettingsApplyPlan;
use crate::plan;
use crate::runtime_plan::LocalRuntimePlan;
use crate::runtime_plan;
use crate::settings::Master3sSettings;
use crate::settings;
use crate::store::{StoreStep, StoredMaster3sSettings};
use crate::store;
use crate::text;
use crate::transaction::{DeviceTransactionPhase, FlowKind, FlowStage, JournalSource, PreparedSettingsTransaction, RecoveryMode, RecoveryStep, SettingsApplyPreview, StoredDeviceTransaction, TransactionFlow, DEVICE_TRANSACTION_FILE_VERSION};
use crate::transaction;
use vstd::prelude::*;

verus! {

/// A change that the user has looked at and not yet confirmed.
#[derive(Debug)]
pub struct PendingSettingsTransaction {
    pub device_id: String,
    pub settings: Master3sSettings,
    pub plan: SettingsApplyPlan,
    pub transaction: PreparedSettingsTransaction,
}

/// The mathematical value of [`PendingSettingsTransaction`].
#[verifier::ext_equal]
pub struct PendingView {
    pub device_id: Seq<char>,
    pub settings: settings::SettingsView,
    pub plan: plan::PlanView,
    pub transaction: transaction::TransactionView,
}

impl View for PendingSettingsTransaction {
    type V = PendingView;

    open spec fn view(&self) -> PendingView {
        PendingView {
            device_id: self.device_id@,
            settings: self.settings@,
            plan: self.plan@,
            transaction: self.transaction@,
        }
    }
}

/// The service.
#[derive(Debug)]
pub struct DeviceService {
    pub config_path: Option<String>,
    pub transaction_dir: Option<String>,
    pub legacy_transaction_path: Option<String>,
    pub pending: Option<PendingSettingsTransaction>,
    pub recovery_notice: Option<String>,
}

/// The mathematical value of [`DeviceService`].
#[verifier::ext_equal]
pub struct ServiceView {
    pub config_path: Option<Seq<char>>,
    pub transaction_dir: Option<Seq<char>>,
    pub legacy_transaction_path: Option<Seq<char>>,
    pub pending: Option<PendingView>,
    pub recovery_notice: Option<Seq<char>>,
}

/// The value of an optional change.
pub open spec fn optional_pending(p: Option<PendingSettingsTransaction>) -> Option<PendingView> {
    match p {
        Some(p) => Some(p@),
        None => None,
    }
}

impl View for DeviceService {
    type V = ServiceView;

    open spec fn view(&self) -> ServiceView {
        ServiceView {
            config_path: text::optional(self.config_path),
            transaction_dir: text::optional(self.transaction_dir),
            legacy_transaction_path: text::optional(self.legacy_transaction_path),
            pending: optional_pending(self.pending),
            recovery_notice: text::optional(self.recovery_notice),
        }
    }
}

/// Those of the first `n` devices that Logitech made.
pub open spec fn made_by_logitech(found: Seq<DeviceInfo>, n: nat) -> Seq<DeviceInfo>
    decreases n,
{
    if n == 0 || n > found.len() {
        Seq::empty()
    } else {
        let before = made_by_logitech(found, (n - 1) as nat);
        if found[n - 1].vendor_id == LOGITECH_VENDOR_ID {
            before.push(found[n - 1])
        } else {
            before
        }
    }
}

/// The place of the first device of an identity at or after `i`, or the number of
/// devices.
pub open spec fn device_index(found: Seq<DeviceInfo>, id: Seq<char>, i: int) -> int
    decreases found.len() - i,
{
    if 0 <= i < found.len() && found[i].id@ != id {
        device_index(found, id, i + 1)
    } else {
        i
    }
}

/// Why a change cannot be confirmed, if it cannot: it has to be the one that was
/// looked at.
pub open spec fn commit_fault(
    pending: Option<PendingView>,
    device_id: Seq<char>,
    settings_id: Seq<char>,
    s: settings::SettingsView,
    p: plan::PlanView,
) -> Option<Seq<char>> {
    if text::trimmed(settings_id).len() == 0 {
        Some("settings id cannot be empty when committing device settings"@)
    } else {
        match pending {
            None => Some("settings must be prepared and reviewed before commit"@),
            Some(pending) => if pending.device_id != device_id || pending.settings
                != settings::normal_settings(s) || pending.plan != p {
                Some("settings changed after the apply preview was prepared"@)
            } else {
                None
            },
        }
    }
}

/// The journal of a change that is confirmed.
pub open spec fn commit_journal(
    pending: PendingView,
    settings_id: Seq<char>,
    s: settings::SettingsView,
) -> transaction::JournalView {
    transaction::JournalView {
        version: DEVICE_TRANSACTION_FILE_VERSION,
        phase: DeviceTransactionPhase::Prepared,
        transaction: pending.transaction,
        settings_id: Some(text::trimmed(settings_id)),
        settings: Some(settings::normal_settings(s)),
    }
}

/// A change as it begins.
pub open spec fn begun(s: ServiceView, kind: FlowKind) -> transaction::FlowView {
    transaction::FlowView {
        kind,
        stage: FlowStage::Preparing,
        transaction_dir: s.transaction_dir,
        config_path: s.config_path,
        path: Seq::empty(),
        journal: None,
        report: None,
        save_error: None,
        result: None,
        prepared: None,
    }
}

/// What is said where settings were replaced.
pub open spec fn replacement_notice(reason: Seq<char>, backup: Option<Seq<char>>) -> Seq<char> {
    "Device settings were restored to defaults because "@ + reason + "."@ + (match backup {
        Some(backup) => " The original was preserved at "@ + backup + "."@,
        None => Seq::empty(),
    })
}

impl DeviceService {
    /// A service without a place for settings.
    pub fn new() -> (r: Self)
        ensures
            r@ == (ServiceView {
                config_path: None,
                transaction_dir: None,
                legacy_transaction_path: None,
                pending: None,
                recovery_notice: None,
            }),
    {
        DeviceService {
            config_path: None,
            transaction_dir: None,
            legacy_transaction_path: None,
            pending: None,
            recovery_notice: None,
        }
    }

    /// A service that keeps settings at a path, and journals beside it.
    pub fn with_config_path(path: &str) -> (r: Self)
        ensures
            r@ == (ServiceView {
                config_path: Some(path@),
                transaction_dir: Some(paths::with_extension_spec(path@, "transactions"@)),
                legacy_transaction_path: None,
                pending: None,
                recovery_notice: None,
            }),
    {
        DeviceService {
            config_path: Some(path.to_owned()),
            transaction_dir: Some(paths::with_extension(path, "transactions")),
            legacy_transaction_path: None,
            pending: None,
            recovery_notice: None,
        }
    }

    /// A service that keeps settings and journals at the places of the application.
    pub fn for_paths(config_path: &str, transaction_dir: &str, legacy_transaction_path: &str) -> (r:
        Self)
        ensures
            r@ == (ServiceView {
                config_path: Some(config_path@),
                transaction_dir: Some(transaction_dir@),
                legacy_transaction_path: Some(legacy_transaction_path@),
                pending: None,
                recovery_notice: None,
            }),
    {
        DeviceService {
            config_path: Some(config_path.to_owned()),
            transaction_dir: Some(transaction_dir.to_owned()),
            legacy_transaction_path: Some(legacy_transaction_path.to_owned()),
            pending: None,
            recovery_notice: None,
        }
    }

    /// Those of the devices that were found that Logitech made.
    pub fn scan_devices(&self, found: Vec<DeviceInfo>) -> (r: Vec<DeviceInfo>)
        ensures
            r@ == made_by_logitech(found@, found@.len()),
    {
        let ghost all = found@;
        let mut rest = found;
        let n: usize = rest.len();
        let mut r: Vec<DeviceInfo> = Vec::new();
        let mut i: usize = 0;
        assert(rest@ =~= all.skip(0));
        while i < n
            invariant
                n == all.len(),
                i <= n,
                rest@ == all.skip(i as int),
                r@ == made_by_logitech(all, i as nat),
            decreases n - i,
        {
            let device = rest.remove(0);
            assert(device == all[i as int]);
            if device.is_logitech() {
                r.push(device);
            }
            i += 1;
            assert(rest@ =~= all.skip(i as int));
        }
        r
    }

    /// The device of an identity, among those that were found.
    pub fn find_device<'a>(&self, found: &'a Vec<DeviceInfo>, id: &str) -> (r: Result<
        &'a DeviceInfo,
        DogiError,
    >)
        ensures
            ({
                let at = device_index(found@, id@, 0);
                if at < found@.len() {
                    r is Ok && *r->Ok_0 == found@[at]
                } else {
                    r is Err && r->Err_0@.0 == ErrorKind::DeviceNotFound
                }
            }),
    {
        let mut i: usize = 0;
        while i < found.len()
            invariant
                i <= found@.len(),
                device_index(found@, id@, 0) == device_index(found@, id@, i as int),
            decreases found@.len() - i,
        {
            if text::same_text(found[i].id.as_str(), id) {
                return Ok(&found[i]);
            }
            i += 1;
        }
        Err(DogiError::DeviceNotFound)
    }

    /// The plan that gives a device all settings.
    pub fn plan_master3s_settings(&self, device_id: &str, s: &Master3sSettings) -> (r:
        SettingsApplyPlan)
        ensures
            r@ == plan::full_plan(device_id@, settings::normal_settings(s@)),
    {
        plan::build_master3s_apply_plan(device_id, &s.normalized())
    }

    /// What the local runtime has to do for settings.
    pub fn plan_master3s_runtime(&self, s: &Master3sSettings) -> (r: LocalRuntimePlan)
        ensures
            r@ == runtime_plan::runtime_plan_of(settings::normal_settings(s@)),
    {
        runtime_plan::build_master3s_runtime_plan(&s.normalized())
    }

    /// Begins to give a device all settings: the settings, the plan and the change.
    pub fn apply_master3s_settings(&self, device_id: &str, s: &Master3sSettings) -> (r: (
        Master3sSettings,
        SettingsApplyPlan,
        TransactionFlow,
    ))
        ensures
            r.0@ == settings::normal_settings(s@),
            r.1@ == plan::full_plan(device_id@, settings::normal_settings(s@)),
            r.2@ == begun(self@, FlowKind::Apply),
            transaction::flow_ok(r.2@),
    {
        let normal = s.normalized();
        proof {
            settings::law_normal_form_is_stable(s@);
        }
        let plan = self.plan_master3s_settings(device_id, &normal);
        let (normal, flow) = self.apply_master3s_settings_plan(&normal);
        (normal, plan, flow)
    }

    /// Begins to give a device some settings: the settings and the change.
    pub fn apply_master3s_settings_plan(&self, s: &Master3sSettings) -> (r: (
        Master3sSettings,
        TransactionFlow,
    ))
        ensures
            r.0@ == settings::normal_settings(s@),
            r.1@ == begun(self@, FlowKind::Apply),
            transaction::flow_ok(r.1@),
    {
        (
            s.normalized(),
            TransactionFlow::begin(FlowKind::Apply, &self.transaction_dir, &self.config_path),
        )
    }

    /// Begins to find out what settings would change on a device.
    pub fn prepare_master3s_settings_transaction(&self, s: &Master3sSettings) -> (r: (
        Master3sSettings,
        TransactionFlow,
    ))
        ensures
            r.0@ == settings::normal_settings(s@),
            r.1@ == begun(self@, FlowKind::Preview),
            transaction::flow_ok(r.1@),
    {
        (
            s.normalized(),
            TransactionFlow::begin(FlowKind::Preview, &self.transaction_dir, &self.config_path),
        )
    }

    /// Keeps what was found out until the user confirms it.
    pub fn keep_prepared(
        &mut self,
        device_id: &str,
        s: Master3sSettings,
        plan: SettingsApplyPlan,
        transaction: PreparedSettingsTransaction,
    ) -> (r: SettingsApplyPreview)
        ensures
            r@ == transaction::preview_of(transaction@),
            final(self)@ == (ServiceView {
                pending: Some(
                    PendingView {
                        device_id: device_id@,
                        settings: s@,
                        plan: plan@,
                        transaction: transaction@,
                    },
                ),
                ..old(self)@
            }),
    {
        let preview = transaction.preview();
        self.pending = Some(
            PendingSettingsTransaction {
                device_id: device_id.to_owned(),
                settings: s,
                plan,
                transaction,
            },
        );
        preview
    }

    /// Begins to carry out what the user confirmed, if it is what they looked at.
    /// What they looked at is forgotten either way.
    pub fn commit_prepared_master3s_settings(
        &mut self,
        device_id: &str,
        settings_id: &str,
        s: &Master3sSettings,
        plan: &SettingsApplyPlan,
    ) -> (r: Result<TransactionFlow, DogiError>)
        ensures
            match commit_fault(old(self)@.pending, device_id@, settings_id@, s@, plan@) {
                Some(detail) => r is Err && r->Err_0@ == (ErrorKind::InvalidArgument, detail),
                None => {
                    let journal = commit_journal(old(self)@.pending->Some_0, settings_id@, s@);
                    &&& r matches Ok(flow) && transaction::flow_ok(flow@) && flow@
                        == transaction::after_prepared(
                        transaction::FlowView {
                            journal: Some(journal),
                            ..begun(old(self)@, FlowKind::Commit)
                        },
                        journal.transaction,
                    )
                },
            },
            final(self)@ == (ServiceView {
                pending: if text::trimmed(settings_id@).len() == 0 {
                    old(self)@.pending
                } else {
                    None
                },
                ..old(self)@
            }),
    {
        let id = text::trim(settings_id);
        if id.as_str().is_empty() {
            return Err(
                DogiError::InvalidArgument(
                    "settings id cannot be empty when committing device settings".to_owned(),
                ),
            );
        }
        let normal = s.normalized();
        let pending = match self.pending.take() {
            Some(pending) => pending,
            None => {
                return Err(
                    DogiError::InvalidArgument(
                        "settings must be prepared and reviewed before commit".to_owned(),
                    ),
                );
            },
        };
        if !text::same_text(pending.device_id.as_str(), device_id) || !settings::same_settings(
            &pending.settings,
            &normal,
        ) || !plan::same_plan(&pending.plan, plan) {
            return Err(
                DogiError::InvalidArgument(
                    "settings changed after the apply preview was prepared".to_owned(),
                ),
            );
        }
        let journal = StoredDeviceTransaction {
            version: DEVICE_TRANSACTION_FILE_VERSION,
            phase: DeviceTransactionPhase::Prepared,
            transaction: pending.transaction,
            settings_id: Some(id),
            settings: Some(normal),
        };
        Ok(TransactionFlow::begin_commit(&self.transaction_dir, &self.config_path, journal))
    }

    /// What the interface does with an interrupted change.
    pub fn recover_interrupted_settings_transaction(&self, path: &str, source: JournalSource) -> (r:
        RecoveryStep)
        ensures
            r@ == transaction::recovery_of(path@, source, RecoveryMode::Gui),
    {
        transaction::recovery_step(path, source, RecoveryMode::Gui)
    }

    /// What the runtime does with an interrupted change.
    pub fn recover_interrupted_runtime_transaction(&self, path: &str, source: JournalSource) -> (r:
        RecoveryStep)
        ensures
            r@ == transaction::recovery_of(path@, source, RecoveryMode::Runtime),
    {
        transaction::recovery_step(path, source, RecoveryMode::Runtime)
    }

    /// Where the settings are kept.
    pub fn master3s_settings_path(&self) -> (r: Result<String, DogiError>)
        ensures
            match self@.config_path {
                Some(path) => r is Ok && r->Ok_0@ == path,
                None => r is Err && r->Err_0@ == transaction::no_settings_path(),
            },
    {
        match &self.config_path {
            Some(path) => Ok(path.clone()),
            None => Err(
                DogiError::Config(
                    "device settings are unavailable without an application environment".to_owned(),
                ),
            ),
        }
    }

    /// The settings of all devices that have none of their own.
    pub fn load_master3s_settings(&self, saved: &StoredMaster3sSettings) -> (r: Master3sSettings)
        requires
            saved.wf(),
        ensures
            r@ == saved@.default,
    {
        saved.default.clone()
    }

    /// The settings of a device.
    pub fn load_master3s_settings_for_device(
        &self,
        saved: &StoredMaster3sSettings,
        device_id: &str,
    ) -> (r: Master3sSettings)
        requires
            saved.wf(),
        ensures
            r@ == store::settings_for(saved@, device_id@),
    {
        saved.settings_for_device(device_id)
    }

    /// What is to be written, and where, to save the settings of all devices.
    pub fn save_master3s_settings(&self, saved: StoredMaster3sSettings, s: &Master3sSettings) -> (r:
        Result<(StoredMaster3sSettings, String), DogiError>)
        requires
            saved.wf(),
        ensures
            match self@.config_path {
                Some(path) => r matches Ok((next, at)) && next.wf() && next@
                    == store::default_saved(saved@, s@) && at@ == path,
                None => r is Err && r->Err_0@ == transaction::no_settings_path(),
            },
    {
        match self.master3s_settings_path() {
            Ok(path) => Ok((saved.with_default(s), path)),
            Err(error) => Err(error),
        }
    }

    /// What is to be written, and where, to save the settings of a device.
    pub fn save_master3s_settings_for_device(
        &self,
        saved: StoredMaster3sSettings,
        device_id: &str,
        s: &Master3sSettings,
    ) -> (r: Result<(StoredMaster3sSettings, String), DogiError>)
        requires
            saved.wf(),
        ensures
            if text::trimmed(device_id@).len() == 0 {
                r is Err && r->Err_0@ == (
                    ErrorKind::InvalidArgument,
                    "device id cannot be empty when saving device settings"@,
                )
            } else {
                match self@.config_path {
                    Some(path) => r matches Ok((next, at)) && next.wf() && next@
                        == store::device_saved(saved@, device_id@, s@) && at@ == path,
                    None => r is Err && r->Err_0@ == transaction::no_settings_path(),
                }
            },
    {
        if text::blank(device_id) {
            return Err(
                DogiError::InvalidArgument(
                    "device id cannot be empty when saving device settings".to_owned(),
                ),
            );
        }
        match self.master3s_settings_path() {
            Ok(path) => Ok((saved.with_device(device_id, s), path)),
            Err(error) => Err(error),
        }
    }

    /// What is to be written, and where, to go back to the default settings.
    pub fn reset_master3s_settings(&self, saved: StoredMaster3sSettings) -> (r: Result<
        (StoredMaster3sSettings, String),
        DogiError,
    >)
        requires
            saved.wf(),
        ensures
            match self@.config_path {
                Some(path) => r matches Ok((next, at)) && next.wf() && next@
                    == store::default_saved(saved@, settings::default_settings()) && at@ == path,
                None => r is Err && r->Err_0@ == transaction::no_settings_path(),
            },
    {
        self.save_master3s_settings(saved, &Master3sSettings::default())
    }

    /// Notes that settings which could not be used were replaced.
    pub fn record_replacement(&mut self, reason: &str, backup: &Option<String>)
        ensures
            final(self)@ == (ServiceView {
                recovery_notice: Some(replacement_notice(reason@, text::optional(*backup))),
                ..old(self)@
            }),
    {
        let mut notice = text::concat3(
            "Device settings were restored to defaults because ",
            reason,
            ".",
        );
        if let Some(backup) = backup {
            notice.append(" The original was preserved at ");
            notice.append(backup.as_str());
            notice.append(".");
        }
        assert(notice@ =~= replacement_notice(reason@, text::optional(*backup)));
        self.recovery_notice = Some(notice);
    }

    /// Notes that a journal was set aside: where it is now, or else where it was.
    pub fn record_preserved_transaction(&mut self, notice: &str, backup: &Option<String>, path: &str)
        ensures
            final(self)@ == (ServiceView {
                recovery_notice: Some(
                    notice@ + (match text::optional(*backup) {
                        Some(backup) => backup,
                        None => path@,
                    }) + " and ignored."@,
                ),
                ..old(self)@
            }),
    {
        let place: &str = match backup {
            Some(backup) => backup.as_str(),
            None => path,
        };
        self.recovery_notice = Some(text::concat3(notice, place, " and ignored."));
    }

    /// Notes that a journal of an earlier form was set aside.
    pub fn record_legacy_transaction(&mut self, backup: &str)
        ensures
            final(self)@ == (ServiceView {
                recovery_notice: Some(
                    "A legacy device transaction without a safe device fingerprint was preserved at "@
                        + backup@ + " and was not replayed."@,
                ),
                ..old(self)@
            }),
    {
        self.recovery_notice = Some(
            text::concat3(
                "A legacy device transaction without a safe device fingerprint was preserved at ",
                backup,
                " and was not replayed.",
            ),
        );
    }

    /// The settings that are in use once what was read of them was dealt with. Where they
    /// were replaced, `backup` is the place of what was set aside, and the user is told.
    pub fn conclude_reading(&mut self, step: StoreStep, backup: &Option<String>) -> (r: Result<
        StoredMaster3sSettings,
        DogiError,
    >)
        requires
            step.wf(),
        ensures
            match step@ {
                store::StoreStepView::Use(store) => {
                    &&& r matches Ok(s) && s.wf() && s@ == store
                    &&& final(self)@ == old(self)@
                },
                store::StoreStepView::Replace { label, reason, store } => {
                    &&& r matches Ok(s) && s.wf() && s@ == store
                    &&& final(self)@ == (ServiceView {
                        recovery_notice: Some(replacement_notice(reason, text::optional(*backup))),
                        ..old(self)@
                    })
                },
                store::StoreStepView::Fail(error) => {
                    &&& r is Err && r->Err_0@ == error
                    &&& final(self)@ == old(self)@
                },
            },
    {
        match step {
            StoreStep::Use(store) => Ok(store),
            StoreStep::Replace { reason, store, .. } => {
                self.record_replacement(reason.as_str(), backup);
                Ok(store)
            },
            StoreStep::Fail(error) => Err(error),
        }
    }

    /// What the user has not been told yet.
    pub fn take_recovery_notice(&mut self) -> (r: Option<String>)
        ensures
            text::optional(r) == old(self)@.recovery_notice,
            final(self)@ == (ServiceView { recovery_notice: None, ..old(self)@ }),
    {
        self.recovery_notice.take()
    }
}

/// A change is carried out only if it is the one that the user looked at last, and
/// only once.
pub proof fn law_commit_needs_the_reviewed_change(
    pending: Option<PendingView>,
    device_id: Seq<char>,
    settings_id: Seq<char>,
    s: settings::SettingsView,
    p: plan::PlanView,
)
    ensures
        commit_fault(pending, device_id, settings_id, s, p) is None ==> (pending matches Some(
            reviewed,
        ) && reviewed.device_id == device_id && reviewed.settings == settings::normal_settings(s)
            && reviewed.plan == p),
        commit_fault(None, device_id, settings_id, s, p) is Some,
{
}

/// The journals among the files of a directory, the first `n` of them.
pub open spec fn journals_among(files: Seq<Seq<char>>, n: nat) -> Seq<Seq<char>>
    decreases n,
{
    if n == 0 || n > files.len() {
        Seq::empty()
    } else {
        let before = journals_among(files, (n - 1) as nat);
        if paths::extension_of(files[n - 1]) == Some("json"@) {
            before.push(files[n - 1])
        } else {
            before
        }
    }
}

/// Whether texts are in order.
pub open spec fn in_order(list: Seq<Seq<char>>) -> bool {
    forall|i: int, j: int|
        0 <= i < j < list.len() ==> !text::precedes(#[trigger] list[j], #[trigger] list[i])
}

fn position(sorted: &Vec<String>, file: &str) -> (r: usize)
    requires
        in_order(text::texts(sorted@)),
    ensures
        r <= sorted@.len(),
        forall|i: int| 0 <= i < r ==> !text::precedes(file@, #[trigger] sorted@[i]@),
        forall|i: int| r <= i < sorted@.len() ==> text::precedes(file@, #[trigger] sorted@[i]@),
{
    let mut at: usize = 0;
    while at < sorted.len() && !text::comes_before(file, sorted[at].as_str())
        invariant
            at <= sorted@.len(),
            forall|i: int| 0 <= i < at ==> !text::precedes(file@, #[trigger] sorted@[i]@),
        decreases sorted@.len() - at,
    {
        at += 1;
    }
    proof {
        let list = text::texts(sorted@);
        assert forall|i: int| at <= i < sorted@.len() implies text::precedes(
            file@,
            #[trigger] sorted@[i]@,
        ) by {
            if at < i {
                assert(!text::precedes(list[i], list[at as int]));
                text::lemma_precedes_total(list[at as int], list[i]);
                if list[at as int] != list[i] {
                    text::lemma_precedes_transitive(file@, list[at as int], list[i]);
                }
            }
        }
    }
    at
}

/// The journals among the files of a directory, in order.
pub fn journal_paths(files: &Vec<String>) -> (r: Vec<String>)
    ensures
        in_order(text::texts(r@)),
        text::texts(r@).to_multiset() == journals_among(
            text::texts(files@),
            files@.len(),
        ).to_multiset(),
{
    let ghost all = text::texts(files@);
    let mut sorted: Vec<String> = Vec::new();
    let mut i: usize = 0;
    assert(text::texts(sorted@) =~= Seq::<Seq<char>>::empty());
    while i < files.len()
        invariant
            all == text::texts(files@),
            i <= files@.len(),
            in_order(text::texts(sorted@)),
            text::texts(sorted@).to_multiset() == journals_among(all, i as nat).to_multiset(),
        decreases files@.len() - i,
    {
        let file = &files[i];
        let journal = match paths::extension(file.as_str()) {
            Some(extension) => text::same_text(extension.as_str(), "json"),
            None => false,
        };
        if journal {
            let at = position(&sorted, file.as_str());
            let ghost before = text::texts(sorted@);
            sorted.insert(at, file.clone());
            proof {
                let after = text::texts(sorted@);
                assert(after =~= before.insert(at as int, file@));
                broadcast use vstd::seq_lib::group_to_multiset_ensures;

                assert(after.to_multiset() =~= before.to_multiset().insert(file@));
                assert(journals_among(all, (i + 1) as nat) == journals_among(all, i as nat).push(
                    file@,
                ));
                assert forall|a: int, b: int| 0 <= a < b < after.len() implies !text::precedes(
                    #[trigger] after[b],
                    #[trigger] after[a],
                ) by {
                    let x = if a < at { a } else { a - 1 };
                    let y = if b < at { b } else { b - 1 };
                    if a == at {
                        assert(after[b] == before[y]);
                        text::lemma_precedes_total(file@, before[y]);
                    } else if b == at {
                        assert(after[a] == before[a]);
                    } else {
                        assert(after[a] == before[x]);
                        assert(after[b] == before[y]);
                        assert(!text::precedes(before[y], before[x]));
                    }
                }
            }
        }
        i += 1;
    }
    sorted
}

/// Of the devices that are found, those of the vendor 0x046d are shown, in their order.
pub proof fn law_logitech_devices_are_shown(found: Seq<DeviceInfo>, i: int)
    ensures
        0 <= i < found.len() && found[i].vendor_id == 0x046d ==> made_by_logitech(
            found,
            found.len(),
        ).contains(found[i]),
        0 <= i < made_by_logitech(found, found.len()).len() ==> made_by_logitech(
            found,
            found.len(),
        )[i].vendor_id == 0x046d && found.contains(made_by_logitech(found, found.len())[i]),
        (forall|k: int| 0 <= k < found.len() ==> (#[trigger] found[k]).vendor_id == 0x046d)
            ==> made_by_logitech(found, found.len()) == found,
{
    lemma_logitech(found, found.len());
    if forall|k: int| 0 <= k < found.len() ==> (#[trigger] found[k]).vendor_id == 0x046d {
        assert(found.take(found.len() as int) =~= found);
    }
}

proof fn lemma_logitech(found: Seq<DeviceInfo>, n: nat)
    requires
        n <= found.len(),
    ensures
        forall|i: int|
            0 <= i < n && (#[trigger] found[i]).vendor_id == 0x046d ==> made_by_logitech(
                found,
                n,
            ).contains(found[i]),
        forall|k: int|
            0 <= k < made_by_logitech(found, n).len() ==> (#[trigger] made_by_logitech(
                found,
                n,
            )[k]).vendor_id == 0x046d && found.contains(made_by_logitech(found, n)[k]),
        (forall|k: int| 0 <= k < n ==> (#[trigger] found[k]).vendor_id == 0x046d)
            ==> made_by_logitech(found, n) == found.take(n as int),
    decreases n,
{
    if n > 0 {
        lemma_logitech(found, (n - 1) as nat);
        let before = made_by_logitech(found, (n - 1) as nat);
        let after = made_by_logitech(found, n);
        assert(found.contains(found[n - 1]));
        assert forall|i: int| 0 <= i < n && (#[trigger] found[i]).vendor_id
            == 0x046d implies after.contains(found[i]) by {
            if i == n - 1 {
                assert(after[before.len() as int] == found[i]);
            } else {
                assert(after[before.index_of(found[i])] == found[i]);
            }
        }
        assert forall|k: int| 0 <= k < after.len() implies (#[trigger] after[k]).vendor_id
            == 0x046d && found.contains(after[k]) by {
            if k < before.len() {
                assert(after[k] == before[k]);
            }
        }
        if forall|k: int| 0 <= k < n ==> (#[trigger] found[k]).vendor_id == 0x046d {
            assert(found[n - 1].vendor_id == 0x046d);
            assert(found.take(n as int) =~= found.take(n - 1).push(found[n - 1]));
        }
    } else {
        assert(found.take(0) =~= Seq::empty());
    }
}

/// A device is found by its identifier: the first one that has it.
pub proof fn law_devices_are_found_by_their_identifier(
    found: Seq<DeviceInfo>,
    id: Seq<char>,
    i: int,
)
    ensures
        0 <= i < found.len() && found[i].id@ == id && (forall|k: int|
            0 <= k < i ==> (#[trigger] found[k]).id@ != id) ==> device_index(found, id, 0) == i,
        (forall|k: int| 0 <= k < found.len() ==> (#[trigger] found[k]).id@ != id) ==> device_index(
            found,
            id,
            0,
        ) == found.len(),
{
    lemma_device_index(found, id, 0);
    let at = device_index(found, id, 0);
    if 0 <= i < found.len() && found[i].id@ == id && (forall|k: int|
        0 <= k < i ==> (#[trigger] found[k]).id@ != id) {
        if at < i {
            assert(found[at].id@ != id);
        }
        if i < at {
            assert(found[i].id@ != id);
        }
    }
}

proof fn lemma_device_index(found: Seq<DeviceInfo>, id: Seq<char>, i: int)
    requires
        0 <= i <= found.len(),
    ensures
        i <= device_index(found, id, i) <= found.len(),
        device_index(found, id, i) < found.len() ==> found[device_index(found, id, i)].id@ == id,
        forall|k: int|
            i <= k < device_index(found, id, i) ==> (#[trigger] found[k]).id@ != id,
    decreases found.len() - i,
{
    if i < found.len() && found[i].id@ != id {
        lemma_device_index(found, id, i + 1);
    }
}

/// The change that the user looked at is committed where the device, the settings in their
/// normal form and the plan are the ones looked at and a name is given; and what is written
/// down before is that change, with these settings under that name.
pub proof fn law_reviewed_change_is_committed(
    pending: PendingView,
    settings_id: Seq<char>,
    s: settings::SettingsView,
)
    requires
        text::trimmed(settings_id).len() > 0,
        pending.settings == settings::normal_settings(s),
    ensures
        commit_fault(Some(pending), pending.device_id, settings_id, s, pending.plan) is None,
        ({
            let journal = commit_journal(pending, settings_id, s);
            &&& journal.transaction == pending.transaction
            &&& journal.settings == Some(pending.settings)
            &&& journal.settings_id == Some(text::trimmed(settings_id))
            &&& journal.version == 2
            &&& journal.phase == DeviceTransactionPhase::Prepared
        }),
        commit_fault(Some(pending), pending.device_id, Seq::empty(), s, pending.plan) is Some,
{
    lemma_empty_is_trimmed();
}

proof fn lemma_empty_is_trimmed()
    ensures
        text::trimmed(Seq::<char>::empty()).len() == 0,
{
}

/// A file is a journal by its ending, and the journals are all there: none is left out, and
/// nothing else is among them.
pub proof fn law_json_files_are_journals(files: Seq<Seq<char>>, i: int)
    ensures
        0 <= i < files.len() && paths::extension_of(files[i]) == Some("json"@) ==> journals_among(
            files,
            files.len(),
        ).contains(files[i]),
        0 <= i < journals_among(files, files.len()).len() ==> paths::extension_of(
            journals_among(files, files.len())[i],
        ) == Some("json"@) && files.contains(journals_among(files, files.len())[i]),
{
    lemma_journals(files, files.len());
}

proof fn lemma_journals(files: Seq<Seq<char>>, n: nat)
    requires
        n <= files.len(),
    ensures
        forall|i: int|
            0 <= i < n && paths::extension_of(#[trigger] files[i]) == Some("json"@)
                ==> journals_among(files, n).contains(files[i]),
        forall|k: int|
            0 <= k < journals_among(files, n).len() ==> paths::extension_of(
                #[trigger] journals_among(files, n)[k],
            ) == Some("json"@) && files.contains(journals_among(files, n)[k]),
    decreases n,
{
    if n > 0 {
        lemma_journals(files, (n - 1) as nat);
        let before = journals_among(files, (n - 1) as nat);
        let after = journals_among(files, n);
        assert(files.contains(files[n - 1]));
        assert forall|i: int| 0 <= i < n && paths::extension_of(#[trigger] files[i]) == Some(
            "json"@,
        ) implies after.contains(files[i]) by {
            if i == n - 1 {
                assert(after[before.len() as int] == files[i]);
            } else {
                assert(after[before.index_of(files[i])] == files[i]);
            }
        }
        assert forall|k: int| 0 <= k < after.len() implies paths::extension_of(
            #[trigger] after[k],
        ) == Some("json"@) && files.contains(after[k]) by {
            if k < before.len() {
                assert(after[k] == before[k]);
            }
        }
    }
}

/// What was put aside is told once: why, and where it lies.
pub proof fn law_recoveries_are_told_once(reason: &str, backup: String, path: &str)
    ensures
        forall|service: &mut DeviceService, r: ()|
            #![trigger call_ensures(DeviceService::record_replacement, (service, reason, &Some(backup)), r)]
            call_ensures(DeviceService::record_replacement, (service, reason, &Some(backup)), r)
                ==> final(service)@.recovery_notice == Some(
                "Device settings were restored to defaults because "@ + reason@ + "."@ + (
                " The original was preserved at "@ + backup@ + "."@),
            ) && final(service)@.pending == (*service)@.pending,
        forall|service: &mut DeviceService, r: ()|
            #![trigger call_ensures(DeviceService::record_preserved_transaction, (service, reason, &Some(backup), path), r)]
            call_ensures(
                DeviceService::record_preserved_transaction,
                (service, reason, &Some(backup), path),
                r,
            ) ==> final(service)@.recovery_notice == Some(reason@ + backup@ + " and ignored."@),
        forall|service: &mut DeviceService, r: ()|
            #![trigger call_ensures(DeviceService::record_preserved_transaction, (service, reason, &None, path), r)]
            call_ensures(
                DeviceService::record_preserved_transaction,
                (service, reason, &None, path),
                r,
            ) ==> final(service)@.recovery_notice == Some(reason@ + path@ + " and ignored."@),
        forall|service: &mut DeviceService, r: Option<String>|
            #![trigger call_ensures(DeviceService::take_recovery_notice, (service,), r)]
            call_ensures(DeviceService::take_recovery_notice, (service,), r) ==> text::optional(r)
                == (*service)@.recovery_notice && final(service)@.recovery_notice is None,
{
}

/// Settings are planned, loaded and saved in their normal form, for the device that is asked for.
pub proof fn law_settings_are_served(
    service: &DeviceService,
    device_id: &str,
    s: &Master3sSettings,
    saved: &StoredMaster3sSettings,
    owned: StoredMaster3sSettings,
)
    ensures
        forall|r: SettingsApplyPlan|
            #![trigger call_ensures(DeviceService::plan_master3s_settings, (service, device_id, s), r)]
            call_ensures(DeviceService::plan_master3s_settings, (service, device_id, s), r) ==> r@
                == plan::full_plan(device_id@, settings::normal_settings(s@)),
        forall|r: LocalRuntimePlan|
            #![trigger call_ensures(DeviceService::plan_master3s_runtime, (service, s), r)]
            call_ensures(DeviceService::plan_master3s_runtime, (service, s), r) ==> r@
                == runtime_plan::runtime_plan_of(settings::normal_settings(s@)),
        forall|r: Master3sSettings|
            #![trigger call_ensures(DeviceService::load_master3s_settings, (service, saved), r)]
            call_ensures(DeviceService::load_master3s_settings, (service, saved), r) ==> r@
                == saved@.default,
        forall|r: Master3sSettings|
            #![trigger call_ensures(DeviceService::load_master3s_settings_for_device, (service, saved, device_id), r)]
            call_ensures(
                DeviceService::load_master3s_settings_for_device,
                (service, saved, device_id),
                r,
            ) ==> (saved@.devices.dom().contains(device_id@) && text::trimmed(device_id@).len() > 0
                ==> r@ == saved@.devices[device_id@]) && (!saved@.devices.dom().contains(device_id@)
                ==> r@ == saved@.default),
        forall|r: Result<(StoredMaster3sSettings, String), DogiError>|
            #![trigger call_ensures(DeviceService::save_master3s_settings_for_device, (service, owned, device_id, s), r)]
            call_ensures(
                DeviceService::save_master3s_settings_for_device,
                (service, owned, device_id, s),
                r,
            ) ==> {
                &&& r is Ok <==> text::trimmed(device_id@).len() > 0 && service@.config_path is Some
                &&& r matches Ok((next, at)) ==> next@.devices.dom().contains(
                    text::trimmed(device_id@),
                ) && next@.devices[text::trimmed(device_id@)] == settings::normal_settings(s@)
                    && Some(at@) == service@.config_path && next@.default
                    == settings::normal_settings(owned@.default)
            },
        forall|r: Result<(StoredMaster3sSettings, String), DogiError>|
            #![trigger call_ensures(DeviceService::save_master3s_settings, (service, owned, s), r)]
            call_ensures(DeviceService::save_master3s_settings, (service, owned, s), r) ==> {
                &&& r is Ok <==> service@.config_path is Some
                &&& r matches Ok((next, at)) ==> next@.default == settings::normal_settings(s@)
                    && Some(at@) == service@.config_path
            },
{
    settings::law_normal_form_is_stable(s@);
    text::lemma_trimmed_idempotent(device_id@);
}

/// What was prepared is kept for the user to look at, and is what is committed.
pub proof fn law_prepared_changes_are_kept(
    device_id: &str,
    s: Master3sSettings,
    plan: SettingsApplyPlan,
    transaction: PreparedSettingsTransaction,
)
    ensures
        forall|service: &mut DeviceService, r: SettingsApplyPreview|
            #![trigger call_ensures(DeviceService::keep_prepared, (service, device_id, s, plan, transaction), r)]
            call_ensures(
                DeviceService::keep_prepared,
                (service, device_id, s, plan, transaction),
                r,
            ) ==> {
                let kept = final(service)@.pending;
                &&& kept is Some && kept->0.device_id == device_id@ && kept->0.settings == s@
                    && kept->0.plan == plan@ && kept->0.transaction == transaction@
                &&& r@.device_id == transaction@.device_id
            },
{
}

/// The journals are gone through in the order of their names.
pub proof fn law_journals_are_gone_through_in_order(files: &Vec<String>, i: int, j: int)
    ensures
        forall|r: Vec<String>|
            #![trigger call_ensures(journal_paths, (files,), r)]
            call_ensures(journal_paths, (files,), r) && 0 <= i < j < r@.len() ==> !text::precedes(
                text::texts(r@)[j],
                text::texts(r@)[i],
            ),
{
}

}
