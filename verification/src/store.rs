//! The saved settings of all devices.

use crate::error::{DogiError, ErrorKind};
use crate::settings::Master3sSettings;
use crate::settings;
use crate::table::Table;
use crate::text;
use vstd::prelude::*;

verus! {

pub const SETTINGS_FILE_VERSION: u8 = 5;

/// The saved settings: those of single devices, and those of all others.
#[derive(Debug, PartialEq, Eq)]
pub struct StoredMaster3sSettings {
    pub version: u8,
    pub default: Master3sSettings,
    pub devices: Table<Master3sSettings>,
}

/// The mathematical value of [`StoredMaster3sSettings`].
#[verifier::ext_equal]
pub struct StoreView {
    pub version: u8,
    pub default: settings::SettingsView,
    pub devices: Map<Seq<char>, settings::SettingsView>,
}

/// The values of a map of settings.
pub open spec fn settings_views(devices: Map<Seq<char>, Master3sSettings>) -> Map<
    Seq<char>,
    settings::SettingsView,
> {
    Map::new(|key: Seq<char>| devices.dom().contains(key), |key: Seq<char>| devices[key]@)
}

impl View for StoredMaster3sSettings {
    type V = StoreView;

    open spec fn view(&self) -> StoreView {
        StoreView {
            version: self.version,
            default: self.default@,
            devices: settings_views(self.devices@),
        }
    }
}

/// The store before anything was saved.
pub open spec fn default_store() -> StoreView {
    StoreView {
        version: SETTINGS_FILE_VERSION,
        default: settings::default_settings(),
        devices: Map::empty(),
    }
}

/// The settings of devices in normal form, without those of a device that has no
/// name.
pub open spec fn normal_devices(devices: Map<Seq<char>, settings::SettingsView>) -> Map<
    Seq<char>,
    settings::SettingsView,
> {
    Map::new(
        |key: Seq<char>| devices.dom().contains(key) && text::trimmed(key).len() > 0,
        |key: Seq<char>| settings::normal_settings(devices[key]),
    )
}

/// The normal form of a store.
pub open spec fn normal_store(store: StoreView) -> StoreView {
    StoreView {
        version: SETTINGS_FILE_VERSION,
        default: settings::normal_settings(store.default),
        devices: normal_devices(store.devices),
    }
}

/// The settings of a device: its own, or else those of all devices.
pub open spec fn settings_for(store: StoreView, device_id: Seq<char>) -> settings::SettingsView {
    if store.devices.dom().contains(device_id) {
        store.devices[device_id]
    } else {
        store.default
    }
}

/// The store once the settings of all devices were saved.
pub open spec fn default_saved(store: StoreView, s: settings::SettingsView) -> StoreView {
    normal_store(StoreView { default: settings::normal_settings(s), ..store })
}

/// The store once the settings of a device were saved.
pub open spec fn device_saved(
    store: StoreView,
    device_id: Seq<char>,
    s: settings::SettingsView,
) -> StoreView {
    normal_store(
        StoreView {
            devices: store.devices.insert(
                text::trimmed(device_id),
                settings::normal_settings(s),
            ),
            ..store
        },
    )
}

/// To bring a store into normal form again changes nothing.
pub proof fn law_normal_store_is_stable(store: StoreView)
    ensures
        normal_store(normal_store(store)) == normal_store(store),
{
    settings::law_normal_form_is_stable(store.default);
    let once = normal_store(store).devices;
    let twice = normal_devices(once);
    assert forall|key: Seq<char>| once.dom().contains(key) implies twice[key] == once[key] by {
        settings::law_normal_form_is_stable(store.devices[key]);
    }
    assert(twice =~= once);
}

/// What was saved for a device is read back for it, in normal form. Spaces around
/// its name do not count when it is saved.
pub proof fn law_saved_device_settings_are_read_back(
    store: StoreView,
    device_id: Seq<char>,
    s: settings::SettingsView,
)
    requires
        text::trimmed(device_id).len() > 0,
    ensures
        settings_for(device_saved(store, device_id, s), text::trimmed(device_id))
            == settings::normal_settings(s),
{
    settings::law_normal_form_is_stable(s);
    text::lemma_trimmed_idempotent(device_id);
}

/// To save the settings of one device leaves those of all others as they were.
pub proof fn law_devices_are_isolated(
    store: StoreView,
    device_id: Seq<char>,
    s: settings::SettingsView,
    other: Seq<char>,
)
    requires
        normal_store(store) == store,
        other != text::trimmed(device_id),
    ensures
        settings_for(device_saved(store, device_id, s), other) == settings_for(store, other),
        device_saved(store, device_id, s).default == store.default,
{
    assert(normal_store(store).devices.dom().contains(other) == store.devices.dom().contains(
        other,
    ));
}

/// To save the settings of all devices leaves those of single devices as they were,
/// and is read back for every device that has none of its own.
pub proof fn law_default_is_for_the_other_devices(
    store: StoreView,
    s: settings::SettingsView,
    device_id: Seq<char>,
)
    requires
        normal_store(store) == store,
    ensures
        settings_for(default_saved(store, s), device_id) == (if store.devices.dom().contains(
            device_id,
        ) {
            settings_for(store, device_id)
        } else {
            settings::normal_settings(s)
        }),
        default_saved(store, s).default == settings::normal_settings(s),
{
    settings::law_normal_form_is_stable(s);
    assert(normal_store(store).devices.dom().contains(device_id) == store.devices.dom().contains(
        device_id,
    ));
}

/// Two devices can be saved in either order, with the same outcome.
pub proof fn law_device_updates_do_not_lose_each_other(
    store: StoreView,
    a: Seq<char>,
    s: settings::SettingsView,
    b: Seq<char>,
    t: settings::SettingsView,
)
    requires
        text::trimmed(a) != text::trimmed(b),
    ensures
        device_saved(device_saved(store, a, s), b, t) == device_saved(
            device_saved(store, b, t),
            a,
            s,
        ),
{
    settings::law_normal_form_is_stable(store.default);
    settings::law_normal_form_is_stable(s);
    settings::law_normal_form_is_stable(t);
    let left = device_saved(device_saved(store, a, s), b, t);
    let right = device_saved(device_saved(store, b, t), a, s);
    assert forall|key: Seq<char>| left.devices.dom().contains(key) implies left.devices[key]
        == right.devices[key] by {
        settings::law_normal_form_is_stable(store.devices[key]);
        settings::law_normal_form_is_stable(settings::normal_settings(s));
        settings::law_normal_form_is_stable(settings::normal_settings(t));
    }
    assert(left.devices =~= right.devices);
}

impl Default for StoredMaster3sSettings {
    fn default() -> (r: Self)
        ensures
            r.wf(),
            r@ == default_store(),
    {
        let r = StoredMaster3sSettings {
            version: SETTINGS_FILE_VERSION,
            default: Master3sSettings::default(),
            devices: Table::new(),
        };
        assert(settings_views(r.devices@) =~= Map::<Seq<char>, settings::SettingsView>::empty());
        r
    }
}

impl StoredMaster3sSettings {
    /// No device occurs twice.
    pub open spec fn wf(&self) -> bool {
        self.devices.wf()
    }

    /// The store in normal form.
    pub fn normalized(&self) -> (r: Self)
        requires
            self.wf(),
        ensures
            r.wf(),
            r@ == normal_store(self@),
    {
        let mut devices: Table<Master3sSettings> = Table::new();
        let ghost all = self@.devices;
        let mut i: usize = 0;
        proof {
            self.devices.lemma_keys();
        }
        assert(settings_views(devices@) =~= Map::<Seq<char>, settings::SettingsView>::empty());
        while i < self.devices.len()
            invariant
                self.wf(),
                devices.wf(),
                i <= self.devices.size(),
                all == self@.devices,
                forall|a: int, b: int|
                    0 <= a < b < self.devices.size() ==> #[trigger] self.devices.key_at(a)
                        != #[trigger] self.devices.key_at(b),
                forall|key: Seq<char>| #[trigger]
                    devices@.dom().contains(key) <==> (text::trimmed(key).len() > 0 && exists|k: int|
                        0 <= k < i && #[trigger] self.devices.key_at(k) == key),
                forall|key: Seq<char>|
                    devices@.dom().contains(key) ==> (#[trigger] devices@[key])@
                        == settings::normal_settings(all[key]),
            decreases self.devices.size() - i,
        {
            let key = self.devices.key(i);
            let value = self.devices.value(i);
            let ghost before = devices@;
            if !text::blank(key) {
                devices.insert(key, value.normalized());
            }
            proof {
                let k = key@;
                assert forall|other: Seq<char>| #[trigger]
                    devices@.dom().contains(other) <==> (text::trimmed(other).len() > 0 && exists|j: int|
                        0 <= j < i + 1 && #[trigger] self.devices.key_at(j) == other) by {
                    if text::trimmed(other).len() > 0 {
                        if before.dom().contains(other) {
                            let j = choose|j: int|
                                0 <= j < i && #[trigger] self.devices.key_at(j) == other;
                            assert(self.devices.key_at(j) == other && j < i + 1);
                        }
                        if other == k {
                            assert(self.devices.key_at(i as int) == other);
                        }
                        if exists|j: int|
                            0 <= j < i + 1 && #[trigger] self.devices.key_at(j) == other {
                            let j = choose|j: int|
                                0 <= j < i + 1 && #[trigger] self.devices.key_at(j) == other;
                            if j < i {
                                assert(before.dom().contains(other));
                            }
                        }
                    }
                }
            }
            i += 1;
        }
        proof {
            self.devices.lemma_keys();
            let done = settings_views(devices@);
            assert forall|key: Seq<char>| done.dom().contains(key) == normal_devices(
                all,
            ).dom().contains(key) by {
                if devices@.dom().contains(key) {
                    let k = choose|k: int|
                        0 <= k < i && #[trigger] self.devices.key_at(k) == key;
                    assert(self.devices@.dom().contains(self.devices.key_at(k)));
                }
                if all.dom().contains(key) {
                    assert(self.devices@.dom().contains(key));
                    let k = choose|k: int|
                        0 <= k < self.devices.size() && self.devices.key_at(k) == key;
                    assert(self.devices.key_at(k) == key);
                }
            }
            assert(done =~= normal_devices(all));
        }
        StoredMaster3sSettings {
            version: SETTINGS_FILE_VERSION,
            default: self.default.normalized(),
            devices,
        }
    }

    /// The store in normal form, where its version is known.
    pub fn validated(self) -> (r: Result<Self, DogiError>)
        requires
            self.wf(),
        ensures
            if self@.version == SETTINGS_FILE_VERSION {
                r matches Ok(store) && store.wf() && store@ == normal_store(self@)
            } else {
                r is Err && r->Err_0@ == (
                    ErrorKind::Config,
                    "unsupported settings schema version "@ + text::decimal(
                        self@.version as nat,
                    ) + "; expected 5"@,
                )
            },
    {
        if self.version != SETTINGS_FILE_VERSION {
            let mut detail = "unsupported settings schema version ".to_owned();
            text::push_decimal(&mut detail, self.version as u64);
            detail.append("; expected 5");
            return Err(DogiError::Config(detail));
        }
        Ok(self.normalized())
    }

    /// The settings of a device.
    pub fn settings_for_device(&self, device_id: &str) -> (r: Master3sSettings)
        requires
            self.wf(),
        ensures
            r@ == settings_for(self@, device_id@),
    {
        match self.devices.get(device_id) {
            Some(s) => s.clone(),
            None => self.default.clone(),
        }
    }

    /// The store once the settings of all devices were saved.
    pub fn with_default(self, s: &Master3sSettings) -> (r: Self)
        requires
            self.wf(),
        ensures
            r.wf(),
            r@ == default_saved(self@, s@),
    {
        let mut store = self;
        store.default = s.normalized();
        store.normalized()
    }

    /// The store once the settings of a device were saved.
    pub fn with_device(self, device_id: &str, s: &Master3sSettings) -> (r: Self)
        requires
            self.wf(),
        ensures
            r.wf(),
            r@ == device_saved(self@, device_id@, s@),
    {
        let mut store = self;
        let ghost before = store.devices@;
        let id = text::trim(device_id);
        store.devices.insert(id.as_str(), s.normalized());
        assert(settings_views(store.devices@) =~= settings_views(before).insert(
            id@,
            settings::normal_settings(s@),
        ));
        store.normalized()
    }
}

/// What reading the settings file gave.
#[derive(Debug)]
pub enum SettingsSource {
    /// There is no file.
    Missing,
    /// It could not be read.
    Unreadable(String),
    /// It holds no JSON.
    NotJson(String),
    /// It holds JSON: its version, as far as it is a number, and what it is as a
    /// store.
    Document { version: Option<u64>, store: Result<StoredMaster3sSettings, String> },
}

impl SettingsSource {
    /// No device occurs twice in what was read.
    pub open spec fn wf(&self) -> bool {
        match self {
            SettingsSource::Document { version, store } => store matches Ok(store) ==> store.wf(),
            _ => true,
        }
    }
}

/// What is done with what was read.
#[derive(Debug)]
pub enum StoreStep {
    /// It is used.
    Use(StoredMaster3sSettings),
    /// It is kept elsewhere under a label, and `store` is written in its place and used.
    Replace { label: String, reason: String, store: StoredMaster3sSettings },
    /// It cannot be used.
    Fail(DogiError),
}

/// The mathematical value of [`StoreStep`].
#[verifier::ext_equal]
pub enum StoreStepView {
    Use(StoreView),
    Replace { label: Seq<char>, reason: Seq<char>, store: StoreView },
    Fail((ErrorKind, Seq<char>)),
}

impl StoreStep {
    /// No device occurs twice in the store that is used.
    pub open spec fn wf(&self) -> bool {
        match self {
            StoreStep::Use(store) => store.wf(),
            StoreStep::Replace { label, reason, store } => store.wf(),
            StoreStep::Fail(error) => true,
        }
    }
}

impl View for StoreStep {
    type V = StoreStepView;

    open spec fn view(&self) -> StoreStepView {
        match self {
            StoreStep::Use(store) => StoreStepView::Use(store@),
            StoreStep::Replace { label, reason, store } => StoreStepView::Replace {
                label: label@,
                reason: reason@,
                store: store@,
            },
            StoreStep::Fail(error) => StoreStepView::Fail(error@),
        }
    }
}

/// What is done with what was read from a path.
pub open spec fn reading_of(path: Seq<char>, source: SettingsSource) -> StoreStepView {
    match source {
        SettingsSource::Missing => StoreStepView::Use(default_store()),
        SettingsSource::Unreadable(detail) => StoreStepView::Fail(
            (ErrorKind::Config, "failed to read "@ + path + ": "@ + detail@),
        ),
        SettingsSource::NotJson(detail) => StoreStepView::Replace {
            label: "invalid-json"@,
            reason: "invalid JSON: "@ + detail@,
            store: default_store(),
        },
        SettingsSource::Document { version, store } => match version {
            Some(version) => if version == 5 {
                match store {
                    Ok(store) => if store@.version == SETTINGS_FILE_VERSION {
                        StoreStepView::Use(normal_store(store@))
                    } else {
                        StoreStepView::Fail(
                            (
                                ErrorKind::Config,
                                "unsupported settings schema version "@ + text::decimal(
                                    store@.version as nat,
                                ) + "; expected 5"@,
                            ),
                        )
                    },
                    Err(detail) => StoreStepView::Replace {
                        label: "invalid-schema"@,
                        reason: "schema 5 is malformed: "@ + detail@,
                        store: default_store(),
                    },
                }
            } else if version <= 255 {
                StoreStepView::Replace {
                    label: "unsupported-schema"@,
                    reason: "unsupported schema version "@ + text::decimal(version as nat),
                    store: default_store(),
                }
            } else {
                missing_schema()
            },
            None => missing_schema(),
        },
    }
}

/// What is done with settings that have no version.
pub open spec fn missing_schema() -> StoreStepView {
    StoreStepView::Replace {
        label: "missing-schema"@,
        reason: "the schema version is missing or invalid"@,
        store: default_store(),
    }
}

fn replace_for_missing_schema() -> (r: StoreStep)
    ensures
        r@ == missing_schema(),
        r.wf(),
{
    StoreStep::Replace {
        label: "missing-schema".to_owned(),
        reason: "the schema version is missing or invalid".to_owned(),
        store: StoredMaster3sSettings::default(),
    }
}

/// What is done with what was read from a path.
pub fn read_store(path: &str, source: SettingsSource) -> (r: StoreStep)
    requires
        source.wf(),
    ensures
        r@ == reading_of(path@, source),
        r.wf(),
{
    match source {
        SettingsSource::Missing => StoreStep::Use(StoredMaster3sSettings::default()),
        SettingsSource::Unreadable(detail) => {
            let mut message = text::concat3("failed to read ", path, ": ");
            message.append(detail.as_str());
            StoreStep::Fail(DogiError::Config(message))
        },
        SettingsSource::NotJson(detail) => StoreStep::Replace {
            label: "invalid-json".to_owned(),
            reason: text::concat2("invalid JSON: ", detail.as_str()),
            store: StoredMaster3sSettings::default(),
        },
        SettingsSource::Document { version, store } => match version {
            Some(version) => {
                if version == 5 {
                    match store {
                        Ok(store) => match store.validated() {
                            Ok(store) => StoreStep::Use(store),
                            Err(error) => StoreStep::Fail(error),
                        },
                        Err(detail) => StoreStep::Replace {
                            label: "invalid-schema".to_owned(),
                            reason: text::concat2("schema 5 is malformed: ", detail.as_str()),
                            store: StoredMaster3sSettings::default(),
                        },
                    }
                } else if version <= 255 {
                    let mut reason = "unsupported schema version ".to_owned();
                    text::push_decimal(&mut reason, version);
                    StoreStep::Replace {
                        label: "unsupported-schema".to_owned(),
                        reason,
                        store: StoredMaster3sSettings::default(),
                    }
                } else {
                    replace_for_missing_schema()
                }
            },
            None => replace_for_missing_schema(),
        },
    }
}

/// The store that is in use once a step was carried out; none where it fails.
pub open spec fn in_use(step: StoreStepView) -> Option<StoreView> {
    match step {
        StoreStepView::Use(store) => Some(store),
        StoreStepView::Replace { label, reason, store } => Some(store),
        StoreStepView::Fail(error) => None,
    }
}

/// Whatever the settings file holds that is no store of this version, the defaults are
/// in use: where the file is missing as it is, else once it was set aside. Only a file
/// that cannot be read, or that holds another version in its store than beside it,
/// gives no settings.
pub proof fn law_unusable_settings_give_way_to_the_defaults(path: Seq<char>, source: SettingsSource)
    ensures
        source is Missing ==> reading_of(path, source) == StoreStepView::Use(default_store()),
        source is NotJson ==> reading_of(path, source) is Replace,
        source matches SettingsSource::Document { version, store } && (version != Some(5u64)
            || store is Err) ==> reading_of(path, source) is Replace,
        reading_of(path, source) is Replace ==> in_use(reading_of(path, source)) == Some(
            default_store(),
        ),
        in_use(reading_of(path, source)) is None ==> source is Unreadable || (
        source matches SettingsSource::Document { version, store } && version == Some(5u64) && (
        store matches Ok(store) && store@.version != SETTINGS_FILE_VERSION)),
{
}

/// A store of version 5 is used as it is, in its normal form: the settings of a device
/// with a name are read under that name, and the default for every other.
pub proof fn law_sound_settings_are_used(
    path: Seq<char>,
    store: StoredMaster3sSettings,
    device_id: Seq<char>,
)
    requires
        store@.version == 5,
        text::trimmed(device_id).len() > 0,
    ensures
        ({
            let source = SettingsSource::Document { version: Some(5), store: Ok(store) };
            let used = reading_of(path, source)->Use_0;
            &&& reading_of(path, source) is Use
            &&& used.version == 5
            &&& used.default == settings::normal_settings(store@.default)
            &&& store@.devices.dom().contains(device_id) ==> settings_for(used, device_id)
                == settings::normal_settings(store@.devices[device_id])
            &&& !store@.devices.dom().contains(device_id) ==> settings_for(used, device_id)
                == used.default
        }),
{
}

/// Settings that cannot be used are told by what is wrong with them: of version 5 what could not
/// be read of them.
pub proof fn law_malformed_settings_are_told(path: Seq<char>, detail: String)
    ensures
        reading_of(path, SettingsSource::Document { version: Some(5), store: Err(detail) }) matches
            StoreStepView::Replace { label, reason, store } && reason == "schema 5 is malformed: "@
            + detail@ && store == default_store(),
        reading_of(path, SettingsSource::Document { version: None, store: Err(detail) })
            is Replace,
{
}

}
