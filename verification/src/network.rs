//! How the network is reached: the proxy that the user wants, what is done with its
//! password, and the route that is shown.

use crate::app_config;
use crate::app_config::{NetworkProxyMode, NetworkProxyPreferences};
use crate::error::{DogiError, ErrorKind};
use crate::text;
use vstd::prelude::*;

verus! {

pub const PROXY_CREDENTIAL_SERVICE: &'static str = "io.github.oksyd.dogi.network-proxy";

pub const PROXY_CREDENTIAL_ACCOUNT: &'static str = "default";

pub const NETWORK_TIMEOUT_MS: u64 = 30000;

/// What the user typed: a proxy, and a password where a new one was typed.
#[derive(Debug, PartialEq, Eq)]
pub struct NetworkProxyDraft {
    pub preferences: NetworkProxyPreferences,
    pub password: String,
}

impl NetworkProxyDraft {
    /// A draft in which no password was typed.
    pub fn from_preferences(preferences: NetworkProxyPreferences) -> (r: Self)
        ensures
            r.preferences == preferences,
            r.password@ == Seq::<char>::empty(),
    {
        NetworkProxyDraft { preferences, password: String::new() }
    }
}

/// Whether a text has a white space in it.
pub open spec fn has_white_space(s: Seq<char>) -> bool {
    exists|i: int| 0 <= i < s.len() && text::is_white_space(#[trigger] s[i])
}

/// Whether a text has a white space in it.
pub fn contains_white_space(s: &str) -> (r: bool)
    ensures
        r == has_white_space(s@),
{
    let chars = text::chars_of(s);
    let mut i: usize = 0;
    while i < chars.len()
        invariant
            chars@ == s@,
            i <= chars@.len(),
            forall|k: int| 0 <= k < i ==> !text::is_white_space(#[trigger] s@[k]),
        decreases chars@.len() - i,
    {
        if text::white_space(chars[i]) {
            assert(text::is_white_space(s@[i as int]));
            return true;
        }
        i += 1;
    }
    false
}

/// A proxy without the white space around its texts.
pub open spec fn cleaned(p: app_config::ProxyView) -> app_config::ProxyView {
    app_config::ProxyView {
        host: text::trimmed(p.host),
        username: text::trimmed(p.username),
        ..p
    }
}

/// What is wrong with a proxy.
pub open spec fn proxy_fault(p: app_config::ProxyView) -> Option<Seq<char>> {
    let c = cleaned(p);
    if c.mode != NetworkProxyMode::Manual {
        None
    } else if c.host.len() == 0 {
        Some("enter the proxy host"@)
    } else if text::has_part(c.host, "://"@) || text::has_part(c.host, "@"@) || has_white_space(
        c.host,
    ) {
        Some("enter only a hostname or IP address for the proxy host"@)
    } else if c.port == 0 {
        Some("enter a proxy port between 1 and 65535"@)
    } else if c.authentication_enabled && c.username.len() == 0 {
        Some("enter the proxy username"@)
    } else {
        None
    }
}

/// Cleans a proxy, and finds out what is wrong with it.
pub fn normalize(preferences: NetworkProxyPreferences) -> (r: Result<
    NetworkProxyPreferences,
    DogiError,
>)
    ensures
        match r {
            Ok(p) => p@ == cleaned(preferences@) && proxy_fault(preferences@) is None,
            Err(e) => e@.0 == ErrorKind::InvalidArgument && proxy_fault(preferences@) == Some(e@.1),
        },
{
    let mut cleaned = preferences;
    cleaned.host = text::trim(cleaned.host.as_str());
    cleaned.username = text::trim(cleaned.username.as_str());
    assert(cleaned@ == self::cleaned(preferences@));
    if cleaned.mode != NetworkProxyMode::Manual {
        return Ok(cleaned);
    }
    if cleaned.host.as_str().is_empty() {
        return Err(DogiError::InvalidArgument("enter the proxy host".to_owned()));
    }
    if text::contains_part(cleaned.host.as_str(), "://") || text::contains_part(
        cleaned.host.as_str(),
        "@",
    ) || contains_white_space(cleaned.host.as_str()) {
        return Err(
            DogiError::InvalidArgument(
                "enter only a hostname or IP address for the proxy host".to_owned(),
            ),
        );
    }
    if cleaned.port == 0 {
        return Err(
            DogiError::InvalidArgument("enter a proxy port between 1 and 65535".to_owned()),
        );
    }
    if cleaned.authentication_enabled && cleaned.username.as_str().is_empty() {
        return Err(DogiError::InvalidArgument("enter the proxy username".to_owned()));
    }
    Ok(cleaned)
}

/// A cleaned proxy is clean, and nothing is found wrong with it that was not wrong
/// before.
pub proof fn law_cleaning_is_stable(p: app_config::ProxyView)
    ensures
        cleaned(cleaned(p)) == cleaned(p),
        proxy_fault(cleaned(p)) == proxy_fault(p),
{
    text::lemma_trimmed_idempotent(p.host);
    text::lemma_trimmed_idempotent(p.username);
}

/// What is done with the password of the proxy.
#[derive(Debug, PartialEq, Eq)]
pub enum CredentialChange {
    Preserve,
    Store(String),
    Remove,
}

/// The mathematical value of [`CredentialChange`].
pub enum CredentialView {
    Preserve,
    Store(Seq<char>),
    Remove,
}

impl View for CredentialChange {
    type V = CredentialView;

    open spec fn view(&self) -> CredentialView {
        match self {
            CredentialChange::Preserve => CredentialView::Preserve,
            CredentialChange::Store(password) => CredentialView::Store(password@),
            CredentialChange::Remove => CredentialView::Remove,
        }
    }
}

/// What saving a proxy is refused with.
pub open spec fn save_fault(p: app_config::ProxyView, password: Seq<char>) -> Option<Seq<char>> {
    match proxy_fault(p) {
        Some(fault) => Some(fault),
        None => if p.authentication_enabled && password.len() == 0 && !p.password_saved {
            Some("enter the proxy password before saving"@)
        } else {
            None
        },
    }
}

/// The proxy that is saved.
pub open spec fn saved_proxy(p: app_config::ProxyView) -> app_config::ProxyView {
    app_config::ProxyView { password_saved: p.authentication_enabled, ..cleaned(p) }
}

/// What is done with the password when a proxy is saved.
pub open spec fn credential_change(
    p: app_config::ProxyView,
    password: Seq<char>,
    original: app_config::ProxyView,
) -> CredentialView {
    if p.authentication_enabled {
        if password.len() == 0 {
            CredentialView::Preserve
        } else {
            CredentialView::Store(password)
        }
    } else if p.password_saved || original.password_saved {
        CredentialView::Remove
    } else {
        CredentialView::Preserve
    }
}

/// What is saved of a draft, and what is done with the password.
pub fn plan_save(draft: NetworkProxyDraft, original: &NetworkProxyPreferences) -> (r: Result<
    (NetworkProxyPreferences, CredentialChange),
    DogiError,
>)
    ensures
        match r {
            Ok((p, change)) => {
                &&& save_fault(draft.preferences@, draft.password@) is None
                &&& p@ == saved_proxy(draft.preferences@)
                &&& change@ == credential_change(
                    draft.preferences@,
                    draft.password@,
                    original@,
                )
            },
            Err(e) => e@.0 == ErrorKind::InvalidArgument && save_fault(
                draft.preferences@,
                draft.password@,
            ) == Some(e@.1),
        },
{
    let mut preferences = match normalize(draft.preferences) {
        Ok(preferences) => preferences,
        Err(error) => return Err(error),
    };
    if preferences.authentication_enabled {
        if draft.password.as_str().is_empty() {
            if !preferences.password_saved {
                return Err(
                    DogiError::InvalidArgument("enter the proxy password before saving".to_owned()),
                );
            }
            Ok((preferences, CredentialChange::Preserve))
        } else {
            preferences.password_saved = true;
            Ok((preferences, CredentialChange::Store(draft.password)))
        }
    } else {
        let remove = preferences.password_saved || original.password_saved;
        preferences.password_saved = false;
        if remove {
            Ok((preferences, CredentialChange::Remove))
        } else {
            Ok((preferences, CredentialChange::Preserve))
        }
    }
}

/// A saved proxy has a saved password exactly where it authenticates itself, and a
/// password is never left behind where it does not.
pub proof fn law_passwords_are_kept_only_where_needed(
    p: app_config::ProxyView,
    password: Seq<char>,
    original: app_config::ProxyView,
)
    requires
        save_fault(p, password) is None,
    ensures
        saved_proxy(p).password_saved == p.authentication_enabled,
        p.authentication_enabled && !p.password_saved ==> credential_change(p, password, original)
            == CredentialView::Store(password),
        !p.authentication_enabled && original.password_saved ==> credential_change(
            p,
            password,
            original,
        ) == CredentialView::Remove,
{
}

/// Saving again what was saved is accepted where no other password is typed, and
/// changes neither the proxy nor its password.
pub proof fn law_saving_again_changes_nothing(p: app_config::ProxyView, password: Seq<char>)
    requires
        save_fault(p, password) is None,
    ensures
        ({
            let saved = saved_proxy(p);
            &&& save_fault(saved, Seq::empty()) is None
            &&& saved_proxy(saved) == saved
            &&& credential_change(saved, Seq::empty(), saved) == CredentialView::Preserve
        }),
{
    law_cleaning_is_stable(p);
    let saved = saved_proxy(p);
    text::lemma_trimmed_idempotent(p.host);
    text::lemma_trimmed_idempotent(p.username);
    assert(cleaned(saved) == saved);
}

/// How saving a proxy ends: with the proxy, or, where its password could not be kept,
/// with that failure. `restored` tells how putting back the former proxy failed.
pub open spec fn save_conclusion(
    saved: app_config::ProxyView,
    failure: Option<(ErrorKind, Seq<char>)>,
    restored: Option<Seq<char>>,
) -> Result<app_config::ProxyView, (ErrorKind, Seq<char>)> {
    match failure {
        None => Ok(saved),
        Some(failure) => match restored {
            None => Err(failure),
            Some(detail) => Err(
                (
                    ErrorKind::Config,
                    crate::error::message_of(failure)
                        + "; application settings could not be restored: "@ + detail,
                ),
            ),
        },
    }
}

/// How saving a proxy ends.
pub fn conclude_save(
    saved: NetworkProxyPreferences,
    failure: Option<DogiError>,
    restored: Option<String>,
) -> (r: Result<NetworkProxyPreferences, DogiError>)
    ensures
        match r {
            Ok(p) => save_conclusion(
                saved@,
                match failure {
                    Some(e) => Some(e@),
                    None => None,
                },
                text::optional(restored),
            ) == Ok::<app_config::ProxyView, (ErrorKind, Seq<char>)>(p@),
            Err(e) => save_conclusion(
                saved@,
                match failure {
                    Some(e) => Some(e@),
                    None => None,
                },
                text::optional(restored),
            ) == Err::<app_config::ProxyView, (ErrorKind, Seq<char>)>(e@),
        },
{
    match failure {
        None => Ok(saved),
        Some(failure) => match restored {
            None => Err(failure),
            Some(detail) => {
                let mut message = failure.message();
                message.append("; application settings could not be restored: ");
                message.append(detail.as_str());
                Err(DogiError::Config(message))
            },
        },
    }
}

/// How far the saving of a proxy is. The proxy is saved first, then its password is
/// changed; where that fails, the former proxy is put back.
#[derive(Debug)]
pub enum ProxySave {
    /// `preferences` are written.
    Saving {
        preferences: NetworkProxyPreferences,
        change: CredentialChange,
        original: NetworkProxyPreferences,
    },
    /// The password is changed.
    ChangingCredential {
        preferences: NetworkProxyPreferences,
        change: CredentialChange,
        original: NetworkProxyPreferences,
    },
    /// `original` is written again.
    Restoring {
        preferences: NetworkProxyPreferences,
        original: NetworkProxyPreferences,
        failure: DogiError,
    },
    /// It is over.
    Ended { result: Result<NetworkProxyPreferences, DogiError> },
}

/// The mathematical value of [`ProxySave`].
#[verifier::ext_equal]
pub enum ProxySaveView {
    Saving {
        preferences: app_config::ProxyView,
        change: CredentialView,
        original: app_config::ProxyView,
    },
    ChangingCredential {
        preferences: app_config::ProxyView,
        change: CredentialView,
        original: app_config::ProxyView,
    },
    Restoring {
        preferences: app_config::ProxyView,
        original: app_config::ProxyView,
        failure: (ErrorKind, Seq<char>),
    },
    Ended { result: Result<app_config::ProxyView, (ErrorKind, Seq<char>)> },
}

impl View for ProxySave {
    type V = ProxySaveView;

    open spec fn view(&self) -> ProxySaveView {
        match self {
            ProxySave::Saving { preferences, change, original } => ProxySaveView::Saving {
                preferences: preferences@,
                change: change@,
                original: original@,
            },
            ProxySave::ChangingCredential {
                preferences,
                change,
                original,
            } => ProxySaveView::ChangingCredential {
                preferences: preferences@,
                change: change@,
                original: original@,
            },
            ProxySave::Restoring { preferences, original, failure } => ProxySaveView::Restoring {
                preferences: preferences@,
                original: original@,
                failure: failure@,
            },
            ProxySave::Ended { result } => ProxySaveView::Ended {
                result: match result {
                    Ok(preferences) => Ok(preferences@),
                    Err(error) => Err(error@),
                },
            },
        }
    }
}

/// The saving of a draft begins, where nothing is wrong with the draft.
pub open spec fn save_begun(
    draft: app_config::ProxyView,
    password: Seq<char>,
    original: app_config::ProxyView,
) -> ProxySaveView {
    match save_fault(draft, password) {
        Some(fault) => ProxySaveView::Ended { result: Err((ErrorKind::InvalidArgument, fault)) },
        None => ProxySaveView::Saving {
            preferences: saved_proxy(draft),
            change: credential_change(draft, password, original),
            original,
        },
    }
}

/// What follows once the proxy was saved, or could not be.
pub open spec fn after_saving(save: ProxySaveView, failed: Option<Seq<char>>) -> ProxySaveView {
    match save {
        ProxySaveView::Saving { preferences, change, original } => match failed {
            Some(detail) => ProxySaveView::Ended { result: Err((ErrorKind::Config, detail)) },
            None => if change is Preserve {
                ProxySaveView::Ended { result: Ok(preferences) }
            } else {
                ProxySaveView::ChangingCredential { preferences, change, original }
            },
        },
        _ => save,
    }
}

/// What follows once the password was changed, or could not be.
pub open spec fn after_credential(
    save: ProxySaveView,
    failed: Option<(ErrorKind, Seq<char>)>,
) -> ProxySaveView {
    match save {
        ProxySaveView::ChangingCredential { preferences, change, original } => match failed {
            Some(failure) => ProxySaveView::Restoring { preferences, original, failure },
            None => ProxySaveView::Ended { result: Ok(preferences) },
        },
        _ => save,
    }
}

/// What follows once the former proxy was put back, or could not be.
pub open spec fn after_restoring(save: ProxySaveView, failed: Option<Seq<char>>) -> ProxySaveView {
    match save {
        ProxySaveView::Restoring { preferences, original, failure } => ProxySaveView::Ended {
            result: save_conclusion(preferences, Some(failure), failed),
        },
        _ => save,
    }
}

/// The proxy that is written at a step, if one is.
pub open spec fn written_proxy(save: ProxySaveView) -> Option<app_config::ProxyView> {
    match save {
        ProxySaveView::Saving { preferences, change, original } => Some(preferences),
        ProxySaveView::Restoring { preferences, original, failure } => Some(original),
        _ => None,
    }
}

impl ProxySave {
    /// Begins to save a draft. `original` is the proxy that was saved before.
    pub fn begin(draft: NetworkProxyDraft, original: NetworkProxyPreferences) -> (r: Self)
        ensures
            r@ == save_begun(draft.preferences@, draft.password@, original@),
    {
        match plan_save(draft, &original) {
            Ok((preferences, change)) => ProxySave::Saving { preferences, change, original },
            Err(error) => ProxySave::Ended { result: Err(error) },
        }
    }

    /// Takes in how writing the proxy went.
    pub fn note_saved(self, failed: Option<String>) -> (r: Self)
        ensures
            r@ == after_saving(self@, text::optional(failed)),
    {
        match self {
            ProxySave::Saving { preferences, change, original } => match failed {
                Some(detail) => ProxySave::Ended { result: Err(DogiError::Config(detail)) },
                None => match change {
                    CredentialChange::Preserve => ProxySave::Ended { result: Ok(preferences) },
                    change => ProxySave::ChangingCredential { preferences, change, original },
                },
            },
            other => other,
        }
    }

    /// Takes in how changing the password went.
    pub fn note_credential(self, failed: Option<DogiError>) -> (r: Self)
        ensures
            r@ == after_credential(
                self@,
                match failed {
                    Some(error) => Some(error@),
                    None => None,
                },
            ),
    {
        match self {
            ProxySave::ChangingCredential { preferences, change, original } => match failed {
                Some(failure) => ProxySave::Restoring { preferences, original, failure },
                None => ProxySave::Ended { result: Ok(preferences) },
            },
            other => other,
        }
    }

    /// Takes in how putting back the former proxy went.
    pub fn note_restored(self, failed: Option<String>) -> (r: Self)
        ensures
            r@ == after_restoring(self@, text::optional(failed)),
    {
        match self {
            ProxySave::Restoring { preferences, original, failure } => ProxySave::Ended {
                result: conclude_save(preferences, Some(failure), failed),
            },
            other => other,
        }
    }
}

/// The password of a proxy is changed only after the proxy was saved. Where that change
/// fails, the former proxy is put back; once it is, the preferences are what they were,
/// and the failure is reported as it is.
pub proof fn law_failed_credential_change_is_followed_by_a_restore(
    config: app_config::ConfigView,
    draft: app_config::ProxyView,
    password: Seq<char>,
    failure: (ErrorKind, Seq<char>),
    restoring: Option<Seq<char>>,
)
    requires
        after_saving(save_begun(draft, password, config.proxy), None) is ChangingCredential,
    ensures
        ({
            let begun = save_begun(draft, password, config.proxy);
            let saved = after_saving(begun, None);
            let failed = after_credential(saved, Some(failure));
            let over = after_restoring(failed, restoring);
            let written = app_config::ConfigView { proxy: written_proxy(begun)->0, ..config };
            let restored = app_config::ConfigView { proxy: written_proxy(failed)->0, ..written };
            &&& written_proxy(begun) == Some(saved_proxy(draft))
            &&& written_proxy(saved) is None
            &&& failed is Restoring
            &&& written_proxy(failed) == Some(config.proxy)
            &&& restored == config
            &&& over is Ended && over->result is Err
            &&& restoring is None ==> over->result == Err::<app_config::ProxyView, _>(failure)
        }),
{
}

/// A draft that is refused, and a proxy that cannot be written, leave the password as it
/// is.
pub proof fn law_password_is_changed_last(
    draft: app_config::ProxyView,
    password: Seq<char>,
    original: app_config::ProxyView,
    detail: Seq<char>,
)
    ensures
        !(save_begun(draft, password, original) is ChangingCredential),
        save_fault(draft, password) is Some ==> written_proxy(save_begun(draft, password, original))
            is None,
        after_saving(save_begun(draft, password, original), Some(detail)) is Ended,
{
}

/// The failure to read the password of the proxy.
pub fn credential_read_error(missing: bool, detail: &str) -> (r: DogiError)
    ensures
        r@ == (if missing {
            (ErrorKind::Config, "the saved proxy password is missing; enter it again"@)
        } else {
            (
                ErrorKind::BackendUnavailable,
                "could not read the proxy password from the desktop credential store: "@ + detail@,
            )
        }),
{
    if missing {
        DogiError::Config("the saved proxy password is missing; enter it again".to_owned())
    } else {
        DogiError::BackendUnavailable(
            text::concat2(
                "could not read the proxy password from the desktop credential store: ",
                detail,
            ),
        )
    }
}

/// The failure to keep the password of the proxy.
pub fn credential_write_error(detail: &str) -> (r: DogiError)
    ensures
        r@ == (
            ErrorKind::BackendUnavailable,
            "could not save the proxy password in the desktop credential store: "@ + detail@,
        ),
{
    DogiError::BackendUnavailable(
        text::concat2(
            "could not save the proxy password in the desktop credential store: ",
            detail,
        ),
    )
}

/// The failure to forget the password of the proxy; none where there was no password.
pub fn credential_removal_error(missing: bool, detail: &str) -> (r: Option<DogiError>)
    ensures
        missing <==> r is None,
        r matches Some(e) ==> e@ == (
            ErrorKind::BackendUnavailable,
            "could not remove the proxy password from the desktop credential store: "@ + detail@,
        ),
{
    if missing {
        None
    } else {
        Some(
            DogiError::BackendUnavailable(
                text::concat2(
                    "could not remove the proxy password from the desktop credential store: ",
                    detail,
                ),
            ),
        )
    }
}

/// A manual proxy with a host, a port and, where it asks for one, a user is accepted, with the
/// space around the host and the user taken away; and no other way of using the network needs
/// any of these.
pub proof fn law_sound_proxies_are_accepted(p: app_config::ProxyView)
    ensures
        cleaned(p).host == text::trimmed(p.host),
        cleaned(p).username == text::trimmed(p.username),
        cleaned(p).mode == p.mode && cleaned(p).protocol == p.protocol && cleaned(p).port == p.port,
        cleaned(p).authentication_enabled == p.authentication_enabled,
        cleaned(p).password_saved == p.password_saved,
        p.mode is System || p.mode is Direct ==> proxy_fault(p) is None,
        p.mode is Manual ==> (proxy_fault(p) is None <==> {
            let host = text::trimmed(p.host);
            &&& host.len() > 0
            &&& !text::has_part(host, "://"@)
            &&& !text::has_part(host, "@"@)
            &&& forall|i: int| 0 <= i < host.len() ==> !text::is_white_space(#[trigger] host[i])
            &&& p.port > 0
            &&& p.authentication_enabled ==> text::trimmed(p.username).len() > 0
        }),
{
}

/// Saving a sound proxy writes it, changes the password only where there is something to
/// change, and ends with what was written.
pub proof fn law_sound_proxies_are_saved(
    p: app_config::ProxyView,
    password: Seq<char>,
    original: app_config::ProxyView,
)
    requires
        proxy_fault(p) is None,
    ensures
        save_fault(p, password) is None <==> !p.authentication_enabled || password.len() > 0
            || p.password_saved,
        save_fault(p, password) is None ==> ({
            let begun = save_begun(p, password, original);
            let wanted = app_config::ProxyView {
                password_saved: p.authentication_enabled,
                ..cleaned(p)
            };
            let saved = after_saving(begun, None);
            let over = after_credential(saved, None);
            &&& written_proxy(begun) == Some(wanted)
            &&& over is Ended && over->result == Ok::<app_config::ProxyView, (ErrorKind, Seq<char>)>(
                wanted,
            )
            &&& p.authentication_enabled && password.len() > 0 ==> saved is ChangingCredential
                && saved->ChangingCredential_change == CredentialView::Store(password)
            &&& p.authentication_enabled && password.len() == 0 ==> saved is Ended
            &&& !p.authentication_enabled && (p.password_saved || original.password_saved)
                ==> saved is ChangingCredential && saved->ChangingCredential_change
                == CredentialView::Remove
            &&& !p.authentication_enabled && !p.password_saved && !original.password_saved
                ==> saved is Ended
        }),
{
}

/// What could not be written is told, and so is what could not be put back.
pub proof fn law_failed_saves_are_told(
    saved: app_config::ProxyView,
    failure: (ErrorKind, Seq<char>),
    detail: Seq<char>,
)
    ensures
        save_conclusion(saved, None, None) == Ok::<app_config::ProxyView, (ErrorKind, Seq<char>)>(
            saved,
        ),
        save_conclusion(saved, Some(failure), None) == Err::<
            app_config::ProxyView,
            (ErrorKind, Seq<char>),
        >(failure),
        save_conclusion(saved, Some(failure), Some(detail)) is Err,
        NETWORK_TIMEOUT_MS == 30 * 1000,
        forall|missing: bool, text: &str, r: Option<DogiError>|
            #![trigger call_ensures(credential_removal_error, (missing, text), r)]
            call_ensures(credential_removal_error, (missing, text), r) ==> (r is None <==> missing),
{
}

}
