//! Edits that were made before it was known which device they are for: only what
//! was edited is carried over to the settings that the device has.

use crate::settings::{AppProfile, ButtonBinding, GestureBindings, Master3sButton, Master3sSettings};
use crate::settings;
use crate::text;
use vstd::prelude::*;

verus! {

/// What a field comes to: the draft where it was edited, and else what is saved.
pub open spec fn merged<T>(base: T, draft: T, saved: T) -> T {
    if draft != base {
        draft
    } else {
        saved
    }
}

/// What the gestures come to.
pub open spec fn merged_gestures(
    base: GestureBindings,
    draft: GestureBindings,
    saved: GestureBindings,
) -> GestureBindings {
    GestureBindings {
        threshold: merged(base.threshold, draft.threshold, saved.threshold),
        click: merged(base.click, draft.click, saved.click),
        up: merged(base.up, draft.up, saved.up),
        down: merged(base.down, draft.down, saved.down),
        left: merged(base.left, draft.left, saved.left),
        right: merged(base.right, draft.right, saved.right),
    }
}

/// What the buttons come to.
pub open spec fn merged_buttons(
    base: Seq<ButtonBinding>,
    draft: Seq<ButtonBinding>,
    saved: Seq<ButtonBinding>,
) -> Seq<ButtonBinding> {
    Seq::new(
        settings::all_buttons().len(),
        |i: int|
            {
                let button = settings::all_buttons()[i];
                ButtonBinding {
                    button,
                    action: merged(
                        settings::action_for(base, button),
                        settings::action_for(draft, button),
                        settings::action_for(saved, button),
                    ),
                }
            },
    )
}

/// What identifies the profile of an application: its name without the spaces
/// around it, in lower case.
pub open spec fn profile_key(name: Seq<char>) -> Seq<char> {
    text::lowered(text::trimmed(name))
}

/// What identifies the profile of an application.
pub fn normalize_app_profile_key(name: &str) -> (r: String)
    ensures
        r@ == profile_key(name@),
{
    text::lower_text(text::trim(name).as_str())
}

/// The first profile of a key at or after `i`, or the number of profiles.
pub open spec fn key_index(profiles: Seq<settings::ProfileView>, key: Seq<char>, i: int) -> int
    decreases profiles.len() - i,
{
    if 0 <= i < profiles.len() && profile_key(profiles[i].name) != key {
        key_index(profiles, key, i + 1)
    } else {
        i
    }
}

/// Whether some profile has a key.
pub open spec fn has_key(profiles: Seq<settings::ProfileView>, key: Seq<char>) -> bool {
    key_index(profiles, key, 0) < profiles.len()
}

/// Those of the first `n` saved profiles that were not deleted in the draft.
pub open spec fn retained(
    base: Seq<settings::ProfileView>,
    draft: Seq<settings::ProfileView>,
    saved: Seq<settings::ProfileView>,
    n: nat,
) -> Seq<settings::ProfileView>
    decreases n,
{
    if n == 0 || n > saved.len() {
        Seq::empty()
    } else {
        let before = retained(base, draft, saved, (n - 1) as nat);
        let key = profile_key(saved[n - 1].name);
        if !has_key(base, key) || has_key(draft, key) {
            before.push(saved[n - 1])
        } else {
            before
        }
    }
}

/// Whether a profile of the draft is as it was.
pub open spec fn unedited(
    base: Seq<settings::ProfileView>,
    profile: settings::ProfileView,
) -> bool {
    let at = key_index(base, profile_key(profile.name), 0);
    at < base.len() && base[at] == profile
}

/// Profiles once one of them was placed: where the first of its key is, or at the
/// end.
pub open spec fn placed(
    profiles: Seq<settings::ProfileView>,
    profile: settings::ProfileView,
) -> Seq<settings::ProfileView> {
    let at = key_index(profiles, profile_key(profile.name), 0);
    if at < profiles.len() {
        profiles.update(at, profile)
    } else {
        profiles.push(profile)
    }
}

/// Profiles once those of the first `n` of the draft were placed that were edited.
pub open spec fn edits_placed(
    base: Seq<settings::ProfileView>,
    draft: Seq<settings::ProfileView>,
    profiles: Seq<settings::ProfileView>,
    n: nat,
) -> Seq<settings::ProfileView>
    decreases n,
{
    if n == 0 || n > draft.len() {
        profiles
    } else {
        let before = edits_placed(base, draft, profiles, (n - 1) as nat);
        if unedited(base, draft[n - 1]) {
            before
        } else {
            placed(before, draft[n - 1])
        }
    }
}

/// What the profiles come to.
pub open spec fn merged_profiles(
    base: Seq<settings::ProfileView>,
    draft: Seq<settings::ProfileView>,
    saved: Seq<settings::ProfileView>,
) -> Seq<settings::ProfileView> {
    edits_placed(base, draft, retained(base, draft, saved, saved.len()), draft.len())
}

/// What the settings come to, before they are brought into normal form.
pub open spec fn merged_settings(
    base: settings::SettingsView,
    draft: settings::SettingsView,
    saved: settings::SettingsView,
) -> settings::SettingsView {
    settings::SettingsView {
        profile_name: merged(base.profile_name, draft.profile_name, saved.profile_name),
        pointer_speed_percent: merged(
            base.pointer_speed_percent,
            draft.pointer_speed_percent,
            saved.pointer_speed_percent,
        ),
        smart_shift_enabled: merged(
            base.smart_shift_enabled,
            draft.smart_shift_enabled,
            saved.smart_shift_enabled,
        ),
        smart_shift_threshold: merged(
            base.smart_shift_threshold,
            draft.smart_shift_threshold,
            saved.smart_shift_threshold,
        ),
        ratchet_mode: merged(base.ratchet_mode, draft.ratchet_mode, saved.ratchet_mode),
        high_resolution_scroll: merged(
            base.high_resolution_scroll,
            draft.high_resolution_scroll,
            saved.high_resolution_scroll,
        ),
        natural_scroll: merged(base.natural_scroll, draft.natural_scroll, saved.natural_scroll),
        thumb_wheel: merged(base.thumb_wheel, draft.thumb_wheel, saved.thumb_wheel),
        thumb_wheel_speed_percent: merged(
            base.thumb_wheel_speed_percent,
            draft.thumb_wheel_speed_percent,
            saved.thumb_wheel_speed_percent,
        ),
        buttons: merged_buttons(base.buttons, draft.buttons, saved.buttons),
        gestures: merged_gestures(base.gestures, draft.gestures, saved.gestures),
        app_profiles: merged_profiles(base.app_profiles, draft.app_profiles, saved.app_profiles),
    }
}

/// Settings with the edits of a draft.
pub open spec fn rebased(
    base: settings::SettingsView,
    draft: settings::SettingsView,
    saved: settings::SettingsView,
) -> settings::SettingsView {
    settings::normal_settings(merged_settings(base, draft, saved))
}

/// Profiles of the same key in a list are the same.
pub open spec fn consistent(profiles: Seq<settings::ProfileView>) -> bool {
    forall|i: int| 0 <= i < profiles.len() ==> unedited(profiles, #[trigger] profiles[i])
}

proof fn lemma_key_index(profiles: Seq<settings::ProfileView>, key: Seq<char>, i: int)
    requires
        0 <= i <= profiles.len(),
    ensures
        i <= key_index(profiles, key, i) <= profiles.len(),
        key_index(profiles, key, i) < profiles.len() ==> profile_key(
            profiles[key_index(profiles, key, i)].name,
        ) == key,
        forall|k: int|
            i <= k < key_index(profiles, key, i) ==> profile_key((#[trigger] profiles[k]).name)
                != key,
    decreases profiles.len() - i,
{
    if i < profiles.len() && profile_key(profiles[i].name) != key {
        lemma_key_index(profiles, key, i + 1);
    }
}

proof fn lemma_unrelated_retained(
    base: Seq<settings::ProfileView>,
    draft: Seq<settings::ProfileView>,
    saved: Seq<settings::ProfileView>,
    n: nat,
    i: int,
)
    requires
        0 <= i < n <= saved.len(),
        !has_key(base, profile_key(saved[i].name)),
    ensures
        retained(base, draft, saved, n).contains(saved[i]),
    decreases n,
{
    let after = retained(base, draft, saved, n);
    let before = retained(base, draft, saved, (n - 1) as nat);
    if i == n - 1 {
        assert(after[before.len() as int] == saved[i]);
    } else {
        lemma_unrelated_retained(base, draft, saved, (n - 1) as nat, i);
        let k = choose|k: int| 0 <= k < before.len() && before[k] == saved[i];
        assert(after[k] == saved[i]);
    }
}

proof fn lemma_unrelated_stays(
    base: Seq<settings::ProfileView>,
    draft: Seq<settings::ProfileView>,
    profiles: Seq<settings::ProfileView>,
    n: nat,
    profile: settings::ProfileView,
)
    requires
        n <= draft.len(),
        profiles.contains(profile),
        !has_key(draft, profile_key(profile.name)),
    ensures
        edits_placed(base, draft, profiles, n).contains(profile),
    decreases n,
{
    if n > 0 {
        lemma_unrelated_stays(base, draft, profiles, (n - 1) as nat, profile);
        let before = edits_placed(base, draft, profiles, (n - 1) as nat);
        let after = edits_placed(base, draft, profiles, n);
        let k = choose|k: int| 0 <= k < before.len() && before[k] == profile;
        lemma_key_index(draft, profile_key(profile.name), 0);
        assert(profile_key(draft[n - 1].name) != profile_key(profile.name));
        lemma_key_index(before, profile_key(draft[n - 1].name), 0);
        assert(after[k] == profile);
    }
}

/// A saved profile that the draft has nothing to do with is kept.
pub proof fn law_unrelated_profiles_are_kept(
    base: Seq<settings::ProfileView>,
    draft: Seq<settings::ProfileView>,
    saved: Seq<settings::ProfileView>,
    i: int,
)
    requires
        0 <= i < saved.len(),
        !has_key(base, profile_key(saved[i].name)),
        !has_key(draft, profile_key(saved[i].name)),
    ensures
        merged_profiles(base, draft, saved).contains(saved[i]),
{
    lemma_unrelated_retained(base, draft, saved, saved.len(), i);
    lemma_unrelated_stays(
        base,
        draft,
        retained(base, draft, saved, saved.len()),
        draft.len(),
        saved[i],
    );
}

proof fn lemma_all_retained(
    base: Seq<settings::ProfileView>,
    saved: Seq<settings::ProfileView>,
    n: nat,
)
    requires
        n <= saved.len(),
    ensures
        retained(base, base, saved, n) == saved.take(n as int),
    decreases n,
{
    if n > 0 {
        lemma_all_retained(base, saved, (n - 1) as nat);
        assert(saved.take(n as int) =~= saved.take(n - 1).push(saved[n - 1]));
    } else {
        assert(saved.take(0) =~= Seq::<settings::ProfileView>::empty());
    }
}

proof fn lemma_no_edits(
    base: Seq<settings::ProfileView>,
    profiles: Seq<settings::ProfileView>,
    n: nat,
)
    requires
        consistent(base),
        n <= base.len(),
    ensures
        edits_placed(base, base, profiles, n) == profiles,
    decreases n,
{
    if n > 0 {
        lemma_no_edits(base, profiles, (n - 1) as nat);
        assert(unedited(base, base[n - 1]));
    }
}

/// Where nothing was edited, what is saved stays as it is.
pub proof fn law_no_edit_keeps_what_is_saved(
    base: settings::SettingsView,
    saved: settings::SettingsView,
)
    requires
        consistent(base.app_profiles),
    ensures
        rebased(base, base, saved) == settings::normal_settings(saved),
{
    let m = merged_settings(base, base, saved);
    lemma_all_retained(base.app_profiles, saved.app_profiles, saved.app_profiles.len());
    assert(saved.app_profiles.take(saved.app_profiles.len() as int) =~= saved.app_profiles);
    lemma_no_edits(base.app_profiles, saved.app_profiles, base.app_profiles.len());
    assert(m.app_profiles == saved.app_profiles);
    assert(m.buttons =~= settings::normal_buttons(saved.buttons));
    assert forall|i: int| 0 <= i < settings::all_buttons().len() implies settings::normal_buttons(
        m.buttons,
    )[i] == settings::normal_buttons(saved.buttons)[i] by {
        settings::lemma_normal_buttons_action(saved.buttons, settings::all_buttons()[i]);
    }
    assert(settings::normal_buttons(m.buttons) =~= settings::normal_buttons(saved.buttons));
    assert(rebased(base, base, saved) =~= settings::normal_settings(saved));
}

/// A button that was edited does what it was told, and one that was not keeps what
/// is saved for it.
pub proof fn law_button_edits_are_carried_over(
    base: settings::SettingsView,
    draft: settings::SettingsView,
    saved: settings::SettingsView,
    button: Master3sButton,
)
    ensures
        settings::action_for(rebased(base, draft, saved).buttons, button) == merged(
            settings::action_for(base.buttons, button),
            settings::action_for(draft.buttons, button),
            settings::action_for(saved.buttons, button),
        ),
{
    let m = merged_buttons(base.buttons, draft.buttons, saved.buttons);
    settings::lemma_normal_buttons_action(m, button);
    settings::lemma_button_position(button);
    let at = settings::button_position(button);
    settings::lemma_binding_index(m, button, 0);
    assert(m[at].button == button);
    let found = settings::binding_index(m, button, 0);
    assert(m[found].button == settings::all_buttons()[found]);
}

/// A setting that was edited is taken over, and one that was not stays as it is
/// saved, in either case within its range.
pub proof fn law_edits_win_field_by_field(
    base: settings::SettingsView,
    draft: settings::SettingsView,
    saved: settings::SettingsView,
)
    ensures
        rebased(base, draft, saved).pointer_speed_percent == (if draft.pointer_speed_percent
            != base.pointer_speed_percent {
            settings::normal_settings(draft).pointer_speed_percent
        } else {
            settings::normal_settings(saved).pointer_speed_percent
        }),
        rebased(base, draft, saved).smart_shift_threshold == (if draft.smart_shift_threshold
            != base.smart_shift_threshold {
            settings::normal_settings(draft).smart_shift_threshold
        } else {
            settings::normal_settings(saved).smart_shift_threshold
        }),
        rebased(base, draft, saved).thumb_wheel_speed_percent == (
        if draft.thumb_wheel_speed_percent != base.thumb_wheel_speed_percent {
            settings::normal_settings(draft).thumb_wheel_speed_percent
        } else {
            settings::normal_settings(saved).thumb_wheel_speed_percent
        }),
        rebased(base, draft, saved).ratchet_mode == merged(
            base.ratchet_mode,
            draft.ratchet_mode,
            saved.ratchet_mode,
        ),
        rebased(base, draft, saved).thumb_wheel == merged(
            base.thumb_wheel,
            draft.thumb_wheel,
            saved.thumb_wheel,
        ),
        rebased(base, draft, saved).gestures == merged_gestures(
            base.gestures,
            draft.gestures,
            saved.gestures,
        ),
{
}

fn find_key(profiles: &Vec<AppProfile>, key: &str) -> (r: usize)
    ensures
        r == key_index(settings::profile_views(profiles@), key@, 0),
        r <= profiles@.len(),
{
    let mut i: usize = 0;
    while i < profiles.len()
        invariant
            i <= profiles@.len(),
            key_index(settings::profile_views(profiles@), key@, i as int) == key_index(
                settings::profile_views(profiles@),
                key@,
                0,
            ),
        decreases profiles@.len() - i,
    {
        if text::same_text(normalize_app_profile_key(profiles[i].name.as_str()).as_str(), key) {
            return i;
        }
        i += 1;
    }
    i
}

fn retain_profiles(
    base: &Vec<AppProfile>,
    draft: &Vec<AppProfile>,
    saved: &Vec<AppProfile>,
) -> (r: Vec<AppProfile>)
    ensures
        settings::profile_views(r@) == retained(
            settings::profile_views(base@),
            settings::profile_views(draft@),
            settings::profile_views(saved@),
            saved@.len(),
        ),
{
    let ghost b = settings::profile_views(base@);
    let ghost d = settings::profile_views(draft@);
    let ghost s = settings::profile_views(saved@);
    let mut kept: Vec<AppProfile> = Vec::new();
    let mut i: usize = 0;
    assert(settings::profile_views(kept@) =~= retained(b, d, s, 0));
    while i < saved.len()
        invariant
            i <= saved@.len(),
            b == settings::profile_views(base@),
            d == settings::profile_views(draft@),
            s == settings::profile_views(saved@),
            settings::profile_views(kept@) == retained(b, d, s, i as nat),
        decreases saved@.len() - i,
    {
        let key = normalize_app_profile_key(saved[i].name.as_str());
        if find_key(base, key.as_str()) >= base.len() || find_key(draft, key.as_str())
            < draft.len() {
            kept.push(saved[i].clone());
        }
        i += 1;
        assert(settings::profile_views(kept@) =~= retained(b, d, s, i as nat));
    }
    kept
}

/// What the profiles come to: those of the draft that were edited replace those of
/// their key, in their place, and those that the draft deleted are gone.
pub fn merge_profiles(
    base: &Vec<AppProfile>,
    draft: &Vec<AppProfile>,
    saved: &Vec<AppProfile>,
) -> (r: Vec<AppProfile>)
    ensures
        settings::profile_views(r@) == merged_profiles(
            settings::profile_views(base@),
            settings::profile_views(draft@),
            settings::profile_views(saved@),
        ),
{
    let ghost b = settings::profile_views(base@);
    let ghost d = settings::profile_views(draft@);
    let ghost s = settings::profile_views(saved@);
    let ghost start = retained(b, d, s, s.len());
    let mut profiles = retain_profiles(base, draft, saved);
    let mut i: usize = 0;
    while i < draft.len()
        invariant
            i <= draft@.len(),
            b == settings::profile_views(base@),
            d == settings::profile_views(draft@),
            settings::profile_views(profiles@) == edits_placed(b, d, start, i as nat),
        decreases draft@.len() - i,
    {
        let profile = &draft[i];
        let ghost before = settings::profile_views(profiles@);
        let key = normalize_app_profile_key(profile.name.as_str());
        let was = find_key(base, key.as_str());
        let same = was < base.len() && settings::same_profile(&base[was], profile);
        assert(d[i as int] == profile@);
        if !same {
            let at = find_key(&profiles, key.as_str());
            if at < profiles.len() {
                profiles.set(at, profile.clone());
                assert(settings::profile_views(profiles@) =~= before.update(
                    at as int,
                    profile@,
                ));
            } else {
                profiles.push(profile.clone());
                assert(settings::profile_views(profiles@) =~= before.push(profile@));
            }
        }
        i += 1;
        assert(settings::profile_views(profiles@) == edits_placed(b, d, start, i as nat));
    }
    profiles
}

fn merge_gestures(
    base: &GestureBindings,
    draft: &GestureBindings,
    saved: &GestureBindings,
) -> (r: GestureBindings)
    ensures
        r == merged_gestures(*base, *draft, *saved),
{
    GestureBindings {
        threshold: if draft.threshold != base.threshold {
            draft.threshold
        } else {
            saved.threshold
        },
        click: if draft.click != base.click {
            draft.click
        } else {
            saved.click
        },
        up: if draft.up != base.up {
            draft.up
        } else {
            saved.up
        },
        down: if draft.down != base.down {
            draft.down
        } else {
            saved.down
        },
        left: if draft.left != base.left {
            draft.left
        } else {
            saved.left
        },
        right: if draft.right != base.right {
            draft.right
        } else {
            saved.right
        },
    }
}

fn merge_buttons(
    base: &Master3sSettings,
    draft: &Master3sSettings,
    saved: &Master3sSettings,
) -> (r: Vec<ButtonBinding>)
    ensures
        r@ == merged_buttons(base@.buttons, draft@.buttons, saved@.buttons),
{
    let ghost all = merged_buttons(base@.buttons, draft@.buttons, saved@.buttons);
    let buttons = Master3sButton::all();
    let mut r: Vec<ButtonBinding> = Vec::new();
    let mut i: usize = 0;
    while i < buttons.len()
        invariant
            buttons@ == settings::all_buttons(),
            i <= buttons@.len(),
            all == merged_buttons(base@.buttons, draft@.buttons, saved@.buttons),
            r@ == all.take(i as int),
        decreases buttons@.len() - i,
    {
        let button = buttons[i];
        let wanted = draft.button_action(button);
        let action = if wanted != base.button_action(button) {
            wanted
        } else {
            saved.button_action(button)
        };
        r.push(ButtonBinding { button, action });
        i += 1;
        assert(r@ =~= all.take(i as int));
    }
    assert(all.take(buttons@.len() as int) =~= all);
    r
}

/// Settings with the edits of a draft: what differs in the draft from what it was
/// begun with.
pub fn rebase(
    base: &Master3sSettings,
    draft: &Master3sSettings,
    saved: &Master3sSettings,
) -> (r: Master3sSettings)
    ensures
        r@ == rebased(base@, draft@, saved@),
{
    let m = Master3sSettings {
        profile_name: if !text::same_text(
            draft.profile_name.as_str(),
            base.profile_name.as_str(),
        ) {
            draft.profile_name.clone()
        } else {
            saved.profile_name.clone()
        },
        pointer_speed_percent: if draft.pointer_speed_percent != base.pointer_speed_percent {
            draft.pointer_speed_percent
        } else {
            saved.pointer_speed_percent
        },
        smart_shift_enabled: if draft.smart_shift_enabled != base.smart_shift_enabled {
            draft.smart_shift_enabled
        } else {
            saved.smart_shift_enabled
        },
        smart_shift_threshold: if draft.smart_shift_threshold != base.smart_shift_threshold {
            draft.smart_shift_threshold
        } else {
            saved.smart_shift_threshold
        },
        ratchet_mode: if draft.ratchet_mode != base.ratchet_mode {
            draft.ratchet_mode
        } else {
            saved.ratchet_mode
        },
        high_resolution_scroll: if draft.high_resolution_scroll != base.high_resolution_scroll {
            draft.high_resolution_scroll
        } else {
            saved.high_resolution_scroll
        },
        natural_scroll: if draft.natural_scroll != base.natural_scroll {
            draft.natural_scroll
        } else {
            saved.natural_scroll
        },
        thumb_wheel: if draft.thumb_wheel != base.thumb_wheel {
            draft.thumb_wheel
        } else {
            saved.thumb_wheel
        },
        thumb_wheel_speed_percent: if draft.thumb_wheel_speed_percent
            != base.thumb_wheel_speed_percent {
            draft.thumb_wheel_speed_percent
        } else {
            saved.thumb_wheel_speed_percent
        },
        buttons: merge_buttons(base, draft, saved),
        gestures: merge_gestures(&base.gestures, &draft.gestures, &saved.gestures),
        app_profiles: merge_profiles(&base.app_profiles, &draft.app_profiles, &saved.app_profiles),
    };
    assert(m@ =~= merged_settings(base@, draft@, saved@));
    m.normalized()
}

/// Where the user edited a setting, the edit is what comes out, in its normal form; where they
/// did not, what was saved meanwhile.
pub proof fn law_each_edit_wins_alone(
    base: settings::SettingsView,
    draft: settings::SettingsView,
    saved: settings::SettingsView,
    button: Master3sButton,
)
    ensures
        ({
            let r = rebased(base, draft, saved);
            &&& r.pointer_speed_percent == if draft.pointer_speed_percent
                == base.pointer_speed_percent {
                settings::normal_settings(saved).pointer_speed_percent
            } else {
                settings::normal_settings(draft).pointer_speed_percent
            }
            &&& r.profile_name == if draft.profile_name == base.profile_name {
                saved.profile_name
            } else {
                draft.profile_name
            }
            &&& r.smart_shift_enabled == if draft.smart_shift_enabled == base.smart_shift_enabled {
                saved.smart_shift_enabled
            } else {
                draft.smart_shift_enabled
            }
            &&& r.ratchet_mode == if draft.ratchet_mode == base.ratchet_mode {
                saved.ratchet_mode
            } else {
                draft.ratchet_mode
            }
            &&& r.high_resolution_scroll == if draft.high_resolution_scroll
                == base.high_resolution_scroll {
                saved.high_resolution_scroll
            } else {
                draft.high_resolution_scroll
            }
            &&& r.natural_scroll == if draft.natural_scroll == base.natural_scroll {
                saved.natural_scroll
            } else {
                draft.natural_scroll
            }
            &&& r.thumb_wheel == if draft.thumb_wheel == base.thumb_wheel {
                saved.thumb_wheel
            } else {
                draft.thumb_wheel
            }
            &&& r.gestures.threshold == if draft.gestures.threshold == base.gestures.threshold {
                saved.gestures.threshold
            } else {
                draft.gestures.threshold
            }
            &&& r.gestures.click == if draft.gestures.click == base.gestures.click {
                saved.gestures.click
            } else {
                draft.gestures.click
            }
            &&& r.gestures.up == if draft.gestures.up == base.gestures.up {
                saved.gestures.up
            } else {
                draft.gestures.up
            }
            &&& r.gestures.down == if draft.gestures.down == base.gestures.down {
                saved.gestures.down
            } else {
                draft.gestures.down
            }
            &&& r.gestures.left == if draft.gestures.left == base.gestures.left {
                saved.gestures.left
            } else {
                draft.gestures.left
            }
            &&& r.gestures.right == if draft.gestures.right == base.gestures.right {
                saved.gestures.right
            } else {
                draft.gestures.right
            }
            &&& settings::action_for(r.buttons, button) == if settings::action_for(
                draft.buttons,
                button,
            ) == settings::action_for(base.buttons, button) {
                settings::action_for(saved.buttons, button)
            } else {
                settings::action_for(draft.buttons, button)
            }
        }),
{
    law_edits_win_field_by_field(base, draft, saved);
    law_button_edits_are_carried_over(base, draft, saved, button);
}

/// A profile that the user edited or added comes out as they wrote it, and one that they
/// deleted is gone. Profiles are told apart by their names, whatever the case.
pub proof fn law_profile_edits_are_carried_over(
    base: Seq<settings::ProfileView>,
    draft: Seq<settings::ProfileView>,
    saved: Seq<settings::ProfileView>,
    i: int,
    key: Seq<char>,
)
    ensures
        0 <= i < draft.len() && !unedited(base, draft[i]) && (forall|k: int|
            i < k < draft.len() ==> profile_key((#[trigger] draft[k]).name) != profile_key(
                draft[i].name,
            )) ==> merged_profiles(base, draft, saved).contains(draft[i]),
        has_key(base, key) && !has_key(draft, key) ==> !has_key(
            merged_profiles(base, draft, saved),
            key,
        ),
{
    let kept = retained(base, draft, saved, saved.len());
    if 0 <= i < draft.len() && !unedited(base, draft[i]) && (forall|k: int|
        i < k < draft.len() ==> profile_key((#[trigger] draft[k]).name) != profile_key(
            draft[i].name,
        )) {
        lemma_edit_stays(base, draft, kept, i, draft.len());
    }
    if has_key(base, key) && !has_key(draft, key) {
        lemma_deleted_is_not_retained(base, draft, saved, key, saved.len());
        lemma_edits_keep_keys_away(base, draft, kept, key, draft.len());
        lemma_no_key(merged_profiles(base, draft, saved), key);
    }
}

proof fn lemma_edit_stays(
    base: Seq<settings::ProfileView>,
    draft: Seq<settings::ProfileView>,
    profiles: Seq<settings::ProfileView>,
    i: int,
    n: nat,
)
    requires
        0 <= i < n <= draft.len(),
        !unedited(base, draft[i]),
        forall|k: int|
            i < k < draft.len() ==> profile_key((#[trigger] draft[k]).name) != profile_key(
                draft[i].name,
            ),
    ensures
        edits_placed(base, draft, profiles, n).contains(draft[i]),
    decreases n,
{
    let before = edits_placed(base, draft, profiles, (n - 1) as nat);
    let last = draft[n - 1];
    let at = key_index(before, profile_key(last.name), 0);
    lemma_key_found(before, profile_key(last.name), 0);
    if i == n - 1 {
        assert(placed(before, last)[at] == last);
    } else {
        lemma_edit_stays(base, draft, profiles, i, (n - 1) as nat);
        let k = before.index_of(draft[i]);
        assert(before[k] == draft[i]);
        if !unedited(base, last) {
            assert(placed(before, last)[k] == draft[i]);
        }
    }
}

proof fn lemma_key_found(profiles: Seq<settings::ProfileView>, key: Seq<char>, i: int)
    requires
        0 <= i <= profiles.len(),
    ensures
        i <= key_index(profiles, key, i) <= profiles.len(),
        key_index(profiles, key, i) < profiles.len() ==> profile_key(
            profiles[key_index(profiles, key, i)].name,
        ) == key,
        forall|k: int|
            i <= k < key_index(profiles, key, i) ==> profile_key((#[trigger] profiles[k]).name)
                != key,
    decreases profiles.len() - i,
{
    if i < profiles.len() && profile_key(profiles[i].name) != key {
        lemma_key_found(profiles, key, i + 1);
    }
}

proof fn lemma_no_key(profiles: Seq<settings::ProfileView>, key: Seq<char>)
    ensures
        has_key(profiles, key) <==> exists|k: int|
            0 <= k < profiles.len() && profile_key((#[trigger] profiles[k]).name) == key,
{
    lemma_key_found(profiles, key, 0);
    if has_key(profiles, key) {
        assert(profile_key(profiles[key_index(profiles, key, 0)].name) == key);
    }
}

proof fn lemma_deleted_is_not_retained(
    base: Seq<settings::ProfileView>,
    draft: Seq<settings::ProfileView>,
    saved: Seq<settings::ProfileView>,
    key: Seq<char>,
    n: nat,
)
    requires
        has_key(base, key),
        !has_key(draft, key),
        n <= saved.len(),
    ensures
        forall|k: int|
            0 <= k < retained(base, draft, saved, n).len() ==> profile_key(
                (#[trigger] retained(base, draft, saved, n)[k]).name,
            ) != key,
    decreases n,
{
    if n > 0 {
        lemma_deleted_is_not_retained(base, draft, saved, key, (n - 1) as nat);
        let before = retained(base, draft, saved, (n - 1) as nat);
        let after = retained(base, draft, saved, n);
        assert forall|k: int| 0 <= k < after.len() implies profile_key((#[trigger] after[k]).name)
            != key by {
            if k < before.len() {
                assert(after[k] == before[k]);
            }
        }
    }
}

proof fn lemma_edits_keep_keys_away(
    base: Seq<settings::ProfileView>,
    draft: Seq<settings::ProfileView>,
    profiles: Seq<settings::ProfileView>,
    key: Seq<char>,
    n: nat,
)
    requires
        !has_key(draft, key),
        n <= draft.len(),
        forall|k: int|
            0 <= k < profiles.len() ==> profile_key((#[trigger] profiles[k]).name) != key,
    ensures
        forall|k: int|
            0 <= k < edits_placed(base, draft, profiles, n).len() ==> profile_key(
                (#[trigger] edits_placed(base, draft, profiles, n)[k]).name,
            ) != key,
    decreases n,
{
    if n > 0 {
        lemma_edits_keep_keys_away(base, draft, profiles, key, (n - 1) as nat);
        lemma_no_key(draft, key);
        let before = edits_placed(base, draft, profiles, (n - 1) as nat);
        let after = edits_placed(base, draft, profiles, n);
        let last = draft[n - 1];
        lemma_key_found(before, profile_key(last.name), 0);
        assert forall|k: int| 0 <= k < after.len() implies profile_key((#[trigger] after[k]).name)
            != key by {
            if k < before.len() {
                assert(after[k] == before[k] || after[k] == last);
            }
        }
    }
}

/// Names that differ only in their case, or in the space around them, name the same profile.
pub proof fn law_profile_names_ignore_case(a: Seq<char>, b: Seq<char>)
    requires
        text::trimmed(a).len() == text::trimmed(b).len(),
        forall|i: int|
            0 <= i < text::trimmed(a).len() ==> {
                let x = #[trigger] text::trimmed(a)[i];
                let y = text::trimmed(b)[i];
                x == y || ('A' <= x <= 'Z' && y as int == x as int + 32) || ('A' <= y <= 'Z'
                    && x as int == y as int + 32)
            },
    ensures
        profile_key(a) == profile_key(b),
{
    assert(profile_key(a) =~= profile_key(b));
}

}
