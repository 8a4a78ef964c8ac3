//! What the desktop sessions of the user allow the runtime to do.

use crate::text;
use vstd::prelude::*;

verus! {

/// Who is at the desktop.
#[derive(Clone, Copy, Debug, PartialEq, Eq, Structural)]
pub enum GraphicalSessionMode {
    LocalActive,
    LocalLocked,
    RemoteOnly,
    Inactive,
    Unknown,
}

/// What is known of one graphical session.
#[derive(Clone, Copy, Debug, PartialEq, Eq, Structural)]
pub struct SessionFacts {
    pub active: bool,
    pub remote: bool,
    pub locked: bool,
    pub has_seat: bool,
}

/// What the runtime may do.
#[derive(Clone, Copy, Debug, PartialEq, Eq, Structural)]
pub struct RuntimePolicy {
    pub execute_local_actions: bool,
    pub apply_automatic_device_changes: bool,
    pub preview_local_actions: bool,
}

/// An active session that came from elsewhere.
pub open spec fn is_remote(session: SessionFacts) -> bool {
    session.active && session.remote
}

/// An active session at a seat of this machine.
pub open spec fn is_local(session: SessionFacts) -> bool {
    session.active && !session.remote && session.has_seat
}

/// An active session that is neither remote nor at a seat.
pub open spec fn is_ambiguous(session: SessionFacts) -> bool {
    session.active && !session.remote && !session.has_seat
}

/// Who is at the desktop, from what is known of the sessions.
pub open spec fn mode_of(sessions: Seq<SessionFacts>) -> GraphicalSessionMode {
    let remote = exists|i: int| 0 <= i < sessions.len() && is_remote(#[trigger] sessions[i]);
    let local = exists|i: int| 0 <= i < sessions.len() && is_local(#[trigger] sessions[i]);
    let ambiguous = exists|i: int| 0 <= i < sessions.len() && is_ambiguous(#[trigger] sessions[i]);
    let unlocked = exists|i: int|
        0 <= i < sessions.len() && (#[trigger] sessions[i]).active && !sessions[i].locked;
    if !remote && !local && !ambiguous {
        GraphicalSessionMode::Inactive
    } else if ambiguous || (local && remote) {
        GraphicalSessionMode::Unknown
    } else if remote {
        GraphicalSessionMode::RemoteOnly
    } else if unlocked {
        GraphicalSessionMode::LocalActive
    } else {
        GraphicalSessionMode::LocalLocked
    }
}

/// Who is at the desktop, from what is known of the sessions.
pub fn classify_sessions(sessions: &[SessionFacts]) -> (r: GraphicalSessionMode)
    ensures
        r == mode_of(sessions@),
{
    let mut remote = false;
    let mut local = false;
    let mut ambiguous = false;
    let mut unlocked = false;
    let mut i: usize = 0;
    while i < sessions.len()
        invariant
            i <= sessions@.len(),
            remote == exists|k: int| 0 <= k < i && is_remote(#[trigger] sessions@[k]),
            local == exists|k: int| 0 <= k < i && is_local(#[trigger] sessions@[k]),
            ambiguous == exists|k: int| 0 <= k < i && is_ambiguous(#[trigger] sessions@[k]),
            unlocked == exists|k: int|
                0 <= k < i && (#[trigger] sessions@[k]).active && !sessions@[k].locked,
        decreases sessions@.len() - i,
    {
        let session = sessions[i];
        if session.active {
            if session.remote {
                remote = true;
            } else if session.has_seat {
                local = true;
            } else {
                ambiguous = true;
            }
            if !session.locked {
                unlocked = true;
            }
        }
        i += 1;
        assert(session == sessions@[i - 1]);
    }
    if !remote && !local && !ambiguous {
        GraphicalSessionMode::Inactive
    } else if ambiguous || (local && remote) {
        GraphicalSessionMode::Unknown
    } else if remote {
        GraphicalSessionMode::RemoteOnly
    } else if unlocked {
        GraphicalSessionMode::LocalActive
    } else {
        GraphicalSessionMode::LocalLocked
    }
}

/// Whether sessions of this type show a desktop.
pub open spec fn shows_desktop(session_type: Seq<char>) -> bool {
    session_type == "wayland"@ || session_type == "x11"@ || session_type == "mir"@
}

/// Whether sessions of this type show a desktop.
pub fn is_graphical_session(session_type: &str) -> (r: bool)
    ensures
        r == shows_desktop(session_type@),
{
    text::same_text(session_type, "wayland") || text::same_text(session_type, "x11")
        || text::same_text(session_type, "mir")
}

/// Whether a listed login session is looked at: it belongs to the user, and it
/// shows a desktop.
pub fn session_is_relevant(session_uid: u32, uid: u32, session_type: &str) -> (r: bool)
    ensures
        r == (session_uid == uid && shows_desktop(session_type@)),
{
    session_uid == uid && is_graphical_session(session_type)
}

/// What the runtime may do in a mode: everything at an unlocked local desktop,
/// and nothing elsewhere.
pub open spec fn policy_of(mode: GraphicalSessionMode) -> RuntimePolicy {
    let allowed = mode == GraphicalSessionMode::LocalActive;
    RuntimePolicy {
        execute_local_actions: allowed,
        apply_automatic_device_changes: allowed,
        preview_local_actions: allowed,
    }
}

impl RuntimePolicy {
    /// What the runtime may do in a mode.
    pub fn for_mode(mode: GraphicalSessionMode) -> (r: Self)
        ensures
            r == policy_of(mode),
    {
        let allowed = mode == GraphicalSessionMode::LocalActive;
        RuntimePolicy {
            execute_local_actions: allowed,
            apply_automatic_device_changes: allowed,
            preview_local_actions: allowed,
        }
    }
}

/// The runtime acts only where some active session is unlocked and every active
/// session is a local one at a seat: with a remote or an unclear session around,
/// nothing is done.
pub proof fn law_actions_need_an_unlocked_local_desktop(sessions: Seq<SessionFacts>)
    ensures
        policy_of(mode_of(sessions)).execute_local_actions ==> {
            &&& forall|i: int|
                0 <= i < sessions.len() && (#[trigger] sessions[i]).active ==> is_local(sessions[i])
            &&& exists|i: int|
                0 <= i < sessions.len() && (#[trigger] sessions[i]).active && !sessions[i].locked
        },
{
    if mode_of(sessions) == GraphicalSessionMode::LocalActive {
        assert forall|i: int| 0 <= i < sessions.len() && (#[trigger] sessions[i]).active implies is_local(
            sessions[i],
        ) by {
            if is_remote(sessions[i]) {
                assert(false);
            }
            if is_ambiguous(sessions[i]) {
                assert(false);
            }
        }
    }
}

/// What the user is told of a mode; nothing at an unlocked local desktop.
pub open spec fn mode_text(mode: GraphicalSessionMode) -> Seq<char> {
    match mode {
        GraphicalSessionMode::LocalActive => ""@,
        GraphicalSessionMode::LocalLocked =>
            "The desktop is locked; local input enhancements are paused"@,
        GraphicalSessionMode::RemoteOnly =>
            "Remote login is active; local input enhancements are paused"@,
        GraphicalSessionMode::Inactive =>
            "No active local desktop; local input enhancements are paused"@,
        GraphicalSessionMode::Unknown =>
            "Desktop session ownership is unclear; local input enhancements are paused"@,
    }
}

/// What the user is told of a mode.
pub fn mode_detail(mode: GraphicalSessionMode) -> (r: &'static str)
    ensures
        r@ == mode_text(mode),
{
    match mode {
        GraphicalSessionMode::LocalActive => "",
        GraphicalSessionMode::LocalLocked =>
            "The desktop is locked; local input enhancements are paused",
        GraphicalSessionMode::RemoteOnly =>
            "Remote login is active; local input enhancements are paused",
        GraphicalSessionMode::Inactive =>
            "No active local desktop; local input enhancements are paused",
        GraphicalSessionMode::Unknown =>
            "Desktop session ownership is unclear; local input enhancements are paused",
    }
}

impl GraphicalSessionMode {
    /// The name of the mode in reports.
    pub open spec fn label_spec(self) -> Seq<char> {
        match self {
            GraphicalSessionMode::LocalActive => "local-active"@,
            GraphicalSessionMode::LocalLocked => "local-locked"@,
            GraphicalSessionMode::RemoteOnly => "remote-only"@,
            GraphicalSessionMode::Inactive => "inactive"@,
            GraphicalSessionMode::Unknown => "unknown"@,
        }
    }

    /// The name of the mode in reports.
    pub fn label(self) -> (r: &'static str)
        ensures
            r@ == self.label_spec(),
    {
        match self {
            GraphicalSessionMode::LocalActive => "local-active",
            GraphicalSessionMode::LocalLocked => "local-locked",
            GraphicalSessionMode::RemoteOnly => "remote-only",
            GraphicalSessionMode::Inactive => "inactive",
            GraphicalSessionMode::Unknown => "unknown",
        }
    }
}

/// One observation of the desktop sessions.
#[derive(Debug, PartialEq, Eq)]
pub struct SessionSnapshot {
    pub generation: u64,
    pub mode: GraphicalSessionMode,
    pub detail: String,
}

/// The mathematical value of [`SessionSnapshot`].
#[verifier::ext_equal]
pub struct SnapshotView {
    pub generation: u64,
    pub mode: GraphicalSessionMode,
    pub detail: Seq<char>,
}

impl View for SessionSnapshot {
    type V = SnapshotView;

    open spec fn view(&self) -> SnapshotView {
        SnapshotView { generation: self.generation, mode: self.mode, detail: self.detail@ }
    }
}

impl Clone for SessionSnapshot {
    fn clone(&self) -> (r: Self)
        ensures
            r@ == self@,
    {
        SessionSnapshot {
            generation: self.generation,
            mode: self.mode,
            detail: self.detail.clone(),
        }
    }
}

impl SessionSnapshot {
    /// What the runtime may do.
    pub fn policy(&self) -> (r: RuntimePolicy)
        ensures
            r == policy_of(self@.mode),
    {
        RuntimePolicy::for_mode(self.mode)
    }

    /// Whether local actions are off.
    pub fn actions_paused(&self) -> (r: bool)
        ensures
            r == !policy_of(self@.mode).execute_local_actions,
    {
        !self.policy().execute_local_actions
    }

    /// The snapshot of an observed mode.
    pub fn observed(mode: GraphicalSessionMode) -> (r: Self)
        ensures
            r@ == (SnapshotView { generation: 1, mode, detail: mode_text(mode) }),
    {
        SessionSnapshot { generation: 1, mode, detail: mode_detail(mode).to_owned() }
    }

    /// The snapshot of sessions that could not be observed.
    pub fn unavailable(error: &str) -> (r: Self)
        ensures
            r@ == (SnapshotView {
                generation: 1,
                mode: GraphicalSessionMode::Unknown,
                detail:
                    "Desktop session state is unavailable; local input enhancements are paused: "@
                    + error@,
            }),
    {
        SessionSnapshot {
            generation: 1,
            mode: GraphicalSessionMode::Unknown,
            detail: text::concat2(
                "Desktop session state is unavailable; local input enhancements are paused: ",
                error,
            ),
        }
    }
}

/// The generation after `generation`; zero is never used again.
pub open spec fn following_generation(generation: u64) -> u64 {
    if generation == u64::MAX {
        1
    } else {
        (generation + 1) as u64
    }
}

/// The generation after `generation`.
pub fn next_generation(generation: u64) -> (r: u64)
    ensures
        r == following_generation(generation),
        r != generation,
        r > 0,
{
    if generation == u64::MAX {
        1
    } else {
        generation + 1
    }
}

/// The latest observation, and what it permits.
#[derive(Debug, PartialEq, Eq)]
pub struct SessionObserver {
    pub current: SessionSnapshot,
}

/// The latest observation once another one has come in: the same one if nothing
/// changed, else the new one under the next generation.
pub open spec fn published(current: SnapshotView, next: SnapshotView) -> SnapshotView {
    if current.mode == next.mode && current.detail == next.detail {
        current
    } else {
        SnapshotView { generation: following_generation(current.generation), ..next }
    }
}

/// Whether the latest observation still is of that generation and lets actions
/// run.
pub open spec fn actions_permitted(current: SnapshotView, generation: u64) -> bool {
    current.generation == generation && policy_of(current.mode).execute_local_actions
}

/// Whether the latest observation still is of that generation and lets the
/// device be changed.
pub open spec fn changes_permitted(current: SnapshotView, generation: u64) -> bool {
    current.generation == generation && policy_of(current.mode).apply_automatic_device_changes
}

/// A change of the session takes back what was permitted under the generation
/// before it.
pub proof fn law_session_change_revokes_permissions(current: SnapshotView, next: SnapshotView)
    requires
        current.mode != next.mode || current.detail != next.detail,
    ensures
        !actions_permitted(published(current, next), current.generation),
        !changes_permitted(published(current, next), current.generation),
        current.generation < u64::MAX ==> published(current, next).generation > current.generation,
{
}

impl SessionObserver {
    /// Starts from a first observation.
    pub fn new(snapshot: SessionSnapshot) -> (r: Self)
        ensures
            r.current == snapshot,
    {
        SessionObserver { current: snapshot }
    }

    /// The latest observation.
    pub fn snapshot(&self) -> (r: SessionSnapshot)
        ensures
            r@ == self.current@,
    {
        self.current.clone()
    }

    /// Takes in another observation.
    pub fn publish(&mut self, next: SessionSnapshot)
        ensures
            final(self).current@ == published(old(self).current@, next@),
    {
        if self.current.mode == next.mode && self.current.detail == next.detail {
            return;
        }
        let generation = next_generation(self.current.generation);
        self.current = SessionSnapshot { generation, mode: next.mode, detail: next.detail };
        assert(self.current@ =~= published(old(self).current@, next@));
    }

    /// Whether actions that were resolved under a generation may still run.
    pub fn permits_actions(&self, generation: u64) -> (r: bool)
        ensures
            r == actions_permitted(self.current@, generation),
    {
        self.current.generation == generation && self.current.policy().execute_local_actions
    }

    /// Whether the device may still be changed for a decision made under a
    /// generation.
    pub fn permits_automatic_device_changes(&self, generation: u64) -> (r: bool)
        ensures
            r == changes_permitted(self.current@, generation),
    {
        self.current.generation == generation
            && self.current.policy().apply_automatic_device_changes
    }
}

/// Only an unlocked local desktop lets the runtime act, change the mouse and show previews;
/// it lets it do all three.
pub proof fn law_only_the_unlocked_local_desktop_permits(mode: GraphicalSessionMode)
    ensures
        policy_of(mode).execute_local_actions <==> mode == GraphicalSessionMode::LocalActive,
        policy_of(mode).apply_automatic_device_changes <==> mode
            == GraphicalSessionMode::LocalActive,
        policy_of(mode).preview_local_actions <==> mode == GraphicalSessionMode::LocalActive,
{
}

/// Where the active sessions are all local ones at a seat, the desktop is unlocked if one
/// of them is, else locked. Where they are all remote, it is a remote one; where none is
/// active, there is none. Where some are local and some remote, or one is neither remote
/// nor at a seat, it is not known.
pub proof fn law_active_sessions_tell_the_desktop(sessions: Seq<SessionFacts>, i: int, j: int)
    requires
        0 <= i < sessions.len(),
        0 <= j < sessions.len(),
    ensures
        (forall|k: int|
            0 <= k < sessions.len() ==> (#[trigger] sessions[k]).active ==> !sessions[k].remote
                && sessions[k].has_seat) && sessions[i].active ==> {
            &&& !sessions[i].locked ==> mode_of(sessions) == GraphicalSessionMode::LocalActive
            &&& (forall|k: int|
                0 <= k < sessions.len() ==> (#[trigger] sessions[k]).active ==> sessions[k].locked)
                ==> mode_of(sessions) == GraphicalSessionMode::LocalLocked
        },
        (forall|k: int|
            0 <= k < sessions.len() ==> (#[trigger] sessions[k]).active ==> sessions[k].remote)
            && sessions[i].active ==> mode_of(sessions) == GraphicalSessionMode::RemoteOnly,
        (forall|k: int| 0 <= k < sessions.len() ==> !(#[trigger] sessions[k]).active) ==> mode_of(
            sessions,
        ) == GraphicalSessionMode::Inactive,
        sessions[i].active && sessions[i].remote && sessions[j].active && !sessions[j].remote
            ==> mode_of(sessions) == GraphicalSessionMode::Unknown,
        sessions[i].active && !sessions[i].remote && !sessions[i].has_seat ==> mode_of(sessions)
            == GraphicalSessionMode::Unknown,
{
    let a = sessions[i];
    let b = sessions[j];
    assert(is_remote(a) || is_local(a) || is_ambiguous(a) || !a.active);
    assert(is_remote(b) || is_local(b) || is_ambiguous(b) || !b.active);
}

/// A graphical session is one of these three kinds.
pub proof fn law_desktop_kinds(kind: Seq<char>)
    ensures
        kind == "x11"@ || kind == "wayland"@ || kind == "mir"@ <==> shows_desktop(kind),
{
}

/// An observation that differs is taken in, under another number, and one that does not
/// changes nothing; the permission goes with the number of the observation.
pub proof fn law_observations_are_taken_in(
    current: SnapshotView,
    next: SnapshotView,
    generation: u64,
)
    ensures
        ({
            let p = published(current, next);
            &&& p.mode == next.mode && p.detail == next.detail
            &&& p.generation != current.generation <==> current.mode != next.mode || current.detail
                != next.detail
            &&& actions_permitted(current, generation) <==> current.generation == generation
                && current.mode == GraphicalSessionMode::LocalActive
            &&& changes_permitted(current, generation) <==> current.generation == generation
                && current.mode == GraphicalSessionMode::LocalActive
        }),
{
}

/// What is told of a session that is not the unlocked local desktop, and of one that cannot be
/// observed.
pub proof fn law_words_for_sessions(mode: GraphicalSessionMode)
    ensures
        mode_text(GraphicalSessionMode::LocalActive).len() == 0,
        mode_text(GraphicalSessionMode::LocalLocked)
            == "The desktop is locked; local input enhancements are paused"@,
        mode_text(GraphicalSessionMode::RemoteOnly)
            == "Remote login is active; local input enhancements are paused"@,
        mode_text(GraphicalSessionMode::Inactive)
            == "No active local desktop; local input enhancements are paused"@,
        mode_text(GraphicalSessionMode::Unknown)
            == "Desktop session ownership is unclear; local input enhancements are paused"@,
        forall|s: SessionSnapshot|
            #![trigger call_ensures(SessionSnapshot::observed, (mode,), s)]
            call_ensures(SessionSnapshot::observed, (mode,), s) ==> s@.mode == mode && s@.detail
                == mode_text(mode) && s@.generation == 1,
        forall|s: &SessionSnapshot, r: bool|
            #![trigger call_ensures(SessionSnapshot::actions_paused, (s,), r)]
            call_ensures(SessionSnapshot::actions_paused, (s,), r) ==> (!r <==> s@.mode
                is LocalActive),
        forall|sessions: &[SessionFacts], r: GraphicalSessionMode|
            #![trigger call_ensures(classify_sessions, (sessions,), r)]
            call_ensures(classify_sessions, (sessions,), r) ==> r == mode_of(sessions@),
{
    reveal_strlit("");
}

}
