//! The control interface of the runtime: previews of horizontal scrolling that
//! one window at a time may ask for, and the health that the runtime reports.
//!
//! Times are milliseconds of a monotonic clock.

use crate::error::{DogiError, ErrorKind};
use crate::session;
use crate::settings;
use crate::text;
use vstd::prelude::*;

verus! {

/// The version of Dogi.
pub const VERSION: &'static str = "0.3.0";

pub const PREVIEW_LEASE_TTL_MS: u64 = 8_000;

pub const CONTROL_RESPONSE_TIMEOUT_MS: u64 = 6_000;

pub const CONTROL_IO_TIMEOUT_MS: u64 = 750;

pub const CONTROL_MAX_FRAME_BYTES: usize = 8192;

pub const CONTROL_MAX_CONNECTIONS: usize = 8;

/// How far the runtime is able to do its work.
#[derive(Clone, Copy, Debug, PartialEq, Eq, Structural)]
pub enum RuntimeReadiness {
    Starting,
    Ready,
    Paused,
    Reconnecting,
    Degraded,
    Terminal,
}

/// Whether a readiness counts as degraded.
pub open spec fn is_degraded(readiness: RuntimeReadiness) -> bool {
    ||| readiness == RuntimeReadiness::Reconnecting
    ||| readiness == RuntimeReadiness::Degraded
    ||| readiness == RuntimeReadiness::Terminal
}

/// The health that the runtime reports.
#[derive(Debug, PartialEq, Eq)]
pub struct RuntimeHealthSnapshot {
    pub version: String,
    pub readiness: RuntimeReadiness,
    pub degraded: bool,
    pub last_error: Option<String>,
}

/// The mathematical value of [`RuntimeHealthSnapshot`].
#[verifier::ext_equal]
pub struct HealthView {
    pub version: Seq<char>,
    pub readiness: RuntimeReadiness,
    pub degraded: bool,
    pub last_error: Option<Seq<char>>,
}

impl View for RuntimeHealthSnapshot {
    type V = HealthView;

    open spec fn view(&self) -> HealthView {
        HealthView {
            version: self.version@,
            readiness: self.readiness,
            degraded: self.degraded,
            last_error: text::optional(self.last_error),
        }
    }
}

/// The health that a readiness and the last error amount to.
pub open spec fn health_of(
    readiness: RuntimeReadiness,
    last_error: Option<Seq<char>>,
) -> HealthView {
    HealthView { version: VERSION@, readiness, degraded: is_degraded(readiness), last_error }
}

impl Clone for RuntimeHealthSnapshot {
    fn clone(&self) -> (r: Self)
        ensures
            r@ == self@,
    {
        RuntimeHealthSnapshot {
            version: self.version.clone(),
            readiness: self.readiness,
            degraded: self.degraded,
            last_error: text::copy_optional(&self.last_error),
        }
    }
}

impl RuntimeHealthSnapshot {
    /// The health that a readiness and the last error amount to.
    pub fn new(readiness: RuntimeReadiness, last_error: Option<String>) -> (r: Self)
        ensures
            r@ == health_of(readiness, text::optional(last_error)),
    {
        let degraded = match readiness {
            RuntimeReadiness::Reconnecting | RuntimeReadiness::Degraded
            | RuntimeReadiness::Terminal => true,
            RuntimeReadiness::Starting | RuntimeReadiness::Ready | RuntimeReadiness::Paused =>
                false,
        };
        RuntimeHealthSnapshot { version: VERSION.to_owned(), readiness, degraded, last_error }
    }

    /// Whether the runtime does all of its work.
    pub fn ready(&self) -> (r: bool)
        ensures
            r == (self@.readiness == RuntimeReadiness::Ready && !self@.degraded),
    {
        self.readiness == RuntimeReadiness::Ready && !self.degraded
    }
}

/// A preview of horizontal scrolling: who asked for it, on which device, and how
/// fast.
#[derive(Debug, PartialEq, Eq)]
pub struct HorizontalScrollPreview {
    pub lease_id: String,
    pub device_id: String,
    pub speed_percent: u16,
}

/// The mathematical value of [`HorizontalScrollPreview`].
#[verifier::ext_equal]
pub struct PreviewView {
    pub lease_id: Seq<char>,
    pub device_id: Seq<char>,
    pub speed_percent: u16,
}

impl View for HorizontalScrollPreview {
    type V = PreviewView;

    open spec fn view(&self) -> PreviewView {
        PreviewView {
            lease_id: self.lease_id@,
            device_id: self.device_id@,
            speed_percent: self.speed_percent,
        }
    }
}

impl Clone for HorizontalScrollPreview {
    fn clone(&self) -> (r: Self)
        ensures
            r@ == self@,
    {
        HorizontalScrollPreview {
            lease_id: self.lease_id.clone(),
            device_id: self.device_id.clone(),
            speed_percent: self.speed_percent,
        }
    }
}

/// The preview that is wanted now, and the generation of that wish.
#[derive(Debug, PartialEq, Eq)]
pub struct PreviewSnapshot {
    pub generation: u64,
    pub preview: Option<HorizontalScrollPreview>,
}

/// The value of an optional preview.
pub open spec fn optional_preview(preview: Option<HorizontalScrollPreview>) -> Option<PreviewView> {
    match preview {
        Some(p) => Some(p@),
        None => None,
    }
}

/// A preview and the time at which it lapses.
#[derive(Debug, PartialEq, Eq)]
pub struct PreviewLease {
    pub preview: HorizontalScrollPreview,
    pub expires_at: u64,
}

/// The mathematical value of [`PreviewLease`].
#[verifier::ext_equal]
pub struct LeaseView {
    pub preview: PreviewView,
    pub expires_at: u64,
}

/// What the runtime answered to a wish.
#[derive(Debug, PartialEq, Eq)]
pub enum PreviewCompletion {
    Applied,
    Failed(String),
}

/// The mathematical value of [`PreviewCompletion`].
#[verifier::ext_equal]
pub enum CompletionView {
    Applied,
    Failed(Seq<char>),
}

impl View for PreviewCompletion {
    type V = CompletionView;

    open spec fn view(&self) -> CompletionView {
        match self {
            PreviewCompletion::Applied => CompletionView::Applied,
            PreviewCompletion::Failed(detail) => CompletionView::Failed(detail@),
        }
    }
}

/// What windows wish for and what the runtime answered.
#[derive(Debug, PartialEq, Eq)]
pub struct SharedPreviewState {
    pub generation: u64,
    pub requested: Option<PreviewLease>,
    pub completed_generation: u64,
    pub completion: Option<PreviewCompletion>,
    pub health: RuntimeHealthSnapshot,
}

/// The mathematical value of [`SharedPreviewState`].
#[verifier::ext_equal]
pub struct StateView {
    pub generation: u64,
    pub requested: Option<LeaseView>,
    pub completed_generation: u64,
    pub completion: Option<CompletionView>,
    pub health: HealthView,
}

impl View for SharedPreviewState {
    type V = StateView;

    open spec fn view(&self) -> StateView {
        StateView {
            generation: self.generation,
            requested: match self.requested {
                Some(lease) => Some(
                    LeaseView { preview: lease.preview@, expires_at: lease.expires_at },
                ),
                None => None,
            },
            completed_generation: self.completed_generation,
            completion: match self.completion {
                Some(completion) => Some(completion@),
                None => None,
            },
            health: self.health@,
        }
    }
}

/// The time at which a lease taken now lapses.
pub open spec fn lease_end(now: u64) -> u64 {
    if now + PREVIEW_LEASE_TTL_MS > u64::MAX {
        u64::MAX
    } else {
        (now + PREVIEW_LEASE_TTL_MS) as u64
    }
}

/// Another window holds the preview.
pub open spec fn held_by_another(state: StateView, lease_id: Seq<char>) -> bool {
    state.requested matches Some(lease) && lease.preview.lease_id != lease_id
}

/// The wish is what is wanted already.
pub open spec fn already_requested(state: StateView, next: PreviewView) -> bool {
    state.requested matches Some(lease) && lease.preview == next
}

/// The runtime has carried out the latest wish.
pub open spec fn latest_applied(state: StateView) -> bool {
    state.completed_generation == state.generation && state.completion == Some(
        CompletionView::Applied,
    )
}

/// The state under a new wish.
pub open spec fn with_request(state: StateView, requested: Option<LeaseView>) -> StateView {
    StateView {
        generation: session::following_generation(state.generation),
        requested,
        completion: None,
        ..state
    }
}

/// The state after a window wished for a preview at time `now`.
pub open spec fn after_set(state: StateView, next: PreviewView, now: u64) -> StateView {
    let lease = LeaseView { preview: next, expires_at: lease_end(now) };
    if held_by_another(state, next.lease_id) {
        state
    } else if already_requested(state, next) {
        StateView { requested: Some(lease), ..state }
    } else {
        with_request(state, Some(lease))
    }
}

/// The state after a window gave its preview up.
pub open spec fn after_clear(state: StateView, lease_id: Seq<char>) -> StateView {
    if state.requested matches Some(lease) && lease.preview.lease_id == lease_id {
        with_request(state, None)
    } else {
        state
    }
}

/// The state at time `now`: a lease that has lapsed is gone.
pub open spec fn after_expiry(state: StateView, now: u64) -> StateView {
    if state.requested matches Some(lease) && lease.expires_at <= now {
        with_request(state, None)
    } else {
        state
    }
}

/// The state after the runtime answered the wish of a generation; an answer to
/// an earlier wish is ignored.
pub open spec fn after_publish(
    state: StateView,
    generation: u64,
    completion: CompletionView,
) -> StateView {
    if state.generation == generation {
        StateView { completed_generation: generation, completion: Some(completion), ..state }
    } else {
        state
    }
}

/// What the runtime wants to know: the generation and the preview.
pub open spec fn wanted(state: StateView) -> Option<PreviewView> {
    match state.requested {
        Some(lease) => Some(lease.preview),
        None => None,
    }
}

/// A window cannot take the preview from another window: the wish of the other
/// one is untouched, with its generation.
pub proof fn law_active_lease_cannot_be_stolen(state: StateView, next: PreviewView, now: u64)
    requires
        held_by_another(state, next.lease_id),
    ensures
        after_set(state, next, now) == state,
{
}

/// A window that no longer holds the preview cannot clear the one of another.
pub proof fn law_stale_owner_cannot_clear(state: StateView, lease_id: Seq<char>)
    requires
        held_by_another(state, lease_id),
    ensures
        after_clear(state, lease_id) == state,
{
}

/// Asking again for the same preview only moves the time at which it lapses:
/// neither the generation nor the answer of the runtime changes.
pub proof fn law_refresh_keeps_the_generation(state: StateView, next: PreviewView, now: u64)
    requires
        already_requested(state, next),
    ensures
        after_set(state, next, now).generation == state.generation,
        latest_applied(after_set(state, next, now)) == latest_applied(state),
        wanted(after_set(state, next, now)) == wanted(state),
{
}

/// A new wish is not taken as carried out on the strength of an earlier answer,
/// and an answer to the earlier generation leaves it open.
pub proof fn law_new_wish_waits_for_its_own_answer(
    state: StateView,
    next: PreviewView,
    now: u64,
    completion: CompletionView,
)
    requires
        !held_by_another(state, next.lease_id),
        !already_requested(state, next),
    ensures
        !latest_applied(after_set(state, next, now)),
        after_publish(after_set(state, next, now), state.generation, completion) == after_set(
            state,
            next,
            now,
        ),
{
}

/// Once a lease has lapsed, any window may ask for a preview.
pub proof fn law_lapsed_lease_is_free(state: StateView, lease_id: Seq<char>, now: u64)
    requires
        state.requested matches Some(lease) && lease.expires_at <= now,
    ensures
        !held_by_another(after_expiry(state, now), lease_id),
{
}

impl Default for SharedPreviewState {
    fn default() -> (r: Self)
        ensures
            r@ == (StateView {
                generation: 0,
                requested: None,
                completed_generation: 0,
                completion: None,
                health: health_of(RuntimeReadiness::Starting, None),
            }),
    {
        SharedPreviewState {
            generation: 0,
            requested: None,
            completed_generation: 0,
            completion: None,
            health: RuntimeHealthSnapshot::new(RuntimeReadiness::Starting, None),
        }
    }
}

impl SharedPreviewState {
    /// Wishes for a preview. The answer is the generation of the wish and whether
    /// the runtime has carried it out already.
    pub fn set_preview(
        &mut self,
        lease_id: String,
        device_id: String,
        speed_percent: u16,
        now: u64,
    ) -> (r: Result<(u64, bool), String>)
        ensures
            ({
                let next = PreviewView {
                    lease_id: lease_id@,
                    device_id: device_id@,
                    speed_percent,
                };
                &&& final(self)@ == after_set(old(self)@, next, now)
                &&& r is Err <==> held_by_another(old(self)@, next.lease_id)
                &&& r matches Err(detail)
                    ==> detail@ == "another Dogi window is already testing horizontal scrolling"@
                &&& r matches Ok(answer) ==> {
                    &&& answer.0 == final(self)@.generation
                    &&& answer.1 == (already_requested(old(self)@, next) && latest_applied(
                        old(self)@,
                    ))
                }
            }),
    {
        let next = HorizontalScrollPreview { lease_id, device_id, speed_percent };
        let expires_at = now.saturating_add(PREVIEW_LEASE_TTL_MS);
        let unchanged = match &self.requested {
            Some(lease) => {
                if lease.preview.lease_id != next.lease_id {
                    return Err(
                        "another Dogi window is already testing horizontal scrolling".to_owned(),
                    );
                }
                let same = lease.preview.device_id == next.device_id && lease.preview.speed_percent
                    == next.speed_percent;
                assert(same == (lease.preview@ =~= next@));
                same
            },
            None => false,
        };
        if unchanged {
            self.requested = Some(PreviewLease { preview: next, expires_at });
            let applied = self.completed_generation == self.generation && match &self.completion {
                Some(PreviewCompletion::Applied) => true,
                _ => false,
            };
            return Ok((self.generation, applied));
        }
        self.generation = session::next_generation(self.generation);
        self.requested = Some(PreviewLease { preview: next, expires_at });
        self.completion = None;
        Ok((self.generation, false))
    }

    /// Gives a preview up. The answer is the generation and whether there is
    /// nothing to wait for.
    pub fn clear_preview(&mut self, lease_id: &str) -> (r: (u64, bool))
        ensures
            final(self)@ == after_clear(old(self)@, lease_id@),
            r.0 == final(self)@.generation,
            r.1 == !(old(self)@.requested matches Some(lease) && lease.preview.lease_id
                == lease_id@),
    {
        let owned = match &self.requested {
            Some(lease) => text::same_text(lease.preview.lease_id.as_str(), lease_id),
            None => false,
        };
        if !owned {
            return (self.generation, true);
        }
        self.generation = session::next_generation(self.generation);
        self.requested = None;
        self.completion = None;
        (self.generation, false)
    }

    /// What is wanted at time `now`.
    pub fn snapshot(&mut self, now: u64) -> (r: PreviewSnapshot)
        ensures
            final(self)@ == after_expiry(old(self)@, now),
            r.generation == final(self)@.generation,
            optional_preview(r.preview) == wanted(final(self)@),
    {
        let expired = match &self.requested {
            Some(lease) => lease.expires_at <= now,
            None => false,
        };
        if expired {
            self.generation = session::next_generation(self.generation);
            self.requested = None;
            self.completion = None;
        }
        let preview = match &self.requested {
            Some(lease) => Some(lease.preview.clone()),
            None => None,
        };
        PreviewSnapshot { generation: self.generation, preview }
    }

    /// Answers the wish of a generation.
    pub fn publish(&mut self, generation: u64, completion: PreviewCompletion)
        ensures
            final(self)@ == after_publish(old(self)@, generation, completion@),
    {
        if self.generation != generation {
            return;
        }
        self.completed_generation = generation;
        self.completion = Some(completion);
    }

    /// Answers the latest wish with a failure.
    pub fn fail_pending(&mut self, detail: String)
        ensures
            final(self)@ == after_publish(
                old(self)@,
                old(self)@.generation,
                CompletionView::Failed(detail@),
            ),
    {
        let generation = self.generation;
        self.publish(generation, PreviewCompletion::Failed(detail));
    }

    /// Replaces the health that is reported.
    pub fn publish_health(&mut self, health: RuntimeHealthSnapshot)
        ensures
            final(self)@ == (StateView { health: health@, ..old(self)@ }),
    {
        self.health = health;
    }

    /// The answer to whoever waits for a generation, or nothing while there is
    /// reason to wait on.
    pub fn wait_for(&self, generation: u64, timed_out: bool) -> (r: Option<RuntimeControlResponse>)
        ensures
            match r {
                Some(response) => wait_answer(self@, generation, timed_out) == Some(response@),
                None => wait_answer(self@, generation, timed_out) is None,
            },
    {
        if self.generation != generation {
            return Some(
                RuntimeControlResponse::failure(
                    "horizontal scroll preview was replaced by another request",
                ),
            );
        }
        if self.completed_generation != generation {
            if timed_out {
                return Some(
                    RuntimeControlResponse::failure(
                        "the Dogi runtime did not activate the preview in time",
                    ),
                );
            }
            return None;
        }
        match &self.completion {
            Some(PreviewCompletion::Applied) => Some(RuntimeControlResponse::success()),
            Some(PreviewCompletion::Failed(detail)) => Some(
                RuntimeControlResponse::failure(detail.as_str()),
            ),
            None => Some(
                RuntimeControlResponse::failure(
                    "the Dogi runtime did not report the preview state",
                ),
            ),
        }
    }

    /// Begins to serve a request: either the response is known at once, or the
    /// caller has to wait for the runtime.
    pub fn apply_request(&mut self, request: RuntimeControlRequest, now: u64) -> (r: ControlStep)
        ensures
            (final(self)@, r@) == served(old(self)@, request@, now),
    {
        match request {
            RuntimeControlRequest::Status => {
                ControlStep::Respond(RuntimeControlResponse::status(self.health.clone()))
            },
            RuntimeControlRequest::SetHorizontalScrollPreview {
                lease_id,
                device_id,
                speed_percent,
            } => {
                if text::blank(lease_id.as_str()) || text::blank(device_id.as_str()) {
                    return ControlStep::Respond(
                        RuntimeControlResponse::failure(
                            "horizontal scroll preview identifiers cannot be empty",
                        ),
                    );
                }
                let owner = lease_id.clone();
                let speed = settings::clamp_u16(
                    speed_percent,
                    settings::MIN_THUMB_WHEEL_SPEED_PERCENT,
                    settings::MAX_THUMB_WHEEL_SPEED_PERCENT,
                );
                match self.set_preview(lease_id, device_id, speed, now) {
                    Ok((generation, applied)) => {
                        if applied {
                            ControlStep::Respond(RuntimeControlResponse::success())
                        } else {
                            ControlStep::Wait { generation, release: Some(owner) }
                        }
                    },
                    Err(detail) => ControlStep::Respond(
                        RuntimeControlResponse::failure(detail.as_str()),
                    ),
                }
            },
            RuntimeControlRequest::ClearHorizontalScrollPreview { lease_id } => {
                let (generation, applied) = self.clear_preview(lease_id.as_str());
                if applied {
                    ControlStep::Respond(RuntimeControlResponse::success())
                } else {
                    ControlStep::Wait { generation, release: None }
                }
            },
        }
    }

    /// Goes on serving a request that had to wait. A preview that was not
    /// activated is given up again, in the name of `release`.
    pub fn finish_request(
        &mut self,
        generation: u64,
        release: &Option<String>,
        timed_out: bool,
    ) -> (r: Option<RuntimeControlResponse>)
        ensures
            match r {
                Some(response) => wait_answer(old(self)@, generation, timed_out) == Some(response@),
                None => wait_answer(old(self)@, generation, timed_out) is None,
            },
            final(self)@ == after_wait(
                old(self)@,
                generation,
                text::optional(*release),
                timed_out,
            ),
    {
        let answer = self.wait_for(generation, timed_out);
        if let Some(response) = &answer {
            if !response.ok {
                if let Some(lease_id) = release {
                    let _ = self.clear_preview(lease_id.as_str());
                }
            }
        }
        answer
    }
}

/// The answer to whoever waits for a generation, or nothing while there is
/// reason to wait on.
pub open spec fn wait_answer(
    state: StateView,
    generation: u64,
    timed_out: bool,
) -> Option<ResponseView> {
    if state.generation != generation {
        Some(failure_response("horizontal scroll preview was replaced by another request"@))
    } else if state.completed_generation != generation {
        if timed_out {
            Some(failure_response("the Dogi runtime did not activate the preview in time"@))
        } else {
            None
        }
    } else {
        match state.completion {
            Some(CompletionView::Applied) => Some(success_response()),
            Some(CompletionView::Failed(detail)) => Some(failure_response(detail)),
            None => Some(failure_response("the Dogi runtime did not report the preview state"@)),
        }
    }
}

/// The state once a waiting request has been answered.
pub open spec fn after_wait(
    state: StateView,
    generation: u64,
    release: Option<Seq<char>>,
    timed_out: bool,
) -> StateView {
    match (wait_answer(state, generation, timed_out), release) {
        (Some(response), Some(lease_id)) => if response.ok {
            state
        } else {
            after_clear(state, lease_id)
        },
        _ => state,
    }
}

/// A request to the runtime.
#[derive(Debug, PartialEq, Eq)]
pub enum RuntimeControlRequest {
    Status,
    SetHorizontalScrollPreview { lease_id: String, device_id: String, speed_percent: u16 },
    ClearHorizontalScrollPreview { lease_id: String },
}

/// The mathematical value of [`RuntimeControlRequest`].
#[verifier::ext_equal]
pub enum RequestView {
    Status,
    SetPreview(PreviewView),
    ClearPreview(Seq<char>),
}

impl View for RuntimeControlRequest {
    type V = RequestView;

    open spec fn view(&self) -> RequestView {
        match self {
            RuntimeControlRequest::Status => RequestView::Status,
            RuntimeControlRequest::SetHorizontalScrollPreview {
                lease_id,
                device_id,
                speed_percent,
            } => RequestView::SetPreview(
                PreviewView {
                    lease_id: lease_id@,
                    device_id: device_id@,
                    speed_percent: *speed_percent,
                },
            ),
            RuntimeControlRequest::ClearHorizontalScrollPreview { lease_id } =>
                RequestView::ClearPreview(lease_id@),
        }
    }
}

/// A response of the runtime.
#[derive(Debug, PartialEq, Eq)]
pub struct RuntimeControlResponse {
    pub ok: bool,
    pub detail: String,
    pub status: Option<RuntimeHealthSnapshot>,
}

/// The mathematical value of [`RuntimeControlResponse`].
#[verifier::ext_equal]
pub struct ResponseView {
    pub ok: bool,
    pub detail: Seq<char>,
    pub status: Option<HealthView>,
}

impl View for RuntimeControlResponse {
    type V = ResponseView;

    open spec fn view(&self) -> ResponseView {
        ResponseView {
            ok: self.ok,
            detail: self.detail@,
            status: match self.status {
                Some(health) => Some(health@),
                None => None,
            },
        }
    }
}

/// The response to a request that was carried out.
pub open spec fn success_response() -> ResponseView {
    ResponseView { ok: true, detail: Seq::empty(), status: None }
}

/// The response to a request that was not carried out.
pub open spec fn failure_response(detail: Seq<char>) -> ResponseView {
    ResponseView { ok: false, detail, status: None }
}

impl RuntimeControlResponse {
    /// The response to a request that was carried out.
    pub fn success() -> (r: Self)
        ensures
            r@ == success_response(),
    {
        RuntimeControlResponse { ok: true, detail: String::new(), status: None }
    }

    /// The response to a request that was not carried out.
    pub fn failure(detail: &str) -> (r: Self)
        ensures
            r@ == failure_response(detail@),
    {
        RuntimeControlResponse { ok: false, detail: detail.to_owned(), status: None }
    }

    /// The response that reports the health.
    pub fn status(status: RuntimeHealthSnapshot) -> (r: Self)
        ensures
            r@ == (ResponseView { ok: true, detail: Seq::empty(), status: Some(status@) }),
    {
        RuntimeControlResponse { ok: true, detail: String::new(), status: Some(status) }
    }

    /// What the response means for a request without an answer.
    pub fn into_result(self) -> (r: Result<(), DogiError>)
        ensures
            self@.ok ==> r is Ok,
            !self@.ok ==> r is Err && r->Err_0@ == (ErrorKind::BackendUnavailable, self@.detail),
    {
        if self.ok {
            Ok(())
        } else {
            Err(DogiError::BackendUnavailable(self.detail))
        }
    }

    /// What the response means for a request for the health.
    pub fn into_status(self) -> (r: Result<RuntimeHealthSnapshot, DogiError>)
        ensures
            match (self@.ok, self@.status) {
                (false, _) => r is Err && r->Err_0@ == (
                    ErrorKind::BackendUnavailable,
                    self@.detail,
                ),
                (true, None) => r is Err && r->Err_0@ == (
                    ErrorKind::Protocol,
                    "runtime status response did not include health data"@,
                ),
                (true, Some(health)) => r is Ok && r->Ok_0@ == health,
            },
    {
        if !self.ok {
            return Err(DogiError::BackendUnavailable(self.detail));
        }
        match self.status {
            Some(health) => Ok(health),
            None => Err(
                DogiError::Protocol(
                    "runtime status response did not include health data".to_owned(),
                ),
            ),
        }
    }
}

/// How the serving of a request goes on.
#[derive(Debug, PartialEq, Eq)]
pub enum ControlStep {
    Respond(RuntimeControlResponse),
    Wait { generation: u64, release: Option<String> },
}

/// The mathematical value of [`ControlStep`].
#[verifier::ext_equal]
pub enum StepView {
    Respond(ResponseView),
    Wait { generation: u64, release: Option<Seq<char>> },
}

impl View for ControlStep {
    type V = StepView;

    open spec fn view(&self) -> StepView {
        match self {
            ControlStep::Respond(response) => StepView::Respond(response@),
            ControlStep::Wait { generation, release } => StepView::Wait {
                generation: *generation,
                release: text::optional(*release),
            },
        }
    }
}

/// The state and the step after a request came in at time `now`.
pub open spec fn served(state: StateView, request: RequestView, now: u64) -> (StateView, StepView) {
    match request {
        RequestView::Status => (
            state,
            StepView::Respond(
                ResponseView { ok: true, detail: Seq::empty(), status: Some(state.health) },
            ),
        ),
        RequestView::SetPreview(wish) => {
            let next = PreviewView {
                speed_percent: settings::clamped(wish.speed_percent as int, 25, 400) as u16,
                ..wish
            };
            if text::trimmed(wish.lease_id).len() == 0 || text::trimmed(wish.device_id).len() == 0 {
                (
                    state,
                    StepView::Respond(
                        failure_response("horizontal scroll preview identifiers cannot be empty"@),
                    ),
                )
            } else if held_by_another(state, wish.lease_id) {
                (
                    state,
                    StepView::Respond(
                        failure_response(
                            "another Dogi window is already testing horizontal scrolling"@,
                        ),
                    ),
                )
            } else {
                let after = after_set(state, next, now);
                if already_requested(state, next) && latest_applied(state) {
                    (after, StepView::Respond(success_response()))
                } else {
                    (
                        after,
                        StepView::Wait {
                            generation: after.generation,
                            release: Some(wish.lease_id),
                        },
                    )
                }
            }
        },
        RequestView::ClearPreview(lease_id) => {
            let after = after_clear(state, lease_id);
            if state.requested matches Some(lease) && lease.preview.lease_id == lease_id {
                (after, StepView::Wait { generation: after.generation, release: None })
            } else {
                (after, StepView::Respond(success_response()))
            }
        },
    }
}

/// A window's request for a preview.
pub fn preview_request(lease_id: &str, device_id: &str, speed_percent: u16) -> (r: Result<
    RuntimeControlRequest,
    DogiError,
>)
    ensures
        if text::trimmed(device_id@).len() == 0 {
            r is Err && r->Err_0@ == (
                ErrorKind::InvalidArgument,
                "horizontal scroll preview requires a device id"@,
            )
        } else {
            r is Ok && r->Ok_0@ == RequestView::SetPreview(
                PreviewView {
                    lease_id: lease_id@,
                    device_id: text::trimmed(device_id@),
                    speed_percent: settings::clamped(speed_percent as int, 25, 400) as u16,
                },
            )
        },
{
    let device_id = text::trim(device_id);
    if device_id.as_str().is_empty() {
        return Err(
            DogiError::InvalidArgument(
                "horizontal scroll preview requires a device id".to_owned(),
            ),
        );
    }
    Ok(
        RuntimeControlRequest::SetHorizontalScrollPreview {
            lease_id: lease_id.to_owned(),
            device_id,
            speed_percent: settings::clamp_u16(
                speed_percent,
                settings::MIN_THUMB_WHEEL_SPEED_PERCENT,
                settings::MAX_THUMB_WHEEL_SPEED_PERCENT,
            ),
        },
    )
}

/// The length of the first frame in what was received: up to and with the first
/// line break, and not beyond one byte more than the limit.
pub open spec fn frame_length(received: Seq<u8>, i: int) -> int
    decreases received.len() - i,
{
    if i >= received.len() || i > CONTROL_MAX_FRAME_BYTES {
        i
    } else if received[i] == 10 {
        i + 1
    } else {
        frame_length(received, i + 1)
    }
}

/// The first frame in what was received.
pub open spec fn first_frame(received: Seq<u8>) -> Seq<u8> {
    received.take(frame_length(received, 0))
}

/// Why the first frame in what was received cannot be used.
pub open spec fn frame_error(frame: Seq<u8>) -> Option<Seq<char>> {
    if frame.len() > CONTROL_MAX_FRAME_BYTES {
        Some("control frame exceeds the 8192-byte limit"@)
    } else if frame.len() == 0 {
        Some("control connection closed before a frame was received"@)
    } else if frame.last() != 10 {
        Some("control frame is not newline-terminated"@)
    } else {
        None
    }
}

/// Takes the first frame out of what was received.
pub fn read_control_frame(received: &[u8]) -> (r: Result<Vec<u8>, String>)
    ensures
        match frame_error(first_frame(received@)) {
            Some(detail) => r is Err && r->Err_0@ == detail,
            None => r is Ok && r->Ok_0@ == first_frame(received@),
        },
{
    let mut frame: Vec<u8> = Vec::new();
    let mut i: usize = 0;
    while i < received.len() && i <= CONTROL_MAX_FRAME_BYTES
        invariant_except_break
            i <= received@.len(),
            i <= CONTROL_MAX_FRAME_BYTES + 1,
            frame@ == received@.take(i as int),
            frame_length(received@, i as int) == frame_length(received@, 0),
        ensures
            frame@ == first_frame(received@),
        decreases received@.len() - i,
    {
        let byte = received[i];
        frame.push(byte);
        assert(frame@ == received@.take(i as int + 1));
        if byte == 10 {
            break;
        }
        i += 1;
    }
    if frame.len() > CONTROL_MAX_FRAME_BYTES {
        return Err("control frame exceeds the 8192-byte limit".to_owned());
    }
    if frame.len() == 0 {
        return Err("control connection closed before a frame was received".to_owned());
    }
    if frame[frame.len() - 1] != 10 {
        return Err("control frame is not newline-terminated".to_owned());
    }
    Ok(frame)
}

/// How many clients are being served.
#[derive(Debug, PartialEq, Eq)]
pub struct ConnectionLimiter {
    active: usize,
}

impl ConnectionLimiter {
    /// The number of clients that are being served.
    pub closed spec fn count(&self) -> nat {
        self.active as nat
    }

    /// No more clients than allowed are being served.
    pub open spec fn wf(&self) -> bool {
        self.count() <= CONTROL_MAX_CONNECTIONS
    }

    /// Nobody is being served.
    pub fn new() -> (r: Self)
        ensures
            r.wf(),
            r.count() == 0,
    {
        ConnectionLimiter { active: 0 }
    }

    /// Admits one more client, unless as many as allowed are being served.
    pub fn try_acquire(&mut self) -> (r: bool)
        requires
            old(self).wf(),
        ensures
            final(self).wf(),
            r == (old(self).count() < CONTROL_MAX_CONNECTIONS),
            final(self).count() == old(self).count() + (if r { 1int } else { 0 }),
    {
        if self.active < CONTROL_MAX_CONNECTIONS {
            self.active = self.active + 1;
            true
        } else {
            false
        }
    }

    /// A client has been served.
    pub fn release(&mut self)
        requires
            old(self).wf(),
            old(self).count() > 0,
        ensures
            final(self).wf(),
            final(self).count() == old(self).count() - 1,
    {
        self.active = self.active - 1;
    }
}

/// The name under which a window asks for previews.
pub open spec fn lease_name(process: u32, nonce: u128) -> Seq<char> {
    "gui-"@ + text::decimal(process as nat) + "-"@ + text::decimal(nonce as nat)
}

/// Different windows ask for previews under different names.
pub proof fn law_windows_have_their_own_leases(
    process: u32,
    nonce: u128,
    other_process: u32,
    other_nonce: u128,
)
    requires
        process != other_process || nonce != other_nonce,
    ensures
        lease_name(process, nonce) != lease_name(other_process, other_nonce),
{
    let a = text::decimal(process as nat);
    let b = text::decimal(nonce as nat);
    let c = text::decimal(other_process as nat);
    let d = text::decimal(other_nonce as nat);
    text::lemma_decimal_digits(process as nat);
    text::lemma_decimal_digits(nonce as nat);
    text::lemma_decimal_digits(other_process as nat);
    text::lemma_decimal_digits(other_nonce as nat);
    let start = "gui-"@;
    let dash = "-"@;
    reveal_strlit("-");
    let left = start + a + dash + b;
    let right = start + c + dash + d;
    if left == right {
        let n = start.len() as int;
        if a.len() < c.len() {
            assert(left[n + a.len()] == '-');
            assert(right[n + a.len()] == c[a.len() as int]);
        } else if c.len() < a.len() {
            assert(right[n + c.len()] == '-');
            assert(left[n + c.len()] == a[c.len() as int]);
        } else {
            assert(left.subrange(n, n + a.len()) =~= a);
            assert(right.subrange(n, n + a.len()) =~= c);
            assert(left.skip(n + a.len() + 1) =~= b);
            assert(right.skip(n + a.len() + 1) =~= d);
        }
    }
}

/// A window that asks the runtime for previews.
#[derive(Debug, PartialEq, Eq)]
pub struct RuntimeControlClient {
    pub socket_path: String,
    pub lease_id: String,
}

impl RuntimeControlClient {
    /// The client of a window, which is told from others by its process and by the time
    /// at which it began.
    pub fn new(socket_path: String, process: u32, nonce: u128) -> (r: Self)
        ensures
            r.socket_path == socket_path,
            r.lease_id@ == lease_name(process, nonce),
    {
        let mut lease_id = "gui-".to_owned();
        text::push_decimal(&mut lease_id, process as u64);
        lease_id.append("-");
        text::push_wide_decimal(&mut lease_id, nonce);
        RuntimeControlClient { socket_path, lease_id }
    }

    /// The request for a preview.
    pub fn set_horizontal_scroll_preview(&self, device_id: &str, speed_percent: u16) -> (r: Result<
        RuntimeControlRequest,
        DogiError,
    >)
        ensures
            if text::trimmed(device_id@).len() == 0 {
                r is Err && r->Err_0@ == (
                    ErrorKind::InvalidArgument,
                    "horizontal scroll preview requires a device id"@,
                )
            } else {
                r is Ok && r->Ok_0@ == RequestView::SetPreview(
                    PreviewView {
                        lease_id: self.lease_id@,
                        device_id: text::trimmed(device_id@),
                        speed_percent: settings::clamped(speed_percent as int, 25, 400) as u16,
                    },
                )
            },
    {
        preview_request(self.lease_id.as_str(), device_id, speed_percent)
    }

    /// The request to end the preview.
    pub fn clear_horizontal_scroll_preview(&self) -> (r: RuntimeControlRequest)
        ensures
            r@ == RequestView::ClearPreview(self.lease_id@),
    {
        RuntimeControlRequest::ClearHorizontalScrollPreview { lease_id: self.lease_id.clone() }
    }
}

/// What is to be done before the runtime listens at its socket.
#[derive(Debug, PartialEq, Eq)]
pub enum SocketStep {
    /// It can listen.
    Bind,
    /// What an earlier runtime left behind is removed first.
    RemoveFirst,
    /// Another runtime listens there.
    Refuse(DogiError),
}

/// What is to be done before the runtime listens at its socket, from whether there is a
/// file and whether someone answers there.
pub fn claim_socket(path: &str, present: bool, answers: bool) -> (r: SocketStep)
    ensures
        match r {
            SocketStep::Bind => !present,
            SocketStep::RemoveFirst => present && !answers,
            SocketStep::Refuse(error) => present && answers && error@ == (
                ErrorKind::BackendUnavailable,
                "another Dogi runtime already owns "@ + path@,
            ),
        },
{
    if !present {
        return SocketStep::Bind;
    }
    if answers {
        return SocketStep::Refuse(
            DogiError::BackendUnavailable(
                text::concat2("another Dogi runtime already owns ", path),
            ),
        );
    }
    SocketStep::RemoveFirst
}

/// A wish for a preview that comes while no other window has one is taken in, for eight
/// seconds: until then it is what is wanted, and from then on nothing is.
pub proof fn law_wishes_last_eight_seconds(
    state: StateView,
    next: PreviewView,
    now: u64,
    later: u64,
)
    requires
        now <= u64::MAX - 8_000,
        state.requested is None || state.requested->0.preview.lease_id == next.lease_id,
    ensures
        ({
            let after = after_set(state, next, now);
            &&& wanted(after) == Some(next)
            &&& later < now + 8_000 ==> wanted(after_expiry(after, later)) == Some(next)
                && after_expiry(after, later).generation == after.generation
            &&& later >= now + 8_000 ==> wanted(after_expiry(after, later)) is None
                && after_expiry(after, later).generation != after.generation
            &&& state.requested is None || state.requested->0.preview != next ==> after.generation
                != state.generation && after.completion is None
        }),
{
}

/// A window that takes back its wish ends it.
pub proof fn law_cleared_wishes_are_gone(state: StateView, lease_id: Seq<char>)
    requires
        state.requested matches Some(lease) && lease.preview.lease_id == lease_id,
    ensures
        wanted(after_clear(state, lease_id)) is None,
        after_clear(state, lease_id).generation != state.generation,
        after_clear(state, lease_id).completion is None,
{
}

/// A request for a preview with identifiers is taken in with its speed, moved to between 25
/// and 400 per cent, and waits for the answer to it; without identifiers it is refused.
pub proof fn law_preview_requests_are_served(state: StateView, wish: PreviewView, now: u64)
    requires
        state.requested is None,
    ensures
        ({
            let (after, step) = served(state, RequestView::SetPreview(wish), now);
            let sound = text::trimmed(wish.lease_id).len() > 0 && text::trimmed(
                wish.device_id,
            ).len() > 0;
            &&& sound ==> step == (StepView::Wait {
                generation: after.generation,
                release: Some(wish.lease_id),
            })
            &&& sound ==> wanted(after) is Some && wanted(after)->0.lease_id == wish.lease_id
                && wanted(after)->0.device_id == wish.device_id
            &&& sound && 25 <= wish.speed_percent <= 400 ==> wanted(after)->0.speed_percent
                == wish.speed_percent
            &&& sound && wish.speed_percent < 25 ==> wanted(after)->0.speed_percent == 25
            &&& sound && wish.speed_percent > 400 ==> wanted(after)->0.speed_percent == 400
            &&& !sound ==> after == state && step is Respond && !step->Respond_0.ok
            &&& after.health == state.health
        }),
{
}

/// A wish of another window is refused, and changes nothing.
pub proof fn law_second_window_is_refused(state: StateView, wish: PreviewView, now: u64)
    requires
        state.requested matches Some(lease) && lease.preview.lease_id != wish.lease_id,
    ensures
        served(state, RequestView::SetPreview(wish), now).0 == state,
        served(state, RequestView::SetPreview(wish), now).1 matches StepView::Respond(r) && !r.ok,
{
}

/// The status is told as it was reported last, and asking for it changes nothing.
pub proof fn law_status_is_told_as_reported(state: StateView, now: u64)
    ensures
        served(state, RequestView::Status, now) == (
            state,
            StepView::Respond(
                ResponseView { ok: true, detail: Seq::empty(), status: Some(state.health) },
            ),
        ),
{
}

/// Whoever waits for a wish is told of success once it was applied, of the failure once it
/// failed, that it was replaced once another one is wanted; and otherwise waits on, until
/// the time is over. A wish that failed is not left behind.
pub proof fn law_answers_tell_what_became_of_a_wish(
    state: StateView,
    completion: CompletionView,
    timed_out: bool,
    lease: LeaseView,
    generation: u64,
)
    ensures
        ({
            let done = after_publish(state, state.generation, completion);
            let answer = wait_answer(done, state.generation, timed_out);
            let replaced = wait_answer(state, generation, timed_out);
            &&& completion is Applied ==> answer is Some && answer->0.ok
            &&& completion matches CompletionView::Failed(detail) ==> answer is Some
                && !answer->0.ok && answer->0.detail == detail
            &&& generation != state.generation ==> replaced is Some && !replaced->0.ok
            &&& state.completed_generation != state.generation && !timed_out ==> wait_answer(
                state,
                state.generation,
                timed_out,
            ) is None
            &&& state.completed_generation != state.generation && timed_out ==> {
                let late = wait_answer(state, state.generation, timed_out);
                late is Some && !late->0.ok
            }
            &&& completion is Failed && state.requested == Some(lease) ==> wanted(
                after_wait(done, state.generation, Some(lease.preview.lease_id), timed_out),
            ) is None
            &&& completion is Applied ==> after_wait(
                done,
                state.generation,
                Some(lease.preview.lease_id),
                timed_out,
            ) == done
        }),
{
}

/// A frame ends with the first line feed, which may be its 8192nd byte at most.
pub proof fn law_frames_end_with_a_line_feed(received: Seq<u8>, n: int)
    requires
        0 <= n < received.len(),
        received[n] == 10,
        forall|k: int| 0 <= k < n ==> #[trigger] received[k] != 10,
    ensures
        n < 8192 ==> first_frame(received) == received.take(n + 1) && frame_error(
            first_frame(received),
        ) is None,
        n >= 8192 ==> frame_error(first_frame(received)) is Some,
        frame_error(Seq::empty()) is Some,
{
    lemma_frame_length(received, 0, n);
    if n < 8192 {
        assert(received.take(n + 1).last() == 10);
    }
}

proof fn lemma_frame_length(received: Seq<u8>, i: int, n: int)
    requires
        0 <= i <= n < received.len(),
        received[n] == 10,
        forall|k: int| 0 <= k < n ==> #[trigger] received[k] != 10,
    ensures
        n < 8192 ==> frame_length(received, i) == n + 1,
        n >= 8192 && i <= 8193 ==> 8193 <= frame_length(received, i) <= received.len(),
    decreases n - i,
{
    if i < n {
        if i < 8193 {
            lemma_frame_length(received, i + 1, n);
        }
    }
}

/// Health is told with the version of the program; the runtime is degraded exactly while
/// it reconnects, is degraded or needs attention.
pub proof fn law_health_tells_the_readiness(readiness: RuntimeReadiness, error: Option<Seq<char>>)
    ensures
        health_of(readiness, error).readiness == readiness,
        health_of(readiness, error).last_error == error,
        health_of(readiness, error).version == "0.3.0"@,
        health_of(readiness, error).degraded <==> readiness != RuntimeReadiness::Starting
            && readiness != RuntimeReadiness::Ready && readiness != RuntimeReadiness::Paused,
{
}

/// An answer is a success or a failure with what it says, and tells the health where it was
/// asked for.
pub proof fn law_answers_are_understood(response: RuntimeControlResponse)
    ensures
        forall|r: Result<(), DogiError>|
            #![trigger call_ensures(RuntimeControlResponse::into_result, (response,), r)]
            call_ensures(RuntimeControlResponse::into_result, (response,), r) ==> {
                &&& r is Ok <==> response@.ok
                &&& r matches Err(e) ==> e@ == (ErrorKind::BackendUnavailable, response@.detail)
            },
        forall|r: Result<RuntimeHealthSnapshot, DogiError>|
            #![trigger call_ensures(RuntimeControlResponse::into_status, (response,), r)]
            call_ensures(RuntimeControlResponse::into_status, (response,), r) ==> {
                &&& r is Ok <==> response@.ok && response@.status is Some
                &&& r matches Ok(health) ==> Some(health@) == response@.status
                &&& !response@.ok ==> r->Err_0@ == (ErrorKind::BackendUnavailable, response@.detail)
            },
        forall|r: RuntimeControlResponse|
            #![trigger call_ensures(RuntimeControlResponse::success, (), r)]
            call_ensures(RuntimeControlResponse::success, (), r) ==> r@.ok && r@.status is None,
        forall|detail: &str, r: RuntimeControlResponse|
            #![trigger call_ensures(RuntimeControlResponse::failure, (detail,), r)]
            call_ensures(RuntimeControlResponse::failure, (detail,), r) ==> !r@.ok && r@.detail
                == detail@,
        forall|health: RuntimeHealthSnapshot, r: RuntimeControlResponse|
            #![trigger call_ensures(RuntimeControlResponse::status, (health,), r)]
            call_ensures(RuntimeControlResponse::status, (health,), r) ==> r@.ok && r@.status == Some(
                health@,
            ),
{
}

/// A window asks for the device and the speed that it shows, the speed within what a mouse
/// takes, and takes back just what it asked for.
pub proof fn law_windows_ask_for_what_they_show(
    client: &RuntimeControlClient,
    device_id: &str,
    speed: u16,
)
    ensures
        forall|r: Result<RuntimeControlRequest, DogiError>|
            #![trigger call_ensures(RuntimeControlClient::set_horizontal_scroll_preview, (client, device_id, speed), r)]
            call_ensures(
                RuntimeControlClient::set_horizontal_scroll_preview,
                (client, device_id, speed),
                r,
            ) ==> {
                &&& r is Err <==> text::trimmed(device_id@).len() == 0
                &&& r matches Ok(request) ==> (request@ matches RequestView::SetPreview(p)
                    && p.lease_id == client.lease_id@ && p.device_id == text::trimmed(device_id@)
                    && (25 <= speed <= 400 ==> p.speed_percent == speed) && (speed < 25
                    ==> p.speed_percent == 25) && (speed > 400 ==> p.speed_percent == 400))
            },
        forall|r: RuntimeControlRequest|
            #![trigger call_ensures(RuntimeControlClient::clear_horizontal_scroll_preview, (client,), r)]
            call_ensures(RuntimeControlClient::clear_horizontal_scroll_preview, (client,), r) ==> r@
                == RequestView::ClearPreview(client.lease_id@),
{
}

/// Up to eight windows are served at a time, and a socket is taken where nobody answers at it.
pub proof fn law_windows_are_limited(path: &str, present: bool, answers: bool)
    ensures
        forall|limiter: &mut ConnectionLimiter, r: bool|
            #![trigger call_ensures(ConnectionLimiter::try_acquire, (limiter,), r)]
            call_ensures(ConnectionLimiter::try_acquire, (limiter,), r) ==> {
                &&& r <==> (*limiter).count() < 8
                &&& r ==> final(limiter).count() == (*limiter).count() + 1
                &&& !r ==> final(limiter).count() == (*limiter).count()
            },
        forall|limiter: &mut ConnectionLimiter, r: ()|
            #![trigger call_ensures(ConnectionLimiter::release, (limiter,), r)]
            call_ensures(ConnectionLimiter::release, (limiter,), r) ==> final(limiter).count() == (
            *limiter).count() - 1,
        forall|r: SocketStep|
            #![trigger call_ensures(claim_socket, (path, present, answers), r)]
            call_ensures(claim_socket, (path, present, answers), r) ==> {
                &&& r is Bind <==> !present
                &&& r is RemoveFirst <==> present && !answers
                &&& r is Refuse <==> present && answers
            },
        forall|state: &mut SharedPreviewState, health: RuntimeHealthSnapshot, r: ()|
            #![trigger call_ensures(SharedPreviewState::publish_health, (state, health), r)]
            call_ensures(SharedPreviewState::publish_health, (state, health), r) ==> final(
                state
            )@.health == health@ && final(state)@.requested == (*state)@.requested && final(
                state
            )@.generation == (*state)@.generation,
{
}

}
