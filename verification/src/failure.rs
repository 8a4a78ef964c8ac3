//! What the runtime does after a failure: how it is classed, what is reported of
//! it, and how long the next attempt waits.

use crate::control::{CompletionView, RuntimeHealthSnapshot, RuntimeReadiness, SharedPreviewState};
use crate::control;
use crate::error::{DogiError, ErrorKind};
use crate::error;
use crate::supervisor::RuntimeSessionOutcome;
use crate::text;
use vstd::prelude::*;

verus! {

pub const TRANSIENT_RETRY_DELAY_MS: u64 = 3_000;

pub const DEGRADED_RETRY_DELAY_MS: u64 = 15_000;

/// The longest stretch for which the runtime sleeps without looking up.
pub const RETRY_SLICE_MS: u64 = 250;

/// How serious a failure is.
#[derive(Clone, Copy, Debug, PartialEq, Eq, Structural)]
pub enum RuntimeFailureKind {
    Transient,
    Degraded,
    Terminal,
}

/// A failure of a session.
#[derive(Debug, PartialEq, Eq)]
pub struct RuntimeFailure {
    pub kind: RuntimeFailureKind,
    pub detail: String,
}

/// How serious an error is.
pub open spec fn kind_of(kind: ErrorKind) -> RuntimeFailureKind {
    match kind {
        ErrorKind::DeviceNotFound => RuntimeFailureKind::Transient,
        ErrorKind::BackendUnavailable => RuntimeFailureKind::Transient,
        ErrorKind::Transport => RuntimeFailureKind::Transient,
        ErrorKind::Protocol => RuntimeFailureKind::Degraded,
        ErrorKind::UnsupportedFeature => RuntimeFailureKind::Degraded,
        ErrorKind::Config => RuntimeFailureKind::Terminal,
        ErrorKind::InvalidArgument => RuntimeFailureKind::Terminal,
        ErrorKind::Ui => RuntimeFailureKind::Terminal,
    }
}

/// How long the next attempt waits. After a failure that only the user can mend
/// it waits for a change of what is stored.
pub open spec fn delay_of(kind: RuntimeFailureKind) -> Option<u64> {
    match kind {
        RuntimeFailureKind::Transient => Some(TRANSIENT_RETRY_DELAY_MS),
        RuntimeFailureKind::Degraded => Some(DEGRADED_RETRY_DELAY_MS),
        RuntimeFailureKind::Terminal => None,
    }
}

/// What is reported of the runtime after a failure.
pub open spec fn readiness_of(kind: RuntimeFailureKind) -> RuntimeReadiness {
    match kind {
        RuntimeFailureKind::Transient => RuntimeReadiness::Reconnecting,
        RuntimeFailureKind::Degraded => RuntimeReadiness::Degraded,
        RuntimeFailureKind::Terminal => RuntimeReadiness::Terminal,
    }
}

/// What the runtime is said to be doing after a failure.
pub open spec fn label_of(kind: RuntimeFailureKind) -> Seq<char> {
    match kind {
        RuntimeFailureKind::Transient => "waiting for the device"@,
        RuntimeFailureKind::Degraded => "running in degraded mode"@,
        RuntimeFailureKind::Terminal => "configuration requires attention"@,
    }
}

impl RuntimeFailure {
    /// Classes an error.
    pub fn classify(error: DogiError) -> (r: Self)
        ensures
            r.kind == kind_of(error@.0),
            r.detail@ == error::message_of(error@),
    {
        let kind = match error.kind() {
            ErrorKind::DeviceNotFound | ErrorKind::BackendUnavailable | ErrorKind::Transport => {
                RuntimeFailureKind::Transient
            },
            ErrorKind::Protocol | ErrorKind::UnsupportedFeature => RuntimeFailureKind::Degraded,
            ErrorKind::Config | ErrorKind::InvalidArgument | ErrorKind::Ui => {
                RuntimeFailureKind::Terminal
            },
        };
        RuntimeFailure { kind, detail: error.message() }
    }

    /// How long the next attempt waits.
    pub fn retry_delay(&self) -> (r: Option<u64>)
        ensures
            r == delay_of(self.kind),
    {
        match self.kind {
            RuntimeFailureKind::Transient => Some(TRANSIENT_RETRY_DELAY_MS),
            RuntimeFailureKind::Degraded => Some(DEGRADED_RETRY_DELAY_MS),
            RuntimeFailureKind::Terminal => None,
        }
    }

    /// What is reported of the runtime.
    pub fn readiness(&self) -> (r: RuntimeReadiness)
        ensures
            r == readiness_of(self.kind),
    {
        match self.kind {
            RuntimeFailureKind::Transient => RuntimeReadiness::Reconnecting,
            RuntimeFailureKind::Degraded => RuntimeReadiness::Degraded,
            RuntimeFailureKind::Terminal => RuntimeReadiness::Terminal,
        }
    }

    /// What the runtime is said to be doing.
    pub fn label(&self) -> (r: &'static str)
        ensures
            r@ == label_of(self.kind),
    {
        match self.kind {
            RuntimeFailureKind::Transient => "waiting for the device",
            RuntimeFailureKind::Degraded => "running in degraded mode",
            RuntimeFailureKind::Terminal => "configuration requires attention",
        }
    }
}

/// The three classes of failure are told apart by what is reported and by how
/// long the next attempt waits, and none of them counts as ready.
pub proof fn law_failure_classes_are_distinct(a: RuntimeFailureKind, b: RuntimeFailureKind)
    ensures
        a != b ==> readiness_of(a) != readiness_of(b) && delay_of(a) != delay_of(b),
        readiness_of(a) != RuntimeReadiness::Ready,
        control::health_of(readiness_of(a), None).degraded,
{
}

/// How often the same failure came in a row.
#[derive(Debug, PartialEq, Eq)]
pub struct FailureTracker {
    pub previous: String,
    pub repetitions: u32,
}

/// How often a failure came in a row, with this time.
pub open spec fn repetitions_after(previous: Seq<char>, repetitions: u32, detail: Seq<char>) -> u32 {
    if previous == detail {
        if repetitions == u32::MAX {
            repetitions
        } else {
            (repetitions + 1) as u32
        }
    } else {
        1
    }
}

/// What the log says of a failure: a new one at once, and one that comes again
/// each twentieth time.
pub open spec fn failure_line(
    previous: Seq<char>,
    repetitions: u32,
    kind: RuntimeFailureKind,
    detail: Seq<char>,
) -> Option<Seq<char>> {
    let count = repetitions_after(previous, repetitions, detail);
    if previous != detail {
        Some("Dogi runtime is "@ + label_of(kind) + ": "@ + detail)
    } else if count % 20 == 0 {
        Some(
            "Dogi runtime is still "@ + label_of(kind) + " ("@ + text::decimal(count as nat)
                + " attempts): "@ + detail,
        )
    } else {
        None
    }
}

impl FailureTracker {
    /// Nothing failed yet.
    pub fn new() -> (r: Self)
        ensures
            r.previous@ == Seq::<char>::empty(),
            r.repetitions == 0,
    {
        FailureTracker { previous: String::new(), repetitions: 0 }
    }

    /// Forgets what failed.
    pub fn reset(&mut self)
        ensures
            final(self).previous@ == Seq::<char>::empty(),
            final(self).repetitions == 0,
    {
        self.previous = String::new();
        self.repetitions = 0;
    }

    /// Reports a failure. The answer is the line for the log.
    pub fn publish(&mut self, control: &mut SharedPreviewState, failure: &RuntimeFailure) -> (r:
        Option<String>)
        ensures
            final(control)@ == (control::StateView {
                health: control::health_of(readiness_of(failure.kind), Some(failure.detail@)),
                ..old(control)@
            }),
            final(self).previous@ == failure.detail@,
            final(self).repetitions == repetitions_after(
                old(self).previous@,
                old(self).repetitions,
                failure.detail@,
            ),
            text::optional(r) == failure_line(
                old(self).previous@,
                old(self).repetitions,
                failure.kind,
                failure.detail@,
            ),
    {
        control.publish_health(
            RuntimeHealthSnapshot::new(failure.readiness(), Some(failure.detail.clone())),
        );
        if text::same_text(self.previous.as_str(), failure.detail.as_str()) {
            self.repetitions = self.repetitions.saturating_add(1);
            if self.repetitions % 20 != 0 {
                return None;
            }
            let mut line = text::concat3("Dogi runtime is still ", failure.label(), " (");
            text::push_decimal(&mut line, self.repetitions as u64);
            line.append(" attempts): ");
            line.append(failure.detail.as_str());
            return Some(line);
        }
        self.previous = failure.detail.clone();
        self.repetitions = 1;
        let mut line = text::concat3("Dogi runtime is ", failure.label(), ": ");
        line.append(failure.detail.as_str());
        Some(line)
    }
}

/// Notes a warning. The answer is the line for the log, unless the warning is the
/// one noted before.
pub fn publish_once(previous: &mut String, detail: &str, context: &str) -> (r: Option<String>)
    ensures
        final(previous)@ == detail@,
        text::optional(r) == (if old(previous)@ == detail@ {
            None
        } else {
            Some(context@ + ": "@ + detail@)
        }),
{
    if text::same_text(previous.as_str(), detail) {
        return None;
    }
    *previous = detail.to_owned();
    Some(text::concat3(context, ": ", detail))
}

/// What the runtime does after a session.
#[derive(Debug, PartialEq, Eq)]
pub enum RunStep {
    /// It ends, as the session did.
    Finish,
    /// It ends with the error of the session.
    Fail(DogiError),
    /// It begins the next session.
    Continue,
    /// It waits, for as long as is said or for a change of what is stored.
    Wait { delay: Option<u64>, line: Option<String> },
}

/// The runtime from one session to the next.
#[derive(Debug)]
pub struct RuntimeRun {
    /// Whether it ends after so many events, and with the first failure.
    pub bounded: bool,
    pub recovery_complete: bool,
    pub failures: FailureTracker,
}

impl RuntimeRun {
    /// The runtime before its first session.
    pub fn new(bounded: bool) -> (r: Self)
        ensures
            r.bounded == bounded,
            !r.recovery_complete,
            r.failures.previous@ == Seq::<char>::empty(),
            r.failures.repetitions == 0,
    {
        RuntimeRun { bounded, recovery_complete: false, failures: FailureTracker::new() }
    }

    /// Whether an interrupted change of the device has to be completed before the
    /// next session; the runtime is then reported to be starting.
    pub fn begin(&self, control: &mut SharedPreviewState) -> (r: bool)
        ensures
            r == !self.recovery_complete,
            final(control)@ == (if r {
                control::StateView {
                    health: control::health_of(RuntimeReadiness::Starting, None),
                    ..old(control)@
                }
            } else {
                old(control)@
            }),
    {
        if self.recovery_complete {
            return false;
        }
        control.publish_health(RuntimeHealthSnapshot::new(RuntimeReadiness::Starting, None));
        true
    }

    /// An interrupted change of the device is completed.
    pub fn recovered(&mut self)
        ensures
            *final(self) == (RuntimeRun { recovery_complete: true, ..*old(self) }),
    {
        self.recovery_complete = true;
    }

    /// What the runtime does after a session, or after the recovery failed. A
    /// bounded one ends with the first failure. Another one answers the latest
    /// wish with the failure, reports it, and waits.
    pub fn conclude(
        &mut self,
        result: Result<RuntimeSessionOutcome, DogiError>,
        control: &mut SharedPreviewState,
    ) -> (r: RunStep)
        ensures
            final(self).bounded == old(self).bounded,
            final(self).recovery_complete == old(self).recovery_complete,
            match result {
                Ok(outcome) => {
                    &&& r == (if outcome == RuntimeSessionOutcome::Completed {
                        RunStep::Finish
                    } else {
                        RunStep::Continue
                    })
                    &&& final(control)@ == old(control)@
                    &&& if outcome == RuntimeSessionOutcome::SwitchDevice && !old(self).bounded {
                        &&& final(self).failures.previous@ == Seq::<char>::empty()
                        &&& final(self).failures.repetitions == 0
                    } else {
                        final(self).failures == old(self).failures
                    }
                },
                Err(error) => if old(self).bounded {
                    &&& r matches RunStep::Fail(e) && e@ == error@
                    &&& final(control)@ == old(control)@
                    &&& final(self).failures == old(self).failures
                } else {
                    let kind = kind_of(error@.0);
                    let detail = error::message_of(error@);
                    &&& r matches RunStep::Wait { delay, line } && delay == delay_of(kind)
                        && text::optional(line) == failure_line(
                        old(self).failures.previous@,
                        old(self).failures.repetitions,
                        kind,
                        detail,
                    )
                    &&& final(control)@ == (control::StateView {
                        health: control::health_of(readiness_of(kind), Some(detail)),
                        ..control::after_publish(
                            old(control)@,
                            old(control)@.generation,
                            CompletionView::Failed(detail),
                        )
                    })
                    &&& final(self).failures.previous@ == detail
                    &&& final(self).failures.repetitions == repetitions_after(
                        old(self).failures.previous@,
                        old(self).failures.repetitions,
                        detail,
                    )
                },
            },
    {
        match result {
            Ok(RuntimeSessionOutcome::Completed) => RunStep::Finish,
            Ok(RuntimeSessionOutcome::SwitchDevice) => {
                if !self.bounded {
                    self.failures.reset();
                }
                RunStep::Continue
            },
            Err(error) => {
                if self.bounded {
                    return RunStep::Fail(error);
                }
                control.fail_pending(error.message());
                let failure = RuntimeFailure::classify(error);
                let line = self.failures.publish(control, &failure);
                RunStep::Wait { delay: failure.retry_delay(), line }
            },
        }
    }
}

/// How long to sleep before looking up again, on the way to a deadline. There is
/// nothing to sleep for at the deadline.
pub fn retry_slice(now: u64, deadline: u64) -> (r: Option<u64>)
    ensures
        r == (if deadline <= now {
            None
        } else if deadline - now < RETRY_SLICE_MS {
            Some((deadline - now) as u64)
        } else {
            Some(RETRY_SLICE_MS)
        }),
{
    if deadline <= now {
        return None;
    }
    let remaining: u64 = deadline - now;
    if remaining < RETRY_SLICE_MS {
        Some(remaining)
    } else {
        Some(RETRY_SLICE_MS)
    }
}

/// What tells one state of a file from another. The time is that of its last
/// change, in nanoseconds.
#[derive(Clone, Copy, Debug, PartialEq, Eq)]
pub struct PathRevision {
    pub length: u64,
    pub modified: Option<u128>,
    pub is_directory: bool,
}

fn same_revision(a: &Option<PathRevision>, b: &Option<PathRevision>) -> (r: bool)
    ensures
        r == (*a == *b),
{
    match (a, b) {
        (None, None) => true,
        (Some(x), Some(y)) => {
            let same_time = match (x.modified, y.modified) {
                (None, None) => true,
                (Some(s), Some(t)) => s == t,
                _ => false,
            };
            x.length == y.length && same_time && x.is_directory == y.is_directory
        },
        _ => false,
    }
}

/// Whether any of the watched files changed.
pub fn any_revision_changed(
    baseline: &Vec<Option<PathRevision>>,
    current: &Vec<Option<PathRevision>>,
) -> (r: bool)
    requires
        baseline@.len() == current@.len(),
    ensures
        r == (baseline@ != current@),
{
    let mut i: usize = 0;
    while i < baseline.len()
        invariant
            i <= baseline@.len(),
            baseline@.len() == current@.len(),
            forall|k: int| 0 <= k < i ==> baseline@[k] == current@[k],
        decreases baseline@.len() - i,
    {
        if !same_revision(&baseline[i], &current[i]) {
            return true;
        }
        i += 1;
    }
    assert(baseline@ =~= current@);
    false
}

/// A device that is not there, a service that is not, and a transport that fails are tried
/// again after three seconds; a device that answers badly or cannot do something after
/// fifteen; and where the settings or arguments are wrong, nothing is tried before they
/// change.
pub proof fn law_failures_are_tried_again_by_their_kind(kind: ErrorKind)
    ensures
        kind == ErrorKind::DeviceNotFound || kind == ErrorKind::BackendUnavailable || kind
            == ErrorKind::Transport ==> delay_of(kind_of(kind)) == Some(3_000u64) && readiness_of(
            kind_of(kind),
        ) == RuntimeReadiness::Reconnecting,
        kind == ErrorKind::Protocol || kind == ErrorKind::UnsupportedFeature ==> delay_of(
            kind_of(kind),
        ) == Some(15_000u64) && readiness_of(kind_of(kind)) == RuntimeReadiness::Degraded,
        kind == ErrorKind::Config || kind == ErrorKind::InvalidArgument || kind == ErrorKind::Ui
            ==> delay_of(kind_of(kind)) is None && readiness_of(kind_of(kind))
            == RuntimeReadiness::Terminal,
{
}

/// A failure is written to the log when it is a new one, and then each twentieth time in a
/// row.
pub proof fn law_repeated_failures_are_logged_sparsely(
    previous: Seq<char>,
    repetitions: u32,
    kind: RuntimeFailureKind,
    detail: Seq<char>,
)
    requires
        repetitions < u32::MAX,
    ensures
        previous != detail ==> failure_line(previous, repetitions, kind, detail) is Some
            && repetitions_after(previous, repetitions, detail) == 1,
        previous == detail ==> repetitions_after(previous, repetitions, detail) == repetitions + 1,
        previous == detail ==> (failure_line(previous, repetitions, kind, detail) is Some <==> (
        repetitions + 1) % 20 == 0),
{
}

/// A run ends where its session completed, or failed while it is to serve a number of events;
/// any other end is followed by another session, at once or after the wait that its failure
/// calls for.
pub proof fn law_runs_go_on_after_failures(outcome: RuntimeSessionOutcome, error: DogiError)
    ensures
        forall|run: &mut RuntimeRun, c: &mut SharedPreviewState, r: RunStep|
            #![trigger call_ensures(RuntimeRun::conclude, (run, Ok(outcome), c), r)]
            call_ensures(RuntimeRun::conclude, (run, Ok(outcome), c), r) ==> {
                &&& outcome is Completed <==> r is Finish
                &&& !(outcome is Completed) ==> r is Continue
                &&& final(c)@ == (*c)@
            },
        forall|run: &mut RuntimeRun, c: &mut SharedPreviewState, r: RunStep|
            #![trigger call_ensures(RuntimeRun::conclude, (run, Err(error), c), r)]
            call_ensures(RuntimeRun::conclude, (run, Err(error), c), r) ==> {
                &&& (*run).bounded ==> (r matches RunStep::Fail(e) && e@ == error@)
                &&& !(*run).bounded ==> (r matches RunStep::Wait { delay, line } && delay
                    == delay_of(kind_of(error@.0)))
                &&& !(*run).bounded ==> final(c)@.health.readiness == readiness_of(
                    kind_of(error@.0),
                )
            },
        forall|run: &RuntimeRun, c: &mut SharedPreviewState, r: bool|
            #![trigger call_ensures(RuntimeRun::begin, (run, c), r)]
            call_ensures(RuntimeRun::begin, (run, c), r) ==> (r <==> !run.recovery_complete) && (r
                ==> final(c)@.health.readiness is Starting),
        forall|run: &mut RuntimeRun, r: ()|
            #![trigger call_ensures(RuntimeRun::recovered, (run,), r)]
            call_ensures(RuntimeRun::recovered, (run,), r) ==> final(run).recovery_complete && final(
                run
            ).bounded == (*run).bounded,
{
}

/// A wait is cut into slices of up to a quarter of a second, and is over at its deadline.
pub proof fn law_waits_are_sliced(now: u64, deadline: u64)
    ensures
        forall|r: Option<u64>|
            #![trigger call_ensures(retry_slice, (now, deadline), r)]
            call_ensures(retry_slice, (now, deadline), r) ==> {
                &&& r is None <==> now >= deadline
                &&& r matches Some(slice) ==> 0 < slice <= 250 && now + slice <= deadline
                &&& now < deadline && deadline - now >= 250 ==> r == Some(250u64)
                &&& now < deadline && deadline - now < 250 ==> r == Some((deadline - now) as u64)
            },
{
}

/// What was told last is not told again, and a change of any file is noticed.
pub proof fn law_news_are_told(detail: &str, context: &str)
    ensures
        forall|previous: &mut String, r: Option<String>|
            #![trigger call_ensures(publish_once, (previous, detail, context), r)]
            call_ensures(publish_once, (previous, detail, context), r) ==> {
                &&& final(previous)@ == detail@
                &&& r is None <==> (*previous)@ == detail@
                &&& r matches Some(line) ==> line@ == context@ + ": "@ + detail@
            },
        forall|before: &Vec<Option<PathRevision>>, now: &Vec<Option<PathRevision>>, r: bool|
            #![trigger call_ensures(any_revision_changed, (before, now), r)]
            call_ensures(any_revision_changed, (before, now), r) ==> (r <==> before@ != now@),
        forall|tracker: &mut FailureTracker, r: ()|
            #![trigger call_ensures(FailureTracker::reset, (tracker,), r)]
            call_ensures(FailureTracker::reset, (tracker,), r) ==> final(tracker).repetitions == 0
                && final(tracker).previous@.len() == 0,
{
}

}
