use vstd::prelude::*;

use crate::config::Timeouts;
use crate::error::Error;
use crate::time::{Duration, Instant, NextTimeout, TimeoutReason};

verus! {

/// The lifecycle phase a call is in. `Empty` is a sentinel used only
/// transiently while the phase object is replaced in place; it is never
/// observable between public calls.
#[derive(Clone, Copy, PartialEq, Eq, Structural, Debug)]
pub enum Phase {
    Begin,
    Prepare,
    Resolve,
    OpenConnection,
    SendRequest,
    SendBody,
    Await100,
    RecvResponse,
    RecvBody,
    Redirect,
    Cleanup,
    Empty,
}

/// The instant each phase was left (or, for `time_call_start`, entered);
/// deadlines for later phases are anchored at these.
#[derive(Clone, Copy, PartialEq, Eq, Debug)]
pub struct CallTimings {
    pub time_call_start: Option<Instant>,
    pub time_resolve: Option<Instant>,
    pub time_connect: Option<Instant>,
    pub time_send_request: Option<Instant>,
    pub time_send_body: Option<Instant>,
    pub time_await_100: Option<Instant>,
    pub time_recv_response: Option<Instant>,
    pub time_recv_body: Option<Instant>,
}

impl CallTimings {
    /// The timestamps in traversal order, by index.
    pub open spec fn ts(self, i: int) -> Option<Instant> {
        if i == 0 {
            self.time_call_start
        } else if i == 1 {
            self.time_resolve
        } else if i == 2 {
            self.time_connect
        } else if i == 3 {
            self.time_send_request
        } else if i == 4 {
            self.time_await_100
        } else if i == 5 {
            self.time_send_body
        } else if i == 6 {
            self.time_recv_response
        } else {
            self.time_recv_body
        }
    }

    /// Every recorded timestamp is no later than `now`: what a monotonic
    /// clock guarantees of the next observed instant.
    pub open spec fn all_le(self, now: Instant) -> bool {
        forall|i: int| 0 <= i < 8 && self.ts(i) is Some ==> self.ts(i)->0.spec_le(now)
    }

    /// No timestamp is recorded yet.
    pub open spec fn unset(self) -> bool {
        forall|i: int| 0 <= i < 8 ==> self.ts(i) is None
    }

    /// The timestamps the given phase's deadline is anchored at are
    /// present. Each transition records its timestamp before entering a
    /// phase that needs it, so this holds of every observable state.
    pub open spec fn has_anchors(self, phase: Phase) -> bool {
        match phase {
            Phase::Resolve => self.time_call_start is Some,
            Phase::OpenConnection => self.time_resolve is Some,
            Phase::SendRequest => self.time_connect is Some,
            Phase::SendBody => self.time_send_request is Some,
            Phase::Await100 => self.time_send_request is Some,
            Phase::RecvResponse => self.time_send_body is Some || self.time_await_100 is Some
                || self.time_send_request is Some,
            Phase::RecvBody => self.time_recv_response is Some,
            _ => true,
        }
    }

    /// The anchor a `RecvResponse` deadline counts from: the instant the
    /// body was sent, or the 100-continue wait ended, or the headers were
    /// sent — whichever describes the path actually taken.
    pub open spec fn spec_recv_response_anchor(self) -> Option<Instant> {
        if self.time_send_body is Some {
            self.time_send_body
        } else if self.time_await_100 is Some {
            self.time_await_100
        } else {
            self.time_send_request
        }
    }

    /// The deadline of the current phase and its reason: the phase's
    /// anchor timestamp plus the configured allowance. A phase with no
    /// configured allowance, a non-blocking phase, and a phase whose
    /// anchor is missing all yield a deadline that never arrives, with
    /// the reason `Global`.
    pub open spec fn spec_call_deadline(self, phase: Phase, timeouts: Timeouts) -> (
        Instant,
        TimeoutReason,
    ) {
        let pick: (Option<Instant>, Option<u64>, TimeoutReason) = match phase {
            Phase::Resolve => (self.time_call_start, timeouts.resolve, TimeoutReason::Resolver),
            Phase::OpenConnection => (
                self.time_resolve,
                timeouts.connect,
                TimeoutReason::OpenConnection,
            ),
            Phase::SendRequest => (
                self.time_connect,
                timeouts.send_request,
                TimeoutReason::SendRequest,
            ),
            Phase::SendBody => (
                self.time_send_request,
                timeouts.send_body,
                TimeoutReason::SendBody,
            ),
            Phase::Await100 => (
                self.time_send_request,
                timeouts.await_100,
                TimeoutReason::Await100,
            ),
            Phase::RecvResponse => (
                self.spec_recv_response_anchor(),
                timeouts.recv_response,
                TimeoutReason::RecvResponse,
            ),
            Phase::RecvBody => (
                self.time_recv_response,
                timeouts.recv_body,
                TimeoutReason::RecvBody,
            ),
            _ => (None, None, TimeoutReason::Global),
        };
        match (pick.0, pick.1) {
            (Some(anchor), Some(allow)) => (anchor.spec_add_millis(allow), pick.2),
            _ => (Instant::NotHappening, TimeoutReason::Global),
        }
    }

    /// Executable form of [`Self::spec_call_deadline`].
    pub fn call_deadline(&self, phase: Phase, timeouts: &Timeouts) -> (r: (
        Instant,
        TimeoutReason,
    ))
        ensures
            r == self.spec_call_deadline(phase, *timeouts),
    {
        let pick: (Option<Instant>, Option<u64>, TimeoutReason) = match phase {
            Phase::Resolve => (self.time_call_start, timeouts.resolve, TimeoutReason::Resolver),
            Phase::OpenConnection => (
                self.time_resolve,
                timeouts.connect,
                TimeoutReason::OpenConnection,
            ),
            Phase::SendRequest => (
                self.time_connect,
                timeouts.send_request,
                TimeoutReason::SendRequest,
            ),
            Phase::SendBody => (
                self.time_send_request,
                timeouts.send_body,
                TimeoutReason::SendBody,
            ),
            Phase::Await100 => (
                self.time_send_request,
                timeouts.await_100,
                TimeoutReason::Await100,
            ),
            Phase::RecvResponse => {
                let anchor = if self.time_send_body.is_some() {
                    self.time_send_body
                } else if self.time_await_100.is_some() {
                    self.time_await_100
                } else {
                    self.time_send_request
                };
                (anchor, timeouts.recv_response, TimeoutReason::RecvResponse)
            },
            Phase::RecvBody => (
                self.time_recv_response,
                timeouts.recv_body,
                TimeoutReason::RecvBody,
            ),
            _ => (None, None, TimeoutReason::Global),
        };
        match (pick.0, pick.1) {
            (Some(anchor), Some(allow)) => (anchor.add_millis(allow), pick.2),
            _ => (Instant::NotHappening, TimeoutReason::Global),
        }
    }

    /// All timestamps unset.
    pub fn none() -> (r: CallTimings)
        ensures
            r.unset(),
    {
        CallTimings {
            time_call_start: None,
            time_resolve: None,
            time_connect: None,
            time_send_request: None,
            time_send_body: None,
            time_await_100: None,
            time_recv_response: None,
            time_recv_body: None,
        }
    }
}

/// The global deadline: the creation instant plus the global allowance,
/// or a deadline that never arrives when none is configured.
pub open spec fn spec_global_deadline(global: Option<u64>, global_start: Instant) -> Instant {
    match global {
        Some(t) => global_start.spec_add_millis(t),
        None => Instant::NotHappening,
    }
}

/// The reason attached to each phase's own deadline; non-blocking phases
/// have none of their own, only the global one.
pub open spec fn spec_phase_reason(phase: Phase) -> TimeoutReason {
    match phase {
        Phase::Resolve => TimeoutReason::Resolver,
        Phase::OpenConnection => TimeoutReason::OpenConnection,
        Phase::SendRequest => TimeoutReason::SendRequest,
        Phase::SendBody => TimeoutReason::SendBody,
        Phase::Await100 => TimeoutReason::Await100,
        Phase::RecvResponse => TimeoutReason::RecvResponse,
        Phase::RecvBody => TimeoutReason::RecvBody,
        _ => TimeoutReason::Global,
    }
}

/// What the next deadline is at `now`: the nearer of the phase deadline
/// and the global deadline. Zero remaining time is a timeout, blamed on
/// the global deadline when that one is the exhausted one, else on the
/// phase.
pub open spec fn spec_next_timeout(
    timings: CallTimings,
    phase: Phase,
    timeouts: Timeouts,
    global_start: Instant,
    now: Instant,
) -> Result<NextTimeout, Error> {
    let (call_at, reason) = timings.spec_call_deadline(phase, timeouts);
    let call_remaining = call_at.spec_duration_since(now);
    let global_remaining = spec_global_deadline(timeouts.global, global_start).spec_duration_since(
        now,
    );
    let remaining = call_remaining.spec_min(global_remaining);
    if remaining.spec_is_zero() {
        Err(
            Error::Timeout(
                if global_remaining.spec_is_zero() {
                    TimeoutReason::Global
                } else {
                    reason
                },
            ),
        )
    } else {
        Ok(NextTimeout { after: remaining, reason })
    }
}

/// Executable form of [`spec_next_timeout`].
pub fn next_timeout(
    timings: &CallTimings,
    phase: Phase,
    timeouts: &Timeouts,
    global_start: Instant,
    now: Instant,
) -> (r: Result<NextTimeout, Error>)
    ensures
        r == spec_next_timeout(*timings, phase, *timeouts, global_start, now),
{
    let (call_at, reason) = timings.call_deadline(phase, timeouts);
    let call_remaining = call_at.duration_since(now);
    let global_at = match timeouts.global {
        Some(t) => global_start.add_millis(t),
        None => Instant::NotHappening,
    };
    let global_remaining = global_at.duration_since(now);
    let remaining = call_remaining.min(global_remaining);
    if remaining.is_zero() {
        Err(
            Error::Timeout(
                if global_remaining.is_zero() {
                    TimeoutReason::Global
                } else {
                    reason
                },
            ),
        )
    } else {
        Ok(NextTimeout { after: remaining, reason })
    }
}

/// Monotone timings, one step at a time: a timestamp recorded at `now`
/// under a monotonic clock is no earlier than every timestamp already
/// recorded, so the recorded timestamps, in the order the phases were
/// traversed, are non-decreasing.
pub proof fn lemma_record_monotone(timings: CallTimings, now: Instant, i: int)
    requires
        timings.all_le(now),
        0 <= i < 8,
        timings.ts(i) is Some,
    ensures
        timings.ts(i)->0.spec_le(now),
{
}

/// Recording timestamps at `now` keeps every timestamp at or before
/// `now`: each field either kept its value or was set to `now` itself.
pub proof fn lemma_all_le_after_set(pre: CallTimings, post: CallTimings, now: Instant)
    requires
        pre.all_le(now),
        post.time_call_start == pre.time_call_start || post.time_call_start == Some(now),
        post.time_resolve == pre.time_resolve || post.time_resolve == Some(now),
        post.time_connect == pre.time_connect || post.time_connect == Some(now),
        post.time_send_request == pre.time_send_request || post.time_send_request == Some(now),
        post.time_send_body == pre.time_send_body || post.time_send_body == Some(now),
        post.time_await_100 == pre.time_await_100 || post.time_await_100 == Some(now),
        post.time_recv_response == pre.time_recv_response || post.time_recv_response == Some(now),
        post.time_recv_body == pre.time_recv_body || post.time_recv_body == Some(now),
    ensures
        post.all_le(now),
{
    assert forall|i: int| 0 <= i < 8 && post.ts(i) is Some implies post.ts(i)->0.spec_le(
        now,
    ) by {
        assert(pre.ts(i) is Some ==> pre.ts(i)->0.spec_le(now));
        assert(now.spec_le(now));
    }
}

/// Timeout blame: whenever the deadline computation reports a timeout,
/// the reason is either `Global` (the global deadline was the exhausted
/// one) or exactly the reason attached to the current phase.
pub proof fn lemma_timeout_reason(
    timings: CallTimings,
    phase: Phase,
    timeouts: Timeouts,
    global_start: Instant,
    now: Instant,
)
    ensures
        spec_next_timeout(timings, phase, timeouts, global_start, now) matches Err(e) ==> (
        e matches Error::Timeout(reason) && (reason == TimeoutReason::Global || reason
            == spec_phase_reason(phase))),
{
}

} // verus!
