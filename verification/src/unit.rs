use vstd::prelude::*;

use std::collections::VecDeque;

use crate::body::SendBody;
use crate::config::{AgentConfig, Timeouts};
use crate::error::Error;
use crate::flow::{
    await_100_can_keep, await_100_step, await_100_try_read, cleanup_must_close, flow_new,
    prepare_header, prepare_proceed, prepare_uri, recv_body_mode, recv_body_read, recv_body_step,
    recv_response_step, recv_response_try, redirect_must_close, redirect_new_flow,
    request_uri_is_absolute,
    response_is_redirection, send_body_consume_direct, send_body_overhead, send_body_step,
    send_body_write, send_request_headers_map, send_request_method, send_request_step,
    send_request_uri, send_request_version, send_request_write, Await100Step, BodyMode,
    RecvBodyStep, RecvResponseStep, SendBodyStep, SendRequestStep, MAX_AMENDED_HEADERS,
    MAX_BODY_OVERHEAD,
};
use crate::time::{Instant, NextTimeout};
use crate::timings::{next_timeout, spec_next_timeout, CallTimings, Phase};

use hoot::client::flow::state::{
    Await100 as StAwait100, Cleanup as StCleanup, Prepare as StPrepare, RecvBody as StRecvBody,
    RecvResponse as StRecvResponse, Redirect as StRedirect, SendBody as StSendBody,
    SendRequest as StSendRequest,
};
use hoot::client::flow::Flow;

verus! {

/// The caller's scratch space for one call: the buffer the driver fills
/// with outgoing bytes, and a temporary buffer for staging body bytes
/// before framing.
pub struct Buffers {
    pub output: Vec<u8>,
    pub tmp: Vec<u8>,
}

/// What the driver asks the caller to do next.
pub enum Event {
    Reset { must_close: bool },
    Prepare { uri: http::Uri },
    Resolve { uri: http::Uri, timeout: NextTimeout },
    OpenConnection { uri: http::Uri, timeout: NextTimeout },
    Await100 { timeout: NextTimeout },
    Transmit { amount: usize, timeout: NextTimeout },
    AwaitInput { timeout: NextTimeout },
    Response { response: http::Response<()>, end: bool },
    ResponseBody { amount: usize },
}

/// What the caller feeds back after acting on an event.
pub enum Input {
    Begin,
    Header { name: http::HeaderName, value: http::HeaderValue },
    Prepared,
    Resolved,
    ConnectionOpen,
    EndAwait100,
    Data { input: Vec<u8> },
}

/// The current phase together with its wire-level flow object.
enum State {
    Begin(Flow<(), StPrepare>),
    Prepare(Flow<(), StPrepare>),
    Resolve(Flow<(), StPrepare>),
    OpenConnection(Flow<(), StPrepare>),
    SendRequest(Flow<(), StSendRequest>),
    SendBody(Flow<(), StSendBody>),
    Await100(Flow<(), StAwait100>),
    RecvResponse(Flow<(), StRecvResponse>),
    RecvBody(Flow<(), StRecvBody>),
    Redirect(Flow<(), StRedirect>),
    Cleanup(Flow<(), StCleanup>),
    Empty,
}

impl State {
    spec fn phase(&self) -> Phase {
        match self {
            State::Begin(_) => Phase::Begin,
            State::Prepare(_) => Phase::Prepare,
            State::Resolve(_) => Phase::Resolve,
            State::OpenConnection(_) => Phase::OpenConnection,
            State::SendRequest(_) => Phase::SendRequest,
            State::SendBody(_) => Phase::SendBody,
            State::Await100(_) => Phase::Await100,
            State::RecvResponse(_) => Phase::RecvResponse,
            State::RecvBody(_) => Phase::RecvBody,
            State::Redirect(_) => Phase::Redirect,
            State::Cleanup(_) => Phase::Cleanup,
            State::Empty => Phase::Empty,
        }
    }
}

/// Events the driver may defer to the next poll: only those produced
/// while the state also advances.
pub open spec fn is_queueable(e: Event) -> bool {
    e is Response || e is ResponseBody
}

/// The phases that follow a complete response, within one run.
pub open spec fn in_recv_tail(p: Phase) -> bool {
    p is RecvBody || p is Redirect || p is Cleanup
}

/// A `Response` event is waiting in the queue.
pub open spec fn has_response(q: Seq<Event>) -> bool {
    exists|i: int| 0 <= i < q.len() && q[i] is Response
}

/// No two distinct positions of the queue hold `Response` events: each
/// run defers at most one.
pub open spec fn at_most_one_response(q: Seq<Event>) -> bool {
    forall|i: int, j: int|
        0 <= i < q.len() && 0 <= j < q.len() && #[trigger] q[i] is Response && #[trigger] q[j]
            is Response ==> i == j
}

/// The sans-I/O driver of one HTTP/1.1 call: a state machine that hands
/// the caller events to act on and consumes the inputs the caller feeds
/// back. `B` is the slot for the outgoing body: present while sending,
/// `()` once released.
pub struct Unit<B> {
    config: AgentConfig,
    timeouts: Timeouts,
    global_start: Instant,
    call_timings: CallTimings,
    state: State,
    body: B,
    queued_event: VecDeque<Event>,
    redirect_count: u32,
    /// A `Response { end: true }` has been queued in the current run.
    ended: Ghost<bool>,
    /// A `Response { end: true }` has been queued in some run.
    ended_ever: Ghost<bool>,
    /// How many headers the caller has amended onto the current run's
    /// request, kept under the wire library's fixed amendment capacity.
    header_count: u32,
    /// The response phase was entered through a rejected 100-continue
    /// wait: the wire library cannot receive a response on that path, so
    /// data fed there is refused instead of handed to it.
    rejected_100: bool,
    /// The request's URI is absolute, which the wire library needs to
    /// derive a redirect; with a relative one a redirect fails instead.
    base_uri_absolute: bool,
    /// Whether the most recent complete response was counted as a
    /// redirection.
    last_redirect: Ghost<bool>,
    /// How many times the machine has entered the redirect phase.
    redirect_entries: Ghost<nat>,
    /// How many times a redirect has re-entered `Begin`.
    begin_reentries: Ghost<nat>,
}

impl<B> Unit<B> {
    pub closed spec fn phase(&self) -> Phase {
        self.state.phase()
    }

    pub closed spec fn timings(&self) -> CallTimings {
        self.call_timings
    }

    pub closed spec fn queued(&self) -> Seq<Event> {
        self.queued_event@
    }

    pub closed spec fn spec_redirect_count(&self) -> u32 {
        self.redirect_count
    }

    pub closed spec fn spec_config(&self) -> AgentConfig {
        self.config
    }

    pub closed spec fn spec_timeouts(&self) -> Timeouts {
        self.timeouts
    }

    pub closed spec fn spec_global_start(&self) -> Instant {
        self.global_start
    }

    pub closed spec fn run_ended(&self) -> bool {
        self.ended@
    }

    pub closed spec fn ever_ended(&self) -> bool {
        self.ended_ever@
    }

    pub closed spec fn spec_redirect_entries(&self) -> nat {
        self.redirect_entries@
    }

    pub closed spec fn spec_header_count(&self) -> u32 {
        self.header_count
    }

    pub closed spec fn spec_rejected_100(&self) -> bool {
        self.rejected_100
    }

    pub closed spec fn spec_last_redirect(&self) -> bool {
        self.last_redirect@
    }

    /// How many headers have been amended onto the current run's request;
    /// a caller stays below [`MAX_AMENDED_HEADERS`].
    pub fn header_count(&self) -> (r: u32)
        ensures
            r == self.spec_header_count(),
    {
        self.header_count
    }

    pub closed spec fn spec_begin_reentries(&self) -> nat {
        self.begin_reentries@
    }

    /// The outgoing body slot.
    pub closed spec fn spec_body(&self) -> B {
        self.body
    }

    /// The deadline computation the next poll will make at `now`.
    pub open spec fn spec_timeout_at(&self, now: Instant) -> Result<NextTimeout, Error> {
        spec_next_timeout(
            self.timings(),
            self.phase(),
            self.spec_timeouts(),
            self.spec_global_start(),
            now,
        )
    }

    /// Everything that holds of the driver between public calls:
    /// the sentinel phase is never observable; the timestamps the current
    /// phase's deadline needs are recorded; only `Response` and
    /// `ResponseBody` events are ever deferred; a deferred or delivered
    /// final response confines the run to its receiving tail; and the
    /// redirect counter respects the configured cap until a final
    /// response is emitted.
    pub closed spec fn wf(&self) -> bool {
        &&& !(self.phase() is Empty)
        &&& self.call_timings.has_anchors(self.phase())
        &&& forall|i: int|
            0 <= i < self.queued_event@.len() ==> is_queueable(#[trigger] self.queued_event@[i])
        &&& has_response(self.queued_event@) ==> in_recv_tail(self.phase())
        &&& at_most_one_response(self.queued_event@)
        &&& self.ended@ ==> in_recv_tail(self.phase())
        &&& self.ended@ ==> self.ended_ever@
        &&& !self.ended_ever@ ==> self.redirect_count <= self.config.max_redirects
        &&& self.begin_reentries@ <= self.redirect_entries@
        &&& self.phase() is Redirect ==> self.begin_reentries@ < self.redirect_entries@
    }

    /// The phase as a value, for dispatch and inspection.
    pub fn current_phase(&self) -> (p: Phase)
        ensures
            p == self.phase(),
    {
        match &self.state {
            State::Begin(_) => Phase::Begin,
            State::Prepare(_) => Phase::Prepare,
            State::Resolve(_) => Phase::Resolve,
            State::OpenConnection(_) => Phase::OpenConnection,
            State::SendRequest(_) => Phase::SendRequest,
            State::SendBody(_) => Phase::SendBody,
            State::Await100(_) => Phase::Await100,
            State::RecvResponse(_) => Phase::RecvResponse,
            State::RecvBody(_) => Phase::RecvBody,
            State::Redirect(_) => Phase::Redirect,
            State::Cleanup(_) => Phase::Cleanup,
            State::Empty => Phase::Empty,
        }
    }

    /// The framing of the response body, available while receiving it.
    pub fn body_mode(&self) -> (r: Option<BodyMode>)
        ensures
            r is Some <==> self.phase() is RecvBody,
    {
        match &self.state {
            State::RecvBody(flow) => Some(recv_body_mode(flow)),
            _ => None,
        }
    }
}

} // verus!

verus! {

/// The request line and headers the driver is about to transmit, copied
/// out for inspection and tests.
pub struct FakeRequest {
    pub method: http::Method,
    pub uri: http::Uri,
    pub version: http::Version,
    pub headers: http::HeaderMap,
}

impl Unit<SendBody> {
    /// Create a driver for one call of `request` with `body`, created at
    /// `global_start`. Fails only when the wire library rejects the
    /// request itself.
    pub fn new(
        config: AgentConfig,
        timeouts: Timeouts,
        global_start: Instant,
        request: http::Request<()>,
        body: SendBody,
    ) -> (r: Result<Unit<SendBody>, Error>)
        requires
            body.wf(),
        ensures
            r matches Ok(u) ==> {
                &&& u.wf()
                &&& u.phase() is Begin
                &&& u.timings().unset()
                &&& u.queued().len() == 0
                &&& u.spec_redirect_count() == 0
                &&& u.spec_config() == config
                &&& u.spec_timeouts() == timeouts
                &&& u.spec_global_start() == global_start
                &&& u.spec_body() == body
                &&& !u.run_ended()
                &&& !u.ever_ended()
                &&& u.spec_header_count() == 0
                &&& !u.spec_rejected_100()
                &&& !u.spec_last_redirect()
            },
            r matches Err(e) ==> e is Flow,
    {
        let absolute = request_uri_is_absolute(&request);
        let flow = match flow_new(request) {
            Ok(f) => f,
            Err(e) => {
                return Err(Error::Flow(e));
            },
        };
        Ok(
            Unit {
                config,
                timeouts,
                global_start,
                call_timings: CallTimings::none(),
                state: State::Begin(flow),
                body,
                queued_event: VecDeque::new(),
                redirect_count: 0,
                ended: Ghost(false),
                ended_ever: Ghost(false),
                header_count: 0,
                rejected_100: false,
                base_uri_absolute: absolute,
                last_redirect: Ghost(false),
                redirect_entries: Ghost(0),
                begin_reentries: Ghost(0),
            },
        )
    }

    /// Release the borrowed outgoing body once it is no longer needed;
    /// every other part of the state is preserved.
    pub fn release_body(self) -> (r: Unit<()>)
        ensures
            r.phase() == self.phase(),
            r.timings() == self.timings(),
            r.queued() == self.queued(),
            r.spec_redirect_count() == self.spec_redirect_count(),
            r.spec_config() == self.spec_config(),
            r.spec_timeouts() == self.spec_timeouts(),
            r.spec_global_start() == self.spec_global_start(),
            r.run_ended() == self.run_ended(),
            r.ever_ended() == self.ever_ended(),
            r.spec_redirect_entries() == self.spec_redirect_entries(),
            r.spec_begin_reentries() == self.spec_begin_reentries(),
            r.spec_header_count() == self.spec_header_count(),
            r.spec_rejected_100() == self.spec_rejected_100(),
            r.spec_last_redirect() == self.spec_last_redirect(),
            self.wf() ==> r.wf(),
    {
        Unit {
            config: self.config,
            timeouts: self.timeouts,
            global_start: self.global_start,
            call_timings: self.call_timings,
            state: self.state,
            body: (),
            queued_event: self.queued_event,
            redirect_count: self.redirect_count,
            ended: self.ended,
            ended_ever: self.ended_ever,
            header_count: self.header_count,
            rejected_100: self.rejected_100,
            base_uri_absolute: self.base_uri_absolute,
            last_redirect: self.last_redirect,
            redirect_entries: self.redirect_entries,
            begin_reentries: self.begin_reentries,
        }
    }

    /// Snapshot of method, URI, version and headers while the request is
    /// being sent.
    pub fn fake_request(&mut self) -> (r: Result<FakeRequest, Error>)
        requires
            old(self).phase() is SendRequest,
        ensures
            final(self).phase() == old(self).phase(),
            final(self).timings() == old(self).timings(),
            final(self).queued() == old(self).queued(),
            final(self).spec_redirect_count() == old(self).spec_redirect_count(),
            final(self).spec_config() == old(self).spec_config(),
            final(self).spec_timeouts() == old(self).spec_timeouts(),
            final(self).spec_global_start() == old(self).spec_global_start(),
            final(self).spec_body() == old(self).spec_body(),
            final(self).run_ended() == old(self).run_ended(),
            final(self).ever_ended() == old(self).ever_ended(),
            final(self).spec_header_count() == old(self).spec_header_count(),
            old(self).wf() ==> final(self).wf(),
            r matches Err(e) ==> e is Flow,
    {
        match &mut self.state {
            State::SendRequest(flow) => {
                let headers = match send_request_headers_map(flow) {
                    Ok(h) => h,
                    Err(e) => {
                        return Err(Error::Flow(e));
                    },
                };
                Ok(
                    FakeRequest {
                        method: send_request_method(flow),
                        uri: send_request_uri(flow),
                        version: send_request_version(flow),
                        headers,
                    },
                )
            },
            _ => unreached(),
        }
    }
}

} // verus!

verus! {

/// The observable driver state two calls can be compared by: phase,
/// timestamps, deferred events, redirect count and the run-end marker.
pub open spec fn obs_eq<B>(a: Unit<B>, b: Unit<B>) -> bool {
    &&& a.phase() == b.phase()
    &&& a.timings() == b.timings()
    &&& a.queued() == b.queued()
    &&& a.spec_redirect_count() == b.spec_redirect_count()
    &&& a.run_ended() == b.run_ended()
    &&& a.ever_ended() == b.ever_ended()
}

/// The parts of the driver no public call ever changes, plus the body
/// slot, which only polling the body-send phase changes.
pub open spec fn frame_eq<B>(a: Unit<B>, b: Unit<B>) -> bool {
    &&& a.spec_config() == b.spec_config()
    &&& a.spec_timeouts() == b.spec_timeouts()
    &&& a.spec_global_start() == b.spec_global_start()
    &&& a.spec_body() == b.spec_body()
}

/// The inputs each phase accepts; any other pairing is a caller error
/// the driver need not take. `Data` is accepted everywhere: phases that
/// do not read bytes ignore it.
pub open spec fn input_fits_phase(input: Input, p: Phase) -> bool {
    match input {
        Input::Begin => p is Begin,
        Input::Header { .. } => p is Prepare,
        Input::Prepared => p is Prepare,
        Input::Resolved => p is Resolve,
        Input::ConnectionOpen => p is OpenConnection,
        Input::EndAwait100 => p is Await100,
        Input::Data { .. } => true,
    }
}

/// The redirect counter after one more redirection, saturating rather
/// than wrapping.
pub open spec fn inc_sat(c: u32) -> u32 {
    if c < u32::MAX {
        (c + 1) as u32
    } else {
        c
    }
}

impl<B> Unit<B> {
    /// Leave the 100-continue wait: the flow decides whether the body is
    /// still owed or the response comes next.
    fn end_await_100(&mut self, now: Instant)
        requires
            old(self).wf(),
            old(self).phase() is Await100,
            old(self).timings().all_le(now),
        ensures
            final(self).wf(),
            final(self).timings().all_le(now),
            frame_eq(*old(self), *final(self)),
            final(self).phase() is SendBody || final(self).phase() is RecvResponse,
            final(self).timings() == (CallTimings {
                time_await_100: Some(now),
                ..old(self).timings()
            }),
            final(self).queued() == old(self).queued(),
            final(self).spec_redirect_count() == old(self).spec_redirect_count(),
            final(self).run_ended() == old(self).run_ended(),
            final(self).ever_ended() == old(self).ever_ended(),
            final(self).spec_header_count() == old(self).spec_header_count(),
            final(self).spec_rejected_100() == (final(self).phase() is RecvResponse),
    {
        let mut st = State::Empty;
        core::mem::swap(&mut self.state, &mut st);
        match st {
            State::Await100(flow) => {
                self.call_timings.time_await_100 = Some(now);
                proof {
                    crate::timings::lemma_all_le_after_set(old(self).timings(), self.call_timings, now);
                }
                match await_100_step(flow) {
                    Await100Step::SendBody(f) => {
                        self.rejected_100 = false;
                        self.state = State::SendBody(f);
                    },
                    Await100Step::RecvResponse(f) => {
                        // The flow refuses the body only after a rejected
                        // 100; receiving on this path is not supported by
                        // the wire library, so mark it.
                        self.rejected_100 = true;
                        self.state = State::RecvResponse(f);
                    },
                }
            },
            _ => unreached(),
        }
    }

    /// Decode response-body bytes from `input` into `output`, defer a
    /// `ResponseBody` event carrying how many bytes `output` received,
    /// and let the flow decide when the body is complete.
    fn handle_input_recv_body(&mut self, now: Instant, input: &[u8], output: &mut Vec<u8>) -> (r:
        Result<usize, Error>)
        requires
            old(self).wf(),
            old(self).phase() is RecvBody,
            old(self).timings().all_le(now),
        ensures
            final(self).wf(),
            final(self).timings().all_le(now),
            frame_eq(*old(self), *final(self)),
            final(output)@.len() == old(output)@.len(),
            final(self).spec_redirect_count() == old(self).spec_redirect_count(),
            final(self).run_ended() == old(self).run_ended(),
            final(self).ever_ended() == old(self).ever_ended(),
            final(self).spec_header_count() == old(self).spec_header_count(),
            r matches Err(e) ==> e is Flow && obs_eq(*old(self), *final(self)),
            r matches Ok(n) ==> {
                &&& n <= input@.len()
                &&& exists|amount: usize|
                    {
                        &&& amount <= old(output)@.len()
                        &&& final(self).queued() == #[trigger] old(self).queued().push(
                            Event::ResponseBody { amount },
                        )
                        &&& forall|i: int|
                            amount <= i < final(output)@.len() ==> final(output)@[i] == old(output)@[i]
                    }
                &&& (final(self).phase() is RecvBody ==> final(self).timings() == old(self).timings())
                &&& (!(final(self).phase() is RecvBody) ==> {
                    &&& final(self).phase() is Redirect || final(self).phase() is Cleanup
                    &&& final(self).timings() == (CallTimings {
                        time_recv_body: Some(now),
                        ..old(self).timings()
                    })
                })
            },
    {
        let mut st = State::Empty;
        core::mem::swap(&mut self.state, &mut st);
        match st {
            State::RecvBody(mut flow) => {
                let (input_used, output_used) = match recv_body_read(&mut flow, input, output) {
                    Ok(v) => v,
                    Err(e) => {
                        self.state = State::RecvBody(flow);
                        return Err(Error::Flow(e));
                    },
                };
                self.queued_event.push_back(Event::ResponseBody { amount: output_used });
                proof {
                    assert(self.queued_event@ == old(self).queued().push(
                        Event::ResponseBody { amount: output_used },
                    ));
                    assert forall|i: int|
                        output_used <= i < output@.len() implies output@[i] == old(output)@[i] by {
                        assert(output@.len() == old(output)@.len());
                    }
                    if has_response(self.queued_event@) {
                        let i = choose|i: int|
                            0 <= i < self.queued_event@.len() && self.queued_event@[i] is Response;
                        assert(0 <= i < old(self).queued().len() && old(self).queued()[i]
                            is Response);
                    }
                }
                match recv_body_step(flow) {
                    RecvBodyStep::Stay(f) => {
                        self.state = State::RecvBody(f);
                    },
                    RecvBodyStep::Redirect(f) => {
                        self.redirect_entries = Ghost(self.redirect_entries@ + 1);
                        self.call_timings.time_recv_body = Some(now);
                        proof {
                            crate::timings::lemma_all_le_after_set(old(self).timings(), self.call_timings, now);
                        }
                        self.state = State::Redirect(f);
                    },
                    RecvBodyStep::Cleanup(f) => {
                        self.call_timings.time_recv_body = Some(now);
                        proof {
                            crate::timings::lemma_all_le_after_set(old(self).timings(), self.call_timings, now);
                        }
                        self.state = State::Cleanup(f);
                    },
                }
                Ok(input_used)
            },
            _ => unreached(),
        }
    }
}

} // verus!

verus! {

impl Unit<SendBody> {
    /// Feed the machine one input. The return value is how many bytes of
    /// a `Data` input were consumed (other inputs consume none); the
    /// caller keeps the remainder. `output` receives decoded response
    /// body bytes while a body is being received, and is untouched
    /// otherwise.
    pub fn handle_input(&mut self, now: Instant, input: Input, output: &mut Vec<u8>) -> (r: Result<
        usize,
        Error,
    >)
        requires
            old(self).wf(),
            input_fits_phase(input, old(self).phase()),
            old(self).timings().all_le(now),
            input matches Input::Header { .. } ==> old(self).spec_header_count() < MAX_AMENDED_HEADERS as u32,
        ensures
            final(self).wf(),
            final(self).timings().all_le(now),
            frame_eq(*old(self), *final(self)),
            final(output)@.len() == old(output)@.len(),
            !(input is Data) ==> final(output)@ == old(output)@,
            (input is Data && !(old(self).phase() is RecvBody)) ==> final(output)@ == old(output)@,
            input is Header ==> final(self).spec_header_count() == old(self).spec_header_count() + 1,
            !(input is Header) ==> final(self).spec_header_count() == old(self).spec_header_count(),
            r is Err ==> obs_eq(*old(self), *final(self)),
            r matches Err(e) ==> e is Disconnected || e is LargeResponseHeader
                || e is Expect100Rejected || e is Flow,
            input is Header ==> (r matches Err(e) ==> e is Flow),
            input is Begin ==> (r matches Ok(n) && n == 0 && final(self).phase() is Prepare
                && final(self).timings() == (CallTimings {
                time_call_start: Some(now),
                ..old(self).timings()
            }) && final(self).queued() == old(self).queued() && final(self).spec_redirect_count()
                == old(self).spec_redirect_count()),
            input is Header ==> (r matches Ok(n) ==> n == 0) && final(self).phase() is Prepare
                && final(self).timings() == old(self).timings() && final(self).queued() == old(self).queued(),
            input is Prepared ==> (r matches Ok(n) && n == 0 && final(self).phase() is Resolve
                && final(self).timings() == (CallTimings {
                time_call_start: Some(now),
                ..old(self).timings()
            }) && final(self).queued() == old(self).queued()),
            input is Resolved ==> (r matches Ok(n) && n == 0 && final(self).phase() is OpenConnection
                && final(self).timings() == (CallTimings {
                time_resolve: Some(now),
                ..old(self).timings()
            }) && final(self).queued() == old(self).queued()),
            input is ConnectionOpen ==> (r matches Ok(n) && n == 0 && final(self).phase() is SendRequest
                && final(self).timings() == (CallTimings {
                time_connect: Some(now),
                ..old(self).timings()
            }) && final(self).queued() == old(self).queued()),
            input is EndAwait100 ==> (r matches Ok(n) && n == 0 && (final(self).phase() is SendBody
                || final(self).phase() is RecvResponse) && final(self).timings() == (CallTimings {
                time_await_100: Some(now),
                ..old(self).timings()
            }) && final(self).queued() == old(self).queued() && final(self).spec_rejected_100()
                == (final(self).phase() is RecvResponse)),
            !(input is Data) ==> final(self).spec_redirect_count() == old(self).spec_redirect_count() && final(self).run_ended() == old(self).run_ended() && final(self).ever_ended() == old(self).ever_ended(),
            input matches Input::Data { input: d } ==> data_outcome(
                *old(self),
                *final(self),
                d@,
                old(output)@,
                final(output)@,
                now,
                r,
            ),
    {
        match input {
            Input::Begin => {
                let mut st = State::Empty;
                core::mem::swap(&mut self.state, &mut st);
                match st {
                    State::Begin(flow) => {
                        self.call_timings.time_call_start = Some(now);
                        proof {
                            crate::timings::lemma_all_le_after_set(old(self).timings(), self.call_timings, now);
                        }
                        self.state = State::Prepare(flow);
                        Ok(0)
                    },
                    _ => unreached(),
                }
            },
            Input::Header { name, value } => {
                self.header_count = self.header_count + 1;
                match &mut self.state {
                    State::Prepare(flow) => {
                        match prepare_header(flow, name, value) {
                            Ok(()) => Ok(0),
                            Err(e) => Err(Error::Flow(e)),
                        }
                    },
                    _ => unreached(),
                }
            },
            Input::Prepared => {
                let mut st = State::Empty;
                core::mem::swap(&mut self.state, &mut st);
                match st {
                    State::Prepare(flow) => {
                        self.call_timings.time_call_start = Some(now);
                        proof {
                            crate::timings::lemma_all_le_after_set(old(self).timings(), self.call_timings, now);
                        }
                        self.state = State::Resolve(flow);
                        Ok(0)
                    },
                    _ => unreached(),
                }
            },
            Input::Resolved => {
                let mut st = State::Empty;
                core::mem::swap(&mut self.state, &mut st);
                match st {
                    State::Resolve(flow) => {
                        self.call_timings.time_resolve = Some(now);
                        proof {
                            crate::timings::lemma_all_le_after_set(old(self).timings(), self.call_timings, now);
                        }
                        self.state = State::OpenConnection(flow);
                        Ok(0)
                    },
                    _ => unreached(),
                }
            },
            Input::ConnectionOpen => {
                let mut st = State::Empty;
                core::mem::swap(&mut self.state, &mut st);
                match st {
                    State::OpenConnection(flow) => {
                        self.call_timings.time_connect = Some(now);
                        proof {
                            crate::timings::lemma_all_le_after_set(old(self).timings(), self.call_timings, now);
                        }
                        self.state = State::SendRequest(prepare_proceed(flow));
                        Ok(0)
                    },
                    _ => unreached(),
                }
            },
            Input::EndAwait100 => {
                self.end_await_100(now);
                Ok(0)
            },
            Input::Data { input } => self.handle_data(now, input, output),
        }
    }
}

} // verus!

verus! {

/// A complete response was parsed: a `Response` event is deferred, the
/// phase moves to the receiving tail and the instant is recorded. One
/// recorded answer — whether the response was a redirection — drives
/// both effects: the redirect counter grows exactly on redirections, and
/// the `end` flag is true exactly when the response does not redirect or
/// the cap is reached.
pub open spec fn response_complete<B>(pre: Unit<B>, post: Unit<B>, now: Instant) -> bool {
    exists|resp: http::Response<()>, end: bool|
        {
            &&& post.queued() == #[trigger] pre.queued().push(
                Event::Response { response: resp, end },
            )
            &&& in_recv_tail(post.phase())
            &&& post.timings() == (CallTimings {
                time_recv_response: Some(now),
                ..pre.timings()
            })
            &&& post.run_ended() == end
            &&& (end ==> post.ever_ended())
            &&& (post.spec_last_redirect() ==> post.spec_redirect_count() == inc_sat(
                pre.spec_redirect_count(),
            ))
            &&& (!post.spec_last_redirect() ==> post.spec_redirect_count()
                == pre.spec_redirect_count())
            &&& end == (!post.spec_last_redirect() || post.spec_redirect_count()
                >= pre.spec_config().max_redirects)
        }
}

/// What feeding `Data` does, by phase: while awaiting a 100 it may end
/// the wait; while receiving the response head it either consumes bytes
/// without a transition (insufficient data) or completes the response;
/// while receiving the body it defers a `ResponseBody` event; every
/// other phase ignores the bytes.
pub open spec fn data_outcome<B>(
    pre: Unit<B>,
    post: Unit<B>,
    d: Seq<u8>,
    out_pre: Seq<u8>,
    out_post: Seq<u8>,
    now: Instant,
    r: Result<usize, Error>,
) -> bool {
    if pre.phase() is Await100 {
        &&& (r == Err::<usize, Error>(Error::Disconnected) <==> d.len() == 0)
        &&& out_post == out_pre
        &&& (r matches Ok(n) ==> {
            &&& n <= d.len()
            &&& post.queued() == pre.queued()
            &&& post.spec_redirect_count() == pre.spec_redirect_count()
            &&& post.run_ended() == pre.run_ended()
            &&& (post.phase() is Await100 ==> post.timings() == pre.timings()
                && post.spec_rejected_100() == pre.spec_rejected_100())
            &&& (!(post.phase() is Await100) ==> (post.phase() is SendBody || post.phase()
                is RecvResponse) && post.timings() == (CallTimings {
                time_await_100: Some(now),
                ..pre.timings()
            }) && post.spec_rejected_100() == (post.phase() is RecvResponse))
        })
    } else if pre.phase() is RecvResponse {
        &&& (r == Err::<usize, Error>(Error::Disconnected) <==> d.len() == 0)
        &&& (r == Err::<usize, Error>(Error::Expect100Rejected) <==> (d.len() > 0
            && pre.spec_rejected_100()))
        &&& (r == Err::<usize, Error>(
            Error::LargeResponseHeader(
                d.len() as usize,
                pre.spec_config().max_response_header_size,
            ),
        ) <==> (d.len() > pre.spec_config().max_response_header_size
            && !pre.spec_rejected_100()))
        &&& out_post == out_pre
        &&& (r matches Ok(n) ==> {
            &&& n <= d.len()
            &&& {
                ||| (post.queued() == pre.queued() && post.phase() is RecvResponse
                    && post.timings() == pre.timings() && post.spec_redirect_count()
                    == pre.spec_redirect_count() && post.run_ended() == pre.run_ended()
                    && post.spec_rejected_100() == pre.spec_rejected_100())
                ||| response_complete(pre, post, now)
            }
        })
    } else if pre.phase() is RecvBody {
        &&& out_post.len() == out_pre.len()
        &&& (r matches Ok(n) ==> {
            &&& n <= d.len()
            &&& exists|amount: usize|
                {
                    &&& amount <= out_pre.len()
                    &&& post.queued() == #[trigger] pre.queued().push(
                        Event::ResponseBody { amount },
                    )
                    &&& forall|i: int| amount <= i < out_post.len() ==> out_post[i] == out_pre[i]
                }
            &&& post.spec_redirect_count() == pre.spec_redirect_count()
            &&& post.run_ended() == pre.run_ended()
            &&& (post.phase() is RecvBody ==> post.timings() == pre.timings())
            &&& (!(post.phase() is RecvBody) ==> (post.phase() is Redirect || post.phase()
                is Cleanup) && post.timings() == (CallTimings {
                time_recv_body: Some(now),
                ..pre.timings()
            }))
        })
    } else {
        &&& out_post == out_pre
        &&& (r matches Ok(n) && n == 0 && obs_eq(pre, post))
    }
}

impl<B> Unit<B> {
    /// Route received bytes to whatever the current phase does with them.
    fn handle_data(&mut self, now: Instant, input: Vec<u8>, output: &mut Vec<u8>) -> (r: Result<
        usize,
        Error,
    >)
        requires
            old(self).wf(),
            old(self).timings().all_le(now),
        ensures
            final(self).wf(),
            final(self).timings().all_le(now),
            frame_eq(*old(self), *final(self)),
            final(output)@.len() == old(output)@.len(),
            final(self).spec_header_count() == old(self).spec_header_count(),
            r is Err ==> obs_eq(*old(self), *final(self)),
            r matches Err(e) ==> e is Disconnected || e is LargeResponseHeader
                || e is Expect100Rejected || e is Flow,
            data_outcome(*old(self), *final(self), input@, old(output)@, final(output)@, now, r),
    {
        let mut st = State::Empty;
        core::mem::swap(&mut self.state, &mut st);
        match st {
            State::Await100(mut flow) => {
                if input.len() == 0 {
                    self.state = State::Await100(flow);
                    return Err(Error::Disconnected);
                }
                let input_used = match await_100_try_read(&mut flow, input.as_slice()) {
                    Ok(n) => n,
                    Err(e) => {
                        self.state = State::Await100(flow);
                        return Err(Error::Flow(e));
                    },
                };
                if !await_100_can_keep(&flow) {
                    self.call_timings.time_await_100 = Some(now);
                    proof {
                        crate::timings::lemma_all_le_after_set(old(self).timings(), self.call_timings, now);
                    }
                    match await_100_step(flow) {
                        Await100Step::SendBody(f) => {
                            self.rejected_100 = false;
                            self.state = State::SendBody(f);
                        },
                        Await100Step::RecvResponse(f) => {
                            // A rejected 100: the wire library cannot
                            // receive the response on this path, so mark
                            // the phase as refusing data.
                            self.rejected_100 = true;
                            self.state = State::RecvResponse(f);
                        },
                    }
                } else {
                    self.state = State::Await100(flow);
                }
                Ok(input_used)
            },
            State::RecvResponse(mut flow) => {
                if input.len() == 0 {
                    self.state = State::RecvResponse(flow);
                    return Err(Error::Disconnected);
                }
                if self.rejected_100 {
                    // The wire library's response reader was never armed
                    // on the rejected-100 path and would crash; refuse
                    // the bytes instead.
                    self.state = State::RecvResponse(flow);
                    return Err(Error::Expect100Rejected);
                }
                if input.len() > self.config.max_response_header_size {
                    let limit = self.config.max_response_header_size;
                    let offered = input.len();
                    self.state = State::RecvResponse(flow);
                    return Err(Error::LargeResponseHeader(offered, limit));
                }
                let (input_used, maybe_response) = match recv_response_try(
                    &mut flow,
                    input.as_slice(),
                ) {
                    Ok(v) => v,
                    Err(e) => {
                        self.state = State::RecvResponse(flow);
                        return Err(Error::Flow(e));
                    },
                };
                let response = match maybe_response {
                    Some(resp) => resp,
                    None => {
                        self.state = State::RecvResponse(flow);
                        return Ok(input_used);
                    },
                };
                match recv_response_step(flow) {
                    RecvResponseStep::Stay(f) => {
                        // A parsed response that does not finish the
                        // exchange is an interim one (a stray 100 outside
                        // the continue wait): consume it and keep waiting
                        // for the real response.
                        self.state = State::RecvResponse(f);
                        Ok(input_used)
                    },
                    step => {
                        let is_redirect = response_is_redirection(&response);
                        self.last_redirect = Ghost(is_redirect);
                        let end = if is_redirect {
                            self.redirect_count = if self.redirect_count < u32::MAX {
                                self.redirect_count + 1
                            } else {
                                self.redirect_count
                            };
                            self.redirect_count >= self.config.max_redirects
                        } else {
                            true
                        };
                        let ghost gresp = response;
                        self.queued_event.push_back(Event::Response { response, end });
                        if end {
                            self.ended = Ghost(true);
                            self.ended_ever = Ghost(true);
                        }
                        self.call_timings.time_recv_response = Some(now);
                        proof {
                            crate::timings::lemma_all_le_after_set(
                                old(self).timings(),
                                self.call_timings,
                                now,
                            );
                        }
                        match step {
                            RecvResponseStep::RecvBody(f) => {
                                self.state = State::RecvBody(f);
                            },
                            RecvResponseStep::Redirect(f) => {
                                self.redirect_entries = Ghost(self.redirect_entries@ + 1);
                                self.state = State::Redirect(f);
                            },
                            RecvResponseStep::Cleanup(f) => {
                                self.state = State::Cleanup(f);
                            },
                            RecvResponseStep::Stay(_) => unreached(),
                        }
                        proof {
                            assert(self.queued_event@ == old(self).queued().push(
                                Event::Response { response: gresp, end },
                            ));
                        }
                        Ok(input_used)
                    },
                }
            },
            State::RecvBody(flow) => {
                self.state = State::RecvBody(flow);
                self.handle_input_recv_body(now, input.as_slice(), output)
            },
            other => {
                proof {
                    assert(!(other.phase() is Empty));
                }
                self.state = other;
                Ok(0)
            },
        }
    }
}

} // verus!

verus! {

/// The configuration of the call never changes after construction.
pub open spec fn cfg_eq<B>(a: Unit<B>, b: Unit<B>) -> bool {
    &&& a.spec_config() == b.spec_config()
    &&& a.spec_timeouts() == b.spec_timeouts()
    &&& a.spec_global_start() == b.spec_global_start()
}

/// What polling does once no deferred event is pending and the deadline
/// `nt` has not passed, by phase: the non-blocking phases emit their
/// event without a transition; transmitting phases emit `Transmit` with
/// the bytes placed in the output buffer and advance when the flow says
/// so, recording the instant; a redirect derives the next run and
/// re-enters `Begin`; cleanup reports whether the connection must close.
pub open spec fn poll_outcome<B>(
    pre: Unit<B>,
    post: Unit<B>,
    nt: NextTimeout,
    out_pre: Seq<u8>,
    out_post: Seq<u8>,
    now: Instant,
    r: Result<Event, Error>,
) -> bool {
    match pre.phase() {
        Phase::Begin => r == Ok::<Event, Error>(Event::Reset { must_close: false }) && obs_eq(
            pre,
            post,
        ) && out_post == out_pre,
        Phase::Prepare => (r matches Ok(e) && e is Prepare) && obs_eq(pre, post) && out_post
            == out_pre,
        Phase::Resolve => (r matches Ok(e) && e matches Event::Resolve { timeout, .. } && timeout
            == nt) && obs_eq(pre, post) && out_post == out_pre,
        Phase::OpenConnection => (r matches Ok(e) && e matches Event::OpenConnection {
            timeout,
            ..
        } && timeout == nt) && obs_eq(pre, post) && out_post == out_pre,
        Phase::Await100 => r == Ok::<Event, Error>(Event::Await100 { timeout: nt }) && obs_eq(
            pre,
            post,
        ) && out_post == out_pre,
        Phase::RecvResponse => r == Ok::<Event, Error>(Event::AwaitInput { timeout: nt })
            && obs_eq(pre, post) && out_post == out_pre,
        Phase::RecvBody => r == Ok::<Event, Error>(Event::AwaitInput { timeout: nt }) && obs_eq(
            pre,
            post,
        ) && out_post == out_pre,
        Phase::Cleanup => (r matches Ok(e) && e is Reset) && obs_eq(pre, post) && out_post
            == out_pre,
        Phase::Redirect => {
            &&& out_post == out_pre
            &&& (r matches Err(e) ==> (e is RedirectFailed || e is Flow) && obs_eq(pre, post))
            &&& (r matches Ok(e) ==> {
                &&& e is Reset
                &&& post.phase() is Begin
                &&& !post.run_ended()
                &&& post.timings() == pre.timings()
                &&& post.queued() == pre.queued()
                &&& post.spec_redirect_count() == pre.spec_redirect_count()
                &&& post.ever_ended() == pre.ever_ended()
            })
        },
        Phase::SendRequest => {
            &&& (r matches Err(e) ==> e is Flow && obs_eq(pre, post))
            &&& (r matches Ok(e) ==> {
                &&& e matches Event::Transmit { amount, timeout } && timeout == nt && amount
                    <= out_pre.len() && out_post.len() == out_pre.len()
                &&& post.queued() == pre.queued()
                &&& post.spec_redirect_count() == pre.spec_redirect_count()
                &&& post.run_ended() == pre.run_ended()
                &&& post.ever_ended() == pre.ever_ended()
                &&& (post.phase() is SendRequest ==> post.timings() == pre.timings())
                &&& (!(post.phase() is SendRequest) ==> {
                    &&& post.phase() is Await100 || post.phase() is SendBody || post.phase()
                        is RecvResponse
                    &&& post.timings() == (CallTimings {
                        time_send_request: Some(now),
                        ..pre.timings()
                    })
                })
            })
        },
        Phase::SendBody => {
            &&& (r matches Err(e) ==> (e is Flow || e is BodyStalled) && obs_eq(pre, post))
            &&& (r matches Ok(e) ==> {
                &&& e matches Event::Transmit { amount, timeout } && timeout == nt && amount
                    <= out_pre.len() && out_post.len() == out_pre.len()
                &&& post.queued() == pre.queued()
                &&& post.spec_redirect_count() == pre.spec_redirect_count()
                &&& post.run_ended() == pre.run_ended()
                &&& post.ever_ended() == pre.ever_ended()
                &&& (post.phase() is SendBody ==> post.timings() == pre.timings())
                &&& (!(post.phase() is SendBody) ==> {
                    &&& post.phase() is RecvResponse
                    &&& post.timings() == (CallTimings {
                        time_send_body: Some(now),
                        ..pre.timings()
                    })
                })
            })
        },
        _ => true,
    }
}

impl Unit<SendBody> {
    /// Advance the machine as far as output alone can take it and hand
    /// back the one event the caller must act on next. A deferred event
    /// is always delivered first; otherwise an expired deadline fails
    /// with `Timeout`, blamed on the global deadline when that one is
    /// exhausted, else on the current phase. A body that ends short of
    /// the announced framing fails with `BodyStalled`. While the body is
    /// being sent, the staging buffer must exceed the largest framing
    /// overhead.
    pub fn poll_event(&mut self, now: Instant, buffers: &mut Buffers) -> (r: Result<Event, Error>)
        requires
            old(self).wf(),
            old(self).spec_body().wf(),
            old(self).timings().all_le(now),
            old(self).queued().len() == 0 && old(self).phase() is SendBody ==> old(buffers).tmp@.len() > MAX_BODY_OVERHEAD,
        ensures
            final(self).wf(),
            final(self).spec_body().wf(),
            final(self).timings().all_le(now),
            cfg_eq(*old(self), *final(self)),
            final(buffers).tmp@.len() == old(buffers).tmp@.len(),
            final(buffers).output@.len() == old(buffers).output@.len(),
            old(self).queued().len() > 0 ==> (r matches Ok(e) && e == old(self).queued()[0] && final(self).queued() == old(self).queued().drop_first() && final(self).phase() == old(self).phase() && final(self).timings() == old(self).timings() && final(self).spec_redirect_count() == old(self).spec_redirect_count() && final(self).run_ended() == old(self).run_ended() && final(self).ever_ended() == old(self).ever_ended() && final(self).spec_body()
                == old(self).spec_body() && final(buffers).output@ == old(buffers).output@ && final(buffers).tmp@ == old(buffers).tmp@),
            old(self).queued().len() == 0 ==> {
                &&& (old(self).spec_timeout_at(now) matches Err(e) ==> r == Err::<Event, Error>(e)
                    && obs_eq(*old(self), *final(self)) && final(self).spec_body() == old(self).spec_body() && final(buffers).output@ == old(buffers).output@ && final(buffers).tmp@ == old(buffers).tmp@)
                &&& (old(self).spec_timeout_at(now) matches Ok(nt) ==> poll_outcome(
                    *old(self),
                    *final(self),
                    nt,
                    old(buffers).output@,
                    final(buffers).output@,
                    now,
                    r,
                ))
            },
            r is Err ==> final(self).spec_body().remaining() == old(self).spec_body().remaining()
                && final(self).spec_body().spec_pos() == old(self).spec_body().spec_pos(),
            (old(self).queued().len() == 0 && old(self).phase() is Redirect && r is Ok) ==> final(self).spec_header_count() == 0,
            !(old(self).queued().len() == 0 && old(self).phase() is Redirect && r is Ok) ==> final(self).spec_header_count() == old(self).spec_header_count(),
            !(old(self).phase() is SendBody) ==> final(self).spec_body() == old(self).spec_body(),
            final(self).spec_body().remaining() == old(self).spec_body().remaining() || (exists|k: int|
                0 <= k <= old(self).spec_body().remaining().len() && final(self).spec_body().remaining() == #[trigger] old(self).spec_body().remaining().skip(k)),
    {
        match self.queued_event.pop_front() {
            Some(queued) => {
                proof {
                    if has_response(self.queued_event@) {
                        let i = choose|i: int|
                            0 <= i < self.queued_event@.len() && self.queued_event@[i] is Response;
                        assert(old(self).queued()[i + 1] is Response);
                    }
                    assert(self.queued_event@ =~= old(self).queued().drop_first());
                }
                return Ok(queued);
            },
            None => {},
        }
        let phase = self.current_phase();
        let nt = match next_timeout(&self.call_timings, phase, &self.timeouts, self.global_start, now) {
            Ok(nt) => nt,
            Err(e) => {
                return Err(e);
            },
        };
        let mut st = State::Empty;
        core::mem::swap(&mut self.state, &mut st);
        match st {
            State::Begin(flow) => {
                self.state = State::Begin(flow);
                Ok(Event::Reset { must_close: false })
            },
            State::Prepare(flow) => {
                let uri = prepare_uri(&flow);
                self.state = State::Prepare(flow);
                Ok(Event::Prepare { uri })
            },
            State::Resolve(flow) => {
                let uri = prepare_uri(&flow);
                self.state = State::Resolve(flow);
                Ok(Event::Resolve { uri, timeout: nt })
            },
            State::OpenConnection(flow) => {
                let uri = prepare_uri(&flow);
                self.state = State::OpenConnection(flow);
                Ok(Event::OpenConnection { uri, timeout: nt })
            },
            State::SendRequest(mut flow) => {
                let amount = match send_request_write(&mut flow, &mut buffers.output) {
                    Ok(n) => n,
                    Err(e) => {
                        self.state = State::SendRequest(flow);
                        return Err(Error::Flow(e));
                    },
                };
                match send_request_step(flow) {
                    SendRequestStep::Stay(f) => {
                        self.state = State::SendRequest(f);
                    },
                    SendRequestStep::Await100(f) => {
                        self.call_timings.time_send_request = Some(now);
                        proof {
                            crate::timings::lemma_all_le_after_set(old(self).timings(), self.call_timings, now);
                        }
                        self.state = State::Await100(f);
                    },
                    SendRequestStep::SendBody(f) => {
                        self.call_timings.time_send_request = Some(now);
                        proof {
                            crate::timings::lemma_all_le_after_set(old(self).timings(), self.call_timings, now);
                        }
                        self.state = State::SendBody(f);
                    },
                    SendRequestStep::RecvResponse(f) => {
                        self.call_timings.time_send_request = Some(now);
                        proof {
                            crate::timings::lemma_all_le_after_set(old(self).timings(), self.call_timings, now);
                        }
                        self.rejected_100 = false;
                        self.state = State::RecvResponse(f);
                    },
                }
                Ok(Event::Transmit { amount, timeout: nt })
            },
            State::SendBody(mut flow) => {
                let overhead = match send_body_overhead(&mut flow, buffers.output.len()) {
                    Ok(o) => o,
                    Err(e) => {
                        self.state = State::SendBody(flow);
                        return Err(Error::Flow(e));
                    },
                };
                let amount: usize;
                if overhead == 0 {
                    // The body can go straight to the output; the flow
                    // still checks the announced length.
                    let out_len = buffers.output.len();
                    let n = self.body.fill(&mut buffers.output, out_len);
                    match send_body_consume_direct(&mut flow, n) {
                        Ok(()) => {},
                        Err(e) => {
                            self.state = State::SendBody(flow);
                            return Err(Error::Flow(e));
                        },
                    }
                    self.body.advance(n);
                    proof {
                        assert(self.body.remaining() == old(self).spec_body().remaining().skip(
                            n as int,
                        ));
                    }
                    amount = n;
                } else {
                    // Stage at most tmp-minus-overhead bytes, then let the
                    // flow frame them. The flow is expected to consume the
                    // whole fragment; when the output buffer is too small
                    // it consumes less, and the body advances by exactly
                    // what was consumed rather than asserting fullness, so
                    // nothing is lost.
                    let max_input = buffers.tmp.len() - overhead;
                    let n = self.body.fill(&mut buffers.tmp, max_input);
                    let chunk = vstd::slice::slice_subrange(buffers.tmp.as_slice(), 0, n);
                    let (used_in, used_out) = match send_body_write(
                        &mut flow,
                        chunk,
                        &mut buffers.output,
                    ) {
                        Ok(v) => v,
                        Err(e) => {
                            self.state = State::SendBody(flow);
                            return Err(Error::Flow(e));
                        },
                    };
                    self.body.advance(used_in);
                    proof {
                        assert(self.body.remaining() == old(self).spec_body().remaining().skip(
                            used_in as int,
                        ));
                    }
                    amount = used_out;
                }
                match send_body_step(flow) {
                    SendBodyStep::Stay(f) => {
                        self.state = State::SendBody(f);
                        if self.body.is_ended() {
                            // The body has ended but the wire-level
                            // framing is not complete: the body fell
                            // short of what the request announced.
                            proof {
                                crate::body::lemma_eof_empty(self.body);
                                if old(self).spec_body().eof_seen() {
                                    crate::body::lemma_eof_empty(old(self).spec_body());
                                }
                                assert(self.body.remaining() =~= old(self).spec_body().remaining());
                            }
                            return Err(Error::BodyStalled);
                        }
                    },
                    SendBodyStep::Done(f) => {
                        self.call_timings.time_send_body = Some(now);
                        proof {
                            crate::timings::lemma_all_le_after_set(old(self).timings(), self.call_timings, now);
                        }
                        self.rejected_100 = false;
                        self.state = State::RecvResponse(f);
                    },
                }
                Ok(Event::Transmit { amount, timeout: nt })
            },
            State::Await100(flow) => {
                self.state = State::Await100(flow);
                Ok(Event::Await100 { timeout: nt })
            },
            State::RecvResponse(flow) => {
                self.state = State::RecvResponse(flow);
                Ok(Event::AwaitInput { timeout: nt })
            },
            State::RecvBody(flow) => {
                self.state = State::RecvBody(flow);
                Ok(Event::AwaitInput { timeout: nt })
            },
            State::Redirect(mut flow) => {
                if !self.base_uri_absolute {
                    // The wire library derives a redirect by re-parsing
                    // the base URI and crashes on a relative one: treat
                    // the redirect as underivable instead.
                    self.state = State::Redirect(flow);
                    return Err(Error::RedirectFailed);
                }
                // Whether the connection the redirect arrived on is reusable.
                let must_close = redirect_must_close(&flow);
                match redirect_new_flow(&mut flow, self.config.redirect_auth_headers) {
                    Err(e) => {
                        self.state = State::Redirect(flow);
                        Err(Error::Flow(e))
                    },
                    Ok(None) => {
                        self.state = State::Redirect(flow);
                        Err(Error::RedirectFailed)
                    },
                    Ok(Some(new_flow)) => {
                        self.state = State::Begin(new_flow);
                        self.header_count = 0;
                        self.rejected_100 = false;
                        self.ended = Ghost(false);
                        self.begin_reentries = Ghost(self.begin_reentries@ + 1);
                        Ok(Event::Reset { must_close })
                    },
                }
            },
            State::Cleanup(flow) => {
                let must_close = cleanup_must_close(&flow);
                self.state = State::Cleanup(flow);
                Ok(Event::Reset { must_close })
            },
            State::Empty => unreached(),
        }
    }
}

} // verus!

verus! {

impl Unit<()> {
    /// Poll after the outgoing body was released: only the receiving
    /// tail remains. A deferred event is delivered first; a redirect is
    /// not followed here, it only reports whether the connection must
    /// close.
    pub fn poll_event(&mut self, now: Instant) -> (r: Result<Event, Error>)
        requires
            old(self).wf(),
            old(self).queued().len() > 0 || in_recv_tail(old(self).phase()),
            old(self).timings().all_le(now),
        ensures
            final(self).wf(),
            final(self).timings().all_le(now),
            cfg_eq(*old(self), *final(self)),
            final(self).spec_header_count() == old(self).spec_header_count(),
            old(self).queued().len() > 0 ==> (r matches Ok(e) && e == old(self).queued()[0]
                && final(self).queued() == old(self).queued().drop_first() && final(self).phase()
                == old(self).phase() && final(self).timings() == old(self).timings() && final(self).spec_redirect_count() == old(self).spec_redirect_count() && final(self).run_ended() == old(self).run_ended() && final(self).ever_ended() == old(self).ever_ended()),
            old(self).queued().len() == 0 ==> {
                &&& (old(self).spec_timeout_at(now) matches Err(e) ==> r == Err::<Event, Error>(e)
                    && obs_eq(*old(self), *final(self)))
                &&& (old(self).spec_timeout_at(now) matches Ok(nt) ==> {
                    &&& obs_eq(*old(self), *final(self))
                    &&& (old(self).phase() is RecvBody ==> r == Ok::<Event, Error>(
                        Event::AwaitInput { timeout: nt },
                    ))
                    &&& (!(old(self).phase() is RecvBody) ==> (r matches Ok(e) && e is Reset))
                })
            },
    {
        match self.queued_event.pop_front() {
            Some(queued) => {
                proof {
                    if has_response(self.queued_event@) {
                        let i = choose|i: int|
                            0 <= i < self.queued_event@.len() && self.queued_event@[i] is Response;
                        assert(old(self).queued()[i + 1] is Response);
                    }
                    assert(self.queued_event@ =~= old(self).queued().drop_first());
                }
                return Ok(queued);
            },
            None => {},
        }
        let phase = self.current_phase();
        let nt = match next_timeout(&self.call_timings, phase, &self.timeouts, self.global_start, now) {
            Ok(nt) => nt,
            Err(e) => {
                return Err(e);
            },
        };
        match &self.state {
            State::RecvBody(_) => Ok(Event::AwaitInput { timeout: nt }),
            State::Redirect(flow) => Ok(Event::Reset { must_close: redirect_must_close(flow) }),
            State::Cleanup(flow) => Ok(Event::Reset { must_close: cleanup_must_close(flow) }),
            _ => unreached(),
        }
    }

    /// Feed received response-body bytes after the outgoing body was
    /// released.
    pub fn handle_input(&mut self, now: Instant, input: Input, output: &mut Vec<u8>) -> (r: Result<
        usize,
        Error,
    >)
        requires
            old(self).wf(),
            input is Data,
            old(self).phase() is RecvBody,
            old(self).timings().all_le(now),
        ensures
            final(self).wf(),
            final(self).timings().all_le(now),
            cfg_eq(*old(self), *final(self)),
            final(output)@.len() == old(output)@.len(),
            final(self).spec_header_count() == old(self).spec_header_count(),
            r is Err ==> obs_eq(*old(self), *final(self)),
            r matches Err(e) ==> e is Flow,
            input matches Input::Data { input: d } ==> data_outcome(
                *old(self),
                *final(self),
                d@,
                old(output)@,
                final(output)@,
                now,
                r,
            ),
    {
        match input {
            Input::Data { input } => self.handle_input_recv_body(now, input.as_slice(), output),
            _ => unreached(),
        }
    }
}

} // verus!

verus! {

/// Phase visibility: between public calls the phase is never the
/// transient sentinel.
pub proof fn lemma_phase_visible<B>(u: Unit<B>)
    requires
        u.wf(),
    ensures
        !(u.phase() is Empty),
{
}

/// Redirect bound: until a final response has been emitted, the number
/// of redirection responses processed never exceeds the configured cap;
/// and every `Begin` re-entry is matched by a distinct earlier entry
/// into the redirect phase.
pub proof fn lemma_redirect_bound<B>(u: Unit<B>)
    requires
        u.wf(),
        !u.ever_ended(),
    ensures
        u.spec_redirect_count() <= u.spec_config().max_redirects,
        u.spec_begin_reentries() <= u.spec_redirect_entries(),
{
}

/// Response finality: once a `Response { end: true }` has been emitted
/// in a run, the driver sits in the receiving tail of that run, where
/// feeding data can defer only `ResponseBody` events — so no further
/// `Response` follows within the run.
pub proof fn lemma_response_final<B>(
    pre: Unit<B>,
    post: Unit<B>,
    d: Seq<u8>,
    out_pre: Seq<u8>,
    out_post: Seq<u8>,
    now: Instant,
    r: Result<usize, Error>,
)
    requires
        pre.wf(),
        pre.run_ended(),
        data_outcome(pre, post, d, out_pre, out_post, now, r),
        r is Ok,
    ensures
        in_recv_tail(pre.phase()),
        forall|i: int|
            pre.queued().len() <= i < post.queued().len() ==> !(#[trigger] post.queued()[i]
                is Response),
{
    assert(in_recv_tail(pre.phase()));
    if pre.phase() is RecvBody {
        let amount = choose|amount: usize|
            {
                &&& amount <= out_pre.len()
                &&& post.queued() == #[trigger] pre.queued().push(Event::ResponseBody { amount })
                &&& forall|i: int| amount <= i < out_post.len() ==> out_post[i] == out_pre[i]
            };
        assert(post.queued() == pre.queued().push(Event::ResponseBody { amount }));
    } else {
        assert(obs_eq(pre, post));
    }
}

/// At most one `Response` is ever deferred at a time: the queue never
/// holds two, so a run's final response cannot be followed by another.
pub proof fn lemma_single_response<B>(u: Unit<B>, i: int, j: int)
    requires
        u.wf(),
        0 <= i < u.queued().len(),
        0 <= j < u.queued().len(),
        u.queued()[i] is Response,
        u.queued()[j] is Response,
    ensures
        i == j,
{
}

/// Only deferred kinds are ever queued: every waiting event is a
/// `Response` or a `ResponseBody`; all other events are synthesized
/// fresh by each poll.
pub proof fn lemma_queue_deferred_only<B>(u: Unit<B>, i: int)
    requires
        u.wf(),
        0 <= i < u.queued().len(),
    ensures
        is_queueable(u.queued()[i]),
{
}

/// A short name for each phase, for logs and traces.
pub fn phase_label(p: Phase) -> (r: &'static str)
    ensures
        p is Begin ==> r@ == "Begin"@,
        p is Prepare ==> r@ == "Prepare"@,
        p is Resolve ==> r@ == "Resolve"@,
        p is OpenConnection ==> r@ == "OpenConnection"@,
        p is SendRequest ==> r@ == "SendRequest"@,
        p is SendBody ==> r@ == "SendBody"@,
        p is Await100 ==> r@ == "Await100"@,
        p is RecvResponse ==> r@ == "RecvResponse"@,
        p is RecvBody ==> r@ == "RecvBody"@,
        p is Redirect ==> r@ == "Redirect"@,
        p is Cleanup ==> r@ == "Cleanup"@,
        p is Empty ==> r@ == "Empty"@,
    {
    proof {
        reveal_strlit("Begin");
        reveal_strlit("Prepare");
        reveal_strlit("Resolve");
        reveal_strlit("OpenConnection");
        reveal_strlit("SendRequest");
        reveal_strlit("SendBody");
        reveal_strlit("Await100");
        reveal_strlit("RecvResponse");
        reveal_strlit("RecvBody");
        reveal_strlit("Redirect");
        reveal_strlit("Cleanup");
        reveal_strlit("Empty");
    }
    match p {
        Phase::Begin => "Begin",
        Phase::Prepare => "Prepare",
        Phase::Resolve => "Resolve",
        Phase::OpenConnection => "OpenConnection",
        Phase::SendRequest => "SendRequest",
        Phase::SendBody => "SendBody",
        Phase::Await100 => "Await100",
        Phase::RecvResponse => "RecvResponse",
        Phase::RecvBody => "RecvBody",
        Phase::Redirect => "Redirect",
        Phase::Cleanup => "Cleanup",
        Phase::Empty => "Empty",
    }
}

impl Event {
    /// A short name for the event kind, for logs and traces.
    pub fn label(&self) -> (r: &'static str)
        ensures
            self is Reset ==> r@ == "Reset"@,
            self is Prepare ==> r@ == "Prepare"@,
            self is Resolve ==> r@ == "Resolve"@,
            self is OpenConnection ==> r@ == "OpenConnection"@,
            self is Await100 ==> r@ == "Await100"@,
            self is Transmit ==> r@ == "Transmit"@,
            self is AwaitInput ==> r@ == "AwaitInput"@,
            self is Response ==> r@ == "Response"@,
            self is ResponseBody ==> r@ == "ResponseBody"@,
    {
        proof {
            reveal_strlit("Reset");
            reveal_strlit("Prepare");
            reveal_strlit("Resolve");
            reveal_strlit("OpenConnection");
            reveal_strlit("Await100");
            reveal_strlit("Transmit");
            reveal_strlit("AwaitInput");
            reveal_strlit("Response");
            reveal_strlit("ResponseBody");
        }
        match self {
            Event::Reset { .. } => "Reset",
            Event::Prepare { .. } => "Prepare",
            Event::Resolve { .. } => "Resolve",
            Event::OpenConnection { .. } => "OpenConnection",
            Event::Await100 { .. } => "Await100",
            Event::Transmit { .. } => "Transmit",
            Event::AwaitInput { .. } => "AwaitInput",
            Event::Response { .. } => "Response",
            Event::ResponseBody { .. } => "ResponseBody",
        }
    }
}

} // verus!
