use vstd::prelude::*;

use crate::config::RedirectAuthHeaders;

use hoot::client::flow::state::{
    Await100 as StAwait100, Cleanup as StCleanup, Prepare as StPrepare, RecvBody as StRecvBody,
    RecvResponse as StRecvResponse, Redirect as StRedirect, SendBody as StSendBody,
    SendRequest as StSendRequest,
};
use hoot::client::flow::Flow;
use hoot::Error as WireError;

verus! {

// The wire library's per-phase flow objects and the value types of the
// `http` crate run opaquely through the driver; they are declared here so
// that they can stand in fields and signatures.

#[verifier::external_type_specification]
#[verifier::external_body]
#[verifier::reject_recursive_types(B)]
#[verifier::reject_recursive_types(S)]
pub struct ExFlow<B, S>(Flow<B, S>);

#[verifier::external_type_specification]
#[verifier::external_body]
pub struct ExStPrepare(StPrepare);

#[verifier::external_type_specification]
#[verifier::external_body]
pub struct ExStSendRequest(StSendRequest);

#[verifier::external_type_specification]
#[verifier::external_body]
pub struct ExStSendBody(StSendBody);

#[verifier::external_type_specification]
#[verifier::external_body]
pub struct ExStAwait100(StAwait100);

#[verifier::external_type_specification]
#[verifier::external_body]
pub struct ExStRecvResponse(StRecvResponse);

#[verifier::external_type_specification]
#[verifier::external_body]
pub struct ExStRecvBody(StRecvBody);

#[verifier::external_type_specification]
#[verifier::external_body]
pub struct ExStRedirect(StRedirect);

#[verifier::external_type_specification]
#[verifier::external_body]
pub struct ExStCleanup(StCleanup);

#[verifier::external_type_specification]
#[verifier::external_body]
pub struct ExHootError(WireError);

#[verifier::external_type_specification]
#[verifier::external_body]
#[verifier::reject_recursive_types(T)]
pub struct ExRequest<T>(http::Request<T>);

#[verifier::external_type_specification]
#[verifier::external_body]
#[verifier::reject_recursive_types(T)]
pub struct ExResponse<T>(http::Response<T>);

#[verifier::external_type_specification]
#[verifier::external_body]
pub struct ExUri(http::Uri);

#[verifier::external_type_specification]
#[verifier::external_body]
pub struct ExMethod(http::Method);

#[verifier::external_type_specification]
#[verifier::external_body]
pub struct ExVersion(http::Version);

#[verifier::external_type_specification]
#[verifier::external_body]
pub struct ExHeaderName(http::HeaderName);

#[verifier::external_type_specification]
#[verifier::external_body]
pub struct ExHeaderValue(http::HeaderValue);

#[verifier::external_type_specification]
#[verifier::external_body]
#[verifier::reject_recursive_types(T)]
pub struct ExHeaderMap<T>(http::HeaderMap<T>);

/// Framing of the response body, as the wire library reports it.
#[derive(Clone, Copy, PartialEq, Eq, Structural, Debug)]
pub enum BodyMode {
    NoBody,
    LengthDelimited(u64),
    Chunked,
    CloseDelimited,
}

/// How many headers a caller may amend onto one request. The wire
/// library stores amendments in a fixed array of 64 slots and claims up
/// to two of them itself (a Host header and a body-framing header), and
/// its store indexes past the end when full.
pub const MAX_AMENDED_HEADERS: usize = 62;

/// Largest framing overhead the wire library ever reports for one
/// output buffer: the chunk-length prefix, its line breaks and the
/// terminating empty chunk.
pub const MAX_BODY_OVERHEAD: usize = 24;

/// Outcome of trying to leave the request-header phase.
pub(crate) enum SendRequestStep {
    Stay(Flow<(), StSendRequest>),
    Await100(Flow<(), StAwait100>),
    SendBody(Flow<(), StSendBody>),
    RecvResponse(Flow<(), StRecvResponse>),
}

/// Outcome of trying to leave the request-body phase.
pub(crate) enum SendBodyStep {
    Stay(Flow<(), StSendBody>),
    Done(Flow<(), StRecvResponse>),
}

/// Outcome of leaving the 100-continue wait.
pub(crate) enum Await100Step {
    SendBody(Flow<(), StSendBody>),
    RecvResponse(Flow<(), StRecvResponse>),
}

/// Outcome of trying to leave the response-header phase.
pub(crate) enum RecvResponseStep {
    Stay(Flow<(), StRecvResponse>),
    RecvBody(Flow<(), StRecvBody>),
    Redirect(Flow<(), StRedirect>),
    Cleanup(Flow<(), StCleanup>),
}

/// Outcome of trying to leave the response-body phase.
pub(crate) enum RecvBodyStep {
    Stay(Flow<(), StRecvBody>),
    Redirect(Flow<(), StRedirect>),
    Cleanup(Flow<(), StCleanup>),
}

/// Relies on `hoot::client::flow::Flow::new`: builds the wire-level call
/// from the request, or rejects an unusable request.
#[verifier::external_body]
pub(crate) fn flow_new(request: http::Request<()>) -> (r: Result<Flow<(), StPrepare>, WireError>) {
    Flow::new(request)
}

/// Relies on `Flow::<Prepare>::uri`: hands back the request URI.
#[verifier::external_body]
pub(crate) fn prepare_uri(flow: &Flow<(), StPrepare>) -> (r: http::Uri) {
    flow.uri().clone()
}

/// Relies on `Flow::<Prepare>::header`: appends one header to the
/// pending request, or rejects an invalid one. The amendment store has
/// room for [`MAX_AMENDED_HEADERS`] caller headers and overflows beyond
/// that, so the driver counts its calls and stays under the cap.
#[verifier::external_body]
pub(crate) fn prepare_header(
    flow: &mut Flow<(), StPrepare>,
    name: http::HeaderName,
    value: http::HeaderValue,
) -> (r: Result<(), WireError>) {
    flow.header(name, value)
}

/// Relies on `http::Uri::scheme` and `http::Uri::authority`: whether the
/// request's URI is absolute. The wire library can derive a redirect
/// only from an absolute base URI; on a relative one the derivation
/// panics, so the driver follows redirects only when this holds.
#[verifier::external_body]
pub(crate) fn request_uri_is_absolute(request: &http::Request<()>) -> (r: bool) {
    request.uri().scheme().is_some() && request.uri().authority().is_some()
}

/// Relies on `Flow::<Prepare>::proceed`: always moves on to sending the
/// request.
#[verifier::external_body]
pub(crate) fn prepare_proceed(flow: Flow<(), StPrepare>) -> (r: Flow<(), StSendRequest>) {
    flow.proceed()
}

/// Relies on `Flow::<SendRequest>::write`: serialises status line and
/// headers into `output` and reports how many bytes of `output` it used,
/// never more than the buffer holds; the buffer keeps its length. Bytes
/// past the reported count can still be modified: a header row that only
/// partially fits is written before the cursor is rolled back.
#[verifier::external_body]
pub(crate) fn send_request_write(
    flow: &mut Flow<(), StSendRequest>,
    output: &mut Vec<u8>,
) -> (r: Result<usize, WireError>)
    ensures
        final(output)@.len() == old(output)@.len(),
        r matches Ok(n) ==> n <= old(output)@.len(),
{
    flow.write(output.as_mut_slice())
}

/// Relies on `Flow::<SendRequest>::can_proceed` and `proceed`, and on the
/// wire library's guarantee that `can_proceed` implies `proceed` returns
/// `Some`: once the headers are flushed, the flow itself selects among
/// awaiting a 100, sending the body and receiving the response.
#[verifier::external_body]
pub(crate) fn send_request_step(flow: Flow<(), StSendRequest>) -> (r: SendRequestStep) {
    if flow.can_proceed() {
        match flow.proceed().unwrap() {
            hoot::client::flow::SendRequestResult::Await100(f) => SendRequestStep::Await100(f),
            hoot::client::flow::SendRequestResult::SendBody(f) => SendRequestStep::SendBody(f),
            hoot::client::flow::SendRequestResult::RecvResponse(f) => {
                SendRequestStep::RecvResponse(f)
            },
        }
    } else {
        SendRequestStep::Stay(flow)
    }
}

/// Relies on `Flow::<SendRequest>::method`: hands back the request method.
#[verifier::external_body]
pub(crate) fn send_request_method(flow: &Flow<(), StSendRequest>) -> (r: http::Method) {
    flow.method().clone()
}

/// Relies on `Flow::<SendRequest>::uri`: hands back the request URI.
#[verifier::external_body]
pub(crate) fn send_request_uri(flow: &Flow<(), StSendRequest>) -> (r: http::Uri) {
    flow.uri().clone()
}

/// Relies on `Flow::<SendRequest>::version`: hands back the HTTP version.
#[verifier::external_body]
pub(crate) fn send_request_version(flow: &Flow<(), StSendRequest>) -> (r: http::Version) {
    flow.version()
}

/// Relies on `Flow::<SendRequest>::headers_map`: hands back the headers
/// the flow will send, amendments included.
#[verifier::external_body]
pub(crate) fn send_request_headers_map(
    flow: &mut Flow<(), StSendRequest>,
) -> (r: Result<http::HeaderMap, WireError>) {
    flow.headers_map()
}

/// Relies on `Flow::<SendBody>::calculate_output_overhead`: for chunked
/// transfer the worst-case framing overhead of one buffer, computed as a
/// chunk-length prefix (at most 17 hexadecimal digits for a 64-bit
/// length, plus one), two line breaks and a terminating empty chunk;
/// zero when the transfer is not chunked. Never above
/// [`MAX_BODY_OVERHEAD`].
#[verifier::external_body]
pub(crate) fn send_body_overhead(
    flow: &mut Flow<(), StSendBody>,
    output_len: usize,
) -> (r: Result<usize, WireError>)
    ensures
        r matches Ok(n) ==> n <= MAX_BODY_OVERHEAD,
{
    flow.calculate_output_overhead(output_len)
}

/// Relies on `Flow::<SendBody>::write`: frames body bytes from `input`
/// into `output`, reporting `(input consumed, output used)`, each within
/// its buffer; the buffer keeps its length. Bytes past the reported
/// count can still be modified: a framed chunk that does not fit is
/// partially written before the cursor is rolled back.
#[verifier::external_body]
pub(crate) fn send_body_write(
    flow: &mut Flow<(), StSendBody>,
    input: &[u8],
    output: &mut Vec<u8>,
) -> (r: Result<(usize, usize), WireError>)
    ensures
        final(output)@.len() == old(output)@.len(),
        r matches Ok((used_in, used_out)) ==> used_in <= input@.len() && used_out <= old(output)@.len(),
{
    flow.write(input, output.as_mut_slice())
}

/// Relies on `Flow::<SendBody>::consume_direct_write`: tells the flow how
/// many body bytes were written straight to the output, so it can hold
/// the body to the announced length.
#[verifier::external_body]
pub(crate) fn send_body_consume_direct(
    flow: &mut Flow<(), StSendBody>,
    amount: usize,
) -> (r: Result<(), WireError>) {
    flow.consume_direct_write(amount)
}

/// Relies on `Flow::<SendBody>::can_proceed` and `proceed`, and on the
/// wire library's guarantee that `can_proceed` implies `proceed` returns
/// `Some`: once the body is fully sent the flow moves on to receiving
/// the response; before that it is handed back unchanged.
#[verifier::external_body]
pub(crate) fn send_body_step(flow: Flow<(), StSendBody>) -> (r: SendBodyStep) {
    if flow.can_proceed() {
        SendBodyStep::Done(flow.proceed().unwrap())
    } else {
        SendBodyStep::Stay(flow)
    }
}

/// Relies on `Flow::<Await100>::try_read_100`: consumes at most the bytes
/// offered while deciding whether an interim 100 response arrived. The
/// driver calls this only while the wait is still open: repeated calls
/// after the wait was decided would re-push close reasons into the wire
/// library's fixed store.
#[verifier::external_body]
pub(crate) fn await_100_try_read(
    flow: &mut Flow<(), StAwait100>,
    input: &[u8],
) -> (r: Result<usize, WireError>)
    ensures
        r matches Ok(n) ==> n <= input@.len(),
{
    flow.try_read_100(input)
}

/// Relies on `Flow::<Await100>::can_keep_await_100`: whether waiting for
/// the interim response still makes sense.
#[verifier::external_body]
pub(crate) fn await_100_can_keep(flow: &Flow<(), StAwait100>) -> (r: bool) {
    flow.can_keep_await_100()
}

/// Relies on `Flow::<Await100>::proceed`: always leaves the wait, either
/// towards sending the body or straight to receiving the response.
#[verifier::external_body]
pub(crate) fn await_100_step(flow: Flow<(), StAwait100>) -> (r: Await100Step) {
    match flow.proceed() {
        hoot::client::flow::Await100Result::SendBody(f) => Await100Step::SendBody(f),
        hoot::client::flow::Await100Result::RecvResponse(f) => Await100Step::RecvResponse(f),
    }
}

/// Relies on `Flow::<RecvResponse>::try_response`: parses a complete
/// status line plus headers if the input holds one, reporting the bytes
/// consumed (never more than offered) and the parsed response if any.
/// Known crashing input of the wire library: a receive flow reached
/// through a rejected 100-continue wait still holds a body-send call
/// inside and this call hits an unreachable arm; the driver refuses data
/// on that path before calling here.
#[verifier::external_body]
pub(crate) fn recv_response_try(
    flow: &mut Flow<(), StRecvResponse>,
    input: &[u8],
) -> (r: Result<(usize, Option<http::Response<()>>), WireError>)
    ensures
        r matches Ok((n, _)) ==> n <= input@.len(),
{
    flow.try_response(input)
}

/// Relies on `Flow::<RecvResponse>::can_proceed` and `proceed`, and on
/// the wire library's guarantee that `can_proceed` implies `proceed`
/// returns `Some`: once the exchange's real response is received the
/// flow selects among receiving a body, following a redirect and
/// cleaning up. A parsed response can be an interim one (a stray 100
/// outside the continue wait) that does not finish the exchange: then
/// the flow is handed back unchanged. Known crashing inputs of the wire
/// library: the rejected-100 path (as for the parse call above, refused
/// by the driver before this is reached), and a fifth close reason
/// overrunning its four-slot store, which also needs the rejected-100
/// path.
#[verifier::external_body]
pub(crate) fn recv_response_step(flow: Flow<(), StRecvResponse>) -> (r: RecvResponseStep) {
    if !flow.can_proceed() {
        return RecvResponseStep::Stay(flow);
    }
    match flow.proceed().unwrap() {
        hoot::client::flow::RecvResponseResult::RecvBody(f) => RecvResponseStep::RecvBody(f),
        hoot::client::flow::RecvResponseResult::Redirect(f) => RecvResponseStep::Redirect(f),
        hoot::client::flow::RecvResponseResult::Cleanup(f) => RecvResponseStep::Cleanup(f),
    }
}

/// Relies on `http::StatusCode::is_redirection`: whether the response
/// status is in the redirection class.
#[verifier::external_body]
pub(crate) fn response_is_redirection(response: &http::Response<()>) -> (r: bool) {
    response.status().is_redirection()
}

/// Relies on `Flow::<RecvBody>::read`: decodes body bytes from `input`
/// into `output`, reporting `(input consumed, output used)`, each within
/// its buffer; it writes only the used prefix of `output`, whose length
/// is kept.
#[verifier::external_body]
pub(crate) fn recv_body_read(
    flow: &mut Flow<(), StRecvBody>,
    input: &[u8],
    output: &mut Vec<u8>,
) -> (r: Result<(usize, usize), WireError>)
    ensures
        final(output)@.len() == old(output)@.len(),
        r matches Ok((used_in, used_out)) ==> used_in <= input@.len() && used_out <= old(output)@.len() && (forall|i: int|
            used_out <= i < old(output)@.len() ==> final(output)@[i] == old(output)@[i]),
{
    flow.read(input, output.as_mut_slice())
}

/// Relies on `Flow::<RecvBody>::body_mode`: which framing delimits the
/// response body.
#[verifier::external_body]
pub(crate) fn recv_body_mode(flow: &Flow<(), StRecvBody>) -> (r: BodyMode) {
    match flow.body_mode() {
        hoot::BodyMode::NoBody => BodyMode::NoBody,
        hoot::BodyMode::LengthDelimited(n) => BodyMode::LengthDelimited(n),
        hoot::BodyMode::Chunked => BodyMode::Chunked,
        hoot::BodyMode::CloseDelimited => BodyMode::CloseDelimited,
    }
}

/// Relies on `Flow::<RecvBody>::can_proceed` and `proceed`, and on the
/// wire library's guarantee that `can_proceed` implies `proceed` returns
/// `Some`: once the body is fully received, the flow selects between a
/// redirect and cleanup.
#[verifier::external_body]
pub(crate) fn recv_body_step(flow: Flow<(), StRecvBody>) -> (r: RecvBodyStep) {
    if flow.can_proceed() {
        match flow.proceed().unwrap() {
            hoot::client::flow::RecvBodyResult::Redirect(f) => RecvBodyStep::Redirect(f),
            hoot::client::flow::RecvBodyResult::Cleanup(f) => RecvBodyStep::Cleanup(f),
        }
    } else {
        RecvBodyStep::Stay(flow)
    }
}

/// Relies on `Flow::<Redirect>::as_new_flow`: derives the follow-up
/// request from the redirect response, `None` when the redirect must not
/// be followed (say, a 307 with a request body), an error when the
/// `Location` header is missing or unusable. Known crashing input of the
/// wire library: it re-parses the base URI and panics when that URI is
/// relative, so the driver calls this only for requests whose URI is
/// absolute.
#[verifier::external_body]
pub(crate) fn redirect_new_flow(
    flow: &mut Flow<(), StRedirect>,
    policy: RedirectAuthHeaders,
) -> (r: Result<Option<Flow<(), StPrepare>>, WireError>) {
    let p = match policy {
        RedirectAuthHeaders::Never => hoot::client::flow::RedirectAuthHeaders::Never,
        RedirectAuthHeaders::SameHost => hoot::client::flow::RedirectAuthHeaders::SameHost,
    };
    flow.as_new_flow(p)
}

/// Relies on `Flow::<Redirect>::must_close_connection`: whether the
/// connection the redirect arrived on may be reused.
#[verifier::external_body]
pub(crate) fn redirect_must_close(flow: &Flow<(), StRedirect>) -> (r: bool) {
    flow.must_close_connection()
}

/// Relies on `Flow::<Cleanup>::must_close_connection`: whether the
/// connection may be reused after the call.
#[verifier::external_body]
pub(crate) fn cleanup_must_close(flow: &Flow<(), StCleanup>) -> (r: bool) {
    flow.must_close_connection()
}

} // verus!
