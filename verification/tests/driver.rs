use calldriver::{
    AgentConfig, BodyMode, Buffers, Duration, Error, Event, Input, Instant, RedirectAuthHeaders,
    SendBody, TimeoutReason, Timeouts, Unit,
};

fn config() -> AgentConfig {
    AgentConfig {
        max_response_header_size: 4096,
        max_redirects: 3,
        redirect_auth_headers: RedirectAuthHeaders::Never,
    }
}

fn buffers() -> Buffers {
    Buffers { output: vec![0u8; 2048], tmp: vec![0u8; 2048] }
}

fn get_request() -> http::Request<()> {
    http::Request::builder()
        .method("GET")
        .uri("http://q.test/page")
        .body(())
        .unwrap()
}

fn new_unit(
    cfg: AgentConfig,
    timeouts: Timeouts,
    request: http::Request<()>,
    body: Vec<u8>,
) -> Unit<SendBody> {
    match Unit::new(cfg, timeouts, Instant::At(0), request, SendBody::new(body)) {
        Ok(u) => u,
        Err(_) => panic!("request should be accepted"),
    }
}

fn ok_event(r: Result<Event, Error>) -> Event {
    match r {
        Ok(e) => e,
        Err(e) => panic!("expected an event, got error {}", e.label()),
    }
}

fn ok_count(r: Result<usize, Error>) -> usize {
    match r {
        Ok(n) => n,
        Err(e) => panic!("expected a count, got error {}", e.label()),
    }
}

/// Drive a fresh unit up to the point where the request headers have been
/// transmitted, and return the header Transmit amount.
fn drive_to_transmit(unit: &mut Unit<SendBody>, buffers: &mut Buffers) -> usize {
    let mut out: Vec<u8> = vec![0u8; 128];
    assert!(matches!(
        ok_event(unit.poll_event(Instant::At(0), buffers)),
        Event::Reset { must_close: false }
    ));
    assert_eq!(ok_count(unit.handle_input(Instant::At(1), Input::Begin, &mut out)), 0);
    assert!(matches!(
        ok_event(unit.poll_event(Instant::At(1), buffers)),
        Event::Prepare { .. }
    ));
    assert_eq!(ok_count(unit.handle_input(Instant::At(2), Input::Prepared, &mut out)), 0);
    assert!(matches!(
        ok_event(unit.poll_event(Instant::At(2), buffers)),
        Event::Resolve { .. }
    ));
    assert_eq!(ok_count(unit.handle_input(Instant::At(3), Input::Resolved, &mut out)), 0);
    assert!(matches!(
        ok_event(unit.poll_event(Instant::At(3), buffers)),
        Event::OpenConnection { .. }
    ));
    assert_eq!(ok_count(unit.handle_input(Instant::At(4), Input::ConnectionOpen, &mut out)), 0);
    match ok_event(unit.poll_event(Instant::At(5), buffers)) {
        Event::Transmit { amount, .. } => amount,
        e => panic!("expected Transmit, got {}", e.label()),
    }
}

#[test]
fn get_200_no_body() {
    let mut unit = new_unit(config(), Timeouts::unlimited(), get_request(), vec![]);
    let mut buffers = buffers();
    let mut out: Vec<u8> = vec![0u8; 128];

    let amount = drive_to_transmit(&mut unit, &mut buffers);
    assert!(amount > 0);
    // The serialized request line went into the output buffer.
    assert_eq!(&buffers.output[..16], b"GET /page HTTP/1");

    assert!(matches!(
        ok_event(unit.poll_event(Instant::At(6), &mut buffers)),
        Event::AwaitInput { .. }
    ));

    let data = b"HTTP/1.1 200 OK\r\nContent-Length: 0\r\n\r\n".to_vec();
    let used = ok_count(unit.handle_input(Instant::At(7), Input::Data { input: data.clone() }, &mut out));
    assert_eq!(used, data.len());

    match ok_event(unit.poll_event(Instant::At(8), &mut buffers)) {
        Event::Response { end, .. } => assert!(end),
        e => panic!("expected Response, got {}", e.label()),
    }

    let mut recv = unit.release_body();
    assert!(matches!(
        ok_event(recv.poll_event(Instant::At(9))),
        Event::Reset { must_close: false }
    ));
}

#[test]
fn post_100_continue_accepted() {
    let request = http::Request::builder()
        .method("POST")
        .uri("http://q.test/upload")
        .header("expect", "100-continue")
        .header("content-length", "5")
        .body(())
        .unwrap();
    let mut unit = new_unit(config(), Timeouts::unlimited(), request, b"HELLO".to_vec());
    let mut buffers = buffers();
    let mut out: Vec<u8> = vec![0u8; 128];

    drive_to_transmit(&mut unit, &mut buffers);
    assert!(matches!(
        ok_event(unit.poll_event(Instant::At(6), &mut buffers)),
        Event::Await100 { .. }
    ));

    let interim = b"HTTP/1.1 100 Continue\r\n\r\n".to_vec();
    let used = ok_count(unit.handle_input(Instant::At(7), Input::Data { input: interim.clone() }, &mut out));
    assert_eq!(used, interim.len());

    // Now the body is transmitted; content-length transfer writes it
    // straight into the output buffer.
    match ok_event(unit.poll_event(Instant::At(8), &mut buffers)) {
        Event::Transmit { amount, .. } => {
            assert_eq!(amount, 5);
            assert_eq!(&buffers.output[..5], b"HELLO");
        },
        e => panic!("expected Transmit, got {}", e.label()),
    }

    assert!(matches!(
        ok_event(unit.poll_event(Instant::At(9), &mut buffers)),
        Event::AwaitInput { .. }
    ));
}

#[test]
fn post_100_continue_ended_by_caller() {
    let request = http::Request::builder()
        .method("POST")
        .uri("http://q.test/upload")
        .header("expect", "100-continue")
        .header("content-length", "5")
        .body(())
        .unwrap();
    let mut unit = new_unit(config(), Timeouts::unlimited(), request, b"HELLO".to_vec());
    let mut buffers = buffers();
    let mut out: Vec<u8> = vec![0u8; 128];

    drive_to_transmit(&mut unit, &mut buffers);
    assert!(matches!(
        ok_event(unit.poll_event(Instant::At(6), &mut buffers)),
        Event::Await100 { .. }
    ));

    // The caller got tired of waiting: the body is sent anyway.
    assert_eq!(ok_count(unit.handle_input(Instant::At(7), Input::EndAwait100, &mut out)), 0);
    match ok_event(unit.poll_event(Instant::At(8), &mut buffers)) {
        Event::Transmit { amount, .. } => assert_eq!(amount, 5),
        e => panic!("expected Transmit, got {}", e.label()),
    }
}

#[test]
fn redirect_within_limit() {
    let mut unit = new_unit(config(), Timeouts::unlimited(), get_request(), vec![]);
    let mut buffers = buffers();
    let mut out: Vec<u8> = vec![0u8; 128];

    drive_to_transmit(&mut unit, &mut buffers);
    assert!(matches!(
        ok_event(unit.poll_event(Instant::At(6), &mut buffers)),
        Event::AwaitInput { .. }
    ));

    let data = b"HTTP/1.1 302 Found\r\nLocation: /next\r\nContent-Length: 0\r\n\r\n".to_vec();
    let used = ok_count(unit.handle_input(Instant::At(7), Input::Data { input: data.clone() }, &mut out));
    assert_eq!(used, data.len());

    // First the deferred response, not final.
    match ok_event(unit.poll_event(Instant::At(8), &mut buffers)) {
        Event::Response { end, .. } => assert!(!end),
        e => panic!("expected Response, got {}", e.label()),
    }

    // Then the redirect derives a new request and re-enters Begin.
    assert!(matches!(
        ok_event(unit.poll_event(Instant::At(9), &mut buffers)),
        Event::Reset { .. }
    ));
    assert!(matches!(
        ok_event(unit.poll_event(Instant::At(10), &mut buffers)),
        Event::Reset { must_close: false }
    ));
    assert_eq!(ok_count(unit.handle_input(Instant::At(11), Input::Begin, &mut out)), 0);
    match ok_event(unit.poll_event(Instant::At(11), &mut buffers)) {
        Event::Prepare { uri } => assert_eq!(uri.path(), "/next"),
        e => panic!("expected Prepare, got {}", e.label()),
    }
}

#[test]
fn redirect_cap_reached() {
    let cfg = AgentConfig { max_redirects: 1, ..config() };
    let mut unit = new_unit(cfg, Timeouts::unlimited(), get_request(), vec![]);
    let mut buffers = buffers();
    let mut out: Vec<u8> = vec![0u8; 128];

    drive_to_transmit(&mut unit, &mut buffers);
    assert!(matches!(
        ok_event(unit.poll_event(Instant::At(6), &mut buffers)),
        Event::AwaitInput { .. }
    ));

    let data = b"HTTP/1.1 302 Found\r\nLocation: /next\r\nContent-Length: 0\r\n\r\n".to_vec();
    ok_count(unit.handle_input(Instant::At(7), Input::Data { input: data }, &mut out));

    // The cap is reached: the response is final.
    match ok_event(unit.poll_event(Instant::At(8), &mut buffers)) {
        Event::Response { end, .. } => assert!(end),
        e => panic!("expected Response, got {}", e.label()),
    }
}

#[test]
fn send_body_timeout_then_global() {
    let timeouts = Timeouts { global: Some(100), send_body: Some(50), ..Timeouts::unlimited() };
    let request = http::Request::builder()
        .method("POST")
        .uri("http://q.test/upload")
        .header("content-length", "5")
        .body(())
        .unwrap();
    let mut unit = new_unit(config(), timeouts, request, b"HELLO".to_vec());
    let mut buffers = Buffers { output: vec![], tmp: vec![0u8; 2048] };
    let mut out: Vec<u8> = vec![0u8; 128];

    // Drive with a zero-length output buffer: the headers cannot be
    // written, so use a real buffer for the header step only.
    let mut real = self::buffers();
    assert!(matches!(
        ok_event(unit.poll_event(Instant::At(0), &mut real)),
        Event::Reset { .. }
    ));
    ok_count(unit.handle_input(Instant::At(0), Input::Begin, &mut out));
    ok_event(unit.poll_event(Instant::At(0), &mut real));
    ok_count(unit.handle_input(Instant::At(0), Input::Prepared, &mut out));
    ok_event(unit.poll_event(Instant::At(0), &mut real));
    ok_count(unit.handle_input(Instant::At(0), Input::Resolved, &mut out));
    ok_event(unit.poll_event(Instant::At(0), &mut real));
    ok_count(unit.handle_input(Instant::At(0), Input::ConnectionOpen, &mut out));
    // Headers flushed at instant 0: time_send_request = 0.
    match ok_event(unit.poll_event(Instant::At(0), &mut real)) {
        Event::Transmit { .. } => {},
        e => panic!("expected Transmit, got {}", e.label()),
    }

    // 60ms later, still in the body-send phase with nothing sent: the
    // phase deadline (50ms) is the one that expired.
    match unit.poll_event(Instant::At(60), &mut buffers) {
        Err(Error::Timeout(r)) => assert_eq!(r, TimeoutReason::SendBody),
        _ => panic!("expected a send-body timeout"),
    }

    // 110ms after creation the global deadline (100ms) dominates.
    match unit.poll_event(Instant::At(110), &mut buffers) {
        Err(Error::Timeout(r)) => assert_eq!(r, TimeoutReason::Global),
        _ => panic!("expected a global timeout"),
    }
}

#[test]
fn oversize_header() {
    let cfg = AgentConfig { max_response_header_size: 64, ..config() };
    let mut unit = new_unit(cfg, Timeouts::unlimited(), get_request(), vec![]);
    let mut buffers = buffers();
    let mut out: Vec<u8> = vec![0u8; 128];

    drive_to_transmit(&mut unit, &mut buffers);
    let data = vec![b'x'; 65];
    match unit.handle_input(Instant::At(6), Input::Data { input: data }, &mut out) {
        Err(Error::LargeResponseHeader(offered, limit)) => {
            assert_eq!(offered, 65);
            assert_eq!(limit, 64);
        },
        _ => panic!("expected the oversize-header error"),
    }
}

#[test]
fn partial_header_data_consumes_nothing_and_stays() {
    let mut unit = new_unit(config(), Timeouts::unlimited(), get_request(), vec![]);
    let mut buffers = buffers();
    let mut out: Vec<u8> = vec![0u8; 128];

    drive_to_transmit(&mut unit, &mut buffers);
    let used = ok_count(unit.handle_input(
        Instant::At(6),
        Input::Data { input: b"HTTP/1.1 2".to_vec() },
        &mut out,
    ));
    assert_eq!(used, 0);
    // Still awaiting input: no transition happened.
    assert!(matches!(
        ok_event(unit.poll_event(Instant::At(7), &mut buffers)),
        Event::AwaitInput { .. }
    ));
}

#[test]
fn empty_data_is_disconnect() {
    let mut unit = new_unit(config(), Timeouts::unlimited(), get_request(), vec![]);
    let mut buffers = buffers();
    let mut out: Vec<u8> = vec![0u8; 128];

    drive_to_transmit(&mut unit, &mut buffers);
    match unit.handle_input(Instant::At(6), Input::Data { input: vec![] }, &mut out) {
        Err(Error::Disconnected) => {},
        _ => panic!("expected the disconnect error"),
    }
}

#[test]
fn response_body_bytes_are_decoded_and_counted() {
    let mut unit = new_unit(config(), Timeouts::unlimited(), get_request(), vec![]);
    let mut buffers = buffers();
    let mut out: Vec<u8> = vec![0u8; 128];

    drive_to_transmit(&mut unit, &mut buffers);
    let head = b"HTTP/1.1 200 OK\r\nContent-Length: 5\r\n\r\n".to_vec();
    let used = ok_count(unit.handle_input(Instant::At(6), Input::Data { input: head.clone() }, &mut out));
    assert_eq!(used, head.len());

    match ok_event(unit.poll_event(Instant::At(7), &mut buffers)) {
        Event::Response { end, .. } => assert!(end),
        e => panic!("expected Response, got {}", e.label()),
    }

    assert!(matches!(unit.body_mode(), Some(BodyMode::LengthDelimited(5))));

    let mut recv = unit.release_body();
    assert!(matches!(
        ok_event(recv.poll_event(Instant::At(8))),
        Event::AwaitInput { .. }
    ));
    let used = ok_count(recv.handle_input(
        Instant::At(9),
        Input::Data { input: b"WORLD".to_vec() },
        &mut out,
    ));
    assert_eq!(used, 5);
    match ok_event(recv.poll_event(Instant::At(10))) {
        Event::ResponseBody { amount } => assert_eq!(amount, 5),
        e => panic!("expected ResponseBody, got {}", e.label()),
    }
    assert_eq!(&out[..5], b"WORLD");

    // Body complete: cleanup follows.
    assert!(matches!(
        ok_event(recv.poll_event(Instant::At(11))),
        Event::Reset { .. }
    ));
}

#[test]
fn fake_request_snapshot() {
    let mut unit = new_unit(config(), Timeouts::unlimited(), get_request(), vec![]);
    let mut buffers = buffers();
    let mut out: Vec<u8> = vec![0u8; 128];

    // Reach the request-sending phase without transmitting.
    ok_event(unit.poll_event(Instant::At(0), &mut buffers));
    ok_count(unit.handle_input(Instant::At(0), Input::Begin, &mut out));
    ok_event(unit.poll_event(Instant::At(0), &mut buffers));
    ok_count(unit.handle_input(Instant::At(0), Input::Prepared, &mut out));
    ok_event(unit.poll_event(Instant::At(0), &mut buffers));
    ok_count(unit.handle_input(Instant::At(0), Input::Resolved, &mut out));
    ok_event(unit.poll_event(Instant::At(0), &mut buffers));
    ok_count(unit.handle_input(Instant::At(0), Input::ConnectionOpen, &mut out));

    let fake = match unit.fake_request() {
        Ok(f) => f,
        Err(_) => panic!("snapshot should succeed"),
    };
    assert_eq!(fake.method, http::Method::GET);
    assert_eq!(fake.uri.path(), "/page");
    assert_eq!(fake.version, http::Version::HTTP_11);
    assert!(fake.headers.contains_key("host"));
}

#[test]
fn header_input_is_applied() {
    let mut unit = new_unit(config(), Timeouts::unlimited(), get_request(), vec![]);
    let mut buffers = buffers();
    let mut out: Vec<u8> = vec![0u8; 128];

    ok_event(unit.poll_event(Instant::At(0), &mut buffers));
    ok_count(unit.handle_input(Instant::At(0), Input::Begin, &mut out));
    ok_event(unit.poll_event(Instant::At(0), &mut buffers));
    let name = http::HeaderName::from_static("x-trace");
    let value = http::HeaderValue::from_static("abc");
    assert_eq!(
        ok_count(unit.handle_input(Instant::At(0), Input::Header { name, value }, &mut out)),
        0
    );
    ok_count(unit.handle_input(Instant::At(0), Input::Prepared, &mut out));
    ok_count(unit.handle_input(Instant::At(0), Input::Resolved, &mut out));
    ok_count(unit.handle_input(Instant::At(0), Input::ConnectionOpen, &mut out));
    let amount = match ok_event(unit.poll_event(Instant::At(0), &mut buffers)) {
        Event::Transmit { amount, .. } => amount,
        e => panic!("expected Transmit, got {}", e.label()),
    };
    let written = String::from_utf8_lossy(&buffers.output[..amount]).to_string();
    assert!(written.contains("x-trace: abc"));
}

#[test]
fn chunked_body_is_framed_and_terminated() {
    // Without a content-length the transfer is chunked: each transmit
    // carries one framed chunk, and an empty read closes the stream.
    let request = http::Request::builder()
        .method("POST")
        .uri("http://q.test/upload")
        .body(())
        .unwrap();
    let mut unit = new_unit(config(), Timeouts::unlimited(), request, b"HELLO".to_vec());
    let mut buffers = buffers();

    drive_to_transmit(&mut unit, &mut buffers);

    match ok_event(unit.poll_event(Instant::At(6), &mut buffers)) {
        Event::Transmit { amount, .. } => {
            assert_eq!(amount, 10);
            assert_eq!(&buffers.output[..10], b"5\r\nHELLO\r\n");
        },
        e => panic!("expected the framed chunk, got {}", e.label()),
    }

    match ok_event(unit.poll_event(Instant::At(7), &mut buffers)) {
        Event::Transmit { amount, .. } => {
            assert_eq!(amount, 5);
            assert_eq!(&buffers.output[..5], b"0\r\n\r\n");
        },
        e => panic!("expected the terminating chunk, got {}", e.label()),
    }

    assert!(matches!(
        ok_event(unit.poll_event(Instant::At(8), &mut buffers)),
        Event::AwaitInput { .. }
    ));
}

#[test]
fn deferred_events_are_delivered_in_order() {
    let mut unit = new_unit(config(), Timeouts::unlimited(), get_request(), vec![]);
    let mut buffers = buffers();
    let mut out: Vec<u8> = vec![0u8; 128];

    drive_to_transmit(&mut unit, &mut buffers);
    assert!(matches!(
        ok_event(unit.poll_event(Instant::At(6), &mut buffers)),
        Event::AwaitInput { .. }
    ));

    // Feed the response head and the body without polling in between:
    // both events wait in the queue and come out in order.
    let head = b"HTTP/1.1 200 OK\r\nContent-Length: 5\r\n\r\n".to_vec();
    let used = ok_count(unit.handle_input(Instant::At(7), Input::Data { input: head.clone() }, &mut out));
    assert_eq!(used, head.len());
    let used = ok_count(unit.handle_input(
        Instant::At(8),
        Input::Data { input: b"WORLD".to_vec() },
        &mut out,
    ));
    assert_eq!(used, 5);

    match ok_event(unit.poll_event(Instant::At(9), &mut buffers)) {
        Event::Response { end, .. } => assert!(end),
        e => panic!("expected the deferred response first, got {}", e.label()),
    }
    match ok_event(unit.poll_event(Instant::At(10), &mut buffers)) {
        Event::ResponseBody { amount } => assert_eq!(amount, 5),
        e => panic!("expected the deferred body count next, got {}", e.label()),
    }
    assert_eq!(&out[..5], b"WORLD");
}

#[test]
fn short_body_stalls_instead_of_completing() {
    // The request announces ten bytes but the body holds five: once the
    // body ends with the framing incomplete, polling reports the stall.
    let request = http::Request::builder()
        .method("POST")
        .uri("http://q.test/upload")
        .header("content-length", "10")
        .body(())
        .unwrap();
    let mut unit = new_unit(config(), Timeouts::unlimited(), request, b"HELLO".to_vec());
    let mut buffers = buffers();

    drive_to_transmit(&mut unit, &mut buffers);
    match ok_event(unit.poll_event(Instant::At(6), &mut buffers)) {
        Event::Transmit { amount, .. } => assert_eq!(amount, 5),
        e => panic!("expected the body bytes, got {}", e.label()),
    }
    match unit.poll_event(Instant::At(7), &mut buffers) {
        Err(Error::BodyStalled) => {},
        Err(e) => panic!("expected the stall, got {}", e.label()),
        Ok(e) => panic!("expected the stall, got event {}", e.label()),
    }
    assert_eq!(Error::BodyStalled.label(), "body stalled");
}

#[test]
fn stray_interim_100_is_consumed_while_waiting() {
    // A server may send `100 Continue` even though the request never
    // asked for it. The driver consumes it and keeps waiting for the
    // real response instead of treating it as one.
    let mut unit = new_unit(config(), Timeouts::unlimited(), get_request(), vec![]);
    let mut buffers = buffers();
    let mut out: Vec<u8> = vec![0u8; 128];

    drive_to_transmit(&mut unit, &mut buffers);
    assert!(matches!(
        ok_event(unit.poll_event(Instant::At(6), &mut buffers)),
        Event::AwaitInput { .. }
    ));

    let interim = b"HTTP/1.1 100 Continue\r\n\r\n".to_vec();
    let used = ok_count(unit.handle_input(Instant::At(7), Input::Data { input: interim.clone() }, &mut out));
    assert_eq!(used, interim.len());

    // No response was produced: the driver still awaits input.
    assert!(matches!(
        ok_event(unit.poll_event(Instant::At(8), &mut buffers)),
        Event::AwaitInput { .. }
    ));

    let data = b"HTTP/1.1 200 OK\r\nContent-Length: 0\r\n\r\n".to_vec();
    let used = ok_count(unit.handle_input(Instant::At(9), Input::Data { input: data.clone() }, &mut out));
    assert_eq!(used, data.len());
    match ok_event(unit.poll_event(Instant::At(10), &mut buffers)) {
        Event::Response { end, .. } => assert!(end),
        e => panic!("expected the real response, got {}", e.label()),
    }
}

#[test]
fn header_count_tracks_amendments() {
    let mut unit = new_unit(config(), Timeouts::unlimited(), get_request(), vec![]);
    let mut buffers = buffers();
    let mut out: Vec<u8> = vec![0u8; 128];

    assert_eq!(unit.header_count(), 0);
    ok_event(unit.poll_event(Instant::At(0), &mut buffers));
    ok_count(unit.handle_input(Instant::At(0), Input::Begin, &mut out));
    let name = http::HeaderName::from_static("x-one");
    let value = http::HeaderValue::from_static("1");
    ok_count(unit.handle_input(Instant::At(0), Input::Header { name, value }, &mut out));
    let name = http::HeaderName::from_static("x-two");
    let value = http::HeaderValue::from_static("2");
    ok_count(unit.handle_input(Instant::At(0), Input::Header { name, value }, &mut out));
    assert_eq!(unit.header_count(), 2);
}

#[test]
fn rejected_100_refuses_response_data() {
    // The server answers the continue-wait with a final status instead
    // of a 100. The wire library cannot receive the response that
    // follows on this path, so the driver aborts the call with an error
    // rather than crashing inside the wire library.
    let request = http::Request::builder()
        .method("POST")
        .uri("http://q.test/upload")
        .header("expect", "100-continue")
        .header("content-length", "5")
        .body(())
        .unwrap();
    let mut unit = new_unit(config(), Timeouts::unlimited(), request, b"HELLO".to_vec());
    let mut buffers = buffers();
    let mut out: Vec<u8> = vec![0u8; 128];

    drive_to_transmit(&mut unit, &mut buffers);
    assert!(matches!(
        ok_event(unit.poll_event(Instant::At(6), &mut buffers)),
        Event::Await100 { .. }
    ));

    let rejection = b"HTTP/1.1 403 Forbidden\r\n\r\n".to_vec();
    let used = ok_count(unit.handle_input(Instant::At(7), Input::Data { input: rejection.clone() }, &mut out));
    assert_eq!(used, 0);

    match unit.handle_input(Instant::At(8), Input::Data { input: rejection }, &mut out) {
        Err(Error::Expect100Rejected) => {},
        Err(e) => panic!("expected the rejection error, got {}", e.label()),
        Ok(_) => panic!("expected the rejection error, got a count"),
    }
    assert_eq!(Error::Expect100Rejected.label(), "expect-100 rejected");
}

#[test]
fn redirect_from_relative_uri_fails_cleanly() {
    // The wire library cannot derive a follow-up request from a relative
    // base URI; the driver reports the redirect as underivable instead
    // of attempting the derivation.
    let request = http::Request::builder()
        .method("GET")
        .uri("/relative-page")
        .body(())
        .unwrap();
    let mut unit = new_unit(config(), Timeouts::unlimited(), request, vec![]);
    let mut buffers = buffers();
    let mut out: Vec<u8> = vec![0u8; 128];

    drive_to_transmit(&mut unit, &mut buffers);
    assert!(matches!(
        ok_event(unit.poll_event(Instant::At(6), &mut buffers)),
        Event::AwaitInput { .. }
    ));

    let data = b"HTTP/1.1 302 Found\r\nLocation: /next\r\nContent-Length: 0\r\n\r\n".to_vec();
    ok_count(unit.handle_input(Instant::At(7), Input::Data { input: data }, &mut out));
    match ok_event(unit.poll_event(Instant::At(8), &mut buffers)) {
        Event::Response { end, .. } => assert!(!end),
        e => panic!("expected the deferred response, got {}", e.label()),
    }
    match unit.poll_event(Instant::At(9), &mut buffers) {
        Err(Error::RedirectFailed) => {},
        Err(e) => panic!("expected the redirect failure, got {}", e.label()),
        Ok(e) => panic!("expected the redirect failure, got event {}", e.label()),
    }
}
