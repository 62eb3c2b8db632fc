use calldriver::time::{Duration, Instant, TimeoutReason};
use calldriver::timings::{next_timeout, CallTimings, Phase};
use calldriver::{
    AgentConfig, Buffers, Error, Event, Input, RedirectAuthHeaders, SendBody, Timeouts, Unit,
};

#[test]
fn instant_add_and_since() {
    assert_eq!(Instant::At(10).add_millis(5), Instant::At(15));
    assert_eq!(Instant::At(u64::MAX).add_millis(1), Instant::NotHappening);
    assert_eq!(Instant::NotHappening.add_millis(7), Instant::NotHappening);
    assert_eq!(Instant::At(30).duration_since(Instant::At(10)), Duration::Exact(20));
    assert_eq!(Instant::At(10).duration_since(Instant::At(30)), Duration::Exact(0));
    assert_eq!(
        Instant::NotHappening.duration_since(Instant::At(3)),
        Duration::NotHappening
    );
}

#[test]
fn duration_min_and_zero() {
    assert!(Duration::Exact(0).is_zero());
    assert!(!Duration::Exact(1).is_zero());
    assert!(!Duration::NotHappening.is_zero());
    assert_eq!(Duration::Exact(4).min(Duration::Exact(9)), Duration::Exact(4));
    assert_eq!(Duration::Exact(4).min(Duration::NotHappening), Duration::Exact(4));
    assert_eq!(
        Duration::NotHappening.min(Duration::NotHappening),
        Duration::NotHappening
    );
}

#[test]
fn next_timeout_prefers_nearer_deadline() {
    let mut timings = CallTimings::none();
    timings.time_send_request = Some(Instant::At(10));
    let timeouts = Timeouts { global: Some(100), send_body: Some(50), ..Timeouts::unlimited() };

    // At 20ms: phase deadline at 60, global at 100; 40ms remain for the phase.
    let nt = match next_timeout(&timings, Phase::SendBody, &timeouts, Instant::At(0), Instant::At(20)) {
        Ok(nt) => nt,
        Err(_) => panic!("no deadline has passed yet"),
    };
    assert_eq!(nt.after, Duration::Exact(40));
    assert_eq!(nt.reason, TimeoutReason::SendBody);

    // At 60ms the phase deadline is exhausted.
    match next_timeout(&timings, Phase::SendBody, &timeouts, Instant::At(0), Instant::At(60)) {
        Err(Error::Timeout(r)) => assert_eq!(r, TimeoutReason::SendBody),
        _ => panic!("expected the phase timeout"),
    }

    // At 100ms the global deadline is the exhausted one.
    match next_timeout(&timings, Phase::SendBody, &timeouts, Instant::At(0), Instant::At(100)) {
        Err(Error::Timeout(r)) => assert_eq!(r, TimeoutReason::Global),
        _ => panic!("expected the global timeout"),
    }
}

#[test]
fn next_timeout_recv_response_anchor_fallback() {
    let timeouts = Timeouts { recv_response: Some(10), ..Timeouts::unlimited() };

    // Only the header-send instant is recorded: it is the anchor.
    let mut t = CallTimings::none();
    t.time_send_request = Some(Instant::At(5));
    let nt = next_timeout(&t, Phase::RecvResponse, &timeouts, Instant::At(0), Instant::At(6));
    assert!(matches!(nt, Ok(n) if n.after == Duration::Exact(9)));

    // The 100-continue instant takes precedence over the header instant.
    t.time_await_100 = Some(Instant::At(7));
    let nt = next_timeout(&t, Phase::RecvResponse, &timeouts, Instant::At(0), Instant::At(8));
    assert!(matches!(nt, Ok(n) if n.after == Duration::Exact(9)));

    // The body-sent instant takes precedence over both.
    t.time_send_body = Some(Instant::At(12));
    let nt = next_timeout(&t, Phase::RecvResponse, &timeouts, Instant::At(0), Instant::At(14));
    assert!(matches!(nt, Ok(n) if n.after == Duration::Exact(8)));
}

#[test]
fn next_timeout_without_configuration_never_fires() {
    let timings = CallTimings::none();
    let nt = next_timeout(
        &timings,
        Phase::Begin,
        &Timeouts::unlimited(),
        Instant::At(0),
        Instant::At(1_000_000),
    );
    match nt {
        Ok(n) => {
            assert_eq!(n.after, Duration::NotHappening);
            assert_eq!(n.reason, TimeoutReason::Global);
        },
        Err(_) => panic!("nothing can expire without a configured deadline"),
    }
}

#[test]
fn send_body_reader_copies_and_consumes() {
    let mut body = SendBody::new(b"abcdef".to_vec());
    assert!(!body.is_ended());

    let mut out = vec![0u8; 4];
    let n = body.fill(&mut out, 4);
    assert_eq!(n, 4);
    assert_eq!(&out[..4], b"abcd");
    body.advance(4);

    let n = body.fill(&mut out, 4);
    assert_eq!(n, 2);
    assert_eq!(&out[..2], b"ef");
    // Bytes past the copied prefix keep their previous content.
    assert_eq!(&out[2..4], b"cd");
    body.advance(2);

    // The end is observed only by a read that comes back empty.
    assert!(!body.is_ended());
    let n = body.fill(&mut out, 4);
    assert_eq!(n, 0);
    assert!(body.is_ended());
}

#[test]
fn error_labels() {
    assert_eq!(Error::Timeout(TimeoutReason::Global).label(), "timeout");
    assert_eq!(Error::Disconnected.label(), "disconnected");
    assert_eq!(Error::LargeResponseHeader(5, 4).label(), "large response header");
    assert_eq!(Error::RedirectFailed.label(), "redirect failed");
}

fn config() -> AgentConfig {
    AgentConfig {
        max_response_header_size: 4096,
        max_redirects: 3,
        redirect_auth_headers: RedirectAuthHeaders::Never,
    }
}

fn drive_to_await_input(unit: &mut Unit<SendBody>, buffers: &mut Buffers) {
    let mut out: Vec<u8> = vec![0u8; 64];
    let now = Instant::At(0);
    unit.poll_event(now, buffers).map_err(|_| ()).unwrap();
    unit.handle_input(now, Input::Begin, &mut out).map_err(|_| ()).unwrap();
    unit.poll_event(now, buffers).map_err(|_| ()).unwrap();
    unit.handle_input(now, Input::Prepared, &mut out).map_err(|_| ()).unwrap();
    unit.poll_event(now, buffers).map_err(|_| ()).unwrap();
    unit.handle_input(now, Input::Resolved, &mut out).map_err(|_| ()).unwrap();
    unit.poll_event(now, buffers).map_err(|_| ()).unwrap();
    unit.handle_input(now, Input::ConnectionOpen, &mut out).map_err(|_| ()).unwrap();
    unit.poll_event(now, buffers).map_err(|_| ()).unwrap();
}

#[test]
fn garbled_response_is_a_flow_error() {
    let request = http::Request::builder()
        .method("GET")
        .uri("http://q.test/")
        .body(())
        .unwrap();
    let mut unit = match Unit::new(config(), Timeouts::unlimited(), Instant::At(0), request, SendBody::new(vec![])) {
        Ok(u) => u,
        Err(_) => panic!("request should be accepted"),
    };
    let mut buffers = Buffers { output: vec![0u8; 1024], tmp: vec![0u8; 1024] };
    drive_to_await_input(&mut unit, &mut buffers);

    let mut out: Vec<u8> = vec![0u8; 64];
    let garbage = b"NOT A STATUS LINE\r\n\r\n".to_vec();
    match unit.handle_input(Instant::At(1), Input::Data { input: garbage }, &mut out) {
        Err(Error::Flow(_)) => {},
        _ => panic!("expected a wire-level parse error"),
    }
}

#[test]
fn redirect_of_post_with_307_cannot_be_followed() {
    // A 307 keeps the method, and a request body may not be replayed: the
    // redirect cannot be derived, which aborts the call.
    let request = http::Request::builder()
        .method("POST")
        .uri("http://q.test/submit")
        .header("content-length", "2")
        .body(())
        .unwrap();
    let mut unit = match Unit::new(config(), Timeouts::unlimited(), Instant::At(0), request, SendBody::new(b"hi".to_vec())) {
        Ok(u) => u,
        Err(_) => panic!("request should be accepted"),
    };
    let mut buffers = Buffers { output: vec![0u8; 1024], tmp: vec![0u8; 1024] };
    let mut out: Vec<u8> = vec![0u8; 64];
    let now = Instant::At(0);
    unit.poll_event(now, &mut buffers).map_err(|_| ()).unwrap();
    unit.handle_input(now, Input::Begin, &mut out).map_err(|_| ()).unwrap();
    unit.poll_event(now, &mut buffers).map_err(|_| ()).unwrap();
    unit.handle_input(now, Input::Prepared, &mut out).map_err(|_| ()).unwrap();
    unit.poll_event(now, &mut buffers).map_err(|_| ()).unwrap();
    unit.handle_input(now, Input::Resolved, &mut out).map_err(|_| ()).unwrap();
    unit.poll_event(now, &mut buffers).map_err(|_| ()).unwrap();
    unit.handle_input(now, Input::ConnectionOpen, &mut out).map_err(|_| ()).unwrap();
    // Headers, then the body.
    unit.poll_event(now, &mut buffers).map_err(|_| ()).unwrap();
    unit.poll_event(now, &mut buffers).map_err(|_| ()).unwrap();
    // Awaiting the response now.
    match unit.poll_event(now, &mut buffers) {
        Ok(Event::AwaitInput { .. }) => {},
        _ => panic!("expected to be awaiting input"),
    }

    let data = b"HTTP/1.1 307 Temporary Redirect\r\nLocation: /other\r\nContent-Length: 0\r\n\r\n"
        .to_vec();
    match unit.handle_input(Instant::At(1), Input::Data { input: data }, &mut out) {
        Ok(_) => {},
        Err(_) => panic!("the response itself is fine"),
    }
    // The deferred response is not final: the redirect is within the cap.
    match unit.poll_event(Instant::At(2), &mut buffers) {
        Ok(Event::Response { end, .. }) => assert!(!end),
        _ => panic!("expected the deferred response"),
    }
    // Deriving the follow-up request fails.
    match unit.poll_event(Instant::At(3), &mut buffers) {
        Err(Error::RedirectFailed) => {},
        _ => panic!("expected the redirect to fail"),
    }
}

#[test]
fn resolve_event_carries_remaining_time() {
    let timeouts = Timeouts { resolve: Some(30), ..Timeouts::unlimited() };
    let request = http::Request::builder()
        .method("GET")
        .uri("http://q.test/")
        .body(())
        .unwrap();
    let mut unit = match Unit::new(config(), timeouts, Instant::At(0), request, SendBody::new(vec![])) {
        Ok(u) => u,
        Err(_) => panic!("request should be accepted"),
    };
    let mut buffers = Buffers { output: vec![0u8; 1024], tmp: vec![0u8; 1024] };
    let mut out: Vec<u8> = vec![0u8; 64];

    unit.poll_event(Instant::At(0), &mut buffers).map_err(|_| ()).unwrap();
    unit.handle_input(Instant::At(1), Input::Begin, &mut out).map_err(|_| ()).unwrap();
    unit.poll_event(Instant::At(1), &mut buffers).map_err(|_| ()).unwrap();
    // The resolve deadline counts from this instant.
    unit.handle_input(Instant::At(2), Input::Prepared, &mut out).map_err(|_| ()).unwrap();

    match unit.poll_event(Instant::At(12), &mut buffers) {
        Ok(Event::Resolve { timeout, .. }) => {
            assert_eq!(timeout.after, Duration::Exact(20));
            assert_eq!(timeout.reason, TimeoutReason::Resolver);
        },
        _ => panic!("expected the resolve event"),
    }

    // Once the allowance is used up, polling fails with the phase reason.
    match unit.poll_event(Instant::At(32), &mut buffers) {
        Err(Error::Timeout(r)) => assert_eq!(r, TimeoutReason::Resolver),
        _ => panic!("expected the resolver timeout"),
    }
}
