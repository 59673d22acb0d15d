use frame_pipeline::bridge::{run_exchange, SinkEvent};
use frame_pipeline::frame::{ErrorCode, Frame, Headers};
use frame_pipeline::handler::Terminal;
use frame_pipeline::pipeline::{Event, Pipeline};

fn request_headers() -> Headers {
    let mut h = Headers::new();
    h.push(String::from("x-test"), String::from("hello"));
    h
}

fn trailer_set() -> Headers {
    let mut h = Headers::new();
    h.push(String::from("x-trailer"), String::from("test"));
    h
}

#[test]
fn echo_end_to_end() {
    let body = b"Hello from the HTTP P3 runner!";
    let inbound = vec![Frame::Data(body.to_vec()), Frame::Trailers(trailer_set())];
    let p = Pipeline { wrappers: vec![1], terminal: Terminal::Echo };
    let r = run_exchange(
        &p,
        String::from("GET"),
        String::from("http://localhost/"),
        request_headers(),
        inbound,
        1,
    );
    assert_eq!(r.status, 200);
    assert!(r.failure.is_none());
    assert_eq!(
        r.sink,
        vec![
            SinkEvent::Head(200, request_headers()),
            SinkEvent::Body(Frame::Data(body.to_vec())),
            SinkEvent::Body(Frame::Trailers(trailer_set())),
        ]
    );
    assert_eq!(r.log, vec![Event::Enter(1), Event::Handled, Event::Exit(1)]);
}

#[test]
fn failure_end_to_end() {
    let inbound = vec![Frame::Data(b"never delivered".to_vec())];
    let p = Pipeline { wrappers: vec![1], terminal: Terminal::Fail(ErrorCode::InternalError) };
    let r = run_exchange(
        &p,
        String::from("GET"),
        String::from("http://localhost/"),
        request_headers(),
        inbound,
        1,
    );
    // A failure response in the server-failure range, with no partial body.
    assert_eq!(r.status, 500);
    assert_eq!(r.failure, Some(ErrorCode::InternalError));
    assert_eq!(r.sink, vec![SinkEvent::Head(500, Headers::new())]);
    assert_eq!(r.log, vec![Event::Enter(1), Event::Handled, Event::Exit(1)]);
}

#[test]
fn transport_failure_maps_to_bad_gateway() {
    let p = Pipeline { wrappers: Vec::new(), terminal: Terminal::Fail(ErrorCode::TransportClosed) };
    let r = run_exchange(
        &p,
        String::from("GET"),
        String::from("http://localhost/"),
        Headers::new(),
        Vec::new(),
        1,
    );
    assert_eq!(r.status, 502);
    assert_eq!(r.failure, Some(ErrorCode::TransportClosed));
}

#[test]
fn headers_precede_body_at_sink() {
    // A streaming echo with a multi-frame body and the smallest capacity:
    // the sink still sees the response metadata before any body frame.
    let inbound = vec![
        Frame::Data(b"part one".to_vec()),
        Frame::Data(b"part two".to_vec()),
        Frame::Trailers(trailer_set()),
    ];
    let p = Pipeline { wrappers: Vec::new(), terminal: Terminal::Echo };
    let r = run_exchange(
        &p,
        String::from("GET"),
        String::from("http://localhost/"),
        Headers::new(),
        inbound,
        1,
    );
    assert!(matches!(r.sink[0], SinkEvent::Head(200, _)));
    assert_eq!(r.sink.len(), 4);
    for event in &r.sink[1..] {
        assert!(matches!(event, SinkEvent::Body(_)));
    }
}

#[test]
fn echo_of_empty_body() {
    let p = Pipeline { wrappers: Vec::new(), terminal: Terminal::Echo };
    let r = run_exchange(
        &p,
        String::from("GET"),
        String::from("http://localhost/"),
        request_headers(),
        Vec::new(),
        3,
    );
    assert_eq!(r.status, 200);
    assert_eq!(r.sink, vec![SinkEvent::Head(200, request_headers())]);
}
