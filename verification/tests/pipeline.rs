use frame_pipeline::body::BodyHandle;
use frame_pipeline::channel::FrameChannel;
use frame_pipeline::frame::{ErrorCode, Headers};
use frame_pipeline::handler::Terminal;
use frame_pipeline::message::{Outcome, Request};
use frame_pipeline::pipeline::{invoke, Event, Pipeline};

fn plain_request() -> Request {
    Request {
        method: String::from("GET"),
        target: String::from("http://localhost/"),
        headers: Headers::new(),
        body: BodyHandle::new(FrameChannel::create(1)),
    }
}

#[test]
fn strict_stack_nesting() {
    let p = Pipeline { wrappers: vec![1, 2, 3], terminal: Terminal::Echo };
    let mut log: Vec<Event> = Vec::new();
    let outcome = invoke(&p, plain_request(), &mut log);
    assert!(matches!(outcome, Outcome::Success(_)));
    assert_eq!(
        log,
        vec![
            Event::Enter(1),
            Event::Enter(2),
            Event::Enter(3),
            Event::Handled,
            Event::Exit(3),
            Event::Exit(2),
            Event::Exit(1),
        ]
    );
}

#[test]
fn failure_passes_through_unchanged() {
    let p = Pipeline {
        wrappers: vec![1, 2, 3],
        terminal: Terminal::Fail(ErrorCode::InternalError),
    };
    let mut log: Vec<Event> = Vec::new();
    let outcome = invoke(&p, plain_request(), &mut log);
    match outcome {
        Outcome::Failure(code) => assert_eq!(code, ErrorCode::InternalError),
        Outcome::Success(_) => panic!("a failing terminal must fail the composition"),
    }
    // No wrapper's side effects are skipped on failure.
    assert_eq!(
        log,
        vec![
            Event::Enter(1),
            Event::Enter(2),
            Event::Enter(3),
            Event::Handled,
            Event::Exit(3),
            Event::Exit(2),
            Event::Exit(1),
        ]
    );
}

#[test]
fn bare_terminal_composition() {
    let p = Pipeline { wrappers: Vec::new(), terminal: Terminal::Echo };
    let mut log: Vec<Event> = Vec::new();
    let outcome = invoke(&p, plain_request(), &mut log);
    assert!(matches!(outcome, Outcome::Success(_)));
    assert_eq!(log, vec![Event::Handled]);
}

#[test]
fn echo_on_spent_body_is_violation() {
    let mut req = plain_request();
    req.body.consume().expect("fresh body");
    let p = Pipeline { wrappers: Vec::new(), terminal: Terminal::Echo };
    let mut log: Vec<Event> = Vec::new();
    match invoke(&p, req, &mut log) {
        Outcome::Failure(code) => assert_eq!(code, ErrorCode::ProtocolViolation),
        Outcome::Success(_) => panic!("an already-consumed body must fail the echo"),
    }
}
