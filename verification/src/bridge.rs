use vstd::prelude::*;

use crate::channel::{transfer, FrameChannel};
use crate::body::BodyHandle;
use crate::frame::{wf_frames, ErrorCode, Frame, Headers};
use crate::handler::Terminal;
use crate::message::{Outcome, Request, Response};
use crate::pipeline::{bracket_events, invoke, Event, Pipeline};

verus! {

/// One observation at the real outbound sink, in the order the sink sees
/// them: first the response metadata, then the body frame by frame.
#[derive(Debug, PartialEq, Eq)]
pub enum SinkEvent {
    /// Status and headers, released as soon as they are available.
    Head(u16, Headers),
    /// One body frame, in the order the handler produced it.
    Body(Frame),
}

/// Everything one exchange leaves behind: the outbound status, the failure
/// if the handler chain reported one, the ordered observations at the
/// outbound sink, and the wrappers' observable effect trace.
pub struct ExchangeReport {
    pub status: u16,
    pub failure: Option<ErrorCode>,
    pub sink: Vec<SinkEvent>,
    pub log: Vec<Event>,
}

/// A body's frames as the outbound sink observes them.
pub open spec fn body_events(frames: Seq<Frame>) -> Seq<SinkEvent> {
    frames.map_values(|f: Frame| SinkEvent::Body(f))
}

/// The outermost mapping from an internal error to an externally visible
/// failure status, all in the server-failure range.
pub open spec fn error_status(code: ErrorCode) -> u16 {
    match code {
        ErrorCode::TransportClosed => 502,
        ErrorCode::ProtocolViolation => 500,
        ErrorCode::InternalError => 500,
    }
}

fn map_error_status(code: ErrorCode) -> (s: u16)
    ensures
        s == error_status(code),
{
    match code {
        ErrorCode::TransportClosed => 502,
        ErrorCode::ProtocolViolation => 500,
        ErrorCode::InternalError => 500,
    }
}

/// Drives one whole exchange: builds the handler-contract request around the
/// consumer end of a fresh frame channel, invokes the composed handler, and
/// bridges the inbound body and the outbound sink to completion.
///
/// On success the sink sees the response's status and headers first —
/// released before a single body frame has been drained — and then, pumped
/// through the body's bounded channel frame by frame, the response body in
/// production order; for the echoing terminal that body is exactly the
/// inbound one, trailers included.  On failure the sink sees one failure
/// response in the server-failure range and no partial body content, and the
/// abandoned inbound body is dropped, never delivered.  In both cases the
/// wrappers' effect trace is the strict bracket of the composition.
pub fn run_exchange(
    pipeline: &Pipeline,
    method: String,
    target: String,
    headers: Headers,
    inbound: Vec<Frame>,
    capacity: usize,
) -> (r: ExchangeReport)
    requires
        wf_frames(inbound@),
        capacity >= 1,
    ensures
        r.log@ == bracket_events(pipeline.wrappers@),
        pipeline.terminal is Echo ==> r.failure is None && r.status == 200
            && r.sink@ == seq![SinkEvent::Head(200, headers)] + body_events(inbound@),
        pipeline.terminal matches Terminal::Fail(code) ==> r.failure == Some(code)
            && r.status == error_status(code)
            && r.sink@.len() == 1
            && (r.sink@[0] matches SinkEvent::Head(s, h) && s == error_status(code)
                && h@ == Seq::<(Seq<char>, Seq<char>)>::empty()),
{
    let chan = FrameChannel::create(capacity);
    let req = Request { method, target, headers, body: BodyHandle::new(chan) };
    let mut log: Vec<Event> = Vec::new();
    let outcome = invoke(pipeline, req, &mut log);
    let mut sink: Vec<SinkEvent> = Vec::new();
    match outcome {
        Outcome::Success(resp) => {
            let Response { status, headers: resp_headers, body } = resp;
            // Metadata goes out before the body exists at the sink.
            sink.push(SinkEvent::Head(status, resp_headers));
            let mut body = body;
            match body.consume() {
                Ok(mut out_chan) => {
                    let mut collected: Vec<Frame> = Vec::new();
                    transfer(&mut out_chan, inbound, &mut collected);
                    let ghost all = collected@;
                    let ghost head = sink@;
                    proof {
                        assert(collected@ =~= all.skip(0));
                        assert(sink@ =~= head + body_events(all.take(0)));
                    }
                    while collected.len() > 0
                        invariant
                            collected@.len() <= all.len(),
                            collected@ == all.skip(all.len() - collected@.len()),
                            sink@ == head + body_events(all.take(all.len() - collected@.len())),
                        decreases collected@.len(),
                    {
                        let ghost done = all.len() - collected@.len();
                        let f = collected.remove(0);
                        sink.push(SinkEvent::Body(f));
                        proof {
                            assert(f == all[done]);
                            assert(collected@ =~= all.skip(done + 1));
                            assert(all.take(done + 1) =~= all.take(done).push(all[done]));
                            assert(body_events(all.take(done + 1)) =~= body_events(
                                all.take(done),
                            ).push(SinkEvent::Body(f)));
                            assert(sink@ =~= head + body_events(all.take(done + 1)));
                        }
                    }
                    proof {
                        assert(all.take(all.len() as int) =~= all);
                        assert(sink@ =~= head + body_events(all));
                    }
                    ExchangeReport { status, failure: None, sink, log }
                },
                Err(code) => {
                    // Unreachable for the handlers this library ships: a
                    // successful outcome always carries an unconsumed body.
                    let status = map_error_status(code);
                    ExchangeReport { status, failure: Some(code), sink, log }
                },
            }
        },
        Outcome::Failure(code) => {
            let status = map_error_status(code);
            sink.push(SinkEvent::Head(status, Headers::new()));
            ExchangeReport { status, failure: Some(code), sink, log }
        },
    }
}

/// Non-blocking headers law: at a sink of the shape every successful
/// exchange produces, the response metadata stands strictly before every
/// body frame — the headers are observable before the body has been
/// drained.
pub proof fn lemma_headers_before_body(
    sink: Seq<SinkEvent>,
    status: u16,
    headers: Headers,
    frames: Seq<Frame>,
)
    requires
        sink == seq![SinkEvent::Head(status, headers)] + body_events(frames),
    ensures
        sink.len() == 1 + frames.len(),
        sink[0] is Head,
        forall|i: int| 1 <= i < sink.len() ==> sink[i] is Body,
{
    assert forall|i: int| 1 <= i < sink.len() implies sink[i] is Body by {
        assert(sink[i] == body_events(frames)[i - 1]);
    }
}

} // verus!
