use vstd::prelude::*;

use crate::body::BodyHandle;
use crate::frame::ErrorCode;
use crate::message::{Outcome, Request, Response};

verus! {

/// The terminal service handlers this library ships.
///
/// `Echo` answers with status 200, the request's own headers, and the
/// request body passed through unconsumed frame by frame — the streaming
/// shape of an echo service: it can return before its input has finished
/// arriving.  `Fail` reports the given error as its outcome before touching
/// the body.
pub enum Terminal {
    Echo,
    Fail(ErrorCode),
}

/// What a terminal handler's invocation comes to, as a function of the
/// request it was given.  `Echo` consumes the body handle exactly once and
/// hands the same channel on as the response body; on a request whose body
/// was already consumed it fails with `ProtocolViolation`.
pub open spec fn terminal_outcome(t: Terminal, req: Request) -> Outcome {
    match t {
        Terminal::Echo => if req.body.is_available() {
            Outcome::Success(
                Response { status: 200, headers: req.headers, body: req.body },
            )
        } else {
            Outcome::Failure(ErrorCode::ProtocolViolation)
        },
        Terminal::Fail(code) => Outcome::Failure(code),
    }
}

/// Runs a terminal handler on a request, taking ownership of the request and
/// of its body as the handler contract demands.
pub fn run_terminal(t: &Terminal, req: Request) -> (r: Outcome)
    ensures
        r == terminal_outcome(*t, req),
{
    match t {
        Terminal::Echo => {
            let Request { method: _, target: _, headers, body } = req;
            let mut body = body;
            match body.consume() {
                Ok(chan) => {
                    let out = BodyHandle::new(chan);
                    proof {
                        BodyHandle::lemma_handle_eq(out, req.body);
                    }
                    Outcome::Success(Response { status: 200, headers, body: out })
                },
                Err(code) => Outcome::Failure(code),
            }
        },
        Terminal::Fail(code) => Outcome::Failure(*code),
    }
}

} // verus!
