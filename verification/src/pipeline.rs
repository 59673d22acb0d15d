use vstd::prelude::*;

use crate::frame::ErrorCode;
use crate::handler::{run_terminal, terminal_outcome, Terminal};
use crate::message::{Outcome, Request};

verus! {

/// One observable side effect of an invocation: a middleware wrapper's entry
/// or exit, or the completion of the terminal handler between them.
#[derive(Clone, Copy, Debug, PartialEq, Eq, Structural)]
pub enum Event {
    Enter(u64),
    Handled,
    Exit(u64),
}

/// The fixed composition of middleware wrappers around one terminal service
/// handler: wrapper `wrappers[0]` is the outermost, each wrapper wraps the
/// next, the last wraps the terminal.  A pipeline is built once and invoked
/// many times; it holds no per-request state.
pub struct Pipeline {
    pub wrappers: Vec<u64>,
    pub terminal: Terminal,
}

/// The effect trace one invocation of the composed handler leaves behind:
/// each wrapper's entry, outermost first, then the terminal handler's
/// completion, then each wrapper's exit in the reverse order — the strict
/// stack nesting of the composition.
pub open spec fn bracket_events(ws: Seq<u64>) -> Seq<Event>
    decreases ws.len(),
{
    if ws.len() == 0 {
        seq![Event::Handled]
    } else {
        seq![Event::Enter(ws[0])] + bracket_events(ws.drop_first()) + seq![Event::Exit(ws[0])]
    }
}

pub open spec fn enter_events(ws: Seq<u64>) -> Seq<Event> {
    ws.map_values(|w: u64| Event::Enter(w))
}

pub open spec fn exit_events_reversed(ws: Seq<u64>) -> Seq<Event> {
    ws.reverse().map_values(|w: u64| Event::Exit(w))
}

/// Strict nesting law: the effect trace of a composed invocation is exactly
/// every wrapper's entry in composition order, then the terminal handler's
/// run, then every wrapper's exit in the reverse order.
pub proof fn lemma_bracket_nesting(ws: Seq<u64>)
    ensures
        bracket_events(ws) == enter_events(ws) + seq![Event::Handled] + exit_events_reversed(ws),
    decreases ws.len(),
{
    if ws.len() == 0 {
        assert(bracket_events(ws) =~= enter_events(ws) + seq![Event::Handled]
            + exit_events_reversed(ws));
    } else {
        let tail = ws.drop_first();
        lemma_bracket_nesting(tail);
        assert(enter_events(ws) =~= seq![Event::Enter(ws[0])] + enter_events(tail));
        assert(tail.reverse() =~= ws.reverse().take(ws.len() - 1));
        assert(exit_events_reversed(ws) =~= exit_events_reversed(tail) + seq![Event::Exit(ws[0])]);
        assert(bracket_events(ws) =~= enter_events(ws) + seq![Event::Handled]
            + exit_events_reversed(ws));
    }
}

/// Invokes the handler that wrapper `i` of the composition stands for:
/// wrapper `i` wraps the invocation of wrapper `i + 1`, the innermost wraps
/// the terminal handler.  A wrapper performs its observable entry effect,
/// forwards the request unchanged to its downstream handler, awaits the
/// downstream outcome through every internal suspension, performs its exit
/// effect, and passes the outcome through verbatim.
fn invoke_from(ws: &Vec<u64>, i: usize, terminal: &Terminal, req: Request, log: &mut Vec<Event>)
    -> (r: Outcome)
    requires
        i <= ws@.len(),
    ensures
        r == terminal_outcome(*terminal, req),
        final(log)@ == old(log)@ + bracket_events(ws@.skip(i as int)),
    decreases ws@.len() - i,
{
    let ghost rest = ws@.skip(i as int);
    if i < ws.len() {
        log.push(Event::Enter(ws[i]));
        let out = invoke_from(ws, i + 1, terminal, req, log);
        log.push(Event::Exit(ws[i]));
        proof {
            assert(rest.drop_first() =~= ws@.skip(i + 1));
            assert(log@ =~= old(log)@ + bracket_events(rest));
        }
        out
    } else {
        let out = run_terminal(terminal, req);
        log.push(Event::Handled);
        proof {
            assert(log@ =~= old(log)@ + bracket_events(rest));
        }
        out
    }
}

/// Invokes the composed handler on one request, appending the observable
/// enter/exit effects to `log`.  To its caller the composition is one
/// handler: it returns the terminal handler's outcome unchanged, whatever
/// the wrappers are, and its effect trace is the strict bracket of
/// `bracket_events`.
pub fn invoke(p: &Pipeline, req: Request, log: &mut Vec<Event>) -> (r: Outcome)
    ensures
        r == terminal_outcome(p.terminal, req),
        final(log)@ == old(log)@ + bracket_events(p.wrappers@),
{
    proof {
        assert(p.wrappers@.skip(0) =~= p.wrappers@);
    }
    invoke_from(&p.wrappers, 0, &p.terminal, req, log)
}

/// Failure pass-through law: when the terminal handler fails, the outcome of
/// the whole composition is that same failure, untransformed, and no
/// wrapper's entry or exit effect is skipped: the trace still holds every
/// wrapper's entry and exit.
pub proof fn lemma_failure_passthrough(p: Pipeline, req: Request, code: ErrorCode)
    requires
        p.terminal == Terminal::Fail(code),
    ensures
        terminal_outcome(p.terminal, req) == Outcome::Failure(code),
        forall|i: int| 0 <= i < p.wrappers@.len()
            ==> bracket_events(p.wrappers@)[i] == Event::Enter(p.wrappers@[i]),
        forall|i: int| 0 <= i < p.wrappers@.len()
            ==> bracket_events(p.wrappers@)[bracket_events(p.wrappers@).len() - 1 - i]
                == Event::Exit(p.wrappers@[i]),
{
    lemma_bracket_nesting(p.wrappers@);
    let ws = p.wrappers@;
    let n = ws.len() as int;
    let trace = bracket_events(ws);
    assert(trace.len() == 2 * n + 1) by {
        assert(enter_events(ws).len() == n);
        assert(exit_events_reversed(ws).len() == n);
    }
    assert forall|i: int| 0 <= i < n implies trace[i] == Event::Enter(ws[i]) by {
        assert(trace[i] == enter_events(ws)[i]);
    }
    assert forall|i: int| 0 <= i < n implies trace[trace.len() - 1 - i] == Event::Exit(ws[i]) by {
        assert(trace[2 * n - i] == exit_events_reversed(ws)[n - 1 - i]);
        assert(ws.reverse()[n - 1 - i] == ws[i]);
    }
}

} // verus!
