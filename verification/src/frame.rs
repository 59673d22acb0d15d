use vstd::prelude::*;

verus! {

/// The error taxonomy of the pipeline.
///
/// `TransportClosed` reports a peer or channel end that went away before the
/// expected completion; consumers treat it as a clean end of body.
/// `ProtocolViolation` reports a fatal misuse of the streaming protocol: a
/// data frame after the terminal trailer frame, or a body consumed twice.
/// `InternalError` is a terminal handler's own failure report.
#[derive(Clone, Copy, Debug, PartialEq, Eq, Structural)]
pub enum ErrorCode {
    TransportClosed,
    ProtocolViolation,
    InternalError,
}

/// A header mapping: names paired with values, duplicates preserved,
/// per-name value order preserved.
#[derive(Debug, PartialEq, Eq)]
pub struct Headers {
    pub pairs: Vec<(String, String)>,
}

impl View for Headers {
    type V = Seq<(Seq<char>, Seq<char>)>;

    open spec fn view(&self) -> Seq<(Seq<char>, Seq<char>)> {
        self.pairs@.map_values(|p: (String, String)| (p.0@, p.1@))
    }
}

impl Headers {
    /// An empty header mapping.
    pub fn new() -> (h: Headers)
        ensures
            h@ == Seq::<(Seq<char>, Seq<char>)>::empty(),
            h.pairs@ == Seq::<(String, String)>::empty(),
    {
        let h = Headers { pairs: Vec::new() };
        proof {
            assert(h@ =~= Seq::<(Seq<char>, Seq<char>)>::empty());
        }
        h
    }

    /// Appends one name/value pair, keeping every earlier pair in place.
    pub fn push(&mut self, name: String, value: String)
        ensures
            final(self).pairs@ == old(self).pairs@.push((name, value)),
    {
        self.pairs.push((name, value));
    }
}

/// One atomic unit of a streaming body: a chunk of data, or the terminal
/// trailer set after which no data frame may follow.
#[derive(Debug, PartialEq, Eq)]
pub enum Frame {
    Data(Vec<u8>),
    Trailers(Headers),
}

/// A well-formed body: a finite frame sequence in which a trailer frame can
/// stand only in the last position.  A body with no trailer frame at all is
/// well formed too: it ends with an empty trailer set.
pub open spec fn wf_frames(s: Seq<Frame>) -> bool {
    forall|i: int| #![auto] 0 <= i < s.len() && s[i] is Trailers ==> i == s.len() - 1
}

} // verus!
