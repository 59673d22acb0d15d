use vstd::prelude::*;

use crate::channel::FrameChannel;
use crate::frame::ErrorCode;

verus! {

/// The handle to a streaming body: the consumer end of the frame channel the
/// body arrives on, consumable at most once.  Whoever owns the handle owns
/// the body; passing it to the next pipeline stage transfers that ownership.
pub struct BodyHandle {
    chan: Option<FrameChannel>,
}

impl BodyHandle {
    /// Whether the body is still there to be consumed.
    pub closed spec fn is_available(self) -> bool {
        self.chan is Some
    }

    /// The channel the body arrives on, while it is still available.
    pub closed spec fn channel(self) -> FrameChannel
        recommends
            self.is_available(),
    {
        self.chan->0
    }

    pub open spec fn wf(self) -> bool {
        self.is_available() ==> self.channel().wf()
    }

    /// Wraps the consumer end of a frame channel as a fresh, unconsumed body.
    pub fn new(chan: FrameChannel) -> (b: BodyHandle)
        ensures
            b.is_available(),
            b.channel() == chan,
    {
        BodyHandle { chan: Some(chan) }
    }

    /// Takes the body out of the handle.  The first consumption yields the
    /// frame channel; a second attempt fails with `ProtocolViolation` and
    /// never yields an empty or duplicate stream.
    pub fn consume(&mut self) -> (r: Result<FrameChannel, ErrorCode>)
        ensures
            old(self).is_available() ==> r == Ok::<FrameChannel, ErrorCode>(old(self).channel()),
            !old(self).is_available() ==> r == Err::<FrameChannel, ErrorCode>(
                ErrorCode::ProtocolViolation,
            ),
            !final(self).is_available(),
    {
        match self.chan.take() {
            Some(c) => Ok(c),
            None => Err(ErrorCode::ProtocolViolation),
        }
    }

    /// Two handles agree as values when both are spent, or when both still
    /// hold the same channel.
    pub proof fn lemma_handle_eq(a: BodyHandle, b: BodyHandle)
        requires
            a.is_available() == b.is_available(),
            a.is_available() ==> a.channel() == b.channel(),
        ensures
            a == b,
    {
    }
}

} // verus!
