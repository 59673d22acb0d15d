use vstd::prelude::*;

use crate::frame::{ErrorCode, Frame, wf_frames};

verus! {

/// A bounded, ordered conduit carrying body frames between a producer and a
/// consumer.  One value holds both ends of the conduit: the producer end is
/// the family of methods `send` and `close_producer`, the consumer end the
/// family `receive` and `close_consumer`.  Whoever owns the value owns
/// whichever end it has not given up; ownership transfers, never duplicates.
///
/// Frames leave in the order they entered.  Once the capacity is reached a
/// further `send` suspends the producer (`SendStep::Suspended`) rather than
/// dropping the frame or failing: the bounded buffer is the flow control.
/// The conduit counts as closed for the consumer once the producer end is
/// closed or the terminal trailer frame has been sent; reading past closure
/// yields `RecvStep::End`, never an error.
pub struct FrameChannel {
    queue: Vec<Frame>,
    capacity: usize,
    producer_open: bool,
    consumer_open: bool,
    trailed: bool,
}

/// What one attempt of the producer to hand over a frame came to.  A refused
/// or suspended frame travels back to the caller: the conduit never drops it.
pub enum SendStep {
    /// The frame was enqueued.
    Sent,
    /// The conduit is full; the producer must wait for the consumer.
    Suspended(Frame),
    /// The conduit refuses the frame for good, with the reason.
    Refused(Frame, ErrorCode),
}

/// What one attempt of the consumer to take a frame came to.
pub enum RecvStep {
    /// The oldest queued frame.
    Got(Frame),
    /// Nothing queued yet, but the producer may still deliver.
    Suspended,
    /// Clean end of body: nothing queued and nothing can arrive any more.
    End,
}

impl FrameChannel {
    /// The frames currently queued, oldest first.
    pub closed spec fn frames(self) -> Seq<Frame> {
        self.queue@
    }

    pub closed spec fn capacity(self) -> int {
        self.capacity as int
    }

    pub closed spec fn producer_open(self) -> bool {
        self.producer_open
    }

    pub closed spec fn consumer_open(self) -> bool {
        self.consumer_open
    }

    /// Whether the terminal trailer frame has been accepted; after it, no
    /// further frame may enter.
    pub closed spec fn trailed(self) -> bool {
        self.trailed
    }

    pub open spec fn wf(self) -> bool {
        self.frames().len() <= self.capacity() && self.capacity() >= 1
    }

    /// A conduit the consumer side still has to drain or wait on.
    pub open spec fn may_deliver(self) -> bool {
        self.producer_open() && !self.trailed()
    }

    /// Makes a fresh conduit of the given capacity, both ends open.
    pub fn create(capacity: usize) -> (c: FrameChannel)
        requires
            capacity >= 1,
        ensures
            c.wf(),
            c.frames() == Seq::<Frame>::empty(),
            c.capacity() == capacity,
            c.producer_open(),
            c.consumer_open(),
            !c.trailed(),
    {
        FrameChannel {
            queue: Vec::new(),
            capacity,
            producer_open: true,
            consumer_open: true,
            trailed: false,
        }
    }

    /// The producer hands over one frame.
    ///
    /// A frame is accepted only while both ends are open, no trailer frame
    /// has been sent yet, and there is room; the accepted frame joins the end
    /// of the queue.  On a full conduit the producer is suspended and nothing
    /// changes.  After the consumer end is gone the refusal carries
    /// `TransportClosed` (broken pipe); a frame after the terminal trailer
    /// frame, or after the producer end was closed, is a `ProtocolViolation`.
    pub fn send(&mut self, frame: Frame) -> (r: SendStep)
        requires
            old(self).wf(),
        ensures
            final(self).wf(),
            final(self).capacity() == old(self).capacity(),
            !old(self).consumer_open() ==> r == SendStep::Refused(frame, ErrorCode::TransportClosed)
                && *final(self) == *old(self),
            old(self).consumer_open() && (old(self).trailed() || !old(self).producer_open())
                ==> r == SendStep::Refused(frame, ErrorCode::ProtocolViolation)
                && *final(self) == *old(self),
            old(self).consumer_open() && old(self).producer_open() && !old(self).trailed()
                && old(self).frames().len() == old(self).capacity()
                ==> r == SendStep::Suspended(frame) && *final(self) == *old(self),
            old(self).consumer_open() && old(self).producer_open() && !old(self).trailed()
                && old(self).frames().len() < old(self).capacity()
                ==> r == SendStep::Sent
                && final(self).frames() == old(self).frames().push(frame)
                && final(self).producer_open()
                && final(self).consumer_open()
                && final(self).trailed() == (frame is Trailers),
    {
        if !self.consumer_open {
            SendStep::Refused(frame, ErrorCode::TransportClosed)
        } else if self.trailed || !self.producer_open {
            SendStep::Refused(frame, ErrorCode::ProtocolViolation)
        } else if self.queue.len() == self.capacity {
            SendStep::Suspended(frame)
        } else {
            self.trailed = matches!(frame, Frame::Trailers(_));
            self.queue.push(frame);
            SendStep::Sent
        }
    }

    /// The consumer takes one frame.
    ///
    /// The oldest queued frame comes out first, also after closure: buffered
    /// frames are drained before the end of the body is reported.  On an
    /// empty queue the consumer is suspended while the producer end is open
    /// and no trailer frame has arrived; otherwise the body has cleanly
    /// ended.
    pub fn receive(&mut self) -> (r: RecvStep)
        requires
            old(self).wf(),
        ensures
            final(self).wf(),
            final(self).capacity() == old(self).capacity(),
            final(self).producer_open() == old(self).producer_open(),
            final(self).consumer_open() == old(self).consumer_open(),
            final(self).trailed() == old(self).trailed(),
            old(self).frames().len() > 0 ==> r == RecvStep::Got(old(self).frames()[0])
                && final(self).frames() == old(self).frames().drop_first(),
            old(self).frames().len() == 0 && old(self).may_deliver()
                ==> r == RecvStep::Suspended && *final(self) == *old(self),
            old(self).frames().len() == 0 && !old(self).may_deliver()
                ==> r == RecvStep::End && *final(self) == *old(self),
    {
        if self.queue.len() > 0 {
            let f = self.queue.remove(0);
            RecvStep::Got(f)
        } else if self.producer_open && !self.trailed {
            RecvStep::Suspended
        } else {
            RecvStep::End
        }
    }

    /// The producer signals closure; with the last frame already sent this
    /// lets the consumer observe a clean end of body.
    pub fn close_producer(&mut self)
        requires
            old(self).wf(),
        ensures
            final(self).wf(),
            !final(self).producer_open(),
            final(self).frames() == old(self).frames(),
            final(self).capacity() == old(self).capacity(),
            final(self).consumer_open() == old(self).consumer_open(),
            final(self).trailed() == old(self).trailed(),
    {
        self.producer_open = false;
    }

    /// The consumer end goes away; every later `send` fails as a broken
    /// pipe, which is the sole cancellation primitive of this layer.
    pub fn close_consumer(&mut self)
        requires
            old(self).wf(),
        ensures
            final(self).wf(),
            !final(self).consumer_open(),
            final(self).frames() == old(self).frames(),
            final(self).capacity() == old(self).capacity(),
            final(self).producer_open() == old(self).producer_open(),
            final(self).trailed() == old(self).trailed(),
    {
        self.consumer_open = false;
    }
}

/// Drives a whole well-formed body through a conduit: the producer side
/// pumps the frames in order and then signals closure, the consumer side
/// drains into `out`, the two sides alternating as one cooperative exchange.
/// A suspended side simply yields to the other; no frame is dropped,
/// reordered or duplicated.
pub fn transfer(chan: &mut FrameChannel, frames: Vec<Frame>, out: &mut Vec<Frame>)
    requires
        old(chan).wf(),
        old(chan).producer_open(),
        old(chan).consumer_open(),
        !old(chan).trailed(),
        old(chan).frames().len() == 0,
        wf_frames(frames@),
    ensures
        final(out)@ == old(out)@ + frames@,
        final(chan).wf(),
        final(chan).frames().len() == 0,
        !final(chan).producer_open(),
{
    let ghost all = frames@;
    let ghost base = out@;
    let mut frames = frames;
    let mut pump_done: bool = false;
    let mut drain_done: bool = false;
    while !(pump_done && drain_done)
        invariant
            chan.wf(),
            chan.consumer_open(),
            wf_frames(all),
            frames@.len() <= all.len(),
            frames@ == all.skip(all.len() - frames@.len()),
            base.len() <= out@.len(),
            out@.len() - base.len() <= all.len() - frames@.len(),
            out@ == base + all.take(out@.len() - base.len()),
            chan.frames() == all.subrange(out@.len() - base.len(), all.len() - frames@.len()),
            chan.producer_open() == !pump_done,
            chan.trailed() == (frames@.len() == 0 && all.len() > 0 && all.last() is Trailers),
            pump_done ==> frames@.len() == 0,
            drain_done ==> out@.len() - base.len() == all.len(),
        decreases
            frames@.len() * 2 + chan.frames().len()
                + (if pump_done { 0int } else { 2 })
                + (if drain_done { 0int } else { 1 }),
    {
        let ghost sent = all.len() - frames@.len();
        let ghost recvd = out@.len() - base.len();
        if !pump_done {
            if frames.len() > 0 {
                let f = frames.remove(0);
                match chan.send(f) {
                    SendStep::Sent => {
                        proof {
                            assert(frames@ =~= all.skip(all.len() - frames@.len()));
                            assert(chan.frames() =~= all.subrange(recvd, sent + 1));
                            if chan.trailed() {
                                assert(all[sent] is Trailers);
                                assert(sent == all.len() - 1);
                            }
                            if frames@.len() == 0 && all.len() > 0 && all.last() is Trailers {
                                assert(sent == all.len() - 1);
                                assert(all[sent] is Trailers);
                            }
                        }
                    },
                    SendStep::Suspended(fb) => {
                        frames.insert(0, fb);
                        proof {
                            assert(frames@ =~= all.skip(all.len() - frames@.len()));
                        }
                    },
                    SendStep::Refused(fb, _) => {
                        proof {
                            assert(false);
                        }
                        frames.insert(0, fb);
                    },
                }
            } else {
                chan.close_producer();
                pump_done = true;
            }
        }
        if !drain_done {
            match chan.receive() {
                RecvStep::Got(f) => {
                    out.push(f);
                    proof {
                        let recvd2 = out@.len() - base.len();
                        assert(out@ =~= base + all.take(recvd2));
                        assert(chan.frames() =~= all.subrange(recvd2, all.len() - frames@.len()));
                    }
                },
                RecvStep::Suspended => {
                },
                RecvStep::End => {
                    drain_done = true;
                },
            }
        }
    }
    proof {
        assert(all.take(all.len() as int) =~= all);
        assert(out@ =~= base + all);
    }
}

/// Order-preservation law: draining a well-formed body through a fresh frame
/// channel of any capacity and collecting the frames in receipt order
/// reproduces the body's original frame sequence exactly.
pub fn channel_round_trip(frames: Vec<Frame>, capacity: usize) -> (out: Vec<Frame>)
    requires
        capacity >= 1,
        wf_frames(frames@),
    ensures
        out@ == frames@,
{
    let mut chan = FrameChannel::create(capacity);
    let mut out: Vec<Frame> = Vec::new();
    transfer(&mut chan, frames, &mut out);
    out
}

} // verus!
