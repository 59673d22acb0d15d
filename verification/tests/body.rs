use frame_pipeline::body::BodyHandle;
use frame_pipeline::channel::{FrameChannel, SendStep};
use frame_pipeline::frame::{ErrorCode, Frame};

#[test]
fn double_consume_is_violation() {
    let mut chan = FrameChannel::create(2);
    assert!(matches!(chan.send(Frame::Data(b"payload".to_vec())), SendStep::Sent));
    let mut body = BodyHandle::new(chan);
    // The first consumption yields the real stream, not an empty one.
    let mut taken = match body.consume() {
        Ok(c) => c,
        Err(_) => panic!("the first consumption must succeed"),
    };
    assert!(matches!(
        taken.receive(),
        frame_pipeline::channel::RecvStep::Got(Frame::Data(_))
    ));
    // The second consumption fails loudly instead of handing out a
    // duplicate or empty stream.
    match body.consume() {
        Err(code) => assert_eq!(code, ErrorCode::ProtocolViolation),
        Ok(_) => panic!("a body handle must not be consumable twice"),
    }
}
