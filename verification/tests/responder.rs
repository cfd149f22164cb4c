use blinkpoll::responder::{ReadEvent, Responder, ResponderState, WriteEvent, INBOUND_CAPACITY};
use blinkpoll::slot::{ReplySlot, REPLY_CAPACITY};
use blinkpoll::status::StatusCode;

#[test]
fn slot_starts_empty() {
    let slot = ReplySlot::new();
    assert!(slot.read().is_none());
}

#[test]
fn slot_returns_published_payload() {
    let mut slot = ReplySlot::new();
    let payload = vec![1u8, 2, 3, 4, 5];
    slot.publish(payload.as_slice());
    assert_eq!(slot.read(), Some(&payload));
}

#[test]
fn slot_holds_a_full_capacity_payload() {
    let mut slot = ReplySlot::new();
    let payload = vec![0xABu8; REPLY_CAPACITY];
    slot.publish(payload.as_slice());
    assert_eq!(slot.read(), Some(&payload));
}

#[test]
fn poll_with_payload_yields_exactly_one_write() {
    // A 13-byte sample payload: twelve bytes of sensor data and a newline.
    let mut payload = vec![0x11u8; 12];
    payload.push(b'\n');
    let mut slot = ReplySlot::new();
    slot.publish(payload.as_slice());

    let mut r = Responder::new();
    let w = r.on_frame(&ReadEvent::Data(b"poll".to_vec()), &slot);
    assert_eq!(w, Some(&payload));
    assert_eq!(r.state, ResponderState::AwaitingWriteResult);
    r.on_write_result(&WriteEvent::Accepted);
    assert_eq!(r.state, ResponderState::Idle);
}

#[test]
fn non_poll_frames_yield_no_write() {
    let mut slot = ReplySlot::new();
    slot.publish(b"A\n".as_slice());
    let mut r = Responder::new();

    let frames: Vec<Vec<u8>> = vec![
        b"pol".to_vec(),
        b"polll".to_vec(),
        b"poll\n".to_vec(),
        b"Poll".to_vec(),
        b"plop".to_vec(),
        Vec::new(),
        vec![0u8; INBOUND_CAPACITY],
    ];
    for frame in frames {
        let w = r.on_frame(&ReadEvent::Data(frame), &slot);
        assert!(w.is_none());
        assert_eq!(r.state, ResponderState::Idle);
    }
}

#[test]
fn poll_on_empty_slot_yields_no_write() {
    let slot = ReplySlot::new();
    let mut r = Responder::new();
    let w = r.on_frame(&ReadEvent::Data(b"poll".to_vec()), &slot);
    assert!(w.is_none());
    assert_eq!(r.state, ResponderState::Idle);
}

#[test]
fn second_publish_fully_replaces_first() {
    let mut slot = ReplySlot::new();
    let first = vec![1u8, 2, 3];
    let second = b"A\n".to_vec();
    slot.publish(first.as_slice());
    slot.publish(second.as_slice());

    let mut r = Responder::new();
    let w = r.on_frame(&ReadEvent::Data(b"poll".to_vec()), &slot);
    assert_eq!(w, Some(&second));
}

#[test]
fn would_block_on_read_is_transient() {
    let mut slot = ReplySlot::new();
    slot.publish(b"A\n".as_slice());
    let mut r = Responder::new();

    let w = r.on_frame(&ReadEvent::WouldBlock, &slot);
    assert!(w.is_none());
    assert_eq!(r.state, ResponderState::Idle);
    assert!(!r.is_halted());

    // The responder still services the next activation normally.
    let w = r.on_frame(&ReadEvent::Data(b"poll".to_vec()), &slot);
    assert!(w.is_some());
}

#[test]
fn would_block_on_write_drops_reply_without_halting() {
    let mut slot = ReplySlot::new();
    slot.publish(b"A\n".as_slice());
    let mut r = Responder::new();

    let w = r.on_frame(&ReadEvent::Data(b"poll".to_vec()), &slot);
    assert!(w.is_some());
    r.on_write_result(&WriteEvent::WouldBlock);
    assert_eq!(r.state, ResponderState::Idle);
    assert!(!r.is_halted());

    // The dropped reply is superseded by the next poll, which is serviced.
    let w = r.on_frame(&ReadEvent::Data(b"poll".to_vec()), &slot);
    assert_eq!(w, Some(&b"A\n".to_vec()));
}

#[test]
fn read_fault_halts_with_read_code() {
    let mut slot = ReplySlot::new();
    slot.publish(b"A\n".as_slice());
    let mut r = Responder::new();

    let w = r.on_frame(&ReadEvent::Fault, &slot);
    assert!(w.is_none());
    assert!(r.is_halted());
    assert_eq!(r.state, ResponderState::Halted(StatusCode::UsbReadError));
    assert_eq!(r.halted_code(), Some(StatusCode::UsbReadError));

    // No further responder activity: later polls are ignored.
    let w = r.on_frame(&ReadEvent::Data(b"poll".to_vec()), &slot);
    assert!(w.is_none());
    assert_eq!(r.state, ResponderState::Halted(StatusCode::UsbReadError));
}

#[test]
fn write_fault_halts_with_write_code() {
    let mut slot = ReplySlot::new();
    slot.publish(b"A\n".as_slice());
    let mut r = Responder::new();

    let w = r.on_frame(&ReadEvent::Data(b"poll".to_vec()), &slot);
    assert!(w.is_some());
    r.on_write_result(&WriteEvent::Fault);
    assert!(r.is_halted());
    assert_eq!(r.state, ResponderState::Halted(StatusCode::UsbWriteError));
    assert_eq!(r.halted_code(), Some(StatusCode::UsbWriteError));

    // No further responder activity after the fatal transition.
    let w = r.on_frame(&ReadEvent::Data(b"poll".to_vec()), &slot);
    assert!(w.is_none());
    assert_eq!(r.state, ResponderState::Halted(StatusCode::UsbWriteError));
}

#[test]
fn empty_read_is_discarded_quietly() {
    let mut slot = ReplySlot::new();
    slot.publish(b"A\n".as_slice());
    let mut r = Responder::new();
    let w = r.on_frame(&ReadEvent::Data(Vec::new()), &slot);
    assert!(w.is_none());
    assert_eq!(r.state, ResponderState::Idle);
}

#[test]
fn halted_responder_reports_no_code_before_fault() {
    let r = Responder::new();
    assert!(!r.is_halted());
    assert_eq!(r.halted_code(), None);
}
