use hid_bridge::event::{InputEvent, RawEvent, REL_Y};
use hid_bridge::frame::{
    interpret, is_delimiter, DecodeError, FrameBuffer, FRAME_CAPACITY, FRAME_DELIMITER,
};
use hid_bridge::keys::{KEY_A, KEY_NUMERIC_POUND};

fn buffer_with(bytes: &[u8]) -> FrameBuffer {
    let mut buffer = FrameBuffer::new();
    for byte in bytes {
        buffer.push(*byte);
    }
    buffer
}

fn encoded(kind: u16, code: u16, value: i32) -> Vec<u8> {
    let mut frame = postcard::to_allocvec_cobs(&(kind, code, value)).unwrap();
    assert_eq!(frame.pop(), Some(FRAME_DELIMITER));
    frame
}

#[test]
fn only_zero_is_the_delimiter() {
    assert!(is_delimiter(0x00));
    assert!(!is_delimiter(0x01));
    assert!(!is_delimiter(0xff));
}

#[test]
fn new_buffer_is_empty() {
    let buffer = FrameBuffer::new();
    assert_eq!(buffer.len(), 0);
    assert!(buffer.as_slice().is_empty());
}

#[test]
fn pushed_bytes_are_kept_in_order() {
    let buffer = buffer_with(&[4, 1, 30, 2]);
    assert_eq!(buffer.len(), 4);
    assert_eq!(buffer.as_slice(), &[4, 1, 30, 2]);
}

#[test]
fn bytes_beyond_the_capacity_are_dropped() {
    let mut buffer = FrameBuffer::new();
    for i in 0..FRAME_CAPACITY {
        buffer.push(i as u8 + 1);
    }
    assert_eq!(buffer.len(), 64);
    buffer.push(0xaa);
    buffer.push(0xbb);
    assert_eq!(buffer.len(), 64);
    let expected: Vec<u8> = (1..=64u8).collect();
    assert_eq!(buffer.as_slice(), expected.as_slice());
}

#[test]
fn clear_forgets_the_bytes() {
    let mut buffer = buffer_with(&[1, 2, 3]);
    buffer.clear();
    assert_eq!(buffer.len(), 0);
    buffer.push(9);
    assert_eq!(buffer.as_slice(), &[9]);
}

#[test]
fn decode_key_press_from_literal_bytes() {
    let mut buffer = buffer_with(&[0x04, 0x01, 0x1e, 0x02]);
    assert_eq!(buffer.decode(), Ok(InputEvent::Key(KEY_A, 1)));
    assert_eq!(buffer.len(), 0);
}

#[test]
fn decode_sync_from_literal_bytes() {
    let mut buffer = buffer_with(&[0x01, 0x01, 0x01, 0x01]);
    assert_eq!(buffer.decode(), Ok(InputEvent::Sync));
}

#[test]
fn decode_what_postcard_encodes() {
    let mut buffer = buffer_with(&encoded(2, REL_Y, -3));
    assert_eq!(buffer.decode(), Ok(InputEvent::Rel(REL_Y, -3)));
    let mut buffer = buffer_with(&encoded(1, KEY_NUMERIC_POUND, 0));
    assert_eq!(buffer.decode(), Ok(InputEvent::Key(KEY_NUMERIC_POUND, 0)));
    let mut buffer = buffer_with(&encoded(2, 0, i32::MIN));
    assert_eq!(buffer.decode(), Ok(InputEvent::Rel(0, i32::MIN)));
    let mut buffer = buffer_with(&encoded(17, 3, 1));
    assert_eq!(buffer.decode(), Ok(InputEvent::Other));
}

#[test]
fn decode_does_not_hand_the_bytes_back() {
    let frame = encoded(1, KEY_A, 1);
    assert_eq!(frame, vec![0x04, 0x01, 0x1e, 0x02]);
    let mut buffer = buffer_with(&frame);
    assert_eq!(buffer.decode(), Ok(InputEvent::Key(30, 1)));
}

#[test]
fn broken_stuffing_is_reported() {
    let mut buffer = buffer_with(&[0x05, 0x01]);
    assert_eq!(buffer.decode(), Err(DecodeError::BadStuffing));
    assert_eq!(buffer.len(), 0);
}

#[test]
fn an_empty_frame_is_reported_as_broken_stuffing() {
    let mut buffer = FrameBuffer::new();
    assert_eq!(buffer.decode(), Err(DecodeError::BadStuffing));
    assert_eq!(buffer.len(), 0);
}

#[test]
fn a_short_payload_is_reported() {
    let mut buffer = buffer_with(&[0x03, 0x01, 0x1e]);
    assert_eq!(buffer.decode(), Err(DecodeError::BadPayload));
    assert_eq!(buffer.len(), 0);
}

#[test]
fn a_value_too_large_for_its_type_is_reported() {
    // The event type is a varint of three bytes that exceeds sixteen bits.
    let mut buffer = buffer_with(&[0x06, 0xff, 0xff, 0x7f, 0x01, 0x02]);
    assert_eq!(buffer.decode(), Err(DecodeError::BadPayload));
}

#[test]
fn the_buffer_is_usable_after_a_failure() {
    let mut buffer = buffer_with(&[0x09, 0x01]);
    assert!(buffer.decode().is_err());
    for byte in encoded(1, KEY_A, 0) {
        buffer.push(byte);
    }
    assert_eq!(buffer.decode(), Ok(InputEvent::Key(KEY_A, 0)));
}

#[test]
fn interpret_classifies_a_decoded_event() {
    let raw = RawEvent { kind: 1, code: KEY_A, value: 1 };
    assert_eq!(interpret(Ok(raw)), Ok(InputEvent::Key(KEY_A, 1)));
    let raw = RawEvent { kind: 0, code: 0, value: 0 };
    assert_eq!(interpret(Ok(raw)), Ok(InputEvent::Sync));
}

#[test]
fn interpret_passes_a_failure_on() {
    assert_eq!(interpret(Err(DecodeError::BadStuffing)), Err(DecodeError::BadStuffing));
    assert_eq!(interpret(Err(DecodeError::BadPayload)), Err(DecodeError::BadPayload));
}
