use hid_bridge::event::{
    clamp_delta, classify, InputEvent, RawEvent, EV_KEY, EV_REL, EV_SYN, REL_WHEEL, REL_X,
    SYN_REPORT,
};
use hid_bridge::keys::KEY_A;

#[test]
fn sync_report_is_the_marker() {
    let raw = RawEvent { kind: EV_SYN, code: SYN_REPORT, value: 0 };
    assert_eq!(classify(raw), InputEvent::Sync);
}

#[test]
fn other_sync_codes_are_ignored() {
    let raw = RawEvent { kind: EV_SYN, code: 3, value: 0 };
    assert_eq!(classify(raw), InputEvent::Other);
}

#[test]
fn key_events_keep_key_and_value() {
    let raw = RawEvent { kind: EV_KEY, code: KEY_A, value: 1 };
    assert_eq!(classify(raw), InputEvent::Key(KEY_A, 1));
    let raw = RawEvent { kind: EV_KEY, code: KEY_A, value: 2 };
    assert_eq!(classify(raw), InputEvent::Key(KEY_A, 2));
}

#[test]
fn axis_events_keep_axis_and_value() {
    let raw = RawEvent { kind: EV_REL, code: REL_WHEEL, value: -1 };
    assert_eq!(classify(raw), InputEvent::Rel(REL_WHEEL, -1));
    let raw = RawEvent { kind: EV_REL, code: REL_X, value: 100_000 };
    assert_eq!(classify(raw), InputEvent::Rel(REL_X, 100_000));
}

#[test]
fn unknown_event_types_are_other() {
    assert_eq!(classify(RawEvent { kind: 3, code: 0, value: 12 }), InputEvent::Other);
    assert_eq!(classify(RawEvent { kind: 4, code: 4, value: 30 }), InputEvent::Other);
    assert_eq!(classify(RawEvent { kind: u16::MAX, code: 0, value: 0 }), InputEvent::Other);
}

#[test]
fn deltas_within_a_byte_are_kept() {
    assert_eq!(clamp_delta(0), 0);
    assert_eq!(clamp_delta(5), 5);
    assert_eq!(clamp_delta(-3), -3);
    assert_eq!(clamp_delta(127), 127);
    assert_eq!(clamp_delta(-128), -128);
}

#[test]
fn deltas_beyond_a_byte_are_clamped() {
    assert_eq!(clamp_delta(128), 127);
    assert_eq!(clamp_delta(-129), -128);
    assert_eq!(clamp_delta(300), 127);
    assert_eq!(clamp_delta(i32::MAX), 127);
    assert_eq!(clamp_delta(i32::MIN), -128);
}
