//! Input events as the event source sends them.

use vstd::prelude::*;

verus! {

/// Event type of a synchronization event.
pub const EV_SYN: u16 = 0;

/// Event type of a key or button event.
pub const EV_KEY: u16 = 1;

/// Event type of a relative-axis event.
pub const EV_REL: u16 = 2;

/// Code of the synchronization event that closes one input state.
pub const SYN_REPORT: u16 = 0;

/// Horizontal pointer axis.
pub const REL_X: u16 = 0;

/// Vertical pointer axis.
pub const REL_Y: u16 = 1;

/// Scroll wheel axis.
pub const REL_WHEEL: u16 = 8;

/// Value of a key event that reports a release.
pub const KEY_RELEASED: i32 = 0;

/// Value of a key event that reports a press.
pub const KEY_PRESSED: i32 = 1;

/// An event as it stands on the wire: its type, its code and its value.
#[derive(Clone, Copy, Debug, PartialEq, Eq, Structural)]
pub struct RawEvent {
    pub kind: u16,
    pub code: u16,
    pub value: i32,
}

/// An event as the input state machine sees it.
#[derive(Clone, Copy, Debug, PartialEq, Eq, Structural)]
pub enum InputEvent {
    /// All changes so far form one input state: emit the reports.
    Sync,
    /// A key or button changed: its identifier and 0 for release, 1 for press.
    Key(u16, i32),
    /// The pointer moved along an axis: the axis identifier and the delta.
    Rel(u16, i32),
    /// Any other event; it has no effect.
    Other,
}

/// The event that a raw event stands for.
pub open spec fn event_of(raw: RawEvent) -> InputEvent {
    if raw.kind == EV_SYN && raw.code == SYN_REPORT {
        InputEvent::Sync
    } else if raw.kind == EV_KEY {
        InputEvent::Key(raw.code, raw.value)
    } else if raw.kind == EV_REL {
        InputEvent::Rel(raw.code, raw.value)
    } else {
        InputEvent::Other
    }
}

/// `value` limited to what a signed byte holds.
pub open spec fn clamped(value: i32) -> i8 {
    if value < -128 {
        -128i8
    } else if value > 127 {
        127i8
    } else {
        value as i8
    }
}

/// Sorts a raw event into the kinds that the input state machine knows.
pub fn classify(raw: RawEvent) -> (event: InputEvent)
    ensures
        event == event_of(raw),
{
    if raw.kind == EV_SYN && raw.code == SYN_REPORT {
        InputEvent::Sync
    } else if raw.kind == EV_KEY {
        InputEvent::Key(raw.code, raw.value)
    } else if raw.kind == EV_REL {
        InputEvent::Rel(raw.code, raw.value)
    } else {
        InputEvent::Other
    }
}

/// Limits an axis delta to the range of a signed byte.
pub fn clamp_delta(value: i32) -> (delta: i8)
    ensures
        delta == clamped(value),
        value < -128 ==> delta == -128,
        value > 127 ==> delta == 127,
        -128 <= value <= 127 ==> delta == value,
{
    if value < -128 {
        -128i8
    } else if value > 127 {
        127i8
    } else {
        value as i8
    }
}

} // verus!
