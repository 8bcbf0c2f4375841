//! The input state machine: held keys, mouse buttons and pending pointer
//! motion, updated by events and frozen into reports at each
//! synchronization marker.

use crate::event::{
    clamp_delta, clamped, InputEvent, KEY_PRESSED, KEY_RELEASED, REL_WHEEL, REL_X, REL_Y,
};
use crate::keys::{is_btn, is_button, BTN_LEFT, BTN_MIDDLE, BTN_RIGHT};
use crate::keyset::{
    law_press_is_idempotent, law_release_of_absent_key, lemma_pressed, lemma_released, pressed,
    released, KeySet, KEY_SET_CAPACITY,
};
use crate::report::{
    build_keyboard_report, has_bit, holds_modifier, holds_usage, is_keyboard_report_of,
    law_report_shows_held_keys, usage_codes, KeyboardReport, MouseReport, KEYCODE_SLOTS, NO_KEY,
};
use vstd::prelude::*;

verus! {

/// Bit of the left button in the button byte.
pub const BUTTON_LEFT: u8 = 0x01;

/// Bit of the right button in the button byte.
pub const BUTTON_RIGHT: u8 = 0x02;

/// Bit of the middle button in the button byte.
pub const BUTTON_MIDDLE: u8 = 0x04;

/// The mouse buttons that are held and the pointer motion since the last
/// report.
#[derive(Clone, Copy, Debug, PartialEq, Eq, Structural)]
pub struct MouseState {
    pub buttons: u8,
    pub x: i8,
    pub y: i8,
    pub wheel: i8,
}

/// The input state as a mathematical value.
pub struct StateModel {
    /// The held keys, first pressed first.
    pub keys: Seq<u16>,
    /// Buttons and pending motion.
    pub mouse: MouseState,
}

/// The state in which nothing is held and nothing has moved.
pub open spec fn initial_state() -> StateModel {
    StateModel {
        keys: Seq::<u16>::empty(),
        mouse: MouseState { buttons: 0, x: 0, y: 0, wheel: 0 },
    }
}

/// The bit of a mouse button in the button byte, for the three buttons that a
/// mouse report knows.
pub open spec fn button_mask(key: u16) -> Option<u8> {
    if key == BTN_LEFT {
        Some(BUTTON_LEFT)
    } else if key == BTN_RIGHT {
        Some(BUTTON_RIGHT)
    } else if key == BTN_MIDDLE {
        Some(BUTTON_MIDDLE)
    } else {
        None
    }
}

/// The button byte after the button `key` reported `value`.
pub open spec fn buttons_after(buttons: u8, key: u16, value: i32) -> u8 {
    match button_mask(key) {
        Some(mask) => if value == KEY_PRESSED {
            buttons | mask
        } else if value == KEY_RELEASED {
            buttons & !mask
        } else {
            buttons
        },
        None => buttons,
    }
}

/// The held keys after the keyboard key `key` reported `value`.
pub open spec fn keys_after(keys: Seq<u16>, key: u16, value: i32) -> Seq<u16> {
    if value == KEY_PRESSED {
        pressed(keys, key)
    } else if value == KEY_RELEASED {
        released(keys, key)
    } else {
        keys
    }
}

/// The mouse state after the axis `axis` reported the delta `value`: the
/// clamped delta replaces what the axis held.
pub open spec fn mouse_after_motion(mouse: MouseState, axis: u16, value: i32) -> MouseState {
    if axis == REL_X {
        MouseState { x: clamped(value), ..mouse }
    } else if axis == REL_Y {
        MouseState { y: clamped(value), ..mouse }
    } else if axis == REL_WHEEL {
        MouseState { wheel: clamped(value), ..mouse }
    } else {
        mouse
    }
}

/// The state after `event` was applied. A synchronization marker changes
/// nothing here: what it does to the state is `after_flush`.
pub open spec fn after_event(state: StateModel, event: InputEvent) -> StateModel {
    match event {
        InputEvent::Key(key, value) => if is_button(key) {
            StateModel {
                mouse: MouseState {
                    buttons: buttons_after(state.mouse.buttons, key, value),
                    ..state.mouse
                },
                ..state
            }
        } else {
            StateModel { keys: keys_after(state.keys, key, value), ..state }
        },
        InputEvent::Rel(axis, value) => StateModel {
            mouse: mouse_after_motion(state.mouse, axis, value),
            ..state
        },
        InputEvent::Sync => state,
        InputEvent::Other => state,
    }
}

/// The state after its reports were taken: the pending motion is gone, the
/// held keys and buttons stay.
pub open spec fn after_flush(state: StateModel) -> StateModel {
    StateModel { mouse: MouseState { x: 0, y: 0, wheel: 0, ..state.mouse }, ..state }
}

/// The mouse report for `mouse`.
pub open spec fn mouse_report_of(mouse: MouseState) -> MouseReport {
    MouseReport { buttons: mouse.buttons, x: mouse.x, y: mouse.y, wheel: mouse.wheel, pan: 0 }
}

/// The state after `event` was handled: a synchronization marker flushes,
/// every other event is applied.
pub open spec fn after_handling(state: StateModel, event: InputEvent) -> StateModel {
    if event is Sync {
        after_flush(state)
    } else {
        after_event(state, event)
    }
}

/// Whether `reports` is what handling `event` in `state` gives out: both
/// reports of `state` for a synchronization marker, nothing otherwise.
pub open spec fn is_output_of(
    reports: Option<(KeyboardReport, MouseReport)>,
    state: StateModel,
    event: InputEvent,
) -> bool {
    if event is Sync {
        &&& reports matches Some(pair)
        &&& is_keyboard_report_of(pair.0, state.keys)
        &&& pair.1 == mouse_report_of(state.mouse)
    } else {
        reports is None
    }
}

/// Looks up the bit of a mouse button.
pub fn button_bit(key: u16) -> (mask: Option<u8>)
    ensures
        mask == button_mask(key),
{
    if key == BTN_LEFT {
        Some(BUTTON_LEFT)
    } else if key == BTN_RIGHT {
        Some(BUTTON_RIGHT)
    } else if key == BTN_MIDDLE {
        Some(BUTTON_MIDDLE)
    } else {
        None
    }
}

/// The held keys, the held mouse buttons and the pending pointer motion.
pub struct InputState {
    keys: KeySet,
    mouse: MouseState,
}

impl InputState {
    /// The state as a mathematical value.
    pub closed spec fn view(&self) -> StateModel {
        StateModel { keys: self.keys@, mouse: self.mouse }
    }

    /// The state in which nothing is held and nothing has moved.
    pub fn new() -> (state: Self)
        ensures
            state@ == initial_state(),
    {
        InputState { keys: KeySet::new(), mouse: MouseState { buttons: 0, x: 0, y: 0, wheel: 0 } }
    }

    /// The held keys, first pressed first.
    pub fn keys(&self) -> (keys: &[u16])
        ensures
            keys@ == self@.keys,
    {
        self.keys.as_slice()
    }

    /// The held buttons and the pending motion.
    pub fn mouse(&self) -> (mouse: MouseState)
        ensures
            mouse == self@.mouse,
    {
        self.mouse
    }

    /// Applies one event to the state.
    ///
    /// A button event sets or clears the button's bit, a key event adds the
    /// key to the held keys or takes it out, and an axis event overwrites the
    /// pending delta of its axis with the clamped value. Key values other
    /// than press and release, unknown buttons and axes, and all other events
    /// change nothing.
    pub fn apply(&mut self, event: InputEvent)
        ensures
            final(self)@ == after_event(old(self)@, event),
    {
        match event {
            InputEvent::Key(key, value) => {
                if is_btn(key) {
                    match button_bit(key) {
                        Some(mask) => {
                            if value == KEY_PRESSED {
                                self.mouse.buttons = self.mouse.buttons | mask;
                            } else if value == KEY_RELEASED {
                                self.mouse.buttons = self.mouse.buttons & !mask;
                            }
                        },
                        None => {},
                    }
                } else if value == KEY_PRESSED {
                    self.keys.press(key);
                } else if value == KEY_RELEASED {
                    self.keys.release(key);
                }
            },
            InputEvent::Rel(axis, value) => {
                let delta = clamp_delta(value);
                if axis == REL_X {
                    self.mouse.x = delta;
                } else if axis == REL_Y {
                    self.mouse.y = delta;
                } else if axis == REL_WHEEL {
                    self.mouse.wheel = delta;
                }
            },
            InputEvent::Sync => {},
            InputEvent::Other => {},
        }
    }

    /// Freezes the state into a keyboard report and a mouse report and resets
    /// the pending motion. Held keys and buttons stay as they are.
    pub fn flush(&mut self) -> (reports: (KeyboardReport, MouseReport))
        ensures
            is_keyboard_report_of(reports.0, old(self)@.keys),
            reports.1 == mouse_report_of(old(self)@.mouse),
            final(self)@ == after_flush(old(self)@),
            final(self)@.keys == old(self)@.keys,
            final(self)@.mouse.buttons == old(self)@.mouse.buttons,
            final(self)@.mouse.x == 0 && final(self)@.mouse.y == 0 && final(self)@.mouse.wheel
                == 0,
    {
        let keyboard = build_keyboard_report(self.keys.as_slice());
        let mouse = MouseReport {
            buttons: self.mouse.buttons,
            x: self.mouse.x,
            y: self.mouse.y,
            wheel: self.mouse.wheel,
            pan: 0,
        };
        self.mouse.x = 0;
        self.mouse.y = 0;
        self.mouse.wheel = 0;
        (keyboard, mouse)
    }

    /// Handles one event: a synchronization marker flushes the state and
    /// gives the two reports, every other event is applied and gives nothing.
    pub fn handle(&mut self, event: InputEvent) -> (reports: Option<(KeyboardReport, MouseReport)>)
        ensures
            final(self)@ == after_handling(old(self)@, event),
            is_output_of(reports, old(self)@, event),
            reports is Some <==> event is Sync,
    {
        match event {
            InputEvent::Sync => Some(self.flush()),
            _ => {
                self.apply(event);
                None
            },
        }
    }
}

/// The state after all of `events` were handled, in their order.
pub open spec fn after_events(state: StateModel, events: Seq<InputEvent>) -> StateModel
    decreases events.len(),
{
    if events.len() == 0 {
        state
    } else {
        after_handling(after_events(state, events.drop_last()), events.last())
    }
}

/// The pending delta of `axis`, for the three axes that a mouse report knows.
pub open spec fn delta_of(mouse: MouseState, axis: u16) -> i8 {
    if axis == REL_X {
        mouse.x
    } else if axis == REL_Y {
        mouse.y
    } else if axis == REL_WHEEL {
        mouse.wheel
    } else {
        0i8
    }
}

/// The value of the last event among `events` that moved `axis`.
pub open spec fn last_motion(events: Seq<InputEvent>, axis: u16) -> Option<i32>
    decreases events.len(),
{
    if events.len() == 0 {
        None
    } else {
        match events.last() {
            InputEvent::Rel(moved, value) => if moved == axis {
                Some(value)
            } else {
                last_motion(events.drop_last(), axis)
            },
            _ => last_motion(events.drop_last(), axis),
        }
    }
}

/// Whether the held keys are what a key set can hold: no key twice, and no
/// more keys than the capacity.
pub open spec fn keys_are_valid(keys: Seq<u16>) -> bool {
    keys.no_duplicates() && keys.len() <= KEY_SET_CAPACITY
}

/// No event makes the held keys invalid.
pub proof fn law_held_keys_stay_valid(state: StateModel, events: Seq<InputEvent>)
    requires
        keys_are_valid(state.keys),
    ensures
        keys_are_valid(after_events(state, events).keys),
    decreases events.len(),
{
    if events.len() > 0 {
        law_held_keys_stay_valid(state, events.drop_last());
        let before = after_events(state, events.drop_last());
        match events.last() {
            InputEvent::Key(key, value) => {
                lemma_pressed(before.keys, key);
                lemma_released(before.keys, key);
            },
            _ => {},
        }
    }
}

/// The value of the last press or release of `key` among `events`.
pub open spec fn last_key_action(events: Seq<InputEvent>, key: u16) -> Option<i32>
    decreases events.len(),
{
    if events.len() == 0 {
        None
    } else {
        match events.last() {
            InputEvent::Key(changed, value) => if changed == key && (value == KEY_PRESSED || value
                == KEY_RELEASED) {
                Some(value)
            } else {
                last_key_action(events.drop_last(), key)
            },
            _ => last_key_action(events.drop_last(), key),
        }
    }
}

/// Whether the key set has room left after each of the first events of
/// `events`, whatever their number.
pub open spec fn never_full(state: StateModel, events: Seq<InputEvent>) -> bool {
    forall|n: int|
        0 <= n <= events.len() ==> (#[trigger] after_events(state, events.take(n))).keys.len()
            < KEY_SET_CAPACITY
}

/// While the key set has room, a keyboard key is held exactly when its last
/// press or release among the events was a press, or, if there was none, when
/// it was held before.
pub proof fn law_last_key_action_wins(state: StateModel, events: Seq<InputEvent>, key: u16)
    requires
        keys_are_valid(state.keys),
        !is_button(key),
        never_full(state, events),
    ensures
        after_events(state, events).keys.contains(key) <==> match last_key_action(events, key) {
            Some(value) => value == KEY_PRESSED,
            None => state.keys.contains(key),
        },
    decreases events.len(),
{
    if events.len() > 0 {
        let front = events.drop_last();
        let before = after_events(state, front);
        assert(events.take(events.len() - 1) =~= front);
        assert(before.keys.len() < KEY_SET_CAPACITY);
        assert forall|n: int| 0 <= n <= front.len() implies (#[trigger] after_events(
            state,
            front.take(n),
        )).keys.len() < KEY_SET_CAPACITY by {
            assert(front.take(n) =~= events.take(n));
        }
        law_last_key_action_wins(state, front, key);
        law_held_keys_stay_valid(state, front);
        match events.last() {
            InputEvent::Key(changed, value) => {
                lemma_pressed(before.keys, changed);
                lemma_released(before.keys, changed);
            },
            _ => {},
        }
    }
}

/// A second press of a held key changes nothing, and neither does the release
/// of a key that is not held.
pub proof fn law_repeated_press_and_stray_release(state: StateModel, key: u16)
    requires
        !is_button(key),
    ensures
        after_event(
            after_event(state, InputEvent::Key(key, KEY_PRESSED)),
            InputEvent::Key(key, KEY_PRESSED),
        ) == after_event(state, InputEvent::Key(key, KEY_PRESSED)),
        state.keys.contains(key) ==> after_event(state, InputEvent::Key(key, KEY_PRESSED))
            == state,
        !state.keys.contains(key) ==> after_event(state, InputEvent::Key(key, KEY_RELEASED))
            == state,
{
    law_press_is_idempotent(state.keys, key);
    if !state.keys.contains(key) {
        law_release_of_absent_key(state.keys, key);
    }
}

/// Between two flushes the last motion of an axis wins: the pending delta of
/// the axis is the clamped value of the last event that moved it, or what it
/// was before if no event moved it.
pub proof fn law_last_motion_wins(state: StateModel, events: Seq<InputEvent>, axis: u16)
    requires
        axis == REL_X || axis == REL_Y || axis == REL_WHEEL,
        forall|i: int| 0 <= i < events.len() ==> !(events[i] is Sync),
    ensures
        delta_of(after_events(state, events).mouse, axis) == match last_motion(events, axis) {
            Some(value) => clamped(value),
            None => delta_of(state.mouse, axis),
        },
    decreases events.len(),
{
    if events.len() > 0 {
        let front = events.drop_last();
        assert forall|i: int| 0 <= i < front.len() implies !(front[i] is Sync) by {
            assert(front[i] == events[i]);
        }
        assert(!(events[events.len() - 1] is Sync));
        law_last_motion_wins(state, front, axis);
    }
}

/// A flush hands out the pending motion and resets it, and leaves the held
/// buttons and keys alone; a second flush right after it reports no motion.
pub proof fn law_flush_consumes_motion(state: StateModel)
    ensures
        mouse_report_of(state.mouse).x == state.mouse.x,
        mouse_report_of(state.mouse).y == state.mouse.y,
        mouse_report_of(state.mouse).wheel == state.mouse.wheel,
        mouse_report_of(state.mouse).buttons == state.mouse.buttons,
        mouse_report_of(state.mouse).pan == 0,
        after_flush(state).keys == state.keys,
        after_flush(state).mouse.buttons == state.mouse.buttons,
        mouse_report_of(after_flush(state).mouse) == (MouseReport {
            buttons: state.mouse.buttons,
            x: 0,
            y: 0,
            wheel: 0,
            pan: 0,
        }),
{
}

/// The delta that a mouse report carries for `axis`.
pub open spec fn report_delta(report: MouseReport, axis: u16) -> i8 {
    if axis == REL_X {
        report.x
    } else if axis == REL_Y {
        report.y
    } else if axis == REL_WHEEL {
        report.wheel
    } else {
        0i8
    }
}

/// The mouse report of a flush carries, for each axis, the clamped value of
/// the last event that moved the axis since the flush before, and zero if
/// none did.
pub proof fn law_report_carries_last_motion(
    state: StateModel,
    events: Seq<InputEvent>,
    axis: u16,
)
    requires
        axis == REL_X || axis == REL_Y || axis == REL_WHEEL,
        forall|i: int| 0 <= i < events.len() ==> !(events[i] is Sync),
    ensures
        report_delta(
            mouse_report_of(after_events(after_flush(state), events).mouse),
            axis,
        ) == match last_motion(events, axis) {
            Some(value) => clamped(value),
            None => 0i8,
        },
{
    law_last_motion_wins(after_flush(state), events, axis);
}

/// The keyboard report of a synchronization marker shows the keys that are
/// held after the events before it, whatever those events were.
///
/// Each bit of the modifier byte is set exactly when the modifier key of that
/// bit is held, and as long as no more than six held keys have a usage code,
/// a usage code stands in a slot exactly when a held key has it.
pub proof fn law_sync_report_shows_held_keys(
    start: StateModel,
    events: Seq<InputEvent>,
    keyboard: KeyboardReport,
    mouse: MouseReport,
)
    requires
        is_output_of(Some((keyboard, mouse)), after_events(start, events), InputEvent::Sync),
    ensures
        forall|bit: u8|
            bit < 8 ==> (#[trigger] has_bit(keyboard.modifier, bit) <==> holds_modifier(
                after_events(start, events).keys,
                bit,
            )),
        usage_codes(after_events(start, events).keys).len() <= KEYCODE_SLOTS ==> forall|code: u8|
            code != NO_KEY ==> (#[trigger] keyboard.keycodes@.contains(code) <==> holds_usage(
                after_events(start, events).keys,
                code,
            )),
        mouse == mouse_report_of(after_events(start, events).mouse),
{
    law_report_shows_held_keys(keyboard, after_events(start, events).keys);
}

} // verus!
