use hid_bridge::event::{InputEvent, REL_WHEEL, REL_X, REL_Y};
use hid_bridge::keys::{
    BTN_LEFT, BTN_MIDDLE, BTN_RIGHT, KEY_A, KEY_B, KEY_LEFTSHIFT,
};
use hid_bridge::report::MouseReport;
use hid_bridge::state::{
    button_bit, InputState, MouseState, BUTTON_LEFT, BUTTON_MIDDLE, BUTTON_RIGHT,
};

const BTN_SIDE: u16 = 0x113;
const REL_HWHEEL: u16 = 6;

#[test]
fn new_state_holds_nothing() {
    let state = InputState::new();
    assert!(state.keys().is_empty());
    assert_eq!(state.mouse(), MouseState { buttons: 0, x: 0, y: 0, wheel: 0 });
}

#[test]
fn button_bits() {
    assert_eq!(button_bit(BTN_LEFT), Some(0x01));
    assert_eq!(button_bit(BTN_RIGHT), Some(0x02));
    assert_eq!(button_bit(BTN_MIDDLE), Some(0x04));
    assert_eq!(button_bit(BTN_SIDE), None);
    assert_eq!(button_bit(KEY_A), None);
}

#[test]
fn key_press_and_release_update_the_key_set() {
    let mut state = InputState::new();
    state.apply(InputEvent::Key(KEY_A, 1));
    state.apply(InputEvent::Key(KEY_LEFTSHIFT, 1));
    assert_eq!(state.keys(), &[KEY_A, KEY_LEFTSHIFT]);
    state.apply(InputEvent::Key(KEY_A, 0));
    assert_eq!(state.keys(), &[KEY_LEFTSHIFT]);
}

#[test]
fn repeated_press_keeps_the_key_set() {
    let mut state = InputState::new();
    state.apply(InputEvent::Key(KEY_A, 1));
    state.apply(InputEvent::Key(KEY_A, 1));
    assert_eq!(state.keys(), &[KEY_A]);
}

#[test]
fn stray_release_is_ignored() {
    let mut state = InputState::new();
    state.apply(InputEvent::Key(KEY_A, 1));
    state.apply(InputEvent::Key(KEY_B, 0));
    assert_eq!(state.keys(), &[KEY_A]);
}

#[test]
fn autorepeat_is_ignored() {
    let mut state = InputState::new();
    state.apply(InputEvent::Key(KEY_A, 2));
    assert!(state.keys().is_empty());
    state.apply(InputEvent::Key(KEY_B, 1));
    state.apply(InputEvent::Key(KEY_B, 2));
    state.apply(InputEvent::Key(KEY_B, -1));
    assert_eq!(state.keys(), &[KEY_B]);
    state.apply(InputEvent::Key(BTN_LEFT, 2));
    assert_eq!(state.mouse().buttons, 0);
}

#[test]
fn buttons_set_and_clear_their_bits() {
    let mut state = InputState::new();
    state.apply(InputEvent::Key(BTN_LEFT, 1));
    assert_eq!(state.mouse().buttons, BUTTON_LEFT);
    state.apply(InputEvent::Key(BTN_MIDDLE, 1));
    assert_eq!(state.mouse().buttons, BUTTON_LEFT | BUTTON_MIDDLE);
    state.apply(InputEvent::Key(BTN_RIGHT, 1));
    assert_eq!(state.mouse().buttons, 0x07);
    state.apply(InputEvent::Key(BTN_LEFT, 0));
    assert_eq!(state.mouse().buttons, BUTTON_RIGHT | BUTTON_MIDDLE);
    state.apply(InputEvent::Key(BTN_LEFT, 0));
    assert_eq!(state.mouse().buttons, 0x06);
}

#[test]
fn buttons_do_not_touch_the_key_set() {
    let mut state = InputState::new();
    state.apply(InputEvent::Key(BTN_LEFT, 1));
    state.apply(InputEvent::Key(BTN_SIDE, 1));
    assert!(state.keys().is_empty());
    assert_eq!(state.mouse().buttons, BUTTON_LEFT);
}

#[test]
fn motion_overwrites_the_pending_delta() {
    let mut state = InputState::new();
    state.apply(InputEvent::Rel(REL_X, 5));
    state.apply(InputEvent::Rel(REL_Y, -3));
    state.apply(InputEvent::Rel(REL_X, 9));
    state.apply(InputEvent::Rel(REL_WHEEL, -1));
    state.apply(InputEvent::Rel(REL_X, 2));
    assert_eq!(state.mouse(), MouseState { buttons: 0, x: 2, y: -3, wheel: -1 });
}

#[test]
fn motion_is_clamped() {
    let mut state = InputState::new();
    state.apply(InputEvent::Rel(REL_X, 1000));
    state.apply(InputEvent::Rel(REL_Y, -1000));
    state.apply(InputEvent::Rel(REL_WHEEL, 128));
    assert_eq!(state.mouse(), MouseState { buttons: 0, x: 127, y: -128, wheel: 127 });
}

#[test]
fn unknown_axes_and_other_events_change_nothing() {
    let mut state = InputState::new();
    state.apply(InputEvent::Key(KEY_A, 1));
    state.apply(InputEvent::Rel(REL_X, 4));
    state.apply(InputEvent::Rel(REL_HWHEEL, 7));
    state.apply(InputEvent::Other);
    state.apply(InputEvent::Sync);
    assert_eq!(state.keys(), &[KEY_A]);
    assert_eq!(state.mouse(), MouseState { buttons: 0, x: 4, y: 0, wheel: 0 });
}

#[test]
fn flush_reports_and_resets_the_motion() {
    let mut state = InputState::new();
    state.apply(InputEvent::Key(KEY_A, 1));
    state.apply(InputEvent::Key(BTN_RIGHT, 1));
    state.apply(InputEvent::Rel(REL_X, 5));
    state.apply(InputEvent::Rel(REL_Y, -3));
    let (keyboard, mouse) = state.flush();
    assert_eq!(keyboard.modifier, 0);
    assert_eq!(keyboard.keycodes, [0x04, 0, 0, 0, 0, 0]);
    assert_eq!(mouse, MouseReport { buttons: 0x02, x: 5, y: -3, wheel: 0, pan: 0 });
    assert_eq!(state.keys(), &[KEY_A]);
    assert_eq!(state.mouse(), MouseState { buttons: 0x02, x: 0, y: 0, wheel: 0 });
}

#[test]
fn a_second_flush_reports_no_motion_but_the_same_buttons_and_keys() {
    let mut state = InputState::new();
    state.apply(InputEvent::Key(KEY_A, 1));
    state.apply(InputEvent::Key(BTN_LEFT, 1));
    state.apply(InputEvent::Rel(REL_WHEEL, 3));
    let first = state.flush();
    let second = state.flush();
    assert_eq!(first.1, MouseReport { buttons: 0x01, x: 0, y: 0, wheel: 3, pan: 0 });
    assert_eq!(second.1, MouseReport { buttons: 0x01, x: 0, y: 0, wheel: 0, pan: 0 });
    assert_eq!(first.0, second.0);
    assert_eq!(second.0.keycodes[0], 0x04);
}

#[test]
fn handle_reports_only_on_sync() {
    let mut state = InputState::new();
    assert_eq!(state.handle(InputEvent::Key(KEY_A, 1)), None);
    assert_eq!(state.handle(InputEvent::Rel(REL_X, 1)), None);
    assert_eq!(state.handle(InputEvent::Other), None);
    let reports = state.handle(InputEvent::Sync);
    let (keyboard, mouse) = reports.unwrap();
    assert_eq!(keyboard.keycodes, [0x04, 0, 0, 0, 0, 0]);
    assert_eq!(mouse, MouseReport { buttons: 0, x: 1, y: 0, wheel: 0, pan: 0 });
    assert_eq!(state.mouse().x, 0);
}
