use hid_bridge::keys::{
    is_btn, key_to_modifier_bit, key_to_usb_code, translate_key, KeyTranslation, BTN_LEFT,
    BTN_MIDDLE, BTN_RIGHT, KEY_0, KEY_1, KEY_102ND, KEY_A, KEY_C, KEY_ENTER, KEY_ESC, KEY_F1,
    KEY_F12, KEY_F13, KEY_F24, KEY_KP1, KEY_KP7, KEY_LEFTALT, KEY_LEFTCTRL, KEY_LEFTMETA,
    KEY_LEFTSHIFT, KEY_NUMERIC_POUND, KEY_Q, KEY_RIGHTALT, KEY_RIGHTCTRL, KEY_RIGHTMETA,
    KEY_RIGHTSHIFT, KEY_SPACE, KEY_UP, KEY_Z, USAGE_MAX, USAGE_MIN,
};

#[test]
fn letter_a_has_usage_four() {
    assert_eq!(key_to_usb_code(KEY_A), Some(0x04));
}

#[test]
fn letters_follow_the_alphabet_not_the_key_rows() {
    assert_eq!(key_to_usb_code(KEY_C), Some(0x06));
    assert_eq!(key_to_usb_code(KEY_Q), Some(0x14));
    assert_eq!(key_to_usb_code(KEY_Z), Some(0x1D));
}

#[test]
fn digits_end_with_zero() {
    assert_eq!(key_to_usb_code(KEY_1), Some(0x1E));
    assert_eq!(key_to_usb_code(KEY_0), Some(0x27));
}

#[test]
fn control_and_navigation_keys() {
    assert_eq!(key_to_usb_code(KEY_ENTER), Some(0x28));
    assert_eq!(key_to_usb_code(KEY_ESC), Some(0x29));
    assert_eq!(key_to_usb_code(KEY_SPACE), Some(0x2C));
    assert_eq!(key_to_usb_code(KEY_UP), Some(0x52));
    assert_eq!(key_to_usb_code(KEY_NUMERIC_POUND), Some(0x32));
    assert_eq!(key_to_usb_code(KEY_102ND), Some(0x64));
}

#[test]
fn function_keys() {
    assert_eq!(key_to_usb_code(KEY_F1), Some(0x3A));
    assert_eq!(key_to_usb_code(KEY_F12), Some(0x45));
    assert_eq!(key_to_usb_code(KEY_F13), Some(0x68));
    assert_eq!(key_to_usb_code(KEY_F24), Some(0x73));
}

#[test]
fn keypad_digits() {
    assert_eq!(key_to_usb_code(KEY_KP1), Some(0x59));
    assert_eq!(key_to_usb_code(KEY_KP7), Some(0x5F));
}

#[test]
fn modifier_keys_have_their_bits() {
    assert_eq!(key_to_modifier_bit(KEY_LEFTCTRL), Some(0));
    assert_eq!(key_to_modifier_bit(KEY_LEFTSHIFT), Some(1));
    assert_eq!(key_to_modifier_bit(KEY_LEFTALT), Some(2));
    assert_eq!(key_to_modifier_bit(KEY_LEFTMETA), Some(3));
    assert_eq!(key_to_modifier_bit(KEY_RIGHTCTRL), Some(4));
    assert_eq!(key_to_modifier_bit(KEY_RIGHTSHIFT), Some(5));
    assert_eq!(key_to_modifier_bit(KEY_RIGHTALT), Some(6));
    assert_eq!(key_to_modifier_bit(KEY_RIGHTMETA), Some(7));
    assert_eq!(key_to_modifier_bit(KEY_A), None);
}

#[test]
fn modifier_keys_have_no_usage_code() {
    for key in 0..=u16::MAX {
        if key_to_modifier_bit(key).is_some() {
            assert_eq!(key_to_usb_code(key), None);
        }
    }
}

#[test]
fn translation_of_each_kind() {
    assert_eq!(translate_key(KEY_LEFTSHIFT), KeyTranslation::Modifier(1));
    assert_eq!(translate_key(KEY_A), KeyTranslation::Usage(0x04));
    assert_eq!(translate_key(0), KeyTranslation::Unknown);
    assert_eq!(translate_key(84), KeyTranslation::Unknown);
    assert_eq!(translate_key(BTN_LEFT), KeyTranslation::Unknown);
    assert_eq!(translate_key(u16::MAX), KeyTranslation::Unknown);
}

#[test]
fn usage_codes_are_distinct_and_in_range() {
    let mut seen = [false; 256];
    let mut count = 0;
    for key in 0..=u16::MAX {
        if let Some(code) = key_to_usb_code(key) {
            assert!(USAGE_MIN <= code && code <= USAGE_MAX);
            assert!(!seen[code as usize]);
            seen[code as usize] = true;
            count += 1;
        }
    }
    assert_eq!(count, 112);
    for code in USAGE_MIN..=USAGE_MAX {
        assert!(seen[code as usize]);
    }
}

#[test]
fn buttons_lie_in_their_ranges() {
    assert!(is_btn(BTN_LEFT));
    assert!(is_btn(BTN_RIGHT));
    assert!(is_btn(BTN_MIDDLE));
    assert!(is_btn(0x100));
    assert!(is_btn(0x15f));
    assert!(!is_btn(0x0ff));
    assert!(!is_btn(0x160));
    assert!(is_btn(0x220));
    assert!(is_btn(0x223));
    assert!(!is_btn(0x224));
    assert!(is_btn(0x2c0));
    assert!(is_btn(0x2e7));
    assert!(!is_btn(0x2e8));
    assert!(!is_btn(KEY_A));
}

#[test]
fn buttons_have_no_translation() {
    for key in 0..=u16::MAX {
        if is_btn(key) {
            assert_eq!(translate_key(key), KeyTranslation::Unknown);
        }
    }
}
