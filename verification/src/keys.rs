//! Evdev-style key identifiers and their translation into USB HID terms.
//!
//! A key identifier is the 16-bit code that the event source uses for a key or
//! a button. The translator maps it to one of the eight modifier bits of a
//! keyboard report, to a usage code of the HID keyboard page, or to nothing.

use vstd::prelude::*;

verus! {

pub const KEY_ESC: u16 = 1;

pub const KEY_1: u16 = 2;

pub const KEY_2: u16 = 3;

pub const KEY_3: u16 = 4;

pub const KEY_4: u16 = 5;

pub const KEY_5: u16 = 6;

pub const KEY_6: u16 = 7;

pub const KEY_7: u16 = 8;

pub const KEY_8: u16 = 9;

pub const KEY_9: u16 = 10;

pub const KEY_0: u16 = 11;

pub const KEY_MINUS: u16 = 12;

pub const KEY_EQUAL: u16 = 13;

pub const KEY_BACKSPACE: u16 = 14;

pub const KEY_TAB: u16 = 15;

pub const KEY_Q: u16 = 16;

pub const KEY_W: u16 = 17;

pub const KEY_E: u16 = 18;

pub const KEY_R: u16 = 19;

pub const KEY_T: u16 = 20;

pub const KEY_Y: u16 = 21;

pub const KEY_U: u16 = 22;

pub const KEY_I: u16 = 23;

pub const KEY_O: u16 = 24;

pub const KEY_P: u16 = 25;

pub const KEY_LEFTBRACE: u16 = 26;

pub const KEY_RIGHTBRACE: u16 = 27;

pub const KEY_ENTER: u16 = 28;

pub const KEY_LEFTCTRL: u16 = 29;

pub const KEY_A: u16 = 30;

pub const KEY_S: u16 = 31;

pub const KEY_D: u16 = 32;

pub const KEY_F: u16 = 33;

pub const KEY_G: u16 = 34;

pub const KEY_H: u16 = 35;

pub const KEY_J: u16 = 36;

pub const KEY_K: u16 = 37;

pub const KEY_L: u16 = 38;

pub const KEY_SEMICOLON: u16 = 39;

pub const KEY_APOSTROPHE: u16 = 40;

pub const KEY_GRAVE: u16 = 41;

pub const KEY_LEFTSHIFT: u16 = 42;

pub const KEY_BACKSLASH: u16 = 43;

pub const KEY_Z: u16 = 44;

pub const KEY_X: u16 = 45;

pub const KEY_C: u16 = 46;

pub const KEY_V: u16 = 47;

pub const KEY_B: u16 = 48;

pub const KEY_N: u16 = 49;

pub const KEY_M: u16 = 50;

pub const KEY_COMMA: u16 = 51;

pub const KEY_DOT: u16 = 52;

pub const KEY_SLASH: u16 = 53;

pub const KEY_RIGHTSHIFT: u16 = 54;

pub const KEY_KPASTERISK: u16 = 55;

pub const KEY_LEFTALT: u16 = 56;

pub const KEY_SPACE: u16 = 57;

pub const KEY_CAPSLOCK: u16 = 58;

pub const KEY_F1: u16 = 59;

pub const KEY_F2: u16 = 60;

pub const KEY_F3: u16 = 61;

pub const KEY_F4: u16 = 62;

pub const KEY_F5: u16 = 63;

pub const KEY_F6: u16 = 64;

pub const KEY_F7: u16 = 65;

pub const KEY_F8: u16 = 66;

pub const KEY_F9: u16 = 67;

pub const KEY_F10: u16 = 68;

pub const KEY_NUMLOCK: u16 = 69;

pub const KEY_SCROLLLOCK: u16 = 70;

pub const KEY_KP7: u16 = 71;

pub const KEY_KP8: u16 = 72;

pub const KEY_KP9: u16 = 73;

pub const KEY_KPMINUS: u16 = 74;

pub const KEY_KP4: u16 = 75;

pub const KEY_KP5: u16 = 76;

pub const KEY_KP6: u16 = 77;

pub const KEY_KPPLUS: u16 = 78;

pub const KEY_KP1: u16 = 79;

pub const KEY_KP2: u16 = 80;

pub const KEY_KP3: u16 = 81;

pub const KEY_KP0: u16 = 82;

pub const KEY_KPDOT: u16 = 83;

pub const KEY_102ND: u16 = 86;

pub const KEY_F11: u16 = 87;

pub const KEY_F12: u16 = 88;

pub const KEY_KPENTER: u16 = 96;

pub const KEY_RIGHTCTRL: u16 = 97;

pub const KEY_KPSLASH: u16 = 98;

pub const KEY_SYSRQ: u16 = 99;

pub const KEY_RIGHTALT: u16 = 100;

pub const KEY_HOME: u16 = 102;

pub const KEY_UP: u16 = 103;

pub const KEY_PAGEUP: u16 = 104;

pub const KEY_LEFT: u16 = 105;

pub const KEY_RIGHT: u16 = 106;

pub const KEY_END: u16 = 107;

pub const KEY_DOWN: u16 = 108;

pub const KEY_PAGEDOWN: u16 = 109;

pub const KEY_INSERT: u16 = 110;

pub const KEY_DELETE: u16 = 111;

pub const KEY_POWER: u16 = 116;

pub const KEY_KPEQUAL: u16 = 117;

pub const KEY_PAUSE: u16 = 119;

pub const KEY_LEFTMETA: u16 = 125;

pub const KEY_RIGHTMETA: u16 = 126;

pub const KEY_COMPOSE: u16 = 127;

pub const KEY_F13: u16 = 183;

pub const KEY_F14: u16 = 184;

pub const KEY_F15: u16 = 185;

pub const KEY_F16: u16 = 186;

pub const KEY_F17: u16 = 187;

pub const KEY_F18: u16 = 188;

pub const KEY_F19: u16 = 189;

pub const KEY_F20: u16 = 190;

pub const KEY_F21: u16 = 191;

pub const KEY_F22: u16 = 192;

pub const KEY_F23: u16 = 193;

pub const KEY_F24: u16 = 194;

pub const KEY_NUMERIC_POUND: u16 = 523;

/// First code of the range that the event source reserves for buttons.
pub const BTN_MISC: u16 = 0x100;

pub const BTN_LEFT: u16 = 0x110;

pub const BTN_RIGHT: u16 = 0x111;

pub const BTN_MIDDLE: u16 = 0x112;

/// First code after the main button range.
pub const KEY_OK: u16 = 0x160;

pub const BTN_DPAD_UP: u16 = 0x220;

pub const BTN_DPAD_RIGHT: u16 = 0x223;

pub const BTN_TRIGGER_HAPPY: u16 = 0x2c0;

pub const BTN_TRIGGER_HAPPY40: u16 = 0x2e7;

/// Lowest usage code that the translator hands out.
pub const USAGE_MIN: u8 = 0x04;

/// Highest usage code that the translator hands out.
pub const USAGE_MAX: u8 = 0x73;

/// What a key identifier means to a USB host.
#[derive(Clone, Copy, Debug, PartialEq, Eq, Structural)]
pub enum KeyTranslation {
    /// One of the eight modifier keys, by its bit position in the modifier byte.
    Modifier(u8),
    /// A key with a usage code of the HID keyboard page.
    Usage(u8),
    /// A key that a keyboard report cannot express.
    Unknown,
}

/// Whether `key` lies in one of the code ranges reserved for buttons.
pub open spec fn is_button(key: u16) -> bool {
    ||| BTN_MISC <= key < KEY_OK
    ||| BTN_DPAD_UP <= key <= BTN_DPAD_RIGHT
    ||| BTN_TRIGGER_HAPPY <= key <= BTN_TRIGGER_HAPPY40
}

/// The bit position of a modifier key in the modifier byte of a keyboard report.
pub open spec fn modifier_bit(key: u16) -> Option<u8> {
    match key {
        KEY_LEFTCTRL => Some(0u8),
        KEY_LEFTSHIFT => Some(1u8),
        KEY_LEFTALT => Some(2u8),
        KEY_LEFTMETA => Some(3u8),
        KEY_RIGHTCTRL => Some(4u8),
        KEY_RIGHTSHIFT => Some(5u8),
        KEY_RIGHTALT => Some(6u8),
        KEY_RIGHTMETA => Some(7u8),
        _ => None,
    }
}

/// The modifier byte with only the bit of `key` set, or zero for a key that is
/// no modifier.
pub open spec fn modifier_mask(key: u16) -> u8 {
    match modifier_bit(key) {
        Some(bit) => 1u8 << bit,
        None => 0u8,
    }
}

/// The usage code of a non-modifier key on the HID keyboard page.
pub open spec fn usage_code(key: u16) -> Option<u8> {
    match key {
        KEY_A => Some(0x04u8),
        KEY_B => Some(0x05u8),
        KEY_C => Some(0x06u8),
        KEY_D => Some(0x07u8),
        KEY_E => Some(0x08u8),
        KEY_F => Some(0x09u8),
        KEY_G => Some(0x0Au8),
        KEY_H => Some(0x0Bu8),
        KEY_I => Some(0x0Cu8),
        KEY_J => Some(0x0Du8),
        KEY_K => Some(0x0Eu8),
        KEY_L => Some(0x0Fu8),
        KEY_M => Some(0x10u8),
        KEY_N => Some(0x11u8),
        KEY_O => Some(0x12u8),
        KEY_P => Some(0x13u8),
        KEY_Q => Some(0x14u8),
        KEY_R => Some(0x15u8),
        KEY_S => Some(0x16u8),
        KEY_T => Some(0x17u8),
        KEY_U => Some(0x18u8),
        KEY_V => Some(0x19u8),
        KEY_W => Some(0x1Au8),
        KEY_X => Some(0x1Bu8),
        KEY_Y => Some(0x1Cu8),
        KEY_Z => Some(0x1Du8),
        KEY_1 => Some(0x1Eu8),
        KEY_2 => Some(0x1Fu8),
        KEY_3 => Some(0x20u8),
        KEY_4 => Some(0x21u8),
        KEY_5 => Some(0x22u8),
        KEY_6 => Some(0x23u8),
        KEY_7 => Some(0x24u8),
        KEY_8 => Some(0x25u8),
        KEY_9 => Some(0x26u8),
        KEY_0 => Some(0x27u8),
        KEY_ENTER => Some(0x28u8),
        KEY_ESC => Some(0x29u8),
        KEY_BACKSPACE => Some(0x2Au8),
        KEY_TAB => Some(0x2Bu8),
        KEY_SPACE => Some(0x2Cu8),
        KEY_MINUS => Some(0x2Du8),
        KEY_EQUAL => Some(0x2Eu8),
        KEY_LEFTBRACE => Some(0x2Fu8),
        KEY_RIGHTBRACE => Some(0x30u8),
        KEY_BACKSLASH => Some(0x31u8),
        KEY_NUMERIC_POUND => Some(0x32u8),
        KEY_SEMICOLON => Some(0x33u8),
        KEY_APOSTROPHE => Some(0x34u8),
        KEY_GRAVE => Some(0x35u8),
        KEY_COMMA => Some(0x36u8),
        KEY_DOT => Some(0x37u8),
        KEY_SLASH => Some(0x38u8),
        KEY_CAPSLOCK => Some(0x39u8),
        KEY_F1 => Some(0x3Au8),
        KEY_F2 => Some(0x3Bu8),
        KEY_F3 => Some(0x3Cu8),
        KEY_F4 => Some(0x3Du8),
        KEY_F5 => Some(0x3Eu8),
        KEY_F6 => Some(0x3Fu8),
        KEY_F7 => Some(0x40u8),
        KEY_F8 => Some(0x41u8),
        KEY_F9 => Some(0x42u8),
        KEY_F10 => Some(0x43u8),
        KEY_F11 => Some(0x44u8),
        KEY_F12 => Some(0x45u8),
        KEY_SYSRQ => Some(0x46u8),
        KEY_SCROLLLOCK => Some(0x47u8),
        KEY_PAUSE => Some(0x48u8),
        KEY_INSERT => Some(0x49u8),
        KEY_HOME => Some(0x4Au8),
        KEY_PAGEUP => Some(0x4Bu8),
        KEY_DELETE => Some(0x4Cu8),
        KEY_END => Some(0x4Du8),
        KEY_PAGEDOWN => Some(0x4Eu8),
        KEY_RIGHT => Some(0x4Fu8),
        KEY_LEFT => Some(0x50u8),
        KEY_DOWN => Some(0x51u8),
        KEY_UP => Some(0x52u8),
        KEY_NUMLOCK => Some(0x53u8),
        KEY_KPSLASH => Some(0x54u8),
        KEY_KPASTERISK => Some(0x55u8),
        KEY_KPMINUS => Some(0x56u8),
        KEY_KPPLUS => Some(0x57u8),
        KEY_KPENTER => Some(0x58u8),
        KEY_KP1 => Some(0x59u8),
        KEY_KP2 => Some(0x5Au8),
        KEY_KP3 => Some(0x5Bu8),
        KEY_KP4 => Some(0x5Cu8),
        KEY_KP5 => Some(0x5Du8),
        KEY_KP6 => Some(0x5Eu8),
        KEY_KP7 => Some(0x5Fu8),
        KEY_KP8 => Some(0x60u8),
        KEY_KP9 => Some(0x61u8),
        KEY_KP0 => Some(0x62u8),
        KEY_KPDOT => Some(0x63u8),
        KEY_102ND => Some(0x64u8),
        KEY_COMPOSE => Some(0x65u8),
        KEY_POWER => Some(0x66u8),
        KEY_KPEQUAL => Some(0x67u8),
        KEY_F13 => Some(0x68u8),
        KEY_F14 => Some(0x69u8),
        KEY_F15 => Some(0x6Au8),
        KEY_F16 => Some(0x6Bu8),
        KEY_F17 => Some(0x6Cu8),
        KEY_F18 => Some(0x6Du8),
        KEY_F19 => Some(0x6Eu8),
        KEY_F20 => Some(0x6Fu8),
        KEY_F21 => Some(0x70u8),
        KEY_F22 => Some(0x71u8),
        KEY_F23 => Some(0x72u8),
        KEY_F24 => Some(0x73u8),
        _ => None,
    }
}

/// The translation of `key`: a modifier bit, a usage code, or nothing.
pub open spec fn translation(key: u16) -> KeyTranslation {
    match modifier_bit(key) {
        Some(bit) => KeyTranslation::Modifier(bit),
        None => match usage_code(key) {
            Some(code) => KeyTranslation::Usage(code),
            None => KeyTranslation::Unknown,
        },
    }
}

/// Tells a button from a keyboard key.
pub fn is_btn(key: u16) -> (button: bool)
    ensures
        button == is_button(key),
{
    (BTN_MISC <= key && key < KEY_OK) || (BTN_DPAD_UP <= key && key <= BTN_DPAD_RIGHT) || (
    BTN_TRIGGER_HAPPY <= key && key <= BTN_TRIGGER_HAPPY40)
}

/// Looks up the modifier bit of `key`.
pub fn key_to_modifier_bit(key: u16) -> (bit: Option<u8>)
    ensures
        bit == modifier_bit(key),
{
    match key {
        KEY_LEFTCTRL => Some(0u8),
        KEY_LEFTSHIFT => Some(1u8),
        KEY_LEFTALT => Some(2u8),
        KEY_LEFTMETA => Some(3u8),
        KEY_RIGHTCTRL => Some(4u8),
        KEY_RIGHTSHIFT => Some(5u8),
        KEY_RIGHTALT => Some(6u8),
        KEY_RIGHTMETA => Some(7u8),
        _ => None,
    }
}

/// Looks up the usage code of `key`.
pub fn key_to_usb_code(key: u16) -> (code: Option<u8>)
    ensures
        code == usage_code(key),
{
    match key {
        KEY_A => Some(0x04u8),
        KEY_B => Some(0x05u8),
        KEY_C => Some(0x06u8),
        KEY_D => Some(0x07u8),
        KEY_E => Some(0x08u8),
        KEY_F => Some(0x09u8),
        KEY_G => Some(0x0Au8),
        KEY_H => Some(0x0Bu8),
        KEY_I => Some(0x0Cu8),
        KEY_J => Some(0x0Du8),
        KEY_K => Some(0x0Eu8),
        KEY_L => Some(0x0Fu8),
        KEY_M => Some(0x10u8),
        KEY_N => Some(0x11u8),
        KEY_O => Some(0x12u8),
        KEY_P => Some(0x13u8),
        KEY_Q => Some(0x14u8),
        KEY_R => Some(0x15u8),
        KEY_S => Some(0x16u8),
        KEY_T => Some(0x17u8),
        KEY_U => Some(0x18u8),
        KEY_V => Some(0x19u8),
        KEY_W => Some(0x1Au8),
        KEY_X => Some(0x1Bu8),
        KEY_Y => Some(0x1Cu8),
        KEY_Z => Some(0x1Du8),
        KEY_1 => Some(0x1Eu8),
        KEY_2 => Some(0x1Fu8),
        KEY_3 => Some(0x20u8),
        KEY_4 => Some(0x21u8),
        KEY_5 => Some(0x22u8),
        KEY_6 => Some(0x23u8),
        KEY_7 => Some(0x24u8),
        KEY_8 => Some(0x25u8),
        KEY_9 => Some(0x26u8),
        KEY_0 => Some(0x27u8),
        KEY_ENTER => Some(0x28u8),
        KEY_ESC => Some(0x29u8),
        KEY_BACKSPACE => Some(0x2Au8),
        KEY_TAB => Some(0x2Bu8),
        KEY_SPACE => Some(0x2Cu8),
        KEY_MINUS => Some(0x2Du8),
        KEY_EQUAL => Some(0x2Eu8),
        KEY_LEFTBRACE => Some(0x2Fu8),
        KEY_RIGHTBRACE => Some(0x30u8),
        KEY_BACKSLASH => Some(0x31u8),
        KEY_NUMERIC_POUND => Some(0x32u8),
        KEY_SEMICOLON => Some(0x33u8),
        KEY_APOSTROPHE => Some(0x34u8),
        KEY_GRAVE => Some(0x35u8),
        KEY_COMMA => Some(0x36u8),
        KEY_DOT => Some(0x37u8),
        KEY_SLASH => Some(0x38u8),
        KEY_CAPSLOCK => Some(0x39u8),
        KEY_F1 => Some(0x3Au8),
        KEY_F2 => Some(0x3Bu8),
        KEY_F3 => Some(0x3Cu8),
        KEY_F4 => Some(0x3Du8),
        KEY_F5 => Some(0x3Eu8),
        KEY_F6 => Some(0x3Fu8),
        KEY_F7 => Some(0x40u8),
        KEY_F8 => Some(0x41u8),
        KEY_F9 => Some(0x42u8),
        KEY_F10 => Some(0x43u8),
        KEY_F11 => Some(0x44u8),
        KEY_F12 => Some(0x45u8),
        KEY_SYSRQ => Some(0x46u8),
        KEY_SCROLLLOCK => Some(0x47u8),
        KEY_PAUSE => Some(0x48u8),
        KEY_INSERT => Some(0x49u8),
        KEY_HOME => Some(0x4Au8),
        KEY_PAGEUP => Some(0x4Bu8),
        KEY_DELETE => Some(0x4Cu8),
        KEY_END => Some(0x4Du8),
        KEY_PAGEDOWN => Some(0x4Eu8),
        KEY_RIGHT => Some(0x4Fu8),
        KEY_LEFT => Some(0x50u8),
        KEY_DOWN => Some(0x51u8),
        KEY_UP => Some(0x52u8),
        KEY_NUMLOCK => Some(0x53u8),
        KEY_KPSLASH => Some(0x54u8),
        KEY_KPASTERISK => Some(0x55u8),
        KEY_KPMINUS => Some(0x56u8),
        KEY_KPPLUS => Some(0x57u8),
        KEY_KPENTER => Some(0x58u8),
        KEY_KP1 => Some(0x59u8),
        KEY_KP2 => Some(0x5Au8),
        KEY_KP3 => Some(0x5Bu8),
        KEY_KP4 => Some(0x5Cu8),
        KEY_KP5 => Some(0x5Du8),
        KEY_KP6 => Some(0x5Eu8),
        KEY_KP7 => Some(0x5Fu8),
        KEY_KP8 => Some(0x60u8),
        KEY_KP9 => Some(0x61u8),
        KEY_KP0 => Some(0x62u8),
        KEY_KPDOT => Some(0x63u8),
        KEY_102ND => Some(0x64u8),
        KEY_COMPOSE => Some(0x65u8),
        KEY_POWER => Some(0x66u8),
        KEY_KPEQUAL => Some(0x67u8),
        KEY_F13 => Some(0x68u8),
        KEY_F14 => Some(0x69u8),
        KEY_F15 => Some(0x6Au8),
        KEY_F16 => Some(0x6Bu8),
        KEY_F17 => Some(0x6Cu8),
        KEY_F18 => Some(0x6Du8),
        KEY_F19 => Some(0x6Eu8),
        KEY_F20 => Some(0x6Fu8),
        KEY_F21 => Some(0x70u8),
        KEY_F22 => Some(0x71u8),
        KEY_F23 => Some(0x72u8),
        KEY_F24 => Some(0x73u8),
        _ => None,
    }
}

/// Translates `key` for a keyboard report.
pub fn translate_key(key: u16) -> (t: KeyTranslation)
    ensures
        t == translation(key),
{
    match key_to_modifier_bit(key) {
        Some(bit) => KeyTranslation::Modifier(bit),
        None => match key_to_usb_code(key) {
            Some(code) => KeyTranslation::Usage(code),
            None => KeyTranslation::Unknown,
        },
    }
}

/// A modifier bit is a position in one byte.
pub proof fn law_modifier_bit_in_byte(key: u16)
    ensures
        modifier_bit(key) matches Some(bit) ==> bit < 8,
{
}

/// A modifier key has no usage code, so it never takes a keycode slot.
pub proof fn law_modifier_has_no_usage(key: u16)
    requires
        modifier_bit(key) is Some,
    ensures
        usage_code(key) is None,
        translation(key) is Modifier,
{
}

/// Every usage code lies between `USAGE_MIN` and `USAGE_MAX`, so none is the
/// empty slot (0x00) or the rollover sentinel (0x01).
pub proof fn lemma_usage_code_range(key: u16)
    ensures
        usage_code(key) matches Some(code) ==> USAGE_MIN <= code <= USAGE_MAX,
{
}

/// Two different keys never share a usage code.
pub proof fn lemma_usage_code_injective(a: u16, b: u16)
    requires
        usage_code(a) is Some,
        usage_code(a) == usage_code(b),
    ensures
        a == b,
{
}

} // verus!
