//! The two HID reports and how a keyboard report is built from the held keys.

use crate::keys::{
    lemma_usage_code_injective, lemma_usage_code_range, modifier_bit, modifier_mask, translate_key,
    translation, usage_code, KeyTranslation,
};
use vstd::prelude::*;
use vstd::seq_lib::lemma_seq_contains_after_push;

verus! {

/// Number of keycode slots in a keyboard report.
pub const KEYCODE_SLOTS: usize = 6;

/// The keycode that fills every slot when more keys are held than the report
/// has slots.
pub const ROLLOVER: u8 = 0x01;

/// The keycode of a slot that holds no key.
pub const NO_KEY: u8 = 0x00;

/// A boot-protocol keyboard report.
#[derive(Clone, Copy, Debug, PartialEq, Eq)]
pub struct KeyboardReport {
    pub modifier: u8,
    pub reserved: u8,
    pub leds: u8,
    pub keycodes: [u8; 6],
}

/// A mouse report with buttons, pointer motion, wheel and pan.
#[derive(Clone, Copy, Debug, PartialEq, Eq, Structural)]
pub struct MouseReport {
    pub buttons: u8,
    pub x: i8,
    pub y: i8,
    pub wheel: i8,
    pub pan: i8,
}

/// The modifier byte for `keys`: the bits of all modifier keys among them.
pub open spec fn modifiers_of(keys: Seq<u16>) -> u8
    decreases keys.len(),
{
    if keys.len() == 0 {
        0u8
    } else {
        modifiers_of(keys.drop_last()) | modifier_mask(keys.last())
    }
}

/// The usage codes of the keys among `keys` that have one, in the order of
/// `keys`.
pub open spec fn usage_codes(keys: Seq<u16>) -> Seq<u8>
    decreases keys.len(),
{
    if keys.len() == 0 {
        Seq::<u8>::empty()
    } else {
        match translation(keys.last()) {
            KeyTranslation::Usage(code) => usage_codes(keys.drop_last()).push(code),
            _ => usage_codes(keys.drop_last()),
        }
    }
}

/// The six keycode slots for `codes`: the codes followed by empty slots, or
/// the rollover sentinel in every slot when there are more codes than slots.
pub open spec fn keycode_slots(codes: Seq<u8>) -> Seq<u8> {
    if codes.len() > KEYCODE_SLOTS {
        Seq::new(KEYCODE_SLOTS as nat, |i: int| ROLLOVER)
    } else {
        Seq::new(
            KEYCODE_SLOTS as nat,
            |i: int|
                if i < codes.len() {
                    codes[i]
                } else {
                    NO_KEY
                },
        )
    }
}

/// Whether `report` is the keyboard report for the held keys `keys`.
pub open spec fn is_keyboard_report_of(report: KeyboardReport, keys: Seq<u16>) -> bool {
    &&& report.modifier == modifiers_of(keys)
    &&& report.reserved == 0
    &&& report.leds == 0
    &&& report.keycodes@ == keycode_slots(usage_codes(keys))
}

proof fn lemma_modifiers_push(keys: Seq<u16>, key: u16)
    ensures
        modifiers_of(keys.push(key)) == modifiers_of(keys) | modifier_mask(key),
{
    assert(keys.push(key).drop_last() =~= keys);
}

proof fn lemma_usage_codes_push(keys: Seq<u16>, key: u16)
    ensures
        usage_codes(keys.push(key)) == match translation(key) {
            KeyTranslation::Usage(code) => usage_codes(keys).push(code),
            _ => usage_codes(keys),
        },
{
    assert(keys.push(key).drop_last() =~= keys);
}

/// Builds the keyboard report for the held keys.
///
/// Each modifier key sets its bit, each key with a usage code takes the next
/// free slot, and keys without a translation are skipped. With more than six
/// usage codes every slot holds the rollover sentinel.
pub fn build_keyboard_report(keys: &[u16]) -> (report: KeyboardReport)
    ensures
        is_keyboard_report_of(report, keys@),
        usage_codes(keys@).len() > KEYCODE_SLOTS ==> forall|i: int|
            0 <= i < KEYCODE_SLOTS ==> report.keycodes@[i] == ROLLOVER,
        usage_codes(keys@).len() <= KEYCODE_SLOTS ==> forall|i: int|
            0 <= i < KEYCODE_SLOTS ==> report.keycodes@[i] == if i < usage_codes(keys@).len() {
                usage_codes(keys@)[i]
            } else {
                NO_KEY
            },
{
    let mut modifier: u8 = 0;
    let mut keycodes: [u8; 6] = [NO_KEY; 6];
    let mut used: usize = 0;
    let mut i: usize = 0;
    assert(keys@.take(0) =~= Seq::<u16>::empty());
    while i < keys.len()
        invariant
            i <= keys@.len(),
            modifier == modifiers_of(keys@.take(i as int)),
            keycodes@ == keycode_slots(usage_codes(keys@.take(i as int))),
            used <= KEYCODE_SLOTS,
            usage_codes(keys@.take(i as int)).len() <= KEYCODE_SLOTS ==> used == usage_codes(
                keys@.take(i as int),
            ).len(),
            usage_codes(keys@.take(i as int)).len() > KEYCODE_SLOTS ==> used == KEYCODE_SLOTS,
        decreases keys@.len() - i,
    {
        let key = keys[i];
        proof {
            assert(keys@.take(i + 1) =~= keys@.take(i as int).push(key));
            lemma_modifiers_push(keys@.take(i as int), key);
            lemma_usage_codes_push(keys@.take(i as int), key);
            assert(modifier | 0u8 == modifier) by (bit_vector);
        }
        match translate_key(key) {
            KeyTranslation::Modifier(bit) => {
                modifier = modifier | (1u8 << bit);
            },
            KeyTranslation::Usage(code) => {
                if used < KEYCODE_SLOTS {
                    keycodes[used] = code;
                    used = used + 1;
                } else {
                    keycodes = [ROLLOVER; 6];
                }
            },
            KeyTranslation::Unknown => {},
        }
        i = i + 1;
    }
    assert(keys@.take(keys@.len() as int) =~= keys@);
    KeyboardReport { modifier, reserved: 0, leds: 0, keycodes }
}

/// Whether bit `bit` of `byte` is set.
pub open spec fn has_bit(byte: u8, bit: u8) -> bool {
    byte & (1u8 << bit) != 0
}

/// Whether one of `keys` is the modifier key with the bit position `bit`.
pub open spec fn holds_modifier(keys: Seq<u16>, bit: u8) -> bool {
    exists|i: int| 0 <= i < keys.len() && modifier_bit(#[trigger] keys[i]) == Some(bit)
}

/// Whether one of `keys` has the usage code `code`.
pub open spec fn holds_usage(keys: Seq<u16>, code: u8) -> bool {
    exists|i: int|
        0 <= i < keys.len() && translation(#[trigger] keys[i]) == KeyTranslation::Usage(code)
}

/// A bit of the modifier byte is set exactly when the modifier key of that
/// bit is among the held keys: the byte is the bitwise OR of their bits.
pub proof fn lemma_modifier_bits(keys: Seq<u16>, bit: u8)
    requires
        bit < 8,
    ensures
        has_bit(modifiers_of(keys), bit) <==> holds_modifier(keys, bit),
    decreases keys.len(),
{
    if keys.len() == 0 {
        assert(!has_bit(0u8, bit)) by (bit_vector)
            requires
                bit < 8,
        ;
    } else {
        let front = keys.drop_last();
        let last = keys.last();
        let rest = modifiers_of(front);
        let mask = modifier_mask(last);
        lemma_modifier_bits(front, bit);
        assert(has_bit(rest | mask, bit) <==> has_bit(rest, bit) || has_bit(mask, bit))
            by (bit_vector)
            requires
                bit < 8,
        ;
        assert(has_bit(mask, bit) <==> modifier_bit(last) == Some(bit)) by {
            match modifier_bit(last) {
                Some(own) => {
                    assert(own < 8);
                    assert(has_bit(1u8 << own, bit) <==> own == bit) by (bit_vector)
                        requires
                            bit < 8,
                            own < 8,
                    ;
                },
                None => {
                    assert(!has_bit(0u8, bit)) by (bit_vector)
                        requires
                            bit < 8,
                    ;
                },
            }
        }
        if holds_modifier(keys, bit) {
            let i = choose|i: int|
                0 <= i < keys.len() && modifier_bit(#[trigger] keys[i]) == Some(bit);
            if i < front.len() {
                assert(modifier_bit(front[i]) == Some(bit));
            }
        }
        if holds_modifier(front, bit) {
            let i = choose|i: int|
                0 <= i < front.len() && modifier_bit(#[trigger] front[i]) == Some(bit);
            assert(modifier_bit(keys[i]) == Some(bit));
        }
        if modifier_bit(last) == Some(bit) {
            assert(modifier_bit(keys[keys.len() - 1]) == Some(bit));
        }
    }
}

/// A usage code is among the usage codes of the held keys exactly when one of
/// the held keys has it, and there are no more codes than keys.
pub proof fn lemma_usage_codes_members(keys: Seq<u16>, code: u8)
    ensures
        usage_codes(keys).contains(code) <==> holds_usage(keys, code),
        usage_codes(keys).len() <= keys.len(),
    decreases keys.len(),
{
    if keys.len() > 0 {
        let front = keys.drop_last();
        let last = keys.last();
        let rest = usage_codes(front);
        lemma_usage_codes_members(front, code);
        if holds_usage(keys, code) {
            let i = choose|i: int|
                0 <= i < keys.len() && translation(#[trigger] keys[i]) == KeyTranslation::Usage(
                    code,
                );
            if i < front.len() {
                assert(translation(front[i]) == KeyTranslation::Usage(code));
            }
        }
        if holds_usage(front, code) {
            let i = choose|i: int|
                0 <= i < front.len() && translation(#[trigger] front[i]) == KeyTranslation::Usage(
                    code,
                );
            assert(translation(keys[i]) == KeyTranslation::Usage(code));
        }
        if translation(last) == KeyTranslation::Usage(code) {
            assert(translation(keys[keys.len() - 1]) == KeyTranslation::Usage(code));
        }
        match translation(last) {
            KeyTranslation::Usage(own) => {
                lemma_seq_contains_after_push(rest, own, code);
            },
            _ => {},
        }
    }
}

/// Every usage code of the held keys is a real key's code: neither the empty
/// slot nor the rollover sentinel.
pub proof fn lemma_usage_codes_are_keys(keys: Seq<u16>)
    ensures
        forall|j: int|
            0 <= j < usage_codes(keys).len() ==> #[trigger] usage_codes(keys)[j] != NO_KEY
                && usage_codes(keys)[j] != ROLLOVER,
    decreases keys.len(),
{
    if keys.len() > 0 {
        let rest = usage_codes(keys.drop_last());
        lemma_usage_codes_are_keys(keys.drop_last());
        lemma_usage_code_range(keys.last());
        assert forall|j: int| 0 <= j < usage_codes(keys).len() implies #[trigger] usage_codes(
            keys,
        )[j] != NO_KEY && usage_codes(keys)[j] != ROLLOVER by {
            if j < rest.len() {
                assert(usage_codes(keys)[j] == rest[j]);
            } else {
                assert(usage_code(keys.last()) == Some(usage_codes(keys)[j]));
            }
        }
    }
}

/// Held keys without duplicates give usage codes without duplicates.
pub proof fn lemma_usage_codes_distinct(keys: Seq<u16>)
    requires
        keys.no_duplicates(),
    ensures
        usage_codes(keys).no_duplicates(),
    decreases keys.len(),
{
    if keys.len() > 0 {
        let front = keys.drop_last();
        let last = keys.last();
        let rest = usage_codes(front);
        lemma_usage_codes_distinct(front);
        match translation(last) {
            KeyTranslation::Usage(own) => {
                lemma_usage_codes_members(front, own);
                if holds_usage(front, own) {
                    let i = choose|i: int|
                        0 <= i < front.len() && translation(#[trigger] front[i])
                            == KeyTranslation::Usage(own);
                    lemma_usage_code_injective(front[i], last);
                    assert(keys[i] == keys[keys.len() - 1]);
                }
                assert(!rest.contains(own));
            },
            _ => {},
        }
    }
}

/// With more usage codes than slots, every slot of the report holds the
/// rollover sentinel.
pub proof fn law_rollover(report: KeyboardReport, keys: Seq<u16>)
    requires
        is_keyboard_report_of(report, keys),
        usage_codes(keys).len() > KEYCODE_SLOTS,
    ensures
        forall|i: int| 0 <= i < KEYCODE_SLOTS ==> report.keycodes@[i] == ROLLOVER,
{
}

/// The keyboard report shows the held keys and nothing else.
///
/// The modifier byte is the bitwise OR of the bits of the held modifier keys:
/// each of its bits is set exactly when the modifier key of that bit is held.
/// As long as no more than six held keys have a usage code, a usage code
/// stands in a slot exactly when a held key has it, whatever the order, the
/// codes fill the first slots, and the other slots are empty. Held keys
/// without duplicates give each code once.
pub proof fn law_report_shows_held_keys(report: KeyboardReport, keys: Seq<u16>)
    requires
        is_keyboard_report_of(report, keys),
    ensures
        forall|bit: u8|
            bit < 8 ==> (#[trigger] has_bit(report.modifier, bit) <==> holds_modifier(keys, bit)),
        usage_codes(keys).len() <= KEYCODE_SLOTS ==> forall|code: u8|
            code != NO_KEY ==> (#[trigger] report.keycodes@.contains(code) <==> holds_usage(
                keys,
                code,
            )),
        usage_codes(keys).len() <= KEYCODE_SLOTS ==> report.keycodes@.subrange(
            0,
            usage_codes(keys).len() as int,
        ) == usage_codes(keys),
        usage_codes(keys).len() <= KEYCODE_SLOTS ==> forall|i: int|
            usage_codes(keys).len() <= i < KEYCODE_SLOTS ==> report.keycodes@[i] == NO_KEY,
        keys.no_duplicates() ==> usage_codes(keys).no_duplicates(),
{
    let codes = usage_codes(keys);
    if keys.no_duplicates() {
        lemma_usage_codes_distinct(keys);
    }
    let slots = report.keycodes@;
    assert forall|bit: u8| bit < 8 implies (#[trigger] has_bit(report.modifier, bit)
        <==> holds_modifier(keys, bit)) by {
        lemma_modifier_bits(keys, bit);
    }
    if codes.len() <= KEYCODE_SLOTS {
        lemma_usage_codes_are_keys(keys);
        assert(slots.subrange(0, codes.len() as int) =~= codes);
        assert forall|code: u8| code != NO_KEY implies (#[trigger] slots.contains(code)
            <==> holds_usage(keys, code)) by {
            lemma_usage_codes_members(keys, code);
            if slots.contains(code) {
                let i = choose|i: int| 0 <= i < slots.len() && slots[i] == code;
                assert(i < codes.len());
                assert(codes[i] == code);
            }
            if codes.contains(code) {
                let i = choose|i: int| 0 <= i < codes.len() && codes[i] == code;
                assert(slots[i] == code);
            }
        }
    }
}

} // verus!
