use vstd::prelude::*;

verus! {

/// Character-for-character comparison of two string slices.
pub fn str_eq(a: &str, b: &str) -> (r: bool)
    ensures
        r == (a@ == b@),
{
    let alen = a.unicode_len();
    let blen = b.unicode_len();
    if alen != blen {
        proof {
            assert(a@ != b@) by {
                assert(a@.len() != b@.len());
            }
        }
        return false;
    }
    let mut i: usize = 0;
    while i < alen
        invariant
            i <= alen,
            alen == a@.len(),
            alen == b@.len(),
            forall|j: int| 0 <= j < i ==> a@[j] == b@[j],
        decreases alen - i,
    {
        if a.get_char(i) != b.get_char(i) {
            return false;
        }
        i = i + 1;
    }
    proof {
        assert(a@ =~= b@);
    }
    true
}

/// The HID usage code a key name stands for, or `None` for an unknown name.
pub open spec fn spec_key_code(name: Seq<char>) -> Option<u8> {
    if false {
        None
    } else if name == "KeyA"@ {
        Some(0x04u8)
    } else if name == "KeyB"@ {
        Some(0x05u8)
    } else if name == "KeyC"@ {
        Some(0x06u8)
    } else if name == "KeyD"@ {
        Some(0x07u8)
    } else if name == "KeyE"@ {
        Some(0x08u8)
    } else if name == "KeyF"@ {
        Some(0x09u8)
    } else if name == "KeyG"@ {
        Some(0x0au8)
    } else if name == "KeyH"@ {
        Some(0x0bu8)
    } else if name == "KeyI"@ {
        Some(0x0cu8)
    } else if name == "KeyJ"@ {
        Some(0x0du8)
    } else if name == "KeyK"@ {
        Some(0x0eu8)
    } else if name == "KeyL"@ {
        Some(0x0fu8)
    } else if name == "KeyM"@ {
        Some(0x10u8)
    } else if name == "KeyN"@ {
        Some(0x11u8)
    } else if name == "KeyO"@ {
        Some(0x12u8)
    } else if name == "KeyP"@ {
        Some(0x13u8)
    } else if name == "KeyQ"@ {
        Some(0x14u8)
    } else if name == "KeyR"@ {
        Some(0x15u8)
    } else if name == "KeyS"@ {
        Some(0x16u8)
    } else if name == "KeyT"@ {
        Some(0x17u8)
    } else if name == "KeyU"@ {
        Some(0x18u8)
    } else if name == "KeyV"@ {
        Some(0x19u8)
    } else if name == "KeyW"@ {
        Some(0x1au8)
    } else if name == "KeyX"@ {
        Some(0x1bu8)
    } else if name == "KeyY"@ {
        Some(0x1cu8)
    } else if name == "KeyZ"@ {
        Some(0x1du8)
    } else if name == "Digit1"@ {
        Some(0x1eu8)
    } else if name == "Digit2"@ {
        Some(0x1fu8)
    } else if name == "Digit3"@ {
        Some(0x20u8)
    } else if name == "Digit4"@ {
        Some(0x21u8)
    } else if name == "Digit5"@ {
        Some(0x22u8)
    } else if name == "Digit6"@ {
        Some(0x23u8)
    } else if name == "Digit7"@ {
        Some(0x24u8)
    } else if name == "Digit8"@ {
        Some(0x25u8)
    } else if name == "Digit9"@ {
        Some(0x26u8)
    } else if name == "Digit0"@ {
        Some(0x27u8)
    } else if name == "Enter"@ {
        Some(0x28u8)
    } else if name == "Escape"@ {
        Some(0x29u8)
    } else if name == "Backspace"@ {
        Some(0x2au8)
    } else if name == "Tab"@ {
        Some(0x2bu8)
    } else if name == "Space"@ {
        Some(0x2cu8)
    } else if name == "Minus"@ {
        Some(0x2du8)
    } else if name == "Equal"@ {
        Some(0x2eu8)
    } else if name == "BracketLeft"@ {
        Some(0x2fu8)
    } else if name == "BracketRight"@ {
        Some(0x30u8)
    } else if name == "Backslash"@ {
        Some(0x31u8)
    } else if name == "Semicolon"@ {
        Some(0x33u8)
    } else if name == "Quote"@ {
        Some(0x34u8)
    } else if name == "Backquote"@ {
        Some(0x35u8)
    } else if name == "Comma"@ {
        Some(0x36u8)
    } else if name == "Period"@ {
        Some(0x37u8)
    } else if name == "Slash"@ {
        Some(0x38u8)
    } else if name == "IntlBackslash"@ {
        Some(0x64u8)
    } else {
        None
    }
}

/// Maps a key name ("KeyA", "Digit1", "Enter", ...) to its HID usage code.
pub fn key_name_to_hid(name: &str) -> (r: Option<u8>)
    ensures
        r == spec_key_code(name@),
{
    if false {
        None
    } else if str_eq(name, "KeyA") {
        Some(0x04)
    } else if str_eq(name, "KeyB") {
        Some(0x05)
    } else if str_eq(name, "KeyC") {
        Some(0x06)
    } else if str_eq(name, "KeyD") {
        Some(0x07)
    } else if str_eq(name, "KeyE") {
        Some(0x08)
    } else if str_eq(name, "KeyF") {
        Some(0x09)
    } else if str_eq(name, "KeyG") {
        Some(0x0a)
    } else if str_eq(name, "KeyH") {
        Some(0x0b)
    } else if str_eq(name, "KeyI") {
        Some(0x0c)
    } else if str_eq(name, "KeyJ") {
        Some(0x0d)
    } else if str_eq(name, "KeyK") {
        Some(0x0e)
    } else if str_eq(name, "KeyL") {
        Some(0x0f)
    } else if str_eq(name, "KeyM") {
        Some(0x10)
    } else if str_eq(name, "KeyN") {
        Some(0x11)
    } else if str_eq(name, "KeyO") {
        Some(0x12)
    } else if str_eq(name, "KeyP") {
        Some(0x13)
    } else if str_eq(name, "KeyQ") {
        Some(0x14)
    } else if str_eq(name, "KeyR") {
        Some(0x15)
    } else if str_eq(name, "KeyS") {
        Some(0x16)
    } else if str_eq(name, "KeyT") {
        Some(0x17)
    } else if str_eq(name, "KeyU") {
        Some(0x18)
    } else if str_eq(name, "KeyV") {
        Some(0x19)
    } else if str_eq(name, "KeyW") {
        Some(0x1a)
    } else if str_eq(name, "KeyX") {
        Some(0x1b)
    } else if str_eq(name, "KeyY") {
        Some(0x1c)
    } else if str_eq(name, "KeyZ") {
        Some(0x1d)
    } else if str_eq(name, "Digit1") {
        Some(0x1e)
    } else if str_eq(name, "Digit2") {
        Some(0x1f)
    } else if str_eq(name, "Digit3") {
        Some(0x20)
    } else if str_eq(name, "Digit4") {
        Some(0x21)
    } else if str_eq(name, "Digit5") {
        Some(0x22)
    } else if str_eq(name, "Digit6") {
        Some(0x23)
    } else if str_eq(name, "Digit7") {
        Some(0x24)
    } else if str_eq(name, "Digit8") {
        Some(0x25)
    } else if str_eq(name, "Digit9") {
        Some(0x26)
    } else if str_eq(name, "Digit0") {
        Some(0x27)
    } else if str_eq(name, "Enter") {
        Some(0x28)
    } else if str_eq(name, "Escape") {
        Some(0x29)
    } else if str_eq(name, "Backspace") {
        Some(0x2a)
    } else if str_eq(name, "Tab") {
        Some(0x2b)
    } else if str_eq(name, "Space") {
        Some(0x2c)
    } else if str_eq(name, "Minus") {
        Some(0x2d)
    } else if str_eq(name, "Equal") {
        Some(0x2e)
    } else if str_eq(name, "BracketLeft") {
        Some(0x2f)
    } else if str_eq(name, "BracketRight") {
        Some(0x30)
    } else if str_eq(name, "Backslash") {
        Some(0x31)
    } else if str_eq(name, "Semicolon") {
        Some(0x33)
    } else if str_eq(name, "Quote") {
        Some(0x34)
    } else if str_eq(name, "Backquote") {
        Some(0x35)
    } else if str_eq(name, "Comma") {
        Some(0x36)
    } else if str_eq(name, "Period") {
        Some(0x37)
    } else if str_eq(name, "Slash") {
        Some(0x38)
    } else if str_eq(name, "IntlBackslash") {
        Some(0x64)
    } else {
        None
    }
}

/// The HID modifier bit a modifier name stands for, or `None`.
pub open spec fn spec_modifier_mask(name: Seq<char>) -> Option<u8> {
    if name == "ControlLeft"@ {
        Some(0x01u8)
    } else if name == "ShiftLeft"@ {
        Some(0x02u8)
    } else if name == "AltLeft"@ {
        Some(0x04u8)
    } else if name == "MetaLeft"@ {
        Some(0x08u8)
    } else if name == "ControlRight"@ {
        Some(0x10u8)
    } else if name == "ShiftRight"@ {
        Some(0x20u8)
    } else if name == "AltRight"@ {
        Some(0x40u8)
    } else if name == "MetaRight"@ {
        Some(0x80u8)
    } else {
        None
    }
}

/// Maps a modifier name ("ShiftLeft", "AltRight", ...) to its bit in the
/// HID modifier bitmask.
pub fn modifier_name_to_mask(name: &str) -> (r: Option<u8>)
    ensures
        r == spec_modifier_mask(name@),
{
    if str_eq(name, "ControlLeft") {
        Some(0x01)
    } else if str_eq(name, "ShiftLeft") {
        Some(0x02)
    } else if str_eq(name, "AltLeft") {
        Some(0x04)
    } else if str_eq(name, "MetaLeft") {
        Some(0x08)
    } else if str_eq(name, "ControlRight") {
        Some(0x10)
    } else if str_eq(name, "ShiftRight") {
        Some(0x20)
    } else if str_eq(name, "AltRight") {
        Some(0x40)
    } else if str_eq(name, "MetaRight") {
        Some(0x80)
    } else {
        None
    }
}

} // verus!
