use vstd::prelude::*;
use crate::keyboard_layout::{AccentView, KeyCombo, KeyComboView, KeyboardLayout, LayoutView};

verus! {

/// The abstract `es-ES` layout value: what `create_layout` constructs.
pub open spec fn es_es_layout() -> LayoutView {
    LayoutView { iso_code: "es-ES"@, name: "Espanol"@, chars: es_es_chars() }
}

/// The `es-ES` character table, accent prefixes included.
pub open spec fn es_es_chars() -> Map<u32, KeyComboView> {
    Map::<u32, KeyComboView>::empty()
        .insert('A' as u32, KeyComboView { key: "KeyA"@, shift: true, alt_right: false, dead_key: false, accent_key: None })
        .insert('Ä' as u32, KeyComboView { key: "KeyA"@, shift: true, alt_right: false, dead_key: false, accent_key: Some(AccentView { key: "Quote"@, shift: true, alt_right: false }) })
        .insert('Á' as u32, KeyComboView { key: "KeyA"@, shift: true, alt_right: false, dead_key: false, accent_key: Some(AccentView { key: "Quote"@, shift: false, alt_right: false }) })
        .insert('Â' as u32, KeyComboView { key: "KeyA"@, shift: true, alt_right: false, dead_key: false, accent_key: Some(AccentView { key: "BracketRight"@, shift: true, alt_right: false }) })
        .insert('À' as u32, KeyComboView { key: "KeyA"@, shift: true, alt_right: false, dead_key: false, accent_key: Some(AccentView { key: "BracketRight"@, shift: false, alt_right: false }) })
        .insert('Ã' as u32, KeyComboView { key: "KeyA"@, shift: true, alt_right: false, dead_key: false, accent_key: Some(AccentView { key: "Digit4"@, shift: false, alt_right: true }) })
        .insert('B' as u32, KeyComboView { key: "KeyB"@, shift: true, alt_right: false, dead_key: false, accent_key: None })
        .insert('C' as u32, KeyComboView { key: "KeyC"@, shift: true, alt_right: false, dead_key: false, accent_key: None })
        .insert('D' as u32, KeyComboView { key: "KeyD"@, shift: true, alt_right: false, dead_key: false, accent_key: None })
        .insert('E' as u32, KeyComboView { key: "KeyE"@, shift: true, alt_right: false, dead_key: false, accent_key: None })
        .insert('Ë' as u32, KeyComboView { key: "KeyE"@, shift: true, alt_right: false, dead_key: false, accent_key: Some(AccentView { key: "Quote"@, shift: true, alt_right: false }) })
        .insert('É' as u32, KeyComboView { key: "KeyE"@, shift: true, alt_right: false, dead_key: false, accent_key: Some(AccentView { key: "Quote"@, shift: false, alt_right: false }) })
        .insert('Ê' as u32, KeyComboView { key: "KeyE"@, shift: true, alt_right: false, dead_key: false, accent_key: Some(AccentView { key: "BracketRight"@, shift: true, alt_right: false }) })
        .insert('È' as u32, KeyComboView { key: "KeyE"@, shift: true, alt_right: false, dead_key: false, accent_key: Some(AccentView { key: "BracketRight"@, shift: false, alt_right: false }) })
        .insert('Ẽ' as u32, KeyComboView { key: "KeyE"@, shift: true, alt_right: false, dead_key: false, accent_key: Some(AccentView { key: "Digit4"@, shift: false, alt_right: true }) })
        .insert('F' as u32, KeyComboView { key: "KeyF"@, shift: true, alt_right: false, dead_key: false, accent_key: None })
        .insert('G' as u32, KeyComboView { key: "KeyG"@, shift: true, alt_right: false, dead_key: false, accent_key: None })
        .insert('H' as u32, KeyComboView { key: "KeyH"@, shift: true, alt_right: false, dead_key: false, accent_key: None })
        .insert('I' as u32, KeyComboView { key: "KeyI"@, shift: true, alt_right: false, dead_key: false, accent_key: None })
        .insert('Ï' as u32, KeyComboView { key: "KeyI"@, shift: true, alt_right: false, dead_key: false, accent_key: Some(AccentView { key: "Quote"@, shift: true, alt_right: false }) })
        .insert('Í' as u32, KeyComboView { key: "KeyI"@, shift: true, alt_right: false, dead_key: false, accent_key: Some(AccentView { key: "Quote"@, shift: false, alt_right: false }) })
        .insert('Î' as u32, KeyComboView { key: "KeyI"@, shift: true, alt_right: false, dead_key: false, accent_key: Some(AccentView { key: "BracketRight"@, shift: true, alt_right: false }) })
        .insert('Ì' as u32, KeyComboView { key: "KeyI"@, shift: true, alt_right: false, dead_key: false, accent_key: Some(AccentView { key: "BracketRight"@, shift: false, alt_right: false }) })
        .insert('Ĩ' as u32, KeyComboView { key: "KeyI"@, shift: true, alt_right: false, dead_key: false, accent_key: Some(AccentView { key: "Digit4"@, shift: false, alt_right: true }) })
        .insert('J' as u32, KeyComboView { key: "KeyJ"@, shift: true, alt_right: false, dead_key: false, accent_key: None })
        .insert('K' as u32, KeyComboView { key: "KeyK"@, shift: true, alt_right: false, dead_key: false, accent_key: None })
        .insert('L' as u32, KeyComboView { key: "KeyL"@, shift: true, alt_right: false, dead_key: false, accent_key: None })
        .insert('M' as u32, KeyComboView { key: "KeyM"@, shift: true, alt_right: false, dead_key: false, accent_key: None })
        .insert('N' as u32, KeyComboView { key: "KeyN"@, shift: true, alt_right: false, dead_key: false, accent_key: None })
        .insert('O' as u32, KeyComboView { key: "KeyO"@, shift: true, alt_right: false, dead_key: false, accent_key: None })
        .insert('Ö' as u32, KeyComboView { key: "KeyO"@, shift: true, alt_right: false, dead_key: false, accent_key: Some(AccentView { key: "Quote"@, shift: true, alt_right: false }) })
        .insert('Ó' as u32, KeyComboView { key: "KeyO"@, shift: true, alt_right: false, dead_key: false, accent_key: Some(AccentView { key: "Quote"@, shift: false, alt_right: false }) })
        .insert('Ô' as u32, KeyComboView { key: "KeyO"@, shift: true, alt_right: false, dead_key: false, accent_key: Some(AccentView { key: "BracketRight"@, shift: true, alt_right: false }) })
        .insert('Ò' as u32, KeyComboView { key: "KeyO"@, shift: true, alt_right: false, dead_key: false, accent_key: Some(AccentView { key: "BracketRight"@, shift: false, alt_right: false }) })
        .insert('Õ' as u32, KeyComboView { key: "KeyO"@, shift: true, alt_right: false, dead_key: false, accent_key: Some(AccentView { key: "Digit4"@, shift: false, alt_right: true }) })
        .insert('P' as u32, KeyComboView { key: "KeyP"@, shift: true, alt_right: false, dead_key: false, accent_key: None })
        .insert('Q' as u32, KeyComboView { key: "KeyQ"@, shift: true, alt_right: false, dead_key: false, accent_key: None })
        .insert('R' as u32, KeyComboView { key: "KeyR"@, shift: true, alt_right: false, dead_key: false, accent_key: None })
        .insert('S' as u32, KeyComboView { key: "KeyS"@, shift: true, alt_right: false, dead_key: false, accent_key: None })
        .insert('T' as u32, KeyComboView { key: "KeyT"@, shift: true, alt_right: false, dead_key: false, accent_key: None })
        .insert('U' as u32, KeyComboView { key: "KeyU"@, shift: true, alt_right: false, dead_key: false, accent_key: None })
        .insert('Ü' as u32, KeyComboView { key: "KeyU"@, shift: true, alt_right: false, dead_key: false, accent_key: Some(AccentView { key: "Quote"@, shift: true, alt_right: false }) })
        .insert('Ú' as u32, KeyComboView { key: "KeyU"@, shift: true, alt_right: false, dead_key: false, accent_key: Some(AccentView { key: "Quote"@, shift: false, alt_right: false }) })
        .insert('Û' as u32, KeyComboView { key: "KeyU"@, shift: true, alt_right: false, dead_key: false, accent_key: Some(AccentView { key: "BracketRight"@, shift: true, alt_right: false }) })
        .insert('Ù' as u32, KeyComboView { key: "KeyU"@, shift: true, alt_right: false, dead_key: false, accent_key: Some(AccentView { key: "BracketRight"@, shift: false, alt_right: false }) })
        .insert('Ũ' as u32, KeyComboView { key: "KeyU"@, shift: true, alt_right: false, dead_key: false, accent_key: Some(AccentView { key: "Digit4"@, shift: false, alt_right: true }) })
        .insert('V' as u32, KeyComboView { key: "KeyV"@, shift: true, alt_right: false, dead_key: false, accent_key: None })
        .insert('W' as u32, KeyComboView { key: "KeyW"@, shift: true, alt_right: false, dead_key: false, accent_key: None })
        .insert('X' as u32, KeyComboView { key: "KeyX"@, shift: true, alt_right: false, dead_key: false, accent_key: None })
        .insert('Y' as u32, KeyComboView { key: "KeyY"@, shift: true, alt_right: false, dead_key: false, accent_key: None })
        .insert('Z' as u32, KeyComboView { key: "KeyZ"@, shift: true, alt_right: false, dead_key: false, accent_key: None })
        .insert('a' as u32, KeyComboView { key: "KeyA"@, shift: false, alt_right: false, dead_key: false, accent_key: None })
        .insert('ä' as u32, KeyComboView { key: "KeyA"@, shift: false, alt_right: false, dead_key: false, accent_key: Some(AccentView { key: "Quote"@, shift: true, alt_right: false }) })
        .insert('á' as u32, KeyComboView { key: "KeyA"@, shift: false, alt_right: false, dead_key: false, accent_key: Some(AccentView { key: "Quote"@, shift: false, alt_right: false }) })
        .insert('â' as u32, KeyComboView { key: "KeyA"@, shift: false, alt_right: false, dead_key: false, accent_key: Some(AccentView { key: "BracketRight"@, shift: true, alt_right: false }) })
        .insert('à' as u32, KeyComboView { key: "KeyA"@, shift: false, alt_right: false, dead_key: false, accent_key: Some(AccentView { key: "BracketRight"@, shift: false, alt_right: false }) })
        .insert('ã' as u32, KeyComboView { key: "KeyA"@, shift: false, alt_right: false, dead_key: false, accent_key: Some(AccentView { key: "Digit4"@, shift: false, alt_right: true }) })
        .insert('b' as u32, KeyComboView { key: "KeyB"@, shift: false, alt_right: false, dead_key: false, accent_key: None })
        .insert('c' as u32, KeyComboView { key: "KeyC"@, shift: false, alt_right: false, dead_key: false, accent_key: None })
        .insert('d' as u32, KeyComboView { key: "KeyD"@, shift: false, alt_right: false, dead_key: false, accent_key: None })
        .insert('e' as u32, KeyComboView { key: "KeyE"@, shift: false, alt_right: false, dead_key: false, accent_key: None })
        .insert('ë' as u32, KeyComboView { key: "KeyE"@, shift: false, alt_right: false, dead_key: false, accent_key: Some(AccentView { key: "Quote"@, shift: true, alt_right: false }) })
        .insert('é' as u32, KeyComboView { key: "KeyE"@, shift: false, alt_right: false, dead_key: false, accent_key: Some(AccentView { key: "Quote"@, shift: false, alt_right: false }) })
        .insert('ê' as u32, KeyComboView { key: "KeyE"@, shift: false, alt_right: false, dead_key: false, accent_key: Some(AccentView { key: "BracketRight"@, shift: true, alt_right: false }) })
        .insert('è' as u32, KeyComboView { key: "KeyE"@, shift: false, alt_right: false, dead_key: false, accent_key: Some(AccentView { key: "BracketRight"@, shift: false, alt_right: false }) })
        .insert('ẽ' as u32, KeyComboView { key: "KeyE"@, shift: false, alt_right: false, dead_key: false, accent_key: Some(AccentView { key: "Digit4"@, shift: false, alt_right: true }) })
        .insert('€' as u32, KeyComboView { key: "KeyE"@, shift: false, alt_right: true, dead_key: false, accent_key: None })
        .insert('f' as u32, KeyComboView { key: "KeyF"@, shift: false, alt_right: false, dead_key: false, accent_key: None })
        .insert('g' as u32, KeyComboView { key: "KeyG"@, shift: false, alt_right: false, dead_key: false, accent_key: None })
        .insert('h' as u32, KeyComboView { key: "KeyH"@, shift: false, alt_right: false, dead_key: false, accent_key: None })
        .insert('i' as u32, KeyComboView { key: "KeyI"@, shift: false, alt_right: false, dead_key: false, accent_key: None })
        .insert('ï' as u32, KeyComboView { key: "KeyI"@, shift: false, alt_right: false, dead_key: false, accent_key: Some(AccentView { key: "Quote"@, shift: true, alt_right: false }) })
        .insert('í' as u32, KeyComboView { key: "KeyI"@, shift: false, alt_right: false, dead_key: false, accent_key: Some(AccentView { key: "Quote"@, shift: false, alt_right: false }) })
        .insert('î' as u32, KeyComboView { key: "KeyI"@, shift: false, alt_right: false, dead_key: false, accent_key: Some(AccentView { key: "BracketRight"@, shift: true, alt_right: false }) })
        .insert('ì' as u32, KeyComboView { key: "KeyI"@, shift: false, alt_right: false, dead_key: false, accent_key: Some(AccentView { key: "BracketRight"@, shift: false, alt_right: false }) })
        .insert('ĩ' as u32, KeyComboView { key: "KeyI"@, shift: false, alt_right: false, dead_key: false, accent_key: Some(AccentView { key: "Digit4"@, shift: false, alt_right: true }) })
        .insert('j' as u32, KeyComboView { key: "KeyJ"@, shift: false, alt_right: false, dead_key: false, accent_key: None })
        .insert('k' as u32, KeyComboView { key: "KeyK"@, shift: false, alt_right: false, dead_key: false, accent_key: None })
        .insert('l' as u32, KeyComboView { key: "KeyL"@, shift: false, alt_right: false, dead_key: false, accent_key: None })
        .insert('m' as u32, KeyComboView { key: "KeyM"@, shift: false, alt_right: false, dead_key: false, accent_key: None })
        .insert('n' as u32, KeyComboView { key: "KeyN"@, shift: false, alt_right: false, dead_key: false, accent_key: None })
        .insert('o' as u32, KeyComboView { key: "KeyO"@, shift: false, alt_right: false, dead_key: false, accent_key: None })
        .insert('ö' as u32, KeyComboView { key: "KeyO"@, shift: false, alt_right: false, dead_key: false, accent_key: Some(AccentView { key: "Quote"@, shift: true, alt_right: false }) })
        .insert('ó' as u32, KeyComboView { key: "KeyO"@, shift: false, alt_right: false, dead_key: false, accent_key: Some(AccentView { key: "Quote"@, shift: false, alt_right: false }) })
        .insert('ô' as u32, KeyComboView { key: "KeyO"@, shift: false, alt_right: false, dead_key: false, accent_key: Some(AccentView { key: "BracketRight"@, shift: true, alt_right: false }) })
        .insert('ò' as u32, KeyComboView { key: "KeyO"@, shift: false, alt_right: false, dead_key: false, accent_key: Some(AccentView { key: "BracketRight"@, shift: false, alt_right: false }) })
        .insert('õ' as u32, KeyComboView { key: "KeyO"@, shift: false, alt_right: false, dead_key: false, accent_key: Some(AccentView { key: "Digit4"@, shift: false, alt_right: true }) })
        .insert('p' as u32, KeyComboView { key: "KeyP"@, shift: false, alt_right: false, dead_key: false, accent_key: None })
        .insert('q' as u32, KeyComboView { key: "KeyQ"@, shift: false, alt_right: false, dead_key: false, accent_key: None })
        .insert('r' as u32, KeyComboView { key: "KeyR"@, shift: false, alt_right: false, dead_key: false, accent_key: None })
        .insert('s' as u32, KeyComboView { key: "KeyS"@, shift: false, alt_right: false, dead_key: false, accent_key: None })
        .insert('t' as u32, KeyComboView { key: "KeyT"@, shift: false, alt_right: false, dead_key: false, accent_key: None })
        .insert('u' as u32, KeyComboView { key: "KeyU"@, shift: false, alt_right: false, dead_key: false, accent_key: None })
        .insert('ü' as u32, KeyComboView { key: "KeyU"@, shift: false, alt_right: false, dead_key: false, accent_key: Some(AccentView { key: "Quote"@, shift: true, alt_right: false }) })
        .insert('ú' as u32, KeyComboView { key: "KeyU"@, shift: false, alt_right: false, dead_key: false, accent_key: Some(AccentView { key: "Quote"@, shift: false, alt_right: false }) })
        .insert('û' as u32, KeyComboView { key: "KeyU"@, shift: false, alt_right: false, dead_key: false, accent_key: Some(AccentView { key: "BracketRight"@, shift: true, alt_right: false }) })
        .insert('ù' as u32, KeyComboView { key: "KeyU"@, shift: false, alt_right: false, dead_key: false, accent_key: Some(AccentView { key: "BracketRight"@, shift: false, alt_right: false }) })
        .insert('ũ' as u32, KeyComboView { key: "KeyU"@, shift: false, alt_right: false, dead_key: false, accent_key: Some(AccentView { key: "Digit4"@, shift: false, alt_right: true }) })
        .insert('v' as u32, KeyComboView { key: "KeyV"@, shift: false, alt_right: false, dead_key: false, accent_key: None })
        .insert('w' as u32, KeyComboView { key: "KeyW"@, shift: false, alt_right: false, dead_key: false, accent_key: None })
        .insert('x' as u32, KeyComboView { key: "KeyX"@, shift: false, alt_right: false, dead_key: false, accent_key: None })
        .insert('y' as u32, KeyComboView { key: "KeyY"@, shift: false, alt_right: false, dead_key: false, accent_key: None })
        .insert('z' as u32, KeyComboView { key: "KeyZ"@, shift: false, alt_right: false, dead_key: false, accent_key: None })
        .insert('º' as u32, KeyComboView { key: "Backquote"@, shift: false, alt_right: false, dead_key: false, accent_key: None })
        .insert('ª' as u32, KeyComboView { key: "Backquote"@, shift: true, alt_right: false, dead_key: false, accent_key: None })
        .insert('\\' as u32, KeyComboView { key: "Backquote"@, shift: false, alt_right: true, dead_key: false, accent_key: None })
        .insert('1' as u32, KeyComboView { key: "Digit1"@, shift: false, alt_right: false, dead_key: false, accent_key: None })
        .insert('!' as u32, KeyComboView { key: "Digit1"@, shift: true, alt_right: false, dead_key: false, accent_key: None })
        .insert('|' as u32, KeyComboView { key: "Digit1"@, shift: false, alt_right: true, dead_key: false, accent_key: None })
        .insert('2' as u32, KeyComboView { key: "Digit2"@, shift: false, alt_right: false, dead_key: false, accent_key: None })
        .insert('"' as u32, KeyComboView { key: "Digit2"@, shift: true, alt_right: false, dead_key: false, accent_key: None })
        .insert('@' as u32, KeyComboView { key: "Digit2"@, shift: false, alt_right: true, dead_key: false, accent_key: None })
        .insert('3' as u32, KeyComboView { key: "Digit3"@, shift: false, alt_right: false, dead_key: false, accent_key: None })
        .insert('·' as u32, KeyComboView { key: "Digit3"@, shift: true, alt_right: false, dead_key: false, accent_key: None })
        .insert('#' as u32, KeyComboView { key: "Digit3"@, shift: false, alt_right: true, dead_key: false, accent_key: None })
        .insert('4' as u32, KeyComboView { key: "Digit4"@, shift: false, alt_right: false, dead_key: false, accent_key: None })
        .insert('$' as u32, KeyComboView { key: "Digit4"@, shift: true, alt_right: false, dead_key: false, accent_key: None })
        .insert('5' as u32, KeyComboView { key: "Digit5"@, shift: false, alt_right: false, dead_key: false, accent_key: None })
        .insert('%' as u32, KeyComboView { key: "Digit5"@, shift: true, alt_right: false, dead_key: false, accent_key: None })
        .insert('6' as u32, KeyComboView { key: "Digit6"@, shift: false, alt_right: false, dead_key: false, accent_key: None })
        .insert('&' as u32, KeyComboView { key: "Digit6"@, shift: true, alt_right: false, dead_key: false, accent_key: None })
        .insert('¬' as u32, KeyComboView { key: "Digit6"@, shift: false, alt_right: true, dead_key: false, accent_key: None })
        .insert('7' as u32, KeyComboView { key: "Digit7"@, shift: false, alt_right: false, dead_key: false, accent_key: None })
        .insert('/' as u32, KeyComboView { key: "Digit7"@, shift: true, alt_right: false, dead_key: false, accent_key: None })
        .insert('8' as u32, KeyComboView { key: "Digit8"@, shift: false, alt_right: false, dead_key: false, accent_key: None })
        .insert('(' as u32, KeyComboView { key: "Digit8"@, shift: true, alt_right: false, dead_key: false, accent_key: None })
        .insert('9' as u32, KeyComboView { key: "Digit9"@, shift: false, alt_right: false, dead_key: false, accent_key: None })
        .insert(')' as u32, KeyComboView { key: "Digit9"@, shift: true, alt_right: false, dead_key: false, accent_key: None })
        .insert('0' as u32, KeyComboView { key: "Digit0"@, shift: false, alt_right: false, dead_key: false, accent_key: None })
        .insert('=' as u32, KeyComboView { key: "Digit0"@, shift: true, alt_right: false, dead_key: false, accent_key: None })
        .insert('\'' as u32, KeyComboView { key: "Minus"@, shift: false, alt_right: false, dead_key: false, accent_key: None })
        .insert('?' as u32, KeyComboView { key: "Minus"@, shift: true, alt_right: false, dead_key: false, accent_key: None })
        .insert('¡' as u32, KeyComboView { key: "Equal"@, shift: false, alt_right: false, dead_key: true, accent_key: None })
        .insert('¿' as u32, KeyComboView { key: "Equal"@, shift: true, alt_right: false, dead_key: false, accent_key: None })
        .insert('[' as u32, KeyComboView { key: "BracketLeft"@, shift: false, alt_right: true, dead_key: false, accent_key: None })
        .insert('+' as u32, KeyComboView { key: "BracketRight"@, shift: false, alt_right: false, dead_key: false, accent_key: None })
        .insert('*' as u32, KeyComboView { key: "BracketRight"@, shift: true, alt_right: false, dead_key: false, accent_key: None })
        .insert(']' as u32, KeyComboView { key: "BracketRight"@, shift: false, alt_right: true, dead_key: false, accent_key: None })
        .insert('ñ' as u32, KeyComboView { key: "Semicolon"@, shift: false, alt_right: false, dead_key: false, accent_key: None })
        .insert('Ñ' as u32, KeyComboView { key: "Semicolon"@, shift: true, alt_right: false, dead_key: false, accent_key: None })
        .insert('{' as u32, KeyComboView { key: "Quote"@, shift: false, alt_right: true, dead_key: false, accent_key: None })
        .insert('ç' as u32, KeyComboView { key: "Backslash"@, shift: false, alt_right: false, dead_key: false, accent_key: None })
        .insert('Ç' as u32, KeyComboView { key: "Backslash"@, shift: true, alt_right: false, dead_key: false, accent_key: None })
        .insert('}' as u32, KeyComboView { key: "Backslash"@, shift: false, alt_right: true, dead_key: false, accent_key: None })
        .insert(',' as u32, KeyComboView { key: "Comma"@, shift: false, alt_right: false, dead_key: false, accent_key: None })
        .insert(';' as u32, KeyComboView { key: "Comma"@, shift: true, alt_right: false, dead_key: false, accent_key: None })
        .insert('.' as u32, KeyComboView { key: "Period"@, shift: false, alt_right: false, dead_key: false, accent_key: None })
        .insert(':' as u32, KeyComboView { key: "Period"@, shift: true, alt_right: false, dead_key: false, accent_key: None })
        .insert('-' as u32, KeyComboView { key: "Slash"@, shift: false, alt_right: false, dead_key: false, accent_key: None })
        .insert('_' as u32, KeyComboView { key: "Slash"@, shift: true, alt_right: false, dead_key: false, accent_key: None })
        .insert('<' as u32, KeyComboView { key: "IntlBackslash"@, shift: false, alt_right: false, dead_key: false, accent_key: None })
        .insert('>' as u32, KeyComboView { key: "IntlBackslash"@, shift: true, alt_right: false, dead_key: false, accent_key: None })
        .insert(' ' as u32, KeyComboView { key: "Space"@, shift: false, alt_right: false, dead_key: false, accent_key: None })
        .insert('\n' as u32, KeyComboView { key: "Enter"@, shift: false, alt_right: false, dead_key: false, accent_key: None })
}

/// Builds the `es-ES` keyboard layout.
#[verifier::rlimit(80)]
pub fn create_layout() -> (r: KeyboardLayout)
    ensures
        r@ == es_es_layout(),
{
    let l = KeyboardLayout::new("es-ES", "Espanol");
    let l = l.with_char('A', KeyCombo::new("KeyA").with_shift());
    let l = l.with_char('Ä', KeyCombo::new("KeyA").with_shift().with_accent_key(KeyCombo::new("Quote").with_shift()));
    let l = l.with_char('Á', KeyCombo::new("KeyA").with_shift().with_accent_key(KeyCombo::new("Quote")));
    let l = l.with_char('Â', KeyCombo::new("KeyA").with_shift().with_accent_key(KeyCombo::new("BracketRight").with_shift()));
    let l = l.with_char('À', KeyCombo::new("KeyA").with_shift().with_accent_key(KeyCombo::new("BracketRight")));
    let l = l.with_char('Ã', KeyCombo::new("KeyA").with_shift().with_accent_key(KeyCombo::new("Digit4").with_alt_right()));
    let l = l.with_char('B', KeyCombo::new("KeyB").with_shift());
    let l = l.with_char('C', KeyCombo::new("KeyC").with_shift());
    let l = l.with_char('D', KeyCombo::new("KeyD").with_shift());
    let l = l.with_char('E', KeyCombo::new("KeyE").with_shift());
    let l = l.with_char('Ë', KeyCombo::new("KeyE").with_shift().with_accent_key(KeyCombo::new("Quote").with_shift()));
    let l = l.with_char('É', KeyCombo::new("KeyE").with_shift().with_accent_key(KeyCombo::new("Quote")));
    let l = l.with_char('Ê', KeyCombo::new("KeyE").with_shift().with_accent_key(KeyCombo::new("BracketRight").with_shift()));
    let l = l.with_char('È', KeyCombo::new("KeyE").with_shift().with_accent_key(KeyCombo::new("BracketRight")));
    let l = l.with_char('Ẽ', KeyCombo::new("KeyE").with_shift().with_accent_key(KeyCombo::new("Digit4").with_alt_right()));
    let l = l.with_char('F', KeyCombo::new("KeyF").with_shift());
    let l = l.with_char('G', KeyCombo::new("KeyG").with_shift());
    let l = l.with_char('H', KeyCombo::new("KeyH").with_shift());
    let l = l.with_char('I', KeyCombo::new("KeyI").with_shift());
    let l = l.with_char('Ï', KeyCombo::new("KeyI").with_shift().with_accent_key(KeyCombo::new("Quote").with_shift()));
    let l = l.with_char('Í', KeyCombo::new("KeyI").with_shift().with_accent_key(KeyCombo::new("Quote")));
    let l = l.with_char('Î', KeyCombo::new("KeyI").with_shift().with_accent_key(KeyCombo::new("BracketRight").with_shift()));
    let l = l.with_char('Ì', KeyCombo::new("KeyI").with_shift().with_accent_key(KeyCombo::new("BracketRight")));
    let l = l.with_char('Ĩ', KeyCombo::new("KeyI").with_shift().with_accent_key(KeyCombo::new("Digit4").with_alt_right()));
    let l = l.with_char('J', KeyCombo::new("KeyJ").with_shift());
    let l = l.with_char('K', KeyCombo::new("KeyK").with_shift());
    let l = l.with_char('L', KeyCombo::new("KeyL").with_shift());
    let l = l.with_char('M', KeyCombo::new("KeyM").with_shift());
    let l = l.with_char('N', KeyCombo::new("KeyN").with_shift());
    let l = l.with_char('O', KeyCombo::new("KeyO").with_shift());
    let l = l.with_char('Ö', KeyCombo::new("KeyO").with_shift().with_accent_key(KeyCombo::new("Quote").with_shift()));
    let l = l.with_char('Ó', KeyCombo::new("KeyO").with_shift().with_accent_key(KeyCombo::new("Quote")));
    let l = l.with_char('Ô', KeyCombo::new("KeyO").with_shift().with_accent_key(KeyCombo::new("BracketRight").with_shift()));
    let l = l.with_char('Ò', KeyCombo::new("KeyO").with_shift().with_accent_key(KeyCombo::new("BracketRight")));
    let l = l.with_char('Õ', KeyCombo::new("KeyO").with_shift().with_accent_key(KeyCombo::new("Digit4").with_alt_right()));
    let l = l.with_char('P', KeyCombo::new("KeyP").with_shift());
    let l = l.with_char('Q', KeyCombo::new("KeyQ").with_shift());
    let l = l.with_char('R', KeyCombo::new("KeyR").with_shift());
    let l = l.with_char('S', KeyCombo::new("KeyS").with_shift());
    let l = l.with_char('T', KeyCombo::new("KeyT").with_shift());
    let l = l.with_char('U', KeyCombo::new("KeyU").with_shift());
    let l = l.with_char('Ü', KeyCombo::new("KeyU").with_shift().with_accent_key(KeyCombo::new("Quote").with_shift()));
    let l = l.with_char('Ú', KeyCombo::new("KeyU").with_shift().with_accent_key(KeyCombo::new("Quote")));
    let l = l.with_char('Û', KeyCombo::new("KeyU").with_shift().with_accent_key(KeyCombo::new("BracketRight").with_shift()));
    let l = l.with_char('Ù', KeyCombo::new("KeyU").with_shift().with_accent_key(KeyCombo::new("BracketRight")));
    let l = l.with_char('Ũ', KeyCombo::new("KeyU").with_shift().with_accent_key(KeyCombo::new("Digit4").with_alt_right()));
    let l = l.with_char('V', KeyCombo::new("KeyV").with_shift());
    let l = l.with_char('W', KeyCombo::new("KeyW").with_shift());
    let l = l.with_char('X', KeyCombo::new("KeyX").with_shift());
    let l = l.with_char('Y', KeyCombo::new("KeyY").with_shift());
    let l = l.with_char('Z', KeyCombo::new("KeyZ").with_shift());
    let l = l.with_char('a', KeyCombo::new("KeyA"));
    let l = l.with_char('ä', KeyCombo::new("KeyA").with_accent_key(KeyCombo::new("Quote").with_shift()));
    let l = l.with_char('á', KeyCombo::new("KeyA").with_accent_key(KeyCombo::new("Quote")));
    let l = l.with_char('â', KeyCombo::new("KeyA").with_accent_key(KeyCombo::new("BracketRight").with_shift()));
    let l = l.with_char('à', KeyCombo::new("KeyA").with_accent_key(KeyCombo::new("BracketRight")));
    let l = l.with_char('ã', KeyCombo::new("KeyA").with_accent_key(KeyCombo::new("Digit4").with_alt_right()));
    let l = l.with_char('b', KeyCombo::new("KeyB"));
    let l = l.with_char('c', KeyCombo::new("KeyC"));
    let l = l.with_char('d', KeyCombo::new("KeyD"));
    let l = l.with_char('e', KeyCombo::new("KeyE"));
    let l = l.with_char('ë', KeyCombo::new("KeyE").with_accent_key(KeyCombo::new("Quote").with_shift()));
    let l = l.with_char('é', KeyCombo::new("KeyE").with_accent_key(KeyCombo::new("Quote")));
    let l = l.with_char('ê', KeyCombo::new("KeyE").with_accent_key(KeyCombo::new("BracketRight").with_shift()));
    let l = l.with_char('è', KeyCombo::new("KeyE").with_accent_key(KeyCombo::new("BracketRight")));
    let l = l.with_char('ẽ', KeyCombo::new("KeyE").with_accent_key(KeyCombo::new("Digit4").with_alt_right()));
    let l = l.with_char('€', KeyCombo::new("KeyE").with_alt_right());
    let l = l.with_char('f', KeyCombo::new("KeyF"));
    let l = l.with_char('g', KeyCombo::new("KeyG"));
    let l = l.with_char('h', KeyCombo::new("KeyH"));
    let l = l.with_char('i', KeyCombo::new("KeyI"));
    let l = l.with_char('ï', KeyCombo::new("KeyI").with_accent_key(KeyCombo::new("Quote").with_shift()));
    let l = l.with_char('í', KeyCombo::new("KeyI").with_accent_key(KeyCombo::new("Quote")));
    let l = l.with_char('î', KeyCombo::new("KeyI").with_accent_key(KeyCombo::new("BracketRight").with_shift()));
    let l = l.with_char('ì', KeyCombo::new("KeyI").with_accent_key(KeyCombo::new("BracketRight")));
    let l = l.with_char('ĩ', KeyCombo::new("KeyI").with_accent_key(KeyCombo::new("Digit4").with_alt_right()));
    let l = l.with_char('j', KeyCombo::new("KeyJ"));
    let l = l.with_char('k', KeyCombo::new("KeyK"));
    let l = l.with_char('l', KeyCombo::new("KeyL"));
    let l = l.with_char('m', KeyCombo::new("KeyM"));
    let l = l.with_char('n', KeyCombo::new("KeyN"));
    let l = l.with_char('o', KeyCombo::new("KeyO"));
    let l = l.with_char('ö', KeyCombo::new("KeyO").with_accent_key(KeyCombo::new("Quote").with_shift()));
    let l = l.with_char('ó', KeyCombo::new("KeyO").with_accent_key(KeyCombo::new("Quote")));
    let l = l.with_char('ô', KeyCombo::new("KeyO").with_accent_key(KeyCombo::new("BracketRight").with_shift()));
    let l = l.with_char('ò', KeyCombo::new("KeyO").with_accent_key(KeyCombo::new("BracketRight")));
    let l = l.with_char('õ', KeyCombo::new("KeyO").with_accent_key(KeyCombo::new("Digit4").with_alt_right()));
    let l = l.with_char('p', KeyCombo::new("KeyP"));
    let l = l.with_char('q', KeyCombo::new("KeyQ"));
    let l = l.with_char('r', KeyCombo::new("KeyR"));
    let l = l.with_char('s', KeyCombo::new("KeyS"));
    let l = l.with_char('t', KeyCombo::new("KeyT"));
    let l = l.with_char('u', KeyCombo::new("KeyU"));
    let l = l.with_char('ü', KeyCombo::new("KeyU").with_accent_key(KeyCombo::new("Quote").with_shift()));
    let l = l.with_char('ú', KeyCombo::new("KeyU").with_accent_key(KeyCombo::new("Quote")));
    let l = l.with_char('û', KeyCombo::new("KeyU").with_accent_key(KeyCombo::new("BracketRight").with_shift()));
    let l = l.with_char('ù', KeyCombo::new("KeyU").with_accent_key(KeyCombo::new("BracketRight")));
    let l = l.with_char('ũ', KeyCombo::new("KeyU").with_accent_key(KeyCombo::new("Digit4").with_alt_right()));
    let l = l.with_char('v', KeyCombo::new("KeyV"));
    let l = l.with_char('w', KeyCombo::new("KeyW"));
    let l = l.with_char('x', KeyCombo::new("KeyX"));
    let l = l.with_char('y', KeyCombo::new("KeyY"));
    let l = l.with_char('z', KeyCombo::new("KeyZ"));
    let l = l.with_char('º', KeyCombo::new("Backquote"));
    let l = l.with_char('ª', KeyCombo::new("Backquote").with_shift());
    let l = l.with_char('\\', KeyCombo::new("Backquote").with_alt_right());
    let l = l.with_char('1', KeyCombo::new("Digit1"));
    let l = l.with_char('!', KeyCombo::new("Digit1").with_shift());
    let l = l.with_char('|', KeyCombo::new("Digit1").with_alt_right());
    let l = l.with_char('2', KeyCombo::new("Digit2"));
    let l = l.with_char('"', KeyCombo::new("Digit2").with_shift());
    let l = l.with_char('@', KeyCombo::new("Digit2").with_alt_right());
    let l = l.with_char('3', KeyCombo::new("Digit3"));
    let l = l.with_char('·', KeyCombo::new("Digit3").with_shift());
    let l = l.with_char('#', KeyCombo::new("Digit3").with_alt_right());
    let l = l.with_char('4', KeyCombo::new("Digit4"));
    let l = l.with_char('$', KeyCombo::new("Digit4").with_shift());
    let l = l.with_char('5', KeyCombo::new("Digit5"));
    let l = l.with_char('%', KeyCombo::new("Digit5").with_shift());
    let l = l.with_char('6', KeyCombo::new("Digit6"));
    let l = l.with_char('&', KeyCombo::new("Digit6").with_shift());
    let l = l.with_char('¬', KeyCombo::new("Digit6").with_alt_right());
    let l = l.with_char('7', KeyCombo::new("Digit7"));
    let l = l.with_char('/', KeyCombo::new("Digit7").with_shift());
    let l = l.with_char('8', KeyCombo::new("Digit8"));
    let l = l.with_char('(', KeyCombo::new("Digit8").with_shift());
    let l = l.with_char('9', KeyCombo::new("Digit9"));
    let l = l.with_char(')', KeyCombo::new("Digit9").with_shift());
    let l = l.with_char('0', KeyCombo::new("Digit0"));
    let l = l.with_char('=', KeyCombo::new("Digit0").with_shift());
    let l = l.with_char('\'', KeyCombo::new("Minus"));
    let l = l.with_char('?', KeyCombo::new("Minus").with_shift());
    let l = l.with_char('¡', KeyCombo::new("Equal").with_dead_key());
    let l = l.with_char('¿', KeyCombo::new("Equal").with_shift());
    let l = l.with_char('[', KeyCombo::new("BracketLeft").with_alt_right());
    let l = l.with_char('+', KeyCombo::new("BracketRight"));
    let l = l.with_char('*', KeyCombo::new("BracketRight").with_shift());
    let l = l.with_char(']', KeyCombo::new("BracketRight").with_alt_right());
    let l = l.with_char('ñ', KeyCombo::new("Semicolon"));
    let l = l.with_char('Ñ', KeyCombo::new("Semicolon").with_shift());
    let l = l.with_char('{', KeyCombo::new("Quote").with_alt_right());
    let l = l.with_char('ç', KeyCombo::new("Backslash"));
    let l = l.with_char('Ç', KeyCombo::new("Backslash").with_shift());
    let l = l.with_char('}', KeyCombo::new("Backslash").with_alt_right());
    let l = l.with_char(',', KeyCombo::new("Comma"));
    let l = l.with_char(';', KeyCombo::new("Comma").with_shift());
    let l = l.with_char('.', KeyCombo::new("Period"));
    let l = l.with_char(':', KeyCombo::new("Period").with_shift());
    let l = l.with_char('-', KeyCombo::new("Slash"));
    let l = l.with_char('_', KeyCombo::new("Slash").with_shift());
    let l = l.with_char('<', KeyCombo::new("IntlBackslash"));
    let l = l.with_char('>', KeyCombo::new("IntlBackslash").with_shift());
    let l = l.with_char(' ', KeyCombo::new("Space"));
    let l = l.with_char('\n', KeyCombo::new("Enter"));
    l
}

} // verus!
