use jetkvm_control::keyboard_layout::{get_layout, get_layout_or_default};
use jetkvm_control::keyboard_mappings::{key_name_to_hid, modifier_name_to_mask};
use jetkvm_control::text_to_macro::text_to_macro_steps_with_layout_code;

#[test]
fn test_en_us_layout_basic_chars() {
    let layout = get_layout("en-US").unwrap();

    assert!(layout.get_char('a').is_some());
    assert!(layout.get_char('A').is_some());
    assert!(layout.get_char('1').is_some());
    assert!(layout.get_char('!').is_some());
    assert!(layout.get_char(' ').is_some());
    assert!(layout.get_char('\n').is_some());
}

#[test]
fn test_en_us_uppercase_requires_shift() {
    let layout = get_layout("en-US").unwrap();

    let lowercase_a = layout.get_char('a').unwrap();
    let uppercase_a = layout.get_char('A').unwrap();

    assert!(!lowercase_a.shift);
    assert!(uppercase_a.shift);
}

#[test]
fn test_es_es_layout_accented_chars() {
    let layout = get_layout("es-ES").unwrap();

    assert!(layout.get_char('á').is_some());
    assert!(layout.get_char('é').is_some());
    assert!(layout.get_char('í').is_some());
    assert!(layout.get_char('ó').is_some());
    assert!(layout.get_char('ú').is_some());
    assert!(layout.get_char('ñ').is_some());
    assert!(layout.get_char('Ñ').is_some());
}

#[test]
fn test_es_es_accented_chars_have_accent_key() {
    let layout = get_layout("es-ES").unwrap();

    let a_acute = layout.get_char('á').unwrap();
    assert!(a_acute.accent_key.is_some());

    let plain_a = layout.get_char('a').unwrap();
    assert!(plain_a.accent_key.is_none());
}

#[test]
fn test_text_to_macro_simple() {
    let result = text_to_macro_steps_with_layout_code("hello", "en-US", 20);
    assert!(result.is_ok());

    let steps = result.unwrap();
    assert_eq!(steps.len(), 5);
}

#[test]
fn test_text_to_macro_with_accents() {
    let result = text_to_macro_steps_with_layout_code("hola", "es-ES", 20);
    assert!(result.is_ok());

    let steps = result.unwrap();
    assert_eq!(steps.len(), 4);
}

#[test]
fn test_text_to_macro_with_accented_char() {
    let result = text_to_macro_steps_with_layout_code("á", "es-ES", 20);
    assert!(result.is_ok());

    let steps = result.unwrap();
    assert_eq!(steps.len(), 2);
}

#[test]
fn test_unsupported_char_returns_error() {
    let result = text_to_macro_steps_with_layout_code("日本", "en-US", 20);
    assert!(result.is_err());
}

#[test]
fn test_default_layout_fallback() {
    let layout = get_layout_or_default("invalid-code");
    assert_eq!(layout.iso_code, "en-US");
}

#[test]
fn test_key_mappings_exist() {
    assert_eq!(key_name_to_hid("KeyA"), Some(0x04));
    assert_eq!(key_name_to_hid("Enter"), Some(0x28));
    assert_eq!(key_name_to_hid("Space"), Some(0x2c));

    assert_eq!(modifier_name_to_mask("ShiftLeft"), Some(0x02));
    assert_eq!(modifier_name_to_mask("ControlLeft"), Some(0x01));
    assert_eq!(modifier_name_to_mask("AltRight"), Some(0x40));
}

#[test]
fn test_unknown_layout_code_is_none() {
    assert!(get_layout("de-DE").is_none());
    assert!(get_layout("").is_none());
}

#[test]
fn test_accented_macro_step_values() {
    // 'á' on es-ES: the acute accent sits on Quote (0x34) with no
    // modifier, then KeyA (0x04) with no modifier.
    let steps = text_to_macro_steps_with_layout_code("á", "es-ES", 20).unwrap();
    assert_eq!(steps[0].keys, vec![0x34]);
    assert_eq!(steps[0].modifier, 0);
    assert_eq!(steps[0].delay_ms, 20);
    assert_eq!(steps[1].keys, vec![0x04]);
    assert_eq!(steps[1].modifier, 0);
}

#[test]
fn test_dead_key_gets_space_commit() {
    // '¡' on es-ES is a dead key on Equal (0x2E): its step is followed
    // by a Space (0x2C) commit step.
    let steps = text_to_macro_steps_with_layout_code("¡", "es-ES", 20).unwrap();
    assert_eq!(steps.len(), 2);
    assert_eq!(steps[0].keys, vec![0x2E]);
    assert_eq!(steps[1].keys, vec![0x2C]);
    assert_eq!(steps[1].modifier, 0);
}

#[test]
fn test_uppercase_macro_has_shift_modifier() {
    let steps = text_to_macro_steps_with_layout_code("A", "en-US", 20).unwrap();
    assert_eq!(steps.len(), 1);
    assert_eq!(steps[0].keys, vec![0x04]);
    assert_eq!(steps[0].modifier, 0x02);
}

#[test]
fn test_altgr_macro_has_altgr_modifier() {
    // '@' on es-ES sits on Digit2 with AltGr (0x40).
    let steps = text_to_macro_steps_with_layout_code("@", "es-ES", 20).unwrap();
    assert_eq!(steps.len(), 1);
    assert_eq!(steps[0].keys, vec![0x1F]);
    assert_eq!(steps[0].modifier, 0x40);
}
