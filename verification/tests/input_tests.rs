use jetkvm_control::console::{translate_key, ConsoleAction, ConsoleKey};
use jetkvm_control::error::KvmError;
use jetkvm_control::keyboard::{
    char_to_hid, plan_key_combinations, plan_sendtext, plan_tap, plan_text_with_layout,
    KeyCombo, KeyboardAction,
};
use jetkvm_control::mouse::{plan_click, plan_double_click, plan_drag_to_center, MouseAction};

fn reports(plan: &[KeyboardAction]) -> Vec<(u8, Vec<u8>)> {
    let mut out = Vec::new();
    for a in plan {
        if let KeyboardAction::Report(r) = a {
            out.push((r.modifier, r.keys.clone()));
        }
    }
    out
}

fn combo(modifier: u8, keys: Vec<u8>) -> KeyCombo {
    KeyCombo {
        modifier,
        keys,
        hold_keys: false,
        hold_modifiers: false,
        hold: Some(100),
        wait: Some(10),
        instant_release: Some(true),
        clear_keys: None,
    }
}

#[test]
fn test_char_to_hid_values() {
    assert_eq!(char_to_hid('a'), Some((0, 0x04)));
    assert_eq!(char_to_hid('z'), Some((0, 0x1D)));
    assert_eq!(char_to_hid('A'), Some((0x02, 0x04)));
    assert_eq!(char_to_hid('1'), Some((0, 0x1E)));
    assert_eq!(char_to_hid('0'), Some((0, 0x27)));
    assert_eq!(char_to_hid(' '), Some((0, 0x2C)));
    assert_eq!(char_to_hid('!'), Some((0x02, 0x1E)));
    assert_eq!(char_to_hid('?'), Some((0x02, 0x38)));
    assert_eq!(char_to_hid('é'), None);
}

#[test]
fn test_sendtext_empty_issues_no_reports() {
    let plan = plan_sendtext("");
    assert_eq!(plan.len(), 0);
}

#[test]
fn test_sendtext_press_release_pairs() {
    let plan = plan_sendtext("Hi");
    let rs = reports(&plan);
    // 'H' press, release, 'i' press, release
    assert_eq!(
        rs,
        vec![
            (0x02, vec![0x0B]),
            (0, vec![]),
            (0, vec![0x0C]),
            (0, vec![]),
        ]
    );
    // a 10 ms pause follows every report
    assert_eq!(plan.len(), 8);
}

#[test]
fn test_sendtext_skips_unsupported() {
    let plan = plan_sendtext("日");
    assert_eq!(plan.len(), 0);
}

#[test]
fn test_layout_typing_accent_emits_two_reports() {
    // Spanish accent: two key reports (accent, then base key), each
    // followed by a release; no third key report.
    let plan = plan_text_with_layout("á", "es-ES", 20).unwrap();
    let rs = reports(&plan);
    assert_eq!(
        rs,
        vec![
            (0, vec![0x34]),
            (0, vec![]),
            (0, vec![0x04]),
            (0, vec![]),
        ]
    );
}

#[test]
fn test_layout_typing_unsupported_fails() {
    let r = plan_text_with_layout("日", "en-US", 20);
    assert!(matches!(r, Err(KvmError::UnsupportedCharacter('日'))));
}

#[test]
fn test_tap_plan_shape() {
    let plan = plan_tap(0x01, vec![0x06]);
    let rs = reports(&plan);
    assert_eq!(rs, vec![(0x01, vec![0x06]), (0, vec![])]);
    assert!(matches!(plan[1], KeyboardAction::Pause(100)));
}

#[test]
fn test_empty_chord_issues_no_reports() {
    let plan = plan_key_combinations(&vec![]).unwrap();
    assert_eq!(plan.len(), 0);
}

#[test]
fn test_six_keys_accepted_seventh_rejected() {
    let mut six = combo(0, vec![0x04, 0x05, 0x06, 0x07, 0x08, 0x09]);
    six.hold = None;
    six.instant_release = None;
    assert!(plan_key_combinations(&vec![six]).is_ok());

    let mut seven = combo(0, vec![0x04, 0x05, 0x06, 0x07, 0x08, 0x09, 0x0A]);
    seven.hold = None;
    seven.instant_release = None;
    assert!(matches!(
        plan_key_combinations(&vec![seven]),
        Err(KvmError::ConfigInvalid)
    ));
}

#[test]
fn test_chord_hold_instant_release_sequence() {
    // Ctrl+A then Ctrl+C, each held 100 ms and instantly released: at
    // least four reports, and no report carries both keys at once.
    let plan =
        plan_key_combinations(&vec![combo(0x01, vec![0x04]), combo(0x01, vec![0x06])]).unwrap();
    let rs = reports(&plan);
    assert!(rs.len() >= 4);
    assert_eq!(rs[0], (0x01, vec![0x04]));
    assert!(rs.iter().any(|r| *r == (0x01, vec![0x06])));
    for (_, keys) in &rs {
        assert!(!(keys.contains(&0x04) && keys.contains(&0x06)));
    }
    // the releases really clear the non-sticky state
    assert_eq!(rs[rs.len() - 1], (0, vec![]));
}

#[test]
fn test_chord_sticky_modifier_survives() {
    let mut shift = combo(0x02, vec![]);
    shift.hold_modifiers = true;
    shift.hold = None;
    shift.instant_release = None;
    let mut a = combo(0, vec![0x04]);
    a.hold = Some(50);
    a.instant_release = None;
    let plan = plan_key_combinations(&vec![shift, a]).unwrap();
    let rs = reports(&plan);
    // the sticky shift stays set through the second combo's release
    assert_eq!(rs[rs.len() - 1], (0x02, vec![]));
}

#[test]
fn test_chord_clear_keys_resets_everything() {
    let mut held = combo(0x01, vec![0x04]);
    held.hold_keys = true;
    held.hold_modifiers = true;
    held.hold = None;
    held.instant_release = None;
    let mut clear = combo(0, vec![]);
    clear.hold = None;
    clear.instant_release = None;
    clear.clear_keys = Some(true);
    let plan = plan_key_combinations(&vec![held, clear]).unwrap();
    let rs = reports(&plan);
    assert_eq!(rs[rs.len() - 1], (0, vec![]));
}

#[test]
fn test_click_plan_shape() {
    let plan = plan_click(10, 20, 1);
    assert_eq!(
        plan,
        vec![
            MouseAction::Report { x: 10, y: 20, buttons: 0 },
            MouseAction::Report { x: 10, y: 20, buttons: 1 },
            MouseAction::Pause(100),
            MouseAction::Report { x: 10, y: 20, buttons: 0 },
        ]
    );
}

#[test]
fn test_double_click_pause_between() {
    let plan = plan_double_click(5, 5);
    assert_eq!(plan.len(), 9);
    assert_eq!(plan[4], MouseAction::Pause(150));
}

#[test]
fn test_drag_plan_interpolates_to_center() {
    let plan = plan_drag_to_center(0, 0);
    // 4 lead-in actions, 100 interpolation pairs, the release
    assert_eq!(plan.len(), 205);
    assert_eq!(plan[0], MouseAction::Report { x: 0, y: 0, buttons: 0 });
    // halfway point: 50% of the way from (0,0) to (960,540)
    assert_eq!(
        plan[4 + 49 * 2],
        MouseAction::Report { x: 480, y: 270, buttons: 1 }
    );
    // the final report is the release at the centre
    assert_eq!(
        plan[plan.len() - 1],
        MouseAction::Report { x: 960, y: 540, buttons: 0 }
    );
}

#[test]
fn test_console_translation() {
    assert_eq!(
        translate_key(ConsoleKey::Char('x')),
        ConsoleAction::Send(vec![b'x'])
    );
    assert_eq!(
        translate_key(ConsoleKey::Ctrl('c')),
        ConsoleAction::Send(vec![3])
    );
    assert_eq!(translate_key(ConsoleKey::Ctrl('4')), ConsoleAction::Exit);
    assert_eq!(
        translate_key(ConsoleKey::Backspace),
        ConsoleAction::Send(vec![8])
    );
    assert_eq!(translate_key(ConsoleKey::Esc), ConsoleAction::Send(vec![27]));
    assert_eq!(
        translate_key(ConsoleKey::Up),
        ConsoleAction::Send(vec![27, 91, 65])
    );
    assert_eq!(
        translate_key(ConsoleKey::Left),
        ConsoleAction::Send(vec![27, 91, 68])
    );
    assert_eq!(translate_key(ConsoleKey::Other), ConsoleAction::Ignore);
}

#[test]
fn test_hello_typing_session_report_count() {
    // a GUI tap, "notepad", Return, then "Hello World": every plan ends
    // released, and the report count is exactly 2 + 14 + 2 + 22
    let mut rs = Vec::new();
    rs.extend(reports(&plan_tap(0x08, vec![])));
    rs.extend(reports(&plan_sendtext("notepad")));
    rs.extend(reports(&plan_tap(0, vec![0x28])));
    rs.extend(reports(&plan_sendtext("Hello World")));
    assert_eq!(rs.len(), 40);
    assert_eq!(rs[rs.len() - 1], (0, vec![]));
}

#[test]
fn test_instant_release_keeps_sticky_modifier() {
    // a sticky modifier survives its own instant release; only the keys
    // and non-sticky modifiers are taken back out
    let mut shift = combo(0x02, vec![0x04]);
    shift.hold_modifiers = true;
    shift.hold = None;
    let plan = plan_key_combinations(&vec![shift]).unwrap();
    let rs = reports(&plan);
    assert_eq!(rs, vec![(0x02, vec![0x04]), (0x02, vec![])]);
}
