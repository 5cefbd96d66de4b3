use vstd::prelude::*;
use crate::error::KvmError;
use crate::keyboard_layout::{KeyComboView, KeyboardLayout};
use crate::keyboard_mappings::{key_name_to_hid, modifier_name_to_mask, spec_key_code, spec_modifier_mask};

verus! {

/// Abstract value of one macro step: the keys and modifier of a single
/// HID report, and the delay to hold it.
pub ghost struct MacroStepView {
    pub keys: Seq<u8>,
    pub modifier: u8,
    pub delay_ms: u64,
}

/// One step of a compiled keyboard macro: a HID report to send and the
/// delay, in milliseconds, to keep it held.
#[derive(Debug, Clone)]
pub struct MacroStep {
    pub keys: Vec<u8>,
    pub modifier: u8,
    pub delay_ms: u64,
}

impl View for MacroStep {
    type V = MacroStepView;

    open spec fn view(&self) -> MacroStepView {
        MacroStepView { keys: self.keys@, modifier: self.modifier, delay_ms: self.delay_ms }
    }
}

impl MacroStep {
    /// A step holding `keys` under `modifier` for `delay_ms` milliseconds.
    pub fn new(keys: Vec<u8>, modifier: u8, delay_ms: u64) -> (r: Self)
        ensures
            r@ == (MacroStepView { keys: keys@, modifier, delay_ms }),
    {
        Self { keys, modifier, delay_ms }
    }
}

/// The view of a compiled step vector.
pub open spec fn steps_view(v: Seq<MacroStep>) -> Seq<MacroStepView> {
    v.map_values(|s: MacroStep| s@)
}

/// The HID modifier byte a layout entry asks for: ShiftLeft and/or
/// AltRight.
pub open spec fn spec_entry_modifier(shift: bool, alt_right: bool) -> u8 {
    (if shift { 0x02u8 } else { 0u8 }) | (if alt_right { 0x40u8 } else { 0u8 })
}

/// The steps one layout entry compiles to: the accent prefix (if any),
/// the entry's own key, and a Space commit after a dead key. `None` marks
/// an entry whose key names have no HID code.
pub open spec fn spec_char_steps(e: KeyComboView, delay_ms: u64) -> Option<Seq<MacroStepView>> {
    match spec_key_code(e.key) {
        None => None,
        Some(code) => {
            let base = MacroStepView {
                keys: seq![code],
                modifier: spec_entry_modifier(e.shift, e.alt_right),
                delay_ms,
            };
            let prefixed = match e.accent_key {
                Some(a) => match spec_key_code(a.key) {
                    None => None,
                    Some(ac) => Some(
                        seq![
                            MacroStepView {
                                keys: seq![ac],
                                modifier: spec_entry_modifier(a.shift, a.alt_right),
                                delay_ms,
                            },
                            base,
                        ],
                    ),
                },
                None => Some(seq![base]),
            };
            match prefixed {
                None => None,
                Some(s) => Some(
                    if e.dead_key {
                        s.push(MacroStepView { keys: seq![0x2Cu8], modifier: 0, delay_ms })
                    } else {
                        s
                    },
                ),
            }
        },
    }
}

/// The whole-text compilation: the concatenation of each character's
/// steps, or the first failure (an unmapped character, or an entry whose
/// key names are unknown).
pub open spec fn spec_text_steps(
    text: Seq<char>,
    chars: Map<u32, KeyComboView>,
    delay_ms: u64,
) -> Result<Seq<MacroStepView>, KvmError>
    decreases text.len(),
{
    if text.len() == 0 {
        Ok(seq![])
    } else {
        let c = text[0];
        if !chars.contains_key(c as u32) {
            Err(KvmError::UnsupportedCharacter(c))
        } else {
            match spec_char_steps(chars[c as u32], delay_ms) {
                None => Err(KvmError::ConfigInvalid),
                Some(s) => match spec_text_steps(text.drop_first(), chars, delay_ms) {
                    Ok(rest) => Ok(s + rest),
                    Err(e) => Err(e),
                },
            }
        }
    }
}

/// `spec_key_code` on the names the compiler itself consults, evaluated.
pub proof fn lemma_builtin_codes()
    ensures
        spec_key_code("Space"@) == Some(0x2Cu8),
        spec_modifier_mask("ShiftLeft"@) == Some(0x02u8),
        spec_modifier_mask("AltRight"@) == Some(0x40u8),
{
    reveal_strlit("KeyA");
    reveal_strlit("KeyB");
    reveal_strlit("KeyC");
    reveal_strlit("KeyD");
    reveal_strlit("KeyE");
    reveal_strlit("KeyF");
    reveal_strlit("KeyG");
    reveal_strlit("KeyH");
    reveal_strlit("KeyI");
    reveal_strlit("KeyJ");
    reveal_strlit("KeyK");
    reveal_strlit("KeyL");
    reveal_strlit("KeyM");
    reveal_strlit("KeyN");
    reveal_strlit("KeyO");
    reveal_strlit("KeyP");
    reveal_strlit("KeyQ");
    reveal_strlit("KeyR");
    reveal_strlit("KeyS");
    reveal_strlit("KeyT");
    reveal_strlit("KeyU");
    reveal_strlit("KeyV");
    reveal_strlit("KeyW");
    reveal_strlit("KeyX");
    reveal_strlit("KeyY");
    reveal_strlit("KeyZ");
    reveal_strlit("Digit1");
    reveal_strlit("Digit2");
    reveal_strlit("Digit3");
    reveal_strlit("Digit4");
    reveal_strlit("Digit5");
    reveal_strlit("Digit6");
    reveal_strlit("Digit7");
    reveal_strlit("Digit8");
    reveal_strlit("Digit9");
    reveal_strlit("Digit0");
    reveal_strlit("Enter");
    reveal_strlit("Escape");
    reveal_strlit("Backspace");
    reveal_strlit("Tab");
    reveal_strlit("Space");
    reveal_strlit("ControlLeft");
    reveal_strlit("ShiftLeft");
    reveal_strlit("AltLeft");
    reveal_strlit("MetaLeft");
    reveal_strlit("ControlRight");
    reveal_strlit("ShiftRight");
    reveal_strlit("AltRight");
    assert("ShiftLeft"@.len() == 9);
    assert("ControlLeft"@.len() == 11);
    assert("ShiftLeft"@ != "ControlLeft"@);
    assert("Space"@[0] == 'S');
    assert("Enter"@[0] == 'E');
    assert("AltLeft"@.len() == 7);
    assert("MetaLeft"@.len() == 8);
    assert("AltRight"@.len() == 8);
    assert("ControlRight"@.len() == 12);
    assert("ShiftRight"@.len() == 10);
    assert("AltRight"@[0] == 'A');
    assert("MetaLeft"@[0] == 'M');
    assert("AltRight"@ != "MetaLeft"@);
}

/// Computes the modifier byte an entry asks for, through the name table.
fn entry_modifier(shift: bool, alt_right: bool) -> (r: u8)
    ensures
        r == spec_entry_modifier(shift, alt_right),
{
    proof {
        lemma_builtin_codes();
    }
    let vs: u8 = if shift {
        match modifier_name_to_mask("ShiftLeft") {
            Some(v) => v,
            None => 0,
        }
    } else {
        0
    };
    let va: u8 = if alt_right {
        match modifier_name_to_mask("AltRight") {
            Some(v) => v,
            None => 0,
        }
    } else {
        0
    };
    vs | va
}

/// Compiles `text` against `layout` into an ordered list of macro steps,
/// exactly as `spec_text_steps` describes: per character, an optional
/// accent-prefix step, the entry's own step, and a Space commit after a
/// dead key. Fails on the first character the layout does not map
/// (`UnsupportedCharacter`) or whose entry names an unknown key
/// (`ConfigInvalid`).
pub fn text_to_macro_steps(text: &str, layout: &KeyboardLayout, delay_ms: u64) -> (r: Result<
    Vec<MacroStep>,
    KvmError,
>)
    ensures
        (match r {
            Ok(steps) => spec_text_steps(text@, layout@.chars, delay_ms) == Ok::<_, KvmError>(
                steps_view(steps@),
            ),
            Err(e) => spec_text_steps(text@, layout@.chars, delay_ms) == Err::<
                Seq<MacroStepView>,
                _,
            >(e),
        }),
{
    proof {
        lemma_builtin_codes();
    }
    let ghost m = layout@.chars;
    let mut steps: Vec<MacroStep> = Vec::new();
    let n = text.unicode_len();
    let mut i: usize = 0;
    proof {
        assert(text@.skip(0) =~= text@);
        assert(steps_view(steps@) =~= Seq::<MacroStepView>::empty());
        match spec_text_steps(text@, m, delay_ms) {
            Ok(rest) => {
                assert(steps_view(steps@) + rest =~= rest);
            },
            Err(_) => {},
        }
    }
    while i < n
        invariant
            i <= n,
            n == text@.len(),
            m == layout@.chars,
            spec_key_code("Space"@) == Some(0x2Cu8),
            (match spec_text_steps(text@.skip(i as int), m, delay_ms) {
                Ok(rest) => spec_text_steps(text@, m, delay_ms) == Ok::<_, KvmError>(
                    steps_view(steps@) + rest,
                ),
                Err(e) => spec_text_steps(text@, m, delay_ms) == Err::<Seq<MacroStepView>, _>(e),
            }),
        decreases n - i,
    {
        let ghost steps0 = steps@;
        let c = text.get_char(i);
        let ghost tail = text@.skip(i as int);
        proof {
            assert(tail[0] == c);
            assert(tail.drop_first() =~= text@.skip(i as int + 1));
        }
        let entry_opt = layout.get_char(c);
        match entry_opt {
            None => {
                return Err(KvmError::UnsupportedCharacter(c));
            },
            Some(kc) => {
                let ghost ev = kc@;
                match &kc.accent_key {
                    Some(acc) => {
                        match key_name_to_hid(acc.key.as_str()) {
                            None => {
                                return Err(KvmError::ConfigInvalid);
                            },
                            Some(ah) => {
                                let am = entry_modifier(acc.shift, acc.alt_right);
                                let mut ks: Vec<u8> = Vec::new();
                                ks.push(ah);
                                proof {
                                    assert(ks@ =~= seq![ah]);
                                }
                                steps.push(MacroStep::new(ks, am, delay_ms));
                            },
                        }
                    },
                    None => {},
                }
                match key_name_to_hid(kc.key.as_str()) {
                    None => {
                        return Err(KvmError::ConfigInvalid);
                    },
                    Some(kh) => {
                        let km = entry_modifier(kc.shift, kc.alt_right);
                        let mut ks: Vec<u8> = Vec::new();
                        ks.push(kh);
                        proof {
                            assert(ks@ =~= seq![kh]);
                        }
                        steps.push(MacroStep::new(ks, km, delay_ms));
                    },
                }
                if kc.dead_key {
                    let sh = match key_name_to_hid("Space") {
                        Some(v) => v,
                        None => 0,
                    };
                    let mut ks: Vec<u8> = Vec::new();
                    ks.push(sh);
                    proof {
                        assert(ks@ =~= seq![sh]);
                    }
                    steps.push(MacroStep::new(ks, 0, delay_ms));
                }
                proof {
                    let cs = spec_char_steps(ev, delay_ms)->0;
                    assert(steps_view(steps@) =~= steps_view(steps0) + cs);
                    let rest_r = spec_text_steps(text@.skip(i as int + 1), m, delay_ms);
                    match rest_r {
                        Ok(rest2) => {
                            assert(spec_text_steps(tail, m, delay_ms) == Ok::<_, KvmError>(
                                cs + rest2,
                            ));
                            assert(steps_view(steps0) + (cs + rest2) =~= steps_view(steps@)
                                + rest2);
                        },
                        Err(e) => {},
                    }
                }
            },
        }
        i = i + 1;
    }
    proof {
        assert(text@.skip(n as int) =~= Seq::<char>::empty());
    }
    Ok(steps)
}

/// The layout table that a layout code selects: `es-ES` for that code,
/// `en-US` for every other.
pub open spec fn spec_layout_for(code: Seq<char>) -> crate::keyboard_layout::LayoutView {
    if code == "es-ES"@ {
        crate::keyboard_layouts::es_es::es_es_layout()
    } else {
        crate::keyboard_layouts::en_us::en_us_layout()
    }
}

/// Compiles `text` under the layout registered for `iso_code`, falling
/// back to `en-US` for an unknown code.
pub fn text_to_macro_steps_with_layout_code(text: &str, iso_code: &str, delay_ms: u64) -> (r:
    Result<Vec<MacroStep>, KvmError>)
    ensures
        (match r {
            Ok(steps) => spec_text_steps(text@, spec_layout_for(iso_code@).chars, delay_ms)
                == Ok::<_, KvmError>(steps_view(steps@)),
            Err(e) => spec_text_steps(text@, spec_layout_for(iso_code@).chars, delay_ms) == Err::<
                Seq<MacroStepView>,
                _,
            >(e),
        }),
{
    let layout = crate::keyboard_layout::get_layout_or_default(iso_code);
    text_to_macro_steps(text, &layout, delay_ms)
}

/// How many steps one entry compiles to.
pub open spec fn spec_char_step_count(e: KeyComboView) -> int {
    1 + (if e.accent_key is Some {
        1int
    } else {
        0int
    }) + (if e.dead_key {
        1int
    } else {
        0int
    })
}

/// How many steps a whole text compiles to, counting only mapped
/// characters.
pub open spec fn spec_step_count(text: Seq<char>, chars: Map<u32, KeyComboView>) -> int
    decreases text.len(),
{
    if text.len() == 0 {
        0
    } else if !chars.contains_key(text[0] as u32) {
        0
    } else {
        spec_char_step_count(chars[text[0] as u32]) + spec_step_count(text.drop_first(), chars)
    }
}

/// A layout entry without an accent prefix compiles to exactly one step
/// per character; one with a prefix to exactly two; a dead-key entry gets
/// one further Space-commit step.
pub proof fn lemma_char_step_count(e: KeyComboView, delay_ms: u64)
    ensures
        spec_char_steps(e, delay_ms) matches Some(s) ==> s.len() == spec_char_step_count(e),
{
}

/// Over a whole text, a successful compilation has exactly the sum of the
/// per-character step counts.
pub proof fn lemma_text_step_count(text: Seq<char>, chars: Map<u32, KeyComboView>, delay_ms: u64)
    ensures
        spec_text_steps(text, chars, delay_ms) matches Ok(s) ==> s.len() == spec_step_count(
            text,
            chars,
        ),
    decreases text.len(),
{
    if text.len() == 0 {
    } else {
        lemma_text_step_count(text.drop_first(), chars, delay_ms);
    }
}

} // verus!
