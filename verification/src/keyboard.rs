use vstd::prelude::*;
use crate::error::KvmError;
use crate::text_to_macro::{MacroStepView, spec_layout_for, spec_text_steps, steps_view};

verus! {

/// Abstract value of one HID keyboard report.
pub ghost struct HidReportView {
    pub modifier: u8,
    pub keys: Seq<u8>,
}

/// One HID keyboard report: the modifier bitmask and the keys held.
#[derive(Debug, Clone)]
pub struct HidReport {
    pub modifier: u8,
    pub keys: Vec<u8>,
}

impl View for HidReport {
    type V = HidReportView;

    open spec fn view(&self) -> HidReportView {
        HidReportView { modifier: self.modifier, keys: self.keys@ }
    }
}

/// Abstract value of one step of a keyboard plan.
pub ghost enum KeyboardActionView {
    Report(HidReportView),
    Pause(u64),
}

/// One step of a keyboard plan: either a report to send on the RPC
/// stream, or a pause in milliseconds before the next step.
#[derive(Debug, Clone)]
pub enum KeyboardAction {
    Report(HidReport),
    Pause(u64),
}

impl View for KeyboardAction {
    type V = KeyboardActionView;

    open spec fn view(&self) -> KeyboardActionView {
        match self {
            KeyboardAction::Report(r) => KeyboardActionView::Report(r@),
            KeyboardAction::Pause(ms) => KeyboardActionView::Pause(*ms),
        }
    }
}

/// The view of a plan vector.
pub open spec fn plan_view(v: Seq<KeyboardAction>) -> Seq<KeyboardActionView> {
    v.map_values(|a: KeyboardAction| a@)
}

/// A report action, in spec form.
pub open spec fn spec_report(modifier: u8, keys: Seq<u8>) -> KeyboardActionView {
    KeyboardActionView::Report(HidReportView { modifier, keys })
}

/// The `(modifier, key code)` pair an ASCII character maps to in the
/// built-in US table, or `None` for an unsupported character.
///
/// Letters sit at 0x04..0x1D with shift for upper case, digits 1..9 at
/// 0x1E..0x26 and 0 at 0x27, and the punctuation table follows the US
/// keyboard with shift for the upper symbol of each key.
pub open spec fn spec_char_to_hid(c: char) -> Option<(u8, u8)> {
    let u = c as u32;
    if 97 <= u <= 122 {  // 'a'..='z'
        Some((0u8, ((u - 97) + 0x04) as u8))
    } else if 65 <= u <= 90 {  // 'A'..='Z'
        Some((0x02u8, ((u - 65) + 0x04) as u8))
    } else if 49 <= u <= 57 {  // '1'..='9'
        Some((0u8, ((u - 49) + 0x1E) as u8))
    } else if u == 48 {  // '0'
        Some((0u8, 0x27u8))
    } else if u == 32 {  // space
        Some((0u8, 0x2Cu8))
    } else {
        spec_punct_to_hid(u)
    }
}

/// The punctuation rows of the built-in US table, by code point.
pub open spec fn spec_punct_to_hid(u: u32) -> Option<(u8, u8)> {
    if u == 33 {  // '!'
        Some((0x02u8, 0x1Eu8))
    } else if u == 64 {  // '@'
        Some((0x02u8, 0x1Fu8))
    } else if u == 35 {  // '#'
        Some((0x02u8, 0x20u8))
    } else if u == 36 {  // '$'
        Some((0x02u8, 0x21u8))
    } else if u == 37 {  // '%'
        Some((0x02u8, 0x22u8))
    } else if u == 94 {  // '^'
        Some((0x02u8, 0x23u8))
    } else if u == 38 {  // '&'
        Some((0x02u8, 0x24u8))
    } else if u == 42 {  // '*'
        Some((0x02u8, 0x25u8))
    } else if u == 40 {  // '('
        Some((0x02u8, 0x26u8))
    } else if u == 41 {  // ')'
        Some((0x02u8, 0x27u8))
    } else if u == 45 {  // '-'
        Some((0u8, 0x2Du8))
    } else if u == 95 {  // '_'
        Some((0x02u8, 0x2Du8))
    } else if u == 61 {  // '='
        Some((0u8, 0x2Eu8))
    } else if u == 43 {  // '+'
        Some((0x02u8, 0x2Eu8))
    } else if u == 91 {  // '['
        Some((0u8, 0x2Fu8))
    } else if u == 123 {  // '{'
        Some((0x02u8, 0x2Fu8))
    } else if u == 93 {  // ']'
        Some((0u8, 0x30u8))
    } else if u == 125 {  // '}'
        Some((0x02u8, 0x30u8))
    } else if u == 92 {  // backslash
        Some((0u8, 0x31u8))
    } else if u == 124 {  // '|'
        Some((0x02u8, 0x31u8))
    } else if u == 59 {  // ';'
        Some((0u8, 0x33u8))
    } else if u == 58 {  // ':'
        Some((0x02u8, 0x33u8))
    } else if u == 39 {  // single quote
        Some((0u8, 0x34u8))
    } else if u == 34 {  // double quote
        Some((0x02u8, 0x34u8))
    } else if u == 96 {  // backquote
        Some((0u8, 0x35u8))
    } else if u == 126 {  // '~'
        Some((0x02u8, 0x35u8))
    } else if u == 44 {  // ','
        Some((0u8, 0x36u8))
    } else if u == 60 {  // '<'
        Some((0x02u8, 0x36u8))
    } else if u == 46 {  // '.'
        Some((0u8, 0x37u8))
    } else if u == 62 {  // '>'
        Some((0x02u8, 0x37u8))
    } else if u == 47 {  // '/'
        Some((0u8, 0x38u8))
    } else if u == 63 {  // '?'
        Some((0x02u8, 0x38u8))
    } else {
        None
    }
}

/// Maps an ASCII character to its `(modifier, key code)` pair in the
/// built-in US table.
pub fn char_to_hid(c: char) -> (r: Option<(u8, u8)>)
    ensures
        r == spec_char_to_hid(c),
{
    let u = c as u32;
    if 97 <= u && u <= 122 {
        Some((0, ((u - 97) + 0x04) as u8))
    } else if 65 <= u && u <= 90 {
        Some((0x02, ((u - 65) + 0x04) as u8))
    } else if 49 <= u && u <= 57 {
        Some((0, ((u - 49) + 0x1E) as u8))
    } else if u == 48 {
        Some((0, 0x27))
    } else if u == 32 {
        Some((0, 0x2C))
    } else if u == 33 {
        Some((0x02, 0x1E))
    } else if u == 64 {
        Some((0x02, 0x1F))
    } else if u == 35 {
        Some((0x02, 0x20))
    } else if u == 36 {
        Some((0x02, 0x21))
    } else if u == 37 {
        Some((0x02, 0x22))
    } else if u == 94 {
        Some((0x02, 0x23))
    } else if u == 38 {
        Some((0x02, 0x24))
    } else if u == 42 {
        Some((0x02, 0x25))
    } else if u == 40 {
        Some((0x02, 0x26))
    } else if u == 41 {
        Some((0x02, 0x27))
    } else if u == 45 {
        Some((0, 0x2D))
    } else if u == 95 {
        Some((0x02, 0x2D))
    } else if u == 61 {
        Some((0, 0x2E))
    } else if u == 43 {
        Some((0x02, 0x2E))
    } else if u == 91 {
        Some((0, 0x2F))
    } else if u == 123 {
        Some((0x02, 0x2F))
    } else if u == 93 {
        Some((0, 0x30))
    } else if u == 125 {
        Some((0x02, 0x30))
    } else if u == 92 {
        Some((0, 0x31))
    } else if u == 124 {
        Some((0x02, 0x31))
    } else if u == 59 {
        Some((0, 0x33))
    } else if u == 58 {
        Some((0x02, 0x33))
    } else if u == 39 {
        Some((0, 0x34))
    } else if u == 34 {
        Some((0x02, 0x34))
    } else if u == 96 {
        Some((0, 0x35))
    } else if u == 126 {
        Some((0x02, 0x35))
    } else if u == 44 {
        Some((0, 0x36))
    } else if u == 60 {
        Some((0x02, 0x36))
    } else if u == 46 {
        Some((0, 0x37))
    } else if u == 62 {
        Some((0x02, 0x37))
    } else if u == 47 {
        Some((0, 0x38))
    } else if u == 63 {
        Some((0x02, 0x38))
    } else {
        None
    }
}

/// The plan `plan_sendtext` produces for one character: press then
/// release, 10 ms after each, or nothing for an unsupported character.
pub open spec fn spec_sendtext_char(c: char) -> Seq<KeyboardActionView> {
    match spec_char_to_hid(c) {
        Some((m, k)) => seq![
            spec_report(m, seq![k]),
            KeyboardActionView::Pause(10),
            spec_report(0, seq![]),
            KeyboardActionView::Pause(10),
        ],
        None => seq![],
    }
}

/// The plan `plan_sendtext` produces for a whole text.
pub open spec fn spec_sendtext_plan(text: Seq<char>) -> Seq<KeyboardActionView>
    decreases text.len(),
{
    if text.len() == 0 {
        seq![]
    } else {
        spec_sendtext_char(text[0]) + spec_sendtext_plan(text.drop_first())
    }
}

/// Lays out the reports that type `text` through the built-in US table:
/// for each supported character a press and a release, 10 ms apart;
/// unsupported characters are skipped. The empty text yields the empty
/// plan.
pub fn plan_sendtext(text: &str) -> (r: Vec<KeyboardAction>)
    ensures
        plan_view(r@) == spec_sendtext_plan(text@),
{
    let mut plan: Vec<KeyboardAction> = Vec::new();
    let n = text.unicode_len();
    let mut i: usize = 0;
    proof {
        assert(text@.skip(0) =~= text@);
        assert(plan_view(plan@) + spec_sendtext_plan(text@) =~= spec_sendtext_plan(text@));
    }
    while i < n
        invariant
            i <= n,
            n == text@.len(),
            spec_sendtext_plan(text@) == plan_view(plan@) + spec_sendtext_plan(
                text@.skip(i as int),
            ),
        decreases n - i,
    {
        let ghost plan0 = plan@;
        let c = text.get_char(i);
        proof {
            assert(text@.skip(i as int)[0] == c);
            assert(text@.skip(i as int).drop_first() =~= text@.skip(i as int + 1));
        }
        match char_to_hid(c) {
            Some((m, k)) => {
                let mut keys: Vec<u8> = Vec::new();
                keys.push(k);
                proof {
                    assert(keys@ =~= seq![k]);
                }
                plan.push(KeyboardAction::Report(HidReport { modifier: m, keys }));
                plan.push(KeyboardAction::Pause(10));
                plan.push(KeyboardAction::Report(HidReport { modifier: 0, keys: Vec::new() }));
                plan.push(KeyboardAction::Pause(10));
                proof {
                    assert(plan_view(plan@) =~= plan_view(plan0) + spec_sendtext_char(c));
                    assert(plan_view(plan0) + (spec_sendtext_char(c) + spec_sendtext_plan(
                        text@.skip(i as int + 1),
                    )) =~= plan_view(plan@) + spec_sendtext_plan(text@.skip(i as int + 1)));
                }
            },
            None => {
                proof {
                    assert(plan_view(plan@) + spec_sendtext_plan(text@.skip(i as int + 1))
                        =~= plan_view(plan0) + (spec_sendtext_char(c) + spec_sendtext_plan(
                        text@.skip(i as int + 1),
                    )));
                }
            },
        }
        i = i + 1;
    }
    proof {
        assert(text@.skip(n as int) =~= Seq::<char>::empty());
        assert(plan_view(plan@) + spec_sendtext_plan(text@.skip(n as int)) =~= plan_view(plan@));
    }
    plan
}

/// The plan a compiled macro-step list expands to: each step pressed for
/// its own delay, then released for 10 ms.
pub open spec fn spec_steps_plan(steps: Seq<MacroStepView>) -> Seq<KeyboardActionView>
    decreases steps.len(),
{
    if steps.len() == 0 {
        seq![]
    } else {
        seq![
            spec_report(steps[0].modifier, steps[0].keys),
            KeyboardActionView::Pause(steps[0].delay_ms),
            spec_report(0, seq![]),
            KeyboardActionView::Pause(10),
        ] + spec_steps_plan(steps.drop_first())
    }
}

/// Lays out the reports that type `text` under the layout registered for
/// `layout_code` (`en-US` for an unknown code): per compiled macro step a
/// press held `delay_ms`, then a release held 10 ms. Fails exactly where
/// the macro compiler fails.
pub fn plan_text_with_layout(text: &str, layout_code: &str, delay_ms: u64) -> (r: Result<
    Vec<KeyboardAction>,
    KvmError,
>)
    ensures
        (match r {
            Ok(plan) => spec_text_steps(text@, spec_layout_for(layout_code@).chars, delay_ms)
                matches Ok(steps) && plan_view(plan@) == spec_steps_plan(steps),
            Err(e) => spec_text_steps(text@, spec_layout_for(layout_code@).chars, delay_ms)
                == Err::<Seq<MacroStepView>, _>(e),
        }),
{
    let steps = match crate::text_to_macro::text_to_macro_steps_with_layout_code(
        text,
        layout_code,
        delay_ms,
    ) {
        Ok(s) => s,
        Err(e) => {
            return Err(e);
        },
    };
    let ghost all = steps_view(steps@);
    let mut plan: Vec<KeyboardAction> = Vec::new();
    let n = steps.len();
    let mut i: usize = 0;
    proof {
        assert(all.skip(0) =~= all);
        assert(plan_view(plan@) + spec_steps_plan(all) =~= spec_steps_plan(all));
    }
    while i < n
        invariant
            i <= n,
            n == steps.len(),
            all == steps_view(steps@),
            spec_steps_plan(all) == plan_view(plan@) + spec_steps_plan(all.skip(i as int)),
        decreases n - i,
    {
        let ghost plan0 = plan@;
        proof {
            assert(all.skip(i as int)[0] == steps@[i as int]@);
            assert(all.skip(i as int).drop_first() =~= all.skip(i as int + 1));
        }
        let modifier = steps[i].modifier;
        let keys = steps[i].keys.clone();
        let delay = steps[i].delay_ms;
        proof {
            assert(keys@ == steps@[i as int].keys@);
        }
        plan.push(KeyboardAction::Report(HidReport { modifier, keys }));
        plan.push(KeyboardAction::Pause(delay));
        plan.push(KeyboardAction::Report(HidReport { modifier: 0, keys: Vec::new() }));
        plan.push(KeyboardAction::Pause(10));
        proof {
            assert(plan_view(plan@) =~= plan_view(plan0) + seq![
                spec_report(all[i as int].modifier, all[i as int].keys),
                KeyboardActionView::Pause(all[i as int].delay_ms),
                spec_report(0, seq![]),
                KeyboardActionView::Pause(10),
            ]);
            assert(plan_view(plan0) + (seq![
                spec_report(all[i as int].modifier, all[i as int].keys),
                KeyboardActionView::Pause(all[i as int].delay_ms),
                spec_report(0, seq![]),
                KeyboardActionView::Pause(10),
            ] + spec_steps_plan(all.skip(i as int + 1))) =~= plan_view(plan@) + spec_steps_plan(
                all.skip(i as int + 1),
            ));
        }
        i = i + 1;
    }
    proof {
        assert(all.skip(n as int) =~= Seq::<MacroStepView>::empty());
        assert(plan_view(plan@) + spec_steps_plan(all.skip(n as int)) =~= plan_view(plan@));
    }
    Ok(plan)
}

/// The plan of a single key tap: press `keys` under `modifier`, pause
/// 100 ms, release everything.
pub open spec fn spec_tap_plan(modifier: u8, keys: Seq<u8>) -> Seq<KeyboardActionView> {
    seq![
        spec_report(modifier, keys),
        KeyboardActionView::Pause(100),
        spec_report(0, seq![]),
    ]
}

/// Lays out a single tap: press, hold 100 ms, release. This is the shape
/// behind Return, Ctrl-C/V/X/A and the GUI key taps.
pub fn plan_tap(modifier: u8, keys: Vec<u8>) -> (r: Vec<KeyboardAction>)
    ensures
        plan_view(r@) == spec_tap_plan(modifier, keys@),
{
    let ghost kv = keys@;
    let mut plan: Vec<KeyboardAction> = Vec::new();
    plan.push(KeyboardAction::Report(HidReport { modifier, keys }));
    plan.push(KeyboardAction::Pause(100));
    plan.push(KeyboardAction::Report(HidReport { modifier: 0, keys: Vec::new() }));
    proof {
        assert(plan_view(plan@) =~= spec_tap_plan(modifier, kv));
    }
    plan
}

/// Abstract value of one chord element.
pub ghost struct ComboView {
    pub modifier: u8,
    pub keys: Seq<u8>,
    pub hold_keys: bool,
    pub hold_modifiers: bool,
    pub hold: Option<u64>,
    pub wait: Option<u64>,
    pub instant_release: bool,
    pub clear_keys: bool,
}

/// One element of a key-chord sequence: the modifier mask and keys to
/// add, whether they stick after this element, an optional hold and
/// post-wait duration, and the instant-release and clear flags.
#[derive(Debug, Clone)]
pub struct KeyCombo {
    pub modifier: u8,
    pub keys: Vec<u8>,
    pub hold_keys: bool,
    pub hold_modifiers: bool,
    pub hold: Option<u64>,
    pub wait: Option<u64>,
    pub instant_release: Option<bool>,
    pub clear_keys: Option<bool>,
}

impl View for KeyCombo {
    type V = ComboView;

    open spec fn view(&self) -> ComboView {
        ComboView {
            modifier: self.modifier,
            keys: self.keys@,
            hold_keys: self.hold_keys,
            hold_modifiers: self.hold_modifiers,
            hold: self.hold,
            wait: self.wait,
            instant_release: self.instant_release == Some(true),
            clear_keys: self.clear_keys == Some(true),
        }
    }
}

/// The view of a chord vector.
pub open spec fn combos_view(v: Seq<KeyCombo>) -> Seq<ComboView> {
    v.map_values(|c: KeyCombo| c@)
}

/// The running state of the chord runner: the modifier bits and keys
/// currently held, and which modifier masks and keys are sticky.
pub ghost struct ChordState {
    pub mods: u8,
    pub keys: Seq<u8>,
    pub sticky_mods: Seq<u8>,
    pub sticky_keys: Seq<u8>,
}

/// The state before any chord element ran: nothing held, nothing sticky.
pub open spec fn spec_initial_chord_state() -> ChordState {
    ChordState { mods: 0, keys: seq![], sticky_mods: seq![], sticky_keys: seq![] }
}

/// `s` extended with each element of `items` it does not yet contain, in
/// order.
pub open spec fn seq_add_unique(s: Seq<u8>, items: Seq<u8>) -> Seq<u8>
    decreases items.len(),
{
    if items.len() == 0 {
        s
    } else {
        let s2 = if s.contains(items[0]) {
            s
        } else {
            s.push(items[0])
        };
        seq_add_unique(s2, items.drop_first())
    }
}

/// `s` with every element of `items` removed.
pub open spec fn seq_remove_all(s: Seq<u8>, items: Seq<u8>) -> Seq<u8>
    decreases s.len(),
{
    if s.len() == 0 {
        seq![]
    } else {
        let rest = seq_remove_all(s.drop_first(), items);
        if items.contains(s[0]) {
            rest
        } else {
            seq![s[0]] + rest
        }
    }
}

/// The pause a chord element's wait field asks for, if any.
pub open spec fn spec_wait_actions(w: Option<u64>) -> Seq<KeyboardActionView> {
    match w {
        Some(ms) => seq![KeyboardActionView::Pause(ms)],
        None => seq![],
    }
}

/// What one chord element does to the running state and which actions it
/// emits. Sticky registrations come first; the element's modifier and
/// keys join the held state; `clear_keys` drops everything held and
/// emits the empty report; otherwise the combined state is emitted (a
/// report may hold at most 6 keys), a hold emits the post-hold state
/// after its pause, and `instant_release` emits the state with this
/// element's keys and modifier taken back out.
pub open spec fn spec_combo_actions(s: ChordState, c: ComboView) -> Result<
    (ChordState, Seq<KeyboardActionView>),
    KvmError,
> {
    let sticky_mods = if c.hold_modifiers {
        s.sticky_mods.push(c.modifier)
    } else {
        s.sticky_mods
    };
    let sticky_keys = if c.hold_keys {
        seq_add_unique(s.sticky_keys, c.keys)
    } else {
        s.sticky_keys
    };
    let mods1 = s.mods | c.modifier;
    let keys1 = seq_add_unique(s.keys, c.keys);
    if c.clear_keys {
        let st = ChordState { mods: 0, keys: seq![], sticky_mods, sticky_keys };
        Ok((st, seq![spec_report(0, seq![])] + spec_wait_actions(c.wait)))
    } else if keys1.len() > 6 {
        Err(KvmError::ConfigInvalid)
    } else {
        let press = seq![spec_report(mods1, keys1)];
        let after_hold = match c.hold {
            Some(h) => {
                let k2 = if !c.hold_keys {
                    seq_remove_all(keys1, c.keys)
                } else {
                    keys1
                };
                let m2 = if !sticky_mods.contains(c.modifier) {
                    mods1 & !c.modifier
                } else {
                    mods1
                };
                (m2, k2, seq![KeyboardActionView::Pause(h), spec_report(m2, k2)])
            },
            None => (mods1, keys1, Seq::<KeyboardActionView>::empty()),
        };
        let after_rel = if c.instant_release {
            let k3 = seq_remove_all(after_hold.1, c.keys);
            let m3 = if !sticky_mods.contains(c.modifier) {
                after_hold.0 & !c.modifier
            } else {
                after_hold.0
            };
            (m3, k3, seq![spec_report(m3, k3)])
        } else {
            (after_hold.0, after_hold.1, Seq::<KeyboardActionView>::empty())
        };
        let st = ChordState { mods: after_rel.0, keys: after_rel.1, sticky_mods, sticky_keys };
        Ok((st, press + after_hold.2 + after_rel.2 + spec_wait_actions(c.wait)))
    }
}

/// Runs a chord sequence from `s`, accumulating the emitted actions.
pub open spec fn spec_run_combos(s: ChordState, combos: Seq<ComboView>) -> Result<
    (ChordState, Seq<KeyboardActionView>),
    KvmError,
>
    decreases combos.len(),
{
    if combos.len() == 0 {
        Ok((s, seq![]))
    } else {
        match spec_combo_actions(s, combos[0]) {
            Err(e) => Err(e),
            Ok((s1, acts)) => match spec_run_combos(s1, combos.drop_first()) {
                Err(e) => Err(e),
                Ok((s2, acts2)) => Ok((s2, acts + acts2)),
            },
        }
    }
}

/// The full plan a chord sequence produces, from the initial state.
pub open spec fn spec_combo_plan(combos: Seq<ComboView>) -> Result<
    Seq<KeyboardActionView>,
    KvmError,
> {
    match spec_run_combos(spec_initial_chord_state(), combos) {
        Ok((s, acts)) => Ok(acts),
        Err(e) => Err(e),
    }
}

/// Whether a byte vector contains `x`.
fn vec_contains(v: &Vec<u8>, x: u8) -> (r: bool)
    ensures
        r == v@.contains(x),
{
    let mut i: usize = 0;
    while i < v.len()
        invariant
            i <= v@.len(),
            forall|j: int| 0 <= j < i ==> v@[j] != x,
        decreases v@.len() - i,
    {
        if v[i] == x {
            return true;
        }
        i = i + 1;
    }
    false
}

/// A copy of a byte vector.
fn copy_keys(v: &Vec<u8>) -> (r: Vec<u8>)
    ensures
        r@ == v@,
{
    let mut r: Vec<u8> = Vec::new();
    let mut i: usize = 0;
    while i < v.len()
        invariant
            i <= v@.len(),
            r@ =~= v@.take(i as int),
        decreases v@.len() - i,
    {
        r.push(v[i]);
        i = i + 1;
    }
    proof {
        assert(v@.take(v@.len() as int) =~= v@);
    }
    r
}

/// Appends to `s` each element of `items` it does not yet hold.
fn add_unique(s: &mut Vec<u8>, items: &Vec<u8>)
    ensures
        final(s)@ == seq_add_unique(old(s)@, items@),
{
    let mut i: usize = 0;
    proof {
        assert(items@.skip(0) =~= items@);
    }
    while i < items.len()
        invariant
            i <= items@.len(),
            seq_add_unique(old(s)@, items@) == seq_add_unique(s@, items@.skip(i as int)),
        decreases items@.len() - i,
    {
        let ghost tail = items@.skip(i as int);
        proof {
            assert(tail[0] == items@[i as int]);
            assert(tail.drop_first() =~= items@.skip(i as int + 1));
        }
        if !vec_contains(s, items[i]) {
            s.push(items[i]);
        }
        i = i + 1;
    }
    proof {
        assert(items@.skip(items@.len() as int).len() == 0);
    }
}

/// The elements of `s` that are not in `items`, in order.
fn remove_all(s: &Vec<u8>, items: &Vec<u8>) -> (r: Vec<u8>)
    ensures
        r@ == seq_remove_all(s@, items@),
{
    let mut r: Vec<u8> = Vec::new();
    let mut i: usize = 0;
    proof {
        assert(s@.skip(0) =~= s@);
    }
    while i < s.len()
        invariant
            i <= s@.len(),
            seq_remove_all(s@, items@) == r@ + seq_remove_all(s@.skip(i as int), items@),
        decreases s@.len() - i,
    {
        let ghost tail = s@.skip(i as int);
        let ghost r0 = r@;
        proof {
            assert(tail[0] == s@[i as int]);
            assert(tail.drop_first() =~= s@.skip(i as int + 1));
        }
        if !vec_contains(items, s[i]) {
            r.push(s[i]);
            proof {
                assert(r@ =~= r0 + seq![s@[i as int]]);
                assert(r0 + (seq![s@[i as int]] + seq_remove_all(s@.skip(i as int + 1), items@))
                    =~= r@ + seq_remove_all(s@.skip(i as int + 1), items@));
            }
        }
        i = i + 1;
    }
    proof {
        assert(s@.skip(s@.len() as int) =~= Seq::<u8>::empty());
        assert(r@ + seq_remove_all(s@.skip(s@.len() as int), items@) =~= r@);
    }
    r
}

/// Lays out the reports and pauses that a chord sequence produces,
/// exactly as `spec_combo_plan` describes. An element that would put more
/// than 6 keys into one report is rejected with `ConfigInvalid`; an empty
/// sequence yields the empty plan.
pub fn plan_key_combinations(combos: &Vec<KeyCombo>) -> (r: Result<Vec<KeyboardAction>, KvmError>)
    ensures
        (match r {
            Ok(plan) => spec_combo_plan(combos_view(combos@)) == Ok::<_, KvmError>(
                plan_view(plan@),
            ),
            Err(e) => spec_combo_plan(combos_view(combos@)) == Err::<Seq<KeyboardActionView>, _>(
                e,
            ),
        }),
{
    let ghost cv = combos_view(combos@);
    let mut plan: Vec<KeyboardAction> = Vec::new();
    let mut mods: u8 = 0;
    let mut keys: Vec<u8> = Vec::new();
    let mut sticky_mods: Vec<u8> = Vec::new();
    let mut sticky_keys: Vec<u8> = Vec::new();
    let n = combos.len();
    let mut i: usize = 0;
    proof {
        assert(cv.skip(0) =~= cv);
        assert(keys@ =~= Seq::<u8>::empty());
        assert(sticky_mods@ =~= Seq::<u8>::empty());
        assert(sticky_keys@ =~= Seq::<u8>::empty());
        match spec_run_combos(spec_initial_chord_state(), cv) {
            Ok((sf, acts)) => {
                assert(plan_view(plan@) + acts =~= acts);
            },
            Err(_) => {},
        }
    }
    while i < n
        invariant
            i <= n,
            n == combos@.len(),
            cv == combos_view(combos@),
            (match spec_run_combos(
                ChordState {
                    mods,
                    keys: keys@,
                    sticky_mods: sticky_mods@,
                    sticky_keys: sticky_keys@,
                },
                cv.skip(i as int),
            ) {
                Ok((sf, acts)) => spec_run_combos(spec_initial_chord_state(), cv) == Ok::<
                    (ChordState, Seq<KeyboardActionView>),
                    KvmError,
                >((sf, plan_view(plan@) + acts)),
                Err(e) => spec_run_combos(spec_initial_chord_state(), cv) == Err::<
                    (ChordState, Seq<KeyboardActionView>),
                    _,
                >(e),
            }),
        decreases n - i,
    {
        let ghost st0 = ChordState {
            mods,
            keys: keys@,
            sticky_mods: sticky_mods@,
            sticky_keys: sticky_keys@,
        };
        let ghost plan0 = plan@;
        let c = &combos[i];
        proof {
            assert(cv.skip(i as int)[0] == c@);
            assert(cv.skip(i as int).drop_first() =~= cv.skip(i as int + 1));
        }
        if c.hold_modifiers {
            sticky_mods.push(c.modifier);
        }
        if c.hold_keys {
            add_unique(&mut sticky_keys, &c.keys);
        }
        mods = mods | c.modifier;
        add_unique(&mut keys, &c.keys);
        let clear = match c.clear_keys {
            Some(b) => b,
            None => false,
        };
        if clear {
            keys = Vec::new();
            mods = 0;
            plan.push(KeyboardAction::Report(HidReport { modifier: 0, keys: Vec::new() }));
            match c.wait {
                Some(w) => {
                    plan.push(KeyboardAction::Pause(w));
                },
                None => {},
            }
        } else {
            if keys.len() > 6 {
                return Err(KvmError::ConfigInvalid);
            }
            let press_keys = copy_keys(&keys);
            plan.push(KeyboardAction::Report(HidReport { modifier: mods, keys: press_keys }));
            match c.hold {
                Some(h) => {
                    plan.push(KeyboardAction::Pause(h));
                    if !c.hold_keys {
                        keys = remove_all(&keys, &c.keys);
                    }
                    if !vec_contains(&sticky_mods, c.modifier) {
                        mods = mods & !c.modifier;
                    }
                    let rel_keys = copy_keys(&keys);
                    plan.push(KeyboardAction::Report(HidReport { modifier: mods, keys: rel_keys }));
                },
                None => {},
            }
            let instant = match c.instant_release {
                Some(b) => b,
                None => false,
            };
            if instant {
                keys = remove_all(&keys, &c.keys);
                if !vec_contains(&sticky_mods, c.modifier) {
                    mods = mods & !c.modifier;
                }
                let rel_keys = copy_keys(&keys);
                plan.push(KeyboardAction::Report(HidReport { modifier: mods, keys: rel_keys }));
            }
            match c.wait {
                Some(w) => {
                    plan.push(KeyboardAction::Pause(w));
                },
                None => {},
            }
        }
        proof {
            let st1 = ChordState {
                mods,
                keys: keys@,
                sticky_mods: sticky_mods@,
                sticky_keys: sticky_keys@,
            };
            match spec_combo_actions(st0, cv[i as int]) {
                Ok((s1, acts)) => {
                    assert(s1 == st1);
                    assert(plan_view(plan@) =~= plan_view(plan0) + acts);
                    match spec_run_combos(st1, cv.skip(i as int + 1)) {
                        Ok((sf, acts2)) => {
                            assert(plan_view(plan0) + (acts + acts2) =~= plan_view(plan@)
                                + acts2);
                        },
                        Err(_) => {},
                    }
                },
                Err(_) => {
                    assert(false);
                },
            }
        }
        i = i + 1;
    }
    proof {
        assert(cv.skip(n as int).len() == 0);
        match spec_run_combos(spec_initial_chord_state(), cv) {
            Ok((sf, acts)) => {
                assert(plan_view(plan@) + Seq::<KeyboardActionView>::empty() =~= plan_view(
                    plan@,
                ));
            },
            Err(_) => {},
        }
    }
    Ok(plan)
}

/// The modifier bits that stick over a chord sequence: the union of the
/// masks of its `hold_modifiers` elements.
pub open spec fn sticky_mods_of(combos: Seq<ComboView>) -> u8
    decreases combos.len(),
{
    if combos.len() == 0 {
        0u8
    } else {
        (if combos[0].hold_modifiers {
            combos[0].modifier
        } else {
            0u8
        }) | sticky_mods_of(combos.drop_first())
    }
}

/// Whether key `k` sticks over a chord sequence: some `hold_keys` element
/// carries it.
pub open spec fn sticky_keys_has(combos: Seq<ComboView>, k: u8) -> bool
    decreases combos.len(),
{
    if combos.len() == 0 {
        false
    } else {
        (combos[0].hold_keys && combos[0].keys.contains(k)) || sticky_keys_has(
            combos.drop_first(),
            k,
        )
    }
}

/// `m` shares no modifier bit with any element of `combos`.
pub open spec fn mods_free_of(m: u8, combos: Seq<ComboView>) -> bool
    decreases combos.len(),
{
    combos.len() == 0 || ((m & combos[0].modifier == 0) && mods_free_of(m, combos.drop_first()))
}

/// No key of `ks` occurs in any element of `combos`.
pub open spec fn keys_free_of(ks: Seq<u8>, combos: Seq<ComboView>) -> bool
    decreases combos.len(),
{
    combos.len() == 0 || ((forall|k: u8|
        !(ks.contains(k) && combos[0].keys.contains(k))) && keys_free_of(
        ks,
        combos.drop_first(),
    ))
}

/// No non-sticky element of `combos` has its (non-zero) mask already in
/// the sticky-mask registry `reg`.
pub open spec fn nonsticky_masks_free(reg: Seq<u8>, combos: Seq<ComboView>) -> bool
    decreases combos.len(),
{
    combos.len() == 0 || (((!combos[0].hold_modifiers && combos[0].modifier != 0)
        ==> !reg.contains(combos[0].modifier)) && nonsticky_masks_free(
        reg,
        combos.drop_first(),
    ))
}

/// One element is admissible for the sticky-union law: it does not clear,
/// it releases (by hold or instantly), and an instantly released element
/// does not hold its keys sticky (its keys are subtracted either way).
pub open spec fn combo_admissible(c: ComboView) -> bool {
    &&& !c.clear_keys
    &&& c.hold is Some || c.instant_release
    &&& c.instant_release ==> !c.hold_keys
}

/// A chord sequence is admissible for the sticky-union law: every element
/// is admissible, and elements do not share modifier bits or keys.
pub open spec fn chord_admissible(combos: Seq<ComboView>) -> bool
    decreases combos.len(),
{
    combos.len() == 0 || (combo_admissible(combos[0]) && mods_free_of(
        combos[0].modifier,
        combos.drop_first(),
    ) && keys_free_of(combos[0].keys, combos.drop_first()) && chord_admissible(
        combos.drop_first(),
    ))
}

proof fn lemma_add_unique_contains(s: Seq<u8>, items: Seq<u8>)
    ensures
        forall|k: u8|
            seq_add_unique(s, items).contains(k) <==> (s.contains(k) || items.contains(k)),
    decreases items.len(),
{
    if items.len() == 0 {
        assert(forall|k: u8| !items.contains(k));
    } else {
        let s2 = if s.contains(items[0]) {
            s
        } else {
            s.push(items[0])
        };
        lemma_add_unique_contains(s2, items.drop_first());
        assert forall|k: u8| s2.contains(k) <==> (s.contains(k) || k == items[0]) by {
            if s.contains(items[0]) {
            } else {
                if s.push(items[0]).contains(k) {
                    let i = choose|i: int| 0 <= i < s.push(items[0]).len() && s.push(items[0])[i]
                        == k;
                    if i < s.len() {
                        assert(s.contains(k));
                    }
                }
                if s.contains(k) {
                    let i = choose|i: int| 0 <= i < s.len() && s[i] == k;
                    assert(s.push(items[0])[i] == k);
                }
                if k == items[0] {
                    assert(s.push(items[0])[s.len() as int] == k);
                }
            }
        }
        assert forall|k: u8| items.contains(k) <==> (k == items[0] || items.drop_first().contains(
            k,
        )) by {
            if items.contains(k) {
                let i = choose|i: int| 0 <= i < items.len() && items[i] == k;
                if i > 0 {
                    assert(items.drop_first()[i - 1] == k);
                }
            }
            if items.drop_first().contains(k) {
                let i = choose|i: int| 0 <= i < items.drop_first().len() && items.drop_first()[i]
                    == k;
                assert(items[i + 1] == k);
            }
        }
    }
}

proof fn lemma_remove_all_contains(s: Seq<u8>, items: Seq<u8>)
    ensures
        forall|k: u8|
            seq_remove_all(s, items).contains(k) <==> (s.contains(k) && !items.contains(k)),
    decreases s.len(),
{
    if s.len() == 0 {
        assert(forall|k: u8| !s.contains(k));
        assert(forall|k: u8| !seq_remove_all(s, items).contains(k));
    } else {
        lemma_remove_all_contains(s.drop_first(), items);
        let rest = seq_remove_all(s.drop_first(), items);
        assert forall|k: u8| s.contains(k) <==> (k == s[0] || s.drop_first().contains(k)) by {
            if s.contains(k) {
                let i = choose|i: int| 0 <= i < s.len() && s[i] == k;
                if i > 0 {
                    assert(s.drop_first()[i - 1] == k);
                }
            }
            if s.drop_first().contains(k) {
                let i = choose|i: int| 0 <= i < s.drop_first().len() && s.drop_first()[i] == k;
                assert(s[i + 1] == k);
            }
        }
        if !items.contains(s[0]) {
            assert forall|k: u8| (seq![s[0]] + rest).contains(k) <==> (k == s[0] || rest.contains(
                k,
            )) by {
                if (seq![s[0]] + rest).contains(k) {
                    let i = choose|i: int| 0 <= i < (seq![s[0]] + rest).len() && (seq![s[0]]
                        + rest)[i] == k;
                    if i > 0 {
                        assert(rest[i - 1] == k);
                    }
                }
                if rest.contains(k) {
                    let i = choose|i: int| 0 <= i < rest.len() && rest[i] == k;
                    assert((seq![s[0]] + rest)[i + 1] == k);
                }
                if k == s[0] {
                    assert((seq![s[0]] + rest)[0] == k);
                }
            }
        }
    }
}

proof fn lemma_mods_free_or(a: u8, b: u8, combos: Seq<ComboView>)
    requires
        mods_free_of(a, combos),
        mods_free_of(b, combos),
    ensures
        mods_free_of(a | b, combos),
    decreases combos.len(),
{
    if combos.len() > 0 {
        let m = combos[0].modifier;
        assert((a | b) & m == 0) by (bit_vector)
            requires
                a & m == 0,
                b & m == 0,
        ;
        lemma_mods_free_or(a, b, combos.drop_first());
    }
}

proof fn lemma_mods_free_weaken(a: u8, b: u8, combos: Seq<ComboView>)
    requires
        mods_free_of(a, combos),
    ensures
        mods_free_of(a & !b, combos),
    decreases combos.len(),
{
    if combos.len() > 0 {
        let m = combos[0].modifier;
        assert((a & !b) & m == 0) by (bit_vector)
            requires
                a & m == 0,
        ;
        lemma_mods_free_weaken(a, b, combos.drop_first());
    }
}

proof fn lemma_keys_free_from_contains(ks: Seq<u8>, a: Seq<u8>, b: Seq<u8>, combos: Seq<ComboView>)
    requires
        keys_free_of(a, combos),
        keys_free_of(b, combos),
        forall|k: u8| ks.contains(k) ==> (a.contains(k) || b.contains(k)),
    ensures
        keys_free_of(ks, combos),
    decreases combos.len(),
{
    if combos.len() > 0 {
        lemma_keys_free_from_contains(ks, a, b, combos.drop_first());
    }
}

proof fn lemma_nonsticky_push(reg: Seq<u8>, m: u8, combos: Seq<ComboView>)
    requires
        nonsticky_masks_free(reg, combos),
        mods_free_of(m, combos),
    ensures
        nonsticky_masks_free(reg.push(m), combos),
    decreases combos.len(),
{
    if combos.len() > 0 {
        let c0 = combos[0];
        if !c0.hold_modifiers && c0.modifier != 0 {
            assert(m != c0.modifier) by {
                assert(m & c0.modifier == 0);
                if m == c0.modifier {
                    assert(c0.modifier & c0.modifier == c0.modifier) by (bit_vector);
                }
            }
            if reg.push(m).contains(c0.modifier) {
                let i = choose|i: int| 0 <= i < reg.push(m).len() && reg.push(m)[i] == c0.modifier;
                if i < reg.len() {
                    assert(reg.contains(c0.modifier));
                }
            }
        }
        lemma_nonsticky_push(reg, m, combos.drop_first());
    }
}

/// The state a chord run leaves behind (the starting state if it fails).
pub open spec fn chord_final_state(s: ChordState, combos: Seq<ComboView>) -> ChordState {
    match spec_run_combos(s, combos) {
        Ok((sf, acts)) => sf,
        Err(_) => s,
    }
}

/// The sticky-union law of the chord runner: over an admissible chord
/// sequence that runs to completion, the state left behind holds exactly
/// the union of the sticky modifier masks and the union of the sticky
/// keys (on top of whatever the starting state already held and the
/// sequence does not touch).
#[verifier::rlimit(60)]
pub proof fn lemma_chord_sticky_union(s: ChordState, combos: Seq<ComboView>)
    requires
        chord_admissible(combos),
        mods_free_of(s.mods, combos),
        keys_free_of(s.keys, combos),
        nonsticky_masks_free(s.sticky_mods, combos),
    ensures
        spec_run_combos(s, combos) is Ok ==> chord_final_state(s, combos).mods == s.mods
            | sticky_mods_of(combos),
        forall|k: u8|
            spec_run_combos(s, combos) is Ok ==> (#[trigger] chord_final_state(
                s,
                combos,
            ).keys.contains(k) <==> (s.keys.contains(k) || sticky_keys_has(combos, k))),
    decreases combos.len(),
{
    let a = s.mods;
    if combos.len() == 0 {
        assert(a | 0 == a) by (bit_vector);
    } else if spec_run_combos(s, combos) is Ok {
        let c = combos[0];
        let tail = combos.drop_first();
        let cm = c.modifier;
        assert(a & cm == 0);
        match spec_combo_actions(s, c) {
            Ok((s1, acts)) => {
                let keys1 = seq_add_unique(s.keys, c.keys);
                lemma_add_unique_contains(s.keys, c.keys);
                // what this element leaves in the modifier byte
                if c.hold_modifiers {
                    assert(s.sticky_mods.push(cm).contains(cm)) by {
                        assert(s.sticky_mods.push(cm)[s.sticky_mods.len() as int] == cm);
                    }
                    assert(s1.mods == a | cm);
                } else {
                    if cm == 0 {
                        assert((a | cm) & !cm == a && a | cm == a && ((a | cm) & !cm) & !cm == a)
                            by (bit_vector)
                            requires
                                cm == 0u8,
                        ;
                    } else {
                        assert(!s.sticky_mods.contains(cm));
                        assert((a | cm) & !cm == a && ((a | cm) & !cm) & !cm == a)
                            by (bit_vector)
                            requires
                                a & cm == 0u8,
                        ;
                    }
                    assert(s1.mods == a);
                }
                // what this element leaves held down
                if c.hold_keys {
                    assert(s1.keys == keys1);
                } else {
                    lemma_remove_all_contains(keys1, c.keys);
                    lemma_remove_all_contains(seq_remove_all(keys1, c.keys), c.keys);
                    assert(forall|k: u8| s1.keys.contains(k) <==> s.keys.contains(k));
                }
                // the tail starts from a state the law still covers
                if c.hold_modifiers {
                    lemma_mods_free_or(a, cm, tail);
                    lemma_nonsticky_push(s.sticky_mods, cm, tail);
                }
                assert(mods_free_of(s1.mods, tail));
                lemma_keys_free_from_contains(s1.keys, s.keys, c.keys, tail);
                assert(nonsticky_masks_free(s1.sticky_mods, tail));
                lemma_chord_sticky_union(s1, tail);
                // fold this element's contribution into the union
                assert(spec_run_combos(s1, tail) is Ok);
                let cf = chord_final_state(s1, tail);
                assert(chord_final_state(s, combos) == cf);
                let hc: u8 = if c.hold_modifiers {
                    cm
                } else {
                    0u8
                };
                let st = sticky_mods_of(tail);
                assert(cf.mods == s1.mods | st);
                assert(s1.mods == a | hc) by {
                    if !c.hold_modifiers {
                        assert(a | 0 == a) by (bit_vector);
                    }
                }
                assert((a | hc) | st == a | (hc | st)) by (bit_vector);
                assert(sticky_mods_of(combos) == hc | st);
                assert forall|k: u8|
                    chord_final_state(s, combos).keys.contains(k) <==> (s.keys.contains(k)
                        || sticky_keys_has(combos, k)) by {
                    assert(cf.keys.contains(k) <==> (s1.keys.contains(k) || sticky_keys_has(
                        tail,
                        k,
                    )));
                    reveal_with_fuel(sticky_keys_has, 2);
                    assert(sticky_keys_has(combos, k) <==> ((combos[0].hold_keys
                        && combos[0].keys.contains(k)) || sticky_keys_has(
                        combos.drop_first(),
                        k,
                    )));
                }
            },
            Err(_) => {},
        }
    }
}

proof fn lemma_initial_state_free(combos: Seq<ComboView>)
    ensures
        mods_free_of(0u8, combos),
        keys_free_of(Seq::<u8>::empty(), combos),
        nonsticky_masks_free(Seq::<u8>::empty(), combos),
    decreases combos.len(),
{
    if combos.len() > 0 {
        let m = combos[0].modifier;
        assert(0u8 & m == 0) by (bit_vector);
        lemma_initial_state_free(combos.drop_first());
    }
}

/// The sticky-union law at the planner's entry point: when an
/// admissible chord sequence plans successfully, what remains held at
/// the end is exactly the union of the sticky modifier masks and the
/// union of the sticky keys.
pub proof fn lemma_plan_sticky_union(combos: Seq<ComboView>)
    requires
        chord_admissible(combos),
    ensures
        spec_run_combos(spec_initial_chord_state(), combos) is Ok ==> chord_final_state(
            spec_initial_chord_state(),
            combos,
        ).mods == sticky_mods_of(combos),
        forall|k: u8|
            spec_run_combos(spec_initial_chord_state(), combos) is Ok ==> (#[trigger]
            chord_final_state(spec_initial_chord_state(), combos).keys.contains(k)
                <==> sticky_keys_has(combos, k)),
{
    lemma_initial_state_free(combos);
    lemma_chord_sticky_union(spec_initial_chord_state(), combos);
    let sm = sticky_mods_of(combos);
    assert(0u8 | sm == sm) by (bit_vector);
}

} // verus!
