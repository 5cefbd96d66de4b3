use vstd::prelude::*;
use std::collections::HashMap;

verus! {

/// Abstract value of an accent (dead-key) prefix: the key that produces
/// the accent and the modifiers it needs.
pub ghost struct AccentView {
    pub key: Seq<char>,
    pub shift: bool,
    pub alt_right: bool,
}

/// Abstract value of a layout entry: the target key, its modifiers,
/// whether the key itself is a dead key, and an optional accent prefix.
/// The prefix is flat, so accent chains are at most one deep.
pub ghost struct KeyComboView {
    pub key: Seq<char>,
    pub shift: bool,
    pub alt_right: bool,
    pub dead_key: bool,
    pub accent_key: Option<AccentView>,
}

/// One layout entry: the name of the key to press, modifier flags, a
/// dead-key marker and an optional accent prefix pressed first.
#[derive(Debug)]
pub struct KeyCombo {
    pub key: String,
    pub shift: bool,
    pub alt_right: bool,
    pub dead_key: bool,
    pub accent_key: Option<Box<KeyCombo>>,
}

impl View for KeyCombo {
    type V = KeyComboView;

    open spec fn view(&self) -> KeyComboView {
        KeyComboView {
            key: self.key@,
            shift: self.shift,
            alt_right: self.alt_right,
            dead_key: self.dead_key,
            accent_key: match self.accent_key {
                Some(a) => Some(AccentView { key: a.key@, shift: a.shift, alt_right: a.alt_right }),
                None => None,
            },
        }
    }
}

impl KeyCombo {
    /// A plain entry for the named key, with no modifiers and no prefix.
    pub fn new(key: &str) -> (r: Self)
        ensures
            r@ == (KeyComboView {
                key: key@,
                shift: false,
                alt_right: false,
                dead_key: false,
                accent_key: None,
            }),
    {
        Self {
            key: key.to_owned(),
            shift: false,
            alt_right: false,
            dead_key: false,
            accent_key: None,
        }
    }

    /// The same entry with the shift modifier required.
    pub fn with_shift(self) -> (r: Self)
        ensures
            r@ == (KeyComboView { shift: true, ..self@ }),
    {
        let mut s = self;
        s.shift = true;
        s
    }

    /// The same entry with the right-alt (AltGr) modifier required.
    pub fn with_alt_right(self) -> (r: Self)
        ensures
            r@ == (KeyComboView { alt_right: true, ..self@ }),
    {
        let mut s = self;
        s.alt_right = true;
        s
    }

    /// The same entry marked as a dead key, which needs a Space press to
    /// commit it.
    pub fn with_dead_key(self) -> (r: Self)
        ensures
            r@ == (KeyComboView { dead_key: true, ..self@ }),
    {
        let mut s = self;
        s.dead_key = true;
        s
    }

    /// The same entry with `accent` as the prefix key pressed before it.
    pub fn with_accent_key(self, accent: KeyCombo) -> (r: Self)
        ensures
            r@ == (KeyComboView {
                accent_key: Some(AccentView {
                    key: accent@.key,
                    shift: accent@.shift,
                    alt_right: accent@.alt_right,
                }),
                ..self@
            }),
    {
        let mut s = self;
        s.accent_key = Some(Box::new(accent));
        s
    }
}

/// Abstract value of a layout: its ISO code, display name and the map
/// from Unicode code points to entries.
pub ghost struct LayoutView {
    pub iso_code: Seq<char>,
    pub name: Seq<char>,
    pub chars: Map<u32, KeyComboView>,
}

/// A per-locale keyboard layout: a map from Unicode code points to the
/// key chord that produces them.
#[derive(Debug)]
pub struct KeyboardLayout {
    pub iso_code: String,
    pub name: String,
    pub chars: HashMap<u32, KeyCombo>,
}

impl View for KeyboardLayout {
    type V = LayoutView;

    open spec fn view(&self) -> LayoutView {
        LayoutView {
            iso_code: self.iso_code@,
            name: self.name@,
            chars: self.chars@.map_values(|kc: KeyCombo| kc@),
        }
    }
}

impl KeyboardLayout {
    /// An empty layout with the given ISO code and display name.
    pub fn new(iso_code: &str, name: &str) -> (r: Self)
        ensures
            r@ == (LayoutView {
                iso_code: iso_code@,
                name: name@,
                chars: Map::<u32, KeyComboView>::empty(),
            }),
    {
        let r = Self { iso_code: iso_code.to_owned(), name: name.to_owned(), chars: HashMap::new() };
        proof {
            assert(r.chars@.map_values(|kc: KeyCombo| kc@) =~= Map::<u32, KeyComboView>::empty());
        }
        r
    }

    /// The same layout with `c` now mapped to `combo`.
    pub fn with_char(self, c: char, combo: KeyCombo) -> (r: Self)
        ensures
            r@.iso_code == self@.iso_code,
            r@.name == self@.name,
            r@.chars == self@.chars.insert(c as u32, combo@),
    {
        let ghost prev = self@.chars;
        let mut s = self;
        let ghost combo_view = combo@;
        s.chars.insert(c as u32, combo);
        proof {
            assert(s.chars@.map_values(|kc: KeyCombo| kc@) =~= prev.insert(c as u32, combo_view));
        }
        s
    }

    /// The entry for code point `c`, if the layout has one.
    pub fn get_char(&self, c: char) -> (r: Option<&KeyCombo>)
        ensures
            match r {
                Some(kc) => self@.chars.contains_key(c as u32) && kc@ == self@.chars[c as u32],
                None => !self@.chars.contains_key(c as u32),
            },
    {
        self.chars.get(&(c as u32))
    }
}

/// The layout registered under the given ISO code, if any.
pub fn get_layout(iso_code: &str) -> (r: Option<KeyboardLayout>)
    ensures
        iso_code@ == "en-US"@ ==> (r matches Some(l)
            && l@ == crate::keyboard_layouts::en_us::en_us_layout()),
        iso_code@ == "es-ES"@ ==> (r matches Some(l)
            && l@ == crate::keyboard_layouts::es_es::es_es_layout()),
        iso_code@ != "en-US"@ && iso_code@ != "es-ES"@ ==> r is None,
{
    proof {
        reveal_strlit("en-US");
        reveal_strlit("es-ES");
        assert("en-US"@[1] == 'n');
        assert("es-ES"@[1] == 's');
        assert("en-US"@ != "es-ES"@);
    }
    if crate::keyboard_mappings::str_eq(iso_code, "en-US") {
        Some(crate::keyboard_layouts::en_us::create_layout())
    } else if crate::keyboard_mappings::str_eq(iso_code, "es-ES") {
        Some(crate::keyboard_layouts::es_es::create_layout())
    } else {
        None
    }
}

/// The layout registered under the given ISO code, or the `en-US` layout
/// when the code is unknown.
pub fn get_layout_or_default(iso_code: &str) -> (r: KeyboardLayout)
    ensures
        iso_code@ == "es-ES"@ ==> r@ == crate::keyboard_layouts::es_es::es_es_layout(),
        iso_code@ != "es-ES"@ ==> r@ == crate::keyboard_layouts::en_us::en_us_layout(),
{
    match get_layout(iso_code) {
        Some(l) => l,
        None => crate::keyboard_layouts::en_us::create_layout(),
    }
}

} // verus!
