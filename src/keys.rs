use vstd::prelude::*;

verus! {

/// Symbolic key identifiers carried by key events.
#[derive(Clone, Copy, Debug, PartialEq, Eq, Structural)]
pub enum ControlKey {
    Unknown,
    Alt,
    Backspace,
    CapsLock,
    Control,
    Delete,
    DownArrow,
    End,
    Escape,
    F1,
    F10,
    F11,
    F12,
    F2,
    F3,
    F4,
    F5,
    F6,
    F7,
    F8,
    F9,
    Home,
    LeftArrow,
    Meta,
    OptionKey,
    PageDown,
    PageUp,
    Return,
    RightArrow,
    Shift,
    Space,
    Tab,
    UpArrow,
    Numpad0,
    Numpad1,
    Numpad2,
    Numpad3,
    Numpad4,
    Numpad5,
    Numpad6,
    Numpad7,
    Numpad8,
    Numpad9,
    Cancel,
    Clear,
    Menu,
    Pause,
    Kana,
    Hangul,
    Junja,
    FinalMode,
    Hanja,
    Kanji,
    Convert,
    Select,
    Print,
    Execute,
    Snapshot,
    Insert,
    Help,
    Sleep,
    Separator,
    Scroll,
    NumLock,
    RWin,
    Apps,
    Multiply,
    Add,
    Subtract,
    Decimal,
    Divide,
    Equals,
    NumpadEnter,
    RShift,
    RControl,
    RAlt,
    CtrlAltDel,
    LockScreen,
}

/// A key as the injection backend understands it.
#[derive(Clone, Copy, Debug, PartialEq, Eq, Structural)]
pub enum Key {
    /// A named key of the backend's symbolic key set.
    Symbol(ControlKey),
    /// The key that produces this character on the current layout.
    Layout(char),
    /// A raw key code handed to the backend unchanged.
    Raw(u16),
}

/// The backend key that a symbolic id maps to, if any.
pub open spec fn spec_key_map(ck: ControlKey) -> Option<Key> {
    match ck {
        ControlKey::Unknown | ControlKey::CtrlAltDel | ControlKey::LockScreen => None,
        ControlKey::Menu => Some(Key::Symbol(ControlKey::Alt)),
        _ => Some(Key::Symbol(ck)),
    }
}

/// Maps a symbolic id to its backend key; the menu key acts as Alt, and
/// ids that name no key (unknown, the two function ids) map to nothing.
pub fn key_map(ck: ControlKey) -> (r: Option<Key>)
    ensures
        r == spec_key_map(ck),
{
    match ck {
        ControlKey::Unknown | ControlKey::CtrlAltDel | ControlKey::LockScreen => None,
        ControlKey::Menu => Some(Key::Symbol(ControlKey::Alt)),
        _ => Some(Key::Symbol(ck)),
    }
}

/// The eight standard modifier variants.
pub open spec fn is_modifier(ck: ControlKey) -> bool {
    match ck {
        ControlKey::Shift | ControlKey::RShift | ControlKey::Control | ControlKey::RControl
        | ControlKey::Alt | ControlKey::RAlt | ControlKey::Meta | ControlKey::RWin => true,
        _ => false,
    }
}

/// The left-hand id of a modifier pair (the id an event declares for either side).
pub open spec fn modifier_group(ck: ControlKey) -> ControlKey {
    match ck {
        ControlKey::RShift => ControlKey::Shift,
        ControlKey::RControl => ControlKey::Control,
        ControlKey::RAlt => ControlKey::Alt,
        ControlKey::RWin => ControlKey::Meta,
        _ => ck,
    }
}

/// The other side of a modifier pair.
pub open spec fn modifier_partner(ck: ControlKey) -> ControlKey {
    match ck {
        ControlKey::Shift => ControlKey::RShift,
        ControlKey::RShift => ControlKey::Shift,
        ControlKey::Control => ControlKey::RControl,
        ControlKey::RControl => ControlKey::Control,
        ControlKey::Alt => ControlKey::RAlt,
        ControlKey::RAlt => ControlKey::Alt,
        ControlKey::Meta => ControlKey::RWin,
        ControlKey::RWin => ControlKey::Meta,
        _ => ck,
    }
}

/// The left-hand id of a modifier pair.
pub fn modifier_group_of(ck: ControlKey) -> (r: ControlKey)
    ensures
        r == modifier_group(ck),
{
    match ck {
        ControlKey::RShift => ControlKey::Shift,
        ControlKey::RControl => ControlKey::Control,
        ControlKey::RAlt => ControlKey::Alt,
        ControlKey::RWin => ControlKey::Meta,
        _ => ck,
    }
}

/// Whether `v` holds `k`.
pub fn contains_key(v: &Vec<ControlKey>, k: ControlKey) -> (r: bool)
    ensures
        r == v@.contains(k),
{
    let mut i: usize = 0;
    while i < v.len()
        invariant
            0 <= i <= v@.len(),
            forall|j: int| 0 <= j < i ==> v@[j] != k,
        decreases v@.len() - i,
    {
        if v[i] == k {
            return true;
        }
        i = i + 1;
    }
    false
}

/// The live state of the keys the reconciler consults: the eight modifiers
/// (held or not) and the two lock keys (LED on or off).
#[derive(Clone, Copy, Debug, PartialEq, Eq, Structural)]
pub struct LiveKeys {
    pub shift: bool,
    pub right_shift: bool,
    pub control: bool,
    pub right_control: bool,
    pub alt: bool,
    pub right_alt: bool,
    pub meta: bool,
    pub right_meta: bool,
    pub caps_lock: bool,
    pub num_lock: bool,
}

impl LiveKeys {
    /// The backend's own report for one key; keys not tracked read as up.
    pub open spec fn is_down(self, k: ControlKey) -> bool {
        match k {
            ControlKey::Shift => self.shift,
            ControlKey::RShift => self.right_shift,
            ControlKey::Control => self.control,
            ControlKey::RControl => self.right_control,
            ControlKey::Alt => self.alt,
            ControlKey::RAlt => self.right_alt,
            ControlKey::Meta => self.meta,
            ControlKey::RWin => self.right_meta,
            ControlKey::CapsLock => self.caps_lock,
            ControlKey::NumLock => self.num_lock,
            _ => false,
        }
    }

    /// A modifier reads as held when either side of its pair is held.
    pub open spec fn modifier_down(self, k: ControlKey) -> bool {
        self.is_down(k) || self.is_down(modifier_partner(k))
    }

    /// The state after the backend set `k` to `v`.
    pub open spec fn with_key(self, k: ControlKey, v: bool) -> LiveKeys {
        LiveKeys {
            shift: if k == ControlKey::Shift { v } else { self.shift },
            right_shift: if k == ControlKey::RShift { v } else { self.right_shift },
            control: if k == ControlKey::Control { v } else { self.control },
            right_control: if k == ControlKey::RControl { v } else { self.right_control },
            alt: if k == ControlKey::Alt { v } else { self.alt },
            right_alt: if k == ControlKey::RAlt { v } else { self.right_alt },
            meta: if k == ControlKey::Meta { v } else { self.meta },
            right_meta: if k == ControlKey::RWin { v } else { self.right_meta },
            caps_lock: if k == ControlKey::CapsLock { v } else { self.caps_lock },
            num_lock: if k == ControlKey::NumLock { v } else { self.num_lock },
        }
    }

    /// The state after the backend acted on `key` (pressed or released).
    pub open spec fn after_key(self, key: Key, down: bool) -> LiveKeys {
        match key {
            Key::Symbol(k) => if is_modifier(k) { self.with_key(k, down) } else { self },
            _ => self,
        }
    }

    /// All keys up, both lock LEDs off.
    pub fn released() -> (r: LiveKeys)
        ensures
            r == (LiveKeys {
                shift: false,
                right_shift: false,
                control: false,
                right_control: false,
                alt: false,
                right_alt: false,
                meta: false,
                right_meta: false,
                caps_lock: false,
                num_lock: false,
            }),
            forall|k: ControlKey| !r.is_down(k),
    {
        LiveKeys {
            shift: false,
            right_shift: false,
            control: false,
            right_control: false,
            alt: false,
            right_alt: false,
            meta: false,
            right_meta: false,
            caps_lock: false,
            num_lock: false,
        }
    }

    /// The backend's report for one key.
    pub fn key_down(&self, k: ControlKey) -> (r: bool)
        ensures
            r == self.is_down(k),
    {
        match k {
            ControlKey::Shift => self.shift,
            ControlKey::RShift => self.right_shift,
            ControlKey::Control => self.control,
            ControlKey::RControl => self.right_control,
            ControlKey::Alt => self.alt,
            ControlKey::RAlt => self.right_alt,
            ControlKey::Meta => self.meta,
            ControlKey::RWin => self.right_meta,
            ControlKey::CapsLock => self.caps_lock,
            ControlKey::NumLock => self.num_lock,
            _ => false,
        }
    }

    /// Held state of a modifier, either side counting.
    pub fn modifier_state(&self, k: ControlKey) -> (r: bool)
        ensures
            r == self.modifier_down(k),
    {
        let partner = match k {
            ControlKey::Shift => ControlKey::RShift,
            ControlKey::RShift => ControlKey::Shift,
            ControlKey::Control => ControlKey::RControl,
            ControlKey::RControl => ControlKey::Control,
            ControlKey::Alt => ControlKey::RAlt,
            ControlKey::RAlt => ControlKey::Alt,
            ControlKey::Meta => ControlKey::RWin,
            ControlKey::RWin => ControlKey::Meta,
            _ => k,
        };
        self.key_down(k) || self.key_down(partner)
    }

    /// Records the backend's new state of one key.
    pub fn set_key(&mut self, k: ControlKey, v: bool)
        ensures
            *final(self) == old(self).with_key(k, v),
    {
        if k == ControlKey::Shift {
            self.shift = v;
        }
        if k == ControlKey::RShift {
            self.right_shift = v;
        }
        if k == ControlKey::Control {
            self.control = v;
        }
        if k == ControlKey::RControl {
            self.right_control = v;
        }
        if k == ControlKey::Alt {
            self.alt = v;
        }
        if k == ControlKey::RAlt {
            self.right_alt = v;
        }
        if k == ControlKey::Meta {
            self.meta = v;
        }
        if k == ControlKey::RWin {
            self.right_meta = v;
        }
        if k == ControlKey::CapsLock {
            self.caps_lock = v;
        }
        if k == ControlKey::NumLock {
            self.num_lock = v;
        }
    }

    /// Records that the backend acted on `key`.
    pub fn note_key(&mut self, key: Key, down: bool)
        ensures
            *final(self) == old(self).after_key(key, down),
    {
        match key {
            Key::Symbol(k) => {
                match k {
                    ControlKey::Shift | ControlKey::RShift | ControlKey::Control
                    | ControlKey::RControl | ControlKey::Alt | ControlKey::RAlt | ControlKey::Meta
                    | ControlKey::RWin => self.set_key(k, down),
                    _ => {},
                }
            },
            _ => {},
        }
    }
}

} // verus!

verus! {

/// Whether `v` is a Unicode scalar value, i.e. the code of some `char`.
pub open spec fn is_scalar_value(v: u32) -> bool {
    v < 0xD800 || (0xE000 <= v && v < 0x110000)
}

/// The character with code `v`, or NUL where `v` is no scalar value.
pub open spec fn char_of(v: u32) -> char {
    if is_scalar_value(v) {
        v as char
    } else {
        '\0'
    }
}

/// Relies on `char::from_u32`: it returns a character exactly for the
/// Unicode scalar values, and that character has the given code.
#[verifier::external_body]
fn char_from_u32(v: u32) -> (r: Option<char>)
    ensures
        r is Some <==> is_scalar_value(v),
        r matches Some(c) ==> c as u32 == v,
{
    char::from_u32(v)
}

/// The character with code `v`, if `v` is a scalar value.
pub fn char_from_code(v: u32) -> (r: Option<char>)
    ensures
        r is Some <==> is_scalar_value(v),
        r matches Some(c) ==> c == char_of(v),
{
    let r = char_from_u32(v);
    if let Some(c) = r {
        proof {
            vstd::utf8::char_u32_cast(c, v);
        }
    }
    r
}

/// The layout key of the character with code `v` (NUL for no character).
pub fn char_value_to_key(v: u32) -> (r: Key)
    ensures
        r == Key::Layout(char_of(v)),
{
    match char_from_code(v) {
        Some(c) => Key::Layout(c),
        None => Key::Layout('\0'),
    }
}

} // verus!
