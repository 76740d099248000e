//! Canonical key combinations: a modifier set plus a key code.

use vstd::prelude::*;

verus! {

/// Set of modifier keys held together with a key press.
#[derive(Clone, Copy, PartialEq, Eq, Hash, Debug, Structural)]
pub struct KeyModifiers {
    pub shift: bool,
    pub control: bool,
    pub alt: bool,
    pub super_key: bool,
}

impl KeyModifiers {
    pub open spec fn spec_none() -> KeyModifiers {
        KeyModifiers { shift: false, control: false, alt: false, super_key: false }
    }

    pub open spec fn spec_shift() -> KeyModifiers {
        KeyModifiers { shift: true, control: false, alt: false, super_key: false }
    }

    pub open spec fn spec_control() -> KeyModifiers {
        KeyModifiers { shift: false, control: true, alt: false, super_key: false }
    }

    pub open spec fn spec_alt() -> KeyModifiers {
        KeyModifiers { shift: false, control: false, alt: true, super_key: false }
    }

    pub open spec fn spec_super() -> KeyModifiers {
        KeyModifiers { shift: false, control: false, alt: false, super_key: true }
    }

    /// No modifier held.
    #[verifier::when_used_as_spec(spec_none)]
    pub fn none() -> (r: KeyModifiers)
        ensures
            r == KeyModifiers::spec_none(),
    {
        KeyModifiers { shift: false, control: false, alt: false, super_key: false }
    }

    /// Shift alone.
    #[verifier::when_used_as_spec(spec_shift)]
    pub fn shift() -> (r: KeyModifiers)
        ensures
            r == KeyModifiers::spec_shift(),
    {
        KeyModifiers { shift: true, control: false, alt: false, super_key: false }
    }

    /// Control alone.
    #[verifier::when_used_as_spec(spec_control)]
    pub fn control() -> (r: KeyModifiers)
        ensures
            r == KeyModifiers::spec_control(),
    {
        KeyModifiers { shift: false, control: true, alt: false, super_key: false }
    }

    /// Alt alone.
    #[verifier::when_used_as_spec(spec_alt)]
    pub fn alt() -> (r: KeyModifiers)
        ensures
            r == KeyModifiers::spec_alt(),
    {
        KeyModifiers { shift: false, control: false, alt: true, super_key: false }
    }

    /// Super (command/windows key) alone.
    #[verifier::when_used_as_spec(spec_super)]
    pub fn super_mod() -> (r: KeyModifiers)
        ensures
            r == KeyModifiers::spec_super(),
    {
        KeyModifiers { shift: false, control: false, alt: false, super_key: true }
    }

    pub open spec fn spec_union(self, other: KeyModifiers) -> KeyModifiers {
        KeyModifiers {
            shift: self.shift || other.shift,
            control: self.control || other.control,
            alt: self.alt || other.alt,
            super_key: self.super_key || other.super_key,
        }
    }

    /// Bitwise combination of two modifier sets.
    #[verifier::when_used_as_spec(spec_union)]
    pub fn union(self, other: KeyModifiers) -> (r: KeyModifiers)
        ensures
            r == self.spec_union(other),
    {
        KeyModifiers {
            shift: self.shift || other.shift,
            control: self.control || other.control,
            alt: self.alt || other.alt,
            super_key: self.super_key || other.super_key,
        }
    }
}

/// A single key, either a printable character or a special key.
#[derive(Clone, Copy, PartialEq, Eq, Hash, Debug, Structural)]
pub enum KeyCode {
    Backspace,
    Enter,
    Left,
    Right,
    Up,
    Down,
    Home,
    End,
    PageUp,
    PageDown,
    Tab,
    BackTab,
    Delete,
    Insert,
    F(u8),
    Char(char),
    Null,
    Esc,
}

/// A modifier/key combination identifying one physical keystroke.
/// Used as a table key; equality is structural.
#[derive(Clone, Copy, PartialEq, Eq, Hash, Debug, Structural)]
pub struct KeyCombination {
    /// Modifier (shift, control, etc.) of the key combination.
    pub modifier: KeyModifiers,
    /// Key.
    pub key_code: KeyCode,
}

pub open spec fn spec_lower_char(c: char) -> char {
    if 'A' <= c && c <= 'Z' {
        ((c as u8) + 32) as char
    } else {
        c
    }
}

pub open spec fn spec_upper_char(c: char) -> char {
    if 'a' <= c && c <= 'z' {
        ((c as u8) - 32) as char
    } else {
        c
    }
}

/// ASCII lowercasing of a single character; other characters are unchanged.
#[verifier::when_used_as_spec(spec_lower_char)]
pub fn lower_char(c: char) -> (r: char)
    ensures
        r == spec_lower_char(c),
{
    if 'A' <= c && c <= 'Z' {
        ((c as u8) + 32) as char
    } else {
        c
    }
}

/// ASCII uppercasing of a single character; other characters are unchanged.
#[verifier::when_used_as_spec(spec_upper_char)]
pub fn upper_char(c: char) -> (r: char)
    ensures
        r == spec_upper_char(c),
{
    if 'a' <= c && c <= 'z' {
        ((c as u8) - 32) as char
    } else {
        c
    }
}

pub open spec fn spec_lower_key_code(key_code: KeyCode) -> KeyCode {
    match key_code {
        KeyCode::Char(c) => KeyCode::Char(spec_lower_char(c)),
        _ => key_code,
    }
}

/// Character key codes are ASCII-lowercased before a table lookup, since
/// terminals report shift state inconsistently under control/alt modifiers.
#[verifier::when_used_as_spec(spec_lower_key_code)]
pub fn to_lowercase_key_code(key_code: KeyCode) -> (r: KeyCode)
    ensures
        r == spec_lower_key_code(key_code),
{
    if let KeyCode::Char(c) = key_code {
        KeyCode::Char(lower_char(c))
    } else {
        key_code
    }
}

} // verus!
