//! Key presses as the input state machine reads them.

use vstd::prelude::*;

verus! {

/// Which key was pressed.
#[derive(Clone, Copy, Debug, PartialEq, Eq, Structural)]
pub enum KeyCode {
    /// A key that produces a character.
    Char(char),
    Backspace,
    Esc,
    Enter,
    /// Any key the browser has no binding for.
    Other,
}

/// The modifier keys held down together with a key.
#[derive(Clone, Copy, Debug, PartialEq, Eq, Structural)]
pub struct Modifiers {
    pub shift: bool,
    pub control: bool,
    pub alt: bool,
    /// Any further modifier (super, hyper, meta).
    pub other: bool,
}

impl Modifiers {
    /// No modifier is held.
    pub open spec fn is_none(self) -> bool {
        !self.shift && !self.control && !self.alt && !self.other
    }

    /// Control is held, and nothing else.
    pub open spec fn is_control(self) -> bool {
        !self.shift && self.control && !self.alt && !self.other
    }

    /// The empty set of modifiers.
    pub fn none() -> (m: Modifiers)
        ensures
            m.is_none(),
            m == (Modifiers { shift: false, control: false, alt: false, other: false }),
    {
        Modifiers { shift: false, control: false, alt: false, other: false }
    }

    /// Control alone.
    pub fn control() -> (m: Modifiers)
        ensures
            m.is_control(),
            m == (Modifiers { shift: false, control: true, alt: false, other: false }),
    {
        Modifiers { shift: false, control: true, alt: false, other: false }
    }

    /// Tells whether no modifier is held.
    pub fn holds_none(&self) -> (b: bool)
        ensures
            b == self.is_none(),
    {
        !self.shift && !self.control && !self.alt && !self.other
    }

    /// Tells whether control, and only control, is held.
    pub fn holds_control_only(&self) -> (b: bool)
        ensures
            b == self.is_control(),
    {
        !self.shift && self.control && !self.alt && !self.other
    }
}

/// One key press: the key and the modifiers held with it.
#[derive(Clone, Copy, Debug, PartialEq, Eq, Structural)]
pub struct Key {
    pub code: KeyCode,
    pub modifiers: Modifiers,
}

impl Key {
    /// Whether this is the interrupt key: `c` with control, and nothing
    /// else, held.
    pub open spec fn interrupts(self) -> bool {
        self.modifiers.is_control() && self.code == KeyCode::Char('c')
    }

    /// Tells whether this is the interrupt key, control-C.
    pub fn is_interrupt(&self) -> (b: bool)
        ensures
            b == self.interrupts(),
    {
        self.modifiers.holds_control_only() && match self.code {
            KeyCode::Char(c) => c == 'c',
            _ => false,
        }
    }

    /// The key `code` pressed with no modifier.
    pub open spec fn pressed(code: KeyCode) -> Key {
        Key {
            code,
            modifiers: Modifiers { shift: false, control: false, alt: false, other: false },
        }
    }

    /// The character `c` typed with no modifier.
    pub open spec fn typed(c: char) -> Key {
        Key::pressed(KeyCode::Char(c))
    }

    /// The key `code` pressed with no modifier.
    pub fn plain(code: KeyCode) -> (key: Key)
        ensures
            key == Key::pressed(code),
    {
        Key { code, modifiers: Modifiers::none() }
    }

    /// The character `c` typed with no modifier.
    pub fn char(c: char) -> (key: Key)
        ensures
            key == Key::typed(c),
    {
        Key { code: KeyCode::Char(c), modifiers: Modifiers::none() }
    }

    /// The character `c` typed while control is held.
    pub fn ctrl(c: char) -> (key: Key)
        ensures
            key.code == KeyCode::Char(c),
            key.modifiers.is_control(),
            c == 'c' ==> key.interrupts(),
    {
        Key { code: KeyCode::Char(c), modifiers: Modifiers::control() }
    }
}

} // verus!
