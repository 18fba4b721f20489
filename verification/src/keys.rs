//! Key presses, as the dashboard reads them.
//!
//! A key press is a key code with the modifier keys held down. Only presses
//! reach the dashboard: whoever decodes the keyboard drops releases and
//! repeats.

use vstd::prelude::*;

verus! {

/// The key that was pressed.
#[derive(Clone, Copy, Debug, PartialEq, Eq, Structural)]
pub enum KeyCode {
    Char(char),
    Up,
    Down,
    Left,
    Right,
    Enter,
    Backspace,
    Esc,
    Resize,
    Other,
}

/// The modifier keys held down with a key.
#[derive(Clone, Copy, Debug, PartialEq, Eq, Structural)]
pub struct KeyModifiers {
    pub ctrl: bool,
    pub shift: bool,
    pub alt: bool,
}

/// One key press.
#[derive(Clone, Copy, Debug, PartialEq, Eq, Structural)]
pub struct KeyEvent {
    pub modifiers: KeyModifiers,
    pub code: KeyCode,
}

/// Where a key scrolls the table.
#[derive(Clone, Copy, Debug, PartialEq, Eq, Structural)]
pub enum Scroll {
    Up,
    Down,
}

impl KeyModifiers {
    /// No modifier key is held.
    pub open spec fn is_none(self) -> bool {
        !self.ctrl && !self.shift && !self.alt
    }

    /// Control is held, and nothing else.
    pub open spec fn is_control(self) -> bool {
        self.ctrl && !self.shift && !self.alt
    }

    /// No modifier key.
    pub fn none() -> (m: KeyModifiers)
        ensures
            m == (KeyModifiers { ctrl: false, shift: false, alt: false }),
    {
        KeyModifiers { ctrl: false, shift: false, alt: false }
    }

    /// Control alone.
    pub fn control() -> (m: KeyModifiers)
        ensures
            m == (KeyModifiers { ctrl: true, shift: false, alt: false }),
    {
        KeyModifiers { ctrl: true, shift: false, alt: false }
    }
}

impl KeyEvent {
    /// The press of `code` with `modifiers` held.
    pub fn new(code: KeyCode, modifiers: KeyModifiers) -> (key: KeyEvent)
        ensures
            key == (KeyEvent { modifiers, code }),
    {
        KeyEvent { modifiers, code }
    }

    /// The press of `code` with no modifier held.
    pub fn plain(code: KeyCode) -> (key: KeyEvent)
        ensures
            key.code == code,
            key.modifiers == (KeyModifiers { ctrl: false, shift: false, alt: false }),
    {
        KeyEvent { modifiers: KeyModifiers::none(), code }
    }

    /// The key stops the dashboard whatever it is doing: Escape alone, or
    /// Control with `c` in either case.
    pub open spec fn stops(self) -> bool {
        ||| self.modifiers.is_none() && self.code == KeyCode::Esc
        ||| self.modifiers.is_control() && (self.code == KeyCode::Char('c') || self.code
            == KeyCode::Char('C'))
    }

    /// The key is `q`, with any modifiers.
    pub open spec fn leaves(self) -> bool {
        self.code == KeyCode::Char('q')
    }

    /// Where the key scrolls the table, with any modifiers: the arrows, and
    /// `j` for down and `k` for up.
    pub open spec fn scroll(self) -> Option<Scroll> {
        match self.code {
            KeyCode::Down => Some(Scroll::Down),
            KeyCode::Char(c) => if c == 'j' {
                Some(Scroll::Down)
            } else if c == 'k' {
                Some(Scroll::Up)
            } else {
                None
            },
            KeyCode::Up => Some(Scroll::Up),
            _ => None,
        }
    }

    /// Whether the key stops the dashboard whatever it is doing.
    pub fn is_stop(&self) -> (b: bool)
        ensures
            b == self.stops(),
    {
        let bare: bool = !self.modifiers.ctrl && !self.modifiers.shift && !self.modifiers.alt;
        let control: bool = self.modifiers.ctrl && !self.modifiers.shift && !self.modifiers.alt;
        match self.code {
            KeyCode::Esc => bare,
            KeyCode::Char(c) => control && (c == 'c' || c == 'C'),
            _ => false,
        }
    }

    /// Whether the key is `q`.
    pub fn is_leave(&self) -> (b: bool)
        ensures
            b == self.leaves(),
    {
        match self.code {
            KeyCode::Char(c) => c == 'q',
            _ => false,
        }
    }

    /// Where the key scrolls the table, if it does.
    pub fn scroll_direction(&self) -> (d: Option<Scroll>)
        ensures
            d == self.scroll(),
    {
        match self.code {
            KeyCode::Down => Some(Scroll::Down),
            KeyCode::Up => Some(Scroll::Up),
            KeyCode::Char(c) => {
                if c == 'j' {
                    Some(Scroll::Down)
                } else if c == 'k' {
                    Some(Scroll::Up)
                } else {
                    None
                }
            },
            _ => None,
        }
    }
}

} // verus!
