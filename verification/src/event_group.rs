//! The input events of one tick, as plain values.

use vstd::prelude::*;
use crate::common::U16Point;

verus! {

/// The key that a key event is about.
#[derive(Debug, Clone, Copy, PartialEq, Eq, Structural)]
pub enum KeyCode {
    Char(char),
    Backspace,
    Enter,
    Delete,
    Esc,
    Tab,
    Left,
    Right,
    Up,
    Down,
    /// Any other key.
    Other,
}

/// The modifier keys held down with a key.
#[derive(Debug, Clone, Copy, PartialEq, Eq, Structural)]
pub struct KeyModifiers {
    pub shift: bool,
    pub control: bool,
    pub alt: bool,
}

#[derive(Debug, Clone, Copy, PartialEq, Eq, Structural)]
pub struct KeyEvent {
    pub code: KeyCode,
    pub modifiers: KeyModifiers,
    /// Whether the key went down; not so for a release or a repeat.
    pub pressed: bool,
}

#[derive(Debug, Clone, Copy, PartialEq, Eq, Structural)]
pub enum MouseButton {
    Left,
    Middle,
    Right,
}

#[derive(Debug, Clone, Copy, PartialEq, Eq, Structural)]
pub enum MouseEventKind {
    Down(MouseButton),
    Up(MouseButton),
    /// The pointer moved with a button held down.
    Drag(MouseButton),
    Moved,
    /// Scrolling and anything else.
    Other,
}

#[derive(Debug, Clone, Copy, PartialEq, Eq, Structural)]
pub struct MouseEvent {
    pub kind: MouseEventKind,
    pub column: u16,
    pub row: u16,
}

#[derive(Debug, Clone, Copy, PartialEq, Eq, Structural)]
pub enum Event {
    Key(KeyEvent),
    Mouse(MouseEvent),
    /// The terminal now has this many columns and rows.
    Resize(u16, u16),
    /// Focus changes, pasted text and anything else.
    Other,
}

impl KeyModifiers {
    /// No modifier key.
    pub fn none() -> (r: Self)
        ensures
            r == (KeyModifiers { shift: false, control: false, alt: false }),
    {
        KeyModifiers { shift: false, control: false, alt: false }
    }
}

impl KeyEvent {
    /// Whether this is the Enter key without Alt: the key that ends a text
    /// edit. With Alt it breaks the line instead.
    pub open spec fn spec_is_enter_without_alt(&self) -> bool {
        self.code == KeyCode::Enter && !self.modifiers.alt
    }

    pub fn is_enter_without_alt(&self) -> (r: bool)
        ensures
            r == self.spec_is_enter_without_alt(),
    {
        self.code == KeyCode::Enter && !self.modifiers.alt
    }
}

/// The character of a key event for a character key.
pub open spec fn key_char(e: Event) -> Option<char> {
    match e {
        Event::Key(k) => match k.code {
            KeyCode::Char(c) => Some(c),
            _ => None,
        },
        _ => None,
    }
}

/// Whether `e` is a key event for the key `code`.
pub open spec fn is_key(e: Event, code: KeyCode) -> bool {
    match e {
        Event::Key(k) => k.code == code,
        _ => false,
    }
}

/// The position of a pointer event.
pub open spec fn mouse_pos(e: Event) -> Option<U16Point> {
    match e {
        Event::Mouse(m) => Some((m.column, m.row)),
        _ => None,
    }
}

/// The events that arrived since the last tick, in the order in which they
/// arrived.
#[derive(Debug)]
pub struct EventGroup {
    pub events: Vec<Event>,
}

impl EventGroup {
    pub fn new() -> (r: Self)
        ensures
            r.events@ == Seq::<Event>::empty(),
    {
        EventGroup { events: Vec::new() }
    }

    /// The character of the first event for a character key.
    pub fn first_pressed_char(&self) -> (r: Option<char>)
        ensures
            r.is_none() <==> forall|i: int|
                0 <= i < self.events@.len() ==> key_char(#[trigger] self.events@[i]).is_none(),
            r.is_some() ==> exists|i: int|
                0 <= i < self.events@.len() && key_char(#[trigger] self.events@[i]) == r && forall|
                    j: int,
                |
                    0 <= j < i ==> key_char(#[trigger] self.events@[j]).is_none(),
    {
        let mut i: usize = 0;
        while i < self.events.len()
            invariant
                0 <= i <= self.events@.len(),
                forall|j: int| 0 <= j < i ==> key_char(#[trigger] self.events@[j]).is_none(),
            decreases self.events.len() - i,
        {
            match self.events[i] {
                Event::Key(k) => match k.code {
                    KeyCode::Char(c) => {
                        assert(key_char(self.events@[i as int]) == Some(c));
                        return Some(c);
                    },
                    _ => {},
                },
                _ => {},
            }
            i = i + 1;
        }
        None
    }

    /// Whether there is an event for the key `key_code`.
    pub fn did_press_key(&self, key_code: KeyCode) -> (r: bool)
        ensures
            r <==> exists|i: int|
                0 <= i < self.events@.len() && is_key(#[trigger] self.events@[i], key_code),
    {
        let mut i: usize = 0;
        while i < self.events.len()
            invariant
                0 <= i <= self.events@.len(),
                forall|j: int| 0 <= j < i ==> !is_key(#[trigger] self.events@[j], key_code),
            decreases self.events.len() - i,
        {
            match self.events[i] {
                Event::Key(k) => {
                    if k.code == key_code {
                        assert(is_key(self.events@[i as int], key_code));
                        return true;
                    }
                },
                _ => {},
            }
            i = i + 1;
        }
        false
    }

    /// The position of the last pointer event.
    pub fn last_mouse_pos(&self) -> (r: Option<U16Point>)
        ensures
            r.is_none() <==> forall|i: int|
                0 <= i < self.events@.len() ==> mouse_pos(#[trigger] self.events@[i]).is_none(),
            r.is_some() ==> exists|i: int|
                0 <= i < self.events@.len() && mouse_pos(#[trigger] self.events@[i]) == r && forall|
                    j: int,
                |
                    i < j < self.events@.len() ==> mouse_pos(#[trigger] self.events@[j]).is_none(),
    {
        let mut i: usize = self.events.len();
        while i > 0
            invariant
                0 <= i <= self.events@.len(),
                forall|j: int|
                    i <= j < self.events@.len() ==> mouse_pos(#[trigger] self.events@[j]).is_none(),
            decreases i,
        {
            i = i - 1;
            match self.events[i] {
                Event::Mouse(m) => {
                    assert(mouse_pos(self.events@[i as int]) == Some((m.column, m.row)));
                    return Some((m.column, m.row));
                },
                _ => {},
            }
        }
        None
    }
}

} // verus!
