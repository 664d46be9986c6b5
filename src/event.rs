//! Input events as plain values: keys with their modifiers, mouse actions and
//! resizes, as a terminal input source reports them.
use vstd::prelude::*;

verus! {

/// A key, by what it does or the character it types.
#[derive(Clone, Copy, Debug, PartialEq, Eq, Structural)]
pub enum KeyCode {
    Backspace,
    Enter,
    Left,
    Right,
    Up,
    Down,
    Home,
    End,
    PageUp,
    PageDown,
    Tab,
    BackTab,
    Delete,
    Insert,
    F(u8),
    Char(char),
    Null,
    Esc,
}

/// The modifier keys held down with a key or a mouse action.
#[derive(Clone, Copy, Debug, PartialEq, Eq, Structural)]
pub struct KeyModifiers {
    pub shift: bool,
    pub control: bool,
    pub alt: bool,
}

impl KeyModifiers {
    /// No modifier held.
    pub fn none() -> (m: KeyModifiers)
        ensures
            !m.shift && !m.control && !m.alt,
    {
        KeyModifiers { shift: false, control: false, alt: false }
    }

    /// Control alone.
    pub fn control_only() -> (m: KeyModifiers)
        ensures
            !m.shift && m.control && !m.alt,
    {
        KeyModifiers { shift: false, control: true, alt: false }
    }
}

/// A key press and the modifiers held with it.
#[derive(Clone, Copy, Debug, PartialEq, Eq, Structural)]
pub struct KeyEvent {
    pub code: KeyCode,
    pub modifiers: KeyModifiers,
}

/// A mouse button.
#[derive(Clone, Copy, Debug, PartialEq, Eq, Structural)]
pub enum MouseButton {
    Left,
    Right,
    Middle,
}

/// What the mouse did.
#[derive(Clone, Copy, Debug, PartialEq, Eq, Structural)]
pub enum MouseEventKind {
    Down(MouseButton),
    Up(MouseButton),
    Drag(MouseButton),
    Moved,
    ScrollDown,
    ScrollUp,
}

/// A mouse action at a terminal cell.
#[derive(Clone, Copy, Debug, PartialEq, Eq, Structural)]
pub struct MouseEvent {
    pub kind: MouseEventKind,
    pub column: u16,
    pub row: u16,
    pub modifiers: KeyModifiers,
}

/// One input event.
#[derive(Clone, Copy, Debug, PartialEq, Eq, Structural)]
pub enum Event {
    Key(KeyEvent),
    Mouse(MouseEvent),
    /// The terminal's new size, in columns and rows.
    Resize(u16, u16),
}

/// The key combination that ends the loop: control and `q`, nothing else held.
pub open spec fn exit_key() -> KeyEvent {
    KeyEvent {
        code: KeyCode::Char('q'),
        modifiers: KeyModifiers { shift: false, control: true, alt: false },
    }
}

/// The key event inside an event, if it is one.
pub fn to_key_event(event_option: Option<Event>) -> (r: Option<KeyEvent>)
    ensures
        r == (match event_option {
            Some(Event::Key(k)) => Some(k),
            _ => None,
        }),
{
    match event_option {
        Some(Event::Key(key_event)) => Some(key_event),
        _ => None,
    }
}

/// Whether an event is the exit combination.
pub fn is_exit_event(event: &Event) -> (r: bool)
    ensures
        r == (*event == Event::Key(exit_key())),
{
    match event {
        Event::Key(k) => {
            k.code == KeyCode::Char('q') && !k.modifiers.shift && k.modifiers.control
                && !k.modifiers.alt
        },
        _ => false,
    }
}

} // verus!
