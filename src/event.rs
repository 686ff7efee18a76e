//! Input events as the host delivers them, already decoded, and the commands
//! a list hands back instead of touching the host itself.

use vstd::prelude::*;

use crate::ui::geometry::Vec2;

verus! {

/// A mouse button.
#[derive(Clone, Copy, Debug, PartialEq, Eq, Structural)]
pub enum MouseButton {
    Left,
    Middle,
    Right,
    Other,
}

/// What the mouse did.
#[derive(Clone, Copy, Debug, PartialEq, Eq, Structural)]
pub enum MouseEvent {
    Press(MouseButton),
    Release(MouseButton),
    Hold(MouseButton),
    WheelUp,
    WheelDown,
}

/// A non-character key.
#[derive(Clone, Copy, Debug, PartialEq, Eq, Structural)]
pub enum Key {
    Enter,
    Tab,
    Backspace,
    Esc,
    Left,
    Right,
    Up,
    Down,
    Ins,
    Del,
    Home,
    End,
    PageUp,
    PageDown,
    Other,
}

/// One decoded input event.
#[derive(Clone, Copy, Debug, PartialEq, Eq, Structural)]
pub enum Event {
    Char(char),
    CtrlChar(char),
    AltChar(char),
    Key(Key),
    /// `position` is absolute; `offset` is where the receiving view starts.
    Mouse { offset: Vec2, position: Vec2, event: MouseEvent },
    Other,
}

/// A deferred command for the host to run against its own live state.
#[derive(Debug)]
pub enum Callback<T> {
    /// Nothing to do.
    Dummy,
    /// The focus moved onto this value: run the selection handler on it.
    Select(T),
    /// This value was submitted: run the submit handler on it.
    Submit(T),
    /// A compact list asks to be shown as a pop-up menu at its focus.
    Popup,
}

/// How a list answered an event.
#[derive(Debug)]
pub enum EventResult<T> {
    /// The event is not for this list.
    Ignored,
    /// The list used the event, and may ask the host to run a command.
    Consumed(Option<Callback<T>>),
}

} // verus!
