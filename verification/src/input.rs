//! Input from the RDP client turned into the macOS events to post: key
//! events by virtual keycode, unicode characters, pointer moves, button
//! presses at the last pointer position, and scrolling.
use crate::keymap::{extended_keycode, scancode_to_keycode, standard_keycode};
use vstd::prelude::*;

verus! {

/// A mouse button.
#[derive(Clone, Copy, PartialEq, Eq, Structural, Debug)]
pub enum MouseButton {
    Left,
    Right,
    Middle,
}

/// A keyboard event from the client.
#[derive(Clone, Copy, PartialEq, Eq, Structural, Debug)]
pub enum KeyInput {
    Pressed { code: u8, extended: bool },
    Released { code: u8, extended: bool },
    UnicodePressed(u16),
    UnicodeReleased(u16),
    /// Lock-key synchronisation.
    Synchronize(u32),
}

/// The keyboard event to post.
#[derive(Clone, Copy, PartialEq, Eq, Structural, Debug)]
pub enum KeyAction {
    /// A key down or up by macOS virtual keycode.
    Key { keycode: u16, pressed: bool },
    /// A unicode character typed (on press) or released.
    Unicode { ch: u16, pressed: bool },
    /// Nothing to post.
    Ignore,
}

/// The macOS keycode of a scancode, as `scancode_to_keycode` gives it.
pub open spec fn keycode_of(scancode: u8, extended: bool) -> Option<u16> {
    if extended {
        extended_keycode(scancode)
    } else {
        standard_keycode(scancode)
    }
}

/// Injects keyboard input; the event source is created by the host.
pub struct KeyboardInjector;

impl KeyboardInjector {
    /// The event for a key press or release: its keycode, or nothing for a
    /// scancode without one.
    pub fn key_event(&self, scancode: u8, extended: bool, pressed: bool) -> (a: KeyAction)
        ensures
            a == match keycode_of(scancode, extended) {
                Some(k) => KeyAction::Key { keycode: k, pressed },
                None => KeyAction::Ignore,
            },
    {
        match scancode_to_keycode(scancode, extended) {
            Some(keycode) => KeyAction::Key { keycode, pressed },
            None => KeyAction::Ignore,
        }
    }

    /// The event for a unicode character press or release.
    pub fn unicode_event(&self, ch: u16, pressed: bool) -> (a: KeyAction)
        ensures
            a == (KeyAction::Unicode { ch, pressed }),
    {
        KeyAction::Unicode { ch, pressed }
    }

    /// The event for a keyboard input from the client; synchronisation is
    /// ignored.
    pub fn action(&self, input: KeyInput) -> (a: KeyAction)
        ensures
            a == match input {
                KeyInput::Pressed { code, extended } => match keycode_of(code, extended) {
                    Some(k) => KeyAction::Key { keycode: k, pressed: true },
                    None => KeyAction::Ignore,
                },
                KeyInput::Released { code, extended } => match keycode_of(code, extended) {
                    Some(k) => KeyAction::Key { keycode: k, pressed: false },
                    None => KeyAction::Ignore,
                },
                KeyInput::UnicodePressed(ch) => KeyAction::Unicode { ch, pressed: true },
                KeyInput::UnicodeReleased(ch) => KeyAction::Unicode { ch, pressed: false },
                KeyInput::Synchronize(_) => KeyAction::Ignore,
            },
    {
        match input {
            KeyInput::Pressed { code, extended } => self.key_event(code, extended, true),
            KeyInput::Released { code, extended } => self.key_event(code, extended, false),
            KeyInput::UnicodePressed(ch) => self.unicode_event(ch, true),
            KeyInput::UnicodeReleased(ch) => self.unicode_event(ch, false),
            KeyInput::Synchronize(_) => KeyAction::Ignore,
        }
    }
}

/// Kind of a CoreGraphics mouse event.
#[derive(Clone, Copy, PartialEq, Eq, Structural, Debug)]
pub enum MouseEventKind {
    LeftMouseDown,
    LeftMouseUp,
    RightMouseDown,
    RightMouseUp,
    OtherMouseDown,
    OtherMouseUp,
}

/// A CoreGraphics mouse button.
#[derive(Clone, Copy, PartialEq, Eq, Structural, Debug)]
pub enum CgMouseButton {
    Left,
    Right,
    Center,
}

/// Injects mouse input; the event source is created by the host.
pub struct MouseInjector;

impl MouseInjector {
    /// The event kind and CoreGraphics button of a button press or
    /// release; the middle button is the "other" (center) button.
    pub fn button_event(&self, button: MouseButton, pressed: bool) -> (e: (MouseEventKind, CgMouseButton))
        ensures
            e == match (button, pressed) {
                (MouseButton::Left, true) => (MouseEventKind::LeftMouseDown, CgMouseButton::Left),
                (MouseButton::Left, false) => (MouseEventKind::LeftMouseUp, CgMouseButton::Left),
                (MouseButton::Right, true) => (MouseEventKind::RightMouseDown, CgMouseButton::Right),
                (MouseButton::Right, false) => (MouseEventKind::RightMouseUp, CgMouseButton::Right),
                (MouseButton::Middle, true) => (MouseEventKind::OtherMouseDown, CgMouseButton::Center),
                (MouseButton::Middle, false) => (MouseEventKind::OtherMouseUp, CgMouseButton::Center),
            },
    {
        match (button, pressed) {
            (MouseButton::Left, true) => (MouseEventKind::LeftMouseDown, CgMouseButton::Left),
            (MouseButton::Left, false) => (MouseEventKind::LeftMouseUp, CgMouseButton::Left),
            (MouseButton::Right, true) => (MouseEventKind::RightMouseDown, CgMouseButton::Right),
            (MouseButton::Right, false) => (MouseEventKind::RightMouseUp, CgMouseButton::Right),
            (MouseButton::Middle, true) => (MouseEventKind::OtherMouseDown, CgMouseButton::Center),
            (MouseButton::Middle, false) => (MouseEventKind::OtherMouseUp, CgMouseButton::Center),
        }
    }
}

/// A pointer event from the client, with a move already scaled to macOS
/// logical points.
#[derive(Clone, Copy, PartialEq, Eq, Structural, Debug)]
pub enum PointerInput {
    Move { x: u16, y: u16 },
    Button { button: MouseButton, pressed: bool },
    VerticalScroll(i16),
    /// Events the server does not inject (horizontal scroll, extra buttons,
    /// relative moves).
    Other,
}

/// The mouse event to post.
#[derive(Clone, Copy, PartialEq, Eq, Structural, Debug)]
pub enum MouseAction {
    MoveTo { x: u16, y: u16 },
    Button { button: MouseButton, pressed: bool, x: u16, y: u16 },
    /// Scroll by lines, vertically.
    Scroll(i32),
    Ignore,
}

/// Where the pointer was last moved to; buttons are pressed there.
#[derive(Clone, Copy, PartialEq, Eq, Structural, Debug)]
pub struct PointerTracker {
    pub last_x: u16,
    pub last_y: u16,
}

impl PointerTracker {
    /// A pointer at the origin.
    pub fn new() -> (t: Self)
        ensures
            t.last_x == 0,
            t.last_y == 0,
    {
        PointerTracker { last_x: 0, last_y: 0 }
    }

    /// The mouse event for a pointer input: a move goes to its point and
    /// becomes the last position, a button acts at the last position, a
    /// vertical scroll scrolls by its value in lines.
    pub fn on_input(&mut self, input: PointerInput) -> (a: MouseAction)
        ensures
            match input {
                PointerInput::Move { x, y } => {
                    &&& a == (MouseAction::MoveTo { x, y })
                    &&& final(self).last_x == x
                    &&& final(self).last_y == y
                },
                PointerInput::Button { button, pressed } => {
                    &&& a == (MouseAction::Button {
                        button,
                        pressed,
                        x: old(self).last_x,
                        y: old(self).last_y,
                    })
                    &&& *final(self) == *old(self)
                },
                PointerInput::VerticalScroll(v) => a == MouseAction::Scroll(v as i32) && *final(self)
                    == *old(self),
                PointerInput::Other => a == MouseAction::Ignore && *final(self) == *old(self),
            },
    {
        match input {
            PointerInput::Move { x, y } => {
                self.last_x = x;
                self.last_y = y;
                MouseAction::MoveTo { x, y }
            },
            PointerInput::Button { button, pressed } => MouseAction::Button {
                button,
                pressed,
                x: self.last_x,
                y: self.last_y,
            },
            PointerInput::VerticalScroll(v) => MouseAction::Scroll(v as i32),
            PointerInput::Other => MouseAction::Ignore,
        }
    }
}

} // verus!
