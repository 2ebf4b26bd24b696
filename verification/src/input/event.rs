//! The events that the input subsystem produces.

use vstd::prelude::*;

verus! {

/// A position on the screen, in physical pixels.
#[derive(Clone, Copy, Debug, PartialEq, Eq, Structural)]
pub struct PhysicalPosition {
    pub x: i32,
    pub y: i32,
}

impl PhysicalPosition {
    pub fn new(x: i32, y: i32) -> (p: PhysicalPosition)
        ensures
            p == (PhysicalPosition { x, y }),
    {
        PhysicalPosition { x, y }
    }
}

/// The button of a pointer event.
#[derive(Clone, Copy, Debug, PartialEq, Eq, Structural)]
pub enum PointerEventButton {
    Left,
    Right,
    Middle,
    Back,
    Forward,
}

/// One normalized input event.
///
/// Scroll deltas are in pixels. The text of a key event is the character that
/// the key resolved to, or `None` where it resolved to nothing.
#[derive(Clone, Copy, Debug, PartialEq, Eq, Structural)]
pub enum WindowEvent {
    PointerMoved { position: PhysicalPosition },
    PointerPressed { position: PhysicalPosition, button: PointerEventButton },
    PointerReleased { position: PhysicalPosition, button: PointerEventButton },
    PointerScrolled { position: PhysicalPosition, delta_x: i64, delta_y: i64 },
    KeyPressed { text: Option<char> },
    KeyReleased { text: Option<char> },
    KeyPressRepeated { text: Option<char> },
}

} // verus!
