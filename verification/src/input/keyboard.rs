//! Keyboards: from the raw code of a key and the kind of its event to a key
//! event with the text of the key.
//!
//! There are two strategies with one interface. `impl_simple` has a built-in
//! table for one layout; `impl_xkb` makes its events of the symbols that a
//! compiled keyboard layout has reported. Which one an input manager uses is
//! decided where its type is written down.

pub mod impl_simple;
pub mod impl_xkb;
pub mod key_codes;
pub mod keysyms;

use vstd::prelude::*;
use crate::input::event::WindowEvent;

verus! {

/// The key event of the kind that `value` names, with `text`: 0 is a release,
/// 1 a press, 2 a repeat, and nothing else is a key event.
pub open spec fn key_event(value: i32, text: Option<char>) -> Option<WindowEvent> {
    if value == 0 {
        Some(WindowEvent::KeyReleased { text })
    } else if value == 1 {
        Some(WindowEvent::KeyPressed { text })
    } else if value == 2 {
        Some(WindowEvent::KeyPressRepeated { text })
    } else {
        None
    }
}

/// What every strategy promises of the event `r` that it makes of a key event
/// of the kind `value`: if there is one, it is the key event of that kind,
/// with some text.
pub open spec fn key_event_shape(value: i32, r: Option<WindowEvent>) -> bool {
    match r {
        Some(WindowEvent::KeyReleased { text }) => value == 0,
        Some(WindowEvent::KeyPressed { text }) => value == 1,
        Some(WindowEvent::KeyPressRepeated { text }) => value == 2,
        Some(_) => false,
        None => true,
    }
}

/// Makes the key event of the kind that `value` names.
pub fn make_key_event(value: i32, text: Option<char>) -> (r: Option<WindowEvent>)
    ensures
        r == key_event(value, text),
        key_event_shape(value, r),
{
    if value == 0 {
        Some(WindowEvent::KeyReleased { text })
    } else if value == 1 {
        Some(WindowEvent::KeyPressed { text })
    } else if value == 2 {
        Some(WindowEvent::KeyPressRepeated { text })
    } else {
        None
    }
}

/// A keyboard strategy.
pub trait KeyboardStrategy: Sized {
    /// Whether the keyboard can answer the key event with `r` and be `after`
    /// when it has.
    spec fn answers(&self, key_code: u16, value: i32, after: &Self, r: Option<WindowEvent>) -> bool;

    /// Handles one key event: `value` is 0 for a release, 1 for a press and 2
    /// for a repeat.
    fn handle_key_event(&mut self, key_code: u16, value: i32) -> (r: Option<WindowEvent>)
        ensures
            old(self).answers(key_code, value, final(self), r),
            key_event_shape(value, r),
    ;
}

} // verus!
