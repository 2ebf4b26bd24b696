//! The keyboard with a built-in table for the US QWERTY layout.
//!
//! It tracks nothing but the shift keys. Each key of the table has a
//! character without shift and one with shift; for letters and symbols the two
//! differ, for named keys (modifiers, navigation, function keys) they are the
//! same, but for Tab, which shift turns into Backtab. A key that the table does
//! not hold produces no event.

use vstd::prelude::*;
use crate::error::Error;
use crate::input::codes;
use crate::input::dispatch::decode;
use crate::input::dispatch::decodes;
use crate::input::dispatch::is_decoding;
use crate::input::dispatch::is_keyboard_key;
use crate::input::dispatch::keyboard_run;
use crate::input::dispatch::keyboard_step;
use crate::input::dispatch::run;
use crate::input::dispatch::DeviceEvent;
use crate::input::dispatch::RawEvent;
use crate::input::event::WindowEvent;
use crate::input::keyboard::key_codes;
use crate::input::keyboard::key_event;
use crate::input::keyboard::key_event_shape;
use crate::input::keyboard::make_key_event;
use crate::input::keyboard::KeyboardStrategy;
use crate::input::GlobalInputState;
use crate::input::ManagedDevice;

verus! {

/// Number of keys in the table.
pub const KEY_COUNT: usize = 107;

/// The key codes of the table.
pub const KEY_CODES: [u16; KEY_COUNT] = [
    codes::KEY_LEFTSHIFT, codes::KEY_RIGHTSHIFT, codes::KEY_LEFTCTRL, codes::KEY_RIGHTCTRL,
    codes::KEY_LEFTALT, codes::KEY_RIGHTALT, codes::KEY_LEFTMETA, codes::KEY_RIGHTMETA,
    codes::KEY_CAPSLOCK, codes::KEY_Q, codes::KEY_W, codes::KEY_E,
    codes::KEY_R, codes::KEY_T, codes::KEY_Y, codes::KEY_U,
    codes::KEY_I, codes::KEY_O, codes::KEY_P, codes::KEY_A,
    codes::KEY_S, codes::KEY_D, codes::KEY_F, codes::KEY_G,
    codes::KEY_H, codes::KEY_J, codes::KEY_K, codes::KEY_L,
    codes::KEY_Z, codes::KEY_X, codes::KEY_C, codes::KEY_V,
    codes::KEY_B, codes::KEY_N, codes::KEY_M, codes::KEY_1,
    codes::KEY_2, codes::KEY_3, codes::KEY_4, codes::KEY_5,
    codes::KEY_6, codes::KEY_7, codes::KEY_8, codes::KEY_9,
    codes::KEY_0, codes::KEY_MINUS, codes::KEY_KPMINUS, codes::KEY_EQUAL,
    codes::KEY_KPEQUAL, codes::KEY_LEFTBRACE, codes::KEY_RIGHTBRACE, codes::KEY_BACKSLASH,
    codes::KEY_SEMICOLON, codes::KEY_APOSTROPHE, codes::KEY_COMMA, codes::KEY_KPCOMMA,
    codes::KEY_DOT, codes::KEY_KPDOT, codes::KEY_SLASH, codes::KEY_KPSLASH,
    codes::KEY_GRAVE, codes::KEY_ESC, codes::KEY_ENTER, codes::KEY_KPENTER,
    codes::KEY_BACKSPACE, codes::KEY_TAB, codes::KEY_SPACE, codes::KEY_UP,
    codes::KEY_DOWN, codes::KEY_LEFT, codes::KEY_RIGHT, codes::KEY_F1,
    codes::KEY_F2, codes::KEY_F3, codes::KEY_F4, codes::KEY_F5,
    codes::KEY_F6, codes::KEY_F7, codes::KEY_F8, codes::KEY_F9,
    codes::KEY_F10, codes::KEY_F11, codes::KEY_F12, codes::KEY_F13,
    codes::KEY_F14, codes::KEY_F15, codes::KEY_F16, codes::KEY_F17,
    codes::KEY_F18, codes::KEY_F19, codes::KEY_F20, codes::KEY_F21,
    codes::KEY_F22, codes::KEY_F23, codes::KEY_F24, codes::KEY_DELETE,
    codes::KEY_HOME, codes::KEY_END, codes::KEY_PAGEUP, codes::KEY_PAGEDOWN,
    codes::KEY_INSERT, codes::KEY_SYSRQ, codes::KEY_SCROLLLOCK, codes::KEY_PAUSE,
    codes::KEY_STOP, codes::KEY_MENU, codes::KEY_BACK,
];

/// The character of each key without shift.
pub const PLAIN_CHARS: [char; KEY_COUNT] = [
    key_codes::SHIFT, key_codes::SHIFT_R, key_codes::CONTROL, key_codes::CONTROL_R,
    key_codes::ALT, key_codes::ALT_GR, key_codes::META, key_codes::META_R,
    key_codes::CAPS_LOCK, 'q', 'w', 'e',
    'r', 't', 'y', 'u',
    'i', 'o', 'p', 'a',
    's', 'd', 'f', 'g',
    'h', 'j', 'k', 'l',
    'z', 'x', 'c', 'v',
    'b', 'n', 'm', '1',
    '2', '3', '4', '5',
    '6', '7', '8', '9',
    '0', '-', '-', '=',
    '=', '[', ']', '\\',
    ';', '\'', ',', ',',
    '.', '.', '/', '/',
    '`', key_codes::ESCAPE, key_codes::RETURN, key_codes::RETURN,
    key_codes::BACKSPACE, key_codes::TAB, key_codes::SPACE, key_codes::UP_ARROW,
    key_codes::DOWN_ARROW, key_codes::LEFT_ARROW, key_codes::RIGHT_ARROW, key_codes::F1,
    key_codes::F2, key_codes::F3, key_codes::F4, key_codes::F5,
    key_codes::F6, key_codes::F7, key_codes::F8, key_codes::F9,
    key_codes::F10, key_codes::F11, key_codes::F12, key_codes::F13,
    key_codes::F14, key_codes::F15, key_codes::F16, key_codes::F17,
    key_codes::F18, key_codes::F19, key_codes::F20, key_codes::F21,
    key_codes::F22, key_codes::F23, key_codes::F24, key_codes::DELETE,
    key_codes::HOME, key_codes::END, key_codes::PAGE_UP, key_codes::PAGE_DOWN,
    key_codes::INSERT, key_codes::SYS_REQ, key_codes::SCROLL_LOCK, key_codes::PAUSE,
    key_codes::STOP, key_codes::MENU, key_codes::BACK,
];

/// The character of each key with shift.
pub const SHIFTED_CHARS: [char; KEY_COUNT] = [
    key_codes::SHIFT, key_codes::SHIFT_R, key_codes::CONTROL, key_codes::CONTROL_R,
    key_codes::ALT, key_codes::ALT_GR, key_codes::META, key_codes::META_R,
    key_codes::CAPS_LOCK, 'Q', 'W', 'E',
    'R', 'T', 'Y', 'U',
    'I', 'O', 'P', 'A',
    'S', 'D', 'F', 'G',
    'H', 'J', 'K', 'L',
    'Z', 'X', 'C', 'V',
    'B', 'N', 'M', '!',
    '@', '#', '$', '%',
    '^', '&', '*', '(',
    ')', '_', '_', '+',
    '+', '{', '}', '|',
    ':', '"', '<', '<',
    '>', '>', '?', '?',
    '~', key_codes::ESCAPE, key_codes::RETURN, key_codes::RETURN,
    key_codes::BACKSPACE, key_codes::BACKTAB, key_codes::SPACE, key_codes::UP_ARROW,
    key_codes::DOWN_ARROW, key_codes::LEFT_ARROW, key_codes::RIGHT_ARROW, key_codes::F1,
    key_codes::F2, key_codes::F3, key_codes::F4, key_codes::F5,
    key_codes::F6, key_codes::F7, key_codes::F8, key_codes::F9,
    key_codes::F10, key_codes::F11, key_codes::F12, key_codes::F13,
    key_codes::F14, key_codes::F15, key_codes::F16, key_codes::F17,
    key_codes::F18, key_codes::F19, key_codes::F20, key_codes::F21,
    key_codes::F22, key_codes::F23, key_codes::F24, key_codes::DELETE,
    key_codes::HOME, key_codes::END, key_codes::PAGE_UP, key_codes::PAGE_DOWN,
    key_codes::INSERT, key_codes::SYS_REQ, key_codes::SCROLL_LOCK, key_codes::PAUSE,
    key_codes::STOP, key_codes::MENU, key_codes::BACK,
];

/// The first row of the table at or after row `i` that holds `code`.
pub open spec fn table_row_from(code: u16, i: int) -> Option<int>
    decreases KEY_COUNT - i,
{
    if i < 0 || i >= KEY_COUNT {
        None
    } else if KEY_CODES[i] == code {
        Some(i)
    } else {
        table_row_from(code, i + 1)
    }
}

/// The character of the key `code`, with or without shift.
pub open spec fn key_text(code: u16, shift: bool) -> Option<char> {
    match table_row_from(code, 0) {
        Some(i) => Some(
            if shift {
                SHIFTED_CHARS[i]
            } else {
                PLAIN_CHARS[i]
            },
        ),
        None => None,
    }
}

/// Whether `code` is one of the two shift keys.
pub open spec fn is_shift_key(code: u16) -> bool {
    code == codes::KEY_LEFTSHIFT || code == codes::KEY_RIGHTSHIFT
}

/// The shift state after the key event: a press of a shift key sets it, a
/// release clears it, and nothing else changes it.
pub open spec fn shift_after(shift: bool, code: u16, value: i32) -> bool {
    if is_shift_key(code) && value == 1 {
        true
    } else if is_shift_key(code) && value == 0 {
        false
    } else {
        shift
    }
}

/// The event of a key event: that of the key's character under the shift
/// state that the event leaves behind.
pub open spec fn simple_key_event(shift: bool, code: u16, value: i32) -> Option<WindowEvent> {
    match key_text(code, shift_after(shift, code, value)) {
        Some(c) => key_event(value, Some(c)),
        None => None,
    }
}

/// The keyboard with the built-in table.
#[derive(Clone, Copy, Debug)]
pub struct KeyboardHandler {
    /// Whether a shift key is held.
    pub shift_pressed: bool,
}

impl KeyboardHandler {
    /// A keyboard with no shift key held. It cannot fail.
    pub fn new() -> (r: Result<KeyboardHandler, Error>)
        ensures
            r matches Ok(k) && !k.shift_pressed,
    {
        Ok(KeyboardHandler { shift_pressed: false })
    }

    /// Looks the key up in the table, under the current shift state.
    pub fn map_key_code(&self, code: u16) -> (r: Option<char>)
        ensures
            r == key_text(code, self.shift_pressed),
    {
        let mut i: usize = 0;
        while i < KEY_COUNT
            invariant
                i <= KEY_COUNT,
                table_row_from(code, 0) == table_row_from(code, i as int),
            decreases KEY_COUNT - i,
        {
            if KEY_CODES[i] == code {
                if self.shift_pressed {
                    return Some(SHIFTED_CHARS[i]);
                } else {
                    return Some(PLAIN_CHARS[i]);
                }
            }
            i = i + 1;
        }
        None
    }

    /// Handles one key event: `value` is 0 for a release, 1 for a press and 2
    /// for a repeat. Any other value, and any key outside the table, gives no
    /// event, but still moves the shift state as `shift_after` says.
    pub fn handle_key_event(&mut self, key_code: u16, value: i32) -> (r: Option<WindowEvent>)
        ensures
            final(self).shift_pressed == shift_after(old(self).shift_pressed, key_code, value),
            r == simple_key_event(old(self).shift_pressed, key_code, value),
            key_event_shape(value, r),
    {
        let is_shift = key_code == codes::KEY_LEFTSHIFT || key_code == codes::KEY_RIGHTSHIFT;
        if is_shift && value == 1 {
            self.shift_pressed = true;
        } else if is_shift && value == 0 {
            self.shift_pressed = false;
        }
        match self.map_key_code(key_code) {
            Some(c) => make_key_event(value, Some(c)),
            None => None,
        }
    }
}

impl KeyboardStrategy for KeyboardHandler {
    /// The table decides the answer and the shift state.
    open spec fn answers(
        &self,
        key_code: u16,
        value: i32,
        after: &KeyboardHandler,
        r: Option<WindowEvent>,
    ) -> bool {
        &&& after.shift_pressed == shift_after(self.shift_pressed, key_code, value)
        &&& r == simple_key_event(self.shift_pressed, key_code, value)
    }

    fn handle_key_event(&mut self, key_code: u16, value: i32) -> (r: Option<WindowEvent>) {
        KeyboardHandler::handle_key_event(self, key_code, value)
    }
}

/// The shift state after the events, one after the other. Only the keys of
/// a keyboard count.
pub open spec fn shift_run(shift: bool, events: Seq<RawEvent>) -> bool
    decreases events.len(),
{
    if events.len() == 0 {
        shift
    } else {
        let before = shift_run(shift, events.drop_last());
        let ev = events.last();
        if is_keyboard_key(ev) {
            shift_after(before, ev.code, ev.value)
        } else {
            before
        }
    }
}

/// What the events are decoded to with this keyboard: each key of a keyboard
/// with the answer of the table under the shift state of its moment.
pub open spec fn table_decoding(shift: bool, events: Seq<RawEvent>) -> Seq<DeviceEvent>
    decreases events.len(),
{
    if events.len() == 0 {
        seq![]
    } else {
        let ev = events.last();
        let answer = if is_keyboard_key(ev) {
            simple_key_event(shift_run(shift, events.drop_last()), ev.code, ev.value)
        } else {
            None
        };
        table_decoding(shift, events.drop_last()).push(decode(ev, answer))
    }
}

/// With this keyboard nothing is left open: a run of the keyboard over
/// events decodes them as `table_decoding` says and ends in the shift state
/// that `shift_run` says.
pub proof fn lemma_table_keyboard_run(
    first: KeyboardHandler,
    events: Seq<RawEvent>,
    decoded: Seq<DeviceEvent>,
    last: KeyboardHandler,
)
    requires
        keyboard_run(first, events, decoded, last),
        decodes(events, decoded),
    ensures
        decoded == table_decoding(first.shift_pressed, events),
        last == (KeyboardHandler { shift_pressed: shift_run(first.shift_pressed, events) }),
    decreases events.len(),
{
    reveal(keyboard_run);
    if events.len() == 0 {
        assert(decoded =~= table_decoding(first.shift_pressed, events));
    } else {
        let middle = choose|middle: KeyboardHandler|
            {
                &&& keyboard_run(first, events.drop_last(), decoded.drop_last(), middle)
                &&& #[trigger] keyboard_step(middle, events.last(), decoded.last(), last)
            };
        assert(decodes(events.drop_last(), decoded.drop_last())) by {
            assert forall|i: int| 0 <= i < events.drop_last().len() implies is_decoding(
                events.drop_last()[i],
                #[trigger] decoded.drop_last()[i],
            ) by {
                assert(decoded.drop_last()[i] == decoded[i]);
                assert(events.drop_last()[i] == events[i]);
            }
        }
        lemma_table_keyboard_run(first, events.drop_last(), decoded.drop_last(), middle);
        assert(is_decoding(events.last(), decoded[decoded.len() - 1]));
        assert(decoded =~= decoded.drop_last().push(decoded.last()));
    }
}

/// With this keyboard, handling the events of a device has one outcome: the
/// events are decoded with the table, and applying them gives the events, the
/// touch state of the device and the shared state.
pub proof fn lemma_table_keyboard_handles(
    state: GlobalInputState<KeyboardHandler>,
    dev: ManagedDevice,
    events: Seq<RawEvent>,
    now: u64,
    decoded: Seq<DeviceEvent>,
    post: GlobalInputState<KeyboardHandler>,
    post_dev: ManagedDevice,
    out: Seq<WindowEvent>,
)
    requires
        state.handles(dev, events, now, decoded, post, post_dev, out),
    ensures
        ({
            let shift = state.keyboard.shift_pressed;
            let p = run(state.start(dev), state.setting(dev, now), table_decoding(shift, events));
            &&& out == p.output
            &&& post_dev == (ManagedDevice { touch: p.touch, ..dev })
            &&& post == (GlobalInputState {
                keyboard: KeyboardHandler { shift_pressed: shift_run(shift, events) },
                ..state.after(p)
            })
        }),
{
    lemma_table_keyboard_run(state.keyboard, events, decoded, post.keyboard);
}

} // verus!
