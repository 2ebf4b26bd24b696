//! The keyboard on a compiled keyboard layout.
//!
//! The layout's state machine follows the modifiers and locks. It is run by
//! whoever reads the devices: for each key event it is told of the key, under
//! the key code and the direction that `key_update` gives, and is then asked
//! for the symbol of the key. The symbols are handed to this keyboard in the
//! order of the key events, and this keyboard makes the events of them. A
//! symbol that names a key (a modifier, an editing or navigation key, a
//! function key) becomes that key's character; any other symbol becomes the
//! character that it prints, if it prints one.

use vstd::prelude::*;
use crate::error::Error;
use crate::input::dispatch::is_key_of_keyboard;
use crate::input::dispatch::is_keyboard_key;
use crate::input::dispatch::RawEvent;
use crate::input::event::WindowEvent;
use crate::input::keyboard::key_codes;
use crate::input::keyboard::key_event;
use crate::input::keyboard::key_event_shape;
use crate::input::keyboard::keysyms;
use crate::input::keyboard::make_key_event;
use crate::input::keyboard::KeyboardStrategy;

verus! {

/// The character that a keyboard symbol prints, if it prints one.
pub uninterp spec fn keysym_char(raw: u32) -> Option<char>;

/// `xkeysym::Keysym::key_char`: the character that the symbol prints, which
/// is what `keysym_char` names.
#[verifier::external_body]
fn keysym_key_char(raw: u32) -> (r: Option<char>)
    ensures
        r == keysym_char(raw),
{
    xkeysym::Keysym::new(raw).key_char()
}

/// Key codes of the layout are those of the kernel plus this offset.
pub const KEYCODE_OFFSET: u32 = 8;

/// Number of symbols that name a key.
pub const NAMED_COUNT: usize = 70;

/// The symbols that name a key.
pub const NAMED_SYMBOLS: [u32; NAMED_COUNT] = [
    keysyms::XK_SHIFT_L, keysyms::XK_SHIFT_R, keysyms::XK_CONTROL_L, keysyms::XK_CONTROL_R,
    keysyms::XK_ALT_L, keysyms::XK_ALT_R, keysyms::XK_ISO_LEVEL3_SHIFT, keysyms::XK_META_L,
    keysyms::XK_SUPER_L, keysyms::XK_META_R, keysyms::XK_SUPER_R, keysyms::XK_CAPS_LOCK,
    keysyms::XK_RETURN, keysyms::XK_KP_ENTER, keysyms::XK_ESCAPE, keysyms::XK_TAB,
    keysyms::XK_KP_TAB, keysyms::XK_ISO_LEFT_TAB, keysyms::XK_BACK_SPACE, keysyms::XK_DELETE,
    keysyms::XK_KP_DELETE, keysyms::XK_INSERT, keysyms::XK_KP_INSERT, keysyms::XK_HOME,
    keysyms::XK_KP_HOME, keysyms::XK_END, keysyms::XK_KP_END, keysyms::XK_PAGE_UP,
    keysyms::XK_KP_PAGE_UP, keysyms::XK_PAGE_DOWN, keysyms::XK_KP_PAGE_DOWN, keysyms::XK_UP,
    keysyms::XK_KP_UP, keysyms::XK_DOWN, keysyms::XK_KP_DOWN, keysyms::XK_LEFT,
    keysyms::XK_KP_LEFT, keysyms::XK_RIGHT, keysyms::XK_KP_RIGHT, keysyms::XK_SPACE,
    keysyms::XK_KP_SPACE, keysyms::XK_MENU, keysyms::XK_SCROLL_LOCK, keysyms::XK_PAUSE,
    keysyms::XK_SYS_REQ, keysyms::XK_PRINT, keysyms::XK_F1, keysyms::XK_F2,
    keysyms::XK_F3, keysyms::XK_F4, keysyms::XK_F5, keysyms::XK_F6,
    keysyms::XK_F7, keysyms::XK_F8, keysyms::XK_F9, keysyms::XK_F10,
    keysyms::XK_F11, keysyms::XK_F12, keysyms::XK_F13, keysyms::XK_F14,
    keysyms::XK_F15, keysyms::XK_F16, keysyms::XK_F17, keysyms::XK_F18,
    keysyms::XK_F19, keysyms::XK_F20, keysyms::XK_F21, keysyms::XK_F22,
    keysyms::XK_F23, keysyms::XK_F24,
];

/// The character of each of them.
pub const NAMED_CHARS: [char; NAMED_COUNT] = [
    key_codes::SHIFT, key_codes::SHIFT_R, key_codes::CONTROL, key_codes::CONTROL_R,
    key_codes::ALT, key_codes::ALT_GR, key_codes::ALT_GR, key_codes::META,
    key_codes::META, key_codes::META_R, key_codes::META_R, key_codes::CAPS_LOCK,
    key_codes::RETURN, key_codes::RETURN, key_codes::ESCAPE, key_codes::TAB,
    key_codes::TAB, key_codes::BACKTAB, key_codes::BACKSPACE, key_codes::DELETE,
    key_codes::DELETE, key_codes::INSERT, key_codes::INSERT, key_codes::HOME,
    key_codes::HOME, key_codes::END, key_codes::END, key_codes::PAGE_UP,
    key_codes::PAGE_UP, key_codes::PAGE_DOWN, key_codes::PAGE_DOWN, key_codes::UP_ARROW,
    key_codes::UP_ARROW, key_codes::DOWN_ARROW, key_codes::DOWN_ARROW, key_codes::LEFT_ARROW,
    key_codes::LEFT_ARROW, key_codes::RIGHT_ARROW, key_codes::RIGHT_ARROW, key_codes::SPACE,
    key_codes::SPACE, key_codes::MENU, key_codes::SCROLL_LOCK, key_codes::PAUSE,
    key_codes::SYS_REQ, key_codes::SYS_REQ, key_codes::F1, key_codes::F2,
    key_codes::F3, key_codes::F4, key_codes::F5, key_codes::F6,
    key_codes::F7, key_codes::F8, key_codes::F9, key_codes::F10,
    key_codes::F11, key_codes::F12, key_codes::F13, key_codes::F14,
    key_codes::F15, key_codes::F16, key_codes::F17, key_codes::F18,
    key_codes::F19, key_codes::F20, key_codes::F21, key_codes::F22,
    key_codes::F23, key_codes::F24,
];

/// Whether a key went up or down.
#[derive(Clone, Copy, Debug, PartialEq, Eq, Structural)]
pub enum KeyDirection {
    Up,
    Down,
}

/// What the state machine of the layout is told of a key event.
#[derive(Clone, Copy, Debug, PartialEq, Eq, Structural)]
pub struct KeyUpdate {
    /// The key code of the layout.
    pub keycode: u32,
    /// Whether the key went up or down.
    pub direction: KeyDirection,
}

/// The symbol that the state machine has reported for a key event.
#[derive(Clone, Copy, Debug, PartialEq, Eq, Structural)]
pub struct ResolvedKey {
    /// The kernel's code of the key.
    pub key_code: u16,
    /// The one symbol of the key, if it has exactly one.
    pub symbol: Option<u32>,
}

/// How the setting up of the layout has ended.
#[derive(Clone, Copy, Debug, PartialEq, Eq, Structural)]
pub enum LayoutSetup {
    /// The layout is compiled and its state machine runs.
    Ready,
    /// The context of the layout library could not be made.
    NoContext,
    /// The layout could not be compiled.
    NoKeymap,
}

/// What the state machine is told of a key event: a release is the key going
/// up, a press and a repeat are the key going down, and the key code is the
/// kernel's plus the offset. A value that is none of the three is not told.
pub open spec fn update_of(key_code: u16, value: i32) -> Option<KeyUpdate> {
    if value == 0 {
        Some(
            KeyUpdate {
                keycode: (key_code + KEYCODE_OFFSET) as u32,
                direction: KeyDirection::Up,
            },
        )
    } else if value == 1 || value == 2 {
        Some(
            KeyUpdate {
                keycode: (key_code + KEYCODE_OFFSET) as u32,
                direction: KeyDirection::Down,
            },
        )
    } else {
        None
    }
}

/// Whether the event is one that the state machine is told of, and for which
/// this keyboard wants a symbol: a key of a keyboard that is released,
/// pressed or repeated.
pub open spec fn wants_symbol(ev: RawEvent) -> bool {
    is_keyboard_key(ev) && 0 <= ev.value <= 2
}

/// The first row at or after row `i` that holds the symbol `raw`.
pub open spec fn named_row_from(raw: u32, i: int) -> Option<int>
    decreases NAMED_COUNT - i,
{
    if i < 0 || i >= NAMED_COUNT {
        None
    } else if NAMED_SYMBOLS[i] == raw {
        Some(i)
    } else {
        named_row_from(raw, i + 1)
    }
}

/// The character of the key that the symbol `raw` names, if it names one.
pub open spec fn named_key_char(raw: u32) -> Option<char> {
    match named_row_from(raw, 0) {
        Some(i) => Some(NAMED_CHARS[i]),
        None => None,
    }
}

/// The text of a symbol: the character of the key that it names, or else the
/// character that it prints.
pub open spec fn keysym_text(raw: u32) -> Option<char> {
    match named_key_char(raw) {
        Some(c) => Some(c),
        None => keysym_char(raw),
    }
}

/// The text of the symbol that a key has, if it has one.
pub open spec fn symbol_text(sym: Option<u32>) -> Option<char> {
    match sym {
        Some(raw) => keysym_text(raw),
        None => None,
    }
}

/// Whether the first of the symbols to come is that of the key `key_code`.
pub open spec fn is_next(pending: Seq<ResolvedKey>, key_code: u16) -> bool {
    pending.len() > 0 && pending[0].key_code == key_code
}

/// The event of a key event, given the symbols to come: that of the kind
/// that `value` names, with the text of the symbol that was reported for the
/// key. Where the next symbol is not that of the key, the event has no text.
pub open spec fn layout_key_event(
    pending: Seq<ResolvedKey>,
    key_code: u16,
    value: i32,
) -> Option<WindowEvent> {
    if 0 <= value <= 2 {
        key_event(
            value,
            if is_next(pending, key_code) {
                symbol_text(pending[0].symbol)
            } else {
                None
            },
        )
    } else {
        None
    }
}

/// The symbols to come after a key event: the one that the event has used is
/// gone.
pub open spec fn pending_after(pending: Seq<ResolvedKey>, key_code: u16, value: i32) -> Seq<
    ResolvedKey,
> {
    if 0 <= value <= 2 && is_next(pending, key_code) {
        pending.drop_first()
    } else {
        pending
    }
}

/// Says what the state machine is to be told of a key event.
pub fn key_update(key_code: u16, value: i32) -> (r: Option<KeyUpdate>)
    ensures
        r == update_of(key_code, value),
{
    let keycode: u32 = key_code as u32 + KEYCODE_OFFSET;
    if value == 0 {
        Some(KeyUpdate { keycode, direction: KeyDirection::Up })
    } else if value == 1 || value == 2 {
        Some(KeyUpdate { keycode, direction: KeyDirection::Down })
    } else {
        None
    }
}

/// Tests whether this keyboard wants a symbol for the event.
pub fn needs_symbol(ev: RawEvent) -> (r: bool)
    ensures
        r == wants_symbol(ev),
{
    is_key_of_keyboard(ev) && 0 <= ev.value && ev.value <= 2
}

/// Looks the symbol up among those that name a key.
pub fn named_key(raw: u32) -> (r: Option<char>)
    ensures
        r == named_key_char(raw),
{
    let mut i: usize = 0;
    while i < NAMED_COUNT
        invariant
            i <= NAMED_COUNT,
            named_row_from(raw, 0) == named_row_from(raw, i as int),
        decreases NAMED_COUNT - i,
    {
        if NAMED_SYMBOLS[i] == raw {
            return Some(NAMED_CHARS[i]);
        }
        i = i + 1;
    }
    None
}

/// The text of the symbol `raw`.
pub fn map_keysym_to_char(raw: u32) -> (r: Option<char>)
    ensures
        r == keysym_text(raw),
{
    match named_key(raw) {
        Some(c) => Some(c),
        None => keysym_key_char(raw),
    }
}

/// The keyboard on a compiled layout.
#[derive(Debug)]
pub struct KeyboardHandler {
    /// The symbols that were reported for key events, in order.
    pub symbols: Vec<ResolvedKey>,
    /// How many of them have been used.
    pub used: usize,
}

impl KeyboardHandler {
    /// The symbols to come: those that were handed in and have not been
    /// used.
    pub open spec fn pending(self) -> Seq<ResolvedKey> {
        if self.used <= self.symbols@.len() {
            self.symbols@.skip(self.used as int)
        } else {
            seq![]
        }
    }

    /// A keyboard on a layout that has been set up, without symbols yet.
    /// Without a layout there is no keyboard.
    pub fn new(setup: LayoutSetup) -> (r: Result<KeyboardHandler, Error>)
        ensures
            match setup {
                LayoutSetup::Ready => r matches Ok(k) && k.pending().len() == 0,
                LayoutSetup::NoContext => r matches Err(Error::Other(message)) && message@
                    == "Failed to create xkb context"@,
                LayoutSetup::NoKeymap => r matches Err(Error::Other(message)) && message@
                    == "Failed to create xkb keymap"@,
            },
    {
        match setup {
            LayoutSetup::Ready => Ok(KeyboardHandler { symbols: Vec::new(), used: 0 }),
            LayoutSetup::NoContext => Err(
                Error::Other("Failed to create xkb context".to_string()),
            ),
            LayoutSetup::NoKeymap => Err(Error::Other("Failed to create xkb keymap".to_string())),
        }
    }

    /// Takes in the symbols that the state machine has reported for the key
    /// events to come, in their order. Symbols that were handed in before and
    /// not used are dropped.
    pub fn supply(&mut self, symbols: Vec<ResolvedKey>)
        ensures
            final(self).pending() == symbols@,
    {
        self.symbols = symbols;
        self.used = 0;
        assert(self.symbols@.skip(0) =~= self.symbols@);
    }

    /// Handles one key event: `value` is 0 for a release, 1 for a press and 2
    /// for a repeat, and anything else changes nothing and gives no event.
    /// Otherwise the event carries the text of the symbol that was reported
    /// for the key, which is then used; it has no text where the next symbol
    /// is not that of the key.
    pub fn handle_key_event(&mut self, key_code: u16, value: i32) -> (r: Option<WindowEvent>)
        ensures
            r == layout_key_event(old(self).pending(), key_code, value),
            final(self).pending() == pending_after(old(self).pending(), key_code, value),
            !(0 <= value <= 2) ==> *final(self) == *old(self),
            key_event_shape(value, r),
    {
        if value < 0 || value > 2 {
            return None;
        }
        let mut text: Option<char> = None;
        if self.used < self.symbols.len() {
            let next = self.symbols[self.used];
            if next.key_code == key_code {
                text = match next.symbol {
                    Some(raw) => map_keysym_to_char(raw),
                    None => None,
                };
                self.used = self.used + 1;
                assert(old(self).pending().drop_first() =~= self.pending());
            }
        }
        make_key_event(value, text)
    }
}

impl KeyboardStrategy for KeyboardHandler {
    /// The symbols to come decide the answer, and the answer uses up the
    /// symbol of its key.
    open spec fn answers(
        &self,
        key_code: u16,
        value: i32,
        after: &KeyboardHandler,
        r: Option<WindowEvent>,
    ) -> bool {
        &&& r == layout_key_event(self.pending(), key_code, value)
        &&& after.pending() == pending_after(self.pending(), key_code, value)
    }

    fn handle_key_event(&mut self, key_code: u16, value: i32) -> (r: Option<WindowEvent>) {
        KeyboardHandler::handle_key_event(self, key_code, value)
    }
}

} // verus!
