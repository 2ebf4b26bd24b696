//! The characters that stand for keys without a printable character of their
//! own: control characters for the editing keys and the modifiers, and code
//! points of a private-use area for navigation and function keys.

use vstd::prelude::*;

verus! {

pub const BACKSPACE: char = '\u{0008}';

pub const TAB: char = '\u{0009}';

pub const RETURN: char = '\u{000a}';

pub const ESCAPE: char = '\u{001b}';

pub const BACKTAB: char = '\u{0019}';

pub const DELETE: char = '\u{007f}';

pub const SHIFT: char = '\u{0010}';

pub const CONTROL: char = '\u{0011}';

pub const ALT: char = '\u{0012}';

pub const ALT_GR: char = '\u{0013}';

pub const CAPS_LOCK: char = '\u{0014}';

pub const SHIFT_R: char = '\u{0015}';

pub const CONTROL_R: char = '\u{0016}';

pub const META: char = '\u{0017}';

pub const META_R: char = '\u{0018}';

pub const SPACE: char = '\u{0020}';

pub const UP_ARROW: char = '\u{f700}';

pub const DOWN_ARROW: char = '\u{f701}';

pub const LEFT_ARROW: char = '\u{f702}';

pub const RIGHT_ARROW: char = '\u{f703}';

pub const F1: char = '\u{f704}';

pub const F2: char = '\u{f705}';

pub const F3: char = '\u{f706}';

pub const F4: char = '\u{f707}';

pub const F5: char = '\u{f708}';

pub const F6: char = '\u{f709}';

pub const F7: char = '\u{f70a}';

pub const F8: char = '\u{f70b}';

pub const F9: char = '\u{f70c}';

pub const F10: char = '\u{f70d}';

pub const F11: char = '\u{f70e}';

pub const F12: char = '\u{f70f}';

pub const F13: char = '\u{f710}';

pub const F14: char = '\u{f711}';

pub const F15: char = '\u{f712}';

pub const F16: char = '\u{f713}';

pub const F17: char = '\u{f714}';

pub const F18: char = '\u{f715}';

pub const F19: char = '\u{f716}';

pub const F20: char = '\u{f717}';

pub const F21: char = '\u{f718}';

pub const F22: char = '\u{f719}';

pub const F23: char = '\u{f71a}';

pub const F24: char = '\u{f71b}';

pub const INSERT: char = '\u{f727}';

pub const HOME: char = '\u{f729}';

pub const END: char = '\u{f72b}';

pub const PAGE_UP: char = '\u{f72c}';

pub const PAGE_DOWN: char = '\u{f72d}';

pub const SCROLL_LOCK: char = '\u{f72f}';

pub const PAUSE: char = '\u{f730}';

pub const SYS_REQ: char = '\u{f731}';

pub const STOP: char = '\u{f734}';

pub const MENU: char = '\u{f735}';

pub const BACK: char = '\u{f748}';

} // verus!
