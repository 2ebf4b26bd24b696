//! The keyboard symbols that stand for named keys.

use vstd::prelude::*;

verus! {

pub const XK_SHIFT_L: u32 = 0xffe1;

pub const XK_SHIFT_R: u32 = 0xffe2;

pub const XK_CONTROL_L: u32 = 0xffe3;

pub const XK_CONTROL_R: u32 = 0xffe4;

pub const XK_ALT_L: u32 = 0xffe9;

pub const XK_ALT_R: u32 = 0xffea;

pub const XK_ISO_LEVEL3_SHIFT: u32 = 0xfe03;

pub const XK_META_L: u32 = 0xffe7;

pub const XK_SUPER_L: u32 = 0xffeb;

pub const XK_META_R: u32 = 0xffe8;

pub const XK_SUPER_R: u32 = 0xffec;

pub const XK_CAPS_LOCK: u32 = 0xffe5;

pub const XK_RETURN: u32 = 0xff0d;

pub const XK_KP_ENTER: u32 = 0xff8d;

pub const XK_ESCAPE: u32 = 0xff1b;

pub const XK_TAB: u32 = 0xff09;

pub const XK_KP_TAB: u32 = 0xff89;

pub const XK_ISO_LEFT_TAB: u32 = 0xfe20;

pub const XK_BACK_SPACE: u32 = 0xff08;

pub const XK_DELETE: u32 = 0xffff;

pub const XK_KP_DELETE: u32 = 0xff9f;

pub const XK_INSERT: u32 = 0xff63;

pub const XK_KP_INSERT: u32 = 0xff9e;

pub const XK_HOME: u32 = 0xff50;

pub const XK_KP_HOME: u32 = 0xff95;

pub const XK_END: u32 = 0xff57;

pub const XK_KP_END: u32 = 0xff9c;

pub const XK_PAGE_UP: u32 = 0xff55;

pub const XK_KP_PAGE_UP: u32 = 0xff9a;

pub const XK_PAGE_DOWN: u32 = 0xff56;

pub const XK_KP_PAGE_DOWN: u32 = 0xff9b;

pub const XK_UP: u32 = 0xff52;

pub const XK_KP_UP: u32 = 0xff97;

pub const XK_DOWN: u32 = 0xff54;

pub const XK_KP_DOWN: u32 = 0xff99;

pub const XK_LEFT: u32 = 0xff51;

pub const XK_KP_LEFT: u32 = 0xff96;

pub const XK_RIGHT: u32 = 0xff53;

pub const XK_KP_RIGHT: u32 = 0xff98;

pub const XK_SPACE: u32 = 0x20;

pub const XK_KP_SPACE: u32 = 0xff80;

pub const XK_MENU: u32 = 0xff67;

pub const XK_SCROLL_LOCK: u32 = 0xff14;

pub const XK_PAUSE: u32 = 0xff13;

pub const XK_SYS_REQ: u32 = 0xff15;

pub const XK_PRINT: u32 = 0xff61;

pub const XK_F1: u32 = 0xffbe;

pub const XK_F2: u32 = 0xffbf;

pub const XK_F3: u32 = 0xffc0;

pub const XK_F4: u32 = 0xffc1;

pub const XK_F5: u32 = 0xffc2;

pub const XK_F6: u32 = 0xffc3;

pub const XK_F7: u32 = 0xffc4;

pub const XK_F8: u32 = 0xffc5;

pub const XK_F9: u32 = 0xffc6;

pub const XK_F10: u32 = 0xffc7;

pub const XK_F11: u32 = 0xffc8;

pub const XK_F12: u32 = 0xffc9;

pub const XK_F13: u32 = 0xffca;

pub const XK_F14: u32 = 0xffcb;

pub const XK_F15: u32 = 0xffcc;

pub const XK_F16: u32 = 0xffcd;

pub const XK_F17: u32 = 0xffce;

pub const XK_F18: u32 = 0xffcf;

pub const XK_F19: u32 = 0xffd0;

pub const XK_F20: u32 = 0xffd1;

pub const XK_F21: u32 = 0xffd2;

pub const XK_F22: u32 = 0xffd3;

pub const XK_F23: u32 = 0xffd4;

pub const XK_F24: u32 = 0xffd5;

} // verus!
