//! Virtual-key codes, as window messages carry them.

use vstd::prelude::*;

verus! {

pub const VK_BACK: u16 = 0x08;

pub const VK_TAB: u16 = 0x09;

pub const VK_CLEAR: u16 = 0x0C;

pub const VK_RETURN: u16 = 0x0D;

pub const VK_SHIFT: u16 = 0x10;

pub const VK_CONTROL: u16 = 0x11;

pub const VK_MENU: u16 = 0x12;

pub const VK_PAUSE: u16 = 0x13;

pub const VK_CAPITAL: u16 = 0x14;

pub const VK_KANA: u16 = 0x15;

pub const VK_ESCAPE: u16 = 0x1B;

pub const VK_CONVERT: u16 = 0x1C;

pub const VK_NONCONVERT: u16 = 0x1D;

pub const VK_SPACE: u16 = 0x20;

pub const VK_PRIOR: u16 = 0x21;

pub const VK_NEXT: u16 = 0x22;

pub const VK_END: u16 = 0x23;

pub const VK_HOME: u16 = 0x24;

pub const VK_LEFT: u16 = 0x25;

pub const VK_UP: u16 = 0x26;

pub const VK_RIGHT: u16 = 0x27;

pub const VK_DOWN: u16 = 0x28;

pub const VK_SELECT: u16 = 0x29;

pub const VK_EXECUTE: u16 = 0x2B;

pub const VK_SNAPSHOT: u16 = 0x2C;

pub const VK_INSERT: u16 = 0x2D;

pub const VK_DELETE: u16 = 0x2E;

pub const VK_HELP: u16 = 0x2F;

pub const VK_0: u16 = 0x30;

pub const VK_1: u16 = 0x31;

pub const VK_2: u16 = 0x32;

pub const VK_3: u16 = 0x33;

pub const VK_4: u16 = 0x34;

pub const VK_5: u16 = 0x35;

pub const VK_6: u16 = 0x36;

pub const VK_7: u16 = 0x37;

pub const VK_8: u16 = 0x38;

pub const VK_9: u16 = 0x39;

pub const VK_A: u16 = 0x41;

pub const VK_B: u16 = 0x42;

pub const VK_C: u16 = 0x43;

pub const VK_D: u16 = 0x44;

pub const VK_E: u16 = 0x45;

pub const VK_F: u16 = 0x46;

pub const VK_G: u16 = 0x47;

pub const VK_H: u16 = 0x48;

pub const VK_I: u16 = 0x49;

pub const VK_J: u16 = 0x4A;

pub const VK_K: u16 = 0x4B;

pub const VK_L: u16 = 0x4C;

pub const VK_M: u16 = 0x4D;

pub const VK_N: u16 = 0x4E;

pub const VK_O: u16 = 0x4F;

pub const VK_P: u16 = 0x50;

pub const VK_Q: u16 = 0x51;

pub const VK_R: u16 = 0x52;

pub const VK_S: u16 = 0x53;

pub const VK_T: u16 = 0x54;

pub const VK_U: u16 = 0x55;

pub const VK_V: u16 = 0x56;

pub const VK_W: u16 = 0x57;

pub const VK_X: u16 = 0x58;

pub const VK_Y: u16 = 0x59;

pub const VK_Z: u16 = 0x5A;

pub const VK_LWIN: u16 = 0x5B;

pub const VK_RWIN: u16 = 0x5C;

pub const VK_APPS: u16 = 0x5D;

pub const VK_SLEEP: u16 = 0x5F;

pub const VK_NUMPAD0: u16 = 0x60;

pub const VK_NUMPAD1: u16 = 0x61;

pub const VK_NUMPAD2: u16 = 0x62;

pub const VK_NUMPAD3: u16 = 0x63;

pub const VK_NUMPAD4: u16 = 0x64;

pub const VK_NUMPAD5: u16 = 0x65;

pub const VK_NUMPAD6: u16 = 0x66;

pub const VK_NUMPAD7: u16 = 0x67;

pub const VK_NUMPAD8: u16 = 0x68;

pub const VK_NUMPAD9: u16 = 0x69;

pub const VK_MULTIPLY: u16 = 0x6A;

pub const VK_ADD: u16 = 0x6B;

pub const VK_SEPARATOR: u16 = 0x6C;

pub const VK_SUBTRACT: u16 = 0x6D;

pub const VK_DECIMAL: u16 = 0x6E;

pub const VK_DIVIDE: u16 = 0x6F;

pub const VK_F1: u16 = 0x70;

pub const VK_F2: u16 = 0x71;

pub const VK_F3: u16 = 0x72;

pub const VK_F4: u16 = 0x73;

pub const VK_F5: u16 = 0x74;

pub const VK_F6: u16 = 0x75;

pub const VK_F7: u16 = 0x76;

pub const VK_F8: u16 = 0x77;

pub const VK_F9: u16 = 0x78;

pub const VK_F10: u16 = 0x79;

pub const VK_F11: u16 = 0x7A;

pub const VK_F12: u16 = 0x7B;

pub const VK_F13: u16 = 0x7C;

pub const VK_F14: u16 = 0x7D;

pub const VK_F15: u16 = 0x7E;

pub const VK_F16: u16 = 0x7F;

pub const VK_F17: u16 = 0x80;

pub const VK_F18: u16 = 0x81;

pub const VK_F19: u16 = 0x82;

pub const VK_F20: u16 = 0x83;

pub const VK_F21: u16 = 0x84;

pub const VK_F22: u16 = 0x85;

pub const VK_F23: u16 = 0x86;

pub const VK_F24: u16 = 0x87;

pub const VK_NUMLOCK: u16 = 0x90;

pub const VK_SCROLL: u16 = 0x91;

pub const VK_LSHIFT: u16 = 0xA0;

pub const VK_RSHIFT: u16 = 0xA1;

pub const VK_LCONTROL: u16 = 0xA2;

pub const VK_RCONTROL: u16 = 0xA3;

pub const VK_LMENU: u16 = 0xA4;

pub const VK_RMENU: u16 = 0xA5;

pub const VK_BROWSER_BACK: u16 = 0xA6;

pub const VK_BROWSER_FORWARD: u16 = 0xA7;

pub const VK_BROWSER_REFRESH: u16 = 0xA8;

pub const VK_BROWSER_STOP: u16 = 0xA9;

pub const VK_BROWSER_SEARCH: u16 = 0xAA;

pub const VK_BROWSER_FAVORITES: u16 = 0xAB;

pub const VK_BROWSER_HOME: u16 = 0xAC;

pub const VK_VOLUME_MUTE: u16 = 0xAD;

pub const VK_VOLUME_DOWN: u16 = 0xAE;

pub const VK_VOLUME_UP: u16 = 0xAF;

pub const VK_MEDIA_NEXT_TRACK: u16 = 0xB0;

pub const VK_MEDIA_PREV_TRACK: u16 = 0xB1;

pub const VK_MEDIA_STOP: u16 = 0xB2;

pub const VK_MEDIA_PLAY_PAUSE: u16 = 0xB3;

pub const VK_LAUNCH_MAIL: u16 = 0xB4;

pub const VK_LAUNCH_MEDIA_SELECT: u16 = 0xB5;

pub const VK_LAUNCH_APP1: u16 = 0xB6;

pub const VK_LAUNCH_APP2: u16 = 0xB7;

pub const VK_OEM_1: u16 = 0xBA;

pub const VK_OEM_PLUS: u16 = 0xBB;

pub const VK_OEM_COMMA: u16 = 0xBC;

pub const VK_OEM_MINUS: u16 = 0xBD;

pub const VK_OEM_PERIOD: u16 = 0xBE;

pub const VK_OEM_2: u16 = 0xBF;

pub const VK_OEM_3: u16 = 0xC0;

pub const VK_OEM_4: u16 = 0xDB;

pub const VK_OEM_5: u16 = 0xDC;

pub const VK_OEM_6: u16 = 0xDD;

pub const VK_OEM_7: u16 = 0xDE;

pub const VK_OEM_102: u16 = 0xE2;

} // verus!
