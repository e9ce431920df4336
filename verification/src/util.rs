//! From virtual-key codes to keyboard events.
//!
//! A virtual-key code names the key. The character that the key types is asked from the system
//! for the current layout, which answers without regard to Shift and with letters in upper case;
//! Shift and Caps Lock are applied here. That is exact for letters, digits and the common ASCII
//! symbols, and an approximation for layouts other than the US one.

use crate::keyboard::{Code, Key, KeyState, KeyView, KeyboardEvent, Location, Modifiers, NamedKey};
use crate::keyboard::{CAPS_LOCK, SHIFT};
use crate::vk;
use vstd::prelude::*;

verus! {

/// The place of the key with the virtual-key code `vk`, by the blocks in which the codes are laid
/// out.
pub open spec fn code_of(vk: int) -> Code {
    if 0x20 <= vk <= 0x2F {
        seq![Code::Space, Code::PageUp, Code::PageDown, Code::End, Code::Home, Code::ArrowLeft,
            Code::ArrowUp, Code::ArrowRight, Code::ArrowDown, Code::Select, Code::Unidentified,
            Code::Open, Code::PrintScreen, Code::Insert, Code::Delete, Code::Help][vk - 0x20]
    } else if 0x30 <= vk <= 0x39 {
        seq![Code::Digit0, Code::Digit1, Code::Digit2, Code::Digit3, Code::Digit4, Code::Digit5,
            Code::Digit6, Code::Digit7, Code::Digit8, Code::Digit9][vk - 0x30]
    } else if 0x41 <= vk <= 0x5A {
        seq![Code::KeyA, Code::KeyB, Code::KeyC, Code::KeyD, Code::KeyE, Code::KeyF, Code::KeyG,
            Code::KeyH, Code::KeyI, Code::KeyJ, Code::KeyK, Code::KeyL, Code::KeyM, Code::KeyN,
            Code::KeyO, Code::KeyP, Code::KeyQ, Code::KeyR, Code::KeyS, Code::KeyT, Code::KeyU,
            Code::KeyV, Code::KeyW, Code::KeyX, Code::KeyY, Code::KeyZ][vk - 0x41]
    } else if 0x5B <= vk <= 0x5F {
        seq![Code::MetaLeft, Code::MetaRight, Code::ContextMenu, Code::Unidentified, Code::Sleep][vk
            - 0x5B]
    } else if 0x60 <= vk <= 0x6F {
        seq![Code::Numpad0, Code::Numpad1, Code::Numpad2, Code::Numpad3, Code::Numpad4,
            Code::Numpad5, Code::Numpad6, Code::Numpad7, Code::Numpad8, Code::Numpad9,
            Code::NumpadMultiply, Code::NumpadAdd, Code::NumpadComma, Code::NumpadSubtract,
            Code::NumpadDecimal, Code::NumpadDivide][vk - 0x60]
    } else if 0x70 <= vk <= 0x87 {
        seq![Code::F1, Code::F2, Code::F3, Code::F4, Code::F5, Code::F6, Code::F7, Code::F8,
            Code::F9, Code::F10, Code::F11, Code::F12, Code::F13, Code::F14, Code::F15, Code::F16,
            Code::F17, Code::F18, Code::F19, Code::F20, Code::F21, Code::F22, Code::F23,
            Code::F24][vk - 0x70]
    } else if 0xA0 <= vk <= 0xB7 {
        seq![Code::ShiftLeft, Code::ShiftRight, Code::ControlLeft, Code::ControlRight,
            Code::AltLeft, Code::AltRight, Code::BrowserBack, Code::BrowserForward,
            Code::BrowserRefresh, Code::BrowserStop, Code::BrowserSearch, Code::BrowserFavorites,
            Code::BrowserHome, Code::AudioVolumeMute, Code::AudioVolumeDown, Code::AudioVolumeUp,
            Code::MediaTrackNext, Code::MediaTrackPrevious, Code::MediaStop, Code::MediaPlayPause,
            Code::LaunchMail, Code::MediaSelect, Code::LaunchApp1, Code::LaunchApp2][vk - 0xA0]
    } else if 0xBA <= vk <= 0xC0 {
        seq![Code::Semicolon, Code::Equal, Code::Comma, Code::Minus, Code::Period, Code::Slash,
            Code::Backquote][vk - 0xBA]
    } else if 0xDB <= vk <= 0xDE {
        seq![Code::BracketLeft, Code::Backslash, Code::BracketRight, Code::Quote][vk - 0xDB]
    } else {
        scattered_code(vk)
    }
}

/// The place of a key whose virtual-key code belongs to none of the blocks.
pub open spec fn scattered_code(vk: int) -> Code {
    if vk == 0x08 {
        Code::Backspace
    } else if vk == 0x09 {
        Code::Tab
    } else if vk == 0x0C || vk == 0x90 {
        Code::NumLock
    } else if vk == 0x0D {
        Code::Enter
    } else if vk == 0x13 {
        Code::Pause
    } else if vk == 0x14 {
        Code::CapsLock
    } else if vk == 0x15 {
        Code::KanaMode
    } else if vk == 0x1B {
        Code::Escape
    } else if vk == 0x1C {
        Code::Convert
    } else if vk == 0x1D {
        Code::NonConvert
    } else if vk == 0x91 {
        Code::ScrollLock
    } else if vk == 0xE2 {
        Code::IntlBackslash
    } else {
        Code::Unidentified
    }
}

/// The name of the key at the place `code`, if it is one that types no character.
pub open spec fn name_of(code: Code) -> Option<NamedKey> {
    match code {
        Code::AltLeft | Code::AltRight => Some(NamedKey::Alt),
        Code::ArrowDown => Some(NamedKey::ArrowDown),
        Code::ArrowLeft => Some(NamedKey::ArrowLeft),
        Code::ArrowRight => Some(NamedKey::ArrowRight),
        Code::ArrowUp => Some(NamedKey::ArrowUp),
        Code::AudioVolumeDown => Some(NamedKey::AudioVolumeDown),
        Code::AudioVolumeMute => Some(NamedKey::AudioVolumeMute),
        Code::AudioVolumeUp => Some(NamedKey::AudioVolumeUp),
        Code::Backspace => Some(NamedKey::Backspace),
        Code::BrowserBack => Some(NamedKey::BrowserBack),
        Code::BrowserFavorites => Some(NamedKey::BrowserFavorites),
        Code::BrowserForward => Some(NamedKey::BrowserForward),
        Code::BrowserHome => Some(NamedKey::BrowserHome),
        Code::BrowserRefresh => Some(NamedKey::BrowserRefresh),
        Code::BrowserSearch => Some(NamedKey::BrowserSearch),
        Code::BrowserStop => Some(NamedKey::BrowserStop),
        Code::CapsLock => Some(NamedKey::CapsLock),
        Code::ContextMenu => Some(NamedKey::ContextMenu),
        Code::ControlLeft | Code::ControlRight => Some(NamedKey::Control),
        Code::Convert => Some(NamedKey::Convert),
        Code::Delete => Some(NamedKey::Delete),
        Code::End => Some(NamedKey::End),
        Code::Enter => Some(NamedKey::Enter),
        Code::Escape => Some(NamedKey::Escape),
        Code::F1 => Some(NamedKey::F1),
        Code::F2 => Some(NamedKey::F2),
        Code::F3 => Some(NamedKey::F3),
        Code::F4 => Some(NamedKey::F4),
        Code::F5 => Some(NamedKey::F5),
        Code::F6 => Some(NamedKey::F6),
        Code::F7 => Some(NamedKey::F7),
        Code::F8 => Some(NamedKey::F8),
        Code::F9 => Some(NamedKey::F9),
        Code::F10 => Some(NamedKey::F10),
        Code::F11 => Some(NamedKey::F11),
        Code::F12 => Some(NamedKey::F12),
        Code::F13 => Some(NamedKey::F13),
        Code::F14 => Some(NamedKey::F14),
        Code::F15 => Some(NamedKey::F15),
        Code::F16 => Some(NamedKey::F16),
        Code::F17 => Some(NamedKey::F17),
        Code::F18 => Some(NamedKey::F18),
        Code::F19 => Some(NamedKey::F19),
        Code::F20 => Some(NamedKey::F20),
        Code::F21 => Some(NamedKey::F21),
        Code::F22 => Some(NamedKey::F22),
        Code::F23 => Some(NamedKey::F23),
        Code::F24 => Some(NamedKey::F24),
        Code::Help => Some(NamedKey::Help),
        Code::Home => Some(NamedKey::Home),
        Code::Insert => Some(NamedKey::Insert),
        Code::KanaMode => Some(NamedKey::KanaMode),
        Code::LaunchApp1 => Some(NamedKey::LaunchApplication1),
        Code::LaunchApp2 => Some(NamedKey::LaunchApplication2),
        Code::LaunchMail => Some(NamedKey::LaunchMail),
        Code::MediaSelect => Some(NamedKey::LaunchMediaPlayer),
        Code::MediaPlayPause => Some(NamedKey::MediaPlayPause),
        Code::MediaStop => Some(NamedKey::MediaStop),
        Code::MediaTrackNext => Some(NamedKey::MediaTrackNext),
        Code::MediaTrackPrevious => Some(NamedKey::MediaTrackPrevious),
        Code::MetaLeft | Code::MetaRight => Some(NamedKey::Meta),
        Code::NonConvert => Some(NamedKey::NonConvert),
        Code::NumLock => Some(NamedKey::NumLock),
        Code::Open => Some(NamedKey::Open),
        Code::PageDown => Some(NamedKey::PageDown),
        Code::PageUp => Some(NamedKey::PageUp),
        Code::Pause => Some(NamedKey::Pause),
        Code::PrintScreen => Some(NamedKey::PrintScreen),
        Code::ScrollLock => Some(NamedKey::ScrollLock),
        Code::Select => Some(NamedKey::Select),
        Code::ShiftLeft | Code::ShiftRight => Some(NamedKey::Shift),
        Code::Sleep => Some(NamedKey::Standby),
        Code::Tab => Some(NamedKey::Tab),
        _ => None,
    }
}

/// Whether the key at the place `code` types a character: a letter, a digit, a symbol, the space
/// bar, or any key of the numeric keypad.
pub open spec fn is_printable(code: Code) -> bool {
    is_letter_key(code) || is_digit_key(code) || is_symbol_key(code) || code is Space || is_numpad(
        code,
    )
}

/// Whether `code` is the key of a letter.
pub open spec fn is_letter_key(code: Code) -> bool {
    code is KeyA || code is KeyB || code is KeyC || code is KeyD || code is KeyE || code is KeyF
        || code is KeyG || code is KeyH || code is KeyI || code is KeyJ || code is KeyK
        || code is KeyL || code is KeyM || code is KeyN || code is KeyO || code is KeyP
        || code is KeyQ || code is KeyR || code is KeyS || code is KeyT || code is KeyU
        || code is KeyV || code is KeyW || code is KeyX || code is KeyY || code is KeyZ
}

/// Whether `code` is a digit of the main block.
pub open spec fn is_digit_key(code: Code) -> bool {
    code is Digit0 || code is Digit1 || code is Digit2 || code is Digit3 || code is Digit4
        || code is Digit5 || code is Digit6 || code is Digit7 || code is Digit8 || code is Digit9
}

/// Whether `code` is a symbol of the main block.
pub open spec fn is_symbol_key(code: Code) -> bool {
    code is Semicolon || code is Equal || code is Comma || code is Minus || code is Period
        || code is Slash || code is Backquote || code is BracketLeft || code is Backslash
        || code is BracketRight || code is Quote || code is IntlBackslash
}

/// Whether `code` is the left one of a pair of modifier keys.
pub open spec fn is_left(code: Code) -> bool {
    code is MetaLeft || code is ShiftLeft || code is AltLeft || code is ControlLeft
}

/// Whether `code` is the right one of a pair of modifier keys.
pub open spec fn is_right(code: Code) -> bool {
    code is MetaRight || code is ShiftRight || code is AltRight || code is ControlRight
}

/// Whether `code` is a key of the numeric keypad.
pub open spec fn is_numpad(code: Code) -> bool {
    code is Numpad0 || code is Numpad1 || code is Numpad2 || code is Numpad3 || code is Numpad4
        || code is Numpad5 || code is Numpad6 || code is Numpad7 || code is Numpad8
        || code is Numpad9 || code is NumpadAdd || code is NumpadComma || code is NumpadDecimal
        || code is NumpadDivide || code is NumpadSubtract || code is NumpadMultiply
}

/// The location of the key at the place `code`.
pub open spec fn location_of(code: Code) -> Location {
    if is_left(code) {
        Location::Left
    } else if is_right(code) {
        Location::Right
    } else if is_numpad(code) {
        Location::Numpad
    } else {
        Location::Standard
    }
}

/// The symbol that Shift makes of `base` on a US keyboard: that over a digit, or the partner of
/// another symbol.
pub open spec fn shifted(base: char) -> Option<char> {
    if '0' <= base <= '9' {
        Some(seq![')', '!', '@', '#', '$', '%', '^', '&', '*', '('][base as u32 - 0x30])
    } else if base == '`' {
        Some('~')
    } else if base == '-' {
        Some('_')
    } else if base == '=' {
        Some('+')
    } else if base == '[' || base == '\\' || base == ']' {
        Some((base as u32 + 0x20) as char)
    } else if base == ';' {
        Some(':')
    } else if base == '\'' {
        Some('"')
    } else if base == ',' || base == '.' || base == '/' {
        Some((base as u32 + 0x10) as char)
    } else {
        None
    }
}

/// Whether Shift leaves `base` as it is on a US keyboard: the space bar, and the two symbols that
/// only the numeric keypad has without Shift.
pub open spec fn ignores_shift(base: char) -> bool {
    base == ' ' || base == '*' || base == '+'
}

/// Whether `c` is an ASCII letter.
pub open spec fn is_letter(c: char) -> bool {
    'A' <= c <= 'Z' || 'a' <= c <= 'z'
}

/// The ASCII letter `c` in upper or in lower case.
pub open spec fn in_case(c: char, upper: bool) -> char {
    if upper && 'a' <= c <= 'z' {
        (c as u32 - 0x20) as char
    } else if !upper && 'A' <= c <= 'Z' {
        (c as u32 + 0x20) as char
    } else {
        c
    }
}

/// The character that a key types, where `mapped` is what the layout says of it. Its low word
/// is the character without Shift; controls below U+0020, surrogates and private characters mean
/// "none".
pub open spec fn character(mapped: u32, shift: bool, caps_lock: bool) -> Option<char> {
    let code = mapped % 0x10000;
    let c = code as char;
    if code < 0x20 || 0xD800 <= code < 0xF900 {
        None
    } else if is_letter(c) {
        Some(in_case(c, shift != caps_lock))
    } else if shift && !ignores_shift(c) {
        shifted(c)
    } else {
        Some(c)
    }
}

/// Translates a virtual-key code into the place of the key. Only the low word of `vk` counts.
pub fn convert_code(vk: u32) -> (code: Code)
    ensures
        code == code_of(vk as int % 0x10000),
{
    let vk: u16 = (vk % 0x10000) as u16;
    match vk {
        vk::VK_0 => Code::Digit0,
        vk::VK_1 => Code::Digit1,
        vk::VK_2 => Code::Digit2,
        vk::VK_3 => Code::Digit3,
        vk::VK_4 => Code::Digit4,
        vk::VK_5 => Code::Digit5,
        vk::VK_6 => Code::Digit6,
        vk::VK_7 => Code::Digit7,
        vk::VK_8 => Code::Digit8,
        vk::VK_9 => Code::Digit9,
        vk::VK_A => Code::KeyA,
        vk::VK_B => Code::KeyB,
        vk::VK_C => Code::KeyC,
        vk::VK_D => Code::KeyD,
        vk::VK_E => Code::KeyE,
        vk::VK_F => Code::KeyF,
        vk::VK_G => Code::KeyG,
        vk::VK_H => Code::KeyH,
        vk::VK_I => Code::KeyI,
        vk::VK_J => Code::KeyJ,
        vk::VK_K => Code::KeyK,
        vk::VK_L => Code::KeyL,
        vk::VK_M => Code::KeyM,
        vk::VK_N => Code::KeyN,
        vk::VK_O => Code::KeyO,
        vk::VK_P => Code::KeyP,
        vk::VK_Q => Code::KeyQ,
        vk::VK_R => Code::KeyR,
        vk::VK_S => Code::KeyS,
        vk::VK_T => Code::KeyT,
        vk::VK_U => Code::KeyU,
        vk::VK_V => Code::KeyV,
        vk::VK_W => Code::KeyW,
        vk::VK_X => Code::KeyX,
        vk::VK_Y => Code::KeyY,
        vk::VK_Z => Code::KeyZ,
        vk::VK_OEM_1 => Code::Semicolon,
        vk::VK_OEM_PLUS => Code::Equal,
        vk::VK_OEM_COMMA => Code::Comma,
        vk::VK_OEM_MINUS => Code::Minus,
        vk::VK_OEM_PERIOD => Code::Period,
        vk::VK_OEM_2 => Code::Slash,
        vk::VK_OEM_3 => Code::Backquote,
        vk::VK_OEM_4 => Code::BracketLeft,
        vk::VK_OEM_5 => Code::Backslash,
        vk::VK_OEM_6 => Code::BracketRight,
        vk::VK_OEM_7 => Code::Quote,
        vk::VK_OEM_102 => Code::IntlBackslash,
        vk::VK_LCONTROL => Code::ControlLeft,
        vk::VK_RCONTROL => Code::ControlRight,
        vk::VK_LSHIFT => Code::ShiftLeft,
        vk::VK_RSHIFT => Code::ShiftRight,
        vk::VK_LMENU => Code::AltLeft,
        vk::VK_RMENU => Code::AltRight,
        vk::VK_LWIN => Code::MetaLeft,
        vk::VK_RWIN => Code::MetaRight,
        vk::VK_APPS => Code::ContextMenu,
        vk::VK_BACK => Code::Backspace,
        vk::VK_TAB => Code::Tab,
        vk::VK_RETURN => Code::Enter,
        vk::VK_CAPITAL => Code::CapsLock,
        vk::VK_ESCAPE => Code::Escape,
        vk::VK_SPACE => Code::Space,
        vk::VK_PRIOR => Code::PageUp,
        vk::VK_NEXT => Code::PageDown,
        vk::VK_END => Code::End,
        vk::VK_HOME => Code::Home,
        vk::VK_LEFT => Code::ArrowLeft,
        vk::VK_UP => Code::ArrowUp,
        vk::VK_RIGHT => Code::ArrowRight,
        vk::VK_DOWN => Code::ArrowDown,
        vk::VK_INSERT => Code::Insert,
        vk::VK_DELETE => Code::Delete,
        vk::VK_CLEAR => Code::NumLock,
        vk::VK_NUMLOCK => Code::NumLock,
        vk::VK_SCROLL => Code::ScrollLock,
        vk::VK_PAUSE => Code::Pause,
        vk::VK_SNAPSHOT => Code::PrintScreen,
        vk::VK_EXECUTE => Code::Open,
        vk::VK_HELP => Code::Help,
        vk::VK_SELECT => Code::Select,
        vk::VK_SLEEP => Code::Sleep,
        vk::VK_CONVERT => Code::Convert,
        vk::VK_NONCONVERT => Code::NonConvert,
        vk::VK_KANA => Code::KanaMode,
        vk::VK_NUMPAD0 => Code::Numpad0,
        vk::VK_NUMPAD1 => Code::Numpad1,
        vk::VK_NUMPAD2 => Code::Numpad2,
        vk::VK_NUMPAD3 => Code::Numpad3,
        vk::VK_NUMPAD4 => Code::Numpad4,
        vk::VK_NUMPAD5 => Code::Numpad5,
        vk::VK_NUMPAD6 => Code::Numpad6,
        vk::VK_NUMPAD7 => Code::Numpad7,
        vk::VK_NUMPAD8 => Code::Numpad8,
        vk::VK_NUMPAD9 => Code::Numpad9,
        vk::VK_ADD => Code::NumpadAdd,
        vk::VK_SUBTRACT => Code::NumpadSubtract,
        vk::VK_MULTIPLY => Code::NumpadMultiply,
        vk::VK_DIVIDE => Code::NumpadDivide,
        vk::VK_DECIMAL => Code::NumpadDecimal,
        vk::VK_SEPARATOR => Code::NumpadComma,
        vk::VK_F1 => Code::F1,
        vk::VK_F2 => Code::F2,
        vk::VK_F3 => Code::F3,
        vk::VK_F4 => Code::F4,
        vk::VK_F5 => Code::F5,
        vk::VK_F6 => Code::F6,
        vk::VK_F7 => Code::F7,
        vk::VK_F8 => Code::F8,
        vk::VK_F9 => Code::F9,
        vk::VK_F10 => Code::F10,
        vk::VK_F11 => Code::F11,
        vk::VK_F12 => Code::F12,
        vk::VK_F13 => Code::F13,
        vk::VK_F14 => Code::F14,
        vk::VK_F15 => Code::F15,
        vk::VK_F16 => Code::F16,
        vk::VK_F17 => Code::F17,
        vk::VK_F18 => Code::F18,
        vk::VK_F19 => Code::F19,
        vk::VK_F20 => Code::F20,
        vk::VK_F21 => Code::F21,
        vk::VK_F22 => Code::F22,
        vk::VK_F23 => Code::F23,
        vk::VK_F24 => Code::F24,
        vk::VK_VOLUME_MUTE => Code::AudioVolumeMute,
        vk::VK_VOLUME_DOWN => Code::AudioVolumeDown,
        vk::VK_VOLUME_UP => Code::AudioVolumeUp,
        vk::VK_MEDIA_NEXT_TRACK => Code::MediaTrackNext,
        vk::VK_MEDIA_PREV_TRACK => Code::MediaTrackPrevious,
        vk::VK_MEDIA_STOP => Code::MediaStop,
        vk::VK_MEDIA_PLAY_PAUSE => Code::MediaPlayPause,
        vk::VK_LAUNCH_MAIL => Code::LaunchMail,
        vk::VK_LAUNCH_MEDIA_SELECT => Code::MediaSelect,
        vk::VK_LAUNCH_APP1 => Code::LaunchApp1,
        vk::VK_LAUNCH_APP2 => Code::LaunchApp2,
        vk::VK_BROWSER_BACK => Code::BrowserBack,
        vk::VK_BROWSER_FORWARD => Code::BrowserForward,
        vk::VK_BROWSER_REFRESH => Code::BrowserRefresh,
        vk::VK_BROWSER_STOP => Code::BrowserStop,
        vk::VK_BROWSER_SEARCH => Code::BrowserSearch,
        vk::VK_BROWSER_FAVORITES => Code::BrowserFavorites,
        vk::VK_BROWSER_HOME => Code::BrowserHome,
        _ => Code::Unidentified,
    }
}

/// The name of a key that types no character; `None` for the keys that do, and for an unknown
/// key.
pub fn convert_key(code: Code) -> (key: Option<Key>)
    ensures
        match name_of(code) {
            Some(name) => key == Some(Key::Named(name)),
            None => key is None,
        },
        key is None <==> is_printable(code) || code is Unidentified,
{
    let name: NamedKey = match code {
        Code::AltLeft | Code::AltRight => NamedKey::Alt,
        Code::ArrowDown => NamedKey::ArrowDown,
        Code::ArrowLeft => NamedKey::ArrowLeft,
        Code::ArrowRight => NamedKey::ArrowRight,
        Code::ArrowUp => NamedKey::ArrowUp,
        Code::AudioVolumeDown => NamedKey::AudioVolumeDown,
        Code::AudioVolumeMute => NamedKey::AudioVolumeMute,
        Code::AudioVolumeUp => NamedKey::AudioVolumeUp,
        Code::Backspace => NamedKey::Backspace,
        Code::BrowserBack => NamedKey::BrowserBack,
        Code::BrowserFavorites => NamedKey::BrowserFavorites,
        Code::BrowserForward => NamedKey::BrowserForward,
        Code::BrowserHome => NamedKey::BrowserHome,
        Code::BrowserRefresh => NamedKey::BrowserRefresh,
        Code::BrowserSearch => NamedKey::BrowserSearch,
        Code::BrowserStop => NamedKey::BrowserStop,
        Code::CapsLock => NamedKey::CapsLock,
        Code::ContextMenu => NamedKey::ContextMenu,
        Code::ControlLeft | Code::ControlRight => NamedKey::Control,
        Code::Convert => NamedKey::Convert,
        Code::Delete => NamedKey::Delete,
        Code::End => NamedKey::End,
        Code::Enter => NamedKey::Enter,
        Code::Escape => NamedKey::Escape,
        Code::F1 => NamedKey::F1,
        Code::F2 => NamedKey::F2,
        Code::F3 => NamedKey::F3,
        Code::F4 => NamedKey::F4,
        Code::F5 => NamedKey::F5,
        Code::F6 => NamedKey::F6,
        Code::F7 => NamedKey::F7,
        Code::F8 => NamedKey::F8,
        Code::F9 => NamedKey::F9,
        Code::F10 => NamedKey::F10,
        Code::F11 => NamedKey::F11,
        Code::F12 => NamedKey::F12,
        Code::F13 => NamedKey::F13,
        Code::F14 => NamedKey::F14,
        Code::F15 => NamedKey::F15,
        Code::F16 => NamedKey::F16,
        Code::F17 => NamedKey::F17,
        Code::F18 => NamedKey::F18,
        Code::F19 => NamedKey::F19,
        Code::F20 => NamedKey::F20,
        Code::F21 => NamedKey::F21,
        Code::F22 => NamedKey::F22,
        Code::F23 => NamedKey::F23,
        Code::F24 => NamedKey::F24,
        Code::Help => NamedKey::Help,
        Code::Home => NamedKey::Home,
        Code::Insert => NamedKey::Insert,
        Code::KanaMode => NamedKey::KanaMode,
        Code::LaunchApp1 => NamedKey::LaunchApplication1,
        Code::LaunchApp2 => NamedKey::LaunchApplication2,
        Code::LaunchMail => NamedKey::LaunchMail,
        Code::MediaSelect => NamedKey::LaunchMediaPlayer,
        Code::MediaPlayPause => NamedKey::MediaPlayPause,
        Code::MediaStop => NamedKey::MediaStop,
        Code::MediaTrackNext => NamedKey::MediaTrackNext,
        Code::MediaTrackPrevious => NamedKey::MediaTrackPrevious,
        Code::MetaLeft | Code::MetaRight => NamedKey::Meta,
        Code::NonConvert => NamedKey::NonConvert,
        Code::NumLock => NamedKey::NumLock,
        Code::Open => NamedKey::Open,
        Code::PageDown => NamedKey::PageDown,
        Code::PageUp => NamedKey::PageUp,
        Code::Pause => NamedKey::Pause,
        Code::PrintScreen => NamedKey::PrintScreen,
        Code::ScrollLock => NamedKey::ScrollLock,
        Code::Select => NamedKey::Select,
        Code::ShiftLeft | Code::ShiftRight => NamedKey::Shift,
        Code::Sleep => NamedKey::Standby,
        Code::Tab => NamedKey::Tab,
        _ => {
            return None;
        },
    };
    Some(Key::Named(name))
}

/// The shifted symbol of a US keyboard for a symbol without Shift. Only the common ASCII cases
/// are listed.
pub fn shifted_symbol(base: char) -> (symbol: Option<String>)
    ensures
        match shifted(base) {
            Some(c) => symbol matches Some(text) && text@ == seq![c],
            None => symbol is None,
        },
{
    let partner: char = match base {
        '`' => '~',
        '1' => '!',
        '2' => '@',
        '3' => '#',
        '4' => '$',
        '5' => '%',
        '6' => '^',
        '7' => '&',
        '8' => '*',
        '9' => '(',
        '0' => ')',
        '-' => '_',
        '=' => '+',
        '[' => '{',
        ']' => '}',
        '\\' => '|',
        ';' => ':',
        '\'' => '"',
        ',' => '<',
        '.' => '>',
        '/' => '?',
        _ => {
            return None;
        },
    };
    Some(text_of(partner))
}

/// A text of one character.
fn text_of(c: char) -> (text: String)
    ensures
        text@ == seq![c],
{
    let mut text: String = String::new();
    text.push(c);
    assert(text@ =~= seq![c]);
    text
}

/// The character that a key types under the given modifiers, where `mapped` is what the layout
/// says of the key.
pub fn convert_character(mapped: u32, modifiers: Modifiers) -> (key: Option<Key>)
    ensures
        match character(mapped, modifiers.has(SHIFT), modifiers.has(CAPS_LOCK)) {
            Some(c) => key matches Some(k) && k@ == KeyView::Character(seq![c]),
            None => key is None,
        },
{
    let code: u32 = mapped % 0x10000;
    let c: char = match char::from_u32(code) {
        Some(c) => c,
        None => {
            return None;
        },
    };
    if code < 0x20 || (0xE000 <= code && code < 0xF900) {
        return None;
    }
    let shift: bool = modifiers.shift();
    let lower: bool = 0x61 <= code && code <= 0x7A;
    let upper: bool = 0x41 <= code && code <= 0x5A;
    if lower || upper {
        let capital: bool = shift != modifiers.contains(CAPS_LOCK);
        let cased: u32 = if capital && lower {
            code - 0x20
        } else if !capital && upper {
            code + 0x20
        } else {
            code
        };
        return match char::from_u32(cased) {
            Some(letter) => Some(Key::Character(text_of(letter))),
            None => None,
        };
    }
    if shift && c != ' ' && c != '*' && c != '+' {
        match shifted_symbol(c) {
            Some(text) => Some(Key::Character(text)),
            None => None,
        }
    } else {
        Some(Key::Character(text_of(c)))
    }
}

/// Which of several keys of the same name `code` is.
pub fn convert_location(code: Code) -> (location: Location)
    ensures
        location == location_of(code),
{
    match code {
        Code::MetaLeft | Code::ShiftLeft | Code::AltLeft | Code::ControlLeft => Location::Left,
        Code::MetaRight | Code::ShiftRight | Code::AltRight | Code::ControlRight => Location::Right,
        Code::Numpad0
        | Code::Numpad1
        | Code::Numpad2
        | Code::Numpad3
        | Code::Numpad4
        | Code::Numpad5
        | Code::Numpad6
        | Code::Numpad7
        | Code::Numpad8
        | Code::Numpad9
        | Code::NumpadAdd
        | Code::NumpadComma
        | Code::NumpadDecimal
        | Code::NumpadDivide
        | Code::NumpadSubtract
        | Code::NumpadMultiply => Location::Numpad,
        _ => Location::Standard,
    }
}

/// What a key event says of the key at the place `code` that types `typed`: its name where it
/// has one, else the character, else nothing.
pub open spec fn key_of(code: Code, typed: Option<char>) -> KeyView {
    match name_of(code) {
        Some(name) => KeyView::Named(name),
        None => match typed {
            Some(c) => KeyView::Character(seq![c]),
            None => KeyView::Named(NamedKey::Unidentified),
        },
    }
}

/// The event for a key that went down or came up, where `mapped` is what the layout says of it.
pub fn convert_key_event(
    vk: u32,
    mapped: u32,
    down: bool,
    repeat: bool,
    modifiers: Modifiers,
    is_composing: bool,
) -> (event: KeyboardEvent)
    ensures
        event.state == (if down {
            KeyState::Down
        } else {
            KeyState::Up
        }),
        event.code == code_of(vk as int % 0x10000),
        event.key@ == key_of(
            event.code,
            character(mapped, modifiers.has(SHIFT), modifiers.has(CAPS_LOCK)),
        ),
        event.location == location_of(event.code),
        event.modifiers == modifiers,
        event.repeat == repeat,
        event.is_composing == is_composing,
{
    let code: Code = convert_code(vk);
    let key: Key = match convert_key(code) {
        Some(key) => key,
        None => match convert_character(mapped, modifiers) {
            Some(key) => key,
            None => Key::Named(NamedKey::Unidentified),
        },
    };
    KeyboardEvent {
        state: if down {
            KeyState::Down
        } else {
            KeyState::Up
        },
        key,
        code,
        location: convert_location(code),
        modifiers,
        repeat,
        is_composing,
    }
}

/// Keys with different virtual-key codes are different keys, but for Clear and Num Lock, which
/// share a place.
pub proof fn law_keys_are_distinct(a: int, b: int)
    requires
        code_of(a) == code_of(b),
        code_of(a) != Code::Unidentified,
    ensures
        a == b || (code_of(a) == Code::NumLock && (a == vk::VK_CLEAR || a == vk::VK_NUMLOCK)),
{
}

/// The keys of the numeric keypad are those with the virtual-key codes of its block.
pub proof fn law_numpad_block(vk: int)
    ensures
        location_of(code_of(vk)) is Numpad <==> 0x60 <= vk <= 0x6F,
{
}

/// Whether `vk` is a virtual-key code of the key `code`.
pub open spec fn is_key_of(code: Code, vk: int) -> bool {
    match code {
        Code::Digit0 => vk == vk::VK_0,
        Code::Digit1 => vk == vk::VK_1,
        Code::Digit2 => vk == vk::VK_2,
        Code::Digit3 => vk == vk::VK_3,
        Code::Digit4 => vk == vk::VK_4,
        Code::Digit5 => vk == vk::VK_5,
        Code::Digit6 => vk == vk::VK_6,
        Code::Digit7 => vk == vk::VK_7,
        Code::Digit8 => vk == vk::VK_8,
        Code::Digit9 => vk == vk::VK_9,
        Code::KeyA => vk == vk::VK_A,
        Code::KeyB => vk == vk::VK_B,
        Code::KeyC => vk == vk::VK_C,
        Code::KeyD => vk == vk::VK_D,
        Code::KeyE => vk == vk::VK_E,
        Code::KeyF => vk == vk::VK_F,
        Code::KeyG => vk == vk::VK_G,
        Code::KeyH => vk == vk::VK_H,
        Code::KeyI => vk == vk::VK_I,
        Code::KeyJ => vk == vk::VK_J,
        Code::KeyK => vk == vk::VK_K,
        Code::KeyL => vk == vk::VK_L,
        Code::KeyM => vk == vk::VK_M,
        Code::KeyN => vk == vk::VK_N,
        Code::KeyO => vk == vk::VK_O,
        Code::KeyP => vk == vk::VK_P,
        Code::KeyQ => vk == vk::VK_Q,
        Code::KeyR => vk == vk::VK_R,
        Code::KeyS => vk == vk::VK_S,
        Code::KeyT => vk == vk::VK_T,
        Code::KeyU => vk == vk::VK_U,
        Code::KeyV => vk == vk::VK_V,
        Code::KeyW => vk == vk::VK_W,
        Code::KeyX => vk == vk::VK_X,
        Code::KeyY => vk == vk::VK_Y,
        Code::KeyZ => vk == vk::VK_Z,
        Code::Semicolon => vk == vk::VK_OEM_1,
        Code::Equal => vk == vk::VK_OEM_PLUS,
        Code::Comma => vk == vk::VK_OEM_COMMA,
        Code::Minus => vk == vk::VK_OEM_MINUS,
        Code::Period => vk == vk::VK_OEM_PERIOD,
        Code::Slash => vk == vk::VK_OEM_2,
        Code::Backquote => vk == vk::VK_OEM_3,
        Code::BracketLeft => vk == vk::VK_OEM_4,
        Code::Backslash => vk == vk::VK_OEM_5,
        Code::BracketRight => vk == vk::VK_OEM_6,
        Code::Quote => vk == vk::VK_OEM_7,
        Code::IntlBackslash => vk == vk::VK_OEM_102,
        Code::ControlLeft => vk == vk::VK_LCONTROL,
        Code::ControlRight => vk == vk::VK_RCONTROL,
        Code::ShiftLeft => vk == vk::VK_LSHIFT,
        Code::ShiftRight => vk == vk::VK_RSHIFT,
        Code::AltLeft => vk == vk::VK_LMENU,
        Code::AltRight => vk == vk::VK_RMENU,
        Code::MetaLeft => vk == vk::VK_LWIN,
        Code::MetaRight => vk == vk::VK_RWIN,
        Code::ContextMenu => vk == vk::VK_APPS,
        Code::Backspace => vk == vk::VK_BACK,
        Code::Tab => vk == vk::VK_TAB,
        Code::Enter => vk == vk::VK_RETURN,
        Code::CapsLock => vk == vk::VK_CAPITAL,
        Code::Escape => vk == vk::VK_ESCAPE,
        Code::Space => vk == vk::VK_SPACE,
        Code::PageUp => vk == vk::VK_PRIOR,
        Code::PageDown => vk == vk::VK_NEXT,
        Code::End => vk == vk::VK_END,
        Code::Home => vk == vk::VK_HOME,
        Code::ArrowLeft => vk == vk::VK_LEFT,
        Code::ArrowUp => vk == vk::VK_UP,
        Code::ArrowRight => vk == vk::VK_RIGHT,
        Code::ArrowDown => vk == vk::VK_DOWN,
        Code::Insert => vk == vk::VK_INSERT,
        Code::Delete => vk == vk::VK_DELETE,
        Code::NumLock => vk == vk::VK_CLEAR || vk == vk::VK_NUMLOCK,
        Code::ScrollLock => vk == vk::VK_SCROLL,
        Code::Pause => vk == vk::VK_PAUSE,
        Code::PrintScreen => vk == vk::VK_SNAPSHOT,
        Code::Open => vk == vk::VK_EXECUTE,
        Code::Help => vk == vk::VK_HELP,
        Code::Select => vk == vk::VK_SELECT,
        Code::Sleep => vk == vk::VK_SLEEP,
        Code::Convert => vk == vk::VK_CONVERT,
        Code::NonConvert => vk == vk::VK_NONCONVERT,
        Code::KanaMode => vk == vk::VK_KANA,
        Code::Numpad0 => vk == vk::VK_NUMPAD0,
        Code::Numpad1 => vk == vk::VK_NUMPAD1,
        Code::Numpad2 => vk == vk::VK_NUMPAD2,
        Code::Numpad3 => vk == vk::VK_NUMPAD3,
        Code::Numpad4 => vk == vk::VK_NUMPAD4,
        Code::Numpad5 => vk == vk::VK_NUMPAD5,
        Code::Numpad6 => vk == vk::VK_NUMPAD6,
        Code::Numpad7 => vk == vk::VK_NUMPAD7,
        Code::Numpad8 => vk == vk::VK_NUMPAD8,
        Code::Numpad9 => vk == vk::VK_NUMPAD9,
        Code::NumpadAdd => vk == vk::VK_ADD,
        Code::NumpadSubtract => vk == vk::VK_SUBTRACT,
        Code::NumpadMultiply => vk == vk::VK_MULTIPLY,
        Code::NumpadDivide => vk == vk::VK_DIVIDE,
        Code::NumpadDecimal => vk == vk::VK_DECIMAL,
        Code::NumpadComma => vk == vk::VK_SEPARATOR,
        Code::F1 => vk == vk::VK_F1,
        Code::F2 => vk == vk::VK_F2,
        Code::F3 => vk == vk::VK_F3,
        Code::F4 => vk == vk::VK_F4,
        Code::F5 => vk == vk::VK_F5,
        Code::F6 => vk == vk::VK_F6,
        Code::F7 => vk == vk::VK_F7,
        Code::F8 => vk == vk::VK_F8,
        Code::F9 => vk == vk::VK_F9,
        Code::F10 => vk == vk::VK_F10,
        Code::F11 => vk == vk::VK_F11,
        Code::F12 => vk == vk::VK_F12,
        Code::F13 => vk == vk::VK_F13,
        Code::F14 => vk == vk::VK_F14,
        Code::F15 => vk == vk::VK_F15,
        Code::F16 => vk == vk::VK_F16,
        Code::F17 => vk == vk::VK_F17,
        Code::F18 => vk == vk::VK_F18,
        Code::F19 => vk == vk::VK_F19,
        Code::F20 => vk == vk::VK_F20,
        Code::F21 => vk == vk::VK_F21,
        Code::F22 => vk == vk::VK_F22,
        Code::F23 => vk == vk::VK_F23,
        Code::F24 => vk == vk::VK_F24,
        Code::AudioVolumeMute => vk == vk::VK_VOLUME_MUTE,
        Code::AudioVolumeDown => vk == vk::VK_VOLUME_DOWN,
        Code::AudioVolumeUp => vk == vk::VK_VOLUME_UP,
        Code::MediaTrackNext => vk == vk::VK_MEDIA_NEXT_TRACK,
        Code::MediaTrackPrevious => vk == vk::VK_MEDIA_PREV_TRACK,
        Code::MediaStop => vk == vk::VK_MEDIA_STOP,
        Code::MediaPlayPause => vk == vk::VK_MEDIA_PLAY_PAUSE,
        Code::LaunchMail => vk == vk::VK_LAUNCH_MAIL,
        Code::MediaSelect => vk == vk::VK_LAUNCH_MEDIA_SELECT,
        Code::LaunchApp1 => vk == vk::VK_LAUNCH_APP1,
        Code::LaunchApp2 => vk == vk::VK_LAUNCH_APP2,
        Code::BrowserBack => vk == vk::VK_BROWSER_BACK,
        Code::BrowserForward => vk == vk::VK_BROWSER_FORWARD,
        Code::BrowserRefresh => vk == vk::VK_BROWSER_REFRESH,
        Code::BrowserStop => vk == vk::VK_BROWSER_STOP,
        Code::BrowserSearch => vk == vk::VK_BROWSER_SEARCH,
        Code::BrowserFavorites => vk == vk::VK_BROWSER_FAVORITES,
        Code::BrowserHome => vk == vk::VK_BROWSER_HOME,
        Code::Unidentified => false,
    }
}

/// A key event names the key where the key has a name, whatever character the layout has for it;
/// where it has none the event carries exactly the character that was typed, and no character
/// means an unidentified key.
pub proof fn law_event_key(code: Code, typed: Option<char>)
    ensures
        match key_of(code, typed) {
            KeyView::Named(name) => if name is Unidentified {
                typed is None && (is_printable(code) || code is Unidentified)
            } else {
                is_place_of(name, code)
            },
            KeyView::Character(text) => {
                &&& is_printable(code) || code is Unidentified
                &&& text.len() == 1
                &&& typed == Some(text[0])
            },
        },
{
}

/// Every key is reported under its own place: a virtual-key code gives a place exactly where it is
/// the code of the key there, and codes of no key give none.
pub proof fn law_key_has_its_place(vk: int, code: Code)
    ensures
        code != Code::Unidentified ==> (code_of(vk) == code <==> is_key_of(code, vk)),
        code_of(vk) == Code::Unidentified <==> forall|c: Code| !#[trigger] is_key_of(c, vk),
{
    assert(code_of(vk) != Code::Unidentified ==> is_key_of(code_of(vk), vk));
    assert forall|c: Code| code_of(vk) == Code::Unidentified implies !#[trigger] is_key_of(c, vk) by {
    }
}

/// Whether `code` is a place where a key of the name `name` is found.
pub open spec fn is_place_of(name: NamedKey, code: Code) -> bool {
    match name {
        NamedKey::Alt => code is AltLeft || code is AltRight,
        NamedKey::ArrowDown => code is ArrowDown,
        NamedKey::ArrowLeft => code is ArrowLeft,
        NamedKey::ArrowRight => code is ArrowRight,
        NamedKey::ArrowUp => code is ArrowUp,
        NamedKey::AudioVolumeDown => code is AudioVolumeDown,
        NamedKey::AudioVolumeMute => code is AudioVolumeMute,
        NamedKey::AudioVolumeUp => code is AudioVolumeUp,
        NamedKey::Backspace => code is Backspace,
        NamedKey::BrowserBack => code is BrowserBack,
        NamedKey::BrowserFavorites => code is BrowserFavorites,
        NamedKey::BrowserForward => code is BrowserForward,
        NamedKey::BrowserHome => code is BrowserHome,
        NamedKey::BrowserRefresh => code is BrowserRefresh,
        NamedKey::BrowserSearch => code is BrowserSearch,
        NamedKey::BrowserStop => code is BrowserStop,
        NamedKey::CapsLock => code is CapsLock,
        NamedKey::ContextMenu => code is ContextMenu,
        NamedKey::Control => code is ControlLeft || code is ControlRight,
        NamedKey::Convert => code is Convert,
        NamedKey::Delete => code is Delete,
        NamedKey::End => code is End,
        NamedKey::Enter => code is Enter,
        NamedKey::Escape => code is Escape,
        NamedKey::F1 => code is F1,
        NamedKey::F2 => code is F2,
        NamedKey::F3 => code is F3,
        NamedKey::F4 => code is F4,
        NamedKey::F5 => code is F5,
        NamedKey::F6 => code is F6,
        NamedKey::F7 => code is F7,
        NamedKey::F8 => code is F8,
        NamedKey::F9 => code is F9,
        NamedKey::F10 => code is F10,
        NamedKey::F11 => code is F11,
        NamedKey::F12 => code is F12,
        NamedKey::F13 => code is F13,
        NamedKey::F14 => code is F14,
        NamedKey::F15 => code is F15,
        NamedKey::F16 => code is F16,
        NamedKey::F17 => code is F17,
        NamedKey::F18 => code is F18,
        NamedKey::F19 => code is F19,
        NamedKey::F20 => code is F20,
        NamedKey::F21 => code is F21,
        NamedKey::F22 => code is F22,
        NamedKey::F23 => code is F23,
        NamedKey::F24 => code is F24,
        NamedKey::Help => code is Help,
        NamedKey::Home => code is Home,
        NamedKey::Insert => code is Insert,
        NamedKey::KanaMode => code is KanaMode,
        NamedKey::LaunchApplication1 => code is LaunchApp1,
        NamedKey::LaunchApplication2 => code is LaunchApp2,
        NamedKey::LaunchMail => code is LaunchMail,
        NamedKey::LaunchMediaPlayer => code is MediaSelect,
        NamedKey::MediaPlayPause => code is MediaPlayPause,
        NamedKey::MediaStop => code is MediaStop,
        NamedKey::MediaTrackNext => code is MediaTrackNext,
        NamedKey::MediaTrackPrevious => code is MediaTrackPrevious,
        NamedKey::Meta => code is MetaLeft || code is MetaRight,
        NamedKey::NonConvert => code is NonConvert,
        NamedKey::NumLock => code is NumLock,
        NamedKey::Open => code is Open,
        NamedKey::PageDown => code is PageDown,
        NamedKey::PageUp => code is PageUp,
        NamedKey::Pause => code is Pause,
        NamedKey::PrintScreen => code is PrintScreen,
        NamedKey::ScrollLock => code is ScrollLock,
        NamedKey::Select => code is Select,
        NamedKey::Shift => code is ShiftLeft || code is ShiftRight,
        NamedKey::Standby => code is Sleep,
        NamedKey::Tab => code is Tab,
        NamedKey::Unidentified => false,
    }
}

/// Every key without a character is reported under its own name: a place has a name exactly where
/// a key of that name is found there.
pub proof fn law_place_has_its_name(code: Code, name: NamedKey)
    ensures
        name_of(code) == Some(name) <==> is_place_of(name, code),
{
}

/// The left and the right one of a pair of modifier keys share a name; no two other keys do.
pub proof fn law_names_are_distinct(a: Code, b: Code)
    requires
        name_of(a) is Some,
        name_of(a) == name_of(b),
        a != b,
    ensures
        location_of(a) is Left && location_of(b) is Right || location_of(a) is Right && location_of(
            b,
        ) is Left,
{
}

/// The location of a key follows from its virtual-key code: only the four modifiers that have a
/// left and a right key are told apart, and the keypad is a block of its own.
pub proof fn law_locations(vk: int)
    ensures
        location_of(code_of(vk)) is Left <==> vk == vk::VK_LSHIFT || vk == vk::VK_LCONTROL || vk
            == vk::VK_LMENU || vk == vk::VK_LWIN,
        location_of(code_of(vk)) is Right <==> vk == vk::VK_RSHIFT || vk == vk::VK_RCONTROL || vk
            == vk::VK_RMENU || vk == vk::VK_RWIN,
        location_of(code_of(vk)) is Numpad <==> vk::VK_NUMPAD0 <= vk <= vk::VK_DIVIDE,
{
}

/// The plain partner of a symbol that needs Shift on a US keyboard.
pub open spec fn unshifted(symbol: char) -> Option<char> {
    match symbol {
        '~' => Some('`'),
        '!' => Some('1'),
        '@' => Some('2'),
        '#' => Some('3'),
        '$' => Some('4'),
        '%' => Some('5'),
        '^' => Some('6'),
        '&' => Some('7'),
        '*' => Some('8'),
        '(' => Some('9'),
        ')' => Some('0'),
        '_' => Some('-'),
        '+' => Some('='),
        '{' => Some('['),
        '}' => Some(']'),
        '|' => Some('\\'),
        ':' => Some(';'),
        '"' => Some('\''),
        '<' => Some(','),
        '>' => Some('.'),
        '?' => Some('/'),
        _ => None,
    }
}

/// Shift is undone symbol by symbol: a symbol comes of `base` exactly where taking Shift away
/// gives `base` back.
pub proof fn law_shift_is_undone(base: char, symbol: char)
    ensures
        shifted(base) == Some(symbol) <==> unshifted(symbol) == Some(base),
{
}

/// What a key types has to do with what the layout says of it. Nothing comes of a control below
/// U+0020, of a surrogate or of a private character. A letter stays the same letter, and is a
/// capital exactly where one of Shift and Caps Lock is in force. Anything else is typed as it is
/// without Shift; with Shift it is the partner that taking Shift away turns back into it, and the
/// space bar and the keypad's own symbols do not change.
pub proof fn law_typed_character(mapped: u32, shift: bool, caps_lock: bool)
    ensures
        ({
            let base = mapped as int % 0x10000;
            let upper = 0x41 <= base <= 0x5A;
            let lower = 0x61 <= base <= 0x7A;
            let typed = character(mapped, shift, caps_lock);
            &&& base < 0x20 || 0xD800 <= base < 0xF900 ==> typed is None
            &&& upper || lower ==> {
                &&& typed matches Some(c)
                &&& (c as int - base) % 0x20 == 0
                &&& (shift != caps_lock ==> 0x41 <= c as int <= 0x5A)
                &&& (shift == caps_lock ==> 0x61 <= c as int <= 0x7A)
            }
            &&& 0x20 <= base && !(0xD800 <= base < 0xF900) && !upper && !lower ==> {
                &&& !shift ==> (typed matches Some(c) && c as int == base)
                &&& shift && (base == 0x20 || base == 0x2A || base == 0x2B) ==> (typed
                    matches Some(c) && c as int == base)
                &&& shift && base != 0x20 && base != 0x2A && base != 0x2B ==> {
                    &&& typed matches Some(c) ==> (unshifted(c) matches Some(b) && b as int == base)
                    &&& typed is None ==> forall|c: char|
                        #[trigger] unshifted(c) matches Some(b) ==> b as int != base
                }
            }
        }),
{
    let base = (mapped % 0x10000) as char;
    assert forall|c: char| shifted(base) is None implies (#[trigger] unshifted(c) matches Some(b)
        ==> b != base) by {
        law_shift_is_undone(base, c);
    }
    if let Some(c) = shifted(base) {
        law_shift_is_undone(base, c);
    }
}

/// Caps Lock undoes Shift on letters, and has no effect on anything else.
pub proof fn law_caps_lock(mapped: u32, shift: bool)
    ensures
        is_letter((mapped % 0x10000) as char) ==> character(mapped, shift, true) == character(
            mapped,
            !shift,
            false,
        ),
        !is_letter((mapped % 0x10000) as char) ==> character(mapped, shift, true) == character(
            mapped,
            shift,
            false,
        ),
{
}

} // verus!
