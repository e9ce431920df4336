use rosin_win::input::{current_modifiers, KeyStateExt, KeyStates};
use rosin_win::keyboard::{Code, Key, KeyState, Location, Modifiers, NamedKey};
use rosin_win::keyboard::{ALT, CAPS_LOCK, CONTROL, META, NUM_LOCK, SHIFT};
use rosin_win::util::{
    convert_character, convert_code, convert_key, convert_key_event, convert_location,
    shifted_symbol,
};

fn mods(bits: u32) -> Modifiers {
    Modifiers { bits }
}

fn typed(text: &str) -> Option<Key> {
    Some(Key::Character(text.to_string()))
}

fn named(name: NamedKey) -> Option<Key> {
    Some(Key::Named(name))
}

#[test]
fn codes_of_the_main_block() {
    assert_eq!(convert_code(0x30), Code::Digit0);
    assert_eq!(convert_code(0x39), Code::Digit9);
    assert_eq!(convert_code(0x41), Code::KeyA);
    assert_eq!(convert_code(0x5A), Code::KeyZ);
    assert_eq!(convert_code(0xBA), Code::Semicolon);
    assert_eq!(convert_code(0xBB), Code::Equal);
    assert_eq!(convert_code(0xBC), Code::Comma);
    assert_eq!(convert_code(0xBD), Code::Minus);
    assert_eq!(convert_code(0xBE), Code::Period);
    assert_eq!(convert_code(0xBF), Code::Slash);
    assert_eq!(convert_code(0xC0), Code::Backquote);
    assert_eq!(convert_code(0xDB), Code::BracketLeft);
    assert_eq!(convert_code(0xDC), Code::Backslash);
    assert_eq!(convert_code(0xDD), Code::BracketRight);
    assert_eq!(convert_code(0xDE), Code::Quote);
    assert_eq!(convert_code(0xE2), Code::IntlBackslash);
    assert_eq!(convert_code(0x08), Code::Backspace);
    assert_eq!(convert_code(0x09), Code::Tab);
    assert_eq!(convert_code(0x0D), Code::Enter);
    assert_eq!(convert_code(0x1B), Code::Escape);
    assert_eq!(convert_code(0x20), Code::Space);
}

#[test]
fn codes_of_the_other_blocks() {
    assert_eq!(convert_code(0x60), Code::Numpad0);
    assert_eq!(convert_code(0x69), Code::Numpad9);
    assert_eq!(convert_code(0x6A), Code::NumpadMultiply);
    assert_eq!(convert_code(0x6B), Code::NumpadAdd);
    assert_eq!(convert_code(0x6C), Code::NumpadComma);
    assert_eq!(convert_code(0x6D), Code::NumpadSubtract);
    assert_eq!(convert_code(0x6E), Code::NumpadDecimal);
    assert_eq!(convert_code(0x6F), Code::NumpadDivide);
    assert_eq!(convert_code(0x70), Code::F1);
    assert_eq!(convert_code(0x87), Code::F24);
    assert_eq!(convert_code(0xA0), Code::ShiftLeft);
    assert_eq!(convert_code(0xA5), Code::AltRight);
    assert_eq!(convert_code(0xA6), Code::BrowserBack);
    assert_eq!(convert_code(0xAC), Code::BrowserHome);
    assert_eq!(convert_code(0xAD), Code::AudioVolumeMute);
    assert_eq!(convert_code(0xAF), Code::AudioVolumeUp);
    assert_eq!(convert_code(0xB0), Code::MediaTrackNext);
    assert_eq!(convert_code(0xB3), Code::MediaPlayPause);
    assert_eq!(convert_code(0xB4), Code::LaunchMail);
    assert_eq!(convert_code(0xB5), Code::MediaSelect);
    assert_eq!(convert_code(0xB7), Code::LaunchApp2);
    assert_eq!(convert_code(0x21), Code::PageUp);
    assert_eq!(convert_code(0x22), Code::PageDown);
    assert_eq!(convert_code(0x25), Code::ArrowLeft);
    assert_eq!(convert_code(0x28), Code::ArrowDown);
    assert_eq!(convert_code(0x2B), Code::Open);
    assert_eq!(convert_code(0x5F), Code::Sleep);
    assert_eq!(convert_code(0x15), Code::KanaMode);
}

#[test]
fn unknown_codes_are_unidentified() {
    for vk in [0x00, 0x01, 0x07, 0x10, 0x11, 0x12, 0x2A, 0x3A, 0x40, 0x5E, 0x88, 0xB8, 0xFF, 0xFFFF] {
        assert_eq!(convert_code(vk), Code::Unidentified);
    }
}

#[test]
fn only_the_low_word_of_a_code_counts() {
    assert_eq!(convert_code(0x1_0041), Code::KeyA);
    assert_eq!(convert_code(0xFFFF_000D), Code::Enter);
}

#[test]
fn no_two_keys_share_a_place() {
    for a in 0..0x100u32 {
        for b in 0..a {
            let code = convert_code(a);
            if code == convert_code(b) && code != Code::Unidentified {
                assert_eq!((code, b, a), (Code::NumLock, 0x0C, 0x90));
            }
        }
    }
}

#[test]
fn codes_are_known_to_the_keyboard_vocabulary() {
    for vk in 0..0x100u32 {
        let name = format!("{:?}", convert_code(vk));
        if name != "Unidentified" {
            assert!(name.parse::<keyboard_types::Code>().is_ok(), "{name}");
        }
        if let Some(Key::Named(key)) = convert_key(convert_code(vk)) {
            let name = format!("{key:?}");
            assert!(name.parse::<keyboard_types::NamedKey>().is_ok(), "{name}");
        }
    }
}

#[test]
fn names_of_keys_without_a_character() {
    assert_eq!(convert_key(Code::AltLeft), named(NamedKey::Alt));
    assert_eq!(convert_key(Code::AltRight), named(NamedKey::Alt));
    assert_eq!(convert_key(Code::ControlRight), named(NamedKey::Control));
    assert_eq!(convert_key(Code::MetaLeft), named(NamedKey::Meta));
    assert_eq!(convert_key(Code::ShiftRight), named(NamedKey::Shift));
    assert_eq!(convert_key(Code::Enter), named(NamedKey::Enter));
    assert_eq!(convert_key(Code::F7), named(NamedKey::F7));
    assert_eq!(convert_key(Code::PageDown), named(NamedKey::PageDown));
    assert_eq!(convert_key(Code::KeyA), None);
    assert_eq!(convert_key(Code::Space), None);
    assert_eq!(convert_key(Code::Numpad5), None);
    assert_eq!(convert_key(Code::Unidentified), None);
}

#[test]
fn every_key_without_a_character_has_a_name() {
    let names = [
        (Code::NumLock, NamedKey::NumLock),
        (Code::AudioVolumeMute, NamedKey::AudioVolumeMute),
        (Code::AudioVolumeDown, NamedKey::AudioVolumeDown),
        (Code::AudioVolumeUp, NamedKey::AudioVolumeUp),
        (Code::MediaTrackNext, NamedKey::MediaTrackNext),
        (Code::MediaTrackPrevious, NamedKey::MediaTrackPrevious),
        (Code::MediaStop, NamedKey::MediaStop),
        (Code::MediaPlayPause, NamedKey::MediaPlayPause),
        (Code::MediaSelect, NamedKey::LaunchMediaPlayer),
        (Code::LaunchMail, NamedKey::LaunchMail),
        (Code::LaunchApp1, NamedKey::LaunchApplication1),
        (Code::LaunchApp2, NamedKey::LaunchApplication2),
        (Code::BrowserBack, NamedKey::BrowserBack),
        (Code::BrowserForward, NamedKey::BrowserForward),
        (Code::BrowserRefresh, NamedKey::BrowserRefresh),
        (Code::BrowserStop, NamedKey::BrowserStop),
        (Code::BrowserSearch, NamedKey::BrowserSearch),
        (Code::BrowserFavorites, NamedKey::BrowserFavorites),
        (Code::BrowserHome, NamedKey::BrowserHome),
        (Code::Select, NamedKey::Select),
        (Code::Open, NamedKey::Open),
        (Code::Sleep, NamedKey::Standby),
        (Code::Convert, NamedKey::Convert),
        (Code::NonConvert, NamedKey::NonConvert),
        (Code::KanaMode, NamedKey::KanaMode),
    ];
    for (code, name) in names {
        assert_eq!(convert_key(code), named(name));
    }
    for vk in 0..0x100u32 {
        let code = convert_code(vk);
        let types = matches!(vk, 0x20 | 0x30..=0x39 | 0x41..=0x5A | 0x60..=0x6F)
            || matches!(vk, 0xBA..=0xC0 | 0xDB..=0xDE | 0xE2);
        assert_eq!(convert_key(code).is_none(), types || code == Code::Unidentified);
    }
}

#[test]
fn locations() {
    assert_eq!(convert_location(Code::ShiftLeft), Location::Left);
    assert_eq!(convert_location(Code::MetaRight), Location::Right);
    assert_eq!(convert_location(Code::NumpadComma), Location::Numpad);
    assert_eq!(convert_location(Code::KeyA), Location::Standard);
    for vk in 0..0x100u32 {
        let on_keypad = convert_location(convert_code(vk)) == Location::Numpad;
        assert_eq!(on_keypad, (0x60..=0x6F).contains(&vk));
    }
}

#[test]
fn shifted_symbols_of_a_us_keyboard() {
    let plain = "`1234567890-=[]\\;',./";
    let shifted = "~!@#$%^&*()_+{}|:\"<>?";
    for (base, symbol) in plain.chars().zip(shifted.chars()) {
        assert_eq!(shifted_symbol(base), Some(symbol.to_string()));
    }
    for base in shifted.chars().chain("aZ \u{e4}".chars()) {
        assert_eq!(shifted_symbol(base), None);
    }
}

#[test]
fn letters_follow_shift_and_caps_lock() {
    for mapped in [0x41, 0x61] {
        assert_eq!(convert_character(mapped, mods(0)), typed("a"));
        assert_eq!(convert_character(mapped, mods(SHIFT)), typed("A"));
        assert_eq!(convert_character(mapped, mods(CAPS_LOCK)), typed("A"));
        assert_eq!(convert_character(mapped, mods(SHIFT | CAPS_LOCK)), typed("a"));
    }
    assert_eq!(convert_character(0x5A, mods(SHIFT)), typed("Z"));
    assert_eq!(convert_character(0x7A, mods(0)), typed("z"));
}

#[test]
fn other_characters_follow_shift_alone() {
    assert_eq!(convert_character(0x31, mods(0)), typed("1"));
    assert_eq!(convert_character(0x31, mods(SHIFT)), typed("!"));
    assert_eq!(convert_character(0x31, mods(CAPS_LOCK)), typed("1"));
    assert_eq!(convert_character(0x20, mods(0)), typed(" "));
    assert_eq!(convert_character(0x20, mods(SHIFT)), typed(" "));
    assert_eq!(convert_character(0x2A, mods(SHIFT)), typed("*"));
    assert_eq!(convert_character(0x2B, mods(SHIFT)), typed("+"));
    assert_eq!(convert_character(0xDF, mods(0)), typed("\u{df}"));
    assert_eq!(convert_character(0xDF, mods(SHIFT)), None);
    assert_eq!(convert_character(0xF900, mods(0)), typed("\u{F900}"));
}

#[test]
fn values_that_are_no_printable_character() {
    for mapped in [0x00, 0x08, 0x1F, 0xD800, 0xDFFF, 0xE000, 0xF8FF, 0x5_0000] {
        assert_eq!(convert_character(mapped, mods(0)), None);
        assert_eq!(convert_character(mapped, mods(SHIFT)), None);
    }
    assert_eq!(convert_character(0x8000_0060, mods(0)), typed("`"));
}

#[test]
fn key_events_prefer_the_name() {
    let event = convert_key_event(0x0D, 0x0D, true, true, mods(CONTROL), true);
    assert_eq!(event.state, KeyState::Down);
    assert_eq!(event.key, Key::Named(NamedKey::Enter));
    assert_eq!(event.code, Code::Enter);
    assert_eq!(event.location, Location::Standard);
    assert_eq!(event.modifiers, mods(CONTROL));
    assert!(event.repeat);
    assert!(event.is_composing);
}

#[test]
fn key_events_of_characters_and_of_nothing() {
    let event = convert_key_event(0x41, 0x41, false, false, mods(SHIFT), false);
    assert_eq!(event.state, KeyState::Up);
    assert_eq!(event.key, Key::Character("A".to_string()));
    assert_eq!(event.code, Code::KeyA);
    assert!(!event.repeat);
    assert!(!event.is_composing);
    let event = convert_key_event(0x65, 0x35, true, false, mods(0), false);
    assert_eq!(event.key, Key::Character("5".to_string()));
    assert_eq!(event.location, Location::Numpad);
    let event = convert_key_event(0xFF, 0, true, false, mods(0), false);
    assert_eq!(event.key, Key::Named(NamedKey::Unidentified));
    assert_eq!(event.code, Code::Unidentified);
}

#[test]
fn modifier_bits_are_those_of_the_keyboard_vocabulary() {
    assert_eq!(ALT, keyboard_types::Modifiers::ALT.bits());
    assert_eq!(CAPS_LOCK, keyboard_types::Modifiers::CAPS_LOCK.bits());
    assert_eq!(CONTROL, keyboard_types::Modifiers::CONTROL.bits());
    assert_eq!(META, keyboard_types::Modifiers::META.bits());
    assert_eq!(NUM_LOCK, keyboard_types::Modifiers::NUM_LOCK.bits());
    assert_eq!(SHIFT, keyboard_types::Modifiers::SHIFT.bits());
}

#[test]
fn modifiers_are_a_set() {
    let mut set = Modifiers::empty();
    assert_eq!(set.bits, 0);
    assert!(!set.shift());
    set.insert(SHIFT);
    set.insert(CONTROL);
    set.insert(SHIFT);
    assert!(set.shift());
    assert!(set.ctrl());
    assert!(set.contains(SHIFT | CONTROL));
    assert!(!set.contains(SHIFT | ALT));
}

#[test]
fn key_states() {
    assert!((-128i16).is_down());
    assert!(!0i16.is_down());
    assert!(!1i16.is_down());
    assert!(1i16.is_toggled());
    assert!((-127i16).is_toggled());
    assert!(!(-128i16).is_toggled());
}

#[test]
fn current_modifiers_of_all_key_states() {
    let off = KeyStates {
        control: 0,
        shift: 0,
        menu: 0,
        left_win: 0,
        right_win: 0,
        capital: 0,
        num_lock: 0,
    };
    assert_eq!(current_modifiers(&off).bits, 0);
    assert_eq!(current_modifiers(&KeyStates { control: -128, ..off }).bits, CONTROL);
    assert_eq!(current_modifiers(&KeyStates { shift: -127, ..off }).bits, SHIFT);
    assert_eq!(current_modifiers(&KeyStates { menu: i16::MIN, ..off }).bits, ALT);
    assert_eq!(current_modifiers(&KeyStates { left_win: -1, ..off }).bits, META);
    assert_eq!(current_modifiers(&KeyStates { right_win: -1, ..off }).bits, META);
    assert_eq!(current_modifiers(&KeyStates { capital: 1, ..off }).bits, CAPS_LOCK);
    assert_eq!(current_modifiers(&KeyStates { num_lock: -127, ..off }).bits, NUM_LOCK);
    assert_eq!(current_modifiers(&KeyStates { control: 1, shift: 1, menu: 1, ..off }).bits, 0);
    assert_eq!(current_modifiers(&KeyStates { capital: -128, num_lock: -128, ..off }).bits, 0);
    let all = KeyStates {
        control: -1,
        shift: -1,
        menu: -1,
        left_win: -1,
        right_win: -1,
        capital: -1,
        num_lock: -1,
    };
    assert_eq!(current_modifiers(&all).bits, 0x2CD);
}
