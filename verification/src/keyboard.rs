//! Keyboard events: the places, the names and the modifiers of keys.

use vstd::prelude::*;

verus! {

/// A key by its physical place on a standard keyboard.
#[derive(Clone, Copy, PartialEq, Eq, Structural, Debug)]
pub enum Code {
    Digit0,
    Digit1,
    Digit2,
    Digit3,
    Digit4,
    Digit5,
    Digit6,
    Digit7,
    Digit8,
    Digit9,
    KeyA,
    KeyB,
    KeyC,
    KeyD,
    KeyE,
    KeyF,
    KeyG,
    KeyH,
    KeyI,
    KeyJ,
    KeyK,
    KeyL,
    KeyM,
    KeyN,
    KeyO,
    KeyP,
    KeyQ,
    KeyR,
    KeyS,
    KeyT,
    KeyU,
    KeyV,
    KeyW,
    KeyX,
    KeyY,
    KeyZ,
    Semicolon,
    Equal,
    Comma,
    Minus,
    Period,
    Slash,
    Backquote,
    BracketLeft,
    Backslash,
    BracketRight,
    Quote,
    IntlBackslash,
    ControlLeft,
    ControlRight,
    ShiftLeft,
    ShiftRight,
    AltLeft,
    AltRight,
    MetaLeft,
    MetaRight,
    ContextMenu,
    Backspace,
    Tab,
    Enter,
    CapsLock,
    Escape,
    Space,
    PageUp,
    PageDown,
    End,
    Home,
    ArrowLeft,
    ArrowUp,
    ArrowRight,
    ArrowDown,
    Insert,
    Delete,
    NumLock,
    ScrollLock,
    Pause,
    PrintScreen,
    Open,
    Help,
    Select,
    Sleep,
    Convert,
    NonConvert,
    KanaMode,
    Numpad0,
    Numpad1,
    Numpad2,
    Numpad3,
    Numpad4,
    Numpad5,
    Numpad6,
    Numpad7,
    Numpad8,
    Numpad9,
    NumpadAdd,
    NumpadSubtract,
    NumpadMultiply,
    NumpadDivide,
    NumpadDecimal,
    NumpadComma,
    F1,
    F2,
    F3,
    F4,
    F5,
    F6,
    F7,
    F8,
    F9,
    F10,
    F11,
    F12,
    F13,
    F14,
    F15,
    F16,
    F17,
    F18,
    F19,
    F20,
    F21,
    F22,
    F23,
    F24,
    AudioVolumeMute,
    AudioVolumeDown,
    AudioVolumeUp,
    MediaTrackNext,
    MediaTrackPrevious,
    MediaStop,
    MediaPlayPause,
    LaunchMail,
    MediaSelect,
    LaunchApp1,
    LaunchApp2,
    BrowserBack,
    BrowserForward,
    BrowserRefresh,
    BrowserStop,
    BrowserSearch,
    BrowserFavorites,
    BrowserHome,
    Unidentified,
}

/// A key without a character, by its meaning.
#[derive(Clone, Copy, PartialEq, Eq, Structural, Debug)]
pub enum NamedKey {
    Alt,
    ArrowDown,
    ArrowLeft,
    ArrowRight,
    ArrowUp,
    AudioVolumeDown,
    AudioVolumeMute,
    AudioVolumeUp,
    Backspace,
    BrowserBack,
    BrowserFavorites,
    BrowserForward,
    BrowserHome,
    BrowserRefresh,
    BrowserSearch,
    BrowserStop,
    CapsLock,
    ContextMenu,
    Control,
    Convert,
    Delete,
    End,
    Enter,
    Escape,
    F1,
    F2,
    F3,
    F4,
    F5,
    F6,
    F7,
    F8,
    F9,
    F10,
    F11,
    F12,
    F13,
    F14,
    F15,
    F16,
    F17,
    F18,
    F19,
    F20,
    F21,
    F22,
    F23,
    F24,
    Help,
    Home,
    Insert,
    KanaMode,
    LaunchApplication1,
    LaunchApplication2,
    LaunchMail,
    LaunchMediaPlayer,
    MediaPlayPause,
    MediaStop,
    MediaTrackNext,
    MediaTrackPrevious,
    Meta,
    NonConvert,
    NumLock,
    Open,
    PageDown,
    PageUp,
    Pause,
    PrintScreen,
    ScrollLock,
    Select,
    Shift,
    Standby,
    Tab,
    Unidentified,
}

/// What a key press means: the text it types, or the name of the key.
#[derive(PartialEq, Eq, Debug)]
pub enum Key {
    Character(String),
    Named(NamedKey),
}

/// A [`Key`] with its text as a sequence of characters.
pub enum KeyView {
    Character(Seq<char>),
    Named(NamedKey),
}

impl View for Key {
    type V = KeyView;

    open spec fn view(&self) -> KeyView {
        match self {
            Key::Character(text) => KeyView::Character(text@),
            Key::Named(name) => KeyView::Named(*name),
        }
    }
}

/// Which of several keys of the same name it is.
#[derive(Clone, Copy, PartialEq, Eq, Structural, Debug)]
pub enum Location {
    Standard,
    Left,
    Right,
    Numpad,
}

/// Whether the key went down or came up.
#[derive(Clone, Copy, PartialEq, Eq, Structural, Debug)]
pub enum KeyState {
    Down,
    Up,
}

/// The bit of the Alt key in [`Modifiers`].
pub const ALT: u32 = 0x001;

/// The bit of Caps Lock in [`Modifiers`].
pub const CAPS_LOCK: u32 = 0x004;

/// The bit of the Control key in [`Modifiers`].
pub const CONTROL: u32 = 0x008;

/// The bit of the Windows key in [`Modifiers`].
pub const META: u32 = 0x040;

/// The bit of Num Lock in [`Modifiers`].
pub const NUM_LOCK: u32 = 0x080;

/// The bit of the Shift key in [`Modifiers`].
pub const SHIFT: u32 = 0x200;

/// The modifier keys that are held and the locks that are on, as a set of bits.
#[derive(Clone, Copy, PartialEq, Eq, Structural, Debug)]
pub struct Modifiers {
    pub bits: u32,
}

impl Modifiers {
    /// Whether all bits of `flag` are in the set.
    pub open spec fn has(self, flag: u32) -> bool {
        self.bits & flag == flag
    }

    /// The empty set.
    pub fn empty() -> (mods: Modifiers)
        ensures
            mods.bits == 0,
    {
        Modifiers { bits: 0 }
    }

    /// Adds the bits of `flag`.
    pub fn insert(&mut self, flag: u32)
        ensures
            final(self).bits == old(self).bits | flag,
    {
        self.bits = self.bits | flag;
    }

    /// Whether all bits of `flag` are in the set.
    pub fn contains(&self, flag: u32) -> (yes: bool)
        ensures
            yes == self.has(flag),
    {
        self.bits & flag == flag
    }

    /// Whether a Shift key is held.
    pub fn shift(&self) -> (yes: bool)
        ensures
            yes == self.has(SHIFT),
    {
        self.contains(SHIFT)
    }

    /// Whether a Control key is held.
    pub fn ctrl(&self) -> (yes: bool)
        ensures
            yes == self.has(CONTROL),
    {
        self.contains(CONTROL)
    }
}

/// A set has a modifier exactly where adding it changes nothing. It has what was added to it and
/// keeps what it had; it has two modifiers exactly where it has
/// each of them; and the empty set has none.
pub proof fn law_modifiers(mods: Modifiers, a: u32, b: u32)
    ensures
        mods.has(a) <==> mods.bits | a == mods.bits,
        (Modifiers { bits: mods.bits | a }).has(a),
        mods.has(b) ==> (Modifiers { bits: mods.bits | a }).has(b),
        mods.has(a | b) <==> mods.has(a) && mods.has(b),
        (Modifiers { bits: 0 }).has(a) <==> a == 0,
{
    let bits = mods.bits;
    assert(bits & a == a <==> bits | a == bits) by (bit_vector);
    assert((bits | a) & a == a) by (bit_vector);
    assert(bits & b == b ==> (bits | a) & b == b) by (bit_vector);
    assert(bits & (a | b) == (a | b) <==> bits & a == a && bits & b == b) by (bit_vector);
    assert(0u32 & a == a <==> a == 0) by (bit_vector);
}

/// The view of a key says all of it.
pub proof fn law_key_view(a: Key, b: Key)
    requires
        a@ == b@,
    ensures
        match a {
            Key::Character(text) => b matches Key::Character(t) && t@ == text@,
            Key::Named(name) => b == Key::Named(name),
        },
{
}

/// A key that went down or came up.
#[derive(PartialEq, Eq, Debug)]
pub struct KeyboardEvent {
    pub state: KeyState,
    pub key: Key,
    pub code: Code,
    pub location: Location,
    pub modifiers: Modifiers,
    pub repeat: bool,
    pub is_composing: bool,
}

} // verus!
