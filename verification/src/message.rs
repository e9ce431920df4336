//! Window messages: what each of them asks of the backend.

use vstd::prelude::*;

verus! {

pub const WM_CREATE: u32 = 0x0001;

pub const WM_DESTROY: u32 = 0x0002;

pub const WM_SIZE: u32 = 0x0005;

pub const WM_PAINT: u32 = 0x000F;

pub const WM_CLOSE: u32 = 0x0010;

pub const WM_ERASEBKGND: u32 = 0x0014;

pub const WM_SETCURSOR: u32 = 0x0020;

pub const WM_GETMINMAXINFO: u32 = 0x0024;

pub const WM_NCDESTROY: u32 = 0x0082;

pub const WM_GETDLGCODE: u32 = 0x0087;

pub const WM_KEYDOWN: u32 = 0x0100;

pub const WM_KEYUP: u32 = 0x0101;

pub const WM_CHAR: u32 = 0x0102;

pub const WM_UNICHAR: u32 = 0x0109;

pub const WM_IME_STARTCOMPOSITION: u32 = 0x010D;

pub const WM_IME_ENDCOMPOSITION: u32 = 0x010E;

pub const WM_IME_COMPOSITION: u32 = 0x010F;

pub const WM_TIMER: u32 = 0x0113;

pub const WM_MOUSEWHEEL: u32 = 0x020A;

pub const WM_POINTERUPDATE: u32 = 0x0245;

pub const WM_POINTERDOWN: u32 = 0x0246;

pub const WM_POINTERUP: u32 = 0x0247;

pub const WM_IME_SETCONTEXT: u32 = 0x0281;

pub const WM_DPICHANGED: u32 = 0x02E0;

/// Asks the window that owns the thread to create the child windows that wait for it.
pub const WM_ROSIN_CREATE_WINDOW: u32 = 0x8001;

/// The bit of `WM_IME_SETCONTEXT` that has the input method draw its own composition window.
/// Composed text is drawn by the widgets, so it is taken out.
pub const IS_SHOWUICOMPOSITIONWINDOW: u32 = 0x8000_0000;

/// The keys that the window wants for itself in a dialog: characters, arrows and Tab.
pub const DIALOG_KEYS: isize = 0x83;

#[derive(Clone, Copy, PartialEq, Eq, Structural, Debug)]
pub enum PointerEventKind {
    Down,
    Move,
    Up,
}

/// What a window message asks for.
#[derive(Clone, Copy, PartialEq, Eq, Structural, Debug)]
pub enum Reaction {
    /// Install the state of the window that the creation parameters point to.
    Install,
    /// A pointer event of the pointer with this identifier.
    Pointer(PointerEventKind, u32),
    /// The wheel was turned, by this many units of 1/120 notch, away from the user.
    Wheel(i16),
    /// A key went down.
    KeyDown { vk: u32, repeat: bool },
    /// A key came up.
    KeyUp { vk: u32 },
    /// One UTF-16 code unit of typed text.
    CodeUnit(u16),
    /// One typed character.
    Character(char),
    /// Nothing but this answer.
    Reply(isize),
    /// Move the windows of the input method to the caret.
    PositionIme,
    /// An input method committed or changed text, as the bits say.
    ImeComposition(u32),
    /// A composition ended.
    ImeEnd,
    /// The default procedure, with this `lparam`.
    Default(isize),
    /// The window has a new size.
    Resize,
    /// The window is to be painted.
    Paint,
    /// A frame of animation is due.
    Tick,
    /// The cursor is over the window.
    Cursor,
    /// The limits to the size of the window are asked for.
    TrackLimits,
    /// The window is to be closed.
    Close,
    /// The window is gone; leave the message loop.
    Quit,
    /// The last message: release the state of the window.
    Release,
}

/// Whether `code` is a Unicode scalar value.
pub open spec fn is_scalar_value(code: u32) -> bool {
    code < 0xD800 || 0xE000 <= code <= 0x10FFFF
}

/// The high word of a message parameter.
pub open spec fn high_word(wparam: usize) -> u16 {
    ((wparam >> 16) & 0xFFFF) as u16
}

/// `lparam` without the bit that shows the composition window. The flags are the low half.
pub open spec fn without_composition_window(lparam: isize) -> isize {
    (lparam as u32 & 0x7FFF_FFFF) as isize
}

/// What a message asks for, by its number and its parameters.
pub open spec fn reaction(msg: u32, wparam: usize, lparam: isize) -> Reaction {
    if msg == 0x0001 {
        Reaction::Install
    } else if 0x0245 <= msg <= 0x0247 {
        Reaction::Pointer(
            if msg == 0x0246 {
                PointerEventKind::Down
            } else if msg == 0x0247 {
                PointerEventKind::Up
            } else {
                PointerEventKind::Move
            },
            (wparam & 0xFFFF) as u32,
        )
    } else if msg == 0x020A {
        Reaction::Wheel(high_word(wparam) as i16)
    } else if msg == 0x0100 {
        Reaction::KeyDown { vk: wparam as u32, repeat: lparam & 0x4000_0000 != 0 }
    } else if msg == 0x0101 {
        Reaction::KeyUp { vk: wparam as u32 }
    } else if msg == 0x0102 {
        Reaction::CodeUnit(wparam as u16)
    } else if msg == 0x0109 {
        if wparam == 0xFFFF {
            Reaction::Reply(1)
        } else if is_scalar_value(wparam as u32) {
            Reaction::Character((wparam as u32) as char)
        } else {
            Reaction::Reply(0)
        }
    } else if msg == 0x0087 {
        Reaction::Reply(0x83)
    } else if msg == 0x010D {
        Reaction::PositionIme
    } else if msg == 0x010F {
        Reaction::ImeComposition(lparam as u32)
    } else if msg == 0x010E {
        Reaction::ImeEnd
    } else if msg == 0x0281 {
        Reaction::Default(without_composition_window(lparam))
    } else if msg == 0x0005 {
        Reaction::Resize
    } else if msg == 0x000F {
        Reaction::Paint
    } else if msg == 0x0113 {
        Reaction::Tick
    } else if msg == 0x8001 {
        Reaction::Reply(0)
    } else if msg == 0x0020 {
        Reaction::Cursor
    } else if msg == 0x0024 {
        Reaction::TrackLimits
    } else if msg == 0x0014 {
        Reaction::Reply(1)
    } else if msg == 0x0010 {
        Reaction::Close
    } else if msg == 0x0002 {
        Reaction::Quit
    } else if msg == 0x0082 {
        Reaction::Release
    } else {
        Reaction::Default(lparam)
    }
}

/// Decides what a window message asks for.
pub fn wndproc(msg: u32, wparam: usize, lparam: isize) -> (r: Reaction)
    ensures
        r == reaction(msg, wparam, lparam),
{
    if msg == WM_CREATE {
        Reaction::Install
    } else if msg == WM_POINTERDOWN || msg == WM_POINTERUPDATE || msg == WM_POINTERUP {
        let kind: PointerEventKind = if msg == WM_POINTERDOWN {
            PointerEventKind::Down
        } else if msg == WM_POINTERUP {
            PointerEventKind::Up
        } else {
            PointerEventKind::Move
        };
        Reaction::Pointer(kind, (wparam & 0xFFFF) as u32)
    } else if msg == WM_MOUSEWHEEL {
        let delta: u16 = ((wparam >> 16) & 0xFFFF) as u16;
        Reaction::Wheel(
            #[verifier::truncate]
            (delta as i16),
        )
    } else if msg == WM_KEYDOWN {
        Reaction::KeyDown {
            vk: #[verifier::truncate]
            (wparam as u32),
            repeat: lparam & 0x4000_0000 != 0,
        }
    } else if msg == WM_KEYUP {
        Reaction::KeyUp {
            vk: #[verifier::truncate]
            (wparam as u32),
        }
    } else if msg == WM_CHAR {
        Reaction::CodeUnit(
            #[verifier::truncate]
            (wparam as u16),
        )
    } else if msg == WM_UNICHAR {
        if wparam == 0xFFFF {
            Reaction::Reply(1)
        } else {
            let code: u32 = #[verifier::truncate]
            (wparam as u32);
            match char::from_u32(code) {
                Some(c) => Reaction::Character(c),
                None => Reaction::Reply(0),
            }
        }
    } else if msg == WM_GETDLGCODE {
        Reaction::Reply(DIALOG_KEYS)
    } else if msg == WM_IME_STARTCOMPOSITION {
        Reaction::PositionIme
    } else if msg == WM_IME_COMPOSITION {
        Reaction::ImeComposition(
            #[verifier::truncate]
            (lparam as u32),
        )
    } else if msg == WM_IME_ENDCOMPOSITION {
        Reaction::ImeEnd
    } else if msg == WM_IME_SETCONTEXT {
        let flags: u32 = #[verifier::truncate]
        (lparam as u32);
        assert(flags & !0x8000_0000u32 == flags & 0x7FFF_FFFF) by (bit_vector);
        Reaction::Default(
            #[verifier::truncate]
            ((flags & !IS_SHOWUICOMPOSITIONWINDOW) as isize),
        )
    } else if msg == WM_SIZE {
        Reaction::Resize
    } else if msg == WM_PAINT {
        Reaction::Paint
    } else if msg == WM_TIMER {
        Reaction::Tick
    } else if msg == WM_ROSIN_CREATE_WINDOW {
        Reaction::Reply(0)
    } else if msg == WM_SETCURSOR {
        Reaction::Cursor
    } else if msg == WM_DPICHANGED {
        Reaction::Default(lparam)
    } else if msg == WM_GETMINMAXINFO {
        Reaction::TrackLimits
    } else if msg == WM_ERASEBKGND {
        Reaction::Reply(1)
    } else if msg == WM_CLOSE {
        Reaction::Close
    } else if msg == WM_DESTROY {
        Reaction::Quit
    } else if msg == WM_NCDESTROY {
        Reaction::Release
    } else {
        Reaction::Default(lparam)
    }
}

/// What a message is answered with.
#[derive(Clone, Copy, PartialEq, Eq, Structural, Debug)]
pub enum Answer {
    /// This value.
    Value(isize),
    /// What the default procedure returns for the message with this `lparam`.
    FromDefault(isize),
}

/// The answer to the message that led to `reaction`, once that is done. The cursor is left to the
/// default procedure unless the window hides it; `lparam` is that of the message.
pub fn answer(reaction: Reaction, lparam: isize, cursor_hidden: bool) -> (a: Answer)
    ensures
        a == match reaction {
            Reaction::Reply(value) => Answer::Value(value),
            Reaction::Default(passed) => Answer::FromDefault(passed),
            Reaction::Cursor => if cursor_hidden {
                Answer::Value(1)
            } else {
                Answer::FromDefault(lparam)
            },
            _ => Answer::Value(0),
        },
{
    match reaction {
        Reaction::Reply(value) => Answer::Value(value),
        Reaction::Default(passed) => Answer::FromDefault(passed),
        Reaction::Cursor => if cursor_hidden {
            Answer::Value(1)
        } else {
            Answer::FromDefault(lparam)
        },
        _ => Answer::Value(0),
    }
}

/// The parameters of a message in terms of division.
proof fn lemma_parameters(wparam: usize, lparam: isize)
    ensures
        (wparam & 0xFFFF) as u32 as int == wparam as int % 0x10000,
        high_word(wparam) as int == (wparam as int / 0x10000) % 0x10000,
        wparam as u16 as int == wparam as int % 0x10000,
        wparam as u32 as int == wparam as int % 0x1_0000_0000,
        0 <= lparam ==> lparam as u32 as int == lparam as int % 0x1_0000_0000,
        0 <= lparam ==> (lparam & 0x4000_0000 != 0 <==> (lparam as int / 0x4000_0000) % 2 == 1),
{
    assert((wparam & 0xFFFF) == wparam % 0x10000) by (bit_vector);
    assert(((wparam >> 16) & 0xFFFF) == (wparam / 0x10000) % 0x10000) by (bit_vector);
    assert(wparam as u16 == wparam % 0x10000) by (bit_vector);
    let w = wparam as u64;
    assert(w as u32 == w % 0x1_0000_0000) by (bit_vector);
    if 0 <= lparam {
        let l = lparam as u64;
        assert(l as u32 == l % 0x1_0000_0000) by (bit_vector);
        assert(lparam >= 0 ==> (lparam & 0x4000_0000 != 0 <==> (lparam / 0x4000_0000) % 2 == 1))
            by (bit_vector);
    }
}

/// The number of a pointer is the low word of its messages. The wheel is a signed number in the
/// high word. A key is the low half, and repeats where bit 30 of the other parameter is set,
/// whatever its other bits are. A code unit is the low word.
pub proof fn law_input_messages(wparam: usize, lparam: isize)
    ensures
        ({
            let low = (wparam as int % 0x10000) as u32;
            &&& reaction(WM_POINTERDOWN, wparam, lparam) == Reaction::Pointer(
                PointerEventKind::Down,
                low,
            )
            &&& reaction(WM_POINTERUPDATE, wparam, lparam) == Reaction::Pointer(
                PointerEventKind::Move,
                low,
            )
            &&& reaction(WM_POINTERUP, wparam, lparam) == Reaction::Pointer(
                PointerEventKind::Up,
                low,
            )
        }),
        reaction(WM_MOUSEWHEEL, wparam, lparam) matches Reaction::Wheel(delta) && ({
            let high = (wparam as int / 0x10000) % 0x10000;
            delta as int == (if high < 0x8000 {
                high
            } else {
                high - 0x10000
            })
        }),
        reaction(WM_KEYDOWN, wparam, lparam) matches Reaction::KeyDown { vk, repeat } && vk as int
            == wparam as int % 0x1_0000_0000 && (repeat <==> lparam & 0x4000_0000 != 0),
        0 <= lparam ==> (reaction(WM_KEYDOWN, wparam, lparam) matches Reaction::KeyDown {
            vk,
            repeat,
        } && (repeat <==> (lparam as int / 0x4000_0000) % 2 == 1)),
        reaction(WM_KEYUP, wparam, lparam) matches Reaction::KeyUp { vk } && vk as int
            == wparam as int % 0x1_0000_0000,
        reaction(WM_CHAR, wparam, lparam) matches Reaction::CodeUnit(unit) && unit as int
            == wparam as int % 0x10000,
{
    lemma_parameters(wparam, lparam);
    let high = high_word(wparam);
    assert(high < 0x8000 ==> high as i16 == high) by (bit_vector);
    assert(high >= 0x8000 ==> high as i16 == high - 0x10000) by (bit_vector);
}

/// A whole character arrives where its number is that of one; the question whether such messages
/// are understood is answered with yes, and any other number is dropped.
pub proof fn law_character_messages(wparam: usize, lparam: isize)
    ensures
        ({
            let code = wparam as int % 0x1_0000_0000;
            let reaction = reaction(WM_UNICHAR, wparam, lparam);
            if wparam == 0xFFFF {
                reaction == Reaction::Reply(1)
            } else if code > 0x10FFFF || 0xD800 <= code <= 0xDFFF {
                reaction == Reaction::Reply(0)
            } else {
                reaction matches Reaction::Character(c) && c as int == code
            }
        }),
{
    lemma_parameters(wparam, lparam);
}

/// The messages of an input method start, change and end a composition; the bits of a change are
/// handed on as they are.
pub proof fn law_ime_messages(wparam: usize, lparam: isize)
    ensures
        reaction(WM_IME_STARTCOMPOSITION, wparam, lparam) == Reaction::PositionIme,
        reaction(WM_IME_COMPOSITION, wparam, lparam) == Reaction::ImeComposition(lparam as u32),
        0 <= lparam <= u32::MAX ==> (reaction(WM_IME_COMPOSITION, wparam, lparam)
            matches Reaction::ImeComposition(flags) && flags as int == lparam as int),
        reaction(WM_IME_ENDCOMPOSITION, wparam, lparam) == Reaction::ImeEnd,
{
}

/// The messages of the window itself, whatever their parameters are.
pub proof fn law_window_messages(wparam: usize, lparam: isize)
    ensures
        reaction(WM_CREATE, wparam, lparam) == Reaction::Install,
        reaction(WM_SIZE, wparam, lparam) == Reaction::Resize,
        reaction(WM_PAINT, wparam, lparam) == Reaction::Paint,
        reaction(WM_TIMER, wparam, lparam) == Reaction::Tick,
        reaction(WM_SETCURSOR, wparam, lparam) == Reaction::Cursor,
        reaction(WM_GETMINMAXINFO, wparam, lparam) == Reaction::TrackLimits,
        reaction(WM_CLOSE, wparam, lparam) == Reaction::Close,
        reaction(WM_DESTROY, wparam, lparam) == Reaction::Quit,
        reaction(WM_NCDESTROY, wparam, lparam) == Reaction::Release,
        reaction(WM_ERASEBKGND, wparam, lparam) == Reaction::Reply(1),
        reaction(WM_ROSIN_CREATE_WINDOW, wparam, lparam) == Reaction::Reply(0),
        reaction(WM_GETDLGCODE, wparam, lparam) == Reaction::Reply(0x83),
{
}

/// Whether a message is one that the window does not leave to the default procedure.
pub open spec fn is_handled(msg: u32) -> bool {
    msg == WM_CREATE || msg == WM_DESTROY || msg == WM_SIZE || msg == WM_PAINT || msg == WM_CLOSE
        || msg == WM_ERASEBKGND || msg == WM_SETCURSOR || msg == WM_GETMINMAXINFO || msg
        == WM_NCDESTROY || msg == WM_GETDLGCODE || msg == WM_KEYDOWN || msg == WM_KEYUP || msg
        == WM_CHAR || msg == WM_UNICHAR || msg == WM_IME_STARTCOMPOSITION || msg
        == WM_IME_ENDCOMPOSITION || msg == WM_IME_COMPOSITION || msg == WM_TIMER || msg
        == WM_MOUSEWHEEL || msg == WM_POINTERUPDATE || msg == WM_POINTERDOWN || msg == WM_POINTERUP
        || msg == WM_ROSIN_CREATE_WINDOW
}

/// Every other message goes to the default procedure, and all but the one that shows the
/// composition window go there as they are.
pub proof fn law_other_messages(msg: u32, wparam: usize, lparam: isize)
    ensures
        reaction(msg, wparam, lparam) is Default <==> !is_handled(msg),
        !is_handled(msg) && msg != WM_IME_SETCONTEXT ==> reaction(msg, wparam, lparam)
            == Reaction::Default(lparam),
{
}

/// The composition window is never shown by the default procedure, and the other flags of
/// `WM_IME_SETCONTEXT` are kept as they are.
pub proof fn law_composition_window_is_hidden(wparam: usize, lparam: isize)
    ensures
        reaction(0x0281, wparam, lparam) matches Reaction::Default(passed) && passed as u32
            & 0x8000_0000 == 0 && passed as u32 & 0x7FFF_FFFF == lparam as u32 & 0x7FFF_FFFF,
{
    let flags = lparam as u32;
    assert(flags & 0x7FFF_FFFF <= 0x7FFF_FFFF) by (bit_vector);
    assert((flags & 0x7FFF_FFFF) & 0x8000_0000 == 0) by (bit_vector);
    assert((flags & 0x7FFF_FFFF) & 0x7FFF_FFFF == flags & 0x7FFF_FFFF) by (bit_vector);
}

} // verus!
