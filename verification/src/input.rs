//! The mouse, the pen, the modifier keys and the cursor.

use crate::keyboard::{Modifiers, ALT, CAPS_LOCK, CONTROL, META, NUM_LOCK, SHIFT};
use vstd::prelude::*;

verus! {

/// How the system reports the state of a key: held where the number is negative, toggled where
/// its lowest bit is set.
pub trait KeyStateExt {
    fn is_down(&self) -> bool;

    fn is_toggled(&self) -> bool;
}

impl KeyStateExt for i16 {
    fn is_down(&self) -> (yes: bool)
        ensures
            yes == (*self < 0),
    {
        *self < 0
    }

    fn is_toggled(&self) -> (yes: bool)
        ensures
            yes == (*self & 1 != 0),
    {
        *self & 1 != 0
    }
}

/// The states of the modifier keys and of the locks, as the system reports them.
#[derive(Clone, Copy, PartialEq, Eq, Structural, Debug)]
pub struct KeyStates {
    pub control: i16,
    pub shift: i16,
    pub menu: i16,
    pub left_win: i16,
    pub right_win: i16,
    pub capital: i16,
    pub num_lock: i16,
}

/// Bits of which each is either missing or that of one modifier do not get in each other's way.
proof fn lemma_separate_bits(a: u32, b: u32, c: u32, d: u32, e: u32, f: u32)
    by (bit_vector)
    requires
        a == 0 || a == 0x008,
        b == 0 || b == 0x200,
        c == 0 || c == 0x001,
        d == 0 || d == 0x040,
        e == 0 || e == 0x004,
        f == 0 || f == 0x080,
    ensures
        ((((((0u32 | a) | b) | c) | d) | e) | f) & 0x008 == a,
        ((((((0u32 | a) | b) | c) | d) | e) | f) & 0x200 == b,
        ((((((0u32 | a) | b) | c) | d) | e) | f) & 0x001 == c,
        ((((((0u32 | a) | b) | c) | d) | e) | f) & 0x040 == d,
        ((((((0u32 | a) | b) | c) | d) | e) | f) & 0x004 == e,
        ((((((0u32 | a) | b) | c) | d) | e) | f) & 0x080 == f,
        ((((((0u32 | a) | b) | c) | d) | e) | f) & !0x2CDu32 == 0,
{
}

/// The bit `flag` where `on`, else none.
pub open spec fn bit_if(on: bool, flag: u32) -> u32 {
    if on {
        flag
    } else {
        0
    }
}

fn insert_if(mods: Modifiers, on: bool, flag: u32) -> (new: Modifiers)
    ensures
        new.bits == mods.bits | bit_if(on, flag),
{
    let mut new: Modifiers = mods;
    if on {
        new.insert(flag);
    } else {
        proof {
            let bits = mods.bits;
            assert(bits | 0 == bits) by (bit_vector);
        }
    }
    new
}

/// The modifiers that are in force: Control, Shift, Alt and either Windows key while they are
/// held, Caps Lock and Num Lock while they are on, and nothing else.
pub fn current_modifiers(keys: &KeyStates) -> (mods: Modifiers)
    ensures
        mods.has(CONTROL) == (keys.control < 0),
        mods.has(SHIFT) == (keys.shift < 0),
        mods.has(ALT) == (keys.menu < 0),
        mods.has(META) == (keys.left_win < 0 || keys.right_win < 0),
        mods.has(CAPS_LOCK) == (keys.capital & 1 != 0),
        mods.has(NUM_LOCK) == (keys.num_lock & 1 != 0),
        mods.bits & !0x2CDu32 == 0,
{
    let mut mods: Modifiers = Modifiers::empty();
    mods = insert_if(mods, keys.control.is_down(), CONTROL);
    mods = insert_if(mods, keys.shift.is_down(), SHIFT);
    mods = insert_if(mods, keys.menu.is_down(), ALT);
    mods = insert_if(mods, keys.left_win.is_down() || keys.right_win.is_down(), META);
    mods = insert_if(mods, keys.capital.is_toggled(), CAPS_LOCK);
    mods = insert_if(mods, keys.num_lock.is_toggled(), NUM_LOCK);
    proof {
        lemma_separate_bits(
            bit_if(keys.control < 0, CONTROL),
            bit_if(keys.shift < 0, SHIFT),
            bit_if(keys.menu < 0, ALT),
            bit_if(keys.left_win < 0 || keys.right_win < 0, META),
            bit_if(keys.capital & 1 != 0, CAPS_LOCK),
            bit_if(keys.num_lock & 1 != 0, NUM_LOCK),
        );
    }
    mods
}

pub const POINTER_FLAG_FIRSTBUTTON: u32 = 0x10;

pub const POINTER_FLAG_SECONDBUTTON: u32 = 0x20;

/// The pointer type of a pen.
pub const PT_PEN: i32 = 3;

#[derive(Clone, Copy, PartialEq, Eq, Structural, Debug)]
pub enum PointerButton {
    NoButton,
    Primary,
    Secondary,
}

#[derive(Clone, Copy, PartialEq, Eq, Structural, Debug)]
pub enum PointerType {
    Mouse,
    Pen,
}

/// The buttons that are held.
#[derive(Clone, Copy, PartialEq, Eq, Structural, Debug)]
pub struct PointerButtons {
    pub primary: bool,
    pub secondary: bool,
}

/// What the system reports of a pointer, with the place in the coordinates of the window.
#[derive(Clone, Copy, PartialEq, Eq, Structural, Debug)]
pub struct PointerInfo {
    pub x: i32,
    pub y: i32,
    pub flags: u32,
    pub pointer_type: i32,
}

/// What the system reports of a pen: the pressure from 0 to 1024, the tilt and the rotation in
/// degrees.
#[derive(Clone, Copy, PartialEq, Eq, Structural, Debug)]
pub struct PenInfo {
    pub pressure: u32,
    pub tilt_x: i32,
    pub tilt_y: i32,
    pub rotation: u32,
}

/// A pointer event. Only a pen has pressure, tilt and rotation of its own.
#[derive(Clone, Copy, PartialEq, Eq, Structural, Debug)]
pub struct PointerEvent {
    pub x: i32,
    pub y: i32,
    pub button: PointerButton,
    pub buttons: PointerButtons,
    pub mods: Modifiers,
    pub pointer_type: PointerType,
    pub pen: Option<PenInfo>,
}

/// The button that the flags of a pointer name; the primary one goes first.
pub open spec fn button_of(flags: u32) -> PointerButton {
    if flags & 0x10 != 0 {
        PointerButton::Primary
    } else if flags & 0x20 != 0 {
        PointerButton::Secondary
    } else {
        PointerButton::NoButton
    }
}

/// The button depends on the two bits of the buttons and on no other bit: any two reports with the
/// same bits for the buttons name the same button, and the second button is named only where the
/// first is up.
pub proof fn law_button(flags: u32, other: u32)
    ensures
        flags & 0x10 != 0 ==> button_of(flags) is Primary,
        flags & 0x10 == 0 && flags & 0x20 != 0 ==> button_of(flags) is Secondary,
        flags & 0x10 == 0 && flags & 0x20 == 0 ==> button_of(flags) is NoButton,
        flags & 0x30 == other & 0x30 ==> button_of(flags) == button_of(other),
{
    assert(flags & 0x30 == other & 0x30 ==> flags & 0x10 == other & 0x10 && flags & 0x20 == other
        & 0x20) by (bit_vector);
}

/// Whether more has to be asked about the pointer, because it is a pen.
pub fn is_pen(info: &PointerInfo) -> (yes: bool)
    ensures
        yes == (info.pointer_type == PT_PEN),
{
    info.pointer_type == PT_PEN
}

/// The event for what the system reports of a pointer; none where it reports nothing. A pen of
/// which it reports no more than that counts as a mouse.
pub fn pointer_event_from_msg(
    info: Option<PointerInfo>,
    pen: Option<PenInfo>,
    mods: Modifiers,
) -> (event: Option<PointerEvent>)
    ensures
        event is Some <==> info is Some,
        event matches Some(e) ==> {
            let i = info->0;
            &&& e.x == i.x && e.y == i.y
            &&& e.button == button_of(i.flags)
            &&& e.button is Primary <==> i.flags & POINTER_FLAG_FIRSTBUTTON != 0
            &&& e.button is Secondary <==> i.flags & POINTER_FLAG_FIRSTBUTTON == 0 && i.flags
                & POINTER_FLAG_SECONDBUTTON != 0
            &&& e.buttons.primary == (e.button is Primary)
            &&& e.buttons.secondary == (e.button is Secondary)
            &&& e.mods == mods
            &&& e.pen == (if i.pointer_type == PT_PEN {
                pen
            } else {
                None
            })
            &&& e.pointer_type == (if e.pen is Some {
                PointerType::Pen
            } else {
                PointerType::Mouse
            })
        },
{
    let info: PointerInfo = match info {
        Some(info) => info,
        None => {
            return None;
        },
    };
    let button: PointerButton = if info.flags & POINTER_FLAG_FIRSTBUTTON != 0 {
        PointerButton::Primary
    } else if info.flags & POINTER_FLAG_SECONDBUTTON != 0 {
        PointerButton::Secondary
    } else {
        PointerButton::NoButton
    };
    let buttons: PointerButtons = PointerButtons {
        primary: button == PointerButton::Primary,
        secondary: button == PointerButton::Secondary,
    };
    let mut event: PointerEvent = PointerEvent {
        x: info.x,
        y: info.y,
        button,
        buttons,
        mods,
        pointer_type: PointerType::Mouse,
        pen: None,
    };
    if is_pen(&info) && pen.is_some() {
        event.pointer_type = PointerType::Pen;
        event.pen = pen;
    }
    Some(event)
}

/// The cursors that widgets can ask for.
#[derive(Clone, Copy, PartialEq, Eq, Structural, Debug)]
pub enum CursorType {
    Default,
    ContextMenu,
    Help,
    Pointer,
    Crosshair,
    Text,
    VerticalText,
    Cell,
    Alias,
    Copy,
    Move,
    Grab,
    NotAllowed,
    Grabbing,
    ColResize,
    EWResize,
    RowResize,
    NSResize,
    NResize,
    SResize,
    EResize,
    WResize,
    NEResize,
    SEResize,
    NWResize,
    SWResize,
    NESWResize,
    NWSEResize,
    ZoomIn,
    ZoomOut,
}

pub const IDC_ARROW: u16 = 32512;

pub const IDC_IBEAM: u16 = 32513;

pub const IDC_CROSS: u16 = 32515;

pub const IDC_SIZENWSE: u16 = 32642;

pub const IDC_SIZENESW: u16 = 32643;

pub const IDC_SIZEWE: u16 = 32644;

pub const IDC_SIZENS: u16 = 32645;

pub const IDC_SIZEALL: u16 = 32646;

pub const IDC_NO: u16 = 32648;

pub const IDC_HAND: u16 = 32649;

pub const IDC_HELP: u16 = 32651;

/// The cursors that a system cursor stands for. The arrow also stands for those that the system
/// has nothing close to.
pub open spec fn stands_for(id: u16, cursor: CursorType) -> bool {
    if id == 32513 {
        cursor is Text || cursor is VerticalText
    } else if id == 32515 {
        cursor is Crosshair || cursor is Cell
    } else if id == 32642 {
        cursor is NWResize || cursor is SWResize || cursor is NWSEResize
    } else if id == 32643 {
        cursor is NEResize || cursor is SEResize || cursor is NESWResize
    } else if id == 32644 {
        cursor is ColResize || cursor is EWResize || cursor is EResize || cursor is WResize
    } else if id == 32645 {
        cursor is RowResize || cursor is NSResize || cursor is NResize || cursor is SResize
    } else if id == 32646 {
        cursor is Move || cursor is Grab || cursor is Grabbing
    } else if id == 32648 {
        cursor is NotAllowed
    } else if id == 32649 {
        cursor is Pointer
    } else if id == 32651 {
        cursor is Help
    } else {
        id == 32512 && (cursor is Default || cursor is ContextMenu || cursor is Alias
            || cursor is Copy || cursor is ZoomIn || cursor is ZoomOut)
    }
}

/// Every cursor has one system cursor: that of its shape where there is one, that of its axis for
/// the edges and corners of a window, and else the arrow.
pub proof fn law_cursor_shapes(cursor: CursorType, id: u16)
    ensures
        stands_for(id, cursor) <==> id == match cursor {
            CursorType::Text | CursorType::VerticalText => IDC_IBEAM,
            CursorType::Crosshair | CursorType::Cell => IDC_CROSS,
            CursorType::Move | CursorType::Grab | CursorType::Grabbing => IDC_SIZEALL,
            CursorType::NotAllowed => IDC_NO,
            CursorType::Pointer => IDC_HAND,
            CursorType::Help => IDC_HELP,
            CursorType::NResize
            | CursorType::SResize
            | CursorType::NSResize
            | CursorType::RowResize => IDC_SIZENS,
            CursorType::EResize
            | CursorType::WResize
            | CursorType::EWResize
            | CursorType::ColResize => IDC_SIZEWE,
            CursorType::NEResize | CursorType::SEResize | CursorType::NESWResize => IDC_SIZENESW,
            CursorType::NWResize | CursorType::SWResize | CursorType::NWSEResize => IDC_SIZENWSE,
            CursorType::Default
            | CursorType::ContextMenu
            | CursorType::Alias
            | CursorType::Copy
            | CursorType::ZoomIn
            | CursorType::ZoomOut => IDC_ARROW,
        },
{
}

/// The system cursor that is shown for `cursor`.
pub fn set_cursor(cursor: CursorType) -> (id: u16)
    ensures
        stands_for(id, cursor),
        forall|other: u16| stands_for(other, cursor) ==> other == id,
{
    match cursor {
        CursorType::Default => IDC_ARROW,
        CursorType::ContextMenu => IDC_ARROW,
        CursorType::Help => IDC_HELP,
        CursorType::Pointer => IDC_HAND,
        CursorType::Crosshair => IDC_CROSS,
        CursorType::Text => IDC_IBEAM,
        CursorType::VerticalText => IDC_IBEAM,
        CursorType::Cell => IDC_CROSS,
        CursorType::Alias => IDC_ARROW,
        CursorType::Copy => IDC_ARROW,
        CursorType::Move | CursorType::Grab => IDC_SIZEALL,
        CursorType::NotAllowed => IDC_NO,
        CursorType::Grabbing => IDC_SIZEALL,
        CursorType::ColResize | CursorType::EWResize => IDC_SIZEWE,
        CursorType::RowResize | CursorType::NSResize => IDC_SIZENS,
        CursorType::NResize => IDC_SIZENS,
        CursorType::SResize => IDC_SIZENS,
        CursorType::EResize => IDC_SIZEWE,
        CursorType::WResize => IDC_SIZEWE,
        CursorType::NEResize | CursorType::SEResize => IDC_SIZENESW,
        CursorType::NWResize | CursorType::SWResize => IDC_SIZENWSE,
        CursorType::NESWResize => IDC_SIZENESW,
        CursorType::NWSEResize => IDC_SIZENWSE,
        CursorType::ZoomIn => IDC_ARROW,
        CursorType::ZoomOut => IDC_ARROW,
    }
}

} // verus!
