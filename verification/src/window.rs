//! The state of a window, and what it is created with.

use crate::utf16::{is_high_surrogate, is_low_surrogate, pair_char, to_wide, units_of, wide};
use vstd::prelude::*;

verus! {

/// The timer that paces the redrawing of a window.
pub const TIMER_EVENT_ID: usize = 1;

/// Milliseconds between two redraws: a 144th of a second, cut off to whole milliseconds.
pub const FRAME_INTERVAL: u32 = 6;

/// Asks the system to place a new window.
pub const CW_USEDEFAULT: i32 = -0x8000_0000;

pub const WS_OVERLAPPEDWINDOW: u32 = 0x00CF_0000;

pub const WS_SIZEBOX: u32 = 0x0004_0000;

pub const WS_MINIMIZEBOX: u32 = 0x0002_0000;

pub const WS_MAXIMIZEBOX: u32 = 0x0001_0000;

/// No redirection surface: the swap chain owns the presentation of the window.
pub const WS_EX_NOREDIRECTIONBITMAP: u32 = 0x0020_0000;

/// Whether the window is shown at its own size, the only state that is kept track of.
#[derive(Clone, Copy, PartialEq, Eq, Structural, Debug)]
pub enum WindowState {
    Normal,
}

/// A width and a height in pixels.
#[derive(Clone, Copy, PartialEq, Eq, Structural, Debug)]
pub struct PixelSize {
    pub width: i32,
    pub height: i32,
}

/// A rectangle in pixels.
#[derive(Clone, Copy, PartialEq, Eq, Structural, Debug)]
pub struct Rect {
    pub left: i32,
    pub top: i32,
    pub right: i32,
    pub bottom: i32,
}

impl Rect {
    /// Whether the sides of the rectangle can be written as pixels.
    pub open spec fn has_size(self) -> bool {
        i32::MIN <= self.right - self.left <= i32::MAX && i32::MIN <= self.bottom - self.top
            <= i32::MAX
    }

    /// The width and the height of the rectangle.
    pub fn size(&self) -> (size: PixelSize)
        requires
            self.has_size(),
        ensures
            size.width == self.right - self.left,
            size.height == self.bottom - self.top,
    {
        PixelSize { width: self.right - self.left, height: self.bottom - self.top }
    }
}

/// The sizes between which the user can resize a window.
#[derive(Clone, Copy, PartialEq, Eq, Structural, Debug)]
pub struct TrackLimits {
    pub min: PixelSize,
    pub max: PixelSize,
}

/// What a window is to be like.
#[derive(PartialEq, Eq, Debug)]
pub struct WindowDesc {
    pub title: Option<String>,
    pub size: PixelSize,
    pub position: Option<(i32, i32)>,
    pub resizeable: bool,
    pub minimize_button: bool,
    pub min_size: Option<PixelSize>,
    pub max_size: Option<PixelSize>,
}

/// What a window is created with. The size is that of the client area.
#[derive(PartialEq, Eq, Debug)]
pub struct CreateRequest {
    pub ex_style: u32,
    pub style: u32,
    pub title: Vec<u16>,
    pub x: i32,
    pub y: i32,
    pub client: Rect,
}

/// The style of a window: that of an ordinary one, without the resize border and the maximize
/// button if it has a fixed size, and without the minimize button if it is to have none.
pub open spec fn style_of(resizeable: bool, minimize_button: bool) -> int {
    0x00CF_0000 - (if resizeable {
        0int
    } else {
        0x0005_0000int
    }) - (if minimize_button {
        0int
    } else {
        0x0002_0000
    })
}

/// The style of a window with or without a resize border and a maximize button.
pub fn window_style(resizeable: bool, minimize_button: bool) -> (style: u32)
    ensures
        style == style_of(resizeable, minimize_button),
{
    assert(0x00CF_0000u32 & !(0x0004_0000u32 | 0x0001_0000u32) == 0x00CA_0000) by (bit_vector);
    assert(0x00CF_0000u32 & !0x0002_0000u32 == 0x00CD_0000) by (bit_vector);
    assert(0x00CA_0000u32 & !0x0002_0000u32 == 0x00C8_0000) by (bit_vector);
    let mut style: u32 = WS_OVERLAPPEDWINDOW;
    if !resizeable {
        style = style & !(WS_SIZEBOX | WS_MAXIMIZEBOX);
    }
    if !minimize_button {
        style = style & !WS_MINIMIZEBOX;
    }
    style
}

/// A window has the resize border and the maximize button exactly where it is resizable, the
/// minimize button exactly where it is to have one, and otherwise the style of every window.
pub proof fn law_style(resizeable: bool, minimize_button: bool, style: u32)
    requires
        style == style_of(resizeable, minimize_button),
    ensures
        style & 0x0004_0000 != 0 <==> resizeable,
        style & 0x0001_0000 != 0 <==> resizeable,
        style & 0x0002_0000 != 0 <==> minimize_button,
        style | 0x0007_0000 == 0x00CF_0000,
{
    assert(style == 0x00CF_0000 || style == 0x00CA_0000 || style == 0x00CD_0000 || style
        == 0x00C8_0000);
    assert(0x00CF_0000u32 & 0x0004_0000 != 0 && 0x00CF_0000u32 & 0x0001_0000 != 0 && 0x00CF_0000u32
        & 0x0002_0000 != 0 && 0x00CF_0000u32 | 0x0007_0000 == 0x00CF_0000) by (bit_vector);
    assert(0x00CA_0000u32 & 0x0004_0000 == 0 && 0x00CA_0000u32 & 0x0001_0000 == 0 && 0x00CA_0000u32
        & 0x0002_0000 != 0 && 0x00CA_0000u32 | 0x0007_0000 == 0x00CF_0000) by (bit_vector);
    assert(0x00CD_0000u32 & 0x0004_0000 != 0 && 0x00CD_0000u32 & 0x0001_0000 != 0 && 0x00CD_0000u32
        & 0x0002_0000 == 0 && 0x00CD_0000u32 | 0x0007_0000 == 0x00CF_0000) by (bit_vector);
    assert(0x00C8_0000u32 & 0x0004_0000 == 0 && 0x00C8_0000u32 & 0x0001_0000 == 0 && 0x00C8_0000u32
        & 0x0002_0000 == 0 && 0x00C8_0000u32 | 0x0007_0000 == 0x00CF_0000) by (bit_vector);
}

/// `style` with or without the resize border and the maximize button.
pub open spec fn resizable_style(style: u32, resizable: bool) -> u32 {
    if resizable {
        style | 0x0005_0000
    } else {
        style & !0x0005_0000u32
    }
}

/// Gives an existing window a resize border and a maximize button, or takes both.
pub fn restyle(style: u32, resizable: bool) -> (new: u32)
    ensures
        new == resizable_style(style, resizable),
{
    assert(0x0004_0000u32 | 0x0001_0000u32 == 0x0005_0000) by (bit_vector);
    if resizable {
        style | (WS_SIZEBOX | WS_MAXIMIZEBOX)
    } else {
        style & !(WS_SIZEBOX | WS_MAXIMIZEBOX)
    }
}

/// Making a window resizable or not touches the two bits of that and no other, does nothing the
/// second time, and is undone by the opposite where the window had both bits, or neither.
pub proof fn law_restyle(style: u32, resizable: bool)
    ensures
        resizable_style(style, resizable) & !0x0005_0000u32 == style & !0x0005_0000u32,
        resizable_style(style, resizable) & 0x0005_0000u32 == (if resizable {
            0x0005_0000u32
        } else {
            0
        }),
        resizable_style(resizable_style(style, resizable), resizable) == resizable_style(
            style,
            resizable,
        ),
        style & 0x0005_0000 == (if resizable {
            0
        } else {
            0x0005_0000u32
        }) ==> resizable_style(resizable_style(style, resizable), !resizable) == style,
{
    assert((style | 0x0005_0000) & !0x0005_0000u32 == style & !0x0005_0000u32) by (bit_vector);
    assert((style & !0x0005_0000u32) & !0x0005_0000u32 == style & !0x0005_0000u32) by (bit_vector);
    assert((style | 0x0005_0000) & 0x0005_0000 == 0x0005_0000) by (bit_vector);
    assert((style & !0x0005_0000u32) & 0x0005_0000 == 0) by (bit_vector);
    assert((style | 0x0005_0000) | 0x0005_0000 == style | 0x0005_0000) by (bit_vector);
    assert(style & 0x0005_0000 == 0 ==> (style | 0x0005_0000) & !0x0005_0000u32 == style)
        by (bit_vector);
    assert(style & 0x0005_0000 == 0x0005_0000 ==> (style & !0x0005_0000u32) | 0x0005_0000 == style)
        by (bit_vector);
}

/// What a window of this description is created with: the system places it where no position is
/// given, and a missing title is an empty one.
pub fn create_request(desc: &WindowDesc) -> (request: CreateRequest)
    ensures
        request.ex_style == WS_EX_NOREDIRECTIONBITMAP,
        request.style == style_of(desc.resizeable, desc.minimize_button),
        request.title@ == match desc.title {
            Some(title) => wide(title@),
            None => seq![0u16],
        },
        (request.x, request.y) == match desc.position {
            Some(position) => position,
            None => (CW_USEDEFAULT, CW_USEDEFAULT),
        },
        request.client == (Rect {
            left: 0,
            top: 0,
            right: desc.size.width,
            bottom: desc.size.height,
        }),
{
    let title: Vec<u16> = match &desc.title {
        Some(title) => to_wide(title.as_str()),
        None => {
            let mut empty: Vec<u16> = Vec::new();
            empty.push(0);
            assert(empty@ =~= seq![0u16]);
            empty
        },
    };
    let (x, y) = match desc.position {
        Some(position) => position,
        None => (CW_USEDEFAULT, CW_USEDEFAULT),
    };
    CreateRequest {
        ex_style: WS_EX_NOREDIRECTIONBITMAP,
        style: window_style(desc.resizeable, desc.minimize_button),
        title,
        x,
        y,
        client: Rect { left: 0, top: 0, right: desc.size.width, bottom: desc.size.height },
    }
}

/// The state of a window.
#[derive(Clone, Copy, PartialEq, Eq, Structural, Debug)]
pub struct WindowExtra {
    pub window_state: WindowState,
    pub min_size: Option<PixelSize>,
    pub max_size: Option<PixelSize>,
    pub cursor_hidden: bool,
    /// Whether the surface has to be configured before the next frame.
    pub needs_config: bool,
    /// When the last frame of animation was, in nanoseconds of a clock that never goes back.
    pub last_frame: Option<u64>,
    /// The first half of a surrogate pair, between the two messages that bring the halves.
    pub pending_high_surrogate: Option<u16>,
    pub next_timer_id: usize,
}

/// What one code unit of typed text does: the half that is then pending, and the character that
/// is complete.
pub open spec fn assemble(pending: Option<u16>, unit: u16) -> (Option<u16>, Option<char>) {
    if is_high_surrogate(unit) {
        (Some(unit), None)
    } else if is_low_surrogate(unit) {
        match pending {
            Some(high) => (None, Some(pair_char(high, unit))),
            None => (None, None),
        }
    } else {
        (None, Some(unit as char))
    }
}

/// The half that is pending after `units`, and the characters that came of them.
pub open spec fn assemble_all(pending: Option<u16>, units: Seq<u16>) -> (Option<u16>, Seq<char>)
    decreases units.len(),
{
    if units.len() == 0 {
        (pending, seq![])
    } else {
        let (next, c) = assemble(pending, units[0]);
        let (last, rest) = assemble_all(next, units.skip(1));
        match c {
            Some(c) => (last, seq![c] + rest),
            None => (last, rest),
        }
    }
}

/// One code unit of typed text. The first half of a pair waits, in the place of any other; the
/// second half completes the one that waits, and is lost where none does; any other code unit is a
/// character of its own, and whatever waited is lost.
pub proof fn law_halves(pending: Option<u16>, unit: u16)
    requires
        pending matches Some(high) ==> 0xD800 <= high <= 0xDBFF,
    ensures
        0xD800 <= unit <= 0xDBFF ==> assemble(pending, unit) == (Some(unit), None::<char>),
        !(0xD800 <= unit <= 0xDBFF) ==> assemble(pending, unit).0 is None,
        0xDC00 <= unit <= 0xDFFF && pending is None ==> assemble(pending, unit).1 is None,
        0xDC00 <= unit <= 0xDFFF && pending is Some ==> (assemble(pending, unit).1 matches Some(c)
            && c as int == 0x10000 + (pending->0 - 0xD800) * 0x400 + (unit - 0xDC00)),
        !(0xD800 <= unit <= 0xDFFF) ==> (assemble(pending, unit).1 matches Some(c) && c as int
            == unit as int),
{
}

/// Text that arrives as code units, one message each, comes out as it was typed, whatever was
/// pending before; nothing is then pending.
pub proof fn law_typed_text_arrives(pending: Option<u16>, text: Seq<char>)
    requires
        text.len() > 0,
    ensures
        assemble_all(pending, units_of(text)) == (None::<u16>, text),
    decreases text.len(),
{
    let units = units_of(text);
    let rest = text.drop_first();
    if text[0] as u32 >= 0x10000 {
        crate::utf16::lemma_pair_of_char(text[0]);
        assert(units.skip(1).skip(1) =~= units_of(rest));
        reveal_with_fuel(assemble_all, 3);
    } else {
        crate::utf16::lemma_unit_of_char(text[0]);
        assert(units.skip(1) =~= units_of(rest));
        reveal_with_fuel(assemble_all, 2);
    }
    if rest.len() > 0 {
        law_typed_text_arrives(None, rest);
    } else {
        assert(units_of(rest) =~= Seq::<u16>::empty());
    }
    assert(seq![text[0]] + rest =~= text);
}

impl WindowExtra {
    /// Only the first half of a pair is ever pending.
    pub open spec fn wf(self) -> bool {
        self.pending_high_surrogate matches Some(high) ==> is_high_surrogate(high)
    }

    /// The state of a new window.
    pub fn new(desc: &WindowDesc) -> (extra: WindowExtra)
        ensures
            extra.wf(),
            extra == (WindowExtra {
                window_state: WindowState::Normal,
                min_size: desc.min_size,
                max_size: desc.max_size,
                cursor_hidden: false,
                needs_config: true,
                last_frame: None,
                pending_high_surrogate: None,
                next_timer_id: TIMER_EVENT_ID,
            }),
    {
        WindowExtra {
            window_state: WindowState::Normal,
            min_size: desc.min_size,
            max_size: desc.max_size,
            cursor_hidden: false,
            needs_config: true,
            last_frame: None,
            pending_high_surrogate: None,
            next_timer_id: TIMER_EVENT_ID,
        }
    }

    /// Hands out the identifier of a new timer: each one later than the last, and none that of
    /// the timer for redrawing.
    pub fn next_timer_id(&mut self) -> (id: usize)
        requires
            old(self).next_timer_id < usize::MAX,
        ensures
            id == timer_id(old(self).next_timer_id as int),
            *final(self) == (WindowExtra { next_timer_id: (id + 1) as usize, ..*old(self) }),
    {
        let id: usize = if self.next_timer_id > TIMER_EVENT_ID + 1 {
            self.next_timer_id
        } else {
            TIMER_EVENT_ID + 1
        };
        self.next_timer_id = id + 1;
        id
    }

    /// Takes one code unit of typed text; a character comes of it where it completes one. The
    /// second half of a pair without the first is dropped, and so is the first without the
    /// second.
    pub fn code_unit(&mut self, unit: u16) -> (c: Option<char>)
        requires
            old(self).wf(),
        ensures
            final(self).wf(),
            c == assemble(old(self).pending_high_surrogate, unit).1,
            *final(self) == (WindowExtra {
                pending_high_surrogate: assemble(old(self).pending_high_surrogate, unit).0,
                ..*old(self)
            }),
    {
        if 0xD800 <= unit && unit < 0xDC00 {
            self.pending_high_surrogate = Some(unit);
            None
        } else if 0xDC00 <= unit && unit < 0xE000 {
            let c: Option<char> = match self.pending_high_surrogate {
                Some(high) => {
                    let code: u32 = 0x10000 + (high as u32 - 0xD800) * 0x400 + (unit as u32
                        - 0xDC00);
                    char::from_u32(code)
                },
                None => None,
            };
            self.pending_high_surrogate = None;
            c
        } else {
            self.pending_high_surrogate = None;
            char::from_u32(unit as u32)
        }
    }

    /// Notes a frame of animation at `now`, and says how long ago the last one was.
    pub fn tick(&mut self, now: u64) -> (elapsed: Option<u64>)
        ensures
            elapsed == match old(self).last_frame {
                Some(last) => Some(
                    if now > last {
                        (now - last) as u64
                    } else {
                        0
                    },
                ),
                None => None,
            },
            *final(self) == (WindowExtra { last_frame: Some(now), ..*old(self) }),
    {
        let elapsed: Option<u64> = match self.last_frame {
            Some(last) => if now > last {
                Some(now - last)
            } else {
                Some(0)
            },
            None => None,
        };
        self.last_frame = Some(now);
        elapsed
    }

    /// Takes note of a new size: the surface has to be configured for it.
    pub fn resized(&mut self, client: &Rect) -> (size: PixelSize)
        requires
            client.has_size(),
        ensures
            size.width == client.right - client.left,
            size.height == client.bottom - client.top,
            *final(self) == (WindowExtra { needs_config: true, ..*old(self) }),
    {
        self.needs_config = true;
        client.size()
    }

    /// The limits to the size of the window: those of the system, except where the window has
    /// its own.
    pub fn track_limits(&self, system: TrackLimits) -> (limits: TrackLimits)
        ensures
            limits.min == match self.min_size {
                Some(size) => size,
                None => system.min,
            },
            limits.max == match self.max_size {
                Some(size) => size,
                None => system.max,
            },
    {
        TrackLimits {
            min: match self.min_size {
                Some(size) => size,
                None => system.min,
            },
            max: match self.max_size {
                Some(size) => size,
                None => system.max,
            },
        }
    }
}

/// The identifier of a timer where `next` is the next one that was not handed out: that of the
/// timer for redrawing is passed over.
pub open spec fn timer_id(next: int) -> int {
    if next > TIMER_EVENT_ID {
        next
    } else {
        TIMER_EVENT_ID + 1
    }
}

/// The identifiers that `count` timers in a row get.
pub open spec fn timer_ids(next: int, count: nat) -> Seq<int>
    decreases count,
{
    if count == 0 {
        seq![]
    } else {
        let id = timer_id(next);
        seq![id] + timer_ids(id + 1, (count - 1) as nat)
    }
}

/// No two timers of a window share an identifier, and none has that of the timer for redrawing.
pub proof fn law_timer_ids_are_distinct(next: int, count: nat)
    ensures
        timer_ids(next, count).len() == count,
        forall|i: int|
            0 <= i < count ==> #[trigger] timer_ids(next, count)[i] > TIMER_EVENT_ID
                && timer_ids(next, count)[i] >= next,
        forall|i: int, j: int|
            0 <= i < j < count ==> #[trigger] timer_ids(next, count)[i] < #[trigger] timer_ids(
                next,
                count,
            )[j],
        forall|i: int|
            0 <= i < count ==> #[trigger] timer_ids(next, count)[i] == (if next > 2 {
                next
            } else {
                2
            }) + i,
    decreases count,
{
    if count > 0 {
        let id = timer_id(next);
        let rest = timer_ids(id + 1, (count - 1) as nat);
        law_timer_ids_are_distinct(id + 1, (count - 1) as nat);
        let all = timer_ids(next, count);
        assert(forall|i: int| 0 < i < count ==> #[trigger] all[i] == rest[i - 1]);
    }
}

} // verus!
