//! A handle to a live window: what each operation on the window asks of the system.

use crate::input::CursorType;
use crate::input::{set_cursor, stands_for};
use crate::menu::{identifiers_fit, menu_commands, menu_entries, views, ContextMenu, MenuItem};
use crate::message::{WM_CLOSE, WM_ROSIN_CREATE_WINDOW};
use crate::utf16::{before_nul, decoded, from_wide, lossy, text_before_nul, to_wide, wide};
use crate::window::{resizable_style, restyle, PixelSize, Rect, WindowExtra, WindowState};
use crate::window::{timer_id, FRAME_INTERVAL, TIMER_EVENT_ID};
use vstd::prelude::*;

verus! {

pub const SW_SHOWNORMAL: i32 = 1;

pub const SW_MAXIMIZE: i32 = 3;

pub const SW_SHOWNOACTIVATE: i32 = 4;

pub const SW_SHOW: i32 = 5;

pub const SW_MINIMIZE: i32 = 6;

pub const SW_RESTORE: i32 = 9;

pub const SWP_NOSIZE: u32 = 0x01;

pub const SWP_NOMOVE: u32 = 0x02;

pub const SWP_NOZORDER: u32 = 0x04;

pub const SWP_NOACTIVATE: u32 = 0x10;

/// How a context menu is tracked: aligned to the top and the left, with either mouse button, and
/// with the choice as the result.
pub const TRACK_FLAGS: u32 = 0x102;

/// A window, by the number that the system knows it by.
#[derive(Clone, Copy, PartialEq, Eq, Structural, Debug)]
pub struct WindowHandle {
    pub hwnd: isize,
}

#[derive(Clone, Copy, PartialEq, Eq, Structural, Debug)]
pub enum HandleError {
    /// There is no window behind the handle.
    Unavailable,
}

/// Something that is asked of the system.
#[derive(PartialEq, Eq, Debug)]
pub enum Request {
    /// Show the window, as the command says.
    ShowWindow { hwnd: isize, command: i32 },
    /// Bring the window to the front.
    SetForeground { hwnd: isize },
    /// Give the focus to the desktop.
    SetForegroundDesktop,
    /// Post a message without parameters to the window.
    PostMessage { hwnd: isize, message: u32 },
    /// Leave the message loop.
    PostQuit { code: i32 },
    /// Move or resize the window, as far as the flags do not forbid it.
    SetWindowPos { hwnd: isize, x: i32, y: i32, width: i32, height: i32, flags: u32 },
    /// Replace the style of the window.
    SetStyle { hwnd: isize, style: isize },
    /// Replace the title of the window.
    SetTitle { hwnd: isize, title: Vec<u16> },
    /// Open a document or an address with the program for it.
    ShellOpen { hwnd: isize, target: Vec<u16>, show: i32 },
    /// Start a timer.
    SetTimer { hwnd: isize, id: usize, millis: u32 },
    /// Replace what is on the clipboard with a text, which takes so many bytes.
    SetClipboard { hwnd: isize, text: Vec<u16>, bytes: usize },
    /// Show the system cursor of this identifier.
    SetCursor { cursor: u16 },
}

/// The input handler that has the focus in a window, and the node that it belongs to.
pub struct InputSlot<N, H> {
    pub node: Option<N>,
    pub handler: Option<H>,
}

impl WindowHandle {
    /// A handle to the window of this number.
    pub fn new(hwnd: isize) -> (handle: WindowHandle)
        ensures
            handle.hwnd == hwnd,
    {
        WindowHandle { hwnd }
    }

    /// The number of the window, which is never zero.
    pub fn window_handle(&self) -> (number: Result<isize, HandleError>)
        ensures
            number == (if self.hwnd == 0 {
                Err(HandleError::Unavailable)
            } else {
                Ok(self.hwnd)
            }),
    {
        if self.hwnd == 0 {
            Err(HandleError::Unavailable)
        } else {
            Ok(self.hwnd)
        }
    }

    /// Gives the focus to an input handler of a node, or to none.
    pub fn set_input_handler<N, H>(
        &self,
        slot: &mut InputSlot<N, H>,
        id: Option<N>,
        handler: Option<H>,
    )
        ensures
            final(slot).node == id,
            final(slot).handler == handler,
    {
        slot.handler = handler;
        slot.node = id;
    }

    /// The size of the client area in pixels.
    pub fn get_physical_size(&self, client: &Rect) -> (size: PixelSize)
        requires
            client.has_size(),
        ensures
            size.width == client.right - client.left,
            size.height == client.bottom - client.top,
    {
        client.size()
    }

    /// The state of the window; a window whose state is not there counts as normal.
    pub fn get_window_state(&self, extra: Option<&WindowExtra>) -> (state: WindowState)
        ensures
            state == match extra {
                Some(e) => e.window_state,
                None => WindowState::Normal,
            },
    {
        match extra {
            Some(extra) => extra.window_state,
            None => WindowState::Normal,
        }
    }

    /// Brings the window to the front and shows it.
    pub fn activate(&self) -> (requests: Vec<Request>)
        ensures
            requests@ == seq![
                Request::SetForeground { hwnd: self.hwnd },
                Request::ShowWindow { hwnd: self.hwnd, command: SW_SHOWNOACTIVATE },
            ],
    {
        let mut requests: Vec<Request> = Vec::new();
        requests.push(Request::SetForeground { hwnd: self.hwnd });
        requests.push(Request::ShowWindow { hwnd: self.hwnd, command: SW_SHOWNOACTIVATE });
        requests
    }

    /// Gives the focus away; to the desktop, as no window can just give it up.
    pub fn deactivate(&self) -> (request: Request)
        ensures
            request == Request::SetForegroundDesktop,
    {
        Request::SetForegroundDesktop
    }

    /// Builds a context menu. For an item that is a submenu, `handles` has the native menu that
    /// was created for it, or zero where that failed.
    pub fn show_context_menu<C: Copy>(
        &self,
        items: &Vec<MenuItem<C>>,
        handles: &Vec<usize>,
    ) -> (menu: ContextMenu<C>)
        requires
            handles@.len() == items@.len(),
            identifiers_fit(items@, handles@),
        ensures
            views(menu.entries@) == menu_entries(items@, handles@, items@.len() as int),
            menu.commands@ == menu_commands(items@, handles@, items@.len() as int),
    {
        ContextMenu::build(items, handles)
    }

    /// Has a child window wait to be created, behind those that wait already, and asks for them
    /// to be created. A window whose state is gone keeps no list of them.
    pub fn create_window<D>(&self, pending: Option<&mut Vec<D>>, desc: D) -> (request: Request)
        ensures
            pending matches Some(list) ==> final(list)@ == (*list)@.push(desc),
            request == (Request::PostMessage { hwnd: self.hwnd, message: WM_ROSIN_CREATE_WINDOW }),
    {
        if let Some(list) = pending {
            list.push(desc);
        }
        Request::PostMessage { hwnd: self.hwnd, message: WM_ROSIN_CREATE_WINDOW }
    }

    /// Asks for the window to be closed.
    pub fn request_close(&self) -> (request: Request)
        ensures
            request == (Request::PostMessage { hwnd: self.hwnd, message: WM_CLOSE }),
    {
        Request::PostMessage { hwnd: self.hwnd, message: WM_CLOSE }
    }

    /// Asks for the application to be left.
    pub fn request_exit(&self) -> (request: Request)
        ensures
            request == (Request::PostQuit { code: 0 }),
    {
        Request::PostQuit { code: 0 }
    }

    /// Limits how large the user can make the window.
    pub fn set_max_size(&self, extra: &mut WindowExtra, size: Option<PixelSize>)
        ensures
            *final(extra) == (WindowExtra { max_size: size, ..*old(extra) }),
    {
        extra.max_size = size;
    }

    /// Limits how small the user can make the window.
    pub fn set_min_size(&self, extra: &mut WindowExtra, size: Option<PixelSize>)
        ensures
            *final(extra) == (WindowExtra { min_size: size, ..*old(extra) }),
    {
        extra.min_size = size;
    }

    /// Moves the window to a place in pixels, without resizing, raising or activating it.
    pub fn set_position(&self, x: i32, y: i32) -> (request: Request)
        ensures
            request == (Request::SetWindowPos {
                hwnd: self.hwnd,
                x,
                y,
                width: 0,
                height: 0,
                flags: 0x15,
            }),
    {
        assert(0x01u32 | 0x04 | 0x10 == 0x15) by (bit_vector);
        Request::SetWindowPos {
            hwnd: self.hwnd,
            x,
            y,
            width: 0,
            height: 0,
            flags: SWP_NOSIZE | SWP_NOZORDER | SWP_NOACTIVATE,
        }
    }

    /// Lets the user resize the window, or not; `style` is the style that the window has.
    pub fn set_resizable(&self, style: isize, resizable: bool) -> (request: Request)
        ensures
            request == (Request::SetStyle {
                hwnd: self.hwnd,
                style: resizable_style(style as u32, resizable) as isize,
            }),
    {
        let bits: u32 = #[verifier::truncate]
        (style as u32);
        let new: u32 = restyle(bits, resizable);
        Request::SetStyle {
            hwnd: self.hwnd,
            style: #[verifier::truncate]
            (new as isize),
        }
    }

    /// Resizes the window, in pixels, without moving, raising or activating it.
    pub fn set_size(&self, width: i32, height: i32) -> (request: Request)
        ensures
            request == (Request::SetWindowPos {
                hwnd: self.hwnd,
                x: 0,
                y: 0,
                width,
                height,
                flags: 0x16,
            }),
    {
        assert(0x02u32 | 0x04 | 0x10 == 0x16) by (bit_vector);
        Request::SetWindowPos {
            hwnd: self.hwnd,
            x: 0,
            y: 0,
            width,
            height,
            flags: SWP_NOMOVE | SWP_NOZORDER | SWP_NOACTIVATE,
        }
    }

    /// Replaces the title of the window.
    pub fn set_title(&self, title: &str) -> (request: Request)
        ensures
            request matches Request::SetTitle { hwnd, title: units } && hwnd == self.hwnd && units@
                == wide(title@),
    {
        Request::SetTitle { hwnd: self.hwnd, title: to_wide(title) }
    }

    /// Minimizes the window.
    pub fn minimize(&self) -> (request: Request)
        ensures
            request == (Request::ShowWindow { hwnd: self.hwnd, command: SW_MINIMIZE }),
    {
        Request::ShowWindow { hwnd: self.hwnd, command: SW_MINIMIZE }
    }

    /// Maximizes the window.
    pub fn maximize(&self) -> (request: Request)
        ensures
            request == (Request::ShowWindow { hwnd: self.hwnd, command: SW_MAXIMIZE }),
    {
        Request::ShowWindow { hwnd: self.hwnd, command: SW_MAXIMIZE }
    }

    /// Brings the window back to its own size.
    pub fn restore(&self) -> (request: Request)
        ensures
            request == (Request::ShowWindow { hwnd: self.hwnd, command: SW_RESTORE }),
    {
        Request::ShowWindow { hwnd: self.hwnd, command: SW_RESTORE }
    }

    /// Shows a cursor.
    pub fn set_cursor(&self, cursor: CursorType) -> (request: Request)
        ensures
            request matches Request::SetCursor { cursor: id } && stands_for(id, cursor),
    {
        Request::SetCursor { cursor: set_cursor(cursor) }
    }

    /// Hides the cursor while it is over the window.
    pub fn hide_cursor(&self, extra: &mut WindowExtra)
        ensures
            *final(extra) == (WindowExtra { cursor_hidden: true, ..*old(extra) }),
    {
        extra.cursor_hidden = true;
    }

    /// Shows the cursor again.
    pub fn unhide_cursor(&self, extra: &mut WindowExtra)
        ensures
            *final(extra) == (WindowExtra { cursor_hidden: false, ..*old(extra) }),
    {
        extra.cursor_hidden = false;
    }

    /// Puts a text on the clipboard, as NUL-terminated UTF-16.
    pub fn set_clipboard_text(&self, text: &str) -> (request: Request)
        requires
            2 * wide(text@).len() <= usize::MAX,
        ensures
            request matches Request::SetClipboard { hwnd, text: units, bytes } && hwnd == self.hwnd
                && units@ == wide(text@) && bytes == 2 * units@.len(),
    {
        let units: Vec<u16> = to_wide(text);
        let bytes: usize = units.len() * 2;
        Request::SetClipboard { hwnd: self.hwnd, text: units, bytes }
    }

    /// The text on the clipboard, where `units` is the block of memory that holds it: up to its
    /// first NUL, with U+FFFD in the place of each unpaired surrogate.
    pub fn get_clipboard_text(&self, units: Option<&[u16]>) -> (text: Option<String>)
        ensures
            match units {
                Some(u) => text matches Some(t) && t@ == lossy(decoded(before_nul(u@))),
                None => text is None,
            },
    {
        match units {
            Some(units) => Some(from_wide(units)),
            None => None,
        }
    }

    /// Opens an address with the program for it.
    pub fn open_url(&self, url: &str) -> (request: Request)
        ensures
            request matches Request::ShellOpen { hwnd, target, show } && hwnd == self.hwnd
                && target@ == wide(url@) && show == SW_SHOWNORMAL,
    {
        Request::ShellOpen { hwnd: self.hwnd, target: to_wide(url), show: SW_SHOWNORMAL }
    }

    /// Starts a timer, with the next identifier of the window; where its state is gone it is the
    /// timer for redrawing that is set anew. Delays are cut off at the longest one that can be
    /// written.
    pub fn timer(&self, extra: Option<&mut WindowExtra>, delay_millis: u128) -> (request: Request)
        requires
            extra matches Some(e) ==> (*e).next_timer_id < usize::MAX,
        ensures
            extra matches Some(e) ==> *final(e) == (WindowExtra {
                next_timer_id: (timer_id(e.next_timer_id as int) + 1) as usize,
                ..*e
            }),
            request == (Request::SetTimer {
                hwnd: self.hwnd,
                id: match extra {
                    Some(e) => timer_id(e.next_timer_id as int) as usize,
                    None => TIMER_EVENT_ID,
                },
                millis: if delay_millis < u32::MAX {
                    delay_millis as u32
                } else {
                    u32::MAX
                },
            }),
    {
        let id: usize = match extra {
            Some(extra) => extra.next_timer_id(),
            None => TIMER_EVENT_ID,
        };
        let millis: u32 = if delay_millis < u32::MAX as u128 {
            delay_millis as u32
        } else {
            u32::MAX
        };
        Request::SetTimer { hwnd: self.hwnd, id, millis }
    }

    /// Shows a window that was just created, and starts the timer that paces its redrawing.
    pub fn start(&self) -> (requests: Vec<Request>)
        ensures
            requests@ == seq![
                Request::ShowWindow { hwnd: self.hwnd, command: SW_SHOW },
                Request::SetTimer {
                    hwnd: self.hwnd,
                    id: TIMER_EVENT_ID,
                    millis: FRAME_INTERVAL,
                },
            ],
    {
        let mut requests: Vec<Request> = Vec::new();
        requests.push(Request::ShowWindow { hwnd: self.hwnd, command: SW_SHOW });
        requests.push(
            Request::SetTimer { hwnd: self.hwnd, id: TIMER_EVENT_ID, millis: FRAME_INTERVAL },
        );
        requests
    }
}

/// What stands behind a NUL is not part of a string.
proof fn lemma_before_nul_ignores_rest(units: Seq<u16>, rest: Seq<u16>)
    ensures
        before_nul(units.push(0) + rest) == before_nul(units.push(0)),
    decreases units.len(),
{
    let whole = units.push(0) + rest;
    if units.len() > 0 && units[0] != 0 {
        let tail = units.skip(1);
        assert(whole.skip(1) =~= tail.push(0) + rest);
        assert(units.push(0).skip(1) =~= tail.push(0));
        lemma_before_nul_ignores_rest(tail, rest);
    }
}

/// The clipboard gives back the text that was put on it, up to its first NUL character: all of
/// it where it has none. The block of memory may be longer than the text.
pub proof fn law_clipboard_round_trip(text: Seq<char>, rest: Seq<u16>)
    ensures
        lossy(decoded(before_nul(wide(text) + rest))) == text_before_nul(text),
        !text.contains('\0') ==> lossy(decoded(before_nul(wide(text) + rest))) == text,
{
    lemma_before_nul_ignores_rest(crate::utf16::units_of(text), rest);
    crate::utf16::law_wide_round_trip(text);
}

} // verus!
