use rosin_win::frame::{usable_format, Frame, FrameOutcome, FrameStage, TextureFormat};
use rosin_win::handle::{HandleError, InputSlot, Request, WindowHandle};
use rosin_win::input::{pointer_event_from_msg, is_pen, set_cursor};
use rosin_win::input::{CursorType, PenInfo, PointerButton, PointerInfo, PointerType};
use rosin_win::keyboard::{Modifiers, ALT};
use rosin_win::message::{answer, wndproc, Answer, PointerEventKind, Reaction};
use rosin_win::window::{create_request, restyle, window_style, PixelSize, Rect, TrackLimits};
use rosin_win::window::{WindowDesc, WindowExtra, WindowState, CW_USEDEFAULT};

fn desc() -> WindowDesc {
    WindowDesc {
        title: Some("Hi".to_string()),
        size: PixelSize { width: 640, height: 480 },
        position: None,
        resizeable: true,
        minimize_button: true,
        min_size: None,
        max_size: None,
    }
}

fn client(width: i32, height: i32) -> Rect {
    Rect { left: 0, top: 0, right: width, bottom: height }
}

const HANDLE: WindowHandle = WindowHandle { hwnd: 7 };

#[test]
fn messages_of_the_pointer_and_the_wheel() {
    assert_eq!(wndproc(0x0246, 0x12_0005, 0), Reaction::Pointer(PointerEventKind::Down, 5));
    assert_eq!(wndproc(0x0247, 5, 0), Reaction::Pointer(PointerEventKind::Up, 5));
    assert_eq!(wndproc(0x0245, 0xFFFF_FFFF, 0), Reaction::Pointer(PointerEventKind::Move, 0xFFFF));
    assert_eq!(wndproc(0x020A, 0x0078_0000, 0), Reaction::Wheel(120));
    assert_eq!(wndproc(0x020A, 0xFF88_0008, 0), Reaction::Wheel(-120));
}

#[test]
fn messages_of_the_keyboard() {
    assert_eq!(wndproc(0x0100, 0x41, 1), Reaction::KeyDown { vk: 0x41, repeat: false });
    assert_eq!(wndproc(0x0100, 0x41, 0x4000_0001), Reaction::KeyDown { vk: 0x41, repeat: true });
    assert_eq!(wndproc(0x0101, 0x41, 0xC000_0001), Reaction::KeyUp { vk: 0x41 });
    assert_eq!(wndproc(0x0102, 0x1_D83D, 0), Reaction::CodeUnit(0xD83D));
    assert_eq!(wndproc(0x0109, 0xFFFF, 0), Reaction::Reply(1));
    assert_eq!(wndproc(0x0109, 0x1F600, 0), Reaction::Character('\u{1F600}'));
    assert_eq!(wndproc(0x0109, 0xD800, 0), Reaction::Reply(0));
    assert_eq!(wndproc(0x0109, 0x11_0000, 0), Reaction::Reply(0));
    assert_eq!(wndproc(0x0087, 0, 0), Reaction::Reply(0x83));
}

#[test]
fn messages_of_the_input_method() {
    assert_eq!(wndproc(0x010D, 0, 0), Reaction::PositionIme);
    assert_eq!(wndproc(0x010F, 0, 0x808), Reaction::ImeComposition(0x808));
    assert_eq!(wndproc(0x010E, 0, 0), Reaction::ImeEnd);
    assert_eq!(wndproc(0x0281, 1, 0xC000_000F), Reaction::Default(0x4000_000F));
    assert_eq!(wndproc(0x0281, 1, 0x4000_000F), Reaction::Default(0x4000_000F));
}

#[test]
fn messages_of_the_window() {
    assert_eq!(wndproc(0x0001, 0, 0), Reaction::Install);
    assert_eq!(wndproc(0x0005, 0, 0), Reaction::Resize);
    assert_eq!(wndproc(0x000F, 0, 0), Reaction::Paint);
    assert_eq!(wndproc(0x0113, 1, 0), Reaction::Tick);
    assert_eq!(wndproc(0x8001, 0, 0), Reaction::Reply(0));
    assert_eq!(wndproc(0x0020, 0, 0), Reaction::Cursor);
    assert_eq!(wndproc(0x02E0, 0, 9), Reaction::Default(9));
    assert_eq!(wndproc(0x0024, 0, 0), Reaction::TrackLimits);
    assert_eq!(wndproc(0x0014, 0, 0), Reaction::Reply(1));
    assert_eq!(wndproc(0x0010, 0, 0), Reaction::Close);
    assert_eq!(wndproc(0x0002, 0, 0), Reaction::Quit);
    assert_eq!(wndproc(0x0082, 0, 0), Reaction::Release);
    assert_eq!(wndproc(0x1234, 0, -3), Reaction::Default(-3));
}

#[test]
fn answers_to_messages() {
    assert_eq!(answer(Reaction::Paint, 5, false), Answer::Value(0));
    assert_eq!(answer(Reaction::Reply(1), 5, false), Answer::Value(1));
    assert_eq!(answer(Reaction::Default(4), 5, false), Answer::FromDefault(4));
    assert_eq!(answer(Reaction::Cursor, 5, true), Answer::Value(1));
    assert_eq!(answer(Reaction::Cursor, 5, false), Answer::FromDefault(5));
}

#[test]
fn styles_of_new_windows() {
    assert_eq!(window_style(true, true), 0x00CF_0000);
    assert_eq!(window_style(false, true), 0x00CA_0000);
    assert_eq!(window_style(true, false), 0x00CD_0000);
    assert_eq!(window_style(false, false), 0x00C8_0000);
}

#[test]
fn styles_of_existing_windows() {
    assert_eq!(restyle(0x10CF_0000, false), 0x10CA_0000);
    assert_eq!(restyle(0x10CA_0000, true), 0x10CF_0000);
    assert_eq!(restyle(0x10CA_0000, false), 0x10CA_0000);
    assert_eq!(restyle(restyle(0x10CF_0000, false), true), 0x10CF_0000);
    assert_eq!(
        HANDLE.set_resizable(0x10CF_0000, false),
        Request::SetStyle { hwnd: 7, style: 0x10CA_0000 }
    );
}

#[test]
fn what_windows_are_created_with() {
    let request = create_request(&desc());
    assert_eq!(request.ex_style, 0x0020_0000);
    assert_eq!(request.style, 0x00CF_0000);
    assert_eq!(request.title, vec![0x48, 0x69, 0]);
    assert_eq!((request.x, request.y), (i32::MIN, i32::MIN));
    assert_eq!(CW_USEDEFAULT, i32::MIN);
    assert_eq!(request.client, client(640, 480));
    let fixed = WindowDesc { title: None, position: Some((3, -4)), resizeable: false, ..desc() };
    let request = create_request(&fixed);
    assert_eq!(request.style, 0x00CA_0000);
    assert_eq!(request.title, vec![0]);
    assert_eq!((request.x, request.y), (3, -4));
}

#[test]
fn the_state_of_a_new_window() {
    let min = PixelSize { width: 100, height: 50 };
    let extra = WindowExtra::new(&WindowDesc { min_size: Some(min), ..desc() });
    assert_eq!(
        extra,
        WindowExtra {
            window_state: WindowState::Normal,
            min_size: Some(min),
            max_size: None,
            cursor_hidden: false,
            needs_config: true,
            last_frame: None,
            pending_high_surrogate: None,
            next_timer_id: 1,
        }
    );
}

#[test]
fn timers_get_identifiers_of_their_own() {
    let mut extra = WindowExtra::new(&desc());
    assert_eq!(extra.next_timer_id(), 2);
    assert_eq!(extra.next_timer_id(), 3);
    extra.next_timer_id = 0;
    assert_eq!(extra.next_timer_id(), 2);
    assert_eq!(
        HANDLE.timer(Some(&mut extra), 250),
        Request::SetTimer { hwnd: 7, id: 3, millis: 250 }
    );
    assert_eq!(extra.next_timer_id, 4);
    assert_eq!(HANDLE.timer(None, 250), Request::SetTimer { hwnd: 7, id: 1, millis: 250 });
    assert_eq!(
        HANDLE.timer(None, u128::MAX),
        Request::SetTimer { hwnd: 7, id: 1, millis: u32::MAX }
    );
}

#[test]
fn typed_text_arrives() {
    let text = "a\u{1F600}\u{4f60}\u{10FFFF}";
    let mut extra = WindowExtra::new(&desc());
    extra.pending_high_surrogate = Some(0xD800);
    let typed: String = text.encode_utf16().filter_map(|unit| extra.code_unit(unit)).collect();
    assert_eq!(typed, text);
    assert_eq!(extra.pending_high_surrogate, None);
}

#[test]
fn halves_of_pairs_are_dropped() {
    let mut extra = WindowExtra::new(&desc());
    assert_eq!(extra.code_unit(0xDC00), None);
    assert_eq!(extra.code_unit(0xD83D), None);
    assert_eq!(extra.pending_high_surrogate, Some(0xD83D));
    assert_eq!(extra.code_unit(0x41), Some('A'));
    assert_eq!(extra.code_unit(0xDE00), None);
    assert_eq!(extra.code_unit(0xD800), None);
    assert_eq!(extra.code_unit(0xD83D), None);
    assert_eq!(extra.code_unit(0xDE00), Some('\u{1F600}'));
}

#[test]
fn frames_of_animation() {
    let mut extra = WindowExtra::new(&desc());
    assert_eq!(extra.tick(100), None);
    assert_eq!(extra.tick(116), Some(16));
    assert_eq!(extra.tick(116), Some(0));
    assert_eq!(extra.tick(90), Some(0));
    assert_eq!(extra.last_frame, Some(90));
}

#[test]
fn new_sizes() {
    let mut extra = WindowExtra::new(&desc());
    extra.needs_config = false;
    let size = extra.resized(&Rect { left: 10, top: 20, right: 110, bottom: 70 });
    assert_eq!(size, PixelSize { width: 100, height: 50 });
    assert!(extra.needs_config);
    assert_eq!(HANDLE.get_physical_size(&client(3, 4)), PixelSize { width: 3, height: 4 });
}

#[test]
fn limits_of_the_size() {
    let system = TrackLimits {
        min: PixelSize { width: 1, height: 2 },
        max: PixelSize { width: 3000, height: 2000 },
    };
    let mut extra = WindowExtra::new(&desc());
    assert_eq!(extra.track_limits(system), system);
    HANDLE.set_min_size(&mut extra, Some(PixelSize { width: 10, height: 20 }));
    HANDLE.set_max_size(&mut extra, Some(PixelSize { width: 30, height: 40 }));
    assert_eq!(
        extra.track_limits(system),
        TrackLimits {
            min: PixelSize { width: 10, height: 20 },
            max: PixelSize { width: 30, height: 40 },
        }
    );
    HANDLE.set_min_size(&mut extra, None);
    assert_eq!(extra.track_limits(system).min, system.min);
}

#[test]
fn handles_without_a_window() {
    assert_eq!(WindowHandle::new(0).window_handle(), Err(HandleError::Unavailable));
    assert_eq!(WindowHandle::new(-5).window_handle(), Ok(-5));
}

#[test]
fn requests_of_a_handle() {
    assert_eq!(
        HANDLE.activate(),
        vec![
            Request::SetForeground { hwnd: 7 },
            Request::ShowWindow { hwnd: 7, command: 4 },
        ]
    );
    assert_eq!(
        HANDLE.start(),
        vec![
            Request::ShowWindow { hwnd: 7, command: 5 },
            Request::SetTimer { hwnd: 7, id: 1, millis: 1000 / 144 },
        ]
    );
    assert_eq!(HANDLE.deactivate(), Request::SetForegroundDesktop);
    assert_eq!(HANDLE.request_close(), Request::PostMessage { hwnd: 7, message: 0x10 });
    assert_eq!(HANDLE.request_exit(), Request::PostQuit { code: 0 });
    assert_eq!(HANDLE.minimize(), Request::ShowWindow { hwnd: 7, command: 6 });
    assert_eq!(HANDLE.maximize(), Request::ShowWindow { hwnd: 7, command: 3 });
    assert_eq!(HANDLE.restore(), Request::ShowWindow { hwnd: 7, command: 9 });
    assert_eq!(
        HANDLE.set_position(-3, 4),
        Request::SetWindowPos { hwnd: 7, x: -3, y: 4, width: 0, height: 0, flags: 0x15 }
    );
    assert_eq!(
        HANDLE.set_size(30, 40),
        Request::SetWindowPos { hwnd: 7, x: 0, y: 0, width: 30, height: 40, flags: 0x16 }
    );
    assert_eq!(
        HANDLE.set_title("T\u{fc}r"),
        Request::SetTitle { hwnd: 7, title: vec![0x54, 0xFC, 0x72, 0] }
    );
    assert_eq!(
        HANDLE.open_url("a:"),
        Request::ShellOpen { hwnd: 7, target: vec![0x61, 0x3A, 0], show: 1 }
    );
    assert_eq!(HANDLE.set_cursor(CursorType::Text), Request::SetCursor { cursor: 32513 });
}

#[test]
fn child_windows_wait_in_order() {
    let mut pending = vec!["first"];
    let request = HANDLE.create_window(Some(&mut pending), "second");
    assert_eq!(request, Request::PostMessage { hwnd: 7, message: 0x8001 });
    assert_eq!(pending, vec!["first", "second"]);
    let request = HANDLE.create_window(None, "third");
    assert_eq!(request, Request::PostMessage { hwnd: 7, message: 0x8001 });
}

#[test]
fn states_of_a_handle() {
    let mut extra = WindowExtra::new(&desc());
    assert_eq!(HANDLE.get_window_state(Some(&extra)), WindowState::Normal);
    assert_eq!(HANDLE.get_window_state(None), WindowState::Normal);
    HANDLE.hide_cursor(&mut extra);
    assert!(extra.cursor_hidden);
    HANDLE.unhide_cursor(&mut extra);
    assert!(!extra.cursor_hidden);
    let mut slot = InputSlot { node: Some(1), handler: None };
    HANDLE.set_input_handler(&mut slot, Some(2), Some("handler"));
    assert_eq!((slot.node, slot.handler), (Some(2), Some("handler")));
    HANDLE.set_input_handler(&mut slot, None, None);
    assert_eq!((slot.node, slot.handler), (None, None));
}

#[test]
fn the_clipboard_gives_back_what_was_put_on_it() {
    for text in ["", "plain", "\u{1F600} \u{4f60}"] {
        match HANDLE.set_clipboard_text(text) {
            Request::SetClipboard { hwnd, text: mut units, bytes } => {
                assert_eq!(hwnd, 7);
                assert_eq!(bytes, 2 * units.len());
                assert_eq!(units.last(), Some(&0));
                units.extend([0x78, 0x79]);
                assert_eq!(HANDLE.get_clipboard_text(Some(&units)), Some(text.to_string()));
            }
            other => panic!("{other:?}"),
        }
    }
    assert_eq!(HANDLE.get_clipboard_text(None), None);
}

#[test]
fn pointer_events() {
    let mods = Modifiers { bits: ALT };
    let info = PointerInfo { x: 3, y: -4, flags: 0x10, pointer_type: 4 };
    let event = pointer_event_from_msg(Some(info), None, mods).unwrap();
    assert_eq!((event.x, event.y), (3, -4));
    assert_eq!(event.button, PointerButton::Primary);
    assert!(event.buttons.primary && !event.buttons.secondary);
    assert_eq!(event.mods, mods);
    assert_eq!(event.pointer_type, PointerType::Mouse);
    assert_eq!(event.pen, None);
    let both = PointerInfo { flags: 0x36, ..info };
    assert_eq!(pointer_event_from_msg(Some(both), None, mods).unwrap().button, PointerButton::Primary);
    let second = PointerInfo { flags: 0x26, ..info };
    let event = pointer_event_from_msg(Some(second), None, mods).unwrap();
    assert_eq!(event.button, PointerButton::Secondary);
    assert!(!event.buttons.primary && event.buttons.secondary);
    let hover = PointerInfo { flags: 0x06, ..info };
    let event = pointer_event_from_msg(Some(hover), None, mods).unwrap();
    assert_eq!(event.button, PointerButton::NoButton);
    assert!(!event.buttons.primary && !event.buttons.secondary);
    assert_eq!(pointer_event_from_msg(None, None, mods), None);
}

#[test]
fn pens() {
    let mods = Modifiers { bits: 0 };
    let pen = PenInfo { pressure: 512, tilt_x: -45, tilt_y: 30, rotation: 90 };
    let info = PointerInfo { x: 0, y: 0, flags: 0, pointer_type: 3 };
    assert!(is_pen(&info));
    let event = pointer_event_from_msg(Some(info), Some(pen), mods).unwrap();
    assert_eq!(event.pointer_type, PointerType::Pen);
    assert_eq!(event.pen, Some(pen));
    let event = pointer_event_from_msg(Some(info), None, mods).unwrap();
    assert_eq!(event.pointer_type, PointerType::Mouse);
    let mouse = PointerInfo { pointer_type: 4, ..info };
    assert!(!is_pen(&mouse));
    assert_eq!(pointer_event_from_msg(Some(mouse), Some(pen), mods).unwrap().pen, None);
}

#[test]
fn cursors() {
    assert_eq!(set_cursor(CursorType::Default), 32512);
    assert_eq!(set_cursor(CursorType::ZoomIn), 32512);
    assert_eq!(set_cursor(CursorType::VerticalText), 32513);
    assert_eq!(set_cursor(CursorType::Cell), 32515);
    assert_eq!(set_cursor(CursorType::SWResize), 32642);
    assert_eq!(set_cursor(CursorType::NEResize), 32643);
    assert_eq!(set_cursor(CursorType::ColResize), 32644);
    assert_eq!(set_cursor(CursorType::NResize), 32645);
    assert_eq!(set_cursor(CursorType::Grabbing), 32646);
    assert_eq!(set_cursor(CursorType::NotAllowed), 32648);
    assert_eq!(set_cursor(CursorType::Pointer), 32649);
    assert_eq!(set_cursor(CursorType::Help), 32651);
}

#[test]
fn usable_formats() {
    let (rgba, bgra, other) = (TextureFormat::Rgba8Unorm, TextureFormat::Bgra8Unorm, TextureFormat::Other);
    assert_eq!(usable_format(&vec![]), None);
    assert_eq!(usable_format(&vec![other, other]), None);
    assert_eq!(usable_format(&vec![other, bgra, rgba]), Some(1));
    assert_eq!(usable_format(&vec![rgba, bgra]), Some(0));
}

#[test]
fn the_first_frame() {
    let mut needs_config = true;
    let mut frame = Frame::begin(&client(30, 20), false, needs_config);
    assert_eq!((frame.width, frame.height), (30, 20));
    let formats = FrameOutcome::Formats(vec![TextureFormat::Other, TextureFormat::Bgra8Unorm]);
    let steps = [
        (FrameStage::CreateSurface, FrameOutcome::Done),
        (FrameStage::QueryFormats, formats),
        (FrameStage::Configure(1), FrameOutcome::Done),
        (FrameStage::AcquireTexture, FrameOutcome::Done),
        (FrameStage::Paint, FrameOutcome::Done),
        (FrameStage::Present, FrameOutcome::Done),
        (FrameStage::Finished, FrameOutcome::Done),
    ];
    for (stage, outcome) in steps {
        assert_eq!(frame.stage, stage);
        frame.advance(&outcome, &mut needs_config);
    }
    assert_eq!(frame.stage, FrameStage::Finished);
    assert!(!needs_config);
}

#[test]
fn frames_that_begin_later() {
    assert_eq!(Frame::begin(&client(1, 1), true, true).stage, FrameStage::QueryFormats);
    assert_eq!(Frame::begin(&client(1, 1), true, false).stage, FrameStage::AcquireTexture);
    assert_eq!(Frame::begin(&client(0, 9), true, true).stage, FrameStage::Finished);
    assert_eq!(Frame::begin(&client(9, 0), false, true).stage, FrameStage::Finished);
    let flipped = Rect { left: 5, top: 0, right: 2, bottom: 4 };
    let frame = Frame::begin(&flipped, true, false);
    assert_eq!((frame.width, frame.height), (0, 4));
    assert_eq!(frame.stage, FrameStage::AcquireTexture);
}

#[test]
fn lost_frames_configure_the_surface_again() {
    for lost in [FrameStage::AcquireTexture, FrameStage::Paint] {
        let mut needs_config = false;
        let mut frame = Frame::begin(&client(1, 1), true, needs_config);
        while frame.stage != lost {
            frame.advance(&FrameOutcome::Done, &mut needs_config);
        }
        frame.advance(&FrameOutcome::Failed, &mut needs_config);
        assert_eq!(frame.stage, FrameStage::Finished);
        assert!(needs_config);
        assert_eq!(Frame::begin(&client(1, 1), true, needs_config).stage, FrameStage::QueryFormats);
    }
}

#[test]
fn frames_without_a_surface_or_a_format() {
    let mut needs_config = true;
    let mut frame = Frame::begin(&client(1, 1), false, needs_config);
    frame.advance(&FrameOutcome::Failed, &mut needs_config);
    assert_eq!(frame.stage, FrameStage::Finished);
    assert!(needs_config);
    let mut frame = Frame::begin(&client(1, 1), true, needs_config);
    frame.advance(&FrameOutcome::Formats(vec![TextureFormat::Other]), &mut needs_config);
    assert_eq!(frame.stage, FrameStage::Finished);
    assert!(needs_config);
}
