use rosin_win::dialog::{dialog_response, fatal_error, DialogKind, DialogOutcome, DialogRequest};
use rosin_win::dialog::{FileDialogResponse, MessageBox};
use rosin_win::handle::WindowHandle;
use rosin_win::ime::{Action, SelectionUnit};
use rosin_win::launch::{AppLauncher, Launch, LaunchError, LaunchStage, Outcome};
use rosin_win::menu::{ContextMenu, MenuChoice, MenuEntry, MenuItem, MenuTarget, StandardAction};
use rosin_win::utf16::{encode_utf16, to_wide};

const HANDLE: WindowHandle = WindowHandle { hwnd: 7 };

fn action(title: &str, command: u32) -> MenuItem<u32> {
    MenuItem::Action { title: title.to_string(), command, enabled: true, selected: false }
}

fn submenu(title: &str, items: Vec<MenuItem<u32>>) -> MenuItem<u32> {
    MenuItem::Submenu { title: title.to_string(), items, enabled: true }
}

fn entry(target: MenuTarget, flags: u32, id: usize, title: &str) -> MenuEntry {
    MenuEntry { target, flags, id, title: Some(to_wide(title)) }
}

#[test]
fn entries_of_a_menu() {
    let items = vec![
        action("Run", 10),
        MenuItem::Separator,
        submenu("More", vec![action("A", 20), MenuItem::Separator, action("B", 21)]),
        MenuItem::Standard(StandardAction::Copy),
        MenuItem::Standard(StandardAction::Cut),
        MenuItem::Standard(StandardAction::Paste),
        MenuItem::Standard(StandardAction::SelectAll),
    ];
    let menu = HANDLE.show_context_menu(&items, &vec![0, 0, 77, 0, 0, 0, 0]);
    assert_eq!(
        menu.entries,
        vec![
            entry(MenuTarget::Root, 0, 1000, "Run"),
            MenuEntry { target: MenuTarget::Root, flags: 0x800, id: 0, title: None },
            entry(MenuTarget::Submenu(2), 0, 2000, "A"),
            entry(MenuTarget::Submenu(2), 0, 2002, "B"),
            entry(MenuTarget::Root, 0x10, 77, "More"),
            entry(MenuTarget::Root, 0, 1, "Copy"),
            entry(MenuTarget::Root, 0, 2, "Cut"),
            entry(MenuTarget::Root, 0, 3, "Paste"),
            entry(MenuTarget::Root, 0, 4, "Select All"),
        ]
    );
    assert_eq!(menu.commands.len(), 3);
}

#[test]
fn flags_of_entries() {
    let mut items = Vec::new();
    for (enabled, selected) in [(true, false), (true, true), (false, false), (false, true)] {
        items.push(MenuItem::Action { title: String::new(), command: 0u32, enabled, selected });
    }
    items.push(MenuItem::Submenu { title: String::new(), items: vec![], enabled: false });
    let menu = ContextMenu::build(&items, &vec![0, 0, 0, 0, 9]);
    let flags: Vec<u32> = menu.entries.iter().map(|entry| entry.flags).collect();
    assert_eq!(flags, vec![0, 8, 2, 0xA, 0x12]);
}

#[test]
fn choices_of_a_menu() {
    let items = vec![
        action("Run", 10),
        submenu("More", vec![action("A", 20), MenuItem::Separator, action("B", 21)]),
        MenuItem::Standard(StandardAction::Copy),
        action("Stop", 11),
    ];
    let menu = ContextMenu::build(&items, &vec![0, 5, 0, 0]);
    assert_eq!(menu.choice(0), MenuChoice::Dismissed);
    assert_eq!(menu.choice(1000), MenuChoice::Command(10));
    assert_eq!(menu.choice(1003), MenuChoice::Command(11));
    assert_eq!(menu.choice(2000), MenuChoice::Command(20));
    assert_eq!(menu.choice(2002), MenuChoice::Command(21));
    assert_eq!(menu.choice(2001), MenuChoice::Unknown);
    assert_eq!(menu.choice(1), MenuChoice::Edit(Action::Copy));
    assert_eq!(menu.choice(2), MenuChoice::Edit(Action::Cut));
    assert_eq!(menu.choice(3), MenuChoice::Edit(Action::Paste));
    assert_eq!(menu.choice(4), MenuChoice::Edit(Action::Select(SelectionUnit::All)));
    assert_eq!(menu.choice(5), MenuChoice::Unknown);
    assert_eq!(menu.choice(-1), MenuChoice::Unknown);
}

#[test]
fn a_submenu_without_a_native_menu_is_left_out() {
    let items = vec![submenu("More", vec![action("A", 20)]), action("Run", 10)];
    let menu = ContextMenu::build(&items, &vec![0, 0]);
    assert_eq!(menu.entries, vec![entry(MenuTarget::Root, 0, 1001, "Run")]);
    assert_eq!(menu.choice(2000), MenuChoice::Unknown);
}

#[test]
fn identifiers_run_on_from_submenu_to_submenu() {
    let items = vec![
        submenu("First", vec![action("A", 20), MenuItem::Separator, action("B", 21)]),
        submenu("Hidden", vec![action("X", 99)]),
        submenu("Second", vec![action("C", 30)]),
        action("Run", 10),
    ];
    let menu = ContextMenu::build(&items, &vec![5, 0, 6, 0]);
    assert_eq!(
        menu.entries,
        vec![
            entry(MenuTarget::Submenu(0), 0, 2000, "A"),
            entry(MenuTarget::Submenu(0), 0, 2002, "B"),
            entry(MenuTarget::Root, 0x10, 5, "First"),
            entry(MenuTarget::Submenu(2), 0, 2003, "C"),
            entry(MenuTarget::Root, 0x10, 6, "Second"),
            entry(MenuTarget::Root, 0, 1003, "Run"),
        ]
    );
    assert_eq!(menu.choice(2000), MenuChoice::Command(20));
    assert_eq!(menu.choice(2002), MenuChoice::Command(21));
    assert_eq!(menu.choice(2003), MenuChoice::Command(30));
    assert_eq!(menu.choice(1003), MenuChoice::Command(10));
}

#[test]
fn submenus_keep_clear_of_long_menus() {
    let mut items: Vec<MenuItem<u32>> = (0..1500).map(|i| action("", i)).collect();
    items.insert(0, submenu("More", vec![action("A", 5000), action("B", 5001)]));
    let mut handles = vec![0; 1501];
    handles[0] = 1;
    let menu = ContextMenu::build(&items, &handles);
    assert_eq!(menu.commands.len(), 1502);
    assert_eq!(menu.choice(1001), MenuChoice::Command(0));
    assert_eq!(menu.choice(2000), MenuChoice::Command(999));
    assert_eq!(menu.choice(2500), MenuChoice::Command(1499));
    assert_eq!(menu.choice(2501), MenuChoice::Command(5000));
    assert_eq!(menu.choice(2502), MenuChoice::Command(5001));
}

#[test]
fn file_dialogs_ask_for_a_node() {
    assert_eq!(HANDLE.open_file_dialog(None::<u32>), None);
    assert_eq!(HANDLE.save_file_dialog(None::<u32>, Some("x")), None);
    assert_eq!(
        HANDLE.open_file_dialog(Some(3)),
        Some((3, DialogRequest { kind: DialogKind::Open, flags: 0x1848, file_name: None }))
    );
    assert_eq!(
        HANDLE.save_file_dialog(Some(3), Some("x")),
        Some((
            3,
            DialogRequest { kind: DialogKind::Save, flags: 0x848, file_name: Some(vec![0x78, 0]) }
        ))
    );
    assert_eq!(
        HANDLE.save_file_dialog(Some(3), None),
        Some((3, DialogRequest { kind: DialogKind::Save, flags: 0x848, file_name: None }))
    );
}

#[test]
fn chosen_paths_are_reported() {
    let path = "C:\\Bilder\\\u{1F600}.png";
    let outcome = DialogOutcome::Name(encode_utf16(path));
    assert_eq!(
        dialog_response(DialogKind::Open, &outcome),
        FileDialogResponse::Opened(vec![path.to_string()])
    );
    assert_eq!(
        dialog_response(DialogKind::Save, &outcome),
        FileDialogResponse::Saved(path.to_string())
    );
}

#[test]
fn dialogs_that_are_cancelled() {
    let outcomes = [
        DialogOutcome::NotCreated,
        DialogOutcome::NotShown,
        DialogOutcome::NoResult,
        DialogOutcome::NoName,
        DialogOutcome::Name(vec![0x43, 0xD800]),
    ];
    for outcome in outcomes {
        assert_eq!(dialog_response(DialogKind::Open, &outcome), FileDialogResponse::Cancelled);
        assert_eq!(dialog_response(DialogKind::Save, &outcome), FileDialogResponse::Cancelled);
    }
}

#[test]
fn alerts_have_buttons_for_their_options() {
    let styles: Vec<u32> = (0..5).map(|n| HANDLE.alert("T", "D", n).style).collect();
    assert_eq!(styles, vec![0, 0, 4, 3, 3]);
    assert_eq!(
        HANDLE.alert("T", "D", 1),
        MessageBox { text: vec![0x44, 0], caption: vec![0x54, 0], style: 0 }
    );
    assert_eq!(
        fatal_error("T", "D"),
        MessageBox { text: vec![0x44, 0], caption: vec![0x54, 0], style: 0x10 }
    );
}

fn launcher() -> AppLauncher<&'static str, u8> {
    AppLauncher::new("one").with_wgpu_config(9).add_window("two")
}

fn launch() -> Launch<&'static str, u8, i64> {
    let mut started = false;
    match launcher().run(-1, (), &mut started) {
        Ok(launch) => launch,
        Err(error) => panic!("{error:?}"),
    }
}

#[test]
fn applications_are_launched_once() {
    let mut started = false;
    let first = launcher().run((), (), &mut started);
    assert!(first.is_ok());
    assert!(started);
    let second = launcher().run((), (), &mut started);
    assert_eq!(second.err(), Some(LaunchError::AlreadyStarted));
    assert!(started);
}

#[test]
fn launches_keep_what_was_configured() {
    let launch = launch();
    assert_eq!(launch.windows, vec!["one", "two"]);
    assert_eq!(launch.wgpu_config, 9);
    assert_eq!(launch.state, -1);
    assert_eq!(launch.stage, LaunchStage::LoadFonts);
    let mut started = false;
    let plain = AppLauncher::<_, u8>::new("one").run((), (), &mut started);
    assert_eq!(plain.map(|launch| launch.wgpu_config).ok(), Some(0));
}

#[test]
fn launches_go_through_their_stages() {
    let mut launch = launch();
    let steps = [
        (LaunchStage::LoadFonts, Outcome::Done),
        (LaunchStage::RequestAdapter, Outcome::Done),
        (LaunchStage::RequestDevice, Outcome::Done),
        (LaunchStage::CreateRenderer, Outcome::Done),
        (LaunchStage::CreateWindow(0), Outcome::Done),
        (LaunchStage::CreateWindow(1), Outcome::Done),
        (LaunchStage::ReceiveMessage, Outcome::Message(1)),
        (LaunchStage::DispatchMessage, Outcome::Done),
        (LaunchStage::ReceiveMessage, Outcome::Message(-1)),
        (LaunchStage::DispatchMessage, Outcome::Done),
        (LaunchStage::ReceiveMessage, Outcome::Message(0)),
        (LaunchStage::Quit, Outcome::Message(1)),
        (LaunchStage::Quit, Outcome::Done),
    ];
    for (stage, outcome) in steps {
        assert_eq!(launch.stage, stage);
        launch.advance(outcome);
    }
    assert_eq!(launch.stage, LaunchStage::Quit);
    assert_eq!(launch.windows, vec!["one", "two"]);
}

#[test]
fn launches_that_fail() {
    let cases = [
        (1, "GPU initialization failed", "Failed to request a WGPU adapter.\n\nwhy"),
        (2, "GPU initialization failed", "Failed to create a WGPU device.\n\nwhy"),
        (3, "Renderer initialization failed", "Failed to create the Vello renderer.\n\nwhy"),
    ];
    for (done, title, details) in cases {
        let mut launch = launch();
        for _ in 0..done {
            launch.advance(Outcome::Done);
        }
        launch.advance(Outcome::Failed("why".to_string()));
        let fatal = LaunchStage::Fatal(title.to_string(), details.to_string());
        assert_eq!(launch.stage, fatal);
        launch.advance(Outcome::Done);
        assert_eq!(launch.stage, fatal);
    }
}
