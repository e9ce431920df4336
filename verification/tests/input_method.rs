use rosin_win::ime::{
    commit, compose, handle_editing_key, handle_ime_end, has_commit, has_preedit, horizontal_move,
    ime_buffer_len, ime_cursor_pos, ime_string, insert_character, insert_text, is_composing,
    has_composition, is_consumed, is_editing_key, is_text_key, move_or_select, next_ime_step,
    position_ime_windows, surfaces_key_event, target_range, vertical_move,
};
use rosin_win::ime::{
    Action, Edit, EditingKey, HorizontalDirection, ImePlacement, ImeStep, InputState, Movement,
    SelectionUnit, TextRange, VerticalDirection,
};
use rosin_win::keyboard::{Modifiers, CONTROL, SHIFT};
use rosin_win::window::Rect;

const PLAIN: Modifiers = Modifiers { bits: 0 };
const SHIFTED: Modifiers = Modifiers { bits: SHIFT };
const CTRL: Modifiers = Modifiers { bits: CONTROL };
const BOTH: Modifiers = Modifiers { bits: CONTROL | SHIFT };

const COMMIT: u32 = 0x800;
const PREEDIT: u32 = 0x008;

fn range(start: usize, end: usize) -> TextRange {
    TextRange { start, end }
}

fn at(place: usize) -> InputState {
    InputState { composition: None, selection: range(place, place) }
}

/// A text with what an input handler reports of it.
struct Field {
    text: String,
    state: InputState,
}

impl Field {
    fn new(text: &str, place: usize) -> Field {
        Field { text: text.to_string(), state: at(place) }
    }

    fn apply(&mut self, edits: Vec<Edit>) {
        for edit in edits {
            match edit {
                Edit::ReplaceRange(range, text) => {
                    self.text.replace_range(range.start..range.end, &text)
                }
                Edit::SetSelection(range) => self.state.selection = range,
                Edit::SetCompositionRange(range) => self.state.composition = range,
            }
        }
    }

    fn compose(&mut self, preedit: &str, cursor: Option<usize>) {
        let size = 2 * preedit.encode_utf16().count() as i32;
        let edits = compose(PREEDIT, size, Some(preedit), cursor, self.state);
        self.apply(edits.unwrap());
    }

    fn commit(&mut self, text: &str) {
        let edits = commit(COMMIT, Some(text), self.state);
        self.apply(edits.unwrap());
    }
}

#[test]
fn editing_keys_without_modifiers() {
    let left = HorizontalDirection::Left;
    let right = HorizontalDirection::Right;
    let cases = [
        (0x0D, Action::InsertNewLine),
        (0x09, Action::InsertTab),
        (0x08, Action::Delete(Movement::Grapheme(left))),
        (0x2E, Action::Delete(Movement::Grapheme(right))),
        (0x25, Action::Move(Movement::Grapheme(left))),
        (0x27, Action::Move(Movement::Grapheme(right))),
        (0x26, Action::Move(Movement::Vertical(VerticalDirection::Up))),
        (0x28, Action::Move(Movement::Vertical(VerticalDirection::Down))),
        (0x21, Action::Move(Movement::Vertical(VerticalDirection::PageUp))),
        (0x22, Action::Move(Movement::Vertical(VerticalDirection::PageDown))),
        (0x24, Action::Move(Movement::Line(left))),
        (0x23, Action::Move(Movement::Line(right))),
        (0x1B, Action::Cancel),
    ];
    for (vk, action) in cases {
        assert_eq!(handle_editing_key(vk, false, PLAIN), EditingKey::Perform(action));
    }
    for vk in [0x41, 0x43, 0x58, 0x56, 0x42, 0x20, 0x1_000D] {
        assert_eq!(handle_editing_key(vk, false, PLAIN), EditingKey::Pass);
    }
}

#[test]
fn editing_keys_with_modifiers() {
    let left = HorizontalDirection::Left;
    let right = HorizontalDirection::Right;
    let cases = [
        (0x09, SHIFTED, Action::InsertBacktab),
        (0x09, CTRL, Action::InsertTab),
        (0x25, SHIFTED, Action::MoveSelecting(Movement::Grapheme(left))),
        (0x25, CTRL, Action::Move(Movement::Word(left))),
        (0x27, BOTH, Action::MoveSelecting(Movement::Word(right))),
        (0x26, SHIFTED, Action::MoveSelecting(Movement::Vertical(VerticalDirection::Up))),
        (0x24, CTRL, Action::Move(Movement::Document(left))),
        (0x23, BOTH, Action::MoveSelecting(Movement::Document(right))),
        (0x41, CTRL, Action::Select(SelectionUnit::All)),
        (0x43, CTRL, Action::Copy),
        (0x58, CTRL, Action::Cut),
        (0x56, BOTH, Action::Paste),
    ];
    for (vk, mods, action) in cases {
        assert_eq!(handle_editing_key(vk, false, mods), EditingKey::Perform(action));
    }
}

#[test]
fn a_composition_has_its_keys_for_itself() {
    for mods in [PLAIN, SHIFTED, CTRL, BOTH] {
        for vk in [0x0D, 0x09, 0x08, 0x2E, 0x25, 0x27, 0x24, 0x23, 0x1B] {
            assert_eq!(handle_editing_key(vk, true, mods), EditingKey::Swallow);
        }
        for vk in [0x26, 0x28, 0x21, 0x22, 0x41, 0x43, 0x58, 0x56, 0x42] {
            assert_eq!(handle_editing_key(vk, true, mods), EditingKey::Pass);
        }
    }
}

#[test]
fn moves() {
    let up = Movement::Vertical(VerticalDirection::Up);
    assert_eq!(move_or_select(false, up), Some(Action::Move(up)));
    assert_eq!(move_or_select(true, up), Some(Action::MoveSelecting(up)));
    assert_eq!(
        horizontal_move(true, false, HorizontalDirection::Left),
        Some(Action::Move(Movement::Word(HorizontalDirection::Left)))
    );
    assert_eq!(
        horizontal_move(false, true, HorizontalDirection::Right),
        Some(Action::MoveSelecting(Movement::Grapheme(HorizontalDirection::Right)))
    );
    assert_eq!(vertical_move(false, false, VerticalDirection::Up), Some(Action::Move(up)));
    assert_eq!(vertical_move(true, false, VerticalDirection::Up), None);
}

#[test]
fn consumed_keys() {
    assert!(is_consumed(EditingKey::Swallow, None));
    assert!(is_consumed(EditingKey::Perform(Action::Copy), Some(true)));
    assert!(!is_consumed(EditingKey::Perform(Action::Copy), Some(false)));
    assert!(!is_consumed(EditingKey::Perform(Action::Copy), None));
    assert!(!is_consumed(EditingKey::Pass, Some(true)));
}

#[test]
fn key_events_that_surface() {
    assert!(surfaces_key_event(false, false, false));
    assert!(surfaces_key_event(false, false, true));
    assert!(surfaces_key_event(false, true, false));
    assert!(!surfaces_key_event(false, true, true));
    assert!(!surfaces_key_event(true, false, false));
}

#[test]
fn text_keys() {
    assert!(is_text_key(0x42, 0x42, PLAIN));
    assert!(is_text_key(0x41, 0x41, PLAIN));
    assert!(is_text_key(0x41, 0x41, SHIFTED));
    assert!(!is_text_key(0x41, 0x41, CTRL));
    assert!(is_text_key(0x42, 0x42, CTRL));
    assert!(is_text_key(0x31, 0x31, SHIFTED));
    assert!(is_text_key(0x20, 0x20, PLAIN));
    assert!(is_text_key(0x20, 0x20, SHIFTED));
    assert!(!is_text_key(0x0D, 0x0D, PLAIN));
    assert!(!is_text_key(0x25, 0, PLAIN));
    assert!(!is_text_key(0x70, 0, PLAIN));
}

#[test]
fn editing_keys_are_no_text_keys() {
    for vk in 0..0x100u32 {
        for mods in [PLAIN, SHIFTED, CTRL, BOTH] {
            let performs = matches!(handle_editing_key(vk, false, mods), EditingKey::Perform(_));
            assert_eq!(is_editing_key(vk, mods.ctrl()), performs);
            if is_text_key(vk, 0x31, mods) {
                assert_eq!(handle_editing_key(vk, false, mods), EditingKey::Pass);
                assert_eq!(handle_editing_key(vk, true, mods), EditingKey::Pass);
            }
        }
    }
}

#[test]
fn text_goes_to_the_composition_or_the_selection() {
    let selected = InputState { composition: None, selection: range(2, 5) };
    assert_eq!(target_range(selected), range(2, 5));
    let composing = InputState { composition: Some(range(1, 3)), selection: range(2, 2) };
    assert_eq!(target_range(composing), range(1, 3));
    assert_eq!(
        insert_text(selected, "\u{e4}b"),
        vec![
            Edit::ReplaceRange(range(2, 5), "\u{e4}b".to_string()),
            Edit::SetSelection(range(5, 5)),
            Edit::SetCompositionRange(None),
        ]
    );
}

#[test]
fn typed_characters_are_inserted() {
    let typed = insert_character(Some(at(3)), '\u{1F600}');
    assert!(typed.sync);
    assert_eq!(
        typed.edits,
        vec![
            Edit::ReplaceRange(range(3, 3), "\u{1F600}".to_string()),
            Edit::SetSelection(range(7, 7)),
            Edit::SetCompositionRange(None),
        ]
    );
}

#[test]
fn typing_accumulates() {
    let mut field = Field::new("ab", 1);
    for c in "x\u{e4}\u{1F600}".chars() {
        let typed = insert_character(Some(field.state), c);
        field.apply(typed.edits);
    }
    let mut at_once = Field::new("ab", 1);
    let edits = insert_text(at_once.state, "x\u{e4}\u{1F600}");
    at_once.apply(edits);
    assert_eq!(field.text, "ax\u{e4}\u{1F600}b");
    assert_eq!((field.text, field.state), (at_once.text, at_once.state));
}

#[test]
fn keys_go_one_way() {
    for vk in 0..0x100u32 {
        for mods in [PLAIN, SHIFTED, CTRL, BOTH] {
            for composing in [false, true] {
                for handled in [None, Some(false), Some(true)] {
                    let key = handle_editing_key(vk, composing, mods);
                    let edits = is_consumed(key, handled);
                    let types = is_text_key(vk, 0x31, mods);
                    let event = surfaces_key_event(edits, true, types);
                    assert_eq!([edits, types, event].iter().filter(|&&way| way).count(), 1);
                }
            }
        }
    }
}

#[test]
fn typed_characters_without_effect() {
    let composing = InputState { composition: Some(range(0, 1)), selection: range(1, 1) };
    let typed = insert_character(Some(composing), 'x');
    assert!(typed.edits.is_empty());
    assert!(typed.sync);
    let typed = insert_character(None, 'x');
    assert!(typed.edits.is_empty());
    assert!(typed.sync);
    for c in ['\r', '\u{8}', '\t', '\u{1}', '\u{7F}', '\u{85}'] {
        let typed = insert_character(Some(at(0)), c);
        assert!(typed.edits.is_empty());
        assert!(!typed.sync);
    }
}

#[test]
fn control_characters_are_those_of_std() {
    for code in 0..0x1000u32 {
        if let Some(c) = char::from_u32(code) {
            assert_eq!(insert_character(None, c).sync, !c.is_control());
        }
    }
}

#[test]
fn composition_flags() {
    assert!(has_commit(0x800));
    assert!(has_commit(0x808));
    assert!(!has_commit(0x008));
    assert!(has_preedit(0x1BF));
    assert!(!has_preedit(0x1E00));
    assert_eq!(commit(PREEDIT, Some("x"), at(0)), None);
    assert_eq!(commit(COMMIT, None, at(0)), None);
    assert_eq!(compose(COMMIT, 2, Some("x"), None, at(0)), None);
    assert_eq!(compose(PREEDIT, 2, None, Some(0), at(0)), None);
}

#[test]
fn a_composition_is_shown_with_its_caret() {
    assert_eq!(
        compose(PREEDIT, 4, Some("\u{4f60}\u{597d}"), Some(1), at(2)),
        Some(vec![
            Edit::ReplaceRange(range(2, 2), "\u{4f60}\u{597d}".to_string()),
            Edit::SetCompositionRange(Some(range(2, 8))),
            Edit::SetSelection(range(5, 5)),
        ])
    );
}

#[test]
fn a_caret_that_is_missing_or_inside_a_pair_goes_to_the_end() {
    for cursor in [None, Some(1), Some(9)] {
        let mut field = Field::new("", 0);
        field.compose("\u{1F600}", cursor);
        assert_eq!(field.state.selection, range(4, 4));
    }
}

#[test]
fn an_empty_composition_drops_the_one_before() {
    let composing = InputState { composition: Some(range(1, 4)), selection: range(2, 2) };
    assert_eq!(
        compose(PREEDIT, 0, None, Some(0), composing),
        Some(vec![
            Edit::ReplaceRange(range(1, 4), String::new()),
            Edit::SetCompositionRange(None),
            Edit::SetSelection(range(1, 1)),
        ])
    );
}

#[test]
fn a_pre_edit_of_no_bytes_ends_the_composition() {
    let mut field = Field::new("ab", 1);
    field.compose("ni", Some(2));
    assert_eq!(ime_buffer_len(0), None);
    let edits = compose(PREEDIT, 0, ime_string(&[], 0).as_deref(), None, field.state);
    field.apply(edits.unwrap());
    assert_eq!(field.text, "ab");
    assert_eq!(field.state, at(1));
    assert_eq!(handle_ime_end(Some(field.state)), None);
}

#[test]
fn a_pre_edit_of_no_bytes_leaves_a_selection_alone() {
    let selected = InputState { composition: None, selection: range(3, 5) };
    assert_eq!(compose(PREEDIT, 0, None, None, selected), None);
    assert_eq!(compose(PREEDIT, 0, Some(""), Some(0), selected), None);
    let nuls = ime_string(&[0, 0], 2);
    assert_eq!(nuls.as_deref(), Some(""));
    assert_eq!(
        compose(PREEDIT, 2, nuls.as_deref(), None, selected),
        Some(vec![Edit::SetCompositionRange(None), Edit::SetSelection(range(3, 3))])
    );
}

#[test]
fn a_pre_edit_that_is_missing_changes_nothing() {
    let composing = InputState { composition: Some(range(1, 4)), selection: range(2, 2) };
    assert_eq!(compose(PREEDIT, -1, None, None, composing), None);
    assert_eq!(compose(PREEDIT, -2, Some("x"), None, composing), None);
    assert_eq!(compose(COMMIT, 0, None, None, composing), None);
    assert_eq!(commit(COMMIT, ime_string(&[], 0).as_deref(), composing), None);
}

#[test]
fn carets_out_of_range_matter_only_to_text_that_arrives() {
    let far = at(usize::MAX);
    assert_eq!(commit(PREEDIT, Some("x"), far), None);
    assert_eq!(compose(COMMIT, 2, Some("x"), None, far), None);
}

#[test]
fn steps_of_a_composition_message() {
    fn steps(flags: u32, edits: bool) -> Vec<ImeStep> {
        let mut all = Vec::new();
        let mut edited = false;
        let mut step = next_ime_step(ImeStep::Start, flags, edited);
        while step != ImeStep::Finished {
            all.push(step);
            edited |= edits && matches!(step, ImeStep::Commit | ImeStep::Compose);
            step = next_ime_step(step, flags, edited);
        }
        all
    }
    let (commits, composes) = (ImeStep::Commit, ImeStep::Compose);
    let (position, notify) = (ImeStep::Position, ImeStep::Notify);
    assert_eq!(steps(COMMIT | PREEDIT, true), vec![commits, composes, position, notify]);
    assert_eq!(steps(COMMIT, true), vec![commits, position, notify]);
    assert_eq!(steps(PREEDIT, true), vec![composes, position, notify]);
    assert_eq!(steps(COMMIT | PREEDIT, false), vec![commits, composes]);
    assert_eq!(steps(0x100, true), vec![]);
    assert_eq!(next_ime_step(ImeStep::Finished, COMMIT, true), ImeStep::Finished);
}

#[test]
fn each_composition_replaces_the_last() {
    let mut field = Field::new("ab", 1);
    field.compose("n", Some(1));
    field.compose("ni", Some(2));
    assert_eq!(field.text, "anib");
    assert_eq!(field.state.composition, Some(range(1, 3)));
    assert_eq!(field.state.selection, range(3, 3));
}

#[test]
fn a_commit_replaces_the_composition() {
    let mut field = Field::new("ab", 1);
    field.compose("ni", Some(2));
    field.commit("\u{4f60}");
    assert_eq!(field.text, "a\u{4f60}b");
    assert_eq!(field.state, at(4));
}

#[test]
fn a_commit_with_the_next_composition() {
    let mut field = Field::new("ab", 1);
    field.compose("nihao", None);
    field.commit("\u{4f60}");
    field.compose("hao", None);
    assert_eq!(field.text, "a\u{4f60}haob");
    assert_eq!(field.state.composition, Some(range(4, 7)));
}

#[test]
fn a_cancelled_composition_leaves_nothing() {
    let mut field = Field::new("ab", 1);
    field.compose("ni", Some(1));
    field.compose("", None);
    assert_eq!(field.text, "ab");
    assert_eq!(field.state, at(1));
}

#[test]
fn the_end_of_a_composition_keeps_its_text() {
    let mut field = Field::new("ab", 1);
    field.compose("ni", Some(1));
    let edit = handle_ime_end(Some(field.state));
    assert_eq!(edit, Some(Edit::SetCompositionRange(None)));
    field.apply(edit.into_iter().collect());
    assert_eq!(field.text, "anib");
    assert_eq!(field.state, at(2));
    assert_eq!(handle_ime_end(Some(field.state)), None);
    assert_eq!(handle_ime_end(None), None);
}

#[test]
fn composing_means_a_composition_that_is_not_empty() {
    assert!(!is_composing(None));
    assert!(!is_composing(Some(at(0))));
    let empty = InputState { composition: Some(range(2, 2)), selection: range(2, 2) };
    assert!(!is_composing(Some(empty)));
    assert!(has_composition(Some(empty)));
    assert!(!has_composition(Some(at(0))));
    assert!(!has_composition(None));
    let open = InputState { composition: Some(range(2, 3)), selection: range(2, 2) };
    assert!(is_composing(Some(open)));
}

#[test]
fn composition_buffers() {
    assert_eq!(ime_buffer_len(-1), None);
    assert_eq!(ime_buffer_len(0), None);
    assert_eq!(ime_buffer_len(1), Some(1));
    assert_eq!(ime_buffer_len(6), Some(4));
    assert_eq!(ime_buffer_len(i32::MAX), Some(0x4000_0000));
}

#[test]
fn composition_strings() {
    let buffer = [0x6E, 0x69, 0, 0];
    assert_eq!(ime_string(&buffer, 4), Some("ni".to_string()));
    assert_eq!(ime_string(&buffer, 5), Some("ni".to_string()));
    assert_eq!(ime_string(&buffer, 8), Some("ni".to_string()));
    assert_eq!(ime_string(&buffer, 100), Some("ni".to_string()));
    assert_eq!(ime_string(&buffer, 2), Some("n".to_string()));
    assert_eq!(ime_string(&buffer, 1), Some(String::new()));
    assert_eq!(ime_string(&buffer, 0), None);
    assert_eq!(ime_string(&buffer, -1), None);
    assert_eq!(ime_string(&[0x61, 0, 0x62, 0], 8), Some("a\0b".to_string()));
    assert_eq!(ime_string(&[0xD83D, 0xDE00, 0xD800], 6), Some("\u{1F600}\u{FFFD}".to_string()));
    assert_eq!(ime_string(&[0, 0], 4), Some(String::new()));
}

#[test]
fn composition_carets() {
    assert_eq!(ime_cursor_pos(4, 3), Some(3));
    assert_eq!(ime_cursor_pos(2, 3), None);
    assert_eq!(ime_cursor_pos(-1, 3), None);
}

#[test]
fn windows_of_the_input_method() {
    let area = Rect { left: 1, top: 2, right: 3, bottom: 20 };
    assert_eq!(
        position_ime_windows(Some(area)),
        Some(ImePlacement {
            composition_style: 0x01,
            candidate_index: 0,
            candidate_style: 0x80,
            area,
        })
    );
    assert_eq!(position_ime_windows(None), None);
}
