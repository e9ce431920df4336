//! Text input: editing keys, typed characters, and the compositions of an input method.
//!
//! The text itself belongs to the focused input handler. What the handler reports, a
//! composition range and a selection, comes in as an [`InputState`]; what the handler is to do
//! goes out as a list of [`Edit`]s, to be carried out in order.

use crate::keyboard::{Modifiers, CAPS_LOCK, CONTROL, SHIFT};
use crate::offset::{byte_len, utf16_offset_to_utf8, utf8_offset};
use crate::utf16::{decode_lossy, decoded, lossy, units_of};
use crate::keyboard::NamedKey;
use crate::util::{character, code_of, convert_character, name_of};
use crate::vk;
use crate::window::Rect;
use vstd::prelude::*;
use vstd::utf8::encode_utf8;

verus! {

#[derive(Clone, Copy, PartialEq, Eq, Structural, Debug)]
pub enum HorizontalDirection {
    Left,
    Right,
}

#[derive(Clone, Copy, PartialEq, Eq, Structural, Debug)]
pub enum VerticalDirection {
    Up,
    Down,
    PageUp,
    PageDown,
}

/// How far the caret goes.
#[derive(Clone, Copy, PartialEq, Eq, Structural, Debug)]
pub enum Movement {
    Grapheme(HorizontalDirection),
    Word(HorizontalDirection),
    Line(HorizontalDirection),
    Document(HorizontalDirection),
    Vertical(VerticalDirection),
}

#[derive(Clone, Copy, PartialEq, Eq, Structural, Debug)]
pub enum SelectionUnit {
    All,
}

/// A text-editing command for the input handler.
#[derive(Clone, Copy, PartialEq, Eq, Structural, Debug)]
pub enum Action {
    InsertNewLine,
    InsertTab,
    InsertBacktab,
    Delete(Movement),
    Move(Movement),
    MoveSelecting(Movement),
    Cancel,
    Select(SelectionUnit),
    Copy,
    Cut,
    Paste,
}

/// What a key-down means for the input handler.
#[derive(Clone, Copy, PartialEq, Eq, Structural, Debug)]
pub enum EditingKey {
    /// The key belongs to the running composition and goes no further.
    Swallow,
    /// The handler is asked to perform the action.
    Perform(Action),
    /// The key is no editing key.
    Pass,
}

/// A range of byte offsets.
#[derive(Clone, Copy, PartialEq, Eq, Structural, Debug)]
pub struct TextRange {
    pub start: usize,
    pub end: usize,
}

/// What the input handler reports of itself.
#[derive(Clone, Copy, PartialEq, Eq, Structural, Debug)]
pub struct InputState {
    pub composition: Option<TextRange>,
    pub selection: TextRange,
}

/// One thing that the input handler is to do.
#[derive(PartialEq, Eq, Debug)]
pub enum Edit {
    ReplaceRange(TextRange, String),
    SetSelection(TextRange),
    SetCompositionRange(Option<TextRange>),
}

/// An [`Edit`] with its text as a sequence of characters.
pub enum EditView {
    ReplaceRange(TextRange, Seq<char>),
    SetSelection(TextRange),
    SetCompositionRange(Option<TextRange>),
}

impl View for Edit {
    type V = EditView;

    open spec fn view(&self) -> EditView {
        match self {
            Edit::ReplaceRange(range, text) => EditView::ReplaceRange(*range, text@),
            Edit::SetSelection(range) => EditView::SetSelection(*range),
            Edit::SetCompositionRange(range) => EditView::SetCompositionRange(*range),
        }
    }
}

/// A list of edits, each by its view.
pub open spec fn views(edits: Seq<Edit>) -> Seq<EditView> {
    edits.map_values(|edit: Edit| edit@)
}

/// The action that moves the caret, or with Shift the end of the selection.
pub open spec fn moving(shift: bool, movement: Movement) -> Action {
    if shift {
        Action::MoveSelecting(movement)
    } else {
        Action::Move(movement)
    }
}

/// The keys that an input method has for itself while it composes: Enter, Tab, Backspace,
/// Delete, Left, Right, Home, End and Escape.
pub open spec fn is_composition_key(vk: u32) -> bool {
    vk == 0x0D || vk == 0x09 || vk == 0x08 || vk == 0x2E || vk == 0x25 || vk == 0x27 || vk == 0x24
        || vk == 0x23 || vk == 0x1B
}

/// The action of an editing key when no composition is open.
pub open spec fn key_action(vk: u32, ctrl: bool, shift: bool) -> Option<Action> {
    let left = HorizontalDirection::Left;
    let right = HorizontalDirection::Right;
    if vk == 0x0D {
        Some(Action::InsertNewLine)
    } else if vk == 0x09 {
        Some(if shift {
            Action::InsertBacktab
        } else {
            Action::InsertTab
        })
    } else if vk == 0x08 {
        Some(Action::Delete(Movement::Grapheme(left)))
    } else if vk == 0x2E {
        Some(Action::Delete(Movement::Grapheme(right)))
    } else if vk == 0x1B {
        Some(Action::Cancel)
    } else if ctrl && vk == 'A' as u32 {
        Some(Action::Select(SelectionUnit::All))
    } else if ctrl && vk == 'C' as u32 {
        Some(Action::Copy)
    } else if ctrl && vk == 'X' as u32 {
        Some(Action::Cut)
    } else if ctrl && vk == 'V' as u32 {
        Some(Action::Paste)
    } else {
        match key_movement(vk, ctrl) {
            Some(movement) => Some(moving(shift, movement)),
            None => None,
        }
    }
}

/// The movement of a navigation key: arrows go by character, with Control by word; Home and End
/// by line, with Control to the ends of the document; the others up and down.
pub open spec fn key_movement(vk: u32, ctrl: bool) -> Option<Movement> {
    let left = HorizontalDirection::Left;
    let right = HorizontalDirection::Right;
    if vk == 0x25 || vk == 0x27 {
        let direction = if vk == 0x25 {
            left
        } else {
            right
        };
        Some(if ctrl {
            Movement::Word(direction)
        } else {
            Movement::Grapheme(direction)
        })
    } else if vk == 0x24 || vk == 0x23 {
        let direction = if vk == 0x24 {
            left
        } else {
            right
        };
        Some(if ctrl {
            Movement::Document(direction)
        } else {
            Movement::Line(direction)
        })
    } else if vk == 0x26 {
        Some(Movement::Vertical(VerticalDirection::Up))
    } else if vk == 0x28 {
        Some(Movement::Vertical(VerticalDirection::Down))
    } else if vk == 0x21 {
        Some(Movement::Vertical(VerticalDirection::PageUp))
    } else if vk == 0x22 {
        Some(Movement::Vertical(VerticalDirection::PageDown))
    } else {
        None
    }
}

/// What an editing key means, with or without an open composition.
pub open spec fn editing_key(vk: u32, composing: bool, ctrl: bool, shift: bool) -> EditingKey {
    if composing {
        if is_composition_key(vk) {
            EditingKey::Swallow
        } else {
            EditingKey::Pass
        }
    } else {
        match key_action(vk, ctrl, shift) {
            Some(action) => EditingKey::Perform(action),
            None => EditingKey::Pass,
        }
    }
}

/// Moves the caret, or with Shift the end of the selection.
pub fn move_or_select(shift: bool, movement: Movement) -> (action: Option<Action>)
    ensures
        action == Some(moving(shift, movement)),
{
    if shift {
        Some(Action::MoveSelecting(movement))
    } else {
        Some(Action::Move(movement))
    }
}

/// Horizontal movement for the arrow keys: by word with Control, else by character.
pub fn horizontal_move(ctrl: bool, shift: bool, direction: HorizontalDirection) -> (action: Option<
    Action,
>)
    ensures
        action == Some(
            moving(
                shift,
                if ctrl {
                    Movement::Word(direction)
                } else {
                    Movement::Grapheme(direction)
                },
            ),
        ),
{
    let movement: Movement = if ctrl {
        Movement::Word(direction)
    } else {
        Movement::Grapheme(direction)
    };
    move_or_select(shift, movement)
}

/// Vertical movement for Up, Down, Page Up and Page Down; none while composing.
pub fn vertical_move(composing: bool, shift: bool, direction: VerticalDirection) -> (action: Option<
    Action,
>)
    ensures
        action == (if composing {
            None
        } else {
            Some(moving(shift, Movement::Vertical(direction)))
        }),
{
    if composing {
        return None;
    }
    move_or_select(shift, Movement::Vertical(direction))
}

/// Translates a key-down into a text-editing action. While a composition is open the keys that
/// it needs are swallowed and no action is performed.
pub fn handle_editing_key(vk: u32, composing: bool, modifiers: Modifiers) -> (key: EditingKey)
    ensures
        key == editing_key(vk, composing, modifiers.has(CONTROL), modifiers.has(SHIFT)),
{
    let ctrl: bool = modifiers.ctrl();
    let shift: bool = modifiers.shift();
    let left: HorizontalDirection = HorizontalDirection::Left;
    let right: HorizontalDirection = HorizontalDirection::Right;
    let swallowed: bool = vk == vk::VK_RETURN as u32 || vk == vk::VK_TAB as u32 || vk
        == vk::VK_BACK as u32 || vk == vk::VK_DELETE as u32 || vk == vk::VK_LEFT as u32 || vk
        == vk::VK_RIGHT as u32 || vk == vk::VK_HOME as u32 || vk == vk::VK_END as u32 || vk
        == vk::VK_ESCAPE as u32;
    if composing && swallowed {
        return EditingKey::Swallow;
    }
    let action: Option<Action> = if vk == vk::VK_RETURN as u32 {
        Some(Action::InsertNewLine)
    } else if vk == vk::VK_TAB as u32 {
        Some(if shift {
            Action::InsertBacktab
        } else {
            Action::InsertTab
        })
    } else if vk == vk::VK_BACK as u32 {
        Some(Action::Delete(Movement::Grapheme(left)))
    } else if vk == vk::VK_DELETE as u32 {
        Some(Action::Delete(Movement::Grapheme(right)))
    } else if vk == vk::VK_LEFT as u32 {
        horizontal_move(ctrl, shift, left)
    } else if vk == vk::VK_RIGHT as u32 {
        horizontal_move(ctrl, shift, right)
    } else if vk == vk::VK_UP as u32 {
        vertical_move(composing, shift, VerticalDirection::Up)
    } else if vk == vk::VK_DOWN as u32 {
        vertical_move(composing, shift, VerticalDirection::Down)
    } else if vk == vk::VK_PRIOR as u32 {
        vertical_move(composing, shift, VerticalDirection::PageUp)
    } else if vk == vk::VK_NEXT as u32 {
        vertical_move(composing, shift, VerticalDirection::PageDown)
    } else if vk == vk::VK_HOME as u32 {
        move_or_select(
            shift,
            if ctrl {
                Movement::Document(left)
            } else {
                Movement::Line(left)
            },
        )
    } else if vk == vk::VK_END as u32 {
        move_or_select(
            shift,
            if ctrl {
                Movement::Document(right)
            } else {
                Movement::Line(right)
            },
        )
    } else if vk == vk::VK_ESCAPE as u32 {
        Some(Action::Cancel)
    } else if vk == vk::VK_A as u32 && ctrl && !composing {
        Some(Action::Select(SelectionUnit::All))
    } else if vk == vk::VK_C as u32 && ctrl && !composing {
        Some(Action::Copy)
    } else if vk == vk::VK_X as u32 && ctrl && !composing {
        Some(Action::Cut)
    } else if vk == vk::VK_V as u32 && ctrl && !composing {
        Some(Action::Paste)
    } else {
        None
    };
    match action {
        Some(action) => EditingKey::Perform(action),
        None => EditingKey::Pass,
    }
}

/// Whether the key is one of the editing keys. The letters A, C, X and V are so with Control only.
pub fn is_editing_key(vk: u32, ctrl: bool) -> (yes: bool)
    ensures
        forall|shift: bool| yes == (#[trigger] key_action(vk, ctrl, shift) is Some),
{
    vk == vk::VK_RETURN as u32 || vk == vk::VK_TAB as u32 || vk == vk::VK_BACK as u32 || vk
        == vk::VK_DELETE as u32 || vk == vk::VK_LEFT as u32 || vk == vk::VK_RIGHT as u32 || vk
        == vk::VK_UP as u32 || vk == vk::VK_DOWN as u32 || vk == vk::VK_HOME as u32 || vk
        == vk::VK_END as u32 || vk == vk::VK_PRIOR as u32 || vk == vk::VK_NEXT as u32 || vk
        == vk::VK_ESCAPE as u32 || (ctrl && (vk == vk::VK_A as u32 || vk == vk::VK_C as u32 || vk
        == vk::VK_X as u32 || vk == vk::VK_V as u32))
}

/// Whether the key types a character under these modifiers, so that its text arrives as a
/// character message and not as a key event. `mapped` is what the layout says of the key.
pub open spec fn types_text(vk: u32, mapped: u32, modifiers: Modifiers) -> bool {
    let shift = modifiers.has(SHIFT);
    &&& key_action(vk, modifiers.has(CONTROL), shift) is None
    &&& character(mapped, shift, modifiers.has(CAPS_LOCK)) is Some
}

/// Whether the key would produce a character, in which case its text is delivered through
/// [`insert_character`] rather than as a key event.
pub fn is_text_key(vk: u32, mapped: u32, modifiers: Modifiers) -> (yes: bool)
    ensures
        yes == types_text(vk, mapped, modifiers),
{
    if is_editing_key(vk, modifiers.ctrl()) {
        assert(key_action(vk, modifiers.has(CONTROL), modifiers.has(SHIFT)) is Some);
        return false;
    }
    assert(key_action(vk, modifiers.has(CONTROL), modifiers.has(SHIFT)) is None);
    convert_character(mapped, modifiers).is_some()
}

/// Whether an editing key goes no further: it was swallowed, or the handler performed its action.
pub open spec fn consumed(key: EditingKey, handled: Option<bool>) -> bool {
    match key {
        EditingKey::Swallow => true,
        EditingKey::Perform(_) => handled == Some(true),
        EditingKey::Pass => false,
    }
}

/// Whether an editing key was consumed, given what the handler said to the action: `None` where
/// there is no handler or no action.
pub fn is_consumed(key: EditingKey, handled: Option<bool>) -> (yes: bool)
    ensures
        yes == consumed(key, handled),
{
    match key {
        EditingKey::Swallow => true,
        EditingKey::Perform(_) => match handled {
            Some(handled) => handled,
            None => false,
        },
        EditingKey::Pass => false,
    }
}

/// Whether a key-down becomes a key event: not where it was consumed, and not where a handler
/// has the focus that gets its text as a character message.
pub open spec fn surfaces(consumed: bool, has_handler: bool, text_key: bool) -> bool {
    !consumed && !(has_handler && text_key)
}

/// Decides whether a key-down becomes a key event.
pub fn surfaces_key_event(consumed: bool, has_handler: bool, text_key: bool) -> (yes: bool)
    ensures
        yes == surfaces(consumed, has_handler, text_key),
{
    !consumed && !(has_handler && text_key)
}

/// Whether the key `vk` makes the movement `movement`.
pub open spec fn makes_movement(movement: Movement, vk: u32, ctrl: bool) -> bool {
    match movement {
        Movement::Grapheme(HorizontalDirection::Left) => vk == vk::VK_LEFT && !ctrl,
        Movement::Grapheme(HorizontalDirection::Right) => vk == vk::VK_RIGHT && !ctrl,
        Movement::Word(HorizontalDirection::Left) => vk == vk::VK_LEFT && ctrl,
        Movement::Word(HorizontalDirection::Right) => vk == vk::VK_RIGHT && ctrl,
        Movement::Line(HorizontalDirection::Left) => vk == vk::VK_HOME && !ctrl,
        Movement::Line(HorizontalDirection::Right) => vk == vk::VK_END && !ctrl,
        Movement::Document(HorizontalDirection::Left) => vk == vk::VK_HOME && ctrl,
        Movement::Document(HorizontalDirection::Right) => vk == vk::VK_END && ctrl,
        Movement::Vertical(VerticalDirection::Up) => vk == vk::VK_UP,
        Movement::Vertical(VerticalDirection::Down) => vk == vk::VK_DOWN,
        Movement::Vertical(VerticalDirection::PageUp) => vk == vk::VK_PRIOR,
        Movement::Vertical(VerticalDirection::PageDown) => vk == vk::VK_NEXT,
    }
}

/// Whether the key `vk` asks for the action `action`.
pub open spec fn asks_for(action: Action, vk: u32, ctrl: bool, shift: bool) -> bool {
    match action {
        Action::InsertNewLine => vk == vk::VK_RETURN,
        Action::InsertTab => vk == vk::VK_TAB && !shift,
        Action::InsertBacktab => vk == vk::VK_TAB && shift,
        Action::Delete(Movement::Grapheme(HorizontalDirection::Left)) => vk == vk::VK_BACK,
        Action::Delete(Movement::Grapheme(HorizontalDirection::Right)) => vk == vk::VK_DELETE,
        Action::Delete(_) => false,
        Action::Move(movement) => !shift && makes_movement(movement, vk, ctrl),
        Action::MoveSelecting(movement) => shift && makes_movement(movement, vk, ctrl),
        Action::Cancel => vk == vk::VK_ESCAPE,
        Action::Select(SelectionUnit::All) => ctrl && vk == vk::VK_A,
        Action::Copy => ctrl && vk == vk::VK_C,
        Action::Cut => ctrl && vk == vk::VK_X,
        Action::Paste => ctrl && vk == vk::VK_V,
    }
}

/// Every action is asked for by its own key, and by no other: without a composition a key performs
/// an action exactly where it is the key of that action, and passes where it is the key of none.
pub proof fn law_action_has_its_key(vk: u32, ctrl: bool, shift: bool, action: Action)
    ensures
        editing_key(vk, false, ctrl, shift) == EditingKey::Perform(action) <==> asks_for(
            action,
            vk,
            ctrl,
            shift,
        ),
        editing_key(vk, false, ctrl, shift) !is Swallow,
        editing_key(vk, false, ctrl, shift) is Pass <==> forall|a: Action|
            !#[trigger] asks_for(a, vk, ctrl, shift),
{
    if let EditingKey::Perform(a) = editing_key(vk, false, ctrl, shift) {
        assert(asks_for(a, vk, ctrl, shift));
    }
}

/// The editing keys and the key events mean the same key: what a key does to the text agrees with
/// the name that it is reported under.
pub proof fn law_actions_agree_with_names(vk: u32, ctrl: bool, shift: bool, movement: Movement)
    ensures
        ({
            let name = name_of(code_of(vk as int));
            let moves = key_action(vk, ctrl, shift) == Some(
                if shift {
                    Action::MoveSelecting(movement)
                } else {
                    Action::Move(movement)
                },
            );
            let left = HorizontalDirection::Left;
            let right = HorizontalDirection::Right;
            &&& moves && (movement == Movement::Grapheme(left) || movement == Movement::Word(left))
                ==> name == Some(NamedKey::ArrowLeft)
            &&& moves && (movement == Movement::Grapheme(right) || movement == Movement::Word(
                right,
            )) ==> name == Some(NamedKey::ArrowRight)
            &&& moves && (movement == Movement::Line(left) || movement == Movement::Document(left))
                ==> name == Some(NamedKey::Home)
            &&& moves && (movement == Movement::Line(right) || movement == Movement::Document(
                right,
            )) ==> name == Some(NamedKey::End)
            &&& moves && movement == Movement::Vertical(VerticalDirection::Up) ==> name == Some(
                NamedKey::ArrowUp,
            )
            &&& moves && movement == Movement::Vertical(VerticalDirection::Down) ==> name == Some(
                NamedKey::ArrowDown,
            )
            &&& moves && movement == Movement::Vertical(VerticalDirection::PageUp) ==> name == Some(
                NamedKey::PageUp,
            )
            &&& moves && movement == Movement::Vertical(VerticalDirection::PageDown) ==> name
                == Some(NamedKey::PageDown)
            &&& key_action(vk, ctrl, shift) == Some(Action::Delete(Movement::Grapheme(left)))
                ==> name == Some(NamedKey::Backspace)
            &&& key_action(vk, ctrl, shift) == Some(Action::Delete(Movement::Grapheme(right)))
                ==> name == Some(NamedKey::Delete)
            &&& key_action(vk, ctrl, shift) == Some(Action::InsertNewLine) ==> name == Some(
                NamedKey::Enter,
            )
            &&& key_action(vk, ctrl, shift) == Some(Action::Cancel) ==> name == Some(
                NamedKey::Escape,
            )
        }),
{
}

/// A composition has for itself the keys that edit or move within a line, with or without
/// modifiers; keys that move between lines, shortcuts and all others pass.
pub proof fn law_composition_keys(vk: u32, ctrl: bool, shift: bool)
    ensures
        editing_key(vk, true, ctrl, shift) is Swallow <==> (key_action(vk, false, false) is Some
            && !(key_action(vk, false, false) matches Some(Action::Move(Movement::Vertical(_))))),
        editing_key(vk, true, ctrl, shift) is Swallow || editing_key(vk, true, ctrl, shift) is Pass,
{
}

/// Without a handler nothing gets the text of a key, and every key-down that was not consumed
/// becomes a key event. An action is consumed exactly where a handler says that it performed it.
pub proof fn law_keys_without_handler(key: EditingKey, text_key: bool)
    ensures
        surfaces(consumed(key, None), false, text_key) <==> key !is Swallow,
        key is Perform ==> consumed(key, Some(true)) && !consumed(key, Some(false)),
        key is Pass ==> !consumed(key, Some(true)),
        key is Swallow ==> consumed(key, Some(false)),
{
}

/// A key is a text key exactly where it types a character and is the key of no action.
pub proof fn law_text_keys(vk: u32, mapped: u32, modifiers: Modifiers)
    ensures
        types_text(vk, mapped, modifiers) <==> {
            &&& character(mapped, modifiers.has(SHIFT), modifiers.has(CAPS_LOCK)) is Some
            &&& forall|a: Action|
                !#[trigger] asks_for(a, vk, modifiers.has(CONTROL), modifiers.has(SHIFT))
        },
{
    law_action_has_its_key(vk, modifiers.has(CONTROL), modifiers.has(SHIFT), Action::Cancel);
}

/// While a composition is open, no key performs an editing action.
pub proof fn law_composing_performs_nothing(vk: u32, ctrl: bool, shift: bool)
    ensures
        editing_key(vk, true, ctrl, shift) !is Perform,
{
}

/// A key that types text is never an editing key at the same time: with or without a
/// composition, it is neither swallowed nor turned into an action.
pub proof fn law_text_keys_do_not_edit(vk: u32, mapped: u32, modifiers: Modifiers, composing: bool)
    requires
        types_text(vk, mapped, modifiers),
    ensures
        editing_key(vk, composing, modifiers.has(CONTROL), modifiers.has(SHIFT)) is Pass,
{
}

/// While a handler has the focus, every key-down goes exactly one way: it is consumed by editing,
/// or its text follows as a character message, or it becomes a key event.
pub proof fn law_key_goes_one_way(
    vk: u32,
    mapped: u32,
    modifiers: Modifiers,
    composing: bool,
    handled: Option<bool>,
)
    ensures
        ({
            let key = editing_key(vk, composing, modifiers.has(CONTROL), modifiers.has(SHIFT));
            let edits = consumed(key, handled);
            let types = types_text(vk, mapped, modifiers);
            let event = surfaces(edits, true, types);
            &&& edits || types || event
            &&& !(edits && types)
            &&& !(edits && event)
            &&& !(types && event)
        }),
{
}

/// Shift changes which end of the selection moves and nothing else about a movement.
pub proof fn law_shift_selects(vk: u32, ctrl: bool, movement: Movement)
    ensures
        key_action(vk, ctrl, false) == Some(Action::Move(movement)) <==> key_action(vk, ctrl, true)
            == Some(Action::MoveSelecting(movement)),
{
}

/// Whether `c` is a control character.
pub open spec fn is_control(c: char) -> bool {
    (c as u32) < 0x20 || 0x7F <= c as u32 <= 0x9F
}

/// The control characters are the two columns at the start of each half of the first 256
/// characters, and Delete.
pub proof fn law_control_characters(c: char)
    ensures
        is_control(c) <==> (c as int) < 0x100 && (c as int) % 0x80 < 0x20 || c as int == 0x7F,
{
}

/// The range that new text takes the place of: the composition where one is open, else the
/// selection.
pub open spec fn target(state: InputState) -> TextRange {
    match state.composition {
        Some(range) => range,
        None => state.selection,
    }
}

/// The empty range at `at`.
pub open spec fn caret(at: int) -> TextRange {
    TextRange { start: at as usize, end: at as usize }
}

/// The edits that put `text` in the place of the target and the caret behind it.
pub open spec fn insertion(state: InputState, text: Seq<char>) -> Seq<EditView> {
    seq![
        EditView::ReplaceRange(target(state), text),
        EditView::SetSelection(caret(target(state).start + encode_utf8(text).len())),
        EditView::SetCompositionRange(None),
    ]
}

/// Where the caret stands in a composition, in bytes: where the input method says, as far as
/// that is between two characters, else at the end.
pub open spec fn composition_caret(preedit: Seq<char>, cursor: Option<usize>) -> int {
    let end = encode_utf8(preedit).len() as int;
    match cursor {
        Some(units) => match utf8_offset(preedit, units as int) {
            Some(offset) => offset,
            None => end,
        },
        None => end,
    }
}

/// The edits that make `preedit` the composition. An empty one drops the composition.
pub open spec fn composition(
    state: InputState,
    preedit: Seq<char>,
    cursor: Option<usize>,
) -> Seq<EditView> {
    let range = target(state);
    if preedit.len() == 0 {
        let rest = seq![
            EditView::SetCompositionRange(None),
            EditView::SetSelection(caret(range.start as int)),
        ];
        if state.composition is Some {
            seq![EditView::ReplaceRange(range, preedit)] + rest
        } else {
            rest
        }
    } else {
        seq![
            EditView::ReplaceRange(range, preedit),
            EditView::SetCompositionRange(
                Some(
                    TextRange {
                        start: range.start,
                        end: (range.start + encode_utf8(preedit).len()) as usize,
                    },
                ),
            ),
            EditView::SetSelection(caret(range.start + composition_caret(preedit, cursor))),
        ]
    }
}

/// The views of a list of edits are those of its edits, one for one.
pub proof fn law_views(edits: Seq<Edit>, i: int)
    ensures
        views(edits).len() == edits.len(),
        0 <= i < edits.len() ==> views(edits)[i] == edits[i]@,
{
}

/// The view of an edit says all of it.
pub proof fn law_edit_view(a: Edit, b: Edit)
    requires
        a@ == b@,
    ensures
        match a {
            Edit::ReplaceRange(range, text) => b matches Edit::ReplaceRange(r, t) && r == range
                && t@ == text@,
            Edit::SetSelection(range) => b == Edit::SetSelection(range),
            Edit::SetCompositionRange(range) => b == Edit::SetCompositionRange(range),
        },
{
}

/// The caret of a composition stands where the input method says: behind as many bytes as the
/// characters in front of it have, if it counts up to the end of a character; at the end where it
/// says nothing, where it counts past the end, and where it counts into the middle of one.
pub proof fn law_composition_caret(preedit: Seq<char>, k: int, cursor: usize)
    requires
        0 <= k <= preedit.len(),
    ensures
        composition_caret(preedit, None) == encode_utf8(preedit).len(),
        cursor == units_of(preedit.take(k)).len() ==> composition_caret(preedit, Some(cursor))
            == encode_utf8(preedit.take(k)).len(),
        cursor >= units_of(preedit).len() ==> composition_caret(preedit, Some(cursor))
            == encode_utf8(preedit).len(),
        k < preedit.len() && preedit[k] as u32 >= 0x10000 && cursor == units_of(
            preedit.take(k),
        ).len() + 1 ==> composition_caret(preedit, Some(cursor)) == encode_utf8(preedit).len(),
{
    crate::offset::law_offset_of_prefix(preedit, k);
    crate::offset::law_offset_past_end(preedit, cursor as int);
    if k < preedit.len() && preedit[k] as u32 >= 0x10000 {
        crate::offset::law_offset_inside_pair(preedit, k);
    }
}

/// The range that new text takes the place of, which is also what the windows of the input method
/// are put next to.
pub fn target_range(state: InputState) -> (range: TextRange)
    ensures
        range == target(state),
        state.composition is Some ==> Some(range) == state.composition,
        state.composition is None ==> range == state.selection,
{
    match state.composition {
        Some(range) => range,
        None => state.selection,
    }
}

/// Inserts text: it takes the place of the composition, or else of the selection, and the caret
/// goes behind it.
pub fn insert_text(state: InputState, text: &str) -> (edits: Vec<Edit>)
    requires
        target(state).start + encode_utf8(text@).len() <= usize::MAX,
    ensures
        views(edits@) == insertion(state, text@),
{
    let range: TextRange = target_range(state);
    let end: usize = range.start + byte_len(text);
    let mut edits: Vec<Edit> = Vec::new();
    edits.push(Edit::ReplaceRange(range, text.to_owned()));
    edits.push(Edit::SetSelection(TextRange { start: end, end }));
    edits.push(Edit::SetCompositionRange(None));
    assert(views(edits@) =~= insertion(state, text@));
    edits
}

/// What a typed character leads to.
#[derive(PartialEq, Eq, Debug)]
pub struct Typed {
    /// The edits for the handler.
    pub edits: Vec<Edit>,
    /// Whether the focused node is told of a change and the window redrawn.
    pub sync: bool,
}

/// Applies a plain character. Control characters are left to the editing keys. Text is dropped
/// while a composition is open, so that its text comes from the input method only; `state` is
/// `None` where no handler has the focus.
pub fn insert_character(state: Option<InputState>, c: char) -> (typed: Typed)
    requires
        state matches Some(s) ==> (!is_control(c) && s.composition is None ==> s.selection.start
            + encode_utf8(seq![c]).len() <= usize::MAX),
    ensures
        typed.sync == !is_control(c),
        views(typed.edits@) == match state {
            Some(s) if !is_control(c) && s.composition is None => insertion(s, seq![c]),
            _ => seq![],
        },
{
    let code: u32 = c as u32;
    let mut edits: Vec<Edit> = Vec::new();
    assert(views(edits@) =~= seq![]);
    if code < 0x20 || (0x7F <= code && code <= 0x9F) {
        return Typed { edits, sync: false };
    }
    if let Some(state) = state {
        if state.composition.is_none() {
            let mut text: String = String::new();
            text.push(c);
            assert(text@ =~= seq![c]);
            edits = insert_text(state, text.as_str());
        }
    }
    Typed { edits, sync: true }
}

/// The bit of a composition message that says that text was committed.
pub const GCS_RESULTSTR: u32 = 0x800;

/// The bit of a composition message that says that the composition changed.
pub const GCS_COMPSTR: u32 = 0x008;

/// Whether a composition message brings committed text.
pub fn has_commit(flags: u32) -> (yes: bool)
    ensures
        yes == (flags & GCS_RESULTSTR != 0),
{
    flags & GCS_RESULTSTR != 0
}

/// Whether a composition message brings a new composition.
pub fn has_preedit(flags: u32) -> (yes: bool)
    ensures
        yes == (flags & GCS_COMPSTR != 0),
{
    flags & GCS_COMPSTR != 0
}

/// The first half of a composition message: commits `result`, the text that the input method
/// hands out, if the message brings any. The message may go on with a new composition, so this
/// comes before [`compose`]; the result is `None` where there is nothing to do.
pub fn commit(flags: u32, result: Option<&str>, state: InputState) -> (edits: Option<Vec<Edit>>)
    requires
        flags & GCS_RESULTSTR != 0 && result is Some ==> target(state).start + encode_utf8(
            result->0@,
        ).len() <= usize::MAX,
    ensures
        match result {
            Some(text) if flags & GCS_RESULTSTR != 0 => edits matches Some(e) && views(e@)
                == insertion(state, text@),
            _ => edits is None,
        },
{
    if !has_commit(flags) {
        return None;
    }
    match result {
        Some(text) => Some(insert_text(state, text)),
        None => None,
    }
}

/// The text that is being composed, where the input method reports `size` bytes of it and `read`
/// is what could be read. No bytes are an empty text while a composition is open, and nothing
/// otherwise; a negative size means that there is none.
pub open spec fn reported_preedit(
    size: i32,
    read: Option<&str>,
    composing: bool,
) -> Option<Seq<char>> {
    if size == 0 {
        if composing {
            Some(seq![])
        } else {
            None
        }
    } else if size < 0 {
        None
    } else {
        match read {
            Some(text) => Some(text@),
            None => None,
        }
    }
}

/// A pre-edit is there where the input method has bytes of it and they could be read, and it is
/// what was read. Where it has none left it is an empty one, if one is open that this ends. An
/// error is never a pre-edit.
pub proof fn law_reported_preedit(size: i32, read: Option<&str>, composing: bool)
    ensures
        size > 0 ==> (reported_preedit(size, read, composing) is Some <==> read is Some),
        size > 0 && read is Some ==> reported_preedit(size, read, composing) == Some(read->0@),
        size == 0 ==> (reported_preedit(size, read, composing) is Some <==> composing),
        size == 0 && composing ==> (reported_preedit(size, read, composing) matches Some(text)
            && text.len() == 0),
        size < 0 ==> reported_preedit(size, read, composing) is None,
{
}

/// The second half of a composition message: shows the text that is being composed, if the
/// message brings any. The input method reports `size` bytes of it, and `preedit` is what could
/// be read. Where no bytes are left, the composition that is open is dropped; with none open there
/// is nothing to do. `cursor` is the caret in it, in UTF-16 code units.
pub fn compose(
    flags: u32,
    size: i32,
    preedit: Option<&str>,
    cursor: Option<usize>,
    state: InputState,
) -> (edits: Option<Vec<Edit>>)
    requires
        flags & GCS_COMPSTR != 0 ==> (reported_preedit(
            size,
            preedit,
            state.composition is Some,
        ) matches Some(text) ==> target(state).start + encode_utf8(text).len() <= usize::MAX),
    ensures
        match reported_preedit(size, preedit, state.composition is Some) {
            Some(text) if flags & GCS_COMPSTR != 0 => edits matches Some(e) && views(e@)
                == composition(state, text, cursor),
            _ => edits is None,
        },
{
    if !has_preedit(flags) || size < 0 || (size == 0 && state.composition.is_none()) {
        return None;
    }
    let preedit: &str = if size == 0 {
        proof {
            reveal_strlit("");
        }
        assert(""@ =~= Seq::<char>::empty());
        ""
    } else {
        match preedit {
            Some(text) => text,
            None => {
                return None;
            },
        }
    };
    let range: TextRange = target_range(state);
    let start: usize = range.start;
    let mut edits: Vec<Edit> = Vec::new();
    if preedit.is_empty() {
        if state.composition.is_some() {
            edits.push(Edit::ReplaceRange(range, preedit.to_owned()));
        }
        edits.push(Edit::SetCompositionRange(None));
        edits.push(Edit::SetSelection(TextRange { start, end: start }));
    } else {
        let end: usize = start + byte_len(preedit);
        edits.push(Edit::ReplaceRange(range, preedit.to_owned()));
        edits.push(Edit::SetCompositionRange(Some(TextRange { start, end })));
        let offset: Option<usize> = match cursor {
            Some(units) => utf16_offset_to_utf8(preedit, units),
            None => None,
        };
        let at: usize = match offset {
            Some(offset) => {
                proof {
                    crate::offset::law_offset_is_boundary(preedit@, cursor->0 as int);
                }
                start + offset
            },
            None => end,
        };
        edits.push(Edit::SetSelection(TextRange { start: at, end: at }));
    }
    assert(views(edits@) =~= composition(state, preedit@, cursor));
    Some(edits)
}

/// What is to be done for a composition message.
#[derive(Clone, Copy, PartialEq, Eq, Structural, Debug)]
pub enum ImeStep {
    /// Nothing was done yet.
    Start,
    /// Read the committed text and the state of the handler, and [`commit`].
    Commit,
    /// Read the composed text and, again, the state of the handler, and [`compose`].
    Compose,
    /// Move the windows of the input method to the caret.
    Position,
    /// Tell the focused node of the change, and redraw.
    Notify,
    /// Nothing more.
    Finished,
}

/// What follows `step`, where `edited` says whether the handler was given any edits so far. One
/// message can bring committed text and the composition after it, so committing goes first; the
/// rest is for messages that changed something.
pub open spec fn ime_step_after(step: ImeStep, flags: u32, edited: bool) -> ImeStep {
    let followed_up = if edited {
        ImeStep::Position
    } else {
        ImeStep::Finished
    };
    let composed = if flags & GCS_COMPSTR != 0 {
        ImeStep::Compose
    } else {
        followed_up
    };
    match step {
        ImeStep::Start => if flags & GCS_RESULTSTR != 0 {
            ImeStep::Commit
        } else {
            composed
        },
        ImeStep::Commit => composed,
        ImeStep::Compose => followed_up,
        ImeStep::Position => ImeStep::Notify,
        ImeStep::Notify => ImeStep::Finished,
        ImeStep::Finished => ImeStep::Finished,
    }
}

/// Goes on with a composition message, where `edited` says whether the handler was given any
/// edits so far.
pub fn next_ime_step(step: ImeStep, flags: u32, edited: bool) -> (next: ImeStep)
    ensures
        next == ime_step_after(step, flags, edited),
{
    if step == ImeStep::Start && has_commit(flags) {
        return ImeStep::Commit;
    }
    match step {
        ImeStep::Start | ImeStep::Commit => if has_preedit(flags) {
            ImeStep::Compose
        } else if edited {
            ImeStep::Position
        } else {
            ImeStep::Finished
        },
        ImeStep::Compose => if edited {
            ImeStep::Position
        } else {
            ImeStep::Finished
        },
        ImeStep::Position => ImeStep::Notify,
        ImeStep::Notify => ImeStep::Finished,
        ImeStep::Finished => ImeStep::Finished,
    }
}

/// The steps from `step` on to the end of a message, `fuel` of them at most, where `commits` and
/// `composes` say whether committing and composing gave the handler any edits.
pub open spec fn ime_run(
    step: ImeStep,
    flags: u32,
    edited: bool,
    commits: bool,
    composes: bool,
    fuel: nat,
) -> Seq<ImeStep>
    decreases fuel,
{
    let next = ime_step_after(step, flags, edited);
    if fuel == 0 || next is Finished {
        seq![]
    } else {
        let edits = edited || (next is Commit && commits) || (next is Compose && composes);
        seq![next] + ime_run(next, flags, edits, commits, composes, (fuel - 1) as nat)
    }
}

/// A message is carried out as it says, whatever other bits it has: it commits where the bit for
/// committed text is set, then composes where the bit for composed text is set, and then moves the
/// windows of the input method and tells of the change, if one of the two changed anything.
pub proof fn law_ime_message(flags: u32, commits: bool, composes: bool)
    ensures
        ime_run(ImeStep::Start, flags, false, commits, composes, 6) == {
            let committed = if flags & 0x800 != 0 {
                seq![ImeStep::Commit]
            } else {
                seq![]
            };
            let composed = if flags & 0x008 != 0 {
                seq![ImeStep::Compose]
            } else {
                seq![]
            };
            let told = if (flags & 0x800 != 0 && commits) || (flags & 0x008 != 0 && composes) {
                seq![ImeStep::Position, ImeStep::Notify]
            } else {
                seq![]
            };
            committed + composed + told
        },
{
    reveal_with_fuel(ime_run, 7);
}

/// The place of a step among the others.
pub open spec fn ime_step_rank(step: ImeStep) -> int {
    match step {
        ImeStep::Start => 0,
        ImeStep::Commit => 1,
        ImeStep::Compose => 2,
        ImeStep::Position => 3,
        ImeStep::Notify => 4,
        ImeStep::Finished => 5,
    }
}

/// The steps of a composition message come in order and none comes twice, so that a commit is
/// never behind the composition; both are done exactly where the message brings them; and a
/// message that changed nothing is not followed up.
pub proof fn law_ime_steps(step: ImeStep, flags: u32, edited: bool)
    ensures
        step is Finished || ime_step_rank(step) < ime_step_rank(
            ime_step_after(step, flags, edited),
        ),
        step is Start ==> (ime_step_after(step, flags, edited) is Commit <==> flags & GCS_RESULTSTR
            != 0),
        step is Commit ==> (ime_step_after(step, flags, edited) is Compose <==> flags & GCS_COMPSTR
            != 0),
        ime_step_after(step, flags, edited) is Position ==> edited,
        step is Compose && edited ==> ime_step_after(step, flags, edited) is Position,
{
}

/// The end of a composition: whatever was composed stays as plain text. `None` where no
/// composition is open.
pub fn handle_ime_end(state: Option<InputState>) -> (edit: Option<Edit>)
    ensures
        match state {
            Some(s) if s.composition is Some => edit matches Some(e) && e@
                == EditView::SetCompositionRange(None),
            _ => edit is None,
        },
{
    match state {
        Some(state) => if state.composition.is_some() {
            Some(Edit::SetCompositionRange(None))
        } else {
            None
        },
        None => None,
    }
}

/// Whether a composition is open, so that the keys it needs belong to it.
pub fn has_composition(state: Option<InputState>) -> (yes: bool)
    ensures
        yes == (state matches Some(s) && s.composition is Some),
{
    match state {
        Some(state) => state.composition.is_some(),
        None => false,
    }
}

/// Whether key events are marked as part of a composition: while one is open that is not empty.
pub fn is_composing(state: Option<InputState>) -> (yes: bool)
    ensures
        yes == (state matches Some(s) && s.composition matches Some(range) && range.start
            < range.end),
{
    match state {
        Some(state) => match state.composition {
            Some(range) => range.start < range.end,
            None => false,
        },
        None => false,
    }
}

/// `units` without the NULs at its end.
pub open spec fn without_trailing_nuls(units: Seq<u16>) -> Seq<u16>
    decreases units.len(),
{
    if units.len() > 0 && units.last() == 0 {
        without_trailing_nuls(units.drop_last())
    } else {
        units
    }
}

/// Only NULs are taken off the end, and all of them: what is left is the start of the string and
/// does not end with one.
pub proof fn law_trailing_nuls(units: Seq<u16>)
    ensures
        ({
            let rest = without_trailing_nuls(units);
            &&& rest.len() <= units.len()
            &&& rest == units.take(rest.len() as int)
            &&& forall|i: int| rest.len() <= i < units.len() ==> #[trigger] units[i] == 0
            &&& rest.len() > 0 ==> rest.last() != 0
        }),
    decreases units.len(),
{
    if units.len() > 0 && units.last() == 0 {
        law_trailing_nuls(units.drop_last());
        let rest = without_trailing_nuls(units);
        assert(units.drop_last().take(rest.len() as int) =~= units.take(rest.len() as int));
        assert forall|i: int| rest.len() <= i < units.len() implies #[trigger] units[i] == 0 by {
            if i < units.len() - 1 {
                assert(units.drop_last()[i] == units[i]);
            }
        }
    } else {
        assert(units.take(units.len() as int) =~= units);
    }
}

/// The number of code units to provide for a composition string of `size` bytes: one more than
/// it has, for input methods that append a NUL. `None` where there is nothing to read.
pub fn ime_buffer_len(size: i32) -> (len: Option<usize>)
    ensures
        len == (if size <= 0 {
            None
        } else {
            Some((size / 2 + 1) as usize)
        }),
{
    if size <= 0 {
        return None;
    }
    Some(size as usize / 2 + 1)
}

/// The composition string in `buffer`, of which `copied` bytes were filled in; NULs at its end
/// do not count. `None` where nothing was filled in, be it that there is nothing to read.
pub fn ime_string(buffer: &[u16], copied: i32) -> (text: Option<String>)
    ensures
        text is Some <==> copied > 0,
        text matches Some(t) ==> t@ == lossy(
            decoded(
                without_trailing_nuls(
                    buffer@.take(
                        if copied / 2 < buffer@.len() {
                            copied / 2
                        } else {
                            buffer@.len() as int
                        },
                    ),
                ),
            ),
        ),
{
    if copied <= 0 {
        return None;
    }
    let filled: usize = copied as usize / 2;
    let mut units: usize = if filled < buffer.len() {
        filled
    } else {
        buffer.len()
    };
    let ghost all = buffer@.take(units as int);
    while units > 0 && buffer[units - 1] == 0
        invariant
            units <= buffer@.len(),
            without_trailing_nuls(all) == without_trailing_nuls(buffer@.take(units as int)),
        decreases units,
    {
        assert(buffer@.take(units as int).drop_last() =~= buffer@.take(units - 1));
        units = units - 1;
    }
    let text: String = decode_lossy(vstd::slice::slice_subrange(buffer, 0, units));
    assert(buffer@.subrange(0, units as int) =~= buffer@.take(units as int));
    Some(text)
}

/// The caret within the composition string, in UTF-16 code units, where the input method filled
/// in the four bytes of it.
pub fn ime_cursor_pos(copied: i32, position: u32) -> (cursor: Option<usize>)
    ensures
        cursor == (if copied == 4 {
            Some(position as usize)
        } else {
            None
        }),
{
    if copied == 4 {
        Some(position as usize)
    } else {
        None
    }
}

/// Put the composition window into a rectangle.
pub const CFS_RECT: u32 = 0x01;

/// Keep the candidate window out of a rectangle.
pub const CFS_EXCLUDE: u32 = 0x80;

/// Where the windows of an input method go.
#[derive(Clone, Copy, PartialEq, Eq, Structural, Debug)]
pub struct ImePlacement {
    pub composition_style: u32,
    pub candidate_index: u32,
    pub candidate_style: u32,
    pub area: Rect,
}

/// Places the composition window in the rectangle of the caret, and the first candidate window
/// next to it. Without a caret they stay where they are.
pub fn position_ime_windows(caret: Option<Rect>) -> (placement: Option<ImePlacement>)
    ensures
        placement == match caret {
            Some(area) => Some(
                ImePlacement {
                    composition_style: CFS_RECT,
                    candidate_index: 0,
                    candidate_style: CFS_EXCLUDE,
                    area,
                },
            ),
            None => None,
        },
{
    match caret {
        Some(area) => Some(
            ImePlacement {
                composition_style: CFS_RECT,
                candidate_index: 0,
                candidate_style: CFS_EXCLUDE,
                area,
            },
        ),
        None => None,
    }
}

} // verus!
