//! What the edits of [`crate::ime`] amount to: a model of the text behind an input handler, and
//! the laws of typing and composing on it.

use crate::ime::{caret, composition, composition_caret, insertion, target};
use crate::ime::{EditView, InputState, TextRange};
use vstd::prelude::*;
use vstd::utf8::encode_utf8;

verus! {

/// A text in UTF-8 with the selection and the composition in it.
pub struct Document {
    pub text: Seq<u8>,
    pub state: InputState,
}

/// Whether `range` lies in a text of `len` bytes.
pub open spec fn lies_in(range: TextRange, len: int) -> bool {
    range.start <= range.end <= len
}

impl Document {
    /// The place that new text goes to lies in the text.
    pub open spec fn wf(self) -> bool {
        lies_in(target(self.state), self.text.len() as int)
    }

    /// The bytes in front of the place that new text goes to.
    pub open spec fn before(self) -> Seq<u8> {
        self.text.take(target(self.state).start as int)
    }

    /// The bytes behind the place that new text goes to.
    pub open spec fn after(self) -> Seq<u8> {
        self.text.skip(target(self.state).end as int)
    }

    /// The document after one edit.
    pub open spec fn apply(self, edit: EditView) -> Document {
        match edit {
            EditView::ReplaceRange(range, text) => Document {
                text: self.text.take(range.start as int) + encode_utf8(text) + self.text.skip(
                    range.end as int,
                ),
                ..self
            },
            EditView::SetSelection(range) => Document {
                state: InputState { selection: range, ..self.state },
                ..self
            },
            EditView::SetCompositionRange(range) => Document {
                state: InputState { composition: range, ..self.state },
                ..self
            },
        }
    }

    /// The document after a list of edits.
    pub open spec fn apply_all(self, edits: Seq<EditView>) -> Document
        decreases edits.len(),
    {
        if edits.len() == 0 {
            self
        } else {
            self.apply(edits[0]).apply_all(edits.drop_first())
        }
    }

    /// The document after `text` was typed or committed.
    pub open spec fn inserted(self, text: Seq<char>) -> Document {
        self.apply_all(insertion(self.state, text))
    }

    /// The document after `preedit` became the composition.
    pub open spec fn composed(self, preedit: Seq<char>, cursor: Option<usize>) -> Document {
        self.apply_all(composition(self.state, preedit, cursor))
    }
}

/// Three edits, one after the other.
proof fn lemma_apply_three(doc: Document, a: EditView, b: EditView, c: EditView)
    ensures
        doc.apply_all(seq![a, b, c]) == doc.apply(a).apply(b).apply(c),
{
    reveal_with_fuel(Document::apply_all, 4);
    assert(seq![a, b, c].drop_first() =~= seq![b, c]);
    assert(seq![b, c].drop_first() =~= seq![c]);
    assert(seq![c].drop_first() =~= Seq::<EditView>::empty());
}

/// Two edits, one after the other.
proof fn lemma_apply_two(doc: Document, a: EditView, b: EditView)
    ensures
        doc.apply_all(seq![a, b]) == doc.apply(a).apply(b),
{
    reveal_with_fuel(Document::apply_all, 3);
    assert(seq![a, b].drop_first() =~= seq![b]);
    assert(seq![b].drop_first() =~= Seq::<EditView>::empty());
}

/// Typed or committed text takes the place of the composition, or else of the selection; the
/// rest of the text stays, the caret stands behind the new text, and no composition is left.
pub proof fn law_insertion(doc: Document, text: Seq<char>)
    requires
        doc.wf(),
    ensures
        doc.inserted(text).text == doc.before() + encode_utf8(text) + doc.after(),
        doc.inserted(text).state.selection == caret(
            target(doc.state).start + encode_utf8(text).len(),
        ),
        doc.inserted(text).state.composition is None,
{
    let edits = insertion(doc.state, text);
    lemma_apply_three(doc, edits[0], edits[1], edits[2]);
}

/// With no composition open, typed or committed text takes the place of exactly what is selected:
/// what is in front of the selection and what is behind it stays, and the caret goes behind the
/// new text.
pub proof fn law_typing_replaces_selection(doc: Document, text: Seq<char>)
    requires
        doc.state.composition is None,
        doc.state.selection.start <= doc.state.selection.end <= doc.text.len(),
        doc.state.selection.start + encode_utf8(text).len() <= usize::MAX,
    ensures
        doc.inserted(text).text == doc.text.take(doc.state.selection.start as int) + encode_utf8(
            text,
        ) + doc.text.skip(doc.state.selection.end as int),
        doc.inserted(text).state.selection.start == doc.state.selection.start + encode_utf8(
            text,
        ).len(),
        doc.inserted(text).state.selection.end == doc.inserted(text).state.selection.start,
        doc.inserted(text).state.composition is None,
{
    law_insertion(doc, text);
}

/// With a composition open, committed text takes the place of exactly what was composed, wherever
/// the selection is: the rest stays, the caret goes behind the new text, and the composition ends.
pub proof fn law_commit_replaces_what_was_composed(doc: Document, range: TextRange, text: Seq<char>)
    requires
        doc.state.composition == Some(range),
        range.start <= range.end <= doc.text.len(),
        range.start + encode_utf8(text).len() <= usize::MAX,
    ensures
        doc.inserted(text).text == doc.text.take(range.start as int) + encode_utf8(text)
            + doc.text.skip(range.end as int),
        doc.inserted(text).state.selection.start == range.start + encode_utf8(text).len(),
        doc.inserted(text).state.selection.end == doc.inserted(text).state.selection.start,
        doc.inserted(text).state.composition is None,
{
    law_insertion(doc, text);
}

/// With none open, a composition starts in the place of exactly what is selected; it is marked
/// from its first byte to its last, and the caret stands in it.
pub proof fn law_composition_starts(doc: Document, preedit: Seq<char>, cursor: Option<usize>)
    requires
        doc.state.composition is None,
        doc.state.selection.start <= doc.state.selection.end <= doc.text.len(),
        doc.state.selection.start + encode_utf8(preedit).len() <= usize::MAX,
        preedit.len() > 0,
    ensures
        ({
            let selected = doc.state.selection;
            let next = doc.composed(preedit, cursor);
            &&& next.text == doc.text.take(selected.start as int) + encode_utf8(preedit) + doc.text.skip(
                selected.end as int,
            )
            &&& next.state.composition matches Some(marked)
            &&& marked.start == selected.start
            &&& marked.end == selected.start + encode_utf8(preedit).len()
            &&& next.state.selection.start == selected.start + composition_caret(preedit, cursor)
            &&& next.state.selection.end == next.state.selection.start
            &&& marked.start <= next.state.selection.start <= marked.end
        }),
{
    law_composition(doc, preedit, cursor);
}

/// With one open, a composition is updated in its place: the new text takes the place of exactly
/// what was composed before, is marked from its first byte to its last, and has the caret in it.
pub proof fn law_composition_goes_on(
    doc: Document,
    range: TextRange,
    preedit: Seq<char>,
    cursor: Option<usize>,
)
    requires
        doc.state.composition == Some(range),
        range.start <= range.end <= doc.text.len(),
        range.start + encode_utf8(preedit).len() <= usize::MAX,
        preedit.len() > 0,
    ensures
        ({
            let next = doc.composed(preedit, cursor);
            &&& next.text == doc.text.take(range.start as int) + encode_utf8(preedit)
                + doc.text.skip(range.end as int)
            &&& next.state.composition matches Some(marked)
            &&& marked.start == range.start
            &&& marked.end == range.start + encode_utf8(preedit).len()
            &&& next.state.selection.start == range.start + composition_caret(preedit, cursor)
            &&& next.state.selection.end == next.state.selection.start
            &&& marked.start <= next.state.selection.start <= marked.end
        }),
{
    law_composition(doc, preedit, cursor);
}

/// An emptied composition goes with exactly what was composed, and leaves the caret in its place.
/// An empty one that was never opened takes nothing out of the text.
pub proof fn law_composition_is_dropped(doc: Document, cursor: Option<usize>)
    ensures
        doc.state.composition matches Some(range) ==> range.start <= range.end <= doc.text.len()
            ==> {
            let next = doc.composed(seq![], cursor);
            &&& next.text == doc.text.take(range.start as int) + doc.text.skip(range.end as int)
            &&& next.state.composition is None
            &&& next.state.selection.start == range.start
            &&& next.state.selection.end == range.start
        },
        doc.state.composition is None && doc.state.selection.start <= doc.state.selection.end
            <= doc.text.len() ==> {
            let next = doc.composed(seq![], cursor);
            &&& next.text == doc.text
            &&& next.state.composition is None
            &&& next.state.selection.start == doc.state.selection.start
            &&& next.state.selection.end == doc.state.selection.start
        },
{
    if doc.wf() {
        law_empty_composition(doc, cursor);
    }
}

/// Text that is typed piece by piece comes to the same as text that is typed at once.
pub proof fn law_typing_accumulates(doc: Document, first: Seq<char>, second: Seq<char>)
    requires
        doc.wf(),
        target(doc.state).start + encode_utf8(first + second).len() <= usize::MAX,
    ensures
        doc.inserted(first).inserted(second) == doc.inserted(first + second),
{
    crate::offset::lemma_utf8_concat(first, second);
    law_insertion(doc, first);
    law_insertion(doc, first + second);
    let next = doc.inserted(first);
    law_insertion(next, second);
    assert(next.before() =~= doc.before() + encode_utf8(first));
    assert(next.after() =~= doc.after());
    assert(next.inserted(second).text =~= doc.inserted(first + second).text);
}

/// A composition takes the place of the one before it, or else of the selection; the rest of the
/// text stays, the composition range is exactly the new text, and the caret stands in it.
pub proof fn law_composition(doc: Document, preedit: Seq<char>, cursor: Option<usize>)
    requires
        doc.wf(),
        preedit.len() > 0,
        target(doc.state).start + encode_utf8(preedit).len() <= usize::MAX,
    ensures
        doc.composed(preedit, cursor).text == doc.before() + encode_utf8(preedit) + doc.after(),
        doc.composed(preedit, cursor).state.composition == Some(
            TextRange {
                start: target(doc.state).start,
                end: (target(doc.state).start + encode_utf8(preedit).len()) as usize,
            },
        ),
        doc.composed(preedit, cursor).state.selection == caret(
            target(doc.state).start + composition_caret(preedit, cursor),
        ),
        0 <= composition_caret(preedit, cursor) <= encode_utf8(preedit).len(),
        doc.composed(preedit, cursor).wf(),
        doc.composed(preedit, cursor).before() == doc.before(),
        doc.composed(preedit, cursor).after() == doc.after(),
{
    let edits = composition(doc.state, preedit, cursor);
    lemma_apply_three(doc, edits[0], edits[1], edits[2]);
    if let Some(units) = cursor {
        crate::offset::law_offset_is_boundary(preedit, units as int);
    }
    let next = doc.composed(preedit, cursor);
    assert(next.before() =~= doc.before());
    assert(next.after() =~= doc.after());
}

/// An empty composition drops the one that is open and leaves the caret in its place; with none
/// open the text stays as it is.
pub proof fn law_empty_composition(doc: Document, cursor: Option<usize>)
    requires
        doc.wf(),
    ensures
        doc.state.composition is Some ==> doc.composed(seq![], cursor).text == doc.before()
            + doc.after(),
        doc.state.composition is None ==> doc.composed(seq![], cursor).text == doc.text,
        doc.composed(seq![], cursor).state.composition is None,
        doc.composed(seq![], cursor).state.selection == caret(target(doc.state).start as int),
{
    let edits = composition(doc.state, seq![], cursor);
    if doc.state.composition is Some {
        lemma_apply_three(doc, edits[0], edits[1], edits[2]);
        assert(edits =~= seq![edits[0], edits[1], edits[2]]);
        assert(doc.before() + encode_utf8(Seq::<char>::empty()) + doc.after() =~= doc.before()
            + doc.after());
    } else {
        lemma_apply_two(doc, edits[0], edits[1]);
    }
}

/// Committing after composing comes to the same as typing the committed text at once: nothing of
/// the composed text is left.
pub proof fn law_commit_replaces_composition(
    doc: Document,
    preedit: Seq<char>,
    cursor: Option<usize>,
    text: Seq<char>,
)
    requires
        doc.wf(),
        preedit.len() > 0,
        target(doc.state).start + encode_utf8(preedit).len() <= usize::MAX,
    ensures
        doc.composed(preedit, cursor).inserted(text) == doc.inserted(text),
{
    law_composition(doc, preedit, cursor);
    law_insertion(doc.composed(preedit, cursor), text);
    law_insertion(doc, text);
}

/// One message can commit a text and open the next composition. The committed text then comes
/// first and the composition right behind it, and both together take the place of what was
/// composed or selected before.
pub proof fn law_commit_and_compose(
    doc: Document,
    text: Seq<char>,
    preedit: Seq<char>,
    cursor: Option<usize>,
)
    requires
        doc.wf(),
        preedit.len() > 0,
        target(doc.state).start + encode_utf8(text).len() + encode_utf8(preedit).len()
            <= usize::MAX,
    ensures
        doc.inserted(text).composed(preedit, cursor).text == doc.before() + encode_utf8(text)
            + encode_utf8(preedit) + doc.after(),
        doc.inserted(text).composed(preedit, cursor).state.composition == Some(
            TextRange {
                start: (target(doc.state).start + encode_utf8(text).len()) as usize,
                end: (target(doc.state).start + encode_utf8(text).len() + encode_utf8(
                    preedit,
                ).len()) as usize,
            },
        ),
{
    law_insertion(doc, text);
    let next = doc.inserted(text);
    law_composition(next, preedit, cursor);
    assert(next.before() =~= doc.before() + encode_utf8(text));
    assert(next.after() =~= doc.after());
}

/// Each update of a composition replaces the last one: only the latest is to be seen.
pub proof fn law_composition_replaces_composition(
    doc: Document,
    first: Seq<char>,
    first_cursor: Option<usize>,
    second: Seq<char>,
    second_cursor: Option<usize>,
)
    requires
        doc.wf(),
        first.len() > 0,
        second.len() > 0,
        target(doc.state).start + encode_utf8(first).len() <= usize::MAX,
        target(doc.state).start + encode_utf8(second).len() <= usize::MAX,
    ensures
        doc.composed(first, first_cursor).composed(second, second_cursor) == doc.composed(
            second,
            second_cursor,
        ),
{
    law_composition(doc, first, first_cursor);
    law_composition(doc.composed(first, first_cursor), second, second_cursor);
    law_composition(doc, second, second_cursor);
}

/// A composition that is started at a caret and cancelled leaves the document as it was.
pub proof fn law_cancelled_composition(
    doc: Document,
    preedit: Seq<char>,
    cursor: Option<usize>,
    last_cursor: Option<usize>,
)
    requires
        doc.wf(),
        doc.state.composition is None,
        doc.state.selection.start == doc.state.selection.end,
        preedit.len() > 0,
        target(doc.state).start + encode_utf8(preedit).len() <= usize::MAX,
    ensures
        doc.composed(preedit, cursor).composed(seq![], last_cursor) == doc,
{
    law_composition(doc, preedit, cursor);
    law_empty_composition(doc.composed(preedit, cursor), last_cursor);
    assert(doc.before() + doc.after() =~= doc.text);
}

/// When a composition ends, its text and the caret stay where they are.
pub proof fn law_end_keeps_text(doc: Document)
    ensures
        doc.apply(EditView::SetCompositionRange(None)).text == doc.text,
        doc.apply(EditView::SetCompositionRange(None)).state.selection == doc.state.selection,
        doc.apply(EditView::SetCompositionRange(None)).state.composition is None,
{
}

} // verus!
