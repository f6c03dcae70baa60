//! Session-local stroke history for undo and redo.
//!
//! History wraps only committed strokes and is never saved: the document is
//! the source of truth for the visible strokes, and the redo stack is
//! transient state of the editing session.
use vstd::prelude::*;
use crate::document::{Document, Stroke, same_but_strokes};
use crate::text::same_text;

verus! {

/// Undo on visible strokes `visible` and redo stack `redo` (top last): the
/// visible strokes, redo stack and "changed" answer afterwards.
pub open spec fn undo_step(visible: Seq<Stroke>, redo: Seq<Stroke>) -> (Seq<Stroke>, Seq<Stroke>, bool) {
    if visible.len() == 0 {
        (visible, redo, false)
    } else {
        (visible.drop_last(), redo.push(visible.last()), true)
    }
}

/// Redo on visible strokes `visible` and redo stack `redo` (top last).
pub open spec fn redo_step(visible: Seq<Stroke>, redo: Seq<Stroke>) -> (Seq<Stroke>, Seq<Stroke>, bool) {
    if redo.len() == 0 {
        (visible, redo, false)
    } else {
        (visible.push(redo.last()), redo.drop_last(), true)
    }
}

/// Every stroke the session can reach by undo and redo, in draw order: the
/// visible strokes followed by the redo stack from its top down.
pub open spec fn timeline(visible: Seq<Stroke>, redo: Seq<Stroke>) -> Seq<Stroke> {
    visible + redo.reverse()
}

/// A history command given from the keyboard.
#[derive(Clone, Copy, Debug, PartialEq, Eq)]
pub enum HistoryCommand {
    Undo,
    Redo,
}

/// The history command of a key press: `Ctrl+Z` undoes, `Ctrl+Y` and
/// `Ctrl+Shift+Z` redo (the key in either case); anything else is none.
pub open spec fn shortcut_command(key: Seq<char>, ctrl: bool, shift: bool) -> Option<HistoryCommand> {
    if !ctrl {
        None
    } else if key == "z"@ || key == "Z"@ {
        if shift {
            Some(HistoryCommand::Redo)
        } else {
            Some(HistoryCommand::Undo)
        }
    } else if key == "y"@ || key == "Y"@ {
        Some(HistoryCommand::Redo)
    } else {
        None
    }
}

/// The history command of a key press with `KeyboardEvent.key` value `key`
/// and the Control and Shift modifiers `ctrl`, `shift`.
pub fn history_shortcut(key: &str, ctrl: bool, shift: bool) -> (res: Option<HistoryCommand>)
    ensures
        res == shortcut_command(key@, ctrl, shift),
{
    if !ctrl {
        None
    } else if same_text(key, "z") || same_text(key, "Z") {
        if shift {
            Some(HistoryCommand::Redo)
        } else {
            Some(HistoryCommand::Undo)
        }
    } else if same_text(key, "y") || same_text(key, "Y") {
        Some(HistoryCommand::Redo)
    } else {
        None
    }
}

/// Session-local undo/redo state for committed strokes.
#[derive(Debug)]
pub struct StrokeHistory {
    redo_stack: Vec<Stroke>,
}

impl View for StrokeHistory {
    type V = Seq<Stroke>;

    /// The redo stack, bottom first.
    closed spec fn view(&self) -> Seq<Stroke> {
        self.redo_stack@
    }
}

impl StrokeHistory {
    /// An empty history.
    pub fn new() -> (res: StrokeHistory)
        ensures
            res@ == Seq::<Stroke>::empty(),
    {
        StrokeHistory { redo_stack: Vec::new() }
    }

    /// Record that a new stroke was committed: the redo path is void.
    pub fn record_new_stroke(&mut self)
        ensures
            final(self)@ == Seq::<Stroke>::empty(),
    {
        self.redo_stack.clear();
    }

    /// Remove the most recent visible stroke and make it redoable.
    ///
    /// Returns `true` when the document changed, `false` for an empty document.
    pub fn undo(&mut self, document: &mut Document) -> (changed: bool)
        ensures
            (final(document).strokes@, final(self)@, changed) == undo_step(
                old(document).strokes@,
                old(self)@,
            ),
            same_but_strokes(*final(document), *old(document)),
    {
        match document.strokes.pop() {
            Some(stroke) => {
                self.redo_stack.push(stroke);
                true
            },
            None => false,
        }
    }

    /// Restore the most recently undone stroke.
    ///
    /// Returns `true` when the document changed, `false` for an empty redo stack.
    pub fn redo(&mut self, document: &mut Document) -> (changed: bool)
        ensures
            (final(document).strokes@, final(self)@, changed) == redo_step(
                old(document).strokes@,
                old(self)@,
            ),
            same_but_strokes(*final(document), *old(document)),
    {
        match self.redo_stack.pop() {
            Some(stroke) => {
                document.strokes.push(stroke);
                true
            },
            None => false,
        }
    }

    /// Forget all transient history (after Open and New).
    pub fn clear(&mut self)
        ensures
            final(self)@ == Seq::<Stroke>::empty(),
    {
        self.redo_stack.clear();
    }
}

/// Redo right after an undo that changed the document restores exactly the
/// strokes and redo stack from before the undo.
pub proof fn lemma_redo_reverts_undo(visible: Seq<Stroke>, redo: Seq<Stroke>)
    requires
        undo_step(visible, redo).2,
    ensures
        redo_step(undo_step(visible, redo).0, undo_step(visible, redo).1)
            == (visible, redo, true),
{
    let u = undo_step(visible, redo);
    assert(u.0.push(u.1.last()) =~= visible);
    assert(u.1.drop_last() =~= redo);
}

/// Undo right after a redo that changed the document restores exactly the
/// strokes and redo stack from before the redo.
pub proof fn lemma_undo_reverts_redo(visible: Seq<Stroke>, redo: Seq<Stroke>)
    requires
        redo_step(visible, redo).2,
    ensures
        undo_step(redo_step(visible, redo).0, redo_step(visible, redo).1)
            == (visible, redo, true),
{
    let r = redo_step(visible, redo);
    assert(r.0.drop_last() =~= visible);
    assert(r.1.push(r.0.last()) =~= redo);
}

/// Undo changes the document exactly when there is a visible stroke, and
/// redo exactly when the redo stack is not empty; otherwise both leave
/// everything as it was.
pub proof fn lemma_noop_on_empty(visible: Seq<Stroke>, redo: Seq<Stroke>)
    ensures
        undo_step(visible, redo).2 <==> visible.len() > 0,
        redo_step(visible, redo).2 <==> redo.len() > 0,
        visible.len() == 0 ==> undo_step(visible, redo) == (visible, redo, false),
        redo.len() == 0 ==> redo_step(visible, redo) == (visible, redo, false),
{
}

/// Undo and redo only move strokes between the document and the redo stack:
/// the timeline of reachable strokes stays the same.
pub proof fn lemma_timeline_preserved(visible: Seq<Stroke>, redo: Seq<Stroke>)
    ensures
        timeline(undo_step(visible, redo).0, undo_step(visible, redo).1) == timeline(visible, redo),
        timeline(redo_step(visible, redo).0, redo_step(visible, redo).1) == timeline(visible, redo),
{
    if visible.len() > 0 {
        let u = undo_step(visible, redo);
        assert(u.1.reverse() =~= seq![visible.last()] + redo.reverse());
        assert(timeline(u.0, u.1) =~= timeline(visible, redo));
    }
    if redo.len() > 0 {
        let r = redo_step(visible, redo);
        assert(redo.reverse() =~= seq![redo.last()] + r.1.reverse());
        assert(timeline(r.0, r.1) =~= timeline(visible, redo));
    }
}

/// Undo and redo keep the number of strokes in the document and on the redo
/// stack together; undo never adds a visible stroke and redo never removes one.
pub proof fn lemma_undo_shrinks_redo_grows(visible: Seq<Stroke>, redo: Seq<Stroke>)
    ensures
        undo_step(visible, redo).0.len() + undo_step(visible, redo).1.len() == visible.len() + redo.len(),
        redo_step(visible, redo).0.len() + redo_step(visible, redo).1.len() == visible.len() + redo.len(),
        undo_step(visible, redo).0.len() <= visible.len(),
        redo_step(visible, redo).0.len() >= visible.len(),
{
}

} // verus!
