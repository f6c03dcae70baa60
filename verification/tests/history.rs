use stroke::document::{Canvas, Document, Point, PointerType, Stroke};
use stroke::history::{history_shortcut, HistoryCommand, StrokeHistory};
use stroke::timestamp::Timestamp;

fn stroke(id: u32) -> Stroke {
    Stroke {
        id,
        author_id: "local-user".to_string(),
        tool: "pen".to_string(),
        color: "#000000".to_string(),
        width: 2.0f64.to_bits(),
        started_at: Timestamp::now(),
        pointer_type: PointerType::Mouse,
        points: vec![
            Point { x: (id as f64).to_bits(), y: 1.0f64.to_bits(), t: 0.0f64.to_bits() },
            Point { x: (id as f64 + 1.0).to_bits(), y: 2.0f64.to_bits(), t: 16.0f64.to_bits() },
        ],
    }
}

fn document_with_strokes(count: u32) -> Document {
    let mut document = Document::new(1, Canvas::css_px(800.0f64.to_bits(), 600.0f64.to_bits()));
    document.strokes = (1..=count).map(stroke).collect();
    document.next_id = count + 1;
    document
}

fn ids(document: &Document) -> Vec<u32> {
    document.strokes.iter().map(|s| s.id).collect()
}

#[test]
fn undo_removes_latest_stroke_and_redo_restores_it() {
    let mut document = document_with_strokes(3);
    let mut history = StrokeHistory::new();

    assert!(history.undo(&mut document));
    assert_eq!(ids(&document), vec![1, 2]);

    assert!(history.redo(&mut document));
    assert_eq!(ids(&document), vec![1, 2, 3]);
}

#[test]
fn empty_undo_and_redo_are_noops() {
    let mut document = document_with_strokes(0);
    let mut history = StrokeHistory::new();

    assert!(!history.undo(&mut document));
    assert!(!history.redo(&mut document));
    assert!(document.strokes.is_empty());
}

#[test]
fn drawing_after_undo_clears_redo_stack() {
    let mut document = document_with_strokes(2);
    let mut history = StrokeHistory::new();

    assert!(history.undo(&mut document));
    document.strokes.push(stroke(3));
    history.record_new_stroke();

    assert!(!history.redo(&mut document));
    assert_eq!(ids(&document), vec![1, 3]);
}

#[test]
fn clear_discards_redo_stack() {
    let mut document = document_with_strokes(1);
    let mut history = StrokeHistory::new();

    assert!(history.undo(&mut document));
    history.clear();

    assert!(!history.redo(&mut document));
}

#[test]
fn undo_twice_then_redo_twice_restores_everything() {
    let mut document = document_with_strokes(3);
    let original = document.clone();
    let mut history = StrokeHistory::new();

    assert!(history.undo(&mut document));
    assert!(history.undo(&mut document));
    assert_eq!(ids(&document), vec![1]);
    assert!(history.redo(&mut document));
    assert_eq!(ids(&document), vec![1, 2]);
    assert!(history.redo(&mut document));
    assert_eq!(document, original);
    assert!(!history.redo(&mut document));
}

#[test]
fn undo_keeps_other_document_fields() {
    let mut document = document_with_strokes(2);
    let mut history = StrokeHistory::new();
    let before = document.clone();
    assert!(history.undo(&mut document));
    assert_eq!(document.next_id, before.next_id);
    assert_eq!(document.schema, before.schema);
    assert_eq!(document.created_at, before.created_at);
    assert_eq!(document.canvas, before.canvas);
}

#[test]
fn keyboard_shortcuts() {
    assert_eq!(history_shortcut("z", true, false), Some(HistoryCommand::Undo));
    assert_eq!(history_shortcut("Z", true, true), Some(HistoryCommand::Redo));
    assert_eq!(history_shortcut("z", true, true), Some(HistoryCommand::Redo));
    assert_eq!(history_shortcut("y", true, false), Some(HistoryCommand::Redo));
    assert_eq!(history_shortcut("Y", true, true), Some(HistoryCommand::Redo));
    assert_eq!(history_shortcut("z", false, false), None);
    assert_eq!(history_shortcut("x", true, false), None);
}
