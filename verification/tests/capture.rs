use stroke::capture::{CaptureError, CaptureSession, FinishOutcome, StrokeEnd, DEFAULT_WIDTH};
use stroke::render::RenderError;
use stroke::document::{Canvas, Document, Point, PointerType};

fn pt(x: f64, y: f64, t: f64) -> Point {
    Point { x: x.to_bits(), y: y.to_bits(), t: t.to_bits() }
}

fn blank() -> Document {
    Document::new(1, Canvas::css_px(800.0f64.to_bits(), 600.0f64.to_bits()))
}

#[test]
fn drag_commits_stroke_with_defaults() {
    let mut doc = blank();
    let mut capture = CaptureSession::new();
    assert!(capture.pointer_down(&mut doc, 0, "pen", 10.0f64.to_bits(), 20.0f64.to_bits(), 500.0f64.to_bits()));
    assert_eq!(doc.next_id, 2);
    assert_eq!(capture.started_perf_or(0), 500.0f64.to_bits());
    let prev = capture.pointer_move(pt(11.0, 22.0, 16.0));
    assert_eq!(prev, Some(pt(10.0, 20.0, 0.0)));
    assert_eq!(capture.finish_stroke(StrokeEnd::Commit, &mut doc), FinishOutcome::Committed);
    assert_eq!(doc.strokes.len(), 1);
    let s = &doc.strokes[0];
    assert_eq!(s.id, 1);
    assert_eq!(s.author_id, "local-user");
    assert_eq!(s.tool, "pen");
    assert_eq!(s.color, "#000000");
    assert_eq!(s.width, DEFAULT_WIDTH);
    assert_eq!(f64::from_bits(s.width), 2.0);
    assert_eq!(s.pointer_type, PointerType::Pen);
    assert_eq!(s.points, vec![pt(10.0, 20.0, 0.0), pt(11.0, 22.0, 16.0)]);
    assert!(capture.live_stroke().is_none());
}

#[test]
fn click_without_movement_is_dropped() {
    let mut doc = blank();
    let mut capture = CaptureSession::new();
    assert!(capture.pointer_down(&mut doc, 0, "mouse", 1.0f64.to_bits(), 1.0f64.to_bits(), 0));
    let before = doc.clone();
    assert_eq!(capture.finish_stroke(StrokeEnd::Commit, &mut doc), FinishOutcome::Discarded);
    assert_eq!(doc, before);
}

#[test]
fn cancel_drops_stroke() {
    let mut doc = blank();
    let mut capture = CaptureSession::new();
    assert!(capture.pointer_down(&mut doc, 0, "touch", 1.0f64.to_bits(), 1.0f64.to_bits(), 0));
    capture.pointer_move(pt(2.0, 2.0, 8.0));
    capture.pointer_move(pt(3.0, 3.0, 16.0));
    let before = doc.clone();
    assert_eq!(capture.finish_stroke(StrokeEnd::Cancel, &mut doc), FinishOutcome::Discarded);
    assert_eq!(doc, before);
    assert_eq!(capture.finish_stroke(StrokeEnd::Commit, &mut doc), FinishOutcome::Idle);
}

#[test]
fn secondary_button_starts_nothing() {
    let mut doc = blank();
    let mut capture = CaptureSession::new();
    assert!(!capture.pointer_down(&mut doc, 2, "mouse", 1.0f64.to_bits(), 1.0f64.to_bits(), 0));
    assert_eq!(doc.next_id, 1);
    assert!(capture.live_stroke().is_none());
    assert_eq!(capture.pointer_move(pt(2.0, 2.0, 1.0)), None);
    assert_eq!(capture.started_perf_or(42), 42);
}

#[test]
fn unknown_pointer_and_successive_ids() {
    let mut doc = blank();
    let mut capture = CaptureSession::new();
    for i in 0..3u32 {
        assert!(capture.pointer_down(&mut doc, 0, "stylus-x", 0, 0, 0));
        capture.pointer_move(pt(i as f64, 1.0, 1.0));
        assert_eq!(capture.finish_stroke(StrokeEnd::Commit, &mut doc), FinishOutcome::Committed);
    }
    let ids: Vec<u32> = doc.strokes.iter().map(|s| s.id).collect();
    assert_eq!(ids, vec![1, 2, 3]);
    assert!(doc.strokes.iter().all(|s| s.pointer_type == PointerType::Unknown));
    assert_eq!(doc.next_id, 4);
}

#[test]
fn capture_error_messages() {
    assert_eq!(CaptureError::NoWindow.message(), "no `window` available");
    assert_eq!(CaptureError::NoDocument.message(), "no `document` available");
    assert_eq!(CaptureError::ElementNotFound("stroke-committed").message(), "element `#stroke-committed` not found");
    assert_eq!(CaptureError::NotACanvas("stroke-committed").message(), "element `#stroke-committed` is not a <canvas>");
    assert_eq!(CaptureError::ListenerAttachFailed("pointerdown").message(), "failed to attach event listener `pointerdown`");
}

#[test]
fn render_error_messages() {
    assert_eq!(RenderError::NoWindow.message(), "no `window` available");
    assert_eq!(RenderError::NoDocument.message(), "no `document` available");
    assert_eq!(RenderError::ElementNotFound("stroke-live").message(), "element `#stroke-live` not found");
    assert_eq!(RenderError::NotACanvas("stroke-live").message(), "element `#stroke-live` is not a <canvas>");
    assert_eq!(RenderError::NoContext("stroke-live").message(), "could not obtain a 2D context for `#stroke-live`");
}

#[test]
fn stroke_starts_at_given_instant() {
    let t = stroke::timestamp::Timestamp::from_unix(86400, 7).expect("representable");
    let mut doc = blank();
    let mut capture = CaptureSession::new();
    assert!(capture.pointer_down_at(&mut doc, 0, "pen", 0, 0, 0, t));
    assert_eq!(capture.live_stroke().map(|s| s.started_at), Some(t));
    assert!(!capture.pointer_down_at(&mut doc, 1, "pen", 0, 0, 0, t));
}
