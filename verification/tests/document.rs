use stroke::document::{Canvas, Document, DocumentError, Point, PointerType, Stroke, SCHEMA_V0_2};
use stroke::timestamp::Timestamp;

fn sample_doc() -> Document {
    let mut doc = Document::new(1, Canvas::css_px(1280.0f64.to_bits(), 800.0f64.to_bits()));
    let id = doc.allocate_id();
    doc.strokes.push(Stroke {
        id,
        author_id: "local-user".to_string(),
        tool: "pen".to_string(),
        color: "#000000".to_string(),
        width: 2.0f64.to_bits(),
        started_at: doc.created_at,
        pointer_type: PointerType::Mouse,
        points: vec![
            Point { x: 100.5f64.to_bits(), y: 200.0f64.to_bits(), t: 0.0f64.to_bits() },
            Point { x: 101.2f64.to_bits(), y: 201.4f64.to_bits(), t: 16.0f64.to_bits() },
            Point { x: 103.0f64.to_bits(), y: 204.1f64.to_bits(), t: 33.0f64.to_bits() },
        ],
    });
    doc
}

#[test]
fn rejects_unknown_schema_version() {
    let mut doc = sample_doc();
    doc.schema = "stroke.document/v0.9".to_string();
    match Document::from_parsed(Ok(doc)) {
        Err(DocumentError::UnsupportedSchema(v)) => {
            assert_eq!(v, "stroke.document/v0.9");
        }
        other => panic!("expected UnsupportedSchema, got {other:?}"),
    }
}

#[test]
fn rejects_invalid_json() {
    let parsed = match serde_json::from_str::<serde_json::Value>("not json at all") {
        Ok(_) => panic!("the text parsed as JSON"),
        Err(e) => Err(e.to_string()),
    };
    match Document::from_parsed(parsed) {
        Err(DocumentError::InvalidJson(_)) => {}
        other => panic!("expected InvalidJson, got {other:?}"),
    }
}

#[test]
fn allocate_id_is_monotonic() {
    let mut doc = Document::new(1, Canvas::css_px(800.0f64.to_bits(), 600.0f64.to_bits()));
    let a = doc.allocate_id();
    let b = doc.allocate_id();
    let c = doc.allocate_id();
    assert!(a < b && b < c);
    assert_eq!(doc.next_id, c + 1);
}

#[test]
fn new_document_has_schema_and_no_strokes() {
    let doc = Document::new(7, Canvas::css_px(1280.0f64.to_bits(), 800.0f64.to_bits()));
    assert_eq!(doc.schema, SCHEMA_V0_2);
    assert_eq!(doc.schema, "stroke.document/v0.2");
    assert_eq!(doc.id, 7);
    assert_eq!(doc.next_id, 1);
    assert!(doc.strokes.is_empty());
    assert_eq!(doc.canvas.units, "css_px");
    assert_eq!(doc.canvas.origin, "top_left");
    assert_eq!(f64::from_bits(doc.canvas.width), 1280.0);
    assert_eq!(f64::from_bits(doc.canvas.height), 800.0);
}

#[test]
fn accepted_document_loads_unchanged() {
    let doc = sample_doc();
    let loaded = Document::from_parsed(Ok(doc.clone())).expect("supported schema");
    assert_eq!(loaded, doc);
}

#[test]
fn old_schema_is_rejected_like_any_other() {
    let mut doc = sample_doc();
    doc.schema = "stroke.document/v0.1".to_string();
    match Document::from_parsed(Ok(doc)) {
        Err(DocumentError::UnsupportedSchema(v)) => assert_eq!(v, "stroke.document/v0.1"),
        other => panic!("expected UnsupportedSchema, got {other:?}"),
    }
}

#[test]
fn document_error_messages() {
    assert_eq!(
        DocumentError::UnsupportedSchema("stroke.document/v0.9".to_string()).message(),
        "unsupported schema version: stroke.document/v0.9"
    );
    assert_eq!(
        DocumentError::InvalidJson("expected value at line 1 column 1".to_string()).message(),
        "file is not valid JSON: expected value at line 1 column 1"
    );
}

#[test]
fn pointer_types_from_browser() {
    assert_eq!(PointerType::from_browser("mouse"), PointerType::Mouse);
    assert_eq!(PointerType::from_browser("pen"), PointerType::Pen);
    assert_eq!(PointerType::from_browser("touch"), PointerType::Touch);
    assert_eq!(PointerType::from_browser(""), PointerType::Unknown);
    assert_eq!(PointerType::from_browser("Pen"), PointerType::Unknown);
}

#[test]
fn timestamps_follow_chrono_range() {
    let t = Timestamp::from_unix(1431648000, 5).expect("representable");
    assert_eq!(t.secs(), 1431648000);
    assert_eq!(t.nanos(), 5);
    assert_eq!(t.utc_date(), "2015-05-15");
    assert!(Timestamp::from_unix(0, 2_000_000_000).is_none());
    assert!(Timestamp::from_unix(i64::MAX, 0).is_none());
    let now = Timestamp::now();
    let again = Timestamp::from_unix(now.secs(), now.nanos()).expect("now is representable");
    assert_eq!(again, now);
}

#[test]
fn document_created_at_given_instant() {
    let t = Timestamp::from_unix(1431648000, 0).expect("representable");
    let doc = Document::new_at(3, Canvas::css_px(10.0f64.to_bits(), 20.0f64.to_bits()), t);
    assert_eq!(doc.created_at, t);
    assert_eq!(doc.created_at.utc_date(), "2015-05-15");
    assert_eq!(doc.id, 3);
    assert_eq!(doc.next_id, 1);
    assert!(doc.strokes.is_empty());
}
