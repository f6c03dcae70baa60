use stroke::document::{Canvas, Document, DocumentError};
use stroke::persist::{
    accept_read, classify, display_file_name, picked, suggested_filename, JsFailure, PersistError,
    PersistSession, PickOutcome, SaveStart, WriteTarget,
};
use stroke::timestamp::Timestamp;

fn doc_at(id: u32, secs: i64) -> Document {
    let mut doc = Document::new(id, Canvas::css_px(800.0f64.to_bits(), 600.0f64.to_bits()));
    doc.created_at = Timestamp::from_unix(secs, 0).expect("representable");
    doc
}

fn failure(name: Option<&str>, message: Option<&str>) -> JsFailure {
    JsFailure {
        name: name.map(|s| s.to_string()),
        message: message.map(|s| s.to_string()),
        description: "JsValue(Error)".to_string(),
    }
}

#[test]
fn suggested_filename_uses_id_and_utc_date() {
    assert_eq!(suggested_filename(&doc_at(1, 1431648000)), "stroke-1-2015-05-15.json");
    assert_eq!(suggested_filename(&doc_at(1234567, 0)), "stroke-1234567-1970-01-01.json");
    assert_eq!(suggested_filename(&doc_at(0, 86399)), "stroke-0-1970-01-01.json");
}

#[test]
fn classify_abort_is_cancel() {
    assert!(matches!(classify(failure(Some("AbortError"), Some("The user aborted"))), PersistError::Cancelled));
    match classify(failure(Some("NotAllowedError"), Some("denied"))) {
        PersistError::Js(m) => assert_eq!(m, "denied"),
        other => panic!("expected Js, got {other:?}"),
    }
    match classify(failure(None, None)) {
        PersistError::Js(m) => assert_eq!(m, "JsValue(Error)"),
        other => panic!("expected Js, got {other:?}"),
    }
}

#[test]
fn display_names() {
    assert_eq!(display_file_name(Some("notes.json".to_string())), "notes.json");
    assert_eq!(display_file_name(Some(String::new())), "selected file");
    assert_eq!(display_file_name(None), "selected file");
}

#[test]
fn pick_outcomes() {
    assert_eq!(picked(PickOutcome::Chosen(7u32)).ok(), Some(7));
    assert!(matches!(picked(PickOutcome::<u32>::Dismissed), Err(PersistError::Cancelled)));
    assert!(matches!(picked(PickOutcome::<u32>::Failed(failure(Some("AbortError"), None))), Err(PersistError::Cancelled)));
}

#[test]
fn save_prompts_first_then_reuses_file() {
    let doc = doc_at(1, 1431648000);
    let mut session: PersistSession<u32> = PersistSession::new();
    match session.begin_save(&doc, Ok("{}".to_string()), false) {
        SaveStart::Prompt { json, suggested } => {
            assert_eq!(json, "{}");
            assert_eq!(suggested, "stroke-1-2015-05-15.json");
        }
        other => panic!("expected a prompt, got {other:?}"),
    }
    let shown = session.finish_write(WriteTarget::Chosen(5), Ok(()), Some("a.json".to_string()));
    assert_eq!(shown.ok(), Some("a.json".to_string()));
    assert_eq!(session.active_handle(), Some(&5));
    match session.begin_save(&doc, Ok("{}".to_string()), false) {
        SaveStart::WriteActive(json) => assert_eq!(json, "{}"),
        other => panic!("expected a silent write, got {other:?}"),
    }
    assert!(matches!(session.begin_save(&doc, Ok("{}".to_string()), true), SaveStart::Prompt { .. }));
    session.forget_handle();
    assert!(session.active_handle().is_none());
    assert!(matches!(session.begin_save(&doc, Ok("{}".to_string()), false), SaveStart::Prompt { .. }));
}

#[test]
fn failed_save_as_keeps_target() {
    let mut session: PersistSession<u32> = PersistSession::new();
    session.finish_write(WriteTarget::Chosen(1), Ok(()), None).unwrap();
    let res = session.finish_write(WriteTarget::Chosen(2), Err(failure(Some("NotAllowedError"), Some("no write"))), None);
    assert!(matches!(res, Err(PersistError::Js(ref m)) if m == "no write"));
    assert_eq!(session.active_handle(), Some(&1));
}

#[test]
fn serialization_failure_ends_save() {
    let doc = doc_at(1, 0);
    let session: PersistSession<u32> = PersistSession::new();
    match session.begin_save(&doc, Err(DocumentError::InvalidJson("boom".to_string())), false) {
        SaveStart::Fail(PersistError::Document(DocumentError::InvalidJson(m))) => assert_eq!(m, "boom"),
        other => panic!("expected failure, got {other:?}"),
    }
}

#[test]
fn open_is_atomic() {
    let mut current = doc_at(1, 0);
    let before = current.clone();
    let mut session: PersistSession<u32> = PersistSession::new();

    let mut bad = doc_at(2, 0);
    bad.schema = "stroke.document/v0.1".to_string();
    let res = session.finish_open(&mut current, 9, Ok(bad), Some("old.json".to_string()));
    match res {
        Err(e) => assert_eq!(e.message(), "unsupported schema version: stroke.document/v0.1"),
        Ok(_) => panic!("expected an error"),
    }
    assert_eq!(current, before);
    assert!(session.active_handle().is_none());

    let res = session.finish_open(&mut current, 9, Err("expected value at line 1 column 1".to_string()), None);
    assert!(matches!(res, Err(PersistError::Document(DocumentError::InvalidJson(_)))));
    assert_eq!(current, before);

    let good = doc_at(3, 86400);
    let res = session.finish_open(&mut current, 9, Ok(good.clone()), Some("good.json".to_string()));
    assert_eq!(res.ok(), Some("good.json".to_string()));
    assert_eq!(current, good);
    assert_eq!(session.active_handle(), Some(&9));
}

#[test]
fn read_outcomes() {
    assert_eq!(accept_read(Ok(Some("{}".to_string()))).ok(), Some("{}".to_string()));
    match accept_read(Ok(None)) {
        Err(PersistError::Js(m)) => assert_eq!(m, "file contents were not a string"),
        other => panic!("expected Js error, got {other:?}"),
    }
    assert!(matches!(accept_read(Err(failure(Some("AbortError"), None))), Err(PersistError::Cancelled)));
}

#[test]
fn persist_error_messages() {
    assert_eq!(PersistError::Cancelled.message(), "user cancelled");
    assert_eq!(PersistError::Js("disk full".to_string()).message(), "disk full");
    assert_eq!(
        PersistError::Document(DocumentError::InvalidJson("eof".to_string())).message(),
        "file is not valid JSON: eof"
    );
}
