//! The single-document editing session: the document, its undo/redo
//! history, the stroke in progress, the active file, the dirty flag and the
//! error shown to the user.
//!
//! Every user command of the editor is a method here; the caller performs
//! the browser I/O that a command needs and reports its outcome back.
use vstd::prelude::*;
use crate::capture::{CaptureSession, FinishOutcome, InProgress, StrokeEnd, finish_post, fresh_stroke, move_post};
use crate::document::{Canvas, Document, DocumentError, Point, Stroke, same_but_strokes, schema_text};
use crate::timestamp::Timestamp;
use crate::history::{StrokeHistory, redo_step, undo_step};
use crate::persist::{
    JsFailure,
    PersistError,
    PersistSession,
    SaveStart,
    WriteTarget,
    open_post,
    persist_error_text,
    save_start_post,
    write_post,
};

verus! {

/// What the status area says about the file: an unsaved new document, or a
/// saved one named by the file that Save overwrites; either clean or dirty.
#[derive(Debug, PartialEq, Eq)]
pub enum FileStatus {
    Unsaved { dirty: bool },
    Saved { name: String, dirty: bool },
}

/// The editing session.
pub struct Editor<H> {
    document: Document,
    history: StrokeHistory,
    capture: CaptureSession,
    files: PersistSession<H>,
    dirty: bool,
    file_name: Option<String>,
    error: Option<String>,
}

/// What a finished operation leaves shown: `Ok(name)` names the active file
/// and clears the dirty flag and any error; a cancellation changes nothing;
/// any other error is shown and the dirty flag is kept.
pub open spec fn settled<H>(before: Editor<H>, after: Editor<H>, res: Result<String, PersistError>) -> bool {
    match res {
        Ok(name) => {
            &&& after.spec_file_name() == Some(name)
            &&& !after.spec_dirty()
            &&& after.spec_error() is None
        },
        Err(PersistError::Cancelled) => {
            &&& after.spec_file_name() == before.spec_file_name()
            &&& after.spec_dirty() == before.spec_dirty()
            &&& after.spec_error() == before.spec_error()
        },
        Err(e) => {
            &&& after.spec_file_name() == before.spec_file_name()
            &&& after.spec_dirty() == before.spec_dirty()
            &&& after.spec_error() matches Some(m) && m@ == persist_error_text(e)
        },
    }
}

impl<H> Editor<H> {
    /// The document shown.
    pub closed spec fn spec_document(self) -> Document {
        self.document
    }

    /// The redo stack, bottom first.
    pub closed spec fn spec_redo(self) -> Seq<Stroke> {
        self.history@
    }

    /// The stroke in progress.
    pub closed spec fn spec_capture(self) -> Option<InProgress> {
        self.capture@
    }

    /// The active file, which Save overwrites.
    pub closed spec fn spec_active(self) -> Option<H> {
        self.files@
    }

    /// Whether the document has changes not saved to the active file.
    pub closed spec fn spec_dirty(self) -> bool {
        self.dirty
    }

    /// The shown name of the active file.
    pub closed spec fn spec_file_name(self) -> Option<String> {
        self.file_name
    }

    /// The error message shown, if any.
    pub closed spec fn spec_error(self) -> Option<String> {
        self.error
    }

    /// A file is named exactly when there is an active file.
    pub closed spec fn wf(self) -> bool {
        self.file_name is Some <==> self.files@ is Some
    }

    /// A session on a fresh empty document of id 1 created now, with no
    /// file, clean.
    pub fn new(canvas: Canvas) -> (res: Editor<H>)
        ensures
            res.wf(),
            res.spec_document().schema@ == schema_text(),
            res.spec_document().id == 1,
            res.spec_document().next_id == 1,
            res.spec_document().canvas == canvas,
            res.spec_document().strokes@.len() == 0,
            res.spec_redo().len() == 0,
            res.spec_capture() is None,
            res.spec_active() is None,
            res.spec_file_name() is None,
            !res.spec_dirty(),
            res.spec_error() is None,
    {
        Editor::new_at(canvas, Timestamp::now())
    }

    /// A session on a fresh empty document of id 1 created at `created_at`,
    /// with no file, clean.
    pub fn new_at(canvas: Canvas, created_at: Timestamp) -> (res: Editor<H>)
        ensures
            res.wf(),
            res.spec_document().schema@ == schema_text(),
            res.spec_document().id == 1,
            res.spec_document().created_at == created_at,
            res.spec_document().next_id == 1,
            res.spec_document().canvas == canvas,
            res.spec_document().strokes@.len() == 0,
            res.spec_redo().len() == 0,
            res.spec_capture() is None,
            res.spec_active() is None,
            res.spec_file_name() is None,
            !res.spec_dirty(),
            res.spec_error() is None,
    {
        Editor {
            document: Document::new_at(1, canvas, created_at),
            history: StrokeHistory::new(),
            capture: CaptureSession::new(),
            files: PersistSession::new(),
            dirty: false,
            file_name: None,
            error: None,
        }
    }

    /// The document shown.
    pub fn document(&self) -> (res: &Document)
        ensures
            *res == self.spec_document(),
    {
        &self.document
    }

    /// Whether the document has unsaved changes.
    pub fn is_dirty(&self) -> (res: bool)
        ensures
            res == self.spec_dirty(),
    {
        self.dirty
    }

    /// Whether New or Open must ask before discarding changes.
    pub fn needs_discard_confirmation(&self) -> (res: bool)
        ensures
            res == self.spec_dirty(),
    {
        self.dirty
    }

    /// The error message shown, if any.
    pub fn error(&self) -> (res: Option<&String>)
        ensures
            match self.spec_error() {
                Some(m) => res == Some(&m),
                None => res is None,
            },
    {
        match &self.error {
            Some(m) => Some(m),
            None => None,
        }
    }

    /// The active file, if any.
    pub fn active_handle(&self) -> (res: Option<&H>)
        ensures
            match self.spec_active() {
                Some(h) => res == Some(&h),
                None => res is None,
            },
    {
        self.files.active_handle()
    }

    /// What the status area shows.
    pub fn status(&self) -> (res: FileStatus)
        requires
            self.wf(),
        ensures
            match self.spec_file_name() {
                None => res == FileStatus::Unsaved { dirty: self.spec_dirty() } && self.spec_active() is None,
                Some(n) => res == FileStatus::Saved { name: n, dirty: self.spec_dirty() }
                    && self.spec_active() is Some,
            },
    {
        match &self.file_name {
            None => FileStatus::Unsaved { dirty: self.dirty },
            Some(n) => FileStatus::Saved { name: n.clone(), dirty: self.dirty },
        }
    }

    /// The stroke in progress, if any.
    pub fn live_stroke(&self) -> (res: Option<&Stroke>)
        ensures
            match self.spec_capture() {
                Some(p) => res == Some(&p.stroke),
                None => res is None,
            },
    {
        self.capture.live_stroke()
    }

    /// Dismiss the error message; nothing else changes.
    pub fn dismiss_error(&mut self)
        requires
            old(self).wf(),
        ensures
            final(self).wf(),
            final(self).spec_error() is None,
            final(self).spec_document() == old(self).spec_document(),
            final(self).spec_redo() == old(self).spec_redo(),
            final(self).spec_capture() == old(self).spec_capture(),
            final(self).spec_active() == old(self).spec_active(),
            final(self).spec_file_name() == old(self).spec_file_name(),
            final(self).spec_dirty() == old(self).spec_dirty(),
    {
        self.error = None;
    }

    /// New: a blank document of id 1 on `canvas` created now, with no history, no active
    /// file, clean and without an error. (The caller asks first when dirty.)
    pub fn new_document(&mut self, canvas: Canvas)
        requires
            old(self).wf(),
        ensures
            final(self).wf(),
            final(self).spec_document().schema@ == schema_text(),
            final(self).spec_document().id == 1,
            final(self).spec_document().next_id == 1,
            final(self).spec_document().canvas == canvas,
            final(self).spec_document().strokes@.len() == 0,
            final(self).spec_redo().len() == 0,
            final(self).spec_capture() == old(self).spec_capture(),
            final(self).spec_active() is None,
            final(self).spec_file_name() is None,
            !final(self).spec_dirty(),
            final(self).spec_error() is None,
    {
        self.new_document_at(canvas, Timestamp::now());
    }

    /// New: a blank document of id 1 on `canvas` created at `created_at`, with no history, no active
    /// file, clean and without an error. (The caller asks first when dirty.)
    pub fn new_document_at(&mut self, canvas: Canvas, created_at: Timestamp)
        requires
            old(self).wf(),
        ensures
            final(self).wf(),
            final(self).spec_document().schema@ == schema_text(),
            final(self).spec_document().id == 1,
            final(self).spec_document().created_at == created_at,
            final(self).spec_document().next_id == 1,
            final(self).spec_document().canvas == canvas,
            final(self).spec_document().strokes@.len() == 0,
            final(self).spec_redo().len() == 0,
            final(self).spec_capture() == old(self).spec_capture(),
            final(self).spec_active() is None,
            final(self).spec_file_name() is None,
            !final(self).spec_dirty(),
            final(self).spec_error() is None,
    {
        self.document = Document::new_at(1, canvas, created_at);
        self.history.clear();
        self.files.forget_handle();
        self.file_name = None;
        self.dirty = false;
        self.error = None;
    }

    /// Undo the most recent stroke; a change makes the document dirty.
    pub fn undo(&mut self) -> (changed: bool)
        requires
            old(self).wf(),
        ensures
            final(self).wf(),
            (final(self).spec_document().strokes@, final(self).spec_redo(), changed) == undo_step(
                old(self).spec_document().strokes@,
                old(self).spec_redo(),
            ),
            same_but_strokes(final(self).spec_document(), old(self).spec_document()),
            final(self).spec_dirty() == (old(self).spec_dirty() || changed),
            final(self).spec_capture() == old(self).spec_capture(),
            final(self).spec_active() == old(self).spec_active(),
            final(self).spec_file_name() == old(self).spec_file_name(),
            final(self).spec_error() == old(self).spec_error(),
    {
        let changed = self.history.undo(&mut self.document);
        if changed {
            self.dirty = true;
        }
        changed
    }

    /// Redo the most recently undone stroke; a change makes the document dirty.
    pub fn redo(&mut self) -> (changed: bool)
        requires
            old(self).wf(),
        ensures
            final(self).wf(),
            (final(self).spec_document().strokes@, final(self).spec_redo(), changed) == redo_step(
                old(self).spec_document().strokes@,
                old(self).spec_redo(),
            ),
            same_but_strokes(final(self).spec_document(), old(self).spec_document()),
            final(self).spec_dirty() == (old(self).spec_dirty() || changed),
            final(self).spec_capture() == old(self).spec_capture(),
            final(self).spec_active() == old(self).spec_active(),
            final(self).spec_file_name() == old(self).spec_file_name(),
            final(self).spec_error() == old(self).spec_error(),
    {
        let changed = self.history.redo(&mut self.document);
        if changed {
            self.dirty = true;
        }
        changed
    }

    /// Pointer down, a stroke starting now; see [`CaptureSession::pointer_down`].
    pub fn pointer_down(&mut self, button: i16, pointer_type: &str, x: u64, y: u64, now: u64) -> (started: bool)
        requires
            old(self).wf(),
            button == 0 ==> old(self).spec_document().next_id < u32::MAX,
        ensures
            final(self).wf(),
            started == (button == 0),
            !started ==> final(self).spec_document() == old(self).spec_document()
                && final(self).spec_capture() == old(self).spec_capture(),
            started ==> {
                &&& final(self).spec_document().next_id == old(self).spec_document().next_id + 1
                &&& same_but_strokes(
                    Document { next_id: old(self).spec_document().next_id, ..final(self).spec_document() },
                    old(self).spec_document(),
                )
                &&& final(self).spec_document().strokes == old(self).spec_document().strokes
                &&& final(self).spec_capture() matches Some(p) && {
                    &&& fresh_stroke(
                        p.stroke,
                        old(self).spec_document().next_id,
                        pointer_type@,
                        Point { x, y, t: 0 },
                    )
                    &&& p.last == Point { x, y, t: 0 }
                    &&& p.started_perf == now
                }
            },
            final(self).spec_redo() == old(self).spec_redo(),
            final(self).spec_active() == old(self).spec_active(),
            final(self).spec_file_name() == old(self).spec_file_name(),
            final(self).spec_dirty() == old(self).spec_dirty(),
            final(self).spec_error() == old(self).spec_error(),
    {
        if button != 0 {
            return false;
        }
        self.pointer_down_at(button, pointer_type, x, y, now, Timestamp::now())
    }

    /// Pointer down with the stroke starting at `started_at`; see
    /// [`CaptureSession::pointer_down_at`].
    pub fn pointer_down_at(
        &mut self,
        button: i16,
        pointer_type: &str,
        x: u64,
        y: u64,
        now: u64,
        started_at: Timestamp,
    ) -> (started: bool)
        requires
            old(self).wf(),
            button == 0 ==> old(self).spec_document().next_id < u32::MAX,
        ensures
            final(self).wf(),
            started == (button == 0),
            !started ==> final(self).spec_document() == old(self).spec_document()
                && final(self).spec_capture() == old(self).spec_capture(),
            started ==> {
                &&& final(self).spec_document().next_id == old(self).spec_document().next_id + 1
                &&& same_but_strokes(
                    Document { next_id: old(self).spec_document().next_id, ..final(self).spec_document() },
                    old(self).spec_document(),
                )
                &&& final(self).spec_document().strokes == old(self).spec_document().strokes
                &&& final(self).spec_capture() matches Some(p) && {
                    &&& fresh_stroke(
                        p.stroke,
                        old(self).spec_document().next_id,
                        pointer_type@,
                        Point { x, y, t: 0 },
                    )
                    &&& p.last == Point { x, y, t: 0 }
                    &&& p.started_perf == now
                    &&& p.stroke.started_at == started_at
                }
            },
            final(self).spec_redo() == old(self).spec_redo(),
            final(self).spec_active() == old(self).spec_active(),
            final(self).spec_file_name() == old(self).spec_file_name(),
            final(self).spec_dirty() == old(self).spec_dirty(),
            final(self).spec_error() == old(self).spec_error(),
    {
        self.capture.pointer_down_at(&mut self.document, button, pointer_type, x, y, now, started_at)
    }

    /// The start reading of the stroke in progress, or `fallback`.
    pub fn started_perf_or(&self, fallback: u64) -> (res: u64)
        ensures
            res == match self.spec_capture() {
                Some(p) => p.started_perf,
                None => fallback,
            },
    {
        self.capture.started_perf_or(fallback)
    }

    /// Pointer move; see [`CaptureSession::pointer_move`].
    pub fn pointer_move(&mut self, next: Point) -> (prev: Option<Point>)
        requires
            old(self).wf(),
        ensures
            final(self).wf(),
            move_post(old(self).spec_capture(), final(self).spec_capture(), next, prev),
            final(self).spec_document() == old(self).spec_document(),
            final(self).spec_redo() == old(self).spec_redo(),
            final(self).spec_active() == old(self).spec_active(),
            final(self).spec_file_name() == old(self).spec_file_name(),
            final(self).spec_dirty() == old(self).spec_dirty(),
            final(self).spec_error() == old(self).spec_error(),
    {
        self.capture.pointer_move(next)
    }

    /// End the stroke in progress. A committed stroke voids the redo path and
    /// makes the document dirty.
    pub fn finish_stroke(&mut self, end: StrokeEnd) -> (res: FinishOutcome)
        requires
            old(self).wf(),
        ensures
            final(self).wf(),
            final(self).spec_capture() is None,
            finish_post(
                old(self).spec_capture(),
                end,
                old(self).spec_document(),
                final(self).spec_document(),
                res,
            ),
            res == FinishOutcome::Committed ==> final(self).spec_redo().len() == 0
                && final(self).spec_dirty(),
            res != FinishOutcome::Committed ==> final(self).spec_redo() == old(self).spec_redo()
                && final(self).spec_dirty() == old(self).spec_dirty(),
            final(self).spec_active() == old(self).spec_active(),
            final(self).spec_file_name() == old(self).spec_file_name(),
            final(self).spec_error() == old(self).spec_error(),
    {
        let res = self.capture.finish_stroke(end, &mut self.document);
        match res {
            FinishOutcome::Committed => {
                self.history.record_new_stroke();
                self.dirty = true;
            },
            _ => {},
        }
        res
    }

    /// Decide how Save (`always_prompt == false`) or Save As proceeds once
    /// the document has been serialized; see [`PersistSession::begin_save`].
    pub fn begin_save(&self, serialized: Result<String, DocumentError>, always_prompt: bool) -> (start: SaveStart)
        ensures
            save_start_post(self.spec_active(), self.spec_document(), serialized, always_prompt, start),
    {
        self.files.begin_save(&self.document, serialized, always_prompt)
    }

    /// Record the outcome of an operation that ended before touching any
    /// file (serialization failed, a picker was cancelled or failed, a read
    /// failed). A cancellation changes nothing; another error is shown.
    pub fn operation_failed(&mut self, err: &PersistError)
        requires
            old(self).wf(),
        ensures
            final(self).wf(),
            settled(*old(self), *final(self), Err(*err)),
            final(self).spec_document() == old(self).spec_document(),
            final(self).spec_redo() == old(self).spec_redo(),
            final(self).spec_capture() == old(self).spec_capture(),
            final(self).spec_active() == old(self).spec_active(),
    {
        match err {
            PersistError::Cancelled => {},
            _ => {
                self.error = Some(err.message());
            },
        }
    }

    /// Conclude a Save or Save As write to `target` with outcome `written`;
    /// `name` is the written file's platform name. Returns the shown file
    /// name, or the error.
    pub fn finish_write(
        &mut self,
        target: WriteTarget<H>,
        written: Result<(), JsFailure>,
        name: Option<String>,
    ) -> (res: Result<String, PersistError>)
        requires
            old(self).wf(),
            target is Active ==> old(self).spec_active() is Some,
        ensures
            final(self).wf(),
            write_post(old(self).spec_active(), final(self).spec_active(), target, written, name, res),
            settled(*old(self), *final(self), res),
            final(self).spec_document() == old(self).spec_document(),
            final(self).spec_redo() == old(self).spec_redo(),
            final(self).spec_capture() == old(self).spec_capture(),
    {
        let res = self.files.finish_write(target, written, name);
        self.settle(&res);
        res
    }

    /// Conclude an Open of `handle`: `parsed` is the JSON parser's result for
    /// its text and `name` its platform name. On success the document is the
    /// file's, history is cleared and the file is active; otherwise nothing
    /// but the error shown changes. Returns the shown file name, or the error.
    pub fn finish_open(
        &mut self,
        handle: H,
        parsed: Result<Document, String>,
        name: Option<String>,
    ) -> (res: Result<String, PersistError>)
        requires
            old(self).wf(),
        ensures
            final(self).wf(),
            open_post(
                old(self).spec_active(),
                final(self).spec_active(),
                old(self).spec_document(),
                final(self).spec_document(),
                handle,
                parsed,
                name,
                res,
            ),
            settled(*old(self), *final(self), res),
            res is Ok ==> final(self).spec_redo().len() == 0,
            res is Err ==> final(self).spec_redo() == old(self).spec_redo(),
            final(self).spec_capture() == old(self).spec_capture(),
    {
        let res = self.files.finish_open(&mut self.document, handle, parsed, name);
        self.settle(&res);
        if res.is_ok() {
            self.history.clear();
        }
        res
    }

    /// Apply the outcome of a finished operation to the file name, dirty
    /// flag and error.
    fn settle(&mut self, res: &Result<String, PersistError>)
        requires
            (old(self).files@ is Some) <==> (old(self).file_name is Some || *res is Ok),
        ensures
            final(self).wf(),
            settled(*old(self), *final(self), *res),
            final(self).document == old(self).document,
            final(self).history == old(self).history,
            final(self).capture == old(self).capture,
            final(self).files == old(self).files,
    {
        match res {
            Ok(name) => {
                self.file_name = Some(name.clone());
                self.dirty = false;
                self.error = None;
            },
            Err(PersistError::Cancelled) => {},
            Err(e) => {
                self.error = Some(e.message());
            },
        }
    }
}

/// The dirty flag after a file operation: a success (Save, Save As, Open)
/// clears it; a failure or a cancellation keeps it as it was.
pub proof fn lemma_dirty_after_operation<H>(
    before: Editor<H>,
    after: Editor<H>,
    res: Result<String, PersistError>,
)
    requires
        settled(before, after, res),
    ensures
        res is Ok ==> !after.spec_dirty(),
        res is Err ==> after.spec_dirty() == before.spec_dirty(),
{
}

/// The error shown after a file operation: a success clears it, a
/// cancellation shows nothing new, and any other failure shows its message;
/// an unsupported schema is named in that message.
pub proof fn lemma_error_after_operation<H>(
    before: Editor<H>,
    after: Editor<H>,
    res: Result<String, PersistError>,
)
    requires
        settled(before, after, res),
    ensures
        res is Ok ==> after.spec_error() is None,
        res == Err::<String, PersistError>(PersistError::Cancelled) ==> after.spec_error() == before.spec_error(),
        res matches Err(PersistError::Document(DocumentError::UnsupportedSchema(schema)))
            ==> after.spec_error() matches Some(m) && m@ == "unsupported schema version: "@ + schema@,
{
}

/// Whatever file was shown before, an operation that ends `Ok(name)` (Save,
/// Save As, Open) shows `name` afterwards: the saved states always name the
/// file that the last successful operation wrote or opened, clean and
/// without an error.
pub proof fn lemma_success_names_its_file<H>(before: Editor<H>, after: Editor<H>, name: String)
    requires
        settled(before, after, Ok(name)),
    ensures
        after.spec_file_name() == Some(name),
        !after.spec_dirty(),
        after.spec_error() is None,
{
}

/// Two successive successful operations naming `first` and then `second`
/// leave `second` shown, whatever `first` was.
pub proof fn lemma_later_success_replaces_name<H>(
    e0: Editor<H>,
    e1: Editor<H>,
    e2: Editor<H>,
    first: String,
    second: String,
)
    requires
        settled(e0, e1, Ok(first)),
        settled(e1, e2, Ok(second)),
    ensures
        e1.spec_file_name() == Some(first),
        e2.spec_file_name() == Some(second),
{
}

} // verus!
