//! File workflow decisions: Save, Save As, Open and New.
//!
//! The browser's file pickers, reads and writes are asynchronous I/O done by
//! the caller; this module holds the active file handle and decides, from the
//! outcome of each I/O step, what happens next. The handle type `H` is
//! whatever the platform uses to name a file; the module only stores and
//! returns it.
use vstd::prelude::*;
use crate::document::{Document, DocumentError, document_error_text, load_result};
use crate::text::{decimal, push_decimal, same_text};

verus! {

/// Errors surfaced to the user by save and load operations.
#[derive(Debug)]
pub enum PersistError {
    /// The user cancelled a picker; not shown as an error.
    Cancelled,
    /// The file failed to parse or has an unsupported schema.
    Document(DocumentError),
    /// Anything else the platform reported, such as a failed write.
    Js(String),
}

/// The user-facing text of a persistence error.
pub open spec fn persist_error_text(e: PersistError) -> Seq<char> {
    match e {
        PersistError::Cancelled => "user cancelled"@,
        PersistError::Document(d) => document_error_text(d),
        PersistError::Js(msg) => msg@,
    }
}

impl PersistError {
    /// The user-facing text of this error.
    pub fn message(&self) -> (res: String)
        ensures
            res@ == persist_error_text(*self),
    {
        match self {
            PersistError::Cancelled => String::from_str("user cancelled"),
            PersistError::Document(d) => d.message(),
            PersistError::Js(msg) => msg.clone(),
        }
    }
}

/// What a failed platform call reported: its error `name` and `message`
/// when they are strings, and a description of the whole error value.
#[derive(Debug)]
pub struct JsFailure {
    pub name: Option<String>,
    pub message: Option<String>,
    pub description: String,
}

/// The user-facing error for a platform failure: an `AbortError` is the user
/// cancelling; anything else keeps its message, or else its description.
pub open spec fn classify_spec(err: JsFailure) -> PersistError {
    if err.name matches Some(n) && n@ == "AbortError"@ {
        PersistError::Cancelled
    } else {
        match err.message {
            Some(m) => PersistError::Js(m),
            None => PersistError::Js(err.description),
        }
    }
}

/// Classify a platform failure.
pub fn classify(err: JsFailure) -> (res: PersistError)
    ensures
        res == classify_spec(err),
{
    let JsFailure { name, message, description } = err;
    let cancelled = match &name {
        Some(n) => same_text(n.as_str(), "AbortError"),
        None => false,
    };
    if cancelled {
        PersistError::Cancelled
    } else {
        match message {
            Some(m) => PersistError::Js(m),
            None => PersistError::Js(description),
        }
    }
}

/// The name shown for a file: its own name when it has a non-empty one,
/// otherwise `selected file`.
pub open spec fn display_name_text(name: Option<String>) -> Seq<char> {
    match name {
        Some(n) => if n@.len() > 0 { n@ } else { "selected file"@ },
        None => "selected file"@,
    }
}

/// The name shown for a file whose platform name is `name`.
pub fn display_file_name(name: Option<String>) -> (res: String)
    ensures
        res@ == display_name_text(name),
{
    match name {
        Some(n) => {
            if n.as_str().is_empty() {
                String::from_str("selected file")
            } else {
                n
            }
        },
        None => String::from_str("selected file"),
    }
}

/// `stroke-{id}-{date}.json`, with the UTC creation date as `%Y-%m-%d`.
pub open spec fn suggested_filename_text(doc: Document) -> Seq<char> {
    "stroke-"@ + decimal(doc.id as nat) + "-"@ + doc.created_at.date_text() + ".json"@
}

/// The file name offered when saving `doc` to a new file.
pub fn suggested_filename(doc: &Document) -> (res: String)
    ensures
        res@ == suggested_filename_text(*doc),
{
    let mut out = String::from_str("stroke-");
    push_decimal(&mut out, doc.id);
    out.append("-");
    let date = doc.created_at.utc_date();
    out.append(date.as_str());
    out.append(".json");
    proof {
        assert(out@ =~= suggested_filename_text(*doc));
    }
    out
}

/// The outcome of a file picker: a chosen file, no file (the picker gave
/// back nothing), or a failure.
pub enum PickOutcome<H> {
    Chosen(H),
    Dismissed,
    Failed(JsFailure),
}

/// The file a picker outcome yields, or the error it means.
pub open spec fn pick_result<H>(outcome: PickOutcome<H>) -> Result<H, PersistError> {
    match outcome {
        PickOutcome::Chosen(h) => Ok(h),
        PickOutcome::Dismissed => Err(PersistError::Cancelled),
        PickOutcome::Failed(err) => Err(classify_spec(err)),
    }
}

/// The file a picker outcome yields, or the error it means.
pub fn picked<H>(outcome: PickOutcome<H>) -> (res: Result<H, PersistError>)
    ensures
        res == pick_result(outcome),
{
    match outcome {
        PickOutcome::Chosen(h) => Ok(h),
        PickOutcome::Dismissed => Err(PersistError::Cancelled),
        PickOutcome::Failed(err) => Err(classify(err)),
    }
}

/// How a save proceeds once the document has been serialized.
#[derive(Debug)]
pub enum SaveStart {
    /// Serialization failed: the save ends with this error.
    Fail(PersistError),
    /// Write this text to the active file, without prompting.
    WriteActive(String),
    /// Prompt for a file, offering `suggested`, then write `json` to it.
    Prompt { json: String, suggested: String },
}

/// Where a save writes.
pub enum WriteTarget<H> {
    /// The active file.
    Active,
    /// A file just chosen in the picker.
    Chosen(H),
}

/// Reading a file's contents gave `read` (the text, or `None` when the
/// contents were not a string), answered by `res`.
pub open spec fn read_post(read: Result<Option<String>, JsFailure>, res: Result<String, PersistError>) -> bool {
    match read {
        Err(err) => res == Err::<String, PersistError>(classify_spec(err)),
        Ok(None) => res matches Err(PersistError::Js(msg)) && msg@ == "file contents were not a string"@,
        Ok(Some(text)) => res == Ok::<String, PersistError>(text),
    }
}

/// The text an open goes on to parse, or the error that ends it.
pub fn accept_read(read: Result<Option<String>, JsFailure>) -> (res: Result<String, PersistError>)
    ensures
        read_post(read, res),
{
    match read {
        Err(err) => Err(classify(err)),
        Ok(None) => Err(PersistError::Js(String::from_str("file contents were not a string"))),
        Ok(Some(text)) => Ok(text),
    }
}

/// A save of `doc` that starts from `handle` with serialization result
/// `serialized` answers `start`; `always_prompt` is Save As.
pub open spec fn save_start_post<H>(
    handle: Option<H>,
    doc: Document,
    serialized: Result<String, DocumentError>,
    always_prompt: bool,
    start: SaveStart,
) -> bool {
    match serialized {
        Err(e) => start == SaveStart::Fail(PersistError::Document(e)),
        Ok(json) => if !always_prompt && handle is Some {
            start == SaveStart::WriteActive(json)
        } else {
            start matches SaveStart::Prompt { json: j, suggested } && j == json
                && suggested@ == suggested_filename_text(doc)
        },
    }
}

/// A write to `target` with outcome `written`, from active handle `before`
/// to `after`, answering `res`; `name` is the written file's name.
pub open spec fn write_post<H>(
    before: Option<H>,
    after: Option<H>,
    target: WriteTarget<H>,
    written: Result<(), JsFailure>,
    name: Option<String>,
    res: Result<String, PersistError>,
) -> bool {
    match written {
        Err(err) => res == Err::<String, PersistError>(classify_spec(err)) && after == before,
        Ok(()) => {
            &&& res matches Ok(shown) && shown@ == display_name_text(name)
            &&& after == match target {
                WriteTarget::Active => before,
                WriteTarget::Chosen(h) => Some(h),
            }
        },
    }
}

/// An open of `handle` whose parse gave `parsed`, taking the document from
/// `doc_before` to `doc_after` and the active handle from `before` to
/// `after`, answering `res`.
pub open spec fn open_post<H>(
    before: Option<H>,
    after: Option<H>,
    doc_before: Document,
    doc_after: Document,
    handle: H,
    parsed: Result<Document, String>,
    name: Option<String>,
    res: Result<String, PersistError>,
) -> bool {
    match load_result(parsed) {
        Err(e) => {
            &&& res == Err::<String, PersistError>(PersistError::Document(e))
            &&& doc_after == doc_before
            &&& after == before
        },
        Ok(loaded) => {
            &&& res matches Ok(shown) && shown@ == display_name_text(name)
            &&& doc_after == loaded
            &&& after == Some(handle)
        },
    }
}

/// The persistence session: the active file handle, if any. Save writes to
/// it without prompting; it is set only by a successful write or open.
pub struct PersistSession<H> {
    handle: Option<H>,
}

impl<H> View for PersistSession<H> {
    type V = Option<H>;

    closed spec fn view(&self) -> Option<H> {
        self.handle
    }
}

impl<H> PersistSession<H> {
    /// A session with no active file.
    pub fn new() -> (res: PersistSession<H>)
        ensures
            res@ is None,
    {
        PersistSession { handle: None }
    }

    /// The active file, if any.
    pub fn active_handle(&self) -> (res: Option<&H>)
        ensures
            match self@ {
                Some(h) => res == Some(&h),
                None => res is None,
            },
    {
        match &self.handle {
            Some(h) => Some(h),
            None => None,
        }
    }

    /// Forget the active file (New): the next Save prompts.
    pub fn forget_handle(&mut self)
        ensures
            final(self)@ is None,
    {
        self.handle = None;
    }

    /// Decide how a save of `doc` proceeds once it has been serialized.
    ///
    /// Save (`always_prompt == false`) writes to the active file when there
    /// is one and prompts otherwise; Save As (`always_prompt == true`) always
    /// prompts. A serialization failure ends the save.
    pub fn begin_save(
        &self,
        doc: &Document,
        serialized: Result<String, DocumentError>,
        always_prompt: bool,
    ) -> (start: SaveStart)
        ensures
            save_start_post(self@, *doc, serialized, always_prompt, start),
    {
        match serialized {
            Err(e) => SaveStart::Fail(PersistError::Document(e)),
            Ok(json) => {
                if !always_prompt && self.handle.is_some() {
                    SaveStart::WriteActive(json)
                } else {
                    let suggested = suggested_filename(doc);
                    SaveStart::Prompt { json, suggested }
                }
            },
        }
    }

    /// Conclude a write to `target` with outcome `written`; `name` is the
    /// platform name of the file written.
    ///
    /// On success a chosen file becomes the active file and the shown name is
    /// returned; on failure the active file stays what it was.
    pub fn finish_write(
        &mut self,
        target: WriteTarget<H>,
        written: Result<(), JsFailure>,
        name: Option<String>,
    ) -> (res: Result<String, PersistError>)
        ensures
            write_post(old(self)@, final(self)@, target, written, name, res),
    {
        match written {
            Err(err) => Err(classify(err)),
            Ok(()) => {
                let shown = display_file_name(name);
                match target {
                    WriteTarget::Active => {},
                    WriteTarget::Chosen(h) => {
                        self.handle = Some(h);
                    },
                }
                Ok(shown)
            },
        }
    }

    /// Conclude an open of `handle`: `parsed` is the JSON parser's result for
    /// its text and `name` its platform name.
    ///
    /// The document is replaced and `handle` becomes the active file only
    /// when the parsed document has the supported schema; otherwise both
    /// stay as they were.
    pub fn finish_open(
        &mut self,
        document: &mut Document,
        handle: H,
        parsed: Result<Document, String>,
        name: Option<String>,
    ) -> (res: Result<String, PersistError>)
        ensures
            open_post(
                old(self)@,
                final(self)@,
                *old(document),
                *final(document),
                handle,
                parsed,
                name,
                res,
            ),
    {
        match Document::from_parsed(parsed) {
            Err(e) => Err(PersistError::Document(e)),
            Ok(loaded) => {
                *document = loaded;
                self.handle = Some(handle);
                Ok(display_file_name(name))
            },
        }
    }
}

/// After a successful write to a chosen file (Save As, or a first Save),
/// that file is the active file, and the next Save writes to it without
/// prompting.
pub proof fn lemma_chosen_file_becomes_save_target<H>(
    before: Option<H>,
    after: Option<H>,
    chosen: H,
    name: Option<String>,
    res: Result<String, PersistError>,
    doc: Document,
    json: String,
    next: SaveStart,
)
    requires
        write_post(before, after, WriteTarget::Chosen(chosen), Ok(()), name, res),
        save_start_post(after, doc, Ok(json), false, next),
    ensures
        after == Some(chosen),
        res is Ok,
        next == SaveStart::WriteActive(json),
{
}

/// A failed write, to the active file or to a chosen one, leaves the active
/// file as it was and reports an error: a failed Save As cannot retarget
/// later saves.
pub proof fn lemma_failed_write_keeps_target<H>(
    before: Option<H>,
    after: Option<H>,
    target: WriteTarget<H>,
    err: JsFailure,
    name: Option<String>,
    res: Result<String, PersistError>,
)
    requires
        write_post(before, after, target, Err(err), name, res),
    ensures
        after == before,
        res is Err,
{
}

/// Save As prompts whatever the active file; Save prompts exactly when
/// there is no active file (a new document, after New).
pub proof fn lemma_when_save_prompts<H>(
    handle: Option<H>,
    doc: Document,
    json: String,
    always_prompt: bool,
    start: SaveStart,
)
    requires
        save_start_post(handle, doc, Ok(json), always_prompt, start),
    ensures
        start is Prompt <==> (always_prompt || handle is None),
        start is WriteActive <==> (!always_prompt && handle is Some),
{
}

/// Open is atomic: when the file does not load, neither the document nor
/// the active file changes; when it loads, the document is exactly the file's
/// and the opened file becomes the target of the next Save.
pub proof fn lemma_open_is_atomic<H>(
    before: Option<H>,
    after: Option<H>,
    doc_before: Document,
    doc_after: Document,
    handle: H,
    parsed: Result<Document, String>,
    name: Option<String>,
    res: Result<String, PersistError>,
    doc: Document,
    json: String,
    next: SaveStart,
)
    requires
        open_post(before, after, doc_before, doc_after, handle, parsed, name, res),
        save_start_post(after, doc, Ok(json), false, next),
    ensures
        res is Err ==> doc_after == doc_before && after == before,
        res is Ok ==> parsed == Ok::<Document, String>(doc_after) && after == Some(handle)
            && next == SaveStart::WriteActive(json),
{
}

/// Cancelling a picker, or a platform `AbortError`, is a cancellation and
/// not an error to show.
pub proof fn lemma_cancel_is_not_an_error<H>(err: JsFailure)
    requires
        err.name matches Some(n) && n@ == "AbortError"@,
    ensures
        pick_result(PickOutcome::<H>::Dismissed) == Err::<H, PersistError>(PersistError::Cancelled),
        pick_result(PickOutcome::<H>::Failed(err)) == Err::<H, PersistError>(PersistError::Cancelled),
        classify_spec(err) == PersistError::Cancelled,
{
}

/// A successful write, to the active file or to a chosen one alike, answers
/// the written file's own name when it has a non-empty one, and
/// `selected file` only when it has none.
pub proof fn lemma_write_names_written_file<H>(
    before: Option<H>,
    after: Option<H>,
    target: WriteTarget<H>,
    name: Option<String>,
    res: Result<String, PersistError>,
)
    requires
        write_post(before, after, target, Ok(()), name, res),
    ensures
        res is Ok,
        name is Some && name.unwrap()@.len() > 0 ==> res.unwrap()@ == name.unwrap()@,
        name is None || name.unwrap()@.len() == 0 ==> res.unwrap()@ == "selected file"@,
{
}

/// Saving to the active file and saving to a chosen file with the same name
/// answer the same shown name.
pub proof fn lemma_write_name_independent_of_target<H>(
    b1: Option<H>,
    a1: Option<H>,
    b2: Option<H>,
    a2: Option<H>,
    chosen: H,
    name: Option<String>,
    r1: Result<String, PersistError>,
    r2: Result<String, PersistError>,
)
    requires
        write_post(b1, a1, WriteTarget::Active, Ok(()), name, r1),
        write_post(b2, a2, WriteTarget::Chosen(chosen), Ok(()), name, r2),
    ensures
        r1 is Ok && r2 is Ok,
        r1.unwrap()@ == r2.unwrap()@,
{
}

} // verus!
