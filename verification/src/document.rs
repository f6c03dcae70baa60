//! Document model: the in-memory form of a Stroke document.
//!
//! Coordinates, sizes and times that the on-disk format writes as binary64
//! numbers are held here by their IEEE-754 bit patterns (`u64`), so that the
//! model carries them exactly without computing on them.
use vstd::prelude::*;
use crate::text::same_text;
use crate::timestamp::Timestamp;

verus! {

/// The schema identifier written to and required from every document.
pub const SCHEMA_V0_2: &'static str = "stroke.document/v0.2";

/// The characters of [`SCHEMA_V0_2`].
pub open spec fn schema_text() -> Seq<char> {
    SCHEMA_V0_2@
}

/// Errors raised by the document model.
#[derive(Debug)]
pub enum DocumentError {
    /// The text was not a JSON document of this shape; holds the parser's message.
    InvalidJson(String),
    /// The document parsed but its `schema` is not [`SCHEMA_V0_2`]; holds the schema found.
    UnsupportedSchema(String),
}

/// The user-facing text of a document error.
pub open spec fn document_error_text(e: DocumentError) -> Seq<char> {
    match e {
        DocumentError::InvalidJson(msg) => "file is not valid JSON: "@ + msg@,
        DocumentError::UnsupportedSchema(schema) => "unsupported schema version: "@ + schema@,
    }
}

impl DocumentError {
    /// The user-facing text of this error.
    pub fn message(&self) -> (res: String)
        ensures
            res@ == document_error_text(*self),
    {
        match self {
            DocumentError::InvalidJson(msg) => {
                let mut out = String::from_str("file is not valid JSON: ");
                out.append(msg.as_str());
                out
            },
            DocumentError::UnsupportedSchema(schema) => {
                let mut out = String::from_str("unsupported schema version: ");
                out.append(schema.as_str());
                out
            },
        }
    }
}

/// The kind of pointer that drew a stroke.
#[derive(Clone, Copy, Debug, PartialEq, Eq)]
pub enum PointerType {
    Mouse,
    Pen,
    Touch,
    Unknown,
}

/// The pointer type that a browser's `pointerType` string names.
pub open spec fn pointer_type_of(name: Seq<char>) -> PointerType {
    if name == "mouse"@ {
        PointerType::Mouse
    } else if name == "pen"@ {
        PointerType::Pen
    } else if name == "touch"@ {
        PointerType::Touch
    } else {
        PointerType::Unknown
    }
}

impl PointerType {
    /// Classify a browser `PointerEvent.pointerType` string.
    pub fn from_browser(name: &str) -> (res: PointerType)
        ensures
            res == pointer_type_of(name@),
    {
        if same_text(name, "mouse") {
            PointerType::Mouse
        } else if same_text(name, "pen") {
            PointerType::Pen
        } else if same_text(name, "touch") {
            PointerType::Touch
        } else {
            PointerType::Unknown
        }
    }
}

/// A single sampled point within a stroke: canvas-local CSS pixels `x`, `y`
/// and milliseconds `t` since the stroke started, each as binary64 bits.
#[derive(Clone, Copy, Debug, PartialEq, Eq)]
pub struct Point {
    pub x: u64,
    pub y: u64,
    pub t: u64,
}

/// Capture-time coordinate frame: CSS-pixel `width` and `height` as
/// binary64 bits, with their `units` and `origin`.
#[derive(Clone, Debug, PartialEq)]
pub struct Canvas {
    pub width: u64,
    pub height: u64,
    pub units: String,
    pub origin: String,
}

impl Canvas {
    /// A canvas of the given CSS-pixel size with units `css_px` and origin `top_left`.
    pub fn css_px(width: u64, height: u64) -> (res: Canvas)
        ensures
            res.width == width,
            res.height == height,
            res.units@ == "css_px"@,
            res.origin@ == "top_left"@,
    {
        Canvas {
            width,
            height,
            units: String::from_str("css_px"),
            origin: String::from_str("top_left"),
        }
    }
}

/// A single stroke, from pointer down to lift, with its rendering metadata.
#[derive(Clone, Debug, PartialEq)]
pub struct Stroke {
    pub id: u32,
    pub author_id: String,
    pub tool: String,
    /// `#RRGGBB`.
    pub color: String,
    /// Line width in CSS pixels, as binary64 bits.
    pub width: u64,
    pub started_at: Timestamp,
    pub pointer_type: PointerType,
    /// Points in draw order.
    pub points: Vec<Point>,
}

/// A complete stroke document.
#[derive(Clone, Debug, PartialEq)]
pub struct Document {
    pub schema: String,
    /// Document-local identifier.
    pub id: u32,
    pub created_at: Timestamp,
    /// The id that the next allocation hands out.
    pub next_id: u32,
    pub canvas: Canvas,
    /// Strokes in draw order.
    pub strokes: Vec<Stroke>,
}

/// `a` and `b` agree on every field but the stroke list.
pub open spec fn same_but_strokes(a: Document, b: Document) -> bool {
    &&& a.schema == b.schema
    &&& a.id == b.id
    &&& a.created_at == b.created_at
    &&& a.next_id == b.next_id
    &&& a.canvas == b.canvas
}

/// The outcome of loading a parsed document: the document itself when its
/// schema is [`SCHEMA_V0_2`], otherwise the schema error.
pub open spec fn load_result(parsed: Result<Document, String>) -> Result<Document, DocumentError> {
    match parsed {
        Err(msg) => Err(DocumentError::InvalidJson(msg)),
        Ok(doc) => if doc.schema@ == schema_text() {
            Ok(doc)
        } else {
            Err(DocumentError::UnsupportedSchema(doc.schema))
        },
    }
}

impl Document {
    /// An empty document with the given id and canvas, created now.
    pub fn new(id: u32, canvas: Canvas) -> (res: Document)
        ensures
            res.schema@ == schema_text(),
            res.id == id,
            res.next_id == 1,
            res.canvas == canvas,
            res.strokes@.len() == 0,
    {
        Document::new_at(id, canvas, Timestamp::now())
    }

    /// An empty document with the given id and canvas, created at `created_at`.
    pub fn new_at(id: u32, canvas: Canvas, created_at: Timestamp) -> (res: Document)
        ensures
            res.schema@ == schema_text(),
            res.id == id,
            res.created_at == created_at,
            res.next_id == 1,
            res.canvas == canvas,
            res.strokes@.len() == 0,
    {
        Document {
            schema: String::from_str(SCHEMA_V0_2),
            id,
            created_at,
            next_id: 1,
            canvas,
            strokes: Vec::new(),
        }
    }

    /// Hand out the next id and advance the counter.
    pub fn allocate_id(&mut self) -> (res: u32)
        requires
            old(self).next_id < u32::MAX,
        ensures
            res == old(self).next_id,
            final(self).next_id == old(self).next_id + 1,
            final(self).schema == old(self).schema,
            final(self).id == old(self).id,
            final(self).created_at == old(self).created_at,
            final(self).canvas == old(self).canvas,
            final(self).strokes == old(self).strokes,
    {
        let id = self.next_id;
        self.next_id = self.next_id + 1;
        id
    }

    /// Accept a parsed document only when its schema is [`SCHEMA_V0_2`].
    ///
    /// `parsed` is what a JSON parser made of the file: the document, or the
    /// parser's error message. Either a whole document comes back or an error.
    pub fn from_parsed(parsed: Result<Document, String>) -> (res: Result<Document, DocumentError>)
        ensures
            res == load_result(parsed),
    {
        match parsed {
            Err(msg) => Err(DocumentError::InvalidJson(msg)),
            Ok(doc) => {
                if same_text(doc.schema.as_str(), SCHEMA_V0_2) {
                    Ok(doc)
                } else {
                    Err(DocumentError::UnsupportedSchema(doc.schema))
                }
            },
        }
    }
}

/// Loading accepts exactly the documents with the supported schema (every
/// new document among them) and hands them back unchanged; any other schema
/// is refused with the schema found.
pub proof fn lemma_load_accepts_exactly_supported_schema(doc: Document)
    ensures
        doc.schema@ == schema_text() ==> load_result(Ok(doc)) == Ok::<Document, DocumentError>(doc),
        doc.schema@ != schema_text() ==> load_result(Ok(doc)) == Err::<Document, DocumentError>(
            DocumentError::UnsupportedSchema(doc.schema),
        ),
{
}

} // verus!
