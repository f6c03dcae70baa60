//! Stroke: the verified core of a single-document ink editor.
//!
//! The library holds the document model, stroke capture, session-local
//! undo/redo history and the decisions of the file workflow (Save, Save As,
//! Open, New). Browser I/O, JSON (de)serialization and floating-point drawing
//! live in the application crate around it.
pub mod timestamp;
pub mod text;
pub mod document;
pub mod history;
pub mod capture;
pub mod render;
pub mod persist;
pub mod editor;
