//! Error reporting and partial-result recovery for a structured metadata
//! (Exif) decoder.
//!
//! The crate provides two closely linked types. [`Error`] classifies every
//! way a decode or encode operation can fail, wraps underlying I/O failures,
//! and carries the outcome of a best-effort decode pass. [`PartialResult`]
//! holds the document that such a pass managed to reconstruct together with
//! the ordered list of errors that were suppressed along the way, so a caller
//! can accept imperfect metadata instead of rejecting the whole file.

pub mod document;
pub mod error;
pub mod render;

pub use document::Document;
pub use error::Error;
pub use error::PartialResult;
