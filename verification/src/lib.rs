//! Bindings around an embedded Apache Tika runtime that extract text and
//! metadata from documents.
//!
//! The entry point is the [`Extractor`] builder: configure it with
//! [`PdfParserConfig`], [`OfficeParserConfig`] and [`TesseractOcrConfig`]
//! values, then extract from a file path or a URL, either as one bounded
//! `String` or as a [`StreamReader`] that is read incrementally.
//!
//! All extraction work happens inside an embedded Java virtual machine.
//! This crate marshals configuration into Java objects, dispatches the
//! parse calls, decodes the tagged result envelope that comes back, and
//! adapts the Java-side stream to a pull-based read interface. Creating
//! the virtual machine itself requires unsafe FFI and a process-wide
//! handle, so the embedding program owns the `JavaVM` and passes it in.

#![allow(non_camel_case_types)]

use vstd::prelude::*;

mod errors;
mod config;
mod coordinates;
mod extractor;
mod metadata;
pub mod wire;
pub mod tika;

pub use errors::{Error, ExtractResult, error_from_status};
pub use config::{PdfOcrStrategy, PdfParserConfig, OfficeParserConfig, TesseractOcrConfig};
pub use coordinates::Orientation;
pub use extractor::{CharSet, Extractor, StreamReader};
pub use metadata::Metadata;
pub use wire::{SetterArg, SetterCall};

verus! {

/// Default capacity, in bytes, of the buffer a streaming reader shares
/// with the Java side.
pub const DEFAULT_BUF_SIZE: usize = 32768;

} // verus!
