//! Compiler from a small, author-friendly content-model description
//! (fields, entry types, sections, volumes) to the verbose per-record
//! configuration schema of a content-management system.
//!
//! The library builds the target records, the per-record file names and
//! the project-wide name index as plain values; reading the input file,
//! serializing the records and writing them to disk are left to the
//! surrounding binary.

pub mod config;
pub mod entry_type;
pub mod field;
pub mod generator;
pub mod laws;
pub mod support;
pub mod text;
