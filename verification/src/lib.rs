//! Signatures of file formats and the parsers that validate a match of one.
pub mod common;
pub mod signatures;
pub mod structures;
pub mod text;
