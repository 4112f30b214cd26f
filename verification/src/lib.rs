//! Generator logic for turning a corpus of serialization fixtures into
//! test-suite source text.
//!
//! The crate models the fixture corpus as plain values (case names, value
//! trees, byte strings) and verifies the whole pipeline from a loaded case
//! map to the emitted source unit: case-name parsing into a target type,
//! reconstruction of typed literal expressions from schema-less value trees,
//! and deterministic emission of one test per case.

pub mod cases;
pub mod emit;
pub mod laws;
pub mod outside;
pub mod resolve;
pub mod strutil;
pub mod types;
pub mod value;
