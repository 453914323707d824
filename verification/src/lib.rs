//! External schema descriptions for a columnar query engine, and the
//! verified translation between them and the engine's native type system.
//!
//! [`model`] holds the external type vocabulary, [`native`] a structural
//! model of the engine's own types, [`convert`] the translation between the
//! two, [`schema`] named, nullable fields and whole schemas, [`error`] the
//! one way an import can fail, and [`laws`] the proved round-trip theorems.

pub mod model;
pub mod native;
pub mod error;
pub mod convert;
pub mod laws;
pub mod schema;
