//! Conversion errors.

use vstd::prelude::*;

verus! {

/// Why an import from the native type system was rejected.
///
/// Importing is total except for one shape: a native map whose entry type is
/// not a struct of at least two members (key, then value).  That shape is
/// reported, never a crash, and never partially accepted.
#[derive(Clone, Copy, PartialEq, Eq, Structural, Debug)]
pub enum SchemaError {
    /// A native map's entry type was not a struct of at least two members.
    UnsupportedNativeShape,
}

impl SchemaError {
    /// A human-readable description of the error.
    pub fn message(&self) -> (m: String)
        ensures
            m@ == "native map entry is not a struct of at least two members"@,
    {
        "native map entry is not a struct of at least two members".to_string()
    }
}

} // verus!
