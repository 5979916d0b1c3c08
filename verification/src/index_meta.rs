//! What an index declaration may override.

use vstd::prelude::*;

verus! {

/// A model-level declaration of a composite index over several fields.
#[derive(Clone, Debug, PartialEq, Eq)]
pub struct ModelIndexMeta {
    /// The storage name, where the derived one is not wanted.
    pub name: Option<String>,
    /// The identifiers of the fields that make up the index key, in order.
    pub fields: Vec<String>,
    /// The type identifier, where the derived one is not wanted.
    pub struct_name: Option<String>,
}

/// What a field's index flag may carry.
#[derive(Clone, Debug, PartialEq, Eq)]
pub struct FieldIndexMeta {
    /// The storage name, where the derived one is not wanted.
    pub name: Option<String>,
    /// The type identifier, where the derived one is not wanted.
    pub struct_name: Option<String>,
}

impl Default for FieldIndexMeta {
    fn default() -> (out: Self)
        ensures
            out.name is None,
            out.struct_name is None,
    {
        FieldIndexMeta { name: None, struct_name: None }
    }
}

/// The characters of a string that may be absent.
pub open spec fn opt_view(s: Option<String>) -> Option<Seq<char>> {
    match s {
        Some(s) => Some(s@),
        None => None,
    }
}

} // verus!
