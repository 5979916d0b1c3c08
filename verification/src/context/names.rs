//! The names that an index gets where none is given.
//!
//! An index has three names: the name under which the engine stores it, the
//! identifier of the type that describes it, and the accessor by which a
//! store hands it out. Each is put together from the model, the fields of the
//! index and the kind of the index.

use vstd::prelude::*;
use vstd::string::StringExecFns;
use crate::text::{join, spec_join, str_views};

verus! {

/// The kind of an index: over one field or several, and plain, unique or
/// multi-entry.
#[derive(Clone, Copy, Debug, PartialEq, Eq, Structural)]
pub enum IndexKind {
    Single,
    SingleUnique,
    SingleMultiEntry,
    Composite,
    CompositeUnique,
    CompositeMultiEntry,
}

impl IndexKind {
    /// The index admits one record at most for each key.
    pub open spec fn spec_is_unique(self) -> bool {
        self == IndexKind::SingleUnique || self == IndexKind::CompositeUnique
    }

    /// The index holds one entry for each element of a key that is a sequence.
    pub open spec fn spec_is_multi_entry(self) -> bool {
        self == IndexKind::SingleMultiEntry || self == IndexKind::CompositeMultiEntry
    }

    /// The index is over several fields.
    pub open spec fn spec_is_composite(self) -> bool {
        self == IndexKind::Composite || self == IndexKind::CompositeUnique || self
            == IndexKind::CompositeMultiEntry
    }

    /// The end of a derived storage name.
    pub open spec fn name_suffix(self) -> Seq<char> {
        match self {
            IndexKind::Single => "index"@,
            IndexKind::SingleUnique => "unique_index"@,
            IndexKind::SingleMultiEntry => "multi_entry_index"@,
            IndexKind::Composite => "composite_index"@,
            IndexKind::CompositeUnique => "composite_unique_index"@,
            IndexKind::CompositeMultiEntry => "composite_multi_entry_index"@,
        }
    }

    /// The end of a derived accessor; nothing for a plain index over one field.
    pub open spec fn by_fn_suffix(self) -> Seq<char> {
        match self {
            IndexKind::Single => ""@,
            IndexKind::SingleUnique => "_unique"@,
            IndexKind::SingleMultiEntry => "_multi_entry"@,
            IndexKind::Composite => "_composite"@,
            IndexKind::CompositeUnique => "_composite_unique"@,
            IndexKind::CompositeMultiEntry => "_composite_multi_entry"@,
        }
    }

    /// The end of a derived type identifier.
    pub open spec fn ident_suffix(self) -> Seq<char> {
        match self {
            IndexKind::Single => "Index"@,
            IndexKind::SingleUnique => "UniqueIndex"@,
            IndexKind::SingleMultiEntry => "MultiEntryIndex"@,
            IndexKind::Composite => "CompositeIndex"@,
            IndexKind::CompositeUnique => "CompositeUniqueIndex"@,
            IndexKind::CompositeMultiEntry => "CompositeMultiEntryIndex"@,
        }
    }

    /// Whether the index admits one record at most for each key.
    pub fn is_unique(self) -> (out: bool)
        ensures
            out == self.spec_is_unique(),
    {
        match self {
            IndexKind::SingleUnique | IndexKind::CompositeUnique => true,
            _ => false,
        }
    }

    /// Whether the index holds one entry for each element of a sequence key.
    pub fn is_multi_entry(self) -> (out: bool)
        ensures
            out == self.spec_is_multi_entry(),
    {
        match self {
            IndexKind::SingleMultiEntry | IndexKind::CompositeMultiEntry => true,
            _ => false,
        }
    }

    /// Whether the index is over several fields.
    pub fn is_composite(self) -> (out: bool)
        ensures
            out == self.spec_is_composite(),
    {
        match self {
            IndexKind::Composite | IndexKind::CompositeUnique | IndexKind::CompositeMultiEntry => true,
            _ => false,
        }
    }
}

/// The derived storage name of an index: the model's name in snake case, the
/// identifiers of the fields and the kind, with underscores between them.
pub open spec fn default_index_name(
    model_snake: Seq<char>,
    idents: Seq<Seq<char>>,
    kind: IndexKind,
) -> Seq<char> {
    model_snake + "_"@ + spec_join(idents, "_"@) + "_"@ + kind.name_suffix()
}

/// The derived accessor of an index: `by_`, the identifiers of the fields
/// with underscores between them, and the kind.
pub open spec fn default_by_fn(idents: Seq<Seq<char>>, kind: IndexKind) -> Seq<char> {
    "by_"@ + spec_join(idents, "_"@) + kind.by_fn_suffix()
}

/// The derived type identifier of an index: the model's identifier, the
/// identifiers of the fields in pascal case, and the kind.
pub open spec fn default_index_ident(
    model_ident: Seq<char>,
    pascals: Seq<Seq<char>>,
    kind: IndexKind,
) -> Seq<char> {
    model_ident + spec_join(pascals, ""@) + kind.ident_suffix()
}

/// Derives the storage name of an index from the model's name in snake case,
/// the identifiers of its fields and its kind.
pub fn index_name(model_snake: &str, idents: &Vec<String>, kind: IndexKind) -> (out: String)
    ensures
        out@ == default_index_name(model_snake@, str_views(idents@), kind),
{
    let mut out = String::from_str(model_snake);
    out.append("_");
    let joined = join(idents, "_");
    out.append(joined.as_str());
    out.append("_");
    match kind {
        IndexKind::Single => out.append("index"),
        IndexKind::SingleUnique => out.append("unique_index"),
        IndexKind::SingleMultiEntry => out.append("multi_entry_index"),
        IndexKind::Composite => out.append("composite_index"),
        IndexKind::CompositeUnique => out.append("composite_unique_index"),
        IndexKind::CompositeMultiEntry => out.append("composite_multi_entry_index"),
    }
    out
}

/// Derives the accessor of an index from the identifiers of its fields and
/// its kind.
pub fn by_fn_name(idents: &Vec<String>, kind: IndexKind) -> (out: String)
    ensures
        out@ == default_by_fn(str_views(idents@), kind),
{
    let mut out = String::from_str("by_");
    let joined = join(idents, "_");
    out.append(joined.as_str());
    match kind {
        IndexKind::Single => out.append(""),
        IndexKind::SingleUnique => out.append("_unique"),
        IndexKind::SingleMultiEntry => out.append("_multi_entry"),
        IndexKind::Composite => out.append("_composite"),
        IndexKind::CompositeUnique => out.append("_composite_unique"),
        IndexKind::CompositeMultiEntry => out.append("_composite_multi_entry"),
    }
    out
}

/// Derives the type identifier of an index from the model's identifier, the
/// identifiers of its fields in pascal case and its kind.
pub fn index_ident(model_ident: &str, pascals: &Vec<String>, kind: IndexKind) -> (out: String)
    ensures
        out@ == default_index_ident(model_ident@, str_views(pascals@), kind),
{
    let mut out = String::from_str(model_ident);
    let joined = join(pascals, "");
    out.append(joined.as_str());
    match kind {
        IndexKind::Single => out.append("Index"),
        IndexKind::SingleUnique => out.append("UniqueIndex"),
        IndexKind::SingleMultiEntry => out.append("MultiEntryIndex"),
        IndexKind::Composite => out.append("CompositeIndex"),
        IndexKind::CompositeUnique => out.append("CompositeUniqueIndex"),
        IndexKind::CompositeMultiEntry => out.append("CompositeMultiEntryIndex"),
    }
    out
}

} // verus!
