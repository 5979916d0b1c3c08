//! One field of a model, as declared.

use vstd::prelude::*;
use crate::index_meta::FieldIndexMeta;

verus! {

/// A field of a model with its flags.
#[derive(Clone, Debug, PartialEq, Eq)]
pub struct ModelField {
    /// The field's identifier.
    pub ident: String,
    /// The field's type, as written.
    pub ty: String,
    /// The name under which the field is stored, where it differs from the identifier.
    pub rename: Option<String>,
    /// The field is the primary key.
    pub key: bool,
    /// The field is the primary key and the engine assigns it.
    pub auto_increment: bool,
    /// The field has a plain index.
    pub index: Option<FieldIndexMeta>,
    /// The field has a unique index.
    pub unique: Option<FieldIndexMeta>,
    /// The field has a multi-entry index.
    pub multi_entry: Option<FieldIndexMeta>,
}

impl ModelField {
    /// The field is a primary key, given or assigned.
    pub open spec fn spec_is_key(self) -> bool {
        self.key || self.auto_increment
    }

    /// The field carries at least one index flag.
    pub open spec fn spec_is_index(self) -> bool {
        self.index is Some || self.unique is Some || self.multi_entry is Some
    }

    /// How many of the three index flags the field carries.
    pub open spec fn spec_flag_count(self) -> nat {
        (if self.index is Some { 1nat } else { 0nat })
            + (if self.unique is Some { 1nat } else { 0nat })
            + (if self.multi_entry is Some { 1nat } else { 0nat })
    }

    /// The field carries more than one index flag.
    pub open spec fn spec_has_conflict(self) -> bool {
        self.spec_flag_count() > 1
    }

    /// The name under which the field is stored.
    pub open spec fn spec_name(self) -> Seq<char> {
        match self.rename {
            Some(rename) => rename@,
            None => self.ident@,
        }
    }

    /// The field's identifier.
    pub fn ident(&self) -> (out: &String)
        ensures
            out@ == self.ident@,
    {
        &self.ident
    }

    /// Whether the field is a primary key, given or assigned.
    pub fn is_key(&self) -> (out: bool)
        ensures
            out == self.spec_is_key(),
    {
        self.key || self.auto_increment
    }

    /// Whether the field carries at least one index flag.
    pub fn is_index(&self) -> (out: bool)
        ensures
            out == self.spec_is_index(),
    {
        self.index.is_some() || self.unique.is_some() || self.multi_entry.is_some()
    }

    /// Whether the field carries more than one index flag.
    pub fn has_conflict(&self) -> (out: bool)
        ensures
            out == self.spec_has_conflict(),
    {
        let a: u8 = if self.index.is_some() { 1 } else { 0 };
        let b: u8 = if self.unique.is_some() { 1 } else { 0 };
        let c: u8 = if self.multi_entry.is_some() { 1 } else { 0 };
        a + b + c > 1
    }

    /// The name under which the field is stored: the rename where there is
    /// one, else the identifier.
    pub fn get_name_str(&self) -> (out: String)
        ensures
            out@ == self.spec_name(),
    {
        match &self.rename {
            Some(rename) => rename.clone(),
            None => self.ident.clone(),
        }
    }
}

} // verus!
