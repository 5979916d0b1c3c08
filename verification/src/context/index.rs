//! The secondary indexes of a model.

use vstd::prelude::*;
use crate::case::{pascal_case_all, pascal_case_of, snake_case, snake_case_of};
use crate::context::names::{
    by_fn_name,
    default_by_fn,
    default_index_ident,
    default_index_name,
    index_ident,
    index_name,
    IndexKind,
};
use crate::error::{errors_view, ValidationError, ValidationErrorView};
use crate::index_meta::{opt_view, FieldIndexMeta, ModelIndexMeta};
use crate::context::key::{KeyPath, KeyPathSpec};
use crate::model::{
    idents_at,
    missing_fields,
    names_at,
    resolved_positions,
    types_at,
    Model,
};
use crate::model_field::ModelField;
use crate::text::{clone_strings, str_views};

verus! {

/// The accessor of an index together with the type that describes the index.
#[derive(Clone, Debug, PartialEq, Eq)]
pub struct ByFnContext {
    /// The type identifier of the index.
    pub index_ident: String,
    /// The accessor by which a store hands the index out.
    pub by_fn_ident: String,
}

/// A [`ByFnContext`] as a mathematical value.
pub ghost struct ByFnSpec {
    pub index_ident: Seq<char>,
    pub by_fn_ident: Seq<char>,
}

impl View for ByFnContext {
    type V = ByFnSpec;

    open spec fn view(&self) -> ByFnSpec {
        ByFnSpec { index_ident: self.index_ident@, by_fn_ident: self.by_fn_ident@ }
    }
}

/// A compiled index.
#[derive(Clone, Debug, PartialEq, Eq)]
pub enum IndexContext {
    /// A plain index over one field.
    Single {
        /// The stored name of the indexed field.
        key: String,
        /// The type identifier of the index.
        index_ident: String,
        /// The name under which the engine stores the index.
        index_name: String,
        /// The identifier of the model that the index belongs to.
        index_model: String,
        /// The type of the indexed field.
        index_ty: String,
        /// The accessor by which a store hands the index out.
        by_fn_ident: String,
    },
    /// A unique index over one field.
    SingleUnique {
        /// The stored name of the indexed field.
        key: String,
        /// The type identifier of the index.
        index_ident: String,
        /// The name under which the engine stores the index.
        index_name: String,
        /// The identifier of the model that the index belongs to.
        index_model: String,
        /// The type of the indexed field.
        index_ty: String,
        /// The accessor by which a store hands the index out.
        by_fn_ident: String,
    },
    /// A multi-entry index over one field.
    SingleMultiEntry {
        /// The stored name of the indexed field.
        key: String,
        /// The type identifier of the index.
        index_ident: String,
        /// The name under which the engine stores the index.
        index_name: String,
        /// The identifier of the model that the index belongs to.
        index_model: String,
        /// The type of the indexed field.
        index_ty: String,
        /// The accessor by which a store hands the index out.
        by_fn_ident: String,
    },
    /// A plain index over several fields.
    Composite {
        /// The stored names of the indexed fields, in order.
        keys: Vec<String>,
        /// The type identifier of the index.
        index_ident: String,
        /// The name under which the engine stores the index.
        index_name: String,
        /// The identifier of the model that the index belongs to.
        index_model: String,
        /// The types of the indexed fields, in order.
        index_tys: Vec<String>,
        /// The accessor by which a store hands the index out.
        by_fn_ident: String,
    },
    /// A unique index over several fields.
    CompositeUnique {
        /// The stored names of the indexed fields, in order.
        keys: Vec<String>,
        /// The type identifier of the index.
        index_ident: String,
        /// The name under which the engine stores the index.
        index_name: String,
        /// The identifier of the model that the index belongs to.
        index_model: String,
        /// The types of the indexed fields, in order.
        index_tys: Vec<String>,
        /// The accessor by which a store hands the index out.
        by_fn_ident: String,
    },
    /// A multi-entry index over several fields.
    CompositeMultiEntry {
        /// The stored names of the indexed fields, in order.
        keys: Vec<String>,
        /// The type identifier of the index.
        index_ident: String,
        /// The name under which the engine stores the index.
        index_name: String,
        /// The identifier of the model that the index belongs to.
        index_model: String,
        /// The types of the indexed fields, in order.
        index_tys: Vec<String>,
        /// The accessor by which a store hands the index out.
        by_fn_ident: String,
    },
}

/// An [`IndexContext`] as a mathematical value.
pub ghost struct IndexSpec {
    pub kind: IndexKind,
    pub keys: Seq<Seq<char>>,
    pub index_ident: Seq<char>,
    pub index_name: Seq<char>,
    pub index_model: Seq<char>,
    pub index_tys: Seq<Seq<char>>,
    pub by_fn_ident: Seq<char>,
}

impl View for IndexContext {
    type V = IndexSpec;

    open spec fn view(&self) -> IndexSpec {
        match self {
            IndexContext::Single { key, index_ident, index_name, index_model, index_ty, by_fn_ident } => IndexSpec {
                kind: IndexKind::Single,
                keys: seq![key@],
                index_ident: index_ident@,
                index_name: index_name@,
                index_model: index_model@,
                index_tys: seq![index_ty@],
                by_fn_ident: by_fn_ident@,
            },
            IndexContext::SingleUnique { key, index_ident, index_name, index_model, index_ty, by_fn_ident } => IndexSpec {
                kind: IndexKind::SingleUnique,
                keys: seq![key@],
                index_ident: index_ident@,
                index_name: index_name@,
                index_model: index_model@,
                index_tys: seq![index_ty@],
                by_fn_ident: by_fn_ident@,
            },
            IndexContext::SingleMultiEntry { key, index_ident, index_name, index_model, index_ty, by_fn_ident } => IndexSpec {
                kind: IndexKind::SingleMultiEntry,
                keys: seq![key@],
                index_ident: index_ident@,
                index_name: index_name@,
                index_model: index_model@,
                index_tys: seq![index_ty@],
                by_fn_ident: by_fn_ident@,
            },
            IndexContext::Composite { keys, index_ident, index_name, index_model, index_tys, by_fn_ident } => IndexSpec {
                kind: IndexKind::Composite,
                keys: str_views(keys@),
                index_ident: index_ident@,
                index_name: index_name@,
                index_model: index_model@,
                index_tys: str_views(index_tys@),
                by_fn_ident: by_fn_ident@,
            },
            IndexContext::CompositeUnique { keys, index_ident, index_name, index_model, index_tys, by_fn_ident } => IndexSpec {
                kind: IndexKind::CompositeUnique,
                keys: str_views(keys@),
                index_ident: index_ident@,
                index_name: index_name@,
                index_model: index_model@,
                index_tys: str_views(index_tys@),
                by_fn_ident: by_fn_ident@,
            },
            IndexContext::CompositeMultiEntry { keys, index_ident, index_name, index_model, index_tys, by_fn_ident } => IndexSpec {
                kind: IndexKind::CompositeMultiEntry,
                keys: str_views(keys@),
                index_ident: index_ident@,
                index_name: index_name@,
                index_model: index_model@,
                index_tys: str_views(index_tys@),
                by_fn_ident: by_fn_ident@,
            },
        }
    }
}

/// What the engine is told of an index when it is created.
#[derive(Clone, Debug, PartialEq, Eq)]
pub struct IndexDefinition {
    /// The name under which the engine stores the index.
    pub name: String,
    /// Where the engine finds the index key inside a record.
    pub key_path: KeyPath,
    /// The engine admits one record at most for each key.
    pub unique: bool,
    /// The engine holds one entry for each element of a sequence key.
    pub multi_entry: bool,
}

impl IndexSpec {
    /// Where the engine finds the index key inside a record: the one property
    /// of an index over one field, else the list of properties.
    pub open spec fn key_path(self) -> KeyPathSpec {
        if self.kind.spec_is_composite() {
            KeyPathSpec::Array(self.keys)
        } else {
            KeyPathSpec::Single(self.keys[0])
        }
    }

    /// The accessor with the type identifier.
    pub open spec fn by_fn(self) -> ByFnSpec {
        ByFnSpec { index_ident: self.index_ident, by_fn_ident: self.by_fn_ident }
    }
}

/// The indexes of a list as mathematical values.
pub open spec fn indexes_view(indexes: Seq<IndexContext>) -> Seq<IndexSpec> {
    indexes.map_values(|ix: IndexContext| ix@)
}

/// The index over the fields with the identifiers `idents`, stored names
/// `keys` and types `tys`: each name is the one given, else the derived one.
pub open spec fn spec_index(
    model_ident: Seq<char>,
    kind: IndexKind,
    idents: Seq<Seq<char>>,
    keys: Seq<Seq<char>>,
    tys: Seq<Seq<char>>,
    name: Option<Seq<char>>,
    struct_name: Option<Seq<char>>,
) -> IndexSpec {
    IndexSpec {
        kind,
        keys,
        index_ident: match struct_name {
            Some(given) => given,
            None => default_index_ident(
                model_ident,
                idents.map_values(|s: Seq<char>| pascal_case_of(s)),
                kind,
            ),
        },
        index_name: match name {
            Some(given) => given,
            None => default_index_name(snake_case_of(model_ident), idents, kind),
        },
        index_model: model_ident,
        index_tys: tys,
        by_fn_ident: default_by_fn(idents, kind),
    }
}

/// The kind of the index that a field's flags declare: the first of plain,
/// unique and multi-entry that is set.
pub open spec fn field_kind(field: ModelField) -> IndexKind {
    if field.index is Some {
        IndexKind::Single
    } else if field.unique is Some {
        IndexKind::SingleUnique
    } else {
        IndexKind::SingleMultiEntry
    }
}

/// What the flag that decides a field's index kind carries.
pub open spec fn field_meta(field: ModelField) -> FieldIndexMeta {
    if field.index is Some {
        field.index->Some_0
    } else if field.unique is Some {
        field.unique->Some_0
    } else {
        field.multi_entry->Some_0
    }
}

/// The index that a field declares by exactly one index flag.
pub open spec fn spec_single_index(model: Model, field: ModelField) -> Option<IndexSpec> {
    if !field.spec_is_index() || field.spec_has_conflict() {
        None
    } else {
        Some(
            spec_index(
                model.ident@,
                field_kind(field),
                seq![field.ident@],
                seq![field.spec_name()],
                seq![field.ty@],
                opt_view(field_meta(field).name),
                opt_view(field_meta(field).struct_name),
            ),
        )
    }
}

/// The error of a field that carries more than one index flag.
pub open spec fn spec_conflict(field: ModelField) -> Option<ValidationErrorView> {
    if field.spec_has_conflict() {
        Some(ValidationErrorView::ConflictingIndex { field: field.ident@ })
    } else {
        None
    }
}

/// The index that a model-level declaration gives, where every field that it
/// names is a field of the model.
pub open spec fn spec_composite_index(model: Model, meta: ModelIndexMeta, kind: IndexKind) -> Option<
    IndexSpec,
> {
    if missing_fields(model.fields@, meta.fields@).len() > 0 {
        None
    } else {
        let positions = resolved_positions(model.fields@, meta.fields@);
        Some(
            spec_index(
                model.ident@,
                kind,
                idents_at(model.fields@, positions),
                names_at(model.fields@, positions),
                types_at(model.fields@, positions),
                opt_view(meta.name),
                opt_view(meta.struct_name),
            ),
        )
    }
}

/// The view of the outcome of compiling one field's index flags.
pub open spec fn single_result_ok(
    model: Model,
    field: ModelField,
    out: Result<Option<IndexContext>, ValidationError>,
) -> bool {
    match out {
        Ok(Some(index)) => spec_single_index(model, field) == Some(index@),
        Ok(None) => !field.spec_is_index(),
        Err(error) => spec_conflict(field) == Some(error@),
    }
}

/// The view of the outcome of compiling one model-level index declaration.
pub open spec fn composite_result_ok(
    model: Model,
    meta: ModelIndexMeta,
    kind: IndexKind,
    out: Result<IndexContext, Vec<ValidationError>>,
) -> bool {
    match out {
        Ok(index) => spec_composite_index(model, meta, kind) == Some(index@),
        Err(errors) => {
            &&& errors_view(errors@) == missing_fields(model.fields@, meta.fields@)
            &&& errors@.len() > 0
        },
    }
}

impl IndexContext {
    /// The type identifier and the storage name of an index: each is the
    /// one given, else the derived one.
    fn names(
        model_ident: &String,
        kind: IndexKind,
        idents: &Vec<String>,
        name: &Option<String>,
        struct_name: &Option<String>,
    ) -> (out: (String, String))
        ensures
            out.0@ == (match opt_view(*struct_name) {
                Some(given) => given,
                None => default_index_ident(
                    model_ident@,
                    str_views(idents@).map_values(|s: Seq<char>| pascal_case_of(s)),
                    kind,
                ),
            }),
            out.1@ == (match opt_view(*name) {
                Some(given) => given,
                None => default_index_name(snake_case_of(model_ident@), str_views(idents@), kind),
            }),
    {
        let ident = match struct_name {
            Some(given) => given.clone(),
            None => {
                let pascals = pascal_case_all(idents);
                index_ident(model_ident.as_str(), &pascals, kind)
            },
        };
        let storage_name = match name {
            Some(given) => given.clone(),
            None => {
                let model_snake = snake_case(model_ident.as_str());
                index_name(model_snake.as_str(), idents, kind)
            },
        };
        (ident, storage_name)
    }

    /// Puts an index over one field together from its parts, deriving each
    /// name that is not given.
    fn single(
        model_ident: &String,
        kind: IndexKind,
        ident: &String,
        key: String,
        ty: String,
        name: &Option<String>,
        struct_name: &Option<String>,
    ) -> (out: IndexContext)
        requires
            !kind.spec_is_composite(),
        ensures
            out@ == spec_index(
                model_ident@,
                kind,
                seq![ident@],
                seq![key@],
                seq![ty@],
                opt_view(*name),
                opt_view(*struct_name),
            ),
    {
        let mut idents: Vec<String> = Vec::new();
        idents.push(ident.clone());
        proof {
            assert(str_views(idents@) =~= seq![ident@]);
        }
        let (index_ident, index_name) = Self::names(model_ident, kind, &idents, name, struct_name);
        let by_fn_ident = by_fn_name(&idents, kind);
        let index_model = model_ident.clone();
        match kind {
            IndexKind::Single => IndexContext::Single {
                key,
                index_ident,
                index_name,
                index_model,
                index_ty: ty,
                by_fn_ident,
            },
            IndexKind::SingleUnique => IndexContext::SingleUnique {
                key,
                index_ident,
                index_name,
                index_model,
                index_ty: ty,
                by_fn_ident,
            },
            IndexKind::SingleMultiEntry => IndexContext::SingleMultiEntry {
                key,
                index_ident,
                index_name,
                index_model,
                index_ty: ty,
                by_fn_ident,
            },
            _ => vstd::pervasive::unreached(),
        }
    }

    /// Puts an index over several fields together from its parts, deriving
    /// each name that is not given.
    fn composite(
        model_ident: &String,
        kind: IndexKind,
        idents: &Vec<String>,
        keys: Vec<String>,
        tys: Vec<String>,
        name: &Option<String>,
        struct_name: &Option<String>,
    ) -> (out: IndexContext)
        requires
            kind.spec_is_composite(),
        ensures
            out@ == spec_index(
                model_ident@,
                kind,
                str_views(idents@),
                str_views(keys@),
                str_views(tys@),
                opt_view(*name),
                opt_view(*struct_name),
            ),
    {
        let (index_ident, index_name) = Self::names(model_ident, kind, idents, name, struct_name);
        let by_fn_ident = by_fn_name(idents, kind);
        let index_model = model_ident.clone();
        match kind {
            IndexKind::Composite => IndexContext::Composite {
                keys,
                index_ident,
                index_name,
                index_model,
                index_tys: tys,
                by_fn_ident,
            },
            IndexKind::CompositeUnique => IndexContext::CompositeUnique {
                keys,
                index_ident,
                index_name,
                index_model,
                index_tys: tys,
                by_fn_ident,
            },
            IndexKind::CompositeMultiEntry => IndexContext::CompositeMultiEntry {
                keys,
                index_ident,
                index_name,
                index_model,
                index_tys: tys,
                by_fn_ident,
            },
            _ => vstd::pervasive::unreached(),
        }
    }

    /// The kind of the index: over one field or several; plain, unique or
    /// multi-entry.
    pub fn kind(&self) -> (out: IndexKind)
        ensures
            out == self@.kind,
    {
        match self {
            IndexContext::Single { .. } => IndexKind::Single,
            IndexContext::SingleUnique { .. } => IndexKind::SingleUnique,
            IndexContext::SingleMultiEntry { .. } => IndexKind::SingleMultiEntry,
            IndexContext::Composite { .. } => IndexKind::Composite,
            IndexContext::CompositeUnique { .. } => IndexKind::CompositeUnique,
            IndexContext::CompositeMultiEntry { .. } => IndexKind::CompositeMultiEntry,
        }
    }

    /// The stored names of the indexed fields, in order: one for an index
    /// over one field.
    pub fn keys(&self) -> (out: Vec<String>)
        ensures
            str_views(out@) == self@.keys,
    {
        match self {
            IndexContext::Single { key, .. } => one_string(key),
            IndexContext::SingleUnique { key, .. } => one_string(key),
            IndexContext::SingleMultiEntry { key, .. } => one_string(key),
            IndexContext::Composite { keys, .. } => clone_strings(keys),
            IndexContext::CompositeUnique { keys, .. } => clone_strings(keys),
            IndexContext::CompositeMultiEntry { keys, .. } => clone_strings(keys),
        }
    }

    /// The types of the indexed fields, in order: one for an index over one
    /// field.
    pub fn tys(&self) -> (out: Vec<String>)
        ensures
            str_views(out@) == self@.index_tys,
    {
        match self {
            IndexContext::Single { index_ty, .. } => one_string(index_ty),
            IndexContext::SingleUnique { index_ty, .. } => one_string(index_ty),
            IndexContext::SingleMultiEntry { index_ty, .. } => one_string(index_ty),
            IndexContext::Composite { index_tys, .. } => clone_strings(index_tys),
            IndexContext::CompositeUnique { index_tys, .. } => clone_strings(index_tys),
            IndexContext::CompositeMultiEntry { index_tys, .. } => clone_strings(index_tys),
        }
    }

    /// The type identifier of the index.
    pub fn ident(&self) -> (out: &String)
        ensures
            out@ == self@.index_ident,
    {
        match self {
            IndexContext::Single { index_ident, .. } => index_ident,
            IndexContext::SingleUnique { index_ident, .. } => index_ident,
            IndexContext::SingleMultiEntry { index_ident, .. } => index_ident,
            IndexContext::Composite { index_ident, .. } => index_ident,
            IndexContext::CompositeUnique { index_ident, .. } => index_ident,
            IndexContext::CompositeMultiEntry { index_ident, .. } => index_ident,
        }
    }

    /// The name under which the engine stores the index.
    pub fn name(&self) -> (out: &String)
        ensures
            out@ == self@.index_name,
    {
        match self {
            IndexContext::Single { index_name, .. } => index_name,
            IndexContext::SingleUnique { index_name, .. } => index_name,
            IndexContext::SingleMultiEntry { index_name, .. } => index_name,
            IndexContext::Composite { index_name, .. } => index_name,
            IndexContext::CompositeUnique { index_name, .. } => index_name,
            IndexContext::CompositeMultiEntry { index_name, .. } => index_name,
        }
    }

    /// The identifier of the model that the index belongs to.
    pub fn model(&self) -> (out: &String)
        ensures
            out@ == self@.index_model,
    {
        match self {
            IndexContext::Single { index_model, .. } => index_model,
            IndexContext::SingleUnique { index_model, .. } => index_model,
            IndexContext::SingleMultiEntry { index_model, .. } => index_model,
            IndexContext::Composite { index_model, .. } => index_model,
            IndexContext::CompositeUnique { index_model, .. } => index_model,
            IndexContext::CompositeMultiEntry { index_model, .. } => index_model,
        }
    }

    /// The accessor by which a store hands the index out.
    pub fn by_fn(&self) -> (out: &String)
        ensures
            out@ == self@.by_fn_ident,
    {
        match self {
            IndexContext::Single { by_fn_ident, .. } => by_fn_ident,
            IndexContext::SingleUnique { by_fn_ident, .. } => by_fn_ident,
            IndexContext::SingleMultiEntry { by_fn_ident, .. } => by_fn_ident,
            IndexContext::Composite { by_fn_ident, .. } => by_fn_ident,
            IndexContext::CompositeUnique { by_fn_ident, .. } => by_fn_ident,
            IndexContext::CompositeMultiEntry { by_fn_ident, .. } => by_fn_ident,
        }
    }

    /// The accessor of the index together with its type identifier.
    pub fn by_fn_context(&self) -> (out: ByFnContext)
        ensures
            out@ == self@.by_fn(),
    {
        ByFnContext { index_ident: self.ident().clone(), by_fn_ident: self.by_fn().clone() }
    }

    /// The type identifier under which the index is added to its object store.
    pub fn expand_object_store_builder(&self) -> (out: String)
        ensures
            out@ == self@.index_ident,
    {
        self.ident().clone()
    }

    /// What the engine is told of the index when it is created: its storage
    /// name, its key path, and whether it is unique or multi-entry.
    pub fn expand_model_index_definition(&self) -> (out: IndexDefinition)
        ensures
            out.name@ == self@.index_name,
            out.key_path@ == self@.key_path(),
            out.unique == self@.kind.spec_is_unique(),
            out.multi_entry == self@.kind.spec_is_multi_entry(),
    {
        match self {
            IndexContext::Single { key, index_name, .. } => IndexDefinition {
                name: index_name.clone(),
                key_path: KeyPath::Single(key.clone()),
                unique: false,
                multi_entry: false,
            },
            IndexContext::SingleUnique { key, index_name, .. } => IndexDefinition {
                name: index_name.clone(),
                key_path: KeyPath::Single(key.clone()),
                unique: true,
                multi_entry: false,
            },
            IndexContext::SingleMultiEntry { key, index_name, .. } => IndexDefinition {
                name: index_name.clone(),
                key_path: KeyPath::Single(key.clone()),
                unique: false,
                multi_entry: true,
            },
            IndexContext::Composite { keys, index_name, .. } => IndexDefinition {
                name: index_name.clone(),
                key_path: KeyPath::Array(clone_strings(keys)),
                unique: false,
                multi_entry: false,
            },
            IndexContext::CompositeUnique { keys, index_name, .. } => IndexDefinition {
                name: index_name.clone(),
                key_path: KeyPath::Array(clone_strings(keys)),
                unique: true,
                multi_entry: false,
            },
            IndexContext::CompositeMultiEntry { keys, index_name, .. } => IndexDefinition {
                name: index_name.clone(),
                key_path: KeyPath::Array(clone_strings(keys)),
                unique: false,
                multi_entry: true,
            },
        }
    }
}

/// A list of the one string `s`.
fn one_string(s: &String) -> (out: Vec<String>)
    ensures
        str_views(out@) == seq![s@],
{
    let mut out: Vec<String> = Vec::new();
    out.push(s.clone());
    proof {
        assert(str_views(out@) =~= seq![s@]);
    }
    out
}

/// Compiles the index that a field's flags declare.
///
/// A field without an index flag gives no index; a field with exactly one
/// gives the index of that kind; a field with more than one is an error.
pub fn get_single_index_for_field(model: &Model, field: &ModelField) -> (out: Result<
    Option<IndexContext>,
    ValidationError,
>)
    ensures
        single_result_ok(*model, *field, out),
        out is Err <==> field.spec_has_conflict(),
        out is Ok && out->Ok_0 is Some <==> field.spec_is_index() && !field.spec_has_conflict(),
{
    if !field.is_index() {
        return Ok(None);
    }
    if field.has_conflict() {
        return Err(ValidationError::ConflictingIndex { field: field.ident.clone() });
    }
    let key = field.get_name_str();
    let ty = field.ty.clone();
    let index = if let Some(meta) = &field.index {
        IndexContext::single(
            &model.ident,
            IndexKind::Single,
            &field.ident,
            key,
            ty,
            &meta.name,
            &meta.struct_name,
        )
    } else if let Some(meta) = &field.unique {
        IndexContext::single(
            &model.ident,
            IndexKind::SingleUnique,
            &field.ident,
            key,
            ty,
            &meta.name,
            &meta.struct_name,
        )
    } else if let Some(meta) = &field.multi_entry {
        IndexContext::single(
            &model.ident,
            IndexKind::SingleMultiEntry,
            &field.ident,
            key,
            ty,
            &meta.name,
            &meta.struct_name,
        )
    } else {
        vstd::pervasive::unreached()
    };
    Ok(Some(index))
}

/// Compiles a model-level index declaration of the given kind.
fn get_index_for_meta(model: &Model, meta: &ModelIndexMeta, kind: IndexKind) -> (out: Result<
    IndexContext,
    Vec<ValidationError>,
>)
    requires
        kind.spec_is_composite(),
    ensures
        composite_result_ok(*model, *meta, kind, out),
        out is Ok <==> missing_fields(model.fields@, meta.fields@).len() == 0,
{
    match model.get_fields_from_path_list(&meta.fields) {
        Err(errors) => {
            proof {
                assert(errors_view(errors@).len() == errors@.len());
            }
            Err(errors)
        },
        Ok(positions) => {
            let idents = model.idents_of(&positions);
            let keys = model.names_of(&positions);
            let tys = model.types_of(&positions);
            Ok(
                IndexContext::composite(
                    &model.ident,
                    kind,
                    &idents,
                    keys,
                    tys,
                    &meta.name,
                    &meta.struct_name,
                ),
            )
        },
    }
}

/// Compiles a model-level declaration of a plain index over several fields.
pub fn get_composite_index_for_meta(model: &Model, meta: &ModelIndexMeta) -> (out: Result<
    IndexContext,
    Vec<ValidationError>,
>)
    ensures
        composite_result_ok(*model, *meta, IndexKind::Composite, out),
        out is Ok <==> missing_fields(model.fields@, meta.fields@).len() == 0,
{
    get_index_for_meta(model, meta, IndexKind::Composite)
}

/// Compiles a model-level declaration of a unique index over several fields.
pub fn get_composite_unique_index_for_meta(model: &Model, meta: &ModelIndexMeta) -> (out: Result<
    IndexContext,
    Vec<ValidationError>,
>)
    ensures
        composite_result_ok(*model, *meta, IndexKind::CompositeUnique, out),
        out is Ok <==> missing_fields(model.fields@, meta.fields@).len() == 0,
{
    get_index_for_meta(model, meta, IndexKind::CompositeUnique)
}

/// Compiles a model-level declaration of a multi-entry index over several fields.
pub fn get_composite_multi_entry_index_for_meta(model: &Model, meta: &ModelIndexMeta) -> (out:
    Result<IndexContext, Vec<ValidationError>>)
    ensures
        composite_result_ok(*model, *meta, IndexKind::CompositeMultiEntry, out),
        out is Ok <==> missing_fields(model.fields@, meta.fields@).len() == 0,
{
    get_index_for_meta(model, meta, IndexKind::CompositeMultiEntry)
}

/// For a field: the index that it declares, if it declares one rightly.
pub open spec fn single_index_in(model: Model) -> spec_fn(ModelField) -> Option<IndexSpec> {
    |field: ModelField| spec_single_index(model, field)
}

/// For a field: the error of its index flags, if they conflict.
pub open spec fn conflict_in() -> spec_fn(ModelField) -> Option<ValidationErrorView> {
    |field: ModelField| spec_conflict(field)
}

/// For a model-level declaration: the index that it gives, if all its fields exist.
pub open spec fn composite_in(model: Model, kind: IndexKind) -> spec_fn(ModelIndexMeta) -> Option<
    IndexSpec,
> {
    |meta: ModelIndexMeta| spec_composite_index(model, meta, kind)
}

/// The errors of a list of model-level declarations: for each declaration in
/// order, one error for each field that it names and the model does not have.
pub open spec fn composite_errors(model: Model, metas: Seq<ModelIndexMeta>) -> Seq<
    ValidationErrorView,
>
    decreases metas.len(),
{
    if metas.len() == 0 {
        Seq::empty()
    } else {
        composite_errors(model, metas.drop_last()) + missing_fields(
            model.fields@,
            metas.last().fields@,
        )
    }
}

/// The indexes that are declared rightly: those of the fields in declaration
/// order, then the composite plain, unique and multi-entry ones.
pub open spec fn resolved_indexes(model: Model) -> Seq<IndexSpec> {
    model.fields@.filter_map(single_index_in(model)) + model.index@.filter_map(
        composite_in(model, IndexKind::Composite),
    ) + model.unique@.filter_map(composite_in(model, IndexKind::CompositeUnique))
        + model.multi_entry@.filter_map(composite_in(model, IndexKind::CompositeMultiEntry))
}

/// The errors of the index declarations, in the same order as the indexes.
pub open spec fn declaration_errors(model: Model) -> Seq<ValidationErrorView> {
    model.fields@.filter_map(conflict_in()) + composite_errors(model, model.index@)
        + composite_errors(model, model.unique@) + composite_errors(model, model.multi_entry@)
}

/// An index before position `n` has the storage name of the index at `n`.
pub open spec fn name_taken(indexes: Seq<IndexSpec>, n: int) -> bool {
    exists|j: int| 0 <= j < n && (#[trigger] indexes[j]).index_name == indexes[n].index_name
}

/// An index before position `n` has the accessor of the index at `n`.
pub open spec fn accessor_taken(indexes: Seq<IndexSpec>, n: int) -> bool {
    exists|j: int| 0 <= j < n && (#[trigger] indexes[j]).by_fn_ident == indexes[n].by_fn_ident
}

/// The errors of the first `n` indexes of a list: for each index in order, one
/// where an earlier index has its storage name, and one where an earlier
/// index has its accessor.
pub open spec fn duplicate_errors_upto(indexes: Seq<IndexSpec>, n: int) -> Seq<ValidationErrorView>
    decreases n,
{
    if n <= 0 {
        Seq::empty()
    } else {
        duplicate_errors_upto(indexes, n - 1) + (if name_taken(indexes, n - 1) {
            seq![ValidationErrorView::DuplicateIndexName { name: indexes[n - 1].index_name }]
        } else {
            Seq::empty()
        }) + (if accessor_taken(indexes, n - 1) {
            seq![ValidationErrorView::DuplicateAccessor { name: indexes[n - 1].by_fn_ident }]
        } else {
            Seq::empty()
        })
    }
}

/// The errors of names that are used twice among the indexes of a list.
pub open spec fn duplicate_errors(indexes: Seq<IndexSpec>) -> Seq<ValidationErrorView> {
    duplicate_errors_upto(indexes, indexes.len() as int)
}

/// All errors of the indexes of a model: those of the declarations, then
/// those of names used twice among the indexes that are declared rightly.
pub open spec fn index_errors(model: Model) -> Seq<ValidationErrorView> {
    declaration_errors(model) + duplicate_errors(resolved_indexes(model))
}

/// The indexes of a model, or all errors of their declarations.
pub open spec fn spec_indexes(model: Model) -> Result<Seq<IndexSpec>, Seq<ValidationErrorView>> {
    if index_errors(model).len() > 0 {
        Err(index_errors(model))
    } else {
        Ok(resolved_indexes(model))
    }
}

/// The view of the outcome of compiling the indexes of a model.
pub open spec fn indexes_result_view(r: Result<Vec<IndexContext>, Vec<ValidationError>>) -> Result<
    Seq<IndexSpec>,
    Seq<ValidationErrorView>,
> {
    match r {
        Ok(indexes) => Ok(indexes_view(indexes@)),
        Err(errors) => Err(errors_view(errors@)),
    }
}

/// Compiles the index flags of every field, adding the indexes and the
/// errors to the two lists.
fn collect_field_indexes(
    model: &Model,
    indexes: &mut Vec<IndexContext>,
    errors: &mut Vec<ValidationError>,
)
    ensures
        indexes_view(final(indexes)@) == indexes_view(old(indexes)@) + model.fields@.filter_map(
            single_index_in(*model),
        ),
        errors_view(final(errors)@) == errors_view(old(errors)@) + model.fields@.filter_map(
            conflict_in(),
        ),
{
    let ghost indexes0 = indexes_view(indexes@);
    let ghost errors0 = errors_view(errors@);
    let mut i: usize = 0;
    while i < model.fields.len()
        invariant
            i <= model.fields.len(),
            indexes_view(indexes@) == indexes0 + model.fields@.take(i as int).filter_map(
                single_index_in(*model),
            ),
            errors_view(errors@) == errors0 + model.fields@.take(i as int).filter_map(
                conflict_in(),
            ),
        decreases model.fields.len() - i,
    {
        let ghost indexes1 = indexes_view(indexes@);
        let ghost errors1 = errors_view(errors@);
        proof {
            model.fields@.lemma_filter_map_take_succ(single_index_in(*model), i as int);
            model.fields@.lemma_filter_map_take_succ(conflict_in(), i as int);
        }
        match get_single_index_for_field(model, &model.fields[i]) {
            Ok(Some(index)) => {
                indexes.push(index);
                proof {
                    assert(indexes_view(indexes@) =~= indexes1.push(index@));
                }
            },
            Ok(None) => {},
            Err(error) => {
                errors.push(error);
                proof {
                    assert(errors_view(errors@) =~= errors1.push(error@));
                }
            },
        }
        proof {
            assert(indexes_view(indexes@) =~= indexes0 + model.fields@.take(i + 1).filter_map(
                single_index_in(*model),
            ));
            assert(errors_view(errors@) =~= errors0 + model.fields@.take(i + 1).filter_map(
                conflict_in(),
            ));
        }
        i += 1;
    }
    proof {
        assert(model.fields@.take(model.fields.len() as int) =~= model.fields@);
    }
}

/// Compiles a list of model-level declarations of one kind, adding the
/// indexes and the errors to the two lists.
fn collect_composite_indexes(
    model: &Model,
    metas: &Vec<ModelIndexMeta>,
    kind: IndexKind,
    indexes: &mut Vec<IndexContext>,
    errors: &mut Vec<ValidationError>,
)
    requires
        kind.spec_is_composite(),
    ensures
        indexes_view(final(indexes)@) == indexes_view(old(indexes)@) + metas@.filter_map(
            composite_in(*model, kind),
        ),
        errors_view(final(errors)@) == errors_view(old(errors)@) + composite_errors(
            *model,
            metas@,
        ),
{
    let ghost indexes0 = indexes_view(indexes@);
    let ghost errors0 = errors_view(errors@);
    let mut i: usize = 0;
    while i < metas.len()
        invariant
            i <= metas.len(),
            kind.spec_is_composite(),
            indexes_view(indexes@) == indexes0 + metas@.take(i as int).filter_map(
                composite_in(*model, kind),
            ),
            errors_view(errors@) == errors0 + composite_errors(*model, metas@.take(i as int)),
        decreases metas.len() - i,
    {
        let ghost indexes1 = indexes_view(indexes@);
        let ghost errors1 = errors_view(errors@);
        proof {
            metas@.lemma_filter_map_take_succ(composite_in(*model, kind), i as int);
            assert(metas@.take(i + 1).drop_last() =~= metas@.take(i as int));
            assert(metas@.take(i + 1).last() == metas@[i as int]);
        }
        match get_index_for_meta(model, &metas[i], kind) {
            Ok(index) => {
                indexes.push(index);
                proof {
                    assert(indexes_view(indexes@) =~= indexes1.push(index@));
                }
            },
            Err(mut found) => {
                let ghost found_view = errors_view(found@);
                errors.append(&mut found);
                proof {
                    assert(errors_view(errors@) =~= errors1 + found_view);
                }
            },
        }
        proof {
            assert(indexes_view(indexes@) =~= indexes0 + metas@.take(i + 1).filter_map(
                composite_in(*model, kind),
            ));
            assert(errors_view(errors@) =~= errors0 + composite_errors(
                *model,
                metas@.take(i + 1),
            ));
        }
        i += 1;
    }
    proof {
        assert(metas@.take(metas.len() as int) =~= metas@);
    }
}

/// Whether an index before position `n` has the storage name of the index at `n`.
fn is_name_taken(indexes: &Vec<IndexContext>, n: usize) -> (out: bool)
    requires
        n < indexes.len(),
    ensures
        out == name_taken(indexes_view(indexes@), n as int),
{
    let mut j: usize = 0;
    while j < n
        invariant
            j <= n < indexes.len(),
            forall|k: int|
                0 <= k < j ==> (#[trigger] indexes_view(indexes@)[k]).index_name != indexes_view(
                    indexes@,
                )[n as int].index_name,
        decreases n - j,
    {
        if *indexes[j].name() == *indexes[n].name() {
            proof {
                assert(indexes_view(indexes@)[j as int].index_name == indexes_view(
                    indexes@,
                )[n as int].index_name);
            }
            return true;
        }
        j += 1;
    }
    false
}

/// Whether an index before position `n` has the accessor of the index at `n`.
fn is_accessor_taken(indexes: &Vec<IndexContext>, n: usize) -> (out: bool)
    requires
        n < indexes.len(),
    ensures
        out == accessor_taken(indexes_view(indexes@), n as int),
{
    let mut j: usize = 0;
    while j < n
        invariant
            j <= n < indexes.len(),
            forall|k: int|
                0 <= k < j ==> (#[trigger] indexes_view(indexes@)[k]).by_fn_ident != indexes_view(
                    indexes@,
                )[n as int].by_fn_ident,
        decreases n - j,
    {
        if *indexes[j].by_fn() == *indexes[n].by_fn() {
            proof {
                assert(indexes_view(indexes@)[j as int].by_fn_ident == indexes_view(
                    indexes@,
                )[n as int].by_fn_ident);
            }
            return true;
        }
        j += 1;
    }
    false
}

/// Looks for storage names and accessors that are used twice among the
/// indexes, adding an error for each later use.
pub fn check_duplicates(indexes: &Vec<IndexContext>, errors: &mut Vec<ValidationError>)
    ensures
        errors_view(final(errors)@) == errors_view(old(errors)@) + duplicate_errors(
            indexes_view(indexes@),
        ),
{
    let ghost errors0 = errors_view(errors@);
    let mut n: usize = 0;
    while n < indexes.len()
        invariant
            n <= indexes.len(),
            errors_view(errors@) == errors0 + duplicate_errors_upto(
                indexes_view(indexes@),
                n as int,
            ),
        decreases indexes.len() - n,
    {
        let ghost errors1 = errors_view(errors@);
        if is_name_taken(indexes, n) {
            errors.push(ValidationError::DuplicateIndexName { name: indexes[n].name().clone() });
        }
        let ghost errors2 = errors_view(errors@);
        proof {
            assert(errors2 =~= errors1 + (if name_taken(indexes_view(indexes@), n as int) {
                seq![
                    ValidationErrorView::DuplicateIndexName {
                        name: indexes_view(indexes@)[n as int].index_name,
                    },
                ]
            } else {
                Seq::empty()
            }));
        }
        if is_accessor_taken(indexes, n) {
            errors.push(ValidationError::DuplicateAccessor { name: indexes[n].by_fn().clone() });
        }
        proof {
            assert(errors_view(errors@) =~= errors2 + (if accessor_taken(
                indexes_view(indexes@),
                n as int,
            ) {
                seq![
                    ValidationErrorView::DuplicateAccessor {
                        name: indexes_view(indexes@)[n as int].by_fn_ident,
                    },
                ]
            } else {
                Seq::empty()
            }));
            assert(errors_view(errors@) =~= errors0 + duplicate_errors_upto(
                indexes_view(indexes@),
                n + 1,
            ));
        }
        n += 1;
    }
}

/// Compiles all indexes of a model.
///
/// Every declaration is looked at, whatever the others gave: the result is
/// the list of indexes, or all the errors that were found.
pub fn get_indexes(model: &Model) -> (out: Result<Vec<IndexContext>, Vec<ValidationError>>)
    ensures
        indexes_result_view(out) == spec_indexes(*model),
{
    let mut indexes: Vec<IndexContext> = Vec::new();
    let mut errors: Vec<ValidationError> = Vec::new();
    proof {
        assert(indexes_view(indexes@) =~= Seq::empty());
        assert(errors_view(errors@) =~= Seq::empty());
    }
    collect_field_indexes(model, &mut indexes, &mut errors);
    collect_composite_indexes(model, &model.index, IndexKind::Composite, &mut indexes, &mut errors);
    collect_composite_indexes(
        model,
        &model.unique,
        IndexKind::CompositeUnique,
        &mut indexes,
        &mut errors,
    );
    collect_composite_indexes(
        model,
        &model.multi_entry,
        IndexKind::CompositeMultiEntry,
        &mut indexes,
        &mut errors,
    );
    proof {
        assert(indexes_view(indexes@) =~= resolved_indexes(*model));
        assert(errors_view(errors@) =~= declaration_errors(*model));
    }
    check_duplicates(&indexes, &mut errors);
    if errors.len() > 0 {
        Err(errors)
    } else {
        Ok(indexes)
    }
}

} // verus!
