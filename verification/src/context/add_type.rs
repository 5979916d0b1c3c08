//! The record that is handed in when a new record is added.
//!
//! Where the engine assigns the key, the caller cannot supply it: the record
//! to add is the model without its auto-increment field.

use vstd::prelude::*;
use vstd::string::StringExecFns;
use crate::context::key::{KeyContext, KeySpec};
use crate::model::Model;
use crate::model_field::ModelField;

verus! {

/// A field of a creation record.
#[derive(Clone, Debug, PartialEq, Eq)]
pub struct AddTypeFieldContext {
    /// The field's identifier.
    pub ident: String,
    /// The field's type, as written.
    pub ty: String,
}

/// An [`AddTypeFieldContext`] as a mathematical value.
pub ghost struct AddTypeFieldSpec {
    pub ident: Seq<char>,
    pub ty: Seq<char>,
}

impl View for AddTypeFieldContext {
    type V = AddTypeFieldSpec;

    open spec fn view(&self) -> AddTypeFieldSpec {
        AddTypeFieldSpec { ident: self.ident@, ty: self.ty@ }
    }
}

/// The creation record of a model.
#[derive(Clone, Debug, PartialEq, Eq)]
pub enum AddTypeContext {
    /// The model itself is handed in.
    Itself,
    /// A record of its own is handed in.
    Record {
        /// The identifier of the creation record.
        ident: String,
        /// Its fields, in declaration order.
        fields: Vec<AddTypeFieldContext>,
    },
}

/// An [`AddTypeContext`] as a mathematical value.
pub ghost enum AddTypeSpec {
    Itself,
    Record { ident: Seq<char>, fields: Seq<AddTypeFieldSpec> },
}

/// The fields of a list as mathematical values.
pub open spec fn add_fields_view(fields: Seq<AddTypeFieldContext>) -> Seq<AddTypeFieldSpec> {
    fields.map_values(|f: AddTypeFieldContext| f@)
}

impl View for AddTypeContext {
    type V = AddTypeSpec;

    open spec fn view(&self) -> AddTypeSpec {
        match self {
            AddTypeContext::Itself => AddTypeSpec::Itself,
            AddTypeContext::Record { ident, fields } => AddTypeSpec::Record {
                ident: ident@,
                fields: add_fields_view(fields@),
            },
        }
    }
}

/// A field as it stands in a record that is handed in.
pub open spec fn field_spec(field: ModelField) -> AddTypeFieldSpec {
    AddTypeFieldSpec { ident: field.ident@, ty: field.ty@ }
}

/// For a field: the field as it stands in a creation record, unless the
/// engine assigns it.
pub open spec fn creation_field() -> spec_fn(ModelField) -> Option<AddTypeFieldSpec> {
    |field: ModelField|
        if field.auto_increment {
            None
        } else {
            Some(field_spec(field))
        }
}

/// The fields that are supplied when a record is added: all but the
/// auto-increment ones, in declaration order.
pub open spec fn spec_creation_fields(fields: Seq<ModelField>) -> Seq<AddTypeFieldSpec> {
    fields.filter_map(creation_field())
}

/// The fields that are supplied when a record is updated: all of them.
pub open spec fn spec_updation_fields(fields: Seq<ModelField>) -> Seq<AddTypeFieldSpec> {
    fields.map_values(|field: ModelField| field_spec(field))
}

/// The creation record of a model with the key `key`.
pub open spec fn spec_add_type(model: Model, key: KeySpec) -> AddTypeSpec {
    if !key.is_auto_increment() {
        AddTypeSpec::Itself
    } else {
        AddTypeSpec::Record {
            ident: match model.add_struct_name {
                Some(given) => given@,
                None => "Add"@ + model.ident@,
            },
            fields: spec_creation_fields(model.fields@),
        }
    }
}

/// The fields that are supplied when a record of the model is added.
pub fn creation_fields(model: &Model) -> (out: Vec<AddTypeFieldContext>)
    ensures
        add_fields_view(out@) == spec_creation_fields(model.fields@),
{
    let mut out: Vec<AddTypeFieldContext> = Vec::new();
    let mut i: usize = 0;
    proof {
        assert(add_fields_view(out@) =~= Seq::empty());
    }
    while i < model.fields.len()
        invariant
            i <= model.fields.len(),
            add_fields_view(out@) == spec_creation_fields(model.fields@.take(i as int)),
        decreases model.fields.len() - i,
    {
        let ghost before = add_fields_view(out@);
        proof {
            model.fields@.lemma_filter_map_take_succ(creation_field(), i as int);
        }
        let field = &model.fields[i];
        if !field.auto_increment {
            out.push(AddTypeFieldContext { ident: field.ident.clone(), ty: field.ty.clone() });
            proof {
                assert(add_fields_view(out@) =~= before.push(field_spec(*field)));
            }
        }
        proof {
            assert(add_fields_view(out@) =~= spec_creation_fields(model.fields@.take(i + 1)));
        }
        i += 1;
    }
    proof {
        assert(model.fields@.take(model.fields.len() as int) =~= model.fields@);
    }
    out
}

/// The fields that are supplied when a record of the model is updated.
pub fn updation_fields(model: &Model) -> (out: Vec<AddTypeFieldContext>)
    ensures
        add_fields_view(out@) == spec_updation_fields(model.fields@),
{
    let mut out: Vec<AddTypeFieldContext> = Vec::new();
    let mut i: usize = 0;
    while i < model.fields.len()
        invariant
            i <= model.fields.len(),
            out.len() == i,
            forall|j: int| 0 <= j < i ==> (#[trigger] out@[j])@ == field_spec(model.fields@[j]),
        decreases model.fields.len() - i,
    {
        let field = &model.fields[i];
        out.push(AddTypeFieldContext { ident: field.ident.clone(), ty: field.ty.clone() });
        i += 1;
    }
    proof {
        assert(add_fields_view(out@) =~= spec_updation_fields(model.fields@));
    }
    out
}

impl AddTypeContext {
    /// The creation record of a model with the key `key`: a record of its
    /// own where the engine assigns the key, else the model itself.
    pub fn try_from(model: &Model, key_context: &KeyContext) -> (out: AddTypeContext)
        ensures
            out@ == spec_add_type(*model, key_context@),
    {
        if !key_context.is_auto_increment() {
            return AddTypeContext::Itself;
        }
        let ident = match &model.add_struct_name {
            Some(given) => given.clone(),
            None => String::from_str("Add").concat(model.ident.as_str()),
        };
        let fields = creation_fields(model);
        AddTypeContext::Record { ident, fields }
    }

    /// The identifier of the type that is handed in when a record is added:
    /// that of the creation record, or `Self` for the model itself.
    pub fn ident(&self) -> (out: String)
        ensures
            out@ == (match self@ {
                AddTypeSpec::Itself => "Self"@,
                AddTypeSpec::Record { ident, .. } => ident,
            }),
    {
        match self {
            AddTypeContext::Itself => String::from_str("Self"),
            AddTypeContext::Record { ident, .. } => ident.clone(),
        }
    }
}

/// `entry` stands for a field of `fields` that the engine does not assign.
pub open spec fn is_supplied_field(fields: Seq<ModelField>, entry: AddTypeFieldSpec) -> bool {
    exists|i: int|
        0 <= i < fields.len() && !(#[trigger] fields[i]).auto_increment && field_spec(fields[i])
            == entry
}

/// No field of a creation record is one that the engine assigns: each comes
/// from a field of the model that is not an auto-increment field.
pub proof fn lemma_creation_excludes_auto_increment(fields: Seq<ModelField>)
    ensures
        spec_creation_fields(fields).len() <= fields.len(),
        forall|k: int|
            0 <= k < spec_creation_fields(fields).len() ==> is_supplied_field(
                fields,
                #[trigger] spec_creation_fields(fields)[k],
            ),
    decreases fields.len(),
{
    if fields.len() > 0 {
        let rest = fields.drop_last();
        lemma_creation_excludes_auto_increment(rest);
        let all = spec_creation_fields(fields);
        assert forall|k: int| 0 <= k < all.len() implies is_supplied_field(
            fields,
            #[trigger] all[k],
        ) by {
            if k < spec_creation_fields(rest).len() {
                assert(is_supplied_field(rest, spec_creation_fields(rest)[k]));
                let i = choose|i: int|
                    0 <= i < rest.len() && !(#[trigger] rest[i]).auto_increment && field_spec(
                        rest[i],
                    ) == spec_creation_fields(rest)[k];
                assert(fields[i] == rest[i]);
            } else {
                assert(!fields[fields.len() - 1].auto_increment);
            }
        }
    }
}

} // verus!
