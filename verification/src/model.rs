//! A model, as declared: its fields and its model-level keys and indexes.

use vstd::prelude::*;
use crate::case::{snake_case, snake_case_of};
use crate::error::{errors_view, ValidationError, ValidationErrorView};
use crate::index_meta::ModelIndexMeta;
use crate::model_field::ModelField;
use crate::text::str_views;

verus! {

/// The declaration of a model.
#[derive(Clone, Debug, PartialEq, Eq)]
pub struct Model {
    /// The identifier of the record type.
    pub ident: String,
    /// The generic parameters of the record type. A model has none.
    pub generics: Vec<String>,
    /// The name of the object store, where the derived one is not wanted.
    pub name: Option<String>,
    /// The identifier of the store handle, where the derived one is not wanted.
    pub object_store_struct: Option<String>,
    /// The identifier of the creation record, where the derived one is not wanted.
    pub add_struct_name: Option<String>,
    /// The identifiers of the fields of a composite key, in order.
    pub key: Option<Vec<String>>,
    /// The composite indexes.
    pub index: Vec<ModelIndexMeta>,
    /// The composite unique indexes.
    pub unique: Vec<ModelIndexMeta>,
    /// The composite multi-entry indexes.
    pub multi_entry: Vec<ModelIndexMeta>,
    /// The fields, in declaration order.
    pub fields: Vec<ModelField>,
}

/// Some field of `fields` has the identifier `name`.
pub open spec fn has_field(fields: Seq<ModelField>, name: Seq<char>) -> bool {
    exists|i: int| 0 <= i < fields.len() && (#[trigger] fields[i]).ident@ == name
}

/// `i` is the position of the first field of `fields` with the identifier `name`.
pub open spec fn is_first_field(fields: Seq<ModelField>, name: Seq<char>, i: int) -> bool {
    &&& 0 <= i < fields.len()
    &&& fields[i].ident@ == name
    &&& forall|j: int| 0 <= j < i ==> (#[trigger] fields[j]).ident@ != name
}

/// The position of the first field with the identifier `name`, if there is one.
pub open spec fn field_position(fields: Seq<ModelField>, name: Seq<char>) -> Option<int> {
    if has_field(fields, name) {
        Some(choose|i: int| is_first_field(fields, name, i))
    } else {
        None
    }
}

/// For a name of a field list: the position that it resolves to, if any.
pub open spec fn resolve_in(fields: Seq<ModelField>) -> spec_fn(String) -> Option<int> {
    |name: String| field_position(fields, name@)
}

/// For a name of a field list: the error that it causes, if any.
pub open spec fn missing_in(fields: Seq<ModelField>) -> spec_fn(String) -> Option<
    ValidationErrorView,
> {
    |name: String|
        if has_field(fields, name@) {
            None
        } else {
            Some(ValidationErrorView::FieldNotFound { name: name@ })
        }
}

/// The positions of the fields that the names of `names` resolve to, in the
/// order of the names; a name that no field has is passed over.
pub open spec fn resolved_positions(fields: Seq<ModelField>, names: Seq<String>) -> Seq<int> {
    names.filter_map(resolve_in(fields))
}

/// One error for each name of `names` that no field has, in the order of the names.
pub open spec fn missing_fields(fields: Seq<ModelField>, names: Seq<String>) -> Seq<
    ValidationErrorView,
> {
    names.filter_map(missing_in(fields))
}

/// The positions of a list as mathematical integers.
pub open spec fn positions_view(positions: Seq<usize>) -> Seq<int> {
    positions.map_values(|p: usize| p as int)
}

/// The stored names of the fields at `positions`.
pub open spec fn names_at(fields: Seq<ModelField>, positions: Seq<int>) -> Seq<Seq<char>> {
    positions.map_values(|p: int| fields[p].spec_name())
}

/// The types of the fields at `positions`.
pub open spec fn types_at(fields: Seq<ModelField>, positions: Seq<int>) -> Seq<Seq<char>> {
    positions.map_values(|p: int| fields[p].ty@)
}

/// The identifiers of the fields at `positions`.
pub open spec fn idents_at(fields: Seq<ModelField>, positions: Seq<int>) -> Seq<Seq<char>> {
    positions.map_values(|p: int| fields[p].ident@)
}

/// Every position of the list is one of a field.
pub open spec fn positions_within(positions: Seq<usize>, len: nat) -> bool {
    forall|k: int| 0 <= k < positions.len() ==> (#[trigger] positions[k]) < len
}

/// Two first positions of one name are the same position.
pub proof fn lemma_first_field_unique(fields: Seq<ModelField>, name: Seq<char>, i: int, j: int)
    requires
        is_first_field(fields, name, i),
        is_first_field(fields, name, j),
    ensures
        i == j,
{
    if i < j {
        assert(fields[i].ident@ == name);
    } else if j < i {
        assert(fields[j].ident@ == name);
    }
}

/// Every name resolves or is missing, never both: the two lists together
/// are as long as the list of names.
pub proof fn lemma_resolved_or_missing(fields: Seq<ModelField>, names: Seq<String>)
    ensures
        resolved_positions(fields, names).len() + missing_fields(fields, names).len()
            == names.len(),
        forall|k: int|
            0 <= k < resolved_positions(fields, names).len() ==> 0 <= (
            #[trigger] resolved_positions(fields, names)[k]) < fields.len(),
    decreases names.len(),
{
    if names.len() > 0 {
        let rest = names.drop_last();
        lemma_resolved_or_missing(fields, rest);
        let last = names.last();
        if has_field(fields, last@) {
            let w = choose|i: int| 0 <= i < fields.len() && (#[trigger] fields[i]).ident@ == last@;
            lemma_first_exists(fields, last@, w);
        }
    }
}

/// Where some field has the name, a first one has it.
pub proof fn lemma_first_exists(fields: Seq<ModelField>, name: Seq<char>, w: int)
    requires
        0 <= w < fields.len(),
        fields[w].ident@ == name,
    ensures
        exists|i: int| is_first_field(fields, name, i),
    decreases w,
{
    if exists|j: int| 0 <= j < w && (#[trigger] fields[j]).ident@ == name {
        let j = choose|j: int| 0 <= j < w && (#[trigger] fields[j]).ident@ == name;
        lemma_first_exists(fields, name, j);
    } else {
        assert(is_first_field(fields, name, w));
    }
}

impl Model {
    /// The name of the object store: the one given, else the snake-case form
    /// of the identifier.
    pub open spec fn spec_name(self) -> Seq<char> {
        match self.name {
            Some(name) => name@,
            None => snake_case_of(self.ident@),
        }
    }

    /// Rejects a model with generic parameters.
    pub fn validate_no_generic(&self) -> (out: Result<(), ValidationError>)
        ensures
            out is Ok <==> self.generics@.len() == 0,
            out is Err ==> out->Err_0@ == ValidationErrorView::GenericNotSupported,
    {
        if self.generics.len() > 0 {
            Err(ValidationError::GenericNotSupported)
        } else {
            Ok(())
        }
    }

    /// The name of the object store.
    pub fn get_name_str(&self) -> (out: String)
        ensures
            out@ == self.spec_name(),
    {
        match &self.name {
            Some(name) => name.clone(),
            None => snake_case(self.ident.as_str()),
        }
    }

    /// The fields, in declaration order.
    pub fn fields(&self) -> (out: &Vec<ModelField>)
        ensures
            out@ == self.fields@,
    {
        &self.fields
    }

    /// The position of the first field with the identifier `name`.
    pub fn find_field(&self, name: &String) -> (out: Option<usize>)
        ensures
            out is Some <==> has_field(self.fields@, name@),
            out is Some ==> field_position(self.fields@, name@) == Some(out->Some_0 as int),
            out is Some ==> is_first_field(self.fields@, name@, out->Some_0 as int),
    {
        let mut i: usize = 0;
        while i < self.fields.len()
            invariant
                i <= self.fields.len(),
                forall|j: int| 0 <= j < i ==> (#[trigger] self.fields@[j]).ident@ != name@,
            decreases self.fields.len() - i,
        {
            if self.fields[i].ident == *name {
                proof {
                    assert(is_first_field(self.fields@, name@, i as int));
                    let c = choose|k: int| is_first_field(self.fields@, name@, k);
                    lemma_first_field_unique(self.fields@, name@, i as int, c);
                }
                return Some(i);
            }
            i += 1;
        }
        None
    }

    /// The stored names of the fields at `positions`.
    pub fn names_of(&self, positions: &Vec<usize>) -> (out: Vec<String>)
        requires
            positions_within(positions@, self.fields@.len()),
        ensures
            str_views(out@) == names_at(self.fields@, positions_view(positions@)),
    {
        let mut out: Vec<String> = Vec::new();
        let mut i: usize = 0;
        while i < positions.len()
            invariant
                i <= positions.len(),
                out.len() == i,
                positions_within(positions@, self.fields@.len()),
                forall|j: int|
                    0 <= j < i ==> out@[j]@ == self.fields@[positions@[j] as int].spec_name(),
            decreases positions.len() - i,
        {
            let name = self.fields[positions[i]].get_name_str();
            out.push(name);
            i += 1;
        }
        proof {
            assert(str_views(out@) =~= names_at(self.fields@, positions_view(positions@)));
        }
        out
    }

    /// The types of the fields at `positions`.
    pub fn types_of(&self, positions: &Vec<usize>) -> (out: Vec<String>)
        requires
            positions_within(positions@, self.fields@.len()),
        ensures
            str_views(out@) == types_at(self.fields@, positions_view(positions@)),
    {
        let mut out: Vec<String> = Vec::new();
        let mut i: usize = 0;
        while i < positions.len()
            invariant
                i <= positions.len(),
                out.len() == i,
                positions_within(positions@, self.fields@.len()),
                forall|j: int| 0 <= j < i ==> out@[j]@ == self.fields@[positions@[j] as int].ty@,
            decreases positions.len() - i,
        {
            let ty = self.fields[positions[i]].ty.clone();
            out.push(ty);
            i += 1;
        }
        proof {
            assert(str_views(out@) =~= types_at(self.fields@, positions_view(positions@)));
        }
        out
    }

    /// The identifiers of the fields at `positions`.
    pub fn idents_of(&self, positions: &Vec<usize>) -> (out: Vec<String>)
        requires
            positions_within(positions@, self.fields@.len()),
        ensures
            str_views(out@) == idents_at(self.fields@, positions_view(positions@)),
    {
        let mut out: Vec<String> = Vec::new();
        let mut i: usize = 0;
        while i < positions.len()
            invariant
                i <= positions.len(),
                out.len() == i,
                positions_within(positions@, self.fields@.len()),
                forall|j: int|
                    0 <= j < i ==> out@[j]@ == self.fields@[positions@[j] as int].ident@,
            decreases positions.len() - i,
        {
            let ident = self.fields[positions[i]].ident.clone();
            out.push(ident);
            i += 1;
        }
        proof {
            assert(str_views(out@) =~= idents_at(self.fields@, positions_view(positions@)));
        }
        out
    }

    /// Resolves a list of field identifiers against the model's fields.
    ///
    /// Gives the positions of the named fields, in the order of the names, or
    /// one error for each name that no field has.
    pub fn get_fields_from_path_list(&self, path_list: &Vec<String>) -> (out: Result<
        Vec<usize>,
        Vec<ValidationError>,
    >)
        ensures
            out is Ok <==> missing_fields(self.fields@, path_list@).len() == 0,
            out is Ok ==> positions_view(out->Ok_0@) == resolved_positions(
                self.fields@,
                path_list@,
            ),
            out is Ok ==> out->Ok_0@.len() == path_list@.len(),
            out is Ok ==> positions_within(out->Ok_0@, self.fields@.len()),
            out is Err ==> errors_view(out->Err_0@) == missing_fields(self.fields@, path_list@),
    {
        let mut found: Vec<usize> = Vec::new();
        let mut errors: Vec<ValidationError> = Vec::new();
        let mut i: usize = 0;
        while i < path_list.len()
            invariant
                i <= path_list.len(),
                positions_view(found@) == resolved_positions(
                    self.fields@,
                    path_list@.take(i as int),
                ),
                errors_view(errors@) == missing_fields(self.fields@, path_list@.take(i as int)),
            decreases path_list.len() - i,
        {
            let ghost old_found = found@;
            let ghost old_errors = errors@;
            proof {
                path_list@.lemma_filter_map_take_succ(resolve_in(self.fields@), i as int);
                path_list@.lemma_filter_map_take_succ(missing_in(self.fields@), i as int);
            }
            match self.find_field(&path_list[i]) {
                Some(p) => {
                    found.push(p);
                    proof {
                        assert(positions_view(found@) =~= positions_view(old_found).push(p as int));
                    }
                },
                None => {
                    errors.push(ValidationError::FieldNotFound { name: path_list[i].clone() });
                    proof {
                        assert(errors_view(errors@) =~= errors_view(old_errors).push(
                            ValidationErrorView::FieldNotFound { name: path_list@[i as int]@ },
                        ));
                    }
                },
            }
            i += 1;
        }
        proof {
            assert(path_list@.take(path_list.len() as int) =~= path_list@);
            lemma_resolved_or_missing(self.fields@, path_list@);
        }
        if errors.len() > 0 {
            Err(errors)
        } else {
            proof {
                assert forall|k: int| 0 <= k < found@.len() implies (#[trigger] found@[k])
                    < self.fields@.len() by {
                    assert(positions_view(found@)[k] == found@[k] as int);
                }
            }
            Ok(found)
        }
    }
}

} // verus!
