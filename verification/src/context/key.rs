//! The primary key of a model.

use vstd::prelude::*;
use crate::error::{errors_view, ValidationError, ValidationErrorView};
use crate::model::{missing_fields, names_at, resolved_positions, types_at, Model};
use crate::model_field::ModelField;
use crate::text::{clone_strings, str_views};

verus! {

/// The key of a model: one field, or several fields together.
#[derive(Clone, Debug, PartialEq, Eq)]
pub enum KeyContext {
    /// One field is the key.
    Single {
        /// The stored name of the key field.
        key: String,
        /// The type of the key field.
        ty: String,
        /// The engine assigns the key.
        auto_increment: bool,
    },
    /// Several fields together are the key.
    Composite {
        /// The stored names of the key fields, in order.
        keys: Vec<String>,
        /// The types of the key fields, in order.
        tys: Vec<String>,
    },
}

/// A [`KeyContext`] as a mathematical value.
pub ghost enum KeySpec {
    Single { key: Seq<char>, ty: Seq<char>, auto_increment: bool },
    Composite { keys: Seq<Seq<char>>, tys: Seq<Seq<char>> },
}

impl View for KeyContext {
    type V = KeySpec;

    open spec fn view(&self) -> KeySpec {
        match self {
            KeyContext::Single { key, ty, auto_increment } => KeySpec::Single {
                key: key@,
                ty: ty@,
                auto_increment: *auto_increment,
            },
            KeyContext::Composite { keys, tys } => KeySpec::Composite {
                keys: str_views(keys@),
                tys: str_views(tys@),
            },
        }
    }
}

/// Where the engine finds the key inside a record.
#[derive(Clone, Debug, PartialEq, Eq)]
pub enum KeyPath {
    /// The key is the value of one property.
    Single(String),
    /// The key is the list of the values of several properties.
    Array(Vec<String>),
}

/// A [`KeyPath`] as a mathematical value.
pub ghost enum KeyPathSpec {
    Single(Seq<char>),
    Array(Seq<Seq<char>>),
}

impl View for KeyPath {
    type V = KeyPathSpec;

    open spec fn view(&self) -> KeyPathSpec {
        match self {
            KeyPath::Single(key) => KeyPathSpec::Single(key@),
            KeyPath::Array(keys) => KeyPathSpec::Array(str_views(keys@)),
        }
    }
}

impl KeySpec {
    /// The engine assigns the key.
    pub open spec fn is_auto_increment(self) -> bool {
        match self {
            KeySpec::Single { auto_increment, .. } => auto_increment,
            KeySpec::Composite { .. } => false,
        }
    }

    /// Where the engine finds the key inside a record.
    pub open spec fn key_path(self) -> KeyPathSpec {
        match self {
            KeySpec::Single { key, .. } => KeyPathSpec::Single(key),
            KeySpec::Composite { keys, .. } => KeyPathSpec::Array(keys),
        }
    }

    /// The types of the key's parts: one for a single key.
    pub open spec fn key_types(self) -> Seq<Seq<char>> {
        match self {
            KeySpec::Single { ty, .. } => seq![ty],
            KeySpec::Composite { tys, .. } => tys,
        }
    }
}

/// For a field: whether it is flagged as key.
pub open spec fn is_key_field() -> spec_fn(ModelField) -> bool {
    |f: ModelField| f.spec_is_key()
}

/// The fields that are flagged as key, in declaration order.
pub open spec fn key_fields(fields: Seq<ModelField>) -> Seq<ModelField> {
    fields.filter(is_key_field())
}

/// The key that the flags of the fields declare: none, the one flagged field,
/// or an error where several fields are flagged.
pub open spec fn spec_single_key(fields: Seq<ModelField>) -> Result<
    Option<KeySpec>,
    Seq<ValidationErrorView>,
> {
    let keys = key_fields(fields);
    if keys.len() > 1 {
        Err(seq![ValidationErrorView::MultipleFieldKeys])
    } else if keys.len() == 0 {
        Ok(None)
    } else {
        Ok(
            Some(
                KeySpec::Single {
                    key: keys[0].spec_name(),
                    ty: keys[0].ty@,
                    auto_increment: keys[0].auto_increment,
                },
            ),
        )
    }
}

/// The key that the model-level declaration gives: none, the named fields in
/// order, or one error for each name that no field has.
pub open spec fn spec_composite_key(model: Model) -> Result<
    Option<KeySpec>,
    Seq<ValidationErrorView>,
> {
    match model.key {
        None => Ok(None),
        Some(path_list) => {
            if missing_fields(model.fields@, path_list@).len() > 0 {
                Err(missing_fields(model.fields@, path_list@))
            } else {
                let positions = resolved_positions(model.fields@, path_list@);
                Ok(
                    Some(
                        KeySpec::Composite {
                            keys: names_at(model.fields@, positions),
                            tys: types_at(model.fields@, positions),
                        },
                    ),
                )
            }
        },
    }
}

/// The errors of a result, none where it is `Ok`.
pub open spec fn errors_of<T>(r: Result<T, Seq<ValidationErrorView>>) -> Seq<ValidationErrorView> {
    match r {
        Ok(_) => Seq::empty(),
        Err(errors) => errors,
    }
}

/// The key of a model: the composite key or the flagged field, whichever is
/// declared; an error where both or neither are, and the errors of both
/// declarations where either is wrong.
pub open spec fn spec_key(model: Model) -> Result<KeySpec, Seq<ValidationErrorView>> {
    let composite = spec_composite_key(model);
    let single = spec_single_key(model.fields@);
    match (composite, single) {
        (Ok(Some(_)), Ok(Some(_))) => Err(seq![ValidationErrorView::CompositeAndFieldKey]),
        (Ok(None), Ok(None)) => Err(seq![ValidationErrorView::NoKey]),
        (Ok(Some(key)), Ok(None)) => Ok(key),
        (Ok(None), Ok(Some(key))) => Ok(key),
        _ => Err(errors_of(composite) + errors_of(single)),
    }
}

/// The view of a key that may be absent.
pub open spec fn opt_key_view(key: Option<KeyContext>) -> Option<KeySpec> {
    match key {
        Some(key) => Some(key@),
        None => None,
    }
}

/// The view of the outcome of resolving one kind of key declaration.
pub open spec fn opt_key_result_view(r: Result<Option<KeyContext>, Vec<ValidationError>>) -> Result<
    Option<KeySpec>,
    Seq<ValidationErrorView>,
> {
    match r {
        Ok(key) => Ok(opt_key_view(key)),
        Err(errors) => Err(errors_view(errors@)),
    }
}

/// The view of the outcome of resolving a model's key.
pub open spec fn key_result_view(r: Result<KeyContext, Vec<ValidationError>>) -> Result<
    KeySpec,
    Seq<ValidationErrorView>,
> {
    match r {
        Ok(key) => Ok(key@),
        Err(errors) => Err(errors_view(errors@)),
    }
}

impl KeyContext {
    /// Whether the engine assigns the key.
    pub fn is_auto_increment(&self) -> (out: bool)
        ensures
            out == self@.is_auto_increment(),
    {
        match self {
            KeyContext::Single { auto_increment, .. } => *auto_increment,
            KeyContext::Composite { .. } => false,
        }
    }

    /// What the engine is told of the key when the object store is created:
    /// the key path, and whether the engine assigns the key.
    pub fn expand_object_store_builder(&self) -> (out: (KeyPath, bool))
        ensures
            out.0@ == self@.key_path(),
            out.1 == self@.is_auto_increment(),
    {
        match self {
            KeyContext::Single { key, auto_increment, .. } => (
                KeyPath::Single(key.clone()),
                *auto_increment,
            ),
            KeyContext::Composite { keys, .. } => (KeyPath::Array(clone_strings(keys)), false),
        }
    }

    /// The types of the key's parts: one for a single key, else one for each
    /// field of the composite key, in order.
    pub fn expand_key_type(&self) -> (out: Vec<String>)
        ensures
            str_views(out@) == self@.key_types(),
    {
        match self {
            KeyContext::Single { ty, .. } => {
                let mut out: Vec<String> = Vec::new();
                out.push(ty.clone());
                proof {
                    assert(str_views(out@) =~= seq![ty@]);
                }
                out
            },
            KeyContext::Composite { tys, .. } => clone_strings(tys),
        }
    }

    /// The key of a model.
    pub fn try_from(model: &Model) -> (out: Result<KeyContext, Vec<ValidationError>>)
        ensures
            key_result_view(out) == spec_key(*model),
    {
        get_key(model)
    }
}

/// Resolves the key of a model from its composite-key declaration and the
/// flags of its fields.
pub fn get_key(model: &Model) -> (out: Result<KeyContext, Vec<ValidationError>>)
    ensures
        key_result_view(out) == spec_key(*model),
{
    let composite_key = get_composite_key(model);
    let single_key = get_single_key(model);
    let mut errors: Vec<ValidationError> = Vec::new();
    match (composite_key, single_key) {
        (Ok(Some(_)), Ok(Some(_))) => {
            errors.push(ValidationError::CompositeAndFieldKey);
            proof {
                assert(errors_view(errors@) =~= seq![ValidationErrorView::CompositeAndFieldKey]);
            }
            Err(errors)
        },
        (Ok(None), Ok(None)) => {
            errors.push(ValidationError::NoKey);
            proof {
                assert(errors_view(errors@) =~= seq![ValidationErrorView::NoKey]);
            }
            Err(errors)
        },
        (Ok(Some(key)), Ok(None)) => Ok(key),
        (Ok(None), Ok(Some(key))) => Ok(key),
        (first, second) => {
            let ghost e1 = errors_of(opt_key_result_view(first));
            let ghost e2 = errors_of(opt_key_result_view(second));
            if let Err(mut errs) = first {
                errors.append(&mut errs);
            }
            proof {
                assert(errors_view(errors@) =~= e1);
            }
            if let Err(mut errs) = second {
                errors.append(&mut errs);
            }
            proof {
                assert(errors_view(errors@) =~= e1 + e2);
            }
            Err(errors)
        },
    }
}

/// Resolves the composite key that the model declares, if it declares one.
pub fn get_composite_key(model: &Model) -> (out: Result<Option<KeyContext>, Vec<ValidationError>>)
    ensures
        opt_key_result_view(out) == spec_composite_key(*model),
{
    match &model.key {
        None => Ok(None),
        Some(path_list) => {
            match model.get_fields_from_path_list(path_list) {
                Err(errors) => Err(errors),
                Ok(positions) => {
                    let keys = model.names_of(&positions);
                    let tys = model.types_of(&positions);
                    Ok(Some(KeyContext::Composite { keys, tys }))
                },
            }
        },
    }
}

/// Finds the field that is flagged as key, if one is; several are an error.
pub fn get_single_key(model: &Model) -> (out: Result<Option<KeyContext>, Vec<ValidationError>>)
    ensures
        opt_key_result_view(out) == spec_single_key(model.fields@),
{
    let mut count: usize = 0;
    let mut first: usize = 0;
    let mut i: usize = 0;
    while i < model.fields.len()
        invariant
            i <= model.fields.len(),
            count <= i,
            count == key_fields(model.fields@.take(i as int)).len(),
            count > 0 ==> first < i && key_fields(model.fields@.take(i as int))[0]
                == model.fields@[first as int],
        decreases model.fields.len() - i,
    {
        proof {
            let prefix = model.fields@.take(i as int);
            assert(model.fields@.take(i + 1) =~= prefix.push(model.fields@[i as int]));
            prefix.lemma_filter_push(model.fields@[i as int], is_key_field());
        }
        if model.fields[i].is_key() {
            if count == 0 {
                first = i;
            }
            count += 1;
        }
        i += 1;
    }
    proof {
        assert(model.fields@.take(model.fields.len() as int) =~= model.fields@);
    }
    if count > 1 {
        let mut errors: Vec<ValidationError> = Vec::new();
        errors.push(ValidationError::MultipleFieldKeys);
        proof {
            assert(errors_view(errors@) =~= seq![ValidationErrorView::MultipleFieldKeys]);
        }
        Err(errors)
    } else if count == 0 {
        Ok(None)
    } else {
        let field = &model.fields[first];
        Ok(
            Some(
                KeyContext::Single {
                    key: field.get_name_str(),
                    ty: field.ty.clone(),
                    auto_increment: field.auto_increment,
                },
            ),
        )
    }
}

} // verus!
