//! The compiled form of a whole model.

use vstd::prelude::*;
use crate::context::add_type::{spec_add_type, AddTypeContext, AddTypeSpec};
use crate::context::index::{
    get_indexes,
    indexes_result_view,
    indexes_view,
    spec_indexes,
    ByFnContext,
    IndexContext,
    IndexDefinition,
    IndexSpec,
};
use crate::context::key::{
    errors_of,
    get_key,
    key_result_view,
    spec_key,
    KeyContext,
    KeyPath,
    KeySpec,
};
use crate::context::object_store::{
    by_fns_of,
    spec_object_store,
    ObjectStoreContext,
    ObjectStoreSpec,
};
use crate::error::{errors_view, ValidationError, ValidationErrorView};
use crate::model::Model;

verus! {

/// A compiled model: its key, its indexes and what is derived from them.
#[derive(Clone, Debug, PartialEq, Eq)]
pub struct ModelContext {
    /// The identifier of the record type.
    pub ident: String,
    /// The name of the object store.
    pub name: String,
    /// The primary key.
    pub key: KeyContext,
    /// The secondary indexes, in declaration order.
    pub indexes: Vec<IndexContext>,
    /// The record that is handed in when a record is added.
    pub add_type: AddTypeContext,
    /// The store handle.
    pub object_store: ObjectStoreContext,
}

/// A [`ModelContext`] as a mathematical value.
pub ghost struct ModelSpec {
    pub ident: Seq<char>,
    pub name: Seq<char>,
    pub key: KeySpec,
    pub indexes: Seq<IndexSpec>,
    pub add_type: AddTypeSpec,
    pub object_store: ObjectStoreSpec,
}

impl View for ModelContext {
    type V = ModelSpec;

    open spec fn view(&self) -> ModelSpec {
        ModelSpec {
            ident: self.ident@,
            name: self.name@,
            key: self.key@,
            indexes: indexes_view(self.indexes@),
            add_type: self.add_type@,
            object_store: self.object_store@,
        }
    }
}

/// What the engine is told of a model when its object store is created.
#[derive(Clone, Debug, PartialEq, Eq)]
pub struct ObjectStoreDefinition {
    /// The name of the object store.
    pub name: String,
    /// Where the engine finds the key inside a record.
    pub key_path: KeyPath,
    /// The engine assigns the key.
    pub auto_increment: bool,
    /// The indexes of the object store, in declaration order.
    pub indexes: Vec<IndexDefinition>,
}

/// The compiled form of a model whose key and indexes are declared rightly;
/// else the errors of the key, then those of the indexes.
pub open spec fn spec_model_context(model: Model) -> Result<ModelSpec, Seq<ValidationErrorView>> {
    let key = spec_key(model);
    let indexes = spec_indexes(model);
    if key is Err || indexes is Err {
        Err(errors_of(key) + errors_of(indexes))
    } else {
        Ok(
            ModelSpec {
                ident: model.ident@,
                name: model.spec_name(),
                key: key->Ok_0,
                indexes: indexes->Ok_0,
                add_type: spec_add_type(model, key->Ok_0),
                object_store: spec_object_store(model, by_fns_of(indexes->Ok_0)),
            },
        )
    }
}

/// The compiled form of a model, or all problems of its declaration.
pub open spec fn spec_compile(model: Model) -> Result<ModelSpec, Seq<ValidationErrorView>> {
    spec_model_context(model)
}

/// The view of the outcome of compiling a model.
pub open spec fn model_result_view(r: Result<ModelContext, Vec<ValidationError>>) -> Result<
    ModelSpec,
    Seq<ValidationErrorView>,
> {
    match r {
        Ok(context) => Ok(context@),
        Err(errors) => Err(errors_view(errors@)),
    }
}

/// The accessors of the indexes of a list, in the same order.
fn by_fn_contexts(indexes: &Vec<IndexContext>) -> (out: Vec<ByFnContext>)
    ensures
        crate::context::object_store::by_fns_view(out@) == by_fns_of(indexes_view(indexes@)),
{
    let mut out: Vec<ByFnContext> = Vec::new();
    let mut i: usize = 0;
    while i < indexes.len()
        invariant
            i <= indexes.len(),
            out.len() == i,
            forall|j: int| 0 <= j < i ==> (#[trigger] out@[j])@ == indexes@[j]@.by_fn(),
        decreases indexes.len() - i,
    {
        let by_fn = indexes[i].by_fn_context();
        out.push(by_fn);
        i += 1;
    }
    proof {
        assert(crate::context::object_store::by_fns_view(out@) =~= by_fns_of(
            indexes_view(indexes@),
        ));
    }
    out
}

impl ModelContext {
    /// Compiles the key and the indexes of a model and derives the creation
    /// record and the store handle from them.
    ///
    /// The key and the indexes are both looked at, whatever the other gave:
    /// the errors of both are returned together.
    pub fn try_from(model: &Model) -> (out: Result<ModelContext, Vec<ValidationError>>)
        ensures
            model_result_view(out) == spec_model_context(*model),
    {
        let key = get_key(model);
        let indexes = get_indexes(model);
        match (key, indexes) {
            (Ok(key), Ok(indexes)) => {
                let by_fns = by_fn_contexts(&indexes);
                let add_type = AddTypeContext::try_from(model, &key);
                let object_store = ObjectStoreContext::try_from(model, by_fns);
                Ok(
                    ModelContext {
                        ident: model.ident.clone(),
                        name: model.get_name_str(),
                        key,
                        indexes,
                        add_type,
                        object_store,
                    },
                )
            },
            (key, indexes) => {
                let ghost e1 = errors_of(key_result_view(key));
                let ghost e2 = errors_of(indexes_result_view(indexes));
                let mut errors: Vec<ValidationError> = Vec::new();
                if let Err(mut found) = key {
                    errors.append(&mut found);
                }
                proof {
                    assert(errors_view(errors@) =~= e1);
                }
                if let Err(mut found) = indexes {
                    errors.append(&mut found);
                }
                proof {
                    assert(errors_view(errors@) =~= e1 + e2);
                }
                Err(errors)
            },
        }
    }

    /// What the engine is told of the model when its object store is
    /// created: the store's name, its key path, whether the engine assigns
    /// the key, and each index.
    pub fn expand_model_definition(&self) -> (out: ObjectStoreDefinition)
        ensures
            out.name@ == self@.name,
            out.key_path@ == self@.key.key_path(),
            out.auto_increment == self@.key.is_auto_increment(),
            out.indexes@.len() == self@.indexes.len(),
            forall|i: int|
                0 <= i < out.indexes@.len() ==> {
                    &&& (#[trigger] out.indexes@[i]).name@ == self@.indexes[i].index_name
                    &&& out.indexes@[i].key_path@ == self@.indexes[i].key_path()
                    &&& out.indexes@[i].unique == self@.indexes[i].kind.spec_is_unique()
                    &&& out.indexes@[i].multi_entry == self@.indexes[i].kind.spec_is_multi_entry()
                },
    {
        let (key_path, auto_increment) = self.key.expand_object_store_builder();
        let mut indexes: Vec<IndexDefinition> = Vec::new();
        let mut i: usize = 0;
        while i < self.indexes.len()
            invariant
                i <= self.indexes.len(),
                indexes.len() == i,
                forall|j: int|
                    0 <= j < i ==> {
                        &&& (#[trigger] indexes@[j]).name@ == self.indexes@[j]@.index_name
                        &&& indexes@[j].key_path@ == self.indexes@[j]@.key_path()
                        &&& indexes@[j].unique == self.indexes@[j]@.kind.spec_is_unique()
                        &&& indexes@[j].multi_entry == self.indexes@[j]@.kind.spec_is_multi_entry()
                    },
            decreases self.indexes.len() - i,
        {
            let definition = self.indexes[i].expand_model_index_definition();
            indexes.push(definition);
            i += 1;
        }
        ObjectStoreDefinition { name: self.name.clone(), key_path, auto_increment, indexes }
    }
}

/// Compiles the declaration of a model.
///
/// Gives exactly one compiled model, with one key, or the list of all
/// problems found in the declaration; never both, and never an empty list.
pub fn compile(model: &Model) -> (out: Result<ModelContext, Vec<ValidationError>>)
    ensures
        model_result_view(out) == spec_compile(*model),
        out is Err ==> out->Err_0@.len() > 0,
{
    proof {
        crate::context::theorems::lemma_compile_one_key_or_errors(*model);
    }
    let out = ModelContext::try_from(model);
    proof {
        if out is Err {
            assert(errors_view(out->Err_0@).len() == out->Err_0@.len());
        }
    }
    out
}

} // verus!
