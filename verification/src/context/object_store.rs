//! The store handle of a model: its identifier and the accessors of its indexes.

use vstd::prelude::*;
use vstd::string::StringExecFns;
use crate::context::index::{ByFnContext, ByFnSpec, IndexSpec};
use crate::model::Model;

verus! {

/// The store handle of a model.
#[derive(Clone, Debug, PartialEq, Eq)]
pub struct ObjectStoreContext {
    /// The identifier of the store handle.
    pub ident: String,
    /// The identifier of the model.
    pub model_ident: String,
    /// The accessors of the model's indexes, in the order of the indexes.
    pub indexes: Vec<ByFnContext>,
}

/// An [`ObjectStoreContext`] as a mathematical value.
pub ghost struct ObjectStoreSpec {
    pub ident: Seq<char>,
    pub model_ident: Seq<char>,
    pub indexes: Seq<ByFnSpec>,
}

/// The accessors of a list as mathematical values.
pub open spec fn by_fns_view(by_fns: Seq<ByFnContext>) -> Seq<ByFnSpec> {
    by_fns.map_values(|f: ByFnContext| f@)
}

impl View for ObjectStoreContext {
    type V = ObjectStoreSpec;

    open spec fn view(&self) -> ObjectStoreSpec {
        ObjectStoreSpec {
            ident: self.ident@,
            model_ident: self.model_ident@,
            indexes: by_fns_view(self.indexes@),
        }
    }
}

/// The accessors of the indexes of a list, in the same order.
pub open spec fn by_fns_of(indexes: Seq<IndexSpec>) -> Seq<ByFnSpec> {
    indexes.map_values(|ix: IndexSpec| ix.by_fn())
}

/// The store handle of a model with the accessors `by_fns`: its identifier is
/// the one given, else the model's identifier followed by `ObjectStore`.
pub open spec fn spec_object_store(model: Model, by_fns: Seq<ByFnSpec>) -> ObjectStoreSpec {
    ObjectStoreSpec {
        ident: match model.object_store_struct {
            Some(given) => given@,
            None => model.ident@ + "ObjectStore"@,
        },
        model_ident: model.ident@,
        indexes: by_fns,
    }
}

impl ObjectStoreContext {
    /// The store handle of a model with the accessors `indexes`.
    pub fn try_from(model: &Model, indexes: Vec<ByFnContext>) -> (out: ObjectStoreContext)
        ensures
            out@ == spec_object_store(*model, by_fns_view(indexes@)),
    {
        let ident = match &model.object_store_struct {
            Some(given) => given.clone(),
            None => model.ident.clone().concat("ObjectStore"),
        };
        ObjectStoreContext { ident, model_ident: model.ident.clone(), indexes }
    }

    /// The position of the accessor `by_fn` among the accessors of the store
    /// handle: the first with that name.
    pub fn find_by_fn(&self, by_fn: &String) -> (out: Option<usize>)
        ensures
            out is Some ==> out->Some_0 < self.indexes@.len()
                && self.indexes@[out->Some_0 as int].by_fn_ident@ == by_fn@
                && forall|j: int|
                0 <= j < out->Some_0 ==> (#[trigger] self.indexes@[j]).by_fn_ident@ != by_fn@,
            out is None ==> forall|j: int|
                0 <= j < self.indexes@.len() ==> (#[trigger] self.indexes@[j]).by_fn_ident@
                    != by_fn@,
    {
        let mut i: usize = 0;
        while i < self.indexes.len()
            invariant
                i <= self.indexes.len(),
                forall|j: int| 0 <= j < i ==> (#[trigger] self.indexes@[j]).by_fn_ident@ != by_fn@,
            decreases self.indexes.len() - i,
        {
            if self.indexes[i].by_fn_ident == *by_fn {
                return Some(i);
            }
            i += 1;
        }
        None
    }
}

} // verus!
