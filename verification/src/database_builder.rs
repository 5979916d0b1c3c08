//! What a database is opened with: its name, its version and its models.

use vstd::prelude::*;
use crate::context::model::ObjectStoreDefinition;

verus! {

/// Collects the name, the version and the models of a database.
#[derive(Clone, Debug, PartialEq, Eq)]
pub struct DatabaseBuilder {
    /// The name of the database.
    pub name: String,
    /// The version of the database, where one is asked for.
    pub version: Option<u32>,
    /// The object stores of the database, in the order in which the models
    /// were added.
    pub object_stores: Vec<ObjectStoreDefinition>,
}

impl DatabaseBuilder {
    /// A database of the given name, without a version and without models.
    pub fn new(name: String) -> (out: Self)
        ensures
            out.name == name,
            out.version is None,
            out.object_stores@.len() == 0,
    {
        DatabaseBuilder { name, version: None, object_stores: Vec::new() }
    }

    /// Sets the version of the database.
    pub fn version(self, version: u32) -> (out: Self)
        ensures
            out.name == self.name,
            out.version == Some(version),
            out.object_stores == self.object_stores,
    {
        DatabaseBuilder {
            name: self.name,
            version: Some(version),
            object_stores: self.object_stores,
        }
    }

    /// Adds the object store of a model to the database.
    pub fn add_model(self, model: ObjectStoreDefinition) -> (out: Self)
        ensures
            out.name == self.name,
            out.version == self.version,
            out.object_stores@ == self.object_stores@.push(model),
    {
        let mut object_stores = self.object_stores;
        object_stores.push(model);
        DatabaseBuilder { name: self.name, version: self.version, object_stores }
    }
}

} // verus!
