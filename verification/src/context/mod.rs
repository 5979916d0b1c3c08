//! The compiled form of a model: its key, its indexes and what is derived from them.

pub mod add_type;
pub mod index;
pub mod key;
pub mod model;
pub mod names;
pub mod object_store;
pub mod theorems;

pub use self::key::KeyContext;
pub use self::names::IndexKind;
pub use self::index::{ByFnContext, IndexContext};
pub use self::add_type::{AddTypeContext, AddTypeFieldContext};
pub use self::object_store::ObjectStoreContext;
pub use self::model::{compile, ModelContext};
