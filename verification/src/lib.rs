//! A typed client layer over a transactional, secondary-indexed object store.
//!
//! The crate holds the two pure halves of such a layer. The schema compiler
//! ([`compile`]) turns the declaration of a model (its fields with their key
//! and index flags, and its model-level composite keys and indexes) into one
//! key description and an ordered list of index descriptions, deriving every
//! name that was not given and collecting every problem it finds. The range
//! algebra ([`KeyRange`]) turns a range of keys into the query that the storage
//! engine understands, and the scan planner ([`ScanPlan`]) decides, event by
//! event, what a paginated walk over a cursor does next.
//!
//! Talking to the engine itself is left to the caller: every function here
//! takes and returns plain values.

pub mod case;
pub mod context;
pub mod cursor;
pub mod database_builder;
pub mod error;
pub mod index_meta;
pub mod key_range;
pub mod model;
pub mod model_field;
pub mod scan;
pub mod text;
pub mod transaction_builder;

pub use crate::case::pascal_case_all;
pub use crate::text::join;
pub use crate::error::{Error, ValidationError};
pub use crate::index_meta::{FieldIndexMeta, ModelIndexMeta};
pub use crate::model_field::ModelField;
pub use crate::model::Model;
pub use crate::context::{
    compile, AddTypeContext, AddTypeFieldContext, ByFnContext, IndexContext, IndexKind, KeyContext,
    ModelContext, ObjectStoreContext,
};
pub use crate::key_range::{
    finds, select, BoundedRange, EngineKeyRange, KeyRange, KeyRangeInner, Query, RangeType, Sealed, UnboundedRange,
};
pub use crate::cursor::{Cursor, Direction};
pub use crate::scan::{scan, scan_keys, ScanAction, ScanEvent, ScanPhase, ScanPlan};
pub use crate::database_builder::DatabaseBuilder;
pub use crate::transaction_builder::{TransactionBuilder, TransactionMode};
