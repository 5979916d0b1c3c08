//! What a transaction is opened with: the stores in its scope and its mode.

use vstd::prelude::*;
use crate::text::str_views;

verus! {

/// What a transaction may do.
#[derive(Clone, Copy, Debug, PartialEq, Eq, Structural)]
pub enum TransactionMode {
    /// The transaction reads.
    ReadOnly,
    /// The transaction reads and writes.
    ReadWrite,
}

/// Collects the models and the mode of a transaction.
#[derive(Clone, Debug, PartialEq, Eq)]
pub struct TransactionBuilder {
    /// What the transaction may do.
    pub mode: TransactionMode,
    /// The names of the object stores in the transaction's scope, in the
    /// order in which they were added.
    pub stores: Vec<String>,
}

impl TransactionBuilder {
    /// A transaction that reads, over no store yet.
    pub fn new() -> (out: Self)
        ensures
            out.mode == TransactionMode::ReadOnly,
            out.stores@.len() == 0,
    {
        TransactionBuilder { mode: TransactionMode::ReadOnly, stores: Vec::new() }
    }

    /// Lets the transaction write.
    pub fn writable(self) -> (out: Self)
        ensures
            out.mode == TransactionMode::ReadWrite,
            out.stores == self.stores,
    {
        TransactionBuilder { mode: TransactionMode::ReadWrite, stores: self.stores }
    }

    /// Adds the object store of a model to the transaction's scope.
    pub fn with_model(self, name: String) -> (out: Self)
        ensures
            out.mode == self.mode,
            out.stores@ == self.stores@.push(name),
    {
        let mut stores = self.stores;
        stores.push(name);
        TransactionBuilder { mode: self.mode, stores }
    }

    /// Whether the object store `name` is in the transaction's scope.
    pub fn has_model(&self, name: &String) -> (out: bool)
        ensures
            out == str_views(self.stores@).contains(name@),
    {
        let mut i: usize = 0;
        while i < self.stores.len()
            invariant
                i <= self.stores.len(),
                forall|j: int| 0 <= j < i ==> self.stores@[j]@ != name@,
            decreases self.stores.len() - i,
        {
            if self.stores[i] == *name {
                proof {
                    assert(str_views(self.stores@)[i as int] == name@);
                }
                return true;
            }
            i += 1;
        }
        proof {
            assert forall|j: int| 0 <= j < str_views(self.stores@).len() implies str_views(
                self.stores@,
            )[j] != name@ by {
                assert(str_views(self.stores@)[j] == self.stores@[j]@);
            }
        }
        false
    }
}

} // verus!
