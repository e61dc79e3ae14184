//! The always-succeeding transaction manager.

use vstd::prelude::*;

use crate::backend::{BackendError, TransactionManager};

verus! {

/// A transaction manager whose begin, rollback and commit always succeed
/// and which reports a constant transaction depth of one. It isolates
/// connection-level failures from transaction-lifecycle bookkeeping.
pub struct OkayTransactionManager;

impl TransactionManager for OkayTransactionManager {
    open spec fn failure(&self) -> Option<BackendError> {
        None
    }

    open spec fn depth(&self) -> u32 {
        1
    }

    fn begin_transaction(&self) -> (r: Result<(), BackendError>) {
        Ok(())
    }

    fn rollback_transaction(&self) -> (r: Result<(), BackendError>) {
        Ok(())
    }

    fn commit_transaction(&self) -> (r: Result<(), BackendError>) {
        Ok(())
    }

    fn get_transaction_depth(&self) -> (d: u32) {
        1
    }
}

} // verus!
