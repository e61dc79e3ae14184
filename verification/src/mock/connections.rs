//! Three connections that each deterministically fail every statement with
//! one fixed backend error, while delegating transaction lifecycle to a
//! pluggable manager. They drive the store's error-propagation paths
//! without a live database.

use vstd::prelude::*;

use crate::backend::{BackendError, Connection, TransactionManager};
use crate::category::{NewProductCategory, ProductCategory};
use crate::model::CatRow;

verus! {

/// A backend that refuses all work because it believes a transaction is
/// already open: every statement reports `AlreadyInTransaction`.
pub struct AlreadyInTransactionConnection<M: TransactionManager> {
    /// The pluggable transaction-lifecycle strategy.
    pub manager: M,
}

impl<M: TransactionManager> Connection for AlreadyInTransactionConnection<M> {
    open spec fn inv(&self) -> bool {
        true
    }

    open spec fn rows(&self) -> Seq<CatRow> {
        Seq::empty()
    }

    open spec fn failure(&self) -> Option<BackendError> {
        Some(BackendError::AlreadyInTransaction)
    }

    open spec fn tm_failure(&self) -> Option<BackendError> {
        self.manager.failure()
    }

    open spec fn at_capacity(&self) -> bool {
        false
    }

    fn begin_transaction(&self) -> (r: Result<(), BackendError>) {
        self.manager.begin_transaction()
    }

    fn commit_transaction(&self) -> (r: Result<(), BackendError>) {
        self.manager.commit_transaction()
    }

    fn rollback_transaction(&self) -> (r: Result<(), BackendError>) {
        self.manager.rollback_transaction()
    }

    fn execute_insert(&mut self, _new_row: &NewProductCategory) -> (r: Result<
        ProductCategory,
        BackendError,
    >) {
        Err(BackendError::AlreadyInTransaction)
    }

    fn execute_update(&mut self, _id: i32, _version: i32, _name: &String) -> (r: Result<
        ProductCategory,
        BackendError,
    >) {
        Err(BackendError::AlreadyInTransaction)
    }

    fn execute_delete(&mut self, _id: i32, _version: i32) -> (r: Result<usize, BackendError>) {
        Err(BackendError::AlreadyInTransaction)
    }

    fn load_all(&self) -> (r: Result<Vec<ProductCategory>, BackendError>) {
        Err(BackendError::AlreadyInTransaction)
    }
}

/// A backend signalling a poisoned transaction: every statement reports
/// `RollbackTransaction`.
pub struct RollBackTransactionConnection<M: TransactionManager> {
    /// The pluggable transaction-lifecycle strategy.
    pub manager: M,
}

impl<M: TransactionManager> Connection for RollBackTransactionConnection<M> {
    open spec fn inv(&self) -> bool {
        true
    }

    open spec fn rows(&self) -> Seq<CatRow> {
        Seq::empty()
    }

    open spec fn failure(&self) -> Option<BackendError> {
        Some(BackendError::RollbackTransaction)
    }

    open spec fn tm_failure(&self) -> Option<BackendError> {
        self.manager.failure()
    }

    open spec fn at_capacity(&self) -> bool {
        false
    }

    fn begin_transaction(&self) -> (r: Result<(), BackendError>) {
        self.manager.begin_transaction()
    }

    fn commit_transaction(&self) -> (r: Result<(), BackendError>) {
        self.manager.commit_transaction()
    }

    fn rollback_transaction(&self) -> (r: Result<(), BackendError>) {
        self.manager.rollback_transaction()
    }

    fn execute_insert(&mut self, _new_row: &NewProductCategory) -> (r: Result<
        ProductCategory,
        BackendError,
    >) {
        Err(BackendError::RollbackTransaction)
    }

    fn execute_update(&mut self, _id: i32, _version: i32, _name: &String) -> (r: Result<
        ProductCategory,
        BackendError,
    >) {
        Err(BackendError::RollbackTransaction)
    }

    fn execute_delete(&mut self, _id: i32, _version: i32) -> (r: Result<usize, BackendError>) {
        Err(BackendError::RollbackTransaction)
    }

    fn load_all(&self) -> (r: Result<Vec<ProductCategory>, BackendError>) {
        Err(BackendError::RollbackTransaction)
    }
}

/// A backend where every query legitimately finds nothing: every statement
/// reports `NotFound`.
pub struct NotFoundErrorConnection<M: TransactionManager> {
    /// The pluggable transaction-lifecycle strategy.
    pub manager: M,
}

impl<M: TransactionManager> Connection for NotFoundErrorConnection<M> {
    open spec fn inv(&self) -> bool {
        true
    }

    open spec fn rows(&self) -> Seq<CatRow> {
        Seq::empty()
    }

    open spec fn failure(&self) -> Option<BackendError> {
        Some(BackendError::NotFound)
    }

    open spec fn tm_failure(&self) -> Option<BackendError> {
        self.manager.failure()
    }

    open spec fn at_capacity(&self) -> bool {
        false
    }

    fn begin_transaction(&self) -> (r: Result<(), BackendError>) {
        self.manager.begin_transaction()
    }

    fn commit_transaction(&self) -> (r: Result<(), BackendError>) {
        self.manager.commit_transaction()
    }

    fn rollback_transaction(&self) -> (r: Result<(), BackendError>) {
        self.manager.rollback_transaction()
    }

    fn execute_insert(&mut self, _new_row: &NewProductCategory) -> (r: Result<
        ProductCategory,
        BackendError,
    >) {
        Err(BackendError::NotFound)
    }

    fn execute_update(&mut self, _id: i32, _version: i32, _name: &String) -> (r: Result<
        ProductCategory,
        BackendError,
    >) {
        Err(BackendError::NotFound)
    }

    fn execute_delete(&mut self, _id: i32, _version: i32) -> (r: Result<usize, BackendError>) {
        Err(BackendError::NotFound)
    }

    fn load_all(&self) -> (r: Result<Vec<ProductCategory>, BackendError>) {
        Err(BackendError::NotFound)
    }
}

} // verus!
