//! The transactional backend abstraction: the error taxonomy, the
//! transaction-manager capability, and the connection capability set that
//! the store is polymorphic over.

use vstd::prelude::*;

use crate::category::{NewProductCategory, ProductCategory};
use crate::model::{
    delete_count, delete_rows, has_id, name_index, name_taken, update_outcome, update_rows,
    CatRow, UpdateOutcome,
};

verus! {

/// What a backend reports when an operation cannot complete.
#[derive(Clone, Copy, Debug, PartialEq, Eq, Structural)]
pub enum BackendError {
    /// No row satisfied a row-returning statement.
    NotFound,
    /// The backend refuses new work because it believes a transaction is
    /// already open.
    AlreadyInTransaction,
    /// The backend signals that the current transaction is unusable and
    /// must abort.
    RollbackTransaction,
    /// Any other protocol or constraint failure.
    DatabaseError,
}

/// What the store surfaces to its callers. An optimistic-lock miss is not
/// represented here: zero-row outcomes are results, not errors.
#[derive(Clone, Copy, Debug, PartialEq, Eq, Structural)]
pub enum StoreError {
    /// A transport, protocol or constraint failure, propagated verbatim.
    Backend,
    /// The backend cannot start new work; retry policy is the caller's.
    AlreadyInTransaction,
    /// The transaction is poisoned; the caller must establish a new one.
    TransactionMustRollback,
}

/// How each backend report surfaces through the store.
pub open spec fn spec_store_error_of(e: BackendError) -> StoreError {
    match e {
        BackendError::AlreadyInTransaction => StoreError::AlreadyInTransaction,
        BackendError::RollbackTransaction => StoreError::TransactionMustRollback,
        _ => StoreError::Backend,
    }
}

impl StoreError {
    /// Translates a backend report into the store's taxonomy.
    pub fn of_backend(e: BackendError) -> (r: StoreError)
        ensures
            r == spec_store_error_of(e),
    {
        match e {
            BackendError::AlreadyInTransaction => StoreError::AlreadyInTransaction,
            BackendError::RollbackTransaction => StoreError::TransactionMustRollback,
            _ => StoreError::Backend,
        }
    }
}

/// The result every transaction-lifecycle call resolves to, given the
/// manager's fixed failure mode.
pub open spec fn tm_result(f: Option<BackendError>) -> Result<(), BackendError> {
    match f {
        Some(e) => Err(e),
        None => Ok(()),
    }
}

/// The transaction-lifecycle capability: begin, roll back, or commit the
/// current transaction, and report the nesting depth.
pub trait TransactionManager: Sized {
    /// The manager's failure mode: `None` when every lifecycle call
    /// succeeds, or the one error every call reports.
    spec fn failure(&self) -> Option<BackendError>;

    /// The transaction depth the manager reports.
    spec fn depth(&self) -> u32;

    fn begin_transaction(&self) -> (r: Result<(), BackendError>)
        ensures
            r == tm_result(self.failure()),
    ;

    fn rollback_transaction(&self) -> (r: Result<(), BackendError>)
        ensures
            r == tm_result(self.failure()),
    ;

    fn commit_transaction(&self) -> (r: Result<(), BackendError>)
        ensures
            r == tm_result(self.failure()),
    ;

    fn get_transaction_depth(&self) -> (d: u32)
        ensures
            d == self.depth(),
    ;
}

/// The capability set the store needs from a backend: transaction
/// lifecycle, a row-returning conditional insert and update, an
/// affected-row-count delete, and a row-returning query.
///
/// A connection models itself by the rows it holds, a connection-level
/// failure mode, its transaction manager's failure mode, and whether its id
/// counter is exhausted. A failure-free connection must realize exactly the
/// conditional transitions of the table model.
pub trait Connection: Sized {
    /// Validity of the connection's internal state.
    spec fn inv(&self) -> bool;

    /// The rows the connection holds.
    spec fn rows(&self) -> Seq<CatRow>;

    /// `None` for a working connection; otherwise the one error every
    /// statement reports.
    spec fn failure(&self) -> Option<BackendError>;

    /// The failure mode of the connection's transaction manager.
    spec fn tm_failure(&self) -> Option<BackendError>;

    /// Whether the id counter is exhausted, so no new row can be created.
    spec fn at_capacity(&self) -> bool;

    fn begin_transaction(&self) -> (r: Result<(), BackendError>)
        requires
            self.inv(),
        ensures
            r == tm_result(self.tm_failure()),
    ;

    fn commit_transaction(&self) -> (r: Result<(), BackendError>)
        requires
            self.inv(),
        ensures
            r == tm_result(self.tm_failure()),
    ;

    fn rollback_transaction(&self) -> (r: Result<(), BackendError>)
        requires
            self.inv(),
        ensures
            r == tm_result(self.tm_failure()),
    ;

    /// `insert .. on conflict do nothing returning *`: writes a fresh row
    /// with version zero, or reports the pre-existing row when the natural
    /// key is already taken.
    fn execute_insert(&mut self, new_row: &NewProductCategory) -> (r: Result<
        ProductCategory,
        BackendError,
    >)
        requires
            old(self).inv(),
        ensures
            final(self).inv(),
            final(self).failure() == old(self).failure(),
            final(self).tm_failure() == old(self).tm_failure(),
            old(self).failure() matches Some(e) ==> r == Err::<ProductCategory, BackendError>(e)
                && final(self).rows() == old(self).rows() && final(self).at_capacity() == old(self).at_capacity(),
            old(self).failure() is None && name_taken(old(self).rows(), new_row.name@) ==> {
                &&& final(self).rows() == old(self).rows()
                &&& final(self).at_capacity() == old(self).at_capacity()
                &&& r matches Ok(c) && c@ == old(self).rows()[name_index(
                    old(self).rows(),
                    new_row.name@,
                )]
            },
            old(self).failure() is None && !name_taken(old(self).rows(), new_row.name@) && old(
                self,
            ).at_capacity() ==> {
                &&& final(self).rows() == old(self).rows()
                &&& final(self).at_capacity() == old(self).at_capacity()
                &&& r == Err::<ProductCategory, BackendError>(BackendError::DatabaseError)
            },
            old(self).failure() is None && !name_taken(old(self).rows(), new_row.name@) && !old(
                self,
            ).at_capacity() ==> (r matches Ok(c) && {
                &&& c@.name == new_row.name@
                &&& c@.version == 0
                &&& 0 < c@.id <= i32::MAX as int
                &&& !has_id(old(self).rows(), c@.id)
                &&& final(self).rows() == old(self).rows().push(c@)
            }),
    ;

    /// `update .. set name, version = version + 1 where id = .. and
    /// version = .. returning *`: the conditional write, evaluated as one
    /// atomic statement.
    fn execute_update(&mut self, id: i32, version: i32, name: &String) -> (r: Result<
        ProductCategory,
        BackendError,
    >)
        requires
            old(self).inv(),
        ensures
            final(self).inv(),
            final(self).failure() == old(self).failure(),
            final(self).tm_failure() == old(self).tm_failure(),
            final(self).at_capacity() == old(self).at_capacity(),
            old(self).failure() matches Some(e) ==> r == Err::<ProductCategory, BackendError>(e)
                && final(self).rows() == old(self).rows(),
            old(self).failure() is None ==> {
                &&& final(self).rows() == update_rows(old(self).rows(), id as int, version as int, name@)
                &&& match update_outcome(old(self).rows(), id as int, version as int, name@) {
                    UpdateOutcome::Updated(row) => r matches Ok(c) && c@ == row,
                    UpdateOutcome::NoMatch => r == Err::<ProductCategory, BackendError>(
                        BackendError::NotFound,
                    ),
                    UpdateOutcome::Conflict => r == Err::<ProductCategory, BackendError>(
                        BackendError::DatabaseError,
                    ),
                }
            },
    ;

    /// `delete where id = .. and version = ..`: the conditional delete,
    /// reporting how many rows were removed.
    fn execute_delete(&mut self, id: i32, version: i32) -> (r: Result<usize, BackendError>)
        requires
            old(self).inv(),
        ensures
            final(self).inv(),
            final(self).failure() == old(self).failure(),
            final(self).tm_failure() == old(self).tm_failure(),
            final(self).at_capacity() == old(self).at_capacity(),
            old(self).failure() matches Some(e) ==> r == Err::<usize, BackendError>(e)
                && final(self).rows() == old(self).rows(),
            old(self).failure() is None ==> {
                &&& final(self).rows() == delete_rows(old(self).rows(), id as int, version as int)
                &&& r matches Ok(n) && n == delete_count(old(self).rows(), id as int, version as int)
            },
    ;

    /// A row-returning query for the whole table, in storage order.
    fn load_all(&self) -> (r: Result<Vec<ProductCategory>, BackendError>)
        requires
            self.inv(),
        ensures
            self.failure() matches Some(e) ==> r == Err::<Vec<ProductCategory>, BackendError>(e),
            self.failure() is None ==> (r matches Ok(v) && v@.len() == self.rows().len() && (forall|
                i: int,
            |
                0 <= i < v@.len() ==> (#[trigger] v@[i])@ == self.rows()[i])),
    ;
}

} // verus!
