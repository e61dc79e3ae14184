//! The versioned entity and its unsaved precursor, together with the store
//! operations: create, conditional update, and conditional delete, each run
//! inside its own transaction against a pluggable backend connection.

use vstd::prelude::*;

use crate::backend::{spec_store_error_of, BackendError, Connection, StoreError};
use crate::model::{
    delete_count, delete_rows, has_id, name_index, name_taken, update_outcome, update_rows,
    CatRow, UpdateOutcome,
};

verus! {

/// The normalized form of a raw name, as `str::to_lowercase` computes it.
pub uninterp spec fn lower_of(s: Seq<char>) -> Seq<char>;

/// Relies on `str::to_lowercase`: the result depends on the characters of
/// the input alone.
#[verifier::external_body]
fn to_lowercase_string(s: &str) -> (r: String)
    ensures
        r@ == lower_of(s@),
{
    s.to_lowercase()
}

/// A persisted category row: identity assigned by the store, normalized
/// name, and the version counter that guards updates and deletes.
pub struct ProductCategory {
    pub id: i32,
    pub name: String,
    pub version: i32,
}

impl View for ProductCategory {
    type V = CatRow;

    open spec fn view(&self) -> CatRow {
        CatRow { id: self.id as int, name: self.name@, version: self.version as int }
    }
}

impl Clone for ProductCategory {
    fn clone(&self) -> (r: Self)
        ensures
            r == *self,
    {
        ProductCategory { id: self.id, name: self.name.clone(), version: self.version }
    }
}

/// A not-yet-persisted category: just the normalized name. It gains an
/// identity and a version only through `create`.
pub struct NewProductCategory {
    pub name: String,
}

impl NewProductCategory {
    /// Normalizes the raw name to lower case; performs no I/O.
    pub fn new(name: &str) -> (r: NewProductCategory)
        ensures
            r.name@ == lower_of(name@),
    {
        NewProductCategory { name: to_lowercase_string(name) }
    }
}

impl NewProductCategory {
    /// Persists this payload inside its own transaction, with a
    /// conflict-absorbing insert: a fresh row starts at version zero, and
    /// when a row with the same natural key already exists the insert is a
    /// no-op and the pre-existing row is returned instead of an error.
    /// Transaction-lifecycle and statement failures surface through the
    /// store's error taxonomy; an exhausted id counter is a backend fault.
    pub fn create<C: Connection>(self, conn: &mut C) -> (r: Result<ProductCategory, StoreError>)
        requires
            old(conn).inv(),
        ensures
            final(conn).inv(),
            final(conn).failure() == old(conn).failure(),
            final(conn).tm_failure() == old(conn).tm_failure(),
            old(conn).tm_failure() matches Some(e) ==> (r == Err::<ProductCategory, StoreError>(
                spec_store_error_of(e),
            ) && final(conn).rows() == old(conn).rows()),
            old(conn).failure() matches Some(e) ==> (old(conn).tm_failure() is None ==> (r
                == Err::<ProductCategory, StoreError>(spec_store_error_of(e)) && final(conn).rows()
                == old(conn).rows())),
            old(conn).tm_failure() is None && old(conn).failure() is None && name_taken(
                old(conn).rows(),
                self.name@,
            ) ==> (final(conn).rows() == old(conn).rows() && (r matches Ok(c) && c@ == old(
                conn,
            ).rows()[name_index(old(conn).rows(), self.name@)])),
            old(conn).tm_failure() is None && old(conn).failure() is None && !name_taken(
                old(conn).rows(),
                self.name@,
            ) && old(conn).at_capacity() ==> (final(conn).rows() == old(conn).rows() && r == Err::<
                ProductCategory,
                StoreError,
            >(StoreError::Backend)),
            old(conn).tm_failure() is None && old(conn).failure() is None && !name_taken(
                old(conn).rows(),
                self.name@,
            ) && !old(conn).at_capacity() ==> (r matches Ok(c) && {
                &&& c@.name == self.name@
                &&& c@.version == 0
                &&& !has_id(old(conn).rows(), c@.id)
                &&& final(conn).rows() == old(conn).rows().push(c@)
            }),
    {
        if let Err(e) = conn.begin_transaction() {
            return Err(StoreError::of_backend(e));
        }
        match conn.execute_insert(&self) {
            Ok(row) => {
                let _ = conn.commit_transaction();
                Ok(row)
            },
            Err(e) => {
                let _ = conn.rollback_transaction();
                Err(StoreError::of_backend(e))
            },
        }
    }
}

impl ProductCategory {
    /// Natural-key comparison: a persisted row and an unsaved payload stand
    /// for the same category exactly when their normalized names agree.
    pub fn equal(&self, other: &NewProductCategory) -> (r: bool)
        ensures
            r == (self.name@ == other.name@),
    {
        if self.name == other.name {
            true
        } else {
            false
        }
    }

    /// Writes this entity's name and advances the version by exactly one,
    /// inside its own transaction, conditioned on the stored row still
    /// matching this entity's (id, version). A zero-row result is the
    /// optimistic-lock miss and comes back as `Ok(None)`, never as an
    /// error; a backend that reports "no matching row" is conveying the
    /// same zero-row outcome. Other failures surface through the store's
    /// error taxonomy.
    pub fn update<C: Connection>(self, conn: &mut C) -> (r: Result<
        Option<ProductCategory>,
        StoreError,
    >)
        requires
            old(conn).inv(),
        ensures
            final(conn).inv(),
            final(conn).failure() == old(conn).failure(),
            final(conn).tm_failure() == old(conn).tm_failure(),
            final(conn).at_capacity() == old(conn).at_capacity(),
            old(conn).tm_failure() matches Some(e) ==> (r == Err::<
                Option<ProductCategory>,
                StoreError,
            >(spec_store_error_of(e)) && final(conn).rows() == old(conn).rows()),
            old(conn).tm_failure() is None && old(conn).failure() == Some(BackendError::NotFound)
                ==> ((r matches Ok(c) && c is None) && final(conn).rows() == old(conn).rows()),
            old(conn).failure() matches Some(e) ==> ((old(conn).tm_failure() is None && e
                != BackendError::NotFound) ==> (r == Err::<Option<ProductCategory>, StoreError>(
                spec_store_error_of(e),
            ) && final(conn).rows() == old(conn).rows())),
            old(conn).tm_failure() is None && old(conn).failure() is None ==> {
                &&& final(conn).rows() == update_rows(
                    old(conn).rows(),
                    self.id as int,
                    self.version as int,
                    self.name@,
                )
                &&& match update_outcome(
                    old(conn).rows(),
                    self.id as int,
                    self.version as int,
                    self.name@,
                ) {
                    UpdateOutcome::Updated(row) => (r matches Ok(c) && (c matches Some(u) && u@
                        == row)),
                    UpdateOutcome::NoMatch => (r matches Ok(c) && c is None),
                    UpdateOutcome::Conflict => r == Err::<Option<ProductCategory>, StoreError>(
                        StoreError::Backend,
                    ),
                }
            },
    {
        if let Err(e) = conn.begin_transaction() {
            return Err(StoreError::of_backend(e));
        }
        match conn.execute_update(self.id, self.version, &self.name) {
            Ok(row) => {
                let _ = conn.commit_transaction();
                Ok(Some(row))
            },
            Err(BackendError::NotFound) => {
                let _ = conn.commit_transaction();
                Ok(None)
            },
            Err(e) => {
                let _ = conn.rollback_transaction();
                Err(StoreError::of_backend(e))
            },
        }
    }

    /// Deletes the stored row inside its own transaction, conditioned on it
    /// still matching this entity's (id, version), and returns how many
    /// rows were removed: one when the caller's version was current, zero
    /// when another writer got there first. A deletion race is information,
    /// not an error, so a backend that reports "no matching row" also comes
    /// back as count zero. Other failures surface through the store's error
    /// taxonomy.
    pub fn delete<C: Connection>(self, conn: &mut C) -> (r: Result<usize, StoreError>)
        requires
            old(conn).inv(),
        ensures
            final(conn).inv(),
            final(conn).failure() == old(conn).failure(),
            final(conn).tm_failure() == old(conn).tm_failure(),
            final(conn).at_capacity() == old(conn).at_capacity(),
            old(conn).tm_failure() matches Some(e) ==> (r == Err::<usize, StoreError>(
                spec_store_error_of(e),
            ) && final(conn).rows() == old(conn).rows()),
            old(conn).tm_failure() is None && old(conn).failure() == Some(BackendError::NotFound)
                ==> ((r matches Ok(n) && n == 0) && final(conn).rows() == old(conn).rows()),
            old(conn).failure() matches Some(e) ==> ((old(conn).tm_failure() is None && e
                != BackendError::NotFound) ==> (r == Err::<usize, StoreError>(spec_store_error_of(
                e,
            )) && final(conn).rows() == old(conn).rows())),
            old(conn).tm_failure() is None && old(conn).failure() is None ==> {
                &&& final(conn).rows() == delete_rows(
                    old(conn).rows(),
                    self.id as int,
                    self.version as int,
                )
                &&& r matches Ok(n) && n == delete_count(
                    old(conn).rows(),
                    self.id as int,
                    self.version as int,
                )
            },
    {
        if let Err(e) = conn.begin_transaction() {
            return Err(StoreError::of_backend(e));
        }
        match conn.execute_delete(self.id, self.version) {
            Ok(n) => {
                let _ = conn.commit_transaction();
                Ok(n)
            },
            Err(BackendError::NotFound) => {
                let _ = conn.commit_transaction();
                Ok(0)
            },
            Err(e) => {
                let _ = conn.rollback_transaction();
                Err(StoreError::of_backend(e))
            },
        }
    }
}

} // verus!
