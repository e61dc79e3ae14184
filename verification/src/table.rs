//! The in-memory backend: a category table holding the rows directly,
//! whose conditional statements provably realize the table model, and a
//! connection wrapping it together with a transaction manager.

use vstd::prelude::*;

use crate::backend::{BackendError, Connection, TransactionManager};
use crate::category::{NewProductCategory, ProductCategory};
use crate::model::{
    delete_count, delete_rows, has_match, insert_next_id, insert_outcome, insert_rows,
    lemma_delete_preserves_inv, lemma_insert_preserves_inv, lemma_match_index_unique,
    lemma_name_index_unique, lemma_update_preserves_inv, match_index, name_taken, row_matches,
    table_inv, update_conflict, update_outcome, update_rows, CatRow, InsertOutcome,
    UpdateOutcome,
};

verus! {

/// The stored table: rows in insertion order, plus the counter the next
/// created row takes its id from.
pub struct CategoryTable {
    rows: Vec<ProductCategory>,
    next_id: i32,
}

impl View for CategoryTable {
    type V = Seq<CatRow>;

    closed spec fn view(&self) -> Seq<CatRow> {
        self.rows@.map_values(|c: ProductCategory| c@)
    }
}

impl CategoryTable {
    /// The id the next created row receives.
    pub closed spec fn next_id_spec(&self) -> int {
        self.next_id as int
    }

    /// The id counter is exhausted: no further row can be created.
    pub closed spec fn full(&self) -> bool {
        self.next_id_spec() >= i32::MAX as int
    }

    /// Validity: well-formed rows and a usable id counter.
    pub closed spec fn inv(&self) -> bool {
        table_inv(self@, self.next_id_spec())
    }

    /// An empty table; created rows receive ids starting from one.
    pub fn new() -> (t: CategoryTable)
        ensures
            t.inv(),
            t@ == Seq::<CatRow>::empty(),
            !t.full(),
    {
        let t = CategoryTable { rows: Vec::new(), next_id: 1 };
        proof {
            assert(t@ =~= Seq::<CatRow>::empty());
        }
        t
    }

    /// The index of the row holding this name, if any.
    fn find_by_name(&self, name: &String) -> (r: Option<usize>)
        ensures
            match r {
                Some(i) => 0 <= i < self@.len() && self@[i as int].name == name@,
                None => !name_taken(self@, name@),
            },
    {
        let n = self.rows.len();
        let mut k: usize = 0;
        while k < n
            invariant
                n == self.rows@.len(),
                k <= n,
                forall|j: int| 0 <= j < k ==> (#[trigger] self@[j]).name != name@,
            decreases n - k,
        {
            if self.rows[k].name == *name {
                return Some(k);
            }
            k += 1;
        }
        None
    }

    /// The index of the row matching the caller's (id, version), if any.
    fn find_match(&self, id: i32, version: i32) -> (r: Option<usize>)
        ensures
            match r {
                Some(i) => 0 <= i < self@.len() && row_matches(
                    self@[i as int],
                    id as int,
                    version as int,
                ),
                None => !has_match(self@, id as int, version as int),
            },
    {
        let n = self.rows.len();
        let mut k: usize = 0;
        while k < n
            invariant
                n == self.rows@.len(),
                k <= n,
                forall|j: int|
                    0 <= j < k ==> !row_matches(#[trigger] self@[j], id as int, version as int),
            decreases n - k,
        {
            if self.rows[k].id == id && self.rows[k].version == version {
                return Some(k);
            }
            k += 1;
        }
        None
    }

    /// The conflict-absorbing insert: a fresh row at version zero, the
    /// pre-existing row when the name is already taken, or a backend error
    /// when the id counter is exhausted.
    pub fn insert(&mut self, new_row: &NewProductCategory) -> (r: Result<
        ProductCategory,
        BackendError,
    >)
        requires
            old(self).inv(),
        ensures
            final(self).inv(),
            final(self)@ == insert_rows(old(self)@, new_row.name@, old(self).next_id_spec()),
            final(self).next_id_spec() == insert_next_id(
                old(self)@,
                new_row.name@,
                old(self).next_id_spec(),
            ),
            match insert_outcome(old(self)@, new_row.name@, old(self).next_id_spec()) {
                InsertOutcome::Existing(row) => r matches Ok(c) && c@ == row,
                InsertOutcome::Exhausted => r == Err::<ProductCategory, BackendError>(
                    BackendError::DatabaseError,
                ),
                InsertOutcome::Created(row) => r matches Ok(c) && c@ == row,
            },
    {
        match self.find_by_name(&new_row.name) {
            Some(i) => {
                let c = self.rows[i].clone();
                proof {
                    lemma_name_index_unique(self@, new_row.name@);
                }
                Ok(c)
            },
            None => {
                if self.next_id == i32::MAX {
                    Err(BackendError::DatabaseError)
                } else {
                    let c = ProductCategory {
                        id: self.next_id,
                        name: new_row.name.clone(),
                        version: 0,
                    };
                    self.rows.push(c.clone());
                    self.next_id = self.next_id + 1;
                    proof {
                        lemma_insert_preserves_inv(
                            old(self)@,
                            new_row.name@,
                            old(self).next_id_spec(),
                        );
                        assert(self@ =~= old(self)@.push(c@));
                    }
                    Ok(c)
                }
            },
        }
    }

    /// The conditional update, evaluated as one atomic statement: rewrite
    /// the matching row with the new name and version advanced by one, or
    /// report why no row was written.
    pub fn update(&mut self, id: i32, version: i32, name: &String) -> (r: Result<
        ProductCategory,
        BackendError,
    >)
        requires
            old(self).inv(),
        ensures
            final(self).inv(),
            final(self)@ == update_rows(old(self)@, id as int, version as int, name@),
            final(self).next_id_spec() == old(self).next_id_spec(),
            match update_outcome(old(self)@, id as int, version as int, name@) {
                UpdateOutcome::Updated(row) => r matches Ok(c) && c@ == row,
                UpdateOutcome::NoMatch => r == Err::<ProductCategory, BackendError>(
                    BackendError::NotFound,
                ),
                UpdateOutcome::Conflict => r == Err::<ProductCategory, BackendError>(
                    BackendError::DatabaseError,
                ),
            },
    {
        match self.find_match(id, version) {
            None => Err(BackendError::NotFound),
            Some(i) => {
                proof {
                    lemma_match_index_unique(self@, id as int, version as int);
                }
                if version == i32::MAX {
                    return Err(BackendError::DatabaseError);
                }
                let clash = match self.find_by_name(name) {
                    Some(j) => self.rows[j].id != id,
                    None => false,
                };
                if clash {
                    proof {
                        lemma_name_index_unique(self@, name@);
                    }
                    return Err(BackendError::DatabaseError);
                }
                proof {
                    assert(!update_conflict(self@, id as int, version as int, name@));
                    lemma_update_preserves_inv(
                        self@,
                        id as int,
                        version as int,
                        name@,
                        self.next_id_spec(),
                    );
                }
                let c = ProductCategory { id: id, name: name.clone(), version: version + 1 };
                self.rows.set(i, c.clone());
                proof {
                    assert(i as int == match_index(old(self)@, id as int, version as int));
                    assert(self@ =~= old(self)@.update(i as int, c@));
                }
                Ok(c)
            },
        }
    }

    /// The conditional delete: remove the matching row and report one, or
    /// leave the table alone and report zero.
    pub fn delete(&mut self, id: i32, version: i32) -> (n: usize)
        requires
            old(self).inv(),
        ensures
            final(self).inv(),
            final(self)@ == delete_rows(old(self)@, id as int, version as int),
            final(self).next_id_spec() == old(self).next_id_spec(),
            n == delete_count(old(self)@, id as int, version as int),
    {
        match self.find_match(id, version) {
            None => 0,
            Some(i) => {
                proof {
                    lemma_match_index_unique(self@, id as int, version as int);
                    lemma_delete_preserves_inv(
                        self@,
                        id as int,
                        version as int,
                        self.next_id_spec(),
                    );
                }
                self.rows.remove(i);
                proof {
                    assert(self@ =~= old(self)@.remove(i as int));
                }
                1
            },
        }
    }

    /// The whole table, in storage order.
    pub fn snapshot(&self) -> (v: Vec<ProductCategory>)
        ensures
            v@.len() == self@.len(),
            forall|i: int| 0 <= i < v@.len() ==> (#[trigger] v@[i])@ == self@[i],
    {
        let n = self.rows.len();
        let mut v: Vec<ProductCategory> = Vec::new();
        let mut k: usize = 0;
        while k < n
            invariant
                n == self.rows@.len(),
                k <= n,
                v@.len() == k,
                forall|j: int| 0 <= j < k ==> (#[trigger] v@[j])@ == self@[j],
            decreases n - k,
        {
            let c = self.rows[k].clone();
            v.push(c);
            k += 1;
        }
        v
    }
}

/// A working connection backed by the in-memory table: every statement
/// succeeds and behaves exactly as the table model prescribes.
pub struct InMemoryConnection<M: TransactionManager> {
    table: CategoryTable,
    /// The pluggable transaction-lifecycle strategy.
    pub manager: M,
}

impl<M: TransactionManager> InMemoryConnection<M> {
    /// An empty backend governed by the given transaction manager.
    pub fn new(manager: M) -> (c: InMemoryConnection<M>)
        ensures
            c.inv(),
            c.rows() == Seq::<CatRow>::empty(),
            c.failure() is None,
            c.tm_failure() == manager.failure(),
            !c.at_capacity(),
    {
        InMemoryConnection { table: CategoryTable::new(), manager }
    }
}

impl<M: TransactionManager> Connection for InMemoryConnection<M> {
    closed spec fn inv(&self) -> bool {
        self.table.inv()
    }

    closed spec fn rows(&self) -> Seq<CatRow> {
        self.table@
    }

    closed spec fn failure(&self) -> Option<BackendError> {
        None
    }

    closed spec fn tm_failure(&self) -> Option<BackendError> {
        self.manager.failure()
    }

    closed spec fn at_capacity(&self) -> bool {
        self.table.full()
    }

    fn begin_transaction(&self) -> (r: Result<(), BackendError>) {
        self.manager.begin_transaction()
    }

    fn commit_transaction(&self) -> (r: Result<(), BackendError>) {
        self.manager.commit_transaction()
    }

    fn rollback_transaction(&self) -> (r: Result<(), BackendError>) {
        self.manager.rollback_transaction()
    }

    fn execute_insert(&mut self, new_row: &NewProductCategory) -> (r: Result<
        ProductCategory,
        BackendError,
    >) {
        let r = self.table.insert(new_row);
        proof {
            if !name_taken(old(self).rows(), new_row.name@) && !old(self).at_capacity() {
                assert(!crate::model::has_id(old(self).rows(), old(self).table.next_id_spec()));
            }
        }
        r
    }

    fn execute_update(&mut self, id: i32, version: i32, name: &String) -> (r: Result<
        ProductCategory,
        BackendError,
    >) {
        self.table.update(id, version, name)
    }

    fn execute_delete(&mut self, id: i32, version: i32) -> (r: Result<usize, BackendError>) {
        Ok(self.table.delete(id, version))
    }

    fn load_all(&self) -> (r: Result<Vec<ProductCategory>, BackendError>) {
        Ok(self.table.snapshot())
    }
}

} // verus!
