//! The mathematical model of the category table: a sequence of rows, with
//! the conditional insert / update / delete transitions that the backend is
//! expected to evaluate atomically.

use vstd::prelude::*;

verus! {

/// A stored row, as contracts see it: identity, normalized name, and the
/// version counter that optimistic locking compares against.
#[verifier::ext_equal]
pub struct CatRow {
    pub id: int,
    pub name: Seq<char>,
    pub version: int,
}

/// No two rows share an id.
pub open spec fn ids_distinct(rows: Seq<CatRow>) -> bool {
    forall|i: int, j: int|
        0 <= i < rows.len() && 0 <= j < rows.len() && i != j ==> #[trigger] rows[i].id
            != #[trigger] rows[j].id
}

/// No two rows share a name: the normalized name is the natural key.
pub open spec fn names_distinct(rows: Seq<CatRow>) -> bool {
    forall|i: int, j: int|
        0 <= i < rows.len() && 0 <= j < rows.len() && i != j ==> #[trigger] rows[i].name
            != #[trigger] rows[j].name
}

/// Every id and version fits the backing integer column.
pub open spec fn rows_bounded(rows: Seq<CatRow>) -> bool {
    forall|i: int|
        0 <= i < rows.len() ==> 0 < (#[trigger] rows[i]).id <= i32::MAX as int && 0 <= rows[i].version
            <= i32::MAX as int
}

/// Well-formedness of a table state.
pub open spec fn wf_rows(rows: Seq<CatRow>) -> bool {
    ids_distinct(rows) && names_distinct(rows) && rows_bounded(rows)
}

/// Every id lies below the id counter, so the counter's value is fresh.
pub open spec fn ids_below(rows: Seq<CatRow>, bound: int) -> bool {
    forall|i: int| 0 <= i < rows.len() ==> (#[trigger] rows[i]).id < bound
}

/// Invariant of the in-memory table: well-formed rows plus a usable counter.
pub open spec fn table_inv(rows: Seq<CatRow>, next_id: int) -> bool {
    wf_rows(rows) && 1 <= next_id <= i32::MAX as int && ids_below(rows, next_id)
}

/// Some row carries this id.
pub open spec fn has_id(rows: Seq<CatRow>, id: int) -> bool {
    exists|i: int| 0 <= i < rows.len() && (#[trigger] rows[i]).id == id
}

/// Some row carries this name.
pub open spec fn name_taken(rows: Seq<CatRow>, name: Seq<char>) -> bool {
    exists|i: int| 0 <= i < rows.len() && (#[trigger] rows[i]).name == name
}

/// The index of the row carrying this name (unique when names are distinct).
pub open spec fn name_index(rows: Seq<CatRow>, name: Seq<char>) -> int {
    choose|i: int| 0 <= i < rows.len() && (#[trigger] rows[i]).name == name
}

/// The row presents exactly the identity and version a caller observed.
pub open spec fn row_matches(r: CatRow, id: int, version: int) -> bool {
    r.id == id && r.version == version
}

/// Some row matches the caller's (id, version) pair.
pub open spec fn has_match(rows: Seq<CatRow>, id: int, version: int) -> bool {
    exists|i: int| 0 <= i < rows.len() && row_matches(#[trigger] rows[i], id, version)
}

/// The index of the matching row (unique when ids are distinct).
pub open spec fn match_index(rows: Seq<CatRow>, id: int, version: int) -> int {
    choose|i: int| 0 <= i < rows.len() && row_matches(#[trigger] rows[i], id, version)
}

/// The row a fresh insert writes: the next id, version zero.
pub open spec fn created_row(next_id: int, name: Seq<char>) -> CatRow {
    CatRow { id: next_id, name: name, version: 0 }
}

/// What a conflict-absorbing insert resolves to.
pub enum InsertOutcome {
    /// A new row was written.
    Created(CatRow),
    /// The natural key was already taken; the insert is a no-op and the
    /// pre-existing row is reported back.
    Existing(CatRow),
    /// The id counter is exhausted; the backend refuses the write.
    Exhausted,
}

/// The outcome of inserting `name` into `rows` with id counter `next_id`.
pub open spec fn insert_outcome(rows: Seq<CatRow>, name: Seq<char>, next_id: int) -> InsertOutcome {
    if name_taken(rows, name) {
        InsertOutcome::Existing(rows[name_index(rows, name)])
    } else if next_id >= i32::MAX as int {
        InsertOutcome::Exhausted
    } else {
        InsertOutcome::Created(created_row(next_id, name))
    }
}

/// The table after the insert.
pub open spec fn insert_rows(rows: Seq<CatRow>, name: Seq<char>, next_id: int) -> Seq<CatRow> {
    match insert_outcome(rows, name, next_id) {
        InsertOutcome::Created(r) => rows.push(r),
        _ => rows,
    }
}

/// The id counter after the insert.
pub open spec fn insert_next_id(rows: Seq<CatRow>, name: Seq<char>, next_id: int) -> int {
    match insert_outcome(rows, name, next_id) {
        InsertOutcome::Created(_) => next_id + 1,
        _ => next_id,
    }
}

/// The write would break a backing constraint: the version counter cannot
/// be advanced, or the new name collides with a different row's name.
pub open spec fn update_conflict(
    rows: Seq<CatRow>,
    id: int,
    version: int,
    name: Seq<char>,
) -> bool {
    version >= i32::MAX as int || exists|j: int|
        0 <= j < rows.len() && (#[trigger] rows[j]).name == name && rows[j].id != id
}

/// The row a successful conditional update writes: same identity, the new
/// name, and the version advanced by exactly one, all in one atomic step.
pub open spec fn updated_row(id: int, version: int, name: Seq<char>) -> CatRow {
    CatRow { id: id, name: name, version: version + 1 }
}

/// What a conditional update resolves to.
pub enum UpdateOutcome {
    /// Exactly one row matched and was rewritten.
    Updated(CatRow),
    /// No row matched the caller's (id, version): the optimistic-lock miss.
    NoMatch,
    /// A row matched but the write would break a backing constraint.
    Conflict,
}

/// The outcome of the conditional update `set name, version = version + 1
/// where id = id and version = version`.
pub open spec fn update_outcome(
    rows: Seq<CatRow>,
    id: int,
    version: int,
    name: Seq<char>,
) -> UpdateOutcome {
    if !has_match(rows, id, version) {
        UpdateOutcome::NoMatch
    } else if update_conflict(rows, id, version, name) {
        UpdateOutcome::Conflict
    } else {
        UpdateOutcome::Updated(updated_row(id, version, name))
    }
}

/// The table after the conditional update.
pub open spec fn update_rows(
    rows: Seq<CatRow>,
    id: int,
    version: int,
    name: Seq<char>,
) -> Seq<CatRow> {
    match update_outcome(rows, id, version, name) {
        UpdateOutcome::Updated(r) => rows.update(match_index(rows, id, version), r),
        _ => rows,
    }
}

/// How many rows the conditional delete removes: one on a match, zero when
/// another writer already advanced or removed the row.
pub open spec fn delete_count(rows: Seq<CatRow>, id: int, version: int) -> int {
    if has_match(rows, id, version) {
        1
    } else {
        0
    }
}

/// The table after the conditional delete.
pub open spec fn delete_rows(rows: Seq<CatRow>, id: int, version: int) -> Seq<CatRow> {
    if has_match(rows, id, version) {
        rows.remove(match_index(rows, id, version))
    } else {
        rows
    }
}

/// With distinct ids, the matching row's index is unique, and `match_index`
/// names it.
pub proof fn lemma_match_index_unique(rows: Seq<CatRow>, id: int, version: int)
    requires
        ids_distinct(rows),
        has_match(rows, id, version),
    ensures
        0 <= match_index(rows, id, version) < rows.len(),
        row_matches(rows[match_index(rows, id, version)], id, version),
        forall|j: int|
            0 <= j < rows.len() && (#[trigger] rows[j]).id == id ==> j == match_index(
                rows,
                id,
                version,
            ),
{
    let i = match_index(rows, id, version);
    assert(0 <= i < rows.len() && row_matches(rows[i], id, version));
}

/// With distinct names, the row carrying a taken name is unique, and
/// `name_index` names it.
pub proof fn lemma_name_index_unique(rows: Seq<CatRow>, name: Seq<char>)
    requires
        names_distinct(rows),
        name_taken(rows, name),
    ensures
        0 <= name_index(rows, name) < rows.len(),
        rows[name_index(rows, name)].name == name,
        forall|j: int|
            0 <= j < rows.len() && (#[trigger] rows[j]).name == name ==> j == name_index(
                rows,
                name,
            ),
{
    let i = name_index(rows, name);
    assert(0 <= i < rows.len() && rows[i].name == name);
}

/// A conflict-absorbing insert preserves the table invariant.
pub proof fn lemma_insert_preserves_inv(rows: Seq<CatRow>, name: Seq<char>, next_id: int)
    requires
        table_inv(rows, next_id),
    ensures
        table_inv(
            insert_rows(rows, name, next_id),
            insert_next_id(rows, name, next_id),
        ),
{
    if !name_taken(rows, name) && next_id < i32::MAX as int {
        let rows1 = rows.push(created_row(next_id, name));
        assert forall|i: int, j: int|
            0 <= i < rows1.len() && 0 <= j < rows1.len() && i != j implies #[trigger] rows1[i].id
            != #[trigger] rows1[j].id by {
            if i < rows.len() && j < rows.len() {
                assert(rows[i].id != rows[j].id);
            }
        }
        assert forall|i: int, j: int|
            0 <= i < rows1.len() && 0 <= j < rows1.len() && i != j implies #[trigger] rows1[i].name
            != #[trigger] rows1[j].name by {
            if i < rows.len() && j < rows.len() {
                assert(rows[i].name != rows[j].name);
            } else if i < rows.len() {
                assert(!(0 <= i < rows.len() && rows[i].name == name));
            } else {
                assert(!(0 <= j < rows.len() && rows[j].name == name));
            }
        }
    }
}

/// A conditional update preserves the table invariant.
pub proof fn lemma_update_preserves_inv(
    rows: Seq<CatRow>,
    id: int,
    version: int,
    name: Seq<char>,
    next_id: int,
)
    requires
        table_inv(rows, next_id),
    ensures
        table_inv(update_rows(rows, id, version, name), next_id),
{
    if has_match(rows, id, version) && !update_conflict(rows, id, version, name) {
        lemma_match_index_unique(rows, id, version);
        let k = match_index(rows, id, version);
        let rows1 = rows.update(k, updated_row(id, version, name));
        assert forall|i: int, j: int|
            0 <= i < rows1.len() && 0 <= j < rows1.len() && i != j implies #[trigger] rows1[i].name
            != #[trigger] rows1[j].name by {
            if i != k && j != k {
                assert(rows[i].name != rows[j].name);
            } else if i == k {
                assert(rows[j].id != rows[k].id);
                assert(!(rows[j].name == name && rows[j].id != id));
            } else {
                assert(rows[i].id != rows[k].id);
                assert(!(rows[i].name == name && rows[i].id != id));
            }
        }
    }
}

/// A conditional delete preserves the table invariant.
pub proof fn lemma_delete_preserves_inv(rows: Seq<CatRow>, id: int, version: int, next_id: int)
    requires
        table_inv(rows, next_id),
    ensures
        table_inv(delete_rows(rows, id, version), next_id),
{
    if has_match(rows, id, version) {
        lemma_match_index_unique(rows, id, version);
        let k = match_index(rows, id, version);
        let rows1 = rows.remove(k);
        assert forall|i: int| 0 <= i < rows1.len() implies {
            &&& 0 < (#[trigger] rows1[i]).id <= i32::MAX as int
            &&& 0 <= rows1[i].version <= i32::MAX as int
            &&& rows1[i].id < next_id
        } by {
            if i < k {
                assert(rows1[i] == rows[i]);
            } else {
                assert(rows1[i] == rows[i + 1]);
            }
        }
        assert forall|i: int, j: int|
            0 <= i < rows1.len() && 0 <= j < rows1.len() && i != j implies #[trigger] rows1[i].id
            != #[trigger] rows1[j].id && rows1[i].name != rows1[j].name by {
            let i0: int = if i < k { i } else { i + 1 };
            let j0: int = if j < k { j } else { j + 1 };
            assert(rows1[i] == rows[i0]);
            assert(rows1[j] == rows[j0]);
            assert(rows[i0].id != rows[j0].id);
            assert(rows[i0].name != rows[j0].name);
        }
    }
}

} // verus!
