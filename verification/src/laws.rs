//! The guarantees of the optimistic-locking protocol, proved once and for
//! all over the table model: conflict-absorbed duplicate creation, the
//! exact version bump, and the fate of stale copies under racing updates
//! and deletes.

use vstd::prelude::*;

use crate::model::{
    created_row, delete_count, delete_rows, has_id, has_match, insert_next_id, insert_outcome,
    insert_rows, lemma_insert_preserves_inv, lemma_match_index_unique, lemma_name_index_unique,
    match_index, name_index, name_taken, table_inv, update_outcome, update_rows, updated_row,
    wf_rows, CatRow, InsertOutcome, UpdateOutcome,
};

verus! {

/// Creating the same normalized name twice stores exactly one row: the
/// first insert writes it, the second resolves to the pre-existing row and
/// leaves the table untouched. Two raw names differing only in case reach
/// the store as one normalized name, so this covers them.
pub proof fn lemma_duplicate_create_absorbed(rows: Seq<CatRow>, next_id: int, name: Seq<char>)
    requires
        table_inv(rows, next_id),
        !name_taken(rows, name),
        next_id < i32::MAX as int,
    ensures
        ({
            let rows1 = insert_rows(rows, name, next_id);
            let nid1 = insert_next_id(rows, name, next_id);
            &&& rows1.len() == rows.len() + 1
            &&& insert_outcome(rows, name, next_id) == InsertOutcome::Created(
                created_row(next_id, name),
            )
            &&& insert_outcome(rows1, name, nid1) == InsertOutcome::Existing(
                created_row(next_id, name),
            )
            &&& insert_rows(rows1, name, nid1) == rows1
            &&& insert_next_id(rows1, name, nid1) == nid1
            &&& forall|i: int, j: int|
                0 <= i < rows1.len() && 0 <= j < rows1.len() && (#[trigger] rows1[i]).name == name
                    && (#[trigger] rows1[j]).name == name ==> i == j
        }),
{
    let rows1 = insert_rows(rows, name, next_id);
    let nid1 = insert_next_id(rows, name, next_id);
    lemma_insert_preserves_inv(rows, name, next_id);
    assert(rows1[rows.len() as int].name == name);
    assert(name_taken(rows1, name));
    lemma_name_index_unique(rows1, name);
    assert(name_index(rows1, name) == rows.len() as int);
    assert(rows1[name_index(rows1, name)] == created_row(next_id, name));
}

/// A successful conditional update advances the version by exactly one and
/// installs the new name; afterwards exactly one row carries that name.
pub proof fn lemma_update_advances_version(
    rows: Seq<CatRow>,
    id: int,
    version: int,
    name: Seq<char>,
)
    requires
        wf_rows(rows),
        has_match(rows, id, version),
        version < i32::MAX as int,
        !(exists|j: int|
            0 <= j < rows.len() && (#[trigger] rows[j]).name == name && rows[j].id != id),
    ensures
        update_outcome(rows, id, version, name) == UpdateOutcome::Updated(
            updated_row(id, version, name),
        ),
        ({
            let rows1 = update_rows(rows, id, version, name);
            let k = match_index(rows, id, version);
            &&& rows1.len() == rows.len()
            &&& rows1[k] == updated_row(id, version, name)
            &&& forall|j: int| 0 <= j < rows1.len() && (#[trigger] rows1[j]).name == name ==> j == k
            &&& has_match(rows1, id, version + 1)
            &&& !has_match(rows1, id, version)
        }),
{
    lemma_match_index_unique(rows, id, version);
    let k = match_index(rows, id, version);
    let rows1 = update_rows(rows, id, version, name);
    assert(rows1[k] == updated_row(id, version, name));
    assert(has_match(rows1, id, version + 1));
    assert forall|j: int|
        0 <= j < rows1.len() && (#[trigger] rows1[j]).name == name implies j == k by {
        if j != k {
            assert(rows1[j] == rows[j]);
            assert(rows[j].id != rows[k].id);
        }
    }
    assert forall|j: int|
        0 <= j < rows1.len() implies !crate::model::row_matches(
        #[trigger] rows1[j],
        id,
        version,
    ) by {
        if j != k {
            assert(rows1[j] == rows[j]);
            assert(rows[j].id != rows[k].id);
        }
    }
}

/// Two copies read at the same version race on update: after the first
/// succeeds, the stale second copy gets the no-match outcome, changes
/// nothing, and the row keeps the first writer's name.
pub proof fn lemma_stale_update_returns_none(
    rows: Seq<CatRow>,
    id: int,
    version: int,
    first_name: Seq<char>,
    second_name: Seq<char>,
)
    requires
        wf_rows(rows),
        has_match(rows, id, version),
        version < i32::MAX as int,
        !(exists|j: int|
            0 <= j < rows.len() && (#[trigger] rows[j]).name == first_name && rows[j].id != id),
    ensures
        ({
            let rows1 = update_rows(rows, id, version, first_name);
            &&& update_outcome(rows1, id, version, second_name) == UpdateOutcome::NoMatch
            &&& update_rows(rows1, id, version, second_name) == rows1
            &&& rows1[match_index(rows, id, version)].name == first_name
            &&& has_match(rows1, id, version + 1)
        }),
{
    lemma_update_advances_version(rows, id, version, first_name);
}

/// Deleting at the current version removes exactly one row: the count is
/// one and the identity is gone afterwards.
pub proof fn lemma_delete_at_current_version(rows: Seq<CatRow>, id: int, version: int)
    requires
        wf_rows(rows),
        has_match(rows, id, version),
    ensures
        delete_count(rows, id, version) == 1,
        delete_rows(rows, id, version).len() == rows.len() - 1,
        !has_id(delete_rows(rows, id, version), id),
{
    lemma_match_index_unique(rows, id, version);
    let k = match_index(rows, id, version);
    let rows1 = delete_rows(rows, id, version);
    assert forall|i: int| 0 <= i < rows1.len() implies (#[trigger] rows1[i]).id != id by {
        if i < k {
            assert(rows1[i] == rows[i]);
        } else {
            assert(rows1[i] == rows[i + 1]);
        }
    }
}

/// Of two racers holding the same (id, version), a successful delete
/// leaves nothing for the other: a later conditional update misses and a
/// later conditional delete removes nothing, each leaving the table as the
/// first delete left it.
pub proof fn lemma_delete_wins_race(rows: Seq<CatRow>, id: int, version: int, name: Seq<char>)
    requires
        wf_rows(rows),
        has_match(rows, id, version),
    ensures
        ({
            let rows1 = delete_rows(rows, id, version);
            &&& update_outcome(rows1, id, version, name) == UpdateOutcome::NoMatch
            &&& update_rows(rows1, id, version, name) == rows1
            &&& delete_count(rows1, id, version) == 0
            &&& delete_rows(rows1, id, version) == rows1
        }),
{
    lemma_delete_at_current_version(rows, id, version);
    let rows1 = delete_rows(rows, id, version);
    assert forall|i: int|
        0 <= i < rows1.len() implies !crate::model::row_matches(
        #[trigger] rows1[i],
        id,
        version,
    ) by {
        assert(rows1[i].id != id);
    }
}

/// Deleting a stale copy after the row was updated removes nothing: the
/// count is zero, the table is untouched, and the row remains present at
/// the newer version.
pub proof fn lemma_stale_delete_rejected(
    rows: Seq<CatRow>,
    id: int,
    version: int,
    name: Seq<char>,
)
    requires
        wf_rows(rows),
        has_match(rows, id, version),
        version < i32::MAX as int,
        !(exists|j: int|
            0 <= j < rows.len() && (#[trigger] rows[j]).name == name && rows[j].id != id),
    ensures
        ({
            let rows1 = update_rows(rows, id, version, name);
            &&& delete_count(rows1, id, version) == 0
            &&& delete_rows(rows1, id, version) == rows1
            &&& has_id(rows1, id)
            &&& has_match(rows1, id, version + 1)
        }),
{
    lemma_update_advances_version(rows, id, version, name);
    let rows1 = update_rows(rows, id, version, name);
    let k = match_index(rows, id, version);
    assert(rows1[k].id == id);
    assert(has_id(rows1, id));
}

} // verus!
