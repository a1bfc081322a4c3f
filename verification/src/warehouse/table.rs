//! A tenant's table: rows with unique keys, kept in the order
//! `(created_at, key)`, and what an import does to them.
//!
//! Importing a row whose key is new inserts it with `updated_at` unset.
//! Importing a row whose key is already there overwrites that row's data and
//! sets its `updated_at` to the import's time; the row keeps its identifier
//! and its `created_at`. A batch is imported as one statement imports it: as
//! a whole, unless it names a key twice, in which case nothing is written.

use vstd::prelude::*;
use crate::text::{same_text, seq_lt, seq_lt_total, seq_lt_transitive, text_lt};
use crate::warehouse::projection::{NewRow, WarehouseData};

verus! {

/// Whether the place `(a_time, a_key)` comes before `(b_time, b_key)`.
pub open spec fn place_lt(a_time: u64, a_key: Seq<char>, b_time: u64, b_key: Seq<char>) -> bool {
    a_time < b_time || (a_time == b_time && seq_lt(a_key, b_key))
}

/// Whether row `a` comes before row `b`.
pub open spec fn row_lt(a: WarehouseData, b: WarehouseData) -> bool {
    place_lt(a.created_at, a.key@, b.created_at, b.key@)
}

/// Whether `rows` are in strictly ascending order.
pub open spec fn sorted(rows: Seq<WarehouseData>) -> bool {
    forall|i: int, j: int| 0 <= i < j < rows.len() ==> row_lt(#[trigger] rows[i], #[trigger] rows[j])
}

/// Whether no key occurs twice in `rows`.
pub open spec fn unique_keys(rows: Seq<WarehouseData>) -> bool {
    forall|i: int, j: int|
        0 <= i < j < rows.len() ==> (#[trigger] rows[i]).key@ != (#[trigger] rows[j]).key@
}

/// Whether `rows` can be the rows of a table.
pub open spec fn table_rows(rows: Seq<WarehouseData>) -> bool {
    sorted(rows) && unique_keys(rows)
}

/// The first position at or after `from` whose row has the key `key`.
pub open spec fn find_key_from(rows: Seq<WarehouseData>, key: Seq<char>, from: int) -> Option<int>
    decreases rows.len() - from,
{
    if from < 0 || from >= rows.len() {
        None
    } else if rows[from].key@ == key {
        Some(from)
    } else {
        find_key_from(rows, key, from + 1)
    }
}

/// The position of the row with the key `key`, if there is one.
pub open spec fn find_key(rows: Seq<WarehouseData>, key: Seq<char>) -> Option<int> {
    find_key_from(rows, key, 0)
}

/// Whether some row of `rows` has the key `key`.
pub open spec fn has_key(rows: Seq<WarehouseData>, key: Seq<char>) -> bool {
    exists|i: int| 0 <= i < rows.len() && (#[trigger] rows[i]).key@ == key
}

/// The first position at or after `from` whose row does not come before the
/// place `(time, key)`; the number of rows if there is none.
pub open spec fn place_from(rows: Seq<WarehouseData>, time: u64, key: Seq<char>, from: int) -> int
    decreases rows.len() - from,
{
    if from < 0 || from >= rows.len() {
        rows.len() as int
    } else if !place_lt(rows[from].created_at, rows[from].key@, time, key) {
        from
    } else {
        place_from(rows, time, key, from + 1)
    }
}

/// The row that `row` becomes when it is inserted.
pub open spec fn inserted_row(row: NewRow) -> WarehouseData {
    WarehouseData {
        id: row.id,
        key: row.key,
        data: row.data,
        created_at: row.created_at,
        updated_at: None,
    }
}

/// `existing` after `row` has overwritten it.
pub open spec fn overwritten_row(existing: WarehouseData, row: NewRow) -> WarehouseData {
    WarehouseData {
        id: existing.id,
        key: existing.key,
        data: row.data,
        created_at: existing.created_at,
        updated_at: Some(row.created_at),
    }
}

/// The table after one row was imported.
pub open spec fn upsert_one(rows: Seq<WarehouseData>, row: NewRow) -> Seq<WarehouseData> {
    match find_key(rows, row.key@) {
        Some(i) => rows.update(i, overwritten_row(rows[i], row)),
        None => rows.insert(place_from(rows, row.created_at, row.key@, 0), inserted_row(row)),
    }
}

/// The table after the rows of `batch` were imported one after the other.
pub open spec fn upsert_all(rows: Seq<WarehouseData>, batch: Seq<NewRow>) -> Seq<WarehouseData>
    decreases batch.len(),
{
    if batch.len() == 0 {
        rows
    } else {
        upsert_one(upsert_all(rows, batch.drop_last()), batch.last())
    }
}

/// `find_key_from` finds the first row with the key from `from` on, exactly
/// when there is one.
pub proof fn find_key_is_first(rows: Seq<WarehouseData>, key: Seq<char>, from: int)
    requires
        0 <= from,
    ensures
        match find_key_from(rows, key, from) {
            Some(i) => from <= i < rows.len() && rows[i].key@ == key && forall|j: int|
                from <= j < i ==> (#[trigger] rows[j]).key@ != key,
            None => forall|j: int| from <= j < rows.len() ==> (#[trigger] rows[j]).key@ != key,
        },
    decreases rows.len() - from,
{
    if from < rows.len() && rows[from].key@ != key {
        find_key_is_first(rows, key, from + 1);
    }
}

/// A key is found exactly when some row has it.
pub proof fn find_key_finds(rows: Seq<WarehouseData>, key: Seq<char>)
    ensures
        find_key(rows, key) is Some <==> has_key(rows, key),
        find_key(rows, key) matches Some(i) ==> 0 <= i < rows.len() && rows[i].key@ == key,
{
    find_key_is_first(rows, key, 0);
}

/// In a table, the row with a given key is found wherever it stands.
pub proof fn find_key_of_row(rows: Seq<WarehouseData>, i: int)
    requires
        unique_keys(rows),
        0 <= i < rows.len(),
    ensures
        find_key(rows, rows[i].key@) == Some(i),
{
    find_key_is_first(rows, rows[i].key@, 0);
    let found = find_key(rows, rows[i].key@)->Some_0;
    if found < i {
        assert(rows[found].key@ != rows[i].key@);
    }
}

/// `place_from` splits sorted rows: everything before the place it returns
/// comes before `(time, key)`, and nothing from there on does.
pub proof fn place_splits(rows: Seq<WarehouseData>, time: u64, key: Seq<char>, from: int)
    requires
        sorted(rows),
        0 <= from <= rows.len(),
        forall|j: int|
            0 <= j < from ==> place_lt((#[trigger] rows[j]).created_at, rows[j].key@, time, key),
    ensures
        from <= place_from(rows, time, key, from) <= rows.len(),
        forall|j: int|
            0 <= j < place_from(rows, time, key, from) ==> place_lt(
                (#[trigger] rows[j]).created_at,
                rows[j].key@,
                time,
                key,
            ),
        forall|j: int|
            place_from(rows, time, key, from) <= j < rows.len() ==> !place_lt(
                (#[trigger] rows[j]).created_at,
                rows[j].key@,
                time,
                key,
            ),
    decreases rows.len() - from,
{
    if from < rows.len() {
        if place_lt(rows[from].created_at, rows[from].key@, time, key) {
            place_splits(rows, time, key, from + 1);
        } else {
            assert forall|j: int| from <= j < rows.len() implies !place_lt(
                (#[trigger] rows[j]).created_at,
                rows[j].key@,
                time,
                key,
            ) by {
                if j > from {
                    assert(row_lt(rows[from], rows[j]));
                    if place_lt(rows[j].created_at, rows[j].key@, time, key) {
                        place_lt_transitive(
                            rows[from].created_at,
                            rows[from].key@,
                            rows[j].created_at,
                            rows[j].key@,
                            time,
                            key,
                        );
                    }
                }
            }
        }
    }
}

/// The order of places is transitive.
pub proof fn place_lt_transitive(
    a_time: u64,
    a_key: Seq<char>,
    b_time: u64,
    b_key: Seq<char>,
    c_time: u64,
    c_key: Seq<char>,
)
    requires
        place_lt(a_time, a_key, b_time, b_key),
        place_lt(b_time, b_key, c_time, c_key),
    ensures
        place_lt(a_time, a_key, c_time, c_key),
{
    if a_time == b_time && b_time == c_time {
        seq_lt_transitive(a_key, b_key, c_key);
    }
}

/// Of two places with different keys exactly one comes before the other.
pub proof fn place_lt_total(a_time: u64, a_key: Seq<char>, b_time: u64, b_key: Seq<char>)
    ensures
        a_key != b_key ==> (place_lt(a_time, a_key, b_time, b_key) || place_lt(
            b_time,
            b_key,
            a_time,
            a_key,
        )),
        !(place_lt(a_time, a_key, b_time, b_key) && place_lt(b_time, b_key, a_time, a_key)),
{
    seq_lt_total(a_key, b_key);
}

/// Importing one row leaves a table a table: still sorted, still without a
/// key held twice.
pub proof fn upsert_one_keeps_table(rows: Seq<WarehouseData>, row: NewRow)
    requires
        table_rows(rows),
    ensures
        table_rows(upsert_one(rows, row)),
        has_key(upsert_one(rows, row), row.key@),
        forall|key: Seq<char>|
            has_key(rows, key) ==> has_key(upsert_one(rows, row), key),
        forall|key: Seq<char>|
            has_key(upsert_one(rows, row), key) ==> has_key(rows, key) || key == row.key@,
{
    let after = upsert_one(rows, row);
    find_key_is_first(rows, row.key@, 0);
    match find_key(rows, row.key@) {
        Some(i) => {
            assert forall|a: int, b: int| 0 <= a < b < after.len() implies row_lt(
                #[trigger] after[a],
                #[trigger] after[b],
            ) by {
                assert(row_lt(rows[a], rows[b]));
            }
            assert forall|a: int, b: int| 0 <= a < b < after.len() implies (#[trigger] after[a]).key@
                != (#[trigger] after[b]).key@ by {
                assert(rows[a].key@ != rows[b].key@);
            }
            assert(after[i].key@ == row.key@);
            assert forall|key: Seq<char>| has_key(rows, key) implies has_key(after, key) by {
                let k = choose|k: int| 0 <= k < rows.len() && (#[trigger] rows[k]).key@ == key;
                assert(after[k].key@ == key);
            }
            assert forall|key: Seq<char>| has_key(after, key) implies has_key(rows, key) || key
                == row.key@ by {
                let k = choose|k: int| 0 <= k < after.len() && (#[trigger] after[k]).key@ == key;
                assert(rows[k].key@ == key);
            }
        },
        None => {
            let p = place_from(rows, row.created_at, row.key@, 0);
            place_splits(rows, row.created_at, row.key@, 0);
            let fresh = inserted_row(row);
            assert forall|a: int, b: int| 0 <= a < b < after.len() implies row_lt(
                #[trigger] after[a],
                #[trigger] after[b],
            ) && after[a].key@ != after[b].key@ by {
                if b < p {
                    assert(after[a] == rows[a] && after[b] == rows[b]);
                    assert(row_lt(rows[a], rows[b]));
                } else if b == p {
                    assert(after[a] == rows[a]);
                    assert(rows[a].key@ != row.key@);
                } else if a < p {
                    assert(after[a] == rows[a] && after[b] == rows[b - 1]);
                    if a < b - 1 {
                        assert(row_lt(rows[a], rows[b - 1]));
                    }
                } else if a == p {
                    assert(after[b] == rows[b - 1]);
                    assert(rows[b - 1].key@ != row.key@);
                    place_lt_total(
                        rows[b - 1].created_at,
                        rows[b - 1].key@,
                        row.created_at,
                        row.key@,
                    );
                } else {
                    assert(after[a] == rows[a - 1] && after[b] == rows[b - 1]);
                    assert(row_lt(rows[a - 1], rows[b - 1]));
                }
            }
            assert(after[p].key@ == row.key@);
            assert forall|key: Seq<char>| has_key(rows, key) implies has_key(after, key) by {
                let k = choose|k: int| 0 <= k < rows.len() && (#[trigger] rows[k]).key@ == key;
                if k < p {
                    assert(after[k].key@ == key);
                } else {
                    assert(after[k + 1].key@ == key);
                }
            }
            assert forall|key: Seq<char>| has_key(after, key) implies has_key(rows, key) || key
                == row.key@ by {
                let k = choose|k: int| 0 <= k < after.len() && (#[trigger] after[k]).key@ == key;
                if k < p {
                    assert(rows[k].key@ == key);
                } else if k > p {
                    assert(rows[k - 1].key@ == key);
                }
            }
        },
    }
}

/// Importing a batch leaves a table a table, and afterwards every key of the
/// batch is in it.
pub proof fn upsert_all_keeps_table(rows: Seq<WarehouseData>, batch: Seq<NewRow>)
    requires
        table_rows(rows),
    ensures
        table_rows(upsert_all(rows, batch)),
        forall|i: int| 0 <= i < batch.len() ==> has_key(upsert_all(rows, batch), (#[trigger] batch[i]).key@),
        forall|key: Seq<char>| has_key(rows, key) ==> has_key(upsert_all(rows, batch), key),
    decreases batch.len(),
{
    if batch.len() > 0 {
        let before = upsert_all(rows, batch.drop_last());
        upsert_all_keeps_table(rows, batch.drop_last());
        upsert_one_keeps_table(before, batch.last());
        let after = upsert_all(rows, batch);
        assert forall|i: int| 0 <= i < batch.len() implies has_key(after, (#[trigger] batch[i]).key@) by {
            if i < batch.len() - 1 {
                assert(batch.drop_last()[i] == batch[i]);
                assert(has_key(before, batch.drop_last()[i].key@));
            }
        }
    }
}

/// The last position of `batch` whose row has the key `key`.
pub open spec fn last_with_key(batch: Seq<NewRow>, key: Seq<char>) -> Option<int>
    decreases batch.len(),
{
    if batch.len() == 0 {
        None
    } else if batch.last().key@ == key {
        Some(batch.len() - 1)
    } else {
        last_with_key(batch.drop_last(), key)
    }
}

/// `row` after the last row of `batch` with its key has overwritten it; the
/// row itself if `batch` has none.
pub open spec fn refreshed_row(row: WarehouseData, batch: Seq<NewRow>) -> WarehouseData {
    match last_with_key(batch, row.key@) {
        Some(i) => overwritten_row(row, batch[i]),
        None => row,
    }
}

/// Every row of `rows` refreshed from `batch`, each in its place.
pub open spec fn refreshed(rows: Seq<WarehouseData>, batch: Seq<NewRow>) -> Seq<WarehouseData> {
    Seq::new(rows.len(), |i: int| refreshed_row(rows[i], batch))
}

/// Whether every key of `batch` is already in `rows`.
pub open spec fn all_present(rows: Seq<WarehouseData>, batch: Seq<NewRow>) -> bool {
    forall|i: int| 0 <= i < batch.len() ==> has_key(rows, (#[trigger] batch[i]).key@)
}

/// `last_with_key` finds a row of the batch with the key, if it finds one.
pub proof fn last_with_key_is_in_batch(batch: Seq<NewRow>, key: Seq<char>)
    ensures
        last_with_key(batch, key) matches Some(i) ==> 0 <= i < batch.len() && batch[i].key@ == key,
    decreases batch.len(),
{
    if batch.len() > 0 && batch.last().key@ != key {
        last_with_key_is_in_batch(batch.drop_last(), key);
    }
}

/// Importing a batch whose keys are all in the table already overwrites
/// rows in place: every row is refreshed from the batch and none moves.
pub proof fn upsert_of_present_keys_refreshes(rows: Seq<WarehouseData>, batch: Seq<NewRow>)
    requires
        unique_keys(rows),
        all_present(rows, batch),
    ensures
        upsert_all(rows, batch) == refreshed(rows, batch),
    decreases batch.len(),
{
    if batch.len() == 0 {
        assert(upsert_all(rows, batch) =~= refreshed(rows, batch));
    } else {
        let head = batch.drop_last();
        let row = batch.last();
        assert forall|i: int| 0 <= i < head.len() implies has_key(rows, (#[trigger] head[i]).key@) by {
            assert(head[i] == batch[i]);
        }
        upsert_of_present_keys_refreshes(rows, head);
        let before = refreshed(rows, head);
        assert(has_key(rows, batch[batch.len() - 1].key@));
        let at = choose|k: int| 0 <= k < rows.len() && (#[trigger] rows[k]).key@ == row.key@;
        assert forall|k: int| 0 <= k < rows.len() implies (#[trigger] before[k]).key@ == rows[k].key@ by {
            last_with_key_is_in_batch(head, rows[k].key@);
        }
        assert forall|a: int, b: int| 0 <= a < b < before.len() implies (#[trigger] before[a]).key@
            != (#[trigger] before[b]).key@ by {
            assert(rows[a].key@ != rows[b].key@);
        }
        find_key_of_row(before, at);
        let after = upsert_one(before, row);
        assert(after =~= refreshed(rows, batch)) by {
            assert forall|k: int| 0 <= k < rows.len() implies after[k] == refreshed_row(
                rows[k],
                batch,
            ) by {
                last_with_key_is_in_batch(head, rows[k].key@);
                if k != at {
                    if k < at {
                        assert(rows[k].key@ != rows[at].key@);
                    } else {
                        assert(rows[at].key@ != rows[k].key@);
                    }
                }
            }
        }
    }
}

/// Refreshing twice from the same batch is refreshing once.
pub proof fn refreshing_is_idempotent(rows: Seq<WarehouseData>, batch: Seq<NewRow>)
    ensures
        refreshed(refreshed(rows, batch), batch) == refreshed(rows, batch),
        refreshed(rows, batch).len() == rows.len(),
        forall|i: int|
            0 <= i < rows.len() ==> (#[trigger] refreshed(rows, batch)[i]).key@ == rows[i].key@,
{
    let once = refreshed(rows, batch);
    assert forall|i: int| 0 <= i < rows.len() implies (#[trigger] once[i]).key@ == rows[i].key@
        && refreshed_row(once[i], batch) == once[i] by {
        last_with_key_is_in_batch(batch, rows[i].key@);
    }
    assert(refreshed(once, batch) =~= once);
}

/// Delivering the same batch again to a table that already holds all its
/// keys changes nothing: the rows, their data and their `updated_at` are as
/// the first delivery left them.
pub proof fn redelivery_to_present_keys_changes_nothing(rows: Seq<WarehouseData>, batch: Seq<NewRow>)
    requires
        table_rows(rows),
        all_present(rows, batch),
    ensures
        upsert_all(upsert_all(rows, batch), batch) == upsert_all(rows, batch),
{
    upsert_of_present_keys_refreshes(rows, batch);
    refreshing_is_idempotent(rows, batch);
    let once = refreshed(rows, batch);
    assert forall|a: int, b: int| 0 <= a < b < once.len() implies (#[trigger] once[a]).key@
        != (#[trigger] once[b]).key@ by {
        assert(rows[a].key@ != rows[b].key@);
    }
    assert forall|i: int| 0 <= i < batch.len() implies has_key(once, (#[trigger] batch[i]).key@) by {
        let k = choose|k: int| 0 <= k < rows.len() && (#[trigger] rows[k]).key@ == batch[i].key@;
        assert(once[k].key@ == batch[i].key@);
    }
    upsert_of_present_keys_refreshes(once, batch);
}

/// After a batch was imported, every row whose key occurs in the batch holds
/// the data of the last row of the batch with that key.
pub proof fn upsert_leaves_latest_data(rows: Seq<WarehouseData>, batch: Seq<NewRow>)
    requires
        table_rows(rows),
    ensures
        forall|j: int|
            0 <= j < upsert_all(rows, batch).len() ==> (last_with_key(
                batch,
                (#[trigger] upsert_all(rows, batch)[j]).key@,
            ) matches Some(i) ==> upsert_all(rows, batch)[j].data == batch[i].data),
    decreases batch.len(),
{
    if batch.len() > 0 {
        let head = batch.drop_last();
        let row = batch.last();
        let before = upsert_all(rows, head);
        let after = upsert_all(rows, batch);
        upsert_leaves_latest_data(rows, head);
        upsert_all_keeps_table(rows, head);
        find_key_is_first(before, row.key@, 0);
        assert forall|j: int| 0 <= j < after.len() implies (last_with_key(
            batch,
            (#[trigger] after[j]).key@,
        ) matches Some(i) ==> after[j].data == batch[i].data) by {
            let key = after[j].key@;
            if key != row.key@ {
                last_with_key_is_in_batch(head, key);
                match find_key(before, row.key@) {
                    Some(at) => {
                        assert(after[j] == before[j]);
                    },
                    None => {
                        let p = place_from(before, row.created_at, row.key@, 0);
                        place_splits(before, row.created_at, row.key@, 0);
                        if j < p {
                            assert(after[j] == before[j]);
                        } else {
                            assert(after[j] == before[j - 1]);
                        }
                    },
                }
                if last_with_key(head, key) is Some {
                    let i = last_with_key(head, key)->Some_0;
                    assert(head[i] == batch[i]);
                }
            } else {
                match find_key(before, row.key@) {
                    Some(at) => {
                        if j != at {
                            if j < at {
                                assert(before[j].key@ != before[at].key@);
                            } else {
                                assert(before[at].key@ != before[j].key@);
                            }
                        }
                    },
                    None => {
                        let p = place_from(before, row.created_at, row.key@, 0);
                        place_splits(before, row.created_at, row.key@, 0);
                        if j < p {
                            assert(after[j] == before[j]);
                        } else if j > p {
                            assert(after[j] == before[j - 1]);
                        }
                    },
                }
            }
        }
    }
}

/// Delivering a batch again never adds a row and changes no row's
/// identifier, key, data or `created_at`; from the second delivery on it
/// changes nothing at all. (The second delivery overwrites the rows that the
/// first one inserted, and so sets their `updated_at`.)
pub proof fn redelivery_is_idempotent(rows: Seq<WarehouseData>, batch: Seq<NewRow>)
    requires
        table_rows(rows),
    ensures
        upsert_all(upsert_all(rows, batch), batch).len() == upsert_all(rows, batch).len(),
        forall|i: int|
            0 <= i < upsert_all(rows, batch).len() ==> {
                let first = #[trigger] upsert_all(rows, batch)[i];
                let second = upsert_all(upsert_all(rows, batch), batch)[i];
                second.id == first.id && second.key == first.key && second.data == first.data
                    && second.created_at == first.created_at
            },
        upsert_all(upsert_all(upsert_all(rows, batch), batch), batch) == upsert_all(
            upsert_all(rows, batch),
            batch,
        ),
{
    let once = upsert_all(rows, batch);
    upsert_all_keeps_table(rows, batch);
    upsert_leaves_latest_data(rows, batch);
    upsert_of_present_keys_refreshes(once, batch);
    redelivery_to_present_keys_changes_nothing(once, batch);
    assert forall|i: int| 0 <= i < once.len() implies {
        let first = #[trigger] once[i];
        let second = upsert_all(once, batch)[i];
        second.id == first.id && second.key == first.key && second.data == first.data
            && second.created_at == first.created_at
    } by {
        last_with_key_is_in_batch(batch, once[i].key@);
    }
}

/// Whether some key occurs twice in `batch`.
pub open spec fn names_key_twice(batch: Seq<NewRow>) -> bool {
    exists|i: int, j: int|
        0 <= i < j < batch.len() && (#[trigger] batch[i]).key@ == (#[trigger] batch[j]).key@
}

/// Why the table refused a batch.
#[derive(Debug, Clone, Copy, PartialEq, Eq)]
pub enum UpsertError {
    /// The batch names a key twice.
    KeyTwice,
}

/// Whether `again` is `batch` delivered once more: row by row the same key,
/// the same data and the same time. The rows' identifiers may differ, since
/// each delivery draws its own.
pub open spec fn same_delivery(batch: Seq<NewRow>, again: Seq<NewRow>) -> bool {
    &&& again.len() == batch.len()
    &&& forall|i: int|
        0 <= i < batch.len() ==> (#[trigger] again[i]).key@ == batch[i].key@ && again[i].data
            == batch[i].data && again[i].created_at == batch[i].created_at
}

/// Two deliveries of one batch name each key last at the same position.
pub proof fn same_delivery_has_same_last(batch: Seq<NewRow>, again: Seq<NewRow>, key: Seq<char>)
    requires
        same_delivery(batch, again),
    ensures
        last_with_key(again, key) == last_with_key(batch, key),
    decreases batch.len(),
{
    if batch.len() > 0 {
        assert(again.last() == again[batch.len() - 1]);
        assert(batch.last() == batch[batch.len() - 1]);
        if batch.last().key@ != key {
            let head = batch.drop_last();
            let again_head = again.drop_last();
            assert forall|i: int| 0 <= i < head.len() implies (#[trigger] again_head[i]).key@
                == head[i].key@ && again_head[i].data == head[i].data && again_head[i].created_at
                == head[i].created_at by {
                assert(again_head[i] == again[i]);
                assert(head[i] == batch[i]);
            }
            same_delivery_has_same_last(head, again_head, key);
        }
    }
}

/// The handling is idempotent under redelivery: a batch that is delivered
/// once more, under row identifiers of its own, leaves the table as a second
/// import of the very same rows leaves it. No row is added, and no row's
/// identifier, key, data or `created_at` changes; a third delivery changes
/// nothing at all. (The second delivery overwrites the rows that the first
/// one inserted, and so sets their `updated_at` to the time of the import.)
pub proof fn redelivery_under_new_ids_is_idempotent(
    rows: Seq<WarehouseData>,
    batch: Seq<NewRow>,
    again: Seq<NewRow>,
)
    requires
        table_rows(rows),
        same_delivery(batch, again),
    ensures
        upsert_all(upsert_all(rows, batch), again) == upsert_all(upsert_all(rows, batch), batch),
        upsert_all(upsert_all(rows, batch), again).len() == upsert_all(rows, batch).len(),
        forall|i: int|
            0 <= i < upsert_all(rows, batch).len() ==> {
                let first = #[trigger] upsert_all(rows, batch)[i];
                let second = upsert_all(upsert_all(rows, batch), again)[i];
                second.id == first.id && second.key == first.key && second.data == first.data
                    && second.created_at == first.created_at
            },
        upsert_all(upsert_all(upsert_all(rows, batch), again), again) == upsert_all(
            upsert_all(rows, batch),
            again,
        ),
{
    let once = upsert_all(rows, batch);
    upsert_all_keeps_table(rows, batch);
    upsert_leaves_latest_data(rows, batch);
    redelivery_is_idempotent(rows, batch);
    assert forall|i: int| 0 <= i < again.len() implies has_key(once, (#[trigger] again[i]).key@) by {
        assert(has_key(once, batch[i].key@));
    }
    upsert_of_present_keys_refreshes(once, batch);
    upsert_of_present_keys_refreshes(once, again);
    assert(refreshed(once, again) =~= refreshed(once, batch)) by {
        assert forall|k: int| 0 <= k < once.len() implies refreshed_row(once[k], again)
            == refreshed_row(once[k], batch) by {
            same_delivery_has_same_last(batch, again, once[k].key@);
            last_with_key_is_in_batch(batch, once[k].key@);
        }
    }
    let twice = upsert_all(once, batch);
    upsert_all_keeps_table(once, batch);
    assert forall|i: int| 0 <= i < again.len() implies has_key(twice, (#[trigger] again[i]).key@) by {
        let k = choose|k: int| 0 <= k < once.len() && (#[trigger] once[k]).key@ == again[i].key@;
        assert(twice[k].key == once[k].key);
    }
    assert forall|i: int| 0 <= i < batch.len() implies has_key(twice, (#[trigger] batch[i]).key@) by {
        assert(again[i].key@ == batch[i].key@);
        assert(has_key(twice, again[i].key@));
    }
    upsert_of_present_keys_refreshes(twice, batch);
    upsert_of_present_keys_refreshes(twice, again);
    assert(refreshed(twice, again) =~= refreshed(twice, batch)) by {
        assert forall|k: int| 0 <= k < twice.len() implies refreshed_row(twice[k], again)
            == refreshed_row(twice[k], batch) by {
            same_delivery_has_same_last(batch, again, twice[k].key@);
            last_with_key_is_in_batch(batch, twice[k].key@);
        }
    }
}

/// The row of `rows` with the key `key`, if there is one.
pub open spec fn row_with_key(rows: Seq<WarehouseData>, key: Seq<char>) -> Option<WarehouseData> {
    match find_key(rows, key) {
        Some(i) => Some(rows[i]),
        None => None,
    }
}

/// Importing one row touches no row with another key.
pub proof fn upsert_one_touches_one_key(rows: Seq<WarehouseData>, row: NewRow, key: Seq<char>)
    requires
        table_rows(rows),
        key != row.key@,
    ensures
        row_with_key(upsert_one(rows, row), key) == row_with_key(rows, key),
{
    let after = upsert_one(rows, row);
    upsert_one_keeps_table(rows, row);
    find_key_is_first(rows, key, 0);
    find_key_is_first(after, key, 0);
    find_key_is_first(rows, row.key@, 0);
    match find_key(rows, row.key@) {
        Some(at) => {
            match find_key(rows, key) {
                Some(i) => {
                    assert(after[i].key@ == key);
                    find_key_of_row(after, i);
                },
                None => {
                    if find_key(after, key) is Some {
                        let j = find_key(after, key)->Some_0;
                        assert(rows[j].key@ == key);
                    }
                },
            }
        },
        None => {
            let p = place_from(rows, row.created_at, row.key@, 0);
            place_splits(rows, row.created_at, row.key@, 0);
            match find_key(rows, key) {
                Some(i) => {
                    let j = if i < p { i } else { i + 1 };
                    assert(after[j] == rows[i]);
                    find_key_of_row(after, j);
                },
                None => {
                    if find_key(after, key) is Some {
                        let j = find_key(after, key)->Some_0;
                        if j < p {
                            assert(rows[j].key@ == key);
                        } else if j > p {
                            assert(rows[j - 1].key@ == key);
                        }
                    }
                },
            }
        },
    }
}

/// An import leaves every row whose key is not in the batch exactly as it
/// was: its data and its `updated_at` change only when a later import names
/// its key.
pub proof fn rows_outside_batch_are_untouched(
    rows: Seq<WarehouseData>,
    batch: Seq<NewRow>,
    key: Seq<char>,
)
    requires
        table_rows(rows),
        last_with_key(batch, key) is None,
    ensures
        row_with_key(upsert_all(rows, batch), key) == row_with_key(rows, key),
    decreases batch.len(),
{
    if batch.len() > 0 {
        rows_outside_batch_are_untouched(rows, batch.drop_last(), key);
        upsert_all_keeps_table(rows, batch.drop_last());
        upsert_one_touches_one_key(upsert_all(rows, batch.drop_last()), batch.last(), key);
    }
}

/// A key that is new to the table and occurs once in the batch gets a row
/// with the batch's identifier, data and time, and no `updated_at`.
pub proof fn new_key_is_inserted_fresh(rows: Seq<WarehouseData>, batch: Seq<NewRow>, at: int)
    requires
        table_rows(rows),
        0 <= at < batch.len(),
        !has_key(rows, batch[at].key@),
        forall|i: int| 0 <= i < batch.len() && i != at ==> (#[trigger] batch[i]).key@ != batch[at].key@,
    ensures
        row_with_key(upsert_all(rows, batch), batch[at].key@) == Some(inserted_row(batch[at])),
    decreases batch.len(),
{
    let key = batch[at].key@;
    let head = batch.drop_last();
    let before = upsert_all(rows, head);
    upsert_all_keeps_table(rows, head);
    if at == batch.len() - 1 {
        assert(last_with_key(head, key) is None) by {
            last_with_key_is_in_batch(head, key);
            if last_with_key(head, key) is Some {
                let i = last_with_key(head, key)->Some_0;
                assert(head[i] == batch[i]);
            }
        }
        rows_outside_batch_are_untouched(rows, head, key);
        find_key_finds(rows, key);
        assert(find_key(before, key) is None);
        let after = upsert_one(before, batch.last());
        upsert_one_keeps_table(before, batch.last());
        let p = place_from(before, batch.last().created_at, key, 0);
        place_splits(before, batch.last().created_at, key, 0);
        assert(after[p] == inserted_row(batch[at]));
        find_key_of_row(after, p);
    } else {
        assert(head[at] == batch[at]);
        assert forall|i: int| 0 <= i < head.len() && i != at implies (#[trigger] head[i]).key@
            != head[at].key@ by {
            assert(head[i] == batch[i]);
        }
        new_key_is_inserted_fresh(rows, head, at);
        upsert_one_touches_one_key(before, batch.last(), key);
    }
}

/// A key that the table already holds and that occurs in the batch keeps its
/// row's identifier and `created_at`, takes the data of the last row of the
/// batch with that key, and gets that row's time as `updated_at`.
pub proof fn known_key_is_overwritten(rows: Seq<WarehouseData>, batch: Seq<NewRow>, key: Seq<char>)
    requires
        table_rows(rows),
        has_key(rows, key),
        last_with_key(batch, key) is Some,
    ensures
        row_with_key(rows, key) is Some,
        row_with_key(upsert_all(rows, batch), key) == Some(
            overwritten_row(row_with_key(rows, key)->Some_0, batch[last_with_key(batch, key)->Some_0]),
        ),
    decreases batch.len(),
{
    find_key_finds(rows, key);
    let found = row_with_key(rows, key)->Some_0;
    let head = batch.drop_last();
    let last = batch.last();
    let before = upsert_all(rows, head);
    upsert_all_keeps_table(rows, head);
    if last.key@ == key {
        if last_with_key(head, key) is Some {
            known_key_is_overwritten(rows, head, key);
        } else {
            rows_outside_batch_are_untouched(rows, head, key);
        }
        let standing = row_with_key(before, key)->Some_0;
        assert(standing.id == found.id && standing.key == found.key && standing.created_at
            == found.created_at);
        let at = find_key(before, key)->Some_0;
        find_key_is_first(before, key, 0);
        let after = upsert_one(before, last);
        upsert_one_keeps_table(before, last);
        assert(after[at] == overwritten_row(found, last));
        find_key_of_row(after, at);
    } else {
        known_key_is_overwritten(rows, head, key);
        upsert_one_touches_one_key(before, last, key);
        let i = last_with_key(head, key)->Some_0;
        last_with_key_is_in_batch(head, key);
        assert(head[i] == batch[i]);
    }
}

/// Importing two batches one after the other is importing them as one.
pub proof fn upsert_all_in_turn(rows: Seq<WarehouseData>, first: Seq<NewRow>, second: Seq<NewRow>)
    ensures
        upsert_all(upsert_all(rows, first), second) == upsert_all(rows, first + second),
    decreases second.len(),
{
    if second.len() == 0 {
        assert(first + second =~= first);
    } else {
        upsert_all_in_turn(rows, first, second.drop_last());
        assert((first + second).drop_last() =~= first + second.drop_last());
        assert((first + second).last() == second.last());
    }
}

/// The texts of `keys`, in order.
pub open spec fn key_texts(keys: Seq<String>) -> Seq<Seq<char>> {
    Seq::new(keys.len(), |i: int| keys[i]@)
}

/// Whether `key` is one of `keys`.
pub open spec fn key_among(keys: Seq<Seq<char>>, key: Seq<char>) -> bool {
    exists|i: int| 0 <= i < keys.len() && #[trigger] keys[i] == key
}

/// The rows of `rows` whose key is one of `keys`, in the order of `rows`.
pub open spec fn with_keys(rows: Seq<WarehouseData>, keys: Seq<Seq<char>>) -> Seq<WarehouseData>
    decreases rows.len(),
{
    if rows.len() == 0 {
        rows
    } else if key_among(keys, rows.last().key@) {
        with_keys(rows.drop_last(), keys).push(rows.last())
    } else {
        with_keys(rows.drop_last(), keys)
    }
}

/// An in-memory table of one tenant.
pub struct WarehouseTable {
    rows: Vec<WarehouseData>,
}

impl WarehouseTable {
    /// The rows in the order `(created_at, key)`.
    pub closed spec fn rows(&self) -> Seq<WarehouseData> {
        self.rows@
    }

    /// The table's invariant: its rows are sorted and no key is held twice.
    pub open spec fn wf(&self) -> bool {
        table_rows(self.rows())
    }

    /// The empty table.
    pub fn new() -> (table: Self)
        ensures
            table.wf(),
            table.rows() == Seq::<WarehouseData>::empty(),
    {
        WarehouseTable { rows: Vec::new() }
    }

    pub fn len(&self) -> (len: usize)
        ensures
            len == self.rows().len(),
    {
        self.rows.len()
    }

    /// The row at position `index`.
    pub fn get(&self, index: usize) -> (row: &WarehouseData)
        requires
            index < self.rows().len(),
        ensures
            *row == self.rows()[index as int],
    {
        &self.rows[index]
    }

    /// All rows, in order.
    pub fn to_vec(&self) -> (rows: Vec<WarehouseData>)
        ensures
            rows@ == self.rows(),
    {
        let mut out: Vec<WarehouseData> = Vec::new();
        let mut i: usize = 0;
        while i < self.rows.len()
            invariant
                i <= self.rows@.len(),
                out@ == self.rows@.subrange(0, i as int),
            decreases self.rows@.len() - i,
        {
            out.push(self.rows[i].duplicate());
            i = i + 1;
            assert(out@ =~= self.rows@.subrange(0, i as int));
        }
        assert(out@ =~= self.rows@);
        out
    }

    /// The position of the row with the key `key`, if there is one.
    pub fn position_of(&self, key: &str) -> (found: Option<usize>)
        ensures
            match found {
                Some(i) => find_key(self.rows(), key@) == Some(i as int),
                None => find_key(self.rows(), key@) is None,
            },
    {
        let mut i: usize = 0;
        while i < self.rows.len()
            invariant
                i <= self.rows@.len(),
                find_key(self.rows@, key@) == find_key_from(self.rows@, key@, i as int),
            decreases self.rows@.len() - i,
        {
            if same_text(self.rows[i].key.as_str(), key) {
                return Some(i);
            }
            i = i + 1;
        }
        None
    }

    /// The row with the key `key`, if there is one.
    pub fn find(&self, key: &str) -> (found: Option<&WarehouseData>)
        ensures
            match found {
                Some(row) => find_key(self.rows(), key@) matches Some(i) && *row == self.rows()[i],
                None => find_key(self.rows(), key@) is None,
            },
    {
        proof {
            find_key_finds(self.rows@, key@);
        }
        match self.position_of(key) {
            Some(i) => Some(&self.rows[i]),
            None => None,
        }
    }

    /// Where a new row at `(time, key)` belongs.
    fn place_of(&self, time: u64, key: &str) -> (place: usize)
        ensures
            place == place_from(self.rows(), time, key@, 0),
            place <= self.rows().len(),
    {
        let mut i: usize = 0;
        while i < self.rows.len()
            invariant
                i <= self.rows@.len(),
                place_from(self.rows@, time, key@, 0) == place_from(self.rows@, time, key@, i as int),
            decreases self.rows@.len() - i,
        {
            let row = &self.rows[i];
            let before = row.created_at < time || (row.created_at == time && text_lt(
                row.key.as_str(),
                key,
            ));
            if !before {
                return i;
            }
            i = i + 1;
        }
        i
    }

    /// Imports one row: overwrites the row with the same key, or inserts the
    /// row where the order puts it.
    pub fn upsert_one(&mut self, row: NewRow)
        requires
            old(self).wf(),
        ensures
            final(self).wf(),
            final(self).rows() == upsert_one(old(self).rows(), row),
    {
        proof {
            upsert_one_keeps_table(self.rows@, row);
            find_key_finds(self.rows@, row.key@);
        }
        match self.position_of(row.key.as_str()) {
            Some(i) => {
                let existing = &self.rows[i];
                let replaced = WarehouseData {
                    id: existing.id.clone(),
                    key: existing.key.clone(),
                    data: row.data,
                    created_at: existing.created_at,
                    updated_at: Some(row.created_at),
                };
                self.rows.set(i, replaced);
            },
            None => {
                let place = self.place_of(row.created_at, row.key.as_str());
                let fresh = WarehouseData {
                    id: row.id,
                    key: row.key,
                    data: row.data,
                    created_at: row.created_at,
                    updated_at: None,
                };
                self.rows.insert(place, fresh);
            },
        }
    }

    /// Whether some key occurs twice in `batch`.
    pub fn repeats_key(batch: &Vec<NewRow>) -> (twice: bool)
        ensures
            twice == names_key_twice(batch@),
    {
        let mut j: usize = 0;
        while j < batch.len()
            invariant
                j <= batch@.len(),
                forall|a: int, b: int|
                    0 <= a < b < j ==> (#[trigger] batch@[a]).key@ != (#[trigger] batch@[b]).key@,
            decreases batch@.len() - j,
        {
            let mut i: usize = 0;
            while i < j
                invariant
                    i <= j < batch@.len(),
                    forall|a: int| 0 <= a < i ==> (#[trigger] batch@[a]).key@ != batch@[j as int].key@,
                decreases j - i,
            {
                if same_text(batch[i].key.as_str(), batch[j].key.as_str()) {
                    assert(batch@[i as int].key@ == batch@[j as int].key@);
                    return true;
                }
                i = i + 1;
            }
            j = j + 1;
        }
        false
    }

    /// Imports a batch as one statement does: every row overwrites the row
    /// with its key or is inserted where the order puts it. A batch that
    /// names a key twice is refused as a whole, since one statement cannot
    /// write one row twice, and the table stays as it was.
    pub fn upsert(&mut self, batch: Vec<NewRow>) -> (result: Result<(), UpsertError>)
        requires
            old(self).wf(),
        ensures
            final(self).wf(),
            match result {
                Ok(_) => !names_key_twice(batch@) && final(self).rows() == upsert_all(
                    old(self).rows(),
                    batch@,
                ),
                Err(error) => names_key_twice(batch@) && error == UpsertError::KeyTwice
                    && final(self).rows() == old(self).rows(),
            },
    {
        if Self::repeats_key(&batch) {
            return Err(UpsertError::KeyTwice);
        }
        let ghost all = batch@;
        for row in iter: batch
            invariant
                iter.seq() == all,
                self.wf(),
                self.rows() == upsert_all(old(self).rows(), all.subrange(0, iter.index())),
        {
            let ghost done = iter.index();
            self.upsert_one(row);
            proof {
                let now = all.subrange(0, done + 1);
                assert(now.drop_last() =~= all.subrange(0, done));
                assert(now.last() == all[done]);
            }
        }
        assert(all.subrange(0, all.len() as int) =~= all);
        Ok(())
    }
    /// The rows whose key is one of `keys`, in the table's order.
    pub fn find_by_keys(&self, keys: &Vec<String>) -> (found: Vec<WarehouseData>)
        ensures
            found@ == with_keys(self.rows(), key_texts(keys@)),
    {
        let mut found: Vec<WarehouseData> = Vec::new();
        let mut i: usize = 0;
        proof {
            assert(self.rows@.subrange(0, 0) =~= Seq::<WarehouseData>::empty());
        }
        while i < self.rows.len()
            invariant
                i <= self.rows@.len(),
                found@ == with_keys(self.rows@.subrange(0, i as int), key_texts(keys@)),
            decreases self.rows@.len() - i,
        {
            let mut among = false;
            let mut k: usize = 0;
            while k < keys.len() && !among
                invariant
                    i < self.rows@.len(),
                    k <= keys@.len(),
                    among ==> key_among(key_texts(keys@), self.rows@[i as int].key@),
                    !among ==> forall|j: int|
                        0 <= j < k ==> #[trigger] key_texts(keys@)[j] != self.rows@[i as int].key@,
                decreases keys@.len() - k, if among { 0int } else { 1int },
            {
                if same_text(keys[k].as_str(), self.rows[i].key.as_str()) {
                    assert(key_texts(keys@)[k as int] == self.rows@[i as int].key@);
                    among = true;
                } else {
                    k = k + 1;
                }
            }
            proof {
                let next = self.rows@.subrange(0, i + 1);
                assert(next.drop_last() =~= self.rows@.subrange(0, i as int));
                assert(next.last() == self.rows@[i as int]);
            }
            if among {
                found.push(self.rows[i].duplicate());
            }
            i = i + 1;
        }
        assert(self.rows@.subrange(0, self.rows@.len() as int) =~= self.rows@);
        found
    }
}

} // verus!
