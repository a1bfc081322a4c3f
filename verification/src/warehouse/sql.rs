//! The statements that keep a tenant's table in a relational database. The
//! table's name is the only part that varies; it is built from an identifier
//! that holds nothing but letters and digits.

use vstd::prelude::*;
use vstd::string::StringExecFns;
use crate::query::{Direction, Page};
use crate::text::join3;
use crate::warehouse::projection::{spec_table_name, table_name};

verus! {

/// Looks up the table of the tenant bound to `$1`.
pub open spec fn spec_find_table() -> Seq<char> {
    "SELECT id FROM warehouses WHERE user_id = $1"@
}

/// Records that the tenant `$2` has the table `$1`, created at `$3`.
pub open spec fn spec_insert_warehouse() -> Seq<char> {
    "INSERT INTO warehouses (id, user_id, created_at) VALUES ($1, $2, $3)"@
}

/// Creates the table `id` with the columns of a row.
pub open spec fn spec_create_table(id: Seq<char>) -> Seq<char> {
    "CREATE TABLE "@ + spec_table_name(id)
        + " (id VARCHAR(21) NOT NULL PRIMARY KEY, key VARCHAR(50) NOT NULL, data json NOT NULL, created_at timestamptz NOT NULL, updated_at timestamptz NULL)"@
}

/// Creates the index that keeps the keys of the table `id` unique.
pub open spec fn spec_create_index(id: Seq<char>) -> Seq<char> {
    "CREATE UNIQUE INDEX ON "@ + spec_table_name(id) + " (key)"@
}

/// Opens the statement that inserts rows into the table `id`; the rows'
/// values follow it.
pub open spec fn spec_insert_rows(id: Seq<char>) -> Seq<char> {
    "INSERT INTO "@ + spec_table_name(id) + " (id, key, data, created_at) "@
}

/// Closes the statement that inserts rows: a row whose key is already there
/// overwrites that row's data and sets its `updated_at` to the new row's
/// `created_at`.
pub open spec fn spec_on_conflict() -> Seq<char> {
    " ON CONFLICT (key) DO UPDATE SET data = EXCLUDED.data, updated_at = EXCLUDED.created_at"@
}

/// Reads the rows of the table `id` whose keys are among those bound to `$1`.
pub open spec fn spec_read_back(id: Seq<char>) -> Seq<char> {
    "SELECT * FROM "@ + spec_table_name(id) + " WHERE key = ANY($1)"@
}

pub fn find_table() -> (sql: String)
    ensures
        sql@ == spec_find_table(),
{
    String::from_str("SELECT id FROM warehouses WHERE user_id = $1")
}

pub fn insert_warehouse() -> (sql: String)
    ensures
        sql@ == spec_insert_warehouse(),
{
    String::from_str("INSERT INTO warehouses (id, user_id, created_at) VALUES ($1, $2, $3)")
}

pub fn create_table(table_id: &str) -> (sql: String)
    ensures
        sql@ == spec_create_table(table_id@),
{
    let name = table_name(table_id);
    join3(
        "CREATE TABLE ",
        name.as_str(),
        " (id VARCHAR(21) NOT NULL PRIMARY KEY, key VARCHAR(50) NOT NULL, data json NOT NULL, created_at timestamptz NOT NULL, updated_at timestamptz NULL)",
    )
}

pub fn create_index(table_id: &str) -> (sql: String)
    ensures
        sql@ == spec_create_index(table_id@),
{
    let name = table_name(table_id);
    join3("CREATE UNIQUE INDEX ON ", name.as_str(), " (key)")
}

pub fn insert_rows(table_id: &str) -> (sql: String)
    ensures
        sql@ == spec_insert_rows(table_id@),
{
    let name = table_name(table_id);
    join3("INSERT INTO ", name.as_str(), " (id, key, data, created_at) ")
}

pub fn on_conflict() -> (sql: String)
    ensures
        sql@ == spec_on_conflict(),
{
    String::from_str(
        " ON CONFLICT (key) DO UPDATE SET data = EXCLUDED.data, updated_at = EXCLUDED.created_at",
    )
}

pub fn read_back(table_id: &str) -> (sql: String)
    ensures
        sql@ == spec_read_back(table_id@),
{
    let name = table_name(table_id);
    join3("SELECT * FROM ", name.as_str(), " WHERE key = ANY($1)")
}

/// The condition that keeps the rows beyond the cursor bound to `$1` and
/// `$2`; nothing for a page without a cursor.
pub open spec fn spec_beyond(direction: Direction, cursor: bool) -> Seq<char> {
    if !cursor {
        ""@
    } else if direction == Direction::Forward {
        " WHERE (created_at, key) > ($1, $2)"@
    } else {
        " WHERE (created_at, key) < ($1, $2)"@
    }
}

/// The order in which a page's rows are fetched: nearest to the cursor first.
pub open spec fn spec_order(direction: Direction) -> Seq<char> {
    if direction == Direction::Forward {
        " ORDER BY created_at ASC, key ASC"@
    } else {
        " ORDER BY created_at DESC, key DESC"@
    }
}

/// The bound on the number of rows; its parameter follows the cursor's two
/// if there is a cursor. Nothing for a page without a limit.
pub open spec fn spec_bound(cursor: bool, limit: bool) -> Seq<char> {
    if !limit {
        ""@
    } else if cursor {
        " LIMIT $3"@
    } else {
        " LIMIT $1"@
    }
}

/// Fetches the rows for a page of the table `id`.
pub open spec fn spec_list_rows(id: Seq<char>, direction: Direction, cursor: bool, limit: bool) -> Seq<
    char,
> {
    "SELECT * FROM "@ + spec_table_name(id) + spec_beyond(direction, cursor) + spec_order(direction)
        + spec_bound(cursor, limit)
}

/// The statement that fetches the rows for `page` from the table `table_id`.
/// Its parameters are the cursor's time and key, if the page has a cursor,
/// and then the page's fetch limit, if it has one.
pub fn list_rows(table_id: &str, page: &Page) -> (sql: String)
    ensures
        sql@ == spec_list_rows(table_id@, page.direction, page.cursor is Some, page.limit is Some),
{
    let forward = match page.direction {
        Direction::Forward => true,
        Direction::Backward => false,
    };
    let cursor = page.cursor.is_some();
    let limit = page.limit.is_some();
    let mut sql = String::from_str("SELECT * FROM ");
    sql.append(table_name(table_id).as_str());
    if cursor {
        if forward {
            sql.append(" WHERE (created_at, key) > ($1, $2)");
        } else {
            sql.append(" WHERE (created_at, key) < ($1, $2)");
        }
    } else {
        sql.append("");
    }
    if forward {
        sql.append(" ORDER BY created_at ASC, key ASC");
    } else {
        sql.append(" ORDER BY created_at DESC, key DESC");
    }
    if limit {
        if cursor {
            sql.append(" LIMIT $3");
        } else {
            sql.append(" LIMIT $1");
        }
    } else {
        sql.append("");
    }
    sql
}

} // verus!
