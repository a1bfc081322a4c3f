//! Listing a tenant's rows page by page.
//!
//! Rows are paged in the order `(created_at, key)`. A forward page holds the
//! first rows strictly after its cursor, a backward page the last rows
//! strictly before it, and either way the entries of a page stand in
//! ascending order. One row more than the limit is fetched, so that a page
//! knows whether anything lies beyond it in the direction of travel.

use vstd::prelude::*;
use crate::error::Error;
use crate::query::{encode_place, spec_encode, Direction, Edge, Page, PageInfo, QueryArgs, QueryResult};
use vstd::string::StringExecFns;
use crate::query::{invalid_cursor_message, Cursor};
use crate::text::{
    all_digits, chars_of, decimal, decimal_value, parse_decimal, render_decimal,
    seq_lt_irreflexive, text_lt,
};
use crate::warehouse::projection::WarehouseData;
use crate::warehouse::table::{
    place_from, place_lt, place_lt_transitive, place_splits, row_lt, sorted, table_rows,
    WarehouseTable,
};

verus! {

/// The request for one page of a tenant's rows.
#[derive(Debug, Clone, PartialEq, Eq)]
pub struct ListWarehouseDataQuery {
    pub user_id: String,
    pub query_args: QueryArgs,
}

/// The first position at or after `from` whose row comes strictly after the
/// place `(time, key)`; the number of rows if there is none.
pub open spec fn after_from(rows: Seq<WarehouseData>, time: u64, key: Seq<char>, from: int) -> int
    decreases rows.len() - from,
{
    if from < 0 || from >= rows.len() {
        rows.len() as int
    } else if place_lt(time, key, rows[from].created_at, rows[from].key@) {
        from
    } else {
        after_from(rows, time, key, from + 1)
    }
}

/// The rows that a page may draw from, in ascending order: all of them
/// without a cursor, those strictly after the cursor going forward, those
/// strictly before it going backward.
pub open spec fn eligible(
    rows: Seq<WarehouseData>,
    direction: Direction,
    place: Option<(u64, Seq<char>)>,
) -> Seq<WarehouseData> {
    match place {
        None => rows,
        Some((time, key)) => match direction {
            Direction::Forward => rows.subrange(after_from(rows, time, key, 0), rows.len() as int),
            Direction::Backward => rows.subrange(0, place_from(rows, time, key, 0)),
        },
    }
}

/// `rows` from the last to the first.
pub open spec fn reversed(rows: Seq<WarehouseData>) -> Seq<WarehouseData> {
    Seq::new(rows.len(), |i: int| rows[rows.len() - 1 - i])
}

/// How many rows a fetch returns when `available` are eligible.
pub open spec fn fetch_count(available: int, limit: Option<u16>) -> int {
    match limit {
        Some(n) => if available > n + 1 {
            n + 1
        } else {
            available
        },
        None => available,
    }
}

/// The rows that a fetch returns, nearest to the cursor first: ascending
/// going forward, descending going backward.
pub open spec fn fetched(
    rows: Seq<WarehouseData>,
    direction: Direction,
    place: Option<(u64, Seq<char>)>,
    limit: Option<u16>,
) -> Seq<WarehouseData> {
    let from = eligible(rows, direction, place);
    let count = fetch_count(from.len() as int, limit);
    match direction {
        Direction::Forward => from.subrange(0, count),
        Direction::Backward => reversed(from.subrange(from.len() - count, from.len() as int)),
    }
}

/// Whether a fetch found more rows than the page may hold.
pub open spec fn has_more(fetched: Seq<WarehouseData>, limit: Option<u16>) -> bool {
    limit matches Some(n) && fetched.len() > n
}

/// The rows of the page built from a fetch, in ascending order.
pub open spec fn page_nodes(
    fetched: Seq<WarehouseData>,
    direction: Direction,
    limit: Option<u16>,
) -> Seq<WarehouseData> {
    let kept = if has_more(fetched, limit) {
        fetched.subrange(0, limit->Some_0 as int)
    } else {
        fetched
    };
    match direction {
        Direction::Forward => kept,
        Direction::Backward => reversed(kept),
    }
}

/// The token of the place where `row` stands.
pub open spec fn row_token(row: WarehouseData) -> Seq<char> {
    spec_encode(row.created_at, row.key@)
}

/// Whether `result` is the page with these nodes: one edge per node, each
/// with the token of its node's place; the first and the last of these
/// tokens as start and end cursor; and the flags as given.
pub open spec fn is_page(
    result: QueryResult<Edge<WarehouseData>>,
    nodes: Seq<WarehouseData>,
    has_previous_page: bool,
    has_next_page: bool,
) -> bool {
    &&& result.edges@.len() == nodes.len()
    &&& forall|i: int|
        0 <= i < nodes.len() ==> (#[trigger] result.edges@[i]).node == nodes[i]
            && result.edges@[i].cursor@ == row_token(nodes[i])
    &&& result.page_info.has_previous_page == has_previous_page
    &&& result.page_info.has_next_page == has_next_page
    &&& match result.page_info.start_cursor {
        Some(token) => nodes.len() > 0 && token@ == row_token(nodes[0]),
        None => nodes.len() == 0,
    }
    &&& match result.page_info.end_cursor {
        Some(token) => nodes.len() > 0 && token@ == row_token(nodes[nodes.len() - 1]),
        None => nodes.len() == 0,
    }
}

/// Whether `result` is the page that `direction` and `limit` make of a fetch.
pub open spec fn is_page_of_fetch(
    result: QueryResult<Edge<WarehouseData>>,
    fetched: Seq<WarehouseData>,
    direction: Direction,
    limit: Option<u16>,
) -> bool {
    is_page(
        result,
        page_nodes(fetched, direction, limit),
        direction == Direction::Backward && has_more(fetched, limit),
        direction == Direction::Forward && has_more(fetched, limit),
    )
}

/// Whether `parts` are the two parts of a cursor: a time and a key.
pub open spec fn cursor_parts(parts: Seq<String>) -> Option<(u64, Seq<char>)> {
    if parts.len() >= 2 && parts[0]@.len() > 0 && all_digits(parts[0]@) && decimal_value(parts[0]@)
        <= u64::MAX {
        Some((decimal_value(parts[0]@) as u64, parts[1]@))
    } else {
        None
    }
}

impl WarehouseData {
    /// The parts of the row's cursor: its `created_at` in decimal, and its key.
    pub fn serialize(&self) -> (parts: Vec<String>)
        ensures
            parts@.len() == 2,
            parts@[0]@ == decimal(self.created_at as nat),
            parts@[1]@ == self.key@,
    {
        let mut parts: Vec<String> = Vec::new();
        parts.push(render_decimal(self.created_at));
        parts.push(self.key.clone());
        parts
    }

    /// The row's cursor.
    pub fn to_cursor(&self) -> (cursor: Cursor)
        ensures
            cursor.created_at == self.created_at,
            cursor.key == self.key,
    {
        Cursor { created_at: self.created_at, key: self.key.clone() }
    }

    /// Reads the parts of a cursor back into a row that holds the cursor's
    /// place and nothing else. Fewer than two parts, or a first part that is
    /// no time, make a bad request.
    pub fn deserialize(values: &Vec<String>) -> (result: Result<WarehouseData, Error>)
        ensures
            match cursor_parts(values@) {
                Some((created_at, key)) => {
                    &&& result matches Ok(row)
                    &&& row.created_at == created_at
                    &&& row.key@ == key
                    &&& row.id@ == Seq::<char>::empty()
                    &&& row.data@ == Seq::<char>::empty()
                    &&& row.updated_at is None
                },
                None => result matches Err(Error::BadRequest(reason)) && reason@
                    == invalid_cursor_message(),
            },
    {
        if values.len() < 2 {
            return Err(Error::BadRequest(String::from_str("invalid cursor")));
        }
        let digits = chars_of(values[0].as_str());
        proof {
            assert(digits@.subrange(0, digits@.len() as int) =~= digits@);
        }
        match parse_decimal(&digits, 0, digits.len()) {
            Some(created_at) => Ok(
                WarehouseData {
                    id: String::new(),
                    key: values[1].clone(),
                    data: String::new(),
                    created_at,
                    updated_at: None,
                },
            ),
            None => Err(Error::BadRequest(String::from_str("invalid cursor"))),
        }
    }
}

/// The parts of a row's cursor read back as the row's place.
pub proof fn cursor_parts_round_trip(parts: Seq<String>, created_at: u64, key: Seq<char>)
    requires
        parts.len() == 2,
        parts[0]@ == decimal(created_at as nat),
        parts[1]@ == key,
    ensures
        cursor_parts(parts) == Some((created_at, key)),
{
    crate::text::decimal_is_digits(created_at as nat);
    crate::text::decimal_value_of_decimal(created_at as nat);
}

/// The page without entries, which a tenant without a table gets.
pub fn empty_page() -> (result: QueryResult<Edge<WarehouseData>>)
    ensures
        is_page(result, Seq::<WarehouseData>::empty(), false, false),
{
    QueryResult {
        edges: Vec::new(),
        page_info: PageInfo {
            has_previous_page: false,
            has_next_page: false,
            start_cursor: None,
            end_cursor: None,
        },
    }
}

/// Builds the page from the rows that were fetched for it, nearest to the
/// cursor first. A row beyond the limit is dropped and tells that there is
/// more in the direction of travel.
pub fn build_page(page: &Page, rows: Vec<WarehouseData>) -> (result: QueryResult<Edge<WarehouseData>>)
    ensures
        is_page_of_fetch(result, rows@, page.direction, page.limit),
{
    let more = match page.limit {
        Some(n) => rows.len() > n as usize,
        None => false,
    };
    let keep: usize = if more {
        match page.limit {
            Some(n) => n as usize,
            None => rows.len(),
        }
    } else {
        rows.len()
    };
    let ghost kept = rows@.subrange(0, keep as int);
    let ghost nodes = page_nodes(rows@, page.direction, page.limit);
    proof {
        if !more {
            assert(kept =~= rows@);
        }
    }
    let backward = match page.direction {
        Direction::Backward => true,
        Direction::Forward => false,
    };
    let mut edges: Vec<Edge<WarehouseData>> = Vec::new();
    let mut i: usize = 0;
    while i < keep
        invariant
            i <= keep <= rows@.len(),
            kept == rows@.subrange(0, keep as int),
            backward == (page.direction == Direction::Backward),
            nodes == if backward {
                reversed(kept)
            } else {
                kept
            },
            edges@.len() == i,
            forall|k: int|
                0 <= k < i ==> (#[trigger] edges@[k]).node == nodes[k] && edges@[k].cursor@
                    == row_token(nodes[k]),
        decreases keep - i,
    {
        let at = if backward {
            keep - 1 - i
        } else {
            i
        };
        let node = rows[at].duplicate();
        assert(node == nodes[i as int]);
        let cursor = encode_place(node.created_at, node.key.as_str());
        edges.push(Edge { cursor, node });
        i = i + 1;
    }
    let start_cursor = if keep > 0 {
        Some(edges[0].cursor.clone())
    } else {
        None
    };
    let end_cursor = if keep > 0 {
        Some(edges[keep - 1].cursor.clone())
    } else {
        None
    };
    QueryResult {
        edges,
        page_info: PageInfo {
            has_previous_page: backward && more,
            has_next_page: !backward && more,
            start_cursor,
            end_cursor,
        },
    }
}

/// `after_from` splits sorted rows: nothing before the place it returns
/// comes strictly after `(time, key)`, and everything from there on does.
pub proof fn after_splits(rows: Seq<WarehouseData>, time: u64, key: Seq<char>, from: int)
    requires
        sorted(rows),
        0 <= from <= rows.len(),
        forall|j: int|
            0 <= j < from ==> !place_lt(time, key, (#[trigger] rows[j]).created_at, rows[j].key@),
    ensures
        from <= after_from(rows, time, key, from) <= rows.len(),
        forall|j: int|
            0 <= j < after_from(rows, time, key, from) ==> !place_lt(
                time,
                key,
                (#[trigger] rows[j]).created_at,
                rows[j].key@,
            ),
        forall|j: int|
            after_from(rows, time, key, from) <= j < rows.len() ==> place_lt(
                time,
                key,
                (#[trigger] rows[j]).created_at,
                rows[j].key@,
            ),
    decreases rows.len() - from,
{
    if from < rows.len() {
        if !place_lt(time, key, rows[from].created_at, rows[from].key@) {
            after_splits(rows, time, key, from + 1);
        } else {
            assert forall|j: int| from <= j < rows.len() implies place_lt(
                time,
                key,
                (#[trigger] rows[j]).created_at,
                rows[j].key@,
            ) by {
                if j > from {
                    assert(row_lt(rows[from], rows[j]));
                    place_lt_transitive(
                        time,
                        key,
                        rows[from].created_at,
                        rows[from].key@,
                        rows[j].created_at,
                        rows[j].key@,
                    );
                }
            }
        }
    }
}

/// Going forward from a cursor, a page draws from exactly the rows that
/// come strictly after the cursor, and going backward from exactly those
/// that come strictly before it.
pub proof fn eligible_rows_lie_beyond_cursor(
    rows: Seq<WarehouseData>,
    direction: Direction,
    time: u64,
    key: Seq<char>,
)
    requires
        sorted(rows),
    ensures
        forall|i: int|
            0 <= i < rows.len() ==> (eligible(rows, direction, Some((time, key))).contains(
                #[trigger] rows[i],
            ) <==> match direction {
                Direction::Forward => place_lt(time, key, rows[i].created_at, rows[i].key@),
                Direction::Backward => place_lt(rows[i].created_at, rows[i].key@, time, key),
            }),
{
    let from = eligible(rows, direction, Some((time, key)));
    after_splits(rows, time, key, 0);
    place_splits(rows, time, key, 0);
    let a = after_from(rows, time, key, 0);
    let p = place_from(rows, time, key, 0);
    assert forall|i: int| 0 <= i < rows.len() implies (from.contains(#[trigger] rows[i]) <==> match direction {
        Direction::Forward => place_lt(time, key, rows[i].created_at, rows[i].key@),
        Direction::Backward => place_lt(rows[i].created_at, rows[i].key@, time, key),
    }) by {
        match direction {
            Direction::Forward => {
                if i >= a {
                    assert(from[i - a] == rows[i]);
                } else if from.contains(rows[i]) {
                    let k = choose|k: int| 0 <= k < from.len() && from[k] == rows[i];
                    assert(from[k] == rows[k + a]);
                    assert(row_lt(rows[i], rows[k + a]));
                    seq_lt_irreflexive(rows[i].key@);
                }
            },
            Direction::Backward => {
                if i < p {
                    assert(from[i] == rows[i]);
                } else if from.contains(rows[i]) {
                    let k = choose|k: int| 0 <= k < from.len() && from[k] == rows[i];
                    assert(from[k] == rows[k]);
                    if k < i {
                        assert(row_lt(rows[k], rows[i]));
                        seq_lt_irreflexive(rows[i].key@);
                    }
                }
            },
        }
    }
}

/// Paging forward without a cursor gives the first `limit` rows, and says
/// that there is a next page exactly when the table holds more than that.
pub proof fn first_page_holds_first_rows(rows: Seq<WarehouseData>, limit: u16)
    ensures
        page_nodes(fetched(rows, Direction::Forward, None, Some(limit)), Direction::Forward, Some(limit))
            == rows.subrange(0, if rows.len() > limit { limit as int } else { rows.len() as int }),
        has_more(fetched(rows, Direction::Forward, None, Some(limit)), Some(limit)) == (rows.len()
            > limit),
{
    let got = fetched(rows, Direction::Forward, None, Some(limit));
    let nodes = page_nodes(got, Direction::Forward, Some(limit));
    let want = rows.subrange(0, if rows.len() > limit { limit as int } else { rows.len() as int });
    assert(nodes =~= want);
}

/// Paging forward from the cursor of a row draws from exactly the rows that
/// stand after that row, and paging backward from exactly those before it.
pub proof fn page_from_row_cursor(rows: Seq<WarehouseData>, i: int)
    requires
        table_rows(rows),
        0 <= i < rows.len(),
    ensures
        eligible(rows, Direction::Forward, Some((rows[i].created_at, rows[i].key@)))
            == rows.subrange(i + 1, rows.len() as int),
        eligible(rows, Direction::Backward, Some((rows[i].created_at, rows[i].key@)))
            == rows.subrange(0, i),
{
    let time = rows[i].created_at;
    let key = rows[i].key@;
    after_splits(rows, time, key, 0);
    place_splits(rows, time, key, 0);
    seq_lt_irreflexive(key);
    let a = after_from(rows, time, key, 0);
    let p = place_from(rows, time, key, 0);
    if a <= i {
        assert(place_lt(time, key, rows[i].created_at, rows[i].key@));
    }
    if a > i + 1 {
        assert(row_lt(rows[i], rows[i + 1]));
        assert(!place_lt(time, key, rows[i + 1].created_at, rows[i + 1].key@));
    }
    if p > i {
        assert(place_lt(rows[i].created_at, rows[i].key@, time, key));
    }
    if p < i {
        assert(row_lt(rows[p], rows[i]));
        assert(!place_lt(rows[p].created_at, rows[p].key@, time, key));
    }
}

/// The forward page after the row at position `i` holds the next `limit`
/// rows, in order, and says that there is a next page exactly when more
/// rows follow them.
pub proof fn forward_page_follows_row(rows: Seq<WarehouseData>, i: int, limit: u16)
    requires
        table_rows(rows),
        0 <= i < rows.len(),
    ensures
        page_nodes(
            fetched(
                rows,
                Direction::Forward,
                Some((rows[i].created_at, rows[i].key@)),
                Some(limit),
            ),
            Direction::Forward,
            Some(limit),
        ) == rows.subrange(
            i + 1,
            if rows.len() - (i + 1) > limit {
                i + 1 + limit
            } else {
                rows.len() as int
            },
        ),
        has_more(
            fetched(
                rows,
                Direction::Forward,
                Some((rows[i].created_at, rows[i].key@)),
                Some(limit),
            ),
            Some(limit),
        ) == (rows.len() - (i + 1) > limit),
{
    page_from_row_cursor(rows, i);
    let place = Some((rows[i].created_at, rows[i].key@));
    let got = fetched(rows, Direction::Forward, place, Some(limit));
    let nodes = page_nodes(got, Direction::Forward, Some(limit));
    let end = if rows.len() - (i + 1) > limit {
        i + 1 + limit
    } else {
        rows.len() as int
    };
    assert(nodes =~= rows.subrange(i + 1, end));
}

/// The backward page before the row at position `i` holds the `limit` rows
/// just before it, in ascending order, and says that there is a previous
/// page exactly when more rows stand before them.
pub proof fn backward_page_precedes_row(rows: Seq<WarehouseData>, i: int, limit: u16)
    requires
        table_rows(rows),
        0 <= i < rows.len(),
    ensures
        page_nodes(
            fetched(
                rows,
                Direction::Backward,
                Some((rows[i].created_at, rows[i].key@)),
                Some(limit),
            ),
            Direction::Backward,
            Some(limit),
        ) == rows.subrange(if i > limit {
            i - limit
        } else {
            0
        }, i),
        has_more(
            fetched(
                rows,
                Direction::Backward,
                Some((rows[i].created_at, rows[i].key@)),
                Some(limit),
            ),
            Some(limit),
        ) == (i > limit),
{
    page_from_row_cursor(rows, i);
    let place = Some((rows[i].created_at, rows[i].key@));
    let got = fetched(rows, Direction::Backward, place, Some(limit));
    let nodes = page_nodes(got, Direction::Backward, Some(limit));
    let start = if i > limit {
        i - limit
    } else {
        0
    };
    assert(nodes =~= rows.subrange(start, i));
}

impl WarehouseTable {
    /// The first position whose row comes strictly after `(time, key)`.
    fn position_after(&self, time: u64, key: &str) -> (place: usize)
        ensures
            place == after_from(self.rows(), time, key@, 0),
            place <= self.rows().len(),
    {
        let mut i: usize = 0;
        while i < self.len()
            invariant
                i <= self.rows().len(),
                after_from(self.rows(), time, key@, 0) == after_from(self.rows(), time, key@, i as int),
            decreases self.rows().len() - i,
        {
            let row = self.get(i);
            let after = time < row.created_at || (time == row.created_at && text_lt(
                key,
                row.key.as_str(),
            ));
            if after {
                return i;
            }
            i = i + 1;
        }
        i
    }

    /// The first position whose row does not come before `(time, key)`.
    fn position_from(&self, time: u64, key: &str) -> (place: usize)
        ensures
            place == place_from(self.rows(), time, key@, 0),
            place <= self.rows().len(),
    {
        let mut i: usize = 0;
        while i < self.len()
            invariant
                i <= self.rows().len(),
                place_from(self.rows(), time, key@, 0) == place_from(self.rows(), time, key@, i as int),
            decreases self.rows().len() - i,
        {
            let row = self.get(i);
            let before = row.created_at < time || (row.created_at == time && text_lt(
                row.key.as_str(),
                key,
            ));
            if !before {
                return i;
            }
            i = i + 1;
        }
        i
    }

    /// Fetches the rows for a page: at most one more than the page's limit,
    /// nearest to the cursor first.
    pub fn select(&self, page: &Page) -> (rows: Vec<WarehouseData>)
        ensures
            rows@ == fetched(self.rows(), page.direction, page.spec_place(), page.limit),
    {
        let len = self.len();
        let (low, high): (usize, usize) = match &page.cursor {
            None => (0, len),
            Some(cursor) => match page.direction {
                Direction::Forward => (self.position_after(cursor.created_at, cursor.key.as_str()), len),
                Direction::Backward => (0, self.position_from(cursor.created_at, cursor.key.as_str())),
            },
        };
        let ghost from = eligible(self.rows(), page.direction, page.spec_place());
        proof {
            assert(from =~= self.rows().subrange(low as int, high as int));
        }
        let available = high - low;
        let count: usize = match page.limit {
            Some(n) => if available > n as usize + 1 {
                n as usize + 1
            } else {
                available
            },
            None => available,
        };
        let ghost want = fetched(self.rows(), page.direction, page.spec_place(), page.limit);
        let backward = match page.direction {
            Direction::Backward => true,
            Direction::Forward => false,
        };
        let mut out: Vec<WarehouseData> = Vec::new();
        let mut i: usize = 0;
        while i < count
            invariant
                i <= count <= available,
                available == high - low,
                low <= high <= self.rows().len(),
                from == self.rows().subrange(low as int, high as int),
                backward == (page.direction == Direction::Backward),
                want == if backward {
                    reversed(from.subrange(from.len() - count, from.len() as int))
                } else {
                    from.subrange(0, count as int)
                },
                out@.len() == i,
                forall|k: int| 0 <= k < i ==> #[trigger] out@[k] == want[k],
            decreases count - i,
        {
            let at = if backward {
                high - 1 - i
            } else {
                low + i
            };
            out.push(self.get(at).duplicate());
            i = i + 1;
        }
        assert(out@ =~= want);
        out
    }

    /// One page of the table's rows.
    pub fn list(&self, args: &QueryArgs) -> (result: Result<QueryResult<Edge<WarehouseData>>, Error>)
        ensures
            match args.spec_plan() {
                Some((direction, limit, place)) => result matches Ok(page) && is_page_of_fetch(
                    page,
                    fetched(self.rows(), direction, place, limit),
                    direction,
                    limit,
                ),
                None => result matches Err(Error::BadRequest(reason)) && reason@
                    == args.spec_rejection(),
            },
    {
        match args.plan() {
            Ok(page) => {
                let rows = self.select(&page);
                Ok(build_page(&page, rows))
            },
            Err(e) => Err(e),
        }
    }
}

/// One page of a tenant's rows. A tenant without a table gets the page
/// without entries, and no error.
pub fn list_warehouse_data(table: Option<&WarehouseTable>, args: &QueryArgs) -> (result: Result<
    QueryResult<Edge<WarehouseData>>,
    Error,
>)
    ensures
        match table {
            None => result matches Ok(page) && is_page(page, Seq::<WarehouseData>::empty(), false, false),
            Some(table) => match args.spec_plan() {
                Some((direction, limit, place)) => result matches Ok(page) && is_page_of_fetch(
                    page,
                    fetched(table.rows(), direction, place, limit),
                    direction,
                    limit,
                ),
                None => result matches Err(Error::BadRequest(reason)) && reason@
                    == args.spec_rejection(),
            },
        },
{
    match table {
        None => Ok(empty_page()),
        Some(table) => table.list(args),
    }
}

} // verus!
