use cobase::error::Error;
use cobase::query::{encode_place, Cursor, Direction, Page, QueryArgs};
use cobase::warehouse::projection::{NewRow, WarehouseData};
use cobase::warehouse::query::{build_page, empty_page, list_warehouse_data};
use cobase::warehouse::table::WarehouseTable;

fn table_of(keys: &[(&str, u64)]) -> WarehouseTable {
    let mut table = WarehouseTable::new();
    for (n, (key, time)) in keys.iter().enumerate() {
        table.upsert_one(NewRow {
            id: format!("id-{n}"),
            key: (*key).to_owned(),
            data: format!("{{\"n\":{n}}}"),
            created_at: *time,
        });
    }
    table
}

fn five() -> WarehouseTable {
    table_of(&[("a", 10), ("b", 10), ("c", 20), ("d", 20), ("e", 30)])
}

fn keys(page: &cobase::query::QueryResult<cobase::query::Edge<WarehouseData>>) -> Vec<String> {
    page.edges.iter().map(|edge| edge.node.key.clone()).collect()
}

fn args(
    first: Option<u16>,
    after: Option<&str>,
    last: Option<u16>,
    before: Option<&str>,
) -> QueryArgs {
    QueryArgs {
        first,
        after: after.map(str::to_owned),
        last,
        before: before.map(str::to_owned),
    }
}

#[test]
fn cursor_round_trips() {
    for (time, key) in [
        (0u64, ""),
        (1679799428590084, "your-custom-key"),
        (u64::MAX, "with|bar|inside"),
        (7, "|"),
        (10, "日本語"),
    ] {
        let cursor = Cursor { created_at: time, key: key.to_owned() };
        let token = cursor.encode();
        assert_eq!(Cursor::decode(&token), Some(cursor));
    }
}

#[test]
fn cursor_token_is_time_bar_key() {
    let cursor = Cursor { created_at: 1679799428590084, key: "your-custom-key".to_owned() };
    assert_eq!(cursor.encode(), "1679799428590084|your-custom-key");
    assert_eq!(encode_place(5, "k"), "5|k");
}

#[test]
fn cursor_decode_rejects_what_is_no_token() {
    assert_eq!(Cursor::decode(""), None);
    assert_eq!(Cursor::decode("123"), None);
    assert_eq!(Cursor::decode("|key"), None);
    assert_eq!(Cursor::decode("12a|key"), None);
    assert_eq!(Cursor::decode("-1|key"), None);
    assert_eq!(Cursor::decode("18446744073709551616|key"), None);
    assert_eq!(
        Cursor::decode("18446744073709551615|key"),
        Some(Cursor { created_at: u64::MAX, key: "key".to_owned() })
    );
    assert_eq!(Cursor::decode("0|"), Some(Cursor { created_at: 0, key: String::new() }));
}

#[test]
fn first_two_rows_and_next_page_iff_third_exists() {
    let three = table_of(&[("a", 1), ("b", 2), ("c", 3)]);
    let page = three.list(&args(Some(2), None, None, None)).unwrap();
    assert_eq!(keys(&page), vec!["a", "b"]);
    assert!(page.page_info.has_next_page);
    assert!(!page.page_info.has_previous_page);
    assert_eq!(page.page_info.start_cursor, Some("1|a".to_owned()));
    assert_eq!(page.page_info.end_cursor, Some("2|b".to_owned()));
    assert_eq!(page.edges[0].cursor, "1|a");
    assert_eq!(page.edges[1].cursor, "2|b");

    let two = table_of(&[("a", 1), ("b", 2)]);
    let page = two.list(&args(Some(2), None, None, None)).unwrap();
    assert_eq!(keys(&page), vec!["a", "b"]);
    assert!(!page.page_info.has_next_page);

    let one = table_of(&[("a", 1)]);
    let page = one.list(&args(Some(2), None, None, None)).unwrap();
    assert_eq!(keys(&page), vec!["a"]);
    assert!(!page.page_info.has_next_page);
}

#[test]
fn after_cursor_returns_only_rows_strictly_after() {
    let table = five();
    let first = table.list(&args(Some(2), None, None, None)).unwrap();
    let cursor = first.page_info.end_cursor.clone().unwrap();
    let rest = table.list(&args(None, Some(&cursor), None, None)).unwrap();
    assert_eq!(keys(&rest), vec!["c", "d", "e"]);
    assert!(!rest.page_info.has_next_page);

    let next = table.list(&args(Some(2), Some(&cursor), None, None)).unwrap();
    assert_eq!(keys(&next), vec!["c", "d"]);
    assert!(next.page_info.has_next_page);

    let end = table.list(&args(Some(2), Some("30|e"), None, None)).unwrap();
    assert!(end.edges.is_empty());
    assert_eq!(end.page_info.start_cursor, None);
    assert_eq!(end.page_info.end_cursor, None);
    assert!(!end.page_info.has_next_page);
}

#[test]
fn cursor_between_rows_pages_from_its_place() {
    let table = five();
    let page = table.list(&args(None, Some("10|azzz"), None, None)).unwrap();
    assert_eq!(keys(&page), vec!["b", "c", "d", "e"]);
    let page = table.list(&args(None, Some("15|zzz"), None, None)).unwrap();
    assert_eq!(keys(&page), vec!["c", "d", "e"]);
    let page = table.list(&args(None, None, None, Some("15|"))).unwrap();
    assert_eq!(keys(&page), vec!["a", "b"]);
}

#[test]
fn backward_paging_is_symmetric() {
    let table = five();
    let page = table.list(&args(None, None, Some(2), None)).unwrap();
    assert_eq!(keys(&page), vec!["d", "e"]);
    assert!(page.page_info.has_previous_page);
    assert!(!page.page_info.has_next_page);
    assert_eq!(page.page_info.start_cursor, Some("20|d".to_owned()));
    assert_eq!(page.page_info.end_cursor, Some("30|e".to_owned()));

    let page = table.list(&args(None, None, Some(2), Some("20|d"))).unwrap();
    assert_eq!(keys(&page), vec!["b", "c"]);
    assert!(page.page_info.has_previous_page);

    let page = table.list(&args(None, None, Some(2), Some("10|b"))).unwrap();
    assert_eq!(keys(&page), vec!["a"]);
    assert!(!page.page_info.has_previous_page);

    let page = table.list(&args(None, None, None, Some("20|d"))).unwrap();
    assert_eq!(keys(&page), vec!["a", "b", "c"]);
}

#[test]
fn walking_forward_page_by_page_visits_every_row_once() {
    let table = five();
    let mut seen = Vec::new();
    let mut after: Option<String> = None;
    loop {
        let page = table.list(&args(Some(2), after.as_deref(), None, None)).unwrap();
        seen.extend(keys(&page));
        if !page.page_info.has_next_page {
            break;
        }
        after = page.page_info.end_cursor;
    }
    assert_eq!(seen, vec!["a", "b", "c", "d", "e"]);
}

#[test]
fn limit_zero_returns_nothing_but_tells_about_more() {
    let page = five().list(&args(Some(0), None, None, None)).unwrap();
    assert!(page.edges.is_empty());
    assert!(page.page_info.has_next_page);
    let page = WarehouseTable::new().list(&args(Some(0), None, None, None)).unwrap();
    assert!(!page.page_info.has_next_page);
}

#[test]
fn no_arguments_list_everything() {
    let page = five().list(&QueryArgs::default()).unwrap();
    assert_eq!(keys(&page), vec!["a", "b", "c", "d", "e"]);
    assert!(!page.page_info.has_next_page);
    assert!(!page.page_info.has_previous_page);
}

#[test]
fn mixed_directions_and_bad_cursors_are_bad_requests() {
    let table = five();
    assert!(matches!(
        table.list(&args(Some(1), None, Some(1), None)),
        Err(Error::BadRequest(_))
    ));
    assert!(matches!(
        table.list(&args(None, Some("1|a"), None, Some("2|b"))),
        Err(Error::BadRequest(_))
    ));
    assert_eq!(
        table.list(&args(Some(1), Some("nonsense"), None, None)),
        Err(Error::BadRequest("invalid cursor".to_owned()))
    );
    assert_eq!(
        args(Some(1), None, None, Some("1|a")).plan(),
        Err(Error::BadRequest("first/after cannot be combined with last/before".to_owned()))
    );
}

#[test]
fn plan_reads_direction_limit_and_cursor() {
    assert_eq!(
        args(Some(3), Some("7|k"), None, None).plan(),
        Ok(Page {
            direction: Direction::Forward,
            limit: Some(3),
            cursor: Some(Cursor { created_at: 7, key: "k".to_owned() }),
        })
    );
    assert_eq!(
        args(None, None, Some(4), None).plan(),
        Ok(Page { direction: Direction::Backward, limit: Some(4), cursor: None })
    );
    let page = args(Some(u16::MAX), None, None, None).plan().unwrap();
    assert_eq!(page.fetch_limit(), Some(65536));
    assert_eq!(QueryArgs::default().plan().unwrap().fetch_limit(), None);
}

#[test]
fn select_fetches_one_more_than_the_limit_nearest_first() {
    let table = five();
    let forward = Page { direction: Direction::Forward, limit: Some(2), cursor: None };
    let rows = table.select(&forward);
    assert_eq!(rows.iter().map(|r| r.key.as_str()).collect::<Vec<_>>(), vec!["a", "b", "c"]);
    let backward = Page {
        direction: Direction::Backward,
        limit: Some(1),
        cursor: Some(Cursor { created_at: 20, key: "d".to_owned() }),
    };
    let rows = table.select(&backward);
    assert_eq!(rows.iter().map(|r| r.key.as_str()).collect::<Vec<_>>(), vec!["c", "b"]);
    let page = build_page(&backward, rows);
    assert_eq!(keys(&page), vec!["c"]);
    assert!(page.page_info.has_previous_page);
}

#[test]
fn tenant_without_table_gets_an_empty_page() {
    let page = list_warehouse_data(None, &args(Some(2), None, None, None)).unwrap();
    assert_eq!(page, empty_page());
    assert!(page.edges.is_empty());
    assert!(!page.page_info.has_next_page);
    assert!(!page.page_info.has_previous_page);
    assert_eq!(page.page_info.start_cursor, None);
    let table = five();
    let page = list_warehouse_data(Some(&table), &args(Some(1), None, None, None)).unwrap();
    assert_eq!(keys(&page), vec!["a"]);
}

#[test]
fn paging_columns_are_created_at_then_key() {
    assert_eq!(WarehouseData::keys(), vec!["created_at", "key"]);
}

#[test]
fn row_cursor_parts_round_trip() {
    let row = WarehouseData {
        id: "row".to_owned(),
        key: "your-custom-key".to_owned(),
        data: "{}".to_owned(),
        created_at: 1679799428590084,
        updated_at: Some(5),
    };
    let parts = row.serialize();
    assert_eq!(parts, vec!["1679799428590084".to_owned(), "your-custom-key".to_owned()]);
    assert_eq!(
        WarehouseData::deserialize(&parts),
        Ok(WarehouseData {
            id: String::new(),
            key: "your-custom-key".to_owned(),
            data: String::new(),
            created_at: 1679799428590084,
            updated_at: None,
        })
    );
    assert_eq!(row.to_cursor(), Cursor { created_at: 1679799428590084, key: row.key.clone() });
    assert_eq!(row.to_cursor().encode(), "1679799428590084|your-custom-key");
    for bad in [vec![], vec!["7".to_owned()], vec!["x".to_owned(), "k".to_owned()]] {
        assert_eq!(
            WarehouseData::deserialize(&bad),
            Err(Error::BadRequest("invalid cursor".to_owned()))
        );
    }
}
