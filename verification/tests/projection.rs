use cobase::command::CommandMetadata;
use cobase::event::{Event, HandlerError};
use cobase::storage::BlobStore;
use cobase::warehouse::command::{BusinessKey, Record};
use cobase::warehouse::event::{DataImported, WarehouseEvent};
use cobase::warehouse::memory::{project_into, TenantTable};
use cobase::warehouse::projection::{
    build_rows, end_of_batch, is_usable_table_id, new_table_id, table_id_from, table_name, topic,
    warehouse_data,
    NewRow, ProjectionAction, ProjectionPhase, ProjectionReply, ProjectionSaga, Warehouse,
    WarehouseData, BATCH_SIZE,
};
use cobase::warehouse::sql;
use cobase::warehouse::table::{UpsertError, WarehouseTable};

fn text_record(key: &str, v: &str) -> Record {
    Record { key: BusinessKey::Text(key.to_owned()), data: format!("{{\"v\":\"{v}\"}}") }
}

fn new_row(id: &str, key: &str, data: &str, created_at: u64) -> NewRow {
    NewRow { id: id.to_owned(), key: key.to_owned(), data: data.to_owned(), created_at }
}

fn imported(path: &str, user: &str, created_at: u64) -> Event<DataImported> {
    Event {
        id: "event".to_owned(),
        aggregate_type: "warehouse".to_owned(),
        aggregate_id: user.to_owned(),
        version: 1,
        name: WarehouseEvent::DataImported.name(),
        data: DataImported { storage_path: path.to_owned() },
        metadata: CommandMetadata { request_by: user.to_owned(), request_id: "req".to_owned() },
        created_at,
    }
}

fn keys_of(table: &WarehouseTable) -> Vec<String> {
    table.to_vec().into_iter().map(|row| row.key).collect()
}

#[test]
fn new_key_is_inserted_without_updated_at() {
    let mut table = WarehouseTable::new();
    table.upsert_one(new_row("id-1", "1", "{\"v\":\"a\"}", 100));
    assert_eq!(
        table.to_vec(),
        vec![WarehouseData {
            id: "id-1".to_owned(),
            key: "1".to_owned(),
            data: "{\"v\":\"a\"}".to_owned(),
            created_at: 100,
            updated_at: None,
        }]
    );
}

#[test]
fn known_key_keeps_id_and_created_at_and_gets_updated_at() {
    let mut table = WarehouseTable::new();
    table.upsert_one(new_row("id-1", "1", "old", 100));
    table.upsert_one(new_row("id-2", "1", "new", 250));
    assert_eq!(
        table.to_vec(),
        vec![WarehouseData {
            id: "id-1".to_owned(),
            key: "1".to_owned(),
            data: "new".to_owned(),
            created_at: 100,
            updated_at: Some(250),
        }]
    );
}

#[test]
fn rows_stay_ordered_by_created_at_then_key() {
    let mut table = WarehouseTable::new();
    table.upsert(vec![
        new_row("a", "pear", "1", 200),
        new_row("b", "apple", "2", 200),
        new_row("c", "zebra", "3", 100),
        new_row("d", "app", "4", 200),
        new_row("e", "", "5", 200),
    ]).unwrap();
    assert_eq!(keys_of(&table), vec!["zebra", "", "app", "apple", "pear"]);
    table.upsert_one(new_row("f", "pear", "6", 50));
    assert_eq!(keys_of(&table), vec!["zebra", "", "app", "apple", "pear"]);
    assert_eq!(table.find("pear").unwrap().updated_at, Some(50));
    assert_eq!(table.find("missing"), None);
    assert_eq!(table.len(), 5);
}

#[test]
fn redelivery_does_not_duplicate_and_settles() {
    let batch = || vec![new_row("x", "1", "a", 100), new_row("y", "2", "b", 100)];
    let mut table = WarehouseTable::new();
    table.upsert(batch()).unwrap();
    let once = table.to_vec();
    table.upsert(batch()).unwrap();
    let twice = table.to_vec();
    table.upsert(batch()).unwrap();
    let thrice = table.to_vec();

    assert_eq!(once.len(), 2);
    assert_eq!(twice.len(), 2);
    for (first, second) in once.iter().zip(twice.iter()) {
        assert_eq!(first.id, second.id);
        assert_eq!(first.key, second.key);
        assert_eq!(first.data, second.data);
        assert_eq!(first.created_at, second.created_at);
        assert_eq!(first.updated_at, None);
        assert_eq!(second.updated_at, Some(100));
    }
    assert_eq!(twice, thrice);
}

#[test]
fn redelivery_to_rows_that_were_there_changes_nothing() {
    let mut table = WarehouseTable::new();
    table.upsert(vec![new_row("x", "1", "a", 100), new_row("y", "2", "b", 100)]).unwrap();
    let batch = || vec![new_row("p", "2", "c", 300), new_row("q", "1", "d", 300)];
    table.upsert(batch()).unwrap();
    let once = table.to_vec();
    table.upsert(batch()).unwrap();
    assert_eq!(table.to_vec(), once);
    assert_eq!(once[0].data, "d");
    assert_eq!(once[1].data, "c");
}

#[test]
fn batch_that_names_a_key_twice_is_refused_as_a_whole() {
    let mut table = WarehouseTable::new();
    table.upsert(vec![new_row("x", "1", "a", 100)]).unwrap();
    let before = table.to_vec();

    let twice = vec![new_row("p", "2", "b", 200), new_row("q", "3", "c", 200), new_row("r", "2", "d", 200)];
    assert!(WarehouseTable::repeats_key(&twice));
    assert_eq!(table.upsert(twice), Err(UpsertError::KeyTwice));
    assert_eq!(table.to_vec(), before);

    let once = vec![new_row("p", "2", "b", 200), new_row("q", "1", "c", 200)];
    assert!(!WarehouseTable::repeats_key(&once));
    assert!(!WarehouseTable::repeats_key(&Vec::new()));
    assert_eq!(table.upsert(once), Ok(()));
    assert_eq!(table.len(), 2);
    assert_eq!(table.find("1").unwrap().data, "c");
}

#[test]
fn rows_written_one_after_the_other_leave_the_latest_data() {
    let mut table = WarehouseTable::new();
    table.upsert_one(new_row("x", "1", "a", 100));
    table.upsert_one(new_row("y", "1", "b", 100));
    let rows = table.to_vec();
    assert_eq!(rows.len(), 1);
    assert_eq!(rows[0].id, "x");
    assert_eq!(rows[0].data, "b");
    assert_eq!(rows[0].updated_at, Some(100));
}

#[test]
fn handler_surfaces_a_batch_that_the_table_refuses() {
    let mut records: Vec<Record> =
        (0..1200).map(|i| text_record(&format!("k{i:05}"), "v")).collect();
    records[1100].key = BusinessKey::Text("k01005".to_owned());
    let mut blobs: BlobStore<Vec<Record>> = BlobStore::new();
    blobs.write("import-data/twice.tid".to_owned(), records);

    let out = project_into(&imported("import-data/twice.tid", "tenant", 9), &blobs, None);

    assert_eq!(
        out.result,
        Err(HandlerError {
            code: "sqlx::Error".to_owned(),
            reason: "a key occurs twice in one batch".to_owned(),
        })
    );
    assert_eq!(out.published.len(), 1);
    assert_eq!(out.tenant.unwrap().table.len(), 1000);
}

#[test]
fn same_key_in_two_batches_is_written_twice() {
    let mut records: Vec<Record> =
        (0..1200).map(|i| text_record(&format!("k{i:05}"), "v")).collect();
    records[1100] = text_record("k00005", "w");
    let mut blobs: BlobStore<Vec<Record>> = BlobStore::new();
    blobs.write("import-data/two.tid".to_owned(), records);

    let out = project_into(&imported("import-data/two.tid", "tenant", 9), &blobs, None);

    assert_eq!(out.result, Ok(()));
    assert_eq!(out.published.len(), 2);
    let table = out.tenant.unwrap().table;
    assert_eq!(table.len(), 1199);
    let row = table.find("k00005").unwrap();
    assert_eq!(row.updated_at, Some(9));
    assert!(row.data.contains("w"));
}

#[test]
fn find_by_keys_returns_rows_in_table_order() {
    let mut table = WarehouseTable::new();
    table.upsert(vec![
        new_row("a", "1", "x", 100),
        new_row("b", "2", "y", 100),
        new_row("c", "3", "z", 100),
    ]).unwrap();
    let found = table.find_by_keys(&vec!["3".to_owned(), "1".to_owned(), "9".to_owned()]);
    assert_eq!(found.iter().map(|r| r.key.as_str()).collect::<Vec<_>>(), vec!["1", "3"]);
    assert!(table.find_by_keys(&vec![]).is_empty());
}

#[test]
fn batches_hold_a_thousand_records() {
    assert_eq!(BATCH_SIZE, 1000);
    assert_eq!(end_of_batch(0, 0), 0);
    assert_eq!(end_of_batch(1, 0), 1);
    assert_eq!(end_of_batch(1000, 0), 1000);
    assert_eq!(end_of_batch(1001, 0), 1000);
    assert_eq!(end_of_batch(1001, 1000), 1001);
    assert_eq!(end_of_batch(2500, 1000), 2000);
    assert_eq!(end_of_batch(2500, 2000), 2500);
}

#[test]
fn build_rows_copies_key_data_and_time() {
    let records = vec![
        text_record("a", "1"),
        Record { key: BusinessKey::Number("42".to_owned()), data: "{\"_id\":42}".to_owned() },
        text_record("c", "3"),
    ];
    let rows = build_rows(&records, 1, 3, 777).unwrap();
    assert_eq!(rows.len(), 2);
    assert_eq!(rows[0].key, "42");
    assert_eq!(rows[0].data, "{\"_id\":42}");
    assert_eq!(rows[0].created_at, 777);
    assert_eq!(rows[0].id.len(), 21);
    assert_eq!(rows[1].key, "c");
    assert_ne!(rows[0].id, rows[1].id);
}

#[test]
fn build_rows_fails_on_any_record_without_key() {
    let records = vec![
        text_record("a", "1"),
        text_record("b", "2"),
        Record { key: BusinessKey::Missing, data: "{}".to_owned() },
    ];
    assert_eq!(
        build_rows(&records, 0, 3, 1),
        Err(HandlerError {
            code: "warehouse-data.query_builder.push_values.id".to_owned(),
            reason: "missing field _id".to_owned(),
        })
    );
    assert!(build_rows(&records, 0, 2, 1).is_ok());
}

#[test]
fn usable_table_ids_are_short_and_alphanumeric() {
    assert!(is_usable_table_id(""));
    assert!(is_usable_table_id("Ab3"));
    assert!(is_usable_table_id("abcdefghijklmnopqrstu"));
    assert!(!is_usable_table_id("abcdefghijklmnopqrstuv"));
    assert!(!is_usable_table_id("a-b"));
    assert!(!is_usable_table_id("a_b"));
    assert!(!is_usable_table_id("a b"));
    assert!(!is_usable_table_id("é"));
    assert!(is_usable_table_id(&new_table_id()));
}

#[test]
fn table_ids_hold_only_letters_and_digits() {
    assert_eq!(table_id_from("V1StGXR8_Z5jdHi6B-myT"), "V1StGXR8Z5jdHi6BmyT");
    assert_eq!(table_id_from("-_-_"), "");
    for _ in 0..50 {
        let id = new_table_id();
        assert!(id.len() <= 21);
        assert!(id.chars().all(|c| c.is_ascii_alphanumeric()));
    }
    assert_eq!(table_name("abc"), "warehouse_data_abc");
    assert_eq!(topic("abc"), "warehouses/abc");
}

#[test]
fn statements_name_the_tenant_table() {
    assert_eq!(sql::find_table(), "SELECT id FROM warehouses WHERE user_id = $1");
    assert_eq!(
        sql::insert_warehouse(),
        "INSERT INTO warehouses (id, user_id, created_at) VALUES ($1, $2, $3)"
    );
    assert_eq!(
        sql::create_table("t1"),
        "CREATE TABLE warehouse_data_t1 (id VARCHAR(21) NOT NULL PRIMARY KEY, key VARCHAR(50) NOT NULL, data json NOT NULL, created_at timestamptz NOT NULL, updated_at timestamptz NULL)"
    );
    assert_eq!(sql::create_index("t1"), "CREATE UNIQUE INDEX ON warehouse_data_t1 (key)");
    assert_eq!(
        sql::insert_rows("t1"),
        "INSERT INTO warehouse_data_t1 (id, key, data, created_at) "
    );
    assert_eq!(
        sql::on_conflict(),
        " ON CONFLICT (key) DO UPDATE SET data = EXCLUDED.data, updated_at = EXCLUDED.created_at"
    );
    assert_eq!(sql::read_back("t1"), "SELECT * FROM warehouse_data_t1 WHERE key = ANY($1)");
}

#[test]
fn subscriber_listens_to_warehouse_streams() {
    let subscriber = warehouse_data();
    assert_eq!(subscriber.key, "warehouse-data");
    assert_eq!(subscriber.filter, "warehouse/#");
}

#[test]
fn handler_provisions_a_table_for_a_new_tenant() {
    let event = imported("import-data/a.tid", "tenant", 500);
    let (saga, action) = ProjectionSaga::start(&event);
    assert_eq!(action, ProjectionAction::ReadBlob { path: "import-data/a.tid".to_owned() });
    let (saga, action) = saga.step(ProjectionReply::Blob(vec![text_record("1", "a")]));
    assert_eq!(action, ProjectionAction::FindTable { user_id: "tenant".to_owned() });
    let (saga, action) = saga.step(ProjectionReply::Table(None));
    assert_eq!(saga.phase, ProjectionPhase::AwaitProvision);
    match &action {
        ProjectionAction::Provision { warehouse } => {
            assert_eq!(warehouse.id, saga.table_id);
            assert_eq!(warehouse.user_id, "tenant");
            assert_eq!(warehouse.created_at, 500);
            assert!(warehouse.id.chars().all(|c| c.is_ascii_alphanumeric()));
        }
        other => panic!("unexpected action {other:?}"),
    }
    let table_id = saga.table_id.clone();
    let (saga, action) = saga.step(ProjectionReply::Provisioned);
    match &action {
        ProjectionAction::Upsert { table_id: to, rows } => {
            assert_eq!(to, &table_id);
            assert_eq!(rows.len(), 1);
            assert_eq!(rows[0].key, "1");
            assert_eq!(rows[0].created_at, 500);
        }
        other => panic!("unexpected action {other:?}"),
    }
    let (saga, action) = saga.step(ProjectionReply::Upserted);
    assert_eq!(
        action,
        ProjectionAction::ReadBack { table_id: table_id.clone(), keys: vec!["1".to_owned()] }
    );
    let row = WarehouseData {
        id: "row".to_owned(),
        key: "1".to_owned(),
        data: "{\"v\":\"a\"}".to_owned(),
        created_at: 500,
        updated_at: None,
    };
    let (saga, action) = saga.step(ProjectionReply::Rows(vec![row.clone()]));
    match action {
        ProjectionAction::Publish(notification) => {
            assert_eq!(notification.user_id, "tenant");
            assert_eq!(notification.topic, format!("warehouses/{table_id}"));
            assert_eq!(notification.name, "data-imported");
            assert_eq!(notification.data, vec![row]);
        }
        other => panic!("unexpected action {other:?}"),
    }
    let (saga, action) = saga.step(ProjectionReply::Published);
    assert_eq!(action, ProjectionAction::Done(Ok(())));
    assert!(saga.is_finished());
}

#[test]
fn handler_failed_provisioning_is_surfaced() {
    let event = imported("import-data/a.tid", "tenant", 500);
    let (saga, _) = ProjectionSaga::start(&event);
    let (saga, _) = saga.step(ProjectionReply::Blob(vec![text_record("1", "a")]));
    let (saga, _) = saga.step(ProjectionReply::Table(None));
    let (saga, action) = saga.step(ProjectionReply::Failed("relation exists".to_owned()));
    assert!(saga.is_finished());
    assert_eq!(
        action,
        ProjectionAction::Done(Err(HandlerError {
            code: "sqlx::Error".to_owned(),
            reason: "relation exists".to_owned(),
        }))
    );
}

#[test]
fn handler_read_failure_is_surfaced() {
    let event = imported("import-data/a.tid", "tenant", 500);
    let (saga, _) = ProjectionSaga::start(&event);
    let (_, action) = saga.step(ProjectionReply::Failed("not found".to_owned()));
    assert_eq!(
        action,
        ProjectionAction::Done(Err(HandlerError {
            code: "warehouse-data.read_import_data".to_owned(),
            reason: "not found".to_owned(),
        }))
    );
}

#[test]
fn handler_rejects_unknown_event_names() {
    let mut event = imported("import-data/a.tid", "tenant", 500);
    event.name = "data-exported".to_owned();
    let (saga, action) = ProjectionSaga::start(&event);
    assert!(saga.is_finished());
    assert_eq!(
        action,
        ProjectionAction::Done(Err(HandlerError {
            code: "warehouse-data.event_name".to_owned(),
            reason: "data-exported".to_owned(),
        }))
    );
}

#[test]
fn handler_uses_the_existing_table() {
    let event = imported("import-data/a.tid", "tenant", 500);
    let (saga, _) = ProjectionSaga::start(&event);
    let (saga, _) = saga.step(ProjectionReply::Blob(vec![]));
    let (saga, action) = saga.step(ProjectionReply::Table(Some("known".to_owned())));
    assert_eq!(action, ProjectionAction::Done(Ok(())));
    assert_eq!(saga.table_id, "known");
}

#[test]
fn large_import_is_written_in_batches_of_a_thousand() {
    let records: Vec<Record> = (0..2500).map(|i| text_record(&format!("k{i:05}"), "v")).collect();
    let mut blobs: BlobStore<Vec<Record>> = BlobStore::new();
    blobs.write("import-data/big.tid".to_owned(), records);
    let out = project_into(&imported("import-data/big.tid", "tenant", 9), &blobs, None);
    assert_eq!(out.result, Ok(()));
    assert_eq!(out.published.len(), 3);
    assert_eq!(out.published[0].data.len(), 1000);
    assert_eq!(out.published[1].data.len(), 1000);
    assert_eq!(out.published[2].data.len(), 500);
    let tenant = out.tenant.unwrap();
    assert_eq!(tenant.table.len(), 2500);
    assert_eq!(out.published[0].topic, format!("warehouses/{}", tenant.warehouse.id));
    assert_eq!(tenant.warehouse.user_id, "tenant");
    assert_eq!(tenant.warehouse.created_at, 9);
}

#[test]
fn batch_with_a_bad_record_is_not_written_but_earlier_batches_stay() {
    let mut records: Vec<Record> =
        (0..2500).map(|i| text_record(&format!("k{i:05}"), "v")).collect();
    records[1500].key = BusinessKey::Missing;
    let mut blobs: BlobStore<Vec<Record>> = BlobStore::new();
    blobs.write("import-data/big.tid".to_owned(), records);
    let out = project_into(&imported("import-data/big.tid", "tenant", 9), &blobs, None);
    assert_eq!(
        out.result,
        Err(HandlerError {
            code: "warehouse-data.query_builder.push_values.id".to_owned(),
            reason: "missing field _id".to_owned(),
        })
    );
    assert_eq!(out.published.len(), 1);
    assert_eq!(out.tenant.unwrap().table.len(), 1000);
}

#[test]
fn missing_blob_fails_and_changes_nothing() {
    let blobs: BlobStore<Vec<Record>> = BlobStore::new();
    let mut table = WarehouseTable::new();
    table.upsert_one(new_row("a", "1", "x", 1));
    let tenant = TenantTable {
        warehouse: Warehouse { id: "t".to_owned(), user_id: "tenant".to_owned(), created_at: 1 },
        table,
    };
    let out = project_into(&imported("import-data/gone.tid", "tenant", 9), &blobs, Some(tenant));
    assert_eq!(
        out.result,
        Err(HandlerError {
            code: "warehouse-data.read_import_data".to_owned(),
            reason: "blob not found".to_owned(),
        })
    );
    assert!(out.published.is_empty());
    let tenant = out.tenant.unwrap();
    assert_eq!(tenant.warehouse.id, "t");
    assert_eq!(tenant.table.len(), 1);
}

#[test]
fn replaying_an_event_yields_the_same_rows() {
    let mut blobs: BlobStore<Vec<Record>> = BlobStore::new();
    blobs.write(
        "import-data/a.tid".to_owned(),
        vec![text_record("1", "a"), text_record("2", "b")],
    );
    let event = imported("import-data/a.tid", "tenant", 40);
    let first = project_into(&event, &blobs, None);
    let once = first.tenant.as_ref().unwrap().table.to_vec();
    let second = project_into(&event, &blobs, first.tenant);
    let twice = second.tenant.as_ref().unwrap().table.to_vec();
    let third = project_into(&event, &blobs, second.tenant);
    let thrice = third.tenant.as_ref().unwrap().table.to_vec();

    assert_eq!(once.len(), 2);
    assert_eq!(twice.len(), 2);
    assert_eq!(
        once.iter().map(|r| (&r.id, &r.key, &r.data, r.created_at)).collect::<Vec<_>>(),
        twice.iter().map(|r| (&r.id, &r.key, &r.data, r.created_at)).collect::<Vec<_>>()
    );
    assert_eq!(twice, thrice);
}

#[test]
fn handler_stops_on_a_reply_that_answers_nothing() {
    let event = imported("import-data/a.tid", "tenant", 500);
    let (saga, _) = ProjectionSaga::start(&event);
    let (saga, action) = saga.step(ProjectionReply::Published);
    assert!(saga.is_finished());
    assert_eq!(
        action,
        ProjectionAction::Done(Err(HandlerError {
            code: "warehouse-data.unexpected_reply".to_owned(),
            reason: "unexpected reply".to_owned(),
        }))
    );
    let (_, action) = saga.step(ProjectionReply::Upserted);
    assert!(matches!(action, ProjectionAction::Done(Err(_))));
}

#[test]
fn handler_failed_publish_is_surfaced_with_its_reason() {
    let event = imported("import-data/a.tid", "tenant", 500);
    let (saga, _) = ProjectionSaga::start(&event);
    let (saga, _) = saga.step(ProjectionReply::Blob(vec![text_record("1", "a")]));
    let (saga, _) = saga.step(ProjectionReply::Table(Some("t1".to_owned())));
    let (saga, _) = saga.step(ProjectionReply::Upserted);
    let (saga, action) = saga.step(ProjectionReply::Rows(Vec::new()));
    assert!(matches!(action, ProjectionAction::Publish(_)));
    let (saga, action) = saga.step(ProjectionReply::Failed("key must be a string".to_owned()));
    assert!(saga.is_finished());
    assert_eq!(
        action,
        ProjectionAction::Done(Err(HandlerError {
            code: "serde_json::Error".to_owned(),
            reason: "key must be a string".to_owned(),
        }))
    );
}
