use cobase::command::CommandInput;
use cobase::error::Error;
use cobase::event::{AppendError, Event, EventStream, HandlerError};
use cobase::storage::BlobStore;
use cobase::warehouse::aggregate::Warehouse;
use cobase::warehouse::command::{
    first_invalid_index, key_field, validate, BusinessKey, ImportAction, ImportDataCommand,
    ImportPhase, ImportReply, ImportSaga, Record,
};
use cobase::warehouse::event::DataImported;
use cobase::warehouse::memory::{import, import_into, ImportDraw, Tenants};
use cobase::warehouse::projection::WarehouseData;
use cobase::query::QueryArgs;
use cobase::warehouse::query::ListWarehouseDataQuery;

fn person(id: Option<i64>, email: &str, first_name: &str, last_name: &str) -> Record {
    let mut fields = serde_json::Map::new();
    if let Some(id) = id {
        fields.insert("_id".to_owned(), serde_json::Value::from(id));
    }
    fields.insert("email".to_owned(), serde_json::Value::from(email));
    fields.insert("first_name".to_owned(), serde_json::Value::from(first_name));
    fields.insert("last_name".to_owned(), serde_json::Value::from(last_name));
    record_of(&serde_json::Value::Object(fields))
}

fn record_of(value: &serde_json::Value) -> Record {
    let key = match value.get(key_field()) {
        None => BusinessKey::Missing,
        Some(serde_json::Value::String(text)) => BusinessKey::Text(text.clone()),
        Some(serde_json::Value::Number(number)) => BusinessKey::Number(number.to_string()),
        Some(_) => BusinessKey::Other,
    };
    Record { key, data: value.to_string() }
}

fn input(user: &str, data: Vec<Record>) -> CommandInput<ImportDataCommand> {
    CommandInput::new(user.to_owned(), ImportDataCommand { data })
}

struct Tenant {
    user_id: String,
    stream: EventStream<DataImported>,
    delivered: usize,
}

struct World {
    blobs: BlobStore<Vec<Record>>,
    tenants: Vec<Tenant>,
    tables: Tenants,
    clock: u64,
}

fn new_world() -> World {
    World {
        blobs: BlobStore::new(),
        tenants: Vec::new(),
        tables: Tenants::new(),
        clock: 1_679_799_428_590_084,
    }
}

fn tenant_of(world: &mut World, user: &str) -> usize {
    if let Some(at) = world.tenants.iter().position(|t| t.user_id == user) {
        return at;
    }
    world.tenants.push(Tenant {
        user_id: user.to_owned(),
        stream: EventStream::new("warehouse".to_owned(), user.to_owned()),
        delivered: 0,
    });
    world.tenants.len() - 1
}

fn send(world: &mut World, user: &str, data: Vec<Record>) -> Result<String, Error> {
    let at = tenant_of(world, user);
    world.clock += 1_000_000;
    let now = world.clock;
    let tenant = &mut world.tenants[at];
    import(&input(user, data), now, &mut world.blobs, &mut tenant.stream)
}

fn deliver_all(world: &mut World, user: &str) {
    let at = tenant_of(world, user);
    let tenant = &mut world.tenants[at];
    while tenant.delivered < tenant.stream.len() {
        let event: Event<DataImported> = tenant.stream.get(tenant.delivered).clone();
        let (_, result) = world.tables.project(&event, &world.blobs);
        result.unwrap();
        tenant.delivered += 1;
    }
}

fn rows_of(world: &mut World, user: &str) -> Vec<WarehouseData> {
    let query =
        ListWarehouseDataQuery { user_id: user.to_owned(), query_args: QueryArgs::default() };
    let page = world.tables.list(&query).unwrap();
    page.edges.into_iter().map(|edge| edge.node).collect()
}

fn stored_batch(world: &mut World, user: &str, index: usize) -> Vec<Record> {
    let at = tenant_of(world, user);
    let (warehouse, _) = Warehouse::load(&world.tenants[at].stream).unwrap();
    world.blobs.read(&warehouse.storage_paths[index]).unwrap().clone()
}

#[test]
fn fail_missing_id_import_data_to_warehouse() {
    let mut world = new_world();
    let err = send(
        &mut world,
        "user-1",
        vec![
            person(Some(1), "john.doe@timada.co", "john", "doe"),
            person(None, "albert.dupont@timada.co", "albert", "not my last name"),
            person(Some(3), "lennie.rice@timada.co", "lennie", "rice"),
        ],
    )
    .unwrap_err();

    assert_eq!(
        err,
        Error::BadRequest("Missing field _id or not (string | number) at index 1".to_owned())
    );
}

#[test]
fn success_import_data_to_warehouse() {
    let mut world = new_world();
    let user_1 = "4d8e3a9f-5d0c-4c0e-9a57-0c6d3f6f0b11";
    let user_2 = "a18aac51-6262-4576-8883-7fda0ca72aac";

    let data_0 = vec![
        person(Some(1), "john.doe@timada.co", "john", "doe"),
        person(Some(2), "albert.dupont@timada.co", "albert", "not my last name"),
    ];

    send(&mut world, user_1, data_0.clone()).unwrap();

    assert_eq!(stored_batch(&mut world, user_1, 0), data_0);

    deliver_all(&mut world, user_1);
    let warehouse_datas = rows_of(&mut world, user_1);

    assert_eq!(
        warehouse_datas,
        vec![
            WarehouseData {
                id: warehouse_datas[0].id.to_owned(),
                key: "1".to_owned(),
                data: data_0[0].data.clone(),
                created_at: warehouse_datas[0].created_at.to_owned(),
                updated_at: warehouse_datas[0].updated_at.to_owned(),
            },
            WarehouseData {
                id: warehouse_datas[1].id.to_owned(),
                key: "2".to_owned(),
                data: data_0[1].data.clone(),
                created_at: warehouse_datas[1].created_at.to_owned(),
                updated_at: warehouse_datas[1].updated_at.to_owned(),
            }
        ]
    );

    assert!(warehouse_datas[0].updated_at.is_none());
    assert!(warehouse_datas[1].updated_at.is_none());

    let data_1 = vec![
        person(Some(2), "albert.dupont@timada.co", "albert", "dupont"),
        person(Some(3), "lennie.rice@timada.co", "lennie", "rice"),
    ];

    send(&mut world, user_1, data_1.clone()).unwrap();

    assert_eq!(stored_batch(&mut world, user_1, 0), data_0);
    assert_eq!(stored_batch(&mut world, user_1, 1), data_1);

    deliver_all(&mut world, user_1);
    let warehouse_datas = rows_of(&mut world, user_1);

    assert_eq!(
        warehouse_datas,
        vec![
            WarehouseData {
                id: warehouse_datas[0].id.to_owned(),
                key: "1".to_owned(),
                data: data_0[0].data.clone(),
                created_at: warehouse_datas[0].created_at.to_owned(),
                updated_at: warehouse_datas[0].updated_at.to_owned(),
            },
            WarehouseData {
                id: warehouse_datas[1].id.to_owned(),
                key: "2".to_owned(),
                data: data_1[0].data.clone(),
                created_at: warehouse_datas[1].created_at.to_owned(),
                updated_at: warehouse_datas[1].updated_at.to_owned(),
            },
            WarehouseData {
                id: warehouse_datas[2].id.to_owned(),
                key: "3".to_owned(),
                data: data_1[1].data.clone(),
                created_at: warehouse_datas[2].created_at.to_owned(),
                updated_at: warehouse_datas[2].updated_at.to_owned(),
            }
        ]
    );

    assert!(warehouse_datas[0].updated_at.is_none());
    assert!(warehouse_datas[1].updated_at.is_some());
    assert!(warehouse_datas[2].updated_at.is_none());

    let data_0 = vec![
        person(Some(1), "john.doe@gmail.com", "john", "doe"),
        person(Some(2), "albert.dupont@gmail.com", "albert", "dupont"),
    ];

    send(&mut world, user_2, data_0.clone()).unwrap();

    assert_eq!(stored_batch(&mut world, user_2, 0), data_0);

    deliver_all(&mut world, user_2);
    let warehouse_datas = rows_of(&mut world, user_2);

    assert_eq!(
        warehouse_datas,
        vec![
            WarehouseData {
                id: warehouse_datas[0].id.to_owned(),
                key: "1".to_owned(),
                data: data_0[0].data.clone(),
                created_at: warehouse_datas[0].created_at.to_owned(),
                updated_at: warehouse_datas[0].updated_at.to_owned(),
            },
            WarehouseData {
                id: warehouse_datas[1].id.to_owned(),
                key: "2".to_owned(),
                data: data_0[1].data.clone(),
                created_at: warehouse_datas[1].created_at.to_owned(),
                updated_at: warehouse_datas[1].updated_at.to_owned(),
            },
        ]
    );
}

#[test]
fn first_import_gives_version_one_and_one_path() {
    let mut world = new_world();
    let id = send(
        &mut world,
        "tenant",
        vec![
            record_of(&pair("1", "a")),
            record_of(&pair("2", "b")),
        ],
    )
    .unwrap();
    assert_eq!(id, "tenant");

    let at = tenant_of(&mut world, "tenant");
    let (warehouse, version) = Warehouse::load(&world.tenants[at].stream).unwrap();
    assert_eq!(version, 1);
    assert_eq!(warehouse.storage_paths.len(), 1);
    assert!(world.blobs.is_exist(&warehouse.storage_paths[0]));

    deliver_all(&mut world, "tenant");
    let rows = rows_of(&mut world, "tenant");
    assert_eq!(rows.len(), 2);
    assert!(rows.iter().all(|row| row.updated_at.is_none()));
}

fn pair(key: &str, v: &str) -> serde_json::Value {
    let mut fields = serde_json::Map::new();
    fields.insert("_id".to_owned(), serde_json::Value::from(key));
    fields.insert("v".to_owned(), serde_json::Value::from(v));
    serde_json::Value::Object(fields)
}

#[test]
fn second_import_overwrites_and_inserts() {
    let mut world = new_world();
    send(&mut world, "tenant", vec![record_of(&pair("1", "a")), record_of(&pair("2", "b"))])
        .unwrap();
    deliver_all(&mut world, "tenant");
    let first_time = rows_of(&mut world, "tenant")[0].created_at;

    send(&mut world, "tenant", vec![record_of(&pair("2", "c")), record_of(&pair("3", "d"))])
        .unwrap();
    deliver_all(&mut world, "tenant");

    let at = tenant_of(&mut world, "tenant");
    let (warehouse, version) = Warehouse::load(&world.tenants[at].stream).unwrap();
    assert_eq!(version, 2);
    assert_eq!(warehouse.storage_paths.len(), 2);
    assert_ne!(warehouse.storage_paths[0], warehouse.storage_paths[1]);

    let rows = rows_of(&mut world, "tenant");
    assert_eq!(rows.len(), 3);
    assert_eq!(rows[0].key, "1");
    assert_eq!(rows[0].updated_at, None);
    assert_eq!(rows[0].data, pair("1", "a").to_string());
    assert_eq!(rows[1].key, "2");
    assert_eq!(rows[1].created_at, first_time);
    assert_eq!(rows[1].updated_at, Some(first_time + 1_000_000));
    assert_eq!(rows[1].data, pair("2", "c").to_string());
    assert_eq!(rows[2].key, "3");
    assert_eq!(rows[2].created_at, first_time + 1_000_000);
    assert_eq!(rows[2].updated_at, None);
    assert_eq!(rows[2].data, pair("3", "d").to_string());
}

#[test]
fn every_successful_import_adds_one_version_and_one_path() {
    let mut world = new_world();
    for round in 0..5u64 {
        let at = tenant_of(&mut world, "tenant");
        let before = Warehouse::load(&world.tenants[at].stream).unwrap();
        send(&mut world, "tenant", vec![record_of(&pair("k", "v"))]).unwrap();
        let after = Warehouse::load(&world.tenants[at].stream).unwrap();
        assert_eq!(before.1, round);
        assert_eq!(after.1, round + 1);
        assert_eq!(after.0.storage_paths.len(), before.0.storage_paths.len() + 1);
        assert_eq!(
            &after.0.storage_paths[..before.0.storage_paths.len()],
            &before.0.storage_paths[..]
        );
        let path = after.0.storage_paths.last().unwrap();
        assert!(path.starts_with("import-data/"));
        assert!(path.ends_with(".tid"));
        assert_eq!(path.len(), 12 + 21 + 4);
        assert!(world.blobs.is_exist(path));
    }
}

#[test]
fn rejected_batch_leaves_no_blob_and_no_event() {
    let mut blobs: BlobStore<Vec<Record>> = BlobStore::new();
    let mut stream: EventStream<DataImported> = EventStream::new("warehouse".to_owned(), "tenant".to_owned());
    let bad = vec![
        record_of(&pair("1", "a")),
        Record { key: BusinessKey::Other, data: "{\"_id\":null}".to_owned() },
        Record { key: BusinessKey::Missing, data: "{}".to_owned() },
    ];
    let draw = ImportDraw {
        request_id: "r".to_owned(),
        storage_path: "import-data/x.tid".to_owned(),
        event_id: "e".to_owned(),
        now: 5,
    };
    let err = import_into(&input("tenant", bad), draw, &mut blobs, &mut stream).unwrap_err();
    assert_eq!(
        err,
        Error::BadRequest("Missing field _id or not (string | number) at index 1".to_owned())
    );
    assert_eq!(stream.len(), 0);
    assert!(!blobs.is_exist("import-data/x.tid"));
}

#[test]
fn rejection_names_the_first_offending_index() {
    let good = || record_of(&pair("1", "a"));
    let bad = || Record { key: BusinessKey::Missing, data: "{}".to_owned() };
    assert_eq!(first_invalid_index(&vec![]), None);
    assert_eq!(first_invalid_index(&vec![good(), good()]), None);
    assert_eq!(first_invalid_index(&vec![bad(), good()]), Some(0));
    assert_eq!(first_invalid_index(&vec![good(), bad(), bad()]), Some(1));
    let mut many: Vec<Record> = (0..12).map(|_| good()).collect();
    many.push(bad());
    assert_eq!(
        validate(&many),
        Err(Error::BadRequest("Missing field _id or not (string | number) at index 12".to_owned()))
    );
    assert_eq!(validate(&vec![good()]), Ok(()));
}

#[test]
fn number_and_string_keys_are_usable_and_nothing_else() {
    assert_eq!(key_field(), "_id");
    assert!(BusinessKey::Text("a".to_owned()).is_usable());
    assert!(BusinessKey::Number("1".to_owned()).is_usable());
    assert!(!BusinessKey::Missing.is_usable());
    assert!(!BusinessKey::Other.is_usable());
    assert_eq!(BusinessKey::Number("1.5".to_owned()).to_text(), Some("1.5".to_owned()));
    assert_eq!(BusinessKey::Other.to_text(), None);
}

#[test]
fn taken_path_is_an_internal_error() {
    let mut blobs: BlobStore<Vec<Record>> = BlobStore::new();
    blobs.write("import-data/x.tid".to_owned(), vec![]);
    let mut stream: EventStream<DataImported> = EventStream::new("warehouse".to_owned(), "tenant".to_owned());
    let draw = ImportDraw {
        request_id: "r".to_owned(),
        storage_path: "import-data/x.tid".to_owned(),
        event_id: "e".to_owned(),
        now: 5,
    };
    let data = vec![record_of(&pair("1", "a"))];
    let err = import_into(&input("tenant", data), draw, &mut blobs, &mut stream).unwrap_err();
    assert_eq!(err, Error::InternalServerErr("Import data kv already exist".to_owned()));
    assert_eq!(err.message(), "internal server error");
    assert_eq!(stream.len(), 0);
    assert_eq!(blobs.read("import-data/x.tid"), Some(&vec![]));
}

fn drive_to_append(user: &str, path: &str, version: u64) -> (ImportSaga, ImportAction) {
    let data = vec![record_of(&pair("1", "a"))];
    let (saga, action) =
        ImportSaga::start(user.to_owned(), &data, "request".to_owned(), path.to_owned());
    assert_eq!(action, ImportAction::LoadVersion { aggregate_id: user.to_owned() });
    let (saga, action) = saga.step(ImportReply::Version(version));
    assert_eq!(action, ImportAction::CheckBlob { path: path.to_owned() });
    let (saga, action) = saga.step(ImportReply::Exists(false));
    assert_eq!(action, ImportAction::WriteBlob { path: path.to_owned() });
    saga.step(ImportReply::Written)
}

#[test]
fn concurrent_imports_one_wins_and_the_loser_cleans_up() {
    let mut blobs: BlobStore<Vec<Record>> = BlobStore::new();
    let mut stream: EventStream<DataImported> = EventStream::new("warehouse".to_owned(), "tenant".to_owned());
    let data = vec![record_of(&pair("1", "a"))];

    let (first, first_action) = drive_to_append("tenant", "import-data/first.tid", stream.version());
    blobs.write("import-data/first.tid".to_owned(), data.clone());
    let (second, second_action) =
        drive_to_append("tenant", "import-data/second.tid", stream.version());
    blobs.write("import-data/second.tid".to_owned(), data.clone());

    let mut replies = Vec::new();
    for (n, action) in [first_action, second_action].into_iter().enumerate() {
        match action {
            ImportAction::Append { aggregate_id, event, expected_version } => {
                assert_eq!(aggregate_id, "tenant");
                assert_eq!(expected_version, 0);
                assert_eq!(event.name, "data-imported");
                let stored = event.into_event(format!("event-{n}"), 10 + n as u64);
                replies.push(match stream.append(vec![stored], expected_version) {
                    Ok(()) => ImportReply::Appended,
                    Err(AppendError::VersionConflict) => ImportReply::Conflict,
                });
            }
            other => panic!("unexpected action {other:?}"),
        }
    }
    assert_eq!(replies, vec![ImportReply::Appended, ImportReply::Conflict]);

    let (first, action) = first.step(replies.remove(0));
    assert_eq!(action, ImportAction::Done(Ok("tenant".to_owned())));
    assert!(first.is_finished());

    let (second, action) = second.step(replies.remove(0));
    assert_eq!(action, ImportAction::DeleteBlob { path: "import-data/second.tid".to_owned() });
    assert_eq!(second.phase, ImportPhase::AwaitDelete);
    blobs.delete("import-data/second.tid");
    let (second, action) = second.step(ImportReply::Deleted);
    assert_eq!(action, ImportAction::Done(Err(Error::VersionConflict)));
    assert!(second.is_finished());

    assert!(!blobs.is_exist("import-data/second.tid"));
    assert!(blobs.is_exist("import-data/first.tid"));
    assert_eq!(stream.version(), 1);
    let (warehouse, version) = Warehouse::load(&stream).unwrap();
    assert_eq!(version, 1);
    assert_eq!(warehouse.storage_paths, vec!["import-data/first.tid".to_owned()]);
}

#[test]
fn failed_cleanup_does_not_replace_the_append_error() {
    let (saga, _) = drive_to_append("tenant", "import-data/p.tid", 3);
    let (saga, action) = saga.step(ImportReply::Failed("log unavailable".to_owned()));
    assert_eq!(action, ImportAction::DeleteBlob { path: "import-data/p.tid".to_owned() });
    let (saga, action) = saga.step(ImportReply::Failed("disk gone".to_owned()));
    assert_eq!(
        action,
        ImportAction::Done(Err(Error::InternalServerErr("log unavailable".to_owned())))
    );
    assert_eq!(saga.cleanup_failure, Some("disk gone".to_owned()));
    assert_eq!(saga.phase, ImportPhase::Finished);
}

#[test]
fn failures_before_the_append_end_the_import_without_cleanup() {
    let data = vec![record_of(&pair("1", "a"))];
    let start = || {
        ImportSaga::start("tenant".to_owned(), &data, "request".to_owned(), "p".to_owned()).0
    };
    let (_, action) = start().step(ImportReply::Failed("no log".to_owned()));
    assert_eq!(action, ImportAction::Done(Err(Error::InternalServerErr("no log".to_owned()))));

    let (saga, _) = start().step(ImportReply::Version(0));
    let (_, action) = saga.step(ImportReply::Failed("no store".to_owned()));
    assert_eq!(action, ImportAction::Done(Err(Error::InternalServerErr("no store".to_owned()))));

    let (saga, _) = start().step(ImportReply::Version(0));
    let (saga, _) = saga.step(ImportReply::Exists(false));
    let (_, action) = saga.step(ImportReply::Failed("write failed".to_owned()));
    assert_eq!(
        action,
        ImportAction::Done(Err(Error::InternalServerErr("write failed".to_owned())))
    );

    let (_, action) = start().step(ImportReply::Written);
    assert_eq!(
        action,
        ImportAction::Done(Err(Error::InternalServerErr("unexpected reply".to_owned())))
    );
}

#[test]
fn import_event_carries_path_and_request_context() {
    let (saga, action) = drive_to_append("tenant", "import-data/p.tid", 7);
    match action {
        ImportAction::Append { aggregate_id, event, expected_version } => {
            assert_eq!(aggregate_id, "tenant");
            assert_eq!(expected_version, 7);
            assert_eq!(event.name, "data-imported");
            assert_eq!(event.data, DataImported { storage_path: "import-data/p.tid".to_owned() });
            assert_eq!(event.metadata.request_by, "tenant");
            assert_eq!(event.metadata.request_id, "request");
            assert_eq!(event, saga.event());
        }
        other => panic!("unexpected action {other:?}"),
    }
}

#[test]
fn begin_draws_fresh_path_and_request_id() {
    let one = input("tenant", vec![record_of(&pair("1", "a"))]);
    let (first, action) = ImportSaga::begin(&one);
    assert_eq!(action, ImportAction::LoadVersion { aggregate_id: "tenant".to_owned() });
    let (second, _) = ImportSaga::begin(&one);
    assert_ne!(first.storage_path, second.storage_path);
    assert_ne!(first.request_id, second.request_id);
    assert_eq!(first.request_id.len(), 36);
    assert_eq!(first.storage_path.len(), 37);

    let none = input("tenant", vec![Record { key: BusinessKey::Missing, data: "{}".to_owned() }]);
    let (saga, action) = ImportSaga::begin(&none);
    assert!(saga.is_finished());
    assert_eq!(
        action,
        ImportAction::Done(Err(Error::BadRequest(
            "Missing field _id or not (string | number) at index 0".to_owned()
        )))
    );
}

#[test]
fn tenants_do_not_see_each_others_rows() {
    let mut world = new_world();
    send(&mut world, "alice", vec![record_of(&pair("1", "a"))]).unwrap();
    deliver_all(&mut world, "alice");
    assert!(rows_of(&mut world, "bob").is_empty());
    let before = rows_of(&mut world, "alice");

    send(&mut world, "bob", vec![record_of(&pair("1", "z")), record_of(&pair("2", "y"))]).unwrap();
    deliver_all(&mut world, "bob");

    assert_eq!(rows_of(&mut world, "alice"), before);
    let rows = rows_of(&mut world, "bob");
    assert_eq!(rows.len(), 2);
    assert_eq!(rows[0].data, pair("1", "z").to_string());
    assert!(rows.iter().all(|row| row.updated_at.is_none()));
}

#[test]
fn every_tenant_gets_a_table_of_its_own() {
    let mut world = new_world();
    let mut topics = Vec::new();
    for user in ["alice", "bob", "carol"] {
        send(&mut world, user, vec![record_of(&pair("1", user))]).unwrap();
        let at = tenant_of(&mut world, user);
        let event: Event<DataImported> = world.tenants[at].stream.get(0).clone();
        let (published, result) = world.tables.project(&event, &world.blobs);
        assert_eq!(result, Ok(()));
        assert_eq!(published.len(), 1);
        assert_eq!(published[0].user_id, user);
        topics.push(published[0].topic.clone());
    }

    for (i, topic) in topics.iter().enumerate() {
        let id = topic.strip_prefix("warehouses/").unwrap();
        assert!(!id.is_empty() && id.len() <= 21);
        assert!(id.chars().all(|c| c.is_ascii_alphanumeric()));
        assert!(world.tables.has_table_id(id));
        assert!(topics.iter().skip(i + 1).all(|other| other != topic));
    }
    assert!(!world.tables.has_table_id("no-such-table"));

    send(&mut world, "alice", vec![record_of(&pair("2", "again"))]).unwrap();
    let event: Event<DataImported> = world.tenants[0].stream.get(1).clone();
    let (published, result) = world.tables.project(&event, &world.blobs);
    assert_eq!(result, Ok(()));
    assert_eq!(published[0].topic, topics[0]);
}

#[test]
fn import_into_an_empty_store_succeeds() {
    let mut blobs: BlobStore<Vec<Record>> = BlobStore::new();
    let mut stream: EventStream<DataImported> =
        EventStream::new("warehouse".to_owned(), "tenant".to_owned());
    let batch = vec![record_of(&pair("1", "a"))];

    let result = import(&input("tenant", batch.clone()), 42, &mut blobs, &mut stream);

    assert_eq!(result, Ok("tenant".to_owned()));
    assert_eq!(stream.version(), 1);
    let event = stream.get(0);
    assert_eq!(event.created_at, 42);
    assert_eq!(event.id.len(), 36);
    assert_eq!(blobs.paths(), vec![event.data.storage_path.clone()]);
    assert_eq!(blobs.read(&event.data.storage_path), Some(&batch));
}

fn stored_event(world: &mut World, user: &str, index: usize) -> Event<DataImported> {
    let at = tenant_of(world, user);
    world.tenants[at].stream.get(index).clone()
}

#[test]
fn table_identifier_of_another_tenant_is_refused() {
    let mut world = new_world();
    send(&mut world, "alice", vec![record_of(&pair("1", "a"))]).unwrap();
    send(&mut world, "bob", vec![record_of(&pair("1", "b"))]).unwrap();
    let for_alice = stored_event(&mut world, "alice", 0);
    let for_bob = stored_event(&mut world, "bob", 0);

    let (published, result) = world.tables.project_with(&for_alice, &world.blobs, "t1".to_owned());
    assert_eq!(result, Ok(()));
    assert_eq!(published[0].topic, "warehouses/t1");
    let alice_rows = rows_of(&mut world, "alice");

    let (published, result) = world.tables.project_with(&for_bob, &world.blobs, "t1".to_owned());
    assert_eq!(
        result,
        Err(HandlerError {
            code: "sqlx::Error".to_owned(),
            reason: "table identifier is taken".to_owned(),
        })
    );
    assert!(published.is_empty());
    assert!(rows_of(&mut world, "bob").is_empty());
    assert_eq!(rows_of(&mut world, "alice"), alice_rows);

    for unusable in ["t-2", "t_2", "t 2; DROP TABLE warehouses", "abcdefghijklmnopqrstuv"] {
        let (published, result) =
            world.tables.project_with(&for_bob, &world.blobs, unusable.to_owned());
        assert_eq!(
            result,
            Err(HandlerError {
                code: "sqlx::Error".to_owned(),
                reason: "table identifier is not usable".to_owned(),
            })
        );
        assert!(published.is_empty());
        assert!(rows_of(&mut world, "bob").is_empty());
    }

    let (published, result) = world.tables.project_with(&for_bob, &world.blobs, "t2".to_owned());
    assert_eq!(result, Ok(()));
    assert_eq!(published[0].topic, "warehouses/t2");
    assert_eq!(rows_of(&mut world, "bob").len(), 1);
    assert!(world.tables.has_table_id("t1"));
    assert!(world.tables.has_table_id("t2"));
}

#[test]
fn table_identifier_matters_only_where_a_table_is_created() {
    let mut world = new_world();
    send(&mut world, "alice", vec![record_of(&pair("1", "a"))]).unwrap();
    send(&mut world, "alice", vec![record_of(&pair("2", "b"))]).unwrap();
    send(&mut world, "bob", vec![record_of(&pair("1", "c"))]).unwrap();
    let first = stored_event(&mut world, "alice", 0);
    let second = stored_event(&mut world, "alice", 1);
    let mut lost = stored_event(&mut world, "bob", 0);
    lost.data.storage_path = "import-data/nowhere.tid".to_owned();

    let (_, result) = world.tables.project_with(&first, &world.blobs, "t1".to_owned());
    assert_eq!(result, Ok(()));

    let (published, result) = world.tables.project_with(&second, &world.blobs, "t1".to_owned());
    assert_eq!(result, Ok(()));
    assert_eq!(published[0].topic, "warehouses/t1");
    assert_eq!(rows_of(&mut world, "alice").len(), 2);

    let (published, result) = world.tables.project_with(&lost, &world.blobs, "t1".to_owned());
    assert_eq!(
        result,
        Err(HandlerError {
            code: "warehouse-data.read_import_data".to_owned(),
            reason: "blob not found".to_owned(),
        })
    );
    assert!(published.is_empty());
    assert!(rows_of(&mut world, "bob").is_empty());
}
