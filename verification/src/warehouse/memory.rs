//! The import pipeline run against in-memory stores: a blob store, the
//! tenant's stream and the tenant's table. Every action that the pipeline
//! asks for is performed at once and answered truthfully.

use vstd::prelude::*;
use vstd::string::StringExecFns;
use crate::command::CommandInput;
use crate::error::Error;
use crate::event::{Event, EventStream, HandlerError};
use crate::ident::{is_hyphenated_uuid, random_request_id};
use crate::storage::BlobStore;
use crate::text::same_text;
use crate::warehouse::aggregate::folded_paths;
use crate::warehouse::command::{
    duplicate_records, first_invalid, missing_key_message, path_taken_message, ImportAction,
    ImportDataCommand, ImportReply, ImportSaga, Record,
};
use crate::warehouse::event::{DataImported, WarehouseEvent};
use crate::warehouse::projection::{
    batch_end, batch_key_texts, batch_step, batch_usable, is_table_id,
    keys_of_batch_have_its_texts, missing_key_code, missing_key_reason,
    is_usable_table_id, new_table_id, rejects_with, rows_of_batch, spec_topic, NewRow,
    Notification,
    ProjectionAction, ProjectionPhase, ProjectionReply, ProjectionSaga, Warehouse, WarehouseData,
};
use crate::query::{Edge, QueryResult};
use crate::warehouse::query::{
    fetched, is_page, is_page_of_fetch, list_warehouse_data, ListWarehouseDataQuery,
};
use crate::warehouse::service::{get_import_data_path, is_import_data_path};
use crate::warehouse::table::{
    names_key_twice, redelivery_under_new_ids_is_idempotent, same_delivery, table_rows,
    upsert_all, upsert_all_in_turn, with_keys, WarehouseTable,
};

verus! {

/// What an import draws from outside: its request identifier, the path for
/// its blob, and the identity and time that the stream gives its event.
#[derive(Debug, Clone, PartialEq, Eq)]
pub struct ImportDraw {
    pub request_id: String,
    pub storage_path: String,
    pub event_id: String,
    /// Microseconds since the Unix epoch.
    pub now: u64,
}

/// Whether `event` is the event that the import of `input` with `draw`
/// leaves in the stream.
pub open spec fn is_stored_import(
    event: Event<DataImported>,
    input: CommandInput<ImportDataCommand>,
    draw: ImportDraw,
) -> bool {
    &&& event.id == draw.event_id
    &&& event.created_at == draw.now
    &&& event.name@ == "data-imported"@
    &&& event.data.storage_path == draw.storage_path
    &&& event.metadata.request_by == input.user_id
    &&& event.metadata.request_id == draw.request_id
}

/// Whether `after` is `before` with the records `batch` stored at `path`,
/// where nothing was stored before.
pub open spec fn holds_batch(
    after: Map<Seq<char>, Vec<Record>>,
    before: Map<Seq<char>, Vec<Record>>,
    path: Seq<char>,
    batch: Seq<Record>,
) -> bool {
    &&& !before.dom().contains(path)
    &&& after.dom().contains(path)
    &&& after[path]@ == batch
    &&& after.remove(path) == before
}

/// Runs one import to its end.
///
/// A batch with a record without a usable key is rejected, naming the first
/// such record, and neither store changes. If the drawn path is taken the
/// import fails and neither store changes. Otherwise the batch is stored at
/// the drawn path, the stream grows by exactly the import's event, and the
/// tenant's identifier is returned.
pub fn import_into(
    input: &CommandInput<ImportDataCommand>,
    draw: ImportDraw,
    blobs: &mut BlobStore<Vec<Record>>,
    stream: &mut EventStream<DataImported>,
) -> (result: Result<String, Error>)
    requires
        old(blobs).wf(),
        old(stream).wf(),
        old(stream).spec_version() < u64::MAX,
    ensures
        final(blobs).wf(),
        final(stream).wf(),
        final(stream).key() == old(stream).key(),
        match first_invalid(input.input.data@) {
            Some(i) => {
                &&& result matches Err(Error::BadRequest(reason))
                &&& reason@ == missing_key_message(i as nat)
                &&& final(blobs).contents() == old(blobs).contents()
                &&& final(stream).events() == old(stream).events()
            },
            None => if old(blobs).contents().dom().contains(draw.storage_path@) {
                &&& result matches Err(Error::InternalServerErr(detail))
                &&& detail@ == path_taken_message()
                &&& final(blobs).contents() == old(blobs).contents()
                &&& final(stream).events() == old(stream).events()
            } else {
                &&& result == Ok::<String, Error>(input.user_id)
                &&& holds_batch(
                    final(blobs).contents(),
                    old(blobs).contents(),
                    draw.storage_path@,
                    input.input.data@,
                )
                &&& final(stream).events().len() == old(stream).events().len() + 1
                &&& final(stream).events().drop_last() == old(stream).events()
                &&& is_stored_import(final(stream).events().last(), *input, draw)
                &&& final(stream).events().last().version == old(stream).spec_version() + 1
                &&& folded_paths(final(stream).events()) == folded_paths(old(stream).events()).push(
                    draw.storage_path,
                )
            },
        },
{
    let ghost stored = stream.events();
    let (saga, action) = ImportSaga::start(
        input.user_id.clone(),
        &input.input.data,
        draw.request_id,
        draw.storage_path,
    );
    match action {
        ImportAction::LoadVersion { aggregate_id } => {},
        ImportAction::Done(result) => {
            return result;
        },
        _ => {
            return Err(Error::InternalServerErr(String::from_str("unexpected action")));
        },
    }
    let (saga, action) = saga.step(ImportReply::Version(stream.version()));
    let path = match action {
        ImportAction::CheckBlob { path } => path,
        _ => {
            return Err(Error::InternalServerErr(String::from_str("unexpected action")));
        },
    };
    let taken = blobs.is_exist(path.as_str());
    let (saga, action) = saga.step(ImportReply::Exists(taken));
    let path = match action {
        ImportAction::WriteBlob { path } => path,
        ImportAction::Done(result) => {
            return result;
        },
        _ => {
            return Err(Error::InternalServerErr(String::from_str("unexpected action")));
        },
    };
    blobs.write(path, duplicate_records(&input.input.data));
    let (saga, action) = saga.step(ImportReply::Written);
    let reply = match action {
        ImportAction::Append { aggregate_id, event, expected_version } => {
            let event = event.into_event(draw.event_id, draw.now);
            let mut events: Vec<Event<DataImported>> = Vec::new();
            events.push(event);
            match stream.append(events, expected_version) {
                Ok(()) => ImportReply::Appended,
                Err(_) => ImportReply::Conflict,
            }
        },
        _ => {
            return Err(Error::InternalServerErr(String::from_str("unexpected action")));
        },
    };
    proof {
        let now = stream.events();
        assert(blobs.contents().remove(draw.storage_path@) =~= old(blobs).contents());
        assert(now.drop_last() =~= stored);
        assert(folded_paths(now) =~= folded_paths(stored).push(draw.storage_path));
    }
    let (saga, action) = saga.step(reply);
    match action {
        ImportAction::Done(result) => result,
        _ => Err(Error::InternalServerErr(String::from_str("unexpected action"))),
    }
}

/// Runs one import to its end, with a fresh request identifier, a fresh path
/// and a fresh event identifier, at the time `now`.
///
/// An invalid batch is rejected as `import_into` rejects it. A valid one
/// is imported: the batch is stored at the fresh path and the import's event
/// is added to the stream. The one exception is a fresh path that is taken:
/// then the import fails and nothing changes. So an import of a valid batch
/// succeeds whenever the store holds no blob under a path of an import.
pub fn import(
    input: &CommandInput<ImportDataCommand>,
    now: u64,
    blobs: &mut BlobStore<Vec<Record>>,
    stream: &mut EventStream<DataImported>,
) -> (result: Result<String, Error>)
    requires
        old(blobs).wf(),
        old(stream).wf(),
        old(stream).spec_version() < u64::MAX,
    ensures
        final(blobs).wf(),
        final(stream).wf(),
        final(stream).key() == old(stream).key(),
        match first_invalid(input.input.data@) {
            Some(i) => {
                &&& result matches Err(Error::BadRequest(reason))
                &&& reason@ == missing_key_message(i as nat)
                &&& final(blobs).contents() == old(blobs).contents()
                &&& final(stream).events() == old(stream).events()
            },
            None => if result is Err {
                &&& result matches Err(Error::InternalServerErr(detail))
                &&& detail@ == path_taken_message()
                &&& exists|path: Seq<char>|
                    is_import_data_path(path) && #[trigger] old(blobs).contents().dom().contains(
                        path,
                    )
                &&& final(blobs).contents() == old(blobs).contents()
                &&& final(stream).events() == old(stream).events()
            } else {
                &&& result == Ok::<String, Error>(input.user_id)
                &&& is_hyphenated_uuid(final(stream).events().last().id@)
                &&& final(stream).events().len() == old(stream).events().len() + 1
                &&& final(stream).events().drop_last() == old(stream).events()
                &&& final(stream).events().last().version == old(stream).spec_version() + 1
                &&& final(stream).events().last().created_at == now
                &&& final(stream).events().last().name@ == "data-imported"@
                &&& final(stream).events().last().metadata.request_by == input.user_id
                &&& is_hyphenated_uuid(final(stream).events().last().metadata.request_id@)
                &&& is_import_data_path(final(stream).events().last().data.storage_path@)
                &&& holds_batch(
                    final(blobs).contents(),
                    old(blobs).contents(),
                    final(stream).events().last().data.storage_path@,
                    input.input.data@,
                )
                &&& folded_paths(final(stream).events()) == folded_paths(old(stream).events()).push(
                    final(stream).events().last().data.storage_path,
                )
            },
        },
{
    let draw = ImportDraw {
        request_id: random_request_id(),
        storage_path: get_import_data_path(),
        event_id: random_request_id(),
        now,
    };
    import_into(input, draw, blobs, stream)
}

/// A tenant's table together with the entry that maps the tenant to it.
pub struct TenantTable {
    pub warehouse: Warehouse,
    pub table: WarehouseTable,
}

/// What handling one event left behind.
pub struct Projected {
    /// The tenant's table afterwards; `None` if the tenant still has none.
    pub tenant: Option<TenantTable>,
    /// The notifications that went out, one per batch, in order.
    pub published: Vec<Notification>,
    pub result: Result<(), HandlerError>,
}

/// The rows of a tenant's table; none for a tenant without a table.
pub open spec fn tenant_rows(tenant: Option<TenantTable>) -> Seq<WarehouseData> {
    match tenant {
        Some(tenant) => tenant.table.rows(),
        None => Seq::<WarehouseData>::empty(),
    }
}

/// Whether two of the records in `start..end` have the same key.
pub open spec fn batch_repeats_key(records: Seq<Record>, start: int, end: int) -> bool {
    exists|i: int, j: int|
        start <= i < j < end && (#[trigger] records[i]).key.text() == (#[trigger] records[j]).key.text()
}

/// Whether the records in `start..end` can be written as one batch: each
/// has a usable key, and no two have the same.
pub open spec fn batch_writable(records: Seq<Record>, start: int, end: int) -> bool {
    batch_usable(records, start, end) && !batch_repeats_key(records, start, end)
}

/// The reason given when the table refuses a batch that names a key twice.
pub open spec fn repeated_key_reason() -> Seq<char> {
    "a key occurs twice in one batch"@
}

/// Where the handling of `records` stops when started at the batch that
/// begins at `start`: at the start of the first batch that cannot be
/// written, or behind the last record if there is no such batch.
pub open spec fn good_until(records: Seq<Record>, start: int) -> int
    decreases records.len() - start,
{
    if start < 0 || start >= records.len() {
        records.len() as int
    } else if batch_writable(records, start, batch_end(records.len() as int, start)) {
        good_until(records, batch_end(records.len() as int, start))
    } else {
        start
    }
}

/// The rows of a batch name a key twice exactly if its records do.
pub proof fn rows_repeat_as_records_do(
    rows: Seq<NewRow>,
    records: Seq<Record>,
    start: int,
    end: int,
    created_at: u64,
)
    requires
        rows_of_batch(rows, records, start, end, created_at),
    ensures
        names_key_twice(rows) == batch_repeats_key(records, start, end),
{
    if names_key_twice(rows) {
        let (i, j) = choose|i: int, j: int|
            0 <= i < j < rows.len() && (#[trigger] rows[i]).key@ == (#[trigger] rows[j]).key@;
        assert(records[start + i].key.text() == records[start + j].key.text());
    }
    if batch_repeats_key(records, start, end) {
        let (i, j) = choose|i: int, j: int|
            start <= i < j < end && (#[trigger] records[i]).key.text() == (#[trigger] records[j]).key.text();
        assert(rows[i - start].key@ == records[start + (i - start)].key.text());
        assert(rows[j - start].key@ == records[start + (j - start)].key.text());
    }
}

/// The number of batches that the records before `end` fill.
pub open spec fn batches_before(end: int) -> int {
    (end + 999) / 1000
}

/// What is published about the batch number `batch` of `records`: the rows
/// with the batch's keys as they stand once the batch is written, in the
/// table's order. `rows` are the rows made of all the records.
pub open spec fn published_rows(
    before: Seq<WarehouseData>,
    rows: Seq<NewRow>,
    records: Seq<Record>,
    batch: int,
) -> Seq<WarehouseData> {
    let start = batch * 1000;
    let end = batch_end(records.len() as int, start);
    with_keys(upsert_all(before, rows.subrange(0, end)), batch_key_texts(records, start, end))
}

/// The reason given when the blob of an import is not there.
pub open spec fn blob_missing_reason() -> Seq<char> {
    "blob not found"@
}

/// Whether `out` is what handling `event` leaves behind, given what the blob
/// store holds and the tenant's table before.
///
/// An event of unknown kind, or one whose blob is missing, fails and changes
/// nothing. Otherwise the tenant has a table afterwards, a new one if it had
/// none; the records up to the first batch that cannot be written have been
/// imported, in order; one notification went out per batch written, with the
/// rows of that batch as they stood then; and the handling succeeded exactly
/// if every batch was written. A batch cannot be written if one of its
/// records has no usable key, which fails the handling before the table is
/// asked, or if two of its records have the same key, which the table
/// refuses.
pub open spec fn is_projection(
    event: Event<DataImported>,
    blobs: Map<Seq<char>, Vec<Record>>,
    tenant: Option<TenantTable>,
    out: Projected,
) -> bool {
    match WarehouseEvent::spec_parse(event.name@) {
        None => {
            &&& out.tenant == tenant
            &&& out.published@.len() == 0
            &&& out.result matches Err(e)
            &&& e.says("warehouse-data.event_name"@, event.name@)
        },
        Some(_) => if !blobs.dom().contains(event.data.storage_path@) {
            &&& out.tenant == tenant
            &&& out.published@.len() == 0
            &&& out.result matches Err(e)
            &&& e.says("warehouse-data.read_import_data"@, blob_missing_reason())
        } else {
            let records = blobs[event.data.storage_path@]@;
            let end = good_until(records, 0);
            &&& out.tenant matches Some(after)
            &&& match tenant {
                Some(before) => after.warehouse == before.warehouse,
                None => is_table_id(after.warehouse.id@) && after.warehouse.user_id
                    == event.metadata.request_by && after.warehouse.created_at == event.created_at,
            }
            &&& exists|rows: Seq<NewRow>|
                #[trigger] rows_of_batch(rows, records, 0, end, event.created_at)
                    && after.table.rows() == upsert_all(tenant_rows(tenant), rows) && forall|i: int|
                    0 <= i < out.published@.len() ==> (#[trigger] out.published@[i]).data@
                        == published_rows(tenant_rows(tenant), rows, records, i)
            &&& out.published@.len() == batches_before(end)
            &&& forall|i: int|
                0 <= i < out.published@.len() ==> (#[trigger] out.published@[i]).user_id
                    == event.metadata.request_by && out.published@[i].topic@ == spec_topic(
                    after.warehouse.id@,
                ) && out.published@[i].name@ == "data-imported"@
            &&& end == records.len() ==> out.result is Ok
            &&& end < records.len() ==> (out.result matches Err(e) && if batch_usable(
                records,
                end,
                batch_end(records.len() as int, end),
            ) {
                e.says("sqlx::Error"@, repeated_key_reason())
            } else {
                e.says(missing_key_code(), missing_key_reason())
            })
        },
    }
}

/// The error for an action that the handler cannot ask for in its state.
fn unexpected_action() -> (error: HandlerError)
    ensures
        error.says("warehouse-data.unexpected_action"@, "unexpected action"@),
{
    HandlerError::new("warehouse-data.unexpected_action", String::from_str("unexpected action"))
}

/// What the handler leaves behind when it stops before it has looked at the
/// tenant's table.
fn stopped(tenant: Option<TenantTable>, result: Result<(), HandlerError>) -> (out: Projected)
    ensures
        out.tenant == tenant,
        out.published@.len() == 0,
        out.result == result,
{
    Projected { tenant, published: Vec::new(), result }
}

/// Handles one event against the blob store and the tenant's table: a tenant
/// without a table gets one, and the imported records are written batch by
/// batch. Each batch is imported as a whole, then its rows are read back and
/// published. The first batch that holds a record without a usable key, or
/// two records with the same key, fails the handling before anything of that
/// batch is written; the batches before it stay written.
pub fn project_into(
    event: &Event<DataImported>,
    blobs: &BlobStore<Vec<Record>>,
    tenant: Option<TenantTable>,
) -> (out: Projected)
    requires
        blobs.wf(),
        tenant matches Some(before) ==> before.table.wf(),
    ensures
        out.tenant matches Some(after) ==> after.table.wf(),
        is_projection(*event, blobs.contents(), tenant, out),
{
    let (saga, action) = ProjectionSaga::start(event);
    let path = match action {
        ProjectionAction::ReadBlob { path } => path,
        ProjectionAction::Done(result) => {
            return stopped(tenant, result);
        },
        _ => {
            return stopped(tenant, Err(unexpected_action()));
        },
    };
    let reply = match blobs.read(path.as_str()) {
        Some(records) => ProjectionReply::Blob(duplicate_records(records)),
        None => ProjectionReply::Failed(String::from_str("blob not found")),
    };
    let (saga, action) = saga.step(reply);
    match action {
        ProjectionAction::FindTable { user_id } => {},
        ProjectionAction::Done(result) => {
            return stopped(tenant, result);
        },
        _ => {
            return stopped(tenant, Err(unexpected_action()));
        },
    }
    let ghost records = blobs.contents()[event.data.storage_path@]@;
    let ghost len = records.len() as int;
    let ghost before_rows = tenant_rows(tenant);
    let found = match &tenant {
        Some(tenant) => Some(tenant.warehouse.id.clone()),
        None => None,
    };
    let (saga, action) = saga.step(ProjectionReply::Table(found));
    let (mut current, mut saga, mut action) = match tenant {
        Some(tenant) => (tenant, saga, action),
        None => match action {
            ProjectionAction::Provision { warehouse } => {
                let (saga, action) = saga.step(ProjectionReply::Provisioned);
                (TenantTable { warehouse, table: WarehouseTable::new() }, saga, action)
            },
            _ => {
                return stopped(tenant, Err(unexpected_action()));
            },
        },
    };
    let mut published: Vec<Notification> = Vec::new();
    let ghost mut done: Seq<NewRow> = Seq::empty();
    let ghost mut at: int = 0;
    proof {
        assert(saga.records.len() == len);
        assert(upsert_all(before_rows, done) == before_rows);
    }
    loop
        invariant
            WarehouseEvent::spec_parse(event.name@) is Some,
            blobs.contents().dom().contains(event.data.storage_path@),
            records == blobs.contents()[event.data.storage_path@]@,
            len == records.len(),
            len <= usize::MAX,
            before_rows == tenant_rows(tenant),
            match tenant {
                Some(before) => current.warehouse == before.warehouse,
                None => is_table_id(current.warehouse.id@) && current.warehouse.user_id
                    == event.metadata.request_by && current.warehouse.created_at
                    == event.created_at,
            },
            current.table.wf(),
            saga.records@ == records,
            saga.created_at == event.created_at,
            saga.user_id == event.metadata.request_by,
            saga.table_id == current.warehouse.id,
            0 <= at <= len,
            at % 1000 == 0 || at == len,
            good_until(records, 0) == good_until(records, at),
            rows_of_batch(done, records, 0, at, event.created_at),
            current.table.rows() == upsert_all(before_rows, done),
            published@.len() == batches_before(at),
            forall|i: int|
                0 <= i < published@.len() ==> (#[trigger] published@[i]).data@ == published_rows(
                    before_rows,
                    done,
                    records,
                    i,
                ),
            forall|i: int|
                0 <= i < published@.len() ==> (#[trigger] published@[i]).user_id
                    == event.metadata.request_by && published@[i].topic@ == spec_topic(
                    current.warehouse.id@,
                ) && published@[i].name@ == "data-imported"@,
            if at >= len {
                action == ProjectionAction::Done(Ok(()))
            } else if batch_usable(records, at, batch_end(len, at)) {
                &&& saga.phase == ProjectionPhase::AwaitUpsert
                &&& saga.batch_start == at
                &&& action matches ProjectionAction::Upsert { table_id, rows }
                &&& rows_of_batch(rows@, records, at, batch_end(len, at), event.created_at)
            } else {
                rejects_with(action, missing_key_code(), missing_key_reason())
            },
        decreases len - at,
    {
        match action {
            ProjectionAction::Done(result) => {
                proof {
                    assert(rows_of_batch(done, records, 0, at, event.created_at));
                    assert(good_until(records, 0) == at);
                    assert(rows_of_batch(done, records, 0, at, event.created_at)
                        && current.table.rows() == upsert_all(before_rows, done) && forall|i: int|
                        0 <= i < published@.len() ==> (#[trigger] published@[i]).data@
                            == published_rows(before_rows, done, records, i));
                }
                return Projected { tenant: Some(current), published, result };
            },
            ProjectionAction::Upsert { table_id, rows } => {
                let ghost batch = rows@;
                let ghost next = batch_end(len, at);
                assert(at < len);
                assert(batch_usable(records, at, next));
                proof {
                    rows_repeat_as_records_do(batch, records, at, next, event.created_at);
                }
                match current.table.upsert(rows) {
                    Ok(_) => {},
                    Err(_) => {
                        let (refused, asked) = saga.step(
                            ProjectionReply::Failed(String::from_str("a key occurs twice in one batch")),
                        );
                        proof {
                            assert(good_until(records, 0) == at);
                            assert(rows_of_batch(done, records, 0, at, event.created_at)
                                && current.table.rows() == upsert_all(before_rows, done)
                                && forall|i: int|
                                0 <= i < published@.len() ==> (#[trigger] published@[i]).data@
                                    == published_rows(before_rows, done, records, i));
                        }
                        return match asked {
                            ProjectionAction::Done(result) => Projected {
                                tenant: Some(current),
                                published,
                                result,
                            },
                            _ => Projected {
                                tenant: Some(current),
                                published,
                                result: Err(unexpected_action()),
                            },
                        };
                    },
                }
                proof {
                    upsert_all_in_turn(before_rows, done, batch);
                    assert(rows_of_batch(done + batch, records, 0, next, event.created_at)) by {
                        let all = done + batch;
                        assert forall|i: int| 0 <= i < all.len() implies {
                            &&& (#[trigger] all[i]).key@ == records[0 + i].key.text()
                            &&& all[i].data == records[0 + i].data
                            &&& all[i].created_at == event.created_at
                            &&& crate::ident::is_random_id(all[i].id@)
                        } by {
                            if i < done.len() {
                                assert(all[i] == done[i]);
                            } else {
                                assert(all[i] == batch[i - at]);
                            }
                        }
                    }
                    assert forall|i: int| 0 <= i < published@.len() implies (#[trigger] published@[i]).data@
                        == published_rows(before_rows, done + batch, records, i) by {
                        let end = batch_end(len, i * 1000);
                        assert(end <= at);
                        assert((done + batch).subrange(0, end) =~= done.subrange(0, end));
                    }
                    done = done + batch;
                }
                let (reading, asked) = saga.step(ProjectionReply::Upserted);
                assert(reading == crate::warehouse::projection::projection_in_phase(
                    saga,
                    ProjectionPhase::AwaitRows,
                ));
                let keys = match asked {
                    ProjectionAction::ReadBack { table_id, keys } => keys,
                    _ => {
                        return Projected {
                            tenant: Some(current),
                            published,
                            result: Err(unexpected_action()),
                        };
                    },
                };
                let back = current.table.find_by_keys(&keys);
                proof {
                    keys_of_batch_have_its_texts(keys@, records, at, next);
                    assert(done.subrange(0, next) =~= done);
                    assert(published@.len() * 1000 == at);
                    assert(back@ == published_rows(before_rows, done, records, published@.len() as int));
                }
                let (publishing, asked) = reading.step(ProjectionReply::Rows(back));
                match asked {
                    ProjectionAction::Publish(notification) => {
                        published.push(notification);
                    },
                    _ => {
                        return Projected {
                            tenant: Some(current),
                            published,
                            result: Err(unexpected_action()),
                        };
                    },
                }
                assert(publishing == crate::warehouse::projection::projection_in_phase(
                    saga,
                    ProjectionPhase::AwaitPublish,
                ));
                let (following, asked) = publishing.step(ProjectionReply::Published);
                assert(batch_step(publishing, next, following, asked));
                proof {
                    assert(good_until(records, at) == good_until(records, next));
                    assert(batches_before(next) == batches_before(at) + 1);
                    at = next;
                }
                saga = following;
                action = asked;
            },
            _ => {
                return Projected { tenant: Some(current), published, result: Err(unexpected_action()) };
            },
        }
    }
}

/// Handling is idempotent under redelivery: handling the same event a
/// second time adds no row and changes no row's identifier, key, data or
/// `created_at`, whatever identifiers the second handling draws for its
/// rows. The tenant keeps its table, as many notifications go out as the
/// first time, and the second handling succeeds exactly if the first did.
pub proof fn replay_is_idempotent(
    event: Event<DataImported>,
    blobs: Map<Seq<char>, Vec<Record>>,
    tenant: Option<TenantTable>,
    once: Projected,
    twice: Projected,
)
    requires
        table_rows(tenant_rows(tenant)),
        is_projection(event, blobs, tenant, once),
        is_projection(event, blobs, once.tenant, twice),
    ensures
        tenant_rows(twice.tenant).len() == tenant_rows(once.tenant).len(),
        forall|i: int|
            0 <= i < tenant_rows(once.tenant).len() ==> {
                let first = #[trigger] tenant_rows(once.tenant)[i];
                let second = tenant_rows(twice.tenant)[i];
                second.id == first.id && second.key == first.key && second.data == first.data
                    && second.created_at == first.created_at
            },
        once.tenant matches Some(first) ==> (twice.tenant matches Some(second) && second.warehouse
            == first.warehouse),
        twice.published@.len() == once.published@.len(),
        (twice.result is Ok) == (once.result is Ok),
{
    if WarehouseEvent::spec_parse(event.name@) is Some && blobs.dom().contains(
        event.data.storage_path@,
    ) {
        let records = blobs[event.data.storage_path@]@;
        let end = good_until(records, 0);
        let before = tenant_rows(tenant);
        let middle = tenant_rows(once.tenant);
        let first = choose|rows: Seq<NewRow>|
            #[trigger] rows_of_batch(rows, records, 0, end, event.created_at) && middle
                == upsert_all(before, rows);
        let second = choose|rows: Seq<NewRow>|
            #[trigger] rows_of_batch(rows, records, 0, end, event.created_at) && tenant_rows(
                twice.tenant,
            ) == upsert_all(middle, rows);
        assert(same_delivery(first, second));
        redelivery_under_new_ids_is_idempotent(before, first, second);
        good_until_is_within(records, 0);
    }
}

/// Handling an event never ends of itself with the refusal of a new table:
/// its own errors have other codes or other reasons. So a caller can tell
/// the refusal from every other failure.
pub proof fn projection_is_not_refused(
    event: Event<DataImported>,
    blobs: Map<Seq<char>, Vec<Record>>,
    tenant: Option<TenantTable>,
    out: Projected,
)
    requires
        is_projection(event, blobs, tenant, out),
    ensures
        !provision_refused(out.result),
{
    reveal_strlit("sqlx::Error");
    reveal_strlit("warehouse-data.event_name");
    reveal_strlit("warehouse-data.read_import_data");
    reveal_strlit("warehouse-data.query_builder.push_values.id");
    reveal_strlit("table identifier is taken");
    reveal_strlit("a key occurs twice in one batch");
    assert("sqlx::Error"@.len() == 11);
    assert(table_id_taken_reason().len() == 25);
    assert(repeated_key_reason().len() == 31);
    assert("warehouse-data.event_name"@.len() == 25);
    assert("warehouse-data.read_import_data"@.len() == 31);
    assert(missing_key_code().len() == 43);
    if WarehouseEvent::spec_parse(event.name@) is Some && blobs.dom().contains(
        event.data.storage_path@,
    ) {
        good_until_is_within(blobs[event.data.storage_path@]@, 0);
    }
}

/// The handling of a batch of records stops within the records.
pub proof fn good_until_is_within(records: Seq<Record>, start: int)
    ensures
        good_until(records, start) <= records.len(),
    decreases records.len() - start,
{
    if 0 <= start < records.len() && batch_writable(
        records,
        start,
        batch_end(records.len() as int, start),
    ) {
        good_until_is_within(records, batch_end(records.len() as int, start));
    }
}

/// The reason given when a new table cannot be recorded because its
/// identifier already names the table of another tenant.
pub open spec fn table_id_taken_reason() -> Seq<char> {
    "table identifier is taken"@
}

/// Whether handling ended because the new table could not be recorded: its
/// identifier already named the table of another tenant.
pub open spec fn provision_refused(result: Result<(), HandlerError>) -> bool {
    result matches Err(e) && e.says("sqlx::Error"@, table_id_taken_reason())
}

/// The reason given when a new table cannot be recorded because its
/// identifier cannot name a table.
pub open spec fn table_id_unusable_reason() -> Seq<char> {
    "table identifier is not usable"@
}

/// Why no table can be recorded under `id` beside `tables`: the identifier
/// cannot name a table, or it already names one of them. `None` if a table
/// can be recorded.
pub open spec fn refusal_of(tables: Map<Seq<char>, TenantTable>, id: Seq<char>) -> Option<Seq<char>> {
    if !is_table_id(id) {
        Some(table_id_unusable_reason())
    } else if names_table(tables, id) {
        Some(table_id_taken_reason())
    } else {
        None
    }
}

/// Whether handling `event` creates a table: the tenant has none, and the
/// event's batch can be read.
pub open spec fn creates_table(
    tenant: Option<TenantTable>,
    event: Event<DataImported>,
    blobs: Map<Seq<char>, Vec<Record>>,
) -> bool {
    &&& tenant is None
    &&& WarehouseEvent::spec_parse(event.name@) is Some
    &&& blobs.dom().contains(event.data.storage_path@)
}

/// Whether some tenant's table among `tables` has the identifier `id`.
pub open spec fn names_table(tables: Map<Seq<char>, TenantTable>, id: Seq<char>) -> bool {
    exists|user: Seq<char>| #[trigger] tables.dom().contains(user) && tables[user].warehouse.id@ == id
}

/// The tables of all tenants, each filed under its tenant's identifier.
pub struct Tenants {
    tables: BlobStore<TenantTable>,
}

impl Tenants {
    /// The tenants that have a table, and their tables.
    pub closed spec fn tables(&self) -> Map<Seq<char>, TenantTable> {
        self.tables.contents()
    }

    /// Whether the tables are kept in good order.
    pub closed spec fn stored(&self) -> bool {
        self.tables.wf()
    }

    /// The invariant: every table that is kept is a table, with its keys
    /// unique and its rows in order; it is filed under the tenant it belongs
    /// to; and no two tenants' tables have the same identifier.
    pub open spec fn wf(&self) -> bool {
        &&& self.stored()
        &&& forall|user: Seq<char>| #[trigger]
            self.tables().dom().contains(user) ==> {
                &&& self.tables()[user].table.wf()
                &&& self.tables()[user].warehouse.user_id@ == user
            }
        &&& forall|a: Seq<char>, b: Seq<char>|
            #[trigger] self.tables().dom().contains(a) && #[trigger] self.tables().dom().contains(b)
                && a != b ==> self.tables()[a].warehouse.id@ != self.tables()[b].warehouse.id@
    }

    /// The table of `user`, if the tenant has one.
    pub open spec fn table_of(&self, user: Seq<char>) -> Option<TenantTable> {
        if self.tables().dom().contains(user) {
            Some(self.tables()[user])
        } else {
            None
        }
    }

    /// No tenant has a table yet.
    pub fn new() -> (tenants: Self)
        ensures
            tenants.wf(),
            tenants.tables() == Map::<Seq<char>, TenantTable>::empty(),
    {
        Tenants { tables: BlobStore::new() }
    }

    /// Whether some tenant's table has the identifier `id`.
    pub fn has_table_id(&self, id: &str) -> (taken: bool)
        requires
            self.stored(),
        ensures
            taken == names_table(self.tables(), id@),
    {
        let users = self.tables.paths();
        let mut i: usize = 0;
        while i < users.len()
            invariant
                self.stored(),
                i <= users@.len(),
                forall|k: int|
                    0 <= k < users@.len() ==> self.tables().dom().contains((#[trigger] users@[k])@),
                forall|k: int|
                    0 <= k < i ==> self.tables()[(#[trigger] users@[k])@].warehouse.id@ != id@,
            decreases users@.len() - i,
        {
            match self.tables.read(users[i].as_str()) {
                Some(tenant) => {
                    if same_text(tenant.warehouse.id.as_str(), id) {
                        assert(self.tables().dom().contains(users@[i as int]@));
                        return true;
                    }
                },
                None => {},
            }
            i = i + 1;
        }
        proof {
            assert forall|user: Seq<char>| #[trigger]
                self.tables().dom().contains(user) implies self.tables()[user].warehouse.id@
                != id@ by {
                let k = choose|k: int| 0 <= k < users@.len() && (#[trigger] users@[k])@ == user;
                assert(self.tables()[users@[k]@].warehouse.id@ != id@);
            }
        }
        false
    }

    /// Handles one event for the tenant who sent the import, with `table_id`
    /// as the identifier of the table that is created if the tenant needs
    /// one. The tables of all other tenants stay as they are.
    ///
    /// The identifier becomes part of the table's name and is the key under
    /// which the table is recorded. So where a table is to be created and
    /// `table_id` cannot name one, or already names another tenant's, the
    /// handling fails before anything is written or published, and nothing
    /// changes. In every other case the event is handled, and a table that
    /// is created has the identifier `table_id`.
    pub fn project_with(
        &mut self,
        event: &Event<DataImported>,
        blobs: &BlobStore<Vec<Record>>,
        table_id: String,
    ) -> (out: (Vec<Notification>, Result<(), HandlerError>))
        requires
            old(self).wf(),
            blobs.wf(),
        ensures
            final(self).wf(),
            forall|other: Seq<char>|
                other != event.metadata.request_by@ ==> final(self).table_of(other) == old(
                    self,
                ).table_of(other),
            match refusal_of(old(self).tables(), table_id@) {
                Some(reason) if creates_table(
                    old(self).table_of(event.metadata.request_by@),
                    *event,
                    blobs.contents(),
                ) => {
                    &&& final(self).tables() == old(self).tables()
                    &&& out.0@.len() == 0
                    &&& out.1 matches Err(e)
                    &&& e.says("sqlx::Error"@, reason)
                },
                _ => {
                    &&& is_projection(
                        *event,
                        blobs.contents(),
                        old(self).table_of(event.metadata.request_by@),
                        Projected {
                            tenant: final(self).table_of(event.metadata.request_by@),
                            published: out.0,
                            result: out.1,
                        },
                    )
                    &&& creates_table(
                        old(self).table_of(event.metadata.request_by@),
                        *event,
                        blobs.contents(),
                    ) ==> (final(self).table_of(event.metadata.request_by@) matches Some(created)
                        && created.warehouse.id == table_id)
                },
            },
    {
        let ghost user = event.metadata.request_by@;
        let ghost kept = self.tables();
        let before = self.tables.take(event.metadata.request_by.as_str());
        let readable = WarehouseEvent::parse(event.name.as_str()).is_some() && blobs.is_exist(
            event.data.storage_path.as_str(),
        );
        let given = match before {
            Some(tenant) => Some(tenant),
            None => {
                assert(self.tables() =~= kept);
                if readable {
                    if !is_usable_table_id(table_id.as_str()) {
                        let refused = HandlerError::new(
                            "sqlx::Error",
                            String::from_str("table identifier is not usable"),
                        );
                        return (Vec::new(), Err(refused));
                    }
                    if self.has_table_id(table_id.as_str()) {
                        let refused = HandlerError::new(
                            "sqlx::Error",
                            String::from_str("table identifier is taken"),
                        );
                        return (Vec::new(), Err(refused));
                    }
                    Some(
                        TenantTable {
                            warehouse: Warehouse {
                                id: table_id,
                                user_id: event.metadata.request_by.clone(),
                                created_at: event.created_at,
                            },
                            table: WarehouseTable::new(),
                        },
                    )
                } else {
                    None
                }
            },
        };
        let handled = project_into(event, blobs, given);
        proof {
            if before is None && readable {
                let records = blobs.contents()[event.data.storage_path@]@;
                let end = good_until(records, 0);
                let empty = Seq::<WarehouseData>::empty();
                let rows = choose|rows: Seq<NewRow>|
                    #[trigger] rows_of_batch(rows, records, 0, end, event.created_at)
                        && handled.tenant->Some_0.table.rows() == upsert_all(empty, rows)
                        && forall|i: int|
                        0 <= i < handled.published@.len() ==> (#[trigger] handled.published@[i]).data@
                            == published_rows(empty, rows, records, i);
                assert(rows_of_batch(rows, records, 0, end, event.created_at)
                    && handled.tenant->Some_0.table.rows() == upsert_all(tenant_rows(before), rows)
                    && forall|i: int|
                    0 <= i < handled.published@.len() ==> (#[trigger] handled.published@[i]).data@
                        == published_rows(tenant_rows(before), rows, records, i));
                assert(is_projection(*event, blobs.contents(), before, handled));
            }
        }
        match handled.tenant {
            Some(after) => {
                self.tables.write(event.metadata.request_by.clone(), after);
                proof {
                    let now = self.tables();
                    assert forall|a: Seq<char>, b: Seq<char>|
                        #[trigger] now.dom().contains(a) && #[trigger] now.dom().contains(b) && a
                            != b implies now[a].warehouse.id@ != now[b].warehouse.id@ by {
                        if a != user && b != user {
                            assert(kept.dom().contains(a) && kept.dom().contains(b));
                        } else {
                            let other = if a == user { b } else { a };
                            assert(kept.dom().contains(other));
                            if before is Some {
                                assert(kept.dom().contains(user));
                            } else {
                                assert(kept.remove(user).dom().contains(other));
                            }
                        }
                    }
                    assert forall|other: Seq<char>| other != user implies self.table_of(other)
                        == old(self).table_of(other) by {}
                }
            },
            None => {
                proof {
                    assert forall|other: Seq<char>| other != user implies self.table_of(other)
                        == old(self).table_of(other) by {}
                }
            },
        }
        (handled.published, handled.result)
    }

    /// Handles one event for the tenant who sent the import. The tables of
    /// all other tenants stay as they are.
    ///
    /// A tenant without a table gets one under a fresh identifier. One that
    /// already names another tenant's table is refused, as `project_with`
    /// says: the handling then fails and nothing changes. That can happen
    /// only where a table is to be created while another tenant has one.
    pub fn project(&mut self, event: &Event<DataImported>, blobs: &BlobStore<Vec<Record>>) -> (out: (
        Vec<Notification>,
        Result<(), HandlerError>,
    ))
        requires
            old(self).wf(),
            blobs.wf(),
        ensures
            final(self).wf(),
            forall|other: Seq<char>|
                other != event.metadata.request_by@ ==> final(self).table_of(other) == old(
                    self,
                ).table_of(other),
            if provision_refused(out.1) {
                &&& final(self).tables() == old(self).tables()
                &&& out.0@.len() == 0
                &&& creates_table(
                    old(self).table_of(event.metadata.request_by@),
                    *event,
                    blobs.contents(),
                )
                &&& exists|id: Seq<char>| is_table_id(id) && #[trigger] names_table(old(self).tables(), id)
            } else {
                &&& is_projection(
                    *event,
                    blobs.contents(),
                    old(self).table_of(event.metadata.request_by@),
                    Projected {
                        tenant: final(self).table_of(event.metadata.request_by@),
                        published: out.0,
                        result: out.1,
                    },
                )
                &&& old(self).table_of(event.metadata.request_by@) is None ==> (final(self).table_of(
                    event.metadata.request_by@,
                ) matches Some(created) ==> !names_table(
                    old(self).tables(),
                    created.warehouse.id@,
                ))
            },
    {
        let table_id = new_table_id();
        let out = self.project_with(event, blobs, table_id);
        proof {
            let before = old(self).table_of(event.metadata.request_by@);
            reveal_strlit("table identifier is taken");
            reveal_strlit("table identifier is not usable");
            assert(table_id_taken_reason().len() != table_id_unusable_reason().len());
            if !(creates_table(before, *event, blobs.contents()) && names_table(
                old(self).tables(),
                table_id@,
            )) {
                projection_is_not_refused(
                    *event,
                    blobs.contents(),
                    before,
                    Projected {
                        tenant: self.table_of(event.metadata.request_by@),
                        published: out.0,
                        result: out.1,
                    },
                );
            }
        }
        out
    }

    /// One page of the rows of the tenant that `query` names. A tenant
    /// without a table gets the page without entries, and no error.
    pub fn list(&self, query: &ListWarehouseDataQuery) -> (result: Result<
        QueryResult<Edge<WarehouseData>>,
        Error,
    >)
        requires
            self.wf(),
        ensures
            match self.table_of(query.user_id@) {
                None => result matches Ok(page) && is_page(
                    page,
                    Seq::<WarehouseData>::empty(),
                    false,
                    false,
                ),
                Some(tenant) => match query.query_args.spec_plan() {
                    Some((direction, limit, place)) => result matches Ok(page) && is_page_of_fetch(
                        page,
                        fetched(tenant.table.rows(), direction, place, limit),
                        direction,
                        limit,
                    ),
                    None => result matches Err(Error::BadRequest(reason)) && reason@
                        == query.query_args.spec_rejection(),
                },
            },
    {
        match self.tables.read(query.user_id.as_str()) {
            Some(tenant) => list_warehouse_data(Some(&tenant.table), &query.query_args),
            None => list_warehouse_data(None, &query.query_args),
        }
    }
}

} // verus!
