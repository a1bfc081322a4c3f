//! The warehouse projection: the rows kept for each tenant, and the handler
//! that turns a `data-imported` event into those rows.
//!
//! The handler is a state machine. It reads the imported batch, finds or
//! creates the tenant's table, and then writes the records in batches of a
//! thousand: each batch is written in one statement, read back and published.
//! The caller performs the actions that the handler asks for.

use vstd::prelude::*;
use vstd::string::StringExecFns;
use crate::event::{Event, HandlerError, Subscriber};
use crate::ident::{is_random_id, is_url_safe, random_id};
use crate::text::{
    chars_of, is_separator, join2, strip_separators, without_separators,
    without_separators_is_clean,
};
use crate::warehouse::command::Record;
use crate::warehouse::event::{DataImported, WarehouseEvent};

verus! {

/// The entry that maps a tenant to its table.
#[derive(Debug, Clone, PartialEq, Eq)]
pub struct Warehouse {
    /// The identifier of the tenant's table.
    pub id: String,
    pub user_id: String,
    /// Microseconds since the Unix epoch.
    pub created_at: u64,
}

/// One row of a tenant's table: the latest record imported under a key.
#[derive(Debug, Clone, PartialEq, Eq)]
pub struct WarehouseData {
    pub id: String,
    /// The business key, unique within the table.
    pub key: String,
    /// The record as JSON text.
    pub data: String,
    /// When the key was first imported, in microseconds since the Unix epoch.
    pub created_at: u64,
    /// When the row was last overwritten; `None` until a later import does so.
    pub updated_at: Option<u64>,
}

/// One row as an import hands it to the table.
#[derive(Debug, Clone, PartialEq, Eq)]
pub struct NewRow {
    pub id: String,
    pub key: String,
    pub data: String,
    pub created_at: u64,
}

impl WarehouseData {
    /// The columns by which rows are ordered and paged, in that order.
    pub fn keys() -> (columns: Vec<&'static str>)
        ensures
            columns@.len() == 2,
            columns@[0]@ == "created_at"@,
            columns@[1]@ == "key"@,
    {
        let mut columns: Vec<&'static str> = Vec::new();
        columns.push("created_at");
        columns.push("key");
        columns
    }

    /// A copy of the row.
    pub fn duplicate(&self) -> (copy: WarehouseData)
        ensures
            copy == *self,
    {
        WarehouseData {
            id: self.id.clone(),
            key: self.key.clone(),
            data: self.data.clone(),
            created_at: self.created_at,
            updated_at: self.updated_at,
        }
    }
}

impl NewRow {
    /// A copy of the row.
    pub fn duplicate(&self) -> (copy: NewRow)
        ensures
            copy == *self,
    {
        NewRow {
            id: self.id.clone(),
            key: self.key.clone(),
            data: self.data.clone(),
            created_at: self.created_at,
        }
    }
}

/// The consumer that builds the tenants' tables: it is called
/// `warehouse-data` and listens to every warehouse stream.
pub fn warehouse_data() -> (subscriber: Subscriber)
    ensures
        subscriber.key@ == "warehouse-data"@,
        subscriber.filter@ == "warehouse/#"@,
{
    Subscriber { key: String::from_str("warehouse-data"), filter: String::from_str("warehouse/#") }
}

/// Whether `c` is a digit or an unaccented Latin letter.
pub open spec fn is_alphanumeric(c: char) -> bool {
    ('0' <= c && c <= '9') || ('a' <= c && c <= 'z') || ('A' <= c && c <= 'Z')
}

/// Whether `id` can name a table: at most 21 characters, each a digit or a
/// letter, so that it can stand in a table's name as it is.
pub open spec fn is_table_id(id: Seq<char>) -> bool {
    &&& id.len() <= 21
    &&& forall|i: int| 0 <= i < id.len() ==> is_alphanumeric(#[trigger] id[i])
}

/// Whether `id` can name a table.
pub fn is_usable_table_id(id: &str) -> (usable: bool)
    ensures
        usable == is_table_id(id@),
{
    let chars = chars_of(id);
    if chars.len() > 21 {
        return false;
    }
    let mut i: usize = 0;
    while i < chars.len()
        invariant
            chars@ == id@,
            i <= chars@.len(),
            forall|k: int| 0 <= k < i ==> is_alphanumeric(#[trigger] id@[k]),
        decreases chars@.len() - i,
    {
        let c = chars[i];
        let fits = ('0' <= c && c <= '9') || ('a' <= c && c <= 'z') || ('A' <= c && c <= 'Z');
        if !fits {
            assert(!is_alphanumeric(id@[i as int]));
            return false;
        }
        i = i + 1;
    }
    true
}

/// Whether `table_id` is what is left of some random identifier once its
/// separators `-` and `_` are taken out.
pub open spec fn is_drawn_table_id(table_id: Seq<char>) -> bool {
    exists|id: Seq<char>| is_random_id(id) && table_id == #[trigger] without_separators(id)
}

/// The name of the table with the identifier `id`.
pub open spec fn spec_table_name(id: Seq<char>) -> Seq<char> {
    "warehouse_data_"@ + id
}

/// The topic on which changes of the table `id` are announced.
pub open spec fn spec_topic(id: Seq<char>) -> Seq<char> {
    "warehouses/"@ + id
}

/// The table identifier made from a random identifier: the same characters
/// without `-` and `_`.
pub fn table_id_from(id: &str) -> (table_id: String)
    ensures
        table_id@ == without_separators(id@),
        is_random_id(id@) ==> is_table_id(table_id@),
{
    let table_id = strip_separators(id);
    proof {
        without_separators_is_clean(id@);
        if is_random_id(id@) {
            assert forall|i: int| 0 <= i < table_id@.len() implies is_alphanumeric(
                #[trigger] table_id@[i],
            ) by {
                let c = table_id@[i];
                assert(id@.contains(c));
                let k = choose|k: int| 0 <= k < id@.len() && id@[k] == c;
                assert(is_url_safe(id@[k]));
                assert(!is_separator(c));
            }
        }
    }
    table_id
}

/// The identifier for a table that is about to be created: a fresh random
/// identifier without its separators, which can name a table.
pub fn new_table_id() -> (table_id: String)
    ensures
        is_drawn_table_id(table_id@),
        is_table_id(table_id@),
{
    let id = random_id();
    let table_id = table_id_from(id.as_str());
    assert(table_id@ == without_separators(id@));
    table_id
}

pub fn table_name(table_id: &str) -> (name: String)
    ensures
        name@ == spec_table_name(table_id@),
{
    join2("warehouse_data_", table_id)
}

pub fn topic(table_id: &str) -> (topic: String)
    ensures
        topic@ == spec_topic(table_id@),
{
    join2("warehouses/", table_id)
}

/// What is published after each batch: the rows it left behind, addressed to
/// the tenant.
#[derive(Debug, Clone, PartialEq, Eq)]
pub struct Notification {
    pub user_id: String,
    pub topic: String,
    pub name: String,
    pub data: Vec<WarehouseData>,
}

/// The number of records that go into one batch.
pub const BATCH_SIZE: usize = 1000;

/// Where the batch that starts at `start` ends, in a list of `len` records.
pub open spec fn batch_end(len: int, start: int) -> int {
    if start + 1000 < len {
        start + 1000
    } else {
        len
    }
}

/// Batches split the records without gap or overlap: a batch that starts
/// inside the records is not empty, holds exactly a thousand records unless
/// it is the last one, and the next batch starts where it ends.
pub proof fn batches_hold_a_thousand(len: int, start: int)
    requires
        0 <= start < len,
    ensures
        start < batch_end(len, start) <= len,
        batch_end(len, start) - start <= 1000,
        batch_end(len, start) < len ==> batch_end(len, start) - start == 1000,
{
}

/// Whether every record in `start..end` has a usable key.
pub open spec fn batch_usable(records: Seq<Record>, start: int, end: int) -> bool {
    forall|i: int| start <= i < end ==> (#[trigger] records[i]).key.usable()
}

/// Whether `rows` are the rows for the records in `start..end`: one row per
/// record in the same order, with the record's key and data, the import's
/// time, and an identifier of its own.
pub open spec fn rows_of_batch(
    rows: Seq<NewRow>,
    records: Seq<Record>,
    start: int,
    end: int,
    created_at: u64,
) -> bool {
    &&& rows.len() == end - start
    &&& forall|i: int|
        0 <= i < rows.len() ==> {
            &&& (#[trigger] rows[i]).key@ == records[start + i].key.text()
            &&& rows[i].data == records[start + i].data
            &&& rows[i].created_at == created_at
            &&& is_random_id(rows[i].id@)
        }
}

/// The texts of the keys of the records in `start..end`, in order.
pub open spec fn batch_key_texts(records: Seq<Record>, start: int, end: int) -> Seq<Seq<char>> {
    Seq::new((end - start) as nat, |i: int| records[start + i].key.text())
}

/// Whether `keys` are the keys of the records in `start..end`, in order.
pub open spec fn keys_of_batch(keys: Seq<String>, records: Seq<Record>, start: int, end: int) -> bool {
    &&& keys.len() == end - start
    &&& forall|i: int| 0 <= i < keys.len() ==> (#[trigger] keys[i])@ == records[start + i].key.text()
}

/// Keys of a batch have the texts of the batch's keys.
pub proof fn keys_of_batch_have_its_texts(keys: Seq<String>, records: Seq<Record>, start: int, end: int)
    requires
        start <= end,
        keys_of_batch(keys, records, start, end),
    ensures
        crate::warehouse::table::key_texts(keys) == batch_key_texts(records, start, end),
{
    assert(crate::warehouse::table::key_texts(keys) =~= batch_key_texts(records, start, end));
}

/// The code and the reason for a record without a usable key.
pub open spec fn missing_key_code() -> Seq<char> {
    "warehouse-data.query_builder.push_values.id"@
}

pub open spec fn missing_key_reason() -> Seq<char> {
    "missing field _id"@
}

/// Where the batch that starts at `start` ends.
pub fn end_of_batch(len: usize, start: usize) -> (end: usize)
    requires
        start <= len,
    ensures
        end == batch_end(len as int, start as int),
        start <= end <= len,
        start < len ==> start < end,
{
    if len - start > BATCH_SIZE {
        start + BATCH_SIZE
    } else {
        len
    }
}

/// Builds the rows for the records in `start..end`. One record without a
/// usable key anywhere in the range fails the whole batch, so that nothing of
/// it is written.
pub fn build_rows(records: &Vec<Record>, start: usize, end: usize, created_at: u64) -> (result: Result<
    Vec<NewRow>,
    HandlerError,
>)
    requires
        start <= end <= records@.len(),
    ensures
        batch_usable(records@, start as int, end as int) ==> (result matches Ok(rows)
            && rows_of_batch(rows@, records@, start as int, end as int, created_at)),
        !batch_usable(records@, start as int, end as int) ==> (result matches Err(e) && e.says(
            missing_key_code(),
            missing_key_reason(),
        )),
{
    let mut rows: Vec<NewRow> = Vec::new();
    let mut i: usize = start;
    while i < end
        invariant
            start <= i <= end <= records@.len(),
            batch_usable(records@, start as int, i as int),
            rows_of_batch(rows@, records@, start as int, i as int, created_at),
        decreases end - i,
    {
        match records[i].key.to_text() {
            Some(key) => {
                rows.push(NewRow { id: random_id(), key, data: records[i].data.clone(), created_at });
            },
            None => {
                return Err(
                    HandlerError::new(
                        "warehouse-data.query_builder.push_values.id",
                        String::from_str("missing field _id"),
                    ),
                );
            },
        }
        i = i + 1;
    }
    Ok(rows)
}

/// The keys of the records in `start..end`, or nothing if one of them has no
/// usable key.
pub fn batch_keys(records: &Vec<Record>, start: usize, end: usize) -> (result: Option<Vec<String>>)
    requires
        start <= end <= records@.len(),
    ensures
        batch_usable(records@, start as int, end as int) ==> (result matches Some(keys)
            && keys_of_batch(keys@, records@, start as int, end as int)),
        !batch_usable(records@, start as int, end as int) ==> result is None,
{
    let mut keys: Vec<String> = Vec::new();
    let mut i: usize = start;
    while i < end
        invariant
            start <= i <= end <= records@.len(),
            batch_usable(records@, start as int, i as int),
            keys_of_batch(keys@, records@, start as int, i as int),
        decreases end - i,
    {
        match records[i].key.to_text() {
            Some(key) => {
                keys.push(key);
            },
            None => {
                return None;
            },
        }
        i = i + 1;
    }
    Some(keys)
}

/// Where the handling of one event stands.
#[derive(Debug, Clone, Copy, PartialEq, Eq)]
pub enum ProjectionPhase {
    /// Waiting for the imported batch to be read from its blob.
    AwaitBlob,
    /// Waiting to learn which table the tenant has, if any.
    AwaitTable,
    /// Waiting for the tenant's table to be created.
    AwaitProvision,
    /// Waiting for the current batch to be written.
    AwaitUpsert,
    /// Waiting for the rows of the current batch to be read back.
    AwaitRows,
    /// Waiting for the notification about the current batch to go out.
    AwaitPublish,
    /// The event has been handled, or has failed.
    Finished,
}

/// What the caller is asked to do next.
#[derive(Debug, PartialEq, Eq)]
pub enum ProjectionAction {
    /// Read the imported records stored at the path.
    ReadBlob { path: String },
    /// Look up the tenant's table.
    FindTable { user_id: String },
    /// In one transaction: record that the tenant has this table, create the
    /// table, and create the unique index on its keys. If any of the three
    /// fails, undo all of them.
    Provision { warehouse: Warehouse },
    /// In one statement: insert the rows, and where a key is already there,
    /// overwrite that row's data and set its `updated_at` to the new row's
    /// `created_at`.
    Upsert { table_id: String, rows: Vec<NewRow> },
    /// Read the rows with these keys.
    ReadBack { table_id: String, keys: Vec<String> },
    /// Publish the notification.
    Publish(Notification),
    /// Hand the result to the delivery layer.
    Done(Result<(), HandlerError>),
}

/// How the action that was asked for went.
#[derive(Debug, Clone, PartialEq, Eq)]
pub enum ProjectionReply {
    /// The records read from the blob.
    Blob(Vec<Record>),
    /// The identifier of the tenant's table, if the tenant has one.
    Table(Option<String>),
    /// The table was created.
    Provisioned,
    /// The batch was written.
    Upserted,
    /// The rows that were read back.
    Rows(Vec<WarehouseData>),
    /// The notification went out.
    Published,
    /// The action failed; the text is the failure's detail.
    Failed(String),
}

/// The state of the handling of one event.
#[derive(Debug, Clone, PartialEq, Eq)]
pub struct ProjectionSaga {
    pub phase: ProjectionPhase,
    /// The tenant who asked for the import.
    pub user_id: String,
    pub storage_path: String,
    /// The event's time: the `created_at` of every row this import inserts
    /// and the `updated_at` of every row it overwrites.
    pub created_at: u64,
    pub records: Vec<Record>,
    pub table_id: String,
    /// Where the current batch starts.
    pub batch_start: usize,
}

/// `saga` in the given phase, everything else unchanged.
pub open spec fn projection_in_phase(saga: ProjectionSaga, phase: ProjectionPhase) -> ProjectionSaga {
    ProjectionSaga {
        phase,
        user_id: saga.user_id,
        storage_path: saga.storage_path,
        created_at: saga.created_at,
        records: saga.records,
        table_id: saga.table_id,
        batch_start: saga.batch_start,
    }
}

/// Whether `action` hands an error with this code and reason to the
/// delivery layer.
pub open spec fn rejects_with(action: ProjectionAction, code: Seq<char>, reason: Seq<char>) -> bool {
    action matches ProjectionAction::Done(Err(e)) && e.says(code, reason)
}

/// What happens when the batch that starts at `start` is due: without
/// records left the handling is over; a batch with a record that has no
/// usable key fails before anything of it is written; any other batch is
/// sent to the table.
pub open spec fn batch_step(
    pre: ProjectionSaga,
    start: int,
    post: ProjectionSaga,
    action: ProjectionAction,
) -> bool {
    let len = pre.records@.len() as int;
    if start < 0 || start >= len {
        &&& post == projection_in_phase(pre, ProjectionPhase::Finished)
        &&& action == ProjectionAction::Done(Ok(()))
    } else if batch_usable(pre.records@, start, batch_end(len, start)) {
        &&& post == ProjectionSaga {
            batch_start: start as usize,
            ..projection_in_phase(pre, ProjectionPhase::AwaitUpsert)
        }
        &&& action matches ProjectionAction::Upsert { table_id, rows }
        &&& table_id == pre.table_id
        &&& rows_of_batch(rows@, pre.records@, start, batch_end(len, start), pre.created_at)
    } else {
        &&& post == projection_in_phase(pre, ProjectionPhase::Finished)
        &&& rejects_with(action, missing_key_code(), missing_key_reason())
    }
}

/// The transition relation of the handler: from `pre`, on `reply`, it moves
/// to `post` and asks for `action`.
pub open spec fn projection_step(
    pre: ProjectionSaga,
    reply: ProjectionReply,
    post: ProjectionSaga,
    action: ProjectionAction,
) -> bool {
    let len = pre.records@.len() as int;
    match (pre.phase, reply) {
        (ProjectionPhase::AwaitBlob, ProjectionReply::Blob(records)) => {
            &&& post == ProjectionSaga {
                records,
                ..projection_in_phase(pre, ProjectionPhase::AwaitTable)
            }
            &&& action == ProjectionAction::FindTable { user_id: pre.user_id }
        },
        (ProjectionPhase::AwaitBlob, ProjectionReply::Failed(reason)) => {
            &&& post == projection_in_phase(pre, ProjectionPhase::Finished)
            &&& rejects_with(action, "warehouse-data.read_import_data"@, reason@)
        },
        (ProjectionPhase::AwaitTable, ProjectionReply::Table(Some(table_id))) => {
            batch_step(ProjectionSaga { table_id, ..pre }, 0, post, action)
        },
        (ProjectionPhase::AwaitTable, ProjectionReply::Table(None)) => {
            &&& is_table_id(post.table_id@)
            &&& post == ProjectionSaga {
                table_id: post.table_id,
                ..projection_in_phase(pre, ProjectionPhase::AwaitProvision)
            }
            &&& action matches ProjectionAction::Provision { warehouse }
            &&& warehouse.id == post.table_id
            &&& warehouse.user_id == pre.user_id
            &&& warehouse.created_at == pre.created_at
        },
        (ProjectionPhase::AwaitProvision, ProjectionReply::Provisioned) => {
            batch_step(pre, 0, post, action)
        },
        (ProjectionPhase::AwaitUpsert, ProjectionReply::Upserted) => {
            if pre.batch_start < len && batch_usable(
                pre.records@,
                pre.batch_start as int,
                batch_end(len, pre.batch_start as int),
            ) {
                &&& post == projection_in_phase(pre, ProjectionPhase::AwaitRows)
                &&& action matches ProjectionAction::ReadBack { table_id, keys }
                &&& table_id == pre.table_id
                &&& keys_of_batch(
                    keys@,
                    pre.records@,
                    pre.batch_start as int,
                    batch_end(len, pre.batch_start as int),
                )
            } else {
                &&& post == projection_in_phase(pre, ProjectionPhase::Finished)
                &&& rejects_with(action, missing_key_code(), missing_key_reason())
            }
        },
        (ProjectionPhase::AwaitRows, ProjectionReply::Rows(rows)) => {
            &&& post == projection_in_phase(pre, ProjectionPhase::AwaitPublish)
            &&& action matches ProjectionAction::Publish(notification)
            &&& notification.user_id == pre.user_id
            &&& notification.topic@ == spec_topic(pre.table_id@)
            &&& notification.name@ == WarehouseEvent::DataImported.spec_name()
            &&& notification.data == rows
        },
        (ProjectionPhase::AwaitPublish, ProjectionReply::Published) => {
            if pre.batch_start < len {
                batch_step(pre, batch_end(len, pre.batch_start as int), post, action)
            } else {
                batch_step(pre, len, post, action)
            }
        },
        (ProjectionPhase::AwaitTable, ProjectionReply::Failed(reason)) => {
            &&& post == projection_in_phase(pre, ProjectionPhase::Finished)
            &&& rejects_with(action, "sqlx::Error"@, reason@)
        },
        (ProjectionPhase::AwaitProvision, ProjectionReply::Failed(reason)) => {
            &&& post == projection_in_phase(pre, ProjectionPhase::Finished)
            &&& rejects_with(action, "sqlx::Error"@, reason@)
        },
        (ProjectionPhase::AwaitUpsert, ProjectionReply::Failed(reason)) => {
            &&& post == projection_in_phase(pre, ProjectionPhase::Finished)
            &&& rejects_with(action, "sqlx::Error"@, reason@)
        },
        (ProjectionPhase::AwaitRows, ProjectionReply::Failed(reason)) => {
            &&& post == projection_in_phase(pre, ProjectionPhase::Finished)
            &&& rejects_with(action, "sqlx::Error"@, reason@)
        },
        (ProjectionPhase::AwaitPublish, ProjectionReply::Failed(reason)) => {
            &&& post == projection_in_phase(pre, ProjectionPhase::Finished)
            &&& rejects_with(action, "serde_json::Error"@, reason@)
        },
        _ => {
            &&& post == projection_in_phase(pre, ProjectionPhase::Finished)
            &&& rejects_with(action, "warehouse-data.unexpected_reply"@, "unexpected reply"@)
        },
    }
}

/// A batch goes to the table only as a whole: whenever the handler asks for
/// a write, every record of the batch it is about has a usable key, and the
/// rows to write are the rows of exactly that batch.
pub proof fn batch_is_written_whole(
    pre: ProjectionSaga,
    reply: ProjectionReply,
    post: ProjectionSaga,
    action: ProjectionAction,
)
    requires
        projection_step(pre, reply, post, action),
        action is Upsert,
    ensures
        post.phase == ProjectionPhase::AwaitUpsert,
        post.batch_start < post.records@.len(),
        batch_usable(
            post.records@,
            post.batch_start as int,
            batch_end(post.records@.len() as int, post.batch_start as int),
        ),
        rows_of_batch(
            action->Upsert_rows@,
            post.records@,
            post.batch_start as int,
            batch_end(post.records@.len() as int, post.batch_start as int),
            post.created_at,
        ),
        action->Upsert_table_id == post.table_id,
{
    vstd::std_specs::vec::axiom_spec_len(&pre.records);
}

/// No failure is swallowed: whatever fails, the handler stops and hands an
/// error to the delivery layer, and while an action is pending that error
/// carries the failure's own detail.
pub proof fn failures_are_surfaced(
    pre: ProjectionSaga,
    reason: String,
    post: ProjectionSaga,
    action: ProjectionAction,
)
    requires
        projection_step(pre, ProjectionReply::Failed(reason), post, action),
    ensures
        post.phase == ProjectionPhase::Finished,
        action matches ProjectionAction::Done(Err(_)),
        pre.phase != ProjectionPhase::Finished ==> (action matches ProjectionAction::Done(Err(e))
            && e.reason@ == reason@),
{
}

impl ProjectionSaga {
    /// Whether the event has been handled, or has failed.
    pub fn is_finished(&self) -> (finished: bool)
        ensures
            finished == (self.phase == ProjectionPhase::Finished),
    {
        match self.phase {
            ProjectionPhase::Finished => true,
            _ => false,
        }
    }

    /// Starts the handling of `event`. A `data-imported` event starts by
    /// reading the batch it refers to; an event of unknown kind is an error
    /// of decoding.
    pub fn start(event: &Event<DataImported>) -> (out: (ProjectionSaga, ProjectionAction))
        ensures
            out.0.user_id == event.metadata.request_by,
            out.0.storage_path == event.data.storage_path,
            out.0.created_at == event.created_at,
            out.0.records@ == Seq::<Record>::empty(),
            out.0.batch_start == 0,
            match WarehouseEvent::spec_parse(event.name@) {
                Some(WarehouseEvent::DataImported) => out.0.phase == ProjectionPhase::AwaitBlob
                    && out.1 == (ProjectionAction::ReadBlob { path: event.data.storage_path }),
                None => out.0.phase == ProjectionPhase::Finished && rejects_with(
                    out.1,
                    "warehouse-data.event_name"@,
                    event.name@,
                ),
            },
    {
        let saga = ProjectionSaga {
            phase: ProjectionPhase::AwaitBlob,
            user_id: event.metadata.request_by.clone(),
            storage_path: event.data.storage_path.clone(),
            created_at: event.created_at,
            records: Vec::new(),
            table_id: String::new(),
            batch_start: 0,
        };
        match WarehouseEvent::parse(event.name.as_str()) {
            Some(WarehouseEvent::DataImported) => {
                let path = event.data.storage_path.clone();
                (saga, ProjectionAction::ReadBlob { path })
            },
            None => {
                let error = HandlerError::new("warehouse-data.event_name", event.name.clone());
                (saga.finish(), ProjectionAction::Done(Err(error)))
            },
        }
    }

    /// The same state, finished.
    fn finish(self) -> (out: ProjectionSaga)
        ensures
            out == projection_in_phase(self, ProjectionPhase::Finished),
    {
        ProjectionSaga {
            phase: ProjectionPhase::Finished,
            user_id: self.user_id,
            storage_path: self.storage_path,
            created_at: self.created_at,
            records: self.records,
            table_id: self.table_id,
            batch_start: self.batch_start,
        }
    }

    /// The same state in another phase.
    fn enter(self, phase: ProjectionPhase) -> (out: ProjectionSaga)
        ensures
            out == projection_in_phase(self, phase),
    {
        ProjectionSaga {
            phase,
            user_id: self.user_id,
            storage_path: self.storage_path,
            created_at: self.created_at,
            records: self.records,
            table_id: self.table_id,
            batch_start: self.batch_start,
        }
    }

    /// Ends the handling with an error.
    fn reject(self, code: &str, reason: String) -> (out: (ProjectionSaga, ProjectionAction))
        ensures
            out.0 == projection_in_phase(self, ProjectionPhase::Finished),
            rejects_with(out.1, code@, reason@),
    {
        (self.finish(), ProjectionAction::Done(Err(HandlerError::new(code, reason))))
    }

    /// Turns to the batch that starts at `start`.
    fn advance(self, start: usize) -> (out: (ProjectionSaga, ProjectionAction))
        ensures
            batch_step(self, start as int, out.0, out.1),
    {
        let len = self.records.len();
        if start >= len {
            return (self.finish(), ProjectionAction::Done(Ok(())));
        }
        let end = end_of_batch(len, start);
        match build_rows(&self.records, start, end, self.created_at) {
            Ok(rows) => {
                let table_id = self.table_id.clone();
                let saga = ProjectionSaga {
                    phase: ProjectionPhase::AwaitUpsert,
                    user_id: self.user_id,
                    storage_path: self.storage_path,
                    created_at: self.created_at,
                    records: self.records,
                    table_id: self.table_id,
                    batch_start: start,
                };
                (saga, ProjectionAction::Upsert { table_id, rows })
            },
            Err(error) => (self.finish(), ProjectionAction::Done(Err(error))),
        }
    }

    /// Takes the reply to the pending action and answers with the next one.
    pub fn step(self, reply: ProjectionReply) -> (out: (ProjectionSaga, ProjectionAction))
        ensures
            projection_step(self, reply, out.0, out.1),
    {
        match (self.phase, reply) {
            (ProjectionPhase::AwaitBlob, ProjectionReply::Blob(records)) => {
                let user_id = self.user_id.clone();
                let saga = ProjectionSaga {
                    phase: ProjectionPhase::AwaitTable,
                    user_id: self.user_id,
                    storage_path: self.storage_path,
                    created_at: self.created_at,
                    records,
                    table_id: self.table_id,
                    batch_start: self.batch_start,
                };
                (saga, ProjectionAction::FindTable { user_id })
            },
            (ProjectionPhase::AwaitBlob, ProjectionReply::Failed(reason)) => {
                self.reject("warehouse-data.read_import_data", reason)
            },
            (ProjectionPhase::AwaitTable, ProjectionReply::Table(Some(table_id))) => {
                let saga = ProjectionSaga {
                    phase: self.phase,
                    user_id: self.user_id,
                    storage_path: self.storage_path,
                    created_at: self.created_at,
                    records: self.records,
                    table_id,
                    batch_start: self.batch_start,
                };
                saga.advance(0)
            },
            (ProjectionPhase::AwaitTable, ProjectionReply::Table(None)) => {
                let table_id = new_table_id();
                let warehouse = Warehouse {
                    id: table_id.clone(),
                    user_id: self.user_id.clone(),
                    created_at: self.created_at,
                };
                let saga = ProjectionSaga {
                    phase: ProjectionPhase::AwaitProvision,
                    user_id: self.user_id,
                    storage_path: self.storage_path,
                    created_at: self.created_at,
                    records: self.records,
                    table_id,
                    batch_start: self.batch_start,
                };
                (saga, ProjectionAction::Provision { warehouse })
            },
            (ProjectionPhase::AwaitProvision, ProjectionReply::Provisioned) => self.advance(0),
            (ProjectionPhase::AwaitUpsert, ProjectionReply::Upserted) => {
                let len = self.records.len();
                if self.batch_start < len {
                    let end = end_of_batch(len, self.batch_start);
                    match batch_keys(&self.records, self.batch_start, end) {
                        Some(keys) => {
                            let table_id = self.table_id.clone();
                            (
                                self.enter(ProjectionPhase::AwaitRows),
                                ProjectionAction::ReadBack { table_id, keys },
                            )
                        },
                        None => self.reject(
                            "warehouse-data.query_builder.push_values.id",
                            String::from_str("missing field _id"),
                        ),
                    }
                } else {
                    self.reject(
                        "warehouse-data.query_builder.push_values.id",
                        String::from_str("missing field _id"),
                    )
                }
            },
            (ProjectionPhase::AwaitRows, ProjectionReply::Rows(rows)) => {
                let notification = Notification {
                    user_id: self.user_id.clone(),
                    topic: topic(self.table_id.as_str()),
                    name: WarehouseEvent::DataImported.name(),
                    data: rows,
                };
                (self.enter(ProjectionPhase::AwaitPublish), ProjectionAction::Publish(notification))
            },
            (ProjectionPhase::AwaitPublish, ProjectionReply::Published) => {
                let len = self.records.len();
                if self.batch_start < len {
                    let next = end_of_batch(len, self.batch_start);
                    self.advance(next)
                } else {
                    self.advance(len)
                }
            },
            (ProjectionPhase::AwaitTable, ProjectionReply::Failed(reason)) => {
                self.reject("sqlx::Error", reason)
            },
            (ProjectionPhase::AwaitProvision, ProjectionReply::Failed(reason)) => {
                self.reject("sqlx::Error", reason)
            },
            (ProjectionPhase::AwaitUpsert, ProjectionReply::Failed(reason)) => {
                self.reject("sqlx::Error", reason)
            },
            (ProjectionPhase::AwaitRows, ProjectionReply::Failed(reason)) => {
                self.reject("sqlx::Error", reason)
            },
            (ProjectionPhase::AwaitPublish, ProjectionReply::Failed(reason)) => {
                self.reject("serde_json::Error", reason)
            },
            _ => self.reject("warehouse-data.unexpected_reply", String::from_str("unexpected reply")),
        }
    }
}

} // verus!
