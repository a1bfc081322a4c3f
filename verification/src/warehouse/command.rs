//! The import command: validate the batch, store it as a blob, then append
//! the event that refers to it, and take the blob back if the append fails.
//!
//! The command is a state machine. Each step takes the reply to the action
//! that the previous step asked for and answers with the next action; the
//! caller performs the actions. Nothing is stored or appended before the
//! batch has been validated, and the event is appended only after the blob
//! has been written.

use vstd::prelude::*;
use vstd::string::StringExecFns;
use crate::command::{CommandInput, CommandMetadata};
use crate::error::Error;
use crate::event::{append_outcome, AppendError, Event, EventDraft, StreamKey};
use crate::ident::{is_hyphenated_uuid, random_request_id};
use crate::text::{append_decimal, decimal};
use crate::warehouse::aggregate::folded_paths;
use crate::warehouse::event::{DataImported, WarehouseEvent};
use crate::warehouse::service::{get_import_data_path, is_import_data_path};

verus! {

/// The name of the field that holds a record's business key.
pub fn key_field() -> (name: &'static str)
    ensures
        name@ == "_id"@,
{
    "_id"
}

/// What a record carries under its business-key field.
#[derive(Debug, Clone, PartialEq, Eq)]
pub enum BusinessKey {
    /// The field is absent.
    Missing,
    /// A string.
    Text(String),
    /// A number, in the text form under which it is filed.
    Number(String),
    /// Anything else: null, a boolean, a list or an object.
    Other,
}

/// One imported record: its business key and the whole record as JSON text.
#[derive(Debug, Clone, PartialEq, Eq)]
pub struct Record {
    pub key: BusinessKey,
    pub data: String,
}

/// The input of the import command: the records, in the caller's order.
#[derive(Debug, Clone, PartialEq, Eq)]
pub struct ImportDataCommand {
    pub data: Vec<Record>,
}

impl BusinessKey {
    /// Whether the key can file a record: it is a string or a number.
    pub open spec fn usable(self) -> bool {
        self is Text || self is Number
    }

    /// The text under which a usable key files its record.
    pub open spec fn text(self) -> Seq<char> {
        match self {
            BusinessKey::Text(text) => text@,
            BusinessKey::Number(text) => text@,
            _ => Seq::<char>::empty(),
        }
    }

    pub fn is_usable(&self) -> (usable: bool)
        ensures
            usable == self.usable(),
    {
        match self {
            BusinessKey::Text(_) => true,
            BusinessKey::Number(_) => true,
            _ => false,
        }
    }

    /// The text of a usable key, and nothing for any other.
    pub fn to_text(&self) -> (text: Option<String>)
        ensures
            match text {
                Some(text) => self.usable() && text@ == self.text(),
                None => !self.usable(),
            },
    {
        match self {
            BusinessKey::Text(text) => Some(text.clone()),
            BusinessKey::Number(text) => Some(text.clone()),
            _ => None,
        }
    }
}

/// The first position at or after `from` whose record has no usable key.
pub open spec fn first_invalid_from(records: Seq<Record>, from: int) -> Option<int>
    decreases records.len() - from,
{
    if from < 0 || from >= records.len() {
        None
    } else if !records[from].key.usable() {
        Some(from)
    } else {
        first_invalid_from(records, from + 1)
    }
}

/// The position of the first record without a usable key.
pub open spec fn first_invalid(records: Seq<Record>) -> Option<int> {
    first_invalid_from(records, 0)
}

/// What the caller is told about a record without a usable key at `index`.
pub open spec fn missing_key_message(index: nat) -> Seq<char> {
    "Missing field _id or not (string | number) at index "@ + decimal(index)
}

/// `first_invalid_from` finds an unusable key, the first one from `from` on,
/// exactly when there is one.
pub proof fn first_invalid_is_least(records: Seq<Record>, from: int)
    requires
        0 <= from,
    ensures
        match first_invalid_from(records, from) {
            Some(i) => from <= i < records.len() && !records[i].key.usable() && forall|j: int|
                from <= j < i ==> (#[trigger] records[j]).key.usable(),
            None => forall|j: int| from <= j < records.len() ==> (#[trigger] records[j]).key.usable(),
        },
    decreases records.len() - from,
{
    if from < records.len() && records[from].key.usable() {
        first_invalid_is_least(records, from + 1);
    }
}

/// The position of the first record without a usable key, if there is one.
pub fn first_invalid_index(records: &Vec<Record>) -> (found: Option<usize>)
    ensures
        match found {
            Some(i) => first_invalid(records@) == Some(i as int),
            None => first_invalid(records@) is None,
        },
{
    let mut i: usize = 0;
    while i < records.len()
        invariant
            i <= records@.len(),
            first_invalid(records@) == first_invalid_from(records@, i as int),
        decreases records@.len() - i,
    {
        if !records[i].key.is_usable() {
            return Some(i);
        }
        i = i + 1;
    }
    None
}

/// Checks a batch: every record needs a usable business key. The first one
/// that has none is reported by its position, counted from 0.
pub fn validate(records: &Vec<Record>) -> (result: Result<(), Error>)
    ensures
        match first_invalid(records@) {
            Some(i) => result matches Err(Error::BadRequest(reason)) && reason@
                == missing_key_message(i as nat),
            None => result is Ok,
        },
{
    match first_invalid_index(records) {
        Some(i) => {
            let mut reason = String::from_str("Missing field _id or not (string | number) at index ");
            append_decimal(&mut reason, i as u64);
            Err(Error::BadRequest(reason))
        },
        None => Ok(()),
    }
}

/// Where an import stands.
#[derive(Debug, Clone, Copy, PartialEq, Eq)]
pub enum ImportPhase {
    /// Waiting for the aggregate's current version.
    AwaitVersion,
    /// Waiting to learn whether the chosen path is already taken.
    AwaitExists,
    /// Waiting for the blob to be written.
    AwaitWrite,
    /// Waiting for the event to be appended.
    AwaitAppend,
    /// The append failed; waiting for the blob to be taken back.
    AwaitDelete,
    /// The command has returned.
    Finished,
}

/// What the caller is asked to do next.
#[derive(Debug, PartialEq, Eq)]
pub enum ImportAction {
    /// Load the aggregate and reply with its version, 0 if it has no events.
    LoadVersion { aggregate_id: String },
    /// Reply whether a blob exists at the path.
    CheckBlob { path: String },
    /// Write the whole batch to the path.
    WriteBlob { path: String },
    /// Append the event, expecting the given version.
    Append { aggregate_id: String, event: EventDraft<DataImported>, expected_version: u64 },
    /// Delete the blob at the path.
    DeleteBlob { path: String },
    /// Return the result to the caller of the command.
    Done(Result<String, Error>),
}

/// How the action that was asked for went.
#[derive(Debug, Clone, PartialEq, Eq)]
pub enum ImportReply {
    /// The aggregate was loaded and has this version.
    Version(u64),
    /// Whether a blob exists at the path.
    Exists(bool),
    /// The blob was written.
    Written,
    /// The event was appended.
    Appended,
    /// The append was refused: the stream is no longer at the expected version.
    Conflict,
    /// The blob was deleted.
    Deleted,
    /// The action failed; the text is the failure's detail.
    Failed(String),
}

/// The state of one import.
#[derive(Debug, Clone, PartialEq, Eq)]
pub struct ImportSaga {
    pub phase: ImportPhase,
    pub user_id: String,
    pub request_id: String,
    pub storage_path: String,
    /// The aggregate's version as loaded; the append expects it.
    pub version: u64,
    /// The append's failure, kept while the blob is taken back.
    pub failure: Option<Error>,
    /// Why taking the blob back failed, for the log. It never changes what
    /// the caller is told.
    pub cleanup_failure: Option<String>,
}

/// The message for a path that is already taken.
pub open spec fn path_taken_message() -> Seq<char> {
    "Import data kv already exist"@
}

/// The message for a reply that does not answer the pending action.
pub open spec fn unexpected_reply_message() -> Seq<char> {
    "unexpected reply"@
}

/// Whether `event` is the event of the import that `saga` describes.
pub open spec fn is_import_event(event: EventDraft<DataImported>, saga: ImportSaga) -> bool {
    &&& event.name@ == WarehouseEvent::DataImported.spec_name()
    &&& event.data.storage_path == saga.storage_path
    &&& event.metadata.request_by == saga.user_id
    &&& event.metadata.request_id == saga.request_id
}

/// `saga` in the given phase, everything else unchanged.
pub open spec fn in_phase(saga: ImportSaga, phase: ImportPhase) -> ImportSaga {
    ImportSaga {
        phase,
        user_id: saga.user_id,
        request_id: saga.request_id,
        storage_path: saga.storage_path,
        version: saga.version,
        failure: saga.failure,
        cleanup_failure: saga.cleanup_failure,
    }
}

/// Whether the action reports an internal failure with the given message.
pub open spec fn fails_with(action: ImportAction, message: Seq<char>) -> bool {
    action matches ImportAction::Done(Err(Error::InternalServerErr(detail))) && detail@ == message
}

/// The transition relation of the import: from `pre`, on `reply`, the
/// machine moves to `post` and asks for `action`.
pub open spec fn import_step(
    pre: ImportSaga,
    reply: ImportReply,
    post: ImportSaga,
    action: ImportAction,
) -> bool {
    match (pre.phase, reply) {
        (ImportPhase::AwaitVersion, ImportReply::Version(version)) => {
            &&& post == ImportSaga { version, ..in_phase(pre, ImportPhase::AwaitExists) }
            &&& action == ImportAction::CheckBlob { path: pre.storage_path }
        },
        (ImportPhase::AwaitExists, ImportReply::Exists(false)) => {
            &&& post == in_phase(pre, ImportPhase::AwaitWrite)
            &&& action == ImportAction::WriteBlob { path: pre.storage_path }
        },
        (ImportPhase::AwaitExists, ImportReply::Exists(true)) => {
            &&& post == in_phase(pre, ImportPhase::Finished)
            &&& fails_with(action, path_taken_message())
        },
        (ImportPhase::AwaitWrite, ImportReply::Written) => {
            &&& post == in_phase(pre, ImportPhase::AwaitAppend)
            &&& action matches ImportAction::Append { aggregate_id, event, expected_version }
            &&& aggregate_id == pre.user_id
            &&& is_import_event(event, pre)
            &&& expected_version == pre.version
        },
        (ImportPhase::AwaitAppend, ImportReply::Appended) => {
            &&& post == in_phase(pre, ImportPhase::Finished)
            &&& action == ImportAction::Done(Ok(pre.user_id))
        },
        (ImportPhase::AwaitAppend, ImportReply::Conflict) => {
            &&& post == ImportSaga {
                failure: Some(Error::VersionConflict),
                ..in_phase(pre, ImportPhase::AwaitDelete)
            }
            &&& action == ImportAction::DeleteBlob { path: pre.storage_path }
        },
        (ImportPhase::AwaitAppend, ImportReply::Failed(detail)) => {
            &&& post == ImportSaga {
                failure: Some(Error::InternalServerErr(detail)),
                ..in_phase(pre, ImportPhase::AwaitDelete)
            }
            &&& action == ImportAction::DeleteBlob { path: pre.storage_path }
        },
        (ImportPhase::AwaitDelete, ImportReply::Failed(detail)) => {
            &&& post == ImportSaga {
                cleanup_failure: Some(detail),
                ..in_phase(pre, ImportPhase::Finished)
            }
            &&& pending_failure_returned(pre, action)
        },
        (ImportPhase::AwaitDelete, _) => {
            &&& post == in_phase(pre, ImportPhase::Finished)
            &&& pending_failure_returned(pre, action)
        },
        (ImportPhase::AwaitVersion, ImportReply::Failed(detail)) => {
            &&& post == in_phase(pre, ImportPhase::Finished)
            &&& action == ImportAction::Done(Err(Error::InternalServerErr(detail)))
        },
        (ImportPhase::AwaitExists, ImportReply::Failed(detail)) => {
            &&& post == in_phase(pre, ImportPhase::Finished)
            &&& action == ImportAction::Done(Err(Error::InternalServerErr(detail)))
        },
        (ImportPhase::AwaitWrite, ImportReply::Failed(detail)) => {
            &&& post == in_phase(pre, ImportPhase::Finished)
            &&& action == ImportAction::Done(Err(Error::InternalServerErr(detail)))
        },
        _ => {
            &&& post == in_phase(pre, ImportPhase::Finished)
            &&& fails_with(action, unexpected_reply_message())
        },
    }
}

/// Whether `action` returns the failure that `pre` kept from the append. A
/// machine that kept none reports an internal failure.
pub open spec fn pending_failure_returned(pre: ImportSaga, action: ImportAction) -> bool {
    match pre.failure {
        Some(failure) => action == ImportAction::Done(Err(failure)),
        None => fails_with(action, unexpected_reply_message()),
    }
}

/// How far an import has come: the phases in the order in which they are passed.
pub open spec fn phase_rank(phase: ImportPhase) -> nat {
    match phase {
        ImportPhase::AwaitVersion => 0,
        ImportPhase::AwaitExists => 1,
        ImportPhase::AwaitWrite => 2,
        ImportPhase::AwaitAppend => 3,
        ImportPhase::AwaitDelete => 4,
        ImportPhase::Finished => 5,
    }
}

/// Every step moves the import forward, so it returns after at most five
/// replies; and it reports its result exactly when it finishes.
pub proof fn import_always_advances(
    pre: ImportSaga,
    reply: ImportReply,
    post: ImportSaga,
    action: ImportAction,
)
    requires
        import_step(pre, reply, post, action),
    ensures
        pre.phase != ImportPhase::Finished ==> phase_rank(post.phase) > phase_rank(pre.phase),
        post.phase == ImportPhase::Finished <==> action is Done,
{
}

/// No step changes whose import it is, which request it belongs to, or where
/// its batch is stored.
pub proof fn import_keeps_its_identity(
    pre: ImportSaga,
    reply: ImportReply,
    post: ImportSaga,
    action: ImportAction,
)
    requires
        import_step(pre, reply, post, action),
    ensures
        post.user_id == pre.user_id,
        post.request_id == pre.request_id,
        post.storage_path == pre.storage_path,
{
}

/// The blob is written only to the import's own path, and only after that
/// path was found free.
pub proof fn blob_written_only_to_free_path(
    pre: ImportSaga,
    reply: ImportReply,
    post: ImportSaga,
    action: ImportAction,
)
    requires
        import_step(pre, reply, post, action),
        action is WriteBlob,
    ensures
        pre.phase == ImportPhase::AwaitExists,
        reply == ImportReply::Exists(false),
        action == (ImportAction::WriteBlob { path: pre.storage_path }),
{
}

/// An event is appended only after the blob it refers to has been written:
/// the append is asked for in reply to the write's success and at no other
/// time, names the path that was written, and expects the version that was
/// loaded.
pub proof fn event_appended_only_after_write(
    pre: ImportSaga,
    reply: ImportReply,
    post: ImportSaga,
    action: ImportAction,
)
    requires
        import_step(pre, reply, post, action),
        action is Append,
    ensures
        pre.phase == ImportPhase::AwaitWrite,
        reply == ImportReply::Written,
        action->Append_event.data.storage_path == pre.storage_path,
        action->Append_expected_version == pre.version,
        action->Append_aggregate_id == pre.user_id,
{
}

/// The command succeeds only in reply to a successful append, and then it
/// returns the tenant's identifier.
pub proof fn import_succeeds_only_after_append(
    pre: ImportSaga,
    reply: ImportReply,
    post: ImportSaga,
    action: ImportAction,
)
    requires
        import_step(pre, reply, post, action),
        action matches ImportAction::Done(Ok(_)),
    ensures
        pre.phase == ImportPhase::AwaitAppend,
        reply == ImportReply::Appended,
        action == ImportAction::Done(Ok(pre.user_id)),
{
}

/// The failure that a failed append leaves with the caller.
pub open spec fn append_failure(reply: ImportReply) -> Error {
    match reply {
        ImportReply::Failed(detail) => Error::InternalServerErr(detail),
        _ => Error::VersionConflict,
    }
}

/// A failed append is compensated: the next action deletes the import's own
/// blob, and whatever the reply to that is, the caller gets the append's
/// failure unchanged. A failed delete is kept for the log only.
pub proof fn failed_append_is_compensated(
    pre: ImportSaga,
    reply: ImportReply,
    post: ImportSaga,
    action: ImportAction,
    cleanup: ImportReply,
    last: ImportSaga,
    result: ImportAction,
)
    requires
        pre.phase == ImportPhase::AwaitAppend,
        reply is Conflict || reply is Failed,
        import_step(pre, reply, post, action),
        import_step(post, cleanup, last, result),
    ensures
        action == (ImportAction::DeleteBlob { path: pre.storage_path }),
        result == ImportAction::Done(Err(append_failure(reply))),
        last.phase == ImportPhase::Finished,
        cleanup matches ImportReply::Failed(detail) ==> last.cleanup_failure == Some(detail),
{
}

/// A successful import raises the aggregate's version by exactly one and
/// adds exactly one storage path, the path that the blob was written to.
///
/// `stored` is the tenant's stream as the import loaded it, `pre` the import
/// after its blob was written, and `event` the import's event as the stream
/// receives it.
pub proof fn successful_import_adds_one_path(
    stored: Seq<Event<DataImported>>,
    key: StreamKey,
    pre: ImportSaga,
    post: ImportSaga,
    action: ImportAction,
    event: Event<DataImported>,
)
    requires
        pre.phase == ImportPhase::AwaitWrite,
        pre.version == stored.len(),
        import_step(pre, ImportReply::Written, post, action),
        action is Append && event.data == action->Append_event.data,
    ensures
        append_outcome(stored, key, seq![event], action->Append_expected_version) matches Ok(after)
            && after.len() == stored.len() + 1 && folded_paths(after) == folded_paths(stored).push(
            pre.storage_path,
        ),
{
    let after = append_outcome(stored, key, seq![event], action->Append_expected_version)->Ok_0;
    assert(folded_paths(after) =~= folded_paths(stored).push(pre.storage_path));
}

/// Of two imports that loaded the same version, the one that appends second
/// loses: its append is refused with a version conflict, it then deletes
/// its own blob, which is gone afterwards, and its caller gets the version
/// conflict.
///
/// `stored` is the stream as both loaded it, `winner` what the first import
/// appended, `loser` the second import waiting for its append, and `blobs`
/// the blob store at that time.
pub proof fn losing_import_is_rolled_back<T>(
    stored: Seq<Event<DataImported>>,
    key: StreamKey,
    winner: Seq<Event<DataImported>>,
    loser: ImportSaga,
    attempt: Seq<Event<DataImported>>,
    blobs: Map<Seq<char>, T>,
    cleaning: ImportSaga,
    cleanup: ImportAction,
    last: ImportSaga,
    result: ImportAction,
)
    requires
        winner.len() > 0,
        loser.phase == ImportPhase::AwaitAppend,
        append_outcome(stored, key, winner, loser.version) is Ok,
        import_step(loser, ImportReply::Conflict, cleaning, cleanup),
        import_step(cleaning, ImportReply::Deleted, last, result),
    ensures
        append_outcome(
            append_outcome(stored, key, winner, loser.version)->Ok_0,
            key,
            attempt,
            loser.version,
        ) == Err::<Seq<Event<DataImported>>, AppendError>(AppendError::VersionConflict),
        cleanup == (ImportAction::DeleteBlob { path: loser.storage_path }),
        !blobs.remove(loser.storage_path@).dom().contains(loser.storage_path@),
        result == ImportAction::Done(Err(Error::VersionConflict)),
{
}

impl ImportSaga {
    /// Whether the command has returned.
    pub fn is_finished(&self) -> (finished: bool)
        ensures
            finished == (self.phase == ImportPhase::Finished),
    {
        match self.phase {
            ImportPhase::Finished => true,
            _ => false,
        }
    }

    /// Starts an import of `records` for `user_id`, to be stored at
    /// `storage_path` under the request `request_id`.
    ///
    /// A batch with a record that has no usable key is rejected at once,
    /// naming the first such record: the machine is finished and no action
    /// beside returning that rejection is ever asked for. Any other batch
    /// starts by loading the aggregate's version.
    pub fn start(
        user_id: String,
        records: &Vec<Record>,
        request_id: String,
        storage_path: String,
    ) -> (out: (ImportSaga, ImportAction))
        ensures
            out.0.user_id == user_id,
            out.0.request_id == request_id,
            out.0.storage_path == storage_path,
            out.0.version == 0,
            out.0.failure is None,
            out.0.cleanup_failure is None,
            match first_invalid(records@) {
                Some(i) => out.0.phase == ImportPhase::Finished && (out.1 matches ImportAction::Done(
                    Err(Error::BadRequest(reason)),
                ) && reason@ == missing_key_message(i as nat)),
                None => out.0.phase == ImportPhase::AwaitVersion && out.1
                    == (ImportAction::LoadVersion { aggregate_id: user_id }),
            },
    {
        match validate(records) {
            Err(e) => {
                let saga = ImportSaga {
                    phase: ImportPhase::Finished,
                    user_id,
                    request_id,
                    storage_path,
                    version: 0,
                    failure: None,
                    cleanup_failure: None,
                };
                (saga, ImportAction::Done(Err(e)))
            },
            Ok(()) => {
                let aggregate_id = user_id.clone();
                let saga = ImportSaga {
                    phase: ImportPhase::AwaitVersion,
                    user_id,
                    request_id,
                    storage_path,
                    version: 0,
                    failure: None,
                    cleanup_failure: None,
                };
                (saga, ImportAction::LoadVersion { aggregate_id })
            },
        }
    }

    /// Starts an import for the sender of `input`. A valid batch gets a fresh
    /// request identifier and a fresh storage path of its own; for an invalid
    /// one neither is drawn.
    pub fn begin(input: &CommandInput<ImportDataCommand>) -> (out: (ImportSaga, ImportAction))
        ensures
            out.0.user_id == input.user_id,
            out.0.version == 0,
            out.0.failure is None,
            out.0.cleanup_failure is None,
            match first_invalid(input.input.data@) {
                Some(i) => out.0.phase == ImportPhase::Finished && (out.1 matches ImportAction::Done(
                    Err(Error::BadRequest(reason)),
                ) && reason@ == missing_key_message(i as nat)),
                None => out.0.phase == ImportPhase::AwaitVersion && out.1
                    == (ImportAction::LoadVersion { aggregate_id: input.user_id }) && is_hyphenated_uuid(
                    out.0.request_id@,
                ) && is_import_data_path(out.0.storage_path@),
            },
    {
        if first_invalid_index(&input.input.data).is_some() {
            ImportSaga::start(input.user_id.clone(), &input.input.data, String::new(), String::new())
        } else {
            let request_id = random_request_id();
            let storage_path = get_import_data_path();
            ImportSaga::start(input.user_id.clone(), &input.input.data, request_id, storage_path)
        }
    }

    /// The event that records this import.
    pub fn event(&self) -> (event: EventDraft<DataImported>)
        ensures
            is_import_event(event, *self),
    {
        EventDraft {
            name: WarehouseEvent::DataImported.name(),
            data: DataImported { storage_path: self.storage_path.clone() },
            metadata: CommandMetadata {
                request_by: self.user_id.clone(),
                request_id: self.request_id.clone(),
            },
        }
    }

    /// Ends the import with an internal failure.
    fn fail(self, detail: String) -> (out: (ImportSaga, ImportAction))
        ensures
            out.0 == in_phase(self, ImportPhase::Finished),
            out.1 == ImportAction::Done(Err(Error::InternalServerErr(detail))),
    {
        let saga = ImportSaga {
            phase: ImportPhase::Finished,
            user_id: self.user_id,
            request_id: self.request_id,
            storage_path: self.storage_path,
            version: self.version,
            failure: self.failure,
            cleanup_failure: self.cleanup_failure,
        };
        (saga, ImportAction::Done(Err(Error::InternalServerErr(detail))))
    }

    /// Ends the import after the blob was taken back, or could not be: the
    /// caller gets the append's failure either way.
    fn give_up(self, cleanup_failure: Option<String>) -> (out: (ImportSaga, ImportAction))
        ensures
            out.0 == (ImportSaga {
                cleanup_failure: if cleanup_failure is Some {
                    cleanup_failure
                } else {
                    self.cleanup_failure
                },
                ..in_phase(self, ImportPhase::Finished)
            }),
            pending_failure_returned(self, out.1),
    {
        let kept = match cleanup_failure {
            Some(detail) => Some(detail),
            None => self.cleanup_failure,
        };
        let action = match &self.failure {
            Some(failure) => ImportAction::Done(Err(clone_error(failure))),
            None => ImportAction::Done(
                Err(Error::InternalServerErr(String::from_str("unexpected reply"))),
            ),
        };
        let saga = ImportSaga {
            phase: ImportPhase::Finished,
            user_id: self.user_id,
            request_id: self.request_id,
            storage_path: self.storage_path,
            version: self.version,
            failure: self.failure,
            cleanup_failure: kept,
        };
        (saga, action)
    }

    /// Takes the reply to the pending action and answers with the next one.
    pub fn step(self, reply: ImportReply) -> (out: (ImportSaga, ImportAction))
        ensures
            import_step(self, reply, out.0, out.1),
    {
        match (self.phase, reply) {
            (ImportPhase::AwaitVersion, ImportReply::Version(version)) => {
                let path = self.storage_path.clone();
                let saga = ImportSaga {
                    phase: ImportPhase::AwaitExists,
                    user_id: self.user_id,
                    request_id: self.request_id,
                    storage_path: self.storage_path,
                    version,
                    failure: self.failure,
                    cleanup_failure: self.cleanup_failure,
                };
                (saga, ImportAction::CheckBlob { path })
            },
            (ImportPhase::AwaitExists, ImportReply::Exists(false)) => {
                let path = self.storage_path.clone();
                let saga = ImportSaga {
                    phase: ImportPhase::AwaitWrite,
                    user_id: self.user_id,
                    request_id: self.request_id,
                    storage_path: self.storage_path,
                    version: self.version,
                    failure: self.failure,
                    cleanup_failure: self.cleanup_failure,
                };
                (saga, ImportAction::WriteBlob { path })
            },
            (ImportPhase::AwaitExists, ImportReply::Exists(true)) => {
                self.fail(String::from_str("Import data kv already exist"))
            },
            (ImportPhase::AwaitWrite, ImportReply::Written) => {
                let event = self.event();
                let aggregate_id = self.user_id.clone();
                let expected_version = self.version;
                let saga = ImportSaga {
                    phase: ImportPhase::AwaitAppend,
                    user_id: self.user_id,
                    request_id: self.request_id,
                    storage_path: self.storage_path,
                    version: self.version,
                    failure: self.failure,
                    cleanup_failure: self.cleanup_failure,
                };
                (saga, ImportAction::Append { aggregate_id, event, expected_version })
            },
            (ImportPhase::AwaitAppend, ImportReply::Appended) => {
                let id = self.user_id.clone();
                let saga = ImportSaga {
                    phase: ImportPhase::Finished,
                    user_id: self.user_id,
                    request_id: self.request_id,
                    storage_path: self.storage_path,
                    version: self.version,
                    failure: self.failure,
                    cleanup_failure: self.cleanup_failure,
                };
                (saga, ImportAction::Done(Ok(id)))
            },
            (ImportPhase::AwaitAppend, ImportReply::Conflict) => {
                let path = self.storage_path.clone();
                let saga = ImportSaga {
                    phase: ImportPhase::AwaitDelete,
                    user_id: self.user_id,
                    request_id: self.request_id,
                    storage_path: self.storage_path,
                    version: self.version,
                    failure: Some(Error::VersionConflict),
                    cleanup_failure: self.cleanup_failure,
                };
                (saga, ImportAction::DeleteBlob { path })
            },
            (ImportPhase::AwaitAppend, ImportReply::Failed(detail)) => {
                let path = self.storage_path.clone();
                let saga = ImportSaga {
                    phase: ImportPhase::AwaitDelete,
                    user_id: self.user_id,
                    request_id: self.request_id,
                    storage_path: self.storage_path,
                    version: self.version,
                    failure: Some(Error::InternalServerErr(detail)),
                    cleanup_failure: self.cleanup_failure,
                };
                (saga, ImportAction::DeleteBlob { path })
            },
            (ImportPhase::AwaitDelete, ImportReply::Failed(detail)) => self.give_up(Some(detail)),
            (ImportPhase::AwaitDelete, _) => self.give_up(None),
            (ImportPhase::AwaitVersion, ImportReply::Failed(detail)) => self.fail(detail),
            (ImportPhase::AwaitExists, ImportReply::Failed(detail)) => self.fail(detail),
            (ImportPhase::AwaitWrite, ImportReply::Failed(detail)) => self.fail(detail),
            _ => self.fail(String::from_str("unexpected reply")),
        }
    }
}

/// A copy of `error`.
pub fn clone_error(error: &Error) -> (copy: Error)
    ensures
        copy == *error,
{
    match error {
        Error::InternalServerErr(detail) => Error::InternalServerErr(detail.clone()),
        Error::BadRequest(reason) => Error::BadRequest(reason.clone()),
        Error::NotFound(kind, id) => Error::NotFound(kind.clone(), id.clone()),
        Error::VersionConflict => Error::VersionConflict,
    }
}

impl BusinessKey {
    /// A copy of the key.
    pub fn duplicate(&self) -> (copy: BusinessKey)
        ensures
            copy == *self,
    {
        match self {
            BusinessKey::Missing => BusinessKey::Missing,
            BusinessKey::Text(text) => BusinessKey::Text(text.clone()),
            BusinessKey::Number(text) => BusinessKey::Number(text.clone()),
            BusinessKey::Other => BusinessKey::Other,
        }
    }
}

impl Record {
    /// A copy of the record.
    pub fn duplicate(&self) -> (copy: Record)
        ensures
            copy == *self,
    {
        Record { key: self.key.duplicate(), data: self.data.clone() }
    }
}

/// A copy of `records`, record by record.
pub fn duplicate_records(records: &Vec<Record>) -> (copy: Vec<Record>)
    ensures
        copy@ == records@,
{
    let mut copy: Vec<Record> = Vec::new();
    let mut i: usize = 0;
    while i < records.len()
        invariant
            i <= records@.len(),
            copy@ == records@.subrange(0, i as int),
        decreases records@.len() - i,
    {
        copy.push(records[i].duplicate());
        i = i + 1;
        assert(copy@ =~= records@.subrange(0, i as int));
    }
    assert(copy@ =~= records@);
    copy
}

} // verus!
