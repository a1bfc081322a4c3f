//! What every command carries: who asked, and the request it belongs to.

use vstd::prelude::*;
use crate::error::Error;
use crate::event::EventDraft;

verus! {

/// The request context stored with each event.
#[derive(Debug, Clone, PartialEq, Eq)]
pub struct CommandMetadata {
    pub request_by: String,
    pub request_id: String,
}

/// A command's input together with the authenticated user who sent it.
#[derive(Debug, Clone, PartialEq, Eq)]
pub struct CommandInput<I> {
    pub user_id: String,
    pub input: I,
}

impl<I> CommandInput<I> {
    /// Pairs an input with the subject of the caller's token.
    pub fn new(subject: String, input: I) -> (out: Self)
        ensures
            out.user_id == subject,
            out.input == input,
    {
        Self { input, user_id: subject }
    }
}

/// One event to append to one stream, and the version the stream must have.
#[derive(Debug, Clone, PartialEq, Eq)]
pub struct AppendPlan<D> {
    pub aggregate_id: String,
    pub event: EventDraft<D>,
    pub expected_version: u64,
}

/// How an append went.
#[derive(Debug, Clone, PartialEq, Eq)]
pub enum AppendReply {
    /// The event was appended.
    Appended,
    /// The stream is not at the expected version.
    Conflict,
    /// The append failed; the text is the failure's detail.
    Failed(String),
}

/// What a command that appended to `aggregate_id` returns: the aggregate's
/// identifier after a successful append, and the append's failure otherwise.
pub fn append_result(aggregate_id: String, reply: AppendReply) -> (result: Result<String, Error>)
    ensures
        match reply {
            AppendReply::Appended => result == Ok::<String, Error>(aggregate_id),
            AppendReply::Conflict => result == Err::<String, Error>(Error::VersionConflict),
            AppendReply::Failed(detail) => result == Err::<String, Error>(
                Error::InternalServerErr(detail),
            ),
        },
{
    match reply {
        AppendReply::Appended => Ok(aggregate_id),
        AppendReply::Conflict => Err(Error::VersionConflict),
        AppendReply::Failed(detail) => Err(Error::InternalServerErr(detail)),
    }
}

} // verus!
