//! The command that creates a room.

use vstd::prelude::*;
use crate::command::{AppendPlan, CommandInput, CommandMetadata};
use crate::event::EventDraft;
use crate::ident::{is_random_id, is_hyphenated_uuid, random_id, random_request_id};
use crate::room::event::{Created, RoomEvent};

verus! {

/// The input of the command: the new room's name.
#[derive(Debug, Clone, PartialEq, Eq)]
pub struct CreateCommand {
    pub name: String,
}

/// Whether `plan` creates the room `id` as `input` asks for it, under the
/// request `request_id`: one `created` event with the name, appended to a
/// stream that must not exist yet.
pub open spec fn creates(
    plan: AppendPlan<Created>,
    input: CommandInput<CreateCommand>,
    id: String,
    request_id: String,
) -> bool {
    &&& plan.aggregate_id == id
    &&& plan.expected_version == 0
    &&& plan.event.name@ == RoomEvent::Created.spec_name()
    &&& plan.event.data.name == input.input.name
    &&& plan.event.metadata.request_by == input.user_id
    &&& plan.event.metadata.request_id == request_id
}

/// The append that creates the room `id` under the request `request_id`.
pub fn create_with(input: CommandInput<CreateCommand>, id: String, request_id: String) -> (plan:
    AppendPlan<Created>)
    ensures
        creates(plan, input, id, request_id),
{
    AppendPlan {
        aggregate_id: id,
        event: EventDraft {
            name: RoomEvent::Created.name(),
            data: Created { name: input.input.name },
            metadata: CommandMetadata { request_by: input.user_id, request_id },
        },
        expected_version: 0,
    }
}

/// The append that creates a room under a fresh identifier and a fresh
/// request identifier.
pub fn create(input: CommandInput<CreateCommand>) -> (plan: AppendPlan<Created>)
    ensures
        creates(plan, input, plan.aggregate_id, plan.event.metadata.request_id),
        is_random_id(plan.aggregate_id@),
        is_hyphenated_uuid(plan.event.metadata.request_id@),
{
    let id = random_id();
    let request_id = random_request_id();
    create_with(input, id, request_id)
}

} // verus!
