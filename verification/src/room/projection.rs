//! The rows listed for each user's rooms, and how an event becomes one.

use vstd::prelude::*;
use vstd::string::StringExecFns;
use crate::event::{Event, HandlerError, Subscriber};
use crate::ident::{parse_uuid, is_hyphenated_uuid, parsed_uuid};
use crate::text::join2;
use crate::room::event::{Created, RoomEvent};

verus! {

/// One listed room.
#[derive(Debug, Clone, PartialEq, Eq)]
pub struct Room {
    pub id: String,
    pub name: String,
    /// The owner, as a UUID in the hyphenated lower-case form.
    pub user_id: String,
    /// Microseconds since the Unix epoch.
    pub created_at: u64,
}

/// What is published when a room was created.
#[derive(Debug, Clone, PartialEq, Eq)]
pub struct RoomNotification {
    pub user_id: String,
    pub topic: String,
    pub name: String,
    pub data: Room,
}

/// The consumer that lists the rooms: it is called `rooms` and listens to
/// every room stream.
pub fn rooms() -> (subscriber: Subscriber)
    ensures
        subscriber.key@ == "rooms"@,
        subscriber.filter@ == "room/#"@,
{
    Subscriber { key: String::from_str("rooms"), filter: String::from_str("room/#") }
}

/// Whether `row` is the row that `event` creates for the owner `user_id`.
pub open spec fn is_row_of(row: Room, event: Event<Created>, user_id: Seq<char>) -> bool {
    &&& row.id == event.aggregate_id
    &&& row.name == event.data.name
    &&& row.user_id@ == user_id
    &&& row.created_at == event.created_at
}

/// The topic on which the room `id` is announced.
pub open spec fn spec_topic(id: Seq<char>) -> Seq<char> {
    "rooms/"@ + id
}

/// The row that `event` creates, given the owner as read from the event's
/// metadata: `None` if the sender's identifier is no UUID.
pub fn row_for(event: &Event<Created>, owner: Option<String>) -> (result: Result<Room, HandlerError>)
    ensures
        match RoomEvent::spec_parse(event.name@) {
            Some(RoomEvent::Created) => match owner {
                Some(user_id) => result matches Ok(row) && is_row_of(row, *event, user_id@),
                None => result matches Err(e) && e.says("uuid::Error"@, event.metadata.request_by@),
            },
            None => result matches Err(e) && e.says("rooms.event_name"@, event.name@),
        },
{
    match RoomEvent::parse(event.name.as_str()) {
        Some(RoomEvent::Created) => match owner {
            Some(user_id) => Ok(
                Room {
                    id: event.aggregate_id.clone(),
                    name: event.data.name.clone(),
                    user_id,
                created_at: event.created_at,
                },
            ),
            None => Err(HandlerError::new("uuid::Error", event.metadata.request_by.clone())),
        },
        None => Err(HandlerError::new("rooms.event_name", event.name.clone())),
    }
}

/// The row that `event` creates. The sender named in the event's metadata
/// becomes the owner and must be a UUID.
pub fn row_of(event: &Event<Created>) -> (result: Result<Room, HandlerError>)
    ensures
        match RoomEvent::spec_parse(event.name@) {
            Some(RoomEvent::Created) => match parsed_uuid(event.metadata.request_by@) {
                Some(user_id) => result matches Ok(row) && is_row_of(row, *event, user_id)
                    && is_hyphenated_uuid(row.user_id@),
                None => result matches Err(e) && e.says("uuid::Error"@, event.metadata.request_by@),
            },
            None => result matches Err(e) && e.says("rooms.event_name"@, event.name@),
        },
{
    let owner = parse_uuid(event.metadata.request_by.as_str());
    row_for(event, owner)
}

/// The notification about a new row, addressed to the sender of the command.
pub fn notification(sender: &str, row: Room) -> (out: RoomNotification)
    ensures
        out.user_id@ == sender@,
        out.topic@ == spec_topic(row.id@),
        out.name@ == RoomEvent::Created.spec_name(),
        out.data == row,
{
    RoomNotification {
        user_id: String::from_str(sender),
        topic: join2("rooms/", row.id.as_str()),
        name: RoomEvent::Created.name(),
        data: row,
    }
}

/// The statement that stores a row; its parameters are the row's columns in
/// the order `id, name, user_id, created_at`.
pub open spec fn spec_insert_row() -> Seq<char> {
    "INSERT INTO rooms (id, name, user_id, created_at) VALUES ($1, $2, $3, $4)"@
}

pub fn insert_row() -> (sql: String)
    ensures
        sql@ == spec_insert_row(),
{
    String::from_str("INSERT INTO rooms (id, name, user_id, created_at) VALUES ($1, $2, $3, $4)")
}

} // verus!
