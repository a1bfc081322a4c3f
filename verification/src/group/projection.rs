//! The rows listed for each user's groups, and how an event becomes one.

use vstd::prelude::*;
use vstd::string::StringExecFns;
use crate::event::{Event, HandlerError, Subscriber};
use crate::ident::{parse_uuid, is_hyphenated_uuid, parsed_uuid};
use crate::text::join2;
use crate::group::event::{Created, GroupEvent};

verus! {

/// One listed group.
#[derive(Debug, Clone, PartialEq, Eq)]
pub struct Group {
    pub id: String,
    pub name: String,
    /// The owner, as a UUID in the hyphenated lower-case form.
    pub user_id: String,
}

/// What is published when a group was created.
#[derive(Debug, Clone, PartialEq, Eq)]
pub struct GroupNotification {
    pub user_id: String,
    pub topic: String,
    pub name: String,
    pub data: Group,
}

/// The consumer that lists the groups: it is called `groups` and listens to
/// every group stream.
pub fn groups() -> (subscriber: Subscriber)
    ensures
        subscriber.key@ == "groups"@,
        subscriber.filter@ == "group/#"@,
{
    Subscriber { key: String::from_str("groups"), filter: String::from_str("group/#") }
}

/// Whether `row` is the row that `event` creates for the owner `user_id`.
pub open spec fn is_row_of(row: Group, event: Event<Created>, user_id: Seq<char>) -> bool {
    &&& row.id == event.aggregate_id
    &&& row.name == event.data.name
    &&& row.user_id@ == user_id
}

/// The topic on which the group `id` is announced.
pub open spec fn spec_topic(id: Seq<char>) -> Seq<char> {
    "groups/"@ + id
}

/// The row that `event` creates, given the owner as read from the event's
/// metadata: `None` if the sender's identifier is no UUID.
pub fn row_for(event: &Event<Created>, owner: Option<String>) -> (result: Result<Group, HandlerError>)
    ensures
        match GroupEvent::spec_parse(event.name@) {
            Some(GroupEvent::Created) => match owner {
                Some(user_id) => result matches Ok(row) && is_row_of(row, *event, user_id@),
                None => result matches Err(e) && e.says("uuid::Error"@, event.metadata.request_by@),
            },
            None => result matches Err(e) && e.says("groups.event_name"@, event.name@),
        },
{
    match GroupEvent::parse(event.name.as_str()) {
        Some(GroupEvent::Created) => match owner {
            Some(user_id) => Ok(
                Group {
                    id: event.aggregate_id.clone(),
                    name: event.data.name.clone(),
                    user_id,
                },
            ),
            None => Err(HandlerError::new("uuid::Error", event.metadata.request_by.clone())),
        },
        None => Err(HandlerError::new("groups.event_name", event.name.clone())),
    }
}

/// The row that `event` creates. The sender named in the event's metadata
/// becomes the owner and must be a UUID.
pub fn row_of(event: &Event<Created>) -> (result: Result<Group, HandlerError>)
    ensures
        match GroupEvent::spec_parse(event.name@) {
            Some(GroupEvent::Created) => match parsed_uuid(event.metadata.request_by@) {
                Some(user_id) => result matches Ok(row) && is_row_of(row, *event, user_id)
                    && is_hyphenated_uuid(row.user_id@),
                None => result matches Err(e) && e.says("uuid::Error"@, event.metadata.request_by@),
            },
            None => result matches Err(e) && e.says("groups.event_name"@, event.name@),
        },
{
    let owner = parse_uuid(event.metadata.request_by.as_str());
    row_for(event, owner)
}

/// The notification about a new row, addressed to the sender of the command.
pub fn notification(sender: &str, row: Group) -> (out: GroupNotification)
    ensures
        out.user_id@ == sender@,
        out.topic@ == spec_topic(row.id@),
        out.name@ == GroupEvent::Created.spec_name(),
        out.data == row,
{
    GroupNotification {
        user_id: String::from_str(sender),
        topic: join2("groups/", row.id.as_str()),
        name: GroupEvent::Created.name(),
        data: row,
    }
}

/// The statement that stores a row; its parameters are the row's columns in
/// the order `id, name, user_id`.
pub open spec fn spec_insert_row() -> Seq<char> {
    "INSERT INTO groups (id, name, user_id) VALUES ($1, $2, $3)"@
}

pub fn insert_row() -> (sql: String)
    ensures
        sql@ == spec_insert_row(),
{
    String::from_str("INSERT INTO groups (id, name, user_id) VALUES ($1, $2, $3)")
}

} // verus!
