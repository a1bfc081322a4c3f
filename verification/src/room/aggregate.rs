//! The room aggregate.

use vstd::prelude::*;
use vstd::string::StringExecFns;
use crate::error::Error;
use crate::event::Event;
use crate::room::event::{Created, RoomEvent};

verus! {

/// What is said about an event of a kind that a room does not know.
pub open spec fn unknown_event_message() -> Seq<char> {
    "unknown room event"@
}

/// The state of one room, rebuilt from its events on each load.
#[derive(Debug, Clone, PartialEq, Eq)]
pub struct Room {
    pub id: String,
    pub name: String,
}

impl Room {
    /// The aggregate before any event.
    pub fn new() -> (state: Self)
        ensures
            state.id@ == Seq::<char>::empty(),
            state.name@ == Seq::<char>::empty(),
    {
        Room { id: String::new(), name: String::new() }
    }

    /// The name under which room streams are filed.
    pub fn aggregate_type() -> (name: &'static str)
        ensures
            name@ == "room"@,
    {
        "room"
    }

    /// Folds one event into the state: a `created` event sets the name. An
    /// event of unknown kind is refused and leaves the state as it was.
    pub fn apply(&mut self, event: &Event<Created>) -> (result: Result<(), Error>)
        ensures
            match RoomEvent::spec_parse(event.name@) {
                Some(RoomEvent::Created) => result is Ok && final(self).name == event.data.name
                    && final(self).id == old(self).id,
                None => (result matches Err(Error::InternalServerErr(detail)) && detail@
                    == unknown_event_message()) && *final(self) == *old(self),
            },
    {
        match RoomEvent::parse(event.name.as_str()) {
            Some(RoomEvent::Created) => {
                self.name = event.data.name.clone();
                Ok(())
            },
            None => Err(Error::InternalServerErr(String::from_str("unknown room event"))),
        }
    }
}

impl Default for Room {
    fn default() -> (state: Self)
        ensures
            state.id@ == Seq::<char>::empty(),
            state.name@ == Seq::<char>::empty(),
    {
        Room::new()
    }
}

} // verus!
