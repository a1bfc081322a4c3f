//! The group aggregate.

use vstd::prelude::*;
use vstd::string::StringExecFns;
use crate::error::Error;
use crate::event::Event;
use crate::group::event::{Created, GroupEvent};

verus! {

/// What is said about an event of a kind that a group does not know.
pub open spec fn unknown_event_message() -> Seq<char> {
    "unknown group event"@
}

/// The state of one group, rebuilt from its events on each load.
#[derive(Debug, Clone, PartialEq, Eq)]
pub struct Group {
    pub id: String,
    pub name: String,
    /// The owner, as a UUID in the hyphenated lower-case form.
    pub user_id: String,
}

impl Group {
    /// The aggregate before any event.
    pub fn new() -> (state: Self)
        ensures
            state.id@ == Seq::<char>::empty(),
            state.name@ == Seq::<char>::empty(),
            state.user_id@ == Seq::<char>::empty(),
    {
        Group { id: String::new(), name: String::new(), user_id: String::new() }
    }

    /// The name under which group streams are filed.
    pub fn aggregate_type() -> (name: &'static str)
        ensures
            name@ == "group"@,
    {
        "group"
    }

    /// Folds one event into the state: a `created` event sets the name. An
    /// event of unknown kind is refused and leaves the state as it was.
    pub fn apply(&mut self, event: &Event<Created>) -> (result: Result<(), Error>)
        ensures
            match GroupEvent::spec_parse(event.name@) {
                Some(GroupEvent::Created) => result is Ok && final(self).name == event.data.name
                    && final(self).id == old(self).id && final(self).user_id == old(self).user_id,
                None => (result matches Err(Error::InternalServerErr(detail)) && detail@
                    == unknown_event_message()) && *final(self) == *old(self),
            },
    {
        match GroupEvent::parse(event.name.as_str()) {
            Some(GroupEvent::Created) => {
                self.name = event.data.name.clone();
                Ok(())
            },
            None => Err(Error::InternalServerErr(String::from_str("unknown group event"))),
        }
    }
}

impl Default for Group {
    fn default() -> (state: Self)
        ensures
            state.id@ == Seq::<char>::empty(),
            state.name@ == Seq::<char>::empty(),
            state.user_id@ == Seq::<char>::empty(),
    {
        Group::new()
    }
}

} // verus!
