//! The events of a group aggregate.

use vstd::prelude::*;
use vstd::string::StringExecFns;
use crate::text::same_text;

verus! {

/// The kinds of event that a group stream holds.
#[derive(Debug, Clone, Copy, PartialEq, Eq)]
pub enum GroupEvent {
    Created,
}

/// The payload of a `created` event: the group's name.
#[derive(Debug, Clone, PartialEq, Eq)]
pub struct Created {
    pub name: String,
}

impl GroupEvent {
    /// The kebab-case name under which the kind is stored.
    pub open spec fn spec_name(self) -> Seq<char> {
        match self {
            GroupEvent::Created => "created"@,
        }
    }

    /// The kind stored under `name`, if it is a known one.
    pub open spec fn spec_parse(name: Seq<char>) -> Option<GroupEvent> {
        if name == "created"@ {
            Some(GroupEvent::Created)
        } else {
            None
        }
    }

    pub fn name(&self) -> (name: String)
        ensures
            name@ == self.spec_name(),
            GroupEvent::spec_parse(name@) == Some(*self),
    {
        match self {
            GroupEvent::Created => String::from_str("created"),
        }
    }

    /// Reads a stored name back. An unknown name is an error of decoding.
    pub fn parse(name: &str) -> (kind: Option<GroupEvent>)
        ensures
            kind == GroupEvent::spec_parse(name@),
    {
        if same_text(name, "created") {
            Some(GroupEvent::Created)
        } else {
            None
        }
    }
}

impl Default for Created {
    fn default() -> (data: Self)
        ensures
            data.name@ == Seq::<char>::empty(),
    {
        Created { name: String::new() }
    }
}

} // verus!
