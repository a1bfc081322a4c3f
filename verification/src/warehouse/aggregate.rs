//! The warehouse aggregate: the blob paths of every import, oldest first.

use vstd::prelude::*;
use vstd::string::StringExecFns;
use crate::error::Error;
use crate::event::{Event, EventStream};
use crate::warehouse::event::{DataImported, WarehouseEvent};

verus! {

/// The state of one tenant's warehouse, rebuilt from its events on each load.
#[derive(Debug, Clone, PartialEq, Eq)]
pub struct Warehouse {
    pub storage_paths: Vec<String>,
}

/// What is said about an event of a kind that a warehouse does not know.
pub open spec fn unknown_event_message() -> Seq<char> {
    "unknown warehouse event"@
}

/// Whether every event of `events` has a name that a warehouse knows.
pub open spec fn all_known(events: Seq<Event<DataImported>>) -> bool {
    forall|i: int|
        0 <= i < events.len() ==> WarehouseEvent::spec_parse((#[trigger] events[i]).name@) is Some
}

/// The storage paths that `events` leave behind, in the order of the events.
pub open spec fn folded_paths(events: Seq<Event<DataImported>>) -> Seq<String> {
    Seq::new(events.len(), |i: int| events[i].data.storage_path)
}

impl Warehouse {
    /// The aggregate before any event.
    pub fn new() -> (warehouse: Self)
        ensures
            warehouse.storage_paths@ == Seq::<String>::empty(),
    {
        Warehouse { storage_paths: Vec::new() }
    }

    /// The name under which warehouse streams are filed.
    pub fn aggregate_type() -> (name: &'static str)
        ensures
            name@ == "warehouse"@,
    {
        "warehouse"
    }

    /// Folds one event into the state: a `data-imported` event adds its
    /// storage path at the end. An event of unknown kind is refused and leaves
    /// the state as it was.
    pub fn apply(&mut self, event: &Event<DataImported>) -> (result: Result<(), Error>)
        ensures
            match WarehouseEvent::spec_parse(event.name@) {
                Some(WarehouseEvent::DataImported) => result is Ok && final(self).storage_paths@
                    == old(self).storage_paths@.push(event.data.storage_path),
                None => (result matches Err(Error::InternalServerErr(detail)) && detail@
                    == unknown_event_message()) && *final(self) == *old(self),
            },
    {
        match WarehouseEvent::parse(event.name.as_str()) {
            Some(WarehouseEvent::DataImported) => {
                self.storage_paths.push(event.data.storage_path.clone());
                Ok(())
            },
            None => Err(Error::InternalServerErr(String::from_str("unknown warehouse event"))),
        }
    }

    /// Rebuilds the aggregate from its stream: the folded state and the
    /// stream's version, which is 0 with the initial state for a stream
    /// without events.
    pub fn load(stream: &EventStream<DataImported>) -> (result: Result<(Warehouse, u64), Error>)
        requires
            stream.wf(),
        ensures
            all_known(stream.events()) ==> (result matches Ok((warehouse, version))
                && warehouse.storage_paths@ == folded_paths(stream.events()) && version
                == stream.spec_version()),
            !all_known(stream.events()) ==> (result matches Err(Error::InternalServerErr(detail))
                && detail@ == unknown_event_message()),
    {
        let mut warehouse = Warehouse::new();
        let n = stream.len();
        let mut i: usize = 0;
        while i < n
            invariant
                n == stream.events().len(),
                i <= n,
                all_known(stream.events().subrange(0, i as int)),
                warehouse.storage_paths@ == folded_paths(stream.events().subrange(0, i as int)),
            decreases n - i,
        {
            let event = stream.get(i);
            match warehouse.apply(event) {
                Ok(()) => {},
                Err(e) => {
                    assert(!all_known(stream.events()));
                    return Err(e);
                },
            }
            i = i + 1;
            proof {
                let before = stream.events().subrange(0, i - 1);
                let now = stream.events().subrange(0, i as int);
                assert forall|k: int| 0 <= k < now.len() implies WarehouseEvent::spec_parse(
                    (#[trigger] now[k]).name@,
                ) is Some by {
                    if k < i - 1 {
                        assert(now[k] == before[k]);
                    }
                }
                assert(warehouse.storage_paths@ =~= folded_paths(now));
            }
        }
        assert(stream.events().subrange(0, n as int) =~= stream.events());
        Ok((warehouse, stream.version()))
    }
}

impl Default for Warehouse {
    fn default() -> (warehouse: Self)
        ensures
            warehouse.storage_paths@ == Seq::<String>::empty(),
    {
        Warehouse::new()
    }
}

/// Appending one `data-imported` event adds exactly its storage path to the
/// folded state, and nothing else changes.
pub proof fn fold_grows_by_one_path(events: Seq<Event<DataImported>>, event: Event<DataImported>)
    ensures
        folded_paths(events.push(event)) == folded_paths(events).push(event.data.storage_path),
{
    assert(folded_paths(events.push(event)) =~= folded_paths(events).push(event.data.storage_path));
}

} // verus!
