//! Events and the per-aggregate stream that holds them.
//!
//! A stream is append-only. Its version is the number of events it holds, and
//! the event at position `i` carries version `i + 1`: the version the stream
//! reached when that event was appended. An append names the version it was
//! prepared against and is refused unless the stream still has that version.

use vstd::prelude::*;
use vstd::string::StringExecFns;
use crate::command::CommandMetadata;

verus! {

/// One immutable record of something that happened to an aggregate.
#[derive(Debug, Clone, PartialEq, Eq)]
pub struct Event<D> {
    pub id: String,
    /// The kind of aggregate the event belongs to.
    pub aggregate_type: String,
    pub aggregate_id: String,
    pub version: u64,
    pub name: String,
    pub data: D,
    pub metadata: CommandMetadata,
    /// Microseconds since the Unix epoch.
    pub created_at: u64,
}

/// An event as a command hands it to the stream: what happened, without the
/// identity, position and time that storing it adds.
#[derive(Debug, Clone, PartialEq, Eq)]
pub struct EventDraft<D> {
    pub name: String,
    pub data: D,
    pub metadata: CommandMetadata,
}

impl<D> EventDraft<D> {
    /// The event that the draft becomes once it has an identity and a time.
    /// Its version and aggregate are set when a stream stores it.
    pub fn into_event(self, id: String, created_at: u64) -> (event: Event<D>)
        ensures
            event.id == id,
            event.created_at == created_at,
            event.name == self.name,
            event.data == self.data,
            event.metadata == self.metadata,
            event.version == 0,
            event.aggregate_type@ == Seq::<char>::empty(),
            event.aggregate_id@ == Seq::<char>::empty(),
    {
        Event {
            id,
            aggregate_type: String::new(),
            aggregate_id: String::new(),
            version: 0,
            name: self.name,
            data: self.data,
            metadata: self.metadata,
            created_at,
        }
    }
}

/// A named consumer of events and the topics it listens to.
#[derive(Debug, Clone, PartialEq, Eq)]
pub struct Subscriber {
    pub key: String,
    pub filter: String,
}

/// Why a consumer could not handle an event. The delivery layer gets it and
/// decides about redelivery; nothing is swallowed.
#[derive(Debug, Clone, PartialEq, Eq)]
pub struct HandlerError {
    pub code: String,
    pub reason: String,
}

impl HandlerError {
    /// Whether the error has the given code and reason.
    pub open spec fn says(self, code: Seq<char>, reason: Seq<char>) -> bool {
        self.code@ == code && self.reason@ == reason
    }

    pub fn new(code: &str, reason: String) -> (error: Self)
        ensures
            error.code@ == code@,
            error.reason == reason,
    {
        HandlerError { code: String::from_str(code), reason }
    }
}

/// Why an append was refused.
#[derive(Debug, Clone, Copy, PartialEq, Eq)]
pub enum AppendError {
    /// The stream's version is not the expected one.
    VersionConflict,
}

/// The aggregate that a stream belongs to: its kind and its identifier.
#[derive(Debug, Clone, PartialEq, Eq)]
pub struct StreamKey {
    pub aggregate_type: String,
    pub aggregate_id: String,
}

/// `event` as it is stored at position `index` of the stream of `key`.
pub open spec fn stamped<D>(event: Event<D>, key: StreamKey, index: int) -> Event<D> {
    Event {
        id: event.id,
        aggregate_type: key.aggregate_type,
        aggregate_id: key.aggregate_id,
        version: (index + 1) as u64,
        name: event.name,
        data: event.data,
        metadata: event.metadata,
        created_at: event.created_at,
    }
}

/// `stored` extended by `events`, each stamped with its position.
pub open spec fn extended<D>(stored: Seq<Event<D>>, key: StreamKey, events: Seq<Event<D>>) -> Seq<
    Event<D>,
> {
    stored + Seq::new(events.len(), |i: int| stamped(events[i], key, stored.len() + i))
}

/// What an append at `expected_version` makes of a stream holding `stored`:
/// the extended stream, or a refusal that changes nothing.
pub open spec fn append_outcome<D>(
    stored: Seq<Event<D>>,
    key: StreamKey,
    events: Seq<Event<D>>,
    expected_version: u64,
) -> Result<Seq<Event<D>>, AppendError> {
    if stored.len() == expected_version {
        Ok(extended(stored, key, events))
    } else {
        Err(AppendError::VersionConflict)
    }
}

/// Whether `stored` is numbered without gaps: position `i` holds version `i + 1`
/// and belongs to the aggregate `key`.
pub open spec fn gapless<D>(stored: Seq<Event<D>>, key: StreamKey) -> bool {
    forall|i: int|
        0 <= i < stored.len() ==> (#[trigger] stored[i]).version == i + 1
            && stored[i].aggregate_type == key.aggregate_type && stored[i].aggregate_id
            == key.aggregate_id
}

/// The log of one aggregate.
pub struct EventStream<D> {
    key: StreamKey,
    events: Vec<Event<D>>,
}

impl<D> EventStream<D> {
    /// The events in the order in which they were appended.
    pub closed spec fn events(&self) -> Seq<Event<D>> {
        self.events@
    }

    /// The aggregate that the stream belongs to.
    pub closed spec fn key(&self) -> StreamKey {
        self.key
    }

    /// The stream's invariant: its events are numbered without gaps and
    /// belong to the stream's aggregate.
    pub open spec fn wf(&self) -> bool {
        gapless(self.events(), self.key())
    }

    /// The number of events appended so far.
    pub open spec fn spec_version(&self) -> nat {
        self.events().len()
    }

    /// The empty stream of the aggregate `aggregate_id` of the kind
    /// `aggregate_type`, at version 0.
    pub fn new(aggregate_type: String, aggregate_id: String) -> (stream: Self)
        ensures
            stream.wf(),
            stream.key() == (StreamKey { aggregate_type, aggregate_id }),
            stream.events() == Seq::<Event<D>>::empty(),
    {
        EventStream { key: StreamKey { aggregate_type, aggregate_id }, events: Vec::new() }
    }

    pub fn aggregate_type(&self) -> (name: &String)
        ensures
            *name == self.key().aggregate_type,
    {
        &self.key.aggregate_type
    }

    pub fn aggregate_id(&self) -> (id: &String)
        ensures
            *id == self.key().aggregate_id,
    {
        &self.key.aggregate_id
    }

    pub fn version(&self) -> (version: u64)
        ensures
            version == self.spec_version(),
    {
        self.events.len() as u64
    }

    pub fn len(&self) -> (len: usize)
        ensures
            len == self.events().len(),
    {
        self.events.len()
    }

    /// The event at position `index`.
    pub fn get(&self, index: usize) -> (event: &Event<D>)
        requires
            index < self.events().len(),
        ensures
            *event == self.events()[index as int],
    {
        &self.events[index]
    }

    /// Appends `events` if the stream is still at `expected_version`, and
    /// refuses without any effect if it is not.
    pub fn append(&mut self, events: Vec<Event<D>>, expected_version: u64) -> (result: Result<
        (),
        AppendError,
    >)
        requires
            old(self).wf(),
            old(self).spec_version() + events@.len() <= u64::MAX,
        ensures
            final(self).wf(),
            final(self).key() == old(self).key(),
            match append_outcome(old(self).events(), old(self).key(), events@, expected_version) {
                Ok(stored) => result is Ok && final(self).events() == stored,
                Err(e) => result == Err::<(), AppendError>(e) && final(self).events() == old(
                    self,
                ).events(),
            },
    {
        if self.events.len() as u64 != expected_version {
            return Err(AppendError::VersionConflict);
        }
        let ghost before = self.events@;
        let ghost incoming = events@;
        for event in iter: events
            invariant
                iter.seq() == incoming,
                self.key == old(self).key,
                before.len() + incoming.len() <= u64::MAX,
                self.events@ == before + Seq::new(
                    iter.index() as nat,
                    |i: int| stamped(incoming[i], self.key, before.len() + i),
                ),
        {
            let ghost taken = iter.index();
            assert(self.events@.len() == before.len() + taken);
            assert(taken < incoming.len());
            let version: u64 = self.events.len() as u64 + 1;
            let stored = Event {
                id: event.id,
                aggregate_type: self.key.aggregate_type.clone(),
                aggregate_id: self.key.aggregate_id.clone(),
                version,
                name: event.name,
                data: event.data,
                metadata: event.metadata,
                created_at: event.created_at,
            };
            assert(stored == stamped(incoming[taken], self.key, before.len() + taken));
            self.events.push(stored);
            assert(self.events@ =~= before + Seq::new(
                (taken + 1) as nat,
                |i: int| stamped(incoming[i], self.key, before.len() + i),
            ));
        }
        assert(self.events@ =~= extended(before, self.key, incoming));
        Ok(())
    }
}

/// Appending at the stream's own version succeeds and raises the version by
/// the number of events appended.
pub proof fn append_at_current_version_succeeds<D>(
    stored: Seq<Event<D>>,
    key: StreamKey,
    events: Seq<Event<D>>,
)
    requires
        stored.len() <= u64::MAX,
    ensures
        append_outcome(stored, key, events, stored.len() as u64) matches Ok(after)
            && after.len() == stored.len() + events.len() && after.subrange(
            0,
            stored.len() as int,
        ) == stored,
{
    let after = extended(stored, key, events);
    assert(after.subrange(0, stored.len() as int) =~= stored);
}

/// An append keeps a gapless stream gapless.
pub proof fn append_keeps_gapless<D>(
    stored: Seq<Event<D>>,
    key: StreamKey,
    events: Seq<Event<D>>,
    expected_version: u64,
)
    requires
        gapless(stored, key),
        stored.len() + events.len() <= u64::MAX,
    ensures
        append_outcome(stored, key, events, expected_version) matches Ok(after) ==> gapless(
            after,
            key,
        ),
{
}

/// Of two appends prepared against the same version, exactly one succeeds:
/// once the first has gone through, the second is refused with a version
/// conflict and leaves the stream as the first left it.
pub proof fn second_append_at_same_version_conflicts<D>(
    stored: Seq<Event<D>>,
    key: StreamKey,
    first: Seq<Event<D>>,
    second: Seq<Event<D>>,
    expected_version: u64,
)
    requires
        first.len() > 0,
        append_outcome(stored, key, first, expected_version) is Ok,
    ensures
        append_outcome(
            append_outcome(stored, key, first, expected_version)->Ok_0,
            key,
            second,
            expected_version,
        ) == Err::<Seq<Event<D>>, AppendError>(AppendError::VersionConflict),
{
}

} // verus!
