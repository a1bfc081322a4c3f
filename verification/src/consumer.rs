//! A subscription's consumer: how it subscribes, what it does with each
//! message, and which failures to connect are worth another try.
//!
//! The consumer takes one message at a time. A message is acknowledged only
//! once its handler has succeeded; a message whose handling failed is handed
//! back for redelivery, together with the handler's error.

use vstd::prelude::*;
use vstd::string::StringExecFns;
use crate::command::CommandMetadata;
use crate::error::Error;
use crate::text::{join2, join3};

verus! {

/// How many consumers may share a subscription.
#[derive(Debug, Clone, Copy, PartialEq, Eq)]
pub enum SubscriptionKind {
    /// One consumer at a time: messages arrive in order, one after another.
    Exclusive,
    /// Several consumers, and each message goes to one of them.
    Shared,
    /// Several consumers, of which one is served until it fails.
    Failover,
}

/// What a consumer asks of the broker when it subscribes.
#[derive(Debug, Clone, PartialEq, Eq)]
pub struct Subscription {
    pub topic: String,
    pub consumer_name: String,
    pub subscription: String,
    pub kind: SubscriptionKind,
}

/// The name under which the consumers of the zone `zone` subscribe.
pub open spec fn spec_consumer_name(zone: Seq<char>) -> Seq<char> {
    "cobase."@ + zone
}

/// The topic `name` of the namespace `namespace`.
pub open spec fn spec_topic_path(namespace: Seq<char>, name: Seq<char>) -> Seq<char> {
    namespace + "/"@ + name
}

/// The subscription of the zone's consumer to the topic `name`: exclusive,
/// and named after the zone, as the consumer is.
pub fn subscription(namespace: &str, zone: &str, name: &str) -> (plan: Subscription)
    ensures
        plan.topic@ == spec_topic_path(namespace@, name@),
        plan.consumer_name@ == spec_consumer_name(zone@),
        plan.subscription@ == spec_consumer_name(zone@),
        plan.kind == SubscriptionKind::Exclusive,
{
    Subscription {
        topic: join3(namespace, "/", name),
        consumer_name: join2("cobase.", zone),
        subscription: join2("cobase.", zone),
        kind: SubscriptionKind::Exclusive,
    }
}

/// Where a consumer stands.
#[derive(Debug, Clone, Copy, PartialEq, Eq)]
pub enum ConsumerPhase {
    /// It waits for the subscription to hand over a message.
    Receiving,
    /// The handler works on the message.
    Handling,
    /// The broker is being told what became of the message.
    Settling,
    /// It has stopped, and takes no more messages.
    Stopped,
}

/// What happened outside since the consumer last asked for something.
#[derive(Debug, PartialEq, Eq)]
pub enum Delivery {
    /// The subscription had nothing to hand over.
    Nothing,
    /// The subscription failed, for the given reason.
    Lost(String),
    /// A message arrived: its event's identifier and metadata, or why the
    /// message could not be decoded.
    Message(Result<(String, Option<CommandMetadata>), String>),
    /// The handler returned.
    Handled(Result<(), Error>),
    /// The broker took note of what became of the message, or failed to, for
    /// the given reason.
    Settled(Result<(), String>),
}

/// What the consumer asks for next.
#[derive(Debug, Clone, PartialEq, Eq)]
pub enum ConsumerAction {
    /// Ask the subscription for the next message.
    Receive,
    /// Hand the event to the handler, with this metadata.
    Handle(CommandMetadata),
    /// The handler succeeded: acknowledge the message.
    Acknowledge,
    /// No handler can take the message: log the text and acknowledge the
    /// message, since a second delivery would fare no better.
    Discard(String),
    /// The handler failed: report its error and ask for the message again.
    /// The message is not acknowledged.
    Redeliver(Error),
    /// Log the text and stop consuming.
    Stop(String),
}

/// A consumer of one subscription.
#[derive(Debug, Clone, Copy, PartialEq, Eq)]
pub struct Consumer {
    pub phase: ConsumerPhase,
}

/// The text logged for an event without metadata.
pub open spec fn spec_missing_metadata(event_id: Seq<char>) -> Seq<char> {
    "metadata not defined for `"@ + event_id + "`"@
}

/// The text logged when something happens that the consumer did not ask for.
pub open spec fn unexpected_delivery() -> Seq<char> {
    "unexpected delivery"@
}

/// Whether a consumer at `pre` that learns of `delivery` goes on at `post`
/// and asks for `action`.
///
/// While it waits, a message that cannot be decoded or carries no metadata
/// is discarded, any other goes to the handler, and a failed subscription
/// stops the consumer. Once the handler has returned, its result alone
/// decides: the message is acknowledged after a success, and handed back for
/// redelivery with the error after a failure of any kind. When the broker
/// has taken note, the consumer asks for the next message; when the broker
/// could not, the consumer stops.
pub open spec fn consumer_step(
    pre: Consumer,
    delivery: Delivery,
    post: Consumer,
    action: ConsumerAction,
) -> bool {
    match (pre.phase, delivery) {
        (ConsumerPhase::Receiving, Delivery::Nothing) => {
            post.phase == ConsumerPhase::Receiving && action == ConsumerAction::Receive
        },
        (ConsumerPhase::Receiving, Delivery::Lost(why)) => {
            post.phase == ConsumerPhase::Stopped && action == ConsumerAction::Stop(why)
        },
        (ConsumerPhase::Receiving, Delivery::Message(Err(why))) => {
            post.phase == ConsumerPhase::Settling && action == ConsumerAction::Discard(why)
        },
        (ConsumerPhase::Receiving, Delivery::Message(Ok((id, None)))) => {
            &&& post.phase == ConsumerPhase::Settling
            &&& action matches ConsumerAction::Discard(text)
            &&& text@ == spec_missing_metadata(id@)
        },
        (ConsumerPhase::Receiving, Delivery::Message(Ok((_, Some(metadata))))) => {
            post.phase == ConsumerPhase::Handling && action == ConsumerAction::Handle(metadata)
        },
        (ConsumerPhase::Handling, Delivery::Handled(Ok(_))) => {
            post.phase == ConsumerPhase::Settling && action == ConsumerAction::Acknowledge
        },
        (ConsumerPhase::Handling, Delivery::Handled(Err(error))) => {
            post.phase == ConsumerPhase::Settling && action == ConsumerAction::Redeliver(error)
        },
        (ConsumerPhase::Settling, Delivery::Settled(Ok(_))) => {
            post.phase == ConsumerPhase::Receiving && action == ConsumerAction::Receive
        },
        (ConsumerPhase::Settling, Delivery::Settled(Err(why))) => {
            post.phase == ConsumerPhase::Stopped && action == ConsumerAction::Stop(why)
        },
        _ => {
            &&& post.phase == ConsumerPhase::Stopped
            &&& action matches ConsumerAction::Stop(text)
            &&& text@ == unexpected_delivery()
        },
    }
}

/// A message whose handling failed is never acknowledged: whatever the
/// error, the consumer asks for the message again and hands the error on
/// unchanged.
pub proof fn failed_message_is_redelivered(
    pre: Consumer,
    error: Error,
    post: Consumer,
    action: ConsumerAction,
)
    requires
        pre.phase == ConsumerPhase::Handling,
        consumer_step(pre, Delivery::Handled(Err(error)), post, action),
    ensures
        action == ConsumerAction::Redeliver(error),
        post.phase == ConsumerPhase::Settling,
{
}

/// A message is acknowledged only once its handler has returned with
/// success.
pub proof fn acknowledged_only_after_success(
    pre: Consumer,
    delivery: Delivery,
    post: Consumer,
    action: ConsumerAction,
)
    requires
        consumer_step(pre, delivery, post, action),
        action == ConsumerAction::Acknowledge,
    ensures
        pre.phase == ConsumerPhase::Handling,
        delivery matches Delivery::Handled(Ok(_)),
{
}

/// Messages are taken one at a time: the consumer asks for a message only
/// while no message is with the handler or being settled, and hands a
/// message to the handler only when it has just received it.
pub proof fn one_message_at_a_time(
    pre: Consumer,
    delivery: Delivery,
    post: Consumer,
    action: ConsumerAction,
)
    requires
        consumer_step(pre, delivery, post, action),
    ensures
        action == ConsumerAction::Receive ==> post.phase == ConsumerPhase::Receiving && (pre.phase
            == ConsumerPhase::Receiving || (pre.phase == ConsumerPhase::Settling
            && delivery matches Delivery::Settled(Ok(_)))),
        action is Handle ==> pre.phase == ConsumerPhase::Receiving && post.phase
            == ConsumerPhase::Handling,
        pre.phase == ConsumerPhase::Handling ==> !(action is Receive) && !(action is Handle),
        pre.phase == ConsumerPhase::Stopped ==> post.phase == ConsumerPhase::Stopped,
{
}

/// The error text for something that the consumer did not ask for.
fn unexpected() -> (action: ConsumerAction)
    ensures
        action matches ConsumerAction::Stop(text) && text@ == unexpected_delivery(),
{
    ConsumerAction::Stop(String::from_str("unexpected delivery"))
}

impl Consumer {
    /// A consumer that has just subscribed, and its first request: the next
    /// message.
    pub fn start() -> (out: (Consumer, ConsumerAction))
        ensures
            out.0.phase == ConsumerPhase::Receiving,
            out.1 == ConsumerAction::Receive,
    {
        (Consumer { phase: ConsumerPhase::Receiving }, ConsumerAction::Receive)
    }

    /// Whether the consumer has stopped.
    pub fn is_stopped(&self) -> (stopped: bool)
        ensures
            stopped == (self.phase == ConsumerPhase::Stopped),
    {
        match self.phase {
            ConsumerPhase::Stopped => true,
            _ => false,
        }
    }

    /// Takes what happened outside and says what to ask for next.
    pub fn step(self, delivery: Delivery) -> (out: (Consumer, ConsumerAction))
        ensures
            consumer_step(self, delivery, out.0, out.1),
    {
        match self.phase {
            ConsumerPhase::Receiving => match delivery {
                Delivery::Nothing => (
                    Consumer { phase: ConsumerPhase::Receiving },
                    ConsumerAction::Receive,
                ),
                Delivery::Lost(why) => (
                    Consumer { phase: ConsumerPhase::Stopped },
                    ConsumerAction::Stop(why),
                ),
                Delivery::Message(Err(why)) => (
                    Consumer { phase: ConsumerPhase::Settling },
                    ConsumerAction::Discard(why),
                ),
                Delivery::Message(Ok((id, None))) => (
                    Consumer { phase: ConsumerPhase::Settling },
                    ConsumerAction::Discard(join3("metadata not defined for `", id.as_str(), "`")),
                ),
                Delivery::Message(Ok((_, Some(metadata)))) => (
                    Consumer { phase: ConsumerPhase::Handling },
                    ConsumerAction::Handle(metadata),
                ),
                _ => (Consumer { phase: ConsumerPhase::Stopped }, unexpected()),
            },
            ConsumerPhase::Handling => match delivery {
                Delivery::Handled(result) => (
                    Consumer { phase: ConsumerPhase::Settling },
                    settle(result),
                ),
                _ => (Consumer { phase: ConsumerPhase::Stopped }, unexpected()),
            },
            ConsumerPhase::Settling => match delivery {
                Delivery::Settled(Ok(_)) => (
                    Consumer { phase: ConsumerPhase::Receiving },
                    ConsumerAction::Receive,
                ),
                Delivery::Settled(Err(why)) => (
                    Consumer { phase: ConsumerPhase::Stopped },
                    ConsumerAction::Stop(why),
                ),
                _ => (Consumer { phase: ConsumerPhase::Stopped }, unexpected()),
            },
            ConsumerPhase::Stopped => (Consumer { phase: ConsumerPhase::Stopped }, unexpected()),
        }
    }
}

/// What becomes of a message once its handler has returned: it is
/// acknowledged after a success, and handed back for redelivery with the
/// handler's error after a failure.
pub fn settle(result: Result<(), Error>) -> (action: ConsumerAction)
    ensures
        match result {
            Ok(_) => action == ConsumerAction::Acknowledge,
            Err(error) => action == ConsumerAction::Redeliver(error),
        },
{
    match result {
        Ok(_) => ConsumerAction::Acknowledge,
        Err(error) => ConsumerAction::Redeliver(error),
    }
}

/// Why a connection could not be made.
#[derive(Debug, Clone, Copy, PartialEq, Eq)]
pub enum ConnectFailure {
    /// The peer refused the connection.
    Refused,
    /// The peer reset the connection.
    Reset,
    /// The connection was aborted.
    Aborted,
    /// Any other failure.
    Other,
}

impl ConnectFailure {
    /// Whether the failure may pass: the server may just not be up yet.
    pub open spec fn transient(self) -> bool {
        self is Refused || self is Reset || self is Aborted
    }

    /// Whether connecting is worth another try.
    pub fn is_transient(&self) -> (retry: bool)
        ensures
            retry == self.transient(),
    {
        match self {
            ConnectFailure::Refused => true,
            ConnectFailure::Reset => true,
            ConnectFailure::Aborted => true,
            ConnectFailure::Other => false,
        }
    }
}

/// The time after which no further try is made, in milliseconds.
pub const RETRY_LIMIT_MS: u64 = 10_000;

/// The wait before the second try, in milliseconds.
pub const FIRST_WAIT_MS: u64 = 500;

/// What to do after a failed try to connect.
#[derive(Debug, Clone, Copy, PartialEq, Eq)]
pub enum Retry {
    /// Give up, and report the failure.
    GiveUp,
    /// Wait `wait_ms` milliseconds and try again; should that try fail too,
    /// the wait after it is `next_wait_ms`.
    After { wait_ms: u64, next_wait_ms: u64 },
}

/// The wait that follows a wait of `wait_ms`: half as long again, and never
/// more than the largest number of milliseconds that can be told.
pub open spec fn spec_next_wait(wait_ms: u64) -> u64 {
    if wait_ms + wait_ms / 2 <= u64::MAX {
        (wait_ms + wait_ms / 2) as u64
    } else {
        u64::MAX
    }
}

/// What to do after a try to connect has failed with `failure`, when
/// `elapsed_ms` milliseconds have passed since the first try and the wait
/// that is due is `wait_ms`.
pub open spec fn spec_next_attempt(failure: ConnectFailure, elapsed_ms: u64, wait_ms: u64) -> Retry {
    if !failure.transient() || elapsed_ms >= RETRY_LIMIT_MS {
        Retry::GiveUp
    } else {
        Retry::After { wait_ms, next_wait_ms: spec_next_wait(wait_ms) }
    }
}

/// Decides what follows a failed try to connect. A failure that will not
/// pass ends the tries at once, and so does any failure once ten seconds
/// have passed. Otherwise the next try follows after the wait that is due,
/// and each wait is half as long again as the one before.
pub fn next_attempt(failure: ConnectFailure, elapsed_ms: u64, wait_ms: u64) -> (next: Retry)
    ensures
        next == spec_next_attempt(failure, elapsed_ms, wait_ms),
{
    if !failure.is_transient() || elapsed_ms >= RETRY_LIMIT_MS {
        Retry::GiveUp
    } else {
        Retry::After { wait_ms, next_wait_ms: wait_ms.saturating_add(wait_ms / 2) }
    }
}

} // verus!
