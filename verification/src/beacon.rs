//! The publish-and-confirm cycle as a state machine.
//!
//! A [`Beacon`] performs nothing itself. Its caller owns the connection and the
//! clock: it reports what happened as an [`Event`], and [`Beacon::step`]
//! answers with the [`Action`] to perform next.

use vstd::prelude::*;
use crate::config::{Config, ConfigView};
use crate::timestamp::{http_date, timestamp, HTTP_DATE_END};

verus! {

/// The delivery guarantee every publish asks for: exactly once.
pub const QOS_EXACTLY_ONCE: u8 = 2;

/// Where the cycle stands.
#[derive(Clone, Copy, Debug, PartialEq, Eq, Structural)]
pub enum Phase {
    /// Nothing was attempted yet.
    Disconnected,
    /// A connection attempt is under way.
    Connecting,
    /// A publish was issued and its outcome is not known yet.
    Publishing,
    /// The interval is running and the message `mid` is not confirmed yet.
    AwaitingAck { mid: i32 },
    /// The interval is running and no message waits for confirmation.
    Sleeping,
    /// The run ended with a failure.
    Failed,
}

/// Why a run ended.
#[derive(Debug, PartialEq, Eq)]
pub enum Failure {
    /// The broker could not be reached or refused the connection.
    Connection(String),
    /// The client refused or failed to enqueue a message.
    Publish(String),
}

/// A [`Failure`] as mathematical values.
pub enum FailureView {
    Connection(Seq<char>),
    Publish(Seq<char>),
}

impl View for Failure {
    type V = FailureView;

    open spec fn view(&self) -> FailureView {
        match self {
            Failure::Connection(reason) => FailureView::Connection(reason@),
            Failure::Publish(reason) => FailureView::Publish(reason@),
        }
    }
}

impl Failure {
    /// The reason the client gave.
    pub fn message(&self) -> (text: String)
        ensures
            text@ == match self@ {
                FailureView::Connection(reason) => reason,
                FailureView::Publish(reason) => reason,
            },
    {
        match self {
            Failure::Connection(reason) => reason.clone(),
            Failure::Publish(reason) => reason.clone(),
        }
    }
}

/// What the caller observed.
#[derive(Debug, PartialEq, Eq)]
pub enum Event {
    /// The run begins.
    Started,
    /// The connection stands; `now` is the current time in seconds since the
    /// Unix epoch.
    Connected { now: u64 },
    /// The connection attempt failed.
    ConnectFailed { reason: String },
    /// The client accepted the message and calls it `mid`.
    Published { mid: i32 },
    /// The client did not accept the message.
    PublishFailed { reason: String },
    /// The broker confirmed the message `mid`.
    Acknowledged { mid: i32 },
    /// The interval is over; `now` is the current time in seconds since the
    /// Unix epoch.
    IntervalElapsed { now: u64 },
}

/// An [`Event`] as mathematical values.
pub enum EventView {
    Started,
    Connected { now: u64 },
    ConnectFailed { reason: Seq<char> },
    Published { mid: i32 },
    PublishFailed { reason: Seq<char> },
    Acknowledged { mid: i32 },
    IntervalElapsed { now: u64 },
}

impl View for Event {
    type V = EventView;

    open spec fn view(&self) -> EventView {
        match self {
            Event::Started => EventView::Started,
            Event::Connected { now } => EventView::Connected { now: *now },
            Event::ConnectFailed { reason } => EventView::ConnectFailed { reason: reason@ },
            Event::Published { mid } => EventView::Published { mid: *mid },
            Event::PublishFailed { reason } => EventView::PublishFailed { reason: reason@ },
            Event::Acknowledged { mid } => EventView::Acknowledged { mid: *mid },
            Event::IntervalElapsed { now } => EventView::IntervalElapsed { now: *now },
        }
    }
}

/// What the caller is to do next.
#[derive(Debug, PartialEq, Eq)]
pub enum Action {
    /// Connect to `host:port` under the identity `client`.
    Connect { host: String, port: u16, client: String },
    /// Publish `payload` to `topic`.
    Publish { topic: String, payload: String, qos: u8, retain: bool },
    /// Wait for `seconds` seconds, then report [`Event::IntervalElapsed`].
    Sleep { seconds: usize },
    /// Report that this cycle's message was delivered.
    Delivered,
    /// End the run with `failure`.
    Abort { failure: Failure },
    /// Nothing is to be done.
    Idle,
}

/// An [`Action`] as mathematical values.
pub enum ActionView {
    Connect { host: Seq<char>, port: u16, client: Seq<char> },
    Publish { topic: Seq<char>, payload: Seq<char>, qos: u8, retain: bool },
    Sleep { seconds: usize },
    Delivered,
    Abort { failure: FailureView },
    Idle,
}

impl View for Action {
    type V = ActionView;

    open spec fn view(&self) -> ActionView {
        match self {
            Action::Connect { host, port, client } => ActionView::Connect {
                host: host@,
                port: *port,
                client: client@,
            },
            Action::Publish { topic, payload, qos, retain } => ActionView::Publish {
                topic: topic@,
                payload: payload@,
                qos: *qos,
                retain: *retain,
            },
            Action::Sleep { seconds } => ActionView::Sleep { seconds: *seconds },
            Action::Delivered => ActionView::Delivered,
            Action::Abort { failure } => ActionView::Abort { failure: failure@ },
            Action::Idle => ActionView::Idle,
        }
    }
}

/// The publish of the instant `now` under the settings `config`: the HTTP date
/// of `now`, to the configured topic, exactly once and not retained.
pub open spec fn publish_of(config: ConfigView, now: u64) -> ActionView {
    ActionView::Publish {
        topic: config.topic,
        payload: http_date(now),
        qos: QOS_EXACTLY_ONCE,
        retain: false,
    }
}

/// The state of one run.
#[derive(Clone, Copy, Debug, PartialEq, Eq, Structural)]
pub struct Beacon {
    pub phase: Phase,
}

impl Beacon {
    /// The message that waits for its confirmation, if any.
    pub open spec fn spec_pending(self) -> Option<i32> {
        match self.phase {
            Phase::AwaitingAck { mid } => Some(mid),
            _ => None,
        }
    }

    /// The instant that the step on `event` writes out, if it publishes.
    pub open spec fn stamped(self, event: EventView) -> Option<u64> {
        match (self.phase, event) {
            (Phase::Connecting, EventView::Connected { now }) => Some(now),
            (Phase::AwaitingAck { .. }, EventView::IntervalElapsed { now }) => Some(now),
            (Phase::Sleeping, EventView::IntervalElapsed { now }) => Some(now),
            _ => None,
        }
    }

    /// Whether the step on `event` can be taken: an instant that is to be
    /// written out lies before the year 10000.
    pub open spec fn accepts(self, event: EventView) -> bool {
        match self.stamped(event) {
            Some(now) => now < HTTP_DATE_END,
            None => true,
        }
    }

    /// The phase after `event`.
    ///
    /// An acknowledgment counts only for the message that is waited for, and
    /// the end of the interval starts the next cycle whether or not the last
    /// message was confirmed. An event that the phase does not expect changes
    /// nothing.
    pub open spec fn next_phase(self, event: EventView) -> Phase {
        match (self.phase, event) {
            (Phase::Disconnected, EventView::Started) => Phase::Connecting,
            (Phase::Connecting, EventView::Connected { .. }) => Phase::Publishing,
            (Phase::Connecting, EventView::ConnectFailed { .. }) => Phase::Failed,
            (Phase::Publishing, EventView::Published { mid }) => Phase::AwaitingAck { mid },
            (Phase::Publishing, EventView::PublishFailed { .. }) => Phase::Failed,
            (Phase::AwaitingAck { mid }, EventView::Acknowledged { mid: acked }) => if acked
                == mid {
                Phase::Sleeping
            } else {
                self.phase
            },
            (Phase::AwaitingAck { .. }, EventView::IntervalElapsed { .. }) => Phase::Publishing,
            (Phase::Sleeping, EventView::IntervalElapsed { .. }) => Phase::Publishing,
            _ => self.phase,
        }
    }

    /// The action that answers `event` under the settings `config`.
    pub open spec fn action_on(self, config: ConfigView, event: EventView) -> ActionView {
        match (self.phase, event) {
            (Phase::Disconnected, EventView::Started) => ActionView::Connect {
                host: config.broker,
                port: config.port,
                client: config.id,
            },
            (Phase::Connecting, EventView::Connected { now }) => publish_of(config, now),
            (Phase::Connecting, EventView::ConnectFailed { reason }) => ActionView::Abort {
                failure: FailureView::Connection(reason),
            },
            (Phase::Publishing, EventView::Published { .. }) => ActionView::Sleep {
                seconds: config.updates,
            },
            (Phase::Publishing, EventView::PublishFailed { reason }) => ActionView::Abort {
                failure: FailureView::Publish(reason),
            },
            (Phase::AwaitingAck { mid }, EventView::Acknowledged { mid: acked }) => if acked
                == mid {
                ActionView::Delivered
            } else {
                ActionView::Idle
            },
            (Phase::AwaitingAck { .. }, EventView::IntervalElapsed { now }) => publish_of(
                config,
                now,
            ),
            (Phase::Sleeping, EventView::IntervalElapsed { now }) => publish_of(config, now),
            _ => ActionView::Idle,
        }
    }

    /// The state after the events `events`, taken in order.
    pub open spec fn after(self, events: Seq<EventView>) -> Beacon
        decreases events.len(),
    {
        if events.len() == 0 {
            self
        } else {
            Beacon { phase: self.after(events.drop_last()).next_phase(events.last()) }
        }
    }

    /// The actions that answer the events `events`, one for each, in order.
    pub open spec fn answers(self, config: ConfigView, events: Seq<EventView>) -> Seq<ActionView>
        decreases events.len(),
    {
        if events.len() == 0 {
            Seq::empty()
        } else {
            self.answers(config, events.drop_last()).push(
                self.after(events.drop_last()).action_on(config, events.last()),
            )
        }
    }

    /// A run that has not begun.
    pub fn new() -> (beacon: Beacon)
        ensures
            beacon.phase == Phase::Disconnected,
    {
        Beacon { phase: Phase::Disconnected }
    }

    /// The message that waits for its confirmation, if any.
    #[verifier::when_used_as_spec(spec_pending)]
    pub fn pending(self) -> (mid: Option<i32>)
        ensures
            mid == self.spec_pending(),
    {
        match self.phase {
            Phase::AwaitingAck { mid } => Some(mid),
            _ => None,
        }
    }

    /// Whether an acknowledgment for `mid` confirms the message that is waited
    /// for. Only the very identifier that the publish returned does.
    pub fn confirms(self, mid: i32) -> (hit: bool)
        ensures
            hit == (self.spec_pending() == Some(mid)),
    {
        match self.phase {
            Phase::AwaitingAck { mid: waiting } => waiting == mid,
            _ => false,
        }
    }

    /// Takes in `event` and says what to do next.
    pub fn step(&mut self, config: &Config, event: &Event) -> (action: Action)
        requires
            old(self).accepts(event@),
        ensures
            final(self).phase == old(self).next_phase(event@),
            action@ == old(self).action_on(config@, event@),
    {
        match (self.phase, event) {
            (Phase::Disconnected, Event::Started) => {
                self.phase = Phase::Connecting;
                Action::Connect {
                    host: config.broker.clone(),
                    port: config.port,
                    client: config.id.clone(),
                }
            },
            (Phase::Connecting, Event::Connected { now }) => {
                self.phase = Phase::Publishing;
                publish(config, *now)
            },
            (Phase::Connecting, Event::ConnectFailed { reason }) => {
                self.phase = Phase::Failed;
                Action::Abort { failure: Failure::Connection(reason.clone()) }
            },
            (Phase::Publishing, Event::Published { mid }) => {
                self.phase = Phase::AwaitingAck { mid: *mid };
                Action::Sleep { seconds: config.updates }
            },
            (Phase::Publishing, Event::PublishFailed { reason }) => {
                self.phase = Phase::Failed;
                Action::Abort { failure: Failure::Publish(reason.clone()) }
            },
            (Phase::AwaitingAck { mid }, Event::Acknowledged { mid: acked }) => {
                if *acked == mid {
                    self.phase = Phase::Sleeping;
                    Action::Delivered
                } else {
                    Action::Idle
                }
            },
            (Phase::AwaitingAck { .. }, Event::IntervalElapsed { now }) => {
                self.phase = Phase::Publishing;
                publish(config, *now)
            },
            (Phase::Sleeping, Event::IntervalElapsed { now }) => {
                self.phase = Phase::Publishing;
                publish(config, *now)
            },
            _ => Action::Idle,
        }
    }

    /// Whether the step on `event` can be taken.
    pub fn can_step(&self, event: &Event) -> (fine: bool)
        ensures
            fine == self.accepts(event@),
    {
        match (self.phase, event) {
            (Phase::Connecting, Event::Connected { now }) => *now < HTTP_DATE_END,
            (Phase::AwaitingAck { .. }, Event::IntervalElapsed { now }) => *now < HTTP_DATE_END,
            (Phase::Sleeping, Event::IntervalElapsed { now }) => *now < HTTP_DATE_END,
            _ => true,
        }
    }

    /// Takes in `event` and says what to do next, if the step can be taken;
    /// where it cannot, nothing changes.
    pub fn try_step(&mut self, config: &Config, event: &Event) -> (action: Option<Action>)
        ensures
            old(self).accepts(event@) ==> action is Some && action->0@ == old(self).action_on(
                config@,
                event@,
            ) && final(self).phase == old(self).next_phase(event@),
            !old(self).accepts(event@) ==> action is None && *final(self) == *old(self),
    {
        if self.can_step(event) {
            Some(self.step(config, event))
        } else {
            None
        }
    }
}

/// The publish of the instant `now`.
fn publish(config: &Config, now: u64) -> (action: Action)
    requires
        now < HTTP_DATE_END,
    ensures
        action@ == publish_of(config@, now),
{
    Action::Publish {
        topic: config.topic.clone(),
        payload: timestamp(now),
        qos: QOS_EXACTLY_ONCE,
        retain: false,
    }
}

/// Only the identifier that the publish returned confirms the message: the
/// acknowledgment of `mid` itself reports the delivery and clears the wait,
/// and that of any other identifier changes nothing and is no failure.
pub proof fn only_the_published_identifier_confirms(config: ConfigView, mid: i32, acked: i32)
    ensures
        ({
            let publishing = Beacon { phase: Phase::Publishing };
            let waiting = Beacon { phase: publishing.next_phase(EventView::Published { mid }) };
            let event = EventView::Acknowledged { mid: acked };
            &&& waiting.spec_pending() == Some(mid)
            &&& waiting.action_on(config, event) == ActionView::Delivered <==> acked == mid
            &&& acked == mid ==> waiting.next_phase(event) == Phase::Sleeping
            &&& acked != mid ==> waiting.next_phase(event) == waiting.phase
                && waiting.action_on(config, event) == ActionView::Idle
        }),
{
}

/// The cycle does not wait for confirmations: the interval that follows a
/// publish is the configured one, an acknowledgment never changes what the end
/// of the interval does, and that end always issues the next publish, whether
/// the last message was confirmed or not.
pub proof fn interval_end_always_publishes(
    beacon: Beacon,
    config: ConfigView,
    mid: i32,
    acked: i32,
    now: u64,
)
    requires
        beacon.phase is AwaitingAck || beacon.phase == Phase::Sleeping,
    ensures
        ({
            let publishing = Beacon { phase: Phase::Publishing };
            let elapsed = EventView::IntervalElapsed { now };
            let later = Beacon {
                phase: beacon.next_phase(EventView::Acknowledged { mid: acked }),
            };
            &&& publishing.action_on(config, EventView::Published { mid }) == ActionView::Sleep {
                seconds: config.updates,
            }
            &&& beacon.next_phase(elapsed) == Phase::Publishing
            &&& beacon.action_on(config, elapsed) == publish_of(config, now)
            &&& later.next_phase(elapsed) == Phase::Publishing
            &&& later.action_on(config, elapsed) == publish_of(config, now)
        }),
{
}

/// A run whose connection attempt has failed is over: the failure is handed
/// out with the reason the client gave, and whatever is reported afterwards,
/// the run stays failed and no publish is ever asked for.
pub proof fn failed_connection_never_publishes(
    config: ConfigView,
    reason: Seq<char>,
    rest: Seq<EventView>,
)
    ensures
        ({
            let start = Beacon { phase: Phase::Disconnected };
            let events = seq![EventView::Started, EventView::ConnectFailed { reason }] + rest;
            let answers = start.answers(config, events);
            &&& answers.len() == events.len()
            &&& answers[0] is Connect
            &&& answers[1] == ActionView::Abort { failure: FailureView::Connection(reason) }
            &&& forall|i: int| 2 <= i < answers.len() ==> answers[i] == ActionView::Idle
            &&& forall|i: int| 0 <= i < answers.len() ==> !(answers[i] is Publish)
            &&& start.after(events).phase == Phase::Failed
        }),
    decreases rest.len(),
{
    let start = Beacon { phase: Phase::Disconnected };
    let head = seq![EventView::Started, EventView::ConnectFailed { reason }];
    let events = head + rest;
    if rest.len() == 0 {
        let first = seq![EventView::Started];
        assert(events =~= head);
        assert(head.drop_last() =~= first);
        assert(first.drop_last() =~= Seq::<EventView>::empty());
        assert(start.after(first.drop_last()) == start);
        assert(start.answers(config, first.drop_last()).len() == 0);
        assert(start.after(first).phase == Phase::Connecting);
        assert(start.answers(config, first).len() == 1);
    } else {
        failed_connection_never_publishes(config, reason, rest.drop_last());
        assert(events.drop_last() =~= head + rest.drop_last());
    }
}

} // verus!
