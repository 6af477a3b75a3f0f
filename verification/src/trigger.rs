//! The two clocks of a node: one that has it publish a plain message, one
//! that has it give a sign of life.

use vstd::prelude::*;

use crate::peer::PeerWorkerInboundEvent;
use crate::time::TimeSpan;

verus! {

/// Draws a byte through `rand::random`. Nothing is claimed of it.
#[verifier::external_body]
fn random_byte() -> (draw: u8) {
    rand::random::<u8>()
}

/// The seconds between two plain messages that the draw `draw` stands
/// for: five at least, fourteen at most.
pub open spec fn drawn_secs(draw: u8) -> int {
    draw % 10 + 5
}

/// The time between two plain messages: the configured one, or else the
/// one that `draw` stands for.
pub open spec fn message_interval(configured: Option<TimeSpan>, draw: u8) -> TimeSpan {
    match configured {
        Some(interval) => interval,
        None => TimeSpan { nanos: (drawn_secs(draw) * 1_000_000_000) as u128 },
    }
}

/// What wakes a trigger.
#[derive(Clone, Copy, Debug, PartialEq, Eq, Structural)]
pub enum TriggerInput {
    /// The node is shutting down.
    Stop,
    /// The time between two events has passed.
    Tick,
}

/// The clock that has the node publish a plain message.
#[derive(Debug)]
pub struct MessageTrigger {
    interval: TimeSpan,
}

/// The clock that has the node give a sign of life.
#[derive(Debug)]
pub struct HeartbeatTrigger {
    interval: TimeSpan,
}

impl MessageTrigger {
    /// The time between two plain messages, which is settled when the
    /// trigger is made.
    pub closed spec fn period(&self) -> TimeSpan {
        self.interval
    }

    /// A trigger with the configured time between two messages, or else
    /// with the time that `draw` stands for.
    pub fn with_draw(configured: Option<TimeSpan>, draw: u8) -> (trigger: MessageTrigger)
        ensures
            trigger.period() == message_interval(configured, draw),
    {
        match configured {
            Some(interval) => MessageTrigger { interval },
            None => {
                let secs: u8 = draw % 10 + 5;
                MessageTrigger { interval: TimeSpan::from_secs(secs as u64) }
            },
        }
    }

    /// The time between two plain messages.
    pub fn interval(&self) -> (interval: TimeSpan)
        ensures
            interval == self.period(),
    {
        self.interval
    }

    /// Takes one input: a tick has the peer worker publish a message, a
    /// stop ends the trigger.
    pub fn step(&self, input: TriggerInput) -> (event: Option<PeerWorkerInboundEvent>)
        ensures
            event == match input {
                TriggerInput::Tick => Some(PeerWorkerInboundEvent::MessageTrigger),
                TriggerInput::Stop => None,
            },
    {
        match input {
            TriggerInput::Tick => Some(PeerWorkerInboundEvent::MessageTrigger),
            TriggerInput::Stop => None,
        }
    }
}

impl HeartbeatTrigger {
    /// The time between two signs of life.
    pub closed spec fn period(&self) -> TimeSpan {
        self.interval
    }

    /// The time between two signs of life.
    pub fn interval(&self) -> (interval: TimeSpan)
        ensures
            interval == self.period(),
    {
        self.interval
    }

    /// Takes one input: a tick has the peer worker give a sign of life, a
    /// stop ends the trigger.
    pub fn step(&self, input: TriggerInput) -> (event: Option<PeerWorkerInboundEvent>)
        ensures
            event == match input {
                TriggerInput::Tick => Some(PeerWorkerInboundEvent::HeartbeatTrigger),
                TriggerInput::Stop => None,
            },
    {
        match input {
            TriggerInput::Tick => Some(PeerWorkerInboundEvent::HeartbeatTrigger),
            TriggerInput::Stop => None,
        }
    }
}

/// Starts the clock for plain messages with the configured time between
/// two of them; where none is configured, a whole number of seconds from
/// five to fourteen is drawn at random, once.
pub fn start_message_trigger(message_duration: Option<TimeSpan>) -> (trigger: MessageTrigger)
    ensures
        exists|draw: u8| trigger.period() == message_interval(message_duration, draw),
{
    match message_duration {
        Some(interval) => {
            assert(message_interval(message_duration, 0) == interval);
            MessageTrigger { interval }
        },
        None => {
            let draw = random_byte();
            MessageTrigger::with_draw(None, draw)
        },
    }
}

/// Starts the clock for signs of life with `heartbeat_duration` between
/// two of them.
pub fn start_heartbeat_trigger(heartbeat_duration: TimeSpan) -> (trigger: HeartbeatTrigger)
    ensures
        trigger.period() == heartbeat_duration,
{
    HeartbeatTrigger { interval: heartbeat_duration }
}

/// Where no time between two plain messages is configured, the time that
/// is drawn is a whole number of seconds, five at least and fourteen at
/// most, whatever is drawn; and a trigger keeps the time that it was made
/// with, for nothing changes a trigger.
pub proof fn drawn_interval_is_in_range(draw: u8)
    ensures
        5 <= drawn_secs(draw) <= 14,
        message_interval(None, draw).nanos == drawn_secs(draw) * 1_000_000_000,
        5_000_000_000 <= message_interval(None, draw).nanos <= 14_000_000_000,
{
}

} // verus!
