//! Decisions of the event loop: what to do on each platform event, and on
//! each message that a streaming tracker sends.

use crate::matcher::is_tracker;
use crate::matcher::is_tracker_spec;
use crate::matcher::PeripheralProperties;
use crate::negotiator::poll_write;
use crate::negotiator::poll_write_spec;
use crate::negotiator::Command;
use crate::negotiator::Endpoints;
use crate::negotiator::Negotiation;
use crate::negotiator::Write;
use crate::protocol::Event;
use crate::protocol::Message;
use vstd::prelude::*;

verus! {

/// Seconds to wait after a heart-rate sample before the tracker is polled again.
pub const POLL_DELAY_SECS: u64 = 1;

/// Exit code of the process when a disconnection ends it.
pub const DISCONNECT_EXIT_CODE: i32 = 0;

/// An event of the platform's Bluetooth stack, as far as the loop tells them apart.
#[derive(Debug, Clone, Copy, PartialEq, Eq, Structural)]
pub enum CentralEvent {
    /// A peripheral was discovered.
    DeviceDiscovered,
    /// A peripheral has connected.
    DeviceConnected,
    /// A peripheral has disconnected.
    DeviceDisconnected,
    /// Any other event.
    Other,
}

/// What a disconnection means for the process.
#[derive(Debug, Clone, Copy, PartialEq, Eq, Structural)]
pub enum DisconnectPolicy {
    /// The process exits.
    Exit,
    /// The disconnection is logged and scanning goes on.
    KeepScanning,
}

/// What the loop does on a platform event.
#[derive(Debug, Clone, Copy, PartialEq, Eq, Structural)]
pub enum Directive {
    /// Look the peripheral up and ask the matcher whether it is the tracker.
    Examine,
    /// Log that the peripheral has connected.
    LogConnected,
    /// Log that the peripheral has disconnected, and go on scanning.
    LogDisconnected,
    /// Leave the process with this exit code.
    Exit { code: i32 },
    /// Do nothing.
    Ignore,
}

/// A key of the host's keyboard.
#[derive(Debug, Clone, Copy, PartialEq, Eq, Structural)]
pub enum Key {
    /// The space bar.
    Space,
}

/// What the loop does on a decoded message.
#[derive(Debug, Clone, Copy, PartialEq, Eq)]
pub enum Reaction {
    /// After `delay_secs` seconds, and without holding up the messages that
    /// follow, perform `write` once.
    SchedulePoll { delay_secs: u64, write: Write },
    /// Tap the key on the host: press it, then release it.
    TapKey { key: Key },
    /// Log the message and drop it.
    Discard,
}

/// The directive for a platform event under a disconnect policy.
pub open spec fn dispatch_spec(event: CentralEvent, policy: DisconnectPolicy) -> Directive {
    match event {
        CentralEvent::DeviceDiscovered => Directive::Examine,
        CentralEvent::DeviceConnected => Directive::LogConnected,
        CentralEvent::DeviceDisconnected => match policy {
            DisconnectPolicy::Exit => Directive::Exit { code: DISCONNECT_EXIT_CODE },
            DisconnectPolicy::KeepScanning => Directive::LogDisconnected,
        },
        CentralEvent::Other => Directive::Ignore,
    }
}

/// The reaction to a message of a session with the given endpoints.
pub open spec fn react_spec(message: Message, endpoints: Endpoints) -> Reaction {
    match message {
        Message::HeartRate(_) => Reaction::SchedulePoll {
            delay_secs: POLL_DELAY_SECS,
            write: poll_write_spec(endpoints.request),
        },
        Message::ButtonPress => Reaction::TapKey { key: Key::Space },
        Message::Unknown(_, _) => Reaction::Discard,
    }
}

/// Decides what the loop does on a platform event.
///
/// A discovery is examined, a connection is logged, a disconnection ends the
/// process or is logged as the policy says, and anything else is ignored.
pub fn dispatch(event: CentralEvent, policy: DisconnectPolicy) -> (directive: Directive)
    ensures
        directive == dispatch_spec(event, policy),
{
    match event {
        CentralEvent::DeviceDiscovered => Directive::Examine,
        CentralEvent::DeviceConnected => Directive::LogConnected,
        CentralEvent::DeviceDisconnected => match policy {
            DisconnectPolicy::Exit => Directive::Exit { code: DISCONNECT_EXIT_CODE },
            DisconnectPolicy::KeepScanning => Directive::LogDisconnected,
        },
        CentralEvent::Other => Directive::Ignore,
    }
}

/// Decides whether a session is set up on a discovered peripheral.
///
/// Setup begins, with its first command, exactly when the peripheral is the
/// tracker; on any other peripheral nothing is attempted.
pub fn begin_session(properties: Option<&PeripheralProperties>) -> (begun: Option<(Negotiation, Command)>)
    ensures
        is_tracker_spec(properties) ==> begun == Some((Negotiation::Connecting, Command::Connect)),
        !is_tracker_spec(properties) ==> begun is None,
{
    if is_tracker(properties) {
        Some(Negotiation::start())
    } else {
        None
    }
}

/// Decides what the loop does on a decoded message.
///
/// A heart-rate sample schedules one poll of the tracker, a button press
/// taps the space bar, and a message of any other type is dropped.
pub fn react(event: &Event, endpoints: &Endpoints) -> (reaction: Reaction)
    ensures
        reaction == react_spec(event@, *endpoints),
{
    match event {
        Event::HeartRate(_) => Reaction::SchedulePoll {
            delay_secs: POLL_DELAY_SECS,
            write: poll_write(endpoints.request),
        },
        Event::ButtonPress => Reaction::TapKey { key: Key::Space },
        Event::Unknown { .. } => Reaction::Discard,
    }
}

} // verus!
