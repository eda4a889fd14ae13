//! Session setup on a matched peripheral, as a machine that is told how the
//! last command ended and answers with the next one.
//!
//! The machine performs nothing itself. Its driver carries out each
//! [`Command`] on the peripheral and reports the outcome as a [`Reply`],
//! together with the characteristics that the peripheral exposes so far.

use crate::gatt::ble_uuid;
use crate::gatt::find_characteristic;
use crate::gatt::find_notifying;
use crate::gatt::first_where_is_least;
use crate::gatt::next_notifying;
use crate::gatt::position_of;
use crate::gatt::request_uuid;
use crate::gatt::response_uuid;
use crate::gatt::short_identifiers_are_told_apart;
use crate::gatt::Characteristic;
use crate::gatt::REQUEST_CHARACTERISTIC;
use crate::gatt::RESPONSE_CHARACTERISTIC;
use vstd::prelude::*;

verus! {

/// The command that starts heart-rate streaming on the tracker, and keeps it going.
pub const POLL_COMMAND: [u8; 2] = [0x02, 0xa0];

/// Why session setup was given up.
#[derive(Debug, Clone, Copy, PartialEq, Eq, Structural)]
pub enum SetupError {
    /// The connection attempt failed.
    ConnectionError,
    /// Service discovery failed.
    DiscoveryError,
    /// A characteristic that can notify could not be subscribed to.
    SubscribeError,
    /// The request or the response characteristic is not among those discovered.
    CharacteristicNotFound,
    /// The initial poll command could not be written.
    WriteError,
    /// The notification stream could not be opened.
    StreamError,
}

/// How a write is to be performed.
#[derive(Debug, Clone, Copy, PartialEq, Eq, Structural)]
pub enum WriteType {
    /// The peripheral confirms the write before it completes.
    WithResponse,
    /// The write completes without confirmation.
    WithoutResponse,
}

/// Positions of the two characteristics the protocol runs over, in the list
/// of discovered characteristics.
#[derive(Debug, Clone, Copy, PartialEq, Eq, Structural)]
pub struct Endpoints {
    /// The characteristic that commands are written to.
    pub request: usize,
    /// The characteristic that notifies the tracker's messages.
    pub response: usize,
}

/// A write of a two-byte command to a characteristic.
#[derive(Debug, Clone, Copy, PartialEq, Eq)]
pub struct Write {
    /// Position of the characteristic to write to.
    pub characteristic: usize,
    /// The bytes to write.
    pub payload: [u8; 2],
    /// How to write them.
    pub write_type: WriteType,
}

/// The write that polls the tracker: [`POLL_COMMAND`], acknowledged, to the
/// request characteristic.
pub open spec fn poll_write_spec(request: usize) -> Write {
    Write { characteristic: request, payload: POLL_COMMAND, write_type: WriteType::WithResponse }
}

/// Builds the write that polls the tracker.
pub fn poll_write(request: usize) -> (write: Write)
    ensures
        write == poll_write_spec(request),
        write.payload@ == seq![0x02u8, 0xa0u8],
{
    Write { characteristic: request, payload: POLL_COMMAND, write_type: WriteType::WithResponse }
}

/// How the command that was last handed out ended.
#[derive(Debug, Clone, Copy, PartialEq, Eq, Structural)]
pub enum Reply {
    /// The platform carried the command out.
    Succeeded,
    /// The platform reported an error.
    Failed,
}

/// What the driver is to do next on the peripheral.
#[derive(Debug, Clone, Copy, PartialEq, Eq)]
pub enum Command {
    /// Connect to the peripheral.
    Connect,
    /// Discover the peripheral's services and characteristics.
    DiscoverServices,
    /// Subscribe to the characteristic at this position.
    Subscribe { characteristic: usize },
    /// Perform this write.
    Write { write: Write },
    /// Open the peripheral's notification stream.
    OpenNotifications,
    /// Setup is complete: consume the notification stream.
    Stream { endpoints: Endpoints },
    /// Setup has failed: give the session up.
    Abort { error: SetupError },
}

/// Where session setup stands. Each state but the last two waits for the
/// reply to one command.
#[derive(Debug, Clone, Copy, PartialEq, Eq, Structural)]
pub enum Negotiation {
    /// Waiting for the connection.
    Connecting,
    /// Waiting for service discovery.
    Discovering,
    /// Waiting for the subscription to the characteristic at `pending`.
    Subscribing { pending: usize },
    /// Waiting for the initial poll command to be written.
    Writing { endpoints: Endpoints },
    /// Waiting for the notification stream to open.
    Opening { endpoints: Endpoints },
    /// The tracker is streaming.
    Streaming { endpoints: Endpoints },
    /// Setup was given up.
    Failed { error: SetupError },
}

/// The positions of the request and the response characteristic, where both
/// are among `characteristics`.
pub open spec fn resolve(characteristics: Seq<Characteristic>) -> Option<Endpoints> {
    match (
        position_of(characteristics, ble_uuid(REQUEST_CHARACTERISTIC)),
        position_of(characteristics, ble_uuid(RESPONSE_CHARACTERISTIC)),
    ) {
        (Some(request), Some(response)) => Some(
            Endpoints { request: request as usize, response: response as usize },
        ),
        _ => None,
    }
}

/// The state once every subscription from position `from` on is accounted
/// for: the next subscription if one is left, else the initial write if both
/// endpoints are found, else failure.
pub open spec fn after_subscribing(characteristics: Seq<Characteristic>, from: int) -> Negotiation {
    match next_notifying(characteristics, from) {
        Some(next) => Negotiation::Subscribing { pending: next as usize },
        None => match resolve(characteristics) {
            Some(endpoints) => Negotiation::Writing { endpoints },
            None => Negotiation::Failed { error: SetupError::CharacteristicNotFound },
        },
    }
}

impl Negotiation {
    /// Whether setup has ended, in success or in failure.
    pub open spec fn is_settled(self) -> bool {
        self is Streaming || self is Failed
    }

    /// The error with which the step that this state waits for fails.
    pub open spec fn failure(self) -> SetupError
        recommends
            !self.is_settled(),
    {
        match self {
            Negotiation::Connecting => SetupError::ConnectionError,
            Negotiation::Discovering => SetupError::DiscoveryError,
            Negotiation::Subscribing { .. } => SetupError::SubscribeError,
            Negotiation::Writing { .. } => SetupError::WriteError,
            Negotiation::Opening { .. } => SetupError::StreamError,
            Negotiation::Streaming { .. } => SetupError::StreamError,
            Negotiation::Failed { error } => error,
        }
    }

    /// The command that a state asks of the driver.
    pub open spec fn command_spec(self) -> Command {
        match self {
            Negotiation::Connecting => Command::Connect,
            Negotiation::Discovering => Command::DiscoverServices,
            Negotiation::Subscribing { pending } => Command::Subscribe { characteristic: pending },
            Negotiation::Writing { endpoints } => Command::Write {
                write: poll_write_spec(endpoints.request),
            },
            Negotiation::Opening { .. } => Command::OpenNotifications,
            Negotiation::Streaming { endpoints } => Command::Stream { endpoints },
            Negotiation::Failed { error } => Command::Abort { error },
        }
    }

    /// The state that follows `self` on `reply`, where `characteristics` are
    /// those the peripheral exposes when the reply arrives.
    ///
    /// A settled state stays as it is. A failure gives the session up with
    /// the error of the step that failed. A success moves on to the next
    /// step: connect, discover, subscribe to every characteristic that can
    /// notify in the order of their positions, resolve both endpoints, write
    /// the poll command, open the notification stream.
    pub open spec fn step_spec(self, reply: Reply, characteristics: Seq<Characteristic>) -> Negotiation {
        if self.is_settled() {
            self
        } else if reply is Failed {
            Negotiation::Failed { error: self.failure() }
        } else {
            match self {
                Negotiation::Connecting => Negotiation::Discovering,
                Negotiation::Discovering => after_subscribing(characteristics, 0),
                Negotiation::Subscribing { pending } => after_subscribing(
                    characteristics,
                    pending + 1,
                ),
                Negotiation::Writing { endpoints } => Negotiation::Opening { endpoints },
                Negotiation::Opening { endpoints } => Negotiation::Streaming { endpoints },
                _ => self,
            }
        }
    }

    /// The state in which setup begins, and the first command.
    pub fn start() -> (begun: (Negotiation, Command))
        ensures
            begun.0 == Negotiation::Connecting,
            begun.1 == Command::Connect,
    {
        (Negotiation::Connecting, Command::Connect)
    }

    /// The command that this state asks of the driver.
    pub fn command(&self) -> (command: Command)
        ensures
            command == self.command_spec(),
    {
        match *self {
            Negotiation::Connecting => Command::Connect,
            Negotiation::Discovering => Command::DiscoverServices,
            Negotiation::Subscribing { pending } => Command::Subscribe { characteristic: pending },
            Negotiation::Writing { endpoints } => Command::Write {
                write: poll_write(endpoints.request),
            },
            Negotiation::Opening { .. } => Command::OpenNotifications,
            Negotiation::Streaming { endpoints } => Command::Stream { endpoints },
            Negotiation::Failed { error } => Command::Abort { error },
        }
    }

    /// Takes the reply to the pending command and answers with the state
    /// that follows and the command to carry out next.
    pub fn step(self, reply: Reply, characteristics: &[Characteristic]) -> (next: (
        Negotiation,
        Command,
    ))
        ensures
            next.0 == self.step_spec(reply, characteristics@),
            next.1 == next.0.command_spec(),
    {
        let state = match self {
            Negotiation::Streaming { .. } | Negotiation::Failed { .. } => self,
            Negotiation::Connecting => match reply {
                Reply::Succeeded => Negotiation::Discovering,
                Reply::Failed => Negotiation::Failed { error: SetupError::ConnectionError },
            },
            Negotiation::Discovering => match reply {
                Reply::Succeeded => subscribe_or_resolve(characteristics, 0),
                Reply::Failed => Negotiation::Failed { error: SetupError::DiscoveryError },
            },
            Negotiation::Subscribing { pending } => match reply {
                // Past the end of the list nothing is left to subscribe to,
                // so the search may as well start at `pending` itself.
                Reply::Succeeded => if pending < characteristics.len() {
                    subscribe_or_resolve(characteristics, pending + 1)
                } else {
                    subscribe_or_resolve(characteristics, pending)
                },
                Reply::Failed => Negotiation::Failed { error: SetupError::SubscribeError },
            },
            Negotiation::Writing { endpoints } => match reply {
                Reply::Succeeded => Negotiation::Opening { endpoints },
                Reply::Failed => Negotiation::Failed { error: SetupError::WriteError },
            },
            Negotiation::Opening { endpoints } => match reply {
                Reply::Succeeded => Negotiation::Streaming { endpoints },
                Reply::Failed => Negotiation::Failed { error: SetupError::StreamError },
            },
        };
        let command = state.command();
        (state, command)
    }
}

/// Looks up the request and the response characteristic.
///
/// Fails with [`SetupError::CharacteristicNotFound`] exactly when either is
/// not among `characteristics`.
pub fn resolve_endpoints(characteristics: &[Characteristic]) -> (resolved: Result<
    Endpoints,
    SetupError,
>)
    ensures
        match resolve(characteristics@) {
            Some(endpoints) => resolved == Ok::<Endpoints, SetupError>(endpoints),
            None => resolved == Err::<Endpoints, SetupError>(SetupError::CharacteristicNotFound),
        },
{
    let request = find_characteristic(characteristics, request_uuid());
    let response = find_characteristic(characteristics, response_uuid());
    match (request, response) {
        (Some(request), Some(response)) => Ok(Endpoints { request, response }),
        _ => Err(SetupError::CharacteristicNotFound),
    }
}

/// Decides what follows once the subscriptions before position `from` are made.
pub fn subscribe_or_resolve(characteristics: &[Characteristic], from: usize) -> (state: Negotiation)
    ensures
        state == after_subscribing(characteristics@, from as int),
{
    match find_notifying(characteristics, from) {
        Some(next) => Negotiation::Subscribing { pending: next },
        None => match resolve_endpoints(characteristics) {
            Ok(endpoints) => Negotiation::Writing { endpoints },
            Err(error) => Negotiation::Failed { error },
        },
    }
}

/// What holds of every state that setup can be in while the peripheral
/// exposes `characteristics`: a pending subscription is to a characteristic
/// that can notify; endpoints are those that `resolve` finds; and setup has
/// failed for want of an endpoint only where one is missing.
pub open spec fn consistent(state: Negotiation, characteristics: Seq<Characteristic>) -> bool {
    match state {
        Negotiation::Subscribing { pending } => {
            &&& pending < characteristics.len()
            &&& characteristics[pending as int].can_notify()
        },
        Negotiation::Writing { endpoints } => resolve(characteristics) == Some(endpoints),
        Negotiation::Opening { endpoints } => resolve(characteristics) == Some(endpoints),
        Negotiation::Streaming { endpoints } => resolve(characteristics) == Some(endpoints),
        Negotiation::Failed { error } => error == SetupError::CharacteristicNotFound ==> resolve(
            characteristics,
        ) is None,
        _ => true,
    }
}

/// The number of replies after which setup has settled at the latest.
pub open spec fn steps_left(state: Negotiation, characteristics: Seq<Characteristic>) -> nat {
    match state {
        Negotiation::Connecting => characteristics.len() + 5,
        Negotiation::Discovering => characteristics.len() + 4,
        Negotiation::Subscribing { pending } => if pending < characteristics.len() {
            (characteristics.len() - pending + 2) as nat
        } else {
            3
        },
        Negotiation::Writing { .. } => 2,
        Negotiation::Opening { .. } => 1,
        Negotiation::Streaming { .. } => 0,
        Negotiation::Failed { .. } => 0,
    }
}

/// Where both endpoints are found, they are two different characteristics
/// of the list, and each has the UUID of its short identifier.
pub proof fn resolved_endpoints_are_distinct(characteristics: Seq<Characteristic>)
    requires
        characteristics.len() <= usize::MAX,
    ensures
        match resolve(characteristics) {
            Some(endpoints) => {
                &&& endpoints.request < characteristics.len()
                &&& endpoints.response < characteristics.len()
                &&& endpoints.request != endpoints.response
                &&& characteristics[endpoints.request as int].uuid == ble_uuid(
                    REQUEST_CHARACTERISTIC,
                )
                &&& characteristics[endpoints.response as int].uuid == ble_uuid(
                    RESPONSE_CHARACTERISTIC,
                )
            },
            None => {
                ||| forall|i: int|
                    0 <= i < characteristics.len() ==> (#[trigger] characteristics[i]).uuid
                        != ble_uuid(REQUEST_CHARACTERISTIC)
                ||| forall|i: int|
                    0 <= i < characteristics.len() ==> (#[trigger] characteristics[i]).uuid
                        != ble_uuid(RESPONSE_CHARACTERISTIC)
            },
        },
{
    let request = ble_uuid(REQUEST_CHARACTERISTIC);
    let response = ble_uuid(RESPONSE_CHARACTERISTIC);
    short_identifiers_are_told_apart(REQUEST_CHARACTERISTIC, RESPONSE_CHARACTERISTIC);
    first_where_is_least(characteristics, |c: Characteristic| c.uuid == request, 0);
    first_where_is_least(characteristics, |c: Characteristic| c.uuid == response, 0);
}

/// Setup begins in a consistent state, and every reply leaves it in one,
/// as long as the peripheral exposes the same characteristics.
pub proof fn step_keeps_consistency(
    state: Negotiation,
    reply: Reply,
    characteristics: Seq<Characteristic>,
)
    requires
        consistent(state, characteristics),
        characteristics.len() <= usize::MAX,
    ensures
        consistent(Negotiation::Connecting, characteristics),
        consistent(state.step_spec(reply, characteristics), characteristics),
{
    first_where_is_least(characteristics, |c: Characteristic| c.can_notify(), 0);
    if let Negotiation::Subscribing { pending } = state {
        first_where_is_least(characteristics, |c: Characteristic| c.can_notify(), pending + 1);
    }
}

/// Subscriptions skip no characteristic that can notify: the first one is
/// to the first such characteristic, each later one to the next after the
/// one before, and the poll command is written only when none is left.
pub proof fn subscriptions_skip_nothing(
    state: Negotiation,
    characteristics: Seq<Characteristic>,
)
    requires
        state is Discovering || state is Subscribing,
        characteristics.len() <= usize::MAX,
    ensures
        ({
            let from: int = match state {
                Negotiation::Subscribing { pending } => pending + 1,
                _ => 0,
            };
            match state.step_spec(Reply::Succeeded, characteristics) {
                Negotiation::Subscribing { pending } => {
                    &&& from <= pending < characteristics.len()
                    &&& characteristics[pending as int].can_notify()
                    &&& forall|i: int|
                        from <= i < pending ==> !(#[trigger] characteristics[i]).can_notify()
                },
                next => {
                    &&& next is Writing || next == (Negotiation::Failed {
                        error: SetupError::CharacteristicNotFound,
                    })
                    &&& forall|i: int|
                        from <= i < characteristics.len() ==> !(
                        #[trigger] characteristics[i]).can_notify()
                },
            }
        }),
{
    let from: int = match state {
        Negotiation::Subscribing { pending } => pending + 1,
        _ => 0,
    };
    first_where_is_least(characteristics, |c: Characteristic| c.can_notify(), from);
}

/// Setup settles: a settled state has no step left, and every reply to a
/// state that is not settled leaves fewer steps than before. From the start
/// it takes no more replies than there are characteristics, and five.
pub proof fn setup_settles(state: Negotiation, reply: Reply, characteristics: Seq<Characteristic>)
    requires
        characteristics.len() <= usize::MAX,
    ensures
        state.is_settled() <==> steps_left(state, characteristics) == 0,
        state.is_settled() ==> state.step_spec(reply, characteristics) == state,
        !state.is_settled() ==> steps_left(state.step_spec(reply, characteristics), characteristics)
            < steps_left(state, characteristics),
        steps_left(Negotiation::Connecting, characteristics) == characteristics.len() + 5,
{
    let from: int = match state {
        Negotiation::Subscribing { pending } => pending + 1,
        _ => 0,
    };
    first_where_is_least(characteristics, |c: Characteristic| c.can_notify(), from);
}

/// A failed step gives the session up with the error of that step, whatever
/// the peripheral exposes, and nothing is retried.
pub proof fn failure_gives_up(state: Negotiation, characteristics: Seq<Characteristic>)
    requires
        !state.is_settled(),
    ensures
        state.step_spec(Reply::Failed, characteristics) == (Negotiation::Failed {
            error: state.failure(),
        }),
        state is Connecting ==> state.failure() == SetupError::ConnectionError,
        state is Discovering ==> state.failure() == SetupError::DiscoveryError,
        state is Subscribing ==> state.failure() == SetupError::SubscribeError,
        state is Writing ==> state.failure() == SetupError::WriteError,
        state is Opening ==> state.failure() == SetupError::StreamError,
{
}

} // verus!
