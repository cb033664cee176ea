//! The connect handshake: connect, discover services, then subscribe to the
//! Notify characteristic until it succeeds, which is what makes the OS pair
//! and what marks the device connected. Each step says which backend call
//! comes next; the caller makes it and reports the result back.
use crate::text::{contains_text, has_substring};
use crate::types::{ErrorKind, NotificationEvent};
use vstd::prelude::*;

verus! {

/// Ceiling of the subscription retry loop, from its start, in milliseconds.
pub const PAIRING_TIMEOUT_MS: u64 = 30_000;

/// Where the handshake stands.
#[derive(PartialEq, Eq, Structural, Clone, Copy, Debug)]
pub enum Stage {
    /// Waiting for the peripheral's connection state.
    Resolve,
    Connecting,
    Discovering,
    /// At the top of a retry-loop iteration.
    Probing,
    Subscribing,
    /// Dropping the subscription that a subscribe left behind.
    Releasing,
    /// Pausing one second before the next iteration.
    Waiting,
    /// Re-reading the connection state after the loop.
    Confirming,
    Finished,
}

/// The phase reported in a connection-status notification.
#[derive(PartialEq, Eq, Structural, Clone, Copy, Debug)]
pub enum Phase {
    Connecting,
    Connected,
}

/// What the backend reported for the last command.
#[derive(Debug, PartialEq, Eq)]
pub enum HandshakeInput {
    /// The peripheral was found; whether it is connected.
    Resolved { connected: bool },
    ConnectDone(Result<(), String>),
    DiscoverDone(Result<(), String>),
    /// Time since the loop started, connection state, and whether a Notify
    /// characteristic is listed.
    Probed { elapsed_ms: u64, connected: bool, notify_found: bool },
    SubscribeDone(Result<(), String>),
    /// The unsubscribe returned (its error, if any, is of no consequence).
    UnsubscribeDone,
    Woke,
    Confirmed { connected: bool },
}

/// A call for the caller to make, in order.
#[derive(Debug, PartialEq, Eq)]
pub enum HandshakeCommand {
    /// Publish a connection-status notification.
    Status(Phase),
    Connect,
    DiscoverServices,
    /// Spawn the task that, after one second, publishes a pairing prompt.
    StartPrompt,
    CancelPrompt,
    /// Report `Probed`.
    Probe,
    Subscribe,
    Unsubscribe,
    /// Sleep one second, then report `Woke`.
    Sleep,
    /// Report `Confirmed`.
    Confirm,
    /// Record the device as connected and publish `DeviceConnected`.
    MarkConnected,
    /// The handshake's result.
    Finish(Result<(), ErrorKind>),
}

pub struct Handshake {
    stage: Stage,
    /// A subscription (or the listener a failed one leaks) is outstanding.
    holds_subscription: bool,
    /// After the release, the loop is done (else it retries).
    release_succeeds: bool,
}

/// Whether a subscribe error means the device is not paired yet, which is
/// worth a retry.
pub open spec fn is_authentication_error(m: Seq<char>) -> bool {
    has_substring(m, "authentication"@)
}

impl Handshake {
    pub closed spec fn stage(&self) -> Stage {
        self.stage
    }

    pub closed spec fn holds_subscription(&self) -> bool {
        self.holds_subscription
    }

    pub closed spec fn release_succeeds(&self) -> bool {
        self.release_succeeds
    }

    /// A subscription is outstanding exactly while it is being released.
    pub open spec fn well_formed(&self) -> bool {
        self.holds_subscription() <==> self.stage() == Stage::Releasing
    }

    pub fn new() -> (r: Handshake)
        ensures
            r.well_formed(),
            r.stage() == Stage::Resolve,
    {
        Handshake { stage: Stage::Resolve, holds_subscription: false, release_succeeds: false }
    }

    pub fn is_finished(&self) -> (r: bool)
        ensures
            r == (self.stage() == Stage::Finished),
    {
        self.stage == Stage::Finished
    }

    fn finish(&mut self, e: ErrorKind) -> (r: Vec<HandshakeCommand>)
        ensures
            final(self).stage() == Stage::Finished,
            !final(self).holds_subscription(),
            r@ == seq![HandshakeCommand::CancelPrompt, HandshakeCommand::Finish(Err(e))],
    {
        self.stage = Stage::Finished;
        self.holds_subscription = false;
        vec![HandshakeCommand::CancelPrompt, HandshakeCommand::Finish(Err(e))]
    }

    /// Advances on the report of the last command and returns the commands
    /// that follow. A report that does not fit the stage changes nothing.
    pub fn step(&mut self, input: HandshakeInput) -> (r: Vec<HandshakeCommand>)
        requires
            old(self).well_formed(),
        ensures
            final(self).well_formed(),
            match (old(self).stage(), input) {
                (Stage::Resolve, HandshakeInput::Resolved { connected }) => if connected {
                    final(self).stage() == Stage::Discovering && r@ == seq![HandshakeCommand::DiscoverServices]
                } else {
                    final(self).stage() == Stage::Connecting && r@ == seq![
                        HandshakeCommand::Status(Phase::Connecting),
                        HandshakeCommand::Connect,
                    ]
                },
                (Stage::Connecting, HandshakeInput::ConnectDone(res)) => match res {
                    Ok(_) => final(self).stage() == Stage::Discovering && r@ == seq![
                        HandshakeCommand::DiscoverServices,
                    ],
                    Err(m) => final(self).stage() == Stage::Finished && r@ == seq![
                        HandshakeCommand::Finish(Err(ErrorKind::ConnectFailed(m))),
                    ],
                },
                (Stage::Discovering, HandshakeInput::DiscoverDone(res)) => match res {
                    Ok(_) => final(self).stage() == Stage::Probing && r@ == seq![
                        HandshakeCommand::StartPrompt,
                        HandshakeCommand::Probe,
                    ],
                    Err(m) => final(self).stage() == Stage::Finished && r@ == seq![
                        HandshakeCommand::Finish(Err(ErrorKind::Backend(m))),
                    ],
                },
                (Stage::Probing, HandshakeInput::Probed { elapsed_ms, connected, notify_found }) => if !connected {
                    final(self).stage() == Stage::Finished && r@ == seq![
                        HandshakeCommand::CancelPrompt,
                        HandshakeCommand::Finish(Err(ErrorKind::Disconnected)),
                    ]
                } else if elapsed_ms > PAIRING_TIMEOUT_MS {
                    final(self).stage() == Stage::Finished && r@ == seq![
                        HandshakeCommand::CancelPrompt,
                        HandshakeCommand::Finish(Err(ErrorKind::Timeout)),
                    ]
                } else if !notify_found {
                    final(self).stage() == Stage::Waiting && r@ == seq![HandshakeCommand::Sleep]
                } else {
                    final(self).stage() == Stage::Subscribing && r@ == seq![HandshakeCommand::Subscribe]
                },
                (Stage::Subscribing, HandshakeInput::SubscribeDone(res)) => match res {
                    Ok(_) => final(self).stage() == Stage::Releasing && final(self).release_succeeds()
                        && r@ == seq![HandshakeCommand::Unsubscribe],
                    Err(m) => if is_authentication_error(m@) {
                        final(self).stage() == Stage::Releasing && !final(self).release_succeeds() && r@
                            == seq![HandshakeCommand::Unsubscribe]
                    } else {
                        final(self).stage() == Stage::Finished && r@ == seq![
                            HandshakeCommand::CancelPrompt,
                            HandshakeCommand::Finish(Err(ErrorKind::Backend(m))),
                        ]
                    },
                },
                (Stage::Releasing, HandshakeInput::UnsubscribeDone) => if old(self).release_succeeds() {
                    final(self).stage() == Stage::Confirming && r@ == seq![HandshakeCommand::Confirm]
                } else {
                    final(self).stage() == Stage::Waiting && r@ == seq![HandshakeCommand::Sleep]
                },
                (Stage::Waiting, HandshakeInput::Woke) => final(self).stage() == Stage::Probing && r@ == seq![
                    HandshakeCommand::Probe,
                ],
                (Stage::Confirming, HandshakeInput::Confirmed { connected }) => if connected {
                    final(self).stage() == Stage::Finished && r@ == seq![
                        HandshakeCommand::Status(Phase::Connected),
                        HandshakeCommand::CancelPrompt,
                        HandshakeCommand::MarkConnected,
                        HandshakeCommand::Finish(Ok(())),
                    ]
                } else {
                    final(self).stage() == Stage::Finished && r@ == seq![
                        HandshakeCommand::CancelPrompt,
                        HandshakeCommand::Finish(Err(ErrorKind::Disconnected)),
                    ]
                },
                _ => *final(self) == *old(self) && r@.len() == 0,
            },
    {
        match (self.stage, input) {
            (Stage::Resolve, HandshakeInput::Resolved { connected }) => {
                if connected {
                    self.stage = Stage::Discovering;
                    vec![HandshakeCommand::DiscoverServices]
                } else {
                    self.stage = Stage::Connecting;
                    vec![HandshakeCommand::Status(Phase::Connecting), HandshakeCommand::Connect]
                }
            },
            (Stage::Connecting, HandshakeInput::ConnectDone(res)) => match res {
                Ok(_) => {
                    self.stage = Stage::Discovering;
                    vec![HandshakeCommand::DiscoverServices]
                },
                Err(m) => {
                    self.stage = Stage::Finished;
                    vec![HandshakeCommand::Finish(Err(ErrorKind::ConnectFailed(m)))]
                },
            },
            (Stage::Discovering, HandshakeInput::DiscoverDone(res)) => match res {
                Ok(_) => {
                    self.stage = Stage::Probing;
                    vec![HandshakeCommand::StartPrompt, HandshakeCommand::Probe]
                },
                Err(m) => {
                    self.stage = Stage::Finished;
                    vec![HandshakeCommand::Finish(Err(ErrorKind::Backend(m)))]
                },
            },
            (Stage::Probing, HandshakeInput::Probed { elapsed_ms, connected, notify_found }) => {
                if !connected {
                    self.finish(ErrorKind::Disconnected)
                } else if elapsed_ms > PAIRING_TIMEOUT_MS {
                    self.finish(ErrorKind::Timeout)
                } else if !notify_found {
                    self.stage = Stage::Waiting;
                    vec![HandshakeCommand::Sleep]
                } else {
                    self.stage = Stage::Subscribing;
                    vec![HandshakeCommand::Subscribe]
                }
            },
            (Stage::Subscribing, HandshakeInput::SubscribeDone(res)) => match res {
                Ok(_) => {
                    self.stage = Stage::Releasing;
                    self.holds_subscription = true;
                    self.release_succeeds = true;
                    vec![HandshakeCommand::Unsubscribe]
                },
                Err(m) => {
                    if contains_text(m.as_str(), "authentication") {
                        self.stage = Stage::Releasing;
                        self.holds_subscription = true;
                        self.release_succeeds = false;
                        vec![HandshakeCommand::Unsubscribe]
                    } else {
                        self.finish(ErrorKind::Backend(m))
                    }
                },
            },
            (Stage::Releasing, HandshakeInput::UnsubscribeDone) => {
                self.holds_subscription = false;
                if self.release_succeeds {
                    self.stage = Stage::Confirming;
                    vec![HandshakeCommand::Confirm]
                } else {
                    self.stage = Stage::Waiting;
                    vec![HandshakeCommand::Sleep]
                }
            },
            (Stage::Waiting, HandshakeInput::Woke) => {
                self.stage = Stage::Probing;
                vec![HandshakeCommand::Probe]
            },
            (Stage::Confirming, HandshakeInput::Confirmed { connected }) => {
                if connected {
                    self.stage = Stage::Finished;
                    vec![
                        HandshakeCommand::Status(Phase::Connected),
                        HandshakeCommand::CancelPrompt,
                        HandshakeCommand::MarkConnected,
                        HandshakeCommand::Finish(Ok(())),
                    ]
                } else {
                    self.finish(ErrorKind::Disconnected)
                }
            },
            _ => Vec::new(),
        }
    }
}

/// A handshake holds at most one subscription at a time, and a finished one
/// holds none: so two handshakes on a device that both ran their
/// subscription loop leave no more than one subscription behind.
pub proof fn lemma_subscriptions_released(first: Handshake, second: Handshake)
    requires
        first.well_formed(),
        second.well_formed(),
        first.stage() == Stage::Finished,
        second.stage() == Stage::Finished,
    ensures
        !first.holds_subscription(),
        !second.holds_subscription(),
        (if first.holds_subscription() { 1int } else { 0 }) + (if second.holds_subscription() {
            1int
        } else {
            0
        }) <= 1,
{
}

/// The connection-status notification of a device.
pub fn connection_status(uuid: &str, phase: Phase) -> (r: NotificationEvent)
    ensures
        r matches NotificationEvent::DeviceConnectionStatus { uuid: u, phase: p } && u@ == uuid@ && p@
            == (match phase {
            Phase::Connecting => "connecting"@,
            Phase::Connected => "connected"@,
        }),
{
    let text = match phase {
        Phase::Connecting => "connecting".to_owned(),
        Phase::Connected => "connected".to_owned(),
    };
    NotificationEvent::DeviceConnectionStatus { uuid: uuid.to_owned(), phase: text }
}

} // verus!
