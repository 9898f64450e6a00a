//! The session bootstrap state machine and the one-shot disconnect slot.
//!
//! The bootstrap advances through scan, connect, service discovery,
//! characteristic resolution, subscription and factory handoff, one state per
//! pending operation; any failure aborts the attempt with its originating
//! error, and the only clean shutdown is the peer's (or stack's) disconnect
//! signal.

use vstd::prelude::*;

use crate::error::BridgeError;
use crate::resolver::Role;

verus! {

/// Where the bootstrap stands; each state waits on one operation.
#[derive(Clone, Copy, Debug, PartialEq, Eq)]
pub enum SessionState {
    Idle,
    Scanning,
    Connecting,
    DiscoveringService,
    ResolvingCharacteristics,
    Subscribing,
    SessionActive,
    /// Terminal: the link ended with the stack-reported reason code.
    Disconnected { reason: i32 },
}

/// The outcome of the operation the current state waits on.
#[derive(Clone, Copy, Debug, PartialEq, Eq)]
pub enum SessionEvent {
    /// The bootstrap was started.
    Started,
    /// A peer matched the scan filter.
    ScanMatched,
    /// The scan window elapsed without a match.
    ScanTimedOut,
    /// The GATT connection opened.
    ConnectSucceeded,
    /// The stack failed to open the connection.
    ConnectFailed,
    /// The target service was found on the peer.
    ServiceDiscovered,
    /// The peer lacks the target service.
    ServiceMissing,
    /// All three characteristic roles were resolved.
    CharacteristicsResolved,
    /// A role stayed unresolved after both passes.
    CharacteristicsMissing(Role),
    /// Notifications were subscribed and the session factory accepted the
    /// handoff.
    SessionEstablished,
    /// Subscribing to the receive characteristic failed.
    SubscribeRefused,
    /// The session factory rejected the handoff.
    SessionRejected,
    /// The disconnect signal fired with the stack's reason code.
    DisconnectSignalled(i32),
}

/// Which events can answer which state's pending operation.
pub open spec fn event_fits(state: SessionState, event: SessionEvent) -> bool {
    match state {
        SessionState::Idle => event is Started,
        SessionState::Scanning => event is ScanMatched || event is ScanTimedOut,
        SessionState::Connecting => event is ConnectSucceeded || event is ConnectFailed,
        SessionState::DiscoveringService => event is ServiceDiscovered || event is ServiceMissing,
        SessionState::ResolvingCharacteristics => event is CharacteristicsResolved || event
            is CharacteristicsMissing,
        SessionState::Subscribing => event is SessionEstablished || event is SubscribeRefused
            || event is SessionRejected,
        SessionState::SessionActive => event is DisconnectSignalled,
        SessionState::Disconnected { .. } => false,
    }
}

/// The transition table: success advances to the next state; any failure
/// aborts the bootstrap with its originating error; the disconnect signal is
/// the terminal transition.
pub open spec fn spec_advance(state: SessionState, event: SessionEvent) -> Result<
    SessionState,
    BridgeError,
>
    recommends
        event_fits(state, event),
{
    match event {
        SessionEvent::Started => Ok(SessionState::Scanning),
        SessionEvent::ScanMatched => Ok(SessionState::Connecting),
        SessionEvent::ScanTimedOut => Err(BridgeError::ScanTimeout),
        SessionEvent::ConnectSucceeded => Ok(SessionState::DiscoveringService),
        SessionEvent::ConnectFailed => Err(BridgeError::ConnectError),
        SessionEvent::ServiceDiscovered => Ok(SessionState::ResolvingCharacteristics),
        SessionEvent::ServiceMissing => Err(BridgeError::ServiceNotFound),
        SessionEvent::CharacteristicsResolved => Ok(SessionState::Subscribing),
        SessionEvent::CharacteristicsMissing(role) => Err(BridgeError::MissingCharacteristic(role)),
        SessionEvent::SessionEstablished => Ok(SessionState::SessionActive),
        SessionEvent::SubscribeRefused => Err(BridgeError::SubscribeFailed),
        SessionEvent::SessionRejected => Err(BridgeError::SessionSetupFailed),
        SessionEvent::DisconnectSignalled(reason) => Ok(SessionState::Disconnected { reason }),
    }
}

/// Advances the bootstrap by one operation outcome.
///
/// There is no partial-session state: an error leaves nothing to resume, and
/// only the disconnect signal reaches the terminal state.
pub fn advance(state: SessionState, event: SessionEvent) -> (r: Result<SessionState, BridgeError>)
    requires
        event_fits(state, event),
    ensures
        r == spec_advance(state, event),
{
    match event {
        SessionEvent::Started => Ok(SessionState::Scanning),
        SessionEvent::ScanMatched => Ok(SessionState::Connecting),
        SessionEvent::ScanTimedOut => Err(BridgeError::ScanTimeout),
        SessionEvent::ConnectSucceeded => Ok(SessionState::DiscoveringService),
        SessionEvent::ConnectFailed => Err(BridgeError::ConnectError),
        SessionEvent::ServiceDiscovered => Ok(SessionState::ResolvingCharacteristics),
        SessionEvent::ServiceMissing => Err(BridgeError::ServiceNotFound),
        SessionEvent::CharacteristicsResolved => Ok(SessionState::Subscribing),
        SessionEvent::CharacteristicsMissing(role) => Err(BridgeError::MissingCharacteristic(role)),
        SessionEvent::SessionEstablished => Ok(SessionState::SessionActive),
        SessionEvent::SubscribeRefused => Err(BridgeError::SubscribeFailed),
        SessionEvent::SessionRejected => Err(BridgeError::SessionSetupFailed),
        SessionEvent::DisconnectSignalled(reason) => Ok(SessionState::Disconnected { reason }),
    }
}

/// What recording a disconnect reason does to the slot: the first reason is
/// kept and wakes the waiter; later reasons are dropped without waking.
pub open spec fn spec_record(slot: Option<i32>, reason: i32) -> (Option<i32>, bool) {
    match slot {
        None => (Some(reason), true),
        Some(first) => (Some(first), false),
    }
}

/// The one-shot disconnect cell: the first disconnect event's reason is
/// retained; every later event is a stack artifact and must neither
/// overwrite it nor wake the waiting bootstrap again.
pub struct DisconnectSlot {
    pub reason: Option<i32>,
}

impl DisconnectSlot {
    /// A fresh slot with no reason recorded.
    pub fn new() -> (s: DisconnectSlot)
        ensures
            s.reason is None,
    {
        DisconnectSlot { reason: None }
    }

    /// Records a disconnect reason; returns whether the waiter is to be
    /// woken (true exactly on the first record).
    pub fn record(&mut self, reason: i32) -> (woke: bool)
        ensures
            (final(self).reason, woke) == spec_record(old(self).reason, reason),
    {
        match self.reason {
            None => {
                self.reason = Some(reason);
                true
            },
            Some(_) => false,
        }
    }

    /// The recorded reason, if any.
    pub fn observed(&self) -> (r: Option<i32>)
        ensures
            r == self.reason,
    {
        self.reason
    }
}

/// Two disconnect events in rapid succession wake the waiter exactly once,
/// and the first event's reason is the one observed.
pub proof fn lemma_first_disconnect_wins(first: i32, second: i32)
    ensures
        ({
            let (slot1, woke1) = spec_record(None, first);
            let (slot2, woke2) = spec_record(slot1, second);
            woke1 && !woke2 && slot2 == Some(first)
        }),
{
}

} // verus!
