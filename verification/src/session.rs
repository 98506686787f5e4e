//! The per-connection client session protocol, as a state machine.
//!
//! One session bridges one connection to the game loop. Its driver performs
//! the I/O — reading inbound messages, watching the shutdown signal,
//! receiving broadcast snapshots, writing outbound messages — and feeds each
//! occurrence into the transition methods here; the returned action tells it
//! exactly what to send, forward or tear down. Every decision of the
//! protocol — what closes the session, what is warned about, what reaches
//! the game loop — is specified and verified in this module.
//!
//! The protocol proceeds `AwaitingRegistration` → `Admitting` → `Active` →
//! `Closing` → `Closed`. Failures jump straight to `Closed`; the `Closing`
//! step decides between a graceful `Done` and a disconnect notification.

use vstd::prelude::*;

use crate::game_loop::RefuseReason;
use crate::intents::Move;
use crate::player::Player;
use crate::protocol::Receive;

verus! {

/// Where a session is in its lifecycle.
#[derive(Clone, Copy, PartialEq, Eq, Structural, Debug)]
pub enum SessionState {
    /// Nothing received yet; the first message must be a registration.
    AwaitingRegistration,
    /// The registration was read; an admission reply is outstanding.
    Admitting,
    /// Registered and admitted: snapshots flow out, orders flow in.
    Active,
    /// The session is ending; one closing step remains.
    Closing {
        /// Whether the session ends in failure (abrupt disconnect or
        /// transport error) rather than a graceful shutdown.
        failed: bool,
    },
    /// The session is over.
    Closed {
        /// Whether the session ended in failure.
        failed: bool,
    },
}

/// One client session: its protocol state and, once admitted, its identity.
pub struct Session {
    /// Where the session is in its lifecycle.
    pub state: SessionState,
    /// The session's identity; meaningful from admission on, the observer
    /// sentinel before that.
    pub player: Player,
}

/// What happened while the session awaited its first message.
#[derive(Debug)]
pub enum HandshakeEvent {
    /// The shutdown signal fired before anything arrived.
    ShutdownFired,
    /// A message arrived.
    Inbound(Receive),
    /// The transport reported an error while reading.
    TransportError,
    /// The inbound stream ended before any message arrived.
    Eof,
}

/// What the driver must do after a handshake step.
#[derive(Debug)]
pub enum HandshakeAction {
    /// Send `Error` with the already-finished notice, close the sink, and
    /// end the session cleanly; the game loop is never involved.
    AbortShutdown,
    /// The first message was not a registration: send `Error` with the
    /// expected-registration notice, close the sink, fail the session.
    AbortUnexpected,
    /// The transport failed: send `Error` carrying the transport's own
    /// description, close the sink, fail the session.
    AbortTransport,
    /// The far side closed before registering: fail the session; there is
    /// nobody left to send to.
    AbortEof,
    /// A registration arrived: resolve the name to an identity, submit an
    /// `AddPlayer` event (reliable delivery), and await the reply.
    RequestAdmission {
        /// The display name as the client sent it; empty means observer.
        name: String,
    },
}

/// How the admission attempt came out, as the driver observed it.
#[derive(Debug)]
pub enum AdmissionOutcome {
    /// The event queue is closed: the game is already over.
    QueueClosed,
    /// The game loop went away without answering.
    ReplyDropped,
    /// The game loop refused the admission.
    Refused {
        /// Why it refused.
        reason: RefuseReason,
    },
    /// The game loop granted the admission.
    Granted,
}

/// What the driver must do after the admission reply.
#[derive(Debug)]
pub enum AdmissionAction {
    /// Send `Error` with the already-finished notice, close the sink, fail
    /// the session.
    AbortFinished,
    /// Send `Error` carrying the refusal's text, close the sink, fail the
    /// session.
    AbortRefused {
        /// Why the admission was refused.
        reason: RefuseReason,
    },
    /// Send `Registration` with the world view and the identity, subscribe
    /// to the snapshot broadcast, and enter the active loop.
    Activate,
}

/// What the snapshot subscription delivered.
#[derive(Clone, Copy, PartialEq, Eq, Structural, Debug)]
pub enum BroadcastEvent {
    /// The next snapshot, to be forwarded.
    Snapshot,
    /// The subscriber fell behind and the broadcast dropped snapshots.
    Lagged {
        /// How many snapshots were skipped.
        skipped: u64,
    },
    /// The broadcast channel closed: the game loop has stopped.
    Closed,
}

/// What the driver must do with a broadcast delivery.
#[derive(Clone, Copy, PartialEq, Eq, Structural, Debug)]
pub enum BroadcastAction {
    /// Send `Update` carrying the snapshot.
    ForwardUpdate,
    /// Send exactly one `Warning` reporting how many snapshots were
    /// skipped; the session stays active and resumes with current
    /// snapshots. Lag is reported, never fatal.
    WarnLag {
        /// The skip count to report.
        skipped: u64,
    },
    /// The game is over: proceed to the closing step with a graceful end.
    BeginClose,
}

/// What arrived from the client while the session was active.
#[derive(Debug)]
pub enum InboundEvent {
    /// A well-formed message.
    Msg(Receive),
    /// The transport or the decoder reported a bad frame.
    BadPacket,
    /// The inbound stream ended: an abrupt disconnect.
    Eof,
}

/// What the driver must do with an inbound delivery.
#[derive(Debug)]
pub enum InboundAction {
    /// Forward the orders to the game loop as a `Move` event, best-effort:
    /// if the queue is full or closed, drop them without blocking the
    /// snapshot path.
    SubmitMoves {
        /// The session's identity.
        player: Player,
        /// The orders to forward.
        moves: Vec<Move>,
    },
    /// A registration arrived mid-game: send `Warning` with the bad-input
    /// notice and carry on.
    WarnUnexpected,
    /// A bad frame arrived: send `Warning` with the bad-input notice and
    /// carry on.
    WarnBadPacket,
    /// An observer sent orders: send `Warning` with the bad-input notice;
    /// nothing is forwarded to the game loop.
    WarnObserver,
    /// The far side disconnected abruptly: proceed to the closing step with
    /// a failure.
    BeginClose,
}

/// What the driver must do to end the session.
#[derive(Debug)]
pub enum CloseAction {
    /// Graceful end: send `Done` as the last message and close the sink.
    SendDone,
    /// Failed end of an admitted player: close the sink and submit a
    /// `Disconnect` event so the identity becomes admissible again, then
    /// report the failure.
    NotifyDisconnect {
        /// The identity to disconnect.
        player: Player,
    },
    /// Failed end of an observer: close the sink and report the failure;
    /// observers were never active, so no disconnect event is owed.
    CloseOnly,
}

impl Session {
    /// A fresh session awaiting its registration message.
    pub fn new() -> (s: Session)
        ensures
            s.state == SessionState::AwaitingRegistration,
            s.player.spec_is_observer(),
    {
        Session { state: SessionState::AwaitingRegistration, player: Player::observer() }
    }

    /// Handle what arrived while awaiting registration.
    ///
    /// Once the shutdown signal has fired, the session closes with `Error`
    /// and never reaches the active state; the only way forward is a
    /// registration message.
    pub fn handshake(&mut self, ev: HandshakeEvent) -> (a: HandshakeAction)
        requires
            old(self).state == SessionState::AwaitingRegistration,
        ensures
            final(self).player == old(self).player,
            ev matches HandshakeEvent::ShutdownFired ==> (a
                matches HandshakeAction::AbortShutdown) && final(self).state == (
            SessionState::Closed { failed: false }),
            ev matches HandshakeEvent::Inbound(Receive::Register { name }) ==> a == (
            HandshakeAction::RequestAdmission { name }) && final(self).state
                == SessionState::Admitting,
            ev matches HandshakeEvent::Inbound(Receive::Moves { .. }) ==> (a
                matches HandshakeAction::AbortUnexpected) && final(self).state == (
            SessionState::Closed { failed: true }),
            ev matches HandshakeEvent::TransportError ==> (a
                matches HandshakeAction::AbortTransport) && final(self).state == (
            SessionState::Closed { failed: true }),
            ev matches HandshakeEvent::Eof ==> (a matches HandshakeAction::AbortEof)
                && final(self).state == (SessionState::Closed { failed: true }),
    {
        match ev {
            HandshakeEvent::ShutdownFired => {
                self.state = SessionState::Closed { failed: false };
                HandshakeAction::AbortShutdown
            },
            HandshakeEvent::Inbound(Receive::Register { name }) => {
                self.state = SessionState::Admitting;
                HandshakeAction::RequestAdmission { name }
            },
            HandshakeEvent::Inbound(Receive::Moves { .. }) => {
                self.state = SessionState::Closed { failed: true };
                HandshakeAction::AbortUnexpected
            },
            HandshakeEvent::TransportError => {
                self.state = SessionState::Closed { failed: true };
                HandshakeAction::AbortTransport
            },
            HandshakeEvent::Eof => {
                self.state = SessionState::Closed { failed: true };
                HandshakeAction::AbortEof
            },
        }
    }

    /// Handle the admission reply for the resolved identity.
    ///
    /// A closed queue or a dropped reply both mean the game is already
    /// over; a refusal is relayed and ends the session; a grant activates
    /// it. The session records the identity either way.
    pub fn on_admission(&mut self, player: Player, outcome: AdmissionOutcome) -> (a:
        AdmissionAction)
        requires
            old(self).state == SessionState::Admitting,
        ensures
            final(self).player == player,
            outcome matches AdmissionOutcome::QueueClosed ==> (a
                matches AdmissionAction::AbortFinished) && final(self).state == (
            SessionState::Closed { failed: true }),
            outcome matches AdmissionOutcome::ReplyDropped ==> (a
                matches AdmissionAction::AbortFinished) && final(self).state == (
            SessionState::Closed { failed: true }),
            outcome matches AdmissionOutcome::Refused { reason } ==> a == (
            AdmissionAction::AbortRefused { reason }) && final(self).state == (
            SessionState::Closed { failed: true }),
            outcome matches AdmissionOutcome::Granted ==> (a matches AdmissionAction::Activate)
                && final(self).state == SessionState::Active,
    {
        self.player = player;
        match outcome {
            AdmissionOutcome::QueueClosed | AdmissionOutcome::ReplyDropped => {
                self.state = SessionState::Closed { failed: true };
                AdmissionAction::AbortFinished
            },
            AdmissionOutcome::Refused { reason } => {
                self.state = SessionState::Closed { failed: true };
                AdmissionAction::AbortRefused { reason }
            },
            AdmissionOutcome::Granted => {
                self.state = SessionState::Active;
                AdmissionAction::Activate
            },
        }
    }

    /// Handle a delivery from the snapshot subscription.
    ///
    /// A snapshot is forwarded; lag is reported with exactly one warning
    /// carrying the skip count, and the session stays active so it resumes
    /// with current snapshots; a closed channel ends the session
    /// gracefully.
    pub fn on_broadcast(&mut self, ev: BroadcastEvent) -> (a: BroadcastAction)
        requires
            old(self).state == SessionState::Active,
        ensures
            final(self).player == old(self).player,
            ev matches BroadcastEvent::Snapshot ==> a == BroadcastAction::ForwardUpdate && final(self).state == SessionState::Active,
            ev matches BroadcastEvent::Lagged { skipped } ==> a == (BroadcastAction::WarnLag {
                skipped,
            }) && final(self).state == SessionState::Active,
            ev matches BroadcastEvent::Closed ==> a == BroadcastAction::BeginClose && final(self).state == (SessionState::Closing { failed: false }),
    {
        match ev {
            BroadcastEvent::Snapshot => BroadcastAction::ForwardUpdate,
            BroadcastEvent::Lagged { skipped } => BroadcastAction::WarnLag { skipped },
            BroadcastEvent::Closed => {
                self.state = SessionState::Closing { failed: false };
                BroadcastAction::BeginClose
            },
        }
    }

    /// Handle a delivery from the inbound stream while active.
    ///
    /// Orders from a player are forwarded best-effort; orders from an
    /// observer are refused with a warning and never forwarded; anything
    /// malformed or out of place gets a warning and the session carries on;
    /// only the stream ending is fatal.
    pub fn on_inbound(&mut self, ev: InboundEvent) -> (a: InboundAction)
        requires
            old(self).state == SessionState::Active,
        ensures
            final(self).player == old(self).player,
            ev matches InboundEvent::Msg(Receive::Moves { moves }) ==> ({
                &&& final(self).state == SessionState::Active
                &&& if old(self).player.spec_is_observer() {
                    a matches InboundAction::WarnObserver
                } else {
                    a == (InboundAction::SubmitMoves { player: old(self).player, moves })
                }
            }),
            ev matches InboundEvent::Msg(Receive::Register { .. }) ==> (a
                matches InboundAction::WarnUnexpected) && final(self).state
                == SessionState::Active,
            ev matches InboundEvent::BadPacket ==> (a matches InboundAction::WarnBadPacket)
                && final(self).state == SessionState::Active,
            ev matches InboundEvent::Eof ==> (a matches InboundAction::BeginClose)
                && final(self).state == (SessionState::Closing { failed: true }),
    {
        match ev {
            InboundEvent::Msg(Receive::Moves { moves }) => {
                if self.player.is_observer() {
                    InboundAction::WarnObserver
                } else {
                    InboundAction::SubmitMoves { player: self.player, moves }
                }
            },
            InboundEvent::Msg(Receive::Register { .. }) => InboundAction::WarnUnexpected,
            InboundEvent::BadPacket => InboundAction::WarnBadPacket,
            InboundEvent::Eof => {
                self.state = SessionState::Closing { failed: true };
                InboundAction::BeginClose
            },
        }
    }

    /// Record that sending to the client failed while active: the
    /// connection is gone, so the session ends in failure.
    pub fn on_send_failure(&mut self)
        requires
            old(self).state == SessionState::Active,
        ensures
            final(self).player == old(self).player,
            final(self).state == (SessionState::Closing { failed: true }),
    {
        self.state = SessionState::Closing { failed: true };
    }

    /// Take the closing step.
    ///
    /// A graceful end sends `Done` as the last message; a failed end of an
    /// admitted player owes the game loop a `Disconnect` event so the
    /// identity becomes admissible again; a failed observer owes nothing.
    pub fn finish(&mut self) -> (a: CloseAction)
        requires
            old(self).state matches SessionState::Closing { .. },
        ensures
            final(self).player == old(self).player,
            old(self).state == (SessionState::Closing { failed: false }) ==> (a
                matches CloseAction::SendDone) && final(self).state == (SessionState::Closed {
                failed: false,
            }),
            old(self).state == (SessionState::Closing { failed: true }) ==> ({
                &&& final(self).state == (SessionState::Closed { failed: true })
                &&& if old(self).player.spec_is_observer() {
                    a matches CloseAction::CloseOnly
                } else {
                    a == (CloseAction::NotifyDisconnect { player: old(self).player })
                }
            }),
    {
        match self.state {
            SessionState::Closing { failed: false } => {
                self.state = SessionState::Closed { failed: false };
                CloseAction::SendDone
            },
            _ => {
                self.state = SessionState::Closed { failed: true };
                if self.player.is_observer() {
                    CloseAction::CloseOnly
                } else {
                    CloseAction::NotifyDisconnect { player: self.player }
                }
            },
        }
    }
}

} // verus!
