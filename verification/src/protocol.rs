//! The transport-agnostic message taxonomy.
//!
//! A transport adapter decodes each connection's byte stream into the typed
//! inbound messages here and encodes the session's outbound decisions back
//! into bytes; the concrete encoding is the adapter's concern. The fixed
//! notice texts the protocol uses are defined here so every transport
//! reports them identically.

use vstd::prelude::*;

use crate::intents::Move;

verus! {

/// Messages received from a client.
#[derive(Debug)]
pub enum Receive {
    /// The registration handshake; must be the first message.
    Register {
        /// The display name. Non-empty names give a persistent, reconnectable
        /// identity; the empty name requests the observer role.
        name: String,
    },
    /// Movement orders for the next tick. A later order for the same bee
    /// overwrites an earlier one.
    Moves {
        /// The orders, in the order they were given.
        moves: Vec<Move>,
    },
}

/// The fixed notices the core sends to clients.
#[derive(Clone, Copy, PartialEq, Eq, Structural, Debug)]
pub enum Notice {
    /// The game loop is gone; no further registration or play is possible.
    AlreadyFinished,
    /// The first message of a connection was not a registration.
    ExpectedRegistration,
    /// An inbound message was malformed or arrived in the wrong state.
    BadInput,
    /// The identity is already held by a live session.
    DuplicatePlayer,
}

/// The text of each fixed notice.
pub open spec fn notice_text_spec(n: Notice) -> Seq<char> {
    match n {
        Notice::AlreadyFinished => "Game already finished"@,
        Notice::ExpectedRegistration => "Expected registration"@,
        Notice::BadInput => "Bad input"@,
        Notice::DuplicatePlayer => "Duplicate player ID"@,
    }
}

/// Render a fixed notice for the wire.
pub fn notice_text(n: Notice) -> (s: String)
    ensures
        s@ == notice_text_spec(n),
{
    match n {
        Notice::AlreadyFinished => String::from_str("Game already finished"),
        Notice::ExpectedRegistration => String::from_str("Expected registration"),
        Notice::BadInput => String::from_str("Bad input"),
        Notice::DuplicatePlayer => String::from_str("Duplicate player ID"),
    }
}

} // verus!
