//! Session and coordination layer for a tick-based multiplayer game server.
//!
//! The crate models the authoritative core of the server as explicit state
//! machines: the game loop that owns the simulation handle ([`game_loop`]),
//! the per-connection client session protocol ([`session`]), the
//! name-to-identity registry that enables reconnection ([`player`]), the
//! per-tick intent buffer with last-writer-wins merging ([`intents`]), and
//! the idempotent shutdown signal ([`shutdown`]). Transports, timers and the
//! simulation rules themselves are collaborators that drive these machines
//! from outside; every decision the core takes is specified and verified
//! here.

pub mod assoc;
pub mod game_loop;
pub mod intents;
pub mod player;
pub mod protocol;
pub mod session;
pub mod shutdown;
