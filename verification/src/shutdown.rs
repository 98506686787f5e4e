//! The shutdown signal.
//!
//! A single boolean condition, initially unset, set exactly once to request
//! shutdown and never cleared. Setting it again is harmless, and a reader
//! that starts watching after the flip still observes it set: the flag
//! itself can never miss a notification. The waiting primitive that parks
//! tasks until the flip lives with the driver; this module is the state it
//! broadcasts.

use vstd::prelude::*;

verus! {

/// The terminal "stop" condition, shared by one writer and many readers.
pub struct ShutdownFlag {
    /// Whether shutdown has been requested. Once set, never cleared.
    pub signalled: bool,
}

impl ShutdownFlag {
    /// A fresh flag: shutdown not requested.
    pub fn new() -> (s: ShutdownFlag)
        ensures
            !s.signalled,
    {
        ShutdownFlag { signalled: false }
    }

    /// Request shutdown. Idempotent: the flag is set afterwards no matter
    /// how often it was set before, and it can never be unset again.
    pub fn signal(&mut self)
        ensures
            final(self).signalled,
    {
        self.signalled = true;
    }

    /// Whether shutdown has been requested. Late readers of a signalled
    /// flag see it signalled immediately.
    pub fn should_shutdown(&self) -> (r: bool)
        ensures
            r == self.signalled,
    {
        self.signalled
    }
}

} // verus!
