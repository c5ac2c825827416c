//! Verified state and decisions of a small actor system: authentication
//! sessions, a read-through cache in front of a key-value store, per-domain
//! admission control for outbound requests, and a supervisor that builds the
//! actor tree and replaces failed actors.
//!
//! Every actor here is a plain value with handlers that map a message (and,
//! where a handler reads the clock, the time it read) to a reply and to the
//! signals to emit. The runtime around it delivers messages and performs the
//! effects.

use vstd::prelude::*;

pub mod auth;
pub mod clock;
pub mod counting;
pub mod data;
pub mod errors;
pub mod messages;
pub mod network;
pub mod registry;
pub mod signals;
pub mod storage;
pub mod supervisor;
pub mod text;
pub mod user;

verus! {

/// Two numbers to be summed by [`MyActor`].
pub struct Sum(pub usize, pub usize);

/// A minimal actor that counts the notifications it has seen.
pub struct MyActor {
    pub count: i32,
}

impl MyActor {
    /// A fresh actor that has seen no notification.
    pub fn new() -> (actor: Self)
        ensures
            actor.count == 0,
    {
        Self { count: 0 }
    }

    /// Takes one `Sum`: counts it and returns the sum together with the new
    /// count, which the runtime prints as `sum:count`.
    pub fn notify(&mut self, msg: Sum) -> (line: (usize, i32))
        requires
            old(self).count < i32::MAX,
            msg.0 + msg.1 <= usize::MAX,
        ensures
            final(self).count == old(self).count + 1,
            line.0 == msg.0 + msg.1,
            line.1 == final(self).count,
    {
        self.count = self.count + 1;
        (msg.0 + msg.1, self.count)
    }
}

} // verus!
