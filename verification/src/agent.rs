//! The agent's side of the heartbeat: it answers a ping with a pong that
//! carries the same message, and touches nothing else.

use vstd::prelude::*;

verus! {

/// The liveness request.
#[derive(Debug)]
pub struct Ping {
    pub message: String,
}

/// The liveness reply.
#[derive(Debug)]
pub struct Pong {
    pub message: String,
}

/// The agent: it holds no state.
#[derive(Debug, Clone, Copy)]
pub struct Host;

impl Host {
    /// Answers `req` with its own message.
    pub fn ping(&self, req: Ping) -> (reply: Pong)
        ensures
            reply.message@ == req.message@,
    {
        Pong { message: req.message }
    }
}

} // verus!
