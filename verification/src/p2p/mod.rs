//! Settings of the peer-to-peer client and its rule for admitting
//! connections.

use vstd::prelude::*;

verus! {

/// How long the client waits before it looks again for room, in
/// milliseconds.
pub const RETRY_DELAY_MILLIS: u64 = 1000;

/// Settings of the peer-to-peer client.
#[derive(Clone, Copy, Debug, PartialEq, Eq)]
pub struct P2pConfig {
    pub max_connections: u16,
    pub max_incoming_connections: u16,
    pub listening_port: &'static str,
    pub is_delegate: bool,
}

/// What the client does next about incoming connections.
#[derive(Clone, Copy, Debug, PartialEq, Eq)]
pub enum Admission {
    /// Accept the next incoming connection.
    Accept,
    /// Accept nothing; look again after this many milliseconds.
    Wait(u64),
}

impl P2pConfig {
    /// The client's next step when `open_connections` connections are open:
    /// it accepts another one while fewer than `max_connections` are open, and
    /// otherwise waits for `RETRY_DELAY_MILLIS`.
    pub open spec fn admits(self, open_connections: nat) -> Admission {
        if open_connections >= self.max_connections {
            Admission::Wait(RETRY_DELAY_MILLIS)
        } else {
            Admission::Accept
        }
    }

    /// A connection that is admitted fits: with it, no more than
    /// `max_connections` connections are open. At the limit and beyond, none
    /// is admitted.
    pub proof fn law_admission_keeps_the_limit(self, open_connections: nat)
        ensures
            self.admits(open_connections) == Admission::Accept ==> open_connections + 1
                <= self.max_connections,
            open_connections >= self.max_connections ==> self.admits(open_connections)
                == Admission::Wait(RETRY_DELAY_MILLIS),
    {
    }

    /// Decides the client's next step when `open_connections` connections are
    /// open.
    pub fn admission(&self, open_connections: usize) -> (step: Admission)
        ensures
            step == self.admits(open_connections as nat),
    {
        if open_connections >= self.max_connections as usize {
            Admission::Wait(RETRY_DELAY_MILLIS)
        } else {
            Admission::Accept
        }
    }
}

} // verus!
