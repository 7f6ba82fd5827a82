//! Keepalive supervision: when the server was last heard from, and whether
//! that is too long ago.

use vstd::prelude::*;

verus! {

/// The liveness timeout, in milliseconds, used where the server announces none.
pub const DEFAULT_TIMEOUT_MS: u64 = 300000;

/// The cadence, in milliseconds, at which staleness is to be checked.
pub const CHECK_INTERVAL_MS: u64 = 1000;

/// The liveness record of one session. Times are milliseconds on a clock
/// that the caller reads.
#[derive(Debug, Clone, Copy, PartialEq, Eq, Structural)]
pub struct KeepaliveMonitor {
    /// When a keepalive was last received, or the session was started.
    pub last_received_ms: u64,
    /// The timeout; unknown until the server has acknowledged the connection.
    pub timeout_ms: Option<u64>,
}

impl KeepaliveMonitor {
    /// The timeout that an acknowledgement announces: its hint, or the default.
    pub open spec fn announced(hint: Option<u64>) -> u64 {
        match hint {
            Some(ms) => ms,
            None => DEFAULT_TIMEOUT_MS,
        }
    }

    /// Whether the connection counts as stale at `now_ms`: the timeout is
    /// known and more than that has passed since the last keepalive.
    pub open spec fn stale_at(self, now_ms: u64) -> bool {
        match self.timeout_ms {
            Some(timeout) => now_ms > self.last_received_ms && now_ms - self.last_received_ms
                > timeout,
            None => false,
        }
    }

    /// A monitor that has heard nothing yet and knows no timeout.
    pub fn new(now_ms: u64) -> (r: KeepaliveMonitor)
        ensures
            r == (KeepaliveMonitor { last_received_ms: now_ms, timeout_ms: None }),
    {
        KeepaliveMonitor { last_received_ms: now_ms, timeout_ms: None }
    }

    /// Records a keepalive received at `now_ms`.
    pub fn record(&mut self, now_ms: u64)
        ensures
            *final(self) == (KeepaliveMonitor { last_received_ms: now_ms, ..*old(self) }),
    {
        self.last_received_ms = now_ms;
    }

    /// Takes the timeout from an acknowledgement.
    pub fn announce(&mut self, hint: Option<u64>)
        ensures
            *final(self) == (KeepaliveMonitor {
                timeout_ms: Some(Self::announced(hint)),
                ..*old(self)
            }),
    {
        let timeout: u64 = match hint {
            Some(ms) => ms,
            None => DEFAULT_TIMEOUT_MS,
        };
        self.timeout_ms = Some(timeout);
    }

    /// Whether the connection counts as stale at `now_ms`.
    pub fn is_stale(&self, now_ms: u64) -> (r: bool)
        ensures
            r == self.stale_at(now_ms),
    {
        match self.timeout_ms {
            Some(timeout) => now_ms > self.last_received_ms && now_ms - self.last_received_ms
                > timeout,
            None => false,
        }
    }
}

} // verus!
