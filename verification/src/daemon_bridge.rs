//! Decisions of the per-endpoint connection manager: heartbeat liveness,
//! reconnect back-off, and the statuses reported on failures.
//!
//! The manager's socket I/O and timers run outside; they hand each tick,
//! inbound message and connection result to these state machines and carry
//! out what comes back.

use vstd::prelude::*;

use crate::runtime::{ConnectionProblem, ConnectionStatus};

pub mod actor;

verus! {

/// Heartbeat period, in milliseconds.
pub const HEARTBEAT_INTERVAL_MILLIS: u64 = 2000;

/// Time allowed for an SSH connection to a remote daemon, in seconds.
pub const SSH_CONNECT_TIMEOUT_SECS: u64 = 30;

/// Capacity of the event channel towards the UI.
pub const EVENT_CHANNEL_BOUND: usize = 4096;

/// Capacity of the command channel towards an endpoint.
pub const CMD_CHANNEL_BOUND: usize = 4096;

/// Operation type for manager error reporting.
#[derive(Debug, Clone, Copy, PartialEq, Eq, Structural)]
pub enum ManagerOperation {
    OpenWorkspace,
    CreatePane,
    ClosePane,
    DetachRuntime,
    TerminateRuntime,
    RefreshInventory,
    SendInput,
    ResizePane,
    RenameRuntime,
}

/// What a heartbeat tick asks for.
#[derive(Debug, Clone, Copy, PartialEq, Eq, Structural)]
pub enum HeartbeatAction {
    SendPing { nonce: u64 },
    DeclareLost,
}

/// What the heartbeat sees of an inbound server message.
#[derive(Debug, Clone, Copy, PartialEq, Eq, Structural)]
pub enum InboundKind {
    /// A heartbeat reply.
    Pong { nonce: u64 },
    /// Any other message.
    Other,
    /// A frame without a message.
    Empty,
}

/// Number of consecutive heartbeat ticks with an outstanding ping before
/// the connection is declared lost. With a 2-second interval this gives
/// the server 6 seconds to respond.
pub const HEARTBEAT_MISS_LIMIT: u8 = 3;

/// Heartbeat liveness state.
#[derive(Debug, Clone, Copy, PartialEq, Eq, Structural)]
pub struct HeartbeatMonitor {
    pub pending_nonce: Option<u64>,
    pub next_nonce: u64,
    pub missed_ticks: u8,
}

/// `a + 1`, or `a` when that is the largest value.
pub open spec fn sat_inc_u8(a: u8) -> u8 {
    if a == u8::MAX {
        a
    } else {
        (a + 1) as u8
    }
}

/// `a + 1`, or `a` when that is the largest value.
pub open spec fn sat_inc_u64(a: u64) -> u64 {
    if a == u64::MAX {
        a
    } else {
        (a + 1) as u64
    }
}

/// `a + 1`, or `a` when that is the largest value.
pub open spec fn sat_inc_u32(a: u32) -> u32 {
    if a == u32::MAX {
        a
    } else {
        (a + 1) as u32
    }
}

/// The state and action after a heartbeat tick: with a ping outstanding,
/// count a miss and either give up or re-send the same nonce; otherwise
/// send a fresh nonce.
pub open spec fn tick_spec(m: HeartbeatMonitor) -> (HeartbeatMonitor, HeartbeatAction) {
    match m.pending_nonce {
        Some(nonce) => {
            let missed = sat_inc_u8(m.missed_ticks);
            let m2 = HeartbeatMonitor { missed_ticks: missed, ..m };
            if missed >= HEARTBEAT_MISS_LIMIT {
                (m2, HeartbeatAction::DeclareLost)
            } else {
                (m2, HeartbeatAction::SendPing { nonce })
            }
        },
        None => (
            HeartbeatMonitor {
                pending_nonce: Some(m.next_nonce),
                next_nonce: sat_inc_u64(m.next_nonce),
                missed_ticks: 0,
            },
            HeartbeatAction::SendPing { nonce: m.next_nonce },
        ),
    }
}

/// The state after an inbound message, and whether the message was a
/// heartbeat reply (kept internal): a matching reply or any other message
/// clears the outstanding ping.
pub open spec fn observe_spec(m: HeartbeatMonitor, msg: InboundKind) -> (HeartbeatMonitor, bool) {
    match msg {
        InboundKind::Pong { nonce } => if m.pending_nonce == Some(nonce) {
            (HeartbeatMonitor { pending_nonce: None, missed_ticks: 0, ..m }, true)
        } else {
            (m, true)
        },
        InboundKind::Other => (HeartbeatMonitor { pending_nonce: None, missed_ticks: 0, ..m }, false),
        InboundKind::Empty => (m, false),
    }
}

impl Default for HeartbeatMonitor {
    fn default() -> (m: Self)
        ensures
            m == (HeartbeatMonitor { pending_nonce: None, next_nonce: 0, missed_ticks: 0 }),
    {
        HeartbeatMonitor { pending_nonce: None, next_nonce: 0, missed_ticks: 0 }
    }
}

impl HeartbeatMonitor {
    /// Advance one heartbeat tick.
    pub fn on_tick(&mut self) -> (a: HeartbeatAction)
        ensures
            (*final(self), a) == tick_spec(*old(self)),
    {
        if let Some(nonce) = self.pending_nonce {
            self.missed_ticks = self.missed_ticks.saturating_add(1);
            if self.missed_ticks >= HEARTBEAT_MISS_LIMIT {
                return HeartbeatAction::DeclareLost;
            }
            return HeartbeatAction::SendPing { nonce };
        }
        let nonce = self.next_nonce;
        self.next_nonce = self.next_nonce.saturating_add(1);
        self.pending_nonce = Some(nonce);
        self.missed_ticks = 0;
        HeartbeatAction::SendPing { nonce }
    }

    /// Take note of an inbound message; whether it was a heartbeat reply.
    pub fn observe_inbound(&mut self, msg: &InboundKind) -> (pong: bool)
        ensures
            (*final(self), pong) == observe_spec(*old(self), *msg),
    {
        match msg {
            InboundKind::Pong { nonce } => {
                if self.pending_nonce == Some(*nonce) {
                    self.pending_nonce = None;
                    self.missed_ticks = 0;
                }
                true
            },
            InboundKind::Other => {
                self.pending_nonce = None;
                self.missed_ticks = 0;
                false
            },
            InboundKind::Empty => false,
        }
    }

    /// Forget any outstanding ping (after a reconnect).
    pub fn reset(&mut self)
        ensures
            *final(self) == (HeartbeatMonitor { pending_nonce: None, missed_ticks: 0, ..*old(self) }),
    {
        self.pending_nonce = None;
        self.missed_ticks = 0;
    }
}

/// A connection is declared lost on the third tick in a row without any
/// inbound message: from a fresh ping, two more ticks re-send the same
/// nonce and the next one gives up.
pub proof fn law_heartbeat_gives_up_after_missed_limit(m: HeartbeatMonitor)
    requires
        m.pending_nonce is None,
    ensures
        ({
            let (m1, a1) = tick_spec(m);
            let (m2, a2) = tick_spec(m1);
            let (m3, a3) = tick_spec(m2);
            let (m4, a4) = tick_spec(m3);
            &&& a1 == HeartbeatAction::SendPing { nonce: m.next_nonce }
            &&& a2 == HeartbeatAction::SendPing { nonce: m.next_nonce }
            &&& a3 == HeartbeatAction::SendPing { nonce: m.next_nonce }
            &&& a4 == HeartbeatAction::DeclareLost
        }),
{
}

/// Any inbound message other than an empty frame or a stale reply leaves
/// no ping outstanding, so the next tick sends a fresh nonce.
pub proof fn law_inbound_clears_outstanding_ping(m: HeartbeatMonitor, msg: InboundKind)
    requires
        msg is Other || (msg matches InboundKind::Pong { nonce } && m.pending_nonce == Some(nonce)),
    ensures
        tick_spec(observe_spec(m, msg).0).1 == (HeartbeatAction::SendPing { nonce: m.next_nonce }),
{
}

/// Reconnect back-off of one endpoint: the attempt counter and the
/// configured longest delay.
#[derive(Debug, Clone, Copy, PartialEq, Eq, Structural)]
pub struct ReconnectBackoff {
    pub reconnect_attempt: u32,
    pub reconnect_delay_secs: u32,
}

/// The delay before the next attempt: the attempt number, capped.
pub open spec fn next_delay(b: ReconnectBackoff) -> u32 {
    let a = sat_inc_u32(b.reconnect_attempt);
    if a <= b.reconnect_delay_secs {
        a
    } else {
        b.reconnect_delay_secs
    }
}

impl ReconnectBackoff {
    /// No attempts yet, with the given longest delay.
    pub fn new(reconnect_delay_secs: u32) -> (b: Self)
        ensures
            b == (ReconnectBackoff { reconnect_attempt: 0, reconnect_delay_secs }),
    {
        ReconnectBackoff { reconnect_attempt: 0, reconnect_delay_secs }
    }

    /// Number of the next attempt.
    pub fn next_reconnect_attempt(&self) -> (a: u32)
        ensures
            a == sat_inc_u32(self.reconnect_attempt),
    {
        self.reconnect_attempt.saturating_add(1)
    }

    /// Delay before the next attempt: `min(next attempt, longest delay)`.
    pub fn next_reconnect_delay_secs(&self) -> (d: u32)
        ensures
            d == next_delay(*self),
    {
        let a = self.next_reconnect_attempt();
        if a <= self.reconnect_delay_secs {
            a
        } else {
            self.reconnect_delay_secs
        }
    }

    /// Count a scheduled attempt.
    pub fn schedule_reconnect(&mut self)
        ensures
            final(self).reconnect_attempt == sat_inc_u32(old(self).reconnect_attempt),
            final(self).reconnect_delay_secs == old(self).reconnect_delay_secs,
    {
        self.reconnect_attempt = self.reconnect_attempt.saturating_add(1);
    }

    /// The connection is up again: start counting from scratch.
    pub fn connected(&mut self)
        ensures
            final(self).reconnect_attempt == 0,
            final(self).reconnect_delay_secs == old(self).reconnect_delay_secs,
    {
        self.reconnect_attempt = 0;
    }

    /// Schedule a retry after `problem`: a transient one waits the
    /// progressive delay, any other the longest delay. Returns the delay.
    pub fn schedule_for_problem(&mut self, problem: &ConnectionProblem) -> (d: u32)
        ensures
            d == if *problem is DaemonUnavailable {
                next_delay(*old(self))
            } else {
                old(self).reconnect_delay_secs
            },
            final(self).reconnect_attempt == sat_inc_u32(old(self).reconnect_attempt),
            final(self).reconnect_delay_secs == old(self).reconnect_delay_secs,
    {
        let d = if problem.is_transient() {
            self.next_reconnect_delay_secs()
        } else {
            self.reconnect_delay_secs
        };
        self.schedule_reconnect();
        d
    }

    /// The connection dropped. With workspaces to restore, schedule a
    /// retry and return `(attempt, delay)`: each workspace is reported
    /// disconnected, then reconnecting with these numbers. Without any,
    /// nothing is scheduled.
    pub fn on_disconnect(&mut self, has_tracked_workspaces: bool) -> (r: Option<(u32, u32)>)
        ensures
            !has_tracked_workspaces ==> r is None && *final(self) == *old(self),
            has_tracked_workspaces ==> r == Some((sat_inc_u32(old(self).reconnect_attempt), next_delay(*old(self))))
                && final(self).reconnect_attempt == sat_inc_u32(old(self).reconnect_attempt)
                && final(self).reconnect_delay_secs == old(self).reconnect_delay_secs,
    {
        if !has_tracked_workspaces {
            return None;
        }
        let attempt = self.next_reconnect_attempt();
        let delay = self.next_reconnect_delay_secs();
        self.schedule_reconnect();
        Some((attempt, delay))
    }

    /// A connection attempt failed with `problem`: a transient problem
    /// schedules a retry and reports reconnecting (after reporting
    /// disconnected); any other blocks the workspace without a retry.
    pub fn on_connect_failure(&mut self, problem: &ConnectionProblem) -> (s: ConnectionStatus)
        ensures
            *problem is DaemonUnavailable ==> s == (ConnectionStatus::Reconnecting {
                attempt: sat_inc_u32(old(self).reconnect_attempt),
                retry_in_secs: next_delay(*old(self)),
            }) && final(self).reconnect_attempt == sat_inc_u32(old(self).reconnect_attempt)
                && final(self).reconnect_delay_secs == old(self).reconnect_delay_secs,
            !(*problem is DaemonUnavailable) ==> s == ConnectionStatus::Blocked(*problem) && *final(self)
                == *old(self),
    {
        if problem.is_transient() {
            let attempt = self.next_reconnect_attempt();
            let delay = self.next_reconnect_delay_secs();
            self.schedule_reconnect();
            ConnectionStatus::Reconnecting { attempt, retry_in_secs: delay }
        } else {
            ConnectionStatus::Blocked(problem.clone())
        }
    }
}

/// The reconnect delay never exceeds the configured longest delay, and it
/// grows by one second per attempt until it reaches it.
pub proof fn law_reconnect_delay_capped(b: ReconnectBackoff)
    ensures
        next_delay(b) <= b.reconnect_delay_secs,
        b.reconnect_attempt < b.reconnect_delay_secs ==> next_delay(b) == b.reconnect_attempt + 1,
{
}

} // verus!
