//! The cached state of the control channel and what follows from it: whether
//! the connection is alive, and how often to ask.

use crate::text::{clone_opt_text, opt_text};
use vstd::prelude::*;

verus! {

/// A contact counts as fresh for this many seconds.
pub const FRESH_WINDOW_SECS: u64 = 15;

/// A supernode that was never reached this many seconds after the edge
/// process started counts as unreachable.
pub const UNREACHABLE_AFTER_SECS: u64 = 30;

/// The pause between two status polls, in milliseconds.
pub const STATUS_POLL_MS: u64 = 1200;

/// The pause between two status polls after repeated failures.
pub const STATUS_POLL_BACKOFF_MS: u64 = 3000;

/// The pause between two roster polls, in milliseconds.
pub const PEER_POLL_MS: u64 = 5000;

/// The pause between two roster polls after repeated failures.
pub const PEER_POLL_BACKOFF_MS: u64 = 10000;

/// The pause before the roster poller looks again whether the connection is
/// alive.
pub const PEER_IDLE_MS: u64 = 1000;

/// The number of failures in a row after which a poller slows down.
pub const BACKOFF_AFTER_FAILURES: u32 = 3;

/// The heartbeat of the edge process, in seconds since the epoch; zero stands
/// for "never".
#[derive(Debug, Clone, Copy, PartialEq, Eq, Structural)]
pub struct MgmtTimestamps {
    /// When the edge process started.
    pub start_time: u64,
    /// When the supernode was last heard from.
    pub last_super: u64,
    /// When a peer was last heard from.
    pub last_p2p: u64,
}

/// What the last polls of the control channel left behind.
#[derive(Debug, Clone, PartialEq, Eq)]
pub struct MgmtState {
    /// The heartbeat that the last successful poll brought.
    pub timestamps: Option<MgmtTimestamps>,
    /// The error of the last poll, if it failed.
    pub last_error: Option<String>,
}

/// What an `MgmtState` holds, as plain values.
pub struct MgmtView {
    pub timestamps: Option<MgmtTimestamps>,
    pub last_error: Option<Seq<char>>,
}

impl View for MgmtState {
    type V = MgmtView;

    open spec fn view(&self) -> MgmtView {
        MgmtView { timestamps: self.timestamps, last_error: opt_text(self.last_error) }
    }
}

/// The state before any poll, and after a disconnect.
pub open spec fn empty_mgmt() -> MgmtView {
    MgmtView { timestamps: None, last_error: None }
}

/// A contact at `stamp` is fresh at `now`: it happened, and no more than the
/// freshness window lies between the two. A stamp ahead of `now` is fresh.
pub open spec fn is_fresh(stamp: u64, now: u64) -> bool {
    stamp != 0 && now - stamp <= FRESH_WINDOW_SECS
}

/// The connection is alive at `now`: the supernode or a peer was heard from
/// within the freshness window.
pub open spec fn mgmt_connected(m: MgmtView, now: u64) -> bool {
    match m.timestamps {
        Some(t) => is_fresh(t.last_super, now) || is_fresh(t.last_p2p, now),
        None => false,
    }
}

/// The supernode was never reached although the edge process has been at
/// work for longer than the grace period.
pub open spec fn rendezvous_silent(m: MgmtView, now: u64) -> bool {
    match m.timestamps {
        Some(t) => t.last_super == 0 && now - t.start_time > UNREACHABLE_AFTER_SECS,
        None => false,
    }
}

/// The state after a poll: a heartbeat replaces the whole state; a failure
/// leaves the last heartbeat, which goes stale by itself, and is remembered
/// as the last error.
pub open spec fn after_poll(m: MgmtView, outcome: Result<MgmtTimestamps, Seq<char>>) -> MgmtView {
    match outcome {
        Ok(t) => MgmtView { timestamps: Some(t), last_error: None },
        Err(e) => MgmtView { timestamps: m.timestamps, last_error: Some(e) },
    }
}

/// Whether a contact at `stamp` is fresh at `now`.
pub fn fresh(stamp: u64, now: u64) -> (r: bool)
    ensures
        r == is_fresh(stamp, now),
{
    stamp != 0 && (now <= stamp || now - stamp <= FRESH_WINDOW_SECS)
}

impl MgmtState {
    /// The state before any poll.
    pub fn new() -> (r: MgmtState)
        ensures
            r@ == empty_mgmt(),
    {
        MgmtState { timestamps: None, last_error: None }
    }

    /// A copy that holds the same values.
    pub fn duplicate(&self) -> (r: MgmtState)
        ensures
            r@ == self@,
    {
        MgmtState { timestamps: self.timestamps, last_error: clone_opt_text(&self.last_error) }
    }

    /// Whether the connection is alive at `now`, by the heartbeat alone.
    pub fn is_connected(&self, now: u64) -> (r: bool)
        ensures
            r == mgmt_connected(self@, now),
    {
        match self.timestamps {
            Some(t) => fresh(t.last_super, now) || fresh(t.last_p2p, now),
            None => false,
        }
    }

    /// Whether the supernode counts as unreachable at `now`.
    pub fn is_rendezvous_silent(&self, now: u64) -> (r: bool)
        ensures
            r == rendezvous_silent(self@, now),
    {
        match self.timestamps {
            Some(t) => t.last_super == 0 && now > t.start_time && now - t.start_time
                > UNREACHABLE_AFTER_SECS,
            None => false,
        }
    }

    /// Takes in the outcome of a poll.
    pub fn record_poll(&mut self, outcome: Result<MgmtTimestamps, String>)
        ensures
            final(self)@ == after_poll(
                old(self)@,
                match outcome {
                    Ok(t) => Ok(t),
                    Err(e) => Err(e@),
                },
            ),
    {
        match outcome {
            Ok(t) => {
                self.timestamps = Some(t);
                self.last_error = None;
            },
            Err(e) => {
                self.last_error = Some(e);
            },
        }
    }
}

/// How a poller fares: the number of polls that failed in a row.
#[derive(Debug, Clone, Copy, PartialEq, Eq, Structural)]
pub struct PollHealth {
    pub failures: u32,
}

/// The pause before the next poll: the regular one, or the longer one once
/// enough polls have failed in a row.
pub open spec fn poll_pause(failures: u32, regular: u64, backoff: u64) -> u64 {
    if failures >= BACKOFF_AFTER_FAILURES {
        backoff
    } else {
        regular
    }
}

/// The count of failures in a row after one more poll: a success clears it,
/// a failure adds one, and the count stays where it cannot grow.
pub open spec fn failures_after(failures: u32, ok: bool) -> u32 {
    if ok {
        0
    } else if failures == u32::MAX {
        failures
    } else {
        (failures + 1) as u32
    }
}

impl PollHealth {
    /// The health of a poller that has not polled yet.
    pub fn new() -> (r: PollHealth)
        ensures
            r.failures == 0,
    {
        PollHealth { failures: 0 }
    }

    /// Counts one more poll.
    pub fn record(&mut self, ok: bool)
        ensures
            final(self).failures == failures_after(old(self).failures, ok),
    {
        if ok {
            self.failures = 0;
        } else if self.failures < u32::MAX {
            self.failures = self.failures + 1;
        }
    }

    /// The pause before the next status poll, in milliseconds.
    pub fn status_pause_ms(&self) -> (r: u64)
        ensures
            r == poll_pause(self.failures, STATUS_POLL_MS, STATUS_POLL_BACKOFF_MS),
    {
        if self.failures >= BACKOFF_AFTER_FAILURES {
            STATUS_POLL_BACKOFF_MS
        } else {
            STATUS_POLL_MS
        }
    }

    /// The pause before the next roster poll, in milliseconds.
    pub fn peer_pause_ms(&self) -> (r: u64)
        ensures
            r == poll_pause(self.failures, PEER_POLL_MS, PEER_POLL_BACKOFF_MS),
    {
        if self.failures >= BACKOFF_AFTER_FAILURES {
            PEER_POLL_BACKOFF_MS
        } else {
            PEER_POLL_MS
        }
    }
}

/// What a poller does next.
#[derive(Debug, Clone, Copy, PartialEq, Eq, Structural)]
pub enum PollAction {
    /// The edge process is gone or a stop was requested: clear the cache and
    /// end.
    Exit,
    /// Nothing to ask now: look again after this many milliseconds.
    Idle(u64),
    /// Ask the control channel.
    Query,
}

/// What the status poller does next: it asks as long as the edge process is
/// there and no stop was requested.
pub open spec fn status_poll_action(running: bool, stop_requested: bool) -> PollAction {
    if !running || stop_requested {
        PollAction::Exit
    } else {
        PollAction::Query
    }
}

/// What the roster poller does next: it ends as the status poller does, and
/// asks only while the connection is alive.
pub open spec fn peer_poll_action(running: bool, stop_requested: bool, connected: bool)
    -> PollAction {
    if !running || stop_requested {
        PollAction::Exit
    } else if connected {
        PollAction::Query
    } else {
        PollAction::Idle(PEER_IDLE_MS)
    }
}

} // verus!
