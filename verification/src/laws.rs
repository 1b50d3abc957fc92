//! What holds of the supervisor's transitions, whatever state they start
//! from.

use crate::config::ConfigView;
use crate::launch::StartError;
use crate::mgmt::{is_fresh, mgmt_connected, MgmtTimestamps, FRESH_WINDOW_SECS, UNREACHABLE_AFTER_SECS};
use crate::notice::NoticeView;
use crate::peers::{snapshot, PeerView};
use crate::process::{
    active, consistent, derived_notice_of, derived_status_of, exit_state, force_finished_state,
    force_state, idle_process, latency_state, line_state, names_port, poll_state, roster_state,
    spawn_failed_state, start_result, start_state, stop_result, stop_state, LaunchPlanView,
    ProcessView, StopError,
};
use crate::stream::LineFactsView;
use vstd::prelude::*;

verus! {

/// A request to start while an edge process is held fails, and leaves the
/// supervisor exactly as it was.
pub proof fn lemma_start_while_running(
    p: ProcessView,
    c: ConfigView,
    fallback_name: Seq<char>,
    default_program: Seq<char>,
    foreground: bool,
)
    requires
        p.running,
    ensures
        start_state(p, c) == p,
        start_result(p, c, fallback_name, default_program, foreground) == Err::<
            LaunchPlanView,
            StartError,
        >(StartError::AlreadyRunning),
{
}

/// A request to start with a supernode's address that names no port fails
/// without a plan to spawn anything: no edge process is held afterwards, and
/// the status is an error.
pub proof fn lemma_start_without_port(
    p: ProcessView,
    c: ConfigView,
    fallback_name: Seq<char>,
    default_program: Seq<char>,
    foreground: bool,
)
    requires
        !p.running,
        !names_port(c.supernode),
    ensures
        start_result(p, c, fallback_name, default_program, foreground) == Err::<
            LaunchPlanView,
            StartError,
        >(StartError::BadSupernode),
        !start_state(p, c).running,
        start_state(p, c).status is Error,
{
}

/// A request to start is accepted only from the states disconnected and
/// error.
pub proof fn lemma_start_only_from_rest(
    p: ProcessView,
    c: ConfigView,
    fallback_name: Seq<char>,
    default_program: Seq<char>,
    foreground: bool,
)
    requires
        consistent(p),
        start_result(p, c, fallback_name, default_program, foreground) is Ok,
    ensures
        p.status is Disconnected || p.status is Error,
        start_state(p, c).status is Connecting,
{
}

/// While the supernode was never reached, more than the grace period after
/// the edge process started, and no peer was heard from in the freshness
/// window, callers are never shown a connected status, and the notice they
/// are shown is that the supernode is unreachable.
pub proof fn lemma_unreached_supernode(p: ProcessView, t: MgmtTimestamps, now: u64)
    requires
        p.mgmt.timestamps == Some(t),
        t.last_super == 0,
        now - t.start_time > UNREACHABLE_AFTER_SECS,
        !is_fresh(t.last_p2p, now),
    ensures
        !(derived_status_of(p, now) is Connected),
        p.status is Connecting || p.status is Connected ==> derived_status_of(p, now)
            is Connecting,
        derived_notice_of(p, now) == Some(NoticeView::RendezvousUnreachable),
{
}

/// A contact with the supernode within the freshness window means that the
/// connection is alive, and a connecting process is shown as connected,
/// whatever the output of the edge process said or did not say.
pub proof fn lemma_fresh_supernode_connects(p: ProcessView, t: MgmtTimestamps, now: u64)
    requires
        p.mgmt.timestamps == Some(t),
        t.last_super != 0,
        now - t.last_super <= FRESH_WINDOW_SECS,
    ensures
        mgmt_connected(p.mgmt, now),
        p.status is Connecting || p.status is Connected ==> derived_status_of(p, now)
            is Connected,
        derived_notice_of(p, now) is None,
{
}

/// A second request to stop changes nothing that the first has not changed,
/// and a request to stop where no edge process is held fails and changes
/// nothing at all.
pub proof fn lemma_stop_twice(p: ProcessView)
    ensures
        stop_state(stop_state(p)) == stop_state(p),
        stop_result(stop_state(p)) == stop_result(p),
        !p.running ==> stop_state(p) == p && stop_result(p) == Err::<(), StopError>(
            StopError::NotRunning,
        ),
{
}

/// A latency measured for an address shows in the snapshot at each roster
/// entry with that address; an entry whose address has no measurement shows
/// none.
pub proof fn lemma_measured_latency_shows(
    p: ProcessView,
    addr: Seq<char>,
    latency_ms: u64,
    measured_at: u64,
    i: int,
)
    requires
        active(p),
        0 <= i < p.roster.len(),
    ensures
        ({
            let after = latency_state(p, addr, latency_ms, measured_at);
            let shown = snapshot(after.roster, after.latencies)[i];
            &&& p.roster[i].ip == addr ==> shown.latency_ms == Some(latency_ms) && shown.latency_at
                == Some(measured_at)
            &&& !after.latencies.contains_key(p.roster[i].ip) ==> shown.latency_ms is None
                && shown.latency_at is None
        }),
{
}

/// A whole session: from rest, a start with a valid configuration makes the
/// supervisor connecting; a heartbeat with a fresh contact to the supernode
/// makes the status shown connected; a stop makes it disconnecting; and the
/// exit of the edge process then leaves it disconnected, without a notice.
pub proof fn lemma_session(c: ConfigView, t: MgmtTimestamps, now: u64)
    requires
        names_port(c.supernode),
        t.last_super != 0,
        now - t.last_super <= FRESH_WINDOW_SECS,
    ensures
        ({
            let started = start_state(idle_process(), c);
            let polled = poll_state(started, Ok(t));
            let stopping = stop_state(polled);
            let ended = exit_state(stopping);
            &&& idle_process().status is Disconnected
            &&& started.status is Connecting
            &&& derived_status_of(polled, now) is Connected
            &&& stopping.status is Disconnecting
            &&& derived_status_of(stopping, now) is Disconnecting
            &&& ended.status is Disconnected
            &&& ended.notice is None
            &&& derived_notice_of(ended, now) is None
            &&& !ended.running
        }),
{
}

/// An exit that no request to stop preceded is an error, whatever the state
/// before it; one that a request to stop preceded never is.
pub proof fn lemma_exit_outcome(p: ProcessView)
    requires
        p.running,
    ensures
        !p.stop_requested ==> exit_state(p).status is Error,
        p.stop_requested ==> exit_state(p).status is Disconnected && exit_state(p).notice is None,
        !exit_state(p).running,
{
}

/// While a stop is in flight, a line of output changes nothing.
pub proof fn lemma_stop_suspends_lines(p: ProcessView, facts: LineFactsView)
    ensures
        line_state(stop_state(p), facts) == stop_state(p),
{
}

/// Every transition keeps a consistent supervisor consistent.
pub proof fn lemma_transitions_keep_consistency(
    p: ProcessView,
    c: ConfigView,
    reason: Seq<char>,
    facts: LineFactsView,
    outcome: Result<MgmtTimestamps, Seq<char>>,
    rows: Seq<PeerView>,
    addr: Seq<char>,
    latency_ms: u64,
    measured_at: u64,
    exited: bool,
)
    requires
        consistent(p),
    ensures
        consistent(idle_process()),
        consistent(start_state(p, c)),
        consistent(spawn_failed_state(p, reason)),
        consistent(line_state(p, facts)),
        consistent(exit_state(p)),
        consistent(stop_state(p)),
        consistent(force_state(p)),
        consistent(force_finished_state(p, exited)),
        consistent(poll_state(p, outcome)),
        consistent(roster_state(p, rows)),
        consistent(latency_state(p, addr, latency_ms, measured_at)),
{
}

} // verus!
