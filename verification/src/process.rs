//! The supervisor's state machine: what it knows of the edge process, and
//! how each request and each observation changes that.
//!
//! The supervisor spawns nothing and waits for nothing itself. Its caller
//! performs what a transition asks for and reports what came of it.

use crate::config::{ConfigView, N2NConfig};
use crate::launch::{
    bad_supernode_text, build_args, default_edge_path, edge_args, get_default_edge_path, get_default_node_name, node_name_text, stays_in_foreground,
    LaunchPlan, Platform, StartError,
};
use crate::mgmt::{
    after_poll, empty_mgmt, mgmt_connected, peer_poll_action, rendezvous_silent,
    status_poll_action, MgmtState, MgmtTimestamps, MgmtView, PollAction, PEER_IDLE_MS,
};
use crate::notice::{clone_opt_notice, code_text, opt_notice, Notice, NoticeView};
use crate::peers::{
    join_latency, peer_views, ping_targets, probe_targets, snapshot, strip_self, without_self,
    LatencyCache, PeerNodeInfo, PeerView,
};
use crate::status::{
    clone_opt_info, opt_info, ConnectionStatus, NetworkInfo, NetworkInfoView, StatusView,
};
use crate::stream::{facts_of, scan_line, tag_line, Channel, LineFactsView};
use crate::text::{chars_of, contains_str, contains_text, texts};
use vstd::prelude::*;
use vstd::string::StringExecFns;

verus! {

/// What a supervisor holds, as plain values.
pub struct ProcessView {
    /// Whether an edge process is held.
    pub running: bool,
    /// The status as spawn, exit and output showed it.
    pub status: StatusView,
    /// Whether a stop is in flight.
    pub stop_requested: bool,
    /// The current notice.
    pub notice: Option<NoticeView>,
    /// The interface's addresses, once announced.
    pub network_info: Option<NetworkInfoView>,
    /// The configuration of the last start, kept for a reconnect.
    pub auto_reconnect: Option<ConfigView>,
    /// What the control channel last told.
    pub mgmt: MgmtView,
    /// The roster, without this node.
    pub roster: Seq<PeerView>,
    /// The measured latencies, by address.
    pub latencies: Map<Seq<char>, (u64, u64)>,
}

/// The view of an optional configuration.
pub open spec fn opt_config(o: Option<N2NConfig>) -> Option<ConfigView> {
    match o {
        Some(c) => Some(c@),
        None => None,
    }
}

/// A process is active while it is held and no stop is in flight. Only an
/// active process takes in what the output and the pollers tell.
pub open spec fn active(p: ProcessView) -> bool {
    p.running && !p.stop_requested
}

/// What holds of every supervisor: a connection that is coming, up or going
/// has an edge process behind it, and only an active process has anything
/// cached from the control channel.
pub open spec fn consistent(p: ProcessView) -> bool {
    &&& (p.status is Connecting || p.status is Connected || p.status is Disconnecting)
        ==> p.running
    &&& !active(p) ==> p.mgmt == empty_mgmt() && p.roster == Seq::<PeerView>::empty()
        && p.latencies == Map::<Seq<char>, (u64, u64)>::empty()
}

/// A supervisor that has not started anything.
pub open spec fn idle_process() -> ProcessView {
    ProcessView {
        running: false,
        status: StatusView::Disconnected,
        stop_requested: false,
        notice: None,
        network_info: None,
        auto_reconnect: None,
        mgmt: empty_mgmt(),
        roster: Seq::empty(),
        latencies: Map::empty(),
    }
}

/// The state without what the pollers cached.
pub open spec fn cleared(p: ProcessView) -> ProcessView {
    ProcessView { mgmt: empty_mgmt(), roster: Seq::empty(), latencies: Map::empty(), ..p }
}

/// The message of an exit that no notice explains.
pub open spec fn exit_text() -> Seq<char> {
    "process exited"@
}

/// An address that names a port.
pub open spec fn names_port(supernode: Seq<char>) -> bool {
    contains_text(supernode, ":"@)
}

/// What a `LaunchPlan` holds, as plain text.
pub struct LaunchPlanView {
    pub program: Seq<char>,
    pub args: Seq<Seq<char>>,
}

impl View for LaunchPlan {
    type V = LaunchPlanView;

    open spec fn view(&self) -> LaunchPlanView {
        LaunchPlanView { program: self.program@, args: texts(self.args@) }
    }
}

/// The view of a plan or the error in its place.
pub open spec fn launch_result(r: Result<LaunchPlan, StartError>) -> Result<
    LaunchPlanView,
    StartError,
> {
    match r {
        Ok(p) => Ok(p@),
        Err(e) => Err(e),
    }
}

/// What to spawn for a configuration: the configured executable, or
/// `default_program` where none is configured, with the argument vector.
pub open spec fn launch_plan(
    c: ConfigView,
    fallback_name: Seq<char>,
    default_program: Seq<char>,
    foreground: bool,
) -> LaunchPlanView {
    LaunchPlanView {
        program: match c.edge_path {
            Some(p) => p,
            None => default_program,
        },
        args: edge_args(c, fallback_name, foreground),
    }
}

/// The state after a request to start. A supervisor that holds an edge
/// process stays as it is. A supernode's address without a port makes the
/// status an error and changes nothing else. Otherwise the supervisor holds
/// the new process: connecting, no stop in flight, nothing known or cached,
/// the configuration kept.
pub open spec fn start_state(p: ProcessView, c: ConfigView) -> ProcessView {
    if p.running {
        p
    } else if !names_port(c.supernode) {
        ProcessView { status: StatusView::Error(bad_supernode_text()), ..p }
    } else {
        ProcessView {
            running: true,
            status: StatusView::Connecting,
            stop_requested: false,
            notice: None,
            network_info: None,
            auto_reconnect: Some(c),
            mgmt: empty_mgmt(),
            roster: Seq::empty(),
            latencies: Map::empty(),
        }
    }
}

/// What a request to start returns: the plan, or why nothing is started.
pub open spec fn start_result(
    p: ProcessView,
    c: ConfigView,
    fallback_name: Seq<char>,
    default_program: Seq<char>,
    foreground: bool,
) -> Result<LaunchPlanView, StartError> {
    if p.running {
        Err(StartError::AlreadyRunning)
    } else if !names_port(c.supernode) {
        Err(StartError::BadSupernode)
    } else {
        Ok(launch_plan(c, fallback_name, default_program, foreground))
    }
}

/// The state after the spawn failed: no edge process is held, and the
/// status is an error with the reason.
pub open spec fn spawn_failed_state(p: ProcessView, reason: Seq<char>) -> ProcessView {
    if p.running {
        ProcessView { running: false, status: StatusView::Error(reason), ..cleared(p) }
    } else {
        p
    }
}

/// The state after one line of output. Only an active process takes the
/// line in. The interface's addresses are kept from the first line that
/// announces them. A notice replaces the current one. A success marker
/// turns a connecting process into a connected one and clears the notice.
pub open spec fn line_state(p: ProcessView, facts: LineFactsView) -> ProcessView {
    if !active(p) {
        p
    } else {
        let info = if p.network_info is Some {
            p.network_info
        } else {
            facts.network_info
        };
        let connects = p.status is Connecting && facts.success;
        ProcessView {
            network_info: info,
            notice: if connects {
                None
            } else if facts.notice is Some {
                facts.notice
            } else {
                p.notice
            },
            status: if connects {
                StatusView::Connected(info)
            } else {
                p.status
            },
            ..p
        }
    }
}

/// The state after the edge process has exited. After a request to stop the
/// supervisor is disconnected and the notice is cleared. Without one the
/// exit is an error, named by the notice or, where there is none, by a
/// generic message. Either way nothing is held or cached any more.
pub open spec fn exit_state(p: ProcessView) -> ProcessView {
    if !p.running {
        p
    } else if p.stop_requested {
        ProcessView {
            running: false,
            status: StatusView::Disconnected,
            notice: None,
            network_info: None,
            ..cleared(p)
        }
    } else {
        ProcessView {
            running: false,
            status: StatusView::Error(
                match p.notice {
                    Some(n) => code_text(n),
                    None => exit_text(),
                },
            ),
            network_info: None,
            ..cleared(p)
        }
    }
}

/// The state after a request to stop: the stop is in flight, the notice and
/// the caches are cleared, the configuration is no longer kept, and the
/// status is disconnecting. A supervisor that holds no edge process stays as
/// it is.
pub open spec fn stop_state(p: ProcessView) -> ProcessView {
    if !p.running {
        p
    } else {
        ProcessView {
            stop_requested: true,
            notice: None,
            status: StatusView::Disconnecting,
            auto_reconnect: None,
            ..cleared(p)
        }
    }
}

/// The state after a request to stop by force: as after a request to stop,
/// but the status changes only when the wait is over.
pub open spec fn force_state(p: ProcessView) -> ProcessView {
    if !p.running {
        p
    } else {
        ProcessView { stop_requested: true, notice: None, auto_reconnect: None, ..cleared(p) }
    }
}

/// The state after the wait that follows a forced stop: disconnected,
/// whether or not the edge process was seen to exit; it is held no longer
/// only if it was.
pub open spec fn force_finished_state(p: ProcessView, exited: bool) -> ProcessView {
    if !p.running {
        p
    } else if exited {
        ProcessView {
            running: false,
            status: StatusView::Disconnected,
            network_info: None,
            ..cleared(p)
        }
    } else {
        ProcessView { status: StatusView::Disconnected, ..p }
    }
}

/// The state after a poll of the heartbeat; only an active process takes it
/// in.
pub open spec fn poll_state(p: ProcessView, outcome: Result<MgmtTimestamps, Seq<char>>)
    -> ProcessView {
    if !active(p) {
        p
    } else {
        ProcessView { mgmt: after_poll(p.mgmt, outcome), ..p }
    }
}

/// This node's own address in the virtual network, once announced.
pub open spec fn own_ip(p: ProcessView) -> Option<Seq<char>> {
    match p.network_info {
        Some(i) => Some(i.ip),
        None => None,
    }
}

/// The state after a poll of the roster: the rows replace the roster, but
/// for the entries that stand for this node itself.
pub open spec fn roster_state(p: ProcessView, rows: Seq<PeerView>) -> ProcessView {
    if !active(p) {
        p
    } else {
        ProcessView { roster: without_self(rows, own_ip(p)), ..p }
    }
}

/// The state after a latency was measured for `addr`.
pub open spec fn latency_state(p: ProcessView, addr: Seq<char>, latency_ms: u64, measured_at: u64)
    -> ProcessView {
    if !active(p) {
        p
    } else {
        ProcessView { latencies: p.latencies.insert(addr, (latency_ms, measured_at)), ..p }
    }
}

/// The status that callers are shown at `now`: the observed status, refined
/// by the heartbeat. A connecting process counts as connected as soon as the
/// heartbeat is fresh; a connected one whose heartbeat is known and stale
/// counts as connecting again.
pub open spec fn derived_status_of(p: ProcessView, now: u64) -> StatusView {
    match p.status {
        StatusView::Connecting => if mgmt_connected(p.mgmt, now) {
            StatusView::Connected(p.network_info)
        } else {
            StatusView::Connecting
        },
        StatusView::Connected(info) => if p.mgmt.timestamps is Some && !mgmt_connected(
            p.mgmt,
            now,
        ) {
            StatusView::Connecting
        } else {
            StatusView::Connected(info)
        },
        s => s,
    }
}

/// The notice that callers are shown at `now`: none while the heartbeat is
/// fresh; else that the supernode is unreachable, where the heartbeat shows
/// it; else the current notice.
pub open spec fn derived_notice_of(p: ProcessView, now: u64) -> Option<NoticeView> {
    if mgmt_connected(p.mgmt, now) {
        None
    } else if rendezvous_silent(p.mgmt, now) {
        Some(NoticeView::RendezvousUnreachable)
    } else {
        p.notice
    }
}

/// Why a stop was refused.
#[derive(Debug, Clone, Copy, PartialEq, Eq, Structural)]
pub enum StopError {
    /// No edge process is held.
    NotRunning,
}

/// What a request to stop returns.
pub open spec fn stop_result(p: ProcessView) -> Result<(), StopError> {
    if p.running {
        Ok(())
    } else {
        Err(StopError::NotRunning)
    }
}

/// The message that tells the user why nothing was stopped.
pub open spec fn stop_error_text(e: StopError) -> Seq<char> {
    match e {
        StopError::NotRunning => "N2N 进程未运行"@,
    }
}

impl StopError {
    /// The message that tells the user why nothing was stopped.
    pub fn message(&self) -> (r: String)
        ensures
            r@ == stop_error_text(*self),
    {
        match self {
            StopError::NotRunning => String::from_str("N2N 进程未运行"),
        }
    }
}

/// The line that goes to the log when the edge process has exited.
pub open spec fn exit_log_text(stop_requested: bool) -> Seq<char> {
    if stop_requested {
        "[INFO] N2N 进程已断开"@
    } else {
        "[WARN] N2N 进程意外退出..."@
    }
}

/// A roster without entries.
fn no_peers() -> (r: Vec<PeerNodeInfo>)
    ensures
        r@ == Seq::<PeerNodeInfo>::empty(),
        peer_views(r@) == Seq::<PeerView>::empty(),
{
    let r: Vec<PeerNodeInfo> = Vec::new();
    assert(peer_views(r@) =~= Seq::<PeerView>::empty());
    r
}

/// The supervisor of one edge process.
pub struct N2NProcess {
    running: bool,
    status: ConnectionStatus,
    stop_requested: bool,
    notice: Option<Notice>,
    network_info: Option<NetworkInfo>,
    auto_reconnect: Option<N2NConfig>,
    mgmt: MgmtState,
    roster: Vec<PeerNodeInfo>,
    latencies: LatencyCache,
}

impl View for N2NProcess {
    type V = ProcessView;

    closed spec fn view(&self) -> ProcessView {
        ProcessView {
            running: self.running,
            status: self.status@,
            stop_requested: self.stop_requested,
            notice: opt_notice(self.notice),
            network_info: opt_info(self.network_info),
            auto_reconnect: opt_config(self.auto_reconnect),
            mgmt: self.mgmt@,
            roster: peer_views(self.roster@),
            latencies: self.latencies@,
        }
    }
}

impl N2NProcess {
    #[verifier::type_invariant]
    closed spec fn inv(self) -> bool {
        consistent(self@)
    }

    /// A supervisor that has not started anything.
    pub fn new() -> (p: N2NProcess)
        ensures
            p@ == idle_process(),
    {
        N2NProcess {
            running: false,
            status: ConnectionStatus::Disconnected,
            stop_requested: false,
            notice: None,
            network_info: None,
            auto_reconnect: None,
            mgmt: MgmtState::new(),
            roster: no_peers(),
            latencies: LatencyCache::new(),
        }
    }

    /// Whether an edge process is held.
    pub fn is_running(&self) -> (r: bool)
        ensures
            r == self@.running,
    {
        self.running
    }

    /// The status as spawn, exit and output showed it.
    pub fn status(&self) -> (r: ConnectionStatus)
        ensures
            r@ == self@.status,
    {
        self.status.duplicate()
    }

    /// Whether a stop is in flight.
    pub fn stop_requested(&self) -> (r: bool)
        ensures
            r == self@.stop_requested,
    {
        self.stop_requested
    }

    /// The current notice.
    pub fn notice(&self) -> (r: Option<Notice>)
        ensures
            opt_notice(r) == self@.notice,
    {
        clone_opt_notice(&self.notice)
    }

    /// The interface's addresses, once announced.
    pub fn network_info(&self) -> (r: Option<NetworkInfo>)
        ensures
            opt_info(r) == self@.network_info,
    {
        clone_opt_info(&self.network_info)
    }

    /// The configuration of the last start, kept for a reconnect.
    pub fn auto_reconnect(&self) -> (r: Option<N2NConfig>)
        ensures
            opt_config(r) == self@.auto_reconnect,
    {
        match &self.auto_reconnect {
            Some(c) => Some(c.duplicate()),
            None => None,
        }
    }

    /// Decides on a request to start, given the node's name to fall back on
    /// and the executable to use where the configuration names none. On
    /// success the caller spawns what the plan says and reports a failure of
    /// the spawn with `on_spawn_failed`.
    pub fn start_with(
        &mut self,
        config: &N2NConfig,
        fallback_name: &str,
        default_program: &str,
        foreground: bool,
    ) -> (r: Result<LaunchPlan, StartError>)
        ensures
            final(self)@ == start_state(old(self)@, config@),
            launch_result(r) == start_result(
                old(self)@,
                config@,
                fallback_name@,
                default_program@,
                foreground,
            ),
    {
        proof {
            use_type_invariant(&*self);
        }
        if self.running {
            return Err(StartError::AlreadyRunning);
        }
        let supernode = chars_of(config.supernode.as_str());
        if !contains_str(supernode.as_slice(), ":") {
            self.status = ConnectionStatus::Error(StartError::BadSupernode.message());
            return Err(StartError::BadSupernode);
        }
        self.notice = None;
        self.network_info = None;
        self.auto_reconnect = Some(config.duplicate());
        self.running = true;
        self.stop_requested = false;
        self.status = ConnectionStatus::Connecting;
        let program = match &config.edge_path {
            Some(p) => p.clone(),
            None => default_program.to_owned(),
        };
        Ok(LaunchPlan { program, args: build_args(config, fallback_name, foreground) })
    }

    /// Decides on a request to start. It fails, and changes nothing, if an
    /// edge process is already held; it fails, and makes the status an
    /// error, if the supernode's address names no port. Otherwise the
    /// supervisor is connecting, and the plan says what to spawn: the name
    /// to fall back on is made from what the system calls this host, the
    /// default executable is the one for this platform, found on `PATH` or
    /// not, and the edge process stays in the foreground except on Windows.
    pub fn start(&mut self, config: &N2NConfig, platform: Platform) -> (r: Result<
        LaunchPlan,
        StartError,
    >)
        ensures
            final(self)@ == start_state(old(self)@, config@),
            old(self)@.running ==> r == Err::<LaunchPlan, StartError>(StartError::AlreadyRunning),
            !old(self)@.running && !names_port(config@.supernode) ==> r == Err::<
                LaunchPlan,
                StartError,
            >(StartError::BadSupernode),
            !old(self)@.running && names_port(config@.supernode) ==> r is Ok,
            exists|host: Option<Seq<char>>, on_path: bool|
                launch_result(r) == start_result(
                    old(self)@,
                    config@,
                    #[trigger] node_name_text(host),
                    #[trigger] default_edge_path(platform, on_path),
                    stays_in_foreground(platform),
                ),
    {
        let foreground = match platform {
            Platform::Windows => false,
            _ => true,
        };
        if self.running {
            let r = self.start_with(config, "", "", foreground);
            assert(launch_result(r) == start_result(
                old(self)@,
                config@,
                node_name_text(None),
                default_edge_path(platform, false),
                stays_in_foreground(platform),
            ));
            return r;
        }
        let fallback_name = get_default_node_name(platform);
        let default_program = match &config.edge_path {
            Some(_) => String::new(),
            None => get_default_edge_path(platform),
        };
        let r = self.start_with(
            config,
            fallback_name.as_str(),
            default_program.as_str(),
            foreground,
        );
        proof {
            let host = choose|host: Option<Seq<char>>| fallback_name@ == node_name_text(host);
            let on_path = default_program@ == default_edge_path(platform, true);
            assert(launch_result(r) == start_result(
                old(self)@,
                config@,
                node_name_text(host),
                default_edge_path(platform, on_path),
                stays_in_foreground(platform),
            ));
        }
        r
    }

    /// Takes in that the spawn failed, with the reason.
    pub fn on_spawn_failed(&mut self, reason: &str)
        ensures
            final(self)@ == spawn_failed_state(old(self)@, reason@),
    {
        proof {
            use_type_invariant(&*self);
        }
        if self.running {
            self.mgmt = MgmtState::new();
            self.roster = no_peers();
            self.latencies = LatencyCache::new();
            self.status = ConnectionStatus::Error(reason.to_owned());
            self.running = false;
        }
    }

    /// Takes in one line of the edge process's output, and returns it as it
    /// goes to the log: behind the tag of its channel.
    pub fn on_output_line(&mut self, channel: Channel, line: &str) -> (logged: String)
        ensures
            final(self)@ == line_state(old(self)@, facts_of(line@)),
            logged@ == crate::stream::channel_tag(channel) + line@,
    {
        proof {
            use_type_invariant(&*self);
        }
        let logged = tag_line(channel, line);
        if !self.running || self.stop_requested {
            return logged;
        }
        let facts = scan_line(line);
        if self.network_info.is_none() {
            self.network_info = facts.network_info;
        }
        let connects = facts.success && match self.status {
            ConnectionStatus::Connecting => true,
            _ => false,
        };
        if connects {
            self.notice = None;
            self.status = ConnectionStatus::Connected(clone_opt_info(&self.network_info));
        } else if facts.notice.is_some() {
            self.notice = facts.notice;
        }
        logged
    }

    /// Takes in that the edge process has exited, and returns the line that
    /// goes to the log.
    pub fn on_child_exit(&mut self) -> (logged: String)
        ensures
            final(self)@ == exit_state(old(self)@),
            logged@ == exit_log_text(old(self)@.stop_requested),
    {
        proof {
            use_type_invariant(&*self);
        }
        let logged = if self.stop_requested {
            String::from_str("[INFO] N2N 进程已断开")
        } else {
            String::from_str("[WARN] N2N 进程意外退出...")
        };
        if !self.running {
            return logged;
        }
        self.mgmt = MgmtState::new();
        self.roster = no_peers();
        self.latencies = LatencyCache::new();
        self.network_info = None;
        if self.stop_requested {
            self.status = ConnectionStatus::Disconnected;
            self.notice = None;
        } else {
            let message = match &self.notice {
                Some(n) => n.code(),
                None => String::from_str("process exited"),
            };
            self.status = ConnectionStatus::Error(message);
        }
        self.running = false;
        logged
    }

    /// Decides on a request to stop. It fails, and changes nothing, if no
    /// edge process is held. Otherwise the stop is in flight; the caller
    /// then brings the edge process down as `next_stop_action` says.
    pub fn stop(&mut self) -> (r: Result<(), StopError>)
        ensures
            final(self)@ == stop_state(old(self)@),
            r == stop_result(old(self)@),
    {
        proof {
            use_type_invariant(&*self);
        }
        if !self.running {
            return Err(StopError::NotRunning);
        }
        self.mgmt = MgmtState::new();
        self.roster = no_peers();
        self.latencies = LatencyCache::new();
        self.auto_reconnect = None;
        self.stop_requested = true;
        self.notice = None;
        self.status = ConnectionStatus::Disconnecting;
        Ok(())
    }

    /// Decides on a request to stop by force. It fails, and changes nothing,
    /// if no edge process is held. Otherwise the stop is in flight; the
    /// caller ends the edge process as `next_stop_action` says, waits for
    /// its exit and reports with `finish_stop_force`.
    pub fn stop_force(&mut self) -> (r: Result<(), StopError>)
        ensures
            final(self)@ == force_state(old(self)@),
            r == stop_result(old(self)@),
    {
        proof {
            use_type_invariant(&*self);
        }
        if !self.running {
            return Err(StopError::NotRunning);
        }
        self.mgmt = MgmtState::new();
        self.roster = no_peers();
        self.latencies = LatencyCache::new();
        self.auto_reconnect = None;
        self.stop_requested = true;
        self.notice = None;
        Ok(())
    }

    /// Takes in the end of the wait that follows a forced stop, and whether
    /// the edge process was seen to exit.
    pub fn finish_stop_force(&mut self, exited: bool)
        ensures
            final(self)@ == force_finished_state(old(self)@, exited),
    {
        proof {
            use_type_invariant(&*self);
        }
        if !self.running {
            return ;
        }
        self.status = ConnectionStatus::Disconnected;
        if exited {
            self.mgmt = MgmtState::new();
            self.roster = no_peers();
            self.latencies = LatencyCache::new();
            self.network_info = None;
            self.running = false;
        }
    }
    /// Takes in the outcome of a poll of the heartbeat.
    pub fn record_mgmt_poll(&mut self, outcome: Result<MgmtTimestamps, String>)
        ensures
            final(self)@ == poll_state(
                old(self)@,
                match outcome {
                    Ok(t) => Ok(t),
                    Err(e) => Err(e@),
                },
            ),
    {
        proof {
            use_type_invariant(&*self);
        }
        if !self.running || self.stop_requested {
            return ;
        }
        let mut mgmt = self.mgmt.duplicate();
        mgmt.record_poll(outcome);
        self.mgmt = mgmt;
    }

    /// Takes in the rows of a poll of the roster.
    pub fn record_roster(&mut self, rows: &Vec<PeerNodeInfo>)
        ensures
            final(self)@ == roster_state(old(self)@, peer_views(rows@)),
    {
        proof {
            use_type_invariant(&*self);
        }
        if !self.running || self.stop_requested {
            return ;
        }
        let own: Option<String> = match &self.network_info {
            Some(i) => Some(i.ip.clone()),
            None => None,
        };
        self.roster = strip_self(rows, &own);
    }

    /// Takes in a latency measured for `addr`, in whole milliseconds, and
    /// when it was measured.
    pub fn record_latency(&mut self, addr: &str, latency_ms: u64, measured_at: u64)
        ensures
            final(self)@ == latency_state(old(self)@, addr@, latency_ms, measured_at),
    {
        proof {
            use_type_invariant(&*self);
        }
        if !self.running || self.stop_requested {
            return ;
        }
        self.latencies = self.latencies.recorded(addr, latency_ms, measured_at);
    }

    /// What the control channel last told.
    pub fn mgmt_state(&self) -> (r: MgmtState)
        ensures
            r@ == self@.mgmt,
    {
        self.mgmt.duplicate()
    }

    /// Whether the connection is alive at `now`, by the heartbeat alone.
    pub fn mgmt_is_connected(&self, now: u64) -> (r: bool)
        ensures
            r == mgmt_connected(self@.mgmt, now),
    {
        self.mgmt.is_connected(now)
    }

    /// The status that callers are shown at `now`.
    pub fn derived_status(&self, now: u64) -> (r: ConnectionStatus)
        ensures
            r@ == derived_status_of(self@, now),
    {
        match &self.status {
            ConnectionStatus::Connecting => if self.mgmt.is_connected(now) {
                ConnectionStatus::Connected(clone_opt_info(&self.network_info))
            } else {
                ConnectionStatus::Connecting
            },
            ConnectionStatus::Connected(info) => if self.mgmt.timestamps.is_some()
                && !self.mgmt.is_connected(now) {
                ConnectionStatus::Connecting
            } else {
                ConnectionStatus::Connected(clone_opt_info(info))
            },
            other => other.duplicate(),
        }
    }

    /// The notice that callers are shown at `now`.
    pub fn derived_notice(&self, now: u64) -> (r: Option<Notice>)
        ensures
            opt_notice(r) == derived_notice_of(self@, now),
    {
        if self.mgmt.is_connected(now) {
            None
        } else if self.mgmt.is_rendezvous_silent(now) {
            Some(Notice::RendezvousUnreachable)
        } else {
            clone_opt_notice(&self.notice)
        }
    }

    /// The roster as a snapshot shows it: each entry with the latency that
    /// was measured for its address, if any.
    pub fn peers_snapshot(&self) -> (r: Vec<PeerNodeInfo>)
        ensures
            peer_views(r@) == snapshot(self@.roster, self@.latencies),
    {
        join_latency(&self.roster, &self.latencies)
    }

    /// The addresses to probe for their latency.
    pub fn ping_targets(&self) -> (r: Vec<String>)
        ensures
            texts(r@) == probe_targets(self@.roster),
    {
        ping_targets(&self.roster)
    }

    /// What the status poller does next.
    pub fn status_poll_action(&self) -> (r: PollAction)
        ensures
            r == status_poll_action(self@.running, self@.stop_requested),
    {
        if !self.running || self.stop_requested {
            PollAction::Exit
        } else {
            PollAction::Query
        }
    }

    /// What the roster poller does next at `now`.
    pub fn peer_poll_action(&self, now: u64) -> (r: PollAction)
        ensures
            r == peer_poll_action(
                self@.running,
                self@.stop_requested,
                mgmt_connected(self@.mgmt, now),
            ),
    {
        if !self.running || self.stop_requested {
            PollAction::Exit
        } else if self.mgmt.is_connected(now) {
            PollAction::Query
        } else {
            PollAction::Idle(PEER_IDLE_MS)
        }
    }
}

} // verus!
