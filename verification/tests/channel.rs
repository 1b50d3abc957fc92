use n2n_maid::launch::Platform;
use n2n_maid::mgmt::{fresh, MgmtState, MgmtTimestamps, PollHealth};
use n2n_maid::peers::{
    bare_ip, is_self, join_latency, ping_targets, strip_self, LatencyCache, PeerNodeInfo,
};
use n2n_maid::ping::{parse_leading_number, parse_ping_latency, ping_args};
use n2n_maid::protocol::{
    build_request, read_wait_ms, run_query, should_retry_with_default, stop_request,
    within_line_limit, Query, QueryState, Reply, RowData, MGMT_PORT, QUERY_DEADLINE_MS,
    READ_TIMEOUT_MS, STOP_DEADLINE_MS,
};
use n2n_maid::shutdown::{
    next_stop_action, wait_child_exit, Signal, StopAction, StopEvent, StopMode, WaitDecision,
    FORCE_WAIT_MS, MONITOR_POLL_MS,
};

fn reply(tag: &str, kind: &str, error: Option<&str>, row: RowData) -> Option<Reply> {
    Some(Reply {
        tag: tag.to_string(),
        kind: kind.to_string(),
        error: error.map(|e| e.to_string()),
        row,
    })
}

fn chars(s: &str) -> Vec<char> {
    s.chars().collect()
}

fn peer(addr: Option<&str>) -> PeerNodeInfo {
    PeerNodeInfo::from_row(None, addr.map(|a| a.to_string()), None, None, None, None)
}

#[test]
fn request_lines() {
    assert_eq!(build_request(false, "7", None, "timestamps"), "r 7 timestamps\n");
    assert_eq!(build_request(false, "7", Some("pw"), "edges"), "r 7:1:pw edges\n");
    assert_eq!(build_request(true, "9", Some("n2n"), "stop"), "w 9:1:n2n stop\n");
    assert_eq!(build_request(true, "", Some(""), ""), "w :1: \n");
    assert_eq!(stop_request("3", None), "w 3:1:n2n stop\n");
    assert_eq!(stop_request("3", Some("hunter2")), "w 3:1:hunter2 stop\n");
}

#[test]
fn line_limit_is_in_bytes() {
    assert!(within_line_limit("r 7 timestamps\n"));
    assert!(within_line_limit(&"x".repeat(80)));
    assert!(!within_line_limit(&"x".repeat(81)));
    assert!(!within_line_limit(&"中".repeat(27)));
}

#[test]
fn protocol_constants() {
    assert_eq!(MGMT_PORT, 5644);
    assert_eq!(READ_TIMEOUT_MS, 200);
    assert_eq!(QUERY_DEADLINE_MS, 1500);
    assert_eq!(STOP_DEADLINE_MS, 10000);
    assert_eq!(FORCE_WAIT_MS, 3000);
    assert_eq!(MONITOR_POLL_MS, 1000);
}

#[test]
fn query_collects_rows_until_end() {
    let ts = MgmtTimestamps { start_time: 1, last_super: 2, last_p2p: 3 };
    let mut q = Query::new("42");
    assert!(q.is_collecting());
    q.accept(None);
    q.accept(reply("41", "row", None, RowData::Empty));
    q.accept(reply("42", "other", None, RowData::Empty));
    assert!(q.rows.is_empty());
    assert!(q.is_collecting());
    q.accept(reply("42", "row", None, RowData::Timestamps(ts)));
    q.accept(reply("42", "row", None, RowData::Empty));
    assert_eq!(q.rows, vec![RowData::Timestamps(ts), RowData::Empty]);
    assert!(q.is_collecting());
    q.accept(reply("41", "end", None, RowData::Empty));
    assert!(q.is_collecting());
    q.accept(reply("42", "end", None, RowData::Empty));
    assert_eq!(q.state, QueryState::Complete);
    // nothing is taken in after the end
    q.accept(reply("42", "row", None, RowData::Empty));
    q.accept(reply("42", "error", Some("late"), RowData::Empty));
    assert_eq!(q.rows.len(), 2);
    assert_eq!(q.state, QueryState::Complete);
    assert_eq!(q.tag, "42");
}

#[test]
fn query_fails_on_error() {
    let mut q = Query::new("5");
    q.accept(reply("5", "row", None, RowData::Empty));
    q.accept(reply("5", "error", Some("badauth"), RowData::Empty));
    assert_eq!(q.state, QueryState::Failed("badauth".to_string()));
    assert!(!q.is_collecting());
    q.accept(reply("5", "end", None, RowData::Empty));
    assert_eq!(q.state, QueryState::Failed("badauth".to_string()));

    let mut q = Query::new("5");
    q.accept(reply("5", "error", None, RowData::Empty));
    assert_eq!(q.state, QueryState::Failed("error".to_string()));
}

#[test]
fn whole_reply_in_one_go() {
    let ts = MgmtTimestamps { start_time: 1, last_super: 2, last_p2p: 3 };
    let q = run_query(
        "8",
        vec![
            None,
            reply("9", "row", None, RowData::Empty),
            reply("8", "row", None, RowData::Timestamps(ts)),
            reply("8", "end", None, RowData::Empty),
            reply("8", "row", None, RowData::Empty),
        ],
    );
    assert_eq!(q.state, QueryState::Complete);
    assert_eq!(q.rows, vec![RowData::Timestamps(ts)]);

    let q = run_query("8", vec![reply("8", "row", None, RowData::Empty)]);
    assert_eq!(q.state, QueryState::Collecting);
    assert_eq!(q.rows.len(), 1);

    let q = run_query("8", Vec::new());
    assert_eq!(q.state, QueryState::Collecting);
    assert!(q.rows.is_empty());

    let q = run_query(
        "8",
        vec![
            reply("8", "error", Some("badauth"), RowData::Empty),
            reply("8", "end", None, RowData::Empty),
        ],
    );
    assert_eq!(q.state, QueryState::Failed("badauth".to_string()));
}

#[test]
fn read_waits_within_deadline() {
    assert_eq!(read_wait_ms(0, 1500), Some(200));
    assert_eq!(read_wait_ms(1300, 1500), Some(200));
    assert_eq!(read_wait_ms(1301, 1500), Some(199));
    assert_eq!(read_wait_ms(1499, 1500), Some(1));
    assert_eq!(read_wait_ms(1500, 1500), None);
    assert_eq!(read_wait_ms(9000, 1500), None);
    assert_eq!(read_wait_ms(0, 10000), Some(200));
}

#[test]
fn default_credential_retry() {
    assert!(should_retry_with_default(false, false, "badauth"));
    assert!(should_retry_with_default(false, false, "Authentication required"));
    assert!(!should_retry_with_default(true, false, "badauth"));
    assert!(!should_retry_with_default(false, true, "badauth"));
    assert!(!should_retry_with_default(false, false, "unknown method"));
}

#[test]
fn freshness_window() {
    assert!(!fresh(0, 10));
    assert!(fresh(100, 100));
    assert!(fresh(100, 115));
    assert!(!fresh(100, 116));
    assert!(fresh(120, 100));
    assert!(!fresh(0, 0));
}

#[test]
fn mgmt_state_connectivity() {
    let mut m = MgmtState::new();
    assert!(!m.is_connected(100));
    assert!(!m.is_rendezvous_silent(100));
    m.record_poll(Ok(MgmtTimestamps { start_time: 10, last_super: 0, last_p2p: 0 }));
    assert!(!m.is_connected(41));
    assert!(!m.is_rendezvous_silent(40));
    assert!(m.is_rendezvous_silent(41));
    assert!(!m.is_rendezvous_silent(5));
    m.record_poll(Ok(MgmtTimestamps { start_time: 10, last_super: 0, last_p2p: 40 }));
    assert!(m.is_connected(41));
    assert!(m.is_rendezvous_silent(41));
    m.record_poll(Ok(MgmtTimestamps { start_time: 10, last_super: 40, last_p2p: 0 }));
    assert!(m.is_connected(55));
    assert!(!m.is_connected(56));
    assert!(!m.is_rendezvous_silent(56));
    m.record_poll(Err("recv timed out".to_string()));
    assert_eq!(m.last_error, Some("recv timed out".to_string()));
    assert!(m.is_connected(55));
    assert_eq!(m.duplicate(), m);
}

#[test]
fn poll_cadence() {
    let mut h = PollHealth::new();
    assert_eq!(h.status_pause_ms(), 1200);
    assert_eq!(h.peer_pause_ms(), 5000);
    h.record(false);
    h.record(false);
    assert_eq!(h.failures, 2);
    assert_eq!(h.status_pause_ms(), 1200);
    assert_eq!(h.peer_pause_ms(), 5000);
    h.record(false);
    assert_eq!(h.status_pause_ms(), 3000);
    assert_eq!(h.peer_pause_ms(), 10000);
    h.record(false);
    assert_eq!(h.failures, 4);
    h.record(true);
    assert_eq!(h.failures, 0);
    assert_eq!(h.status_pause_ms(), 1200);
    let mut h = PollHealth { failures: u32::MAX };
    h.record(false);
    assert_eq!(h.failures, u32::MAX);
}

#[test]
fn bare_addresses() {
    assert_eq!(bare_ip(&Some("10.0.0.2/24".to_string())), "10.0.0.2");
    assert_eq!(bare_ip(&Some("10.0.0.2".to_string())), "10.0.0.2");
    assert_eq!(bare_ip(&Some(" 10.0.0.2 /24".to_string())), "10.0.0.2");
    assert_eq!(bare_ip(&Some("/24".to_string())), "");
    assert_eq!(bare_ip(&Some(String::new())), "");
    assert_eq!(bare_ip(&None), "");
    let p = PeerNodeInfo::from_row(
        Some("n".to_string()),
        Some("10.0.0.2/24".to_string()),
        Some("1.2.3.4:5".to_string()),
        Some("pSp".to_string()),
        Some(9),
        Some(true),
    );
    assert_eq!(p.ip, "10.0.0.2");
    assert_eq!(p.vpn_addr, Some("10.0.0.2/24".to_string()));
    assert_eq!(p.public_addr, Some("1.2.3.4:5".to_string()));
    assert_eq!(p.mode, Some("pSp".to_string()));
    assert_eq!(p.last_seen, Some(9));
    assert_eq!(p.local, Some(true));
    assert_eq!(p.latency_ms, None);
    assert_eq!(p.latency_at, None);
    assert_eq!(p.duplicate(), p);
}

#[test]
fn self_entries() {
    let own = Some("10.0.0.1".to_string());
    assert!(is_self(&peer(Some("10.0.0.1/24")), &own));
    assert!(!is_self(&peer(Some("10.0.0.2/24")), &own));
    assert!(!is_self(&peer(Some("10.0.0.1/24")), &None));
    assert!(!is_self(&peer(None), &Some(String::new())));
    let roster = vec![peer(Some("10.0.0.1/24")), peer(Some("10.0.0.2/24")), peer(None)];
    let kept = strip_self(&roster, &own);
    assert_eq!(kept.len(), 2);
    assert_eq!(kept[0].ip, "10.0.0.2");
    assert_eq!(kept[1].ip, "");
    assert_eq!(strip_self(&roster, &None).len(), 3);
    assert_eq!(ping_targets(&roster), vec!["10.0.0.1", "10.0.0.2"]);
}

#[test]
fn latency_cache() {
    let mut cache = LatencyCache::new();
    assert_eq!(cache.get("10.0.0.2"), None);
    cache.record("10.0.0.2", 12, 100);
    cache.record("10.0.0.3", 30, 101);
    assert_eq!(cache.get("10.0.0.2"), Some((12, 100)));
    assert_eq!(cache.get("10.0.0.3"), Some((30, 101)));
    cache.record("10.0.0.2", 5, 110);
    assert_eq!(cache.get("10.0.0.2"), Some((5, 110)));
    assert_eq!(cache.get("10.0.0.3"), Some((30, 101)));
    assert_eq!(cache.get("10.0.0.4"), None);
    let next = cache.recorded("10.0.0.4", 1, 1);
    assert_eq!(next.get("10.0.0.4"), Some((1, 1)));
    assert_eq!(cache.get("10.0.0.4"), None);
    let roster = vec![peer(Some("10.0.0.2/24")), peer(Some("10.0.0.9/24"))];
    let shown = join_latency(&roster, &cache);
    assert_eq!(shown[0].latency_ms, Some(5));
    assert_eq!(shown[0].latency_at, Some(110));
    assert_eq!(shown[1].latency_ms, None);
    cache.clear();
    assert_eq!(cache.get("10.0.0.2"), None);
}

#[test]
fn ping_arguments() {
    assert_eq!(ping_args(Platform::Linux, "10.0.0.2"), vec!["-c", "1", "-W", "1", "10.0.0.2"]);
    assert_eq!(ping_args(Platform::Unix, "10.0.0.2"), vec!["-c", "1", "-W", "1", "10.0.0.2"]);
    assert_eq!(
        ping_args(Platform::Windows, "10.0.0.2"),
        vec!["-n", "1", "-w", "1000", "10.0.0.2"]
    );
}

#[test]
fn ping_output() {
    assert_eq!(
        parse_ping_latency("64 bytes from 10.0.0.2: icmp_seq=1 ttl=64 time=12.3 ms"),
        Some(12)
    );
    assert_eq!(parse_ping_latency("64 bytes from 10.0.0.2: time=0.045 ms"), Some(0));
    assert_eq!(parse_ping_latency("Reply from 10.0.0.2: bytes=32 time<1ms TTL=64"), Some(1));
    assert_eq!(parse_ping_latency("Reply from 10.0.0.2: bytes=32 time=23ms TTL=64"), Some(23));
    assert_eq!(parse_ping_latency("来自 10.0.0.2 的回复: 字节=32 时间=7ms TTL=64"), Some(7));
    assert_eq!(parse_ping_latency("来自 10.0.0.2 的回复: 字节=32 时间<1ms TTL=64"), Some(1));
    assert_eq!(parse_ping_latency("time= 5 ms"), Some(5));
    assert_eq!(parse_ping_latency("Request timed out."), None);
    assert_eq!(parse_ping_latency("time=abc"), None);
    assert_eq!(parse_ping_latency("time="), None);
    assert_eq!(parse_ping_latency(""), None);
    assert_eq!(parse_ping_latency("time=18446744073709551615"), Some(u64::MAX));
    assert_eq!(parse_ping_latency("time=18446744073709551616"), None);
    assert_eq!(parse_ping_latency("time=99999999999999999999999 ms"), None);
    assert_eq!(parse_leading_number(&chars("  42abc")), Some(42));
    assert_eq!(parse_leading_number(&chars("007")), Some(7));
    assert_eq!(parse_leading_number(&chars("x1")), None);
}

#[test]
fn graceful_stop_order() {
    let next = |platform, event| next_stop_action(platform, StopMode::Graceful, 4321, event);
    assert_eq!(next(Platform::Linux, StopEvent::Begin), StopAction::RequestStop);
    assert_eq!(next(Platform::Windows, StopEvent::Begin), StopAction::RequestStop);
    assert_eq!(next(Platform::Linux, StopEvent::CooperativeAcked), StopAction::Done(true));
    assert_eq!(
        next(Platform::Linux, StopEvent::CooperativeFailed),
        StopAction::SendSignal(Signal::Interrupt)
    );
    assert_eq!(
        next(Platform::Unix, StopEvent::CooperativeFailed),
        StopAction::SendSignal(Signal::Interrupt)
    );
    assert_eq!(
        next(Platform::Windows, StopEvent::CooperativeFailed),
        StopAction::RunCommand(vec![
            "taskkill".to_string(),
            "/PID".to_string(),
            "4321".to_string()
        ])
    );
    assert_eq!(next(Platform::Linux, StopEvent::SignalDelivered), StopAction::Done(true));
    assert_eq!(
        next(Platform::Linux, StopEvent::SignalRejected),
        StopAction::RunCommand(vec![
            "pkexec".to_string(),
            "kill".to_string(),
            "-SIGINT".to_string(),
            "4321".to_string()
        ])
    );
    assert_eq!(next(Platform::Unix, StopEvent::SignalRejected), StopAction::Done(false));
    assert_eq!(next(Platform::Linux, StopEvent::CommandSucceeded), StopAction::Done(true));
    assert_eq!(next(Platform::Linux, StopEvent::CommandFailed), StopAction::Done(false));
}

#[test]
fn forced_stop_order() {
    let next = |platform, event| next_stop_action(platform, StopMode::Forced, 77, event);
    assert_eq!(next(Platform::Linux, StopEvent::Begin), StopAction::SendSignal(Signal::Kill));
    assert_eq!(
        next(Platform::Windows, StopEvent::Begin),
        StopAction::RunCommand(vec![
            "taskkill".to_string(),
            "/T".to_string(),
            "/F".to_string(),
            "/PID".to_string(),
            "77".to_string()
        ])
    );
    assert_eq!(
        next(Platform::Linux, StopEvent::SignalRejected),
        StopAction::RunCommand(vec![
            "pkexec".to_string(),
            "kill".to_string(),
            "-9".to_string(),
            "77".to_string()
        ])
    );
    assert_eq!(next(Platform::Unix, StopEvent::SignalRejected), StopAction::AwaitExit);
    assert_eq!(next(Platform::Linux, StopEvent::SignalDelivered), StopAction::AwaitExit);
    assert_eq!(next(Platform::Linux, StopEvent::CommandFailed), StopAction::AwaitExit);
    assert_eq!(next(Platform::Windows, StopEvent::CommandSucceeded), StopAction::AwaitExit);
}

#[test]
fn waiting_for_exit() {
    assert_eq!(wait_child_exit(true, 0, 3000), WaitDecision::Exited);
    assert_eq!(wait_child_exit(true, 5000, 3000), WaitDecision::Exited);
    assert_eq!(wait_child_exit(false, 0, 3000), WaitDecision::Sleep(100));
    assert_eq!(wait_child_exit(false, 2999, 3000), WaitDecision::Sleep(100));
    assert_eq!(wait_child_exit(false, 3000, 3000), WaitDecision::TimedOut);
}
