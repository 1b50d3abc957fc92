use n2n_maid::config::N2NConfig;
use n2n_maid::launch::{Platform, StartError};
use n2n_maid::mgmt::{MgmtTimestamps, PollAction};
use n2n_maid::notice::Notice;
use n2n_maid::peers::PeerNodeInfo;
use n2n_maid::process::{N2NProcess, StopError};
use n2n_maid::status::{ConnectionStatus, NetworkInfo};
use n2n_maid::stream::Channel;

const ANNOUNCE: &str =
    "created local tap device IP: 10.0.0.1, Mask: 255.255.255.0, MAC: C6:D2:CB:35:42:85";
const BUSY: &str = "ERROR: tuntap ioctl(TUNSETIFF, IFF_TAP) error: Device or resource busy[-1]";

fn valid_config() -> N2NConfig {
    let mut config = N2NConfig::default();
    config.supernode = "vpn.example.com:7777".to_string();
    config.community = "home".to_string();
    config.username = "laptop".to_string();
    config
}

fn started() -> N2NProcess {
    let mut process = N2NProcess::new();
    process
        .start_with(&valid_config(), "host", "edge", true)
        .expect("a valid configuration starts");
    process
}

fn peer(name: &str, addr: &str) -> PeerNodeInfo {
    PeerNodeInfo::from_row(
        Some(name.to_string()),
        Some(addr.to_string()),
        None,
        Some("p2p".to_string()),
        Some(1000),
        Some(false),
    )
}

fn heartbeat(start_time: u64, last_super: u64, last_p2p: u64) -> MgmtTimestamps {
    MgmtTimestamps { start_time, last_super, last_p2p }
}

#[test]
fn test_process_creation() {
    let process = N2NProcess::new();
    assert_eq!(process.status(), ConnectionStatus::Disconnected);
    assert!(!process.is_running());
}

#[test]
fn new_process_knows_nothing() {
    let process = N2NProcess::new();
    assert!(!process.stop_requested());
    assert_eq!(process.notice(), None);
    assert_eq!(process.network_info(), None);
    assert!(process.auto_reconnect().is_none());
    assert!(process.peers_snapshot().is_empty());
    assert!(process.ping_targets().is_empty());
    assert_eq!(process.mgmt_state().timestamps, None);
    assert_eq!(process.derived_status(100), ConnectionStatus::Disconnected);
    assert_eq!(process.derived_notice(100), None);
    assert_eq!(process.status_poll_action(), PollAction::Exit);
    assert_eq!(process.peer_poll_action(100), PollAction::Exit);
}

#[test]
fn start_gives_the_plan_and_connects() {
    let mut process = N2NProcess::new();
    let mut config = valid_config();
    config.edge_path = Some("/opt/n2n/edge".to_string());
    let plan = process.start_with(&config, "host", "edge", true).unwrap();
    assert_eq!(plan.program, "/opt/n2n/edge");
    assert_eq!(
        plan.args,
        vec![
            "-f", "-c", "home", "-l", "vpn.example.com:7777", "-I", "laptop", "-a",
            "dhcp:0.0.0.0", "-M", "1290"
        ]
    );
    assert!(process.is_running());
    assert_eq!(process.status(), ConnectionStatus::Connecting);
    assert!(!process.stop_requested());
    assert_eq!(process.auto_reconnect().unwrap().supernode, "vpn.example.com:7777");
    assert_eq!(process.status_poll_action(), PollAction::Query);
    assert_eq!(process.peer_poll_action(5), PollAction::Idle(1000));
}

#[test]
fn start_uses_default_program_without_edge_path() {
    let mut process = N2NProcess::new();
    let plan = process.start_with(&valid_config(), "host", "./bin/edge", false).unwrap();
    assert_eq!(plan.program, "./bin/edge");
    assert_eq!(plan.args[0], "-c");
}

#[test]
fn start_on_this_machine() {
    let mut process = N2NProcess::new();
    let plan = process.start(&valid_config(), Platform::Linux).unwrap();
    assert!(plan.program == "edge" || plan.program == "./bin/edge");
    assert_eq!(plan.args[0], "-f");
    assert_eq!(process.status(), ConnectionStatus::Connecting);

    let mut process = N2NProcess::new();
    let mut config = valid_config();
    config.username = String::new();
    let plan = process.start(&config, Platform::Windows).unwrap();
    assert_eq!(plan.program, "bin/edge.exe");
    assert_eq!(plan.args[0], "-c");
    assert_eq!(plan.args[5], "n2n-maid");
}

#[test]
fn start_while_running_changes_nothing() {
    let mut process = started();
    process.on_output_line(Channel::Stdout, ANNOUNCE);
    process.on_output_line(Channel::Stdout, BUSY);
    let before = (
        process.status(),
        process.notice(),
        process.network_info(),
        process.stop_requested(),
    );
    let mut other = valid_config();
    other.supernode = "other.example.com:1".to_string();
    assert_eq!(
        process.start_with(&other, "host", "edge", true),
        Err(StartError::AlreadyRunning)
    );
    assert_eq!(process.start(&other, Platform::Linux), Err(StartError::AlreadyRunning));
    assert!(process.is_running());
    assert_eq!(
        (
            process.status(),
            process.notice(),
            process.network_info(),
            process.stop_requested()
        ),
        before
    );
    assert_eq!(process.auto_reconnect().unwrap().supernode, "vpn.example.com:7777");
}

#[test]
fn start_without_port_is_an_error() {
    let mut process = N2NProcess::new();
    let mut config = valid_config();
    config.supernode = "vpn.example.com".to_string();
    assert_eq!(process.start(&config, Platform::Linux), Err(StartError::BadSupernode));
    assert!(!process.is_running());
    assert_eq!(
        process.status(),
        ConnectionStatus::Error(
            "Supernode 地址格式错误，必须包含端口号（如 vpn.example.com:7777）".to_string()
        )
    );
    assert!(process.auto_reconnect().is_none());
    // an error is a state from which a fresh start is accepted
    assert!(process.start(&valid_config(), Platform::Linux).is_ok());
    assert_eq!(process.status(), ConnectionStatus::Connecting);
}

#[test]
fn spawn_failure_is_an_error() {
    let mut process = started();
    process.on_spawn_failed("No such file or directory");
    assert!(!process.is_running());
    assert_eq!(
        process.status(),
        ConnectionStatus::Error("No such file or directory".to_string())
    );
    let mut idle = N2NProcess::new();
    idle.on_spawn_failed("late");
    assert_eq!(idle.status(), ConnectionStatus::Disconnected);
}

#[test]
fn output_lines_are_logged_and_read() {
    let mut process = started();
    assert_eq!(process.on_output_line(Channel::Stdout, ANNOUNCE), format!("[OUT] {}", ANNOUNCE));
    assert_eq!(
        process.network_info(),
        Some(NetworkInfo {
            ip: "10.0.0.1".to_string(),
            mask: "255.255.255.0".to_string(),
            mac: "C6:D2:CB:35:42:85".to_string(),
        })
    );
    // captured once
    process.on_output_line(
        Channel::Stdout,
        "created local tap device IP: 10.9.9.9, Mask: 255.0.0.0, MAC: 00:00",
    );
    assert_eq!(process.network_info().unwrap().ip, "10.0.0.1");

    assert_eq!(process.on_output_line(Channel::Stderr, BUSY), format!("[ERR] {}", BUSY));
    assert_eq!(process.notice(), Some(Notice::InterfaceBusy));
    // a notice does not stop the process or change the status
    assert!(process.is_running());
    assert_eq!(process.status(), ConnectionStatus::Connecting);
    // a calm line keeps the notice
    process.on_output_line(Channel::Stdout, "still trying");
    assert_eq!(process.notice(), Some(Notice::InterfaceBusy));
}

#[test]
fn legacy_marker_connects_and_clears_notice() {
    let mut process = started();
    process.on_output_line(Channel::Stdout, ANNOUNCE);
    process.on_output_line(Channel::Stdout, BUSY);
    process.on_output_line(Channel::Stdout, "[OK] edge <<< ================ >>> supernode");
    match process.status() {
        ConnectionStatus::Connected(Some(info)) => assert_eq!(info.ip, "10.0.0.1"),
        other => panic!("unexpected status {:?}", other),
    }
    assert_eq!(process.notice(), None);
    // without a heartbeat the observed status stands
    assert_eq!(process.derived_status(50), process.status());
}

#[test]
fn lines_change_nothing_while_stopping_or_idle() {
    let mut process = started();
    process.stop().unwrap();
    assert_eq!(process.on_output_line(Channel::Stderr, BUSY), format!("[ERR] {}", BUSY));
    assert_eq!(process.notice(), None);
    process.on_output_line(Channel::Stdout, "edge started");
    assert_eq!(process.status(), ConnectionStatus::Disconnecting);
    process.on_output_line(Channel::Stdout, ANNOUNCE);
    assert_eq!(process.network_info(), None);

    let mut idle = N2NProcess::new();
    idle.on_output_line(Channel::Stdout, BUSY);
    assert_eq!(idle.notice(), None);
    assert_eq!(idle.status(), ConnectionStatus::Disconnected);
}

#[test]
fn unexpected_exit_is_an_error_with_the_notice() {
    let mut process = started();
    process.on_output_line(Channel::Stderr, BUSY);
    assert_eq!(process.on_child_exit(), "[WARN] N2N 进程意外退出...");
    assert!(!process.is_running());
    assert_eq!(process.status(), ConnectionStatus::Error("interface-busy".to_string()));
    assert_eq!(process.notice(), Some(Notice::InterfaceBusy));

    let mut process = started();
    process.on_child_exit();
    assert_eq!(process.status(), ConnectionStatus::Error("process exited".to_string()));

    let mut process = started();
    process.on_output_line(Channel::Stderr, "ERROR: odd thing");
    process.on_child_exit();
    assert_eq!(process.status(), ConnectionStatus::Error("ERROR: odd thing".to_string()));
}

#[test]
fn exit_of_an_idle_process_changes_nothing() {
    let mut process = N2NProcess::new();
    process.on_child_exit();
    assert_eq!(process.status(), ConnectionStatus::Disconnected);
    assert!(!process.is_running());
}

#[test]
fn stop_when_not_running_fails_cleanly() {
    let mut process = N2NProcess::new();
    assert_eq!(process.stop(), Err(StopError::NotRunning));
    assert_eq!(process.stop_force(), Err(StopError::NotRunning));
    assert_eq!(process.status(), ConnectionStatus::Disconnected);
    assert!(!process.stop_requested());
    assert_eq!(StopError::NotRunning.message(), "N2N 进程未运行");
}

#[test]
fn stop_twice_in_a_row() {
    let mut process = started();
    process.on_output_line(Channel::Stderr, BUSY);
    assert_eq!(process.stop(), Ok(()));
    let after_first = (
        process.is_running(),
        process.status(),
        process.stop_requested(),
        process.notice(),
    );
    assert_eq!(after_first, (true, ConnectionStatus::Disconnecting, true, None));
    assert_eq!(process.stop(), Ok(()));
    assert_eq!(
        (
            process.is_running(),
            process.status(),
            process.stop_requested(),
            process.notice()
        ),
        after_first
    );
    process.on_child_exit();
    assert_eq!(process.stop(), Err(StopError::NotRunning));
    assert_eq!(process.status(), ConnectionStatus::Disconnected);
}

#[test]
fn stop_clears_caches_and_reconnect_config() {
    let mut process = started();
    process.record_mgmt_poll(Ok(heartbeat(100, 190, 0)));
    process.record_roster(&vec![peer("a", "10.0.0.2/24")]);
    process.record_latency("10.0.0.2", 12, 195);
    assert_eq!(process.peers_snapshot().len(), 1);
    process.stop().unwrap();
    assert!(process.peers_snapshot().is_empty());
    assert_eq!(process.mgmt_state().timestamps, None);
    assert!(!process.mgmt_is_connected(195));
    assert!(process.auto_reconnect().is_none());
    assert_eq!(process.status_poll_action(), PollAction::Exit);
    assert_eq!(process.peer_poll_action(195), PollAction::Exit);
    // a late poll result is dropped
    process.record_mgmt_poll(Ok(heartbeat(100, 196, 0)));
    process.record_roster(&vec![peer("a", "10.0.0.2/24")]);
    process.record_latency("10.0.0.2", 12, 195);
    assert_eq!(process.mgmt_state().timestamps, None);
    assert!(process.peers_snapshot().is_empty());
}

#[test]
fn forced_stop_disconnects_whatever_the_wait_brought() {
    let mut process = started();
    process.on_output_line(Channel::Stderr, BUSY);
    assert_eq!(process.stop_force(), Ok(()));
    assert!(process.stop_requested());
    assert_eq!(process.notice(), None);
    assert_eq!(process.status(), ConnectionStatus::Connecting);
    process.finish_stop_force(false);
    assert_eq!(process.status(), ConnectionStatus::Disconnected);
    assert!(process.is_running());
    // the monitor sees the exit later
    assert_eq!(process.on_child_exit(), "[INFO] N2N 进程已断开");
    assert!(!process.is_running());
    assert_eq!(process.status(), ConnectionStatus::Disconnected);

    let mut process = started();
    process.stop_force().unwrap();
    process.finish_stop_force(true);
    assert_eq!(process.status(), ConnectionStatus::Disconnected);
    assert!(!process.is_running());
    assert!(process.start_with(&valid_config(), "host", "edge", true).is_ok());
    assert!(!process.stop_requested());
}

#[test]
fn silent_supernode_after_grace_period() {
    let mut process = started();
    process.record_mgmt_poll(Ok(heartbeat(1000, 0, 0)));
    assert!(!process.mgmt_is_connected(1031));
    assert_eq!(process.derived_status(1031), ConnectionStatus::Connecting);
    assert_eq!(process.derived_notice(1031), Some(Notice::RendezvousUnreachable));
    assert_eq!(process.derived_notice(1031).unwrap().code(), "rendezvous-unreachable");
    // exactly thirty seconds is not yet more than thirty
    assert_eq!(process.derived_notice(1030), None);
    // the observed status is untouched
    assert_eq!(process.status(), ConnectionStatus::Connecting);
    // a legacy marker does not get past the heartbeat either
    process.on_output_line(Channel::Stdout, "edge started");
    assert_eq!(process.status(), ConnectionStatus::Connected(None));
    assert_eq!(process.derived_status(1031), ConnectionStatus::Connecting);
}

#[test]
fn silent_supernode_but_fresh_peer_is_connected() {
    let mut process = started();
    process.record_mgmt_poll(Ok(heartbeat(1000, 0, 1060)));
    assert!(process.mgmt_is_connected(1061));
    assert_eq!(process.derived_status(1061), ConnectionStatus::Connected(None));
    assert_eq!(process.derived_notice(1061), None);
}

#[test]
fn fresh_supernode_contact_connects_without_any_marker() {
    let mut process = started();
    process.on_output_line(Channel::Stdout, ANNOUNCE);
    process.record_mgmt_poll(Ok(heartbeat(1000, 1090, 0)));
    assert!(process.mgmt_is_connected(1090));
    assert!(process.mgmt_is_connected(1105));
    assert!(!process.mgmt_is_connected(1106));
    assert_eq!(process.status(), ConnectionStatus::Connecting);
    match process.derived_status(1100) {
        ConnectionStatus::Connected(Some(info)) => assert_eq!(info.ip, "10.0.0.1"),
        other => panic!("unexpected status {:?}", other),
    }
    assert_eq!(process.derived_status(1106), ConnectionStatus::Connecting);
    assert_eq!(process.peer_poll_action(1100), PollAction::Query);
    assert_eq!(process.peer_poll_action(1106), PollAction::Idle(1000));
}

#[test]
fn failed_poll_keeps_heartbeat_and_remembers_error() {
    let mut process = started();
    process.record_mgmt_poll(Ok(heartbeat(1000, 1090, 0)));
    process.record_mgmt_poll(Err("timeout".to_string()));
    let state = process.mgmt_state();
    assert_eq!(state.timestamps, Some(heartbeat(1000, 1090, 0)));
    assert_eq!(state.last_error, Some("timeout".to_string()));
    assert!(process.mgmt_is_connected(1100));
    // a transport error is never a fatal status
    assert_eq!(process.status(), ConnectionStatus::Connecting);
    process.record_mgmt_poll(Ok(heartbeat(1000, 1101, 0)));
    assert_eq!(process.mgmt_state().last_error, None);
}

#[test]
fn latency_joins_the_roster_at_snapshot() {
    let mut process = started();
    process.record_roster(&vec![
        peer("a", "10.0.0.2/24"),
        peer("b", "10.0.0.3/24"),
        peer("c", "10.0.0.2"),
    ]);
    process.record_latency("10.0.0.2", 12, 2000);
    process.record_latency("10.0.0.9", 99, 2000);
    let shown = process.peers_snapshot();
    assert_eq!(shown.len(), 3);
    assert_eq!(shown[0].ip, "10.0.0.2");
    assert_eq!(shown[0].latency_ms, Some(12));
    assert_eq!(shown[0].latency_at, Some(2000));
    assert_eq!(shown[1].ip, "10.0.0.3");
    assert_eq!(shown[1].latency_ms, None);
    assert_eq!(shown[1].latency_at, None);
    assert_eq!(shown[2].latency_ms, Some(12));
    assert_eq!(shown[0].name, Some("a".to_string()));
    // a newer measurement replaces the older one
    process.record_latency("10.0.0.2", 7, 2005);
    let shown = process.peers_snapshot();
    assert_eq!(shown[0].latency_ms, Some(7));
    assert_eq!(shown[0].latency_at, Some(2005));
    // a new roster keeps the cache
    process.record_roster(&vec![peer("b", "10.0.0.3/24"), peer("a", "10.0.0.2/24")]);
    let shown = process.peers_snapshot();
    assert_eq!(shown[1].latency_ms, Some(7));
    assert_eq!(process.ping_targets(), vec!["10.0.0.3", "10.0.0.2"]);
}

#[test]
fn roster_drops_this_node() {
    let mut process = started();
    process.on_output_line(Channel::Stdout, ANNOUNCE);
    process.record_roster(&vec![
        peer("me", "10.0.0.1/24"),
        peer("a", "10.0.0.2/24"),
        peer("me-again", "10.0.0.1"),
    ]);
    let shown = process.peers_snapshot();
    assert_eq!(shown.len(), 1);
    assert_eq!(shown[0].name, Some("a".to_string()));
}

#[test]
fn whole_session() {
    let mut process = N2NProcess::new();
    assert_eq!(process.status(), ConnectionStatus::Disconnected);
    process.start(&valid_config(), Platform::Linux).unwrap();
    assert_eq!(process.status(), ConnectionStatus::Connecting);
    process.on_output_line(Channel::Stderr, "WARNING: supernode not responding");
    assert_eq!(process.notice(), Some(Notice::RendezvousUnreachable));
    process.record_mgmt_poll(Ok(heartbeat(500, 510, 0)));
    assert_eq!(process.derived_status(512), ConnectionStatus::Connected(None));
    assert_eq!(process.derived_notice(512), None);
    process.stop().unwrap();
    assert_eq!(process.status(), ConnectionStatus::Disconnecting);
    assert_eq!(process.derived_status(513), ConnectionStatus::Disconnecting);
    assert!(process.stop_requested());
    process.on_child_exit();
    assert_eq!(process.status(), ConnectionStatus::Disconnected);
    assert_eq!(process.derived_status(514), ConnectionStatus::Disconnected);
    assert_eq!(process.notice(), None);
    assert_eq!(process.derived_notice(514), None);
    assert!(!process.is_running());
}
