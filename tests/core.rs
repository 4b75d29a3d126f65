use port_kill::coordinator::{job_for_action, KillJob, KillState, RefreshPolicy};
use port_kill::discovery::{discover, kill_all_targets, listing_args, single_kill_allowed, trim_text};
use port_kill::ignore::{filter, IgnoreSet, NameSet};
use port_kill::listing::{parse_listing, parse_listing_ports};
use port_kill::process::ProcessInfo;
use port_kill::resolver::{map_menu_id_to_action, MenuAction};
use port_kill::terminator::{TerminationAction, TerminationError, TerminationEvent, Terminator, GRACE_PERIOD_MS};
use std::collections::{HashMap, HashSet};

const HEADER: &str = "COMMAND   PID USER   FD   TYPE DEVICE SIZE/OFF NODE NAME";

fn ignore(ports: &[u16], names: &[&str]) -> IgnoreSet {
    let mut process_names = NameSet::new();
    for n in names {
        process_names.insert(n.to_string());
    }
    IgnoreSet { ports: ports.iter().cloned().collect::<HashSet<u16>>(), process_names }
}

fn record(pid: i32, port: u16, name: &str) -> ProcessInfo {
    ProcessInfo {
        pid,
        port,
        command: name.to_string(),
        name: name.to_string(),
        container_id: None,
        container_name: None,
    }
}

fn listing(lines: &[&str]) -> String {
    let mut text = String::from(HEADER);
    for l in lines {
        text.push('\n');
        text.push_str(l);
    }
    text.push('\n');
    text
}

#[test]
fn scenario_discovery_with_ignored_port() {
    let args = listing_args(&vec![3000, 3001, 8080]);
    assert_eq!(args, vec!["-i", ":3000,3001,8080", "-sTCP:LISTEN", "-P", "-n"]);
    let out = listing(&[
        "node      100 dev   23u  IPv4 0x1234      0t0  TCP *:3000 (LISTEN)",
        "Figma     200 dev   30u  IPv4 0x5678      0t0  TCP 127.0.0.1:8080 (LISTEN)",
    ]);
    let snapshot = discover(Some(&out), &ignore(&[8080], &[]));
    assert_eq!(snapshot.len(), 1);
    let p = snapshot.get(&3000).unwrap();
    assert_eq!(p.pid, 100);
    assert_eq!(p.name, "node");
    assert_eq!(p.command, "node");
    assert!(p.container_id.is_none());
}

#[test]
fn listing_args_span_and_all() {
    let many: Vec<u16> = (3000..=3010).chain(8000..=8001).collect();
    assert_eq!(listing_args(&many)[1], ":3000-8001");
    let unordered = vec![9000, 1, 2, 3, 4, 5, 6, 7, 8, 65535, 10];
    assert_eq!(listing_args(&unordered)[1], ":1-65535");
    assert_eq!(listing_args(&vec![]), vec!["-i", "-sTCP:LISTEN", "-P", "-n"]);
    let ten: Vec<u16> = (1..=10).collect();
    assert_eq!(listing_args(&ten)[1], ":1,2,3,4,5,6,7,8,9,10");
    assert_eq!(listing_args(&vec![0])[1], ":0");
}

#[test]
fn parse_skips_malformed_lines() {
    let out = listing(&[
        "short line only",
        "node   abc dev 23u IPv4 0x1 0t0 TCP *:3000",
        "node   101 dev 23u IPv4 0x1 0t0 TCP *:http",
        "node   102 dev 23u IPv4 0x1 0t0 TCP *:70000",
        "ruby   +103 dev 23u IPv6 0x1 0t0 TCP [::1]:4000 (LISTEN)",
        "   python3\t104  dev 23u IPv4 0x1 0t0 TCP 10.0.0.1:+5000   ",
        "odd -7 dev 23u IPv4 0x1 0t0 TCP 5001",
        "big 2147483648 dev 23u IPv4 0x1 0t0 TCP *:5002",
        "min -2147483648 dev 23u IPv4 0x1 0t0 TCP *:5003",
    ]);
    let records = parse_listing(&out);
    let got: Vec<(i32, u16, String)> = records.iter().map(|p| (p.pid, p.port, p.name.clone())).collect();
    assert_eq!(
        got,
        vec![
            (103, 4000, "ruby".to_string()),
            (104, 5000, "python3".to_string()),
            (-7, 5001, "odd".to_string()),
            (i32::MIN, 5003, "min".to_string()),
        ]
    );
    assert!(parse_listing("").is_empty());
    assert!(parse_listing(HEADER).is_empty());
}

#[test]
fn parse_last_line_without_newline() {
    let out = format!("{}\nnode 7 u 1 IPv4 0 0 TCP *:3001", HEADER);
    let records = parse_listing(&out);
    assert_eq!(records.len(), 1);
    assert_eq!(records[0].port, 3001);
    assert_eq!(parse_listing_ports(&out), vec![3001]);
}

#[test]
fn discovery_keeps_last_listener_per_port() {
    let out = listing(&[
        "first 10 u 1 IPv4 0 0 TCP *:3000 (LISTEN)",
        "second 11 u 1 IPv6 0 0 TCP *:3000 (LISTEN)",
        "third 12 u 1 IPv4 0 0 TCP *:3001 (LISTEN)",
    ]);
    let snapshot = discover(Some(&out), &ignore(&[], &[]));
    assert_eq!(snapshot.len(), 2);
    assert_eq!(snapshot.get(&3000).unwrap().pid, 11);
    assert_eq!(snapshot.get(&3000).unwrap().name, "second");
    assert_eq!(snapshot.get(&3001).unwrap().pid, 12);
}

#[test]
fn failed_discovery_is_empty() {
    assert!(discover(None, &ignore(&[], &[])).is_empty());
    assert!(discover(Some(""), &ignore(&[], &[])).is_empty());
}

#[test]
fn filter_drops_ignored_ports_and_names_only() {
    let records = vec![
        record(1, 3000, "node"),
        record(2, 5353, "mDNS"),
        record(3, 3001, "Figma"),
        record(4, 3002, "figma"),
        record(5, 3003, "node"),
    ];
    let kept = filter(records, &ignore(&[5353], &["Figma"]));
    let pids: Vec<i32> = kept.iter().map(|p| p.pid).collect();
    assert_eq!(pids, vec![1, 4, 5]);
    assert!(filter(vec![], &ignore(&[1], &["x"])).is_empty());
}

#[test]
fn kill_all_targets_in_listing_order() {
    let out = listing(&[
        "node 300 u 1 IPv4 0 0 TCP *:3000 (LISTEN)",
        "Dropbox 301 u 1 IPv4 0 0 TCP *:3001 (LISTEN)",
        "node 300 u 1 IPv6 0 0 TCP *:3000 (LISTEN)",
        "mdns 302 u 1 IPv4 0 0 TCP *:5353 (LISTEN)",
        "vite 303 u 1 IPv4 0 0 TCP *:5173 (LISTEN)",
    ]);
    let pids = kill_all_targets(&out, &ignore(&[5353], &["Dropbox"]));
    assert_eq!(pids, vec![300, 300, 303]);
}

#[test]
fn single_kill_rechecks_name_and_ports() {
    let ig = ignore(&[5353], &["Figma"]);
    let ports_out = listing(&["node 9 u 1 IPv4 0 0 TCP *:3000 (LISTEN)"]);
    assert!(single_kill_allowed(Some("node\n"), Some(&ports_out), &ig));
    assert!(!single_kill_allowed(Some("  Figma \n"), Some(&ports_out), &ig));
    let ignored_port = listing(&["node 9 u 1 IPv4 0 0 UDP *:5353"]);
    assert!(!single_kill_allowed(Some("node"), Some(&ignored_port), &ig));
    assert!(!single_kill_allowed(None, Some(&ignored_port), &ig));
    assert!(single_kill_allowed(None, None, &ig));
    assert!(!single_kill_allowed(Some("Figma"), None, &ig));
}

#[test]
fn trim_text_strips_unicode_whitespace() {
    assert_eq!(trim_text("  node\r\n"), "node");
    assert_eq!(trim_text("\u{3000}a b\u{00A0}"), "a b");
    assert_eq!(trim_text(" \t\n"), "");
    assert_eq!(trim_text(""), "");
}

#[test]
fn scenario_resolver_ordinals() {
    let empty: HashMap<u16, ProcessInfo> = HashMap::new();
    assert_eq!(map_menu_id_to_action("0", &empty), MenuAction::KillAll);
    assert_eq!(map_menu_id_to_action("6", &empty), MenuAction::Quit);
    let unknown = map_menu_id_to_action("99", &empty);
    assert_eq!(unknown, MenuAction::Unknown);
    assert_eq!(job_for_action(unknown, &empty), KillJob::KillAll);
}

#[test]
fn resolver_legacy_table() {
    let empty: HashMap<u16, ProcessInfo> = HashMap::new();
    for id in ["3", "10", "1", "2", "4", "5", "12", "13", "14", "15", "+0", "-0", "03"] {
        assert_eq!(map_menu_id_to_action(id, &empty), MenuAction::KillAll, "{}", id);
    }
    for id in ["16", "8", "06", "+6"] {
        assert_eq!(map_menu_id_to_action(id, &empty), MenuAction::Quit, "{}", id);
    }
    for id in ["", "kill_all", "7", "11", "9", "010"] {
        assert_eq!(map_menu_id_to_action(id, &empty), MenuAction::Unknown, "{}", id);
    }
}

#[test]
fn resolver_ignores_snapshot() {
    let empty: HashMap<u16, ProcessInfo> = HashMap::new();
    let mut full: HashMap<u16, ProcessInfo> = HashMap::new();
    full.insert(3000, record(1, 3000, "node"));
    full.insert(8080, record(2, 8080, "java"));
    for id in ["0", "6", "99", "2", "kill_3000"] {
        assert_eq!(map_menu_id_to_action(id, &empty), map_menu_id_to_action(id, &full));
    }
}

#[test]
fn jobs_for_actions() {
    let mut snapshot: HashMap<u16, ProcessInfo> = HashMap::new();
    snapshot.insert(3000, record(41, 3000, "node"));
    assert_eq!(job_for_action(MenuAction::KillAll, &snapshot), KillJob::KillAll);
    assert_eq!(job_for_action(MenuAction::Quit, &snapshot), KillJob::Exit);
    assert_eq!(job_for_action(MenuAction::KillProcess(3000), &snapshot), KillJob::KillPid(41));
    assert_eq!(job_for_action(MenuAction::KillProcess(3001), &snapshot), KillJob::Nothing);
}

#[test]
fn requests_while_busy_are_dropped() {
    let mut state = KillState::new();
    assert!(!state.in_progress);
    assert!(state.try_begin());
    for _ in 0..5 {
        assert!(!state.try_begin());
        assert!(state.in_progress);
    }
    state.finish();
    assert!(!state.in_progress);
    assert!(state.try_begin());
}

fn run(pid: i32, graceful: bool, alive: Option<bool>, forced: bool) -> Vec<TerminationAction> {
    let (mut t, mut action) = Terminator::start(pid, true);
    let mut actions = vec![action];
    while !matches!(action, TerminationAction::Finish(_)) {
        let event = match action {
            TerminationAction::SendGraceful(_) => TerminationEvent::SignalSent(graceful),
            TerminationAction::Sleep(_) => TerminationEvent::Slept,
            TerminationAction::CheckLiveness(_) => TerminationEvent::Liveness(alive),
            TerminationAction::SendForced(_) => TerminationEvent::SignalSent(forced),
            TerminationAction::Finish(_) => unreachable!(),
        };
        action = t.step(event);
        actions.push(action);
    }
    actions
}

#[test]
fn scenario_graceful_exit_within_window() {
    let actions = run(42, true, Some(false), true);
    assert_eq!(
        actions,
        vec![
            TerminationAction::SendGraceful(42),
            TerminationAction::Sleep(500),
            TerminationAction::CheckLiveness(42),
            TerminationAction::Finish(Ok(())),
        ]
    );
    assert_eq!(GRACE_PERIOD_MS, 500);
}

#[test]
fn scenario_still_alive_after_window_is_forced() {
    for forced in [true, false] {
        let actions = run(43, true, Some(true), forced);
        assert_eq!(
            actions,
            vec![
                TerminationAction::SendGraceful(43),
                TerminationAction::Sleep(500),
                TerminationAction::CheckLiveness(43),
                TerminationAction::SendForced(43),
                TerminationAction::Finish(Ok(())),
            ]
        );
    }
}

#[test]
fn already_exited_process_is_not_an_error() {
    let actions = run(44, false, Some(false), false);
    assert_eq!(actions.last(), Some(&TerminationAction::Finish(Ok(()))));
    assert!(!actions.contains(&TerminationAction::SendForced(44)));
}

#[test]
fn unknown_liveness_fails() {
    let actions = run(45, true, None, true);
    assert_eq!(actions.last(), Some(&TerminationAction::Finish(Err(TerminationError::LivenessUnknown))));
}

#[test]
fn platform_without_signals_forces_once() {
    let (mut t, first) = Terminator::start(46, false);
    assert_eq!(first, TerminationAction::SendForced(46));
    assert_eq!(t.step(TerminationEvent::SignalSent(false)), TerminationAction::Finish(Ok(())));
    assert_eq!(t.step(TerminationEvent::Slept), TerminationAction::Finish(Ok(())));
}

#[test]
fn unexpected_event_repeats_pending_action() {
    let (mut t, _) = Terminator::start(47, true);
    assert_eq!(t.step(TerminationEvent::Slept), TerminationAction::SendGraceful(47));
    assert_eq!(t.step(TerminationEvent::SignalSent(true)), TerminationAction::Sleep(500));
    assert_eq!(t.step(TerminationEvent::Liveness(Some(true))), TerminationAction::Sleep(500));
}

#[test]
fn refresh_policy_gates_rebuilds() {
    let mut policy = RefreshPolicy::new(3000, 1000);
    assert!(!policy.observe(0, 10_000, false));
    assert!(!policy.observe(2, 3_999, false));
    assert!(policy.observe(2, 4_000, false));
    assert_eq!(policy.last_count, 2);
    assert_eq!(policy.last_update_ms, 4_000);
    assert!(!policy.observe(3, 20_000, true));
    assert!(policy.observe(3, 20_000, false));
    assert!(!policy.observe(5, 500, false));
}
