use kuma_agent::config::{CheckType, Config, DeviceConfig};
use kuma_agent::monitor::{
    device_report, heartbeat_probe_target, heartbeat_report, icmp_result, lookup_address, lookup_host, pick_ipv4, plan_check, plan_cycle,
    tcp_address, tcp_result, CheckPlan, HeartbeatPlan, IcmpOutcome, TcpOutcome, DEFAULT_TCP_PORT,
    DEVICE_TIMEOUT_MS, HEARTBEAT_TIMEOUT_MS, MIN_INTERVAL_SEC,
};

fn device(name: &str, target: &str, enabled: bool, token: &str) -> DeviceConfig {
    DeviceConfig {
        name: name.to_string(),
        target: target.to_string(),
        check_type: CheckType::Icmp,
        port: None,
        token: token.to_string(),
        enabled,
    }
}

#[test]
fn constants() {
    assert_eq!(DEVICE_TIMEOUT_MS, 2000);
    assert_eq!(HEARTBEAT_TIMEOUT_MS, 2000);
    assert_eq!(DEFAULT_TCP_PORT, 9100);
    assert_eq!(MIN_INTERVAL_SEC, 5);
    assert_eq!(heartbeat_probe_target(), "1.1.1.1");
}

#[test]
fn blank_target_is_offline_at_once() {
    match plan_check("   ", CheckType::Tcp, Some(80), 2000) {
        CheckPlan::Done { online, latency_ms, message } => {
            assert!(!online);
            assert_eq!(latency_ms, 0);
            assert_eq!(message, "Target address is empty");
        }
        other => panic!("unexpected plan {:?}", other),
    }
}

#[test]
fn icmp_check_truncates_timeout() {
    match plan_check(" 192.168.1.1 ", CheckType::Icmp, Some(80), 2000) {
        CheckPlan::Icmp { target, timeout_ms } => {
            assert_eq!(target, " 192.168.1.1 ");
            assert_eq!(timeout_ms, 2000);
        }
        other => panic!("unexpected plan {:?}", other),
    }
    match plan_check("h", CheckType::Icmp, None, (1u64 << 32) + 7) {
        CheckPlan::Icmp { timeout_ms, .. } => assert_eq!(timeout_ms, 7),
        other => panic!("unexpected plan {:?}", other),
    }
}

#[test]
fn tcp_check_defaults_to_printer_port() {
    match plan_check("printer", CheckType::Tcp, None, 2000) {
        CheckPlan::Tcp { target, port, timeout } => {
            assert_eq!(target, "printer");
            assert_eq!(port, 9100);
            assert_eq!(timeout, 2000);
        }
        other => panic!("unexpected plan {:?}", other),
    }
    match plan_check("rdp", CheckType::Tcp, Some(3389), 10) {
        CheckPlan::Tcp { port, .. } => assert_eq!(port, 3389),
        other => panic!("unexpected plan {:?}", other),
    }
}

#[test]
fn tcp_address_is_trimmed_target_and_port() {
    assert_eq!(tcp_address("  192.168.1.160 ", 9100), "192.168.1.160:9100");
    assert_eq!(tcp_address("pos", 0), "pos:0");
}

#[test]
fn icmp_results() {
    assert_eq!(icmp_result("nowhere", IcmpOutcome::Unresolved), (false, 0, "Could not resolve host 'nowhere'".to_string()));
    assert_eq!(
        icmp_result("x", IcmpOutcome::HandleUnavailable),
        (false, 0, "Failed to initialize Windows ICMP handle".to_string())
    );
    assert_eq!(
        icmp_result("x", IcmpOutcome::Reply { status: 0, round_trip_ms: 0 }),
        (true, 1, "Echo reply received (1 ms)".to_string())
    );
    assert_eq!(
        icmp_result("x", IcmpOutcome::Reply { status: 0, round_trip_ms: 23 }),
        (true, 23, "Echo reply received (23 ms)".to_string())
    );
    assert_eq!(
        icmp_result("x", IcmpOutcome::Reply { status: 11010, round_trip_ms: 5 }),
        (false, 0, "ICMP status error: 11010".to_string())
    );
    assert_eq!(icmp_result("x", IcmpOutcome::NoReply), (false, 0, "Request timed out".to_string()));
    assert_eq!(
        icmp_result("x", IcmpOutcome::TaskFailed { detail: "panicked".to_string() }),
        (false, 0, "Task error: panicked".to_string())
    );
}

#[test]
fn tcp_results() {
    assert_eq!(tcp_result(9100, 0, TcpOutcome::Connected), (true, 1, "Port 9100 open (1 ms)".to_string()));
    assert_eq!(tcp_result(80, 42, TcpOutcome::Connected), (true, 42, "Port 80 open (42 ms)".to_string()));
    assert_eq!(
        tcp_result(80, 42, TcpOutcome::Failed { detail: "os error 111".to_string() }),
        (false, 0, "Connection refused: os error 111".to_string())
    );
    assert_eq!(
        tcp_result(3389, 2001, TcpOutcome::TimedOut),
        (false, 0, "Connection to port 3389 timed out".to_string())
    );
}

#[test]
fn cycle_checks_enabled_devices_with_targets_in_order() {
    let mut c = Config::default();
    c.devices.push(device("a", "10.0.0.1", true, "A"));
    c.devices.push(device("b", "10.0.0.2", false, "B"));
    c.devices.push(device("c", "  ", true, "C"));
    c.devices.push(device("d", "10.0.0.4", true, ""));
    let p = plan_cycle(&c);
    let names: Vec<&str> = p.devices.iter().map(|d| d.name.as_str()).collect();
    assert_eq!(names, vec!["a", "d"]);
}

#[test]
fn cycle_pause_is_at_least_five_seconds() {
    let mut c = Config::default();
    c.interval_sec = 0;
    assert_eq!(plan_cycle(&c).sleep_secs, 5);
    c.interval_sec = 4;
    assert_eq!(plan_cycle(&c).sleep_secs, 5);
    c.interval_sec = 5;
    assert_eq!(plan_cycle(&c).sleep_secs, 5);
    c.interval_sec = 30;
    assert_eq!(plan_cycle(&c).sleep_secs, 30);
}

#[test]
fn heartbeat_only_with_agent_token() {
    let mut c = Config::default();
    c.kuma_base_url = "https://k".to_string();
    assert!(plan_cycle(&c).heartbeat.is_none());
    c.agent_push_token = " \t".to_string();
    assert!(plan_cycle(&c).heartbeat.is_none());
    c.agent_push_token = "HOST".to_string();
    c.branch_name = "Downtown".to_string();
    let p = plan_cycle(&c);
    let h = p.heartbeat.expect("heartbeat planned");
    assert_eq!(h.token, "HOST");
    assert_eq!(h.branch_name, "Downtown");
    assert_eq!(p.kuma_base_url, "https://k");
}

#[test]
fn heartbeat_reports_are_always_up() {
    let plan = HeartbeatPlan { token: "HOST".to_string(), branch_name: "Downtown".to_string() };
    let r = heartbeat_report(&plan, true, 17);
    assert!(r.is_up);
    assert_eq!(r.latency_ms, 17);
    assert_eq!(r.msg, "Downtown (Agent Online)");
    assert_eq!(r.token, "HOST");
    let r = heartbeat_report(&plan, false, 0);
    assert!(r.is_up);
    assert_eq!(r.msg, "Agent (Degraded)");
}

#[test]
fn device_reports() {
    let d = device("a", "10.0.0.1", true, "TOK");
    let r = device_report(&d, true, 3, "Port 9100 open (3 ms)").expect("report");
    assert_eq!(r.token, "TOK");
    assert!(r.is_up);
    assert_eq!(r.latency_ms, 3);
    assert_eq!(r.msg, "OK");
    let r = device_report(&d, false, 0, "Request timed out").expect("report");
    assert!(!r.is_up);
    assert_eq!(r.msg, "Request timed out");
    let blank = device("b", "10.0.0.2", true, "  ");
    assert!(device_report(&blank, true, 1, "x").is_none());
}

#[test]
fn first_ipv4_address_is_picked() {
    assert_eq!(pick_ipv4(&vec![]), None);
    assert_eq!(pick_ipv4(&vec![None, None]), None);
    assert_eq!(
        pick_ipv4(&vec![None, Some([192, 168, 1, 1]), Some([10, 0, 0, 1])]),
        Some([192, 168, 1, 1])
    );
}

#[test]
fn lookup_uses_trimmed_target() {
    assert_eq!(lookup_host("  printer.local \n"), "printer.local");
    assert_eq!(lookup_address(" 10.0.0.5 "), "10.0.0.5:80");
}
