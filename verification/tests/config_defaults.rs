use kuma_agent::config::{
    app_data_dir, default_branch_name, default_device_name, log_file_path, logs_dir, default_interval, default_true, get_config_path,
    load_config, migrate_legacy, CheckType, Config, DeviceConfig,
};

fn device(name: &str, target: &str) -> DeviceConfig {
    DeviceConfig {
        name: name.to_string(),
        target: target.to_string(),
        check_type: CheckType::Tcp,
        port: Some(9100),
        token: "T".to_string(),
        enabled: true,
    }
}

#[test]
fn field_defaults() {
    assert_eq!(default_device_name(), "New Device");
    assert!(default_true());
    assert_eq!(default_interval(), 30);
    assert_eq!(default_branch_name(), "Main Branch");
    assert_eq!(CheckType::default(), CheckType::Icmp);
}

#[test]
fn default_config_values() {
    let c = Config::default();
    assert_eq!(c.branch_name, "Main Branch");
    assert_eq!(c.kuma_base_url, "");
    assert_eq!(c.interval_sec, 30);
    assert!(!c.autostart);
    assert!(c.enable_logging);
    assert_eq!(c.agent_push_token, "");
    assert!(c.devices.is_empty());
    assert!(c.kuma_push_url.is_none());
    assert!(c.ping_target.is_none());
}

#[test]
fn missing_settings_give_defaults() {
    let c = load_config(None);
    assert_eq!(c.branch_name, "Main Branch");
    assert_eq!(c.interval_sec, 30);
    assert!(c.devices.is_empty());
}

#[test]
fn legacy_push_url_becomes_heartbeat_token() {
    let mut c = Config::default();
    c.kuma_push_url = Some("https://k/api/push/abc?status=up".to_string());
    let m = load_config(Some(c));
    assert_eq!(m.agent_push_token, "https://k/api/push/abc?status=up");
    assert!(m.kuma_push_url.is_none());
}

#[test]
fn legacy_push_url_is_dropped_when_not_adopted() {
    let mut c = Config::default();
    c.kuma_push_url = Some("kuma.local/api/push/abc".to_string());
    let m = migrate_legacy(c);
    assert_eq!(m.agent_push_token, "");
    assert!(m.kuma_push_url.is_none());

    let mut c = Config::default();
    c.kuma_base_url = "https://k".to_string();
    c.kuma_push_url = Some("https://k/api/push/abc".to_string());
    let m = migrate_legacy(c);
    assert_eq!(m.agent_push_token, "");

    let mut c = Config::default();
    c.agent_push_token = "own".to_string();
    c.kuma_push_url = Some("https://k/api/push/abc".to_string());
    let m = migrate_legacy(c);
    assert_eq!(m.agent_push_token, "own");
}

#[test]
fn legacy_ping_target_becomes_gateway_device() {
    let mut c = Config::default();
    c.ping_target = Some("192.168.1.1".to_string());
    let m = migrate_legacy(c);
    assert_eq!(m.devices.len(), 1);
    let d = &m.devices[0];
    assert_eq!(d.name, "Gateway / Ping Target");
    assert_eq!(d.target, "192.168.1.1");
    assert_eq!(d.check_type, CheckType::Icmp);
    assert_eq!(d.port, None);
    assert_eq!(d.token, "");
    assert!(d.enabled);
    assert!(m.ping_target.is_none());
}

#[test]
fn legacy_ping_target_is_ignored_when_devices_exist() {
    let mut c = Config::default();
    c.devices.push(device("Printer", "192.168.1.160"));
    c.ping_target = Some("192.168.1.1".to_string());
    let m = migrate_legacy(c);
    assert_eq!(m.devices.len(), 1);
    assert_eq!(m.devices[0].name, "Printer");
    assert!(m.ping_target.is_none());
}

#[test]
fn migration_twice_is_migration_once() {
    let mut c = Config::default();
    c.kuma_push_url = Some("http://k/p".to_string());
    c.ping_target = Some("10.0.0.1".to_string());
    let once = migrate_legacy(c);
    let twice = migrate_legacy(once.clone());
    assert_eq!(twice.agent_push_token, once.agent_push_token);
    assert_eq!(twice.devices.len(), once.devices.len());
    assert_eq!(twice.devices[0].target, once.devices[0].target);
}

#[test]
fn settings_file_is_in_the_data_directory() {
    assert_eq!(get_config_path("/home/u/.config/KumaAgent"), "/home/u/.config/KumaAgent/config.toml");
    assert_eq!(get_config_path("/data/"), "/data/config.toml");
    assert_eq!(get_config_path(""), "config.toml");
    assert_eq!(get_config_path("relative"), "relative/config.toml");
}

#[test]
fn data_directory_location() {
    assert_eq!(app_data_dir(Some("/home/u/AppData/Roaming"), Some("/opt/agent")), "/home/u/AppData/Roaming/KumaAgent");
    assert_eq!(app_data_dir(None, Some("/opt/agent")), "/opt/agent");
    assert_eq!(app_data_dir(None, None), ".");
}

#[test]
fn log_file_location() {
    let logs = logs_dir("/data/KumaAgent");
    assert_eq!(logs, "/data/KumaAgent/logs");
    assert_eq!(log_file_path(&logs), "/data/KumaAgent/logs/agent.log");
}
