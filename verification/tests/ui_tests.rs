use macrdp::callbacks::{
    check_permissions, request_permissions, ConnectionEvent, ConnectionInfo, DisconnectionInfo, LogEntry, PermissionStatus,
    PermissionStep, ServerStatus,
};
use macrdp::ui_config::{ConfigValue, UiConfig};
use macrdp::ui_state::{apply_connection_event, preferences_url, push_log, recent_logs, tray_state, Connection, MAX_LOG_ENTRIES};

#[test]
fn ui_config_defaults() {
    let c = UiConfig::default();
    assert_eq!(c.port, 3389);
    assert_eq!(c.frame_rate, 60);
    assert_eq!(c.bitrate_mbps, 50);
    assert_eq!(c.encoder, "auto");
    assert_eq!(c.chroma_mode, "avc420");
    assert_eq!(c.bind_address, "0.0.0.0");
    assert_eq!(c.max_connections, 3);
    assert_eq!(c.username, "macrdp");
    assert_eq!(c.password, "");
    assert_eq!(c.hidpi_scale, 2);
    assert_eq!(c.log_level, "warn");
    assert_eq!(c.theme, "system");
    assert!(!c.autostart && !c.show_cursor);
}

#[test]
fn set_field_updates_and_reports_restart() {
    let mut c = UiConfig::default();
    assert_eq!(c.set_field("port", &ConfigValue::UInt(13389)), Ok(true));
    assert_eq!(c.port, 13389);
    assert_eq!(c.set_field("port", &ConfigValue::UInt(65536 + 5)), Ok(true));
    assert_eq!(c.port, 5);
    assert_eq!(c.set_field("frame_rate", &ConfigValue::UInt(120)), Ok(false));
    assert_eq!(c.frame_rate, 120);
    assert_eq!(c.set_field("bitrate_mbps", &ConfigValue::UInt(20)), Ok(false));
    assert_eq!(c.set_field("log_level", &ConfigValue::Str("debug".to_string())), Ok(false));
    assert_eq!(c.log_level, "debug");
    assert_eq!(c.set_field("theme", &ConfigValue::Str("dark".to_string())), Ok(false));
    assert_eq!(c.set_field("autostart", &ConfigValue::Bool(true)), Ok(false));
    assert!(c.autostart);
    assert_eq!(c.set_field("show_cursor", &ConfigValue::Bool(true)), Ok(true));
    assert_eq!(c.set_field("password", &ConfigValue::Str("pw".to_string())), Ok(true));
    assert_eq!(c.password, "pw");
    assert_eq!(c.set_field("idle_timeout_secs", &ConfigValue::UInt(1 << 40)), Ok(true));
    assert_eq!(c.idle_timeout_secs, 1 << 40);
    assert_eq!(c.set_field("hidpi_scale", &ConfigValue::UInt(1)), Ok(true));
    assert_eq!(c.hidpi_scale, 1);
}

#[test]
fn set_field_refusals() {
    let mut c = UiConfig::default();
    assert_eq!(c.set_field("port", &ConfigValue::Str("x".to_string())), Err("port must be a number".to_string()));
    assert_eq!(c.set_field("encoder", &ConfigValue::UInt(1)), Err("encoder must be a string".to_string()));
    assert_eq!(c.set_field("autostart", &ConfigValue::Other), Err("autostart must be a boolean".to_string()));
    assert_eq!(c.set_field("nope", &ConfigValue::Bool(true)), Err("unknown config key: nope".to_string()));
    assert_eq!(c.port, 3389);
    assert_eq!(c.encoder, "auto");
    assert!(!c.autostart);
}

#[test]
fn to_server_config_fields() {
    let mut c = UiConfig::default();
    let s = c.to_server_config();
    assert_eq!(s.port, 3389);
    assert_eq!(s.width, 0);
    assert_eq!(s.username.as_deref(), Some("macrdp"));
    assert!(s.password.is_none());
    assert_eq!(s.encoder.as_deref(), Some("auto"));
    assert_eq!(s.chroma_mode.as_deref(), Some("avc420"));
    assert_eq!(s.hidpi_scale, Some(2));
    assert_eq!(s.bitrate_mbps, Some(50));
    assert_eq!(s.log_level.as_deref(), Some("warn"));
    assert!(s.quality.is_none());
    c.set_field("password", &ConfigValue::Str("secret".to_string())).unwrap();
    assert_eq!(c.to_server_config().password.as_deref(), Some("secret"));
}

#[test]
fn server_status_default() {
    let s = ServerStatus::default();
    assert!(!s.running);
    assert_eq!(s.state, "stopped");
    assert_eq!(s.uptime_secs, 0);
}

#[test]
fn permission_request_flow() {
    assert_eq!(check_permissions(true, false), PermissionStatus { screen_capture: true, accessibility: false, microphone: false });
    // Everything granted: two checks, then the final two.
    let mut step = PermissionStep::start();
    let mut seen = vec![];
    for answer in [true, true, true, true] {
        seen.push(step);
        step = request_permissions(step, answer);
    }
    assert_eq!(seen, vec![PermissionStep::CheckScreen, PermissionStep::CheckAccessibility, PermissionStep::FinalCheckScreen, PermissionStep::FinalCheckAccessibility { screen_capture: true }]);
    assert_eq!(step, PermissionStep::Done(PermissionStatus { screen_capture: true, accessibility: true, microphone: false }));
    // Nothing granted: request, recheck, open settings for each.
    let mut step = PermissionStep::start();
    let mut n = 0;
    while !matches!(step, PermissionStep::Done(_)) {
        step = request_permissions(step, false);
        n += 1;
    }
    assert_eq!(n, 10);
    assert_eq!(step, PermissionStep::Done(PermissionStatus::default()));
}

fn conn(ip: &str) -> ConnectionEvent {
    ConnectionEvent::Connected(ConnectionInfo { client_ip: ip.to_string(), client_name: format!("pc-{ip}"), connected_at: "now".to_string() })
}

#[test]
fn connections_follow_events() {
    let mut list: Vec<Connection> = vec![];
    apply_connection_event(&mut list, &conn("10.0.0.1"));
    apply_connection_event(&mut list, &conn("10.0.0.2"));
    apply_connection_event(&mut list, &conn("10.0.0.1"));
    assert_eq!(list.len(), 3);
    assert_eq!(list[1].client_name, "pc-10.0.0.2");
    assert_eq!(list[0].bytes_total, 0);
    apply_connection_event(
        &mut list,
        &ConnectionEvent::Disconnected(DisconnectionInfo { client_ip: "10.0.0.1".to_string(), client_name: String::new(), duration_secs: 5, bytes_total: 9 }),
    );
    assert_eq!(list.len(), 1);
    assert_eq!(list[0].client_ip, "10.0.0.2");
}

fn entry(i: usize) -> LogEntry {
    LogEntry { level: "info".to_string(), message: format!("m{i}"), timestamp: i.to_string() }
}

#[test]
fn log_is_bounded_and_read_newest_first() {
    let mut logs = std::collections::VecDeque::new();
    for i in 0..MAX_LOG_ENTRIES + 3 {
        push_log(&mut logs, entry(i));
    }
    assert_eq!(logs.len(), MAX_LOG_ENTRIES);
    assert_eq!(logs[0].message, "m3");
    let recent = recent_logs(&logs, Some(2));
    assert_eq!(recent.len(), 2);
    assert_eq!(recent[0].message, format!("m{}", MAX_LOG_ENTRIES + 2));
    assert_eq!(recent[1].message, format!("m{}", MAX_LOG_ENTRIES + 1));
    assert_eq!(recent_logs(&logs, None).len(), 100);
    let few: std::collections::VecDeque<LogEntry> = vec![entry(0), entry(1)].into();
    let r = recent_logs(&few, Some(10));
    assert_eq!(r.len(), 2);
    assert_eq!(r[0].message, "m1");
}

#[test]
fn tray_and_preferences() {
    assert_eq!(tray_state(1), "connected");
    assert_eq!(tray_state(0), "running");
    assert_eq!(preferences_url("screen_capture"), Ok("x-apple.systempreferences:com.apple.preference.security?Privacy_ScreenCapture"));
    assert_eq!(preferences_url("screen_recording"), preferences_url("screen_capture"));
    assert_eq!(preferences_url("accessibility"), Ok("x-apple.systempreferences:com.apple.preference.security?Privacy_Accessibility"));
    assert_eq!(preferences_url("microphone"), Ok("x-apple.systempreferences:com.apple.preference.security?Privacy_Microphone"));
    assert_eq!(preferences_url("camera"), Err("Unknown preferences pane: camera".to_string()));
}
