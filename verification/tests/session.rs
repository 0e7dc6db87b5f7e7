use sms_reader::app::control::{
    client_connected, client_disconnected, fetch_sms_request, observe_devices, select_device,
    select_after_restart, server_bind_failed, server_listening, should_close_on_switch,
    stale_forward, startup, forward_setup_finished, forward_found_active, status_debug_text,
    forward_setup_started, reconnect_requested, restart_observed, port_in_use,
};
use sms_reader::app::json::JsonValue;
use sms_reader::app::session::{
    apply_connection_status, decode_line, handle_line, preview_text, ConnectionCounter, Incoming,
};
use sms_reader::app::state::{AppState, ConnectionStatus};
use sms_reader::config::{
    AdbConfig, ClassifierConfig, InfoPushConfig, LoggingConfig, ServerConfig, Settings,
    StorageConfig,
};

fn last_log(s: &AppState) -> (String, String) {
    let e = s.logs.back().unwrap();
    (e.level.clone(), e.message.clone())
}

#[test]
fn handshake_is_acknowledged() {
    let mut s = AppState::default();
    let reply = handle_line(&mut s, r#"{"type":"handshake"}"#);
    assert_eq!(reply.as_deref(), Some("{\"type\":\"handshake_ack\"}\n"));
    assert_eq!(s.logs.len(), 2);
    assert_eq!(s.logs[0].level, "DEBUG");
    assert_eq!(s.logs[0].message, r#"Received: {"type":"handshake"}"#);
    assert_eq!(last_log(&s), ("INFO".into(), "Handshake acknowledged".into()));
}

#[test]
fn ping_and_garbage_only_log_the_line() {
    let mut s = AppState::default();
    assert_eq!(handle_line(&mut s, r#"{"type":"ping"}"#), None);
    assert_eq!(handle_line(&mut s, "not json"), None);
    assert_eq!(handle_line(&mut s, r#"{"type":"other"}"#), None);
    assert_eq!(handle_line(&mut s, r#"[1,2]"#), None);
    assert_eq!(s.logs.len(), 4);
    assert!(s.logs.iter().all(|e| e.level == "DEBUG"));
    assert!(s.sms_list.is_empty());
}

#[test]
fn new_sms_is_added_and_logged() {
    let mut s = AppState::default();
    let line = r#"{"type":"new_sms","data":{"id":5,"sender":"10086","body":"您的验证码是123456","timestamp":1700000000000,"sim_slot":1}}"#;
    assert_eq!(handle_line(&mut s, line), None);
    assert_eq!(s.sms_list.len(), 1);
    let m = &s.sms_list[0];
    assert_eq!((m.id, m.sender.as_str(), m.body.as_str()), (5, "10086", "您的验证码是123456"));
    assert_eq!((m.timestamp, m.sim_slot, m.read), (1700000000000, 1, false));
    assert_eq!(last_log(&s), ("INFO".into(), "SMS from 10086: 您的验证码是123456".into()));
    handle_line(&mut s, line);
    assert_eq!(s.sms_list.len(), 1);
}

#[test]
fn new_sms_in_the_documented_form() {
    let mut s = AppState::default();
    let line = r#"{"type":"new_sms","data":{"sender":"10086","body":"您的验证码是123456","timestamp":"2025-01-08T10:30:00Z","sim_slot":0}}"#;
    assert_eq!(handle_line(&mut s, line), None);
    assert_eq!(s.sms_list.len(), 1);
    let m = &s.sms_list[0];
    assert_eq!((m.sender.as_str(), m.body.as_str(), m.sim_slot, m.read), ("10086", "您的验证码是123456", 0, false));
    assert_eq!(m.id, m.timestamp);
    assert!(last_log(&s).1.starts_with("SMS from 10086: "));
    let mut t = AppState::default();
    handle_line(&mut t, r#"{"type":"new_sms","sms":{"sender":"10086"}}"#);
    assert!(t.sms_list.is_empty());
}

#[test]
fn message_without_type_is_a_message() {
    let mut s = AppState::default();
    handle_line(&mut s, r#"{"sender":"95588","id":9,"timestamp":3}"#);
    assert_eq!(s.sms_list.len(), 1);
    assert_eq!(s.sms_list[0].body, "");
    assert_eq!(s.sms_list[0].sim_slot, -1);
    assert_eq!(s.sms_list[0].id, 9);
    handle_line(&mut s, r#"{"sender":"95588","id":10,"sim_slot":1}"#);
    assert_eq!(s.sms_list[0].sim_slot, -1);
    handle_line(&mut s, r#"{"sender":"95588","id":11,"simSlot":1}"#);
    assert_eq!(s.sms_list[0].sim_slot, 1);
    handle_line(&mut s, r#"{"type":"new_sms","data":{"sender":"95588","id":12,"simSlot":1}}"#);
    assert_eq!(s.sms_list[0].sim_slot, -1);
}

#[test]
fn missing_id_and_time_take_the_clock() {
    let msg = decode_line(r#"{"type":"new_sms","data":{"sender":"a"}}"#, 42);
    match msg {
        Incoming::NewSms { sms } => {
            assert_eq!((sms.id, sms.timestamp, sms.sim_slot), (42, 42, -1));
            assert_eq!(sms.body, "");
        }
        other => panic!("unexpected {:?}", other),
    }
    assert!(matches!(decode_line(r#"{"type":"new_sms","data":{"body":"x"}}"#, 1), Incoming::Ignored));
    assert!(matches!(decode_line(r#"{"type":"new_sms"}"#, 1), Incoming::Ignored));
    assert!(matches!(decode_line(r#"{"type":7,"sender":"z"}"#, 1), Incoming::NewSms { .. }));
}

#[test]
fn sms_list_replaces_the_list() {
    let mut s = AppState::default();
    handle_line(&mut s, r#"{"sender":"old","id":1}"#);
    let line = r#"{"type":"sms_list","messages":[{"id":2,"sender":"a","body":"x"},{"body":"no sender"},{"id":3,"sender":"b","simSlot":4294967297},{"id":4,"sender":"c","sim_slot":2,"simSlot":5}]}"#;
    handle_line(&mut s, line);
    let ids: Vec<i64> = s.sms_list.iter().map(|m| m.id).collect();
    assert_eq!(ids, vec![2, 3, 4]);
    assert_eq!(s.sms_list[1].sim_slot, 1);
    assert_eq!(s.sms_list[2].sim_slot, 5);
    assert_eq!(last_log(&s), ("INFO".into(), "Received 4 SMS messages".into()));
    handle_line(&mut s, r#"{"type":"sms_list","messages":[{"id":8,"sender":"d","sim_slot":1}]}"#);
    assert_eq!(s.sms_list[0].sim_slot, -1);
    assert!(matches!(decode_line(r#"{"type":"sms_list","messages":{}}"#, 0), Incoming::Ignored));
}

#[test]
fn sms_list_is_taken_as_sent() {
    let mut s = AppState::default();
    let line = r#"{"type":"sms_list","messages":[{"id":7,"sender":"a"},{"id":7,"sender":"b"}]}"#;
    handle_line(&mut s, line);
    let senders: Vec<&str> = s.sms_list.iter().map(|m| m.sender.as_str()).collect();
    assert_eq!(senders, vec!["a", "b"]);
    assert_eq!(s.sms_list[0].id, s.sms_list[1].id);
}

#[test]
fn sim_cards_replace_the_cards_and_select_the_first() {
    let mut s = AppState::default();
    let line = r#"{"type":"sim_cards","data":[{"slot_index":0,"phone_number":"138","carrier_name":"CMCC","is_active":false},{"slot_index":1,"phone_number":"139"},{"slot_index":2,"phone_number":"","carrier_name":"CT","is_active":"yes"},{"slot_index":3,"phone_number":"137","carrier_name":"CU"}]}"#;
    handle_line(&mut s, line);
    assert_eq!(s.sim_cards.len(), 3);
    assert_eq!(s.sim_cards[0].slot_index, 0);
    assert!(!s.sim_cards[0].is_active);
    assert_eq!(s.sim_cards[1].carrier_name, "CT");
    assert!(s.sim_cards[1].is_active);
    assert!(s.sim_cards[2].is_active);
    assert_eq!(s.selected_sim, Some(0));
    assert_eq!(last_log(&s), ("INFO".into(), "Received 3 SIM cards".into()));
    s.selected_sim = Some(1);
    handle_line(&mut s, r#"{"type":"sim_cards","data":[]}"#);
    assert_eq!(s.selected_sim, Some(1));
    assert!(s.sim_cards.is_empty());
}

#[test]
fn preview_takes_thirty_chars() {
    let long: String = "一二三四五六七八九十".repeat(4);
    assert_eq!(preview_text(&long).chars().count(), 30);
    assert_eq!(preview_text("short"), "short");
    assert_eq!(preview_text(""), "");
}

#[test]
fn json_members_are_read_from_their_text() {
    let v = JsonValue::Object(vec![
        ("a".to_string(), r#"{"b":[1,"x",true]}"#.to_string()),
        ("n".to_string(), "-3".to_string()),
        ("f".to_string(), "1.5".to_string()),
        ("big".to_string(), "18446744073709551615".to_string()),
        ("bad".to_string(), "{".to_string()),
    ]);
    let a = v.get("a").unwrap();
    let b = a.get("b").unwrap();
    assert_eq!(b.as_array().unwrap(), &vec!["1".to_string(), "\"x\"".to_string(), "true".to_string()]);
    assert_eq!(v.get("n").unwrap().as_i64(), Some(-3));
    assert_eq!(v.get("f").unwrap().as_i64(), None);
    assert_eq!(v.get("big").unwrap().as_i64(), None);
    assert!(v.get("bad").is_none());
    assert!(v.get("missing").is_none());
    assert!(JsonValue::Null.get("a").is_none());
    assert_eq!(JsonValue::Bool(true).as_bool(), Some(true));
    assert_eq!(JsonValue::Str("s".into()).as_str().map(|s| s.as_str()), Some("s"));
    assert!(JsonValue::Number(Some(1)).as_str().is_none());
}

#[test]
fn connection_counting() {
    let mut c = ConnectionCounter::new();
    c.connect(Some("A"));
    c.connect(Some("A"));
    c.connect(None);
    assert_eq!((c.active_count(), c.count_of("A"), c.count_of("B")), (3, 2, 0));
    c.disconnect(Some("A"));
    assert_eq!((c.active_count(), c.count_of("A")), (2, 1));
    c.disconnect(Some("A"));
    c.disconnect(Some("A"));
    c.disconnect(None);
    c.disconnect(None);
    assert_eq!((c.active_count(), c.count_of("A")), (0, 0));
}

#[test]
fn connect_then_disconnect_restores() {
    let mut c = ConnectionCounter::new();
    c.connect(Some("A"));
    let before = (c.active_count(), c.count_of("A"), c.count_of("B"));
    c.connect(Some("B"));
    c.disconnect(Some("B"));
    assert_eq!(before, (c.active_count(), c.count_of("A"), c.count_of("B")));
}

#[test]
fn status_follows_the_selected_device() {
    let mut s = AppState::default();
    let mut c = ConnectionCounter::new();
    apply_connection_status(&mut s, &c);
    assert_eq!(s.connection_status, ConnectionStatus::Error("ADB not available".into()));
    s.adb_status.adb_available = true;
    apply_connection_status(&mut s, &c);
    assert_eq!(s.connection_status, ConnectionStatus::WaitingForDevice);
    s.adb_status.device_serial = Some("A".into());
    s.connection_status = ConnectionStatus::AdbForwarding;
    apply_connection_status(&mut s, &c);
    assert_eq!(s.connection_status, ConnectionStatus::WaitingForDevice);
    s.adb_status.devices = vec!["A".to_string()];
    s.connection_status = ConnectionStatus::AdbForwarding;
    apply_connection_status(&mut s, &c);
    assert_eq!(s.connection_status, ConnectionStatus::AdbForwarding);
    c.connect(Some("A"));
    apply_connection_status(&mut s, &c);
    assert_eq!(s.connection_status, ConnectionStatus::Connected);
    let d = s.connected_device.clone().unwrap();
    assert_eq!((d.serial.as_str(), d.model.as_deref()), ("A", Some("Android Device")));
}

#[test]
fn clients_connect_and_disconnect() {
    let mut s = AppState::default();
    s.adb_status.adb_available = true;
    s.adb_status.device_serial = Some("A".into());
    s.adb_status.devices = vec!["A".to_string()];
    let mut c = ConnectionCounter::new();
    let at = client_connected(&mut s, &mut c, "127.0.0.1:5000");
    assert_eq!(at.as_deref(), Some("A"));
    assert_eq!(s.connection_status, ConnectionStatus::Connected);
    assert_eq!(s.connected_device.as_ref().unwrap().serial, "A");
    assert_eq!(s.logs[0].message, "Client connected: 127.0.0.1:5000");
    client_disconnected(&mut s, &mut c, at.as_deref());
    assert_eq!(s.connection_status, ConnectionStatus::Connected);
    assert!(s.connected_device.is_none());
    assert_eq!(last_log(&s).1, "Client disconnected (active connections: 0)");
    s.adb_status.device_serial = None;
    let at = client_connected(&mut s, &mut c, "peer");
    assert!(at.is_none());
    assert!(s.connected_device.is_none());
    assert_eq!(s.connection_status, ConnectionStatus::WaitingForDevice);
}

#[test]
fn switching_closes_stale_connections() {
    assert!(!should_close_on_switch(Some("A"), Some("A")));
    assert!(should_close_on_switch(Some("A"), Some("B")));
    assert!(should_close_on_switch(None, Some("B")));
    assert!(should_close_on_switch(Some("A"), None));
    assert!(!should_close_on_switch(None, None));
}

fn settings(port: u16) -> Settings {
    Settings {
        server: ServerConfig { listen_host: "0.0.0.0".into(), listen_port: port, workers: 4 },
        adb: AdbConfig { path: "adb".into(), device_timeout: 30 },
        infopush: InfoPushConfig {
            enabled: true,
            server_url: "http://x".into(),
            push_token: "t".into(),
            timeout: 10,
            retry_count: 3,
        },
        storage: StorageConfig { storage_type: "sqlite".into(), path: "./data/sms.db".into() },
        classifier: ClassifierConfig { enabled: true, rules: vec![] },
        logging: LoggingConfig { level: "info".into(), file: "./logs/app.log".into() },
    }
}

#[test]
fn startup_takes_settings() {
    let mut s = AppState::default();
    startup(&mut s, true, Some(&settings(9000)));
    assert!(s.adb_status.adb_available && s.infopush_enabled);
    assert_eq!(s.server_port, 9000);
    assert_eq!(last_log(&s), ("INFO".into(), "ADB found, checking for devices...".into()));
    let mut s = AppState::default();
    startup(&mut s, false, None);
    assert_eq!(s.server_port, 8080);
    assert_eq!(last_log(&s).0, "WARN");
}

#[test]
fn server_logs() {
    let mut s = AppState::default();
    server_listening(&mut s, "0.0.0.0", 8080, 8080);
    assert_eq!(last_log(&s).1, "Server listening on 0.0.0.0:8080");
    server_listening(&mut s, "0.0.0.0", 8080, 40123);
    assert_eq!(
        last_log(&s).1,
        "Server listening on 0.0.0.0:40123 (configured 8080 was busy; Android still uses 8080 through ADB reverse)"
    );
    port_in_use(&mut s, 9000);
    assert_eq!(
        last_log(&s),
        (
            "WARN".into(),
            "Port 9000 is already in use. Switching PC listener to an available port and keeping Android side on 8080 via ADB reverse.".into()
        )
    );
    assert_eq!(s.server_port, 40123);
    server_bind_failed(&mut s, "h", 1, "denied");
    assert!(!s.server_running);
    assert_eq!(s.connection_status, ConnectionStatus::Error("Server bind failed: denied".into()));
    assert_eq!(last_log(&s), ("ERROR".into(), "Failed to start TCP server on h:1: denied".into()));
}

#[test]
fn fetch_needs_a_connection() {
    let mut s = AppState::default();
    s.connection_status = ConnectionStatus::Error("say \"hi\"".into());
    assert_eq!(fetch_sms_request(&mut s, 100), None);
    assert_eq!(
        last_log(&s),
        ("ERROR".into(), "Cannot send: not connected (Error(\"say \\\"hi\\\"\"))".into())
    );
    s.connection_status = ConnectionStatus::Connected;
    assert_eq!(
        fetch_sms_request(&mut s, 100).as_deref(),
        Some(r#"{"command":"fetch_all_sms","limit":100}"#)
    );
    let n = s.logs.len();
    assert_eq!(s.logs[n - 2].message, "User requested: Fetch SMS (latest 100)");
    assert_eq!(s.logs[n - 1].message, r#"Queuing command: {"command":"fetch_all_sms","limit":100}"#);
    assert_eq!(
        fetch_sms_request(&mut s, -3).as_deref(),
        Some(r#"{"command":"fetch_all_sms"}"#)
    );
    assert_eq!(s.logs[s.logs.len() - 2].message, "User requested: Fetch All SMS");
}

#[test]
fn status_debug_texts() {
    assert_eq!(status_debug_text(&ConnectionStatus::WaitingForDevice), "WaitingForDevice");
    assert_eq!(status_debug_text(&ConnectionStatus::Error("a\nb".into())), "Error(\"a\\nb\")");
}

#[test]
fn devices_are_observed() {
    let mut s = AppState::default();
    let r = observe_devices(&mut s, true, &vec!["A".to_string()]);
    assert_eq!((r.previous, r.effective.as_deref(), r.need_setup), (None, Some("A"), true));
    assert_eq!(s.adb_status.devices, vec!["A".to_string()]);
    assert!(s.adb_status.adb_available && s.adb_status.device_connected);
    assert!(s.adb_status.last_check.is_some());
    let msgs: Vec<&str> = s.logs.iter().map(|e| e.message.as_str()).collect();
    assert_eq!(msgs, vec!["Device connected: A", "Device switched to: A"]);
    s.adb_status.port_forwarded = true;
    let r = observe_devices(&mut s, true, &vec!["A".to_string(), "B".to_string()]);
    assert_eq!((r.effective.as_deref(), r.need_setup), (Some("A"), false));
    assert_eq!(s.logs.len(), 2);
    let r = observe_devices(&mut s, true, &vec!["B".to_string(), "C".to_string()]);
    assert_eq!((r.previous.as_deref(), r.effective), (Some("A"), None));
    assert!(!s.adb_status.port_forwarded && !s.adb_status.device_connected);
    assert_eq!(last_log(&s), ("WARN".into(), "Selected device disconnected".into()));
    let r = observe_devices(&mut s, false, &vec![]);
    assert!(!r.need_setup && !s.adb_status.adb_available);
}

#[test]
fn stale_forwards_and_restarts() {
    assert_eq!(
        stale_forward(&Some("A".into()), &Some("B".into())),
        Some(vec!["-s".to_string(), "A".into(), "reverse".into(), "--remove".into(), "tcp:8080".into()])
    );
    assert_eq!(stale_forward(&Some("A".into()), &Some("A".into())), None);
    assert_eq!(stale_forward(&None, &Some("A".into())), None);
    assert_eq!(stale_forward(&Some("A".into()), &None), None);
    let devs = vec!["A".to_string(), "B".to_string()];
    assert_eq!(select_after_restart(&devs, &Some("B".into())).as_deref(), Some("B"));
    assert_eq!(select_after_restart(&devs, &Some("C".into())), None);
    assert_eq!(select_after_restart(&vec!["Z".into()], &Some("C".into())).as_deref(), Some("Z"));
    assert_eq!(select_after_restart(&vec![], &None), None);
}

#[test]
fn reconnecting_removes_the_old_forward() {
    let mut s = AppState::default();
    assert_eq!(reconnect_requested(&mut s), None);
    assert_eq!(last_log(&s), ("INFO".into(), "Reconnecting ADB...".into()));
    s.adb_status.device_serial = Some("R58M".into());
    assert_eq!(
        reconnect_requested(&mut s),
        Some(vec!["-s".to_string(), "R58M".into(), "reverse".into(), "--remove".into(), "tcp:8080".into()])
    );
    restart_observed(&mut s, true, &vec!["Q".to_string(), "R58M".to_string()], Some("Q".into()));
    assert_eq!(s.adb_status.devices, vec!["Q".to_string(), "R58M".to_string()]);
    assert_eq!(s.adb_status.device_serial.as_deref(), Some("Q"));
    assert!(s.adb_status.device_connected && s.adb_status.last_check.is_some());
}

#[test]
fn setting_up_a_forward_gives_its_command() {
    let mut s = AppState::default();
    let args = forward_setup_started(&mut s, "R58M", 9000);
    assert_eq!(args, vec!["-s", "R58M", "reverse", "tcp:8080", "tcp:9000"]);
    assert_eq!(s.connection_status, ConnectionStatus::AdbForwarding);
    assert_eq!(last_log(&s).1, "Setting up ADB reverse for device R58M: Android 8080 -> PC 9000...");
}

#[test]
fn sim_cards_in_the_documented_form() {
    let mut s = AppState::default();
    let line = r#"{"type":"sim_cards","data":[{"slot_index":0,"carrier_name":"中国移动","phone_number":"13800138000"}]}"#;
    handle_line(&mut s, line);
    assert_eq!(s.sim_cards.len(), 1);
    let c = &s.sim_cards[0];
    assert_eq!((c.slot_index, c.phone_number.as_str(), c.carrier_name.as_str(), c.is_active), (0, "13800138000", "中国移动", true));
    assert_eq!(s.selected_sim, Some(0));
}

#[test]
fn forwarding_outcomes() {
    let mut s = AppState::default();
    s.adb_status.adb_available = true;
    s.adb_status.device_serial = Some("A".into());
    let mut c = ConnectionCounter::new();
    forward_found_active(&mut s, &c, 9000);
    assert!(s.adb_status.port_forwarded);
    assert_eq!(last_log(&s).1, "ADB reverse active: Android 8080 -> PC 9000");
    forward_setup_finished(&mut s, &c, 8080, Err("x".into()), true);
    assert!(!s.adb_status.port_forwarded);
    assert_eq!(s.connection_status, ConnectionStatus::Error("ADB reverse failed: x".into()));
    assert_eq!(last_log(&s), ("ERROR".into(), "Failed to setup ADB reverse: x".into()));
    c.connect(Some("A"));
    forward_setup_finished(&mut s, &c, 9, Ok(()), true);
    assert!(s.adb_status.port_forwarded);
    assert_eq!(s.connection_status, ConnectionStatus::Connected);
    assert_eq!(last_log(&s).1, "ADB reverse set up successfully: Android 8080 -> PC 9");
    forward_setup_finished(&mut s, &c, 9, Err("y".into()), false);
    assert!(s.adb_status.port_forwarded);
}

#[test]
fn selecting_a_device() {
    let mut s = AppState::default();
    s.adb_status.adb_available = true;
    s.adb_status.device_serial = Some("A".into());
    s.adb_status.port_forwarded = true;
    handle_line(&mut s, r#"{"sender":"x","id":1}"#);
    let c = ConnectionCounter::new();
    assert_eq!(select_device(&mut s, &c, "A"), None);
    assert_eq!(s.sms_list.len(), 1);
    let removal = select_device(&mut s, &c, "B");
    assert_eq!(
        removal,
        Some(Some(vec!["-s".to_string(), "A".into(), "reverse".into(), "--remove".into(), "tcp:8080".into()]))
    );
    assert!(s.sms_list.is_empty() && !s.adb_status.port_forwarded);
    assert_eq!(s.adb_status.device_serial.as_deref(), Some("B"));
    assert_eq!(s.connection_status, ConnectionStatus::WaitingForDevice);
    assert_eq!(last_log(&s).1, "Selected device: B");
}
