use sms_reader::app::state::{
    adb_candidates, adb_remove_reverse_args, adb_reverse_args, adb_reverse_list_args,
    check_adb_available, ANDROID_APP_PORT,
    check_adb_forward_active, choose_adb_path, list_adb_devices, remove_adb_forward,
    setup_adb_forward, AppState, ConnectionStatus, DeviceInfo, PendingCommand, SimCard,
    SmsMessage, MAX_LOGS, MAX_SMS,
};

fn sms(id: i64) -> SmsMessage {
    SmsMessage {
        id,
        sender: format!("s{}", id),
        body: format!("b{}", id),
        timestamp: id * 10,
        category: String::new(),
        read: false,
        sim_slot: 0,
    }
}

fn card(slot: i32, number: &str, carrier: &str) -> SimCard {
    SimCard {
        slot_index: slot,
        phone_number: number.to_string(),
        carrier_name: carrier.to_string(),
        is_active: true,
    }
}

#[test]
fn sim_display_names() {
    assert_eq!(card(0, "13800138000", "中国移动").display_name(), "13800138000 (中国移动)");
    assert_eq!(card(0, "", "中国移动").display_name(), "SIM1 (中国移动)");
    assert_eq!(card(1, "", "CMCC").display_name(), "SIM2 (CMCC)");
    assert_eq!(card(-5, "", "X").display_name(), "SIM-4 (X)");
    assert_eq!(card(0, "123", "").display_name(), "123");
    assert_eq!(card(3, "", "").display_name(), "");
}

#[test]
fn connection_status_texts() {
    assert_eq!(ConnectionStatus::Disconnected.to_text(), "Disconnected");
    assert_eq!(ConnectionStatus::Connecting.to_text(), "Connecting...");
    assert_eq!(ConnectionStatus::Connected.to_text(), "Connected");
    assert_eq!(ConnectionStatus::WaitingForDevice.to_text(), "Waiting for device");
    assert_eq!(ConnectionStatus::AdbForwarding.to_text(), "Setting up ADB...");
    assert_eq!(ConnectionStatus::Error("boom".into()).to_text(), "Error: boom");
    assert_eq!(ConnectionStatus::default(), ConnectionStatus::Disconnected);
}

#[test]
fn defaults() {
    let s = AppState::default();
    assert_eq!(s.connection_status, ConnectionStatus::Disconnected);
    assert_eq!(s.server_port, 8080);
    assert!(!s.server_running && !s.infopush_enabled);
    assert!(s.sms_list.is_empty() && s.logs.is_empty() && s.sim_cards.is_empty());
    assert!(s.pending_command.is_none() && s.selected_sim.is_none());
    assert!(!s.adb_status.adb_available && s.adb_status.device_serial.is_none());
    let d = DeviceInfo::default();
    assert!(d.serial.is_empty() && d.model.is_none() && d.android_version.is_none());
    assert_eq!(PendingCommand::FetchSms { limit: 3 }, PendingCommand::FetchSms { limit: 3 });
}

#[test]
fn add_sms_puts_newest_first_and_skips_known_ids() {
    let mut s = AppState::default();
    s.add_sms(sms(1));
    s.add_sms(sms(2));
    s.add_sms(sms(1));
    let ids: Vec<i64> = s.sms_list.iter().map(|m| m.id).collect();
    assert_eq!(ids, vec![2, 1]);
    assert_eq!(s.sms_list[1].body, "b1");
}

#[test]
fn add_sms_twice_is_adding_once() {
    let mut a = AppState::default();
    a.add_sms(sms(7));
    let once: Vec<i64> = a.sms_list.iter().map(|m| m.id).collect();
    a.add_sms(sms(7));
    let twice: Vec<i64> = a.sms_list.iter().map(|m| m.id).collect();
    assert_eq!(once, twice);
}

#[test]
fn add_sms_keeps_at_most_max_messages() {
    let mut s = AppState::default();
    for i in 0..(MAX_SMS as i64 + 20) {
        s.add_sms(sms(i));
    }
    assert_eq!(s.sms_list.len(), MAX_SMS);
    assert_eq!(s.sms_list[0].id, MAX_SMS as i64 + 19);
    assert_eq!(s.sms_list[MAX_SMS - 1].id, 20);
}

#[test]
fn add_log_keeps_at_most_max_entries() {
    let mut s = AppState::default();
    for i in 0..(MAX_LOGS + 5) {
        s.add_log("INFO", format!("line {}", i));
    }
    assert_eq!(s.logs.len(), MAX_LOGS);
    assert_eq!(s.logs.front().unwrap().message, "line 5");
    assert_eq!(s.logs.back().unwrap().message, format!("line {}", MAX_LOGS + 4));
    assert_eq!(s.logs.back().unwrap().level, "INFO");
}

#[test]
fn adb_devices_output_is_parsed() {
    let out = "List of devices attached\r\nemulator-5554\tdevice product:sdk model:Pixel\r\nR58M\tunauthorized\nABC123 device\n\n";
    assert_eq!(list_adb_devices(out), vec!["emulator-5554".to_string(), "ABC123".to_string()]);
    assert!(list_adb_devices("").is_empty());
    assert!(list_adb_devices("emulator-5554 device").is_empty());
    assert_eq!(list_adb_devices("header\n  X\u{3000}device  "), vec!["X".to_string()]);
}

#[test]
fn adb_arguments() {
    assert_eq!(adb_reverse_args("R58M", 8080, 9000), vec!["-s", "R58M", "reverse", "tcp:8080", "tcp:9000"]);
    assert_eq!(adb_remove_reverse_args("R58M", 0), vec!["-s", "R58M", "reverse", "--remove", "tcp:0"]);
    assert_eq!(adb_reverse_list_args("X"), vec!["-s", "X", "reverse", "--list"]);
    assert_eq!(ANDROID_APP_PORT, 8080);
    assert_eq!(adb_candidates(), vec!["tools/adb.exe", "tools/adb", "adb.exe", "adb"]);
}

#[test]
fn adb_outcomes() {
    assert!(check_adb_available(Some(true)));
    assert!(!check_adb_available(Some(false)));
    assert!(!check_adb_available(None));
    assert_eq!(setup_adb_forward(Ok(true)), Ok(()));
    assert_eq!(setup_adb_forward(Ok(false)), Err("ADB reverse command failed".to_string()));
    assert_eq!(setup_adb_forward(Err("no adb".into())), Err("ADB reverse failed: no adb".to_string()));
    assert_eq!(remove_adb_forward(Ok(true)), Ok(()));
    assert_eq!(remove_adb_forward(Ok(false)), Err("ADB remove reverse command failed".to_string()));
    assert_eq!(
        remove_adb_forward(Err("gone".into())),
        Err("ADB remove reverse failed: gone".to_string())
    );
}

#[test]
fn forward_listing() {
    assert!(check_adb_forward_active(8080, 8080, Some("UsbFfs tcp:8080 tcp:8080\n")));
    assert!(!check_adb_forward_active(8081, 8080, Some("UsbFfs tcp:8080 tcp:8080\n")));
    assert!(!check_adb_forward_active(8080, 9000, Some("UsbFfs tcp:8080 tcp:8080\n")));
    assert!(check_adb_forward_active(8080, 9000, Some("host-2 tcp:8080 tcp:9000")));
    assert!(!check_adb_forward_active(8080, 8080, None));
    assert!(!check_adb_forward_active(8080, 8080, Some("")));
}

#[test]
fn adb_path_choice() {
    assert_eq!(choose_adb_path(Some("/opt/adb"), true, Some("x/tools/adb".into())), "/opt/adb");
    assert_eq!(choose_adb_path(Some("/opt/adb"), false, Some("x/tools/adb".into())), "x/tools/adb");
    assert_eq!(choose_adb_path(Some("/opt/adb"), false, None), "/opt/adb");
    assert_eq!(choose_adb_path(None, false, None), "adb");
    assert_eq!(choose_adb_path(None, false, Some("y".into())), "y");
}
