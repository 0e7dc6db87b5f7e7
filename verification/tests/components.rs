use sms_reader::app::command::{Command, Response, SmsData};
use sms_reader::app::protocol::{EventData, MessagePayload, ProtocolMessage, PROTOCOL_VERSION};
use sms_reader::app::state::SmsMessage;
use sms_reader::classifier::SmsCategory;
use sms_reader::config::{
    AdbConfig, ClassifierConfig, InfoPushConfig, LoggingConfig, ServerConfig, Settings,
    StorageConfig,
};
use sms_reader::device_core::adb::AdbManager;
use sms_reader::device_core::device::{DeviceInfo, DeviceManager};
use sms_reader::device_core::receiver::frame_line;
use sms_reader::error::AppError;
use sms_reader::forwarder::infopush::{InfoPushClient, PushResponse, PushStep};
use sms_reader::forwarder::message_builder::build_push_message;
use sms_reader::server::TcpServer;
use sms_reader::storage::SmsRecord;
use sms_reader::text::{i64_text, str_contains, u64_text};
use sms_reader::time::{millis, utc_of_millis, UtcTime, CHRONO_MAX_SECS, CHRONO_MIN_SECS};
use sms_reader::app::state::ConnectionStatus;
use sms_reader::app::view::{detail_time_text, forward_label, list_preview_text, list_time_text, status_label};

fn device(id: &str, connected: bool) -> DeviceInfo {
    DeviceInfo { id: id.into(), model: Some("Pixel".into()), android_version: None, connected }
}

#[test]
fn devices_are_kept_by_id() {
    let mut m = DeviceManager::new();
    assert!(m.get_device("a").is_none());
    m.add_device(device("a", false));
    m.add_device(device("b", true));
    assert_eq!(m.get_device("a").unwrap().model.as_deref(), Some("Pixel"));
    let mut ids: Vec<String> = m.list_devices().into_iter().map(|d| d.id).collect();
    ids.sort();
    assert_eq!(ids, vec!["a", "b"]);
    m.add_device(DeviceInfo { id: "a".into(), model: None, android_version: Some("14".into()), connected: true });
    assert_eq!(m.list_devices().len(), 2);
    let a = m.get_device("a").unwrap();
    assert!(a.model.is_none() && a.connected);
    m.set_connected("a", false);
    assert!(!m.get_device("a").unwrap().connected);
    m.set_connected("zz", true);
    assert!(m.get_device("zz").is_none());
    m.remove_device("a");
    assert!(m.get_device("a").is_none());
    assert!(m.get_device("b").is_some());
    m.remove_device("a");
    assert_eq!(m.list_devices().len(), 1);
}

#[test]
fn adb_manager_commands() {
    let m = AdbManager::new(AdbConfig { path: "/usr/bin/adb".into(), device_timeout: 30 });
    assert_eq!(m.path(), "/usr/bin/adb");
    assert_eq!(m.list_devices_args(), vec!["devices"]);
    assert_eq!(
        m.setup_forward_args("emulator-5554", 9000),
        vec!["-s", "emulator-5554", "forward", "tcp:9000", "tcp:8080"]
    );
    assert_eq!(m.setup_forward(Ok(true)), Ok(()));
    assert_eq!(m.setup_forward(Ok(false)), Err(AppError::DeviceNotConnected));
    assert_eq!(m.setup_forward(Err("x".into())), Err(AppError::IoError("x".into())));
    let out = "List of devices attached\nA\tdevice\nB\toffline\n";
    let devs = m.list_devices(out);
    assert_eq!(devs, vec!["A"]);
    assert!(m.check_connection(&devs, "A"));
    assert!(!m.check_connection(&devs, "B"));
}

fn push_config(token: &str, retries: u32) -> InfoPushConfig {
    InfoPushConfig {
        enabled: true,
        server_url: "http://push.example".into(),
        push_token: token.into(),
        timeout: 10,
        retry_count: retries,
    }
}

#[test]
fn pushing_steps() {
    let c = InfoPushClient::new(push_config("tok", 3));
    assert_eq!(c.push_url(), "http://push.example/push/tok");
    assert_eq!(c.timeout_secs(), 10);
    assert!(matches!(c.push_start(), PushStep::Send { attempt: 1 }));
    let err = || Err(AppError::HttpError("down".into()));
    assert!(matches!(c.push_next(1, err()), PushStep::RetryAfterPause { attempt: 2 }));
    assert!(matches!(c.push_next(2, err()), PushStep::RetryAfterPause { attempt: 3 }));
    match c.push_next(3, err()) {
        PushStep::Done { outcome: Err(AppError::HttpError(m)) } => assert_eq!(m, "down"),
        other => panic!("unexpected {:?}", other),
    }
    let ok = PushResponse { message_id: Some("m1".into()), online_devices: Some(2) };
    match c.push_next(1, Ok(ok)) {
        PushStep::Done { outcome: Ok(r) } => assert_eq!(r.message_id.as_deref(), Some("m1")),
        other => panic!("unexpected {:?}", other),
    }
    let none = InfoPushClient::new(push_config("", 3));
    assert!(matches!(none.push_start(), PushStep::Done { outcome: Err(AppError::TokenNotConfigured) }));
    let zero = InfoPushClient::new(push_config("t", 0));
    match zero.push_start() {
        PushStep::Done { outcome: Err(AppError::StorageError(m)) } => assert_eq!(m, "All retry attempts failed"),
        other => panic!("unexpected {:?}", other),
    }
}

#[test]
fn push_message_text() {
    let t = UtcTime { secs: 1736332200, nanos: 0 };
    let m = build_push_message("10086", "您的验证码是123456", &SmsCategory::Verification, &t).unwrap();
    assert_eq!(m.title, "🔐 【10086】");
    assert_eq!(m.content, "[验证码]\n您的验证码是123456\n\n2025-01-08 10:30:00");
    assert_eq!(m.content_type, "text");
    assert!(m.url.is_none());
    let epoch = build_push_message("a", "b", &SmsCategory::Default, &UtcTime { secs: 0, nanos: 0 }).unwrap();
    assert_eq!(epoch.content, "[其他]\nb\n\n1970-01-01 00:00:00");
    assert!(build_push_message("a", "b", &SmsCategory::Default, &UtcTime { secs: i64::MAX, nanos: 0 }).is_none());
    let first = build_push_message("a", "b", &SmsCategory::Default, &UtcTime { secs: -62_135_596_800, nanos: 0 }).unwrap();
    assert!(first.content.ends_with("0001-01-01 00:00:00"));
    let last = build_push_message("a", "b", &SmsCategory::Default, &UtcTime { secs: 253_402_300_799, nanos: 999_999_999 }).unwrap();
    assert!(last.content.ends_with("9999-12-31 23:59:59"));
    let before = build_push_message("a", "b", &SmsCategory::Default, &UtcTime { secs: -1, nanos: 0 }).unwrap();
    assert!(before.content.ends_with("1969-12-31 23:59:59"));
}

#[test]
fn milliseconds_of_a_time() {
    assert_eq!(millis(&UtcTime { secs: 1736332200, nanos: 123_456_789 }), 1736332200123);
    assert_eq!(millis(&UtcTime { secs: -1, nanos: 500_000_000 }), -500);
    assert_eq!(millis(&UtcTime { secs: i64::MAX, nanos: 0 }), i64::MAX);
    assert_eq!(millis(&UtcTime { secs: i64::MIN, nanos: 0 }), i64::MIN);
}

#[test]
fn records_are_new_and_dated() {
    let r = SmsRecord::new("a".into(), "b".into(), "通知".into());
    assert_eq!(r.id, 0);
    assert!(!r.forwarded);
    assert_eq!(r.timestamp, r.created_at);
    assert!(r.timestamp.secs > 1_600_000_000);
    let t = UtcTime { secs: 5, nanos: 6 };
    let r = SmsRecord::new_at("a".into(), "b".into(), "c".into(), t);
    assert_eq!((r.timestamp, r.created_at), (t, t));
}

#[test]
fn commands() {
    assert_eq!(Command::fetch_sms(Some(5)), Command::FetchSms { limit: Some(5) });
    assert_eq!(Command::fetch_sms(None), Command::FetchSms { limit: None });
    assert_eq!(Command::fetch_all_sms(), Command::FetchAllSms);
    assert_eq!(Command::ping(), Command::Ping);
    assert_eq!(Command::get_device_info(), Command::GetDeviceInfo);
    let data = SmsData { id: 3, sender: "s".into(), body: "b".into(), timestamp: 9, read: true };
    let m: SmsMessage = SmsMessage::from(data.clone());
    assert_eq!((m.id, m.sender.as_str(), m.body.as_str(), m.timestamp, m.read), (3, "s", "b", 9, true));
    assert_eq!((m.category.as_str(), m.sim_slot), ("", -1));
    let r = Response::SmsList { messages: vec![data] };
    assert!(matches!(r, Response::SmsList { ref messages } if messages.len() == 1));
}

#[test]
fn protocol_messages() {
    let m = ProtocolMessage::command("fetch", serde_json::from_str("{\"limit\":3}").unwrap());
    assert_eq!(m.version, PROTOCOL_VERSION);
    match m.payload {
        MessagePayload::Command { data } => {
            assert_eq!(data.command, "fetch");
            assert_eq!(data.params["limit"], 3);
        }
        _ => panic!("not a command"),
    }
    let r = ProtocolMessage::response(false, None, Some("bad".into()));
    match r.payload {
        MessagePayload::Response { data } => {
            assert!(!data.success && data.data.is_none());
            assert_eq!(data.error.as_deref(), Some("bad"));
        }
        _ => panic!("not a response"),
    }
    let e = ProtocolMessage::event(EventData::StatusUpdate { status: "ok".into() });
    assert_eq!(e.version, 1);
    assert!(matches!(e.payload, MessagePayload::Event { data: EventData::StatusUpdate { .. } }));
}

#[test]
fn push_token_from_environment() {
    let mut s = Settings {
        server: ServerConfig { listen_host: "0.0.0.0".into(), listen_port: 8080, workers: 4 },
        adb: AdbConfig { path: "adb".into(), device_timeout: 30 },
        infopush: push_config("file-token", 3),
        storage: StorageConfig { storage_type: "sqlite".into(), path: "./data/sms.db".into() },
        classifier: ClassifierConfig { enabled: true, rules: vec![] },
        logging: LoggingConfig { level: "info".into(), file: "./logs/app.log".into() },
    };
    s.apply_push_token(None);
    assert_eq!(s.infopush.push_token, "file-token");
    s.apply_push_token(Some("env-token".into()));
    assert_eq!(s.infopush.push_token, "env-token");
    assert_eq!(s.infopush.retry_count, 3);
}

#[test]
fn lines_are_trimmed_and_empty_ones_dropped() {
    assert_eq!(frame_line("  {\"type\":\"ping\"}\r").as_deref(), Some("{\"type\":\"ping\"}"));
    assert_eq!(frame_line("\u{3000}a b\t"), Some("a b".to_string()));
    assert_eq!(frame_line(" \t\r\n"), None);
    assert_eq!(frame_line(""), None);
}

#[test]
fn server_address() {
    assert_eq!(TcpServer::new("0.0.0.0", 8080).address(), "0.0.0.0:8080");
    assert_eq!(TcpServer::new("localhost", 0).address(), "localhost:0");
}

#[test]
fn numbers_and_parts() {
    assert_eq!(u64_text(0), "0");
    assert_eq!(u64_text(u64::MAX), "18446744073709551615");
    assert_eq!(i64_text(-42), "-42");
    assert_eq!(i64_text(i64::MIN), "-9223372036854775808");
    assert!(str_contains("abc", ""));
    assert!(str_contains("验证码是", "码是"));
    assert!(!str_contains("ab", "abc"));
}

#[test]
fn chrono_range_ends() {
    let lo = build_push_message("a", "b", &SmsCategory::Default, &UtcTime { secs: CHRONO_MIN_SECS, nanos: 0 });
    assert!(lo.unwrap().content.ends_with("-262143-01-01 00:00:00"));
    let hi = build_push_message("a", "b", &SmsCategory::Default, &UtcTime { secs: CHRONO_MAX_SECS, nanos: 999_999_999 });
    assert!(hi.unwrap().content.ends_with("+262142-12-31 23:59:59"));
    assert!(build_push_message("a", "b", &SmsCategory::Default, &UtcTime { secs: CHRONO_MIN_SECS - 1, nanos: 0 }).is_none());
    assert!(build_push_message("a", "b", &SmsCategory::Default, &UtcTime { secs: CHRONO_MAX_SECS + 1, nanos: 0 }).is_none());
}

#[test]
fn times_from_milliseconds() {
    assert_eq!(utc_of_millis(1736332200123), UtcTime { secs: 1736332200, nanos: 123_000_000 });
    assert_eq!(utc_of_millis(-1), UtcTime { secs: -1, nanos: 999_000_000 });
    assert_eq!(utc_of_millis(-1000), UtcTime { secs: -1, nanos: 0 });
    assert_eq!(utc_of_millis(0), UtcTime { secs: 0, nanos: 0 });
    assert_eq!(utc_of_millis(i64::MIN), UtcTime { secs: i64::MIN / 1000 - 1, nanos: 192_000_000 });
    assert_eq!(list_time_text(1736332200123), "01-08 10:30");
    assert_eq!(detail_time_text(1736332200123), "2025-01-08 10:30:00");
    assert_eq!(detail_time_text(-1), "1969-12-31 23:59:59");
    assert_eq!(detail_time_text(i64::MAX), "");
}

#[test]
fn window_labels() {
    assert_eq!(status_label(&ConnectionStatus::Connected), "App Connected");
    assert_eq!(status_label(&ConnectionStatus::WaitingForDevice), "Waiting for app...");
    assert_eq!(status_label(&ConnectionStatus::AdbForwarding), "Setting up ADB...");
    assert_eq!(status_label(&ConnectionStatus::Disconnected), "Disconnected");
    assert_eq!(status_label(&ConnectionStatus::Connecting), "Connecting...");
    assert_eq!(status_label(&ConnectionStatus::Error("ADB not available".into())), "ADB not available");
    assert_eq!(forward_label(true), "Reverse: Active");
    assert_eq!(forward_label(false), "Reverse: Inactive");
    let long: String = "短".repeat(60);
    assert_eq!(list_preview_text(&long).chars().count(), 50);
    assert_eq!(list_preview_text("hi"), "hi");
}
