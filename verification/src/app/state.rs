use std::collections::VecDeque;
use std::time::Instant;

use vstd::prelude::*;
use vstd::string::*;

use crate::text::{
    chars_eq, chars_of, contains_chars, has_part, int_text, lines, split_lines, split_whitespace,
    string_from_chars, texts_of, u64_text, views, words,
};

verus! {

/// A point in time of the monotonic clock.
#[verifier::external_type_specification]
#[verifier::external_body]
pub struct ExInstant(std::time::Instant);

/// `<Instant as Clone>::clone`: `Instant` is `Copy`, so a clone is the same instant.
pub assume_specification[ <std::time::Instant as Clone>::clone ](i: &Instant) -> (r: Instant)
    ensures
        r == *i,
;

/// `Instant::now()`: the current time; nothing is claimed of it.
#[verifier::external_body]
pub(crate) fn instant_now() -> Instant {
    Instant::now()
}

/// The most log entries the state keeps.
pub const MAX_LOGS: usize = 1000;

/// The most messages the state keeps.
pub const MAX_SMS: usize = 500;

/// The port the server listens on unless configured otherwise.
pub const DEFAULT_SERVER_PORT: u16 = 8080;

/// A command that waits to be sent to the phone.
#[derive(Debug, Clone, Copy, PartialEq, Eq, Structural)]
pub enum PendingCommand {
    FetchAllSms,
    FetchSms { limit: u32 },
    Ping,
}

/// A SIM card of the phone.
#[derive(Debug, Clone)]
pub struct SimCard {
    pub slot_index: i32,
    pub phone_number: String,
    pub carrier_name: String,
    pub is_active: bool,
}

/// The name under which a SIM card is shown: number and carrier where both are
/// known, else the slot (counted from 1) and the carrier, else the number.
pub open spec fn sim_display_name(c: SimCard) -> Seq<char> {
    if c.carrier_name@.len() > 0 && c.phone_number@.len() > 0 {
        c.phone_number@ + " ("@ + c.carrier_name@ + ")"@
    } else if c.carrier_name@.len() > 0 {
        "SIM"@ + int_text(c.slot_index + 1) + " ("@ + c.carrier_name@ + ")"@
    } else {
        c.phone_number@
    }
}

impl SimCard {
    /// The name under which this card is shown.
    pub fn display_name(&self) -> (r: String)
        requires
            self.carrier_name@.len() > 0 && self.phone_number@.len() == 0 ==> self.slot_index
                < i32::MAX,
        ensures
            r@ == sim_display_name(*self),
    {
        let has_carrier = !self.carrier_name.as_str().is_empty();
        let has_number = !self.phone_number.as_str().is_empty();
        if has_carrier && has_number {
            let mut r = self.phone_number.clone();
            r.append(" (");
            r.append(self.carrier_name.as_str());
            r.append(")");
            r
        } else if has_carrier {
            let mut r = String::from_str("SIM");
            let slot = crate::text::i64_text((self.slot_index + 1) as i64);
            r.append(slot.as_str());
            r.append(" (");
            r.append(self.carrier_name.as_str());
            r.append(")");
            r
        } else {
            self.phone_number.clone()
        }
    }
}

/// How far the connection to the phone has come.
#[derive(Debug, Clone, PartialEq)]
pub enum ConnectionStatus {
    Disconnected,
    Connecting,
    Connected,
    WaitingForDevice,
    AdbForwarding,
    Error(String),
}

/// The text in which a connection status is shown.
pub open spec fn status_text(s: ConnectionStatus) -> Seq<char> {
    match s {
        ConnectionStatus::Disconnected => "Disconnected"@,
        ConnectionStatus::Connecting => "Connecting..."@,
        ConnectionStatus::Connected => "Connected"@,
        ConnectionStatus::WaitingForDevice => "Waiting for device"@,
        ConnectionStatus::AdbForwarding => "Setting up ADB..."@,
        ConnectionStatus::Error(e) => "Error: "@ + e@,
    }
}

impl ConnectionStatus {
    /// The text in which this status is shown.
    pub fn to_text(&self) -> (r: String)
        ensures
            r@ == status_text(*self),
    {
        match self {
            ConnectionStatus::Disconnected => String::from_str("Disconnected"),
            ConnectionStatus::Connecting => String::from_str("Connecting..."),
            ConnectionStatus::Connected => String::from_str("Connected"),
            ConnectionStatus::WaitingForDevice => String::from_str("Waiting for device"),
            ConnectionStatus::AdbForwarding => String::from_str("Setting up ADB..."),
            ConnectionStatus::Error(e) => {
                let mut r = String::from_str("Error: ");
                r.append(e.as_str());
                r
            },
        }
    }
}

impl Default for ConnectionStatus {
    fn default() -> (r: ConnectionStatus)
        ensures
            r == ConnectionStatus::Disconnected,
    {
        ConnectionStatus::Disconnected
    }
}

/// A message as the state keeps it.
#[derive(Debug, Clone)]
pub struct SmsMessage {
    pub id: i64,
    pub sender: String,
    pub body: String,
    pub timestamp: i64,
    pub category: String,
    pub read: bool,
    pub sim_slot: i32,
}

/// The phone that is connected.
#[derive(Debug, Clone)]
pub struct DeviceInfo {
    pub serial: String,
    pub model: Option<String>,
    pub android_version: Option<String>,
}

impl Default for DeviceInfo {
    fn default() -> (r: DeviceInfo)
        ensures
            r.serial@ == Seq::<char>::empty(),
            r.model is None,
            r.android_version is None,
    {
        DeviceInfo { serial: String::new(), model: None, android_version: None }
    }
}

/// One line of the log.
#[derive(Debug, Clone)]
pub struct LogEntry {
    pub timestamp: Instant,
    pub level: String,
    pub message: String,
}

/// What is known of `adb` and the phone.
#[derive(Debug, Clone)]
pub struct AdbStatus {
    pub adb_available: bool,
    pub device_connected: bool,
    pub port_forwarded: bool,
    pub device_serial: Option<String>,
    /// The serials that `adb devices` listed at the last look.
    pub devices: Vec<String>,
    pub last_check: Option<Instant>,
}

impl Default for AdbStatus {
    fn default() -> (r: AdbStatus)
        ensures
            !r.adb_available,
            !r.device_connected,
            !r.port_forwarded,
            r.device_serial is None,
            r.devices@.len() == 0,
            r.last_check is None,
    {
        AdbStatus {
            adb_available: false,
            device_connected: false,
            port_forwarded: false,
            device_serial: None,
            devices: Vec::new(),
            last_check: None,
        }
    }
}

/// The state of the application.
#[derive(Debug, Clone)]
pub struct AppState {
    pub connection_status: ConnectionStatus,
    pub adb_status: AdbStatus,
    pub connected_device: Option<DeviceInfo>,
    pub sms_list: Vec<SmsMessage>,
    pub logs: VecDeque<LogEntry>,
    pub server_running: bool,
    pub server_port: u16,
    pub infopush_enabled: bool,
    pub last_activity: Instant,
    pub pending_command: Option<PendingCommand>,
    pub sim_cards: Vec<SimCard>,
    pub selected_sim: Option<usize>,
}

/// No two messages of the list share an id.
pub open spec fn ids_unique(l: Seq<SmsMessage>) -> bool {
    forall|i: int, j: int| 0 <= i < l.len() && 0 <= j < l.len() && i != j ==> l[i].id != l[j].id
}

/// Some message of the list has id `id`.
pub open spec fn has_id(l: Seq<SmsMessage>, id: i64) -> bool {
    exists|i: int| 0 <= i < l.len() && #[trigger] l[i].id == id
}

/// The message list after `sms` is added: unchanged where its id is already
/// there; else `sms` goes first, and the last message goes where the list would
/// grow past `MAX_SMS`.
pub open spec fn sms_list_after_add(l: Seq<SmsMessage>, sms: SmsMessage) -> Seq<SmsMessage> {
    if has_id(l, sms.id) {
        l
    } else if l.len() + 1 > MAX_SMS {
        (seq![sms] + l).drop_last()
    } else {
        seq![sms] + l
    }
}

/// The log entries that stay when one more is added: all of them, or all but the
/// oldest where the log holds `MAX_LOGS` or more.
pub open spec fn logs_kept(l: Seq<LogEntry>) -> Seq<LogEntry> {
    if l.len() >= MAX_LOGS {
        l.drop_first()
    } else {
        l
    }
}

/// Two states agree on everything but the log.
pub open spec fn same_but_logs(a: AppState, b: AppState) -> bool {
    &&& a.connection_status == b.connection_status
    &&& a.adb_status == b.adb_status
    &&& a.connected_device == b.connected_device
    &&& a.sms_list@ == b.sms_list@
    &&& a.server_running == b.server_running
    &&& a.server_port == b.server_port
    &&& a.infopush_enabled == b.infopush_enabled
    &&& a.last_activity == b.last_activity
    &&& a.pending_command == b.pending_command
    &&& a.sim_cards@ == b.sim_cards@
    &&& a.selected_sim == b.selected_sim
}

/// Two states agree on everything but the message list.
pub open spec fn same_but_sms(a: AppState, b: AppState) -> bool {
    &&& a.connection_status == b.connection_status
    &&& a.adb_status == b.adb_status
    &&& a.connected_device == b.connected_device
    &&& a.logs@ == b.logs@
    &&& a.server_running == b.server_running
    &&& a.server_port == b.server_port
    &&& a.infopush_enabled == b.infopush_enabled
    &&& a.last_activity == b.last_activity
    &&& a.pending_command == b.pending_command
    &&& a.sim_cards@ == b.sim_cards@
    &&& a.selected_sim == b.selected_sim
}

/// The log after one entry with this level and message is added.
pub open spec fn log_added(before: Seq<LogEntry>, after: Seq<LogEntry>, level: Seq<char>, message: Seq<char>) -> bool {
    let kept = logs_kept(before);
    &&& after.len() == kept.len() + 1
    &&& after.take(kept.len() as int) == kept
    &&& after.last().level@ == level
    &&& after.last().message@ == message
}

impl AppState {
    /// The state's bounds hold: at most `MAX_LOGS` log entries, at most `MAX_SMS`
    /// messages, and no two messages with one id.
    pub open spec fn wf(&self) -> bool {
        &&& self.logs@.len() <= MAX_LOGS
        &&& self.sms_list@.len() <= MAX_SMS
        &&& ids_unique(self.sms_list@)
    }

    /// Adds a line to the log, dropping the oldest line where the log is full.
    pub fn add_log(&mut self, level: &str, message: String)
        ensures
            log_added(old(self).logs@, final(self).logs@, level@, message@),
            same_but_logs(*old(self), *final(self)),
    {
        if self.logs.len() >= MAX_LOGS {
            self.logs.pop_front();
        }
        let ghost kept = self.logs@;
        self.logs.push_back(LogEntry { timestamp: instant_now(), level: String::from_str(level), message });
        assert(self.logs@.take(kept.len() as int) =~= kept);
    }

    /// Whether a message with id `id` is in the list.
    pub fn has_sms(&self, id: i64) -> (r: bool)
        ensures
            r == has_id(self.sms_list@, id),
    {
        let mut i: usize = 0;
        while i < self.sms_list.len()
            invariant
                i <= self.sms_list.len(),
                forall|k: int| 0 <= k < i ==> self.sms_list@[k].id != id,
            decreases self.sms_list.len() - i,
        {
            if self.sms_list[i].id == id {
                return true;
            }
            i = i + 1;
        }
        false
    }

    /// Adds a message in front of the list unless one with its id is there; the
    /// list keeps at most `MAX_SMS` messages, dropping the oldest.
    pub fn add_sms(&mut self, sms: SmsMessage)
        ensures
            final(self).sms_list@ == sms_list_after_add(old(self).sms_list@, sms),
            same_but_sms(*old(self), *final(self)),
    {
        if self.has_sms(sms.id) {
            return;
        }
        self.sms_list.insert(0, sms);
        if self.sms_list.len() > MAX_SMS {
            self.sms_list.pop();
        }
    }
}

impl Default for AppState {
    fn default() -> (s: AppState)
        ensures
            s.connection_status == ConnectionStatus::Disconnected,
            !s.adb_status.adb_available,
            !s.adb_status.device_connected,
            !s.adb_status.port_forwarded,
            s.adb_status.device_serial is None,
            s.adb_status.devices@.len() == 0,
            s.adb_status.last_check is None,
            s.connected_device is None,
            s.sms_list@.len() == 0,
            s.logs@.len() == 0,
            !s.server_running,
            s.server_port == DEFAULT_SERVER_PORT,
            !s.infopush_enabled,
            s.pending_command is None,
            s.sim_cards@.len() == 0,
            s.selected_sim is None,
            s.wf(),
    {
        AppState {
            connection_status: ConnectionStatus::Disconnected,
            adb_status: AdbStatus::default(),
            connected_device: None,
            sms_list: Vec::new(),
            logs: VecDeque::with_capacity(MAX_LOGS),
            server_running: false,
            server_port: DEFAULT_SERVER_PORT,
            infopush_enabled: false,
            last_activity: instant_now(),
            pending_command: None,
            sim_cards: Vec::new(),
            selected_sim: None,
        }
    }
}

/// Adding a message keeps the list within `MAX_SMS` and its ids unique.
pub proof fn law_add_sms_keeps_list_valid(l: Seq<SmsMessage>, sms: SmsMessage)
    requires
        l.len() <= MAX_SMS,
        ids_unique(l),
    ensures
        sms_list_after_add(l, sms).len() <= MAX_SMS,
        ids_unique(sms_list_after_add(l, sms)),
{
    let r = sms_list_after_add(l, sms);
    if !has_id(l, sms.id) {
        let full = seq![sms] + l;
        assert forall|i: int, j: int|
            0 <= i < full.len() && 0 <= j < full.len() && i != j implies full[i].id != full[j].id by {
            if i == 0 {
                assert(full[j] == l[j - 1]);
            } else if j == 0 {
                assert(full[i] == l[i - 1]);
            } else {
                assert(full[i] == l[i - 1] && full[j] == l[j - 1]);
            }
        }
        if l.len() + 1 > MAX_SMS {
            assert forall|i: int, j: int|
                0 <= i < r.len() && 0 <= j < r.len() && i != j implies r[i].id != r[j].id by {
                assert(r[i] == full[i] && r[j] == full[j]);
            }
        }
    }
}

/// Adding a message twice does what adding it once does.
pub proof fn law_add_sms_idempotent(l: Seq<SmsMessage>, sms: SmsMessage)
    ensures
        sms_list_after_add(sms_list_after_add(l, sms), sms) == sms_list_after_add(l, sms),
{
    let once = sms_list_after_add(l, sms);
    if !has_id(l, sms.id) {
        assert(once[0] == sms);
        assert(has_id(once, sms.id));
    }
}

/// A message whose id is new comes first in the list; one whose id is there
/// changes nothing.
pub proof fn law_add_sms_newest_first(l: Seq<SmsMessage>, sms: SmsMessage)
    ensures
        !has_id(l, sms.id) ==> sms_list_after_add(l, sms)[0] == sms,
        has_id(l, sms.id) ==> sms_list_after_add(l, sms) == l,
{
}

/// Adding a log entry keeps the log within `MAX_LOGS`, and keeps all entries but
/// (where the log is full) the oldest, in order, before the new one.
pub proof fn law_add_log_bounded(before: Seq<LogEntry>, after: Seq<LogEntry>, level: Seq<char>, message: Seq<char>)
    requires
        before.len() <= MAX_LOGS,
        log_added(before, after, level, message),
    ensures
        after.len() <= MAX_LOGS,
        before.len() < MAX_LOGS ==> after.take(before.len() as int) == before,
        before.len() == MAX_LOGS ==> after.take(before.len() - 1) == before.drop_first(),
{
}

} // verus!

verus! {

/// The serial that a line of `adb devices` names, where the line's second word is
/// `device` (a phone that is attached and authorized).
pub open spec fn device_line_serial(line: Seq<char>) -> Option<Seq<char>> {
    let parts = words(line);
    if parts.len() >= 2 && parts[1] == "device"@ {
        Some(parts[0])
    } else {
        None
    }
}

/// The serials that the lines name, in order.
pub open spec fn serials_in(ls: Seq<Seq<char>>) -> Seq<Seq<char>>
    decreases ls.len(),
{
    if ls.len() == 0 {
        seq![]
    } else {
        match device_line_serial(ls.last()) {
            Some(s) => serials_in(ls.drop_last()).push(s),
            None => serials_in(ls.drop_last()),
        }
    }
}

/// The serials of the attached phones that the output of `adb devices` lists: the
/// lines after the first (a header) whose second word is `device`.
pub open spec fn adb_device_serials(out: Seq<char>) -> Seq<Seq<char>> {
    let ls = lines(out);
    if ls.len() == 0 {
        seq![]
    } else {
        serials_in(ls.drop_first())
    }
}

/// The serials of the attached phones in the output of `adb devices -l`.
pub fn list_adb_devices(stdout: &str) -> (r: Vec<String>)
    ensures
        texts_of(r@) == adb_device_serials(stdout@),
{
    let out = chars_of(stdout);
    let ls = split_lines(&out);
    let device = chars_of("device");
    let mut r: Vec<String> = Vec::new();
    if ls.len() == 0 {
        return r;
    }
    let ghost tail = views(ls@).drop_first();
    let mut i: usize = 1;
    assert(tail.take(0) =~= Seq::<Seq<char>>::empty());
    while i < ls.len()
        invariant
            1 <= i <= ls.len(),
            device@ == "device"@,
            tail == views(ls@).drop_first(),
            texts_of(r@) == serials_in(tail.take(i - 1)),
        decreases ls.len() - i,
    {
        let parts = split_whitespace(&ls[i]);
        proof {
            assert(tail.take(i as int).drop_last() =~= tail.take(i - 1));
            assert(tail.take(i as int).last() == ls@[i as int]@);
            assert(views(parts@) == words(ls@[i as int]@));
        }
        if parts.len() >= 2 && chars_eq(&parts[1], &device) {
            let ghost before = texts_of(r@);
            let serial = string_from_chars(&parts[0]);
            r.push(serial);
            proof {
                assert(views(parts@)[1] == parts@[1]@);
                assert(views(parts@)[0] == parts@[0]@);
                assert(texts_of(r@) =~= before.push(parts@[0]@));
            }
        } else {
            proof {
                if parts.len() >= 2 {
                    assert(views(parts@)[1] == parts@[1]@);
                }
            }
        }
        i = i + 1;
    }
    assert(tail.take(ls.len() - 1) =~= tail);
    r
}

/// Whether `adb version` ran and succeeded; `None` where it could not be run.
pub fn check_adb_available(version_run: Option<bool>) -> (r: bool)
    ensures
        r == (version_run == Some(true)),
{
    match version_run {
        Some(ok) => ok,
        None => false,
    }
}

/// `tcp:` and the port.
pub open spec fn tcp_spec(port: u16) -> Seq<char> {
    "tcp:"@ + int_text(port as int)
}

/// The text `tcp:<port>`.
pub fn tcp_spec_text(port: u16) -> (r: String)
    ensures
        r@ == tcp_spec(port),
{
    let mut r = String::from_str("tcp:");
    let n = u64_text(port as u64);
    r.append(n.as_str());
    r
}

/// The port on the phone to which its app connects; `adb reverse` carries it to
/// the server's port on this computer.
pub const ANDROID_APP_PORT: u16 = 8080;

/// `-s <serial> reverse tcp:<device port> tcp:<host port>`.
pub open spec fn reverse_texts(serial: Seq<char>, device_port: u16, host_port: u16) -> Seq<Seq<char>> {
    seq!["-s"@, serial, "reverse"@, tcp_spec(device_port), tcp_spec(host_port)]
}

/// `-s <serial> reverse --remove tcp:<device port>`.
pub open spec fn remove_reverse_texts(serial: Seq<char>, device_port: u16) -> Seq<Seq<char>> {
    seq!["-s"@, serial, "reverse"@, "--remove"@, tcp_spec(device_port)]
}

/// `-s <serial> reverse --list`.
pub open spec fn reverse_list_texts(serial: Seq<char>) -> Seq<Seq<char>> {
    seq!["-s"@, serial, "reverse"@, "--list"@]
}

/// How `adb reverse --list` shows the forwarding of `device_port` to `host_port`:
/// `tcp:<device port> tcp:<host port>`.
pub open spec fn reverse_entry(device_port: u16, host_port: u16) -> Seq<char> {
    tcp_spec(device_port) + " "@ + tcp_spec(host_port)
}

/// The arguments of `adb` that make device `serial` carry connections to its
/// `device_port` over to `host_port` on this computer.
pub fn adb_reverse_args(serial: &str, device_port: u16, host_port: u16) -> (r: Vec<String>)
    ensures
        texts_of(r@) == reverse_texts(serial@, device_port, host_port),
{
    let mut r: Vec<String> = Vec::new();
    r.push(String::from_str("-s"));
    r.push(String::from_str(serial));
    r.push(String::from_str("reverse"));
    r.push(tcp_spec_text(device_port));
    r.push(tcp_spec_text(host_port));
    assert(texts_of(r@) =~= reverse_texts(serial@, device_port, host_port));
    r
}

/// The arguments of `adb` that remove the reverse forwarding of `device_port` on
/// device `serial`.
pub fn adb_remove_reverse_args(serial: &str, device_port: u16) -> (r: Vec<String>)
    ensures
        texts_of(r@) == remove_reverse_texts(serial@, device_port),
{
    let mut r: Vec<String> = Vec::new();
    r.push(String::from_str("-s"));
    r.push(String::from_str(serial));
    r.push(String::from_str("reverse"));
    r.push(String::from_str("--remove"));
    r.push(tcp_spec_text(device_port));
    assert(texts_of(r@) =~= remove_reverse_texts(serial@, device_port));
    r
}

/// The arguments of `adb` that list the reverse forwardings of device `serial`.
pub fn adb_reverse_list_args(serial: &str) -> (r: Vec<String>)
    ensures
        texts_of(r@) == reverse_list_texts(serial@),
{
    let mut r: Vec<String> = Vec::new();
    r.push(String::from_str("-s"));
    r.push(String::from_str(serial));
    r.push(String::from_str("reverse"));
    r.push(String::from_str("--list"));
    assert(texts_of(r@) =~= reverse_list_texts(serial@));
    r
}

/// What a run of `adb` came to: `Ok(success)` where it ran, else the error's text.
pub open spec fn run_outcome(status: Result<bool, String>, failed_to_run: Seq<char>, failed: Seq<char>) -> Result<(), Seq<char>> {
    match status {
        Ok(true) => Ok(()),
        Ok(false) => Err(failed),
        Err(e) => Err(failed_to_run + e@),
    }
}

/// The view of a result with a string error.
pub open spec fn result_text(r: Result<(), String>) -> Result<(), Seq<char>> {
    match r {
        Ok(()) => Ok(()),
        Err(e) => Err(e@),
    }
}

/// The outcome of `adb -s <serial> reverse tcp:<device port> tcp:<host port>`,
/// given how the run went:
/// `Ok` where it succeeded; where it could not run, the error after
/// `ADB reverse failed: `; where it failed, `ADB reverse command failed`.
pub fn setup_adb_forward(status: Result<bool, String>) -> (r: Result<(), String>)
    ensures
        result_text(r) == run_outcome(
            status,
            "ADB reverse failed: "@,
            "ADB reverse command failed"@,
        ),
{
    match status {
        Ok(true) => Ok(()),
        Ok(false) => Err(String::from_str("ADB reverse command failed")),
        Err(e) => {
            let mut m = String::from_str("ADB reverse failed: ");
            m.append(e.as_str());
            Err(m)
        },
    }
}

/// The outcome of `adb -s <serial> reverse --remove tcp:<device port>`, given how
/// the run went.
pub fn remove_adb_forward(status: Result<bool, String>) -> (r: Result<(), String>)
    ensures
        result_text(r) == run_outcome(
            status,
            "ADB remove reverse failed: "@,
            "ADB remove reverse command failed"@,
        ),
{
    match status {
        Ok(true) => Ok(()),
        Ok(false) => Err(String::from_str("ADB remove reverse command failed")),
        Err(e) => {
            let mut m = String::from_str("ADB remove reverse failed: ");
            m.append(e.as_str());
            Err(m)
        },
    }
}

/// Whether the output of `adb -s <serial> reverse --list` shows the forwarding of
/// `device_port` to `host_port`; `false` where the command could not be run
/// (`None`).
pub fn check_adb_forward_active(device_port: u16, host_port: u16, listing: Option<&str>) -> (r: bool)
    ensures
        r == match listing {
            Some(out) => has_part(out@, reverse_entry(device_port, host_port)),
            None => false,
        },
{
    match listing {
        None => false,
        Some(out) => {
            let hay = chars_of(out);
            let mut entry = tcp_spec_text(device_port);
            entry.append(" ");
            let host = tcp_spec_text(host_port);
            entry.append(host.as_str());
            let needle = chars_of(entry.as_str());
            contains_chars(&hay, &needle)
        },
    }
}

} // verus!

verus! {

/// Where, next to the program, `adb` is looked for, in order.
pub open spec fn adb_candidate_texts() -> Seq<Seq<char>> {
    seq!["tools/adb.exe"@, "tools/adb"@, "adb.exe"@, "adb"@]
}

/// The places next to the program where `adb` is looked for, in order.
pub fn adb_candidates() -> (r: Vec<String>)
    ensures
        texts_of(r@) == adb_candidate_texts(),
{
    let mut r: Vec<String> = Vec::new();
    r.push(String::from_str("tools/adb.exe"));
    r.push(String::from_str("tools/adb"));
    r.push(String::from_str("adb.exe"));
    r.push(String::from_str("adb"));
    assert(texts_of(r@) =~= adb_candidate_texts());
    r
}

/// The `adb` to run: the configured path where it exists; else the first
/// candidate found next to the program; else the configured path all the same;
/// else plain `adb`, looked up on the search path.
pub open spec fn adb_path_choice(configured: Option<Seq<char>>, configured_exists: bool, found: Option<Seq<char>>) -> Seq<char> {
    match (configured, found) {
        (Some(c), _) if configured_exists => c,
        (_, Some(f)) => f,
        (Some(c), None) => c,
        (None, None) => "adb"@,
    }
}

/// The `adb` to run, given the configured path (and whether it exists) and the
/// first candidate found next to the program.
pub fn choose_adb_path(configured: Option<&str>, configured_exists: bool, found: Option<String>) -> (r: String)
    ensures
        r@ == adb_path_choice(
            match configured {
                Some(c) => Some(c@),
                None => None,
            },
            configured_exists,
            match found {
                Some(f) => Some(f@),
                None => None,
            },
        ),
{
    match configured {
        Some(c) => {
            if configured_exists {
                return String::from_str(c);
            }
        },
        None => {},
    }
    match found {
        Some(f) => f,
        None => match configured {
            Some(c) => String::from_str(c),
            None => String::from_str("adb"),
        },
    }
}

} // verus!

verus! {

/// Two states hold the same messages, SIM cards, selection, pending command and
/// last activity.
pub open spec fn same_data(a: AppState, b: AppState) -> bool {
    &&& a.sms_list@ == b.sms_list@
    &&& a.sim_cards@ == b.sim_cards@
    &&& a.selected_sim == b.selected_sim
    &&& a.pending_command == b.pending_command
    &&& a.last_activity == b.last_activity
}

/// Two states agree on the server: whether it runs, its port, and forwarding.
pub open spec fn same_server(a: AppState, b: AppState) -> bool {
    &&& a.server_running == b.server_running
    &&& a.server_port == b.server_port
    &&& a.infopush_enabled == b.infopush_enabled
}

} // verus!
