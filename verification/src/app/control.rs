use vstd::prelude::*;
use vstd::string::*;

use super::session::{ConnectionCounter, apply_connection_status, shown_device, status_applied};
use super::state::{
    ANDROID_APP_PORT, AdbStatus, AppState, ConnectionStatus, LogEntry, adb_remove_reverse_args,
    adb_reverse_args, instant_now, log_added, remove_reverse_texts, reverse_texts, same_but_logs,
    same_data, same_server,
};
use crate::config::Settings;
use crate::text::{
    clone_opt_string, clone_strings, debug_quoted, decimal, digits_value, is_digit,
    lemma_decimal_reads_back, debug_text, i64_text, int_text, str_eq, texts_of, u64_text,
};

verus! {

/// `steps` goes from `before` to `after` by logging the lines in order.
pub open spec fn log_steps(steps: Seq<Seq<LogEntry>>, before: Seq<LogEntry>, after: Seq<LogEntry>, lines: Seq<(Seq<char>, Seq<char>)>) -> bool {
    &&& steps.len() == lines.len() + 1
    &&& steps[0] == before
    &&& steps.last() == after
    &&& forall|i: int|
        0 <= i < lines.len() ==> log_added(steps[i], steps[i + 1], #[trigger] lines[i].0, lines[i].1)
}

/// `after` is `before` with the lines (level and message) logged in order.
pub open spec fn logged(before: Seq<LogEntry>, after: Seq<LogEntry>, lines: Seq<(Seq<char>, Seq<char>)>) -> bool {
    exists|steps: Seq<Seq<LogEntry>>| #[trigger] log_steps(steps, before, after, lines)
}

/// Logging nothing leaves the log as it was.
proof fn lemma_logged_none(l: Seq<LogEntry>)
    ensures
        logged(l, l, seq![]),
{
    assert(log_steps(seq![l], l, l, seq![]));
}

/// One more line logged.
proof fn lemma_logged_more(
    before: Seq<LogEntry>,
    mid: Seq<LogEntry>,
    after: Seq<LogEntry>,
    lines: Seq<(Seq<char>, Seq<char>)>,
    level: Seq<char>,
    message: Seq<char>,
)
    requires
        logged(before, mid, lines),
        log_added(mid, after, level, message),
    ensures
        logged(before, after, lines.push((level, message))),
{
    let steps = choose|steps: Seq<Seq<LogEntry>>| #[trigger] log_steps(steps, before, mid, lines);
    let all = lines.push((level, message));
    let s2 = steps.push(after);
    assert forall|i: int| 0 <= i < all.len() implies log_added(
        s2[i],
        s2[i + 1],
        #[trigger] all[i].0,
        all[i].1,
    ) by {
        if i < lines.len() {
            assert(all[i] == lines[i]);
            assert(s2[i] == steps[i] && s2[i + 1] == steps[i + 1]);
        } else {
            assert(s2[i] == mid);
        }
    }
    assert(log_steps(s2, before, after, all));
}

/// Two states agree on all but the connection status, the device and the log.
pub open spec fn same_but_status(a: AppState, b: AppState) -> bool {
    &&& a.adb_status == b.adb_status
    &&& a.sms_list@ == b.sms_list@
    &&& a.server_running == b.server_running
    &&& a.server_port == b.server_port
    &&& a.infopush_enabled == b.infopush_enabled
    &&& a.last_activity == b.last_activity
    &&& a.pending_command == b.pending_command
    &&& a.sim_cards@ == b.sim_cards@
    &&& a.selected_sim == b.selected_sim
}

/// The text of an optional device serial.
pub open spec fn serial_text(s: Option<String>) -> Option<Seq<char>> {
    match s {
        Some(x) => Some(x@),
        None => None,
    }
}

/// Notes at start-up whether `adb` was found, and takes the server port and the
/// forwarding switch from the settings where there are any.
pub fn startup(state: &mut AppState, adb_ok: bool, settings: Option<&Settings>)
    ensures
        final(state).adb_status.adb_available == adb_ok,
        final(state).server_port == match settings {
            Some(s) => s.server.listen_port,
            None => old(state).server_port,
        },
        final(state).infopush_enabled == match settings {
            Some(s) => s.infopush.enabled,
            None => old(state).infopush_enabled,
        },
        if adb_ok {
            log_added(
                old(state).logs@,
                final(state).logs@,
                "INFO"@,
                "ADB found, checking for devices..."@,
            )
        } else {
            log_added(
                old(state).logs@,
                final(state).logs@,
                "WARN"@,
                "ADB not found. Ensure Android SDK platform-tools is in PATH."@,
            )
        },
        final(state).adb_status == (AdbStatus { adb_available: adb_ok, ..old(state).adb_status }),
        final(state).connection_status == old(state).connection_status,
        final(state).connected_device == old(state).connected_device,
        final(state).server_running == old(state).server_running,
        same_data(*old(state), *final(state)),
{
    state.adb_status.adb_available = adb_ok;
    if let Some(s) = settings {
        state.server_port = s.server.listen_port;
        state.infopush_enabled = s.infopush.enabled;
    }
    if adb_ok {
        state.add_log("INFO", String::from_str("ADB found, checking for devices..."));
    } else {
        state.add_log(
            "WARN",
            String::from_str("ADB not found. Ensure Android SDK platform-tools is in PATH."),
        );
    }
}

/// `<host>:<port>`.
pub open spec fn address_text(host: Seq<char>, port: u16) -> Seq<char> {
    host + ":"@ + int_text(port as int)
}

fn address(host: &str, port: u16) -> (r: String)
    ensures
        r@ == address_text(host@, port),
{
    let mut r = String::from_str(host);
    r.append(":");
    let p = u64_text(port as u64);
    r.append(p.as_str());
    r
}

/// The server starts on `port`.
pub fn server_starting(state: &mut AppState, port: u16)
    ensures
        final(state).server_running,
        log_added(
            old(state).logs@,
            final(state).logs@,
            "INFO"@,
            "Server starting on port "@ + int_text(port as int) + "..."@,
        ),
        final(state).server_port == old(state).server_port,
        final(state).infopush_enabled == old(state).infopush_enabled,
        final(state).connection_status == old(state).connection_status,
        final(state).adb_status == old(state).adb_status,
        final(state).connected_device == old(state).connected_device,
        same_data(*old(state), *final(state)),
{
    state.server_running = true;
    let mut m = String::from_str("Server starting on port ");
    let p = u64_text(port as u64);
    m.append(p.as_str());
    m.append("...");
    state.add_log("INFO", m);
}

/// The preferred port was taken: the server moves to another one, while the
/// phone's side stays on `ANDROID_APP_PORT`.
pub fn port_in_use(state: &mut AppState, port: u16)
    ensures
        log_added(
            old(state).logs@,
            final(state).logs@,
            "WARN"@,
            "Port "@ + int_text(port as int)
                + " is already in use. Switching PC listener to an available port and keeping Android side on "@
                + int_text(ANDROID_APP_PORT as int) + " via ADB reverse."@,
        ),
        same_but_logs(*old(state), *final(state)),
{
    let mut m = String::from_str("Port ");
    let p = u64_text(port as u64);
    m.append(p.as_str());
    m.append(" is already in use. Switching PC listener to an available port and keeping Android side on ");
    let a = u64_text(ANDROID_APP_PORT as u64);
    m.append(a.as_str());
    m.append(" via ADB reverse.");
    state.add_log("WARN", m);
}

/// The server could not bind: it is not running, and the status shows the error.
pub fn server_bind_failed(state: &mut AppState, host: &str, port: u16, error: &str)
    ensures
        !final(state).server_running,
        final(state).connection_status matches ConnectionStatus::Error(e) && e@
            == "Server bind failed: "@ + error@,
        log_added(
            old(state).logs@,
            final(state).logs@,
            "ERROR"@,
            "Failed to start TCP server on "@ + address_text(host@, port) + ": "@ + error@,
        ),
        final(state).server_port == old(state).server_port,
        final(state).infopush_enabled == old(state).infopush_enabled,
        final(state).adb_status == old(state).adb_status,
        final(state).connected_device == old(state).connected_device,
        same_data(*old(state), *final(state)),
{
    state.server_running = false;
    let mut e = String::from_str("Server bind failed: ");
    e.append(error);
    state.connection_status = ConnectionStatus::Error(e);
    let mut m = String::from_str("Failed to start TCP server on ");
    let a = address(host, port);
    m.append(a.as_str());
    m.append(": ");
    m.append(error);
    state.add_log("ERROR", m);
}

/// The server listens on `actual`, which differs from `configured` where that
/// port was taken (the phone's side stays on `ANDROID_APP_PORT`).
pub fn server_listening(state: &mut AppState, host: &str, configured: u16, actual: u16)
    ensures
        final(state).server_port == actual,
        log_added(
            old(state).logs@,
            final(state).logs@,
            "INFO"@,
            if actual == configured {
                "Server listening on "@ + address_text(host@, actual)
            } else {
                "Server listening on "@ + address_text(host@, actual) + " (configured "@
                    + int_text(configured as int) + " was busy; Android still uses "@
                    + int_text(ANDROID_APP_PORT as int) + " through ADB reverse)"@
            },
        ),
        final(state).server_running == old(state).server_running,
        final(state).infopush_enabled == old(state).infopush_enabled,
        final(state).connection_status == old(state).connection_status,
        final(state).adb_status == old(state).adb_status,
        final(state).connected_device == old(state).connected_device,
        same_data(*old(state), *final(state)),
{
    state.server_port = actual;
    let mut m = String::from_str("Server listening on ");
    let a = address(host, actual);
    m.append(a.as_str());
    if actual != configured {
        m.append(" (configured ");
        let c = u64_text(configured as u64);
        m.append(c.as_str());
        m.append(" was busy; Android still uses ");
        let a = u64_text(ANDROID_APP_PORT as u64);
        m.append(a.as_str());
        m.append(" through ADB reverse)");
    }
    state.add_log("INFO", m);
}

/// A client connected from `peer`: it is counted for the selected device, logged,
/// shown as the connected phone (by the selected serial, else by its address), and
/// the status follows. Gives the serial that was selected, which the connection
/// keeps.
pub fn client_connected(state: &mut AppState, counter: &mut ConnectionCounter, peer: &str) -> (r:
    Option<String>)
    requires
        old(counter).active() < usize::MAX,
        old(state).adb_status.device_serial matches Some(s) ==> old(counter).count(s@)
            < usize::MAX,
    ensures
        serial_text(r) == serial_text(old(state).adb_status.device_serial),
        final(counter).active() == old(counter).active() + 1,
        forall|t: Seq<char>|
            #[trigger] final(counter).count(t) == if serial_text(r) == Some(t) {
                old(counter).count(t) + 1
            } else {
                old(counter).count(t)
            },
        exists|mid: AppState|
            {
                &&& #[trigger] log_added(
                    old(state).logs@,
                    mid.logs@,
                    "INFO"@,
                    "Client connected: "@ + peer@,
                )
                &&& same_but_status(*old(state), mid)
                &&& mid.connection_status == old(state).connection_status
                &&& shown_device(
                    mid.connected_device,
                    match old(state).adb_status.device_serial {
                        Some(s) => s@,
                        None => peer@,
                    },
                )
                &&& status_applied(mid, *final(state), *final(counter))
            },
{
    let selected = state.adb_status.device_serial.clone();
    match &selected {
        Some(s) => counter.connect(Some(s.as_str())),
        None => counter.connect(None),
    }
    let mut m = String::from_str("Client connected: ");
    m.append(peer);
    state.add_log("INFO", m);
    let serial = match &selected {
        Some(s) => s.clone(),
        None => String::from_str(peer),
    };
    state.connected_device = Some(super::state::DeviceInfo {
        serial,
        model: Some(String::from_str("Android Device")),
        android_version: None,
    });
    let ghost mid = *state;
    apply_connection_status(state, counter);
    assert(status_applied(mid, *state, *counter));
    selected
}

/// A client that connected while `serial` (if any) was selected disconnected: the
/// counts drop, the status follows, and the number of open connections is logged.
pub fn client_disconnected(state: &mut AppState, counter: &mut ConnectionCounter, serial: Option<&str>)
    ensures
        final(counter).active() == if old(counter).active() > 0 {
            (old(counter).active() - 1) as nat
        } else {
            0
        },
        forall|t: Seq<char>|
            #[trigger] final(counter).count(t) == if serial matches Some(s) && s@ == t && old(
                counter,
            ).count(t) > 0 {
                (old(counter).count(t) - 1) as nat
            } else {
                old(counter).count(t)
            },
        exists|mid: AppState|
            {
                &&& #[trigger] status_applied(*old(state), mid, *final(counter))
                &&& log_added(
                    mid.logs@,
                    final(state).logs@,
                    "INFO"@,
                    "Client disconnected (active connections: "@ + int_text(
                        final(counter).active() as int,
                    ) + ")"@,
                )
                &&& same_but_status(mid, *final(state))
                &&& final(state).connection_status == mid.connection_status
                &&& final(state).connected_device == mid.connected_device
            },
{
    counter.disconnect(serial);
    let active: usize = counter.active_count();
    apply_connection_status(state, counter);
    let ghost mid = *state;
    let mut m = String::from_str("Client disconnected (active connections: ");
    let n = u64_text(active as u64);
    m.append(n.as_str());
    m.append(")");
    state.add_log("INFO", m);
    assert(status_applied(*old(state), mid, *counter));
}

/// Whether a connection that began while `at_connect` was selected must close now
/// that `selected` is: where the selection changed.
pub fn should_close_on_switch(at_connect: Option<&str>, selected: Option<&str>) -> (r: bool)
    ensures
        r == match (at_connect, selected) {
            (Some(a), Some(b)) => a@ != b@,
            (None, None) => false,
            _ => true,
        },
{
    match (at_connect, selected) {
        (Some(a), Some(b)) => !str_eq(a, b),
        (None, None) => false,
        _ => true,
    }
}

/// A command went out to the phone, or could not be sent.
pub fn command_sent(state: &mut AppState, command: &str, outcome: Result<(), String>)
    ensures
        match outcome {
            Ok(()) => log_added(
                old(state).logs@,
                final(state).logs@,
                "INFO"@,
                "Command sent: "@ + command@,
            ),
            Err(e) => log_added(
                old(state).logs@,
                final(state).logs@,
                "ERROR"@,
                "Failed to send command: "@ + e@,
            ),
        },
        same_but_logs(*old(state), *final(state)),
{
    match outcome {
        Ok(()) => {
            let mut m = String::from_str("Command sent: ");
            m.append(command);
            state.add_log("INFO", m);
        },
        Err(e) => {
            let mut m = String::from_str("Failed to send command: ");
            m.append(e.as_str());
            state.add_log("ERROR", m);
        },
    }
}

} // verus!

verus! {

/// What one look at `adb devices` found.
#[derive(Debug)]
pub struct AdbCheck {
    /// The device selected before.
    pub previous: Option<String>,
    /// The device selected now.
    pub effective: Option<String>,
    /// Reverse forwarding is to be set up for the selected device.
    pub need_setup: bool,
}

/// The device that stays selected after a look at the devices: the only one where
/// there is one, else the one selected before if it is still there, else none.
pub open spec fn kept_selection(prev: Option<Seq<char>>, devices: Seq<Seq<char>>) -> Option<Seq<char>> {
    if devices.len() == 1 {
        Some(devices[0])
    } else {
        match prev {
            Some(p) => if devices.contains(p) {
                Some(p)
            } else {
                None
            },
            None => None,
        }
    }
}

/// The selected device was there before and is gone now.
pub open spec fn selection_dropped(prev: Option<Seq<char>>, devices: Seq<Seq<char>>) -> bool {
    &&& devices.len() != 1
    &&& prev matches Some(p) && !devices.contains(p)
}

/// The lines logged by a look at the devices.
pub open spec fn check_log_lines(prev: Option<Seq<char>>, devices: Seq<Seq<char>>) -> Seq<(Seq<char>, Seq<char>)> {
    let eff = kept_selection(prev, devices);
    let a: Seq<(Seq<char>, Seq<char>)> = if selection_dropped(prev, devices) {
        seq![("WARN"@, "Selected device disconnected"@)]
    } else {
        seq![]
    };
    let b: Seq<(Seq<char>, Seq<char>)> = if prev is None && eff is Some {
        seq![("INFO"@, "Device connected: "@ + eff.unwrap())]
    } else {
        seq![]
    };
    let c: Seq<(Seq<char>, Seq<char>)> = if prev != eff && eff is Some {
        seq![("INFO"@, "Device switched to: "@ + eff.unwrap())]
    } else {
        seq![]
    };
    a + b + c
}

fn contains_string(v: &Vec<String>, s: &str) -> (r: bool)
    ensures
        r == texts_of(v@).contains(s@),
{
    let mut i: usize = 0;
    while i < v.len()
        invariant
            i <= v.len(),
            forall|k: int| 0 <= k < i ==> v@[k]@ != s@,
        decreases v.len() - i,
    {
        if str_eq(v[i].as_str(), s) {
            assert(texts_of(v@)[i as int] == s@);
            return true;
        }
        i = i + 1;
    }
    assert forall|k: int| 0 <= k < texts_of(v@).len() implies texts_of(v@)[k] != s@ by {
        assert(texts_of(v@)[k] == v@[k]@);
    }
    false
}

fn opt_eq(a: &Option<String>, b: &Option<String>) -> (r: bool)
    ensures
        r == (serial_text(*a) == serial_text(*b)),
{
    match (a, b) {
        (Some(x), Some(y)) => str_eq(x.as_str(), y.as_str()),
        (None, None) => true,
        _ => false,
    }
}

/// Takes in a look at `adb`: whether it runs and which devices it lists. Keeps the
/// selection as `kept_selection` says (dropping the forwarding where the selected
/// device is gone), logs as `check_log_lines` says, and tells whether forwarding
/// is to be set up: where it was not set up and a device is selected.
pub fn observe_devices(state: &mut AppState, adb_ok: bool, devices: &Vec<String>) -> (r: AdbCheck)
    ensures
        serial_text(r.previous) == serial_text(old(state).adb_status.device_serial),
        serial_text(r.effective) == kept_selection(
            serial_text(old(state).adb_status.device_serial),
            texts_of(devices@),
        ),
        serial_text(final(state).adb_status.device_serial) == serial_text(r.effective),
        r.need_setup == (!old(state).adb_status.port_forwarded && r.effective is Some),
        final(state).adb_status.adb_available == adb_ok,
        final(state).adb_status.devices@ == devices@,
        final(state).adb_status.last_check is Some,
        final(state).adb_status.device_connected == r.effective is Some,
        final(state).adb_status.port_forwarded == if selection_dropped(
            serial_text(old(state).adb_status.device_serial),
            texts_of(devices@),
        ) {
            false
        } else {
            old(state).adb_status.port_forwarded
        },
        logged(
            old(state).logs@,
            final(state).logs@,
            check_log_lines(serial_text(old(state).adb_status.device_serial), texts_of(devices@)),
        ),
        final(state).adb_status.device_serial == r.effective,
        final(state).connection_status == old(state).connection_status,
        final(state).connected_device == old(state).connected_device,
        same_data(*old(state), *final(state)),
        same_server(*old(state), *final(state)),
{
    let ghost devs = texts_of(devices@);
    let ghost prev_t = serial_text(state.adb_status.device_serial);
    let prev = clone_opt_string(&state.adb_status.device_serial);
    let prev_forwarded = state.adb_status.port_forwarded;
    let ghost log0 = state.logs@;
    state.adb_status.adb_available = adb_ok;
    state.adb_status.devices = clone_strings(devices);
    state.adb_status.last_check = Some(instant_now());
    proof { lemma_logged_none(log0); }
    let ghost mut lines: Seq<(Seq<char>, Seq<char>)> = seq![];
    if devices.len() == 1 {
        state.adb_status.device_serial = Some(devices[0].clone());
        assert(devs[0] == devices@[0]@);
    } else {
        let dropped = match &prev {
            Some(p) => !contains_string(devices, p.as_str()),
            None => false,
        };
        if dropped {
            state.adb_status.device_serial = None;
            state.adb_status.port_forwarded = false;
            let ghost before = state.logs@;
            state.add_log("WARN", String::from_str("Selected device disconnected"));
            proof {
                lemma_logged_more(log0, before, state.logs@, lines, "WARN"@, "Selected device disconnected"@);
                lines = lines.push(("WARN"@, "Selected device disconnected"@));
            }
        }
    }
    let connected = state.adb_status.device_serial.is_some();
    state.adb_status.device_connected = connected;
    let effective = clone_opt_string(&state.adb_status.device_serial);
    assert(serial_text(effective) == kept_selection(prev_t, devs));
    if prev.is_none() && effective.is_some() {
        let mut m = String::from_str("Device connected: ");
        match &effective {
            Some(e) => m.append(e.as_str()),
            None => {},
        }
        let ghost before = state.logs@;
        state.add_log("INFO", m);
        proof {
            lemma_logged_more(log0, before, state.logs@, lines, "INFO"@, m@);
            lines = lines.push(("INFO"@, m@));
        }
    }
    if !opt_eq(&prev, &effective) && effective.is_some() {
        let mut m = String::from_str("Device switched to: ");
        match &effective {
            Some(e) => m.append(e.as_str()),
            None => {},
        }
        let ghost before = state.logs@;
        state.add_log("INFO", m);
        proof {
            lemma_logged_more(log0, before, state.logs@, lines, "INFO"@, m@);
            lines = lines.push(("INFO"@, m@));
        }
    }
    assert(lines =~= check_log_lines(prev_t, devs));
    let need_setup = !prev_forwarded && effective.is_some();
    AdbCheck { previous: prev, effective, need_setup }
}

/// `r` is the `adb` command that removes the app's reverse forwarding on device
/// `serial`: `-s <serial> reverse --remove tcp:<ANDROID_APP_PORT>`.
pub open spec fn removes_forward_of(r: Vec<String>, serial: Seq<char>) -> bool {
    texts_of(r@) == remove_reverse_texts(serial, ANDROID_APP_PORT)
}

/// The `adb` command that removes the app's reverse forwarding on `serial`.
fn removal_for(serial: &str) -> (r: Vec<String>)
    ensures
        removes_forward_of(r, serial@),
{
    adb_remove_reverse_args(serial, ANDROID_APP_PORT)
}

/// After a look at the devices, the `adb` command that removes the forwarding of
/// the device selected before, where another one is selected now; `None` where
/// there is nothing to remove.
pub fn stale_forward(previous: &Option<String>, effective: &Option<String>) -> (r: Option<Vec<String>>)
    ensures
        match (serial_text(*previous), serial_text(*effective)) {
            (Some(p), Some(e)) => if p != e {
                r matches Some(a) && removes_forward_of(a, p)
            } else {
                r is None
            },
            _ => r is None,
        },
{
    match (previous, effective) {
        (Some(p), Some(e)) => if !str_eq(p.as_str(), e.as_str()) {
            Some(removal_for(p.as_str()))
        } else {
            None
        },
        _ => None,
    }
}

/// `Android <device port> -> PC <host port>`.
pub open spec fn forward_text(device_port: u16, host_port: u16) -> Seq<char> {
    "Android "@ + int_text(device_port as int) + " -> PC "@ + int_text(host_port as int)
}

fn forward_words(device_port: u16, host_port: u16) -> (r: String)
    ensures
        r@ == forward_text(device_port, host_port),
{
    let mut r = String::from_str("Android ");
    let d = u64_text(device_port as u64);
    r.append(d.as_str());
    r.append(" -> PC ");
    let h = u64_text(host_port as u64);
    r.append(h.as_str());
    r
}

/// Forwarding of the app's port to `host_port` was found to be active already: it
/// is noted and logged, and the status follows.
pub fn forward_found_active(state: &mut AppState, counter: &ConnectionCounter, host_port: u16)
    ensures
        exists|mid: AppState|
            {
                &&& #[trigger] log_added(
                    old(state).logs@,
                    mid.logs@,
                    "INFO"@,
                    "ADB reverse active: "@ + forward_text(ANDROID_APP_PORT, host_port),
                )
                &&& mid.adb_status == (AdbStatus { port_forwarded: true, ..old(state).adb_status })
                &&& mid.connection_status == old(state).connection_status
                &&& mid.connected_device == old(state).connected_device
                &&& same_data(*old(state), mid)
                &&& same_server(*old(state), mid)
                &&& status_applied(mid, *final(state), *counter)
            },
{
    state.adb_status.port_forwarded = true;
    let mut m = String::from_str("ADB reverse active: ");
    let f = forward_words(ANDROID_APP_PORT, host_port);
    m.append(f.as_str());
    state.add_log("INFO", m);
    let ghost mid = *state;
    apply_connection_status(state, counter);
    assert(status_applied(mid, *state, *counter));
}

/// Setting up forwarding of the app's port on device `serial` to `host_port`
/// begins; the `adb` command that sets it up is given.
pub fn forward_setup_started(state: &mut AppState, serial: &str, host_port: u16) -> (r: Vec<String>)
    ensures
        texts_of(r@) == reverse_texts(serial@, ANDROID_APP_PORT, host_port),
        final(state).connection_status == ConnectionStatus::AdbForwarding,
        log_added(
            old(state).logs@,
            final(state).logs@,
            "INFO"@,
            "Setting up ADB reverse for device "@ + serial@ + ": "@ + forward_text(
                ANDROID_APP_PORT,
                host_port,
            ) + "..."@,
        ),
        final(state).adb_status == old(state).adb_status,
        final(state).connected_device == old(state).connected_device,
        same_data(*old(state), *final(state)),
        same_server(*old(state), *final(state)),
{
    state.connection_status = ConnectionStatus::AdbForwarding;
    let mut m = String::from_str("Setting up ADB reverse for device ");
    m.append(serial);
    m.append(": ");
    let f = forward_words(ANDROID_APP_PORT, host_port);
    m.append(f.as_str());
    m.append("...");
    state.add_log("INFO", m);
    adb_reverse_args(serial, ANDROID_APP_PORT, host_port)
}

/// Setting up forwarding of the app's port to `host_port` ended: where it worked,
/// forwarding is noted and
/// logged and the status follows; where it failed, the error is logged and shown,
/// and forwarding is noted as off when `reset_on_error` is set.
pub fn forward_setup_finished(
    state: &mut AppState,
    counter: &ConnectionCounter,
    host_port: u16,
    outcome: Result<(), String>,
    reset_on_error: bool,
)
    ensures
        match outcome {
            Ok(()) => exists|mid: AppState|
                {
                    &&& #[trigger] log_added(
                        old(state).logs@,
                        mid.logs@,
                        "INFO"@,
                        "ADB reverse set up successfully: "@ + forward_text(
                            ANDROID_APP_PORT,
                            host_port,
                        ),
                    )
                    &&& mid.adb_status == (AdbStatus {
                        port_forwarded: true,
                        ..old(state).adb_status
                    })
                    &&& mid.connection_status == old(state).connection_status
                    &&& mid.connected_device == old(state).connected_device
                    &&& same_data(*old(state), mid)
                    &&& same_server(*old(state), mid)
                    &&& status_applied(mid, *final(state), *counter)
                },
            Err(e) => {
                &&& log_added(
                    old(state).logs@,
                    final(state).logs@,
                    "ERROR"@,
                    "Failed to setup ADB reverse: "@ + e@,
                )
                &&& final(state).connection_status matches ConnectionStatus::Error(m) && m@
                    == "ADB reverse failed: "@ + e@
                &&& final(state).adb_status == (AdbStatus {
                    port_forwarded: !reset_on_error && old(state).adb_status.port_forwarded,
                    ..old(state).adb_status
                })
                &&& final(state).connected_device == old(state).connected_device
                &&& same_data(*old(state), *final(state))
                &&& same_server(*old(state), *final(state))
            },
        },
{
    match outcome {
        Ok(()) => {
            state.adb_status.port_forwarded = true;
            let mut m = String::from_str("ADB reverse set up successfully: ");
            let f = forward_words(ANDROID_APP_PORT, host_port);
            m.append(f.as_str());
            state.add_log("INFO", m);
            let ghost mid = *state;
            apply_connection_status(state, counter);
            assert(status_applied(mid, *state, *counter));
        },
        Err(e) => {
            if reset_on_error {
                state.adb_status.port_forwarded = false;
            }
            let mut m = String::from_str("Failed to setup ADB reverse: ");
            m.append(e.as_str());
            state.add_log("ERROR", m);
            let mut s = String::from_str("ADB reverse failed: ");
            s.append(e.as_str());
            state.connection_status = ConnectionStatus::Error(s);
        },
    }
}

/// A restart of `adb` was asked for: it is logged, and the `adb` command that
/// removes the forwarding of the selected device (where one is selected) is given,
/// to be run before the restart.
pub fn reconnect_requested(state: &mut AppState) -> (r: Option<Vec<String>>)
    ensures
        log_added(old(state).logs@, final(state).logs@, "INFO"@, "Reconnecting ADB..."@),
        same_but_logs(*old(state), *final(state)),
        match old(state).adb_status.device_serial {
            Some(s) => r matches Some(a) && removes_forward_of(a, s@),
            None => r is None,
        },
{
    state.add_log("INFO", String::from_str("Reconnecting ADB..."));
    match &state.adb_status.device_serial {
        Some(s) => Some(removal_for(s.as_str())),
        None => None,
    }
}

/// The device to select after `adb` restarted: the only one where there is one,
/// else the one selected before if it is still there.
pub fn select_after_restart(devices: &Vec<String>, selected: &Option<String>) -> (r: Option<String>)
    ensures
        serial_text(r) == kept_selection(serial_text(*selected), texts_of(devices@)),
{
    if devices.len() == 1 {
        assert(texts_of(devices@)[0] == devices@[0]@);
        Some(devices[0].clone())
    } else {
        match selected {
            Some(s) => if contains_string(devices, s.as_str()) {
                Some(s.clone())
            } else {
                None
            },
            None => None,
        }
    }
}

/// Takes in what a restart of `adb` found: whether it runs, the devices it lists,
/// and the device now selected.
pub fn restart_observed(state: &mut AppState, adb_ok: bool, devices: &Vec<String>, effective: Option<String>)
    ensures
        final(state).adb_status.adb_available == adb_ok,
        final(state).adb_status.devices@ == devices@,
        final(state).adb_status.device_connected == effective is Some,
        final(state).adb_status.device_serial == effective,
        final(state).adb_status.last_check is Some,
        final(state).adb_status.port_forwarded == old(state).adb_status.port_forwarded,
        final(state).logs@ == old(state).logs@,
        final(state).connection_status == old(state).connection_status,
        final(state).connected_device == old(state).connected_device,
        same_data(*old(state), *final(state)),
        same_server(*old(state), *final(state)),
{
    state.adb_status.adb_available = adb_ok;
    state.adb_status.devices = clone_strings(devices);
    state.adb_status.device_connected = effective.is_some();
    state.adb_status.device_serial = effective;
    state.adb_status.last_check = Some(instant_now());
}

} // verus!

verus! {

/// The text that `Debug` writes for a connection status.
pub open spec fn status_debug(s: ConnectionStatus) -> Seq<char> {
    match s {
        ConnectionStatus::Disconnected => "Disconnected"@,
        ConnectionStatus::Connecting => "Connecting"@,
        ConnectionStatus::Connected => "Connected"@,
        ConnectionStatus::WaitingForDevice => "WaitingForDevice"@,
        ConnectionStatus::AdbForwarding => "AdbForwarding"@,
        ConnectionStatus::Error(e) => "Error("@ + debug_quoted(e@) + ")"@,
    }
}

/// The `Debug` text of a connection status.
pub fn status_debug_text(s: &ConnectionStatus) -> (r: String)
    ensures
        r@ == status_debug(*s),
{
    match s {
        ConnectionStatus::Disconnected => String::from_str("Disconnected"),
        ConnectionStatus::Connecting => String::from_str("Connecting"),
        ConnectionStatus::Connected => String::from_str("Connected"),
        ConnectionStatus::WaitingForDevice => String::from_str("WaitingForDevice"),
        ConnectionStatus::AdbForwarding => String::from_str("AdbForwarding"),
        ConnectionStatus::Error(e) => {
            let mut r = String::from_str("Error(");
            let d = debug_text(e.as_str());
            r.append(d.as_str());
            r.append(")");
            r
        },
    }
}

/// The command that asks the phone for its messages: `{"command":"fetch_all_sms"}`,
/// with the latest `limit` of them asked for where `limit` is positive.
pub open spec fn fetch_command_text(limit: i32) -> Seq<char> {
    if limit > 0 {
        "{\"command\":\"fetch_all_sms\",\"limit\":"@ + int_text(limit as int) + "}"@
    } else {
        "{\"command\":\"fetch_all_sms\"}"@
    }
}

/// How a fetch is named in the log.
pub open spec fn fetch_label(limit: i32) -> Seq<char> {
    if limit > 0 {
        "Fetch SMS (latest "@ + int_text(limit as int) + ")"@
    } else {
        "Fetch All SMS"@
    }
}

/// The user asks for the latest `limit` messages (all where `limit` is not
/// positive). Where the phone is not connected, that is logged as an error and
/// nothing is sent; else the request and the queued command are logged, and the
/// command to send is given.
pub fn fetch_sms_request(state: &mut AppState, limit: i32) -> (r: Option<String>)
    ensures
        final(state).connection_status == old(state).connection_status,
        final(state).adb_status == old(state).adb_status,
        final(state).connected_device == old(state).connected_device,
        same_data(*old(state), *final(state)),
        same_server(*old(state), *final(state)),
        old(state).connection_status != ConnectionStatus::Connected ==> {
            &&& r is None
            &&& log_added(
                old(state).logs@,
                final(state).logs@,
                "ERROR"@,
                "Cannot send: not connected ("@ + status_debug(old(state).connection_status)
                    + ")"@,
            )
        },
        old(state).connection_status == ConnectionStatus::Connected ==> {
            &&& r matches Some(c) && c@ == fetch_command_text(limit)
            &&& logged(
                old(state).logs@,
                final(state).logs@,
                seq![
                    ("INFO"@, "User requested: "@ + fetch_label(limit)),
                    ("INFO"@, "Queuing command: "@ + fetch_command_text(limit)),
                ],
            )
        },
{
    let connected = match &state.connection_status {
        ConnectionStatus::Connected => true,
        _ => false,
    };
    if !connected {
        let mut m = String::from_str("Cannot send: not connected (");
        let d = status_debug_text(&state.connection_status);
        m.append(d.as_str());
        m.append(")");
        state.add_log("ERROR", m);
        return None;
    }
    let mut cmd;
    let mut label;
    if limit > 0 {
        let n = i64_text(limit as i64);
        cmd = String::from_str("{\"command\":\"fetch_all_sms\",\"limit\":");
        cmd.append(n.as_str());
        cmd.append("}");
        label = String::from_str("Fetch SMS (latest ");
        label.append(n.as_str());
        label.append(")");
    } else {
        cmd = String::from_str("{\"command\":\"fetch_all_sms\"}");
        label = String::from_str("Fetch All SMS");
    }
    let ghost log0 = state.logs@;
    proof { lemma_logged_none(log0); }
    let mut m = String::from_str("User requested: ");
    m.append(label.as_str());
    let ghost l1 = m@;
    state.add_log("INFO", m);
    let ghost after1 = state.logs@;
    proof { lemma_logged_more(log0, log0, after1, seq![], "INFO"@, l1); }
    let mut q = String::from_str("Queuing command: ");
    q.append(cmd.as_str());
    let ghost l2 = q@;
    state.add_log("INFO", q);
    proof {
        lemma_logged_more(log0, after1, state.logs@, seq![("INFO"@, l1)], "INFO"@, l2);
        assert(seq![("INFO"@, l1)].push(("INFO"@, l2)) =~= seq![("INFO"@, l1), ("INFO"@, l2)]);
    }
    Some(cmd)
}

/// The user selects device `serial`. Where that changes the selection, the
/// forwarding, phone, messages and SIM cards of the old device are dropped, the
/// state waits for the new device, the choice is logged, and the status follows;
/// given back (inside `Some`) is the `adb` command that removes the forwarding of
/// the device selected before, where there was one. Where the choice changes
/// nothing, `None` is given and nothing changes.
pub fn select_device(state: &mut AppState, counter: &ConnectionCounter, serial: &str) -> (r: Option<
    Option<Vec<String>>,
>)
    ensures
        old(state).adb_status.device_serial matches Some(s) && s@ == serial@ ==> {
            &&& r is None
            &&& *final(state) == *old(state)
        },
        !(old(state).adb_status.device_serial matches Some(s) && s@ == serial@) ==> {
            &&& r matches Some(removal) && match old(state).adb_status.device_serial {
                Some(p) => removal matches Some(a) && removes_forward_of(a, p@),
                None => removal is None,
            }
            &&& exists|mid: AppState|
                {
                    &&& #[trigger] log_added(
                        old(state).logs@,
                        mid.logs@,
                        "INFO"@,
                        "Selected device: "@ + serial@,
                    )
                    &&& mid.adb_status.device_serial matches Some(s) && s@ == serial@
                    &&& !mid.adb_status.port_forwarded
                    &&& mid.adb_status.adb_available == old(state).adb_status.adb_available
                    &&& mid.adb_status.device_connected == old(state).adb_status.device_connected
                    &&& mid.adb_status.last_check == old(state).adb_status.last_check
                    &&& mid.adb_status.devices == old(state).adb_status.devices
                    &&& mid.pending_command == old(state).pending_command
                    &&& mid.last_activity == old(state).last_activity
                    &&& same_server(*old(state), mid)
                    &&& mid.connection_status == ConnectionStatus::WaitingForDevice
                    &&& mid.connected_device is None
                    &&& mid.sms_list@.len() == 0
                    &&& mid.sim_cards@.len() == 0
                    &&& mid.selected_sim is None
                    &&& status_applied(mid, *final(state), *counter)
                }
        },
{
    let same = match &state.adb_status.device_serial {
        Some(s) => str_eq(s.as_str(), serial),
        None => false,
    };
    if same {
        return None;
    }
    let removal = match &state.adb_status.device_serial {
        Some(p) => Some(removal_for(p.as_str())),
        None => None,
    };
    state.adb_status.device_serial = Some(String::from_str(serial));
    state.adb_status.port_forwarded = false;
    state.connection_status = ConnectionStatus::WaitingForDevice;
    state.connected_device = None;
    state.sms_list.clear();
    state.sim_cards.clear();
    state.selected_sim = None;
    let mut m = String::from_str("Selected device: ");
    m.append(serial);
    state.add_log("INFO", m);
    let ghost mid = *state;
    apply_connection_status(state, counter);
    assert(status_applied(mid, *state, *counter));
    Some(removal)
}

} // verus!

verus! {

/// After a look at the devices (or a restart of `adb`), the selected device is one
/// that `adb` lists; the only listed device is always taken; a selected device that
/// is still listed stays; and one that is no longer listed (the list empty, or
/// holding other devices but not just one) is dropped, which is the case that warns
/// and turns forwarding off.
pub proof fn law_selection_follows_the_listing(prev: Option<Seq<char>>, devices: Seq<Seq<char>>)
    ensures
        kept_selection(prev, devices) matches Some(s) ==> devices.contains(s),
        devices.len() == 1 ==> kept_selection(prev, devices) == Some(devices[0]),
        prev matches Some(p) && devices.contains(p) ==> kept_selection(prev, devices) is Some,
        prev matches Some(p) && devices.len() != 1 && devices.contains(p) ==> kept_selection(
            prev,
            devices,
        ) == prev,
        prev matches Some(p) && devices.len() != 1 && !devices.contains(p) ==> {
            &&& kept_selection(prev, devices) is None
            &&& selection_dropped(prev, devices)
        },
        prev is None && devices.len() != 1 ==> kept_selection(prev, devices) is None,
        selection_dropped(prev, devices) ==> prev is Some && kept_selection(prev, devices) is None,
{
    if devices.len() == 1 {
        assert(devices.contains(devices[0]));
    }
}

} // verus!

verus! {

/// The prefix of a fetch command that names a limit.
pub open spec fn limited_fetch_prefix() -> Seq<char> {
    "{\"command\":\"fetch_all_sms\",\"limit\":"@
}

/// A fetch for a positive `limit` asks for exactly that many messages: the command
/// is the limited prefix, then decimal digits that read back as `limit`, then `}`;
/// and its log label names the same number. A fetch without a positive limit asks
/// for all messages and names no limit.
pub proof fn law_fetch_names_its_limit(limit: i32)
    ensures
        limit > 0 ==> ({
            let cmd = fetch_command_text(limit);
            let p = limited_fetch_prefix();
            let digits = cmd.subrange(p.len() as int, cmd.len() - 1);
            &&& cmd.len() > p.len() + 1
            &&& cmd.subrange(0, p.len() as int) == p
            &&& cmd.last() == '}'
            &&& forall|i: int| 0 <= i < digits.len() ==> is_digit(#[trigger] digits[i])
            &&& digits_value(digits) == limit
        }),
        limit > 0 ==> ({
            let label = fetch_label(limit);
            let p = "Fetch SMS (latest "@;
            let digits = label.subrange(p.len() as int, label.len() - 1);
            &&& label.len() > p.len() + 1
            &&& label.subrange(0, p.len() as int) == p
            &&& label.last() == ')'
            &&& forall|i: int| 0 <= i < digits.len() ==> is_digit(#[trigger] digits[i])
            &&& digits_value(digits) == limit
        }),
        limit <= 0 ==> fetch_command_text(limit) == "{\"command\":\"fetch_all_sms\"}"@,
        limit <= 0 ==> fetch_label(limit) == "Fetch All SMS"@,
{
    if limit > 0 {
        reveal_strlit("}");
        reveal_strlit(")");
        let n = limit as nat;
        lemma_decimal_reads_back(n);
        assert(int_text(limit as int) == decimal(n));
        let p = limited_fetch_prefix();
        let cmd = fetch_command_text(limit);
        assert(cmd == p + decimal(n) + "}"@);
        assert(cmd.subrange(0, p.len() as int) =~= p);
        assert(cmd.subrange(p.len() as int, cmd.len() - 1) =~= decimal(n));
        let q = "Fetch SMS (latest "@;
        let label = fetch_label(limit);
        assert(label == q + decimal(n) + ")"@);
        assert(label.subrange(0, q.len() as int) =~= q);
        assert(label.subrange(q.len() as int, label.len() - 1) =~= decimal(n));
    }
}

} // verus!
