use vstd::prelude::*;
use vstd::string::*;

use super::state::ConnectionStatus;
use crate::text::{first_chars, first_chars_text};
use crate::time::{
    format_utc, full_time_format, millis_text, short_time_format, time_of_millis, utc_format,
    utc_of_millis, within_chrono_range,
};

verus! {

/// The most characters of a message's body that its row in the message list shows.
pub const LIST_PREVIEW_CHARS: usize = 50;

/// How the connection status is shown in the window.
pub open spec fn status_label_text(s: ConnectionStatus) -> Seq<char> {
    match s {
        ConnectionStatus::Connected => "App Connected"@,
        ConnectionStatus::WaitingForDevice => "Waiting for app..."@,
        ConnectionStatus::AdbForwarding => "Setting up ADB..."@,
        ConnectionStatus::Disconnected => "Disconnected"@,
        ConnectionStatus::Connecting => "Connecting..."@,
        ConnectionStatus::Error(e) => e@,
    }
}

/// The label of the connection status: the error itself for an error.
pub fn status_label(s: &ConnectionStatus) -> (r: String)
    ensures
        r@ == status_label_text(*s),
{
    match s {
        ConnectionStatus::Connected => String::from_str("App Connected"),
        ConnectionStatus::WaitingForDevice => String::from_str("Waiting for app..."),
        ConnectionStatus::AdbForwarding => String::from_str("Setting up ADB..."),
        ConnectionStatus::Disconnected => String::from_str("Disconnected"),
        ConnectionStatus::Connecting => String::from_str("Connecting..."),
        ConnectionStatus::Error(e) => e.clone(),
    }
}

/// The label of the reverse forwarding.
pub fn forward_label(active: bool) -> (r: String)
    ensures
        r@ == if active {
            "Reverse: Active"@
        } else {
            "Reverse: Inactive"@
        },
{
    if active {
        String::from_str("Reverse: Active")
    } else {
        String::from_str("Reverse: Inactive")
    }
}

/// The part of a body that the message list shows: its first `LIST_PREVIEW_CHARS`
/// characters.
pub fn list_preview_text(body: &str) -> (r: String)
    ensures
        r@ == first_chars(body@, LIST_PREVIEW_CHARS as nat),
{
    first_chars_text(body, LIST_PREVIEW_CHARS)
}

fn time_text(ms: i64, fmt: &str) -> (r: String)
    ensures
        r@ == millis_text(ms, fmt@),
        within_chrono_range(time_of_millis(ms)) && (fmt@ == full_time_format() || fmt@
            == short_time_format()) ==> utc_format(
            time_of_millis(ms).secs,
            time_of_millis(ms).nanos,
            fmt@,
        ) is Some,
{
    let t = utc_of_millis(ms);
    match format_utc(t, fmt) {
        Some(s) => s,
        None => String::new(),
    }
}

/// The time of a message (milliseconds since the epoch) as its row in the message
/// list shows it, `%m-%d %H:%M`; empty where chrono has no such time, which does
/// not happen within chrono's range.
pub fn list_time_text(ms: i64) -> (r: String)
    ensures
        r@ == millis_text(ms, short_time_format()),
        within_chrono_range(time_of_millis(ms)) ==> utc_format(
            time_of_millis(ms).secs,
            time_of_millis(ms).nanos,
            short_time_format(),
        ) is Some,
{
    let fmt = "%m-%d %H:%M";
    proof {
        reveal_strlit("%m-%d %H:%M");
    }
    time_text(ms, fmt)
}

/// The time of a message (milliseconds since the epoch) as its detail shows it,
/// `%Y-%m-%d %H:%M:%S`; empty where chrono has no such time, which does not happen
/// within chrono's range.
pub fn detail_time_text(ms: i64) -> (r: String)
    ensures
        r@ == millis_text(ms, full_time_format()),
        within_chrono_range(time_of_millis(ms)) ==> utc_format(
            time_of_millis(ms).secs,
            time_of_millis(ms).nanos,
            full_time_format(),
        ) is Some,
{
    let fmt = "%Y-%m-%d %H:%M:%S";
    proof {
        reveal_strlit("%Y-%m-%d %H:%M:%S");
    }
    time_text(ms, fmt)
}

} // verus!
