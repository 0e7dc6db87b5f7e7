use std::fmt::Write;

use vstd::prelude::*;

verus! {

/// A point in UTC time: seconds since the Unix epoch and the nanoseconds past them,
/// as `chrono::DateTime<Utc>::timestamp` and `timestamp_subsec_nanos` give them.
#[derive(Debug, Clone, Copy, PartialEq, Eq, Structural)]
pub struct UtcTime {
    pub secs: i64,
    pub nanos: u32,
}

/// A reading of the system clock.
#[verifier::external_type_specification]
#[verifier::external_body]
pub struct ExSystemTime(std::time::SystemTime);

/// `SystemTime::now()`: the current reading of the system clock; nothing is
/// claimed of it.
#[verifier::external_body]
fn system_now() -> std::time::SystemTime {
    std::time::SystemTime::now()
}

/// `t.duration_since(UNIX_EPOCH)`: whether `t` is at or after the epoch, and how
/// far from it, in whole seconds and the nanoseconds past them (for a time before
/// the epoch, the distance that the error carries). Claims, as the documentation of
/// `Duration::subsec_nanos` says, that the nanoseconds are less than a second.
#[verifier::external_body]
fn since_epoch(t: &std::time::SystemTime) -> (r: (bool, u64, u32))
    ensures
        r.2 < 1_000_000_000,
{
    match t.duration_since(std::time::UNIX_EPOCH) {
        Ok(d) => (true, d.as_secs(), d.subsec_nanos()),
        Err(e) => (false, e.duration().as_secs(), e.duration().subsec_nanos()),
    }
}

/// The UTC time of a clock reading that lies `secs` seconds and `nanos`
/// nanoseconds after the epoch (`after`) or before it: the seconds are counted
/// down from the epoch and the nanoseconds up from those seconds, as chrono counts
/// them; a distance beyond what `i64` holds is cut to the largest one.
pub open spec fn clock_time(after: bool, secs: u64, nanos: u32) -> UtcTime {
    let s: int = if secs > i64::MAX {
        i64::MAX as int
    } else {
        secs as int
    };
    if after {
        UtcTime { secs: s as i64, nanos }
    } else if nanos == 0 {
        UtcTime { secs: (-s) as i64, nanos: 0 }
    } else {
        UtcTime { secs: (-s - 1) as i64, nanos: (1_000_000_000 - nanos) as u32 }
    }
}

/// The current UTC time, from the system clock; a clock set before the epoch
/// gives a time before it.
pub(crate) fn utc_now() -> (t: UtcTime)
    ensures
        t.nanos < 1_000_000_000,
        exists|after: bool, secs: u64, nanos: u32|
            nanos < 1_000_000_000 && t == #[trigger] clock_time(after, secs, nanos),
{
    let now = system_now();
    let (after, secs, nanos) = since_epoch(&now);
    let s: i64 = if secs > i64::MAX as u64 {
        i64::MAX
    } else {
        secs as i64
    };
    let t = if after {
        UtcTime { secs: s, nanos }
    } else if nanos == 0 {
        UtcTime { secs: -s, nanos: 0 }
    } else {
        UtcTime { secs: -s - 1, nanos: 1_000_000_000 - nanos }
    };
    assert(t == clock_time(after, secs, nanos));
    t
}

/// The milliseconds since the epoch of a time, as chrono's `timestamp_millis`
/// counts them.
pub open spec fn millis_of(t: UtcTime) -> int {
    t.secs * 1000 + t.nanos / 1_000_000
}

/// `x`, or the nearest end of the range of `i64` where it lies outside.
pub open spec fn clamp_i64(x: int) -> i64 {
    if x > i64::MAX {
        i64::MAX
    } else if x < i64::MIN {
        i64::MIN
    } else {
        x as i64
    }
}

/// The milliseconds since the epoch of `t`, cut to the range of `i64`.
pub fn millis(t: &UtcTime) -> (r: i64)
    ensures
        r == clamp_i64(millis_of(*t)),
{
    let v: i128 = (t.secs as i128) * 1000 + (t.nanos / 1_000_000) as i128;
    if v > i64::MAX as i128 {
        i64::MAX
    } else if v < i64::MIN as i128 {
        i64::MIN
    } else {
        v as i64
    }
}

/// The current time in milliseconds since the epoch, from the system clock.
pub(crate) fn utc_now_millis() -> (r: i64)
    ensures
        exists|t: UtcTime| t.nanos < 1_000_000_000 && r == clamp_i64(#[trigger] millis_of(t)),
{
    let t = utc_now();
    let r = millis(&t);
    assert(r == clamp_i64(millis_of(t)));
    r
}

/// The text that chrono's `format` writes for the UTC time `secs`/`nanos` with the
/// format string `fmt`; `None` where `DateTime::from_timestamp` has no such time or
/// the format string is not valid.
pub uninterp spec fn utc_format(secs: i64, nanos: u32, fmt: Seq<char>) -> Option<Seq<char>>;

/// The first second chrono can hold (January 1 of the year -262143, UTC).
pub const CHRONO_MIN_SECS: i64 = -8_334_601_228_800;

/// The last second chrono can hold (December 31 of the year 262142, UTC).
pub const CHRONO_MAX_SECS: i64 = 8_210_266_876_799;

/// `t` is a time that chrono holds, with its nanoseconds less than a second.
pub open spec fn within_chrono_range(t: UtcTime) -> bool {
    &&& CHRONO_MIN_SECS <= t.secs <= CHRONO_MAX_SECS
    &&& t.nanos < 1_000_000_000
}

/// The format of a full date and time: `%Y-%m-%d %H:%M:%S`.
pub open spec fn full_time_format() -> Seq<char> {
    "%Y-%m-%d %H:%M:%S"@
}

/// The format of a short date and time: `%m-%d %H:%M`.
pub open spec fn short_time_format() -> Seq<char> {
    "%m-%d %H:%M"@
}

/// Formats a UTC time with chrono (`DateTime::<Utc>::from_timestamp`, then
/// `format(fmt)`, written into a string; a format error gives `None`). Claims that
/// the text depends on the time and format alone; that a time outside chrono's
/// range (which `from_timestamp` refuses) gives `None`; and that a time within it
/// written in the full or the short format (whose items never fail to format)
/// gives some text.
#[verifier::external_body]
pub(crate) fn format_utc(t: UtcTime, fmt: &str) -> (r: Option<String>)
    ensures
        match r {
            Some(s) => utc_format(t.secs, t.nanos, fmt@) == Some(s@),
            None => utc_format(t.secs, t.nanos, fmt@) is None,
        },
        !(CHRONO_MIN_SECS <= t.secs <= CHRONO_MAX_SECS) ==> r is None,
        within_chrono_range(t) && (fmt@ == full_time_format() || fmt@ == short_time_format())
            ==> r is Some,
{
    let d = chrono::DateTime::<chrono::Utc>::from_timestamp(t.secs, t.nanos)?;
    let mut s = String::new();
    write!(s, "{}", d.format(fmt)).ok().map(|_| s)
}

/// The time `ms` milliseconds after the epoch: whole seconds counted down, and the
/// milliseconds past them as nanoseconds, as chrono's `from_timestamp_millis` splits
/// them.
pub open spec fn time_of_millis(ms: i64) -> UtcTime {
    UtcTime { secs: (ms / 1000) as i64, nanos: ((ms % 1000) * 1_000_000) as u32 }
}

/// The time `ms` milliseconds after the epoch.
pub fn utc_of_millis(ms: i64) -> (t: UtcTime)
    ensures
        t == time_of_millis(ms),
{
    let w: i128 = ms as i128;
    let q: i128 = if w >= 0 {
        w / 1000
    } else {
        -((-w + 999) / 1000)
    };
    let r: i128 = w - q * 1000;
    assert(q == ms / 1000 && r == ms % 1000) by (nonlinear_arith)
        requires
            w == ms,
            w >= 0 ==> q == w / 1000,
            w < 0 ==> q == -((-w + 999) / 1000),
            r == w - q * 1000,
    ;
    UtcTime { secs: q as i64, nanos: (r * 1_000_000) as u32 }
}

/// The text of the time `ms` milliseconds after the epoch in format `fmt`, as
/// chrono writes it; empty where chrono has no such time.
pub open spec fn millis_text(ms: i64, fmt: Seq<char>) -> Seq<char> {
    match utc_format(time_of_millis(ms).secs, time_of_millis(ms).nanos, fmt) {
        Some(t) => t,
        None => Seq::empty(),
    }
}

} // verus!
