//! Points in time at nanosecond precision, and the current time. The
//! database stores microseconds; times taken from the clock carry
//! nanoseconds as well.

use vstd::prelude::*;

verus! {

/// A point in time: whole microseconds since 1970-01-01T00:00:00 UTC
/// (rounded down), and the nanoseconds past that microsecond (below 1000
/// for a time that chrono can hold).
#[derive(Debug, Clone, Copy, PartialEq, Eq, Structural)]
pub struct Timestamp {
    pub micros: i64,
    pub extra_nanos: u32,
}

/// Nanoseconds since the epoch.
pub open spec fn total_nanos(t: Timestamp) -> int {
    t.micros * 1000 + t.extra_nanos
}

/// The earliest representable time, in nanoseconds since the epoch.
pub open spec fn min_nanos() -> int {
    MIN_MICROS * 1000
}

/// The latest representable time, in nanoseconds since the epoch.
pub open spec fn max_nanos() -> int {
    MAX_MICROS * 1000 + 999
}

/// `n` nanoseconds since the epoch is a representable time.
pub open spec fn nanos_in_range(n: int) -> bool {
    min_nanos() <= n <= max_nanos()
}

/// A time that chrono can hold: its microseconds are representable and the
/// extra nanoseconds stay below a microsecond.
pub open spec fn valid_time(t: Timestamp) -> bool {
    in_range(t.micros as int) && t.extra_nanos < 1000
}

/// Nanoseconds since the epoch, as a wide integer.
pub fn nanos_since_epoch(t: Timestamp) -> (r: i128)
    ensures
        r == total_nanos(t),
{
    t.micros as i128 * 1000 + t.extra_nanos as i128
}

/// The earliest representable time (-262143-01-01T00:00:00).
pub const MIN_MICROS: i64 = -8334601315200000000i64;

/// The latest representable time (+262142-12-31T23:59:59.999999).
pub const MAX_MICROS: i64 = 8210266876799999999i64;

/// `m` microseconds since the epoch is a representable time.
pub open spec fn in_range(m: int) -> bool {
    MIN_MICROS <= m <= MAX_MICROS
}

/// Reads the clock.
///
/// Calls `chrono::Utc::now` once and returns its `timestamp_micros` and its
/// `timestamp_subsec_nanos`. Claims only what holds of every reading: the
/// clock is not before the epoch (`Utc::now` panics otherwise) and the time
/// is representable. The nanoseconds are left unstated.
#[verifier::external_body]
fn clock_reading() -> (r: (i64, u32))
    ensures
        0 <= r.0 <= MAX_MICROS,
{
    let now = chrono::Utc::now();
    (now.timestamp_micros(), now.timestamp_subsec_nanos())
}

/// The current time.
pub(crate) fn current_time() -> (t: Timestamp)
    ensures
        0 <= t.micros <= MAX_MICROS,
        t.extra_nanos < 1000,
{
    let (micros, subsec_nanos) = clock_reading();
    Timestamp { micros, extra_nanos: subsec_nanos % 1000 }
}

/// Whole seconds from `earlier` to `later` (nanoseconds), truncated toward zero.
pub open spec fn whole_seconds_between(later: int, earlier: int) -> int {
    let d = later - earlier;
    if d >= 0 {
        d / 1000000000
    } else {
        -((-d) / 1000000000)
    }
}

/// Whole seconds from `earlier` to `later`, truncated toward zero, as
/// chrono's `num_seconds` counts the difference of two times.
pub fn seconds_between(later: Timestamp, earlier: Timestamp) -> (r: i64)
    requires
        valid_time(later),
        valid_time(earlier),
    ensures
        r == whole_seconds_between(total_nanos(later), total_nanos(earlier)),
{
    let l = nanos_since_epoch(later);
    let e = nanos_since_epoch(earlier);
    if l >= e {
        ((l - e) / 1000000000) as i64
    } else {
        (0 - (e - l) / 1000000000) as i64
    }
}

/// Date, time and microseconds in ISO 8601 form, marked as UTC.
pub open spec fn iso_micros_pattern() -> Seq<char> {
    "%Y-%m-%dT%H:%M:%S%.6fZ"@
}

/// The text that chrono's `format` gives for the UTC time `micros`
/// microseconds after the epoch under the strftime-style `pattern`.
pub uninterp spec fn formatted_time(micros: int, pattern: Seq<char>) -> Seq<char>;

/// Formats a time with a strftime-style pattern. The pattern shows six
/// fractional digits, which chrono truncates from the nanoseconds, so the
/// nanoseconds past the microsecond never show.
///
/// Calls `chrono::DateTime::<Utc>::from_timestamp_micros`, then
/// `naive_utc().format(pattern).to_string()`. The text is named, not stated:
/// it is a function of the time and the pattern alone. For a representable
/// time the conversion always succeeds. A pattern with an invalid directive
/// would make `to_string` panic, so the pattern is held to the one this
/// library uses, which is valid.
#[verifier::external_body]
pub(crate) fn format_time(micros: i64, pattern: &str) -> (r: String)
    requires
        in_range(micros as int),
        pattern@ == iso_micros_pattern(),
    ensures
        r@ == formatted_time(micros as int, pattern@),
{
    match chrono::DateTime::<chrono::Utc>::from_timestamp_micros(micros) {
        Some(dt) => dt.naive_utc().format(pattern).to_string(),
        None => String::new(),
    }
}

/// The RFC 3339 text that chrono's `to_rfc3339` gives for the UTC time
/// `secs` seconds and `nanos` nanoseconds after the epoch.
pub uninterp spec fn rfc3339_time(secs: int, nanos: int) -> Seq<char>;

/// Formats a time in RFC 3339 form.
///
/// Calls `chrono::DateTime::<Utc>::from_timestamp(secs, nanos)` and then
/// `to_rfc3339`. The text is named, not stated: it is a function of the two
/// arguments alone. For seconds within the representable years and
/// nanoseconds below one second the conversion always succeeds, and writing
/// to a `String` does not fail.
#[verifier::external_body]
fn rfc3339_text(secs: i64, nanos: u32) -> (r: String)
    requires
        MIN_MICROS / 1000000 <= secs <= MAX_MICROS / 1000000,
        nanos < 1000000000,
    ensures
        r@ == rfc3339_time(secs as int, nanos as int),
{
    match chrono::DateTime::<chrono::Utc>::from_timestamp(secs, nanos) {
        Some(dt) => dt.to_rfc3339(),
        None => String::new(),
    }
}

/// The time in RFC 3339 form, with the offset written `+00:00` and as many
/// fractional digits as the nanoseconds need.
pub fn rfc3339(t: Timestamp) -> (r: String)
    requires
        valid_time(t),
    ensures
        r@ == rfc3339_time(total_nanos(t) / 1000000000, total_nanos(t) % 1000000000),
{
    let total = nanos_since_epoch(t);
    let base: i128 = -8334601315200000000000i128;
    let shifted = total - base;
    let secs = shifted / 1000000000 + (-8334601315200i128);
    let nanos = shifted % 1000000000;
    proof {
        let n = total_nanos(t);
        assert(base == min_nanos());
        assert(base == -8334601315200int * 1000000000);
        assert(shifted >= 0);
        assert(n == shifted + base);
        assert((shifted + base) / 1000000000 == shifted / 1000000000 + (-8334601315200int)
            && (shifted + base) % 1000000000 == shifted % 1000000000) by (nonlinear_arith)
            requires
                shifted >= 0,
                base == -8334601315200int * 1000000000;
        assert(n <= max_nanos());
        assert(shifted / 1000000000 <= (max_nanos() - base) / 1000000000) by (nonlinear_arith)
            requires
                0 <= shifted <= max_nanos() - base;
    }
    rfc3339_text(secs as i64, nanos as u32)
}

} // verus!
