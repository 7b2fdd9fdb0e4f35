//! Instants as microseconds since the Unix epoch, with the bounds that the
//! date-time library (chrono) can represent.
use vstd::prelude::*;

verus! {

/// Microsecond timestamp of `-262143-01-01T00:00:00Z`, the earliest instant chrono represents.
pub const MIN_UTC_MICROS: i64 = -8334601228800000000i64;

/// Last microsecond of `+262142-12-31T23:59:59Z`, the latest instant chrono represents.
pub const MAX_UTC_MICROS: i64 = 8210266876799999999i64;

/// Largest whole number of seconds a chrono `TimeDelta` holds (`i64::MAX` milliseconds).
pub const MAX_DELTA_SECS: i64 = 9223372036854775i64;

pub const MICROS_PER_SEC: i64 = 1000000i64;

pub const SECS_PER_DAY: i64 = 86400i64;

/// An instant that chrono can represent.
pub open spec fn in_utc_range(us: int) -> bool {
    MIN_UTC_MICROS <= us <= MAX_UTC_MICROS
}

/// An instant the system clock can report through chrono: not before the
/// epoch (`Utc::now` panics on an earlier system time) and representable.
pub open spec fn clock_instant(us: int) -> bool {
    0 <= us && in_utc_range(us)
}

/// A number of seconds that `TimeDelta::seconds` accepts without panicking.
pub open spec fn delta_secs_in_range(secs: int) -> bool {
    -MAX_DELTA_SECS <= secs <= MAX_DELTA_SECS
}

/// `now + TimeDelta::seconds(secs)`, or `None` where chrono would panic.
pub open spec fn after_seconds(now: int, secs: int) -> Option<int> {
    if delta_secs_in_range(secs) && in_utc_range(now) && in_utc_range(now + secs * MICROS_PER_SEC) {
        Some(now + secs * MICROS_PER_SEC)
    } else {
        None
    }
}

/// `now + TimeDelta::days(days)`, or `None` where chrono would panic.
pub open spec fn after_days(now: int, days: int) -> Option<int> {
    after_seconds(now, days * SECS_PER_DAY)
}

/// Whole seconds of an instant (`DateTime::timestamp`), rounded towards the past.
pub open spec fn unix_seconds(us: int) -> int {
    us / (MICROS_PER_SEC as int)
}

/// The instant `secs` seconds after `now`, if chrono can build it.
pub fn add_seconds(now: i64, secs: i64) -> (r: Option<i64>)
    ensures
        match r {
            Some(v) => after_seconds(now as int, secs as int) == Some(v as int),
            None => after_seconds(now as int, secs as int) is None,
        },
{
    if secs < -MAX_DELTA_SECS || secs > MAX_DELTA_SECS {
        return None;
    }
    if now < MIN_UTC_MICROS || now > MAX_UTC_MICROS {
        return None;
    }
    let t: i128 = (now as i128) + (secs as i128) * (MICROS_PER_SEC as i128);
    if t < MIN_UTC_MICROS as i128 || t > MAX_UTC_MICROS as i128 {
        return None;
    }
    Some(t as i64)
}

/// The instant `days` days after `now`, if chrono can build it.
pub fn add_days(now: i64, days: i64) -> (r: Option<i64>)
    ensures
        match r {
            Some(v) => after_days(now as int, days as int) == Some(v as int),
            None => after_days(now as int, days as int) is None,
        },
{
    proof {
        assert(-86400 * 0x8000_0000_0000_0000 <= (days as int) * 86400 <= 86400 * 0x8000_0000_0000_0000) by (nonlinear_arith)
            requires i64::MIN <= days <= i64::MAX;
    }
    let secs: i128 = (days as i128) * (SECS_PER_DAY as i128);
    if secs < -(MAX_DELTA_SECS as i128) || secs > MAX_DELTA_SECS as i128 {
        return None;
    }
    add_seconds(now, secs as i64)
}

/// Whole seconds of an instant, rounded towards the past.
pub fn unix_seconds_of(us: i64) -> (r: i64)
    ensures
        r as int == unix_seconds(us as int),
{
    if us >= 0 {
        let q = (us as u64) / 1000000u64;
        proof {
            assert(q as int == (us as int) / 1000000) by (nonlinear_arith)
                requires q as int == (us as u64) as int / 1000000, us >= 0;
        }
        q as i64
    } else {
        let m: u64 = ((-(us as i128)) - 1) as u64;
        let q = m / 1000000u64;
        proof {
            let n = us as int;
            assert(-(q as int) - 1 == n / 1000000) by (nonlinear_arith)
                requires q as int == (-n - 1) / 1000000, n < 0;
        }
        -(q as i64) - 1
    }
}

/// An instant at nanosecond precision: microseconds since the epoch, and the
/// nanoseconds past that microsecond.
#[derive(Clone, Copy, Debug, PartialEq, Eq)]
pub struct Instant {
    pub micros: i64,
    pub nanos: u32,
}

impl Instant {
    /// Nanoseconds since the epoch.
    pub open spec fn total_nanos(self) -> int {
        self.micros * 1000 + self.nanos
    }
}

/// `chrono::Utc::now`, as its `timestamp` (whole seconds) and
/// `timestamp_subsec_nanos`. `Utc::now` panics on a system time before the
/// epoch and unwraps `DateTime::from_timestamp` with fewer than a billion
/// nanoseconds, so an instant it returns is at or after the epoch, within
/// chrono's range, with its nanoseconds below one second. Which instant it
/// is, is left unsaid.
#[verifier::external_body]
fn now_parts() -> (r: (i64, u32))
    ensures
        r.1 < 1000000000,
        clock_instant(r.0 * 1000000 + r.1 / 1000),
{
    let now = chrono::Utc::now();
    (now.timestamp(), now.timestamp_subsec_nanos())
}

/// The present, read from the system clock.
pub fn now() -> (r: Instant)
    ensures
        clock_instant(r.micros as int),
        r.nanos < 1000,
{
    let (secs, nanos) = now_parts();
    proof {
        let q: int = nanos as int / 1000;
        assert(0 <= q < 1000000);
        assert(0 <= secs) by (nonlinear_arith)
            requires 0 <= secs * 1000000 + q, 0 <= q < 1000000;
    }
    let micros = secs * 1000000 + (nanos / 1000) as i64;
    Instant { micros, nanos: nanos % 1000 }
}

/// What chrono's `DateTime::to_rfc3339` writes for the UTC instant with this
/// microsecond timestamp.
pub uninterp spec fn rfc3339_text(us: i64) -> Seq<char>;

/// `DateTime::from_timestamp_micros(us)` then `to_rfc3339`: the RFC 3339 text
/// of an instant. The instant is in chrono's range, so the conversion succeeds.
#[verifier::external_body]
pub(crate) fn rfc3339(us: i64) -> (r: String)
    requires
        in_utc_range(us as int),
    ensures
        r@ == rfc3339_text(us),
{
    chrono::DateTime::from_timestamp_micros(us).expect("instant in chrono's range").to_rfc3339()
}

} // verus!
