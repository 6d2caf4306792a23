//! Instants on the UTC time line, held as nanoseconds since the Unix epoch.
//!
//! The `time` crate parses RFC 3339 text and reads the clock; the library keeps
//! the resulting instant as an `i128` count of nanoseconds.

use vstd::prelude::*;

verus! {

/// Nanoseconds in one second.
pub const NANOS_PER_SECOND: i128 = 1_000_000_000;

/// The first instant whose UTC date the `time` crate can hold: -9999-01-01T00:00:00Z.
pub const MIN_UTC_NANOS: i128 = -377_705_116_800_000_000_000;

/// The first instant past the last UTC date the `time` crate can hold:
/// 10000-01-01T00:00:00Z.
pub const END_UTC_NANOS: i128 = 253_402_300_800_000_000_000;

/// A bound that the instant of every `time::OffsetDateTime` respects: its
/// local date lies in -9999..=9999 and its offset within ±25:59:59.
pub open spec fn within_offset_date_time_range(n: i128) -> bool {
    -400_000_000_000_000_000_000 < n < 300_000_000_000_000_000_000
}

/// An instant whose date in UTC the `time` crate can hold.
pub open spec fn utc_representable(n: int) -> bool {
    MIN_UTC_NANOS <= n < END_UTC_NANOS
}

/// What `time::OffsetDateTime::parse(text, &Rfc3339)` yields, as the
/// instant in nanoseconds since the Unix epoch (`None` when it fails).
pub uninterp spec fn rfc3339_instant(text: Seq<char>) -> Option<i128>;

/// Calls `time::OffsetDateTime::parse` with the RFC 3339 format description
/// and converts the parsed date-time to its instant with
/// `unix_timestamp_nanos`. Claimed: the result is the named
/// `rfc3339_instant` of the text, and a parsed instant lies within the range
/// every `OffsetDateTime` lies in.
#[verifier::external_body]
pub(crate) fn parse_rfc3339(text: &str) -> (r: Option<i128>)
    ensures
        r == rfc3339_instant(text@),
        r matches Some(n) ==> within_offset_date_time_range(n),
{
    match time::OffsetDateTime::parse(text, &time::format_description::well_known::Rfc3339) {
        Ok(moment) => Some(moment.unix_timestamp_nanos()),
        Err(_) => None,
    }
}

/// Calls `time::OffsetDateTime::now_utc` and converts the result with
/// `unix_timestamp_nanos`. Claimed: the instant is one whose UTC date the
/// `time` crate can hold (it was built as a UTC date-time). Which instant it
/// is depends on the clock and is not stated.
#[verifier::external_body]
pub(crate) fn now_utc() -> (r: i128)
    ensures
        utc_representable(r as int),
{
    time::OffsetDateTime::now_utc().unix_timestamp_nanos()
}

/// `OffsetDateTime::unix_timestamp`: whole seconds, rounded toward the past.
pub open spec fn unix_seconds(nanos: int) -> int {
    nanos / (NANOS_PER_SECOND as int)
}

/// The Unix timestamp in seconds of an instant held in nanoseconds.
pub fn unix_seconds_of(nanos: i128) -> (r: i64)
    requires
        within_offset_date_time_range(nanos),
    ensures
        r as int == unix_seconds(nanos as int),
{
    let d: u128 = 1_000_000_000;
    if nanos >= 0 {
        let m = nanos as u128;
        let q = m / d;
        proof {
            vstd::arithmetic::div_mod::lemma_fundamental_div_mod(m as int, d as int);
            vstd::arithmetic::div_mod::lemma_fundamental_div_mod_converse(
                nanos as int,
                d as int,
                q as int,
                (m % d) as int,
            );
        }
        q as i64
    } else {
        let m = (0 - nanos) as u128;
        let q = (m + d - 1) / d;
        proof {
            let x = (m + d - 1) as int;
            vstd::arithmetic::div_mod::lemma_fundamental_div_mod(x, d as int);
            let r = x % (d as int);
            assert(x == (d as int) * (q as int) + r);
            assert(nanos as int == (0 - (q as int)) * (d as int) + ((d as int) - 1 - r)) by (nonlinear_arith)
                requires
                    x == (d as int) * (q as int) + r,
                    x == (m as int) + (d as int) - 1,
                    nanos as int == 0 - (m as int),
            ;
            vstd::arithmetic::div_mod::lemma_fundamental_div_mod_converse(
                nanos as int,
                d as int,
                0 - (q as int),
                (d as int) - 1 - r,
            );
        }
        (0 - (q as i128)) as i64
    }
}

} // verus!
