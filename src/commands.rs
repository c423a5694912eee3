//! The computations behind the user-facing commands: reading an interval
//! and its unit, bounding a clean-up count, splitting an uptime, and the
//! short hexadecimal form of an identifier used in log lines.

use crate::error::EuleError;
use crate::time::TimeSpan;
use vstd::prelude::*;

verus! {

/// Messages that a clean command deletes when no number is given.
pub const DEFAULT_CLEAN_COUNT: u64 = 10;

/// The most messages that one clean command deletes.
pub const MAX_CLEAN_COUNT: u64 = 100;

/// The lowercase form that `str::to_lowercase` gives of `s`.
pub uninterp spec fn lower_of(s: Seq<char>) -> Seq<char>;

/// Relies on std's `str::to_lowercase`; its result depends on the
/// characters alone.
#[verifier::external_body]
fn lowercase(s: &str) -> (r: String)
    ensures
        r@ == lower_of(s@),
{
    s.to_lowercase()
}

/// Relies on std's `String::from_utf8`, which accepts every sequence of
/// ASCII bytes and reads each byte as the character of the same code.
#[verifier::external_body]
fn ascii_string(bytes: Vec<u8>) -> (r: String)
    requires
        forall|i: int| 0 <= i < bytes@.len() ==> bytes@[i] < 128,
    ensures
        r@ == bytes@.map_values(|b: u8| b as char),
{
    String::from_utf8(bytes).unwrap_or_default()
}

/// Seconds in one of the recognised (lowercase) time units.
pub open spec fn unit_seconds(unit: Seq<char>) -> Option<nat> {
    if unit == "minutes"@ || unit == "minute"@ || unit == "m"@ {
        Some(60)
    } else if unit == "hours"@ || unit == "hour"@ || unit == "h"@ {
        Some(3600)
    } else if unit == "days"@ || unit == "day"@ || unit == "d"@ {
        Some(86400)
    } else {
        None
    }
}

/// The span of `interval` units of the lowercase unit `unit`: an invalid
/// time unit error for an unknown unit, an invalid interval error when the
/// seconds do not fit a `u64`.
pub fn interval_in_unit(interval: u64, unit: &str) -> (r: Result<TimeSpan, EuleError>)
    ensures
        match unit_seconds(unit@) {
            None => r == Err::<TimeSpan, EuleError>(EuleError::InvalidTimeUnit),
            Some(m) => if interval * m <= u64::MAX {
                r matches Ok(d) && d@ == interval * m * 1_000_000_000
            } else {
                r == Err::<TimeSpan, EuleError>(EuleError::InvalidInterval)
            },
        },
{
    let m: u64 = if crate::store::str_equal(unit, "minutes") || crate::store::str_equal(unit, "minute")
        || crate::store::str_equal(unit, "m") {
        60
    } else if crate::store::str_equal(unit, "hours") || crate::store::str_equal(unit, "hour")
        || crate::store::str_equal(unit, "h") {
        3600
    } else if crate::store::str_equal(unit, "days") || crate::store::str_equal(unit, "day")
        || crate::store::str_equal(unit, "d") {
        86400
    } else {
        return Err(EuleError::InvalidTimeUnit);
    };
    match interval.checked_mul(m) {
        Some(secs) => Ok(TimeSpan::from_secs(secs)),
        None => Err(EuleError::InvalidInterval),
    }
}

/// The span of `interval` units of `unit`, read without regard to case.
pub fn parse_interval(interval: u64, unit: &str) -> (r: Result<TimeSpan, EuleError>)
    ensures
        match unit_seconds(lower_of(unit@)) {
            None => r == Err::<TimeSpan, EuleError>(EuleError::InvalidTimeUnit),
            Some(m) => if interval * m <= u64::MAX {
                r matches Ok(d) && d@ == interval * m * 1_000_000_000
            } else {
                r == Err::<TimeSpan, EuleError>(EuleError::InvalidInterval)
            },
        },
{
    let lowered = lowercase(unit);
    interval_in_unit(interval, lowered.as_str())
}

/// How many messages a clean command deletes: the number asked for (ten
/// when none is given), at most one hundred.
pub fn clean_count(number: Option<u64>) -> (r: u8)
    ensures
        r == match number {
            Some(n) => if n < MAX_CLEAN_COUNT { n } else { MAX_CLEAN_COUNT },
            None => DEFAULT_CLEAN_COUNT,
        },
{
    let n = match number {
        Some(n) => n,
        None => DEFAULT_CLEAN_COUNT,
    };
    if n < MAX_CLEAN_COUNT {
        n as u8
    } else {
        MAX_CLEAN_COUNT as u8
    }
}

/// An uptime of `secs` seconds as (days, hours, minutes, seconds).
pub fn uptime_parts(secs: u64) -> (r: (u64, u64, u64, u64))
    ensures
        r.0 == secs / 86400,
        r.1 == (secs % 86400) / 3600,
        r.2 == (secs % 3600) / 60,
        r.3 == secs % 60,
        r.1 < 24 && r.2 < 60 && r.3 < 60,
{
    (secs / 86400, (secs % 86400) / 3600, (secs % 3600) / 60, secs % 60)
}

/// The ASCII code of hexadecimal digit `d` (lowercase).
pub open spec fn hex_digit(d: nat) -> u8 {
    if d < 10 {
        (48 + d) as u8
    } else {
        (87 + d) as u8
    }
}

/// The lowercase hexadecimal digits of `n`, without leading zeros.
pub open spec fn hex_bytes(n: nat) -> Seq<u8>
    decreases n,
{
    if n < 16 {
        seq![hex_digit(n)]
    } else {
        hex_bytes(n / 16).push(hex_digit(n % 16))
    }
}

proof fn lemma_hex_ascii(n: nat)
    ensures
        forall|i: int| 0 <= i < hex_bytes(n).len() ==> #[trigger] hex_bytes(n)[i] < 128,
    decreases n,
{
    if n >= 16 {
        lemma_hex_ascii(n / 16);
        let p = hex_bytes(n / 16);
        assert(n % 16 < 16);
        assert(hex_digit(n % 16) < 128);
        assert forall|i: int| 0 <= i < hex_bytes(n).len() implies #[trigger] hex_bytes(n)[i] < 128 by {
            if i < p.len() {
                assert(hex_bytes(n)[i] == p[i]);
            }
        }
    }
}

fn push_hex(n: u64, out: &mut Vec<u8>)
    ensures
        final(out)@ == old(out)@ + hex_bytes(n as nat),
    decreases n,
{
    if n >= 16 {
        push_hex(n / 16, out);
    }
    let d = n % 16;
    let c: u8 = if d < 10 { 48 + d as u8 } else { 87 + d as u8 };
    out.push(c);
    proof {
        if n >= 16 {
            assert(old(out)@ + hex_bytes(n as nat) =~= (old(out)@ + hex_bytes((n / 16) as nat)).push(c));
        } else {
            assert(old(out)@ + hex_bytes(n as nat) =~= old(out)@.push(c));
        }
    }
}

/// The lowercase hexadecimal form of an identifier, as log lines show it.
pub fn obfuscate_id(id: u64) -> (r: String)
    ensures
        r@ == hex_bytes(id as nat).map_values(|b: u8| b as char),
{
    let mut out: Vec<u8> = Vec::new();
    push_hex(id, &mut out);
    proof {
        assert(out@ =~= hex_bytes(id as nat));
        lemma_hex_ascii(id as nat);
    }
    ascii_string(out)
}

} // verus!
