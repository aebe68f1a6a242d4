//! Conversion of record timestamps to Unix-referenced instants.
//!
//! A record's time field counts 100-nanosecond ticks since
//! 1601-01-01T00:00:00Z. Subtracting a fixed tick offset re-bases the
//! count on the Unix epoch.

use vstd::prelude::*;
use vstd::string::*;
use crate::errors::UsnError;

verus! {

/// Ticks (100-nanosecond units) between 1601-01-01T00:00:00Z and
/// 1970-01-01T00:00:00Z.
pub const EPOCH_DIFFERENCE_TICKS: i64 = 116444736000000000;

/// Seconds between 1601-01-01T00:00:00Z and 1970-01-01T00:00:00Z.
pub const EPOCH_DIFFERENCE_SECS: i64 = 11644473600;

/// Ticks per second.
pub const TICKS_PER_SEC: i64 = 10000000;

/// An instant, as seconds and nanoseconds relative to the Unix epoch.
///
/// The instant is `secs` seconds plus `nanos` nanoseconds after (or, for
/// negative `secs`, the matching distance before) 1970-01-01T00:00:00Z;
/// `nanos` is always between 0 and 999,999,999.
#[derive(Debug, Clone, Copy, PartialEq, Eq, Structural)]
pub struct UnixTime {
    pub secs: i64,
    pub nanos: u32,
}

/// The instant a non-negative tick count denotes; a negative (invalid)
/// count falls back to the Unix epoch itself.
pub open spec fn time_of_ticks(ticks: i64) -> UnixTime {
    if ticks >= 0 {
        UnixTime {
            secs: (ticks / TICKS_PER_SEC - EPOCH_DIFFERENCE_SECS) as i64,
            nanos: ((ticks % TICKS_PER_SEC) * 100) as u32,
        }
    } else {
        UnixTime { secs: 0, nanos: 0 }
    }
}

/// Converts a tick count since 1601-01-01T00:00:00Z to a Unix-referenced
/// instant.
///
/// Tick counts are semantically unsigned: a negative value is invalid
/// input and is rejected, uniformly, rather than clamped.
pub fn filetime_to_unixtime(filetime: i64) -> (r: Result<UnixTime, UsnError>)
    ensures
        filetime >= 0 <==> r is Ok,
        filetime >= 0 ==> r == Result::<UnixTime, UsnError>::Ok(time_of_ticks(filetime)),
        filetime < 0 ==> (r matches Err(UsnError::OtherError(m)) && m@ == "FILETIME cannot be negative"@),
{
    if filetime < 0 {
        return Err(UsnError::OtherError(String::from_str("FILETIME cannot be negative")));
    }
    let secs_since_1601: i64 = filetime / TICKS_PER_SEC;
    let nanos: i64 = (filetime % TICKS_PER_SEC) * 100;
    assert(0 <= secs_since_1601 <= filetime) by {
        vstd::arithmetic::div_mod::lemma_div_nonincreasing(filetime as int, TICKS_PER_SEC as int);
    };
    assert(0 <= nanos < 1000000000);
    Ok(UnixTime { secs: secs_since_1601 - EPOCH_DIFFERENCE_SECS, nanos: nanos as u32 })
}

/// Relies on chrono's `DateTime::from_timestamp`, `with_timezone` and
/// `format`: renders the instant in the machine's local time zone as
/// `YYYY-MM-DD HH:MM:SS`. The rendering depends on the machine's time
/// zone, so nothing is stated of the result.
#[verifier::external_body]
pub fn local_time_string(secs: i64, nanos: u32) -> String {
    match chrono::DateTime::from_timestamp(secs, nanos) {
        Some(d) => d.with_timezone(&chrono::Local).format("%Y-%m-%d %H:%M:%S").to_string(),
        None => String::new(),
    }
}

} // verus!
