//! Timestamp ids: the UTC date and time as `YYYYMMDDHHMMSS`, used to break
//! name collisions in the trash and as the key of a history record.
use vstd::prelude::*;
use vstd::string::*;

use chrono::{Datelike, Timelike};

verus! {

/// A calendar date and time of day, to the second.
#[derive(Debug, Clone, Copy, PartialEq, Eq)]
pub struct CivilTime {
    pub year: i32,
    pub month: u32,
    pub day: u32,
    pub hour: u32,
    pub minute: u32,
    pub second: u32,
}

impl CivilTime {
    /// Fields in their calendar ranges, with a four-digit year.
    pub open spec fn wf(&self) -> bool {
        &&& 0 <= self.year <= 9999
        &&& 1 <= self.month <= 12
        &&& 1 <= self.day <= 31
        &&& self.hour <= 23
        &&& self.minute <= 59
        &&& self.second <= 59
    }

    /// Whether the fields are in range; see `wf`.
    pub fn is_valid(&self) -> (r: bool)
        ensures
            r == self.wf(),
    {
        0 <= self.year && self.year <= 9999 && 1 <= self.month && self.month <= 12 && 1
            <= self.day && self.day <= 31 && self.hour <= 23 && self.minute <= 59 && self.second
            <= 59
    }
}

pub open spec fn digit_char(d: int) -> char {
    "0123456789"@[d]
}

pub open spec fn two_digits(n: int) -> Seq<char> {
    seq![digit_char(n / 10), digit_char(n % 10)]
}

pub open spec fn four_digits(n: int) -> Seq<char> {
    two_digits(n / 100) + two_digits(n % 100)
}

/// `YYYYMMDDHHMMSS`.
pub open spec fn compact_id(t: CivilTime) -> Seq<char> {
    four_digits(t.year as int) + two_digits(t.month as int) + two_digits(t.day as int)
        + two_digits(t.hour as int) + two_digits(t.minute as int) + two_digits(t.second as int)
}

/// `YYYY-MM-DD_HH:MM:SS`.
pub open spec fn pretty_id(t: CivilTime) -> Seq<char> {
    four_digits(t.year as int) + seq!['-'] + two_digits(t.month as int) + seq!['-'] + two_digits(
        t.day as int,
    ) + seq!['_'] + two_digits(t.hour as int) + seq![':'] + two_digits(t.minute as int) + seq![
        ':',
    ] + two_digits(t.second as int)
}

/// The number that `compact_id` spells.
pub open spec fn id_value(t: CivilTime) -> int {
    t.year * 10000000000 + t.month * 100000000 + t.day * 1000000 + t.hour * 10000 + t.minute
        * 100 + t.second
}

/// The calendar date and time of day, in UTC, `secs` seconds after the Unix
/// epoch.
pub uninterp spec fn utc_civil_of(secs: int) -> CivilTime;

/// Relies on std's `SystemTime::now`: the time since the Unix epoch as whole
/// seconds and the nanoseconds below one second; nothing for a clock set
/// before the epoch.
#[verifier::external_body]
fn unix_time() -> (r: Option<(u64, u32)>)
    ensures
        r matches Some((_, nanos)) ==> nanos < 1_000_000_000,
{
    std::time::SystemTime::now()
        .duration_since(std::time::UNIX_EPOCH)
        .ok()
        .map(|d| (d.as_secs(), d.subsec_nanos()))
}

/// Relies on chrono's `DateTime::from_timestamp`: the UTC date and time of a
/// Unix timestamp, nothing when it is out of chrono's range. Its
/// `Datelike`/`Timelike` accessors document the ranges of the fields.
#[verifier::external_body]
fn civil_from_unix(secs: i64, nanos: u32) -> (r: Option<CivilTime>)
    ensures
        r matches Some(t) ==> {
            &&& t == utc_civil_of(secs as int)
            &&& 1 <= t.month <= 12
            &&& 1 <= t.day <= 31
            &&& t.hour <= 23
            &&& t.minute <= 59
            &&& t.second <= 59
        },
{
    chrono::DateTime::from_timestamp(secs, nanos).map(|t| CivilTime {
        year: t.year(),
        month: t.month(),
        day: t.day(),
        hour: t.hour(),
        minute: t.minute(),
        second: t.second(),
    })
}

fn push_digits(s: &mut String, n: u32, width: u32)
    requires
        width == 2 || width == 4,
        width == 2 ==> n < 100,
        width == 4 ==> n < 10000,
    ensures
        width == 2 ==> final(s)@ == old(s)@ + two_digits(n as int),
        width == 4 ==> final(s)@ == old(s)@ + four_digits(n as int),
    decreases width,
{
    let digits = "0123456789";
    proof {
        reveal_strlit("0123456789");
    }
    if width == 4 {
        push_digits(s, n / 100, 2);
        push_digits(s, n % 100, 2);
        assert(s@ =~= old(s)@ + four_digits(n as int));
    } else {
        let hi = (n / 10) as usize;
        let lo = (n % 10) as usize;
        s.append(digits.substring_char(hi, hi + 1));
        s.append(digits.substring_char(lo, lo + 1));
        assert(s@ =~= old(s)@ + two_digits(n as int));
    }
}

fn push_sep(s: &mut String, sep: &str)
    ensures
        final(s)@ == old(s)@ + sep@,
{
    s.append(sep);
}

/// The compact and the readable form of the id of `t`.
pub fn log_id_of(t: &CivilTime) -> (r: (String, String))
    requires
        t.wf(),
    ensures
        r.0@ == compact_id(*t),
        r.1@ == pretty_id(*t),
{
    proof {
        reveal_strlit("-");
        reveal_strlit("_");
        reveal_strlit(":");
    }
    let mut a = String::new();
    push_digits(&mut a, t.year as u32, 4);
    push_digits(&mut a, t.month, 2);
    push_digits(&mut a, t.day, 2);
    push_digits(&mut a, t.hour, 2);
    push_digits(&mut a, t.minute, 2);
    push_digits(&mut a, t.second, 2);
    let mut b = String::new();
    push_digits(&mut b, t.year as u32, 4);
    push_sep(&mut b, "-");
    push_digits(&mut b, t.month, 2);
    push_sep(&mut b, "-");
    push_digits(&mut b, t.day, 2);
    push_sep(&mut b, "_");
    push_digits(&mut b, t.hour, 2);
    push_sep(&mut b, ":");
    push_digits(&mut b, t.minute, 2);
    push_sep(&mut b, ":");
    push_digits(&mut b, t.second, 2);
    assert(a@ =~= compact_id(*t));
    assert(b@ =~= pretty_id(*t));
    (a, b)
}

/// The id of `t` as a number.
pub fn id_number(t: &CivilTime) -> (r: u64)
    requires
        t.wf(),
    ensures
        r == id_value(*t),
{
    t.year as u64 * 10000000000 + t.month as u64 * 100000000 + t.day as u64 * 1000000
        + t.hour as u64 * 10000 + t.minute as u64 * 100 + t.second as u64
}

/// `t` when its fields are in range, else nothing.
pub fn checked_time(t: CivilTime) -> (r: Option<CivilTime>)
    ensures
        r == (if t.wf() {
            Some(t)
        } else {
            None
        }),
{
    if t.is_valid() {
        Some(t)
    } else {
        None
    }
}

/// The current time in UTC, when the clock reads after the Unix epoch and
/// its year has four digits.
pub fn now() -> (r: Option<CivilTime>)
    ensures
        r matches Some(t) ==> t.wf(),
{
    match unix_time() {
        Some((secs, nanos)) => {
            if secs > i64::MAX as u64 {
                return None;
            }
            match civil_from_unix(secs as i64, nanos) {
                Some(t) => checked_time(t),
                None => None,
            }
        },
        None => None,
    }
}

} // verus!
