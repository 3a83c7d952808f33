//! The local clock, read through chrono: the current time of day in
//! seconds past midnight, and today's calendar date. The readings are
//! the only inputs here that no contract can pin to a value; everything
//! computed from them is verified for every reading in range.

use vstd::prelude::*;

use crate::cache::CacheDate;
use crate::presenter::{is_next_index, next_index, spec_until_next, until_next_seconds};
use crate::schedule::Schedule;

verus! {

/// Relies on chrono::Local::now with chrono::Timelike: hour is below
/// 24, minute and second below 60.
#[verifier::external_body]
fn local_now_hms() -> (r: (u32, u32, u32))
    ensures
        r.0 < 24,
        r.1 < 60,
        r.2 < 60,
{
    let now = chrono::Local::now();
    (chrono::Timelike::hour(&now), chrono::Timelike::minute(&now), chrono::Timelike::second(&now))
}

/// Relies on chrono::Local::now with chrono::Datelike: month is in
/// 1..=12 and day in 1..=31.
#[verifier::external_body]
fn local_today_ymd() -> (r: (i32, u32, u32))
    ensures
        1 <= r.1 <= 12,
        1 <= r.2 <= 31,
{
    let now = chrono::Local::now();
    (chrono::Datelike::year(&now), chrono::Datelike::month(&now), chrono::Datelike::day(&now))
}

/// A clock reading of hours, minutes and seconds as seconds past
/// midnight.
pub fn seconds_of_day(h: u32, m: u32, s: u32) -> (r: u32)
    requires
        h < 24,
        m < 60,
        s < 60,
    ensures
        r == h * 3600 + m * 60 + s,
        r < 86400,
{
    h * 3600 + m * 60 + s
}

/// A clock reading of year, month and day as a calendar date.
pub fn date_of_ymd(year: i32, month: u32, day: u32) -> (d: CacheDate)
    requires
        1 <= month <= 12,
        1 <= day <= 31,
    ensures
        d == (CacheDate { year, month, day }),
        d.wf(),
{
    CacheDate { year, month, day }
}

/// The current local time as seconds past midnight, always below
/// 86400.
pub fn now_seconds_of_day() -> (r: u32)
    ensures
        r < 86400,
{
    let (h, m, s) = local_now_hms();
    seconds_of_day(h, m, s)
}

/// Today's local calendar date.
pub fn today() -> (d: CacheDate)
    ensures
        d.wf(),
{
    let (year, month, day) = local_today_ymd();
    date_of_ymd(year, month, day)
}

impl Schedule {
    /// The next slot and the seconds until it, against the local clock
    /// at the moment of the call: for some time of day `now`, the
    /// returned index is the next slot at `now` and the returned
    /// duration is the seconds from `now` to that slot.
    pub fn next_index_and_until_next(&self) -> (r: (usize, i64))
        requires
            self.wf(),
        ensures
            r.0 < 6,
            exists|now: int|
                {
                    &&& 0 <= now < 86400
                    &&& #[trigger] is_next_index(self.times_min@, now, r.0 as int)
                    &&& r.1 == spec_until_next(self.times_min@, now, r.0 as int)
                },
    {
        let now = now_seconds_of_day();
        let idx = next_index(self, now);
        let until = until_next_seconds(self, now, idx);
        (idx, until)
    }
}

} // verus!
