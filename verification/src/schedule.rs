//! One day's prayer-time table for a single location, validated on
//! construction: exactly two date strings and exactly six times of day
//! in strict `HH:MM` form.

use vstd::prelude::*;

use crate::timeofday::{hhmm_minutes, parse_hhmm, valid_hhmm};

verus! {

/// One day's prayer-time table for a single location. Immutable after
/// construction; `Schedule::new` is the only way to establish `wf`.
#[derive(Debug)]
pub struct Schedule {
    /// Externally assigned identifier of the location.
    pub id: u32,
    /// Human-readable place name.
    pub location: String,
    /// Two date strings, source format retained; the second is the
    /// display date.
    pub dates: Vec<String>,
    /// Six times of day in `HH:MM` form: dawn, sunrise, midday,
    /// afternoon, sunset, night.
    pub times: Vec<String>,
    /// The same six times as minutes past midnight.
    pub times_min: Vec<u16>,
}

/// Why a table was rejected.
#[derive(Clone, Copy, Debug, PartialEq, Eq, Structural)]
pub enum ScheduleError {
    /// Not exactly two date strings.
    WrongDateCount,
    /// Not exactly six time strings.
    WrongTimeCount,
    /// Some time string is not a valid `HH:MM` time of day.
    InvalidTime,
}

impl Schedule {
    /// The table invariant: two dates, six valid times, and the minute
    /// values agree with the time strings.
    pub open spec fn wf(self) -> bool {
        &&& self.dates@.len() == 2
        &&& self.times@.len() == 6
        &&& self.times_min@.len() == 6
        &&& forall|i: int| 0 <= i < 6 ==> valid_hhmm(#[trigger] self.times@[i]@)
        &&& forall|i: int| 0 <= i < 6 ==> self.times_min@[i] == hhmm_minutes(#[trigger] self.times@[i]@)
    }

    /// Build a schedule from its parts, validating the counts and every
    /// time string; the error says exactly what was wrong, counts first.
    pub fn new(id: u32, location: String, dates: Vec<String>, times: Vec<String>) -> (r: Result<
        Schedule,
        ScheduleError,
    >)
        ensures
            match r {
                Ok(s) => {
                    &&& s.wf()
                    &&& s.id == id
                    &&& s.location@ == location@
                    &&& s.dates@ == dates@
                    &&& s.times@ == times@
                },
                Err(e) => match e {
                    ScheduleError::WrongDateCount => dates@.len() != 2,
                    ScheduleError::WrongTimeCount => dates@.len() == 2 && times@.len() != 6,
                    ScheduleError::InvalidTime => {
                        &&& dates@.len() == 2
                        &&& times@.len() == 6
                        &&& exists|i: int| 0 <= i < 6 && !valid_hhmm(#[trigger] times@[i]@)
                    },
                },
            },
            r is Ok <==> {
                &&& dates@.len() == 2
                &&& times@.len() == 6
                &&& forall|i: int| 0 <= i < 6 ==> valid_hhmm(#[trigger] times@[i]@)
            },
    {
        if dates.len() != 2 {
            return Err(ScheduleError::WrongDateCount);
        }
        if times.len() != 6 {
            return Err(ScheduleError::WrongTimeCount);
        }
        let mut times_min: Vec<u16> = Vec::new();
        let mut i: usize = 0;
        while i < 6
            invariant
                dates@.len() == 2,
                times@.len() == 6,
                0 <= i <= 6,
                times_min@.len() == i,
                forall|j: int| 0 <= j < i ==> valid_hhmm(#[trigger] times@[j]@),
                forall|j: int| 0 <= j < i ==> times_min@[j] == hhmm_minutes(#[trigger] times@[j]@),
            decreases 6 - i,
        {
            match parse_hhmm(times[i].as_str()) {
                Some(m) => {
                    times_min.push(m);
                },
                None => {
                    return Err(ScheduleError::InvalidTime);
                },
            }
            i = i + 1;
        }
        Ok(Schedule { id, location, dates, times, times_min })
    }
}

impl ScheduleError {
    /// A short description of the rejection, for error reporting.
    pub fn message(&self) -> (r: String)
        ensures
            r@ == (match self {
                ScheduleError::WrongDateCount => "schedule does not have exactly two dates"@,
                ScheduleError::WrongTimeCount => "schedule does not have exactly six times"@,
                ScheduleError::InvalidTime => "schedule holds a time not in HH:MM form"@,
            }),
    {
        let s: &str = match self {
            ScheduleError::WrongDateCount => "schedule does not have exactly two dates",
            ScheduleError::WrongTimeCount => "schedule does not have exactly six times",
            ScheduleError::InvalidTime => "schedule holds a time not in HH:MM form",
        };
        s.to_owned()
    }
}

} // verus!
