//! The slot computation behind the printed schedule: which slot is
//! next, which is current, how long until the next one, and the fixed
//! slot labels. All of it is pure data; rendering and colour live with
//! the caller.

use vstd::prelude::*;

use crate::schedule::Schedule;

verus! {

/// Whether `idx` is the next slot of `times_min` at `now` seconds past
/// midnight: the smallest index whose time is strictly later than
/// `now`, or 0 when no slot is later (wrap-around to the following
/// day).
pub open spec fn is_next_index(times_min: Seq<u16>, now: int, idx: int) -> bool {
    if exists|j: int| 0 <= j < times_min.len() && #[trigger] times_min[j] * 60 > now {
        &&& 0 <= idx < times_min.len()
        &&& times_min[idx] * 60 > now
        &&& forall|j: int| 0 <= j < idx ==> #[trigger] times_min[j] * 60 <= now
    } else {
        idx == 0
    }
}

/// Seconds from `now` until slot `idx`; negative when the slot has
/// already passed (the wrap-around case is not day-aware).
pub open spec fn spec_until_next(times_min: Seq<u16>, now: int, idx: int) -> int {
    times_min[idx] * 60 - now
}

/// A remaining duration split the way the schedule prints it: hours,
/// then leftover minutes, then leftover seconds, each truncated toward
/// zero, so all three share the sign of the total.
pub open spec fn spec_split_duration(total: int) -> (int, int, int) {
    if total >= 0 {
        (total / 3600, (total / 60) % 60, total % 60)
    } else {
        let m = -total;
        (-(m / 3600), -((m / 60) % 60), -(m % 60))
    }
}

/// The highlight plan for one rendering of a schedule: the slot indices
/// to mark and the time remaining until the next slot.
pub struct Highlight {
    /// Index of the next slot.
    pub next: usize,
    /// Index of the current slot: the one just before `next`, wrapping.
    pub current: usize,
    /// Whole hours until the next slot.
    pub hours: i64,
    /// Leftover minutes until the next slot.
    pub minutes: i64,
    /// Leftover seconds until the next slot.
    pub seconds: i64,
}

/// The next slot of `s` at `now` seconds past midnight: the smallest
/// index whose time is strictly later than `now`, or 0 when none is.
pub fn next_index(s: &Schedule, now: u32) -> (idx: usize)
    requires
        s.wf(),
        now < 86400,
    ensures
        idx < 6,
        is_next_index(s.times_min@, now as int, idx as int),
{
    let mut i: usize = 0;
    while i < 6
        invariant
            s.wf(),
            now < 86400,
            0 <= i <= 6,
            forall|j: int| 0 <= j < i ==> #[trigger] s.times_min@[j] * 60 <= now,
        decreases 6 - i,
    {
        if s.times_min[i] as u32 * 60 > now {
            return i;
        }
        i = i + 1;
    }
    0
}

/// Seconds from `now` until slot `idx` of `s`; negative exactly in the
/// wrap-around case.
pub fn until_next_seconds(s: &Schedule, now: u32, idx: usize) -> (r: i64)
    requires
        s.wf(),
        now < 86400,
        idx < 6,
    ensures
        r == spec_until_next(s.times_min@, now as int, idx as int),
{
    s.times_min[idx] as i64 * 60 - now as i64
}

/// The current slot for a given next slot: one before it, wrapping to
/// the last slot (5) when the next slot is 0. This is `(next - 1) mod 6`.
pub fn current_index(next: usize) -> (r: usize)
    requires
        next < 6,
    ensures
        r < 6,
        r == if next == 0 { 5int } else { next - 1 },
        r == (next - 1) % 6,
{
    if next == 0 {
        5
    } else {
        next - 1
    }
}

/// Split a remaining duration in seconds into hours, leftover minutes
/// and leftover seconds, truncating toward zero as the schedule prints
/// them.
pub fn split_duration(total: i64) -> (r: (i64, i64, i64))
    requires
        total > i64::MIN,
    ensures
        r.0 == spec_split_duration(total as int).0,
        r.1 == spec_split_duration(total as int).1,
        r.2 == spec_split_duration(total as int).2,
{
    if total >= 0 {
        let t = total as u64;
        ((t / 3600) as i64, ((t / 60) % 60) as i64, (t % 60) as i64)
    } else {
        let m = (-total) as u64;
        (-((m / 3600) as i64), -(((m / 60) % 60) as i64), -((m % 60) as i64))
    }
}

/// The whole highlight plan of `s` at `now` seconds past midnight.
pub fn highlight_at(s: &Schedule, now: u32) -> (h: Highlight)
    requires
        s.wf(),
        now < 86400,
    ensures
        h.next < 6,
        h.current < 6,
        is_next_index(s.times_min@, now as int, h.next as int),
        h.current == (h.next - 1) % 6,
        h.hours == spec_split_duration(
            spec_until_next(s.times_min@, now as int, h.next as int),
        ).0,
        h.minutes == spec_split_duration(
            spec_until_next(s.times_min@, now as int, h.next as int),
        ).1,
        h.seconds == spec_split_duration(
            spec_until_next(s.times_min@, now as int, h.next as int),
        ).2,
{
    let next = next_index(s, now);
    let current = current_index(next);
    let until = until_next_seconds(s, now, next);
    let (hours, minutes, seconds) = split_duration(until);
    Highlight { next, current, hours, minutes, seconds }
}

/// Spec view of the fixed, fixed-width slot labels, in slot order; the
/// last arm is the out-of-range label.
pub open spec fn spec_namaz_name(namaz: int) -> Seq<char> {
    if namaz == 0 {
        "Zora         "@
    } else if namaz == 1 {
        "Izlazak Sunca"@
    } else if namaz == 2 {
        "Podne        "@
    } else if namaz == 3 {
        "Ikindija     "@
    } else if namaz == 4 {
        "Aksam        "@
    } else if namaz == 5 {
        "Jacija       "@
    } else {
        "Greska       "@
    }
}

/// The fixed-width label of slot `namaz`: dawn, sunrise, midday,
/// afternoon, sunset, night; an error label out of range.
pub fn namaz_name(namaz: usize) -> (r: String)
    ensures
        r@ == spec_namaz_name(namaz as int),
{
    let s: &str = match namaz {
        0 => "Zora         ",
        1 => "Izlazak Sunca",
        2 => "Podne        ",
        3 => "Ikindija     ",
        4 => "Aksam        ",
        5 => "Jacija       ",
        _ => "Greska       ",
    };
    s.to_owned()
}

} // verus!
