//! The cache-freshness decision: a stored schedule is fresh exactly
//! when it was written on the current calendar day. The file itself is
//! the caller's business; only the decision is made here.

use vstd::prelude::*;

verus! {

/// A calendar date as plain fields: year, month in `1..=12`, day in
/// `1..=31`.
#[derive(Clone, Copy, Debug, PartialEq, Eq, Structural)]
pub struct CacheDate {
    pub year: i32,
    pub month: u32,
    pub day: u32,
}

impl CacheDate {
    /// Field ranges of a calendar date.
    pub open spec fn wf(self) -> bool {
        &&& 1 <= self.month <= 12
        &&& 1 <= self.day <= 31
    }
}

/// What the cache accessor must do for one invocation.
#[derive(Clone, Copy, Debug, PartialEq, Eq, Structural)]
pub enum CacheAction {
    /// No cache file exists: fetch once and create the file with
    /// exactly the fetched payload.
    Create,
    /// The cache is stale (stored on another day): fetch once and
    /// overwrite the file with the fetched payload.
    Refresh,
    /// The cache is fresh (stored today): read the file, no fetch.
    UseCache,
}

/// Whether a cache last written on `stored` is fresh on `today`: the
/// straightforward same-calendar-day rule.
pub fn cache_is_fresh(stored: CacheDate, today: CacheDate) -> (r: bool)
    ensures
        r == (stored == today),
{
    stored.year == today.year && stored.month == today.month && stored.day == today.day
}

/// Decide what to do with the cache: `stored` is the last-modified
/// date of the cache file, or `None` when the file does not exist.
/// A fetch is decided exactly when the file is absent or stale.
pub fn cache_plan(stored: Option<CacheDate>, today: CacheDate) -> (a: CacheAction)
    ensures
        match stored {
            None => a == CacheAction::Create,
            Some(d) => a == if d == today {
                CacheAction::UseCache
            } else {
                CacheAction::Refresh
            },
        },
        (a == CacheAction::UseCache) <==> (stored == Some(today)),
{
    match stored {
        None => CacheAction::Create,
        Some(d) => {
            if cache_is_fresh(d, today) {
                CacheAction::UseCache
            } else {
                CacheAction::Refresh
            }
        },
    }
}

} // verus!
