use vaktija::cache::{cache_is_fresh, cache_plan, CacheAction, CacheDate};
use vaktija::clock::{date_of_ymd, now_seconds_of_day, seconds_of_day, today};
use vaktija::schedule::Schedule;

fn date(year: i32, month: u32, day: u32) -> CacheDate {
    CacheDate { year, month, day }
}

#[test]
fn absent_cache_is_created() {
    let today = date(2019, 5, 17);
    assert_eq!(cache_plan(None, today), CacheAction::Create);
}

#[test]
fn same_day_cache_is_used() {
    let today = date(2019, 5, 17);
    assert_eq!(cache_plan(Some(today), today), CacheAction::UseCache);
}

#[test]
fn stale_cache_is_refreshed() {
    let today = date(2019, 5, 17);
    assert_eq!(cache_plan(Some(date(2019, 5, 16)), today), CacheAction::Refresh);
    assert_eq!(cache_plan(Some(date(2019, 4, 17)), today), CacheAction::Refresh);
    assert_eq!(cache_plan(Some(date(2018, 5, 17)), today), CacheAction::Refresh);
}

#[test]
fn freshness_is_same_calendar_day() {
    let d = date(2020, 1, 1);
    assert!(cache_is_fresh(d, d));
    assert!(!cache_is_fresh(d, date(2020, 1, 2)));
    assert!(!cache_is_fresh(d, date(2020, 2, 1)));
    assert!(!cache_is_fresh(d, date(2021, 1, 1)));
}

#[test]
fn seconds_of_day_values() {
    assert_eq!(seconds_of_day(0, 0, 0), 0);
    assert_eq!(seconds_of_day(16, 0, 0), 57600);
    assert_eq!(seconds_of_day(21, 0, 0), 75600);
    assert_eq!(seconds_of_day(1, 2, 3), 3723);
    assert_eq!(seconds_of_day(23, 59, 59), 86399);
}

#[test]
fn date_of_ymd_packs_fields() {
    let d = date_of_ymd(2019, 5, 17);
    assert_eq!(d, date(2019, 5, 17));
}

#[test]
fn clock_readings_are_in_range() {
    let now = now_seconds_of_day();
    assert!(now < 86400);
    let d = today();
    assert!((1..=12).contains(&d.month));
    assert!((1..=31).contains(&d.day));
}

#[test]
fn next_against_live_clock_is_a_slot() {
    let s = Schedule::new(
        110,
        "Sarajevo".to_string(),
        vec!["a".to_string(), "b".to_string()],
        vec![
            "05:00".to_string(),
            "06:30".to_string(),
            "12:15".to_string(),
            "15:45".to_string(),
            "19:00".to_string(),
            "20:30".to_string(),
        ],
    )
    .unwrap();
    let (idx, until) = s.next_index_and_until_next();
    assert!(idx < 6);
    assert!(-86400 < until && until < 86400);
}
