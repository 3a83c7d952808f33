use vaktija::schedule::{Schedule, ScheduleError};
use vaktija::timeofday::parse_hhmm;

fn strings(items: &[&str]) -> Vec<String> {
    items.iter().map(|s| s.to_string()).collect()
}

fn sample_schedule() -> Schedule {
    Schedule::new(
        110,
        "Sarajevo".to_string(),
        strings(&["12. ramazan 1440", "17. maj 2019"]),
        strings(&["05:00", "06:30", "12:15", "15:45", "19:00", "20:30"]),
    )
    .unwrap()
}

#[test]
fn parse_hhmm_valid() {
    assert_eq!(parse_hhmm("00:00"), Some(0));
    assert_eq!(parse_hhmm("05:00"), Some(300));
    assert_eq!(parse_hhmm("06:30"), Some(390));
    assert_eq!(parse_hhmm("12:15"), Some(735));
    assert_eq!(parse_hhmm("15:45"), Some(945));
    assert_eq!(parse_hhmm("19:00"), Some(1140));
    assert_eq!(parse_hhmm("20:30"), Some(1230));
    assert_eq!(parse_hhmm("23:59"), Some(1439));
}

#[test]
fn parse_hhmm_invalid() {
    assert_eq!(parse_hhmm(""), None);
    assert_eq!(parse_hhmm("5:00"), None);
    assert_eq!(parse_hhmm("05:00 "), None);
    assert_eq!(parse_hhmm("24:00"), None);
    assert_eq!(parse_hhmm("12:60"), None);
    assert_eq!(parse_hhmm("12-30"), None);
    assert_eq!(parse_hhmm("ab:cd"), None);
    assert_eq!(parse_hhmm("1 :30"), None);
}

#[test]
fn schedule_new_keeps_fields_and_parses_times() {
    let s = sample_schedule();
    assert_eq!(s.id, 110);
    assert_eq!(s.location.as_str(), "Sarajevo");
    assert_eq!(s.dates, strings(&["12. ramazan 1440", "17. maj 2019"]));
    assert_eq!(
        s.times,
        strings(&["05:00", "06:30", "12:15", "15:45", "19:00", "20:30"])
    );
    assert_eq!(s.times_min, vec![300, 390, 735, 945, 1140, 1230]);
}

#[test]
fn schedule_new_rejects_wrong_date_count() {
    let r = Schedule::new(
        1,
        "X".to_string(),
        strings(&["only one"]),
        strings(&["05:00", "06:30", "12:15", "15:45", "19:00", "20:30"]),
    );
    assert_eq!(r.unwrap_err(), ScheduleError::WrongDateCount);
}

#[test]
fn schedule_new_rejects_wrong_time_count() {
    let r = Schedule::new(
        1,
        "X".to_string(),
        strings(&["a", "b"]),
        strings(&["05:00", "06:30"]),
    );
    assert_eq!(r.unwrap_err(), ScheduleError::WrongTimeCount);
}

#[test]
fn schedule_new_rejects_invalid_time() {
    let r = Schedule::new(
        1,
        "X".to_string(),
        strings(&["a", "b"]),
        strings(&["05:00", "06:30", "25:15", "15:45", "19:00", "20:30"]),
    );
    assert_eq!(r.unwrap_err(), ScheduleError::InvalidTime);
}

#[test]
fn schedule_error_messages_nonempty() {
    assert!(!ScheduleError::WrongDateCount.message().is_empty());
    assert!(!ScheduleError::WrongTimeCount.message().is_empty());
    assert!(!ScheduleError::InvalidTime.message().is_empty());
}
