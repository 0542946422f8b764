use wtimer::config::PomodoroSettings;
use wtimer::control::{continue_after_prompt, Control};
use wtimer::date::{today, Date};
use wtimer::history::{History, HistoryEntry, StoredDuration, StoredEntry, StoredHistory};
use wtimer::time::Duration;

fn entry(work_mins: u64, rest_mins: u64) -> HistoryEntry {
    HistoryEntry::new(Duration::from_minutes(work_mins), Duration::from_minutes(rest_mins))
}

fn stored_duration(hrs: u64, mins: u64, secs: u64) -> StoredDuration {
    StoredDuration { hrs, mins, secs }
}

fn stored_entry(work_mins: u64, rest_mins: u64) -> StoredEntry {
    StoredEntry {
        work_interval: stored_duration(0, work_mins, 0),
        rest_interval: stored_duration(0, rest_mins, 0),
    }
}

#[test]
fn append_two_entries() {
    let day = Date::new(2024, 6, 1).unwrap();
    let mut log = History::new(day);
    assert_eq!(log.len(), 0);
    log.push(entry(25, 5));
    log.push(entry(25, 5));
    assert_eq!(log.len(), 2);
    assert!(log.is_today(&day));
}

#[test]
fn reload_same_day_preserves_entries() {
    let day = Date::new(2024, 6, 1).unwrap();
    let mut log = History::new(day);
    log.push(entry(25, 5));
    log.push(entry(25, 5));
    let reloaded = History::load(Some(log.snapshot()), &day);
    assert_eq!(reloaded.len(), 2);
    assert_eq!(reloaded.date(), day);
    assert!(reloaded.is_today(&day));
    let e = &reloaded.snapshot().intervals[0];
    assert_eq!(e.work_interval, stored_duration(0, 25, 0));
    assert_eq!(e.rest_interval, stored_duration(0, 5, 0));
}

#[test]
fn reload_on_next_day_discards_entries() {
    let day = Date::new(2024, 6, 1).unwrap();
    let next_day = Date::new(2024, 6, 2).unwrap();
    let mut log = History::new(day);
    log.push(entry(25, 5));
    log.push(entry(25, 5));
    let reloaded = History::load(Some(log.snapshot()), &next_day);
    assert_eq!(reloaded.len(), 0);
    assert!(reloaded.is_today(&next_day));
    assert!(!reloaded.is_today(&day));
}

#[test]
fn persistence_is_idempotent() {
    let day = Date::new(2024, 2, 29).unwrap();
    let mut log = History::new(day);
    log.push(entry(25, 5));
    log.push(HistoryEntry::new(Duration::from_secs(4500), Duration::from_secs(59)));
    let written = log.snapshot();
    let reread = History::load(Some(written.clone()), &day);
    let written_again = reread.snapshot();
    assert_eq!(written, written_again);
    assert_eq!(written.date, b"2024-02-29".to_vec());
}

#[test]
fn load_accepts_only_todays_date() {
    let day = Date::new(2024, 6, 1).unwrap();
    let stored = StoredHistory { date: b"2024-06-01".to_vec(), intervals: vec![stored_entry(25, 5)] };
    assert_eq!(History::load(Some(stored), &day).len(), 1);
    let stale = StoredHistory { date: b"2024-05-31".to_vec(), intervals: vec![stored_entry(25, 5)] };
    assert_eq!(History::load(Some(stale), &day).len(), 0);
}

#[test]
fn load_discards_unreadable_content() {
    let day = Date::new(2024, 6, 1).unwrap();
    for date in [
        &b"not a date"[..],
        &b"2024-6-1"[..],
        &b""[..],
        &b"2024-06-01 "[..],
        &b"2024-13-01"[..],
        &b"2023-02-29"[..],
    ] {
        let stored = StoredHistory { date: date.to_vec(), intervals: vec![stored_entry(25, 5)] };
        let loaded = History::load(Some(stored), &day);
        assert_eq!(loaded.len(), 0);
        assert!(loaded.is_today(&day));
    }
    assert_eq!(History::load(None, &day).len(), 0);
}

#[test]
fn load_discards_overflowing_entries() {
    let day = Date::new(2024, 6, 1).unwrap();
    let stored = StoredHistory {
        date: b"2024-06-01".to_vec(),
        intervals: vec![
            stored_entry(25, 5),
            StoredEntry {
                work_interval: stored_duration(u64::MAX, 0, 0),
                rest_interval: stored_duration(0, 5, 0),
            },
        ],
    };
    assert_eq!(History::load(Some(stored), &day).len(), 0);
}

#[test]
fn leap_day_round_trips() {
    let day = Date::new(2024, 2, 29).unwrap();
    assert!(Date::new(2023, 2, 29).is_none());
    assert!(Date::new(2024, 4, 31).is_none());
    assert!(Date::new(2024, 12, 31).is_some());
    let iso = day.to_iso();
    assert_eq!(iso, b"2024-02-29".to_vec());
    assert_eq!(Date::parse_iso(&iso), Some(day));
}

#[test]
fn century_leap_rule() {
    assert!(Date::new(1900, 2, 29).is_none());
    assert!(Date::new(2000, 2, 29).is_some());
}

#[test]
fn default_log_is_empty_and_dated_today() {
    let log = History::default();
    assert_eq!(log.len(), 0);
    assert!(log.is_today(&today()));
}

#[test]
fn entry_keeps_measured_values() {
    let e = HistoryEntry::new(Duration::from_secs(1501), Duration::from_secs(299));
    assert_eq!(e.work_interval().into_secs(), 1501);
    assert_eq!(e.rest_interval().into_secs(), 299);
}

#[test]
fn controller_records_and_persists() {
    let day = Date::new(2024, 6, 1).unwrap();
    let settings = PomodoroSettings {
        work_duration: 25,
        short_break_duration: 5,
        long_break_duration: 15,
        cycles_before_long_break: 3,
    };
    let mut c = Control::load(Some(settings), None, &day);
    assert!(c.expects_work());
    assert_eq!(c.history_len(), 0);
    let work = c.next_work_interval();
    assert_eq!(work.as_mins(), 25);
    let rest = c.next_rest_interval();
    assert_eq!(rest.as_mins(), 5);
    c.record_cycle(work, rest);
    assert_eq!(c.history_len(), 1);
    let snap = c.snapshot();
    assert_eq!(snap.date, b"2024-06-01".to_vec());
    assert_eq!(snap.intervals.len(), 1);
    let again = Control::load(Some(settings), Some(snap.clone()), &day);
    assert_eq!(again.history_len(), 1);
    assert_eq!(again.snapshot(), snap);
}

#[test]
fn prompt_continues_only_on_yes() {
    assert!(continue_after_prompt(Some(b"y".to_vec())));
    assert!(!continue_after_prompt(Some(b"n".to_vec())));
    assert!(!continue_after_prompt(Some(b"yy".to_vec())));
    assert!(!continue_after_prompt(Some(b"Y".to_vec())));
    assert!(!continue_after_prompt(Some(Vec::new())));
    assert!(!continue_after_prompt(None));
}
