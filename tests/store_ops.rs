use pomodoro_store::model::{AuditEntry, StoreError, Task, TimeConfig, TimerDuration, TimerSettings};
use pomodoro_store::store::Store;

fn dur(minutes: u32, seconds: u32) -> TimerDuration {
    TimerDuration { minutes, seconds }
}

fn task(id: &str, description: &str, expected_time: u32, worked: TimerDuration) -> Task {
    Task {
        id: id.to_string(),
        task: description.to_string(),
        expected_time,
        worked_time: worked,
    }
}

fn settings(p: (u32, u32), s: (u32, u32), l: (u32, u32)) -> TimerSettings {
    TimerSettings {
        pomodoro_time: dur(p.0, p.1),
        short_break_time: dur(s.0, s.1),
        long_break_time: dur(l.0, l.1),
    }
}

fn ids(tasks: &[Task]) -> Vec<String> {
    tasks.iter().map(|t| t.id.clone()).collect()
}

#[test]
fn fresh_store_reads_default_settings() {
    let store = Store::new();
    assert_eq!(store.read_settings(), settings((25, 0), (5, 0), (15, 0)));
    assert_eq!(TimerSettings::defaults(), settings((25, 0), (5, 0), (15, 0)));
    assert!(store.list_tasks().is_empty());
    assert!(store.query_range(i64::MIN, i64::MAX).is_empty());
}

#[test]
fn settings_round_trip_returns_written_value() {
    let mut store = Store::new();
    let s = settings((50, 30), (10, 5), (20, 59));
    store.write_settings(s);
    assert_eq!(store.read_settings(), s);
}

#[test]
fn second_settings_write_replaces_first() {
    let mut store = Store::new();
    store.write_settings(settings((1, 2), (3, 4), (5, 6)));
    store.write_settings(settings((7, 8), (9, 10), (11, 12)));
    assert_eq!(store.read_settings(), settings((7, 8), (9, 10), (11, 12)));
}

#[test]
fn upsert_then_list_holds_one_entry() {
    let mut store = Store::new();
    store.upsert_task(task("a", "first", 10, dur(1, 2)));
    let listed = store.list_tasks();
    assert_eq!(listed.len(), 1);
    assert_eq!(listed[0].id, "a");
    assert_eq!(listed[0].task, "first");
    assert_eq!(listed[0].expected_time, 10);
    assert_eq!(listed[0].worked_time, dur(1, 2));
}

#[test]
fn second_upsert_same_id_replaces_fields() {
    let mut store = Store::new();
    store.upsert_task(task("a", "first", 10, dur(1, 2)));
    store.upsert_task(task("b", "other", 5, dur(0, 0)));
    store.upsert_task(task("a", "changed", 40, dur(7, 30)));
    let listed = store.list_tasks();
    assert_eq!(ids(&listed), vec!["a".to_string(), "b".to_string()]);
    let a: Vec<&Task> = listed.iter().filter(|t| t.id == "a").collect();
    assert_eq!(a.len(), 1);
    assert_eq!(a[0].task, "changed");
    assert_eq!(a[0].expected_time, 40);
    assert_eq!(a[0].worked_time, dur(7, 30));
    assert!(store.contains_task(&"b".to_string()));
}

#[test]
fn delete_removes_task_and_its_entries() {
    let mut store = Store::new();
    store.upsert_task(task("a", "one", 1, dur(0, 0)));
    store.upsert_task(task("b", "two", 2, dur(0, 0)));
    assert_eq!(store.log_session_at("a".to_string(), dur(3, 0), 100), Ok(()));
    assert_eq!(store.log_session_at("b".to_string(), dur(4, 0), 200), Ok(()));
    assert_eq!(store.log_session_at("a".to_string(), dur(5, 0), 300), Ok(()));
    store.delete_task("a".to_string());
    assert_eq!(ids(&store.list_tasks()), vec!["b".to_string()]);
    let left = store.query_range(i64::MIN, i64::MAX);
    assert_eq!(left.len(), 1);
    assert_eq!(left[0].task_id, "b");
    assert_eq!(left[0].timestamp, 200);
    assert!(!store.contains_task(&"a".to_string()));
}

#[test]
fn delete_of_missing_id_changes_nothing() {
    let mut store = Store::new();
    store.upsert_task(task("a", "one", 1, dur(0, 0)));
    assert_eq!(store.log_session_at("a".to_string(), dur(3, 0), 100), Ok(()));
    store.delete_task("zzz".to_string());
    assert_eq!(ids(&store.list_tasks()), vec!["a".to_string()]);
    assert_eq!(store.query_range(i64::MIN, i64::MAX).len(), 1);
}

#[test]
fn log_session_for_missing_task_is_refused() {
    let mut store = Store::new();
    store.upsert_task(task("a", "one", 1, dur(0, 0)));
    assert_eq!(store.log_session("ghost".to_string(), dur(25, 0)), Err(StoreError::ReferentialIntegrity));
    assert_eq!(
        store.log_session_at("ghost".to_string(), dur(25, 0), 10),
        Err(StoreError::ReferentialIntegrity)
    );
    assert!(store.query_range(i64::MIN, i64::MAX).is_empty());
}

#[test]
fn query_range_is_inclusive_and_exact() {
    let mut store = Store::new();
    store.upsert_task(task("a", "one", 1, dur(0, 0)));
    for ts in [5i64, 10, 15, 20, 25] {
        assert_eq!(store.log_session_at("a".to_string(), dur(1, ts as u32), ts), Ok(()));
    }
    let got: Vec<i64> = store.query_range(10, 20).iter().map(|e| e.timestamp).collect();
    assert_eq!(got, vec![10, 15, 20]);
    let secs: Vec<u32> = store.query_range(10, 20).iter().map(|e| e.worked_time.seconds).collect();
    assert_eq!(secs, vec![10, 15, 20]);
    assert!(store.query_range(11, 14).is_empty());
    assert!(store.query_range(30, 40).is_empty());
    assert!(store.query_range(20, 10).is_empty());
    assert_eq!(store.query_range(25, 25).len(), 1);
}

#[test]
fn log_session_stamps_current_time() {
    let mut store = Store::new();
    store.upsert_task(task("a", "one", 1, dur(0, 0)));
    let ts = store.log_session("a".to_string(), dur(2, 0)).unwrap();
    assert!(ts > 1_600_000_000);
    let entries: Vec<AuditEntry> = store.query_range(ts, ts);
    assert_eq!(entries.len(), 1);
    assert_eq!(entries[0].worked_time, dur(2, 0));
}

#[test]
fn upsert_logs_no_session() {
    let mut store = Store::new();
    store.upsert_task(task("a", "one", 30, dur(3, 15)));
    store.upsert_task(task("a", "one", 30, dur(6, 30)));
    let listed = store.list_tasks();
    assert_eq!(listed.len(), 1);
    assert_eq!(listed[0].worked_time, dur(6, 30));
    assert!(store.query_range(i64::MIN, i64::MAX).is_empty());
}

#[test]
fn pomodoro_day_scenario() {
    let mut store = Store::new();
    let s = settings((25, 0), (5, 0), (15, 0));
    store.write_settings(s);
    assert_eq!(store.read_settings(), s);

    store.upsert_task(task("t1", "write spec", 30, dur(0, 0)));
    let listed = store.list_tasks();
    assert_eq!(ids(&listed), vec!["t1".to_string()]);
    assert_eq!(listed[0].worked_time, dur(0, 0));

    let first = store.log_session("t1".to_string(), dur(25, 0)).unwrap();
    let second = store.log_session("t1".to_string(), dur(5, 0)).unwrap();
    let now = second.max(first);
    let log = store.query_range(0, now);
    assert_eq!(log.len(), 2);
    assert!(log.iter().all(|e| e.task_id == "t1"));
    let minutes: u32 = log.iter().map(|e| e.worked_time.minutes).sum();
    let seconds: u32 = log.iter().map(|e| e.worked_time.seconds).sum();
    assert_eq!((minutes, seconds), (30, 0));

    store.delete_task("t1".to_string());
    assert!(store.list_tasks().is_empty());
    assert!(store.query_range(0, now).is_empty());
}

#[test]
fn duplicates_keep_every_field() {
    let t = task("id-1", "desc", 9, dur(4, 5));
    let c = t.duplicate();
    assert_eq!((c.id.as_str(), c.task.as_str(), c.expected_time, c.worked_time), ("id-1", "desc", 9, dur(4, 5)));
    let e = AuditEntry { task_id: "x".to_string(), worked_time: dur(1, 1), timestamp: -3 };
    let d = e.duplicate();
    assert_eq!((d.task_id.as_str(), d.worked_time, d.timestamp), ("x", dur(1, 1), -3));
}

#[test]
fn time_config_keeps_its_values() {
    let c = TimeConfig::new(25, 30);
    assert_eq!(c.minutes(), 25);
    assert_eq!(c.seconds(), 30);
}
