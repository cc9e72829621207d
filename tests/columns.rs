use pomodoro_store::model::{AuditEntry, StoreError, Task, TimerDuration, TimerSettings};
use pomodoro_store::schema::{
    add_column_statement, expected_settings_columns, migration_statements,
    missing_settings_columns, SettingsColumn,
};

fn is_serialization_error<T>(r: &Result<T, StoreError>) -> bool {
    matches!(r, Err(StoreError::SerializationError(_)))
}

#[test]
fn duration_from_columns_in_range() {
    assert_eq!(
        TimerDuration::from_columns(25, 0),
        Ok(TimerDuration { minutes: 25, seconds: 0 })
    );
    assert_eq!(
        TimerDuration::from_columns(4_294_967_295, 0),
        Ok(TimerDuration { minutes: u32::MAX, seconds: 0 })
    );
}

#[test]
fn duration_from_columns_out_of_range() {
    assert!(is_serialization_error(&TimerDuration::from_columns(-1, 0)));
    assert!(is_serialization_error(&TimerDuration::from_columns(0, 4_294_967_296)));
}

#[test]
fn settings_from_columns() {
    let s = TimerSettings::from_columns(25, 0, 5, 0, 15, 0).unwrap();
    assert_eq!(s, TimerSettings::defaults());
    assert!(is_serialization_error(&TimerSettings::from_columns(25, 0, 5, -7, 15, 0)));
    assert!(is_serialization_error(&TimerSettings::from_columns(25, 0, 5, 0, 15, i64::MAX)));
}

#[test]
fn task_and_entry_from_columns() {
    let t = Task::from_columns("t".to_string(), "d".to_string(), 30, 1, 2).unwrap();
    assert_eq!((t.id.as_str(), t.task.as_str(), t.expected_time), ("t", "d", 30));
    assert_eq!(t.worked_time, TimerDuration { minutes: 1, seconds: 2 });
    assert!(is_serialization_error(&Task::from_columns("t".to_string(), "d".to_string(), -30, 1, 2)));
    assert!(is_serialization_error(&Task::from_columns("t".to_string(), "d".to_string(), 30, 1, -2)));
    let e = AuditEntry::from_columns("t".to_string(), 3, 4, -99).unwrap();
    assert_eq!((e.task_id.as_str(), e.worked_time, e.timestamp), ("t", TimerDuration { minutes: 3, seconds: 4 }, -99));
    assert!(is_serialization_error(&AuditEntry::from_columns("t".to_string(), 1 << 40, 4, 0)));
}

fn names(cols: &[SettingsColumn]) -> Vec<&'static str> {
    cols.iter().map(|c| c.name).collect()
}

#[test]
fn expected_columns_and_defaults() {
    let cols = expected_settings_columns();
    assert_eq!(
        names(&cols),
        vec![
            "pomodoro_minutes",
            "pomodoro_seconds",
            "short_break_minutes",
            "short_break_seconds",
            "long_break_minutes",
            "long_break_seconds"
        ]
    );
    let defaults: Vec<&str> = cols.iter().map(|c| c.default_value).collect();
    assert_eq!(defaults, vec!["25", "0", "5", "0", "15", "0"]);
}

#[test]
fn no_migration_for_current_table() {
    let live: Vec<String> = ["id", "pomodoro_minutes", "pomodoro_seconds", "short_break_minutes",
        "short_break_seconds", "long_break_minutes", "long_break_seconds"]
        .iter()
        .map(|s| s.to_string())
        .collect();
    assert!(missing_settings_columns(&live).is_empty());
    assert!(migration_statements(&live).is_empty());
}

#[test]
fn migration_adds_only_missing_columns() {
    let live: Vec<String> = ["id", "pomodoro_minutes", "short_break_minutes", "long_break_minutes"]
        .iter()
        .map(|s| s.to_string())
        .collect();
    assert_eq!(
        names(&missing_settings_columns(&live)),
        vec!["pomodoro_seconds", "short_break_seconds", "long_break_seconds"]
    );
    assert_eq!(
        migration_statements(&live),
        vec![
            "ALTER TABLE settings ADD COLUMN pomodoro_seconds INTEGER NOT NULL DEFAULT 0".to_string(),
            "ALTER TABLE settings ADD COLUMN short_break_seconds INTEGER NOT NULL DEFAULT 0".to_string(),
            "ALTER TABLE settings ADD COLUMN long_break_seconds INTEGER NOT NULL DEFAULT 0".to_string(),
        ]
    );
}

#[test]
fn migration_of_bare_table_adds_all_columns() {
    let live = vec!["id".to_string()];
    let stmts = migration_statements(&live);
    assert_eq!(stmts.len(), 6);
    assert_eq!(stmts[0], "ALTER TABLE settings ADD COLUMN pomodoro_minutes INTEGER NOT NULL DEFAULT 25");
    assert_eq!(stmts[4], "ALTER TABLE settings ADD COLUMN long_break_minutes INTEGER NOT NULL DEFAULT 15");
}

#[test]
fn add_column_statement_text() {
    let c = SettingsColumn { name: "extra", default_value: "7" };
    assert_eq!(add_column_statement(&c), "ALTER TABLE settings ADD COLUMN extra INTEGER NOT NULL DEFAULT 7");
}

#[test]
fn replanning_after_migration_finds_nothing() {
    let mut live: Vec<String> = vec!["id".to_string(), "short_break_seconds".to_string()];
    let added: Vec<String> = missing_settings_columns(&live).iter().map(|c| c.name.to_string()).collect();
    assert_eq!(added.len(), 5);
    live.extend(added);
    assert!(missing_settings_columns(&live).is_empty());
    assert!(migration_statements(&live).is_empty());
}
