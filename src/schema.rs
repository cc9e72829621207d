use vstd::prelude::*;
use vstd::string::{StrSliceExecFns, StringExecFns};

verus! {

broadcast use vstd::seq::Seq::lemma_filter_push;

/// Creates the three tables and the audit indexes where they are absent, and
/// seeds the settings row with the defaults where it is absent. Safe to run on
/// every open.
pub const CREATE_SCHEMA_SQL: &'static str = "
CREATE TABLE IF NOT EXISTS settings (
  id INTEGER PRIMARY KEY,
  pomodoro_minutes INTEGER NOT NULL DEFAULT 25,
  pomodoro_seconds INTEGER NOT NULL DEFAULT 0,
  short_break_minutes INTEGER NOT NULL DEFAULT 5,
  short_break_seconds INTEGER NOT NULL DEFAULT 0,
  long_break_minutes INTEGER NOT NULL DEFAULT 15,
  long_break_seconds INTEGER NOT NULL DEFAULT 0
);
CREATE TABLE IF NOT EXISTS tasks (
  id TEXT PRIMARY KEY,
  task TEXT NOT NULL,
  expected_time INTEGER NOT NULL,
  worked_minutes INTEGER NOT NULL,
  worked_seconds INTEGER NOT NULL
);
CREATE TABLE IF NOT EXISTS audit (
  id INTEGER PRIMARY KEY AUTOINCREMENT,
  task_id TEXT NOT NULL,
  worked_minutes INTEGER NOT NULL,
  worked_seconds INTEGER NOT NULL,
  timestamp INTEGER NOT NULL,
  FOREIGN KEY(task_id) REFERENCES tasks(id) ON DELETE CASCADE
);
CREATE INDEX IF NOT EXISTS idx_audit_timestamp ON audit(timestamp);
CREATE INDEX IF NOT EXISTS idx_audit_task ON audit(task_id);
INSERT OR IGNORE INTO settings (id) VALUES (1);
";

/// Lists the live columns of the settings table; the name is column 1 of each row.
pub const SETTINGS_COLUMNS_SQL: &'static str = "PRAGMA table_info(settings)";

/// The fixed key of the single settings row.
pub const SETTINGS_ROW_ID: i64 = 1;

pub const WRITE_SETTINGS_SQL: &'static str = "INSERT OR REPLACE INTO settings (id, pomodoro_minutes, pomodoro_seconds, short_break_minutes, short_break_seconds, long_break_minutes, long_break_seconds) VALUES (?1, ?2, ?3, ?4, ?5, ?6, ?7)";

pub const READ_SETTINGS_SQL: &'static str = "SELECT pomodoro_minutes, pomodoro_seconds, short_break_minutes, short_break_seconds, long_break_minutes, long_break_seconds FROM settings WHERE id = ?1";

pub const UPSERT_TASK_SQL: &'static str = "INSERT OR REPLACE INTO tasks (id, task, expected_time, worked_minutes, worked_seconds) VALUES (?1, ?2, ?3, ?4, ?5)";

pub const LIST_TASKS_SQL: &'static str = "SELECT id, task, expected_time, worked_minutes, worked_seconds FROM tasks";

pub const DELETE_TASK_SQL: &'static str = "DELETE FROM tasks WHERE id = ?1";

pub const APPEND_AUDIT_SQL: &'static str = "INSERT INTO audit (task_id, worked_minutes, worked_seconds, timestamp) VALUES (?1, ?2, ?3, ?4)";

pub const DELETE_TASK_AUDIT_SQL: &'static str = "DELETE FROM audit WHERE task_id = ?1";

pub const QUERY_AUDIT_RANGE_SQL: &'static str = "SELECT task_id, worked_minutes, worked_seconds, timestamp FROM audit WHERE timestamp BETWEEN ?1 AND ?2 ORDER BY id";

/// A column of the settings table: its name and the SQL text of its default.
#[derive(Clone, Copy, Debug)]
pub struct SettingsColumn {
    pub name: &'static str,
    pub default_value: &'static str,
}

/// The columns the settings table must have, in order.
pub open spec fn settings_columns() -> Seq<SettingsColumn> {
    seq![
        SettingsColumn { name: "pomodoro_minutes", default_value: "25" },
        SettingsColumn { name: "pomodoro_seconds", default_value: "0" },
        SettingsColumn { name: "short_break_minutes", default_value: "5" },
        SettingsColumn { name: "short_break_seconds", default_value: "0" },
        SettingsColumn { name: "long_break_minutes", default_value: "15" },
        SettingsColumn { name: "long_break_seconds", default_value: "0" },
    ]
}

pub open spec fn names_view(names: Seq<String>) -> Seq<Seq<char>> {
    names.map_values(|s: String| s@)
}

/// Keeps the columns whose name is not among `live`.
pub open spec fn absent_from(live: Seq<Seq<char>>) -> spec_fn(SettingsColumn) -> bool {
    |c: SettingsColumn| !live.contains(c.name@)
}

/// The names of `cols`, in order.
pub open spec fn column_names(cols: Seq<SettingsColumn>) -> Seq<Seq<char>> {
    cols.map_values(|c: SettingsColumn| c.name@)
}

/// The statement that adds `c` to the settings table with its default.
pub open spec fn add_column_sql(c: SettingsColumn) -> Seq<char> {
    "ALTER TABLE settings ADD COLUMN "@ + c.name@ + " INTEGER NOT NULL DEFAULT "@ + c.default_value@
}

pub fn expected_settings_columns() -> (r: Vec<SettingsColumn>)
    ensures
        r@ == settings_columns(),
{
    let mut r: Vec<SettingsColumn> = Vec::new();
    r.push(SettingsColumn { name: "pomodoro_minutes", default_value: "25" });
    r.push(SettingsColumn { name: "pomodoro_seconds", default_value: "0" });
    r.push(SettingsColumn { name: "short_break_minutes", default_value: "5" });
    r.push(SettingsColumn { name: "short_break_seconds", default_value: "0" });
    r.push(SettingsColumn { name: "long_break_minutes", default_value: "15" });
    r.push(SettingsColumn { name: "long_break_seconds", default_value: "0" });
    assert(r@ =~= settings_columns());
    r
}

/// Whether `name` is one of `live`.
fn is_listed(live: &Vec<String>, name: &str) -> (r: bool)
    ensures
        r == names_view(live@).contains(name@),
{
    let wanted = String::from_str(name);
    let n = live.len();
    let mut i: usize = 0;
    while i < n
        invariant
            n == live.len(),
            i <= n,
            wanted@ == name@,
            forall|k: int| 0 <= k < i ==> names_view(live@)[k] != name@,
        decreases n - i,
    {
        if live[i] == wanted {
            assert(names_view(live@)[i as int] == name@);
            return true;
        }
        i = i + 1;
    }
    false
}

/// The expected settings columns that `live`, the names of the columns the
/// table has, lacks, in their order.
pub fn missing_settings_columns(live: &Vec<String>) -> (r: Vec<SettingsColumn>)
    ensures
        r@ == settings_columns().filter(absent_from(names_view(live@))),
{
    let expected = expected_settings_columns();
    let ghost pred = absent_from(names_view(live@));
    let mut r: Vec<SettingsColumn> = Vec::new();
    let n = expected.len();
    let mut i: usize = 0;
    while i < n
        invariant
            n == expected.len(),
            expected@ == settings_columns(),
            pred == absent_from(names_view(live@)),
            i <= n,
            r@ == expected@.subrange(0, i as int).filter(pred),
        decreases n - i,
    {
        assert(expected@.subrange(0, i + 1) =~= expected@.subrange(0, i as int).push(expected@[i as int]));
        let c = expected[i];
        assert(pred(c) == !names_view(live@).contains(c.name@));
        if !is_listed(live, c.name) {
            r.push(c);
        }
        i = i + 1;
    }
    assert(expected@.subrange(0, n as int) =~= expected@);
    r
}

/// The statement that adds `column` to the settings table.
pub fn add_column_statement(column: &SettingsColumn) -> (r: String)
    ensures
        r@ == add_column_sql(*column),
{
    let mut s = String::from_str("ALTER TABLE settings ADD COLUMN ");
    s.append(column.name);
    s.append(" INTEGER NOT NULL DEFAULT ");
    s.append(column.default_value);
    s
}

/// The additive migration of a settings table whose columns are named `live`:
/// one statement per missing expected column, in order. None where nothing
/// is missing; no statement ever drops or renames a column.
pub fn migration_statements(live: &Vec<String>) -> (r: Vec<String>)
    ensures
        r@.len() == settings_columns().filter(absent_from(names_view(live@))).len(),
        forall|i: int|
            0 <= i < r@.len() ==> #[trigger] r@[i]@ == add_column_sql(
                settings_columns().filter(absent_from(names_view(live@)))[i],
            ),
{
    let missing = missing_settings_columns(live);
    let mut r: Vec<String> = Vec::new();
    let n = missing.len();
    let mut i: usize = 0;
    while i < n
        invariant
            n == missing.len(),
            i <= n,
            r@.len() == i,
            forall|k: int| 0 <= k < i ==> #[trigger] r@[k]@ == add_column_sql(missing@[k]),
        decreases n - i,
    {
        r.push(add_column_statement(&missing[i]));
        i = i + 1;
    }
    r
}

} // verus!
