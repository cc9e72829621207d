use vstd::prelude::*;
use vstd::string::StringExecFns;

verus! {

/// A span of time as minutes and seconds; seconds are not normalised below 60.
#[derive(Clone, Copy, Debug, PartialEq, Eq, Structural)]
pub struct TimerDuration {
    pub minutes: u32,
    pub seconds: u32,
}

/// The three configurable timer durations.
#[derive(Clone, Copy, Debug, PartialEq, Eq, Structural)]
pub struct TimerSettings {
    pub pomodoro_time: TimerDuration,
    pub short_break_time: TimerDuration,
    pub long_break_time: TimerDuration,
}

/// The settings a fresh store holds: 25m0s work, 5m0s short break, 15m0s long break.
pub open spec fn spec_default_settings() -> TimerSettings {
    TimerSettings {
        pomodoro_time: TimerDuration { minutes: 25, seconds: 0 },
        short_break_time: TimerDuration { minutes: 5, seconds: 0 },
        long_break_time: TimerDuration { minutes: 15, seconds: 0 },
    }
}

impl TimerSettings {
    pub fn defaults() -> (r: TimerSettings)
        ensures
            r == spec_default_settings(),
    {
        TimerSettings {
            pomodoro_time: TimerDuration { minutes: 25, seconds: 0 },
            short_break_time: TimerDuration { minutes: 5, seconds: 0 },
            long_break_time: TimerDuration { minutes: 15, seconds: 0 },
        }
    }
}

/// A duration read from a legacy settings file.
#[derive(Clone, Copy, Debug, PartialEq, Eq, Structural)]
pub struct TimeConfig {
    minutes: u32,
    seconds: u32,
}

impl TimeConfig {
    pub closed spec fn spec_minutes(self) -> u32 {
        self.minutes
    }

    pub closed spec fn spec_seconds(self) -> u32 {
        self.seconds
    }

    pub fn new(minutes: u32, seconds: u32) -> (r: Self)
        ensures
            r.spec_minutes() == minutes,
            r.spec_seconds() == seconds,
    {
        TimeConfig { minutes, seconds }
    }

    pub fn minutes(&self) -> (r: u32)
        ensures
            r == self.spec_minutes(),
    {
        self.minutes
    }

    pub fn seconds(&self) -> (r: u32)
        ensures
            r == self.spec_seconds(),
    {
        self.seconds
    }
}

/// A user task: caller-assigned id, description, expected minutes and the
/// cumulative worked time.
#[derive(Clone, Debug)]
pub struct Task {
    pub id: String,
    pub task: String,
    pub expected_time: u32,
    pub worked_time: TimerDuration,
}

/// The mathematical value of a [`Task`].
pub struct TaskModel {
    pub id: Seq<char>,
    pub task: Seq<char>,
    pub expected_time: u32,
    pub worked_time: TimerDuration,
}

impl View for Task {
    type V = TaskModel;

    open spec fn view(&self) -> TaskModel {
        TaskModel {
            id: self.id@,
            task: self.task@,
            expected_time: self.expected_time,
            worked_time: self.worked_time,
        }
    }
}

impl Task {
    /// A field-for-field copy.
    pub fn duplicate(&self) -> (r: Task)
        ensures
            r@ == self@,
    {
        Task {
            id: self.id.clone(),
            task: self.task.clone(),
            expected_time: self.expected_time,
            worked_time: self.worked_time,
        }
    }
}

/// One recorded work session of a task: the time worked in that session and
/// when it was recorded, in seconds since the Unix epoch (UTC).
#[derive(Clone, Debug)]
pub struct AuditEntry {
    pub task_id: String,
    pub worked_time: TimerDuration,
    pub timestamp: i64,
}

/// The mathematical value of an [`AuditEntry`].
pub struct AuditModel {
    pub task_id: Seq<char>,
    pub worked_time: TimerDuration,
    pub timestamp: i64,
}

impl View for AuditEntry {
    type V = AuditModel;

    open spec fn view(&self) -> AuditModel {
        AuditModel { task_id: self.task_id@, worked_time: self.worked_time, timestamp: self.timestamp }
    }
}

impl AuditEntry {
    /// A field-for-field copy.
    pub fn duplicate(&self) -> (r: AuditEntry)
        ensures
            r@ == self@,
    {
        AuditEntry {
            task_id: self.task_id.clone(),
            worked_time: self.worked_time,
            timestamp: self.timestamp,
        }
    }
}

/// Failures of the store's operations.
#[derive(Clone, Debug, PartialEq, Eq)]
pub enum StoreError {
    /// The backing store could not be located, created or opened.
    StorageUnavailable(String),
    /// Creating or migrating the schema failed.
    SchemaError(String),
    /// An audit entry named a task that does not exist.
    ReferentialIntegrity,
    /// A requested row is absent.
    NotFound,
    /// Stored or supplied data does not fit the record's fields.
    SerializationError(String),
}

/// Whether a stored integer fits a `u32` field.
pub open spec fn fits_u32(v: i64) -> bool {
    0 <= v <= u32::MAX
}

fn out_of_range() -> (r: StoreError)
    ensures
        r is SerializationError,
{
    StoreError::SerializationError(String::from_str("stored value out of range for its field"))
}

impl TimerDuration {
    /// A duration from its stored minutes and seconds columns.
    pub fn from_columns(minutes: i64, seconds: i64) -> (r: Result<TimerDuration, StoreError>)
        ensures
            r is Ok <==> fits_u32(minutes) && fits_u32(seconds),
            r matches Ok(d) ==> d.minutes == minutes && d.seconds == seconds,
            r matches Err(e) ==> e is SerializationError,
    {
        if 0 <= minutes && minutes <= 0xffff_ffff && 0 <= seconds && seconds <= 0xffff_ffff {
            Ok(TimerDuration { minutes: minutes as u32, seconds: seconds as u32 })
        } else {
            Err(out_of_range())
        }
    }
}

impl TimerSettings {
    /// The settings from the six stored duration columns, in table order.
    pub fn from_columns(
        pomodoro_minutes: i64,
        pomodoro_seconds: i64,
        short_break_minutes: i64,
        short_break_seconds: i64,
        long_break_minutes: i64,
        long_break_seconds: i64,
    ) -> (r: Result<TimerSettings, StoreError>)
        ensures
            r is Ok <==> fits_u32(pomodoro_minutes) && fits_u32(pomodoro_seconds) && fits_u32(
                short_break_minutes,
            ) && fits_u32(short_break_seconds) && fits_u32(long_break_minutes) && fits_u32(
                long_break_seconds,
            ),
            r matches Ok(s) ==> s.pomodoro_time.minutes == pomodoro_minutes
                && s.pomodoro_time.seconds == pomodoro_seconds && s.short_break_time.minutes
                == short_break_minutes && s.short_break_time.seconds == short_break_seconds
                && s.long_break_time.minutes == long_break_minutes && s.long_break_time.seconds
                == long_break_seconds,
            r matches Err(e) ==> e is SerializationError,
    {
        let pomodoro_time = match TimerDuration::from_columns(pomodoro_minutes, pomodoro_seconds) {
            Ok(d) => d,
            Err(e) => return Err(e),
        };
        let short_break_time = match TimerDuration::from_columns(
            short_break_minutes,
            short_break_seconds,
        ) {
            Ok(d) => d,
            Err(e) => return Err(e),
        };
        let long_break_time = match TimerDuration::from_columns(
            long_break_minutes,
            long_break_seconds,
        ) {
            Ok(d) => d,
            Err(e) => return Err(e),
        };
        Ok(TimerSettings { pomodoro_time, short_break_time, long_break_time })
    }
}

impl Task {
    /// A task from a stored row of the tasks table.
    pub fn from_columns(
        id: String,
        task: String,
        expected_time: i64,
        worked_minutes: i64,
        worked_seconds: i64,
    ) -> (r: Result<Task, StoreError>)
        ensures
            r is Ok <==> fits_u32(expected_time) && fits_u32(worked_minutes) && fits_u32(
                worked_seconds,
            ),
            r matches Ok(t) ==> t.id@ == id@ && t.task@ == task@ && t.expected_time
                == expected_time && t.worked_time.minutes == worked_minutes
                && t.worked_time.seconds == worked_seconds,
            r matches Err(e) ==> e is SerializationError,
    {
        if !(0 <= expected_time && expected_time <= 0xffff_ffff) {
            return Err(out_of_range());
        }
        match TimerDuration::from_columns(worked_minutes, worked_seconds) {
            Ok(worked_time) => Ok(Task { id, task, expected_time: expected_time as u32, worked_time }),
            Err(e) => Err(e),
        }
    }
}

impl AuditEntry {
    /// An entry from a stored row of the audit table.
    pub fn from_columns(task_id: String, worked_minutes: i64, worked_seconds: i64, timestamp: i64) -> (r:
        Result<AuditEntry, StoreError>)
        ensures
            r is Ok <==> fits_u32(worked_minutes) && fits_u32(worked_seconds),
            r matches Ok(e) ==> e.task_id@ == task_id@ && e.worked_time.minutes == worked_minutes
                && e.worked_time.seconds == worked_seconds && e.timestamp == timestamp,
            r matches Err(e) ==> e is SerializationError,
    {
        match TimerDuration::from_columns(worked_minutes, worked_seconds) {
            Ok(worked_time) => Ok(AuditEntry { task_id, worked_time, timestamp }),
            Err(e) => Err(e),
        }
    }
}

} // verus!
