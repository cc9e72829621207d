use vstd::prelude::*;

use crate::clock::now_utc_seconds;
use crate::laws::upsert_keeps_store_well_formed;
use crate::model::{
    spec_default_settings, AuditEntry, AuditModel, StoreError, Task, TaskModel, TimerDuration,
    TimerSettings,
};

verus! {

broadcast use vstd::seq_lib::group_filter_ensures, vstd::seq::Seq::lemma_filter_push;

pub open spec fn tasks_view(v: Seq<Task>) -> Seq<TaskModel> {
    v.map_values(|t: Task| t@)
}

pub open spec fn audit_view(v: Seq<AuditEntry>) -> Seq<AuditModel> {
    v.map_values(|e: AuditEntry| e@)
}

/// Keeps the tasks whose id is not `id`.
pub open spec fn other_task(id: Seq<char>) -> spec_fn(TaskModel) -> bool {
    |t: TaskModel| t.id != id
}

/// Keeps the entries that do not belong to task `id`.
pub open spec fn other_task_entry(id: Seq<char>) -> spec_fn(AuditModel) -> bool {
    |e: AuditModel| e.task_id != id
}

/// Keeps the entries recorded in the inclusive range `[since, until]`.
pub open spec fn in_range(since: i64, until: i64) -> spec_fn(AuditModel) -> bool {
    |e: AuditModel| since <= e.timestamp && e.timestamp <= until
}

/// `tasks` with `t` in place of the entry carrying `t`'s id, or with `t`
/// appended where there is none.
pub open spec fn upserted(tasks: Seq<TaskModel>, t: TaskModel) -> Seq<TaskModel> {
    if exists|i: int| 0 <= i < tasks.len() && tasks[i].id == t.id {
        let i = choose|i: int| 0 <= i < tasks.len() && tasks[i].id == t.id;
        tasks.update(i, t)
    } else {
        tasks.push(t)
    }
}

pub open spec fn unique_ids(tasks: Seq<TaskModel>) -> bool {
    forall|i: int, j: int|
        0 <= i < tasks.len() && 0 <= j < tasks.len() && i != j ==> tasks[i].id != tasks[j].id
}

/// The contents of a store: the settings row, the tasks table and the audit
/// table, each table in the order in which its rows are kept.
pub struct StoreModel {
    pub settings: TimerSettings,
    pub tasks: Seq<TaskModel>,
    pub audit: Seq<AuditModel>,
}

impl StoreModel {
    pub open spec fn initial() -> StoreModel {
        StoreModel { settings: spec_default_settings(), tasks: Seq::empty(), audit: Seq::empty() }
    }

    pub open spec fn has_task(self, id: Seq<char>) -> bool {
        exists|i: int| 0 <= i < self.tasks.len() && self.tasks[i].id == id
    }

    /// Task ids are unique, and every audit entry refers to an existing task.
    pub open spec fn wf(self) -> bool {
        &&& unique_ids(self.tasks)
        &&& forall|k: int| 0 <= k < self.audit.len() ==> self.has_task(#[trigger] self.audit[k].task_id)
    }

    pub open spec fn with_settings(self, s: TimerSettings) -> StoreModel {
        StoreModel { settings: s, tasks: self.tasks, audit: self.audit }
    }

    pub open spec fn with_task(self, t: TaskModel) -> StoreModel {
        StoreModel { settings: self.settings, tasks: upserted(self.tasks, t), audit: self.audit }
    }

    /// The task `id` and all of its audit entries removed (a cascading delete).
    pub open spec fn without_task(self, id: Seq<char>) -> StoreModel {
        StoreModel {
            settings: self.settings,
            tasks: self.tasks.filter(other_task(id)),
            audit: self.audit.filter(other_task_entry(id)),
        }
    }

    pub open spec fn with_entry(self, e: AuditModel) -> StoreModel {
        StoreModel { settings: self.settings, tasks: self.tasks, audit: self.audit.push(e) }
    }

    pub open spec fn entries_in(self, since: i64, until: i64) -> Seq<AuditModel> {
        self.audit.filter(in_range(since, until))
    }
}

/// The tasks of `tasks` whose id is not `id`, in their order.
fn tasks_without(tasks: &Vec<Task>, id: &String) -> (r: Vec<Task>)
    requires
        unique_ids(tasks_view(tasks@)),
    ensures
        tasks_view(r@) == tasks_view(tasks@).filter(other_task(id@)),
        unique_ids(tasks_view(r@)),
{
    let ghost src = tasks_view(tasks@);
    let mut kept: Vec<Task> = Vec::new();
    let n = tasks.len();
    let mut i: usize = 0;
    while i < n
        invariant
            n == tasks.len(),
            i <= n,
            src == tasks_view(tasks@),
            unique_ids(src),
            tasks_view(kept@) == src.subrange(0, i as int).filter(other_task(id@)),
            unique_ids(tasks_view(kept@)),
            forall|a: int, j: int|
                0 <= a < kept@.len() && i <= j < n ==> #[trigger] tasks_view(kept@)[a].id
                    != #[trigger] src[j].id,
        decreases n - i,
    {
        assert(src.subrange(0, i + 1) =~= src.subrange(0, i as int).push(src[i as int]));
        if !(tasks[i].id == *id) {
            let ghost prev = kept@;
            kept.push(tasks[i].duplicate());
            assert(tasks_view(kept@) =~= tasks_view(prev).push(src[i as int]));
            assert forall|a: int, j: int|
                0 <= a < kept@.len() && i + 1 <= j < n implies #[trigger] tasks_view(kept@)[a].id
                    != #[trigger] src[j].id by {
                if a < prev.len() {
                    assert(tasks_view(prev)[a].id != src[j].id);
                }
            }
        }
        i = i + 1;
    }
    assert(src.subrange(0, n as int) =~= src);
    kept
}

/// The entries of `audit` that do not belong to task `id`, in their order.
fn entries_without(audit: &Vec<AuditEntry>, id: &String) -> (r: Vec<AuditEntry>)
    ensures
        audit_view(r@) == audit_view(audit@).filter(other_task_entry(id@)),
{
    let ghost src = audit_view(audit@);
    let mut kept: Vec<AuditEntry> = Vec::new();
    let n = audit.len();
    let mut i: usize = 0;
    while i < n
        invariant
            n == audit.len(),
            i <= n,
            src == audit_view(audit@),
            audit_view(kept@) == src.subrange(0, i as int).filter(other_task_entry(id@)),
        decreases n - i,
    {
        assert(src.subrange(0, i + 1) =~= src.subrange(0, i as int).push(src[i as int]));
        if !(audit[i].task_id == *id) {
            let ghost prev = kept@;
            kept.push(audit[i].duplicate());
            assert(audit_view(kept@) =~= audit_view(prev).push(src[i as int]));
        }
        i = i + 1;
    }
    assert(src.subrange(0, n as int) =~= src);
    kept
}

/// The entries of `audit` recorded in `[since, until]`, in their order.
fn entries_between(audit: &Vec<AuditEntry>, since: i64, until: i64) -> (r: Vec<AuditEntry>)
    ensures
        audit_view(r@) == audit_view(audit@).filter(in_range(since, until)),
{
    let ghost src = audit_view(audit@);
    let mut kept: Vec<AuditEntry> = Vec::new();
    let n = audit.len();
    let mut i: usize = 0;
    while i < n
        invariant
            n == audit.len(),
            i <= n,
            src == audit_view(audit@),
            audit_view(kept@) == src.subrange(0, i as int).filter(in_range(since, until)),
        decreases n - i,
    {
        assert(src.subrange(0, i + 1) =~= src.subrange(0, i as int).push(src[i as int]));
        let ts = audit[i].timestamp;
        if since <= ts && ts <= until {
            let ghost prev = kept@;
            kept.push(audit[i].duplicate());
            assert(audit_view(kept@) =~= audit_view(prev).push(src[i as int]));
        }
        i = i + 1;
    }
    assert(src.subrange(0, n as int) =~= src);
    kept
}

/// Removing a task and its entries keeps every remaining entry's task present.
proof fn lemma_without_task_references(m: StoreModel, id: Seq<char>)
    requires
        m.wf(),
    ensures
        forall|k: int|
            0 <= k < m.without_task(id).audit.len() ==> m.without_task(id).has_task(
                #[trigger] m.without_task(id).audit[k].task_id,
            ),
{
    let r = m.without_task(id);
    assert forall|k: int| 0 <= k < r.audit.len() implies r.has_task(#[trigger] r.audit[k].task_id) by {
        let e = r.audit[k];
        assert(r.audit.contains(e));
        m.audit.lemma_filter_contains_rev(other_task_entry(id), e);
        let ka = choose|x: int| 0 <= x < m.audit.len() && m.audit[x] == e;
        assert(m.has_task(m.audit[ka].task_id));
        let w = choose|j: int| 0 <= j < m.tasks.len() && m.tasks[j].id == m.audit[ka].task_id;
        assert(other_task_entry(id)(e));
        m.tasks.lemma_filter_contains(other_task(id), w);
        assert(r.tasks.contains(m.tasks[w]));
    }
}

/// The store: one settings row, the tasks keyed by id, and the audit log.
pub struct Store {
    settings: TimerSettings,
    tasks: Vec<Task>,
    audit: Vec<AuditEntry>,
}

impl View for Store {
    type V = StoreModel;

    closed spec fn view(&self) -> StoreModel {
        StoreModel {
            settings: self.settings,
            tasks: tasks_view(self.tasks@),
            audit: audit_view(self.audit@),
        }
    }
}

impl Store {
    /// A fresh store, its settings row seeded with the defaults.
    pub fn new() -> (r: Store)
        ensures
            r@ == StoreModel::initial(),
            r@.wf(),
    {
        let r = Store { settings: TimerSettings::defaults(), tasks: Vec::new(), audit: Vec::new() };
        assert(r@.tasks =~= Seq::<TaskModel>::empty());
        assert(r@.audit =~= Seq::<AuditModel>::empty());
        r
    }

    /// Replaces all three durations of the settings row.
    pub fn write_settings(&mut self, settings: TimerSettings)
        requires
            old(self)@.wf(),
        ensures
            final(self)@ == old(self)@.with_settings(settings),
            final(self)@.wf(),
    {
        self.settings = settings;
        assert(self@.tasks == old(self)@.tasks);
        assert(self@.audit == old(self)@.audit);
    }

    pub fn read_settings(&self) -> (r: TimerSettings)
        ensures
            r == self@.settings,
    {
        self.settings
    }

    /// Whether a task with this id exists.
    pub fn contains_task(&self, id: &String) -> (r: bool)
        ensures
            r == self@.has_task(id@),
    {
        let n = self.tasks.len();
        let mut i: usize = 0;
        while i < n
            invariant
                n == self.tasks.len(),
                i <= n,
                forall|k: int| 0 <= k < i ==> self@.tasks[k].id != id@,
            decreases n - i,
        {
            if self.tasks[i].id == *id {
                assert(self@.tasks[i as int].id == id@);
                return true;
            }
            i = i + 1;
        }
        false
    }
}

impl Store {
    /// Inserts `task`, or replaces every field of the task with the same id.
    pub fn upsert_task(&mut self, task: Task)
        requires
            old(self)@.wf(),
        ensures
            final(self)@ == old(self)@.with_task(task@),
            final(self)@.wf(),
    {
        let ghost old_model = self@;
        let ghost t = task@;
        let n = self.tasks.len();
        let mut i: usize = 0;
        while i < n
            invariant
                n == self.tasks.len(),
                i <= n,
                self@ == old_model,
                old(self)@ == old_model,
                old_model.wf(),
                t == task@,
                forall|k: int| 0 <= k < i ==> self@.tasks[k].id != t.id,
            decreases n - i,
        {
            if self.tasks[i].id == task.id {
                proof {
                    assert(old_model.tasks[i as int].id == t.id);
                    let c = choose|j: int| 0 <= j < old_model.tasks.len() && old_model.tasks[j].id == t.id;
                    assert(c == i);
                    assert(old_model.with_task(t).tasks == old_model.tasks.update(i as int, t));
                }
                self.tasks.set(i, task);
                proof {
                    assert(self@.tasks =~= old_model.tasks.update(i as int, t));
                    assert(self@.audit == old_model.audit);
                    upsert_keeps_store_well_formed(old_model, t);
                }
                return;
            }
            i = i + 1;
        }
        self.tasks.push(task);
        proof {
            assert(self@.tasks =~= old_model.tasks.push(t));
            assert(self@.audit == old_model.audit);
            upsert_keeps_store_well_formed(old_model, t);
        }
    }

    /// Removes the task `id` together with all of its audit entries. Deleting an
    /// id that does not exist changes nothing and is no error.
    pub fn delete_task(&mut self, id: String)
        requires
            old(self)@.wf(),
        ensures
            final(self)@ == old(self)@.without_task(id@),
            final(self)@.wf(),
    {
        let tasks = tasks_without(&self.tasks, &id);
        let audit = entries_without(&self.audit, &id);
        proof {
            lemma_without_task_references(old(self)@, id@);
        }
        self.tasks = tasks;
        self.audit = audit;
    }

    /// Appends one session of `task_id` recorded at `timestamp`. Fails with
    /// `ReferentialIntegrity`, and changes nothing, where no such task exists.
    pub fn log_session_at(&mut self, task_id: String, worked_time: TimerDuration, timestamp: i64) -> (r:
        Result<(), StoreError>)
        requires
            old(self)@.wf(),
        ensures
            r is Ok <==> old(self)@.has_task(task_id@),
            r is Ok ==> final(self)@ == old(self)@.with_entry(
                AuditModel { task_id: task_id@, worked_time, timestamp },
            ),
            r is Err ==> r == Err::<(), StoreError>(StoreError::ReferentialIntegrity) && final(self)@
                == old(self)@,
            final(self)@.wf(),
    {
        if !self.contains_task(&task_id) {
            return Err(StoreError::ReferentialIntegrity);
        }
        let ghost e = AuditModel { task_id: task_id@, worked_time, timestamp };
        self.audit.push(AuditEntry { task_id, worked_time, timestamp });
        proof {
            assert(self@.audit =~= old(self)@.audit.push(e));
            assert(self@.tasks == old(self)@.tasks);
            assert forall|k: int| 0 <= k < self@.audit.len() implies self@.has_task(
                #[trigger] self@.audit[k].task_id,
            ) by {
                if k < old(self)@.audit.len() {
                    assert(old(self)@.has_task(old(self)@.audit[k].task_id));
                }
            }
        }
        Ok(())
    }

    /// Appends one session of `task_id`, stamped with the current UTC time,
    /// and returns that timestamp. Fails with `ReferentialIntegrity`, and
    /// changes nothing, where no such task exists.
    pub fn log_session(&mut self, task_id: String, worked_time: TimerDuration) -> (r: Result<
        i64,
        StoreError,
    >)
        requires
            old(self)@.wf(),
        ensures
            r is Ok <==> old(self)@.has_task(task_id@),
            r matches Ok(ts) ==> final(self)@ == old(self)@.with_entry(
                AuditModel { task_id: task_id@, worked_time, timestamp: ts },
            ),
            r is Err ==> r == Err::<i64, StoreError>(StoreError::ReferentialIntegrity) && final(self)@
                == old(self)@,
            final(self)@.wf(),
    {
        let now = now_utc_seconds();
        match self.log_session_at(task_id, worked_time, now) {
            Ok(()) => Ok(now),
            Err(e) => Err(e),
        }
    }

    /// The audit entries recorded in the inclusive range `[since, until]`, in
    /// the order in which they were appended.
    pub fn query_range(&self, since: i64, until: i64) -> (r: Vec<AuditEntry>)
        ensures
            audit_view(r@) == self@.entries_in(since, until),
            r@.len() == self@.entries_in(since, until).len(),
            forall|i: int| 0 <= i < r@.len() ==> #[trigger] r@[i]@ == self@.entries_in(since, until)[i],
    {
        let r = entries_between(&self.audit, since, until);
        assert(audit_view(r@).len() == r@.len());
        assert forall|i: int| 0 <= i < r@.len() implies #[trigger] r@[i]@ == self@.entries_in(
            since,
            until,
        )[i] by {
            assert(audit_view(r@)[i] == r@[i]@);
        }
        r
    }

    /// Every task, in the order in which the store keeps them.
    pub fn list_tasks(&self) -> (r: Vec<Task>)
        ensures
            tasks_view(r@) == self@.tasks,
            r@.len() == self@.tasks.len(),
            forall|i: int| 0 <= i < r@.len() ==> #[trigger] r@[i]@ == self@.tasks[i],
    {
        let mut r: Vec<Task> = Vec::new();
        let n = self.tasks.len();
        let mut i: usize = 0;
        while i < n
            invariant
                n == self.tasks.len(),
                i <= n,
                tasks_view(r@) == self@.tasks.subrange(0, i as int),
            decreases n - i,
        {
            let ghost prev = r@;
            r.push(self.tasks[i].duplicate());
            assert(tasks_view(r@) =~= tasks_view(prev).push(self@.tasks[i as int]));
            assert(self@.tasks.subrange(0, i + 1) =~= self@.tasks.subrange(0, i as int).push(
                self@.tasks[i as int],
            ));
            i = i + 1;
        }
        assert(self@.tasks.subrange(0, n as int) =~= self@.tasks);
        assert(tasks_view(r@).len() == r@.len());
        assert forall|i: int| 0 <= i < r@.len() implies #[trigger] r@[i]@ == self@.tasks[i] by {
            assert(tasks_view(r@)[i] == r@[i]@);
        }
        r
    }
}

} // verus!
