use vstd::prelude::*;

use crate::model::{AuditModel, TaskModel, TimerSettings};
use crate::schema::{absent_from, column_names, settings_columns, SettingsColumn};
use crate::store::{in_range, StoreModel};

verus! {

broadcast use vstd::seq_lib::group_filter_ensures;

/// Writing settings and reading them back gives exactly what was written.
pub proof fn settings_round_trip(m: StoreModel, s: TimerSettings)
    requires
        m.wf(),
    ensures
        m.with_settings(s).settings == s,
        m.with_settings(s).wf(),
{
}

/// A second settings write replaces the first entirely: only the second value
/// remains, as if the first had never been made.
pub proof fn settings_second_write_wins(m: StoreModel, first: TimerSettings, second: TimerSettings)
    requires
        m.wf(),
    ensures
        m.with_settings(first).with_settings(second) == m.with_settings(second),
        m.with_settings(first).with_settings(second).settings == second,
{
}

/// An upsert keeps task ids unique and every audit entry pointing at a task.
pub proof fn upsert_keeps_store_well_formed(m: StoreModel, t: TaskModel)
    requires
        m.wf(),
    ensures
        m.with_task(t).wf(),
{
    let u = m.with_task(t);
    if exists|i: int| 0 <= i < m.tasks.len() && m.tasks[i].id == t.id {
        let i = choose|i: int| 0 <= i < m.tasks.len() && m.tasks[i].id == t.id;
        assert(u.tasks == m.tasks.update(i, t));
        assert forall|x: int| 0 <= x < u.tasks.len() implies #[trigger] u.tasks[x].id
            == m.tasks[x].id by {}
        assert forall|k: int| 0 <= k < u.audit.len() implies u.has_task(#[trigger] u.audit[k].task_id) by {
            assert(m.has_task(m.audit[k].task_id));
            let w = choose|j: int| 0 <= j < m.tasks.len() && m.tasks[j].id == m.audit[k].task_id;
            assert(u.tasks[w].id == m.tasks[w].id);
        }
    } else {
        assert(u.tasks == m.tasks.push(t));
        assert forall|k: int| 0 <= k < u.audit.len() implies u.has_task(#[trigger] u.audit[k].task_id) by {
            assert(m.has_task(m.audit[k].task_id));
            let w = choose|j: int| 0 <= j < m.tasks.len() && m.tasks[j].id == m.audit[k].task_id;
            assert(u.tasks[w] == m.tasks[w]);
        }
    }
}

/// After an upsert of `t` the tasks hold exactly one entry with `t`'s id, and
/// that entry is `t`; the other tasks are untouched and the count grows by at
/// most one.
pub proof fn upsert_leaves_one_entry(m: StoreModel, t: TaskModel)
    requires
        m.wf(),
    ensures
        exists|i: int| 0 <= i < m.with_task(t).tasks.len() && m.with_task(t).tasks[i] == t,
        forall|i: int|
            0 <= i < m.with_task(t).tasks.len() && (#[trigger] m.with_task(t).tasks[i]).id == t.id
                ==> m.with_task(t).tasks[i] == t,
        forall|i: int|
            0 <= i < m.tasks.len() && m.tasks[i].id != t.id ==> m.with_task(t).tasks.contains(
                #[trigger] m.tasks[i],
            ),
        m.with_task(t).tasks.len() == m.tasks.len() || m.with_task(t).tasks.len() == m.tasks.len()
            + 1,
{
    let u = m.with_task(t);
    upsert_keeps_store_well_formed(m, t);
    if exists|i: int| 0 <= i < m.tasks.len() && m.tasks[i].id == t.id {
        let w = choose|i: int| 0 <= i < m.tasks.len() && m.tasks[i].id == t.id;
        assert(u.tasks == m.tasks.update(w, t));
        assert(u.tasks[w] == t);
        assert forall|i: int| 0 <= i < m.tasks.len() && m.tasks[i].id != t.id implies u.tasks.contains(
            #[trigger] m.tasks[i],
        ) by {
            assert(u.tasks[i] == m.tasks[i]);
        }
    } else {
        let w = m.tasks.len() as int;
        assert(u.tasks == m.tasks.push(t));
        assert(u.tasks[w] == t);
        assert forall|i: int| 0 <= i < m.tasks.len() && m.tasks[i].id != t.id implies u.tasks.contains(
            #[trigger] m.tasks[i],
        ) by {
            assert(u.tasks[i] == m.tasks[i]);
        }
    }
    let w = choose|i: int| 0 <= i < u.tasks.len() && u.tasks[i] == t;
    assert forall|i: int| 0 <= i < u.tasks.len() && (#[trigger] u.tasks[i]).id == t.id implies u.tasks[i]
        == t by {
        if i != w {
            assert(u.tasks[i].id != u.tasks[w].id);
        }
    }
}

/// A second upsert with the same id replaces the first: one entry with that
/// id remains, holding the second value, and the number of tasks is unchanged.
pub proof fn upsert_last_write_wins(m: StoreModel, first: TaskModel, second: TaskModel)
    requires
        m.wf(),
        first.id == second.id,
    ensures
        exists|i: int|
            0 <= i < m.with_task(first).with_task(second).tasks.len() && m.with_task(
                first,
            ).with_task(second).tasks[i] == second,
        forall|i: int|
            0 <= i < m.with_task(first).with_task(second).tasks.len() && (#[trigger] m.with_task(
                first,
            ).with_task(second).tasks[i]).id == second.id ==> m.with_task(first).with_task(
                second,
            ).tasks[i] == second,
        m.with_task(first).with_task(second).tasks.len() == m.with_task(first).tasks.len(),
{
    let u = m.with_task(first);
    upsert_keeps_store_well_formed(m, first);
    upsert_leaves_one_entry(m, first);
    upsert_leaves_one_entry(u, second);
    let w = choose|i: int| 0 <= i < u.tasks.len() && u.tasks[i] == first;
    assert(u.tasks[w].id == second.id);
}

/// Deleting a task removes it from the task list and removes every audit
/// entry of it from a query over all time, while other tasks stay.
pub proof fn delete_cascades(m: StoreModel, id: Seq<char>)
    requires
        m.wf(),
    ensures
        !m.without_task(id).has_task(id),
        forall|k: int|
            0 <= k < m.without_task(id).entries_in(i64::MIN, i64::MAX).len() ==> (
            #[trigger] m.without_task(id).entries_in(i64::MIN, i64::MAX)[k]).task_id != id,
        forall|i: int|
            0 <= i < m.tasks.len() && m.tasks[i].id != id ==> m.without_task(id).tasks.contains(
                #[trigger] m.tasks[i],
            ),
{
    let r = m.without_task(id);
    assert forall|k: int| 0 <= k < r.entries_in(i64::MIN, i64::MAX).len() implies (
    #[trigger] r.entries_in(i64::MIN, i64::MAX)[k]).task_id != id by {
        let e = r.entries_in(i64::MIN, i64::MAX)[k];
        assert(r.entries_in(i64::MIN, i64::MAX).contains(e));
        r.audit.lemma_filter_contains_rev(in_range(i64::MIN, i64::MAX), e);
        let x = choose|x: int| 0 <= x < r.audit.len() && r.audit[x] == e;
        assert(r.audit[x].task_id != id);
    }
    assert forall|i: int| 0 <= i < m.tasks.len() && m.tasks[i].id != id implies r.tasks.contains(
        #[trigger] m.tasks[i],
    ) by {
        m.tasks.lemma_filter_contains(crate::store::other_task(id), i);
    }
    if r.has_task(id) {
        let i = choose|i: int| 0 <= i < r.tasks.len() && r.tasks[i].id == id;
        assert(r.tasks[i].id != id);
    }
}

/// A range query returns an entry exactly when it was appended and its
/// timestamp lies in `[since, until]`; where no entry lies there, the result
/// is empty.
pub proof fn query_range_exact(m: StoreModel, since: i64, until: i64)
    ensures
        forall|e: AuditModel|
            m.entries_in(since, until).contains(e) <==> m.audit.contains(e) && since
                <= e.timestamp <= until,
        (forall|k: int|
            0 <= k < m.audit.len() ==> !(since <= (#[trigger] m.audit[k]).timestamp <= until))
            ==> m.entries_in(since, until).len() == 0,
{
    let p = in_range(since, until);
    assert forall|e: AuditModel|
        m.entries_in(since, until).contains(e) <==> m.audit.contains(e) && since <= e.timestamp
            <= until by {
        if m.entries_in(since, until).contains(e) {
            m.audit.lemma_filter_contains_rev(p, e);
            let k = choose|k: int|
                0 <= k < m.entries_in(since, until).len() && m.entries_in(since, until)[k] == e;
            assert(p(m.entries_in(since, until)[k]));
        }
        if m.audit.contains(e) && since <= e.timestamp <= until {
            let k = choose|k: int| 0 <= k < m.audit.len() && m.audit[k] == e;
            m.audit.lemma_filter_contains(p, k);
        }
    }
    if forall|k: int| 0 <= k < m.audit.len() ==> !(since <= (#[trigger] m.audit[k]).timestamp <= until) {
        if m.entries_in(since, until).len() > 0 {
            let e = m.entries_in(since, until)[0];
            assert(m.entries_in(since, until).contains(e));
            m.audit.lemma_filter_contains_rev(p, e);
            let k = choose|k: int| 0 <= k < m.audit.len() && m.audit[k] == e;
            assert(p(e));
        }
    }
}

/// The additive migration closes the gap in one pass: once the columns it
/// plans for a table whose columns are named `live` have been added, planning
/// again finds nothing missing.
pub proof fn migration_is_idempotent(live: Seq<Seq<char>>)
    ensures
        settings_columns().filter(
            absent_from(live + column_names(settings_columns().filter(absent_from(live)))),
        ).len() == 0,
{
    let expected = settings_columns();
    let missing = expected.filter(absent_from(live));
    let after = live + column_names(missing);
    let p = absent_from(after);
    assert forall|k: int| 0 <= k < expected.len() implies !p(#[trigger] expected[k]) by {
        let name = expected[k].name@;
        if live.contains(name) {
            let j = choose|j: int| 0 <= j < live.len() && live[j] == name;
            assert(after[j] == name);
        } else {
            expected.lemma_filter_contains(absent_from(live), k);
            let j = choose|j: int| 0 <= j < missing.len() && missing[j] == expected[k];
            assert(column_names(missing)[j] == name);
            assert(after[live.len() + j] == name);
        }
        assert(after.contains(name));
    }
    assert(expected.all(|c: SettingsColumn| !p(c)));
    expected.lemma_all_neg_filter_empty(p);
}

} // verus!
