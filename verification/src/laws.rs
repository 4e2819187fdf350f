//! The guarantees that hold across operations, stated over the models
//! that the contracts of [`crate::ports`] and [`crate::service`] speak
//! of, and proved once for every repository meeting the port contract.

use vstd::prelude::*;

use crate::ports::{
    active_tasks, created_task, distinct_ids, has_active_title, has_task_id, lemma_task_index_is,
    task_index, task_with_id,
};
use crate::task::{completed_at, TaskModel};

verus! {

/// A created task is retrievable: after a creation with a fresh
/// identifier succeeds at instant `now` on the store `s`, the lookup of
/// that identifier yields a task with the requested title, a creation
/// instant no later than `now`, and no completion instant.
pub proof fn lemma_create_then_get(s: Seq<TaskModel>, id: u128, title: Seq<char>, now: i64)
    requires
        distinct_ids(s),
        !has_task_id(s, id),
    ensures
        ({
            let s2 = s.push(created_task(id, title, now));
            &&& distinct_ids(s2)
            &&& has_task_id(s2, id)
            &&& task_with_id(s2, id) == created_task(id, title, now)
            &&& task_with_id(s2, id).title == title
            &&& task_with_id(s2, id).created <= now
            &&& task_with_id(s2, id).completed is None
        }),
{
    let s2 = s.push(created_task(id, title, now));
    assert forall|a: int, b: int| 0 <= a < b < s2.len() implies s2[a].id != s2[b].id by {
        if b < s.len() {
            assert(s[a].id != s[b].id);
        } else {
            assert(s[a].id != id);
        }
    }
    lemma_task_index_is(s2, id, s.len() as int);
}

/// A title is held while its bearer stays active: right after a task
/// with title `title` is created, any further active task `t` with that
/// title meets the active-title conflict, so a second creation of the
/// same title is refused with a duplicate error.
pub proof fn lemma_title_held_while_active(
    s: Seq<TaskModel>,
    id: u128,
    title: Seq<char>,
    now: i64,
)
    ensures
        has_active_title(s.push(created_task(id, title, now)), title),
{
    let s2 = s.push(created_task(id, title, now));
    assert(s2[s.len() as int].is_active() && s2[s.len() as int].title == title);
}

/// Completion frees the title: when the task carrying `id` is the only
/// active bearer of its title, the store left by completing it holds no
/// active task with that title any more, so a later creation of the same
/// title is no longer refused.
pub proof fn lemma_complete_frees_title(s: Seq<TaskModel>, id: u128, now: i64)
    requires
        distinct_ids(s),
        has_task_id(s, id),
        forall|i: int|
            0 <= i < s.len() && s[i].is_active() && s[i].title == task_with_id(s, id).title
                ==> s[i].id == id,
    ensures
        !has_active_title(
            s.update(task_index(s, id), completed_at(task_with_id(s, id), now)),
            task_with_id(s, id).title,
        ),
{
    let idx = task_index(s, id);
    let s2 = s.update(idx, completed_at(task_with_id(s, id), now));
    assert(0 <= idx < s.len() && s[idx].id == id);
    assert forall|i: int|
        0 <= i < s2.len() implies !(s2[i].is_active() && s2[i].title == task_with_id(
        s,
        id,
    ).title) by {
        if i != idx && s2[i].is_active() && s2[i].title == task_with_id(s, id).title {
            assert(s2[i] == s[i]);
            assert(s[i].id == id);
            lemma_task_index_is(s, id, i);
        }
    }
}

/// Completion records an instant no earlier than creation, keeps the
/// identifying fields, and never reverts: completing a task leaves it
/// completed, and completing it again leaves it completed still.
pub proof fn lemma_completion_monotonic(t: TaskModel, n1: i64, n2: i64)
    ensures
        completed_at(t, n1).id == t.id,
        completed_at(t, n1).title == t.title,
        completed_at(t, n1).created == t.created,
        completed_at(t, n1).completed matches Some(c) && c >= t.created,
        completed_at(completed_at(t, n1), n2).completed is Some,
        completed_at(t, n1).wf(),
{
}

/// A completed task stays retrievable: the store left by completing the
/// task carrying `id` still holds it, under the same identifier, with
/// its completion instant recorded.
pub proof fn lemma_complete_then_get(s: Seq<TaskModel>, id: u128, now: i64)
    requires
        distinct_ids(s),
        has_task_id(s, id),
    ensures
        ({
            let s2 = s.update(task_index(s, id), completed_at(task_with_id(s, id), now));
            &&& distinct_ids(s2)
            &&& has_task_id(s2, id)
            &&& task_with_id(s2, id) == completed_at(task_with_id(s, id), now)
            &&& task_with_id(s2, id).completed is Some
        }),
{
    let idx = task_index(s, id);
    assert(0 <= idx < s.len() && s[idx].id == id);
    let s2 = s.update(idx, completed_at(task_with_id(s, id), now));
    assert forall|a: int, b: int| 0 <= a < b < s2.len() implies s2[a].id != s2[b].id by {
        assert(s2[a].id == s[a].id);
        assert(s2[b].id == s[b].id);
    }
    lemma_task_index_is(s2, id, idx);
}

/// The active listing is faithful: it never carries a completed task,
/// and every active task of the store appears in it; the full listing
/// carries every stored task, completed or not, by its own contract.
pub proof fn lemma_active_listing(s: Seq<TaskModel>)
    ensures
        forall|i: int|
            0 <= i < active_tasks(s).len() ==> (#[trigger] active_tasks(s)[i]).completed is None,
        forall|i: int| 0 <= i < s.len() && s[i].is_active() ==> active_tasks(s).contains(s[i]),
{
    broadcast use vstd::seq_lib::group_filter_ensures;

    assert forall|i: int|
        0 <= i < active_tasks(s).len() implies (#[trigger] active_tasks(s)[i]).completed
        is None by {
        assert(s.filter(|t: TaskModel| t.is_active())[i].is_active());
    }
}

} // verus!
