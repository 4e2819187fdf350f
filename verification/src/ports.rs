//! The ports: the persistence contract the service depends on, and the
//! service contract the front end depends on.
//!
//! A repository is modelled by the sequence of stored tasks, in storage
//! order. The contracts describe a store whose engine answers:
//! availability failures lie outside the verified model and are reported
//! by storage adapters through the `Unknown` error variants.

use vstd::prelude::*;

use crate::create::{CreateTaskRequest, QueryTaskError, SaveTaskError};
use crate::task::{Task, TaskModel};

verus! {

/// Some task in `s` carries the identifier `id`.
pub open spec fn has_task_id(s: Seq<TaskModel>, id: u128) -> bool {
    exists|i: int| 0 <= i < s.len() && s[i].id == id
}

/// The position of the task carrying `id`: meaningful when
/// `has_task_id(s, id)` holds and identifiers are distinct.
pub open spec fn task_index(s: Seq<TaskModel>, id: u128) -> int {
    choose|i: int| 0 <= i < s.len() && s[i].id == id
}

/// The task carrying `id`.
pub open spec fn task_with_id(s: Seq<TaskModel>, id: u128) -> TaskModel {
    s[task_index(s, id)]
}

/// Some active task in `s` carries the title `title`.
pub open spec fn has_active_title(s: Seq<TaskModel>, title: Seq<char>) -> bool {
    exists|i: int| 0 <= i < s.len() && s[i].is_active() && s[i].title == title
}

/// No two tasks in `s` share an identifier.
pub open spec fn distinct_ids(s: Seq<TaskModel>) -> bool {
    forall|i: int, j: int| 0 <= i < j < s.len() ==> s[i].id != s[j].id
}

/// The active tasks of `s`, in storage order.
pub open spec fn active_tasks(s: Seq<TaskModel>) -> Seq<TaskModel> {
    s.filter(|t: TaskModel| t.is_active())
}

/// The task the service builds for a creation request: the given
/// identifier and title, created at `now`, and not yet completed.
pub open spec fn created_task(id: u128, title: Seq<char>, now: i64) -> TaskModel {
    TaskModel { id, title, created: now as int, completed: None }
}

/// Storing `t` beside the tasks of `s` breaks the active-title rule:
/// `t` would be active while another active task carries its title.
pub open spec fn create_conflict(s: Seq<TaskModel>, t: TaskModel) -> bool {
    t.is_active() && has_active_title(s, t.title)
}

/// Rewriting the row of `t.id` to hold `t` breaks the active-title rule:
/// `t` would be active while a different active task carries its title.
pub open spec fn update_conflict(s: Seq<TaskModel>, t: TaskModel) -> bool {
    t.is_active() && exists|i: int|
        0 <= i < s.len() && s[i].id != t.id && s[i].is_active() && s[i].title == t.title
}

/// The persistence port. The service depends on this contract alone;
/// any repository meeting it is interchangeable.
///
/// Writes are atomic: each contract relates the whole stored sequence
/// before a call to the whole sequence after it, so a task is observed
/// fully written or not at all.
pub trait TaskRepository: Sized {
    /// The stored tasks, in storage order.
    spec fn tasks(&self) -> Seq<TaskModel>;

    /// Every stored task, in an order stable for this call.
    fn get_tasks(&self) -> (r: Result<Vec<Task>, QueryTaskError>)
        ensures
            r matches Ok(v) && v@.map_values(|t: Task| t@) == self.tasks(),
    ;

    /// Exactly the tasks whose completion instant is absent.
    fn get_active_tasks(&self) -> (r: Result<Vec<Task>, QueryTaskError>)
        ensures
            r matches Ok(v) && v@.map_values(|t: Task| t@) == active_tasks(self.tasks()),
    ;

    /// The task carrying `id`; absence is a normal outcome, reported as
    /// `NotFound`.
    fn get_task(&self, id: u128) -> (r: Result<Task, QueryTaskError>)
        requires
            distinct_ids(self.tasks()),
        ensures
            r is Ok <==> has_task_id(self.tasks(), id),
            r matches Ok(t) ==> t@ == task_with_id(self.tasks(), id) && t@.id == id,
            r matches Err(e) ==> e == (QueryTaskError::NotFound { id }),
    ;

    /// Persist a new task as one atomic write. The write is refused with
    /// `Duplicate` when it would break the active-title rule, and with
    /// `Unknown` when the identifier is already stored (identifiers are
    /// the generator's charge, so a collision is opaque to callers);
    /// otherwise the task is appended and its identifier returned.
    fn create_task(&mut self, task: Task) -> (r: Result<u128, SaveTaskError>)
        requires
            distinct_ids(old(self).tasks()),
        ensures
            distinct_ids(final(self).tasks()),
            create_conflict(old(self).tasks(), task@) ==> (r matches Err(
                SaveTaskError::Duplicate { title },
            ) && title@ == task@.title),
            !create_conflict(old(self).tasks(), task@) && has_task_id(
                old(self).tasks(),
                task@.id,
            ) ==> (r matches Err(e) && e is Unknown),
            !create_conflict(old(self).tasks(), task@) && !has_task_id(
                old(self).tasks(),
                task@.id,
            ) ==> (r matches Ok(rid) && rid == task@.id && final(self).tasks() == old(
                self,
            ).tasks().push(task@)),
            r matches Err(SaveTaskError::Duplicate { title }) ==> (create_conflict(
                old(self).tasks(),
                task@,
            ) && title@ == task@.title),
            r is Err ==> final(self).tasks() == old(self).tasks(),
    ;

    /// Persist the mutated state of an already-stored task as one atomic
    /// write, keyed by its identifier. The write is refused with
    /// `Duplicate` when it would break the active-title rule; when no row
    /// carries the identifier the engine rewrites nothing and the call
    /// succeeds unchanged, as a keyed rewrite of an absent row does.
    fn update_task(&mut self, task: Task) -> (r: Result<u128, SaveTaskError>)
        requires
            distinct_ids(old(self).tasks()),
        ensures
            distinct_ids(final(self).tasks()),
            has_task_id(old(self).tasks(), task@.id) && update_conflict(
                old(self).tasks(),
                task@,
            ) ==> (r matches Err(SaveTaskError::Duplicate { title }) && title@ == task@.title),
            has_task_id(old(self).tasks(), task@.id) && !update_conflict(
                old(self).tasks(),
                task@,
            ) ==> (r matches Ok(rid) && rid == task@.id && final(self).tasks() == old(
                self,
            ).tasks().update(task_index(old(self).tasks(), task@.id), task@)),
            !has_task_id(old(self).tasks(), task@.id) ==> (r matches Ok(rid) && rid == task@.id
                && final(self).tasks() == old(self).tasks()),
            r matches Err(SaveTaskError::Duplicate { title }) ==> (update_conflict(
                old(self).tasks(),
                task@,
            ) && has_task_id(old(self).tasks(), task@.id) && title@ == task@.title),
            r is Err ==> final(self).tasks() == old(self).tasks(),
    ;
}

/// The service port: what a front end calls. Its model is the stored
/// tasks of the repository behind it.
pub trait TaskService: Sized {
    /// The stored tasks, in storage order.
    spec fn tasks(&self) -> Seq<TaskModel>;

    /// Build a task with a fresh identifier, the requested title, the
    /// current instant as creation instant and no completion, and persist
    /// it. A request whose title an active task already carries is
    /// refused with `Duplicate`, and only such a request is; otherwise,
    /// when the drawn identifier is unused, the task is appended and its
    /// identifier returned, so creation on an empty store always
    /// succeeds.
    fn create_task(&mut self, req: &CreateTaskRequest) -> (r: Result<u128, SaveTaskError>)
        requires
            distinct_ids(old(self).tasks()),
        ensures
            distinct_ids(final(self).tasks()),
            has_active_title(old(self).tasks(), req@) ==> (r matches Err(
                SaveTaskError::Duplicate { title },
            ) && title@ == req@),
            r matches Ok(rid) ==> !has_task_id(old(self).tasks(), rid) && !has_active_title(
                old(self).tasks(),
                req@,
            ) && final(self).tasks() == old(self).tasks().push(final(self).tasks().last())
                && final(self).tasks().last().id == rid && final(self).tasks().last().title == req@
                && final(self).tasks().last().completed is None,
            r matches Err(SaveTaskError::Duplicate { title }) ==> (has_active_title(
                old(self).tasks(),
                req@,
            ) && title@ == req@),
            old(self).tasks().len() == 0 ==> r is Ok,
            r is Err ==> final(self).tasks() == old(self).tasks(),
    ;

    /// Every stored task; a pure pass-through to the repository.
    fn get_tasks(&self) -> (r: Result<Vec<Task>, QueryTaskError>)
        ensures
            r matches Ok(v) && v@.map_values(|t: Task| t@) == self.tasks(),
    ;

    /// The active tasks; a pure pass-through to the repository.
    fn get_active_tasks(&self) -> (r: Result<Vec<Task>, QueryTaskError>)
        ensures
            r matches Ok(v) && v@.map_values(|t: Task| t@) == active_tasks(self.tasks()),
    ;

    /// One task by identifier; a pure pass-through to the repository.
    fn get_task(&self, id: u128) -> (r: Result<Task, QueryTaskError>)
        requires
            distinct_ids(self.tasks()),
        ensures
            r is Ok <==> has_task_id(self.tasks(), id),
            r matches Ok(t) ==> t@ == task_with_id(self.tasks(), id) && t@.id == id,
            r matches Err(e) ==> e == (QueryTaskError::NotFound { id }),
    ;

    /// Fetch the task carrying `id`, record completion at the current
    /// instant, and persist the mutated copy. The call succeeds exactly
    /// when the task exists; the recorded instant never precedes the
    /// task's creation instant. Completing an already-completed task
    /// succeeds again and leaves the task completed.
    fn complete_task(&mut self, id: u128) -> (r: Result<u128, SaveTaskError>)
        requires
            distinct_ids(old(self).tasks()),
        ensures
            distinct_ids(final(self).tasks()),
            r is Ok <==> has_task_id(old(self).tasks(), id),
            r matches Ok(rid) ==> rid == id && final(self).tasks() == old(self).tasks().update(
                task_index(old(self).tasks(), id),
                final(self).tasks()[task_index(old(self).tasks(), id)],
            ) && marks_completed(
                task_with_id(old(self).tasks(), id),
                final(self).tasks()[task_index(old(self).tasks(), id)],
            ),
            r is Err ==> final(self).tasks() == old(self).tasks() && (r matches Err(e)
                ==> e is Unknown),
    ;
}

/// The task found at a position whose identifier is `id` is the task the
/// lookup functions speak of: with distinct identifiers the position is
/// unique.
pub proof fn lemma_task_index_is(s: Seq<TaskModel>, id: u128, i: int)
    requires
        distinct_ids(s),
        0 <= i < s.len(),
        s[i].id == id,
    ensures
        has_task_id(s, id),
        task_index(s, id) == i,
        task_with_id(s, id) == s[i],
{
    assert(has_task_id(s, id));
    let j = task_index(s, id);
    assert(0 <= j < s.len() && s[j].id == id);
    if j < i {
        assert(s[j].id != s[i].id);
    } else if i < j {
        assert(s[i].id != s[j].id);
    }
}

/// `after` is `before` with completion recorded: the identifying fields
/// are kept and a completion instant no earlier than creation is present.
pub open spec fn marks_completed(before: TaskModel, after: TaskModel) -> bool {
    &&& after.id == before.id
    &&& after.title == before.title
    &&& after.created == before.created
    &&& match after.completed {
        Some(c) => c >= before.created,
        None => false,
    }
}

} // verus!
