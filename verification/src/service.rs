//! The service: enforces the task lifecycle rules over any repository
//! meeting the persistence contract, and owns identifier and instant
//! generation.

use vstd::prelude::*;

use crate::create::{CreateTaskRequest, QueryTaskError, SaveTaskError};
use crate::ports::{
    created_task, distinct_ids, has_active_title, has_task_id, task_index, task_with_id,
    TaskRepository, TaskService,
};
use crate::task::{completed_at, Task, TaskModel};

verus! {

/// Relies on uuid::Uuid::new_v4: a freshly drawn random version-4
/// identifier, returned as its 128-bit value. Nothing is promised of the
/// draw: callers handle every value, a collision included.
#[verifier::external_body]
fn fresh_task_id() -> u128 {
    uuid::Uuid::new_v4().as_u128()
}

/// Relies on chrono::Utc::now: the current instant, returned as whole
/// seconds since the epoch. Nothing is promised of the reading: callers
/// handle every value it can return.
#[verifier::external_body]
fn current_epoch_seconds() -> i64 {
    chrono::Utc::now().timestamp()
}

/// The service over a repository `R`. It holds no state of its own
/// beyond the repository; its model is the repository's stored tasks.
pub struct Service<R: TaskRepository> {
    repo: R,
}

impl<R: TaskRepository> Service<R> {
    pub fn new(repo: R) -> (s: Service<R>)
        ensures
            s.tasks() == repo.tasks(),
    {
        Service { repo }
    }

    /// Create a task from `req` with the given identifier and creation
    /// instant. The request is refused with `Duplicate` while an active
    /// task carries its title, and with `Unknown` when the identifier is
    /// already stored; otherwise the new task is appended, active and
    /// created at `now`, and its identifier is returned.
    pub fn create_task_with(&mut self, req: &CreateTaskRequest, id: u128, now: i64) -> (r: Result<
        u128,
        SaveTaskError,
    >)
        requires
            distinct_ids(old(self).tasks()),
        ensures
            distinct_ids(final(self).tasks()),
            has_active_title(old(self).tasks(), req@) ==> (r matches Err(
                SaveTaskError::Duplicate { title },
            ) && title@ == req@),
            !has_active_title(old(self).tasks(), req@) && has_task_id(old(self).tasks(), id) ==> (
            r matches Err(e) && e is Unknown),
            !has_active_title(old(self).tasks(), req@) && !has_task_id(old(self).tasks(), id) ==> (
            r matches Ok(rid) && rid == id && final(self).tasks() == old(self).tasks().push(
                created_task(id, req@, now),
            )),
            r is Err ==> final(self).tasks() == old(self).tasks(),
    {
        let task = Task::new(id, req.title().clone(), now, None);
        self.repo.create_task(task)
    }

    /// Record completion of the task carrying `id` at the instant `now`.
    /// The call succeeds exactly when the task is stored; the task keeps
    /// its fields and its completion instant becomes `now`, never moved
    /// before its creation instant. Completing an already-completed task
    /// succeeds again and leaves it completed.
    pub fn complete_task_at(&mut self, id: u128, now: i64) -> (r: Result<u128, SaveTaskError>)
        requires
            distinct_ids(old(self).tasks()),
        ensures
            distinct_ids(final(self).tasks()),
            r is Ok <==> has_task_id(old(self).tasks(), id),
            r matches Ok(rid) ==> rid == id && final(self).tasks() == old(self).tasks().update(
                task_index(old(self).tasks(), id),
                completed_at(task_with_id(old(self).tasks(), id), now),
            ),
            r is Err ==> final(self).tasks() == old(self).tasks() && (r matches Err(e)
                ==> e is Unknown),
    {
        match self.repo.get_task(id) {
            Ok(mut task) => {
                task.complete(now);
                self.repo.update_task(task)
            },
            Err(_) => Err(
                SaveTaskError::Unknown {
                    message: "no task carries the requested identifier".to_owned(),
                },
            ),
        }
    }
}

impl<R: TaskRepository> TaskService for Service<R> {
    closed spec fn tasks(&self) -> Seq<TaskModel> {
        self.repo.tasks()
    }

    fn create_task(&mut self, req: &CreateTaskRequest) -> (r: Result<u128, SaveTaskError>) {
        let id = fresh_task_id();
        let now = current_epoch_seconds();
        self.create_task_with(req, id, now)
    }

    fn get_tasks(&self) -> (r: Result<Vec<Task>, QueryTaskError>) {
        self.repo.get_tasks()
    }

    fn get_active_tasks(&self) -> (r: Result<Vec<Task>, QueryTaskError>) {
        self.repo.get_active_tasks()
    }

    fn get_task(&self, id: u128) -> (r: Result<Task, QueryTaskError>) {
        self.repo.get_task(id)
    }

    fn complete_task(&mut self, id: u128) -> (r: Result<u128, SaveTaskError>) {
        let now = current_epoch_seconds();
        self.complete_task_at(id, now)
    }
}

} // verus!
