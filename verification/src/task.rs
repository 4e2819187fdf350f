//! The task entity and its mathematical model.

use vstd::prelude::*;

verus! {

/// The mathematical value of a task: what every contract of this crate
/// speaks of. Identifiers are 128-bit values (the width of a canonical
/// task identifier); instants are whole seconds since the epoch.
pub ghost struct TaskModel {
    pub id: u128,
    pub title: Seq<char>,
    pub created: int,
    pub completed: Option<int>,
}

impl TaskModel {
    /// A task is well formed when its completion instant, if recorded,
    /// does not precede its creation instant.
    pub open spec fn wf(self) -> bool {
        match self.completed {
            Some(c) => self.created <= c,
            None => true,
        }
    }

    /// A task is active while no completion instant is recorded.
    pub open spec fn is_active(self) -> bool {
        self.completed is None
    }
}

/// The instant recorded as an `Option<int>`, for relating stored optional
/// instants to the model.
pub open spec fn instant_of(o: Option<i64>) -> Option<int> {
    match o {
        Some(c) => Some(c as int),
        None => None,
    }
}

/// The task left when `t` is completed at `now`: the fields are kept and
/// the recorded completion instant becomes `now`, never moved before the
/// creation instant, so that completion keeps the task well formed even
/// under a clock that ran backwards.
pub open spec fn completed_at(t: TaskModel, now: i64) -> TaskModel {
    TaskModel {
        completed: Some(if t.created <= now { now as int } else { t.created }),
        ..t
    }
}

/// A task: an identifier assigned once at creation, a display title, the
/// creation instant, and the completion instant while completed.
pub struct Task {
    id: u128,
    title: String,
    created: i64,
    completed: Option<i64>,
}

impl View for Task {
    type V = TaskModel;

    closed spec fn view(&self) -> TaskModel {
        TaskModel {
            id: self.id,
            title: self.title@,
            created: self.created as int,
            completed: instant_of(self.completed),
        }
    }
}

impl Task {
    /// Pure value construction: the fields are assigned and nothing is
    /// validated here; lifecycle rules live in the service.
    pub fn new(id: u128, title: String, created: i64, completed: Option<i64>) -> (t: Task)
        ensures
            t@ == (TaskModel {
                id,
                title: title@,
                created: created as int,
                completed: instant_of(completed),
            }),
    {
        Task { id, title, created, completed }
    }

    /// Record completion at `now`. Completing an already-completed task
    /// refreshes the recorded instant; a completed task never returns to
    /// the active state.
    pub fn complete(&mut self, now: i64)
        ensures
            final(self)@ == completed_at(old(self)@, now),
    {
        if now >= self.created {
            self.completed = Some(now);
        } else {
            self.completed = Some(self.created);
        }
    }

    pub fn id(&self) -> (r: u128)
        ensures
            r == self@.id,
    {
        self.id
    }

    pub fn title(&self) -> (r: &String)
        ensures
            r@ == self@.title,
    {
        &self.title
    }

    pub fn created(&self) -> (r: i64)
        ensures
            r as int == self@.created,
    {
        self.created
    }

    pub fn completed(&self) -> (r: Option<i64>)
        ensures
            instant_of(r) == self@.completed,
    {
        self.completed
    }

    /// An equal task, field for field.
    pub fn duplicate(&self) -> (t: Task)
        ensures
            t@ == self@,
    {
        Task {
            id: self.id,
            title: self.title.clone(),
            created: self.created,
            completed: self.completed,
        }
    }
}

} // verus!
