//! A verified in-memory repository: the substitutable backend the design
//! note on testing asks for, and the reference implementation of the
//! persistence port.

use vstd::prelude::*;

use crate::create::{QueryTaskError, SaveTaskError};
use crate::ports::{
    active_tasks, create_conflict, distinct_ids, has_active_title, has_task_id,
    lemma_task_index_is, update_conflict, TaskRepository,
};
use crate::task::{Task, TaskModel};

verus! {

/// Appending an element to a sequence extends its filtered image by that
/// element exactly when the element passes the predicate.
proof fn lemma_filter_push(s: Seq<TaskModel>, x: TaskModel, pred: spec_fn(TaskModel) -> bool)
    ensures
        pred(x) ==> s.push(x).filter(pred) == s.filter(pred).push(x),
        !pred(x) ==> s.push(x).filter(pred) == s.filter(pred),
{
    reveal(Seq::filter);
    assert(s.push(x).drop_last() =~= s);
    assert(s.push(x).last() == x);
}

/// The stored tasks live in a vector, in insertion order; identifiers
/// stay distinct because an insertion with a stored identifier is
/// refused.
pub struct MemoryRepository {
    tasks: Vec<Task>,
}

impl MemoryRepository {
    /// An empty repository.
    pub fn new() -> (r: MemoryRepository)
        ensures
            r.tasks() == Seq::<TaskModel>::empty(),
            distinct_ids(r.tasks()),
    {
        let r = MemoryRepository { tasks: Vec::new() };
        proof {
            assert(r.tasks() =~= Seq::<TaskModel>::empty());
        }
        r
    }
}

impl TaskRepository for MemoryRepository {
    closed spec fn tasks(&self) -> Seq<TaskModel> {
        self.tasks@.map_values(|t: Task| t@)
    }

    fn get_tasks(&self) -> (r: Result<Vec<Task>, QueryTaskError>) {
        let mut out: Vec<Task> = Vec::new();
        let n = self.tasks.len();
        let mut i: usize = 0;
        while i < n
            invariant
                n == self.tasks.len(),
                i <= n,
                out@.len() == i,
                forall|k: int| 0 <= k < i ==> out@[k]@ == self.tasks@[k]@,
            decreases n - i,
        {
            out.push(self.tasks[i].duplicate());
            i += 1;
        }
        proof {
            assert(out@.map_values(|t: Task| t@) =~= self.tasks());
        }
        Ok(out)
    }

    fn get_active_tasks(&self) -> (r: Result<Vec<Task>, QueryTaskError>) {
        let ghost ms = self.tasks();
        let mut out: Vec<Task> = Vec::new();
        let n = self.tasks.len();
        let mut i: usize = 0;
        while i < n
            invariant
                n == self.tasks.len(),
                ms == self.tasks(),
                i <= n,
                out@.map_values(|t: Task| t@) == active_tasks(ms.take(i as int)),
            decreases n - i,
        {
            proof {
                assert(ms.take(i as int + 1) =~= ms.take(i as int).push(ms[i as int]));
                lemma_filter_push(ms.take(i as int), ms[i as int], |t: TaskModel| t.is_active());
                assert(ms[i as int] == self.tasks@[i as int]@);
            }
            if self.tasks[i].completed().is_none() {
                let d = self.tasks[i].duplicate();
                let ghost prev = out@;
                out.push(d);
                proof {
                    assert(out@ == prev.push(d));
                    assert(out@.map_values(|t: Task| t@) =~= prev.map_values(|t: Task| t@).push(
                        d@,
                    ));
                    assert(out@.map_values(|t: Task| t@) == active_tasks(ms.take(i as int + 1)));
                }
            }
            i += 1;
        }
        proof {
            assert(ms.take(n as int) =~= ms);
        }
        Ok(out)
    }

    fn get_task(&self, id: u128) -> (r: Result<Task, QueryTaskError>) {
        let n = self.tasks.len();
        let mut i: usize = 0;
        while i < n
            invariant
                n == self.tasks.len(),
                i <= n,
                distinct_ids(self.tasks()),
                forall|k: int| 0 <= k < i ==> self.tasks()[k].id != id,
            decreases n - i,
        {
            if self.tasks[i].id() == id {
                let t = self.tasks[i].duplicate();
                proof {
                    lemma_task_index_is(self.tasks(), id, i as int);
                }
                return Ok(t);
            }
            i += 1;
        }
        proof {
            assert(!has_task_id(self.tasks(), id));
        }
        Err(QueryTaskError::NotFound { id })
    }

    fn create_task(&mut self, task: Task) -> (r: Result<u128, SaveTaskError>) {
        let ghost s0 = self.tasks();
        let n = self.tasks.len();
        if task.completed().is_none() {
            let mut i: usize = 0;
            while i < n
                invariant
                    n == self.tasks.len(),
                    s0 == self.tasks(),
                    i <= n,
                    distinct_ids(s0),
                    task@.is_active(),
                    forall|k: int| 0 <= k < i ==> !(s0[k].is_active() && s0[k].title
                        == task@.title),
                decreases n - i,
            {
                if self.tasks[i].completed().is_none() && self.tasks[i].title().eq(task.title()) {
                    proof {
                        assert(s0[i as int].is_active() && s0[i as int].title == task@.title);
                        assert(has_active_title(s0, task@.title));
                    }
                    return Err(SaveTaskError::Duplicate { title: task.title().clone() });
                }
                i += 1;
            }
            proof {
                assert(!has_active_title(s0, task@.title)) by {
                    if has_active_title(s0, task@.title) {
                        let k = choose|k: int|
                            0 <= k < s0.len() && s0[k].is_active() && s0[k].title == task@.title;
                        assert(!(s0[k].is_active() && s0[k].title == task@.title));
                    }
                }
            }
        }
        proof {
            assert(!create_conflict(s0, task@));
        }
        let mut j: usize = 0;
        while j < n
            invariant
                n == self.tasks.len(),
                s0 == self.tasks(),
                j <= n,
                distinct_ids(s0),
                !create_conflict(s0, task@),
                forall|k: int| 0 <= k < j ==> s0[k].id != task@.id,
            decreases n - j,
        {
            if self.tasks[j].id() == task.id() {
                proof {
                    assert(s0[j as int].id == task@.id);
                    assert(has_task_id(s0, task@.id));
                }
                return Err(
                    SaveTaskError::Unknown {
                        message: "a task with this identifier is already stored".to_owned(),
                    },
                );
            }
            j += 1;
        }
        proof {
            assert(!has_task_id(s0, task@.id)) by {
                if has_task_id(s0, task@.id) {
                    let k = choose|k: int| 0 <= k < s0.len() && s0[k].id == task@.id;
                    assert(s0[k].id != task@.id);
                }
            }
        }
        let tid = task.id();
        let ghost tv = task@;
        self.tasks.push(task);
        proof {
            assert(self.tasks() =~= s0.push(tv));
            assert forall|a: int, b: int|
                0 <= a < b < self.tasks().len() implies self.tasks()[a].id != self.tasks()[b].id by {
                if b < s0.len() {
                    assert(s0[a].id != s0[b].id);
                } else {
                    assert(s0[a].id != tv.id);
                }
            }
        }
        Ok(tid)
    }

    fn update_task(&mut self, task: Task) -> (r: Result<u128, SaveTaskError>) {
        let ghost s0 = self.tasks();
        let n = self.tasks.len();
        let tid = task.id();
        let mut i: usize = 0;
        while i < n
            invariant
                n == self.tasks.len(),
                s0 == self.tasks(),
                s0 == old(self).tasks(),
                i <= n,
                distinct_ids(s0),
                tid == task@.id,
                forall|k: int| 0 <= k < i ==> s0[k].id != task@.id,
            decreases n - i,
        {
            if self.tasks[i].id() == tid {
                proof {
                    lemma_task_index_is(s0, task@.id, i as int);
                }
                if task.completed().is_none() {
                    let mut k: usize = 0;
                    while k < n
                        invariant
                            n == self.tasks.len(),
                            s0 == self.tasks(),
                            s0 == old(self).tasks(),
                            k <= n,
                            i < n,
                            distinct_ids(s0),
                            tid == task@.id,
                            task@.is_active(),
                            s0[i as int].id == task@.id,
                            forall|m: int| 0 <= m < k ==> !(m != i && s0[m].is_active()
                                && s0[m].title == task@.title),
                        decreases n - k,
                    {
                        let other = k != i && self.tasks[k].completed().is_none()
                            && self.tasks[k].title().eq(task.title());
                        if other {
                            proof {
                                assert(s0[k as int].id != task@.id);
                                assert(s0[k as int].is_active());
                                assert(s0[k as int].title == task@.title);
                                assert(update_conflict(s0, task@));
                                assert(has_task_id(s0, task@.id));
                            }
                            return Err(
                                SaveTaskError::Duplicate { title: task.title().clone() },
                            );
                        }
                        k += 1;
                    }
                    proof {
                        assert(!update_conflict(s0, task@)) by {
                            if update_conflict(s0, task@) {
                                let m = choose|m: int|
                                    0 <= m < s0.len() && s0[m].id != task@.id && s0[m].is_active()
                                        && s0[m].title == task@.title;
                                assert(m != i);
                                assert(!(m != i && s0[m].is_active() && s0[m].title
                                    == task@.title));
                            }
                        }
                    }
                }
                let ghost tv = task@;
                self.tasks[i] = task;
                proof {
                    lemma_task_index_is(s0, tv.id, i as int);
                    assert(self.tasks() =~= s0.update(i as int, tv));
                    assert forall|a: int, b: int|
                        0 <= a < b < self.tasks().len() implies self.tasks()[a].id
                        != self.tasks()[b].id by {
                        assert(self.tasks()[a].id == s0[a].id);
                        assert(self.tasks()[b].id == s0[b].id);
                    }
                }
                return Ok(tid);
            }
            i += 1;
        }
        proof {
            assert(!has_task_id(s0, task@.id)) by {
                if has_task_id(s0, task@.id) {
                    let k = choose|k: int| 0 <= k < s0.len() && s0[k].id == task@.id;
                    assert(s0[k].id != task@.id);
                }
            }
        }
        Ok(tid)
    }
}

} // verus!
