//! The filter that selects which tasks are shown.

use crate::task::{task_models, Task, TaskModel};
use vstd::prelude::*;

verus! {

/// Which tasks are shown: all of them, those still open, or those done.
#[derive(Clone, Copy, Debug, PartialEq, Eq, Structural)]
pub enum Filter {
    All,
    Active,
    Completed,
}

impl Filter {
    /// Whether a task whose completion flag is `completed` passes the filter.
    pub open spec fn admits(self, completed: bool) -> bool {
        match self {
            Filter::All => true,
            Filter::Active => !completed,
            Filter::Completed => completed,
        }
    }

    /// The small integer under which the filter is stored.
    pub open spec fn spec_code(self) -> i64 {
        match self {
            Filter::All => 0,
            Filter::Active => 1,
            Filter::Completed => 2,
        }
    }

    /// The filter a stored integer stands for; anything but 1 and 2 is `All`.
    pub open spec fn spec_from_code(code: i64) -> Filter {
        if code == 1 {
            Filter::Active
        } else if code == 2 {
            Filter::Completed
        } else {
            Filter::All
        }
    }

    /// Whether `task` passes the filter.
    pub fn matches(self, task: &Task) -> (shown: bool)
        ensures
            shown == self.admits(task@.completed),
    {
        match self {
            Filter::All => true,
            Filter::Active => !task.completed(),
            Filter::Completed => task.completed(),
        }
    }

    /// The key of the message that is shown when no task passes the filter.
    pub fn empty_message_key(self) -> (key: &'static str)
        ensures
            key@ == match self {
                Filter::All => "empty-no-tasks"@,
                Filter::Active => "empty-all-done"@,
                Filter::Completed => "empty-no-completed"@,
            },
    {
        match self {
            Filter::All => "empty-no-tasks",
            Filter::Active => "empty-all-done",
            Filter::Completed => "empty-no-completed",
        }
    }

    /// The small integer under which the filter is stored: 0, 1 or 2.
    pub fn code(self) -> (code: i64)
        ensures
            code == self.spec_code(),
    {
        match self {
            Filter::All => 0,
            Filter::Active => 1,
            Filter::Completed => 2,
        }
    }

    /// Reads a stored integer back; anything but 1 and 2 is `All`.
    pub fn from_code(code: i64) -> (filter: Filter)
        ensures
            filter == Filter::spec_from_code(code),
    {
        if code == 1 {
            Filter::Active
        } else if code == 2 {
            Filter::Completed
        } else {
            Filter::All
        }
    }
}

impl Default for Filter {
    fn default() -> (filter: Filter)
        ensures
            filter == Filter::All,
    {
        Filter::All
    }
}

/// The number of tasks among `tasks` that are not completed.
pub open spec fn open_count(tasks: Seq<TaskModel>) -> nat
    decreases tasks.len(),
{
    if tasks.len() == 0 {
        0
    } else {
        open_count(tasks.drop_last()) + if tasks.last().completed {
            0nat
        } else {
            1nat
        }
    }
}

/// Whether `shown` lists, in rising order, exactly the positions of the
/// tasks that pass `filter`.
pub open spec fn lists_shown(shown: Seq<usize>, tasks: Seq<TaskModel>, filter: Filter) -> bool {
    &&& forall|k: int| 0 <= k < shown.len() ==> (#[trigger] shown[k]) < tasks.len()
    &&& forall|k: int|
        0 <= k < shown.len() ==> filter.admits(tasks[(#[trigger] shown[k]) as int].completed)
    &&& forall|j: int, k: int| 0 <= j < k < shown.len() ==> shown[j] < shown[k]
    &&& forall|i: int|
        0 <= i < tasks.len() && filter.admits((#[trigger] tasks[i]).completed) ==> exists|k: int|
            0 <= k < shown.len() && shown[k] == i
}

/// The number of tasks that are left to do.
pub fn tasks_left(tasks: &Vec<Task>) -> (left: usize)
    ensures
        left == open_count(task_models(tasks@)),
{
    let ghost models = task_models(tasks@);
    let mut left: usize = 0;
    let mut i: usize = 0;
    while i < tasks.len()
        invariant
            i <= tasks.len(),
            models == task_models(tasks@),
            left == open_count(models.take(i as int)),
            left <= i,
        decreases tasks.len() - i,
    {
        assert(models.take(i + 1).drop_last() =~= models.take(i as int));
        if !tasks[i].completed() {
            left += 1;
        }
        i += 1;
    }
    assert(models.take(i as int) =~= models);
    left
}

/// The positions of the tasks that pass `filter`, in display order.
pub fn shown_tasks(tasks: &Vec<Task>, filter: Filter) -> (shown: Vec<usize>)
    ensures
        lists_shown(shown@, task_models(tasks@), filter),
{
    let ghost models = task_models(tasks@);
    let mut shown: Vec<usize> = Vec::new();
    let mut i: usize = 0;
    while i < tasks.len()
        invariant
            i <= tasks.len(),
            models == task_models(tasks@),
            forall|k: int| 0 <= k < shown.len() ==> (#[trigger] shown@[k]) < i,
            forall|k: int|
                0 <= k < shown.len() ==> filter.admits(
                    models[(#[trigger] shown@[k]) as int].completed,
                ),
            forall|j: int, k: int| 0 <= j < k < shown.len() ==> shown@[j] < shown@[k],
            forall|m: int|
                0 <= m < i && filter.admits((#[trigger] models[m]).completed) ==> exists|k: int|
                    0 <= k < shown.len() && shown@[k] == m,
        decreases tasks.len() - i,
    {
        if filter.matches(&tasks[i]) {
            let ghost before = shown@;
            shown.push(i);
            assert forall|m: int|
                0 <= m < i + 1 && filter.admits((#[trigger] models[m]).completed) implies exists|
                k: int,
            | 0 <= k < shown.len() && shown@[k] == m by {
                if m < i {
                    let k = choose|k: int| 0 <= k < before.len() && before[k] == m;
                    assert(shown@[k] == m);
                } else {
                    assert(shown@[shown.len() - 1] == m);
                }
            }
        }
        i += 1;
    }
    shown
}

/// Every filter is read back from the integer it is stored under.
pub proof fn lemma_filter_code_round_trip(filter: Filter)
    ensures
        Filter::spec_from_code(filter.spec_code()) == filter,
        0 <= filter.spec_code() <= 2,
{
}

} // verus!
