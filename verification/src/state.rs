//! The state of the loaded application: the draft of the next task, the
//! filter, the tasks in display order, and the bookkeeping of saving.
//!
//! `dirty` says that something changed since the last snapshot was taken;
//! `saving` says that a snapshot is on its way to the store. A snapshot is
//! taken only while none is on its way, so at most one save is ever in
//! flight, and changes made meanwhile are gathered into the next one.

use crate::filter::Filter;
use crate::identity::TaskId;
use crate::language::Language;
use crate::persistence::{clone_tasks, SavedModel, SavedState};
use crate::task::{idle_models, task_models, Task, TaskModel};
use vstd::prelude::*;

verus! {

/// The state of the loaded application.
#[derive(Debug)]
pub struct State {
    pub input_value: String,
    pub filter: Filter,
    pub tasks: Vec<Task>,
    pub dirty: bool,
    pub saving: bool,
    pub input_hovered: bool,
    pub language: Language,
}

/// What the state is, as the contracts see it.
pub struct StateModel {
    pub input_value: Seq<char>,
    pub filter: Filter,
    pub tasks: Seq<TaskModel>,
    pub dirty: bool,
    pub saving: bool,
    pub input_hovered: bool,
    pub language: Language,
}

impl View for State {
    type V = StateModel;

    open spec fn view(&self) -> StateModel {
        StateModel {
            input_value: self.input_value@,
            filter: self.filter,
            tasks: task_models(self.tasks@),
            dirty: self.dirty,
            saving: self.saving,
            input_hovered: self.input_hovered,
            language: self.language,
        }
    }
}

/// Whether `i` is the first position in `tasks` that holds a task with
/// identifier `id`.
pub open spec fn is_first_with_id(tasks: Seq<TaskModel>, id: TaskId, i: int) -> bool {
    &&& 0 <= i < tasks.len()
    &&& tasks[i].id == id
    &&& forall|j: int| 0 <= j < i ==> (#[trigger] tasks[j]).id != id
}

/// Whether some task in `tasks` has identifier `id`.
pub open spec fn holds_id(tasks: Seq<TaskModel>, id: TaskId) -> bool {
    exists|i: int| 0 <= i < tasks.len() && (#[trigger] tasks[i]).id == id
}

/// The first position in `tasks` of a task with identifier `id`, if any.
pub open spec fn position_of(tasks: Seq<TaskModel>, id: TaskId) -> Option<int> {
    if exists|i: int| is_first_with_id(tasks, id, i) {
        Some(choose|i: int| is_first_with_id(tasks, id, i))
    } else {
        None
    }
}

/// Whether no two tasks in `tasks` share an identifier.
pub open spec fn has_distinct_ids(tasks: Seq<TaskModel>) -> bool {
    forall|i: int, j: int|
        0 <= i < j < tasks.len() ==> (#[trigger] tasks[i]).id != (#[trigger] tasks[j]).id
}

/// A position that is the first with `id` is the one `position_of` names.
pub proof fn lemma_first_position(tasks: Seq<TaskModel>, id: TaskId, i: int)
    requires
        is_first_with_id(tasks, id, i),
    ensures
        position_of(tasks, id) == Some(i),
{
}

/// Where no task has `id`, `position_of` names none; where it names one,
/// that one is the first with `id`.
pub proof fn lemma_position_of(tasks: Seq<TaskModel>, id: TaskId)
    ensures
        match position_of(tasks, id) {
            Some(i) => is_first_with_id(tasks, id, i),
            None => !holds_id(tasks, id),
        },
{
    if !(exists|i: int| is_first_with_id(tasks, id, i)) {
        if holds_id(tasks, id) {
            let i = choose|i: int| 0 <= i < tasks.len() && (#[trigger] tasks[i]).id == id;
            lemma_some_first_position(tasks, id, i);
        }
    }
}

/// Where position `i` holds `id`, some position up to `i` is the first that
/// does.
proof fn lemma_some_first_position(tasks: Seq<TaskModel>, id: TaskId, i: int)
    requires
        0 <= i < tasks.len(),
        tasks[i].id == id,
    ensures
        exists|k: int| is_first_with_id(tasks, id, k),
    decreases i,
{
    if exists|j: int| 0 <= j < i && (#[trigger] tasks[j]).id == id {
        let j = choose|j: int| 0 <= j < i && (#[trigger] tasks[j]).id == id;
        lemma_some_first_position(tasks, id, j);
    } else {
        assert(is_first_with_id(tasks, id, i));
    }
}

impl StateModel {
    /// The state with nothing in it and nothing to save.
    pub open spec fn empty(language: Language) -> StateModel {
        StateModel::restored(SavedModel::empty(), language)
    }

    /// The state that a loaded snapshot gives: its draft, its filter and its
    /// tasks, every task idle, with nothing to save and no save in flight.
    pub open spec fn restored(saved: SavedModel, language: Language) -> StateModel {
        StateModel {
            input_value: saved.input_value,
            filter: saved.filter,
            tasks: idle_models(saved.tasks),
            dirty: false,
            saving: false,
            input_hovered: false,
            language,
        }
    }

    /// The snapshot of this state.
    pub open spec fn snapshot(self) -> SavedModel {
        SavedModel { input_value: self.input_value, filter: self.filter, tasks: self.tasks }
    }

    /// Whether a snapshot is due: something changed and no save is in flight.
    pub open spec fn needs_save(self) -> bool {
        self.dirty && !self.saving
    }

    /// The state after the autosave check: where a snapshot is due it is
    /// taken, which clears `dirty` and sets `saving`; otherwise nothing
    /// changes.
    pub open spec fn flushed(self) -> StateModel {
        if self.needs_save() {
            StateModel { dirty: false, saving: true, ..self }
        } else {
            self
        }
    }

    /// The snapshot that the autosave check hands out, if one is due.
    pub open spec fn flush(self) -> Option<SavedModel> {
        if self.needs_save() {
            Some(self.snapshot())
        } else {
            None
        }
    }

    /// Whether no two tasks share an identifier.
    pub open spec fn has_unique_ids(self) -> bool {
        has_distinct_ids(self.tasks)
    }
}

impl State {
    /// The state with nothing in it.
    pub fn new(language: Language) -> (state: State)
        ensures
            state@ == StateModel::empty(language),
    {
        State::restore(SavedState::default(), language)
    }

    /// The state that a loaded snapshot gives.
    pub fn restore(saved: SavedState, language: Language) -> (state: State)
        ensures
            state@ == StateModel::restored(saved@, language),
    {
        let mut tasks = saved.tasks;
        let mut i: usize = 0;
        while i < tasks.len()
            invariant
                i <= tasks.len(),
                tasks.len() == saved.tasks.len(),
                forall|j: int| 0 <= j < i ==> (#[trigger] tasks@[j])@ == saved.tasks@[j]@.idle(),
                forall|j: int| i <= j < tasks.len() ==> (#[trigger] tasks@[j])@ == saved.tasks@[j]@,
            decreases tasks.len() - i,
        {
            tasks[i].reset();
            i += 1;
        }
        let state = State {
            input_value: saved.input_value,
            filter: saved.filter,
            tasks,
            dirty: false,
            saving: false,
            input_hovered: false,
            language,
        };
        assert(state@.tasks =~= idle_models(saved@.tasks));
        state
    }

    /// The snapshot of this state.
    pub fn snapshot(&self) -> (saved: SavedState)
        ensures
            saved@ == self@.snapshot(),
    {
        SavedState {
            input_value: self.input_value.clone(),
            filter: self.filter,
            tasks: clone_tasks(&self.tasks),
        }
    }

    /// The autosave check. Where something changed and no save is in flight,
    /// takes a snapshot, clears `dirty`, sets `saving` and hands the snapshot
    /// out for saving. Otherwise changes nothing and hands out nothing.
    pub fn autosave(&mut self) -> (due: Option<SavedState>)
        ensures
            final(self)@ == old(self)@.flushed(),
            match due {
                Some(saved) => old(self)@.flush() == Some(saved@),
                None => old(self)@.flush() is None,
            },
    {
        if self.dirty && !self.saving {
            self.dirty = false;
            self.saving = true;
            Some(self.snapshot())
        } else {
            None
        }
    }

    /// The first position of a task with identifier `id`, if any.
    pub fn position(&self, id: TaskId) -> (found: Option<usize>)
        ensures
            match found {
                Some(i) => position_of(self@.tasks, id) == Some(i as int),
                None => position_of(self@.tasks, id) is None,
            },
    {
        let ghost models = self@.tasks;
        let mut i: usize = 0;
        while i < self.tasks.len()
            invariant
                i <= self.tasks.len(),
                models == task_models(self.tasks@),
                forall|j: int| 0 <= j < i ==> (#[trigger] models[j]).id != id,
            decreases self.tasks.len() - i,
        {
            if self.tasks[i].id() == id {
                proof {
                    lemma_first_position(models, id, i as int);
                }
                return Some(i);
            }
            i += 1;
        }
        proof {
            lemma_position_of(models, id);
        }
        None
    }
}

impl Default for State {
    /// The empty state in the language the system asks for.
    fn default() -> (state: State)
        ensures
            state@ == StateModel::empty(state@.language),
    {
        State::new(Language::default())
    }
}

/// Running the autosave check a second time, with nothing changed in
/// between, takes no second snapshot and leaves the state as the first run
/// left it.
pub proof fn lemma_autosave_is_idempotent(state: StateModel)
    ensures
        state.flushed().flush() is None,
        state.flushed().flushed() == state.flushed(),
        !state.flushed().needs_save(),
{
}

/// A snapshot is taken only while no save is in flight, and taking it puts
/// one in flight.
pub proof fn lemma_autosave_is_single_flight(state: StateModel)
    ensures
        state.flush() is Some ==> !state.saving && state.flushed().saving,
        state.saving ==> state.flush() is None && state.flushed() == state,
{
}

} // verus!
