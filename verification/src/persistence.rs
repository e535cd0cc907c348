//! The snapshot that is persisted, the errors of loading and saving, and the
//! records of the relational store.
//!
//! Reading and writing the medium is not done here. A snapshot is turned into
//! plain records and back; whoever owns the store moves the records.

use crate::filter::Filter;
use crate::identity::{hyphenated, parsed_id, TaskId};
use crate::task::{idle_models, task_models, Task, TaskModel};
use vstd::prelude::*;

verus! {

/// Why a snapshot could not be loaded. Neither is fatal: the caller goes on
/// with an empty state.
#[derive(Clone, Copy, Debug, PartialEq, Eq, Structural)]
pub enum LoadError {
    /// The medium is missing or cannot be read.
    File,
    /// The content is there but is not a snapshot.
    Format,
}

/// Why a snapshot could not be saved. The state in memory is kept as it is.
#[derive(Clone, Copy, Debug, PartialEq, Eq, Structural)]
pub enum SaveError {
    /// The medium could not be written, in whole or in part.
    Write,
}

/// The part of the state that is persisted. A task's editing state rides
/// along in memory but is never stored: see [`SavedModel::persisted`].
#[derive(Debug)]
pub struct SavedState {
    pub input_value: String,
    pub filter: Filter,
    pub tasks: Vec<Task>,
}

/// What a snapshot is, as the contracts see it.
pub struct SavedModel {
    pub input_value: Seq<char>,
    pub filter: Filter,
    pub tasks: Seq<TaskModel>,
}

impl SavedModel {
    /// The snapshot with nothing in it.
    pub open spec fn empty() -> SavedModel {
        SavedModel { input_value: Seq::empty(), filter: Filter::All, tasks: Seq::empty() }
    }

    /// The snapshot as it comes back from the store: the same draft, filter
    /// and tasks in the same order, every task idle.
    pub open spec fn persisted(self) -> SavedModel {
        SavedModel { tasks: idle_models(self.tasks), ..self }
    }
}

impl View for SavedState {
    type V = SavedModel;

    open spec fn view(&self) -> SavedModel {
        SavedModel {
            input_value: self.input_value@,
            filter: self.filter,
            tasks: task_models(self.tasks@),
        }
    }
}

/// Copies a list of tasks, one by one and in order.
pub fn clone_tasks(tasks: &Vec<Task>) -> (copy: Vec<Task>)
    ensures
        task_models(copy@) == task_models(tasks@),
{
    let mut copy: Vec<Task> = Vec::new();
    let mut i: usize = 0;
    while i < tasks.len()
        invariant
            i <= tasks.len(),
            copy.len() == i,
            forall|j: int| 0 <= j < i ==> copy@[j]@ == tasks@[j]@,
        decreases tasks.len() - i,
    {
        copy.push(tasks[i].clone());
        i += 1;
    }
    copy
}

impl Clone for SavedState {
    fn clone(&self) -> (copy: SavedState)
        ensures
            copy@ == self@,
    {
        SavedState {
            input_value: self.input_value.clone(),
            filter: self.filter,
            tasks: clone_tasks(&self.tasks),
        }
    }
}

impl Default for SavedState {
    fn default() -> (saved: SavedState)
        ensures
            saved@ == SavedModel::empty(),
    {
        let saved = SavedState { input_value: String::new(), filter: Filter::All, tasks: Vec::new() };
        assert(saved@.tasks =~= Seq::empty());
        saved
    }
}

/// The singleton settings row of the relational store.
#[derive(Debug)]
pub struct SettingsRecord {
    pub input_value: String,
    /// The filter as a small integer: 0 all, 1 active, 2 completed.
    pub filter: i64,
}

/// One row of the task table of the relational store. Rows are kept in
/// insertion order.
#[derive(Debug)]
pub struct TaskRecord {
    /// The task's identifier as hyphenated text.
    pub id: String,
    pub description: String,
    pub completed: bool,
}

/// What a settings row is, as the contracts see it.
pub struct SettingsModel {
    pub input_value: Seq<char>,
    pub filter: i64,
}

/// What a task row is, as the contracts see it.
pub struct TaskRecordModel {
    pub id: Seq<char>,
    pub description: Seq<char>,
    pub completed: bool,
}

impl View for SettingsRecord {
    type V = SettingsModel;

    open spec fn view(&self) -> SettingsModel {
        SettingsModel { input_value: self.input_value@, filter: self.filter }
    }
}

impl View for TaskRecord {
    type V = TaskRecordModel;

    open spec fn view(&self) -> TaskRecordModel {
        TaskRecordModel {
            id: self.id@,
            description: self.description@,
            completed: self.completed,
        }
    }
}

/// The models of a sequence of task rows, in order.
pub open spec fn record_models(records: Seq<TaskRecord>) -> Seq<TaskRecordModel> {
    records.map_values(|record: TaskRecord| record@)
}

impl TaskRecordModel {
    /// Whether this row is the stored form of `task`: the identifier written
    /// as hyphenated text that reads back as the same identifier, and the
    /// description and completion flag as they are. The editing state has no
    /// place in a row.
    pub open spec fn stores(self, task: TaskModel) -> bool {
        &&& self.id == hyphenated(task.id.value)
        &&& parsed_id(self.id) == Some(task.id)
        &&& self.description == task.description
        &&& self.completed == task.completed
    }

    /// The task a row stands for once its identifier text has been read.
    pub open spec fn with_id(self, id: TaskId) -> TaskModel {
        TaskModel::from_parts(id, self.description, self.completed)
    }

    /// The task a row stands for, or `None` where its identifier text is
    /// not accepted.
    pub open spec fn task(self) -> Option<TaskModel> {
        match parsed_id(self.id) {
            Some(id) => Some(self.with_id(id)),
            None => None,
        }
    }
}

/// Whether every row stands for a task.
pub open spec fn all_readable(records: Seq<TaskRecordModel>) -> bool {
    forall|i: int| 0 <= i < records.len() ==> (#[trigger] records[i]).task() is Some
}

/// The tasks the rows stand for, in the rows' order.
pub open spec fn tasks_of(records: Seq<TaskRecordModel>) -> Seq<TaskModel> {
    records.map_values(|record: TaskRecordModel| record.task().unwrap())
}

/// Whether the rows are the stored form of the snapshot: the draft and the
/// filter's code in the settings row, and one row per task in the tasks'
/// order.
pub open spec fn is_stored_as(
    snapshot: SavedModel,
    settings: SettingsModel,
    records: Seq<TaskRecordModel>,
) -> bool {
    &&& settings.input_value == snapshot.input_value
    &&& settings.filter == snapshot.filter.spec_code()
    &&& records.len() == snapshot.tasks.len()
    &&& forall|i: int| 0 <= i < records.len() ==> (#[trigger] records[i]).stores(snapshot.tasks[i])
}

/// What loading makes of the rows: the snapshot they stand for, or a format
/// error where some row's identifier text is not accepted.
pub open spec fn loaded_from(settings: SettingsModel, records: Seq<TaskRecordModel>) -> Result<
    SavedModel,
    LoadError,
> {
    if all_readable(records) {
        Ok(
            SavedModel {
                input_value: settings.input_value,
                filter: Filter::spec_from_code(settings.filter),
                tasks: tasks_of(records),
            },
        )
    } else {
        Err(LoadError::Format)
    }
}

impl TaskRecord {
    /// The row under which `task` is stored.
    pub fn of(task: &Task) -> (record: TaskRecord)
        ensures
            record@.stores(task@),
    {
        TaskRecord {
            id: task.id().to_text(),
            description: task.description().to_owned(),
            completed: task.completed(),
        }
    }

    /// Builds the task this row stands for from the outcome of reading its
    /// identifier text: the task where an identifier was read, a format error
    /// where none was.
    pub fn into_task(self, id: Option<TaskId>) -> (r: Result<Task, LoadError>)
        ensures
            match id {
                Some(id) => r is Ok && r->Ok_0@ == self@.with_id(id),
                None => r == Err::<Task, LoadError>(LoadError::Format),
            },
    {
        match id {
            Some(id) => Ok(Task::from_parts(id, self.description, self.completed)),
            None => Err(LoadError::Format),
        }
    }

    /// Reads the identifier text and builds the task this row stands for.
    pub fn load(self) -> (r: Result<Task, LoadError>)
        ensures
            match self@.task() {
                Some(task) => r is Ok && r->Ok_0@ == task,
                None => r == Err::<Task, LoadError>(LoadError::Format),
            },
    {
        let id = TaskId::parse(self.id.as_str());
        self.into_task(id)
    }
}

impl SavedState {
    /// The rows under which this snapshot is stored: the settings row, and
    /// one row per task in the tasks' order. Loading these rows gives the
    /// snapshot back, every task idle.
    pub fn to_records(&self) -> (rows: (SettingsRecord, Vec<TaskRecord>))
        ensures
            is_stored_as(self@, rows.0@, record_models(rows.1@)),
            loaded_from(rows.0@, record_models(rows.1@)) == Ok::<SavedModel, LoadError>(
                self@.persisted(),
            ),
    {
        let settings = SettingsRecord {
            input_value: self.input_value.clone(),
            filter: self.filter.code(),
        };
        let mut records: Vec<TaskRecord> = Vec::new();
        let mut i: usize = 0;
        while i < self.tasks.len()
            invariant
                i <= self.tasks.len(),
                records.len() == i,
                forall|j: int| 0 <= j < i ==> (#[trigger] records@[j])@.stores(self.tasks@[j]@),
            decreases self.tasks.len() - i,
        {
            records.push(TaskRecord::of(&self.tasks[i]));
            i += 1;
        }
        proof {
            let models = record_models(records@);
            assert(forall|j: int|
                0 <= j < models.len() ==> (#[trigger] models[j]).stores(self@.tasks[j]));
            lemma_stored_snapshot_loads_back(self@, settings@, models);
        }
        (settings, records)
    }

    /// The snapshot that the rows stand for. Fails with a format error where
    /// some row's identifier text is not accepted, and only there.
    pub fn from_records(settings: SettingsRecord, records: Vec<TaskRecord>) -> (r: Result<
        SavedState,
        LoadError,
    >)
        ensures
            match loaded_from(settings@, record_models(records@)) {
                Ok(snapshot) => r is Ok && r->Ok_0@ == snapshot,
                Err(e) => r == Err::<SavedState, LoadError>(e),
            },
    {
        let ghost rows = record_models(records@);
        let n: usize = records.len();
        let mut rest = records;
        let mut tasks: Vec<Task> = Vec::new();
        let mut i: usize = 0;
        // Rows are taken from the back, so the tasks come out reversed.
        while i < n
            invariant
                i <= n,
                n == rows.len(),
                rows == record_models(records@),
                rest.len() == n - i,
                record_models(rest@) == rows.take(n - i),
                tasks.len() == i,
                forall|j: int| n - i <= j < n ==> (#[trigger] rows[j]).task() is Some,
                forall|j: int|
                    0 <= j < i ==> (#[trigger] tasks@[j])@ == rows[n - 1 - j].task().unwrap(),
            decreases n - i,
        {
            let ghost before = rest@;
            let record = rest.pop().unwrap();
            proof {
                assert(record_models(before)[n - i - 1] == before[n - i - 1]@);
            }
            match record.load() {
                Ok(task) => {
                    tasks.push(task);
                },
                Err(_) => {
                    return Err(LoadError::Format);
                },
            }
            i += 1;
        }
        let tasks = reversed(tasks);
        let saved = SavedState {
            input_value: settings.input_value,
            filter: Filter::from_code(settings.filter),
            tasks,
        };
        proof {
            assert(saved@.tasks =~= tasks_of(rows));
        }
        Ok(saved)
    }
}

/// The same tasks in the opposite order.
fn reversed(tasks: Vec<Task>) -> (r: Vec<Task>)
    ensures
        r.len() == tasks.len(),
        forall|j: int| 0 <= j < r.len() ==> (#[trigger] r@[j])@ == tasks@[tasks.len() - 1 - j]@,
{
    let ghost given = tasks@;
    let mut tasks = tasks;
    let mut r: Vec<Task> = Vec::new();
    while tasks.len() > 0
        invariant
            tasks.len() + r.len() == given.len(),
            tasks@ == given.take(tasks.len() as int),
            forall|j: int| 0 <= j < r.len() ==> (#[trigger] r@[j])@ == given[given.len() - 1 - j]@,
        decreases tasks.len(),
    {
        let task = tasks.pop().unwrap();
        r.push(task);
    }
    r
}

/// What is stored of a snapshot loads back as that snapshot: the same draft,
/// the same filter and the same tasks with the same identifiers in the same
/// order, every task idle.
pub proof fn lemma_stored_snapshot_loads_back(
    snapshot: SavedModel,
    settings: SettingsModel,
    records: Seq<TaskRecordModel>,
)
    requires
        is_stored_as(snapshot, settings, records),
    ensures
        loaded_from(settings, records) == Ok::<SavedModel, LoadError>(snapshot.persisted()),
{
    assert(forall|i: int|
        0 <= i < records.len() ==> (#[trigger] records[i]).task() == Some(
            snapshot.tasks[i].idle(),
        ));
    assert(tasks_of(records) =~= idle_models(snapshot.tasks));
}

} // verus!
