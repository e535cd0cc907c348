//! One to-do item and the messages that change it.

use crate::identity::{is_random_uuid, TaskId};
use vstd::prelude::*;

verus! {

/// Whether a task is being edited. Never persisted: a loaded task is `Idle`.
#[derive(Clone, Copy, Debug, PartialEq, Eq, Structural)]
pub enum TaskState {
    Idle,
    Editing,
}

impl Default for TaskState {
    fn default() -> (state: TaskState)
        ensures
            state == TaskState::Idle,
    {
        TaskState::Idle
    }
}

/// What can happen to a single task.
#[derive(Debug)]
pub enum TaskMessage {
    /// Set the completion flag.
    Completed(bool),
    /// Start editing the description.
    Edit,
    /// Replace the description.
    DescriptionEdited(String),
    /// Stop editing, if the description may be committed.
    FinishEdition,
    /// Remove the task. The collection that owns the task acts on this one;
    /// the task itself is left as it is.
    Delete,
}

impl Clone for TaskMessage {
    fn clone(&self) -> (copy: TaskMessage)
        ensures
            copy == *self,
    {
        match self {
            TaskMessage::Completed(completed) => TaskMessage::Completed(*completed),
            TaskMessage::Edit => TaskMessage::Edit,
            TaskMessage::DescriptionEdited(text) => TaskMessage::DescriptionEdited(text.clone()),
            TaskMessage::FinishEdition => TaskMessage::FinishEdition,
            TaskMessage::Delete => TaskMessage::Delete,
        }
    }
}

/// A to-do item.
#[derive(Debug)]
pub struct Task {
    id: TaskId,
    description: String,
    completed: bool,
    state: TaskState,
}

/// What a task is, as the contracts see it.
pub struct TaskModel {
    pub id: TaskId,
    pub description: Seq<char>,
    pub completed: bool,
    pub state: TaskState,
}

impl TaskModel {
    /// A task as it is created or loaded: not being edited.
    pub open spec fn from_parts(id: TaskId, description: Seq<char>, completed: bool) -> TaskModel {
        TaskModel { id, description, completed, state: TaskState::Idle }
    }

    /// The same task, not being edited.
    pub open spec fn idle(self) -> TaskModel {
        TaskModel { state: TaskState::Idle, ..self }
    }

    /// The task after `message`.
    ///
    /// The description is replaced unconditionally, also by the empty text.
    /// Editing ends only on a non-empty description: an empty one is never
    /// committed, and the task is not removed on that account either.
    pub open spec fn after(self, message: TaskMessage) -> TaskModel {
        match message {
            TaskMessage::Completed(completed) => TaskModel { completed, ..self },
            TaskMessage::Edit => TaskModel { state: TaskState::Editing, ..self },
            TaskMessage::DescriptionEdited(text) => TaskModel { description: text@, ..self },
            TaskMessage::FinishEdition => if self.description.len() == 0 {
                self
            } else {
                TaskModel { state: TaskState::Idle, ..self }
            },
            TaskMessage::Delete => self,
        }
    }
}

/// Whether `message` announces a completed task to the outside. Every
/// `Completed(true)` does, also on a task that was complete already.
pub open spec fn announces_completion(message: TaskMessage) -> bool {
    message == TaskMessage::Completed(true)
}

impl View for Task {
    type V = TaskModel;

    closed spec fn view(&self) -> TaskModel {
        TaskModel {
            id: self.id,
            description: self.description@,
            completed: self.completed,
            state: self.state,
        }
    }
}

impl Clone for Task {
    fn clone(&self) -> (copy: Task)
        ensures
            copy@ == self@,
    {
        Task {
            id: self.id,
            description: self.description.clone(),
            completed: self.completed,
            state: self.state,
        }
    }
}

impl Task {
    /// Creates an open, idle task under a fresh random identifier.
    pub fn new(description: String) -> (task: Task)
        ensures
            task@ == TaskModel::from_parts(task@.id, description@, false),
            is_random_uuid(task@.id.value),
    {
        Task::with_id(TaskId::fresh(), description)
    }

    /// Creates an open, idle task under the given identifier.
    pub fn with_id(id: TaskId, description: String) -> (task: Task)
        ensures
            task@ == TaskModel::from_parts(id, description@, false),
    {
        Task { id, description, completed: false, state: TaskState::Idle }
    }

    /// Rebuilds a task from what is stored of it.
    pub fn from_parts(id: TaskId, description: String, completed: bool) -> (task: Task)
        ensures
            task@ == TaskModel::from_parts(id, description@, completed),
    {
        Task { id, description, completed, state: TaskState::Idle }
    }

    /// Rebuilds a task from a stored entry that may lack an identifier, as
    /// entries written before tasks had identifiers do: such a task gets a
    /// fresh random identifier, every other keeps its own.
    pub fn from_stored(id: Option<TaskId>, description: String, completed: bool) -> (task: Task)
        ensures
            task@ == TaskModel::from_parts(task@.id, description@, completed),
            match id {
                Some(id) => task@.id == id,
                None => is_random_uuid(task@.id.value),
            },
    {
        match id {
            Some(id) => Task::from_parts(id, description, completed),
            None => Task::from_parts(TaskId::fresh(), description, completed),
        }
    }

    pub fn id(&self) -> (id: TaskId)
        ensures
            id == self@.id,
    {
        self.id
    }

    pub fn completed(&self) -> (completed: bool)
        ensures
            completed == self@.completed,
    {
        self.completed
    }

    pub fn description(&self) -> (description: &str)
        ensures
            description@ == self@.description,
    {
        self.description.as_str()
    }

    pub fn state(&self) -> (state: &TaskState)
        ensures
            *state == self@.state,
    {
        &self.state
    }

    /// Puts the task back to `Idle`, as every loaded task is.
    pub fn reset(&mut self)
        ensures
            final(self)@ == old(self)@.idle(),
    {
        self.state = TaskState::Idle;
    }

    /// Applies `message` and says whether a completion is to be announced.
    pub fn update(&mut self, message: TaskMessage) -> (announce: bool)
        ensures
            final(self)@ == old(self)@.after(message),
            announce == announces_completion(message),
    {
        match message {
            TaskMessage::Completed(completed) => {
                self.completed = completed;
                completed
            },
            TaskMessage::Edit => {
                self.state = TaskState::Editing;
                false
            },
            TaskMessage::DescriptionEdited(new_description) => {
                self.description = new_description;
                false
            },
            TaskMessage::FinishEdition => {
                if !self.description.as_str().is_empty() {
                    self.state = TaskState::Idle;
                }
                false
            },
            TaskMessage::Delete => false,
        }
    }
}

/// The character of a decimal digit.
pub open spec fn digit(d: nat) -> char {
    seq!['0', '1', '2', '3', '4', '5', '6', '7', '8', '9'][d as int]
}

/// A number in decimal, without sign or leading zeros.
pub open spec fn decimal(n: nat) -> Seq<char>
    decreases n,
{
    if n < 10 {
        seq![digit(n)]
    } else {
        decimal(n / 10).push(digit(n % 10))
    }
}

/// The name of the edit field of the task at position `i`: `task-` and the
/// position in decimal.
pub open spec fn edit_field_name(i: nat) -> Seq<char> {
    "task-"@ + decimal(i)
}

fn digit_text(d: usize) -> (text: &'static str)
    requires
        d < 10,
    ensures
        text@ == seq![digit(d as nat)],
{
    proof {
        reveal_strlit("0");
        reveal_strlit("1");
        reveal_strlit("2");
        reveal_strlit("3");
        reveal_strlit("4");
        reveal_strlit("5");
        reveal_strlit("6");
        reveal_strlit("7");
        reveal_strlit("8");
        reveal_strlit("9");
    }
    let text = match d {
        0 => "0",
        1 => "1",
        2 => "2",
        3 => "3",
        4 => "4",
        5 => "5",
        6 => "6",
        7 => "7",
        8 => "8",
        _ => "9",
    };
    assert(text@ =~= seq![digit(d as nat)]);
    text
}

/// Writes a number in decimal.
pub fn decimal_text(n: usize) -> (text: String)
    ensures
        text@ == decimal(n as nat),
    decreases n,
{
    if n < 10 {
        digit_text(n).to_owned()
    } else {
        let mut text = decimal_text(n / 10);
        text.append(digit_text(n % 10));
        assert(text@ =~= decimal(n as nat));
        text
    }
}

impl Task {
    /// The name under which the edit field of the task at position `i` is
    /// known to the screen, so that it can be focused.
    pub fn text_input_id(i: usize) -> (name: String)
        ensures
            name@ == edit_field_name(i as nat),
    {
        let mut name = "task-".to_owned();
        let position = decimal_text(i);
        name.append(position.as_str());
        name
    }
}

/// The models of a sequence of tasks, in order.
pub open spec fn task_models(tasks: Seq<Task>) -> Seq<TaskModel> {
    tasks.map_values(|task: Task| task@)
}

/// The tasks in `tasks`, each put back to `Idle`.
pub open spec fn idle_models(tasks: Seq<TaskModel>) -> Seq<TaskModel> {
    tasks.map_values(|task: TaskModel| task.idle())
}

/// A task with an empty description stays in `Editing` when asked to finish.
pub proof fn lemma_empty_description_is_not_committed(task: TaskModel)
    requires
        task.description.len() == 0,
    ensures
        task.after(TaskMessage::FinishEdition) == task,
        task.state == TaskState::Editing ==> task.after(TaskMessage::FinishEdition).state
            == TaskState::Editing,
{
}

} // verus!
