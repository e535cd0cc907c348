//! What holds of the controller over every message and every run: task
//! identifiers stay unique, at most one save is in flight, an empty draft
//! makes no task, and an empty description is never committed.

use crate::app::{save_count, CommandModel, Message, TodosModel};
use crate::identity::TaskId;
use crate::language::Language;
use crate::persistence::{
    is_stored_as, lemma_stored_snapshot_loads_back, loaded_from, SavedModel, SettingsModel,
    TaskRecordModel,
};
use crate::state::{has_distinct_ids, holds_id, lemma_position_of, position_of, StateModel};
use crate::task::{idle_models, TaskMessage, TaskModel, TaskState};
use vstd::prelude::*;

verus! {

/// One turn of the controller: the message, the identifier that a new task
/// would get, and the language that a freshly loaded state would start in.
pub struct Step {
    pub message: Message,
    pub fresh: TaskId,
    pub locale: Language,
}

/// Whether the step hands the controller no identifier twice: the fresh
/// identifier of a new task is not held by any task yet, and a loaded
/// snapshot holds no identifier twice.
pub open spec fn brings_no_duplicate(todos: TodosModel, step: Step) -> bool {
    match todos {
        TodosModel::Loading => match step.message {
            Message::Loaded(Ok(saved)) => has_distinct_ids(saved@.tasks),
            _ => true,
        },
        TodosModel::Loaded(state) => state.creates_task(step.message) ==> !holds_id(
            state.tasks,
            step.fresh,
        ),
    }
}

/// The application after a run of steps, first to last.
pub open spec fn after_all(todos: TodosModel, steps: Seq<Step>) -> TodosModel
    decreases steps.len(),
{
    if steps.len() == 0 {
        todos
    } else {
        let step = steps.last();
        after_all(todos, steps.drop_last()).after(step.message, step.fresh, step.locale)
    }
}

/// Whether no step of the run hands the controller an identifier twice,
/// each step judged in the state that the steps before it lead to.
pub open spec fn brings_no_duplicates(todos: TodosModel, steps: Seq<Step>) -> bool
    decreases steps.len(),
{
    steps.len() == 0 || (brings_no_duplicates(todos, steps.drop_last()) && brings_no_duplicate(
        after_all(todos, steps.drop_last()),
        steps.last(),
    ))
}

/// A message to a task leaves the task's identifier alone.
pub proof fn lemma_message_keeps_id(task: TaskModel, message: TaskMessage)
    ensures
        task.after(message).id == task.id,
{
}

/// Removing a task leaves the identifiers of the others unique.
pub proof fn lemma_remove_keeps_ids_distinct(tasks: Seq<TaskModel>, i: int)
    requires
        has_distinct_ids(tasks),
        0 <= i < tasks.len(),
    ensures
        has_distinct_ids(tasks.remove(i)),
{
}

/// Replacing a task by one with the same identifier keeps the identifiers
/// unique.
pub proof fn lemma_update_keeps_ids_distinct(tasks: Seq<TaskModel>, i: int, task: TaskModel)
    requires
        has_distinct_ids(tasks),
        0 <= i < tasks.len(),
        task.id == tasks[i].id,
    ensures
        has_distinct_ids(tasks.update(i, task)),
{
}

/// Appending a task whose identifier no task holds keeps the identifiers
/// unique.
pub proof fn lemma_push_keeps_ids_distinct(tasks: Seq<TaskModel>, task: TaskModel)
    requires
        has_distinct_ids(tasks),
        !holds_id(tasks, task.id),
    ensures
        has_distinct_ids(tasks.push(task)),
{
}

/// Putting every task back to idle changes no identifier.
pub proof fn lemma_idle_keeps_ids_distinct(tasks: Seq<TaskModel>)
    requires
        has_distinct_ids(tasks),
    ensures
        has_distinct_ids(idle_models(tasks)),
{
}

/// One message keeps the task identifiers of the loaded state unique,
/// provided that a new task's identifier is not held by any task yet.
pub proof fn lemma_message_keeps_ids_unique(state: StateModel, message: Message, fresh: TaskId)
    requires
        state.has_unique_ids(),
        state.creates_task(message) ==> !holds_id(state.tasks, fresh),
    ensures
        state.after(message, fresh).has_unique_ids(),
{
    match message {
        Message::CreateTask => {
            if state.input_value.len() > 0 {
                lemma_push_keeps_ids_distinct(
                    state.tasks,
                    TaskModel::from_parts(fresh, state.input_value, false),
                );
            }
        },
        Message::TaskMessage(id, task_message) => {
            lemma_position_of(state.tasks, id);
            match position_of(state.tasks, id) {
                Some(i) => {
                    if task_message is Delete {
                        lemma_remove_keeps_ids_distinct(state.tasks, i);
                    } else {
                        lemma_update_keeps_ids_distinct(
                            state.tasks,
                            i,
                            state.tasks[i].after(task_message),
                        );
                    }
                },
                None => {},
            }
        },
        _ => {},
    }
}

/// One step keeps the task identifiers unique, provided that it hands the
/// controller no identifier twice.
pub proof fn lemma_step_keeps_ids_unique(todos: TodosModel, step: Step)
    requires
        todos.has_unique_ids(),
        brings_no_duplicate(todos, step),
    ensures
        todos.after(step.message, step.fresh, step.locale).has_unique_ids(),
{
    match todos {
        TodosModel::Loading => match step.message {
            Message::Loaded(Ok(saved)) => {
                lemma_idle_keeps_ids_distinct(saved@.tasks);
            },
            _ => {},
        },
        TodosModel::Loaded(state) => {
            lemma_message_keeps_ids_unique(state, step.message, step.fresh);
        },
    }
}

/// After every run of steps every task has an identifier of its own,
/// provided that no step hands the controller an identifier twice.
pub proof fn lemma_ids_stay_unique(todos: TodosModel, steps: Seq<Step>)
    requires
        todos.has_unique_ids(),
        brings_no_duplicates(todos, steps),
    ensures
        after_all(todos, steps).has_unique_ids(),
    decreases steps.len(),
{
    if steps.len() > 0 {
        lemma_ids_stay_unique(todos, steps.drop_last());
        lemma_step_keeps_ids_unique(after_all(todos, steps.drop_last()), steps.last());
    }
}

/// The fresh identifier matters only to a message that makes a task, and
/// the language only to the answer of the store that is awaited: for every
/// other message the state and the message alone fix what comes next.
pub proof fn lemma_outcome_is_fixed(todos: TodosModel, message: Message, one: Step, other: Step)
    requires
        one.message == message,
        other.message == message,
        todos.creates_task(message) ==> one.fresh == other.fresh,
        todos is Loading && message is Loaded ==> one.locale == other.locale,
    ensures
        todos.after(message, one.fresh, one.locale) == todos.after(
            message,
            other.fresh,
            other.locale,
        ),
        todos.commands(message, one.fresh) == todos.commands(message, other.fresh),
{
}

/// The identifiers of the tasks, in display order.
pub open spec fn ids_of(tasks: Seq<TaskModel>) -> Seq<TaskId> {
    tasks.map_values(|task: TaskModel| task.id)
}

/// Display order is insertion order. One message leaves the tasks in the
/// order they are in: it changes none of their places, or appends the new
/// task at the end, or takes one task out from among the others.
pub proof fn lemma_order_is_kept(state: StateModel, message: Message, fresh: TaskId)
    ensures
        ({
            let before = ids_of(state.tasks);
            let after = ids_of(state.after(message, fresh).tasks);
            ||| after == before
            ||| state.creates_task(message) && after == before.push(fresh)
            ||| message is TaskMessage && exists|i: int|
                0 <= i < before.len() && after == #[trigger] before.remove(i)
        }),
{
    match message {
        Message::TaskMessage(id, task_message) => {
            lemma_position_of(state.tasks, id);
            if let Some(i) = position_of(state.tasks, id) {
                if task_message is Delete {
                    assert(ids_of(state.after(message, fresh).tasks) =~= ids_of(state.tasks).remove(
                        i,
                    ));
                }
            }
        },
        _ => {},
    }
}

/// Storing a snapshot and loading it back brings in no duplicate: where
/// the snapshot's tasks have identifiers of their own, so have the tasks
/// that are loaded from its rows.
pub proof fn lemma_stored_snapshot_keeps_ids_unique(
    snapshot: SavedModel,
    settings: SettingsModel,
    records: Seq<TaskRecordModel>,
)
    requires
        has_distinct_ids(snapshot.tasks),
        is_stored_as(snapshot, settings, records),
    ensures
        loaded_from(settings, records) is Ok,
        has_distinct_ids(loaded_from(settings, records)->Ok_0.tasks),
{
    lemma_stored_snapshot_loads_back(snapshot, settings, records);
    lemma_idle_keeps_ids_distinct(snapshot.tasks);
}

/// The number of saves in two lists of commands put together is the sum of
/// the numbers in each.
pub proof fn lemma_save_count_of_concatenation(first: Seq<CommandModel>, second: Seq<CommandModel>)
    ensures
        save_count(first + second) == save_count(first) + save_count(second),
    decreases second.len(),
{
    if second.len() > 0 {
        assert((first + second).drop_last() =~= first + second.drop_last());
        lemma_save_count_of_concatenation(first, second.drop_last());
    }
}

/// What a message itself asks for is never a save.
pub proof fn lemma_messages_request_no_save(state: StateModel, message: Message)
    ensures
        save_count(state.requested(message)) == 0,
{
    let requested = state.requested(message);
    if requested.len() > 0 {
        assert(save_count(requested.drop_last()) == 0);
    }
}

/// Saves are single-flight. A message issues at most one save. It issues
/// one only if no save was in flight or the message is the completion of the
/// save that was, and then a save is in flight afterwards. Whatever the
/// message, nothing is left dirty without a save in flight.
pub proof fn lemma_saves_are_single_flight(state: StateModel, message: Message, fresh: TaskId)
    ensures
        save_count(state.commands(message, fresh)) <= 1,
        save_count(state.commands(message, fresh)) == 1 ==> (!state.saving || message is Saved)
            && state.after(message, fresh).saving,
        save_count(state.commands(message, fresh)) == 1 <==> state.applied(message, fresh).marked(
            message,
        ).needs_save(),
        !state.after(message, fresh).needs_save(),
        state.saving && !(message is Saved) ==> save_count(state.commands(message, fresh)) == 0
            && state.after(message, fresh).saving,
{
    let marked = state.applied(message, fresh).marked(message);
    let saves = marked.save_commands();
    lemma_messages_request_no_save(state, message);
    lemma_save_count_of_concatenation(state.requested(message), saves);
    if saves.len() > 0 {
        assert(save_count(saves.drop_last()) == 0);
    }
    match message {
        Message::TaskMessage(id, task_message) => {
            lemma_position_of(state.tasks, id);
        },
        _ => {},
    }
}

/// The number of saves that are in flight after a run of steps: the saves
/// that were issued, less those whose completion was delivered.
pub open spec fn saves_in_flight(todos: TodosModel, steps: Seq<Step>) -> int
    decreases steps.len(),
{
    if steps.len() == 0 {
        0
    } else {
        let step = steps.last();
        let before = after_all(todos, steps.drop_last());
        saves_in_flight(todos, steps.drop_last()) - (if step.message is Saved {
            1int
        } else {
            0int
        }) + save_count(before.commands(step.message, step.fresh))
    }
}

/// Whether every completion of a save in the run answers a save: it is
/// delivered while one is in flight.
pub open spec fn completions_answer_saves(todos: TodosModel, steps: Seq<Step>) -> bool
    decreases steps.len(),
{
    steps.len() == 0 || (completions_answer_saves(todos, steps.drop_last()) && (steps.last().message
        is Saved ==> saves_in_flight(todos, steps.drop_last()) > 0))
}

/// Whether no save is marked as in flight.
pub open spec fn is_at_rest(todos: TodosModel) -> bool {
    match todos {
        TodosModel::Loading => true,
        TodosModel::Loaded(state) => !state.saving,
    }
}

/// Over every run that starts with no save in flight, and in which the
/// store completes only saves that were issued, at most one save is in
/// flight at any time, and `saving` says whether one is.
pub proof fn lemma_at_most_one_save_in_flight(todos: TodosModel, steps: Seq<Step>)
    requires
        is_at_rest(todos),
        completions_answer_saves(todos, steps),
    ensures
        0 <= saves_in_flight(todos, steps) <= 1,
        match after_all(todos, steps) {
            TodosModel::Loading => saves_in_flight(todos, steps) == 0,
            TodosModel::Loaded(state) => state.saving <==> saves_in_flight(todos, steps) == 1,
        },
    decreases steps.len(),
{
    if steps.len() > 0 {
        let step = steps.last();
        let before = after_all(todos, steps.drop_last());
        lemma_at_most_one_save_in_flight(todos, steps.drop_last());
        match before {
            TodosModel::Loading => {
                lemma_loading_issues_no_save(step.message, step.fresh, step.locale);
            },
            TodosModel::Loaded(state) => {
                lemma_saves_are_single_flight(state, step.message, step.fresh);
            },
        }
    }
}

/// While the application is loading no message issues a save, the store's
/// answer included, and the loaded state starts with nothing to save.
pub proof fn lemma_loading_issues_no_save(message: Message, fresh: TaskId, locale: Language)
    ensures
        save_count(TodosModel::Loading.commands(message, fresh)) == 0,
        match TodosModel::Loading.after(message, fresh, locale) {
            TodosModel::Loading => !(message is Loaded),
            TodosModel::Loaded(state) => message is Loaded && !state.dirty && !state.saving,
        },
{
    let commands = TodosModel::Loading.commands(message, fresh);
    assert(save_count(commands.drop_last()) == 0);
}

/// A failed load gives the empty state: no tasks, no draft, the filter that
/// shows everything, nothing to save and no save in flight.
pub proof fn lemma_failed_load_gives_empty_state(
    error: crate::persistence::LoadError,
    fresh: TaskId,
    locale: Language,
)
    ensures
        TodosModel::Loading.after(Message::Loaded(Err(error)), fresh, locale) == TodosModel::Loaded(
            StateModel::empty(locale),
        ),
        StateModel::empty(locale).tasks.len() == 0,
        StateModel::empty(locale).input_value.len() == 0,
        StateModel::empty(locale).filter == crate::filter::Filter::All,
        !StateModel::empty(locale).dirty,
        !StateModel::empty(locale).saving,
{
}

/// Submitting an empty draft makes no task and leaves the draft, the filter
/// and every task as they are.
pub proof fn lemma_empty_draft_makes_no_task(state: StateModel, fresh: TaskId)
    requires
        state.input_value.len() == 0,
    ensures
        state.after(Message::CreateTask, fresh).tasks == state.tasks,
        state.after(Message::CreateTask, fresh).input_value == state.input_value,
        state.after(Message::CreateTask, fresh).filter == state.filter,
        state.after(Message::CreateTask, fresh).dirty == state.saving,
{
}

/// Submitting an empty draft leaves the state no dirtier than it was,
/// unless a save is in flight and the state was clean: the submission then
/// counts as a change like every message does, and waits for the next save.
pub proof fn lemma_empty_draft_leaves_state_no_dirtier(state: StateModel, fresh: TaskId)
    requires
        state.input_value.len() == 0,
        state.dirty || !state.saving,
    ensures
        state.after(Message::CreateTask, fresh).tasks == state.tasks,
        state.after(Message::CreateTask, fresh).dirty ==> state.dirty,
{
}

/// Asking a task with an empty description to finish editing changes no
/// task: one that is being edited stays in `Editing`.
pub proof fn lemma_empty_description_stays_in_editing(state: StateModel, id: TaskId, fresh: TaskId)
    requires
        holds_id(state.tasks, id),
        state.tasks[position_of(state.tasks, id).unwrap()].description.len() == 0,
    ensures
        position_of(state.tasks, id) is Some,
        state.after(Message::TaskMessage(id, TaskMessage::FinishEdition), fresh).tasks
            == state.tasks,
        state.tasks[position_of(state.tasks, id).unwrap()].state == TaskState::Editing
            ==> state.after(
            Message::TaskMessage(id, TaskMessage::FinishEdition),
            fresh,
        ).tasks[position_of(state.tasks, id).unwrap()].state == TaskState::Editing,
{
    lemma_position_of(state.tasks, id);
}

} // verus!
