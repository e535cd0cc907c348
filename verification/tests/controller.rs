use todos::app::{Command, Message, Todos, WindowMode};
use todos::filter::Filter;
use todos::identity::TaskId;
use todos::language::Language;
use todos::persistence::{LoadError, SaveError, SavedState};
use todos::state::State;
use todos::task::{Task, TaskMessage, TaskState};

fn loaded(todos: &Todos) -> &State {
    match todos {
        Todos::Loaded(state) => state,
        Todos::Loading => panic!("the application is still loading"),
    }
}

fn started_empty() -> Todos {
    let mut todos = Todos::Loading;
    todos.step(
        Message::Loaded(Err(LoadError::File)),
        TaskId { value: 0 },
        Language::English,
    );
    todos
}

fn state_with(tasks: Vec<Task>) -> State {
    State::restore(
        SavedState {
            input_value: String::new(),
            filter: Filter::All,
            tasks,
        },
        Language::English,
    )
}

fn saves(commands: &[Command]) -> Vec<&SavedState> {
    let mut found = Vec::new();
    for command in commands {
        if let Command::Save(saved) = command {
            found.push(saved);
        }
    }
    found
}

#[test]
fn starts_loading_and_asks_for_the_load() {
    let (todos, command) = Todos::new();
    assert!(matches!(todos, Todos::Loading));
    assert!(matches!(command, Command::Load));
}

#[test]
fn failed_load_gives_the_empty_state() {
    let mut todos = Todos::Loading;
    let commands = todos.update(Message::Loaded(Err(LoadError::Format)));
    let state = loaded(&todos);
    assert!(state.tasks.is_empty());
    assert_eq!(state.filter, Filter::All);
    assert_eq!(state.input_value, "");
    assert!(!state.dirty);
    assert!(!state.saving);
    assert_eq!(commands.len(), 1);
    assert!(matches!(commands[0], Command::FocusInput));
}

#[test]
fn unreadable_store_gives_the_empty_state_too() {
    let mut todos = Todos::Loading;
    todos.update(Message::Loaded(Err(LoadError::File)));
    let state = loaded(&todos);
    assert!(state.tasks.is_empty());
    assert!(!state.dirty);
    assert!(!state.saving);
}

#[test]
fn successful_load_restores_the_snapshot_with_idle_tasks() {
    let mut editing = Task::from_parts(TaskId { value: 2 }, "second".to_string(), true);
    editing.update(TaskMessage::Edit);
    let saved = SavedState {
        input_value: "draft".to_string(),
        filter: Filter::Completed,
        tasks: vec![
            Task::from_parts(TaskId { value: 1 }, "first".to_string(), false),
            editing,
        ],
    };
    let mut todos = Todos::Loading;
    let commands = todos.step(Message::Loaded(Ok(saved)), TaskId { value: 0 }, Language::Korean);
    let state = loaded(&todos);
    assert_eq!(state.input_value, "draft");
    assert_eq!(state.filter, Filter::Completed);
    assert_eq!(state.language, Language::Korean);
    assert_eq!(state.tasks.len(), 2);
    assert_eq!(state.tasks[0].id(), TaskId { value: 1 });
    assert_eq!(state.tasks[0].description(), "first");
    assert!(!state.tasks[0].completed());
    assert_eq!(state.tasks[1].id(), TaskId { value: 2 });
    assert!(state.tasks[1].completed());
    assert_eq!(*state.tasks[1].state(), TaskState::Idle);
    assert!(!state.dirty);
    assert!(!state.saving);
    assert!(saves(&commands).is_empty());
}

#[test]
fn messages_are_dropped_while_loading() {
    let mut todos = Todos::Loading;
    let commands = todos.update(Message::InputChanged("early".to_string()));
    assert!(matches!(todos, Todos::Loading));
    assert_eq!(commands.len(), 1);
    assert!(matches!(commands[0], Command::FocusInput));
    let commands = todos.update(Message::CreateTask);
    assert!(matches!(todos, Todos::Loading));
    assert_eq!(commands.len(), 1);
}

#[test]
fn draft_then_submit_makes_one_task_and_one_save_of_it() {
    let mut todos = started_empty();

    let commands = todos.update(Message::InputChanged("Buy milk".to_string()));
    let first = saves(&commands);
    assert_eq!(first.len(), 1);
    assert_eq!(first[0].input_value, "Buy milk");
    assert!(first[0].tasks.is_empty());

    let commands = todos.update(Message::CreateTask);
    assert!(saves(&commands).is_empty());
    {
        let state = loaded(&todos);
        assert_eq!(state.tasks.len(), 1);
        assert_eq!(state.tasks[0].description(), "Buy milk");
        assert!(!state.tasks[0].completed());
        assert_eq!(*state.tasks[0].state(), TaskState::Idle);
        assert_eq!(state.input_value, "");
        assert!(state.dirty);
        assert!(state.saving);
    }

    let commands = todos.update(Message::Saved(Ok(())));
    let second = saves(&commands);
    assert_eq!(commands.len(), 1);
    assert_eq!(second.len(), 1);
    assert_eq!(second[0].input_value, "");
    assert_eq!(second[0].filter, Filter::All);
    assert_eq!(second[0].tasks.len(), 1);
    assert_eq!(second[0].tasks[0].description(), "Buy milk");
    assert!(!second[0].tasks[0].completed());
    assert_eq!(second[0].tasks[0].id(), loaded(&todos).tasks[0].id());
    assert!(!loaded(&todos).dirty);
    assert!(loaded(&todos).saving);
}

#[test]
fn submit_on_a_clean_state_saves_the_new_task_at_once() {
    let mut state = State::new(Language::English);
    state.input_value = "Buy milk".to_string();
    let commands = state.handle(Message::CreateTask, TaskId { value: 42 });
    assert_eq!(commands.len(), 1);
    let saved = saves(&commands);
    assert_eq!(saved.len(), 1);
    assert_eq!(saved[0].tasks.len(), 1);
    assert_eq!(saved[0].tasks[0].id(), TaskId { value: 42 });
    assert_eq!(saved[0].tasks[0].description(), "Buy milk");
    assert_eq!(saved[0].input_value, "");
    assert_eq!(state.tasks.len(), 1);
    assert_eq!(state.tasks[0].id(), TaskId { value: 42 });
    assert!(!state.dirty);
    assert!(state.saving);
}

#[test]
fn empty_draft_makes_no_task() {
    let mut state = state_with(vec![Task::from_parts(
        TaskId { value: 1 },
        "kept".to_string(),
        false,
    )]);
    state.saving = true;
    state.dirty = true;
    let commands = state.handle(Message::CreateTask, TaskId { value: 9 });
    assert!(commands.is_empty());
    assert_eq!(state.tasks.len(), 1);
    assert_eq!(state.tasks[0].id(), TaskId { value: 1 });
    assert_eq!(state.input_value, "");
    assert!(state.dirty);
    assert!(state.saving);
}

#[test]
fn empty_draft_on_a_clean_state_leaves_it_clean() {
    let mut state = State::new(Language::English);
    let commands = state.handle(Message::CreateTask, TaskId { value: 9 });
    assert!(state.tasks.is_empty());
    assert!(!state.dirty);
    assert!(state.saving);
    assert_eq!(saves(&commands).len(), 1);
    assert!(saves(&commands)[0].tasks.is_empty());
}

#[test]
fn empty_draft_during_a_save_counts_as_a_change() {
    let mut state = State::new(Language::English);
    state.saving = true;
    let commands = state.handle(Message::CreateTask, TaskId { value: 9 });
    assert!(commands.is_empty());
    assert!(state.tasks.is_empty());
    assert!(state.dirty);
}

#[test]
fn completing_a_task_announces_it_every_time() {
    let id = TaskId { value: 5 };
    let mut state = state_with(vec![Task::from_parts(id, "walk".to_string(), false)]);
    state.saving = true;

    let commands = state.handle(
        Message::TaskMessage(id, TaskMessage::Completed(true)),
        TaskId { value: 0 },
    );
    assert!(state.tasks[0].completed());
    assert_eq!(commands.len(), 1);
    assert!(matches!(commands[0], Command::AnnounceCompletion));

    let commands = state.handle(
        Message::TaskMessage(id, TaskMessage::Completed(true)),
        TaskId { value: 0 },
    );
    assert!(state.tasks[0].completed());
    assert_eq!(commands.len(), 1);
    assert!(matches!(commands[0], Command::AnnounceCompletion));
}

#[test]
fn reopening_a_task_announces_nothing() {
    let id = TaskId { value: 5 };
    let mut state = state_with(vec![Task::from_parts(id, "walk".to_string(), true)]);
    state.saving = true;
    let commands = state.handle(
        Message::TaskMessage(id, TaskMessage::Completed(false)),
        TaskId { value: 0 },
    );
    assert!(!state.tasks[0].completed());
    assert!(commands.is_empty());
}

#[test]
fn editing_asks_for_the_edit_field_of_that_position() {
    let mut state = state_with(vec![
        Task::from_parts(TaskId { value: 1 }, "a".to_string(), false),
        Task::from_parts(TaskId { value: 2 }, "b".to_string(), false),
        Task::from_parts(TaskId { value: 3 }, "c".to_string(), false),
    ]);
    state.saving = true;
    let commands = state.handle(
        Message::TaskMessage(TaskId { value: 3 }, TaskMessage::Edit),
        TaskId { value: 0 },
    );
    assert_eq!(commands.len(), 1);
    assert!(matches!(commands[0], Command::EditTask(2)));
    assert_eq!(*state.tasks[2].state(), TaskState::Editing);
    assert_eq!(*state.tasks[0].state(), TaskState::Idle);
    assert_eq!(*state.tasks[1].state(), TaskState::Idle);
}

#[test]
fn empty_description_is_not_committed() {
    let id = TaskId { value: 8 };
    let mut state = state_with(vec![Task::from_parts(id, "text".to_string(), false)]);
    let unused = TaskId { value: 0 };
    state.handle(Message::TaskMessage(id, TaskMessage::Edit), unused);
    state.handle(
        Message::TaskMessage(id, TaskMessage::DescriptionEdited(String::new())),
        unused,
    );
    assert_eq!(state.tasks[0].description(), "");
    state.handle(Message::TaskMessage(id, TaskMessage::FinishEdition), unused);
    assert_eq!(state.tasks.len(), 1);
    assert_eq!(*state.tasks[0].state(), TaskState::Editing);

    state.handle(
        Message::TaskMessage(id, TaskMessage::DescriptionEdited("again".to_string())),
        unused,
    );
    state.handle(Message::TaskMessage(id, TaskMessage::FinishEdition), unused);
    assert_eq!(*state.tasks[0].state(), TaskState::Idle);
    assert_eq!(state.tasks[0].description(), "again");
}

#[test]
fn delete_removes_that_task_and_keeps_the_order() {
    let mut state = state_with(vec![
        Task::from_parts(TaskId { value: 1 }, "a".to_string(), false),
        Task::from_parts(TaskId { value: 2 }, "b".to_string(), true),
        Task::from_parts(TaskId { value: 3 }, "c".to_string(), false),
    ]);
    let commands = state.handle(
        Message::TaskMessage(TaskId { value: 2 }, TaskMessage::Delete),
        TaskId { value: 0 },
    );
    assert_eq!(state.tasks.len(), 2);
    assert_eq!(state.tasks[0].id(), TaskId { value: 1 });
    assert_eq!(state.tasks[1].id(), TaskId { value: 3 });
    assert_eq!(saves(&commands).len(), 1);
    assert_eq!(saves(&commands)[0].tasks.len(), 2);
}

#[test]
fn message_to_an_unknown_task_changes_no_task() {
    let mut state = state_with(vec![Task::from_parts(
        TaskId { value: 1 },
        "a".to_string(),
        false,
    )]);
    state.saving = true;
    let commands = state.handle(
        Message::TaskMessage(TaskId { value: 77 }, TaskMessage::Delete),
        TaskId { value: 0 },
    );
    assert!(commands.is_empty());
    assert_eq!(state.tasks.len(), 1);
    let commands = state.handle(
        Message::TaskMessage(TaskId { value: 77 }, TaskMessage::Completed(true)),
        TaskId { value: 0 },
    );
    assert!(commands.is_empty());
    assert!(!state.tasks[0].completed());
    assert!(state.dirty);
}

#[test]
fn changes_during_a_save_are_gathered_into_the_next_one() {
    let mut todos = started_empty();
    let commands = todos.update(Message::InputChanged("a".to_string()));
    assert_eq!(saves(&commands).len(), 1);
    let commands = todos.update(Message::InputChanged("ab".to_string()));
    assert!(saves(&commands).is_empty());
    let commands = todos.update(Message::FilterChanged(Filter::Active));
    assert!(saves(&commands).is_empty());
    assert!(loaded(&todos).dirty);
    assert!(loaded(&todos).saving);

    let commands = todos.update(Message::Saved(Ok(())));
    let gathered = saves(&commands);
    assert_eq!(gathered.len(), 1);
    assert_eq!(gathered[0].input_value, "ab");
    assert_eq!(gathered[0].filter, Filter::Active);
    assert!(!loaded(&todos).dirty);
    assert!(loaded(&todos).saving);

    let commands = todos.update(Message::Saved(Ok(())));
    assert!(commands.is_empty());
    assert!(!loaded(&todos).dirty);
    assert!(!loaded(&todos).saving);
}

#[test]
fn failed_save_is_not_retried_by_itself() {
    let mut todos = started_empty();
    let commands = todos.update(Message::InputChanged("a".to_string()));
    assert_eq!(saves(&commands).len(), 1);
    let commands = todos.update(Message::Saved(Err(SaveError::Write)));
    assert!(commands.is_empty());
    assert!(!loaded(&todos).dirty);
    assert!(!loaded(&todos).saving);
    let commands = todos.update(Message::InputHovered);
    assert_eq!(saves(&commands).len(), 1);
    assert!(loaded(&todos).input_hovered);
}

#[test]
fn autosave_twice_takes_one_snapshot() {
    let mut state = State::new(Language::English);
    state.dirty = true;
    let first = state.autosave();
    assert!(first.is_some());
    assert!(!state.dirty);
    assert!(state.saving);
    let second = state.autosave();
    assert!(second.is_none());
    assert!(!state.dirty);
    assert!(state.saving);
}

#[test]
fn autosave_waits_while_a_save_is_in_flight() {
    let mut state = State::new(Language::English);
    state.dirty = true;
    state.saving = true;
    assert!(state.autosave().is_none());
    assert!(state.dirty);
    assert!(state.saving);
}

#[test]
fn autosave_on_a_clean_state_does_nothing() {
    let mut state = State::new(Language::English);
    assert!(state.autosave().is_none());
    assert!(!state.dirty);
    assert!(!state.saving);
}

#[test]
fn late_answer_to_a_load_is_dropped() {
    let mut todos = started_empty();
    todos.update(Message::InputChanged("kept".to_string()));
    todos.update(Message::Saved(Ok(())));
    let late = SavedState {
        input_value: "late".to_string(),
        filter: Filter::Completed,
        tasks: vec![Task::from_parts(TaskId { value: 1 }, "x".to_string(), false)],
    };
    let commands = todos.update(Message::Loaded(Ok(late)));
    assert!(commands.is_empty());
    let state = loaded(&todos);
    assert_eq!(state.input_value, "kept");
    assert_eq!(state.filter, Filter::All);
    assert!(state.tasks.is_empty());
    assert!(!state.dirty);
    assert!(!state.saving);
}

#[test]
fn tab_moves_the_focus() {
    let mut state = State::new(Language::English);
    state.saving = true;
    let commands = state.handle(Message::TabPressed { shift: false }, TaskId { value: 0 });
    assert_eq!(commands.len(), 1);
    assert!(matches!(commands[0], Command::FocusNext));
    let commands = state.handle(Message::TabPressed { shift: true }, TaskId { value: 0 });
    assert_eq!(commands.len(), 1);
    assert!(matches!(commands[0], Command::FocusPrevious));
}

#[test]
fn window_mode_and_language_are_passed_on() {
    let mut state = State::new(Language::English);
    state.saving = true;
    let commands = state.handle(
        Message::ToggleFullscreen(WindowMode::Fullscreen),
        TaskId { value: 0 },
    );
    assert_eq!(commands.len(), 1);
    assert!(matches!(
        commands[0],
        Command::SetWindowMode(WindowMode::Fullscreen)
    ));
    let commands = state.handle(Message::LanguageChanged(Language::Korean), TaskId { value: 0 });
    assert_eq!(commands.len(), 1);
    assert!(matches!(
        commands[0],
        Command::SelectLanguage(Language::Korean)
    ));
    assert_eq!(state.language, Language::Korean);
}

#[test]
fn request_comes_before_the_save() {
    let mut state = State::new(Language::English);
    let commands = state.handle(Message::LanguageChanged(Language::Korean), TaskId { value: 0 });
    assert_eq!(commands.len(), 2);
    assert!(matches!(
        commands[0],
        Command::SelectLanguage(Language::Korean)
    ));
    assert!(matches!(commands[1], Command::Save(_)));
}

#[test]
fn hovering_is_tracked() {
    let mut state = State::new(Language::English);
    state.handle(Message::InputHovered, TaskId { value: 0 });
    assert!(state.input_hovered);
    state.handle(Message::InputUnhovered, TaskId { value: 0 });
    assert!(!state.input_hovered);
}

#[test]
fn new_tasks_get_identifiers_of_their_own() {
    let mut todos = started_empty();
    for text in ["one", "two", "three", "four"] {
        todos.update(Message::InputChanged(text.to_string()));
        todos.update(Message::CreateTask);
    }
    let state = loaded(&todos);
    assert_eq!(state.tasks.len(), 4);
    for i in 0..state.tasks.len() {
        for j in (i + 1)..state.tasks.len() {
            assert_ne!(state.tasks[i].id(), state.tasks[j].id());
        }
    }
    assert_eq!(state.tasks[0].description(), "one");
    assert_eq!(state.tasks[3].description(), "four");
}

#[test]
fn update_only_draws_an_identifier_for_a_new_task() {
    let mut todos = started_empty();
    assert!(!todos.creates_task(&Message::CreateTask));
    todos.update(Message::InputChanged("x".to_string()));
    assert!(todos.creates_task(&Message::CreateTask));
    assert!(!todos.creates_task(&Message::InputHovered));
    assert!(!Todos::Loading.creates_task(&Message::CreateTask));
}

#[test]
fn store_is_awaited_only_while_loading() {
    let answer = Message::Loaded(Err(LoadError::File));
    assert!(Todos::Loading.awaits(&answer));
    assert!(!Todos::Loading.awaits(&Message::CreateTask));
    assert!(!Todos::Loading.awaits(&Message::Saved(Ok(()))));
    assert!(!started_empty().awaits(&answer));
}

#[test]
fn position_is_the_first_with_that_identifier() {
    let state = state_with(vec![
        Task::from_parts(TaskId { value: 4 }, "a".to_string(), false),
        Task::from_parts(TaskId { value: 6 }, "b".to_string(), false),
        Task::from_parts(TaskId { value: 6 }, "c".to_string(), false),
    ]);
    assert_eq!(state.position(TaskId { value: 4 }), Some(0));
    assert_eq!(state.position(TaskId { value: 6 }), Some(1));
    assert_eq!(state.position(TaskId { value: 5 }), None);
}

#[test]
fn title_shows_unsaved_changes() {
    assert_eq!(Todos::Loading.title("Todos"), "Todos");
    let mut state = State::new(Language::English);
    assert_eq!(
        Todos::Loaded(State::new(Language::English)).title("Todos"),
        "Todos"
    );
    state.dirty = true;
    let todos = Todos::Loaded(state);
    assert!(todos.dirty());
    assert_eq!(todos.title("Todos"), "Todos...");
}

#[test]
fn snapshot_holds_draft_filter_and_tasks() {
    let mut state = state_with(vec![Task::from_parts(
        TaskId { value: 1 },
        "a".to_string(),
        true,
    )]);
    state.input_value = "draft".to_string();
    state.filter = Filter::Active;
    let saved = state.snapshot();
    assert_eq!(saved.input_value, "draft");
    assert_eq!(saved.filter, Filter::Active);
    assert_eq!(saved.tasks.len(), 1);
    assert_eq!(saved.tasks[0].id(), TaskId { value: 1 });
    assert_eq!(saved.tasks[0].description(), "a");
    assert!(saved.tasks[0].completed());
}
