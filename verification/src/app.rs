//! The controller: every incoming message is turned into the next state and
//! the commands that the embedding program is to run.
//!
//! The application starts in `Loading` and becomes `Loaded` when the answer
//! of the store arrives, whatever that answer is. From then on every message
//! is applied to the state, marks it dirty unless it is the completion of a
//! load or a save, and is followed by the autosave check.

use crate::filter::Filter;
use crate::identity::{is_random_uuid, TaskId};
use crate::language::Language;
use crate::persistence::{LoadError, SaveError, SavedModel, SavedState};
use crate::state::{position_of, State, StateModel};
use crate::task::{announces_completion, Task, TaskMessage, TaskModel};
use vstd::prelude::*;

verus! {

/// How the window is shown.
#[derive(Clone, Copy, Debug, PartialEq, Eq, Structural)]
pub enum WindowMode {
    Windowed,
    Fullscreen,
}

/// What can happen to the application.
#[derive(Debug)]
pub enum Message {
    /// The store answered the initial load.
    Loaded(Result<SavedState, LoadError>),
    /// The store answered a save.
    Saved(Result<(), SaveError>),
    /// The draft of the next task was edited.
    InputChanged(String),
    InputHovered,
    InputUnhovered,
    /// The draft was submitted.
    CreateTask,
    FilterChanged(Filter),
    /// Something happened to the task with this identifier.
    TaskMessage(TaskId, TaskMessage),
    TabPressed { shift: bool },
    ToggleFullscreen(WindowMode),
    LanguageChanged(Language),
}

impl Clone for Message {
    /// The same message; a snapshot it carries is copied task by task.
    fn clone(&self) -> (copy: Message)
        ensures
            match (*self, copy) {
                (Message::Loaded(Ok(saved)), Message::Loaded(Ok(copied))) => copied@ == saved@,
                _ => copy == *self,
            },
    {
        match self {
            Message::Loaded(Ok(saved)) => Message::Loaded(Ok(saved.clone())),
            Message::Loaded(Err(error)) => Message::Loaded(Err(*error)),
            Message::Saved(outcome) => Message::Saved(*outcome),
            Message::InputChanged(value) => Message::InputChanged(value.clone()),
            Message::InputHovered => Message::InputHovered,
            Message::InputUnhovered => Message::InputUnhovered,
            Message::CreateTask => Message::CreateTask,
            Message::FilterChanged(filter) => Message::FilterChanged(*filter),
            Message::TaskMessage(id, message) => Message::TaskMessage(*id, message.clone()),
            Message::TabPressed { shift } => Message::TabPressed { shift: *shift },
            Message::ToggleFullscreen(mode) => Message::ToggleFullscreen(*mode),
            Message::LanguageChanged(language) => Message::LanguageChanged(*language),
        }
    }
}

/// A key that the application has a shortcut on, or any other.
#[derive(Clone, Copy, Debug, PartialEq, Eq, Structural)]
pub enum ShortcutKey {
    Tab,
    ArrowUp,
    ArrowDown,
    Other,
}

/// The modifier keys held down with a key: whether shift is among them, and
/// whether any other is.
#[derive(Clone, Copy, Debug, PartialEq, Eq, Structural)]
pub struct Modifiers {
    pub shift: bool,
    pub others: bool,
}

impl Message {
    /// The message a key press stands for, if any. Tab moves the focus,
    /// backwards with shift, whatever else is held. Shift alone with the up
    /// arrow asks for the full screen, with the down arrow for the window.
    pub open spec fn spec_for_key(key: ShortcutKey, modifiers: Modifiers) -> Option<Message> {
        match key {
            ShortcutKey::Tab => Some(Message::TabPressed { shift: modifiers.shift }),
            ShortcutKey::ArrowUp => if modifiers.shift && !modifiers.others {
                Some(Message::ToggleFullscreen(WindowMode::Fullscreen))
            } else {
                None
            },
            ShortcutKey::ArrowDown => if modifiers.shift && !modifiers.others {
                Some(Message::ToggleFullscreen(WindowMode::Windowed))
            } else {
                None
            },
            ShortcutKey::Other => None,
        }
    }

    /// The message a key press stands for, if any.
    pub fn for_key(key: ShortcutKey, modifiers: Modifiers) -> (message: Option<Message>)
        ensures
            message == Message::spec_for_key(key, modifiers),
    {
        let shift_alone = modifiers.shift && !modifiers.others;
        match key {
            ShortcutKey::Tab => Some(Message::TabPressed { shift: modifiers.shift }),
            ShortcutKey::ArrowUp => if shift_alone {
                Some(Message::ToggleFullscreen(WindowMode::Fullscreen))
            } else {
                None
            },
            ShortcutKey::ArrowDown => if shift_alone {
                Some(Message::ToggleFullscreen(WindowMode::Windowed))
            } else {
                None
            },
            ShortcutKey::Other => None,
        }
    }
}

/// What the embedding program is asked to do.
#[derive(Debug)]
pub enum Command {
    /// Read the snapshot from the store and answer with `Message::Loaded`.
    Load,
    /// Write this snapshot to the store and answer with `Message::Saved`.
    Save(SavedState),
    /// Focus the input of the draft.
    FocusInput,
    /// Focus the edit field of the task at this position and select its text.
    EditTask(usize),
    FocusNext,
    FocusPrevious,
    SetWindowMode(WindowMode),
    /// Have the strings resolved in this language from now on.
    SelectLanguage(Language),
    /// Let the user hear that a task was completed.
    AnnounceCompletion,
}

/// What a command is, as the contracts see it.
pub enum CommandModel {
    Load,
    Save(SavedModel),
    FocusInput,
    EditTask(usize),
    FocusNext,
    FocusPrevious,
    SetWindowMode(WindowMode),
    SelectLanguage(Language),
    AnnounceCompletion,
}

impl View for Command {
    type V = CommandModel;

    open spec fn view(&self) -> CommandModel {
        match self {
            Command::Load => CommandModel::Load,
            Command::Save(saved) => CommandModel::Save(saved@),
            Command::FocusInput => CommandModel::FocusInput,
            Command::EditTask(i) => CommandModel::EditTask(*i),
            Command::FocusNext => CommandModel::FocusNext,
            Command::FocusPrevious => CommandModel::FocusPrevious,
            Command::SetWindowMode(mode) => CommandModel::SetWindowMode(*mode),
            Command::SelectLanguage(language) => CommandModel::SelectLanguage(*language),
            Command::AnnounceCompletion => CommandModel::AnnounceCompletion,
        }
    }
}

/// The models of a sequence of commands, in order.
pub open spec fn command_models(commands: Seq<Command>) -> Seq<CommandModel> {
    commands.map_values(|command: Command| command@)
}

/// The number of `Save` commands among `commands`.
pub open spec fn save_count(commands: Seq<CommandModel>) -> nat
    decreases commands.len(),
{
    if commands.len() == 0 {
        0
    } else {
        save_count(commands.drop_last()) + if commands.last() is Save {
            1nat
        } else {
            0nat
        }
    }
}

/// The application: waiting for the store's answer, or loaded.
#[derive(Debug)]
pub enum Todos {
    Loading,
    Loaded(State),
}

/// What the application is, as the contracts see it.
pub enum TodosModel {
    Loading,
    Loaded(StateModel),
}

impl View for Todos {
    type V = TodosModel;

    open spec fn view(&self) -> TodosModel {
        match self {
            Todos::Loading => TodosModel::Loading,
            Todos::Loaded(state) => TodosModel::Loaded(state@),
        }
    }
}

/// Whether `message` marks the state dirty. Every message does, but for the
/// completion of a load or of a save.
pub open spec fn marks_dirty(message: Message) -> bool {
    !(message is Loaded) && !(message is Saved)
}

impl StateModel {
    /// The state with the draft submitted under identifier `fresh`: a
    /// non-empty draft becomes a new open task at the end of the list and the
    /// draft is cleared; an empty draft changes nothing.
    pub open spec fn submitted(self, fresh: TaskId) -> StateModel {
        if self.input_value.len() == 0 {
            self
        } else {
            StateModel {
                tasks: self.tasks.push(TaskModel::from_parts(fresh, self.input_value, false)),
                input_value: Seq::empty(),
                ..self
            }
        }
    }

    /// The state with `message` delivered to the first task with identifier
    /// `id`: `Delete` removes that task, every other message changes it in
    /// place. Where no task has that identifier nothing changes.
    pub open spec fn delivered(self, id: TaskId, message: TaskMessage) -> StateModel {
        match position_of(self.tasks, id) {
            Some(i) => if message is Delete {
                StateModel { tasks: self.tasks.remove(i), ..self }
            } else {
                StateModel { tasks: self.tasks.update(i, self.tasks[i].after(message)), ..self }
            },
            None => self,
        }
    }

    /// The state with `message` applied, before it is marked dirty and
    /// before the autosave check. The store is asked to load once, at the
    /// start; an answer that arrives when the application is loaded already
    /// is dropped, so that it cannot undo what has been done since.
    pub open spec fn applied(self, message: Message, fresh: TaskId) -> StateModel {
        match message {
            Message::Loaded(_) => self,
            Message::Saved(_) => StateModel { saving: false, ..self },
            Message::InputChanged(value) => StateModel { input_value: value@, ..self },
            Message::InputHovered => StateModel { input_hovered: true, ..self },
            Message::InputUnhovered => StateModel { input_hovered: false, ..self },
            Message::CreateTask => self.submitted(fresh),
            Message::FilterChanged(filter) => StateModel { filter, ..self },
            Message::TaskMessage(id, task_message) => self.delivered(id, task_message),
            Message::TabPressed { shift } => self,
            Message::ToggleFullscreen(_) => self,
            Message::LanguageChanged(language) => StateModel { language, ..self },
        }
    }

    /// The state marked dirty where `message` calls for it.
    pub open spec fn marked(self, message: Message) -> StateModel {
        if marks_dirty(message) {
            StateModel { dirty: true, ..self }
        } else {
            self
        }
    }

    /// The commands that `message` itself asks for, the save apart.
    pub open spec fn requested(self, message: Message) -> Seq<CommandModel> {
        match message {
            Message::TaskMessage(id, task_message) => match position_of(self.tasks, id) {
                Some(i) => if announces_completion(task_message) {
                    seq![CommandModel::AnnounceCompletion]
                } else if task_message is Edit {
                    seq![CommandModel::EditTask(i as usize)]
                } else {
                    Seq::empty()
                },
                None => Seq::empty(),
            },
            Message::TabPressed { shift } => if shift {
                seq![CommandModel::FocusPrevious]
            } else {
                seq![CommandModel::FocusNext]
            },
            Message::ToggleFullscreen(mode) => seq![CommandModel::SetWindowMode(mode)],
            Message::LanguageChanged(language) => seq![CommandModel::SelectLanguage(language)],
            _ => Seq::empty(),
        }
    }

    /// The save command that the autosave check issues, if a snapshot is due.
    pub open spec fn save_commands(self) -> Seq<CommandModel> {
        match self.flush() {
            Some(saved) => seq![CommandModel::Save(saved)],
            None => Seq::empty(),
        }
    }

    /// The state after `message`: applied, marked dirty, and put through the
    /// autosave check.
    pub open spec fn after(self, message: Message, fresh: TaskId) -> StateModel {
        self.applied(message, fresh).marked(message).flushed()
    }

    /// The commands after `message`: what the message asks for, then the save
    /// if the autosave check issues one.
    pub open spec fn commands(self, message: Message, fresh: TaskId) -> Seq<CommandModel> {
        self.requested(message) + self.applied(message, fresh).marked(message).save_commands()
    }

    /// Whether `message` makes a new task, and so uses up the fresh
    /// identifier.
    pub open spec fn creates_task(self, message: Message) -> bool {
        message is CreateTask && self.input_value.len() > 0
    }
}

impl TodosModel {
    /// The application after `message`.
    ///
    /// While loading, the store's answer makes the application loaded: with
    /// the snapshot on success, empty on failure, in the language `locale`.
    /// Every other message is dropped. Once loaded, the message goes to the
    /// state; `fresh` is the identifier a new task gets.
    pub open spec fn after(self, message: Message, fresh: TaskId, locale: Language) -> TodosModel {
        match self {
            TodosModel::Loading => match message {
                Message::Loaded(Ok(saved)) => TodosModel::Loaded(
                    StateModel::restored(saved@, locale),
                ),
                Message::Loaded(Err(_)) => TodosModel::Loaded(StateModel::empty(locale)),
                _ => TodosModel::Loading,
            },
            TodosModel::Loaded(state) => TodosModel::Loaded(state.after(message, fresh)),
        }
    }

    /// The commands after `message`. While loading, the draft's input is
    /// focused and nothing else is asked for; in particular nothing is saved.
    pub open spec fn commands(self, message: Message, fresh: TaskId) -> Seq<CommandModel> {
        match self {
            TodosModel::Loading => seq![CommandModel::FocusInput],
            TodosModel::Loaded(state) => state.commands(message, fresh),
        }
    }

    /// Whether `message` makes a new task.
    pub open spec fn creates_task(self, message: Message) -> bool {
        match self {
            TodosModel::Loading => false,
            TodosModel::Loaded(state) => state.creates_task(message),
        }
    }

    /// Whether there are changes that no snapshot has taken up yet.
    pub open spec fn dirty(self) -> bool {
        match self {
            TodosModel::Loading => false,
            TodosModel::Loaded(state) => state.dirty,
        }
    }

    /// Whether no two tasks share an identifier.
    pub open spec fn has_unique_ids(self) -> bool {
        match self {
            TodosModel::Loading => true,
            TodosModel::Loaded(state) => state.has_unique_ids(),
        }
    }

    /// What is appended to the window's title: a mark while there are
    /// changes that no snapshot has taken up yet.
    pub open spec fn title_suffix(self) -> Seq<char> {
        if self.dirty() {
            "..."@
        } else {
            ""@
        }
    }
}

impl State {
    /// Submits the draft: a non-empty draft becomes a new open task with
    /// identifier `fresh`, an empty one changes nothing.
    pub fn submit(&mut self, fresh: TaskId)
        ensures
            final(self)@ == old(self)@.submitted(fresh),
    {
        if !self.input_value.as_str().is_empty() {
            let description = self.input_value.clone();
            self.input_value = String::new();
            self.tasks.push(Task::with_id(fresh, description));
            assert(self@.tasks =~= old(self)@.tasks.push(
                TaskModel::from_parts(fresh, old(self)@.input_value, false),
            ));
        }
    }

    /// Delivers `message` to the first task with identifier `id` and says
    /// what is to be done about it.
    pub fn deliver(&mut self, id: TaskId, message: TaskMessage) -> (commands: Vec<Command>)
        ensures
            final(self)@ == old(self)@.delivered(id, message),
            command_models(commands@) == old(self)@.requested(Message::TaskMessage(id, message)),
    {
        let mut commands: Vec<Command> = Vec::new();
        match self.position(id) {
            Some(i) => {
                match message {
                    TaskMessage::Delete => {
                        self.tasks.remove(i);
                        assert(self@.tasks =~= old(self)@.tasks.remove(i as int));
                    },
                    TaskMessage::Edit => {
                        self.tasks[i].update(TaskMessage::Edit);
                        commands.push(Command::EditTask(i));
                        assert(self@.tasks =~= old(self)@.tasks.update(
                            i as int,
                            old(self)@.tasks[i as int].after(message),
                        ));
                    },
                    other => {
                        let announce = self.tasks[i].update(other);
                        if announce {
                            commands.push(Command::AnnounceCompletion);
                        }
                        assert(self@.tasks =~= old(self)@.tasks.update(
                            i as int,
                            old(self)@.tasks[i as int].after(message),
                        ));
                    },
                }
            },
            None => {},
        }
        assert(command_models(commands@) =~= old(self)@.requested(
            Message::TaskMessage(id, message),
        ));
        commands
    }

    /// Handles `message` in the loaded application: applies it, marks the
    /// state dirty unless the message is the completion of a load or a save,
    /// and runs the autosave check. `fresh` is the identifier of the task
    /// that a submitted draft becomes.
    pub fn handle(&mut self, message: Message, fresh: TaskId) -> (commands: Vec<Command>)
        ensures
            final(self)@ == old(self)@.after(message, fresh),
            command_models(commands@) == old(self)@.commands(message, fresh),
    {
        let mut commands: Vec<Command> = Vec::new();
        let mut exempt = false;
        match message {
            Message::Loaded(_) => {
                exempt = true;
            },
            Message::Saved(_) => {
                self.saving = false;
                exempt = true;
            },
            Message::InputChanged(value) => {
                self.input_value = value;
            },
            Message::InputHovered => {
                self.input_hovered = true;
            },
            Message::InputUnhovered => {
                self.input_hovered = false;
            },
            Message::CreateTask => {
                self.submit(fresh);
            },
            Message::FilterChanged(filter) => {
                self.filter = filter;
            },
            Message::TaskMessage(id, task_message) => {
                commands = self.deliver(id, task_message);
            },
            Message::TabPressed { shift } => {
                if shift {
                    commands.push(Command::FocusPrevious);
                } else {
                    commands.push(Command::FocusNext);
                }
            },
            Message::ToggleFullscreen(mode) => {
                commands.push(Command::SetWindowMode(mode));
            },
            Message::LanguageChanged(language) => {
                self.language = language;
                commands.push(Command::SelectLanguage(language));
            },
        }
        if !exempt {
            self.dirty = true;
        }
        let ghost marked = self@;
        match self.autosave() {
            Some(saved) => {
                commands.push(Command::Save(saved));
            },
            None => {},
        }
        assert(command_models(commands@) =~= old(self)@.requested(message)
            + marked.save_commands());
        commands
    }
}

impl Todos {
    /// The application as it starts: loading, with the load asked for.
    pub fn new() -> (start: (Todos, Command))
        ensures
            start.0@ == TodosModel::Loading,
            start.1@ == CommandModel::Load,
    {
        (Todos::Loading, Command::Load)
    }

    /// Whether there are changes that no snapshot has taken up yet.
    pub fn dirty(&self) -> (dirty: bool)
        ensures
            dirty == self@.dirty(),
    {
        match self {
            Todos::Loading => false,
            Todos::Loaded(state) => state.dirty,
        }
    }

    /// The window's title: the application's name, followed by a mark while
    /// there are unsaved changes.
    pub fn title(&self, name: &str) -> (title: String)
        ensures
            title@ == name@ + self@.title_suffix(),
    {
        let suffix = if self.dirty() {
            "..."
        } else {
            ""
        };
        let mut title = name.to_owned();
        title.append(suffix);
        title
    }

    /// Whether handling `message` makes a new task.
    pub fn creates_task(&self, message: &Message) -> (creates: bool)
        ensures
            creates == self@.creates_task(*message),
    {
        match self {
            Todos::Loading => false,
            Todos::Loaded(state) => match message {
                Message::CreateTask => !state.input_value.as_str().is_empty(),
                _ => false,
            },
        }
    }

    /// Whether `message` is the answer of the store that the application is
    /// waiting for.
    pub fn awaits(&self, message: &Message) -> (awaited: bool)
        ensures
            awaited == (self@ is Loading && *message is Loaded),
    {
        match self {
            Todos::Loading => match message {
                Message::Loaded(_) => true,
                _ => false,
            },
            Todos::Loaded(_) => false,
        }
    }

    /// Handles `message`, given the identifier that a new task gets and the
    /// language that a freshly loaded state starts in.
    pub fn step(&mut self, message: Message, fresh: TaskId, locale: Language) -> (commands: Vec<
        Command,
    >)
        ensures
            final(self)@ == old(self)@.after(message, fresh, locale),
            command_models(commands@) == old(self)@.commands(message, fresh),
    {
        match self {
            Todos::Loading => {
                match message {
                    Message::Loaded(Ok(saved)) => {
                        *self = Todos::Loaded(State::restore(saved, locale));
                    },
                    Message::Loaded(Err(_)) => {
                        *self = Todos::Loaded(State::new(locale));
                    },
                    _ => {},
                }
                let mut commands: Vec<Command> = Vec::new();
                commands.push(Command::FocusInput);
                commands
            },
            Todos::Loaded(state) => state.handle(message, fresh),
        }
    }

    /// Handles `message`. A new task gets a fresh random identifier, and a
    /// freshly loaded state starts in the language the system asks for; but
    /// for these two, the outcome is fixed by the state and the message.
    pub fn update(&mut self, message: Message) -> (commands: Vec<Command>)
        ensures
            exists|fresh: TaskId, locale: Language|
                {
                    &&& final(self)@ == old(self)@.after(message, fresh, locale)
                    &&& command_models(commands@) == old(self)@.commands(message, fresh)
                    &&& old(self)@.creates_task(message) ==> is_random_uuid(fresh.value)
                },
    {
        let fresh = if self.creates_task(&message) {
            TaskId::fresh()
        } else {
            TaskId { value: 0 }
        };
        let locale = if self.awaits(&message) {
            Language::default()
        } else {
            Language::English
        };
        self.step(message, fresh, locale)
    }
}

} // verus!
