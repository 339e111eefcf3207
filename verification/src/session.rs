//! The course of one run.
//!
//! A run touches the outside world in a fixed order: it finds the
//! configuration file or writes a fresh one, reads it, makes sure the task
//! file is there, and then does what the command asks. A `Session` decides
//! each step and does none of them itself: it hands out an `Action`, and
//! whoever performed the action hands back an `Event` that tells how it went.

use crate::config::{
    config_of_text,
    config_path_under,
    fresh_config_is_sound,
    fresh_config_text,
    lemma_fresh_config_is_flat,
    path_entry,
    task_path_under,
    loaded_view,
    Config,
    ConfigError,
    ConfigView,
};
use crate::failure::{Failure, FailureView, FileStep};
use crate::lines::lines_of;
use crate::outside::{home_directory, toml_document};
use crate::parser::{
    lemma_faulty_line_fails,
    outcome_view,
    parse_todo_txt,
    reading_of,
    tasks_of,
    TaskFileError,
};
use crate::render::{print_tasks, shown_all, StyledLine, StyledLineView};
use crate::task::{Task, TaskView};
use vstd::prelude::*;

verus! {

/// What a run is asked to do.
#[derive(Clone, Copy, Debug, PartialEq, Eq, Structural)]
pub enum Command {
    /// Show the tasks. This is what a run does when no command is given.
    List,
    /// Add a task. Not supported yet.
    Add,
    /// Search the tasks. Not supported yet.
    Search,
}

/// How the program was called.
#[derive(Clone, Debug, PartialEq, Eq)]
pub struct Invocation {
    /// The configuration file to use instead of the one in the home
    /// directory.
    pub config: Option<String>,
    /// The task file to use instead of the one that the configuration names.
    pub path: Option<String>,
    pub command: Command,
}

/// What an `Invocation` holds, as mathematical values.
pub struct InvocationView {
    pub config: Option<Seq<char>>,
    pub path: Option<Seq<char>>,
    pub command: Command,
}

impl View for Invocation {
    type V = InvocationView;

    open spec fn view(&self) -> InvocationView {
        InvocationView {
            config: self.config.deep_view(),
            path: self.path.deep_view(),
            command: self.command,
        }
    }
}

/// How a run ended.
#[derive(Clone, Debug, PartialEq, Eq)]
pub enum Outcome {
    /// The tasks were shown.
    Listed,
    /// The command is one that nothing is done for yet.
    NotSupported(Command),
    /// The run stopped early.
    Failed(Failure),
}

/// What an `Outcome` holds, as mathematical values.
pub enum OutcomeView {
    Listed,
    NotSupported(Command),
    Failed(FailureView),
}

impl View for Outcome {
    type V = OutcomeView;

    open spec fn view(&self) -> OutcomeView {
        match self {
            Outcome::Listed => OutcomeView::Listed,
            Outcome::NotSupported(command) => OutcomeView::NotSupported(*command),
            Outcome::Failed(failure) => OutcomeView::Failed(failure@),
        }
    }
}

/// What a session asks to have done next.
#[derive(Clone, Debug, PartialEq, Eq)]
pub enum Action {
    /// Tell whether a file exists at `path`. Answered by `Event::Found`.
    Probe { path: String },
    /// Create the file at `path` and write `contents` to it. Answered by
    /// `Event::Done`.
    Write { path: String, contents: String },
    /// Read the file at `path` as text. Answered by `Event::Text`.
    ReadText { path: String },
    /// Read the file at `path` as bytes. Answered by `Event::Bytes`.
    ReadBytes { path: String },
    /// Show these lines on the terminal, in order. Answered by `Event::Done`.
    Show { lines: Vec<StyledLine> },
    /// Nothing more: the run is over.
    Stop(Outcome),
}

/// What an `Action` holds, as mathematical values.
pub enum ActionView {
    Probe { path: Seq<char> },
    Write { path: Seq<char>, contents: Seq<char> },
    ReadText { path: Seq<char> },
    ReadBytes { path: Seq<char> },
    Show { lines: Seq<StyledLineView> },
    Stop(OutcomeView),
}

impl View for Action {
    type V = ActionView;

    open spec fn view(&self) -> ActionView {
        match self {
            Action::Probe { path } => ActionView::Probe { path: path@ },
            Action::Write { path, contents } => ActionView::Write {
                path: path@,
                contents: contents@,
            },
            Action::ReadText { path } => ActionView::ReadText { path: path@ },
            Action::ReadBytes { path } => ActionView::ReadBytes { path: path@ },
            Action::Show { lines } => ActionView::Show { lines: lines.deep_view() },
            Action::Stop(outcome) => ActionView::Stop(outcome@),
        }
    }
}

/// How an action went.
#[derive(Clone, Debug, PartialEq, Eq)]
pub enum Event {
    /// Whether the probed file exists.
    Found(bool),
    /// The action was carried out.
    Done,
    /// The text of the file that was read.
    Text(String),
    /// The bytes of the file that was read.
    Bytes(Vec<u8>),
    /// The action failed at `step`, for the reason `cause`.
    Failed { step: FileStep, cause: String },
}

/// What an `Event` holds, as mathematical values.
pub enum EventView {
    Found(bool),
    Done,
    Text(Seq<char>),
    Bytes(Seq<u8>),
    Failed { step: FileStep, cause: Seq<char> },
}

impl View for Event {
    type V = EventView;

    open spec fn view(&self) -> EventView {
        match self {
            Event::Found(found) => EventView::Found(*found),
            Event::Done => EventView::Done,
            Event::Text(text) => EventView::Text(text@),
            Event::Bytes(bytes) => EventView::Bytes(bytes@),
            Event::Failed { step, cause } => EventView::Failed { step: *step, cause: cause@ },
        }
    }
}

/// What a session is waiting for.
#[derive(Clone, Copy, Debug, PartialEq, Eq, Structural)]
pub enum Phase {
    /// Whether the configuration file exists.
    ConfigProbe,
    /// The fresh configuration file to be written.
    ConfigWrite,
    /// The text of the configuration file.
    ConfigRead,
    /// Whether the task file exists.
    TaskProbe,
    /// The empty task file to be created.
    TaskCreate,
    /// The bytes of the task file.
    TaskRead,
    /// The tasks to be shown.
    Showing,
    /// Nothing: the run is over.
    Stopped,
}

/// A run in progress.
#[derive(Clone, Debug, PartialEq, Eq)]
pub struct Session {
    pub phase: Phase,
    pub command: Command,
    /// The home directory, where there is one.
    pub home: Option<String>,
    /// Where the configuration file is.
    pub config_path: String,
    /// The task file that the invocation named, if it named one.
    pub path_override: Option<String>,
    /// Where the task file is. Empty until the configuration has been read.
    pub task_path: String,
}

/// What a `Session` holds, as mathematical values.
pub struct SessionView {
    pub phase: Phase,
    pub command: Command,
    pub home: Option<Seq<char>>,
    pub config_path: Seq<char>,
    pub path_override: Option<Seq<char>>,
    pub task_path: Seq<char>,
}

impl View for Session {
    type V = SessionView;

    open spec fn view(&self) -> SessionView {
        SessionView {
            phase: self.phase,
            command: self.command,
            home: self.home.deep_view(),
            config_path: self.config_path@,
            path_override: self.path_override.deep_view(),
            task_path: self.task_path@,
        }
    }
}

impl SessionView {
    /// This session in another phase.
    pub open spec fn at(self, phase: Phase) -> SessionView {
        SessionView { phase, ..self }
    }

    /// The run ends with `outcome`.
    pub open spec fn stop(self, outcome: OutcomeView) -> (SessionView, ActionView) {
        (self.at(Phase::Stopped), ActionView::Stop(outcome))
    }

    /// The run ends early.
    pub open spec fn fail(self, failure: FailureView) -> (SessionView, ActionView) {
        self.stop(OutcomeView::Failed(failure))
    }

    /// The configuration file is there: read it.
    pub open spec fn read_config(self) -> (SessionView, ActionView) {
        (self.at(Phase::ConfigRead), ActionView::ReadText { path: self.config_path })
    }

    /// The configuration file is not there: write a fresh one that points
    /// into the home directory. The run ends where there is no home, and
    /// where the fresh text would not read back as the configuration it is
    /// meant to be.
    pub open spec fn write_config(self) -> (SessionView, ActionView) {
        match self.home {
            Some(home) => if fresh_config_is_sound(home) {
                (
                    self.at(Phase::ConfigWrite),
                    ActionView::Write { path: self.config_path, contents: fresh_config_text(home) },
                )
            } else {
                self.fail(FailureView::FreshConfig { task_path: task_path_under(home) })
            },
            None => self.fail(FailureView::NoHome),
        }
    }

    /// The task file is not there: create it, empty.
    pub open spec fn create_tasks(self) -> (SessionView, ActionView) {
        (
            self.at(Phase::TaskCreate),
            ActionView::Write { path: self.task_path, contents: Seq::empty() },
        )
    }

    /// The task file is there: do what the command asks. Only listing is
    /// supported; the other commands end the run and say so.
    pub open spec fn dispatch(self) -> (SessionView, ActionView) {
        match self.command {
            Command::List => (
                self.at(Phase::TaskRead),
                ActionView::ReadBytes { path: self.task_path },
            ),
            Command::Add => self.stop(OutcomeView::NotSupported(Command::Add)),
            Command::Search => self.stop(OutcomeView::NotSupported(Command::Search)),
        }
    }

    /// What follows once the configuration file has been loaded: with a
    /// configuration, the task file is settled (the one the invocation named,
    /// else the one the configuration names) and probed; without one, the run
    /// ends. A session that is not waiting for its configuration ends too.
    pub open spec fn with_config(self, loaded: Result<ConfigView, ConfigError>) -> (
        SessionView,
        ActionView,
    ) {
        if self.phase != Phase::ConfigRead {
            self.fail(FailureView::OutOfTurn)
        } else {
            match loaded {
                Ok(config) => {
                    let task_path = match self.path_override {
                        Some(path) => path,
                        None => config.path,
                    };
                    (
                        SessionView { phase: Phase::TaskProbe, task_path, ..self },
                        ActionView::Probe { path: task_path },
                    )
                },
                Err(reason) => self.fail(FailureView::Config { path: self.config_path, reason }),
            }
        }
    }

    /// What follows once the task file has been read: its tasks are shown,
    /// all of them, or the run ends and nothing is shown. A session that is
    /// not waiting for its tasks ends too.
    pub open spec fn with_tasks(self, outcome: Result<Seq<TaskView>, TaskFileError>) -> (
        SessionView,
        ActionView,
    ) {
        if self.phase != Phase::TaskRead {
            self.fail(FailureView::OutOfTurn)
        } else {
            match outcome {
                Ok(tasks) => (self.at(Phase::Showing), ActionView::Show { lines: shown_all(tasks) }),
                Err(error) => self.fail(FailureView::Tasks { path: self.task_path, error }),
            }
        }
    }

    /// The file that a session in this phase has asked to have written or
    /// read, if it has.
    pub open spec fn pending_file(self) -> Option<Seq<char>> {
        match self.phase {
            Phase::ConfigWrite | Phase::ConfigRead => Some(self.config_path),
            Phase::TaskCreate | Phase::TaskRead => Some(self.task_path),
            _ => None,
        }
    }

    /// The session after `event`, and the action it asks for next.
    pub open spec fn step(self, event: EventView) -> (SessionView, ActionView) {
        match event {
            EventView::Found(found) => match self.phase {
                Phase::ConfigProbe => if found {
                    self.read_config()
                } else {
                    self.write_config()
                },
                Phase::TaskProbe => if found {
                    self.dispatch()
                } else {
                    self.create_tasks()
                },
                _ => self.fail(FailureView::OutOfTurn),
            },
            EventView::Done => match self.phase {
                Phase::ConfigWrite => self.read_config(),
                Phase::TaskCreate => self.dispatch(),
                Phase::Showing => self.stop(OutcomeView::Listed),
                _ => self.fail(FailureView::OutOfTurn),
            },
            EventView::Text(text) => self.with_config(config_of_text(text)),
            EventView::Bytes(bytes) => self.with_tasks(tasks_of(bytes)),
            EventView::Failed { step, cause } => match self.pending_file() {
                Some(path) => self.fail(FailureView::File { step, path, cause }),
                None => self.fail(FailureView::OutOfTurn),
            },
        }
    }
}

/// How a run opens: the configuration file is the one the invocation names,
/// else `.todo.toml` in the home directory, and the first thing to learn is
/// whether it exists. With neither a named file nor a home the run ends at
/// once.
pub open spec fn opening(invocation: InvocationView, home: Option<Seq<char>>) -> (
    SessionView,
    ActionView,
) {
    let session = SessionView {
        phase: Phase::ConfigProbe,
        command: invocation.command,
        home,
        config_path: Seq::empty(),
        path_override: invocation.path,
        task_path: Seq::empty(),
    };
    match invocation.config {
        Some(path) => (
            SessionView { config_path: path, ..session },
            ActionView::Probe { path },
        ),
        None => match home {
            Some(home) => (
                SessionView { config_path: config_path_under(home), ..session },
                ActionView::Probe { path: config_path_under(home) },
            ),
            None => session.fail(FailureView::NoConfigPath),
        },
    }
}

impl Session {
    fn stop(self, outcome: Outcome) -> (next: (Session, Action))
        ensures
            (next.0@, next.1@) == self@.stop(outcome@),
    {
        let mut session = self;
        session.phase = Phase::Stopped;
        (session, Action::Stop(outcome))
    }

    fn fail(self, failure: Failure) -> (next: (Session, Action))
        ensures
            (next.0@, next.1@) == self@.fail(failure@),
    {
        self.stop(Outcome::Failed(failure))
    }

    fn read_config(self) -> (next: (Session, Action))
        ensures
            (next.0@, next.1@) == self@.read_config(),
    {
        let mut session = self;
        session.phase = Phase::ConfigRead;
        let path = session.config_path.clone();
        (session, Action::ReadText { path })
    }

    fn write_config(self) -> (next: (Session, Action))
        ensures
            (next.0@, next.1@) == self@.write_config(),
    {
        match &self.home {
            Some(home) => match Config::sound_fresh_text(home.as_str()) {
                Some(contents) => {
                    let mut session = self;
                    session.phase = Phase::ConfigWrite;
                    let path = session.config_path.clone();
                    (session, Action::Write { path, contents })
                },
                None => {
                    let task_path = Config::default_task_path(home.as_str());
                    self.fail(Failure::FreshConfig { task_path })
                },
            },
            None => self.fail(Failure::NoHome),
        }
    }

    fn create_tasks(self) -> (next: (Session, Action))
        ensures
            (next.0@, next.1@) == self@.create_tasks(),
    {
        let mut session = self;
        session.phase = Phase::TaskCreate;
        let path = session.task_path.clone();
        (session, Action::Write { path, contents: String::new() })
    }

    fn dispatch(self) -> (next: (Session, Action))
        ensures
            (next.0@, next.1@) == self@.dispatch(),
    {
        match self.command {
            Command::List => {
                let mut session = self;
                session.phase = Phase::TaskRead;
                let path = session.task_path.clone();
                (session, Action::ReadBytes { path })
            },
            Command::Add => self.stop(Outcome::NotSupported(Command::Add)),
            Command::Search => self.stop(Outcome::NotSupported(Command::Search)),
        }
    }

    /// Opens a run. The home directory is asked for once, here, and kept
    /// for when the run needs it.
    pub fn start(invocation: Invocation) -> (first: (Session, Action))
        ensures
            (first.0@, first.1@) == opening(invocation@, first.0@.home),
    {
        let home = home_directory();
        Session::start_with_home(invocation, home)
    }

    /// Opens a run for a user whose home directory is `home`.
    pub fn start_with_home(invocation: Invocation, home: Option<String>) -> (first: (
        Session,
        Action,
    ))
        ensures
            (first.0@, first.1@) == opening(invocation@, home.deep_view()),
    {
        let Invocation { config, path, command } = invocation;
        let config_path = match config {
            Some(named) => Some(named),
            None => match &home {
                Some(home) => Some(Config::default_path(home.as_str())),
                None => None,
            },
        };
        match config_path {
            Some(config_path) => {
                let probe = config_path.clone();
                (
                    Session {
                        phase: Phase::ConfigProbe,
                        command,
                        home,
                        config_path,
                        path_override: path,
                        task_path: String::new(),
                    },
                    Action::Probe { path: probe },
                )
            },
            None => {
                let session = Session {
                    phase: Phase::ConfigProbe,
                    command,
                    home,
                    config_path: String::new(),
                    path_override: path,
                    task_path: String::new(),
                };
                session.fail(Failure::NoConfigPath)
            },
        }
    }

    /// Goes on once the configuration file has been loaded.
    pub fn with_config(self, loaded: Result<Config, ConfigError>) -> (next: (Session, Action))
        ensures
            (next.0@, next.1@) == self@.with_config(loaded_view(loaded)),
    {
        match self.phase {
            Phase::ConfigRead => match loaded {
                Ok(config) => {
                    let mut session = self;
                    let task_path = match &session.path_override {
                        Some(path) => path.clone(),
                        None => config.path,
                    };
                    let probe = task_path.clone();
                    session.phase = Phase::TaskProbe;
                    session.task_path = task_path;
                    (session, Action::Probe { path: probe })
                },
                Err(reason) => {
                    let path = self.config_path.clone();
                    self.fail(Failure::Config { path, reason })
                },
            },
            _ => self.fail(Failure::OutOfTurn),
        }
    }

    /// Goes on once the task file has been read.
    pub fn with_tasks(self, outcome: Result<Vec<Task>, TaskFileError>) -> (next: (
        Session,
        Action,
    ))
        ensures
            (next.0@, next.1@) == self@.with_tasks(outcome_view(outcome)),
    {
        match self.phase {
            Phase::TaskRead => match outcome {
                Ok(tasks) => {
                    let lines = print_tasks(&tasks);
                    let mut session = self;
                    session.phase = Phase::Showing;
                    (session, Action::Show { lines })
                },
                Err(error) => {
                    let path = self.task_path.clone();
                    self.fail(Failure::Tasks { path, error })
                },
            },
            _ => self.fail(Failure::OutOfTurn),
        }
    }

    /// Takes in how the last action went and decides the next one.
    pub fn advance(self, event: Event) -> (next: (Session, Action))
        ensures
            (next.0@, next.1@) == self@.step(event@),
    {
        match event {
            Event::Found(found) => match self.phase {
                Phase::ConfigProbe => if found {
                    self.read_config()
                } else {
                    self.write_config()
                },
                Phase::TaskProbe => if found {
                    self.dispatch()
                } else {
                    self.create_tasks()
                },
                _ => self.fail(Failure::OutOfTurn),
            },
            Event::Done => match self.phase {
                Phase::ConfigWrite => self.read_config(),
                Phase::TaskCreate => self.dispatch(),
                Phase::Showing => self.stop(Outcome::Listed),
                _ => self.fail(Failure::OutOfTurn),
            },
            Event::Text(text) => {
                let loaded = Config::from_toml(text.as_str());
                self.with_config(loaded)
            },
            Event::Bytes(bytes) => {
                let outcome = parse_todo_txt(bytes.as_slice());
                self.with_tasks(outcome)
            },
            Event::Failed { step, cause } => match self.phase {
                Phase::ConfigWrite | Phase::ConfigRead => {
                    let path = self.config_path.clone();
                    self.fail(Failure::File { step, path, cause })
                },
                Phase::TaskCreate | Phase::TaskRead => {
                    let path = self.task_path.clone();
                    self.fail(Failure::File { step, path, cause })
                },
                _ => self.fail(Failure::OutOfTurn),
            },
        }
    }
}

/// A run that finds no configuration file asks for nothing to be written
/// but a fresh configuration, where it looked, that reads as a configuration
/// whose `path` is `todo.txt` in the home directory. Once that is written the
/// run reads the file, and on reading what was written it turns to the task
/// file that the invocation named, else to `todo.txt` in the home directory.
/// The run ends instead, with nothing written, only where the TOML parser
/// does not read the fresh text as that configuration; the text is never
/// turned away for its depth.
pub proof fn lemma_absent_config_is_written(session: SessionView, home: Seq<char>)
    requires
        session.phase == Phase::ConfigProbe,
        session.home == Some(home),
    ensures
        match session.step(EventView::Found(false)).1 {
            ActionView::Write { path, contents } => {
                &&& path == session.config_path
                &&& contents == fresh_config_text(home)
                &&& config_of_text(contents) == Ok::<ConfigView, ConfigError>(
                    ConfigView { path: task_path_under(home) },
                )
                &&& session.step(EventView::Found(false)).0.step(EventView::Done).1
                    == (ActionView::ReadText { path: session.config_path })
                &&& session.step(EventView::Found(false)).0.step(EventView::Done).0.step(
                    EventView::Text(contents),
                ).1 == (ActionView::Probe {
                    path: match session.path_override {
                        Some(named) => named,
                        None => task_path_under(home),
                    },
                })
            },
            other => {
                &&& other == ActionView::Stop(
                    OutcomeView::Failed(
                        FailureView::FreshConfig { task_path: task_path_under(home) },
                    ),
                )
                &&& toml_document(fresh_config_text(home)) matches Some(entries) ==> path_entry(
                    entries,
                ) != Some(Some(task_path_under(home)))
            },
        },
{
    lemma_fresh_config_is_flat(home);
}

/// A run that finds no task file asks for an empty one to be created at the
/// task file's place, and then goes on as if it had found it.
pub proof fn lemma_absent_task_file_is_created(session: SessionView)
    requires
        session.phase == Phase::TaskProbe,
    ensures
        session.step(EventView::Found(false)).1 == (ActionView::Write {
            path: session.task_path,
            contents: Seq::empty(),
        }),
        session.step(EventView::Found(false)).0.step(EventView::Done).1 == session.step(
            EventView::Found(true),
        ).1,
{
}

/// Nothing is shown unless the whole task file was read: lines are only
/// ever shown in answer to the bytes of a task file without a faulty line,
/// and then they show exactly that file's tasks.
pub proof fn lemma_only_a_sound_file_is_shown(session: SessionView, event: EventView)
    requires
        session.step(event).1 is Show,
    ensures
        session.phase == Phase::TaskRead,
        event is Bytes,
        tasks_of(event->Bytes_0) is Ok,
        session.step(event).1 == (ActionView::Show {
            lines: shown_all(tasks_of(event->Bytes_0)->Ok_0),
        }),
{
}

/// A task file with a faulty line ends the run, whatever the session: the
/// answer to its bytes is to stop, with a failure.
pub proof fn lemma_faulty_file_ends_the_run(session: SessionView, bytes: Seq<u8>, line: int)
    requires
        0 <= line < lines_of(bytes).len(),
        reading_of(lines_of(bytes)[line]) is Faulty,
    ensures
        session.step(EventView::Bytes(bytes)).0.phase == Phase::Stopped,
        session.step(EventView::Bytes(bytes)).1 is Stop,
        session.step(EventView::Bytes(bytes)).1->Stop_0 is Failed,
{
    lemma_faulty_line_fails(bytes, line);
}

/// A run is over exactly when it says so, and stays over: a session is
/// stopped after a step if and only if the step's action is to stop, and a
/// stopped session answers every event by stopping again.
pub proof fn lemma_stop_is_final(session: SessionView, event: EventView)
    ensures
        session.step(event).0.phase == Phase::Stopped <==> session.step(event).1 is Stop,
        session.phase == Phase::Stopped ==> session.step(event).1 is Stop,
{
}

} // verus!
