//! Why a run stops early, and the words that say so.

use crate::config::ConfigError;
use crate::parser::{LineFault, TaskFileError};
use vstd::prelude::*;
use vstd::string::StringExecFns;

verus! {

/// A step of handling a file that can fail.
#[derive(Clone, Copy, Debug, PartialEq, Eq, Structural)]
pub enum FileStep {
    Create,
    Write,
    Open,
    Read,
}

/// Why a run stopped early.
#[derive(Clone, Debug, PartialEq, Eq)]
pub enum Failure {
    /// No configuration file was named and there is no home directory to
    /// look for one in.
    NoConfigPath,
    /// A fresh configuration is due and there is no home directory to point
    /// it at.
    NoHome,
    /// A fresh configuration is due, and the one that would name the task
    /// file at `task_path` does not read back as meant.
    FreshConfig { task_path: String },
    /// A step on the file at `path` failed for the reason `cause`.
    File { step: FileStep, path: String, cause: String },
    /// The file at `path` is no configuration.
    Config { path: String, reason: ConfigError },
    /// The file at `path` is no task file.
    Tasks { path: String, error: TaskFileError },
    /// An event came that does not answer the action that was asked for.
    OutOfTurn,
}

/// What a `Failure` holds, as mathematical values.
pub enum FailureView {
    NoConfigPath,
    NoHome,
    FreshConfig { task_path: Seq<char> },
    File { step: FileStep, path: Seq<char>, cause: Seq<char> },
    Config { path: Seq<char>, reason: ConfigError },
    Tasks { path: Seq<char>, error: TaskFileError },
    OutOfTurn,
}

impl View for Failure {
    type V = FailureView;

    open spec fn view(&self) -> FailureView {
        match self {
            Failure::NoConfigPath => FailureView::NoConfigPath,
            Failure::NoHome => FailureView::NoHome,
            Failure::FreshConfig { task_path } => FailureView::FreshConfig {
                task_path: task_path@,
            },
            Failure::File { step, path, cause } => FailureView::File {
                step: *step,
                path: path@,
                cause: cause@,
            },
            Failure::Config { path, reason } => FailureView::Config { path: path@, reason: *reason },
            Failure::Tasks { path, error } => FailureView::Tasks { path: path@, error: *error },
            Failure::OutOfTurn => FailureView::OutOfTurn,
        }
    }
}

/// The words for a file step that failed.
pub open spec fn step_words(step: FileStep) -> Seq<char> {
    match step {
        FileStep::Create => "couldn't create "@,
        FileStep::Write => "couldn't write to "@,
        FileStep::Open => "couldn't open "@,
        FileStep::Read => "couldn't read from "@,
    }
}

/// The words for what is wrong with a configuration.
pub open spec fn config_error_words(error: ConfigError) -> Seq<char> {
    match error {
        ConfigError::Syntax => "not a TOML document"@,
        ConfigError::MissingPath => "no `path` key"@,
        ConfigError::PathNotText => "`path` is not a string"@,
        ConfigError::TooNested => "nested too deep"@,
    }
}

/// The words for what is wrong with a line of a task file.
pub open spec fn fault_words(fault: LineFault) -> Seq<char> {
    match fault {
        LineFault::NotText => "a line is not UTF-8 text"@,
        LineFault::NotATask => "a line is not a task"@,
    }
}

/// The message that reports a failure: it names the file concerned and the
/// cause.
pub open spec fn message_of(failure: FailureView) -> Seq<char> {
    match failure {
        FailureView::NoConfigPath => "No config path supplied and couldn't find home!"@,
        FailureView::NoHome => "Couldn't find home!"@,
        FailureView::FreshConfig { task_path } => "couldn't write a config that names "@
            + task_path,
        FailureView::File { step, path, cause } => step_words(step) + path + ": "@ + cause,
        FailureView::Config { path, reason } => "couldn't parse config "@ + path + ": "@
            + config_error_words(reason),
        FailureView::Tasks { path, error } => "couldn't parse "@ + path + ": "@ + fault_words(
            error.fault,
        ),
        FailureView::OutOfTurn => "an event came that answers no pending action"@,
    }
}

fn words_for_step(step: FileStep) -> (words: &'static str)
    ensures
        words@ == step_words(step),
{
    match step {
        FileStep::Create => "couldn't create ",
        FileStep::Write => "couldn't write to ",
        FileStep::Open => "couldn't open ",
        FileStep::Read => "couldn't read from ",
    }
}

fn words_for_config_error(error: ConfigError) -> (words: &'static str)
    ensures
        words@ == config_error_words(error),
{
    match error {
        ConfigError::Syntax => "not a TOML document",
        ConfigError::MissingPath => "no `path` key",
        ConfigError::PathNotText => "`path` is not a string",
        ConfigError::TooNested => "nested too deep",
    }
}

fn words_for_fault(fault: LineFault) -> (words: &'static str)
    ensures
        words@ == fault_words(fault),
{
    match fault {
        LineFault::NotText => "a line is not UTF-8 text",
        LineFault::NotATask => "a line is not a task",
    }
}

impl Failure {
    /// The message that reports this failure.
    pub fn message(&self) -> (text: String)
        ensures
            text@ == message_of(self@),
    {
        match self {
            Failure::NoConfigPath => "No config path supplied and couldn't find home!".to_owned(),
            Failure::NoHome => "Couldn't find home!".to_owned(),
            Failure::FreshConfig { task_path } => {
                let mut text = "couldn't write a config that names ".to_owned();
                text.append(task_path.as_str());
                text
            },
            Failure::File { step, path, cause } => {
                let mut text = words_for_step(*step).to_owned();
                text.append(path.as_str());
                text.append(": ");
                text.append(cause.as_str());
                text
            },
            Failure::Config { path, reason } => {
                let mut text = "couldn't parse config ".to_owned();
                text.append(path.as_str());
                text.append(": ");
                text.append(words_for_config_error(*reason));
                text
            },
            Failure::Tasks { path, error } => {
                let mut text = "couldn't parse ".to_owned();
                text.append(path.as_str());
                text.append(": ");
                text.append(words_for_fault(error.fault));
                text
            },
            Failure::OutOfTurn => "an event came that answers no pending action".to_owned(),
        }
    }
}

} // verus!
