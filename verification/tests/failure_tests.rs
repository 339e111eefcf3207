use todo_cli::config::ConfigError;
use todo_cli::failure::{Failure, FileStep};
use todo_cli::parser::{LineFault, TaskFileError};

fn file(step: FileStep) -> Failure {
    Failure::File { step, path: String::from("/tmp/t.txt"), cause: String::from("denied") }
}

#[test]
fn file_failures_name_the_file_and_the_cause() {
    assert_eq!(file(FileStep::Create).message(), "couldn't create /tmp/t.txt: denied");
    assert_eq!(file(FileStep::Write).message(), "couldn't write to /tmp/t.txt: denied");
    assert_eq!(file(FileStep::Open).message(), "couldn't open /tmp/t.txt: denied");
    assert_eq!(file(FileStep::Read).message(), "couldn't read from /tmp/t.txt: denied");
}

#[test]
fn missing_home_is_said() {
    assert_eq!(
        Failure::NoConfigPath.message(),
        "No config path supplied and couldn't find home!"
    );
    assert_eq!(Failure::NoHome.message(), "Couldn't find home!");
}

#[test]
fn configuration_failures_name_the_file_and_the_cause() {
    let failure = |reason| Failure::Config { path: String::from("c.toml"), reason };
    assert_eq!(
        failure(ConfigError::Syntax).message(),
        "couldn't parse config c.toml: not a TOML document"
    );
    assert_eq!(
        failure(ConfigError::MissingPath).message(),
        "couldn't parse config c.toml: no `path` key"
    );
    assert_eq!(
        failure(ConfigError::PathNotText).message(),
        "couldn't parse config c.toml: `path` is not a string"
    );
    assert_eq!(
        failure(ConfigError::TooNested).message(),
        "couldn't parse config c.toml: nested too deep"
    );
}

#[test]
fn task_file_failures_name_the_file_and_the_cause() {
    let failure = |fault| Failure::Tasks {
        path: String::from("t.txt"),
        error: TaskFileError { line: 4, fault },
    };
    assert_eq!(
        failure(LineFault::NotText).message(),
        "couldn't parse t.txt: a line is not UTF-8 text"
    );
    assert_eq!(
        failure(LineFault::NotATask).message(),
        "couldn't parse t.txt: a line is not a task"
    );
}

#[test]
fn unsound_fresh_config_is_said() {
    let failure = Failure::FreshConfig { task_path: String::from("/home/x/todo.txt") };
    assert_eq!(failure.message(), "couldn't write a config that names /home/x/todo.txt");
}

#[test]
fn out_of_turn_is_said() {
    assert_eq!(Failure::OutOfTurn.message(), "an event came that answers no pending action");
}
