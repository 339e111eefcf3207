//! A task: one line of a todo.txt file, taken apart.

use vstd::prelude::*;

verus! {

/// The priority value of a task that has none. Priorities `0` to `25` stand
/// for the letters `A` to `Z`.
pub const NO_PRIORITY: u8 = 26;

/// The code of the letter `A`, which priority `0` stands for.
pub const LETTER_A: u8 = 65;

/// A calendar date.
#[derive(Clone, Copy, Debug, PartialEq, Eq, Structural)]
pub struct Date {
    pub year: i32,
    pub month: u32,
    pub day: u32,
}

/// One task of a todo.txt file.
#[derive(Clone, Debug, PartialEq, Eq)]
pub struct Task {
    /// The free text of the line: what is left once the completion mark, the
    /// priority and the dates at its start are taken off.
    pub subject: String,
    /// `0` to `25` for `(A)` to `(Z)`, `NO_PRIORITY` otherwise.
    pub priority: u8,
    /// Whether the line starts with the completion mark.
    pub finished: bool,
    pub create_date: Option<Date>,
    pub finish_date: Option<Date>,
    /// The `+project` tags of the line.
    pub projects: Vec<String>,
    /// The `@context` tags of the line.
    pub contexts: Vec<String>,
}

/// What a `Task` holds, as mathematical values.
pub struct TaskView {
    pub subject: Seq<char>,
    pub priority: u8,
    pub finished: bool,
    pub create_date: Option<Date>,
    pub finish_date: Option<Date>,
    pub projects: Seq<Seq<char>>,
    pub contexts: Seq<Seq<char>>,
}

impl View for Task {
    type V = TaskView;

    open spec fn view(&self) -> TaskView {
        TaskView {
            subject: self.subject@,
            priority: self.priority,
            finished: self.finished,
            create_date: self.create_date,
            finish_date: self.finish_date,
            projects: self.projects.deep_view(),
            contexts: self.contexts.deep_view(),
        }
    }
}

impl DeepView for Task {
    type V = TaskView;

    open spec fn deep_view(&self) -> TaskView {
        self@
    }
}

/// The letter that stands for `priority`, where it stands for one.
pub open spec fn letter_of(priority: u8) -> Option<char> {
    if priority < NO_PRIORITY {
        Some(((LETTER_A + priority) as u8) as char)
    } else {
        None
    }
}

impl Task {
    /// The task's priority as the letter written in the file, `None` for a
    /// task without priority.
    pub fn priority_letter(&self) -> (letter: Option<char>)
        ensures
            letter == letter_of(self.priority),
    {
        if self.priority < NO_PRIORITY {
            Some((LETTER_A + self.priority) as char)
        } else {
            None
        }
    }
}

} // verus!
