//! How tasks are shown: one styled line of text for each.

use crate::task::{Task, TaskView};
use vstd::prelude::*;
use vstd::string::StringExecFns;

verus! {

/// A terminal colour.
#[derive(Clone, Copy, Debug, PartialEq, Eq, Structural)]
pub enum Color {
    Black,
    White,
}

/// A piece of text with the colours to show it in.
#[derive(Clone, Debug, PartialEq, Eq)]
pub struct StyledLine {
    pub text: String,
    pub foreground: Color,
    pub background: Color,
}

/// What a `StyledLine` holds, as mathematical values.
pub struct StyledLineView {
    pub text: Seq<char>,
    pub foreground: Color,
    pub background: Color,
}

impl View for StyledLine {
    type V = StyledLineView;

    open spec fn view(&self) -> StyledLineView {
        StyledLineView {
            text: self.text@,
            foreground: self.foreground,
            background: self.background,
        }
    }
}

impl DeepView for StyledLine {
    type V = StyledLineView;

    open spec fn deep_view(&self) -> StyledLineView {
        self@
    }
}

/// How a task is shown: its subject and a line feed, black on white.
pub open spec fn shown(task: TaskView) -> StyledLineView {
    StyledLineView {
        text: task.subject + seq!['\n'],
        foreground: Color::Black,
        background: Color::White,
    }
}

/// How a list of tasks is shown: each task on a line of its own, in order.
pub open spec fn shown_all(tasks: Seq<TaskView>) -> Seq<StyledLineView> {
    tasks.map_values(|task: TaskView| shown(task))
}

/// The line that shows one task.
pub fn print_task(task: &Task) -> (line: StyledLine)
    ensures
        line@ == shown(task@),
{
    let mut text = task.subject.clone();
    proof {
        reveal_strlit("\n");
        assert("\n"@ =~= seq!['\n']);
    }
    text.append("\n");
    StyledLine { text, foreground: Color::Black, background: Color::White }
}

/// The lines that show a list of tasks.
pub fn print_tasks(tasks: &Vec<Task>) -> (lines: Vec<StyledLine>)
    ensures
        lines.deep_view() == shown_all(tasks.deep_view()),
{
    let mut lines: Vec<StyledLine> = Vec::new();
    let mut index: usize = 0;
    while index < tasks.len()
        invariant
            index <= tasks.len(),
            lines.deep_view() == shown_all(tasks.deep_view()).take(index as int),
        decreases tasks.len() - index,
    {
        let ghost before = lines.deep_view();
        let line = print_task(&tasks[index]);
        lines.push(line);
        proof {
            let all = shown_all(tasks.deep_view());
            assert(lines.deep_view() =~= before.push(line@));
            assert(all.take(index + 1) =~= all.take(index as int).push(all[index as int]));
        }
        index = index + 1;
    }
    proof {
        let all = shown_all(tasks.deep_view());
        assert(all.take(index as int) =~= all);
    }
    lines
}

} // verus!
