//! Reading a task file: its lines, each turned into a task.
//!
//! Empty lines hold no task and are passed over. Every other line must be
//! text and must be a task: the first line that is not stops the reading, and
//! nothing of the file is handed out.

use crate::lines::{lines_of, split_lines};
use crate::outside::{parse_task_line, text_of, todo_txt_task};
use crate::task::{Task, TaskView};
use vstd::prelude::*;
use vstd::utf8::{decode_utf8, valid_utf8};

verus! {

/// What is wrong with a line of a task file.
#[derive(Clone, Copy, Debug, PartialEq, Eq, Structural)]
pub enum LineFault {
    /// The line's bytes are not UTF-8 text.
    NotText,
    /// The line is text that the todo.txt grammar does not accept.
    NotATask,
}

/// Why a task file could not be read: its first faulty line, counted from
/// zero, and the fault.
#[derive(Clone, Copy, Debug, PartialEq, Eq, Structural)]
pub struct TaskFileError {
    pub line: usize,
    pub fault: LineFault,
}

/// What one line of a task file turns out to be.
#[derive(Clone, Debug, PartialEq, Eq)]
pub enum LineReading {
    /// An empty line, which holds no task.
    Blank,
    /// A line that holds a task.
    Parsed(Task),
    /// A line that is no task.
    Faulty(LineFault),
}

/// What a `LineReading` holds, as mathematical values.
pub enum LineReadingView {
    Blank,
    Parsed(TaskView),
    Faulty(LineFault),
}

impl View for LineReading {
    type V = LineReadingView;

    open spec fn view(&self) -> LineReadingView {
        match self {
            LineReading::Blank => LineReadingView::Blank,
            LineReading::Parsed(task) => LineReadingView::Parsed(task@),
            LineReading::Faulty(fault) => LineReadingView::Faulty(*fault),
        }
    }
}

impl DeepView for LineReading {
    type V = LineReadingView;

    open spec fn deep_view(&self) -> LineReadingView {
        self@
    }
}

/// What the line with these bytes is, given what the grammar makes of its
/// text.
pub open spec fn reading_of(line: Seq<u8>) -> LineReadingView {
    if line.len() == 0 {
        LineReadingView::Blank
    } else if !valid_utf8(line) {
        LineReadingView::Faulty(LineFault::NotText)
    } else {
        match todo_txt_task(decode_utf8(line)) {
            Some(task) => LineReadingView::Parsed(task),
            None => LineReadingView::Faulty(LineFault::NotATask),
        }
    }
}

/// The index of the first faulty reading, or `readings.len()` where none is
/// faulty.
pub open spec fn first_fault(readings: Seq<LineReadingView>) -> int
    decreases readings.len(),
{
    if readings.len() == 0 {
        0
    } else if readings[0] is Faulty {
        0
    } else {
        1 + first_fault(readings.drop_first())
    }
}

/// The tasks among `readings`, in their order.
pub open spec fn tasks_among(readings: Seq<LineReadingView>) -> Seq<TaskView>
    decreases readings.len(),
{
    if readings.len() == 0 {
        Seq::empty()
    } else {
        let rest = tasks_among(readings.drop_last());
        match readings.last() {
            LineReadingView::Parsed(task) => rest.push(task),
            _ => rest,
        }
    }
}

/// What a file with these line readings yields: all its tasks, or its first
/// fault.
pub open spec fn gathered(readings: Seq<LineReadingView>) -> Result<Seq<TaskView>, TaskFileError> {
    let at = first_fault(readings);
    if at < readings.len() {
        Err(TaskFileError { line: at as usize, fault: readings[at]->Faulty_0 })
    } else {
        Ok(tasks_among(readings))
    }
}

/// What the result of reading a task file holds, as mathematical values.
pub open spec fn outcome_view(outcome: Result<Vec<Task>, TaskFileError>) -> Result<
    Seq<TaskView>,
    TaskFileError,
> {
    match outcome {
        Ok(tasks) => Ok(tasks.deep_view()),
        Err(error) => Err(error),
    }
}

/// What a task file with these bytes yields.
pub open spec fn tasks_of(bytes: Seq<u8>) -> Result<Seq<TaskView>, TaskFileError> {
    gathered(lines_of(bytes).map_values(|line: Seq<u8>| reading_of(line)))
}

/// `first_fault` is the least index of a faulty reading.
pub proof fn lemma_first_fault(readings: Seq<LineReadingView>)
    ensures
        0 <= first_fault(readings) <= readings.len(),
        first_fault(readings) < readings.len() ==> readings[first_fault(readings)] is Faulty,
        forall|i: int| 0 <= i < first_fault(readings) ==> !(readings[i] is Faulty),
    decreases readings.len(),
{
    if readings.len() > 0 && !(readings[0] is Faulty) {
        let rest = readings.drop_first();
        lemma_first_fault(rest);
        assert forall|i: int| 0 <= i < first_fault(readings) implies !(readings[i] is Faulty) by {
            if i > 0 {
                assert(readings[i] == rest[i - 1]);
            }
        }
    }
}

/// Tells what a line is: empty, a task, or faulty.
pub fn read_line(line: &[u8]) -> (reading: LineReading)
    ensures
        reading@ == reading_of(line@),
{
    if line.len() == 0 {
        return LineReading::Blank;
    }
    match text_of(line) {
        Err(_) => LineReading::Faulty(LineFault::NotText),
        Ok(text) => match parse_task_line(text) {
            Ok(task) => LineReading::Parsed(task),
            Err(_) => LineReading::Faulty(LineFault::NotATask),
        },
    }
}

/// Gathers the tasks of a file from the readings of its lines: all of them in
/// file order where no line is faulty, else the first fault and its line.
pub fn gather_tasks(readings: Vec<LineReading>) -> (outcome: Result<Vec<Task>, TaskFileError>)
    ensures
        outcome_view(outcome) == gathered(readings.deep_view()),
{
    let ghost all = readings.deep_view();
    let ghost items = readings@;
    let total: usize = readings.len();
    let mut tasks: Vec<Task> = Vec::new();
    let mut index: usize = 0;
    for reading in it: readings.into_iter()
        invariant
            it.seq() == items,
            index == it.index(),
            items.len() == total,
            all == readings.deep_view(),
            all == Seq::new(items.len(), |i: int| items[i]@),
            tasks.deep_view() == tasks_among(all.take(it.index() as int)),
            forall|j: int| 0 <= j < it.index() ==> !(all[j] is Faulty),
    {
        let ghost at = it.index() as int;
        proof {
            assert(all.take(at + 1).drop_last() =~= all.take(at));
            assert(all.take(at + 1).last() == reading@);
        }
        match reading {
            LineReading::Blank => {},
            LineReading::Parsed(task) => {
                let ghost before = tasks.deep_view();
                tasks.push(task);
                assert(tasks.deep_view() =~= before.push(task@));
            },
            LineReading::Faulty(fault) => {
                proof {
                    lemma_first_fault(all);
                    assert(all[at] == reading@);
                }
                return Err(TaskFileError { line: index, fault });
            },
        }
        index = index + 1;
    }
    proof {
        lemma_first_fault(all);
        assert(all.take(all.len() as int) =~= all);
    }
    Ok(tasks)
}

/// Reads a task file from its bytes: the task of every line that is not
/// empty, in file order, or the first faulty line.
pub fn parse_todo_txt(bytes: &[u8]) -> (outcome: Result<Vec<Task>, TaskFileError>)
    ensures
        outcome_view(outcome) == tasks_of(bytes@),
{
    let lines = split_lines(bytes);
    let ghost wanted = lines_of(bytes@).map_values(|line: Seq<u8>| reading_of(line));
    let mut readings: Vec<LineReading> = Vec::new();
    let mut index: usize = 0;
    while index < lines.len()
        invariant
            index <= lines.len(),
            lines.deep_view() == lines_of(bytes@),
            wanted == lines_of(bytes@).map_values(|line: Seq<u8>| reading_of(line)),
            readings.deep_view() == wanted.take(index as int),
        decreases lines.len() - index,
    {
        let ghost before = readings.deep_view();
        let reading = read_line(lines[index].as_slice());
        proof {
            assert(lines[index as int].deep_view() =~= lines[index as int]@);
            assert(lines.deep_view()[index as int] == lines[index as int].deep_view());
            assert(reading@ == wanted[index as int]);
        }
        readings.push(reading);
        proof {
            assert(readings.deep_view() =~= before.push(reading@));
            assert(wanted.take(index + 1) =~= wanted.take(index as int).push(wanted[index as int]));
        }
        index = index + 1;
    }
    proof {
        assert(wanted.take(index as int) =~= wanted);
    }
    gather_tasks(readings)
}

/// A file in which every line holds a task yields one task for each line, in
/// the order of the lines, and each task is what the grammar makes of its
/// line.
pub proof fn lemma_one_task_for_each_line(bytes: Seq<u8>)
    requires
        forall|i: int|
            0 <= i < lines_of(bytes).len() ==> #[trigger] reading_of(lines_of(bytes)[i]) is Parsed,
    ensures
        tasks_of(bytes) is Ok,
        tasks_of(bytes)->Ok_0.len() == lines_of(bytes).len(),
        forall|i: int|
            0 <= i < lines_of(bytes).len() ==> todo_txt_task(decode_utf8(lines_of(bytes)[i]))
                == Some(#[trigger] tasks_of(bytes)->Ok_0[i]),
{
    let readings = lines_of(bytes).map_values(|line: Seq<u8>| reading_of(line));
    assert forall|i: int| 0 <= i < readings.len() implies #[trigger] readings[i] is Parsed by {
        assert(readings[i] == reading_of(lines_of(bytes)[i]));
    }
    lemma_first_fault(readings);
    lemma_all_parsed(readings);
    assert forall|i: int| 0 <= i < lines_of(bytes).len() implies todo_txt_task(
        decode_utf8(lines_of(bytes)[i]),
    ) == Some(#[trigger] tasks_of(bytes)->Ok_0[i]) by {
        assert(readings[i] == reading_of(lines_of(bytes)[i]));
        assert(readings[i] is Parsed);
    }
}

/// Where every reading holds a task, the tasks among them are those tasks,
/// one for one.
pub proof fn lemma_all_parsed(readings: Seq<LineReadingView>)
    requires
        forall|i: int| 0 <= i < readings.len() ==> #[trigger] readings[i] is Parsed,
    ensures
        tasks_among(readings).len() == readings.len(),
        forall|i: int|
            0 <= i < readings.len() ==> readings[i] == LineReadingView::Parsed(
                #[trigger] tasks_among(readings)[i],
            ),
    decreases readings.len(),
{
    if readings.len() > 0 {
        let front = readings.drop_last();
        assert forall|i: int| 0 <= i < front.len() implies #[trigger] front[i] is Parsed by {
            assert(front[i] == readings[i]);
        }
        lemma_all_parsed(front);
        assert(readings.last() is Parsed);
        assert forall|i: int| 0 <= i < readings.len() implies readings[i]
            == LineReadingView::Parsed(#[trigger] tasks_among(readings)[i]) by {
            if i < front.len() {
                assert(front[i] == readings[i]);
            }
        }
    }
}

/// A file with a faulty line yields no tasks at all: reading it fails, at a
/// line no later than that one.
pub proof fn lemma_faulty_line_fails(bytes: Seq<u8>, line: int)
    requires
        0 <= line < lines_of(bytes).len(),
        reading_of(lines_of(bytes)[line]) is Faulty,
    ensures
        tasks_of(bytes) is Err,
        tasks_of(bytes)->Err_0.line <= line,
{
    let readings = lines_of(bytes).map_values(|line: Seq<u8>| reading_of(line));
    assert(readings[line] == reading_of(lines_of(bytes)[line]));
    lemma_first_fault(readings);
}

} // verus!
