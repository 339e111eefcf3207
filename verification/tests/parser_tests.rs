use todo_cli::parser::{
    gather_tasks, parse_todo_txt, read_line, LineFault, LineReading, TaskFileError,
};
use todo_cli::task::{Date, Task, NO_PRIORITY};

fn plain(subject: &str) -> Task {
    Task {
        subject: String::from(subject),
        priority: NO_PRIORITY,
        finished: false,
        create_date: None,
        finish_date: None,
        projects: Vec::new(),
        contexts: Vec::new(),
    }
}

#[test]
fn line_with_everything_is_taken_apart() {
    let reading = read_line(b"(A) 2023-01-01 Buy milk +errands @store");
    assert_eq!(
        reading,
        LineReading::Parsed(Task {
            subject: String::from("Buy milk +errands @store"),
            priority: 0,
            finished: false,
            create_date: Some(Date { year: 2023, month: 1, day: 1 }),
            finish_date: None,
            projects: vec![String::from("errands")],
            contexts: vec![String::from("store")],
        })
    );
}

#[test]
fn finished_line_has_both_dates() {
    let reading = read_line(b"x 2023-02-03 2023-01-31 Pay rent");
    assert_eq!(
        reading,
        LineReading::Parsed(Task {
            subject: String::from("Pay rent"),
            priority: NO_PRIORITY,
            finished: true,
            create_date: Some(Date { year: 2023, month: 1, day: 31 }),
            finish_date: Some(Date { year: 2023, month: 2, day: 3 }),
            projects: Vec::new(),
            contexts: Vec::new(),
        })
    );
}

#[test]
fn plain_text_is_a_task() {
    assert_eq!(read_line(b"Call mum"), LineReading::Parsed(plain("Call mum")));
}

#[test]
fn text_beyond_ascii_is_a_task() {
    assert_eq!(
        read_line("Caf\u{e9} bestellen".as_bytes()),
        LineReading::Parsed(plain("Caf\u{e9} bestellen"))
    );
}

#[test]
fn empty_line_is_blank() {
    assert_eq!(read_line(b""), LineReading::Blank);
}

#[test]
fn bytes_that_are_no_text_are_faulty() {
    assert_eq!(read_line(&[0x42, 0xff, 0x43]), LineReading::Faulty(LineFault::NotText));
    assert_eq!(read_line(&[0xc3]), LineReading::Faulty(LineFault::NotText));
}

#[test]
fn priority_letters() {
    let mut task = plain("x");
    assert_eq!(task.priority_letter(), None);
    task.priority = 0;
    assert_eq!(task.priority_letter(), Some('A'));
    task.priority = 25;
    assert_eq!(task.priority_letter(), Some('Z'));
    task.priority = 200;
    assert_eq!(task.priority_letter(), None);
    let parsed = parse_todo_txt(b"(C) third").unwrap();
    assert_eq!(parsed[0].priority_letter(), Some('C'));
}

#[test]
fn each_line_gives_one_task_in_file_order() {
    let tasks = parse_todo_txt(b"(B) one +p\ntwo @c\nx three\n").unwrap();
    assert_eq!(tasks.len(), 3);
    assert_eq!(tasks[0].subject, "one +p");
    assert_eq!(tasks[0].priority, 1);
    assert_eq!(tasks[1].subject, "two @c");
    assert_eq!(tasks[1].contexts, vec![String::from("c")]);
    assert_eq!(tasks[2].subject, "three");
    assert!(tasks[2].finished);
}

#[test]
fn tasks_are_what_their_lines_read_as() {
    let lines: [&[u8]; 3] = [b"(B) one +p", b"two @c", b"x three"];
    let tasks = parse_todo_txt(b"(B) one +p\r\ntwo @c\r\nx three").unwrap();
    assert_eq!(tasks.len(), lines.len());
    for (task, line) in tasks.iter().zip(lines.iter()) {
        assert_eq!(read_line(line), LineReading::Parsed(task.clone()));
    }
}

#[test]
fn empty_file_has_no_tasks() {
    assert_eq!(parse_todo_txt(b""), Ok(Vec::new()));
}

#[test]
fn empty_lines_hold_no_task() {
    let tasks = parse_todo_txt(b"\none\n\n\ntwo\n\n").unwrap();
    assert_eq!(tasks, vec![plain("one"), plain("two")]);
}

#[test]
fn faulty_line_stops_the_reading() {
    let mut bytes = b"one\ntwo\n".to_vec();
    bytes.extend_from_slice(&[0xff, 0xfe]);
    bytes.extend_from_slice(b"\nfour\n");
    assert_eq!(
        parse_todo_txt(&bytes),
        Err(TaskFileError { line: 2, fault: LineFault::NotText })
    );
}

#[test]
fn faulty_line_is_counted_with_the_empty_lines() {
    assert_eq!(
        parse_todo_txt(&[10, 10, 0x80, 10]),
        Err(TaskFileError { line: 2, fault: LineFault::NotText })
    );
}

#[test]
fn gathering_keeps_the_tasks_in_order() {
    let readings = vec![
        LineReading::Parsed(plain("a")),
        LineReading::Blank,
        LineReading::Parsed(plain("b")),
    ];
    assert_eq!(gather_tasks(readings), Ok(vec![plain("a"), plain("b")]));
    assert_eq!(gather_tasks(Vec::new()), Ok(Vec::new()));
}

#[test]
fn gathering_stops_at_the_first_fault() {
    let readings = vec![
        LineReading::Parsed(plain("a")),
        LineReading::Blank,
        LineReading::Faulty(LineFault::NotATask),
        LineReading::Faulty(LineFault::NotText),
        LineReading::Parsed(plain("b")),
    ];
    assert_eq!(
        gather_tasks(readings),
        Err(TaskFileError { line: 2, fault: LineFault::NotATask })
    );
}
