//! Everything this library takes on trust.
//!
//! Each function here hands its work to code that the verifier does not read.
//! Its contract is believed, not proved, and says no more than the called
//! code's own source or documentation does.

use crate::nesting::{deepest_nesting, NESTING_LIMIT};
use crate::task::{Date, Task, TaskView};
use chrono::Datelike;
use vstd::prelude::*;
use vstd::utf8::{decode_utf8, valid_utf8};

verus! {

/// The error of `std::str::from_utf8`.
#[verifier::external_type_specification]
#[verifier::external_body]
pub struct ExUtf8Error(core::str::Utf8Error);

/// Calls `std::str::from_utf8`, which checks that bytes are well-formed UTF-8
/// and, where they are, hands them back as text. Believed: it accepts exactly
/// the byte sequences that are valid UTF-8, and the text it gives is what
/// those bytes decode to.
#[verifier::external_body]
pub(crate) fn text_of(bytes: &[u8]) -> (text: Result<&str, core::str::Utf8Error>)
    ensures
        text is Ok <==> valid_utf8(bytes@),
        text matches Ok(s) ==> s@ == decode_utf8(bytes@),
{
    core::str::from_utf8(bytes)
}

/// What `todo_txt::parser::task` makes of a line: the task it reads from it,
/// or `None` where it gives up.
pub uninterp spec fn todo_txt_task(line: Seq<char>) -> Option<TaskView>;

/// Calls `todo_txt::parser::task`, the todo.txt grammar, on one line, and
/// copies the fields of its result that this library keeps. Believed: the
/// result depends on the line alone.
#[verifier::external_body]
pub(crate) fn parse_task_line(line: &str) -> (parsed: Result<Task, ()>)
    ensures
        match parsed {
            Ok(task) => todo_txt_task(line@) == Some(task@),
            Err(_) => todo_txt_task(line@) is None,
        },
{
    let t = todo_txt::parser::task(line)?;
    Ok(Task {
        subject: t.subject,
        priority: t.priority,
        finished: t.finished,
        create_date: t.create_date.map(|d| Date { year: d.year(), month: d.month(), day: d.day() }),
        finish_date: t.finish_date.map(|d| Date { year: d.year(), month: d.month(), day: d.day() }),
        projects: t.projects,
        contexts: t.contexts,
    })
}

/// A parsed TOML document, as `toml` holds it.
#[verifier::external_type_specification]
#[verifier::external_body]
pub struct ExTomlValue(toml::Value);

/// The error of `toml::from_str`.
#[verifier::external_type_specification]
#[verifier::external_body]
pub struct ExTomlError(toml::de::Error);

/// What `toml::from_str` makes of a text: the document's top-level entries,
/// or `None` where the text is not a TOML document.
pub uninterp spec fn toml_document(text: Seq<char>) -> Option<Map<Seq<char>, Option<Seq<char>>>>;

/// The top-level entries of a parsed document: each key with its text where
/// its value is a string, with `None` where its value is of another kind.
pub uninterp spec fn toml_entries(document: toml::Value) -> Map<Seq<char>, Option<Seq<char>>>;

/// Calls `toml::from_str`, the TOML parser. Believed: whether it accepts a
/// text, and the entries of the document it then gives, depend on the text
/// alone. The parser follows nesting down its call stack (arrays and inline
/// tables within one another, the parts of a dotted key, the parts of a table
/// header) and nowhere else goes deeper with the length of the text, so it is
/// kept from every text that nests deeper than `NESTING_LIMIT` by any of
/// these.
#[verifier::external_body]
pub(crate) fn parse_toml(text: &str) -> (parsed: Result<toml::Value, toml::de::Error>)
    requires
        deepest_nesting(text@) <= NESTING_LIMIT,
    ensures
        match parsed {
            Ok(document) => toml_document(text@) == Some(toml_entries(document)),
            Err(_) => toml_document(text@) is None,
        },
{
    toml::from_str::<toml::Value>(text)
}

/// Calls `toml::Value::get` with a key, and `toml::Value::as_str` on what it
/// finds. Believed: the outer `Option` tells whether the document has the
/// key at its top level, the inner one whether the key's value is a string,
/// and the text is that string.
#[verifier::external_body]
pub(crate) fn text_entry(document: &toml::Value, key: &str) -> (entry: Option<Option<String>>)
    ensures
        entry is Some <==> toml_entries(*document).contains_key(key@),
        entry is Some ==> entry->Some_0.deep_view() == toml_entries(*document)[key@],
{
    match document.get(key) {
        Some(value) => match value.as_str() {
            Some(text) => Some(Some(text.to_string())),
            None => Some(None),
        },
        None => None,
    }
}

/// Calls `home::home_dir`, which asks the environment for the user's home
/// directory. Nothing is believed of the answer: it may differ from call to
/// call. A home directory whose path is not text counts as none.
#[verifier::external_body]
pub(crate) fn home_directory() -> (home: Option<String>) {
    match home::home_dir() {
        Some(path) => path.into_os_string().into_string().ok(),
        None => None,
    }
}

} // verus!
