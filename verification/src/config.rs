//! The configuration: a TOML document that names the task file.

use crate::nesting::{
    deepest_nesting,
    lemma_scan_join,
    lemma_scan_push,
    levels,
    scan_from,
    scan_start,
    scan_step,
    scanned,
    too_deep,
    Mode,
    Scan,
    NESTING_LIMIT,
};
use crate::outside::{parse_toml, text_entry, toml_document};
use vstd::prelude::*;
use vstd::string::StringExecFns;

verus! {

/// What the configuration file says.
#[derive(Clone, Debug, PartialEq, Eq)]
pub struct Config {
    /// Where the task file is.
    pub path: String,
}

/// What a `Config` holds, as mathematical values.
pub struct ConfigView {
    pub path: Seq<char>,
}

impl View for Config {
    type V = ConfigView;

    open spec fn view(&self) -> ConfigView {
        ConfigView { path: self.path@ }
    }
}

/// Why a text is no configuration.
#[derive(Clone, Copy, Debug, PartialEq, Eq, Structural)]
pub enum ConfigError {
    /// The text is not a TOML document.
    Syntax,
    /// The document has no `path` key.
    MissingPath,
    /// The document's `path` is not a string.
    PathNotText,
    /// The text nests deeper than is read.
    TooNested,
}

/// The digit that stands for `value` in base sixteen.
pub open spec fn hex_digit(value: int) -> char {
    if value == 0 {
        '0'
    } else if value == 1 {
        '1'
    } else if value == 2 {
        '2'
    } else if value == 3 {
        '3'
    } else if value == 4 {
        '4'
    } else if value == 5 {
        '5'
    } else if value == 6 {
        '6'
    } else if value == 7 {
        '7'
    } else if value == 8 {
        '8'
    } else if value == 9 {
        '9'
    } else if value == 10 {
        'a'
    } else if value == 11 {
        'b'
    } else if value == 12 {
        'c'
    } else if value == 13 {
        'd'
    } else if value == 14 {
        'e'
    } else {
        'f'
    }
}

/// Whether `c` may not stand as itself in a TOML basic string: a control
/// character.
pub open spec fn is_control(c: char) -> bool {
    (c as u32) < 0x20 || c as u32 == 0x7f
}

/// How `c` is written inside a TOML basic string: a quote or a backslash
/// after a backslash, a control character as `\u00` and its code in two
/// hex digits, any other character as itself.
pub open spec fn escaped_char(c: char) -> Seq<char> {
    if c == '"' {
        seq!['\\', '"']
    } else if c == '\\' {
        seq!['\\', '\\']
    } else if is_control(c) {
        seq!['\\', 'u', '0', '0', hex_digit((c as u32) as int / 16), hex_digit((c as u32) as int % 16)]
    } else {
        seq![c]
    }
}

/// How `text` is written inside a TOML basic string.
pub open spec fn escaped(text: Seq<char>) -> Seq<char>
    decreases text.len(),
{
    if text.len() == 0 {
        Seq::empty()
    } else {
        escaped(text.drop_last()) + escaped_char(text.last())
    }
}

/// Where the configuration file is looked for when none is named: the file
/// `.todo.toml` in the home directory.
pub open spec fn config_path_under(home: Seq<char>) -> Seq<char> {
    home + "/.todo.toml"@
}

/// Where a fresh configuration puts the task file: the file `todo.txt` in
/// the home directory.
pub open spec fn task_path_under(home: Seq<char>) -> Seq<char> {
    home + "/todo.txt"@
}

/// The text of a fresh configuration: one `path` key, set to the task file
/// in the home directory, written as a basic string.
pub open spec fn fresh_config_text(home: Seq<char>) -> Seq<char> {
    "path = \""@ + escaped(task_path_under(home)) + "\""@
}

/// Whether the fresh configuration for `home` says what it is meant to say:
/// read as a configuration, it names the task file in the home directory.
pub open spec fn fresh_config_is_sound(home: Seq<char>) -> bool {
    config_of_text(fresh_config_text(home)) == Ok::<ConfigView, ConfigError>(
        ConfigView { path: task_path_under(home) },
    )
}

/// The configuration that a looked-up `path` entry stands for. The outer
/// `Option` says whether the document has the key, the inner one whether its
/// value is a string.
pub open spec fn config_of_entry(entry: Option<Option<Seq<char>>>) -> Result<
    ConfigView,
    ConfigError,
> {
    match entry {
        Some(Some(path)) => Ok(ConfigView { path }),
        Some(None) => Err(ConfigError::PathNotText),
        None => Err(ConfigError::MissingPath),
    }
}

/// The `path` entry of a document with these top-level entries.
pub open spec fn path_entry(entries: Map<Seq<char>, Option<Seq<char>>>) -> Option<
    Option<Seq<char>>,
> {
    if entries.contains_key("path"@) {
        Some(entries["path"@])
    } else {
        None
    }
}

/// The configuration that a text stands for, given what the TOML parser
/// makes of the text. A text that nests deeper than `NESTING_LIMIT` stands
/// for none and is not shown to the parser.
pub open spec fn config_of_text(text: Seq<char>) -> Result<ConfigView, ConfigError> {
    if deepest_nesting(text) > NESTING_LIMIT {
        Err(ConfigError::TooNested)
    } else {
        match toml_document(text) {
            Some(entries) => config_of_entry(path_entry(entries)),
            None => Err(ConfigError::Syntax),
        }
    }
}

/// What the result of loading a configuration holds, as mathematical values.
pub open spec fn loaded_view(loaded: Result<Config, ConfigError>) -> Result<
    ConfigView,
    ConfigError,
> {
    match loaded {
        Ok(config) => Ok(config@),
        Err(error) => Err(error),
    }
}

/// The text of one hex digit.
fn hex_digit_text(value: u32) -> (digit: &'static str)
    requires
        value < 16,
    ensures
        digit@ == seq![hex_digit(value as int)],
{
    proof {
        reveal_strlit("0");
        reveal_strlit("1");
        reveal_strlit("2");
        reveal_strlit("3");
        reveal_strlit("4");
        reveal_strlit("5");
        reveal_strlit("6");
        reveal_strlit("7");
        reveal_strlit("8");
        reveal_strlit("9");
        reveal_strlit("a");
        reveal_strlit("b");
        reveal_strlit("c");
        reveal_strlit("d");
        reveal_strlit("e");
        reveal_strlit("f");
    }
    let digit = match value {
        0 => "0",
        1 => "1",
        2 => "2",
        3 => "3",
        4 => "4",
        5 => "5",
        6 => "6",
        7 => "7",
        8 => "8",
        9 => "9",
        10 => "a",
        11 => "b",
        12 => "c",
        13 => "d",
        14 => "e",
        _ => "f",
    };
    assert(digit@ =~= seq![hex_digit(value as int)]);
    digit
}

/// Writes `text` as it stands inside a TOML basic string.
pub fn escape(text: &str) -> (written: String)
    ensures
        written@ == escaped(text@),
{
    let length = text.unicode_len();
    let mut written = String::new();
    let mut index: usize = 0;
    while index < length
        invariant
            length == text@.len(),
            index <= length,
            written@ == escaped(text@.take(index as int)),
        decreases length - index,
    {
        let c = text.get_char(index);
        let code: u32 = c as u32;
        proof {
            reveal_strlit("\\\"");
            reveal_strlit("\\\\");
            reveal_strlit("\\u00");
            assert(text@.take(index + 1).drop_last() =~= text@.take(index as int));
            assert(text@.take(index + 1).last() == c);
        }
        if c == '"' {
            written.append("\\\"");
            assert(written@ =~= escaped(text@.take(index + 1)));
        } else if c == '\\' {
            written.append("\\\\");
            assert(written@ =~= escaped(text@.take(index + 1)));
        } else if code < 0x20 || code == 0x7f {
            written.append("\\u00");
            written.append(hex_digit_text(code / 16));
            written.append(hex_digit_text(code % 16));
            assert(written@ =~= escaped(text@.take(index + 1)));
        } else {
            written.append(text.substring_char(index, index + 1));
            assert(text@.subrange(index as int, index + 1) =~= seq![c]);
            assert(written@ =~= escaped(text@.take(index + 1)));
        }
        index = index + 1;
    }
    proof {
        assert(text@.take(index as int) =~= text@);
    }
    written
}

impl Config {
    /// Where the configuration file is looked for when none is named.
    pub fn default_path(home: &str) -> (path: String)
        ensures
            path@ == config_path_under(home@),
    {
        home.to_owned().concat("/.todo.toml")
    }

    /// Where a fresh configuration puts the task file.
    pub fn default_task_path(home: &str) -> (path: String)
        ensures
            path@ == task_path_under(home@),
    {
        home.to_owned().concat("/todo.txt")
    }

    /// The text written to a configuration file that did not exist yet.
    pub fn fresh_text(home: &str) -> (text: String)
        ensures
            text@ == fresh_config_text(home@),
    {
        let path = Config::default_task_path(home);
        let mut text = "path = \"".to_owned();
        text.append(escape(path.as_str()).as_str());
        text.append("\"");
        text
    }

    /// The text to write to a configuration file that did not exist yet,
    /// where that text is sound: read back, it names the task file in the
    /// home directory. `None` where it is not.
    pub fn sound_fresh_text(home: &str) -> (text: Option<String>)
        ensures
            text is Some <==> fresh_config_is_sound(home@),
            text matches Some(t) ==> t@ == fresh_config_text(home@),
    {
        let text = Config::fresh_text(home);
        match Config::from_toml(text.as_str()) {
            Ok(config) => {
                let wanted = Config::default_task_path(home);
                if config.path == wanted {
                    Some(text)
                } else {
                    None
                }
            },
            Err(_) => None,
        }
    }

    /// The configuration that a looked-up `path` entry stands for: the path
    /// where the entry is a string, else what is wrong with it.
    pub fn from_entry(entry: Option<Option<String>>) -> (loaded: Result<Config, ConfigError>)
        ensures
            loaded_view(loaded) == config_of_entry(entry.deep_view()),
    {
        match entry {
            Some(Some(path)) => Ok(Config { path }),
            Some(None) => Err(ConfigError::PathNotText),
            None => Err(ConfigError::MissingPath),
        }
    }

    /// Reads a configuration from the text of a TOML document. A document
    /// with a `path` key whose value is a string yields a configuration with
    /// that very string as its path, whatever else the document holds. A
    /// text that nests deeper than `NESTING_LIMIT` is refused unread.
    pub fn from_toml(text: &str) -> (loaded: Result<Config, ConfigError>)
        ensures
            loaded_view(loaded) == config_of_text(text@),
    {
        if too_deep(text) {
            return Err(ConfigError::TooNested);
        }
        match parse_toml(text) {
            Ok(document) => Config::from_entry(text_entry(&document, "path")),
            Err(_) => Err(ConfigError::Syntax),
        }
    }
}

/// A TOML document that has a `path` key whose value is a string is a
/// configuration, and the configuration's path is that string, as long as
/// the text nests no deeper than is read.
pub proof fn lemma_path_key_is_the_path(
    text: Seq<char>,
    entries: Map<Seq<char>, Option<Seq<char>>>,
    path: Seq<char>,
)
    requires
        deepest_nesting(text) <= NESTING_LIMIT,
        toml_document(text) == Some(entries),
        entries.contains_key("path"@),
        entries["path"@] == Some(path),
    ensures
        config_of_text(text) == Ok::<ConfigView, ConfigError>(ConfigView { path }),
{
}

/// A scan that stands in a basic string and has met no nesting.
pub open spec fn in_flat_string(scan: Scan) -> bool {
    &&& scan.mode == Mode::Basic || scan.mode == Mode::BasicOpen1
    &&& scan.deepest == 0
}

/// A character other than a quote, a backslash and a line feed leaves a
/// scan in its basic string.
proof fn lemma_step_in_string(scan: Scan, c: char)
    requires
        in_flat_string(scan),
        c != '"',
        c != '\\',
        c != '\n',
    ensures
        scan_step(scan, c).mode == Mode::Basic,
        scan_step(scan, c).deepest == 0,
{
}

/// A backslash and the character after it leave a scan in its basic string.
proof fn lemma_step_escape(scan: Scan, c: char)
    requires
        in_flat_string(scan),
    ensures
        scan_step(scan_step(scan, '\\'), c).mode == Mode::Basic,
        scan_step(scan_step(scan, '\\'), c).deepest == 0,
{
}

/// No hex digit is a quote, a backslash or a line feed.
proof fn lemma_hex_digit_is_plain(value: int)
    ensures
        hex_digit(value) != '"',
        hex_digit(value) != '\\',
        hex_digit(value) != '\n',
{
}

/// An escaped control character does not end the basic string it stands in.
proof fn lemma_escaped_control_stays_in_string(start: Scan, c: char)
    requires
        in_flat_string(start),
        c != '"',
        c != '\\',
        is_control(c),
    ensures
        in_flat_string(scan_from(start, escaped_char(c))),
        scan_from(start, escaped_char(c)).mode == Mode::Basic,
{
    let none = Seq::<char>::empty();
    let h1 = hex_digit((c as u32) as int / 16);
    let h2 = hex_digit((c as u32) as int % 16);
    let w1 = none.push('\\');
    let w2 = w1.push('u');
    let w3 = w2.push('0');
    let w4 = w3.push('0');
    let w5 = w4.push(h1);
    lemma_scan_push(start, none, '\\');
    lemma_scan_push(start, w1, 'u');
    lemma_scan_push(start, w2, '0');
    lemma_scan_push(start, w3, '0');
    lemma_scan_push(start, w4, h1);
    lemma_scan_push(start, w5, h2);
    assert(escaped_char(c) =~= w5.push(h2));
    lemma_hex_digit_is_plain((c as u32) as int / 16);
    lemma_hex_digit_is_plain((c as u32) as int % 16);
    lemma_step_escape(start, 'u');
    let s2 = scan_from(start, w2);
    lemma_step_in_string(s2, '0');
    let s3 = scan_from(start, w3);
    lemma_step_in_string(s3, '0');
    let s4 = scan_from(start, w4);
    lemma_step_in_string(s4, h1);
    let s5 = scan_from(start, w5);
    lemma_step_in_string(s5, h2);
}

/// One escaped character does not end the basic string it stands in.
proof fn lemma_escaped_char_stays_in_string(start: Scan, c: char)
    requires
        in_flat_string(start),
    ensures
        in_flat_string(scan_from(start, escaped_char(c))),
        scan_from(start, escaped_char(c)).mode == Mode::Basic,
{
    let none = Seq::<char>::empty();
    if c == '"' || c == '\\' {
        lemma_scan_push(start, none, '\\');
        lemma_scan_push(start, none.push('\\'), c);
        assert(escaped_char(c) =~= none.push('\\').push(c));
        lemma_step_escape(start, c);
    } else if is_control(c) {
        lemma_escaped_control_stays_in_string(start, c);
    } else {
        lemma_scan_push(start, none, c);
        assert(escaped_char(c) =~= none.push(c));
        assert(c != '\n');
        lemma_step_in_string(start, c);
    }
}

/// Escaped text does not end the basic string it stands in: a scan that is
/// in the string before it is in the string after it, and has met no
/// nesting.
pub proof fn lemma_escaped_stays_in_string(start: Scan, text: Seq<char>)
    requires
        in_flat_string(start),
    ensures
        in_flat_string(scan_from(start, escaped(text))),
    decreases text.len(),
{
    if text.len() > 0 {
        lemma_escaped_stays_in_string(start, text.drop_last());
        lemma_scan_join(start, escaped(text.drop_last()), escaped_char(text.last()));
        lemma_escaped_char_stays_in_string(
            scan_from(start, escaped(text.drop_last())),
            text.last(),
        );
    }
}

/// A scan that stands outside strings, comments, brackets and headers, and
/// has met no nesting.
pub open spec fn at_rest(scan: Scan) -> bool {
    &&& scan.mode == Mode::Plain
    &&& scan.key == 0
    &&& scan.open.len() == 0
    &&& scan.header == 0
    &&& !scan.in_header
    &&& scan.deepest == 0
}

/// A character that opens nothing and is no period leaves a scan at rest.
proof fn lemma_step_at_rest(scan: Scan, c: char)
    requires
        at_rest(scan),
        c != '[',
        c != '{',
        c != '.',
        c != '"',
        c != '\'',
        c != '#',
    ensures
        at_rest(scan_step(scan, c)),
{
    assert(scan.open =~= Seq::<nat>::empty());
    assert(levels(Seq::<nat>::empty()) == 0);
}

/// A double quote takes a scan at rest into a basic string.
proof fn lemma_step_into_string(scan: Scan)
    requires
        at_rest(scan),
    ensures
        in_flat_string(scan_step(scan, '"')),
{
}

/// The scan after the opening of a fresh configuration stands in a basic
/// string.
proof fn lemma_fresh_opening_is_flat()
    ensures
        in_flat_string(scanned("path = \""@)),
{
    reveal_strlit("path = \"");
    let none = Seq::<char>::empty();
    let start = scan_start();
    let o1 = none.push('p');
    let o2 = o1.push('a');
    let o3 = o2.push('t');
    let o4 = o3.push('h');
    let o5 = o4.push(' ');
    let o6 = o5.push('=');
    let o7 = o6.push(' ');
    assert("path = \""@ =~= o7.push('"'));
    lemma_scan_push(start, none, 'p');
    lemma_step_at_rest(start, 'p');
    lemma_scan_push(start, o1, 'a');
    lemma_step_at_rest(scan_from(start, o1), 'a');
    lemma_scan_push(start, o2, 't');
    lemma_step_at_rest(scan_from(start, o2), 't');
    lemma_scan_push(start, o3, 'h');
    lemma_step_at_rest(scan_from(start, o3), 'h');
    lemma_scan_push(start, o4, ' ');
    lemma_step_at_rest(scan_from(start, o4), ' ');
    lemma_scan_push(start, o5, '=');
    lemma_step_at_rest(scan_from(start, o5), '=');
    lemma_scan_push(start, o6, ' ');
    lemma_step_at_rest(scan_from(start, o6), ' ');
    lemma_scan_push(start, o7, '"');
    lemma_step_into_string(scan_from(start, o7));
}

/// A fresh configuration does not nest at all, whatever the home directory
/// is called: it is never refused for its depth.
pub proof fn lemma_fresh_config_is_flat(home: Seq<char>)
    ensures
        deepest_nesting(fresh_config_text(home)) == 0,
{
    let opening = "path = \""@;
    let middle = escaped(task_path_under(home));
    reveal_strlit("\"");
    lemma_fresh_opening_is_flat();
    lemma_escaped_stays_in_string(scanned(opening), task_path_under(home));
    lemma_scan_join(scan_start(), opening, middle);
    lemma_scan_push(scan_start(), opening + middle, '"');
    assert(fresh_config_text(home) =~= (opening + middle).push('"'));
}

} // verus!
