//! How deep a TOML text nests.
//!
//! A TOML parser follows nested values down its call stack, so a text that
//! nests without end brings it down. Three things nest: an array or inline
//! table inside another, each further part of a dotted key, and each part of
//! a table header, under which the lines that follow stand. This module
//! measures the depth that a text reaches, reading it as the parser's
//! tokenizer does: what stands in a string or a comment does not count, and
//! what is closed again does not add up.
//!
//! The measure counts what is written. The parser may go down two levels
//! where the text shows one, namely for a header part that names an array of
//! tables, so its own depth is at most twice the measure.

use vstd::prelude::*;

verus! {

/// The deepest nesting that is read. The top level of a document is depth
/// 0. The parser copes with twice this depth on a thread with a stack of two
/// megabytes.
pub const NESTING_LIMIT: usize = 128;

/// Where in the text's lexical structure a scan stands.
#[derive(Clone, Copy, Debug, PartialEq, Eq, Structural)]
pub enum Mode {
    /// Outside strings and comments.
    Plain,
    /// In a comment, which ends with its line.
    Comment,
    /// After one double quote.
    BasicOpen1,
    /// After two double quotes.
    BasicOpen2,
    /// In a basic string.
    Basic,
    /// After a backslash in a basic string.
    BasicEscape,
    /// In a multi-line basic string.
    MultiBasic,
    /// After a backslash in a multi-line basic string.
    MultiBasicEscape,
    /// After one double quote in a multi-line basic string.
    MultiBasicClose1,
    /// After two double quotes in a multi-line basic string.
    MultiBasicClose2,
    /// After one single quote.
    LiteralOpen1,
    /// After two single quotes.
    LiteralOpen2,
    /// In a literal string.
    Literal,
    /// In a multi-line literal string.
    MultiLiteral,
    /// After one single quote in a multi-line literal string.
    MultiLiteralClose1,
    /// After two single quotes in a multi-line literal string.
    MultiLiteralClose2,
}

/// Whether `c` ends a comment: any control character but the tab.
pub open spec fn ends_comment(c: char) -> bool {
    c != '\t' && (c as u32) < 0x20
}

/// What `c` is outside strings and comments: the mode after it, and whether
/// it belongs to the document's structure.
pub open spec fn lex_plain(c: char) -> (Mode, bool) {
    if c == '"' {
        (Mode::BasicOpen1, false)
    } else if c == '\'' {
        (Mode::LiteralOpen1, false)
    } else if c == '#' {
        (Mode::Comment, false)
    } else {
        (Mode::Plain, true)
    }
}

/// What `c` is in a basic string. A line feed ends the string, which the
/// parser refuses; the scan reads on as if the string were closed.
pub open spec fn lex_basic(c: char) -> (Mode, bool) {
    if c == '"' {
        (Mode::Plain, false)
    } else if c == '\\' {
        (Mode::BasicEscape, false)
    } else if c == '\n' {
        (Mode::Plain, true)
    } else {
        (Mode::Basic, false)
    }
}

/// What `c` is in a literal string.
pub open spec fn lex_literal(c: char) -> (Mode, bool) {
    if c == '\'' {
        (Mode::Plain, false)
    } else if c == '\n' {
        (Mode::Plain, true)
    } else {
        (Mode::Literal, false)
    }
}

/// What `c` is in a multi-line basic string.
pub open spec fn lex_multi_basic(c: char) -> (Mode, bool) {
    if c == '"' {
        (Mode::MultiBasicClose1, false)
    } else if c == '\\' {
        (Mode::MultiBasicEscape, false)
    } else {
        (Mode::MultiBasic, false)
    }
}

/// What `c` is in a multi-line literal string.
pub open spec fn lex_multi_literal(c: char) -> (Mode, bool) {
    if c == '\'' {
        (Mode::MultiLiteralClose1, false)
    } else {
        (Mode::MultiLiteral, false)
    }
}

/// What `c` is when it comes in `mode`: the mode after it, and whether it
/// belongs to the document's structure.
pub open spec fn lex(mode: Mode, c: char) -> (Mode, bool) {
    match mode {
        Mode::Plain => lex_plain(c),
        Mode::Comment => if ends_comment(c) {
            (Mode::Plain, true)
        } else {
            (Mode::Comment, false)
        },
        Mode::BasicOpen1 => if c == '"' {
            (Mode::BasicOpen2, false)
        } else {
            lex_basic(c)
        },
        Mode::BasicOpen2 => if c == '"' {
            (Mode::MultiBasic, false)
        } else {
            lex_plain(c)
        },
        Mode::Basic => lex_basic(c),
        Mode::BasicEscape => (Mode::Basic, false),
        Mode::MultiBasic => lex_multi_basic(c),
        Mode::MultiBasicEscape => (Mode::MultiBasic, false),
        Mode::MultiBasicClose1 => if c == '"' {
            (Mode::MultiBasicClose2, false)
        } else {
            lex_multi_basic(c)
        },
        Mode::MultiBasicClose2 => if c == '"' {
            (Mode::Plain, false)
        } else {
            lex_multi_basic(c)
        },
        Mode::LiteralOpen1 => if c == '\'' {
            (Mode::LiteralOpen2, false)
        } else {
            lex_literal(c)
        },
        Mode::LiteralOpen2 => if c == '\'' {
            (Mode::MultiLiteral, false)
        } else {
            lex_plain(c)
        },
        Mode::Literal => lex_literal(c),
        Mode::MultiLiteral => lex_multi_literal(c),
        Mode::MultiLiteralClose1 => if c == '\'' {
            (Mode::MultiLiteralClose2, false)
        } else {
            lex_multi_literal(c)
        },
        Mode::MultiLiteralClose2 => if c == '\'' {
            (Mode::Plain, false)
        } else {
            lex_multi_literal(c)
        },
    }
}

/// The levels that open brackets account for: one for each bracket, and one
/// more for each period that stands directly inside it, since its last
/// comma.
pub open spec fn levels(open: Seq<nat>) -> nat
    decreases open.len(),
{
    if open.len() == 0 {
        0
    } else {
        levels(open.drop_last()) + open.last() + 1
    }
}

/// A scan of a text, part of the way through.
pub struct Scan {
    pub mode: Mode,
    /// The periods of the statement at hand that stand outside all brackets.
    pub key: nat,
    /// For each open bracket, outermost first, the periods directly inside
    /// it since its last comma.
    pub open: Seq<nat>,
    /// The depth of the table that the last header opened.
    pub header: nat,
    /// Whether the line at hand is a table header.
    pub in_header: bool,
    /// Whether the statement at hand has come to its value.
    pub in_value: bool,
    /// The deepest nesting met so far.
    pub deepest: nat,
}

/// The scan before the first character.
pub open spec fn scan_start() -> Scan {
    Scan {
        mode: Mode::Plain,
        key: 0,
        open: Seq::empty(),
        header: 0,
        in_header: false,
        in_value: false,
        deepest: 0,
    }
}

/// The scan after a character of the document's structure. A bracket opens
/// a level and its partner closes it; a period adds a level where it stands
/// and a comma takes those levels back; a line feed outside all brackets
/// ends the statement. An opening square bracket at the start of a statement
/// starts a table header.
pub open spec fn after_structure(scan: Scan, c: char) -> Scan {
    if c == '[' || c == '{' {
        if c == '[' && scan.open.len() == 0 && !scan.in_value && !scan.in_header {
            Scan { open: scan.open.push(0), header: 0, in_header: true, ..scan }
        } else {
            Scan { open: scan.open.push(0), ..scan }
        }
    } else if c == ']' || c == '}' {
        if scan.open.len() > 0 {
            Scan { open: scan.open.drop_last(), ..scan }
        } else {
            scan
        }
    } else if c == '.' {
        if scan.open.len() > 0 {
            Scan { open: scan.open.drop_last().push(scan.open.last() + 1), ..scan }
        } else {
            Scan { key: scan.key + 1, ..scan }
        }
    } else if c == ',' {
        if scan.open.len() > 0 {
            Scan { open: scan.open.drop_last().push(0), ..scan }
        } else {
            scan
        }
    } else if c == '=' {
        if scan.open.len() == 0 {
            Scan { in_value: true, ..scan }
        } else {
            scan
        }
    } else if c == '\n' {
        if scan.open.len() == 0 {
            Scan { key: 0, in_header: false, in_value: false, ..scan }
        } else {
            scan
        }
    } else {
        scan
    }
}

/// The nesting that a scan stands at, below the table of the last header.
pub open spec fn reach(scan: Scan) -> nat {
    scan.key + levels(scan.open)
}

/// The scan with its depths brought up to date: in a header the header's
/// depth grows with the nesting, elsewhere the nesting stands under the
/// header's depth.
pub open spec fn measured(scan: Scan) -> Scan {
    let header = if scan.in_header && reach(scan) > scan.header {
        reach(scan)
    } else {
        scan.header
    };
    let depth = if scan.in_header {
        header
    } else {
        header + reach(scan)
    };
    Scan { header, deepest: if depth > scan.deepest { depth } else { scan.deepest }, ..scan }
}

/// The scan after one more character.
pub open spec fn scan_step(scan: Scan, c: char) -> Scan {
    let (mode, structure) = lex(scan.mode, c);
    let moved = Scan { mode, ..scan };
    if structure {
        measured(after_structure(moved, c))
    } else {
        moved
    }
}

/// The scan that `start` has become after `text`.
pub open spec fn scan_from(start: Scan, text: Seq<char>) -> Scan
    decreases text.len(),
{
    if text.len() == 0 {
        start
    } else {
        scan_step(scan_from(start, text.drop_last()), text.last())
    }
}

/// The scan after all of `text`.
pub open spec fn scanned(text: Seq<char>) -> Scan {
    scan_from(scan_start(), text)
}

/// The deepest nesting that `text` reaches.
pub open spec fn deepest_nesting(text: Seq<char>) -> nat {
    scanned(text).deepest
}

/// A text nests at least as deep as each of its beginnings.
pub proof fn lemma_nesting_grows(text: Seq<char>, length: int)
    requires
        0 <= length <= text.len(),
    ensures
        deepest_nesting(text.take(length)) <= deepest_nesting(text),
    decreases text.len() - length,
{
    if length < text.len() {
        lemma_nesting_grows(text, length + 1);
        assert(text.take(length + 1).drop_last() =~= text.take(length));
    } else {
        assert(text.take(length) =~= text);
    }
}

/// Scanning a text and one more character is a step from scanning the text.
pub proof fn lemma_scan_push(start: Scan, text: Seq<char>, c: char)
    ensures
        scan_from(start, text.push(c)) == scan_step(scan_from(start, text), c),
        scan_from(start, Seq::<char>::empty()) == start,
{
    assert(text.push(c).drop_last() =~= text);
}

/// Scanning two texts on end is scanning the one and then the other.
pub proof fn lemma_scan_join(start: Scan, first: Seq<char>, second: Seq<char>)
    ensures
        scan_from(start, first + second) == scan_from(scan_from(start, first), second),
    decreases second.len(),
{
    if second.len() == 0 {
        assert(first + second =~= first);
    } else {
        lemma_scan_join(start, first, second.drop_last());
        assert((first + second).drop_last() =~= first + second.drop_last());
    }
}

/// The state of a scan as the running code holds it.
struct Scanner {
    mode: Mode,
    key: usize,
    open: Vec<usize>,
    header: usize,
    in_header: bool,
    in_value: bool,
    /// The nesting that the scan stands at.
    reach: usize,
}

impl Scanner {
    /// Whether this scanner holds `scan`, all but the deepest nesting.
    spec fn holds(&self, scan: Scan) -> bool {
        &&& self.mode == scan.mode
        &&& self.key == scan.key
        &&& self.open@.len() == scan.open.len()
        &&& forall|i: int| 0 <= i < scan.open.len() ==> self.open@[i] as nat == scan.open[i]
        &&& self.header == scan.header
        &&& self.in_header == scan.in_header
        &&& self.in_value == scan.in_value
        &&& self.reach == reach(scan)
    }
}

/// What `c` is when it comes in `mode`.
fn lex_char(mode: Mode, c: char) -> (read: (Mode, bool))
    ensures
        read == lex(mode, c),
{
    let plain = if c == '"' {
        (Mode::BasicOpen1, false)
    } else if c == '\'' {
        (Mode::LiteralOpen1, false)
    } else if c == '#' {
        (Mode::Comment, false)
    } else {
        (Mode::Plain, true)
    };
    let basic = if c == '"' {
        (Mode::Plain, false)
    } else if c == '\\' {
        (Mode::BasicEscape, false)
    } else if c == '\n' {
        (Mode::Plain, true)
    } else {
        (Mode::Basic, false)
    };
    let literal = if c == '\'' {
        (Mode::Plain, false)
    } else if c == '\n' {
        (Mode::Plain, true)
    } else {
        (Mode::Literal, false)
    };
    let multi_basic = if c == '"' {
        (Mode::MultiBasicClose1, false)
    } else if c == '\\' {
        (Mode::MultiBasicEscape, false)
    } else {
        (Mode::MultiBasic, false)
    };
    let multi_literal = if c == '\'' {
        (Mode::MultiLiteralClose1, false)
    } else {
        (Mode::MultiLiteral, false)
    };
    let code: u32 = c as u32;
    match mode {
        Mode::Plain => plain,
        Mode::Comment => if c != '\t' && code < 0x20 {
            (Mode::Plain, true)
        } else {
            (Mode::Comment, false)
        },
        Mode::BasicOpen1 => if c == '"' {
            (Mode::BasicOpen2, false)
        } else {
            basic
        },
        Mode::BasicOpen2 => if c == '"' {
            (Mode::MultiBasic, false)
        } else {
            plain
        },
        Mode::Basic => basic,
        Mode::BasicEscape => (Mode::Basic, false),
        Mode::MultiBasic => multi_basic,
        Mode::MultiBasicEscape => (Mode::MultiBasic, false),
        Mode::MultiBasicClose1 => if c == '"' {
            (Mode::MultiBasicClose2, false)
        } else {
            multi_basic
        },
        Mode::MultiBasicClose2 => if c == '"' {
            (Mode::Plain, false)
        } else {
            multi_basic
        },
        Mode::LiteralOpen1 => if c == '\'' {
            (Mode::LiteralOpen2, false)
        } else {
            literal
        },
        Mode::LiteralOpen2 => if c == '\'' {
            (Mode::MultiLiteral, false)
        } else {
            plain
        },
        Mode::Literal => literal,
        Mode::MultiLiteral => multi_literal,
        Mode::MultiLiteralClose1 => if c == '\'' {
            (Mode::MultiLiteralClose2, false)
        } else {
            multi_literal
        },
        Mode::MultiLiteralClose2 => if c == '\'' {
            (Mode::Plain, false)
        } else {
            multi_literal
        },
    }
}

/// Takes a character of the document's structure into the scanner.
fn take_structure(scanner: Scanner, c: char, Ghost(scan): Ghost<Scan>) -> (next: Scanner)
    requires
        scanner.holds(scan),
        scanner.reach <= NESTING_LIMIT,
        scanner.header <= NESTING_LIMIT,
    ensures
        next.holds(after_structure(scan, c)),
        next.reach <= NESTING_LIMIT + 1,
        next.header <= NESTING_LIMIT,
{
    let mut next = scanner;
    let ghost after = after_structure(scan, c);
    if c == '[' || c == '{' {
        if c == '[' && next.open.len() == 0 && !next.in_value && !next.in_header {
            next.header = 0;
            next.in_header = true;
        }
        next.open.push(0);
        next.reach = next.reach + 1;
        proof {
            assert(after.open.drop_last() =~= scan.open);
        }
    } else if c == ']' || c == '}' {
        if next.open.len() > 0 {
            let last = next.open.pop().unwrap();
            next.reach = next.reach - last - 1;
        }
    } else if c == '.' {
        if next.open.len() > 0 {
            let last = next.open.pop().unwrap();
            proof {
                assert(after.open.drop_last() =~= scan.open.drop_last());
            }
            next.open.push(last + 1);
        } else {
            next.key = next.key + 1;
        }
        next.reach = next.reach + 1;
    } else if c == ',' {
        if next.open.len() > 0 {
            let last = next.open.pop().unwrap();
            proof {
                assert(after.open.drop_last() =~= scan.open.drop_last());
            }
            next.open.push(0);
            next.reach = next.reach - last;
        }
    } else if c == '=' {
        if next.open.len() == 0 {
            next.in_value = true;
        }
    } else if c == '\n' {
        if next.open.len() == 0 {
            proof {
                assert(levels(scan.open) == 0);
            }
            next.reach = next.reach - next.key;
            next.key = 0;
            next.in_header = false;
            next.in_value = false;
        }
    }
    next
}

/// Tells whether a text nests deeper than is read.
pub fn too_deep(text: &str) -> (refused: bool)
    ensures
        refused == (deepest_nesting(text@) > NESTING_LIMIT),
{
    let mut scanner = Scanner {
        mode: Mode::Plain,
        key: 0,
        open: Vec::new(),
        header: 0,
        in_header: false,
        in_value: false,
        reach: 0,
    };
    for c in it: text.chars()
        invariant
            it.seq() == text@,
            scanner.holds(scanned(text@.take(it.index() as int))),
            scanner.reach <= NESTING_LIMIT,
            scanner.header <= NESTING_LIMIT,
            deepest_nesting(text@.take(it.index() as int)) <= NESTING_LIMIT,
    {
        let ghost at = it.index() as int;
        let ghost before = scanned(text@.take(at));
        proof {
            assert(text@.take(at + 1).drop_last() =~= text@.take(at));
            assert(text@.take(at + 1).last() == c);
            assert(scanned(text@.take(at + 1)) == scan_step(before, c));
        }
        let (mode, structure) = lex_char(scanner.mode, c);
        scanner.mode = mode;
        if structure {
            let ghost moved = Scan { mode, ..before };
            scanner = take_structure(scanner, c, Ghost(moved));
            if scanner.in_header {
                if scanner.reach > scanner.header {
                    if scanner.reach > NESTING_LIMIT {
                        proof {
                            lemma_nesting_grows(text@, at + 1);
                        }
                        return true;
                    }
                    scanner.header = scanner.reach;
                }
            } else if scanner.reach > NESTING_LIMIT - scanner.header {
                proof {
                    lemma_nesting_grows(text@, at + 1);
                }
                return true;
            }
        }
    }
    proof {
        assert(text@.take(text@.len() as int) =~= text@);
    }
    false
}

} // verus!
