//! Splitting the bytes of a text file into lines.
//!
//! A line ends at a line feed. A carriage return directly before that line
//! feed belongs to the line ending, not to the line. What follows the last
//! line feed is a line of its own unless it is empty.

use vstd::prelude::*;

verus! {

/// The byte that ends a line.
pub const LINE_FEED: u8 = 10;

/// The byte that may stand before a line feed as part of the line ending.
pub const CARRIAGE_RETURN: u8 = 13;

/// The index of the first line feed at or after `from`, or `bytes.len()`
/// where there is none.
pub open spec fn line_end(bytes: Seq<u8>, from: int) -> int
    decreases bytes.len() - from,
{
    if from < 0 || from >= bytes.len() {
        bytes.len() as int
    } else if bytes[from] == LINE_FEED {
        from
    } else {
        line_end(bytes, from + 1)
    }
}

/// `line` without the carriage return at its end, if it has one.
pub open spec fn without_carriage_return(line: Seq<u8>) -> Seq<u8> {
    if line.len() > 0 && line.last() == CARRIAGE_RETURN {
        line.drop_last()
    } else {
        line
    }
}

/// The lines of `bytes` that start at or after `from`, where `from` is the
/// start of a line.
pub open spec fn lines_from(bytes: Seq<u8>, from: int) -> Seq<Seq<u8>>
    decreases bytes.len() - from,
{
    if from < 0 || from >= bytes.len() {
        Seq::empty()
    } else {
        let end = line_end(bytes, from);
        if end >= bytes.len() {
            seq![bytes.subrange(from, bytes.len() as int)]
        } else {
            proof {
                lemma_line_end_is_first(bytes, from);
            }
            seq![without_carriage_return(bytes.subrange(from, end))] + lines_from(bytes, end + 1)
        }
    }
}

/// The lines of a file that holds `bytes`.
pub open spec fn lines_of(bytes: Seq<u8>) -> Seq<Seq<u8>> {
    lines_from(bytes, 0)
}

/// `line_end` finds the first line feed: it lies in range, nothing before it
/// is a line feed, and it is one unless the bytes ran out.
pub proof fn lemma_line_end_is_first(bytes: Seq<u8>, from: int)
    requires
        0 <= from <= bytes.len(),
    ensures
        from <= line_end(bytes, from) <= bytes.len(),
        line_end(bytes, from) < bytes.len() ==> bytes[line_end(bytes, from)] == LINE_FEED,
        forall|i: int| from <= i < line_end(bytes, from) ==> bytes[i] != LINE_FEED,
    decreases bytes.len() - from,
{
    if from < bytes.len() && bytes[from] != LINE_FEED {
        lemma_line_end_is_first(bytes, from + 1);
    }
}

/// Splits a file's bytes into its lines.
pub fn split_lines(bytes: &[u8]) -> (lines: Vec<Vec<u8>>)
    ensures
        lines.deep_view() == lines_of(bytes@),
{
    let mut lines: Vec<Vec<u8>> = Vec::new();
    let mut start: usize = 0;
    while start < bytes.len()
        invariant
            start <= bytes.len(),
            lines.deep_view() + lines_from(bytes@, start as int) == lines_of(bytes@),
        decreases bytes.len() - start,
    {
        let ghost before = lines.deep_view();
        let mut line: Vec<u8> = Vec::new();
        let mut end: usize = start;
        while end < bytes.len() && bytes[end] != LINE_FEED
            invariant
                start <= end <= bytes.len(),
                line@ == bytes@.subrange(start as int, end as int),
                line_end(bytes@, start as int) == line_end(bytes@, end as int),
            decreases bytes.len() - end,
        {
            line.push(bytes[end]);
            end = end + 1;
        }
        let next: usize = if end < bytes.len() {
            let n: usize = line.len();
            if n > 0 && line[n - 1] == CARRIAGE_RETURN {
                line.pop();
            }
            end + 1
        } else {
            end
        };
        proof {
            let rest = lines_from(bytes@, next as int);
            assert(lines_from(bytes@, start as int) == seq![line@] + rest);
            assert(line.deep_view() =~= line@);
        }
        lines.push(line);
        proof {
            assert(lines.deep_view() =~= before.push(line@));
            assert(before.push(line@) + lines_from(bytes@, next as int) == before + (seq![line@]
                + lines_from(bytes@, next as int)));
        }
        start = next;
    }
    lines
}

} // verus!
