//! The log of the background instance, line by line.
//!
//! One pass over the bytes of the log file gives its lines in file order. A
//! line that is not text is reported in its place and the pass goes on.

use crate::text::{decode_text, text_of};
use vstd::prelude::*;

verus! {

/// One line of the log.
#[derive(Debug, PartialEq, Eq)]
pub enum LogLine {
    /// The line, without its line ending.
    Text(String),
    /// The bytes of the line are not UTF-8.
    Unreadable,
}

/// The mathematical content of a [`LogLine`].
pub enum LogLineView {
    Text(Seq<char>),
    Unreadable,
}

impl View for LogLine {
    type V = LogLineView;

    open spec fn view(&self) -> LogLineView {
        match self {
            LogLine::Text(t) => LogLineView::Text(t@),
            LogLine::Unreadable => LogLineView::Unreadable,
        }
    }
}

/// The views of a list of lines, in order.
pub open spec fn lines_view(lines: Seq<LogLine>) -> Seq<LogLineView> {
    lines.map_values(|l: LogLine| l@)
}

/// The bytes of the line `s[start..end]` whose line feed stands at `end`: a
/// carriage return just before the line feed belongs to the line ending.
pub open spec fn closed_line(s: Seq<u8>, start: int, end: int) -> Seq<u8> {
    if start < end && s[end - 1] == 13 {
        s.subrange(start, end - 1)
    } else {
        s.subrange(start, end)
    }
}

/// What a reader sees of the bytes of one line.
pub open spec fn read_line(bytes: Seq<u8>) -> LogLineView {
    match text_of(bytes) {
        Some(t) => LogLineView::Text(t),
        None => LogLineView::Unreadable,
    }
}

/// The lines of `s` from the line that starts at `start`, where the bytes
/// before `at` are known to hold no line feed of that line.
///
/// A line ends at a line feed. Bytes after the last line feed form a last
/// line; where there are none, no empty line follows.
pub open spec fn lines_from(s: Seq<u8>, start: int, at: int) -> Seq<LogLineView>
    decreases s.len() - at,
{
    if at >= s.len() {
        if start < s.len() {
            seq![read_line(s.subrange(start, s.len() as int))]
        } else {
            Seq::empty()
        }
    } else if s[at] == 10 {
        seq![read_line(closed_line(s, start, at))] + lines_from(s, at + 1, at + 1)
    } else {
        lines_from(s, start, at + 1)
    }
}

/// The lines of a log file with the given content.
pub open spec fn tail_of(content: Seq<u8>) -> Seq<LogLineView> {
    lines_from(content, 0, 0)
}

/// No more lines than bytes: the pass is finite.
pub proof fn lemma_lines_bounded(s: Seq<u8>, start: int, at: int)
    requires
        0 <= start <= at <= s.len(),
    ensures
        lines_from(s, start, at).len() <= s.len() - start,
    decreases s.len() - at,
{
    if at < s.len() {
        if s[at] == 10 {
            lemma_lines_bounded(s, at + 1, at + 1);
        } else {
            lemma_lines_bounded(s, start, at + 1);
        }
    }
}

fn copy_range(content: &[u8], from: usize, to: usize) -> (bytes: Vec<u8>)
    requires
        from <= to <= content@.len(),
    ensures
        bytes@ == content@.subrange(from as int, to as int),
{
    let mut bytes: Vec<u8> = Vec::new();
    let mut i: usize = from;
    while i < to
        invariant
            from <= i <= to <= content@.len(),
            bytes@ == content@.subrange(from as int, i as int),
        decreases to - i,
    {
        bytes.push(content[i]);
        assert(bytes@ =~= content@.subrange(from as int, i + 1));
        i += 1;
    }
    bytes
}

fn line_at(content: &[u8], from: usize, to: usize) -> (line: LogLine)
    requires
        from <= to <= content@.len(),
    ensures
        line@ == read_line(content@.subrange(from as int, to as int)),
{
    match decode_text(copy_range(content, from, to)) {
        Some(t) => LogLine::Text(t),
        None => LogLine::Unreadable,
    }
}

/// Splits the content of the log file into its lines.
pub fn tail(content: &[u8]) -> (lines: Vec<LogLine>)
    ensures
        lines_view(lines@) == tail_of(content@),
        lines@.len() <= content@.len(),
{
    let len = content.len();
    let mut lines: Vec<LogLine> = Vec::new();
    let mut start: usize = 0;
    let mut at: usize = 0;
    while at < len
        invariant
            start <= at <= len == content@.len(),
            tail_of(content@) == lines_view(lines@) + lines_from(
                content@,
                start as int,
                at as int,
            ),
        decreases len - at,
    {
        if content[at] == 10 {
            let end: usize = if start < at && content[at - 1] == 13 {
                at - 1
            } else {
                at
            };
            let line = line_at(content, start, end);
            let ghost before = lines_view(lines@);
            lines.push(line);
            assert(lines_view(lines@) =~= before + seq![line@]);
            at += 1;
            start = at;
            assert(tail_of(content@) =~= lines_view(lines@) + lines_from(
                content@,
                start as int,
                at as int,
            ));
        } else {
            at += 1;
        }
    }
    if start < len {
        let line = line_at(content, start, len);
        let ghost before = lines_view(lines@);
        lines.push(line);
        assert(lines_view(lines@) =~= before + seq![line@]);
    }
    proof {
        assert(lines_view(lines@) =~= tail_of(content@));
        lemma_lines_bounded(content@, 0, 0);
        assert(lines_view(lines@).len() == lines@.len());
    }
    lines
}

} // verus!
