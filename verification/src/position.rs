//! Places in the source text, and how they follow from offsets.

use crate::chars::is_line_terminator;
use vstd::prelude::*;

verus! {

/// A place in the source text. Lines and columns are counted from one.
#[derive(Clone, Copy, Debug, PartialEq, Eq, Structural, PartialOrd, Ord, Hash)]
pub struct Position {
    pub line_number: u64,
    pub column_number: u64,
}

impl Position {
    /// A position from its line and column.
    pub fn new(line_number: u64, column_number: u64) -> (p: Position)
        requires
            line_number >= 1,
            column_number >= 1,
        ensures
            p.line_number == line_number,
            p.column_number == column_number,
    {
        Position { line_number, column_number }
    }

    /// The line, counted from one.
    pub fn line_number(&self) -> (n: u64)
        ensures
            n == self.line_number,
    {
        self.line_number
    }

    /// The column, counted from one.
    pub fn column_number(&self) -> (n: u64)
        ensures
            n == self.column_number,
    {
        self.column_number
    }

    /// Reading order: an earlier line, or the same line and an earlier
    /// column.
    pub open spec fn spec_precedes(self, other: Position) -> bool {
        self.line_number < other.line_number || (self.line_number == other.line_number
            && self.column_number < other.column_number)
    }

    /// Decides whether `self` comes strictly before `other` in reading
    /// order.
    #[verifier::when_used_as_spec(spec_precedes)]
    pub fn precedes(self, other: Position) -> (r: bool)
        ensures
            r == self.spec_precedes(other),
    {
        self.line_number < other.line_number || (self.line_number == other.line_number
            && self.column_number < other.column_number)
    }
}

/// A stretch of source text: where it starts, and the position just behind
/// its last character.
#[derive(Clone, Copy, Debug, PartialEq, Eq, Structural, Hash)]
pub struct Span {
    pub start: Position,
    pub end: Position,
}

impl Span {
    /// The span between two positions in reading order.
    pub fn new(start: Position, end: Position) -> (s: Span)
        requires
            start == end || start.precedes(end),
        ensures
            s.start == start,
            s.end == end,
    {
        Span { start, end }
    }

    /// Where the span starts.
    pub fn start(&self) -> (p: Position)
        ensures
            p == self.start,
    {
        self.start
    }

    /// The position just behind the span's last character.
    pub fn end(&self) -> (p: Position)
        ensures
            p == self.end,
    {
        self.end
    }
}

/// The line on which the character at offset `i` of `src` stands: one more
/// than the number of line terminators before it.
pub open spec fn line_at(src: Seq<char>, i: int) -> int
    decreases i,
{
    if i <= 0 || i > src.len() {
        1
    } else if is_line_terminator(src[i - 1]) {
        line_at(src, i - 1) + 1
    } else {
        line_at(src, i - 1)
    }
}

/// The column in which the character at offset `i` of `src` stands: one more
/// than the number of characters between it and the last line terminator
/// before it.
pub open spec fn column_at(src: Seq<char>, i: int) -> int
    decreases i,
{
    if i <= 0 || i > src.len() {
        1
    } else if is_line_terminator(src[i - 1]) {
        1
    } else {
        column_at(src, i - 1) + 1
    }
}

/// The position of offset `i` in `src`.
pub open spec fn position_at(src: Seq<char>, i: int) -> Position {
    Position { line_number: line_at(src, i) as u64, column_number: column_at(src, i) as u64 }
}

/// The span of the characters of `src` from offset `start` up to `end`.
pub open spec fn span_at(src: Seq<char>, start: int, end: int) -> Span {
    Span { start: position_at(src, start), end: position_at(src, end) }
}

/// Lines and columns start at one, and neither can exceed the offset by more
/// than one.
pub proof fn lemma_position_bounds(src: Seq<char>, i: int)
    requires
        0 <= i <= src.len(),
    ensures
        1 <= line_at(src, i),
        1 <= column_at(src, i),
        line_at(src, i) + column_at(src, i) <= i + 2,
    decreases i,
{
    if i > 0 {
        lemma_position_bounds(src, i - 1);
    }
}

/// Positions grow with offsets: of two offsets into a source whose positions
/// fit the machine's numbers, the smaller has the earlier position.
pub proof fn lemma_position_increases(src: Seq<char>, i: int, j: int)
    requires
        0 <= i < j <= src.len(),
        src.len() < u64::MAX,
    ensures
        position_at(src, i).precedes(position_at(src, j)),
    decreases j - i,
{
    lemma_position_bounds(src, i);
    lemma_position_bounds(src, j);
    lemma_position_bounds(src, j - 1);
    if i < j - 1 {
        lemma_position_increases(src, i, j - 1);
    }
}

/// No two offsets of a source share a position, so a position names one
/// offset.
pub proof fn lemma_position_injective(src: Seq<char>, i: int, j: int)
    requires
        0 <= i <= src.len(),
        0 <= j <= src.len(),
        src.len() < u64::MAX,
        position_at(src, i) == position_at(src, j),
    ensures
        i == j,
{
    if i < j {
        lemma_position_increases(src, i, j);
    } else if j < i {
        lemma_position_increases(src, j, i);
    }
}

} // verus!
