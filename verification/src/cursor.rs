//! The cursor: the one place where the source is read.

use crate::chars::{char_at, is_line_terminator};
use crate::position::{lemma_position_bounds, position_at, Position};
use vstd::prelude::*;

verus! {

/// A source text and a place in it. The cursor only moves forward, one
/// character at a time, and keeps the line and column of its place.
#[derive(Debug)]
pub struct Cursor {
    source: Vec<char>,
    index: usize,
    pos: Position,
}

impl Cursor {
    /// The whole source text.
    pub closed spec fn source(&self) -> Seq<char> {
        self.source@
    }

    /// The number of characters consumed so far.
    pub closed spec fn index(&self) -> int {
        self.index as int
    }

    /// The position that the cursor keeps.
    pub closed spec fn position(&self) -> Position {
        self.pos
    }

    /// The cursor stands inside its source, and the position it keeps is
    /// that of its offset.
    pub open spec fn wf(&self) -> bool {
        &&& 0 <= self.index() <= self.source().len()
        &&& self.source().len() < u64::MAX
        &&& self.source().len() <= usize::MAX
        &&& self.position() == position_at(self.source(), self.index())
    }

    /// The character under the cursor, if any.
    pub open spec fn current(&self) -> Option<char> {
        char_at(self.source(), self.index())
    }

    /// A cursor at the start of `source`.
    pub fn new(source: Vec<char>) -> (cursor: Cursor)
        requires
            source@.len() < u64::MAX,
        ensures
            cursor.wf(),
            cursor.source() == source@,
            cursor.index() == 0,
    {
        assert(source@.len() == source.len());
        Cursor { source, index: 0, pos: Position { line_number: 1, column_number: 1 } }
    }

    /// The position of the next character to be consumed.
    pub fn pos(&self) -> (p: Position)
        requires
            self.wf(),
        ensures
            p == position_at(self.source(), self.index()),
    {
        self.pos
    }

    /// The number of characters consumed so far.
    pub fn offset(&self) -> (n: usize)
        requires
            self.wf(),
        ensures
            n == self.index(),
    {
        self.index
    }

    /// A copy of the source text from offset `from` up to offset `to`.
    pub fn slice(&self, from: usize, to: usize) -> (text: Vec<char>)
        requires
            self.wf(),
            from <= to <= self.source().len(),
        ensures
            text@ == self.source().subrange(from as int, to as int),
    {
        let mut text: Vec<char> = Vec::new();
        let mut i: usize = from;
        while i < to
            invariant
                from <= i <= to <= self.source@.len(),
                text@ == self.source@.subrange(from as int, i as int),
            decreases to - i,
        {
            text.push(self.source[i]);
            i = i + 1;
            assert(self.source@.subrange(from as int, i as int) =~= self.source@.subrange(
                from as int,
                i - 1,
            ).push(self.source@[i - 1]));
        }
        text
    }

    /// The next character, without consuming it.
    pub fn peek(&self) -> (c: Option<char>)
        requires
            self.wf(),
        ensures
            c == self.current(),
    {
        if self.index < self.source.len() {
            Some(self.source[self.index])
        } else {
            None
        }
    }

    /// The character `n` places behind the next one, without consuming
    /// anything.
    pub fn peek_nth(&self, n: usize) -> (c: Option<char>)
        requires
            self.wf(),
        ensures
            c == char_at(self.source(), self.index() + n),
    {
        if n < self.source.len() - self.index {
            Some(self.source[self.index + n])
        } else {
            None
        }
    }

    /// Consumes the next character and returns it; `None` at the end of the
    /// source, where nothing changes. A line terminator moves the position
    /// to the start of the next line, any other character to the next
    /// column.
    pub fn next(&mut self) -> (c: Option<char>)
        requires
            old(self).wf(),
        ensures
            final(self).wf(),
            final(self).source() == old(self).source(),
            c == old(self).current(),
            final(self).index() == old(self).index() + (if c.is_some() { 1int } else { 0int }),
    {
        if self.index < self.source.len() {
            let c = self.source[self.index];
            proof {
                lemma_position_bounds(self.source@, self.index as int);
                lemma_position_bounds(self.source@, self.index as int + 1);
            }
            self.index = self.index + 1;
            if is_line_terminator(c) {
                self.pos = Position { line_number: self.pos.line_number + 1, column_number: 1 };
            } else {
                self.pos = Position {
                    line_number: self.pos.line_number,
                    column_number: self.pos.column_number + 1,
                };
            }
            Some(c)
        } else {
            None
        }
    }

    /// Consumes the next character if it is `expected`, and says whether it
    /// did.
    pub fn next_is(&mut self, expected: char) -> (matched: bool)
        requires
            old(self).wf(),
        ensures
            final(self).wf(),
            final(self).source() == old(self).source(),
            matched == (old(self).current() == Some(expected)),
            final(self).index() == old(self).index() + (if matched { 1int } else { 0int }),
    {
        match self.peek() {
            Some(c) => {
                if c == expected {
                    self.next();
                    true
                } else {
                    false
                }
            },
            None => false,
        }
    }
}

} // verus!
