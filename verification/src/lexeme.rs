//! What one run of a tokenizer amounts to, as a mathematical value.

use crate::cursor::Cursor;
use crate::error::{error_at, Error, ErrorKind};
use crate::position::{lemma_position_increases, position_at, span_at, Position, Span};
use crate::token::{Token, TokenKind, TokenKindView, TokenView};
use vstd::prelude::*;

verus! {

/// The outcome of lexing at some offset of a source: a token of some kind
/// that ends at offset `end`, or an error of some kind at offset `at`, with
/// the source consumed up to `end`.
pub ghost enum Lexed {
    Token { kind: TokenKindView, end: int },
    Failure { error: ErrorKind, at: int, end: int },
}

impl Lexed {
    /// The offset up to which the source is consumed.
    pub open spec fn end(self) -> int {
        match self {
            Lexed::Token { end, .. } => end,
            Lexed::Failure { end, .. } => end,
        }
    }

    /// Whether lexing at offset `start` of `src` consumed at least one
    /// character and stayed inside the source, an error lying in what was
    /// consumed or just behind it.
    pub open spec fn advances(self, src: Seq<char>, start: int) -> bool {
        &&& start < self.end() <= src.len()
        &&& self matches Lexed::Failure { at, end, .. } ==> start <= at <= end
    }

    /// Whether this is a token of a kind other than a comment, or an error.
    pub open spec fn is_no_comment(self) -> bool {
        !(self matches Lexed::Token { kind, .. } && kind is Comment)
    }

    /// What the caller gets for a lexeme of `src` that starts at offset
    /// `start`: the token with its span, or the error with its position and
    /// the character there.
    pub open spec fn result(self, src: Seq<char>, start: int) -> Result<TokenView, Error> {
        match self {
            Lexed::Token { kind, end } => Ok(TokenView { kind, span: span_at(src, start, end) }),
            Lexed::Failure { error, at, .. } => Err(error_at(src, error, at)),
        }
    }
}

/// A tokenizer's result as a mathematical value.
pub open spec fn result_view(r: Result<Token, Error>) -> Result<TokenView, Error> {
    match r {
        Ok(t) => Ok(t@),
        Err(e) => Err(e),
    }
}

/// The token of the given kind from `start_pos` up to the cursor.
pub(crate) fn token_here(
    cursor: &Cursor,
    start_pos: Position,
    kind: TokenKind,
    Ghost(start): Ghost<int>,
) -> (r: Result<Token, Error>)
    requires
        cursor.wf(),
        0 <= start < cursor.index(),
        start_pos == position_at(cursor.source(), start),
    ensures
        result_view(r) == (Lexed::Token { kind: kind@, end: cursor.index() }).result(
            cursor.source(),
            start,
        ),
{
    proof {
        lemma_position_increases(cursor.source(), start, cursor.index());
    }
    Ok(Token::new(kind, Span::new(start_pos, cursor.pos())))
}

/// The error of the given kind at the cursor.
pub(crate) fn error_here(cursor: &Cursor, kind: ErrorKind) -> (r: Result<Token, Error>)
    requires
        cursor.wf(),
    ensures
        r == Err::<Token, Error>(error_at(cursor.source(), kind, cursor.index())),
{
    Err(Error::syntax(kind, cursor.peek(), cursor.pos()))
}

} // verus!
