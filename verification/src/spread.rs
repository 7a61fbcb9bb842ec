//! What a dot begins: the punctuator `.`, the punctuator `...`, or a number.

use crate::chars::{char_at, is_digit};
use crate::cursor::Cursor;
use crate::error::Error;
use crate::lexeme::{result_view, token_here, Lexed};
use crate::number::{fraction, lex_fraction};
use crate::position::{position_at, Position};
use crate::token::{Punctuator, Token, TokenKind, TokenKindView};
use vstd::prelude::*;

verus! {

/// The lexeme that starts with the dot at offset `start` of `src`. With a
/// decimal digit behind the dot it is a numeric literal; with two more dots
/// behind it, the punctuator `...`; else the punctuator `.` alone.
pub open spec fn dot(src: Seq<char>, start: int) -> Lexed {
    match char_at(src, start + 1) {
        Some(c) if is_digit(c, 10) => fraction(src, start, start),
        Some('.') if char_at(src, start + 2) == Some('.') => Lexed::Token {
            kind: TokenKindView::Punctuator(Punctuator::Spread),
            end: start + 3,
        },
        _ => Lexed::Token { kind: TokenKindView::Punctuator(Punctuator::Dot), end: start + 1 },
    }
}

/// Lexes what the dot that has just been consumed begins. Looks two
/// characters ahead before it consumes any.
pub fn lex_dot(cursor: &mut Cursor, start_pos: Position) -> (r: Result<Token, Error>)
    requires
        old(cursor).wf(),
        old(cursor).index() >= 1,
        start_pos == position_at(old(cursor).source(), old(cursor).index() - 1),
    ensures
        final(cursor).wf(),
        final(cursor).source() == old(cursor).source(),
        final(cursor).index() == dot(old(cursor).source(), old(cursor).index() - 1).end(),
        result_view(r) == dot(old(cursor).source(), old(cursor).index() - 1).result(
            old(cursor).source(),
            old(cursor).index() - 1,
        ),
{
    let ghost start = cursor.index() - 1;
    match cursor.peek() {
        Some(c) => {
            if is_digit(c, 10) {
                return lex_fraction(cursor, start_pos);
            }
            if c == '.' {
                match cursor.peek_nth(1) {
                    Some('.') => {
                        cursor.next();
                        cursor.next();
                        return token_here(
                            cursor,
                            start_pos,
                            TokenKind::Punctuator(Punctuator::Spread),
                            Ghost(start),
                        );
                    },
                    _ => {},
                }
            }
        },
        None => {},
    }
    token_here(cursor, start_pos, TokenKind::Punctuator(Punctuator::Dot), Ghost(start))
}

} // verus!
