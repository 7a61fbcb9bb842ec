//! Regular expression literals.

use crate::chars::{char_at, is_line_terminator};
use crate::cursor::Cursor;
use crate::error::{Error, ErrorKind};
use crate::identifier::{identifier_end, lemma_identifier_end, skip_identifier_part};
use crate::lexeme::{error_here, result_view, token_here, Lexed};
use crate::position::{position_at, Position};
use crate::token::{Token, TokenKind, TokenKindView};
use vstd::prelude::*;

verus! {

/// Where the body of the regular expression literal read from offset `i` of
/// `src` on ends: `Ok` with the offset of the closing slash, or `Err` with
/// the offset at which the body breaks off.
///
/// The first slash that no backslash stands before closes the body. A
/// backslash takes the next character with it. A line terminator or the end
/// of the source before the closing slash breaks the body off.
pub open spec fn regex_body_end(src: Seq<char>, i: int) -> Result<int, int>
    decreases src.len() - i,
{
    if i < 0 || i >= src.len() {
        Err(i)
    } else if is_line_terminator(src[i]) {
        Err(i)
    } else if src[i] == '/' {
        Ok(i)
    } else if src[i] == '\\' {
        match char_at(src, i + 1) {
            Some(c) if !is_line_terminator(c) => regex_body_end(src, i + 2),
            _ => Err(i + 1),
        }
    } else {
        regex_body_end(src, i + 1)
    }
}

/// The regular expression literal that starts with the slash at offset
/// `start` of `src`: the body up to the closing slash, and behind that the
/// flags, which run as far as identifier characters follow.
pub open spec fn regex_literal(src: Seq<char>, start: int) -> Lexed {
    match regex_body_end(src, start + 1) {
        Ok(close) => {
            let end = identifier_end(src, close + 1);
            Lexed::Token {
                kind: TokenKindView::RegularExpressionLiteral {
                    body: src.subrange(start + 1, close),
                    flags: src.subrange(close + 1, end),
                },
                end,
            }
        },
        Err(at) => Lexed::Failure { error: ErrorKind::UnterminatedRegex, at, end: at },
    }
}

/// The body of a regular expression literal ends, or breaks off, at or
/// behind where it is read from, inside the source.
pub proof fn lemma_regex_body_end(src: Seq<char>, i: int)
    requires
        0 <= i <= src.len(),
    ensures
        match regex_body_end(src, i) {
            Ok(close) => i <= close < src.len() && src[close] == '/',
            Err(at) => i <= at <= src.len(),
        },
    decreases src.len() - i,
{
    if i < src.len() && !is_line_terminator(src[i]) && src[i] != '/' {
        if src[i] == '\\' {
            if i + 1 < src.len() && !is_line_terminator(src[i + 1]) {
                lemma_regex_body_end(src, i + 2);
            }
        } else {
            lemma_regex_body_end(src, i + 1);
        }
    }
}

/// A regular expression literal holds at least its opening slash, and
/// nothing beyond the source.
pub proof fn lemma_regex_literal(src: Seq<char>, start: int)
    requires
        0 <= start < src.len(),
    ensures
        regex_literal(src, start).advances(src, start),
        regex_literal(src, start).is_no_comment(),
{
    lemma_regex_body_end(src, start + 1);
    match regex_body_end(src, start + 1) {
        Ok(close) => {
            lemma_identifier_end(src, close + 1);
        },
        Err(at) => {},
    }
}

/// Lexes the regular expression literal whose opening slash has just been
/// consumed.
pub fn lex_regex(cursor: &mut Cursor, start_pos: Position) -> (r: Result<Token, Error>)
    requires
        old(cursor).wf(),
        old(cursor).index() >= 1,
        start_pos == position_at(old(cursor).source(), old(cursor).index() - 1),
    ensures
        final(cursor).wf(),
        final(cursor).source() == old(cursor).source(),
        final(cursor).index() == regex_literal(old(cursor).source(), old(cursor).index() - 1).end(),
        result_view(r) == regex_literal(old(cursor).source(), old(cursor).index() - 1).result(
            old(cursor).source(),
            old(cursor).index() - 1,
        ),
{
    let ghost src = cursor.source();
    let text = cursor.offset();
    loop
        invariant
            cursor.wf(),
            cursor.source() == src,
            src == old(cursor).source(),
            text == old(cursor).index(),
            1 <= text <= cursor.index(),
            regex_body_end(src, cursor.index()) == regex_body_end(src, text as int),
        ensures
            cursor.wf(),
            cursor.source() == src,
            1 <= text <= cursor.index() < src.len(),
            regex_body_end(src, text as int) == Ok::<int, int>(cursor.index()),
        decreases src.len() - cursor.index(),
    {
        match cursor.peek() {
            None => {
                return error_here(cursor, ErrorKind::UnterminatedRegex);
            },
            Some(c) => {
                if is_line_terminator(c) {
                    return error_here(cursor, ErrorKind::UnterminatedRegex);
                } else if c == '/' {
                    break ;
                } else if c == '\\' {
                    cursor.next();
                    match cursor.peek() {
                        Some(d) => {
                            if is_line_terminator(d) {
                                return error_here(cursor, ErrorKind::UnterminatedRegex);
                            }
                            cursor.next();
                        },
                        None => {
                            return error_here(cursor, ErrorKind::UnterminatedRegex);
                        },
                    }
                } else {
                    cursor.next();
                }
            },
        }
    }
    let close = cursor.offset();
    let body = cursor.slice(text, close);
    cursor.next();
    proof {
        lemma_identifier_end(src, close + 1);
    }
    skip_identifier_part(cursor);
    let flags = cursor.slice(close + 1, cursor.offset());
    token_here(
        cursor,
        start_pos,
        TokenKind::RegularExpressionLiteral { body, flags },
        Ghost(text - 1),
    )
}

} // verus!
