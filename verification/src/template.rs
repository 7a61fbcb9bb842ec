//! Template literals.

use crate::chars::char_at;
use crate::cursor::Cursor;
use crate::error::{Error, ErrorKind};
use crate::lexeme::{error_here, result_view, token_here, Lexed};
use crate::position::{position_at, Position};
use crate::token::{Token, TokenKind, TokenKindView};
use vstd::prelude::*;

verus! {

/// The offset just behind the backtick that closes the template literal
/// read from offset `i` of `src` on, `depth` braces deep inside a
/// substitution; `None` where the source ends first.
///
/// Outside substitutions a backtick closes the literal, a backslash takes
/// the next character with it, and `${` opens a substitution. Inside one,
/// `{` goes one brace deeper and `}` one brace back; no other character
/// counts there.
pub open spec fn template_end(src: Seq<char>, i: int, depth: nat) -> Option<int>
    decreases src.len() - i,
{
    if i < 0 || i >= src.len() {
        None
    } else if depth == 0 {
        if src[i] == '`' {
            Some(i + 1)
        } else if src[i] == '\\' {
            if i + 1 < src.len() {
                template_end(src, i + 2, 0)
            } else {
                None
            }
        } else if src[i] == '$' && char_at(src, i + 1) == Some('{') {
            template_end(src, i + 2, 1)
        } else {
            template_end(src, i + 1, 0)
        }
    } else {
        if src[i] == '{' {
            template_end(src, i + 1, depth + 1)
        } else if src[i] == '}' {
            template_end(src, i + 1, (depth - 1) as nat)
        } else {
            template_end(src, i + 1, depth)
        }
    }
}

/// The template literal that starts at offset `start` of `src`: the text up
/// to the closing backtick, substitutions and all.
pub open spec fn template_literal(src: Seq<char>, start: int) -> Lexed {
    match template_end(src, start + 1, 0) {
        Some(end) => Lexed::Token {
            kind: TokenKindView::TemplateLiteral(src.subrange(start + 1, end - 1)),
            end,
        },
        None => Lexed::Failure {
            error: ErrorKind::UnterminatedTemplate,
            at: src.len() as int,
            end: src.len() as int,
        },
    }
}

/// A template literal ends behind where it was read from, and inside the
/// source.
pub proof fn lemma_template_end(src: Seq<char>, i: int, depth: nat)
    requires
        0 <= i,
    ensures
        template_end(src, i, depth) matches Some(end) ==> i < end <= src.len(),
    decreases src.len() - i,
{
    if i < src.len() {
        if depth == 0 {
            if src[i] == '`' {
            } else if src[i] == '\\' {
                if i + 1 < src.len() {
                    lemma_template_end(src, i + 2, 0);
                }
            } else if src[i] == '$' && char_at(src, i + 1) == Some('{') {
                lemma_template_end(src, i + 2, 1);
            } else {
                lemma_template_end(src, i + 1, 0);
            }
        } else {
            if src[i] == '{' {
                lemma_template_end(src, i + 1, depth + 1);
            } else if src[i] == '}' {
                lemma_template_end(src, i + 1, (depth - 1) as nat);
            } else {
                lemma_template_end(src, i + 1, depth);
            }
        }
    }
}

/// Lexes the template literal whose first character has just been consumed.
pub fn lex_template(cursor: &mut Cursor, start_pos: Position) -> (r: Result<Token, Error>)
    requires
        old(cursor).wf(),
        old(cursor).index() >= 1,
        start_pos == position_at(old(cursor).source(), old(cursor).index() - 1),
    ensures
        final(cursor).wf(),
        final(cursor).source() == old(cursor).source(),
        final(cursor).index() == template_literal(
            old(cursor).source(),
            old(cursor).index() - 1,
        ).end(),
        result_view(r) == template_literal(old(cursor).source(), old(cursor).index() - 1).result(
            old(cursor).source(),
            old(cursor).index() - 1,
        ),
{
    let text = cursor.offset();
    let ghost src = cursor.source();
    let mut depth: usize = 0;
    loop
        invariant
            cursor.wf(),
            cursor.source() == src,
            src == old(cursor).source(),
            text == old(cursor).index(),
            1 <= text <= cursor.index(),
            depth <= cursor.index() - text,
            start_pos == position_at(src, text - 1),
            template_end(src, cursor.index(), depth as nat) == template_end(src, text as int, 0),
        decreases src.len() - cursor.index(),
    {
        let c = match cursor.next() {
            Some(c) => c,
            None => {
                return error_here(cursor, ErrorKind::UnterminatedTemplate);
            },
        };
        if depth == 0 {
            if c == '`' {
                let raw = cursor.slice(text, cursor.offset() - 1);
                return token_here(
                    cursor,
                    start_pos,
                    TokenKind::TemplateLiteral(raw),
                    Ghost(text - 1),
                );
            } else if c == '\\' {
                if cursor.next().is_none() {
                    return error_here(cursor, ErrorKind::UnterminatedTemplate);
                }
            } else if c == '$' {
                if cursor.next_is('{') {
                    depth = 1;
                }
            }
        } else {
            if c == '{' {
                depth = depth + 1;
            } else if c == '}' {
                depth = depth - 1;
            }
        }
    }
}

} // verus!
