//! Comments.

use crate::chars::{char_at, is_line_terminator};
use crate::cursor::Cursor;
use crate::error::{Error, ErrorKind};
use crate::lexeme::{error_here, result_view, token_here, Lexed};
use crate::position::{position_at, Position};
use crate::token::{Token, TokenKind, TokenKindView};
use vstd::prelude::*;

verus! {

/// Where the line that holds offset `i` of `src` ends: the offset of the
/// first line terminator from `i` on, or the end of the source.
pub open spec fn line_end(src: Seq<char>, i: int) -> int
    decreases src.len() - i,
{
    if 0 <= i < src.len() && !is_line_terminator(src[i]) {
        line_end(src, i + 1)
    } else {
        i
    }
}

/// The offset just behind the first `*/` from offset `i` of `src` on, if
/// there is one.
pub open spec fn block_comment_end(src: Seq<char>, i: int) -> Option<int>
    decreases src.len() - i,
{
    if i < 0 || i + 1 >= src.len() {
        None
    } else if src[i] == '*' && src[i + 1] == '/' {
        Some(i + 2)
    } else {
        block_comment_end(src, i + 1)
    }
}

/// Whether a comment starts at offset `start` of `src`: with `//` or with
/// `/*`.
pub open spec fn comment_starts(src: Seq<char>, start: int) -> bool {
    char_at(src, start) == Some('/') && (char_at(src, start + 1) == Some('/') || char_at(
        src,
        start + 1,
    ) == Some('*'))
}

/// The comment that starts at offset `start` of `src`. One that starts with
/// `//` runs to the end of its line, and the line terminator is no part of
/// it. One that starts with `/*` runs to the first `*/`, and is an error
/// where there is none.
pub open spec fn comment(src: Seq<char>, start: int) -> Lexed {
    if char_at(src, start + 1) == Some('/') {
        Lexed::Token { kind: TokenKindView::Comment, end: line_end(src, start + 2) }
    } else {
        match block_comment_end(src, start + 2) {
            Some(end) => Lexed::Token { kind: TokenKindView::Comment, end },
            None => Lexed::Failure {
                error: ErrorKind::UnterminatedComment,
                at: src.len() as int,
                end: src.len() as int,
            },
        }
    }
}

/// A line ends inside the source, holds no line terminator, and a line
/// terminator or nothing follows it.
pub proof fn lemma_line_end(src: Seq<char>, i: int)
    requires
        0 <= i <= src.len(),
    ensures
        i <= line_end(src, i) <= src.len(),
        forall|k: int| i <= k < line_end(src, i) ==> !is_line_terminator(#[trigger] src[k]),
        line_end(src, i) < src.len() ==> is_line_terminator(src[line_end(src, i)]),
    decreases src.len() - i,
{
    if i < src.len() && !is_line_terminator(src[i]) {
        lemma_line_end(src, i + 1);
    }
}

/// A block comment ends with `*/`, inside the source, and holds no `*/`
/// before that.
pub proof fn lemma_block_comment_end(src: Seq<char>, i: int)
    requires
        0 <= i,
    ensures
        block_comment_end(src, i) matches Some(end) ==> {
            &&& i + 2 <= end <= src.len()
            &&& src[end - 2] == '*'
            &&& src[end - 1] == '/'
            &&& forall|k: int| i <= k < end - 2 ==> !(#[trigger] src[k] == '*' && src[k + 1] == '/')
        },
        block_comment_end(src, i) is None ==> forall|k: int|
            i <= k && k + 1 < src.len() ==> !(#[trigger] src[k] == '*' && src[k + 1] == '/'),
    decreases src.len() - i,
{
    if i + 1 < src.len() && !(src[i] == '*' && src[i + 1] == '/') {
        lemma_block_comment_end(src, i + 1);
    }
}

/// Lexes the comment whose first slash has just been consumed; `/` or `*`
/// is the next character.
pub fn lex_comment(cursor: &mut Cursor, start_pos: Position) -> (r: Result<Token, Error>)
    requires
        old(cursor).wf(),
        old(cursor).index() >= 1,
        start_pos == position_at(old(cursor).source(), old(cursor).index() - 1),
        old(cursor).current() == Some('/') || old(cursor).current() == Some('*'),
    ensures
        final(cursor).wf(),
        final(cursor).source() == old(cursor).source(),
        final(cursor).index() == comment(old(cursor).source(), old(cursor).index() - 1).end(),
        result_view(r) == comment(old(cursor).source(), old(cursor).index() - 1).result(
            old(cursor).source(),
            old(cursor).index() - 1,
        ),
{
    let ghost src = cursor.source();
    let ghost start = cursor.index() - 1;
    if cursor.next_is('/') {
        loop
            invariant
                cursor.wf(),
                cursor.source() == src,
                src == old(cursor).source(),
                start == old(cursor).index() - 1,
                0 <= start < cursor.index(),
                line_end(src, cursor.index()) == line_end(src, start + 2),
            ensures
                cursor.wf(),
                cursor.source() == src,
                0 <= start < cursor.index(),
                cursor.index() == line_end(src, start + 2),
            decreases src.len() - cursor.index(),
        {
            match cursor.peek() {
                Some(c) => {
                    if is_line_terminator(c) {
                        break ;
                    }
                    cursor.next();
                },
                None => {
                    break ;
                },
            }
        }
        token_here(cursor, start_pos, TokenKind::Comment, Ghost(start))
    } else {
        cursor.next();
        loop
            invariant
                cursor.wf(),
                cursor.source() == src,
                src == old(cursor).source(),
                start == old(cursor).index() - 1,
                0 <= start,
                start + 2 <= cursor.index(),
                char_at(src, start + 1) == Some('*'),
                start_pos == position_at(src, start),
                block_comment_end(src, cursor.index()) == block_comment_end(src, start + 2),
            decreases src.len() - cursor.index(),
        {
            match cursor.next() {
                Some('*') => {
                    if cursor.next_is('/') {
                        return token_here(cursor, start_pos, TokenKind::Comment, Ghost(start));
                    }
                },
                Some(_) => {},
                None => {
                    return error_here(cursor, ErrorKind::UnterminatedComment);
                },
            }
        }
    }
}

} // verus!
