//! Identifiers, reserved words and the literals `true`, `false` and `null`.

use crate::chars::is_identifier_part;
use crate::cursor::Cursor;
use crate::error::Error;
use crate::lexeme::{result_view, token_here, Lexed};
use crate::position::{position_at, Position};
use crate::token::{keyword_of, spells, Keyword, Token, TokenKind, TokenKindView};
use vstd::prelude::*;

verus! {

/// Where the run of identifier characters that holds offset `i` of `src`
/// ends: the first offset from `i` on that holds no identifier character, or
/// the end of the source.
pub open spec fn identifier_end(src: Seq<char>, i: int) -> int
    decreases src.len() - i,
{
    if 0 <= i < src.len() && is_identifier_part(src[i]) {
        identifier_end(src, i + 1)
    } else {
        i
    }
}

/// What a word stands for: a boolean, `null`, a reserved word, or else a
/// name.
pub open spec fn word_kind(word: Seq<char>) -> TokenKindView {
    if word =~= "true"@ {
        TokenKindView::BooleanLiteral(true)
    } else if word =~= "false"@ {
        TokenKindView::BooleanLiteral(false)
    } else if word =~= "null"@ {
        TokenKindView::NullLiteral
    } else {
        match keyword_of(word) {
            Some(k) => TokenKindView::Keyword(k),
            None => TokenKindView::Identifier(word),
        }
    }
}

/// The word that starts at offset `start` of `src`: it runs as far as
/// identifier characters follow.
pub open spec fn identifier(src: Seq<char>, start: int) -> Lexed {
    let end = identifier_end(src, start + 1);
    Lexed::Token { kind: word_kind(src.subrange(start, end)), end }
}

/// A run of identifier characters is as long as it can be: it stays inside
/// the source, holds identifier characters only, and what follows it is none.
pub proof fn lemma_identifier_end(src: Seq<char>, i: int)
    requires
        0 <= i <= src.len(),
    ensures
        i <= identifier_end(src, i) <= src.len(),
        forall|k: int| i <= k < identifier_end(src, i) ==> is_identifier_part(#[trigger] src[k]),
        identifier_end(src, i) < src.len() ==> !is_identifier_part(src[identifier_end(src, i)]),
    decreases src.len() - i,
{
    if i < src.len() && is_identifier_part(src[i]) {
        lemma_identifier_end(src, i + 1);
    }
}

/// Consumes identifier characters as long as they come.
pub fn skip_identifier_part(cursor: &mut Cursor)
    requires
        old(cursor).wf(),
    ensures
        final(cursor).wf(),
        final(cursor).source() == old(cursor).source(),
        final(cursor).index() == identifier_end(old(cursor).source(), old(cursor).index()),
{
    loop
        invariant
            cursor.wf(),
            cursor.source() == old(cursor).source(),
            identifier_end(cursor.source(), cursor.index()) == identifier_end(
                old(cursor).source(),
                old(cursor).index(),
            ),
        ensures
            cursor.index() == identifier_end(old(cursor).source(), old(cursor).index()),
        decreases cursor.source().len() - cursor.index(),
    {
        match cursor.peek() {
            Some(c) => {
                if is_identifier_part(c) {
                    cursor.next();
                } else {
                    break ;
                }
            },
            None => {
                break ;
            },
        }
    }
}

/// Lexes the word whose first character has just been consumed.
pub fn lex_identifier(cursor: &mut Cursor, start_pos: Position) -> (r: Result<Token, Error>)
    requires
        old(cursor).wf(),
        old(cursor).index() >= 1,
        start_pos == position_at(old(cursor).source(), old(cursor).index() - 1),
    ensures
        final(cursor).wf(),
        final(cursor).source() == old(cursor).source(),
        final(cursor).index() == identifier(old(cursor).source(), old(cursor).index() - 1).end(),
        result_view(r) == identifier(old(cursor).source(), old(cursor).index() - 1).result(
            old(cursor).source(),
            old(cursor).index() - 1,
        ),
{
    let start = cursor.offset() - 1;
    proof {
        lemma_identifier_end(cursor.source(), cursor.index());
    }
    skip_identifier_part(cursor);
    let word = cursor.slice(start, cursor.offset());
    let kind = if spells(&word, "true") {
        TokenKind::BooleanLiteral(true)
    } else if spells(&word, "false") {
        TokenKind::BooleanLiteral(false)
    } else if spells(&word, "null") {
        TokenKind::NullLiteral
    } else {
        match Keyword::from_chars(&word) {
            Some(k) => TokenKind::Keyword(k),
            None => TokenKind::Identifier(word),
        }
    };
    token_here(cursor, start_pos, kind, Ghost(start as int))
}

} // verus!
