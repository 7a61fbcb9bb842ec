//! What holds of the lexer as a whole.

use crate::chars::{is_line_terminator, is_whitespace};
use crate::comment::{comment, comment_starts};
use crate::error::ErrorKind;
use crate::lexeme::Lexed;
use crate::lexer::{lemma_lex_at, lex_at, next_step, single_punctuator, InputElement, Step};
use crate::position::{
    lemma_position_bounds, lemma_position_increases, lemma_position_injective, position_at,
    span_at, Position, Span,
};
use crate::token::{TokenKindView, TokenView};
use vstd::prelude::*;

verus! {

/// Whether the characters of `src` from offset `i` up to offset `j` are
/// white space and whole comments, and nothing else.
pub open spec fn is_trivia(src: Seq<char>, i: int, j: int) -> bool
    decreases j - i,
{
    if i >= j {
        i == j
    } else if is_whitespace(src[i]) {
        is_trivia(src, i + 1, j)
    } else if comment_starts(src, i) {
        match comment(src, i) {
            Lexed::Token { end, .. } => i < end <= j && is_trivia(src, end, j),
            Lexed::Failure { .. } => false,
        }
    } else {
        false
    }
}

/// The offset of `src` whose position is `p`.
pub open spec fn offset_of(src: Seq<char>, p: Position) -> int {
    choose|k: int| 0 <= k <= src.len() && position_at(src, k) == p
}

/// The characters of `src` that `span` covers.
pub open spec fn slice_of(src: Seq<char>, span: Span) -> Seq<char> {
    src.subrange(offset_of(src, span.start), offset_of(src, span.end))
}

/// The source text cut out by the span of each token that the lexer hands
/// out from offset `i` on, one piece after the other, up to the end of the
/// source or the first error.
pub open spec fn resliced(src: Seq<char>, i: int, goal: InputElement, strict: bool) -> Seq<char>
    decreases src.len() - i,
    via resliced_decreases
{
    match next_step(src, i, goal, strict) {
        Step::Token { start, end, .. } => slice_of(src, span_at(src, start, end)) + resliced(
            src,
            end,
            goal,
            strict,
        ),
        _ => Seq::empty(),
    }
}

#[via_fn]
proof fn resliced_decreases(src: Seq<char>, i: int, goal: InputElement, strict: bool) {
    if 0 <= i <= src.len() {
        lemma_next_step(src, i, goal, strict);
    }
}

/// The source text from offset `i` on without its white space and its
/// comments, up to the end of the source or the first error.
pub open spec fn significant_text(
    src: Seq<char>,
    i: int,
    goal: InputElement,
    strict: bool,
) -> Seq<char>
    decreases src.len() - i,
    via significant_text_decreases
{
    if i < 0 || i >= src.len() {
        Seq::empty()
    } else if is_whitespace(src[i]) {
        significant_text(src, i + 1, goal, strict)
    } else {
        match lex_at(src, i, goal, strict) {
            Lexed::Token { kind: TokenKindView::Comment, end } => significant_text(
                src,
                end,
                goal,
                strict,
            ),
            Lexed::Token { end, .. } => src.subrange(i, end) + significant_text(
                src,
                end,
                goal,
                strict,
            ),
            Lexed::Failure { .. } => Seq::empty(),
        }
    }
}

#[via_fn]
proof fn significant_text_decreases(src: Seq<char>, i: int, goal: InputElement, strict: bool) {
    if 0 <= i < src.len() {
        lemma_lex_at(src, i, goal, strict);
    }
}

/// One request passes over white space and comments only, and what it hands
/// out is the lexeme that starts behind them: a token that is no comment,
/// holds at least one character and lies inside the source, or an error
/// there. With nothing handed out, the rest of the source is white space and
/// comments.
pub proof fn lemma_next_step(src: Seq<char>, i: int, goal: InputElement, strict: bool)
    requires
        0 <= i <= src.len(),
    ensures
        match next_step(src, i, goal, strict) {
            Step::Done { end } => end == src.len() && is_trivia(src, i, end),
            Step::Token { kind, start, end } => {
                &&& i <= start < end <= src.len()
                &&& is_trivia(src, i, start)
                &&& !is_whitespace(src[start])
                &&& lex_at(src, start, goal, strict) == (Lexed::Token { kind, end })
                &&& !(kind is Comment)
            },
            Step::Failure { error, at, end } => {
                &&& i <= at <= end <= src.len()
                &&& i < end
            },
        },
    decreases src.len() - i,
{
    if i < src.len() {
        if is_whitespace(src[i]) {
            lemma_next_step(src, i + 1, goal, strict);
        } else {
            lemma_lex_at(src, i, goal, strict);
            match lex_at(src, i, goal, strict) {
                Lexed::Token { kind: TokenKindView::Comment, end } => {
                    lemma_next_step(src, end, goal, strict);
                },
                _ => {},
            }
        }
    }
}

/// A source that holds nothing but white space yields no token.
pub proof fn lemma_whitespace_yields_nothing(
    src: Seq<char>,
    i: int,
    goal: InputElement,
    strict: bool,
)
    requires
        0 <= i <= src.len(),
        forall|k: int| i <= k < src.len() ==> is_whitespace(#[trigger] src[k]),
    ensures
        next_step(src, i, goal, strict) == (Step::Done { end: src.len() as int }),
        next_step(src, i, goal, strict).output(src) is None,
    decreases src.len() - i,
{
    if i < src.len() {
        lemma_whitespace_yields_nothing(src, i + 1, goal, strict);
    }
}

/// A source that holds nothing but one of the punctuators `;`, `:`, `,`,
/// `?`, `(`, `)`, `[`, `]`, `{` and `}` yields that punctuator, from line 1,
/// column 1 up to column 2, and then nothing. Where the goal symbol lets a
/// closing brace take up a template literal, `}` is left out.
pub proof fn lemma_single_punctuator(c: char, goal: InputElement, strict: bool)
    requires
        single_punctuator(c) is Some,
        !(c == '}' && goal.allows_template_tail()),
    ensures
        next_step(seq![c], 0, goal, strict).output(seq![c]) == Some(
            Ok::<TokenView, crate::error::Error>(
                TokenView {
                    kind: TokenKindView::Punctuator(single_punctuator(c)->0),
                    span: Span {
                        start: Position { line_number: 1, column_number: 1 },
                        end: Position { line_number: 1, column_number: 2 },
                    },
                },
            ),
        ),
        next_step(seq![c], 0, goal, strict).end() == 1,
        next_step(seq![c], 1, goal, strict) == (Step::Done { end: 1 }),
{
    let src = seq![c];
    assert(src[0] == c);
    reveal_with_fuel(crate::position::line_at, 3);
    reveal_with_fuel(crate::position::column_at, 3);
}

/// A line terminator is a token by itself, and the character behind it
/// stands in column 1 of the next line.
pub proof fn lemma_line_terminator(src: Seq<char>, i: int, goal: InputElement, strict: bool)
    requires
        0 <= i < src.len() < u64::MAX,
        is_line_terminator(src[i]),
    ensures
        next_step(src, i, goal, strict) == (Step::Token {
            kind: TokenKindView::LineTerminator,
            start: i,
            end: i + 1,
        }),
        position_at(src, i + 1).line_number == position_at(src, i).line_number + 1,
        position_at(src, i + 1).column_number == 1,
{
    lemma_position_bounds(src, i);
    lemma_position_bounds(src, i + 1);
}

/// A character that is no line terminator moves the position one column on,
/// in the same line.
pub proof fn lemma_other_character(src: Seq<char>, i: int)
    requires
        0 <= i < src.len() < u64::MAX,
        !is_line_terminator(src[i]),
    ensures
        position_at(src, i + 1).line_number == position_at(src, i).line_number,
        position_at(src, i + 1).column_number == position_at(src, i).column_number + 1,
{
    lemma_position_bounds(src, i);
    lemma_position_bounds(src, i + 1);
}

/// No request hands out a comment.
pub proof fn lemma_comments_are_skipped(src: Seq<char>, i: int, goal: InputElement, strict: bool)
    requires
        0 <= i <= src.len(),
    ensures
        next_step(src, i, goal, strict) matches Step::Token { kind, .. } ==> !(kind is Comment),
        next_step(src, i, goal, strict).output(src) matches Some(Ok(t)) ==> !(t.kind is Comment),
{
    lemma_next_step(src, i, goal, strict);
}

/// A character that begins no lexeme is an error that names it and its
/// position, and the character is consumed.
pub proof fn lemma_unexpected_character(src: Seq<char>, i: int, goal: InputElement, strict: bool)
    requires
        0 <= i < src.len(),
        lex_at(src, i, goal, strict) == (Lexed::Failure {
            error: ErrorKind::UnexpectedCharacter,
            at: i,
            end: i + 1,
        }),
        !is_whitespace(src[i]),
    ensures
        next_step(src, i, goal, strict).output(src) == Some(
            Err::<TokenView, crate::error::Error>(
                crate::error::Error {
                    kind: ErrorKind::UnexpectedCharacter,
                    found: Some(src[i]),
                    position: position_at(src, i),
                },
            ),
        ),
        next_step(src, i, goal, strict).end() == i + 1,
{
}

/// The span of every token that is handed out starts before it ends, and
/// names the offsets between which the token stands: no other two offsets
/// of the source have these positions.
pub proof fn lemma_token_span(src: Seq<char>, i: int, goal: InputElement, strict: bool)
    requires
        0 <= i <= src.len() < u64::MAX,
    ensures
        next_step(src, i, goal, strict) matches Step::Token { start, end, .. } ==> {
            &&& span_at(src, start, end).start.precedes(span_at(src, start, end).end)
            &&& offset_of(src, span_at(src, start, end).start) == start
            &&& offset_of(src, span_at(src, start, end).end) == end
            &&& slice_of(src, span_at(src, start, end)) == src.subrange(start, end)
        },
{
    lemma_next_step(src, i, goal, strict);
    match next_step(src, i, goal, strict) {
        Step::Token { start, end, .. } => {
            lemma_position_increases(src, start, end);
            lemma_offset_of(src, start);
            lemma_offset_of(src, end);
        },
        _ => {},
    }
}

/// A position names the one offset that it is the position of.
pub proof fn lemma_offset_of(src: Seq<char>, k: int)
    requires
        0 <= k <= src.len() < u64::MAX,
    ensures
        offset_of(src, position_at(src, k)) == k,
{
    let found = offset_of(src, position_at(src, k));
    assert(0 <= found <= src.len() && position_at(src, found) == position_at(src, k));
    lemma_position_injective(src, found, k);
}

/// Cutting the source by the span of each token, one token after the other,
/// gives the source without its white space and its comments.
pub proof fn lemma_round_trip(src: Seq<char>, i: int, goal: InputElement, strict: bool)
    requires
        0 <= i <= src.len() < u64::MAX,
    ensures
        resliced(src, i, goal, strict) == significant_text(src, i, goal, strict),
    decreases src.len() - i,
{
    if i < src.len() {
        if is_whitespace(src[i]) {
            lemma_round_trip(src, i + 1, goal, strict);
        } else {
            lemma_lex_at(src, i, goal, strict);
            lemma_token_span(src, i, goal, strict);
            match lex_at(src, i, goal, strict) {
                Lexed::Token { end, .. } => {
                    lemma_round_trip(src, end, goal, strict);
                },
                Lexed::Failure { .. } => {},
            }
        }
    }
}

/// The lexer only moves forward: a request leaves it at or behind the
/// offset, and so at or behind the position, at which it was made.
pub proof fn lemma_forward(src: Seq<char>, i: int, goal: InputElement, strict: bool)
    requires
        0 <= i <= src.len() < u64::MAX,
    ensures
        i <= next_step(src, i, goal, strict).end() <= src.len(),
        next_step(src, i, goal, strict).end() == i || position_at(src, i).precedes(
            position_at(src, next_step(src, i, goal, strict).end()),
        ),
{
    lemma_next_step(src, i, goal, strict);
    if i < next_step(src, i, goal, strict).end() {
        lemma_position_increases(src, i, next_step(src, i, goal, strict).end());
    }
}

} // verus!
