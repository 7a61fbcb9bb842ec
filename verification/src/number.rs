//! Numeric literals.

use crate::chars::{char_at, is_digit, is_identifier_start};
use crate::cursor::Cursor;
use crate::error::{Error, ErrorKind};
use crate::lexeme::{error_here, result_view, token_here, Lexed};
use crate::position::{position_at, Position};
use crate::token::{NumericKind, Token, TokenKind, TokenKindView};
use vstd::prelude::*;

verus! {

/// Where the run of digits of the given radix that holds offset `i` of `src`
/// ends: the first offset from `i` on that holds no such digit, or the end
/// of the source.
pub open spec fn digits_end(src: Seq<char>, i: int, radix: u32) -> int
    decreases src.len() - i,
{
    if 0 <= i < src.len() && is_digit(src[i], radix) {
        digits_end(src, i + 1, radix)
    } else {
        i
    }
}

/// A run of digits is as long as it can be: it stays inside the source,
/// holds digits of the radix only, and what follows it is none.
pub proof fn lemma_digits_end(src: Seq<char>, i: int, radix: u32)
    requires
        0 <= i <= src.len(),
    ensures
        i <= digits_end(src, i, radix) <= src.len(),
        forall|k: int| i <= k < digits_end(src, i, radix) ==> is_digit(#[trigger] src[k], radix),
        digits_end(src, i, radix) < src.len() ==> !is_digit(
            src[digits_end(src, i, radix)],
            radix,
        ),
    decreases src.len() - i,
{
    if i < src.len() && is_digit(src[i], radix) {
        lemma_digits_end(src, i + 1, radix);
    }
}

/// The literal of the given kind that starts at offset `start` and is
/// written out at offset `end`. A character that begins an identifier, or a
/// decimal digit, may not follow a numeric literal directly.
pub open spec fn closed_number(src: Seq<char>, start: int, end: int, kind: NumericKind) -> Lexed {
    match char_at(src, end) {
        Some(c) if is_identifier_start(c) || is_digit(c, 10) => Lexed::Failure {
            error: ErrorKind::MalformedNumber,
            at: end,
            end,
        },
        _ => Lexed::Token {
            kind: TokenKindView::NumericLiteral { kind, text: src.subrange(start, end) },
            end,
        },
    }
}

/// The literal that starts at offset `start` and has an exponent whose `e`
/// stands at offset `e`: an optional sign and at least one decimal digit
/// follow.
pub open spec fn exponent(src: Seq<char>, start: int, e: int) -> Lexed {
    let digits = if char_at(src, e + 1) == Some('+') || char_at(src, e + 1) == Some('-') {
        e + 2
    } else {
        e + 1
    };
    let end = digits_end(src, digits, 10);
    if end == digits {
        Lexed::Failure { error: ErrorKind::MalformedNumber, at: end, end }
    } else {
        closed_number(src, start, end, NumericKind::Rational)
    }
}

/// The literal that starts at offset `start` and has its decimal point at
/// offset `point`: decimal digits follow, then perhaps an exponent. A second
/// decimal point is an error.
pub open spec fn fraction(src: Seq<char>, start: int, point: int) -> Lexed {
    let end = digits_end(src, point + 1, 10);
    match char_at(src, end) {
        Some('.') => Lexed::Failure { error: ErrorKind::MalformedNumber, at: end, end },
        Some('e') | Some('E') => exponent(src, start, end),
        _ => closed_number(src, start, end, NumericKind::Rational),
    }
}

/// The decimal literal that starts at offset `start` and whose integer part
/// ends at offset `end`: a fraction, an exponent or, where `big` allows it,
/// the suffix `n` of a big integer may follow.
pub open spec fn decimal_tail(src: Seq<char>, start: int, end: int, big: bool) -> Lexed {
    match char_at(src, end) {
        Some('.') => fraction(src, start, end),
        Some('e') | Some('E') => exponent(src, start, end),
        Some('n') if big => closed_number(src, start, end + 1, NumericKind::BigInt(10)),
        _ => closed_number(src, start, end, NumericKind::Integer(10)),
    }
}

/// The literal that starts at offset `start` with `0` and a letter that
/// announces the radix: at least one digit of that radix follows, then
/// perhaps the suffix `n` of a big integer.
pub open spec fn radix_literal(src: Seq<char>, start: int, radix: u32) -> Lexed {
    let end = digits_end(src, start + 2, radix);
    if end == start + 2 {
        Lexed::Failure { error: ErrorKind::MalformedNumber, at: end, end }
    } else if char_at(src, end) == Some('n') {
        closed_number(src, start, end + 1, NumericKind::BigInt(radix))
    } else {
        closed_number(src, start, end, NumericKind::Integer(radix))
    }
}

/// The literal that starts at offset `start` with `0` and a decimal digit.
/// Strict mode has no such literal. Otherwise it is octal if all its digits
/// are, and else decimal, with a fraction or an exponent where one follows.
pub open spec fn leading_zero(src: Seq<char>, start: int, strict: bool) -> Lexed {
    if strict {
        Lexed::Failure { error: ErrorKind::LegacyOctal, at: start + 1, end: start + 1 }
    } else {
        let end = digits_end(src, start + 1, 10);
        if digits_end(src, start + 1, 8) == end {
            closed_number(src, start, end, NumericKind::Integer(8))
        } else {
            decimal_tail(src, start, end, false)
        }
    }
}

/// The numeric literal that starts with the decimal digit at offset `start`
/// of `src`.
pub open spec fn numeric_literal(src: Seq<char>, start: int, strict: bool) -> Lexed {
    if src[start] == '0' {
        match char_at(src, start + 1) {
            Some('x') | Some('X') => radix_literal(src, start, 16),
            Some('o') | Some('O') => radix_literal(src, start, 8),
            Some('b') | Some('B') => radix_literal(src, start, 2),
            Some(c) if is_digit(c, 10) => leading_zero(src, start, strict),
            _ => decimal_tail(src, start, start + 1, true),
        }
    } else {
        decimal_tail(src, start, digits_end(src, start + 1, 10), true)
    }
}

/// A literal with an exponent ends behind its `e`, inside the source.
pub proof fn lemma_exponent(src: Seq<char>, start: int, e: int)
    requires
        0 <= start <= e < src.len(),
    ensures
        exponent(src, start, e).advances(src, start),
        exponent(src, start, e).is_no_comment(),
{
    lemma_digits_end(src, e + 1, 10);
    if e + 2 <= src.len() {
        lemma_digits_end(src, e + 2, 10);
    }
}

/// A literal with a fraction ends behind its decimal point, inside the
/// source.
pub proof fn lemma_fraction(src: Seq<char>, start: int, point: int)
    requires
        0 <= start <= point < src.len(),
    ensures
        fraction(src, start, point).advances(src, start),
        fraction(src, start, point).is_no_comment(),
{
    lemma_digits_end(src, point + 1, 10);
    let end = digits_end(src, point + 1, 10);
    if end < src.len() {
        lemma_exponent(src, start, end);
    }
}

/// A decimal literal ends at or behind the end of its integer part, inside
/// the source.
pub proof fn lemma_decimal_tail(src: Seq<char>, start: int, end: int, big: bool)
    requires
        0 <= start < end <= src.len(),
    ensures
        decimal_tail(src, start, end, big).advances(src, start),
        decimal_tail(src, start, end, big).is_no_comment(),
{
    if end < src.len() {
        lemma_fraction(src, start, end);
        lemma_exponent(src, start, end);
    }
}

/// A numeric literal holds at least its first digit, and nothing beyond the
/// source.
pub proof fn lemma_numeric_literal(src: Seq<char>, start: int, strict: bool)
    requires
        0 <= start < src.len(),
    ensures
        numeric_literal(src, start, strict).advances(src, start),
        numeric_literal(src, start, strict).is_no_comment(),
{
    lemma_digits_end(src, start + 1, 10);
    lemma_digits_end(src, start + 1, 8);
    lemma_decimal_tail(src, start, start + 1, true);
    lemma_decimal_tail(src, start, digits_end(src, start + 1, 10), true);
    lemma_decimal_tail(src, start, digits_end(src, start + 1, 10), false);
    if start + 2 <= src.len() {
        lemma_digits_end(src, start + 2, 16);
        lemma_digits_end(src, start + 2, 8);
        lemma_digits_end(src, start + 2, 2);
    }
}

/// Consumes digits of the given radix as long as they come.
pub fn skip_digits(cursor: &mut Cursor, radix: u32)
    requires
        old(cursor).wf(),
    ensures
        final(cursor).wf(),
        final(cursor).source() == old(cursor).source(),
        final(cursor).index() == digits_end(old(cursor).source(), old(cursor).index(), radix),
{
    loop
        invariant
            cursor.wf(),
            cursor.source() == old(cursor).source(),
            digits_end(cursor.source(), cursor.index(), radix) == digits_end(
                old(cursor).source(),
                old(cursor).index(),
                radix,
            ),
        ensures
            cursor.index() == digits_end(old(cursor).source(), old(cursor).index(), radix),
        decreases cursor.source().len() - cursor.index(),
    {
        match cursor.peek() {
            Some(c) => {
                if is_digit(c, radix) {
                    cursor.next();
                } else {
                    break ;
                }
            },
            None => {
                break ;
            },
        }
    }
}

/// Ends the literal that starts at offset `start` at the cursor.
fn close_number(cursor: &Cursor, start_pos: Position, start: usize, kind: NumericKind) -> (r:
    Result<Token, Error>)
    requires
        cursor.wf(),
        start < cursor.index(),
        start_pos == position_at(cursor.source(), start as int),
    ensures
        result_view(r) == closed_number(
            cursor.source(),
            start as int,
            cursor.index(),
            kind,
        ).result(cursor.source(), start as int),
{
    match cursor.peek() {
        Some(c) => {
            if is_identifier_start(c) || is_digit(c, 10) {
                return error_here(cursor, ErrorKind::MalformedNumber);
            }
        },
        None => {},
    }
    let text = cursor.slice(start, cursor.offset());
    token_here(cursor, start_pos, TokenKind::NumericLiteral { kind, text }, Ghost(start as int))
}

/// Lexes the exponent whose `e` is the next character.
fn lex_exponent(cursor: &mut Cursor, start_pos: Position, start: usize) -> (r: Result<
    Token,
    Error,
>)
    requires
        old(cursor).wf(),
        start < old(cursor).index() < old(cursor).source().len(),
        start_pos == position_at(old(cursor).source(), start as int),
    ensures
        final(cursor).wf(),
        final(cursor).source() == old(cursor).source(),
        final(cursor).index() == exponent(
            old(cursor).source(),
            start as int,
            old(cursor).index(),
        ).end(),
        result_view(r) == exponent(old(cursor).source(), start as int, old(cursor).index()).result(
            old(cursor).source(),
            start as int,
        ),
{
    cursor.next();
    match cursor.peek() {
        Some(c) => {
            if c == '+' || c == '-' {
                cursor.next();
            }
        },
        None => {},
    }
    let digits = cursor.offset();
    proof {
        lemma_digits_end(cursor.source(), cursor.index(), 10);
    }
    skip_digits(cursor, 10);
    if cursor.offset() == digits {
        error_here(cursor, ErrorKind::MalformedNumber)
    } else {
        close_number(cursor, start_pos, start, NumericKind::Rational)
    }
}

/// Lexes the fraction whose decimal point is the next character.
fn lex_fraction_tail(cursor: &mut Cursor, start_pos: Position, start: usize) -> (r: Result<
    Token,
    Error,
>)
    requires
        old(cursor).wf(),
        start <= old(cursor).index() < old(cursor).source().len(),
        start_pos == position_at(old(cursor).source(), start as int),
    ensures
        final(cursor).wf(),
        final(cursor).source() == old(cursor).source(),
        final(cursor).index() == fraction(
            old(cursor).source(),
            start as int,
            old(cursor).index(),
        ).end(),
        result_view(r) == fraction(old(cursor).source(), start as int, old(cursor).index()).result(
            old(cursor).source(),
            start as int,
        ),
{
    cursor.next();
    proof {
        lemma_digits_end(cursor.source(), cursor.index(), 10);
    }
    skip_digits(cursor, 10);
    match cursor.peek() {
        Some('.') => error_here(cursor, ErrorKind::MalformedNumber),
        Some('e') | Some('E') => lex_exponent(cursor, start_pos, start),
        _ => close_number(cursor, start_pos, start, NumericKind::Rational),
    }
}

/// Lexes what follows the integer part of a decimal literal.
fn lex_decimal_tail(cursor: &mut Cursor, start_pos: Position, start: usize, big: bool) -> (r:
    Result<Token, Error>)
    requires
        old(cursor).wf(),
        start < old(cursor).index(),
        start_pos == position_at(old(cursor).source(), start as int),
    ensures
        final(cursor).wf(),
        final(cursor).source() == old(cursor).source(),
        final(cursor).index() == decimal_tail(
            old(cursor).source(),
            start as int,
            old(cursor).index(),
            big,
        ).end(),
        result_view(r) == decimal_tail(
            old(cursor).source(),
            start as int,
            old(cursor).index(),
            big,
        ).result(old(cursor).source(), start as int),
{
    match cursor.peek() {
        Some('.') => lex_fraction_tail(cursor, start_pos, start),
        Some('e') | Some('E') => lex_exponent(cursor, start_pos, start),
        Some('n') => {
            if big {
                cursor.next();
                close_number(cursor, start_pos, start, NumericKind::BigInt(10))
            } else {
                close_number(cursor, start_pos, start, NumericKind::Integer(10))
            }
        },
        _ => close_number(cursor, start_pos, start, NumericKind::Integer(10)),
    }
}

/// Lexes a literal in the given radix; the letter that announces the radix
/// is the next character.
fn lex_radix_literal(cursor: &mut Cursor, start_pos: Position, start: usize, radix: u32) -> (r:
    Result<Token, Error>)
    requires
        old(cursor).wf(),
        start + 1 == old(cursor).index() < old(cursor).source().len(),
        start_pos == position_at(old(cursor).source(), start as int),
    ensures
        final(cursor).wf(),
        final(cursor).source() == old(cursor).source(),
        final(cursor).index() == radix_literal(old(cursor).source(), start as int, radix).end(),
        result_view(r) == radix_literal(old(cursor).source(), start as int, radix).result(
            old(cursor).source(),
            start as int,
        ),
{
    cursor.next();
    let digits = cursor.offset();
    proof {
        lemma_digits_end(cursor.source(), cursor.index(), radix);
    }
    skip_digits(cursor, radix);
    if cursor.offset() == digits {
        error_here(cursor, ErrorKind::MalformedNumber)
    } else if cursor.next_is('n') {
        close_number(cursor, start_pos, start, NumericKind::BigInt(radix))
    } else {
        close_number(cursor, start_pos, start, NumericKind::Integer(radix))
    }
}

/// The octal digits from offset `i` on are the first of the decimal digits
/// from there on, and they are all of them unless a decimal digit follows
/// them.
proof fn lemma_octal_prefix(src: Seq<char>, i: int)
    requires
        0 <= i <= src.len(),
    ensures
        digits_end(src, digits_end(src, i, 8), 10) == digits_end(src, i, 10),
        (digits_end(src, i, 8) == digits_end(src, i, 10)) == !(char_at(
            src,
            digits_end(src, i, 8),
        ) matches Some(c) && is_digit(c, 10)),
    decreases src.len() - i,
{
    if i < src.len() && is_digit(src[i], 8) {
        lemma_octal_prefix(src, i + 1);
    } else {
        lemma_digits_end(src, i, 10);
    }
}

/// Lexes a literal that starts with `0`; a decimal digit is the next
/// character.
fn lex_leading_zero(cursor: &mut Cursor, start_pos: Position, start: usize, strict: bool) -> (r:
    Result<Token, Error>)
    requires
        old(cursor).wf(),
        start + 1 == old(cursor).index(),
        start_pos == position_at(old(cursor).source(), start as int),
    ensures
        final(cursor).wf(),
        final(cursor).source() == old(cursor).source(),
        final(cursor).index() == leading_zero(old(cursor).source(), start as int, strict).end(),
        result_view(r) == leading_zero(old(cursor).source(), start as int, strict).result(
            old(cursor).source(),
            start as int,
        ),
{
    if strict {
        return error_here(cursor, ErrorKind::LegacyOctal);
    }
    proof {
        lemma_octal_prefix(cursor.source(), cursor.index());
        lemma_digits_end(cursor.source(), cursor.index(), 8);
    }
    skip_digits(cursor, 8);
    match cursor.peek() {
        Some(c) => {
            if is_digit(c, 10) {
                proof {
                    lemma_digits_end(cursor.source(), cursor.index(), 10);
                }
                skip_digits(cursor, 10);
                lex_decimal_tail(cursor, start_pos, start, false)
            } else {
                close_number(cursor, start_pos, start, NumericKind::Integer(8))
            }
        },
        None => close_number(cursor, start_pos, start, NumericKind::Integer(8)),
    }
}

/// Lexes the numeric literal whose first digit, `first`, has just been
/// consumed. In strict mode a literal with a leading zero is an error.
pub fn lex_number(cursor: &mut Cursor, start_pos: Position, first: char, strict: bool) -> (r:
    Result<Token, Error>)
    requires
        old(cursor).wf(),
        old(cursor).index() >= 1,
        start_pos == position_at(old(cursor).source(), old(cursor).index() - 1),
        first == old(cursor).source()[old(cursor).index() - 1],
    ensures
        final(cursor).wf(),
        final(cursor).source() == old(cursor).source(),
        final(cursor).index() == numeric_literal(
            old(cursor).source(),
            old(cursor).index() - 1,
            strict,
        ).end(),
        result_view(r) == numeric_literal(
            old(cursor).source(),
            old(cursor).index() - 1,
            strict,
        ).result(old(cursor).source(), old(cursor).index() - 1),
{
    let start = cursor.offset() - 1;
    if first == '0' {
        match cursor.peek() {
            Some('x') | Some('X') => lex_radix_literal(cursor, start_pos, start, 16),
            Some('o') | Some('O') => lex_radix_literal(cursor, start_pos, start, 8),
            Some('b') | Some('B') => lex_radix_literal(cursor, start_pos, start, 2),
            Some(c) => {
                if is_digit(c, 10) {
                    lex_leading_zero(cursor, start_pos, start, strict)
                } else {
                    lex_decimal_tail(cursor, start_pos, start, true)
                }
            },
            None => lex_decimal_tail(cursor, start_pos, start, true),
        }
    } else {
        proof {
            lemma_digits_end(cursor.source(), cursor.index(), 10);
        }
        skip_digits(cursor, 10);
        lex_decimal_tail(cursor, start_pos, start, true)
    }
}

/// Lexes the numeric literal that starts with a decimal point, which has
/// just been consumed; a decimal digit is the next character.
pub fn lex_fraction(cursor: &mut Cursor, start_pos: Position) -> (r: Result<Token, Error>)
    requires
        old(cursor).wf(),
        old(cursor).index() >= 1,
        start_pos == position_at(old(cursor).source(), old(cursor).index() - 1),
        old(cursor).current() matches Some(c) && is_digit(c, 10),
    ensures
        final(cursor).wf(),
        final(cursor).source() == old(cursor).source(),
        final(cursor).index() == fraction(
            old(cursor).source(),
            old(cursor).index() - 1,
            old(cursor).index() - 1,
        ).end(),
        result_view(r) == fraction(
            old(cursor).source(),
            old(cursor).index() - 1,
            old(cursor).index() - 1,
        ).result(old(cursor).source(), old(cursor).index() - 1),
{
    let start = cursor.offset() - 1;
    proof {
        lemma_digits_end(cursor.source(), cursor.index(), 10);
    }
    skip_digits(cursor, 10);
    match cursor.peek() {
        Some('.') => error_here(cursor, ErrorKind::MalformedNumber),
        Some('e') | Some('E') => lex_exponent(cursor, start_pos, start),
        _ => close_number(cursor, start_pos, start, NumericKind::Rational),
    }
}

} // verus!
