//! String literals and their escape sequences.

use crate::chars::{char_at, char_from_u32, digit_value, is_digit, is_scalar_value, to_digit};
use crate::cursor::Cursor;
use crate::error::{Error, ErrorKind};
use crate::lexeme::{error_here, result_view, token_here, Lexed};
use crate::number::{digits_end, lemma_digits_end};
use crate::position::{position_at, Position};
use crate::token::{Token, TokenKind, TokenKindView};
use vstd::prelude::*;

verus! {

/// What a backslash and the characters behind it stand for.
pub ghost enum Escape {
    /// One character; the escape sequence ends at offset `end`.
    Char { ch: char, end: int },
    /// Nothing: a backslash before a line break joins two lines. The line
    /// break ends at offset `end`.
    Continuation { end: int },
    /// No escape sequence: the character at offset `at` cannot stand there.
    Invalid { at: int },
}

/// The number that the hexadecimal digits of `src` from offset `from` up to
/// offset `to` spell.
pub open spec fn hex_value(src: Seq<char>, from: int, to: int) -> int
    decreases to - from,
{
    if to <= from {
        0
    } else {
        hex_value(src, from, to - 1) * 16 + match digit_value(src[to - 1], 16) {
            Some(d) => d,
            None => 0,
        }
    }
}

/// Where a run of at most `n` hexadecimal digits from offset `i` on ends.
pub open spec fn hex_run_end(src: Seq<char>, i: int, n: int) -> int {
    let end = digits_end(src, i, 16);
    if end < i + n {
        end
    } else {
        i + n
    }
}

/// The character with code point `v`, where there is one, as the escape
/// sequence that ends at offset `end`.
pub open spec fn code_point(v: int, end: int) -> Escape {
    if is_scalar_value(v) {
        Escape::Char { ch: v as char, end }
    } else {
        Escape::Invalid { at: end }
    }
}

/// The escape sequence whose backslash stands just before offset `i` of
/// `src`.
///
/// The letters `n`, `t`, `r`, `b`, `f` and `v` stand for control characters;
/// `0` for NUL, unless a digit follows; `x` and two hexadecimal digits, `u`
/// and four, or `u` and any number of them in braces, for the character with
/// that code point. The digits `1` to `9` begin no escape sequence. A line
/// terminator stands for nothing, CR LF counting as one. Any other character
/// stands for itself.
pub open spec fn escape(src: Seq<char>, i: int) -> Escape {
    let c = src[i];
    if c == 'n' {
        Escape::Char { ch: '\n', end: i + 1 }
    } else if c == 't' {
        Escape::Char { ch: '\t', end: i + 1 }
    } else if c == 'r' {
        Escape::Char { ch: '\r', end: i + 1 }
    } else if c == 'b' {
        Escape::Char { ch: '\u{8}', end: i + 1 }
    } else if c == 'f' {
        Escape::Char { ch: '\u{C}', end: i + 1 }
    } else if c == 'v' {
        Escape::Char { ch: '\u{B}', end: i + 1 }
    } else if c == '0' {
        match char_at(src, i + 1) {
            Some(d) if is_digit(d, 10) => Escape::Invalid { at: i + 1 },
            _ => Escape::Char { ch: '\0', end: i + 1 },
        }
    } else if is_digit(c, 10) {
        Escape::Invalid { at: i }
    } else if c == 'x' {
        let end = hex_run_end(src, i + 1, 2);
        if end < i + 3 {
            Escape::Invalid { at: end }
        } else {
            code_point(hex_value(src, i + 1, end), end)
        }
    } else if c == 'u' {
        if char_at(src, i + 1) == Some('{') {
            let end = digits_end(src, i + 2, 16);
            if end == i + 2 || char_at(src, end) != Some('}') || !is_scalar_value(
                hex_value(src, i + 2, end),
            ) {
                Escape::Invalid { at: end }
            } else {
                Escape::Char { ch: hex_value(src, i + 2, end) as char, end: end + 1 }
            }
        } else {
            let end = hex_run_end(src, i + 1, 4);
            if end < i + 5 {
                Escape::Invalid { at: end }
            } else {
                code_point(hex_value(src, i + 1, end), end)
            }
        }
    } else if c == '\r' {
        Escape::Continuation { end: if char_at(src, i + 1) == Some('\n') { i + 2 } else { i + 1 } }
    } else if c == '\n' || c == '\u{2028}' || c == '\u{2029}' {
        Escape::Continuation { end: i + 1 }
    } else {
        Escape::Char { ch: c, end: i + 1 }
    }
}

/// An escape sequence holds at least the character behind its backslash,
/// and nothing beyond the source.
pub proof fn lemma_escape_bounds(src: Seq<char>, i: int)
    requires
        0 <= i < src.len(),
    ensures
        match escape(src, i) {
            Escape::Char { end, .. } => i < end <= src.len(),
            Escape::Continuation { end } => i < end <= src.len(),
            Escape::Invalid { at } => i <= at <= src.len(),
        },
{
    lemma_digits_end(src, i + 1, 16);
    if i + 2 <= src.len() {
        lemma_digits_end(src, i + 2, 16);
    }
}

/// The string literal of `src` whose quote is `quote`, read from offset `i`
/// on, with `value` read so far.
///
/// The closing quote ends the literal. A line feed, a carriage return or the
/// end of the source before it is an error. A backslash begins an escape
/// sequence; every other character stands for itself.
pub open spec fn string_body(src: Seq<char>, i: int, quote: char, value: Seq<char>) -> Lexed
    decreases src.len() - i,
{
    if i < 0 || i >= src.len() {
        Lexed::Failure { error: ErrorKind::UnterminatedString, at: i, end: i }
    } else if src[i] == quote {
        Lexed::Token { kind: TokenKindView::StringLiteral(value), end: i + 1 }
    } else if src[i] == '\n' || src[i] == '\r' {
        Lexed::Failure { error: ErrorKind::UnterminatedString, at: i, end: i }
    } else if src[i] == '\\' {
        if i + 1 >= src.len() {
            Lexed::Failure { error: ErrorKind::UnterminatedString, at: i + 1, end: i + 1 }
        } else {
            proof {
                lemma_escape_bounds(src, i + 1);
            }
            match escape(src, i + 1) {
                Escape::Char { ch, end } => string_body(src, end, quote, value.push(ch)),
                Escape::Continuation { end } => string_body(src, end, quote, value),
                Escape::Invalid { at } => Lexed::Failure {
                    error: ErrorKind::InvalidEscape,
                    at,
                    end: at,
                },
            }
        }
    } else {
        string_body(src, i + 1, quote, value.push(src[i]))
    }
}

/// The string literal that starts with the quote at offset `start` of `src`.
pub open spec fn string_literal(src: Seq<char>, start: int) -> Lexed {
    string_body(src, start + 1, src[start], Seq::empty())
}

/// Reading a string literal on ends at or behind where it is read from,
/// inside the source, and gives a string literal if it gives a token.
pub proof fn lemma_string_body(src: Seq<char>, i: int, quote: char, value: Seq<char>)
    requires
        0 <= i <= src.len(),
    ensures
        string_body(src, i, quote, value).advances(src, i - 1),
        string_body(src, i, quote, value) matches Lexed::Token { kind, .. }
            ==> kind is StringLiteral,
    decreases src.len() - i,
{
    if i < src.len() && src[i] != quote && src[i] != '\n' && src[i] != '\r' {
        if src[i] == '\\' {
            if i + 1 < src.len() {
                lemma_escape_bounds(src, i + 1);
                match escape(src, i + 1) {
                    Escape::Char { ch, end } => {
                        lemma_string_body(src, end, quote, value.push(ch));
                    },
                    Escape::Continuation { end } => {
                        lemma_string_body(src, end, quote, value);
                    },
                    Escape::Invalid { at } => {},
                }
            }
        } else {
            lemma_string_body(src, i + 1, quote, value.push(src[i]));
        }
    }
}

/// What [`lex_escape`] found.
pub enum EscapeOutcome {
    Char(char),
    Continuation,
    Invalid,
}

impl EscapeOutcome {
    /// Whether this is what the escape sequence `escape` amounts to, with
    /// the cursor left at offset `index`.
    pub open spec fn matches_escape(self, escape: Escape, index: int) -> bool {
        match escape {
            Escape::Char { ch, end } => self == EscapeOutcome::Char(ch) && index == end,
            Escape::Continuation { end } => self == EscapeOutcome::Continuation && index == end,
            Escape::Invalid { at } => self == EscapeOutcome::Invalid && index == at,
        }
    }
}

/// Four hexadecimal digits spell a number below 65536.
proof fn lemma_hex_value_bound(src: Seq<char>, from: int, to: int)
    requires
        from <= to <= from + 4,
    ensures
        0 <= hex_value(src, from, to) < 0x10000,
{
    reveal_with_fuel(hex_value, 5);
}

/// Consumes hexadecimal digits as long as they come, but at most `n`, and
/// returns the number that they spell.
fn read_hex_digits(cursor: &mut Cursor, n: usize) -> (value: u32)
    requires
        old(cursor).wf(),
        n <= 4,
    ensures
        final(cursor).wf(),
        final(cursor).source() == old(cursor).source(),
        final(cursor).index() == hex_run_end(old(cursor).source(), old(cursor).index(), n as int),
        old(cursor).index() <= final(cursor).index() <= old(cursor).index() + n,
        value == hex_value(old(cursor).source(), old(cursor).index(), final(cursor).index()),
{
    let mut value: u32 = 0;
    let mut count: usize = 0;
    loop
        invariant
            cursor.wf(),
            cursor.source() == old(cursor).source(),
            count <= n <= 4,
            cursor.index() == old(cursor).index() + count,
            digits_end(cursor.source(), cursor.index(), 16) == digits_end(
                old(cursor).source(),
                old(cursor).index(),
                16,
            ),
            value == hex_value(cursor.source(), old(cursor).index(), cursor.index()),
        ensures
            cursor.index() == hex_run_end(old(cursor).source(), old(cursor).index(), n as int),
        decreases n - count,
    {
        proof {
            lemma_digits_end(cursor.source(), cursor.index(), 16);
            lemma_hex_value_bound(cursor.source(), old(cursor).index(), cursor.index());
        }
        if count >= n {
            break ;
        }
        match cursor.peek() {
            Some(c) => {
                match to_digit(c, 16) {
                    Some(d) => {
                        cursor.next();
                        value = value * 16 + d;
                        count = count + 1;
                    },
                    None => {
                        break ;
                    },
                }
            },
            None => {
                break ;
            },
        }
    }
    value
}

/// Consumes hexadecimal digits as long as they come. Returns the number
/// that they spell where that is a code point, and else some number that is
/// none.
fn read_code_point(cursor: &mut Cursor) -> (value: u32)
    requires
        old(cursor).wf(),
    ensures
        final(cursor).wf(),
        final(cursor).source() == old(cursor).source(),
        final(cursor).index() == digits_end(old(cursor).source(), old(cursor).index(), 16),
        is_scalar_value(value as int) == is_scalar_value(
            hex_value(old(cursor).source(), old(cursor).index(), final(cursor).index()),
        ),
        is_scalar_value(value as int) ==> value == hex_value(
            old(cursor).source(),
            old(cursor).index(),
            final(cursor).index(),
        ),
{
    let mut value: u32 = 0;
    loop
        invariant
            cursor.wf(),
            cursor.source() == old(cursor).source(),
            old(cursor).index() <= cursor.index(),
            digits_end(cursor.source(), cursor.index(), 16) == digits_end(
                old(cursor).source(),
                old(cursor).index(),
                16,
            ),
            value <= 0x10FFFF ==> value == hex_value(
                cursor.source(),
                old(cursor).index(),
                cursor.index(),
            ),
            value > 0x10FFFF ==> hex_value(cursor.source(), old(cursor).index(), cursor.index())
                > 0x10FFFF,
            value <= 0x10FFFFF,
        ensures
            cursor.index() == digits_end(old(cursor).source(), old(cursor).index(), 16),
        decreases cursor.source().len() - cursor.index(),
    {
        match cursor.peek() {
            Some(c) => {
                match to_digit(c, 16) {
                    Some(d) => {
                        cursor.next();
                        if value <= 0x10FFFF {
                            value = value * 16 + d;
                        }
                    },
                    None => {
                        break ;
                    },
                }
            },
            None => {
                break ;
            },
        }
    }
    value
}

/// The outcome for the code point `value`, met with the cursor behind the
/// escape sequence.
fn code_point_outcome(value: u32) -> (r: EscapeOutcome)
    ensures
        forall|end: int| r.matches_escape(#[trigger] code_point(value as int, end), end),
{
    match char_from_u32(value) {
        Some(ch) => EscapeOutcome::Char(ch),
        None => EscapeOutcome::Invalid,
    }
}

/// Consumes the escape sequence whose backslash has just been consumed, as
/// far as it is well formed, and says what it stands for.
pub fn lex_escape(cursor: &mut Cursor) -> (r: EscapeOutcome)
    requires
        old(cursor).wf(),
        old(cursor).index() < old(cursor).source().len(),
    ensures
        final(cursor).wf(),
        final(cursor).source() == old(cursor).source(),
        r.matches_escape(escape(old(cursor).source(), old(cursor).index()), final(cursor).index()),
{
    let c = match cursor.peek() {
        Some(c) => c,
        None => {
            return EscapeOutcome::Invalid;
        },
    };
    if c == 'n' {
        cursor.next();
        EscapeOutcome::Char('\n')
    } else if c == 't' {
        cursor.next();
        EscapeOutcome::Char('\t')
    } else if c == 'r' {
        cursor.next();
        EscapeOutcome::Char('\r')
    } else if c == 'b' {
        cursor.next();
        EscapeOutcome::Char('\u{8}')
    } else if c == 'f' {
        cursor.next();
        EscapeOutcome::Char('\u{C}')
    } else if c == 'v' {
        cursor.next();
        EscapeOutcome::Char('\u{B}')
    } else if c == '0' {
        cursor.next();
        match cursor.peek() {
            Some(d) => {
                if is_digit(d, 10) {
                    EscapeOutcome::Invalid
                } else {
                    EscapeOutcome::Char('\0')
                }
            },
            None => EscapeOutcome::Char('\0'),
        }
    } else if is_digit(c, 10) {
        EscapeOutcome::Invalid
    } else if c == 'x' {
        cursor.next();
        let digits = cursor.offset();
        let value = read_hex_digits(cursor, 2);
        if cursor.offset() - digits < 2 {
            EscapeOutcome::Invalid
        } else {
            code_point_outcome(value)
        }
    } else if c == 'u' {
        cursor.next();
        if cursor.next_is('{') {
            let digits = cursor.offset();
            proof {
                lemma_digits_end(cursor.source(), cursor.index(), 16);
            }
            let value = read_code_point(cursor);
            if cursor.offset() == digits {
                return EscapeOutcome::Invalid;
            }
            match cursor.peek() {
                Some('}') => {},
                _ => {
                    return EscapeOutcome::Invalid;
                },
            }
            match char_from_u32(value) {
                Some(ch) => {
                    cursor.next();
                    EscapeOutcome::Char(ch)
                },
                None => EscapeOutcome::Invalid,
            }
        } else {
            let digits = cursor.offset();
            let value = read_hex_digits(cursor, 4);
            if cursor.offset() - digits < 4 {
                EscapeOutcome::Invalid
            } else {
                code_point_outcome(value)
            }
        }
    } else if c == '\r' {
        cursor.next();
        cursor.next_is('\n');
        EscapeOutcome::Continuation
    } else if c == '\n' || c == '\u{2028}' || c == '\u{2029}' {
        cursor.next();
        EscapeOutcome::Continuation
    } else {
        cursor.next();
        EscapeOutcome::Char(c)
    }
}

/// Lexes the string literal whose opening quote, `quote`, has just been
/// consumed.
pub fn lex_string(cursor: &mut Cursor, start_pos: Position, quote: char) -> (r: Result<
    Token,
    Error,
>)
    requires
        old(cursor).wf(),
        old(cursor).index() >= 1,
        start_pos == position_at(old(cursor).source(), old(cursor).index() - 1),
        quote == old(cursor).source()[old(cursor).index() - 1],
    ensures
        final(cursor).wf(),
        final(cursor).source() == old(cursor).source(),
        final(cursor).index() == string_literal(
            old(cursor).source(),
            old(cursor).index() - 1,
        ).end(),
        result_view(r) == string_literal(old(cursor).source(), old(cursor).index() - 1).result(
            old(cursor).source(),
            old(cursor).index() - 1,
        ),
{
    let ghost start = cursor.index() - 1;
    let mut value: Vec<char> = Vec::new();
    loop
        invariant
            cursor.wf(),
            cursor.source() == old(cursor).source(),
            start == old(cursor).index() - 1,
            0 <= start < cursor.index(),
            start_pos == position_at(cursor.source(), start),
            quote == cursor.source()[start],
            string_body(cursor.source(), cursor.index(), quote, value@) == string_literal(
                cursor.source(),
                start,
            ),
        decreases cursor.source().len() - cursor.index(),
    {
        match cursor.peek() {
            None => {
                return error_here(cursor, ErrorKind::UnterminatedString);
            },
            Some(c) => {
                if c == quote {
                    cursor.next();
                    return token_here(
                        cursor,
                        start_pos,
                        TokenKind::StringLiteral(value),
                        Ghost(start),
                    );
                } else if c == '\n' || c == '\r' {
                    return error_here(cursor, ErrorKind::UnterminatedString);
                } else if c == '\\' {
                    cursor.next();
                    if cursor.peek().is_none() {
                        return error_here(cursor, ErrorKind::UnterminatedString);
                    }
                    proof {
                        lemma_escape_bounds(cursor.source(), cursor.index());
                    }
                    match lex_escape(cursor) {
                        EscapeOutcome::Char(ch) => {
                            value.push(ch);
                        },
                        EscapeOutcome::Continuation => {},
                        EscapeOutcome::Invalid => {
                            return error_here(cursor, ErrorKind::InvalidEscape);
                        },
                    }
                } else {
                    cursor.next();
                    value.push(c);
                }
            },
        }
    }
}

} // verus!
