//! Character classes of the lexical grammar.

use vstd::prelude::*;

verus! {

/// Whether `c` has the Unicode property `Alphabetic`.
pub uninterp spec fn unicode_alphabetic(c: char) -> bool;

/// Whether `c` is in one of the Unicode general categories `Nd`, `Nl` or `No`.
pub uninterp spec fn unicode_numeric(c: char) -> bool;

/// Calls `char::is_alphabetic`. The Unicode tables behind it are not
/// modelled: the result is only given the name [`unicode_alphabetic`].
#[verifier::external_body]
fn char_is_alphabetic(c: char) -> (r: bool)
    ensures
        r == unicode_alphabetic(c),
{
    c.is_alphabetic()
}

/// Calls `char::is_numeric`. The Unicode tables behind it are not modelled:
/// the result is only given the name [`unicode_numeric`].
#[verifier::external_body]
fn char_is_numeric(c: char) -> (r: bool)
    ensures
        r == unicode_numeric(c),
{
    c.is_numeric()
}

/// Calls `char::from_u32`, which yields a character exactly for the Unicode
/// scalar values: every code point up to U+10FFFF outside the surrogate
/// range U+D800 to U+DFFF.
#[verifier::external_body]
pub(crate) fn char_from_u32(v: u32) -> (r: Option<char>)
    ensures
        is_scalar_value(v as int) ==> r == Some(v as char),
        !is_scalar_value(v as int) ==> r.is_none(),
{
    char::from_u32(v)
}

/// The code points that are characters: all but the surrogates.
pub open spec fn is_scalar_value(v: int) -> bool {
    0 <= v <= 0xD7FF || 0xE000 <= v <= 0x10FFFF
}

/// White space of the lexical grammar: TAB, VT, FF, SP, NBSP, ZWNBSP and the
/// Unicode space separators. Line terminators are not white space.
pub open spec fn is_whitespace(c: char) -> bool {
    ||| c == '\u{0009}'
    ||| c == '\u{000B}'
    ||| c == '\u{000C}'
    ||| c == '\u{0020}'
    ||| c == '\u{00A0}'
    ||| c == '\u{FEFF}'
    ||| c == '\u{1680}'
    ||| ('\u{2000}' <= c && c <= '\u{200A}')
    ||| c == '\u{202F}'
    ||| c == '\u{205F}'
    ||| c == '\u{3000}'
}

/// The four line terminators: LF, CR, LS and PS.
pub open spec fn spec_is_line_terminator(c: char) -> bool {
    c == '\n' || c == '\r' || c == '\u{2028}' || c == '\u{2029}'
}

/// Decides whether `c` is a line terminator.
#[verifier::when_used_as_spec(spec_is_line_terminator)]
pub fn is_line_terminator(c: char) -> (r: bool)
    ensures
        r == spec_is_line_terminator(c),
{
    c == '\n' || c == '\r' || c == '\u{2028}' || c == '\u{2029}'
}

/// The value of `c` as a digit in the given radix, if it is one. Letters
/// count in either case.
pub open spec fn digit_value(c: char, radix: int) -> Option<int> {
    let v: int = if '0' <= c && c <= '9' {
        c as int - '0' as int
    } else if 'a' <= c && c <= 'z' {
        c as int - 'a' as int + 10
    } else if 'A' <= c && c <= 'Z' {
        c as int - 'A' as int + 10
    } else {
        36
    };
    if v < radix {
        Some(v)
    } else {
        None
    }
}

/// Whether `c` is a digit in the given radix.
pub open spec fn spec_is_digit(c: char, radix: u32) -> bool {
    digit_value(c, radix as int).is_some()
}

/// Computes [`digit_value`].
pub fn to_digit(c: char, radix: u32) -> (r: Option<u32>)
    ensures
        r.is_some() == digit_value(c, radix as int).is_some(),
        r matches Some(v) ==> digit_value(c, radix as int) == Some(v as int),
{
    let v: u32 = if '0' <= c && c <= '9' {
        c as u32 - '0' as u32
    } else if 'a' <= c && c <= 'z' {
        c as u32 - 'a' as u32 + 10
    } else if 'A' <= c && c <= 'Z' {
        c as u32 - 'A' as u32 + 10
    } else {
        36
    };
    if v < radix {
        Some(v)
    } else {
        None
    }
}

/// Decides whether `c` is a digit in the given radix.
#[verifier::when_used_as_spec(spec_is_digit)]
pub fn is_digit(c: char, radix: u32) -> (r: bool)
    ensures
        r == spec_is_digit(c, radix),
{
    to_digit(c, radix).is_some()
}

/// Whether `c` is one of the ASCII letters.
pub open spec fn is_ascii_letter(c: char) -> bool {
    ('a' <= c && c <= 'z') || ('A' <= c && c <= 'Z')
}

/// The characters that may begin an identifier. Among the ASCII characters
/// these are the letters, `$` and `_`; beyond ASCII, the alphabetic
/// characters of Unicode.
pub open spec fn spec_is_identifier_start(c: char) -> bool {
    if c <= '\u{7F}' {
        is_ascii_letter(c) || c == '$' || c == '_'
    } else {
        unicode_alphabetic(c)
    }
}

/// Decides whether `c` may begin an identifier.
#[verifier::when_used_as_spec(spec_is_identifier_start)]
pub fn is_identifier_start(c: char) -> (r: bool)
    ensures
        r == spec_is_identifier_start(c),
{
    if c <= '\u{7F}' {
        ('a' <= c && c <= 'z') || ('A' <= c && c <= 'Z') || c == '$' || c == '_'
    } else {
        char_is_alphabetic(c)
    }
}

/// The characters that may continue an identifier. Among the ASCII
/// characters these are the letters, the digits, `$` and `_`; beyond ASCII,
/// the alphabetic and the numeric characters of Unicode and the two joiners
/// U+200C and U+200D.
pub open spec fn spec_is_identifier_part(c: char) -> bool {
    if c <= '\u{7F}' {
        is_ascii_letter(c) || ('0' <= c && c <= '9') || c == '$' || c == '_'
    } else {
        unicode_alphabetic(c) || unicode_numeric(c) || c == '\u{200C}' || c == '\u{200D}'
    }
}

/// Decides whether `c` may continue an identifier.
#[verifier::when_used_as_spec(spec_is_identifier_part)]
pub fn is_identifier_part(c: char) -> (r: bool)
    ensures
        r == spec_is_identifier_part(c),
{
    if c <= '\u{7F}' {
        ('a' <= c && c <= 'z') || ('A' <= c && c <= 'Z') || ('0' <= c && c <= '9') || c == '$'
            || c == '_'
    } else {
        char_is_alphabetic(c) || char_is_numeric(c) || c == '\u{200C}' || c == '\u{200D}'
    }
}

/// The character of `src` at offset `i`, if there is one.
pub open spec fn char_at(src: Seq<char>, i: int) -> Option<char> {
    if 0 <= i < src.len() {
        Some(src[i])
    } else {
        None
    }
}

} // verus!
