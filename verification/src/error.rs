//! What the lexer reports when the source is not well formed.

use crate::chars::char_at;
use crate::position::{position_at, Position};
use vstd::prelude::*;

verus! {

/// The defects that the lexer tells apart.
#[derive(Clone, Copy, Debug, PartialEq, Eq, Hash)]
pub enum ErrorKind {
    /// A character that begins no token.
    UnexpectedCharacter,
    /// A string literal that meets a line break or the end of the source
    /// before its closing quote.
    UnterminatedString,
    /// A backslash in a string literal that begins no escape sequence.
    InvalidEscape,
    /// A template literal without its closing backtick.
    UnterminatedTemplate,
    /// A block comment without its closing `*/`.
    UnterminatedComment,
    /// A regular expression literal that meets a line break or the end of
    /// the source before its closing slash.
    UnterminatedRegex,
    /// A numeric literal that breaks off or runs into a character that may
    /// not follow it.
    MalformedNumber,
    /// A numeric literal with a leading zero, met in strict mode.
    LegacyOctal,
}

/// A syntax error: what is wrong, the character at which the lexer gave up
/// (`None` at the end of the source), and where that is.
#[derive(Clone, Copy, Debug, PartialEq, Eq, Hash)]
pub struct Error {
    pub kind: ErrorKind,
    pub found: Option<char>,
    pub position: Position,
}

/// A sentence for each kind of error.
pub open spec fn description_of(kind: ErrorKind) -> Seq<char> {
    match kind {
        ErrorKind::UnexpectedCharacter => "unexpected character"@,
        ErrorKind::UnterminatedString => "unterminated string literal"@,
        ErrorKind::InvalidEscape => "invalid escape sequence"@,
        ErrorKind::UnterminatedTemplate => "unterminated template literal"@,
        ErrorKind::UnterminatedComment => "unterminated block comment"@,
        ErrorKind::UnterminatedRegex => "unterminated regular expression literal"@,
        ErrorKind::MalformedNumber => "malformed numeric literal"@,
        ErrorKind::LegacyOctal => "leading zeros are not allowed in strict mode"@,
    }
}

/// The error of the given kind at offset `at` of `src`.
pub open spec fn error_at(src: Seq<char>, kind: ErrorKind, at: int) -> Error {
    Error { kind, found: char_at(src, at), position: position_at(src, at) }
}

impl Error {
    /// A syntax error from its parts.
    pub fn syntax(kind: ErrorKind, found: Option<char>, position: Position) -> (e: Error)
        ensures
            e == (Error { kind, found, position }),
    {
        Error { kind, found, position }
    }

    /// What is wrong.
    pub fn kind(&self) -> (k: ErrorKind)
        ensures
            k == self.kind,
    {
        self.kind
    }

    /// The character at which the lexer gave up, or `None` at the end of the
    /// source.
    pub fn found(&self) -> (c: Option<char>)
        ensures
            c == self.found,
    {
        self.found
    }

    /// Where the lexer gave up.
    pub fn position(&self) -> (p: Position)
        ensures
            p == self.position,
    {
        self.position
    }

    /// What is wrong, in words.
    pub fn description(&self) -> (s: &'static str)
        ensures
            s@ == description_of(self.kind),
    {
        match self.kind {
            ErrorKind::UnexpectedCharacter => "unexpected character",
            ErrorKind::UnterminatedString => "unterminated string literal",
            ErrorKind::InvalidEscape => "invalid escape sequence",
            ErrorKind::UnterminatedTemplate => "unterminated template literal",
            ErrorKind::UnterminatedComment => "unterminated block comment",
            ErrorKind::UnterminatedRegex => "unterminated regular expression literal",
            ErrorKind::MalformedNumber => "malformed numeric literal",
            ErrorKind::LegacyOctal => "leading zeros are not allowed in strict mode",
        }
    }
}

} // verus!
