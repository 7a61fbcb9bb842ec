//! The lexer: skips what is insignificant, tells by the first significant
//! character which kind of lexeme begins, and hands out its token.

use crate::chars::{is_digit, is_identifier_start, is_line_terminator, is_whitespace};
use crate::comment::{
    comment, comment_starts, lemma_block_comment_end, lemma_line_end, lex_comment,
};
use crate::cursor::Cursor;
use crate::error::{error_at, Error, ErrorKind};
use crate::identifier::{identifier, lemma_identifier_end, lex_identifier};
use crate::lexeme::{result_view, token_here, Lexed};
use crate::number::{lemma_fraction, lemma_numeric_literal, lex_number, numeric_literal};
use crate::operator::{is_operator_start, lex_operator, operator};
use crate::position::{position_at, span_at, Position};
use crate::regex::{lemma_regex_literal, lex_regex, regex_literal};
use crate::spread::{dot, lex_dot};
use crate::string::{lemma_string_body, lex_string, string_literal};
use crate::template::{lemma_template_end, lex_template, template_literal};
use crate::token::{Punctuator, Token, TokenKind, TokenKindView, TokenView};
use vstd::prelude::*;

verus! {

/// The goal symbols of the lexical grammar: what the parser expects next,
/// where the characters alone do not tell.
#[derive(Clone, Copy, Debug, PartialEq, Eq, Hash)]
pub enum InputElement {
    /// A slash divides; a closing brace closes a block.
    Div,
    /// A slash begins a regular expression literal.
    RegExp,
    /// A slash begins a regular expression literal, and a closing brace
    /// takes up a template literal again.
    RegExpOrTemplateTail,
    /// A slash divides, and a closing brace takes up a template literal
    /// again.
    TemplateTail,
}

impl Default for InputElement {
    fn default() -> (goal: InputElement)
        ensures
            goal == InputElement::Div,
    {
        InputElement::Div
    }
}

impl InputElement {
    /// Whether a slash that begins no comment begins a regular expression
    /// literal.
    pub open spec fn spec_allows_regex(self) -> bool {
        self == InputElement::RegExp || self == InputElement::RegExpOrTemplateTail
    }

    /// Decides whether a slash that begins no comment begins a regular
    /// expression literal.
    #[verifier::when_used_as_spec(spec_allows_regex)]
    pub fn allows_regex(self) -> (r: bool)
        ensures
            r == self.spec_allows_regex(),
    {
        match self {
            InputElement::RegExp | InputElement::RegExpOrTemplateTail => true,
            _ => false,
        }
    }

    /// Whether a closing brace takes up a template literal again.
    pub open spec fn spec_allows_template_tail(self) -> bool {
        self == InputElement::TemplateTail || self == InputElement::RegExpOrTemplateTail
    }

    /// Decides whether a closing brace takes up a template literal again.
    #[verifier::when_used_as_spec(spec_allows_template_tail)]
    pub fn allows_template_tail(self) -> (r: bool)
        ensures
            r == self.spec_allows_template_tail(),
    {
        match self {
            InputElement::TemplateTail | InputElement::RegExpOrTemplateTail => true,
            _ => false,
        }
    }
}

/// The punctuators that are a token by themselves wherever they stand.
pub open spec fn spec_single_punctuator(c: char) -> Option<Punctuator> {
    match c {
        ';' => Some(Punctuator::Semicolon),
        ':' => Some(Punctuator::Colon),
        '(' => Some(Punctuator::OpenParen),
        ')' => Some(Punctuator::CloseParen),
        ',' => Some(Punctuator::Comma),
        '{' => Some(Punctuator::OpenBlock),
        '}' => Some(Punctuator::CloseBlock),
        '[' => Some(Punctuator::OpenBracket),
        ']' => Some(Punctuator::CloseBracket),
        '?' => Some(Punctuator::Question),
        _ => None,
    }
}

/// The punctuator that `c` is by itself, if it is one.
#[verifier::when_used_as_spec(spec_single_punctuator)]
pub fn single_punctuator(c: char) -> (p: Option<Punctuator>)
    ensures
        p == spec_single_punctuator(c),
{
    match c {
        ';' => Some(Punctuator::Semicolon),
        ':' => Some(Punctuator::Colon),
        '(' => Some(Punctuator::OpenParen),
        ')' => Some(Punctuator::CloseParen),
        ',' => Some(Punctuator::Comma),
        '{' => Some(Punctuator::OpenBlock),
        '}' => Some(Punctuator::CloseBlock),
        '[' => Some(Punctuator::OpenBracket),
        ']' => Some(Punctuator::CloseBracket),
        '?' => Some(Punctuator::Question),
        _ => None,
    }
}

/// The lexeme that starts at offset `i` of `src`, where a character that is
/// no white space stands. The first character decides, in this order:
///
/// - a line terminator is a token by itself;
/// - a quote begins a string literal, a backtick a template literal;
/// - a decimal digit begins a numeric literal;
/// - a letter, `$` or `_` begins a word;
/// - a dot begins a numeric literal, `...` or is `.`;
/// - a closing brace takes up a template literal again where the goal
///   symbol says so;
/// - `;`, `:`, `,`, `?`, the brackets, parentheses and braces are tokens by
///   themselves;
/// - a slash begins a comment where `/` or `*` follows, else a regular
///   expression literal where the goal symbol says so, and else an operator;
/// - the other characters of operators begin one;
/// - any other character is an error, and is consumed.
pub open spec fn lex_at(src: Seq<char>, i: int, goal: InputElement, strict: bool) -> Lexed {
    let c = src[i];
    if is_line_terminator(c) {
        Lexed::Token { kind: TokenKindView::LineTerminator, end: i + 1 }
    } else if c == '"' || c == '\'' {
        string_literal(src, i)
    } else if c == '`' {
        template_literal(src, i)
    } else if is_digit(c, 10) {
        numeric_literal(src, i, strict)
    } else if is_identifier_start(c) {
        identifier(src, i)
    } else if c == '.' {
        dot(src, i)
    } else if c == '}' && goal.allows_template_tail() {
        template_literal(src, i)
    } else if single_punctuator(c) is Some {
        Lexed::Token { kind: TokenKindView::Punctuator(single_punctuator(c)->0), end: i + 1 }
    } else if c == '/' {
        if comment_starts(src, i) {
            comment(src, i)
        } else if goal.allows_regex() {
            regex_literal(src, i)
        } else {
            operator(src, i)
        }
    } else if is_operator_start(c) {
        operator(src, i)
    } else {
        Lexed::Failure { error: ErrorKind::UnexpectedCharacter, at: i, end: i + 1 }
    }
}

/// A lexeme holds at least its first character and nothing beyond the
/// source, and only what starts as a comment is one.
pub proof fn lemma_lex_at(src: Seq<char>, i: int, goal: InputElement, strict: bool)
    requires
        0 <= i < src.len(),
    ensures
        lex_at(src, i, goal, strict).advances(src, i),
        !comment_starts(src, i) ==> lex_at(src, i, goal, strict).is_no_comment(),
{
    lemma_string_body(src, i + 1, src[i], Seq::empty());
    lemma_template_end(src, i + 1, 0);
    lemma_numeric_literal(src, i, strict);
    lemma_identifier_end(src, i + 1);
    lemma_fraction(src, i, i);
    lemma_line_end(src, i + 1);
    if i + 2 <= src.len() {
        lemma_line_end(src, i + 2);
    }
    lemma_block_comment_end(src, i + 2);
    lemma_regex_literal(src, i);
}

/// What one request to the lexer amounts to.
pub ghost enum Step {
    /// Nothing significant is left; the source is consumed up to `end`.
    Done { end: int },
    /// A token of the given kind, which stands from offset `start` up to
    /// offset `end`.
    Token { kind: TokenKindView, start: int, end: int },
    /// An error of the given kind at offset `at`, with the source consumed
    /// up to `end`.
    Failure { error: ErrorKind, at: int, end: int },
}

impl Step {
    /// The offset up to which the source is consumed.
    pub open spec fn end(self) -> int {
        match self {
            Step::Done { end } => end,
            Step::Token { end, .. } => end,
            Step::Failure { end, .. } => end,
        }
    }

    /// What the caller gets: nothing, the token with its span, or the error
    /// with its position and the character there.
    pub open spec fn output(self, src: Seq<char>) -> Option<Result<TokenView, Error>> {
        match self {
            Step::Done { .. } => None,
            Step::Token { kind, start, end } => Some(
                Ok(TokenView { kind, span: span_at(src, start, end) }),
            ),
            Step::Failure { error, at, .. } => Some(Err(error_at(src, error, at))),
        }
    }
}

/// What the lexer hands out when asked at offset `i` of `src`: white space
/// and comments are passed over, and the first lexeme behind them is the
/// answer.
pub open spec fn next_step(src: Seq<char>, i: int, goal: InputElement, strict: bool) -> Step
    decreases src.len() - i,
    via next_step_decreases
{
    if i < 0 || i >= src.len() {
        Step::Done { end: i }
    } else if is_whitespace(src[i]) {
        next_step(src, i + 1, goal, strict)
    } else {
        match lex_at(src, i, goal, strict) {
            Lexed::Token { kind: TokenKindView::Comment, end } => next_step(src, end, goal, strict),
            Lexed::Token { kind, end } => Step::Token { kind, start: i, end },
            Lexed::Failure { error, at, end } => Step::Failure { error, at, end },
        }
    }
}

#[via_fn]
proof fn next_step_decreases(src: Seq<char>, i: int, goal: InputElement, strict: bool) {
    if 0 <= i < src.len() {
        lemma_lex_at(src, i, goal, strict);
    }
}

/// A request's result as a mathematical value.
pub open spec fn output_view(r: Option<Result<Token, Error>>) -> Option<Result<TokenView, Error>> {
    match r {
        Some(r) => Some(result_view(r)),
        None => None,
    }
}

/// A lexer over a source text. Each call of [`Lexer::next`] hands out the
/// next token.
#[derive(Debug)]
pub struct Lexer {
    cursor: Cursor,
    goal_symbol: InputElement,
    strict_mode: bool,
}

impl Lexer {
    /// The whole source text.
    pub closed spec fn source(&self) -> Seq<char> {
        self.cursor.source()
    }

    /// The number of characters consumed so far.
    pub closed spec fn offset(&self) -> int {
        self.cursor.index()
    }

    /// The goal symbol in force.
    pub closed spec fn goal(&self) -> InputElement {
        self.goal_symbol
    }

    /// Whether numeric literals are read as strict mode has them.
    pub closed spec fn strict(&self) -> bool {
        self.strict_mode
    }

    /// The lexer's cursor stands inside the source, and the positions the
    /// source can give rise to fit the machine's numbers.
    pub closed spec fn wf(&self) -> bool {
        self.cursor.wf()
    }

    /// What the next request amounts to.
    pub open spec fn step(&self) -> Step {
        next_step(self.source(), self.offset(), self.goal(), self.strict())
    }

    /// Checks if a character is white space as the language defines it:
    /// TAB, VT, FF, SP, NBSP, ZWNBSP and the Unicode space separators.
    pub fn is_whitespace(ch: char) -> (r: bool)
        ensures
            r == is_whitespace(ch),
    {
        match ch {
            '\u{0020}' | '\u{0009}' | '\u{000B}' | '\u{000C}' | '\u{00A0}' | '\u{FEFF}'
            | '\u{1680}' | '\u{2000}'..='\u{200A}' | '\u{202F}' | '\u{205F}' | '\u{3000}' => true,
            _ => false,
        }
    }

    /// A lexer at the start of `source`, with the goal symbol `Div` and
    /// strict mode off.
    pub fn new(source: Vec<char>) -> (lexer: Lexer)
        requires
            source@.len() < u64::MAX,
        ensures
            lexer.wf(),
            lexer.source() == source@,
            lexer.offset() == 0,
            lexer.goal() == InputElement::Div,
            !lexer.strict(),
    {
        Lexer { cursor: Cursor::new(source), goal_symbol: InputElement::Div, strict_mode: false }
    }

    /// Sets the goal symbol for the requests to come.
    pub fn set_goal(&mut self, elm: InputElement)
        ensures
            final(self).goal() == elm,
            final(self).source() == old(self).source(),
            final(self).offset() == old(self).offset(),
            final(self).strict() == old(self).strict(),
            final(self).wf() == old(self).wf(),
    {
        self.goal_symbol = elm;
    }

    /// The goal symbol in force.
    pub fn get_goal(&self) -> (goal: InputElement)
        ensures
            goal == self.goal(),
    {
        self.goal_symbol
    }

    /// Turns strict mode on or off for the requests to come.
    pub fn set_strict_mode(&mut self, strict: bool)
        ensures
            final(self).strict() == strict,
            final(self).source() == old(self).source(),
            final(self).offset() == old(self).offset(),
            final(self).goal() == old(self).goal(),
            final(self).wf() == old(self).wf(),
    {
        self.strict_mode = strict;
    }

    /// Whether strict mode is on.
    pub fn strict_mode(&self) -> (strict: bool)
        ensures
            strict == self.strict(),
    {
        self.strict_mode
    }

    /// The position of the next character to be consumed.
    pub fn position(&self) -> (p: Position)
        requires
            self.wf(),
        ensures
            p == position_at(self.source(), self.offset()),
    {
        self.cursor.pos()
    }

    /// Hands out the next token: `None` where only white space and comments
    /// are left, else the first lexeme behind them, or the error that
    /// reading it met. The source is consumed up to the end of that lexeme,
    /// or up to where the error stopped the reading.
    pub fn next(&mut self) -> (r: Option<Result<Token, Error>>)
        requires
            old(self).wf(),
        ensures
            final(self).wf(),
            final(self).source() == old(self).source(),
            final(self).goal() == old(self).goal(),
            final(self).strict() == old(self).strict(),
            final(self).offset() == old(self).step().end(),
            output_view(r) == old(self).step().output(old(self).source()),
    {
        let ghost src = self.cursor.source();
        loop
            invariant
                self.cursor.wf(),
                self.cursor.source() == src,
                src == old(self).cursor.source(),
                self.goal_symbol == old(self).goal_symbol,
                self.strict_mode == old(self).strict_mode,
                next_step(src, self.cursor.index(), self.goal_symbol, self.strict_mode)
                    == old(self).step(),
            decreases src.len() - self.cursor.index(),
        {
            let start = self.cursor.pos();
            let ghost i = self.cursor.index();
            let c = match self.cursor.next() {
                Some(c) => c,
                None => {
                    return None;
                },
            };
            if Self::is_whitespace(c) {
                continue ;
            }
            proof {
                lemma_lex_at(src, i, self.goal_symbol, self.strict_mode);
            }
            let token = if is_line_terminator(c) {
                token_here(&self.cursor, start, TokenKind::LineTerminator, Ghost(i))
            } else if c == '"' || c == '\'' {
                lex_string(&mut self.cursor, start, c)
            } else if c == '`' {
                lex_template(&mut self.cursor, start)
            } else if is_digit(c, 10) {
                lex_number(&mut self.cursor, start, c, self.strict_mode)
            } else if is_identifier_start(c) {
                lex_identifier(&mut self.cursor, start)
            } else if c == '.' {
                lex_dot(&mut self.cursor, start)
            } else if c == '}' && self.goal_symbol.allows_template_tail() {
                lex_template(&mut self.cursor, start)
            } else if let Some(p) = single_punctuator(c) {
                token_here(&self.cursor, start, TokenKind::Punctuator(p), Ghost(i))
            } else if c == '/' {
                match self.cursor.peek() {
                    Some('/') | Some('*') => lex_comment(&mut self.cursor, start),
                    _ => {
                        if self.goal_symbol.allows_regex() {
                            lex_regex(&mut self.cursor, start)
                        } else {
                            lex_operator(&mut self.cursor, start, c)
                        }
                    },
                }
            } else if is_operator_start(c) {
                lex_operator(&mut self.cursor, start, c)
            } else {
                Err(Error::syntax(ErrorKind::UnexpectedCharacter, Some(c), start))
            };
            match token {
                Ok(t) => {
                    if !t.is_comment() {
                        return Some(Ok(t));
                    }
                },
                Err(e) => {
                    return Some(Err(e));
                },
            }
        }
    }
}

} // verus!
