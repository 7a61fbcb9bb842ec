use js_lexer::{Error, ErrorKind, Lexer, NumericKind, Position, Punctuator, Span, Token, TokenKind};

fn chars(s: &str) -> Vec<char> {
    s.chars().collect()
}

fn first(s: &str) -> Result<Token, Error> {
    Lexer::new(chars(s)).next().unwrap()
}

fn first_strict(s: &str) -> Result<Token, Error> {
    let mut lexer = Lexer::new(chars(s));
    lexer.set_strict_mode(true);
    lexer.next().unwrap()
}

fn kinds(s: &str) -> Vec<TokenKind> {
    let mut lexer = Lexer::new(chars(s));
    let mut out = Vec::new();
    while let Some(r) = lexer.next() {
        out.push(r.unwrap().kind().clone());
    }
    out
}

fn number(kind: NumericKind, text: &str) -> TokenKind {
    TokenKind::NumericLiteral { kind, text: chars(text) }
}

fn string(value: &str) -> TokenKind {
    TokenKind::StringLiteral(chars(value))
}

fn error(kind: ErrorKind, found: Option<char>, column: u64) -> Result<Token, Error> {
    Err(Error::syntax(kind, found, Position::new(1, column)))
}

#[test]
fn decimal_integers() {
    for text in ["0", "7", "123", "9007199254740993"] {
        let t = first(text).unwrap();
        assert_eq!(t.kind(), &number(NumericKind::Integer(10), text));
        assert_eq!(
            t.span(),
            Span::new(Position::new(1, 1), Position::new(1, 1 + text.len() as u64))
        );
    }
    assert_eq!(
        kinds("1 2"),
        vec![number(NumericKind::Integer(10), "1"), number(NumericKind::Integer(10), "2")]
    );
    assert_eq!(
        kinds("1+2"),
        vec![
            number(NumericKind::Integer(10), "1"),
            TokenKind::Punctuator(Punctuator::Add),
            number(NumericKind::Integer(10), "2")
        ]
    );
}

#[test]
fn fractions_and_exponents() {
    for text in [
        "1.5", "1.", "0.5", "0.", "1e10", "1E10", "1e+5", "1E-5", "1.5e3", "1.e3", "0e0", ".5",
        ".5e-2", "12.25E+10",
    ] {
        assert_eq!(first(text).unwrap().kind(), &number(NumericKind::Rational, text), "{}", text);
    }
    assert_eq!(
        kinds("1.5e3.x"),
        vec![
            number(NumericKind::Rational, "1.5e3"),
            TokenKind::Punctuator(Punctuator::Dot),
            TokenKind::Identifier(chars("x"))
        ]
    );
    assert_eq!(
        kinds("1e5-2"),
        vec![
            number(NumericKind::Rational, "1e5"),
            TokenKind::Punctuator(Punctuator::Sub),
            number(NumericKind::Integer(10), "2")
        ]
    );
}

#[test]
fn other_radixes() {
    assert_eq!(first("0x1F").unwrap().kind(), &number(NumericKind::Integer(16), "0x1F"));
    assert_eq!(first("0XfF").unwrap().kind(), &number(NumericKind::Integer(16), "0XfF"));
    assert_eq!(first("0xabcdefABCDEF0123456789").unwrap().kind(), &number(
        NumericKind::Integer(16),
        "0xabcdefABCDEF0123456789"
    ));
    assert_eq!(first("0b101").unwrap().kind(), &number(NumericKind::Integer(2), "0b101"));
    assert_eq!(first("0B0").unwrap().kind(), &number(NumericKind::Integer(2), "0B0"));
    assert_eq!(first("0o17").unwrap().kind(), &number(NumericKind::Integer(8), "0o17"));
    assert_eq!(first("0O7").unwrap().kind(), &number(NumericKind::Integer(8), "0O7"));
    assert_eq!(
        kinds("0x1e+5"),
        vec![
            number(NumericKind::Integer(16), "0x1e"),
            TokenKind::Punctuator(Punctuator::Add),
            number(NumericKind::Integer(10), "5")
        ]
    );
    assert_eq!(
        kinds("0x10.a"),
        vec![
            number(NumericKind::Integer(16), "0x10"),
            TokenKind::Punctuator(Punctuator::Dot),
            TokenKind::Identifier(chars("a"))
        ]
    );
}

#[test]
fn big_integers() {
    assert_eq!(first("0n").unwrap().kind(), &number(NumericKind::BigInt(10), "0n"));
    assert_eq!(first("10n").unwrap().kind(), &number(NumericKind::BigInt(10), "10n"));
    assert_eq!(first("0x1Fn").unwrap().kind(), &number(NumericKind::BigInt(16), "0x1Fn"));
    assert_eq!(first("0b11n").unwrap().kind(), &number(NumericKind::BigInt(2), "0b11n"));
    assert_eq!(first("0o7n").unwrap().kind(), &number(NumericKind::BigInt(8), "0o7n"));
    assert_eq!(first("10n;").unwrap().span(), Span::new(Position::new(1, 1), Position::new(1, 4)));
    assert_eq!(first("1.5n"), error(ErrorKind::MalformedNumber, Some('n'), 4));
    assert_eq!(first("1e5n"), error(ErrorKind::MalformedNumber, Some('n'), 4));
    assert_eq!(first("10nn"), error(ErrorKind::MalformedNumber, Some('n'), 4));
}

#[test]
fn leading_zeros() {
    assert_eq!(first("017").unwrap().kind(), &number(NumericKind::Integer(8), "017"));
    assert_eq!(first("00").unwrap().kind(), &number(NumericKind::Integer(8), "00"));
    assert_eq!(first("089").unwrap().kind(), &number(NumericKind::Integer(10), "089"));
    assert_eq!(first("0778").unwrap().kind(), &number(NumericKind::Integer(10), "0778"));
    assert_eq!(first("08.5").unwrap().kind(), &number(NumericKind::Rational, "08.5"));
    assert_eq!(first("09e1").unwrap().kind(), &number(NumericKind::Rational, "09e1"));
    assert_eq!(
        kinds("017.5"),
        vec![number(NumericKind::Integer(8), "017"), number(NumericKind::Rational, ".5")]
    );
    assert_eq!(first("017n"), error(ErrorKind::MalformedNumber, Some('n'), 4));
    assert_eq!(first("09n"), error(ErrorKind::MalformedNumber, Some('n'), 3));
    assert_eq!(first_strict("017"), error(ErrorKind::LegacyOctal, Some('1'), 2));
    assert_eq!(first_strict("09"), error(ErrorKind::LegacyOctal, Some('9'), 2));
    assert_eq!(first_strict("0").unwrap().kind(), &number(NumericKind::Integer(10), "0"));
    assert_eq!(first_strict("0.5").unwrap().kind(), &number(NumericKind::Rational, "0.5"));
    assert_eq!(first_strict("0x17").unwrap().kind(), &number(NumericKind::Integer(16), "0x17"));
    assert_eq!(first_strict("10").unwrap().kind(), &number(NumericKind::Integer(10), "10"));
}

#[test]
fn malformed_numbers() {
    assert_eq!(first("1.2.3"), error(ErrorKind::MalformedNumber, Some('.'), 4));
    assert_eq!(first("1..2"), error(ErrorKind::MalformedNumber, Some('.'), 3));
    assert_eq!(first(".5.5"), error(ErrorKind::MalformedNumber, Some('.'), 3));
    assert_eq!(first("0b12"), error(ErrorKind::MalformedNumber, Some('2'), 4));
    assert_eq!(first("0b2"), error(ErrorKind::MalformedNumber, Some('2'), 3));
    assert_eq!(first("0o8"), error(ErrorKind::MalformedNumber, Some('8'), 3));
    assert_eq!(first("0o78"), error(ErrorKind::MalformedNumber, Some('8'), 4));
    assert_eq!(first("0xg"), error(ErrorKind::MalformedNumber, Some('g'), 3));
    assert_eq!(first("0x1g"), error(ErrorKind::MalformedNumber, Some('g'), 4));
    assert_eq!(first("0x"), error(ErrorKind::MalformedNumber, None, 3));
    assert_eq!(first("0b"), error(ErrorKind::MalformedNumber, None, 3));
    assert_eq!(first("0x "), error(ErrorKind::MalformedNumber, Some(' '), 3));
    assert_eq!(first("1e"), error(ErrorKind::MalformedNumber, None, 3));
    assert_eq!(first("1e+"), error(ErrorKind::MalformedNumber, None, 4));
    assert_eq!(first("1e-x"), error(ErrorKind::MalformedNumber, Some('x'), 4));
    assert_eq!(first("1ex"), error(ErrorKind::MalformedNumber, Some('x'), 3));
    assert_eq!(first("3abc"), error(ErrorKind::MalformedNumber, Some('a'), 2));
    assert_eq!(first("3_000"), error(ErrorKind::MalformedNumber, Some('_'), 2));
    assert_eq!(first("3$"), error(ErrorKind::MalformedNumber, Some('$'), 2));
    assert_eq!(first("1.5x"), error(ErrorKind::MalformedNumber, Some('x'), 4));
    assert_eq!(first("5.toString"), error(ErrorKind::MalformedNumber, Some('t'), 3));
    assert_eq!(first("7\u{e9}"), error(ErrorKind::MalformedNumber, Some('\u{e9}'), 2));
    assert_eq!(first("1").unwrap_err_description(), None);
    assert_eq!(first("1e").unwrap_err_description(), Some("malformed numeric literal"));
    assert_eq!(
        first_strict("01").unwrap_err_description(),
        Some("leading zeros are not allowed in strict mode")
    );
}

trait ErrDescription {
    fn unwrap_err_description(self) -> Option<&'static str>;
}

impl ErrDescription for Result<Token, Error> {
    fn unwrap_err_description(self) -> Option<&'static str> {
        self.err().map(|e| e.description())
    }
}

#[test]
fn the_cursor_stops_where_a_number_goes_wrong() {
    let mut lexer = Lexer::new(chars("0b12 x"));
    assert_eq!(lexer.next().unwrap(), error(ErrorKind::MalformedNumber, Some('2'), 4));
    assert_eq!(lexer.position(), Position::new(1, 4));
    assert_eq!(lexer.next().unwrap().unwrap().kind(), &number(NumericKind::Integer(10), "2"));
    assert_eq!(lexer.next().unwrap().unwrap().kind(), &TokenKind::Identifier(chars("x")));
    assert!(lexer.next().is_none());
}

#[test]
fn plain_strings() {
    assert_eq!(first("\"\"").unwrap().kind(), &string(""));
    assert_eq!(first("''").unwrap().kind(), &string(""));
    assert_eq!(first("'hello'").unwrap().kind(), &string("hello"));
    assert_eq!(first("\"it's\"").unwrap().kind(), &string("it's"));
    assert_eq!(first("'say \"hi\"'").unwrap().kind(), &string("say \"hi\""));
    assert_eq!(first("'a // b /* c */'").unwrap().kind(), &string("a // b /* c */"));
    assert_eq!(first("'a\u{2028}b'").unwrap().kind(), &string("a\u{2028}b"));
    assert_eq!(first("'\u{e9}\u{1F600}'").unwrap().kind(), &string("\u{e9}\u{1F600}"));
    assert_eq!(kinds("'a''b'"), vec![string("a"), string("b")]);
    assert_eq!(
        first("'abc' x").unwrap().span(),
        Span::new(Position::new(1, 1), Position::new(1, 6))
    );
}

#[test]
fn escape_sequences() {
    assert_eq!(first(r#""a\nb""#).unwrap().kind(), &string("a\nb"));
    assert_eq!(first(r#""\t\r\b\f\v\0""#).unwrap().kind(), &string("\t\r\u{8}\u{c}\u{b}\0"));
    assert_eq!(first(r#""\'\"\\""#).unwrap().kind(), &string("'\"\\"));
    assert_eq!(first(r#"'\''"#).unwrap().kind(), &string("'"));
    assert_eq!(first(r#""\q\a\ \/""#).unwrap().kind(), &string("qa /"));
    assert_eq!(first(r#""\x41\x7a\xE9\xff""#).unwrap().kind(), &string("Az\u{e9}\u{ff}"));
    assert_eq!(first(r#""\u0041\u00e9\uffff\uD7FF""#).unwrap().kind(), &string(
        "A\u{e9}\u{ffff}\u{d7ff}"
    ));
    assert_eq!(first(r#""\u{41}\u{1F600}\u{0}\u{10FFFF}\u{000041}""#).unwrap().kind(), &string(
        "A\u{1F600}\0\u{10FFFF}A"
    ));
    assert_eq!(first(r#""\0a""#).unwrap().kind(), &string("\0a"));
    assert_eq!(first(r#""\x412""#).unwrap().kind(), &string("A2"));
    assert_eq!(first(r#""\u00412""#).unwrap().kind(), &string("A2"));
    assert_eq!(
        first(r#""\x41" x"#).unwrap().span(),
        Span::new(Position::new(1, 1), Position::new(1, 7))
    );
}

#[test]
fn line_continuations() {
    assert_eq!(first("'a\\\nb'").unwrap().kind(), &string("ab"));
    assert_eq!(first("'a\\\rb'").unwrap().kind(), &string("ab"));
    assert_eq!(first("'a\\\r\nb'").unwrap().kind(), &string("ab"));
    assert_eq!(first("'a\\\u{2028}b'").unwrap().kind(), &string("ab"));
    assert_eq!(first("'a\\\u{2029}b'").unwrap().kind(), &string("ab"));
    assert_eq!(
        first("'a\\\r\nb'").unwrap().span(),
        Span::new(Position::new(1, 1), Position::new(3, 3))
    );
    assert_eq!(
        first("'a\\\n\nb'"),
        Err(Error::syntax(ErrorKind::UnterminatedString, Some('\n'), Position::new(2, 1)))
    );
}

#[test]
fn unterminated_strings() {
    assert_eq!(first("\"abc"), error(ErrorKind::UnterminatedString, None, 5));
    assert_eq!(first("'"), error(ErrorKind::UnterminatedString, None, 2));
    assert_eq!(first("'abc\""), error(ErrorKind::UnterminatedString, None, 6));
    assert_eq!(first("\"ab\ncd\""), error(ErrorKind::UnterminatedString, Some('\n'), 4));
    assert_eq!(first("\"ab\rcd\""), error(ErrorKind::UnterminatedString, Some('\r'), 4));
    assert_eq!(first("\"\\"), error(ErrorKind::UnterminatedString, None, 3));
    assert_eq!(first("'a\\'"), error(ErrorKind::UnterminatedString, None, 5));
    let mut lexer = Lexer::new(chars("'ab\ncd"));
    assert_eq!(lexer.next().unwrap(), error(ErrorKind::UnterminatedString, Some('\n'), 4));
    assert_eq!(lexer.next().unwrap().unwrap().kind(), &TokenKind::LineTerminator);
    assert_eq!(lexer.next().unwrap().unwrap().kind(), &TokenKind::Identifier(chars("cd")));
}

#[test]
fn invalid_escapes() {
    assert_eq!(first(r#""\x4g""#), error(ErrorKind::InvalidEscape, Some('g'), 5));
    assert_eq!(first(r#""\xg""#), error(ErrorKind::InvalidEscape, Some('g'), 4));
    assert_eq!(first(r#""\x""#), error(ErrorKind::InvalidEscape, Some('"'), 4));
    assert_eq!(first(r#""\x4"#), error(ErrorKind::InvalidEscape, None, 5));
    assert_eq!(first(r#""\u12""#), error(ErrorKind::InvalidEscape, Some('"'), 6));
    assert_eq!(first(r#""\u123x""#), error(ErrorKind::InvalidEscape, Some('x'), 7));
    assert_eq!(first(r#""\uD800""#), error(ErrorKind::InvalidEscape, Some('"'), 8));
    assert_eq!(first(r#""\uDFFF""#), error(ErrorKind::InvalidEscape, Some('"'), 8));
    assert_eq!(first(r#""\u{110000}""#), error(ErrorKind::InvalidEscape, Some('}'), 11));
    assert_eq!(first(r#""\u{D800}""#), error(ErrorKind::InvalidEscape, Some('}'), 9));
    assert_eq!(
        first(r#""\u{FFFFFFFFFFFFFFFFFFFFFFFF}""#),
        error(ErrorKind::InvalidEscape, Some('}'), 29)
    );
    assert_eq!(
        first(r#""\u{100000000}""#),
        error(ErrorKind::InvalidEscape, Some('}'), 14)
    );
    assert_eq!(first(r#""\u{}""#), error(ErrorKind::InvalidEscape, Some('}'), 5));
    assert_eq!(first(r#""\u{41""#), error(ErrorKind::InvalidEscape, Some('"'), 7));
    assert_eq!(first(r#""\u{4g}""#), error(ErrorKind::InvalidEscape, Some('g'), 6));
    assert_eq!(first(r#""\u{"#), error(ErrorKind::InvalidEscape, None, 5));
    assert_eq!(first(r#""\1""#), error(ErrorKind::InvalidEscape, Some('1'), 3));
    assert_eq!(first(r#""\9""#), error(ErrorKind::InvalidEscape, Some('9'), 3));
    assert_eq!(first(r#""\01""#), error(ErrorKind::InvalidEscape, Some('1'), 4));
    assert_eq!(first(r#""\00""#), error(ErrorKind::InvalidEscape, Some('0'), 4));
}

#[test]
fn every_kind_of_error_has_its_description() {
    let text = |kind: ErrorKind| Error::syntax(kind, None, Position::new(1, 1)).description();
    assert_eq!(text(ErrorKind::UnexpectedCharacter), "unexpected character");
    assert_eq!(text(ErrorKind::UnterminatedString), "unterminated string literal");
    assert_eq!(text(ErrorKind::InvalidEscape), "invalid escape sequence");
    assert_eq!(text(ErrorKind::UnterminatedTemplate), "unterminated template literal");
    assert_eq!(text(ErrorKind::UnterminatedComment), "unterminated block comment");
    assert_eq!(text(ErrorKind::UnterminatedRegex), "unterminated regular expression literal");
    assert_eq!(text(ErrorKind::MalformedNumber), "malformed numeric literal");
    assert_eq!(text(ErrorKind::LegacyOctal), "leading zeros are not allowed in strict mode");
}
