use js_lexer::{
    Error, ErrorKind, InputElement, Keyword, Lexer, NumericKind, Position, Punctuator, Span, Token,
    TokenKind,
};

fn chars(s: &str) -> Vec<char> {
    s.chars().collect()
}

fn lex_all(s: &str) -> Vec<Result<Token, Error>> {
    let mut lexer = Lexer::new(chars(s));
    let mut out = Vec::new();
    while let Some(r) = lexer.next() {
        let stop = r.is_err();
        out.push(r);
        if stop {
            break;
        }
    }
    out
}

fn kinds(s: &str) -> Vec<TokenKind> {
    lex_all(s).into_iter().map(|r| r.unwrap().kind().clone()).collect()
}

fn span(l1: u64, c1: u64, l2: u64, c2: u64) -> Span {
    Span::new(Position::new(l1, c1), Position::new(l2, c2))
}

fn ident(s: &str) -> TokenKind {
    TokenKind::Identifier(chars(s))
}

fn punct(p: Punctuator) -> TokenKind {
    TokenKind::Punctuator(p)
}

#[test]
fn whitespace_only_yields_no_token() {
    let all = "\u{0009}\u{000B}\u{000C}\u{0020}\u{00A0}\u{FEFF}\u{1680}\u{2000}\u{2005}\u{200A}\u{202F}\u{205F}\u{3000}";
    let mut lexer = Lexer::new(chars(all));
    assert!(lexer.next().is_none());
    assert!(lexer.next().is_none());
    assert_eq!(lexer.position(), Position::new(1, 14));
    assert!(lex_all("").is_empty());
    assert!(lex_all("   \t  ").is_empty());
}

#[test]
fn is_whitespace_follows_the_language_not_unicode() {
    for c in chars("\u{0009}\u{000B}\u{000C}\u{0020}\u{00A0}\u{FEFF}\u{1680}\u{2000}\u{200A}\u{202F}\u{205F}\u{3000}") {
        assert!(Lexer::is_whitespace(c), "{:?}", c);
    }
    for c in chars("\n\r\u{2028}\u{2029}\u{0085}\u{200B}\u{1FFF}a") {
        assert!(!Lexer::is_whitespace(c), "{:?}", c);
    }
}

#[test]
fn single_character_punctuators() {
    let table = [
        (';', Punctuator::Semicolon),
        (':', Punctuator::Colon),
        ('(', Punctuator::OpenParen),
        (')', Punctuator::CloseParen),
        (',', Punctuator::Comma),
        ('{', Punctuator::OpenBlock),
        ('}', Punctuator::CloseBlock),
        ('[', Punctuator::OpenBracket),
        (']', Punctuator::CloseBracket),
        ('?', Punctuator::Question),
    ];
    for (c, p) in table {
        let mut lexer = Lexer::new(vec![c]);
        let token = lexer.next().unwrap().unwrap();
        assert_eq!(token.kind(), &punct(p));
        assert_eq!(token.span(), span(1, 1, 1, 2));
        assert!(lexer.next().is_none());
    }
}

#[test]
fn string_literal_hello() {
    let tokens = lex_all("\"hello\"");
    assert_eq!(tokens.len(), 1);
    let token = tokens[0].clone().unwrap();
    assert_eq!(token.kind(), &TokenKind::StringLiteral(chars("hello")));
    assert_eq!(token.span(), span(1, 1, 1, 8));
}

#[test]
fn line_terminator_moves_to_the_next_line() {
    let tokens = lex_all("a\nb");
    assert_eq!(tokens.len(), 3);
    let a = tokens[0].clone().unwrap();
    let nl = tokens[1].clone().unwrap();
    let b = tokens[2].clone().unwrap();
    assert_eq!(a.kind(), &ident("a"));
    assert_eq!(a.span(), span(1, 1, 1, 2));
    assert_eq!(nl.kind(), &TokenKind::LineTerminator);
    assert_eq!(nl.span(), span(1, 2, 2, 1));
    assert_eq!(b.kind(), &ident("b"));
    assert_eq!(b.span(), span(2, 1, 2, 2));
}

#[test]
fn every_line_terminator_is_a_token() {
    let tokens = lex_all("\r\n\u{2028}\u{2029}");
    assert_eq!(tokens.len(), 4);
    for (i, t) in tokens.iter().enumerate() {
        let t = t.clone().unwrap();
        assert_eq!(t.kind(), &TokenKind::LineTerminator);
        assert_eq!(t.span(), span(i as u64 + 1, 1, i as u64 + 2, 1));
    }
}

#[test]
fn comments_are_skipped() {
    let tokens = lex_all("x /* c */ y");
    assert_eq!(tokens.len(), 2);
    let x = tokens[0].clone().unwrap();
    let y = tokens[1].clone().unwrap();
    assert_eq!(x.kind(), &ident("x"));
    assert_eq!(x.span(), span(1, 1, 1, 2));
    assert_eq!(y.kind(), &ident("y"));
    assert_eq!(y.span(), span(1, 11, 1, 12));
}

#[test]
fn line_comment_ends_before_the_line_terminator() {
    let tokens = lex_all("a // c\nb");
    assert_eq!(tokens.len(), 3);
    assert_eq!(tokens[1].clone().unwrap().kind(), &TokenKind::LineTerminator);
    assert_eq!(tokens[1].clone().unwrap().span(), span(1, 7, 2, 1));
    assert_eq!(tokens[2].clone().unwrap().span(), span(2, 1, 2, 2));
    assert!(lex_all("// only a comment").is_empty());
    assert!(lex_all("/**/").is_empty());
    assert!(lex_all("/* a\n b */").is_empty());
    assert_eq!(kinds("/* a **/ x"), vec![ident("x")]);
    assert_eq!(kinds("/* * / */x"), vec![ident("x")]);
    assert_eq!(kinds("/*/ x */y"), vec![ident("y")]);
}

#[test]
fn block_comment_with_line_breaks_counts_lines() {
    let tokens = lex_all("/* a\n b */ c");
    assert_eq!(tokens.len(), 1);
    assert_eq!(tokens[0].clone().unwrap().span(), span(2, 7, 2, 8));
}

#[test]
fn unterminated_block_comment() {
    let tokens = lex_all("a /* b");
    assert_eq!(tokens.len(), 2);
    assert_eq!(
        tokens[1],
        Err(Error::syntax(ErrorKind::UnterminatedComment, None, Position::new(1, 7)))
    );
    let mut lexer = Lexer::new(chars("/*/"));
    assert_eq!(
        lexer.next(),
        Some(Err(Error::syntax(ErrorKind::UnterminatedComment, None, Position::new(1, 4))))
    );
    assert!(lexer.next().is_none());
}

#[test]
fn unrecognized_character() {
    let mut lexer = Lexer::new(chars("@"));
    let e = lexer.next().unwrap().unwrap_err();
    assert_eq!(e.kind(), ErrorKind::UnexpectedCharacter);
    assert_eq!(e.found(), Some('@'));
    assert_eq!(e.position(), Position::new(1, 1));
    assert_eq!(e.position().line_number(), 1);
    assert_eq!(e.position().column_number(), 1);
    assert_eq!(e.description(), "unexpected character");
    assert!(lexer.next().is_none());
}

#[test]
fn lexing_goes_on_behind_an_unrecognized_character() {
    let mut lexer = Lexer::new(chars("a\n #b"));
    assert_eq!(lexer.next().unwrap().unwrap().kind(), &ident("a"));
    assert_eq!(lexer.next().unwrap().unwrap().kind(), &TokenKind::LineTerminator);
    assert_eq!(
        lexer.next(),
        Some(Err(Error::syntax(ErrorKind::UnexpectedCharacter, Some('#'), Position::new(2, 2))))
    );
    let b = lexer.next().unwrap().unwrap();
    assert_eq!(b.kind(), &ident("b"));
    assert_eq!(b.span(), span(2, 3, 2, 4));
    assert!(lexer.next().is_none());
}

#[test]
fn characters_that_begin_no_lexeme() {
    for c in ['@', '#', '\\', '\u{0085}', '\u{0663}', '\u{0}', '\u{200B}'] {
        let mut lexer = Lexer::new(vec![c]);
        assert_eq!(
            lexer.next(),
            Some(Err(Error::syntax(ErrorKind::UnexpectedCharacter, Some(c), Position::new(1, 1)))),
            "{:?}",
            c
        );
    }
}

#[test]
fn maximal_munch_strict_equality() {
    let tokens = lex_all("===");
    assert_eq!(tokens.len(), 1);
    let t = tokens[0].clone().unwrap();
    assert_eq!(t.kind(), &punct(Punctuator::StrictEq));
    assert_eq!(t.span(), span(1, 1, 1, 4));
}

#[test]
fn every_operator_is_one_token() {
    let table = [
        ("+", Punctuator::Add),
        ("&", Punctuator::And),
        ("=>", Punctuator::Arrow),
        ("=", Punctuator::Assign),
        ("+=", Punctuator::AssignAdd),
        ("&=", Punctuator::AssignAnd),
        ("/=", Punctuator::AssignDiv),
        ("<<=", Punctuator::AssignLeftSh),
        ("%=", Punctuator::AssignMod),
        ("*=", Punctuator::AssignMul),
        ("|=", Punctuator::AssignOr),
        ("**=", Punctuator::AssignPow),
        (">>=", Punctuator::AssignRightSh),
        ("-=", Punctuator::AssignSub),
        (">>>=", Punctuator::AssignURightSh),
        ("^=", Punctuator::AssignXor),
        ("&&", Punctuator::BoolAnd),
        ("||", Punctuator::BoolOr),
        ("--", Punctuator::Dec),
        ("/", Punctuator::Div),
        (".", Punctuator::Dot),
        ("==", Punctuator::Eq),
        ("**", Punctuator::Exp),
        (">", Punctuator::GreaterThan),
        (">=", Punctuator::GreaterThanOrEq),
        ("++", Punctuator::Inc),
        ("<<", Punctuator::LeftSh),
        ("<", Punctuator::LessThan),
        ("<=", Punctuator::LessThanOrEq),
        ("%", Punctuator::Mod),
        ("*", Punctuator::Mul),
        ("~", Punctuator::Neg),
        ("!", Punctuator::Not),
        ("!=", Punctuator::NotEq),
        ("|", Punctuator::Or),
        (">>", Punctuator::RightSh),
        ("...", Punctuator::Spread),
        ("===", Punctuator::StrictEq),
        ("!==", Punctuator::StrictNotEq),
        ("-", Punctuator::Sub),
        (">>>", Punctuator::URightSh),
        ("^", Punctuator::Xor),
    ];
    for (text, p) in table {
        let tokens = lex_all(text);
        assert_eq!(tokens.len(), 1, "{}", text);
        let t = tokens[0].clone().unwrap();
        assert_eq!(t.kind(), &punct(p), "{}", text);
        assert_eq!(t.span(), span(1, 1, 1, 1 + text.chars().count() as u64), "{}", text);
        assert_eq!(p.as_str(), text);
    }
}

#[test]
fn operators_are_as_long_as_they_can_be() {
    assert_eq!(
        kinds("a+++b"),
        vec![ident("a"), punct(Punctuator::Inc), punct(Punctuator::Add), ident("b")]
    );
    assert_eq!(kinds("===="), vec![punct(Punctuator::StrictEq), punct(Punctuator::Assign)]);
    assert_eq!(kinds(">>>>="), vec![punct(Punctuator::URightSh), punct(Punctuator::GreaterThanOrEq)]);
    assert_eq!(kinds("=>="), vec![punct(Punctuator::Arrow), punct(Punctuator::Assign)]);
    assert_eq!(kinds("!==="), vec![punct(Punctuator::StrictNotEq), punct(Punctuator::Assign)]);
    assert_eq!(kinds("***"), vec![punct(Punctuator::Exp), punct(Punctuator::Mul)]);
    assert_eq!(kinds("&&&"), vec![punct(Punctuator::BoolAnd), punct(Punctuator::And)]);
    assert_eq!(kinds("~~"), vec![punct(Punctuator::Neg), punct(Punctuator::Neg)]);
    assert_eq!(kinds("= ="), vec![punct(Punctuator::Assign), punct(Punctuator::Assign)]);
    assert_eq!(kinds("??"), vec![punct(Punctuator::Question), punct(Punctuator::Question)]);
}

#[test]
fn dots() {
    assert_eq!(kinds("."), vec![punct(Punctuator::Dot)]);
    assert_eq!(kinds(".."), vec![punct(Punctuator::Dot), punct(Punctuator::Dot)]);
    assert_eq!(kinds("..."), vec![punct(Punctuator::Spread)]);
    assert_eq!(kinds("...."), vec![punct(Punctuator::Spread), punct(Punctuator::Dot)]);
    assert_eq!(kinds(".a"), vec![punct(Punctuator::Dot), ident("a")]);
    assert_eq!(kinds("a...b"), vec![ident("a"), punct(Punctuator::Spread), ident("b")]);
    assert_eq!(
        kinds(".5"),
        vec![TokenKind::NumericLiteral { kind: NumericKind::Rational, text: chars(".5") }]
    );
    assert_eq!(
        kinds(". 5"),
        vec![
            punct(Punctuator::Dot),
            TokenKind::NumericLiteral { kind: NumericKind::Integer(10), text: chars("5") }
        ]
    );
    assert_eq!(lex_all("...")[0].clone().unwrap().span(), span(1, 1, 1, 4));
}

#[test]
fn words() {
    assert_eq!(kinds("true"), vec![TokenKind::BooleanLiteral(true)]);
    assert_eq!(kinds("false"), vec![TokenKind::BooleanLiteral(false)]);
    assert_eq!(kinds("null"), vec![TokenKind::NullLiteral]);
    assert_eq!(kinds("iff"), vec![ident("iff")]);
    assert_eq!(kinds("True"), vec![ident("True")]);
    assert_eq!(kinds("$a_1"), vec![ident("$a_1")]);
    assert_eq!(kinds("_"), vec![ident("_")]);
    assert_eq!(kinds("a1 b2"), vec![ident("a1"), ident("b2")]);
    assert_eq!(kinds("nullish"), vec![ident("nullish")]);
    assert_eq!(lex_all("hello")[0].clone().unwrap().span(), span(1, 1, 1, 6));
}

#[test]
fn every_keyword() {
    let table = [
        Keyword::Await,
        Keyword::Break,
        Keyword::Case,
        Keyword::Catch,
        Keyword::Class,
        Keyword::Const,
        Keyword::Continue,
        Keyword::Debugger,
        Keyword::Default,
        Keyword::Delete,
        Keyword::Do,
        Keyword::Else,
        Keyword::Enum,
        Keyword::Export,
        Keyword::Extends,
        Keyword::Finally,
        Keyword::For,
        Keyword::Function,
        Keyword::If,
        Keyword::Import,
        Keyword::In,
        Keyword::InstanceOf,
        Keyword::Let,
        Keyword::New,
        Keyword::Return,
        Keyword::Super,
        Keyword::Switch,
        Keyword::This,
        Keyword::Throw,
        Keyword::Try,
        Keyword::TypeOf,
        Keyword::Var,
        Keyword::Void,
        Keyword::While,
        Keyword::With,
        Keyword::Yield,
    ];
    for k in table {
        assert_eq!(kinds(k.as_str()), vec![TokenKind::Keyword(k)]);
        assert_eq!(Keyword::from_chars(&chars(k.as_str())), Some(k));
        let longer = format!("{}x", k.as_str());
        assert_eq!(kinds(&longer), vec![ident(&longer)]);
    }
    assert_eq!(Keyword::from_chars(&chars("instanceof")), Some(Keyword::InstanceOf));
    assert_eq!(Keyword::from_chars(&chars("instanceOf")), None);
    assert_eq!(Keyword::from_chars(&chars("")), None);
}

#[test]
fn words_beyond_ascii() {
    assert_eq!(kinds("\u{e9}t\u{e9}"), vec![ident("\u{e9}t\u{e9}")]);
    assert_eq!(kinds("\u{3c0}"), vec![ident("\u{3c0}")]);
    assert_eq!(kinds("a\u{0663}"), vec![ident("a\u{0663}")]);
    assert_eq!(kinds("a\u{200d}b"), vec![ident("a\u{200d}b")]);
    assert_eq!(kinds("a\u{200c}b"), vec![ident("a\u{200c}b")]);
    let tokens = lex_all("a\u{d7}b");
    assert_eq!(tokens.len(), 2);
    assert_eq!(
        tokens[1],
        Err(Error::syntax(ErrorKind::UnexpectedCharacter, Some('\u{d7}'), Position::new(1, 2)))
    );
}

#[test]
fn goal_symbol_decides_what_a_slash_begins() {
    assert_eq!(InputElement::default(), InputElement::Div);
    let mut lexer = Lexer::new(chars("/ab+c/gi"));
    assert_eq!(lexer.get_goal(), InputElement::Div);
    lexer.set_goal(InputElement::RegExp);
    assert_eq!(lexer.get_goal(), InputElement::RegExp);
    let t = lexer.next().unwrap().unwrap();
    assert_eq!(
        t.kind(),
        &TokenKind::RegularExpressionLiteral { body: chars("ab+c"), flags: chars("gi") }
    );
    assert_eq!(t.span(), span(1, 1, 1, 9));
    assert!(lexer.next().is_none());

    assert_eq!(
        kinds("/ab+c/gi"),
        vec![
            punct(Punctuator::Div),
            ident("ab"),
            punct(Punctuator::Add),
            ident("c"),
            punct(Punctuator::Div),
            ident("gi")
        ]
    );

    let mut lexer = Lexer::new(chars("a / b /x/"));
    assert_eq!(lexer.next().unwrap().unwrap().kind(), &ident("a"));
    assert_eq!(lexer.next().unwrap().unwrap().kind(), &punct(Punctuator::Div));
    assert_eq!(lexer.next().unwrap().unwrap().kind(), &ident("b"));
    lexer.set_goal(InputElement::RegExpOrTemplateTail);
    assert_eq!(
        lexer.next().unwrap().unwrap().kind(),
        &TokenKind::RegularExpressionLiteral { body: chars("x"), flags: chars("") }
    );
}

#[test]
fn a_comment_is_a_comment_under_every_goal_symbol() {
    for goal in [
        InputElement::Div,
        InputElement::RegExp,
        InputElement::RegExpOrTemplateTail,
        InputElement::TemplateTail,
    ] {
        let mut lexer = Lexer::new(chars("// c\n/* d */x"));
        lexer.set_goal(goal);
        assert_eq!(lexer.next().unwrap().unwrap().kind(), &TokenKind::LineTerminator);
        assert_eq!(lexer.next().unwrap().unwrap().kind(), &ident("x"));
        assert!(lexer.next().is_none());
    }
}

#[test]
fn regular_expression_literals() {
    let regex = |s: &str| {
        let mut lexer = Lexer::new(chars(s));
        lexer.set_goal(InputElement::RegExp);
        lexer.next().unwrap()
    };
    assert_eq!(
        regex("/a\\/b/").unwrap().kind(),
        &TokenKind::RegularExpressionLiteral { body: chars("a\\/b"), flags: chars("") }
    );
    assert_eq!(
        regex("/=/ x").unwrap().kind(),
        &TokenKind::RegularExpressionLiteral { body: chars("="), flags: chars("") }
    );
    assert_eq!(
        regex("/[a-z]+\\d/u1 x").unwrap().kind(),
        &TokenKind::RegularExpressionLiteral { body: chars("[a-z]+\\d"), flags: chars("u1") }
    );
    assert_eq!(
        regex("/abc"),
        Err(Error::syntax(ErrorKind::UnterminatedRegex, None, Position::new(1, 5)))
    );
    assert_eq!(
        regex("/a\nb/"),
        Err(Error::syntax(ErrorKind::UnterminatedRegex, Some('\n'), Position::new(1, 3)))
    );
    assert_eq!(
        regex("/a\\\nb/"),
        Err(Error::syntax(ErrorKind::UnterminatedRegex, Some('\n'), Position::new(1, 4)))
    );
    assert_eq!(
        regex("/a\\"),
        Err(Error::syntax(ErrorKind::UnterminatedRegex, None, Position::new(1, 4)))
    );
}

#[test]
fn goal_symbol_decides_what_a_closing_brace_begins() {
    let tokens = lex_all("} tail`");
    assert_eq!(tokens.len(), 3);
    assert_eq!(tokens[0].clone().unwrap().kind(), &punct(Punctuator::CloseBlock));
    assert_eq!(tokens[1].clone().unwrap().kind(), &ident("tail"));
    assert_eq!(
        tokens[2],
        Err(Error::syntax(ErrorKind::UnterminatedTemplate, None, Position::new(1, 8)))
    );
    for goal in [InputElement::TemplateTail, InputElement::RegExpOrTemplateTail] {
        let mut lexer = Lexer::new(chars("} tail` x"));
        lexer.set_goal(goal);
        let t = lexer.next().unwrap().unwrap();
        assert_eq!(t.kind(), &TokenKind::TemplateLiteral(chars(" tail")));
        assert_eq!(t.span(), span(1, 1, 1, 8));
        assert_eq!(lexer.next().unwrap().unwrap().kind(), &ident("x"));
    }
    let mut lexer = Lexer::new(chars("}"));
    lexer.set_goal(InputElement::RegExp);
    assert_eq!(lexer.next().unwrap().unwrap().kind(), &punct(Punctuator::CloseBlock));
}

#[test]
fn template_literals() {
    assert_eq!(kinds("`abc`"), vec![TokenKind::TemplateLiteral(chars("abc"))]);
    assert_eq!(kinds("``"), vec![TokenKind::TemplateLiteral(chars(""))]);
    assert_eq!(kinds("`a${b}c`"), vec![TokenKind::TemplateLiteral(chars("a${b}c"))]);
    assert_eq!(
        kinds("`a${ {x: 1} }b` c"),
        vec![TokenKind::TemplateLiteral(chars("a${ {x: 1} }b")), ident("c")]
    );
    assert_eq!(kinds("`a${`b`}c`"), vec![TokenKind::TemplateLiteral(chars("a${`b`}c"))]);
    assert_eq!(kinds("`a\\`b`"), vec![TokenKind::TemplateLiteral(chars("a\\`b"))]);
    assert_eq!(kinds("`a$b`"), vec![TokenKind::TemplateLiteral(chars("a$b"))]);
    assert_eq!(kinds("`a}b`"), vec![TokenKind::TemplateLiteral(chars("a}b"))]);
    assert_eq!(kinds("`a\nb\nc`"), vec![TokenKind::TemplateLiteral(chars("a\nb\nc"))]);
    let t = lex_all("`a\nb` c");
    assert_eq!(t[0].clone().unwrap().span(), span(1, 1, 2, 3));
    assert_eq!(t[1].clone().unwrap().span(), span(2, 4, 2, 5));
}

#[test]
fn unterminated_template_literals() {
    for (text, column) in [("`abc", 5), ("`${`", 5), ("`a\\", 4), ("`${a}", 6), ("`\\`", 4)] {
        assert_eq!(
            lex_all(text),
            vec![Err(Error::syntax(ErrorKind::UnterminatedTemplate, None, Position::new(1, column)))],
            "{}",
            text
        );
    }
}

#[test]
fn strict_mode_is_a_property_of_the_lexer() {
    let mut lexer = Lexer::new(chars("017 017"));
    assert!(!lexer.strict_mode());
    assert_eq!(
        lexer.next().unwrap().unwrap().kind(),
        &TokenKind::NumericLiteral { kind: NumericKind::Integer(8), text: chars("017") }
    );
    lexer.set_strict_mode(true);
    assert!(lexer.strict_mode());
    assert_eq!(
        lexer.next(),
        Some(Err(Error::syntax(ErrorKind::LegacyOctal, Some('1'), Position::new(1, 6))))
    );
}

#[test]
fn spans_cut_out_the_significant_text() {
    let source = "let x = 10; // c\nfoo(\"s\") /* b */ + `t${1}`\u{2028}/re/ >>>= .5";
    let text = chars(source);
    let mut positions = vec![Position::new(1, 1)];
    for c in &text {
        let last = *positions.last().unwrap();
        if matches!(*c, '\n' | '\r' | '\u{2028}' | '\u{2029}') {
            positions.push(Position::new(last.line_number() + 1, 1));
        } else {
            positions.push(Position::new(last.line_number(), last.column_number() + 1));
        }
    }
    let offset = |p: Position| positions.iter().position(|q| *q == p).unwrap();
    let mut lexer = Lexer::new(text.clone());
    let mut cut = String::new();
    let mut last_end = Position::new(1, 1);
    let mut count = 0;
    while let Some(r) = lexer.next() {
        let t = r.unwrap();
        assert!(t.span().start().precedes(t.span().end()));
        assert!(last_end == t.span().start() || last_end.precedes(t.span().start()));
        last_end = t.span().end();
        assert_ne!(t.kind(), &TokenKind::Comment);
        cut.extend(&text[offset(t.span().start())..offset(t.span().end())]);
        count += 1;
    }
    assert_eq!(count, 18);
    assert_eq!(cut, "letx=10;\nfoo(\"s\")+`t${1}`\u{2028}/re/>>>=.5");
    assert_eq!(lexer.position(), *positions.last().unwrap());
}
