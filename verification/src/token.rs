//! Tokens: what the lexer hands out.

use crate::position::Span;
use vstd::prelude::*;
use vstd::string::*;

verus! {

/// The reserved words.
#[derive(Clone, Copy, Debug, PartialEq, Eq, Hash)]
pub enum Keyword {
    Await,
    Break,
    Case,
    Catch,
    Class,
    Const,
    Continue,
    Debugger,
    Default,
    Delete,
    Do,
    Else,
    Enum,
    Export,
    Extends,
    Finally,
    For,
    Function,
    If,
    Import,
    In,
    InstanceOf,
    Let,
    New,
    Return,
    Super,
    Switch,
    This,
    Throw,
    Try,
    TypeOf,
    Var,
    Void,
    While,
    With,
    Yield,
}

impl Keyword {
    /// How the keyword is written.
    pub open spec fn text(self) -> Seq<char> {
        match self {
            Keyword::Await => "await"@,
            Keyword::Break => "break"@,
            Keyword::Case => "case"@,
            Keyword::Catch => "catch"@,
            Keyword::Class => "class"@,
            Keyword::Const => "const"@,
            Keyword::Continue => "continue"@,
            Keyword::Debugger => "debugger"@,
            Keyword::Default => "default"@,
            Keyword::Delete => "delete"@,
            Keyword::Do => "do"@,
            Keyword::Else => "else"@,
            Keyword::Enum => "enum"@,
            Keyword::Export => "export"@,
            Keyword::Extends => "extends"@,
            Keyword::Finally => "finally"@,
            Keyword::For => "for"@,
            Keyword::Function => "function"@,
            Keyword::If => "if"@,
            Keyword::Import => "import"@,
            Keyword::In => "in"@,
            Keyword::InstanceOf => "instanceof"@,
            Keyword::Let => "let"@,
            Keyword::New => "new"@,
            Keyword::Return => "return"@,
            Keyword::Super => "super"@,
            Keyword::Switch => "switch"@,
            Keyword::This => "this"@,
            Keyword::Throw => "throw"@,
            Keyword::Try => "try"@,
            Keyword::TypeOf => "typeof"@,
            Keyword::Var => "var"@,
            Keyword::Void => "void"@,
            Keyword::While => "while"@,
            Keyword::With => "with"@,
            Keyword::Yield => "yield"@,
        }
    }

    /// How the keyword is written.
    pub fn as_str(&self) -> (s: &'static str)
        ensures
            s@ == self.text(),
    {
        match self {
            Keyword::Await => "await",
            Keyword::Break => "break",
            Keyword::Case => "case",
            Keyword::Catch => "catch",
            Keyword::Class => "class",
            Keyword::Const => "const",
            Keyword::Continue => "continue",
            Keyword::Debugger => "debugger",
            Keyword::Default => "default",
            Keyword::Delete => "delete",
            Keyword::Do => "do",
            Keyword::Else => "else",
            Keyword::Enum => "enum",
            Keyword::Export => "export",
            Keyword::Extends => "extends",
            Keyword::Finally => "finally",
            Keyword::For => "for",
            Keyword::Function => "function",
            Keyword::If => "if",
            Keyword::Import => "import",
            Keyword::In => "in",
            Keyword::InstanceOf => "instanceof",
            Keyword::Let => "let",
            Keyword::New => "new",
            Keyword::Return => "return",
            Keyword::Super => "super",
            Keyword::Switch => "switch",
            Keyword::This => "this",
            Keyword::Throw => "throw",
            Keyword::Try => "try",
            Keyword::TypeOf => "typeof",
            Keyword::Var => "var",
            Keyword::Void => "void",
            Keyword::While => "while",
            Keyword::With => "with",
            Keyword::Yield => "yield",
        }
    }

    /// Looks `word` up among the reserved words.
    pub fn from_chars(word: &Vec<char>) -> (k: Option<Keyword>)
        ensures
            k == keyword_of(word@),
    {
        if spells(word, "await") {
            Some(Keyword::Await)
        } else if spells(word, "break") {
            Some(Keyword::Break)
        } else if spells(word, "case") {
            Some(Keyword::Case)
        } else if spells(word, "catch") {
            Some(Keyword::Catch)
        } else if spells(word, "class") {
            Some(Keyword::Class)
        } else if spells(word, "const") {
            Some(Keyword::Const)
        } else if spells(word, "continue") {
            Some(Keyword::Continue)
        } else if spells(word, "debugger") {
            Some(Keyword::Debugger)
        } else if spells(word, "default") {
            Some(Keyword::Default)
        } else if spells(word, "delete") {
            Some(Keyword::Delete)
        } else if spells(word, "do") {
            Some(Keyword::Do)
        } else if spells(word, "else") {
            Some(Keyword::Else)
        } else if spells(word, "enum") {
            Some(Keyword::Enum)
        } else if spells(word, "export") {
            Some(Keyword::Export)
        } else if spells(word, "extends") {
            Some(Keyword::Extends)
        } else if spells(word, "finally") {
            Some(Keyword::Finally)
        } else if spells(word, "for") {
            Some(Keyword::For)
        } else if spells(word, "function") {
            Some(Keyword::Function)
        } else if spells(word, "if") {
            Some(Keyword::If)
        } else if spells(word, "import") {
            Some(Keyword::Import)
        } else if spells(word, "in") {
            Some(Keyword::In)
        } else if spells(word, "instanceof") {
            Some(Keyword::InstanceOf)
        } else if spells(word, "let") {
            Some(Keyword::Let)
        } else if spells(word, "new") {
            Some(Keyword::New)
        } else if spells(word, "return") {
            Some(Keyword::Return)
        } else if spells(word, "super") {
            Some(Keyword::Super)
        } else if spells(word, "switch") {
            Some(Keyword::Switch)
        } else if spells(word, "this") {
            Some(Keyword::This)
        } else if spells(word, "throw") {
            Some(Keyword::Throw)
        } else if spells(word, "try") {
            Some(Keyword::Try)
        } else if spells(word, "typeof") {
            Some(Keyword::TypeOf)
        } else if spells(word, "var") {
            Some(Keyword::Var)
        } else if spells(word, "void") {
            Some(Keyword::Void)
        } else if spells(word, "while") {
            Some(Keyword::While)
        } else if spells(word, "with") {
            Some(Keyword::With)
        } else if spells(word, "yield") {
            Some(Keyword::Yield)
        } else {
            None
        }
    }
}

/// The keyword that is written `s`, if there is one.
pub open spec fn keyword_of(s: Seq<char>) -> Option<Keyword> {
    if s =~= "await"@ {
        Some(Keyword::Await)
    } else if s =~= "break"@ {
        Some(Keyword::Break)
    } else if s =~= "case"@ {
        Some(Keyword::Case)
    } else if s =~= "catch"@ {
        Some(Keyword::Catch)
    } else if s =~= "class"@ {
        Some(Keyword::Class)
    } else if s =~= "const"@ {
        Some(Keyword::Const)
    } else if s =~= "continue"@ {
        Some(Keyword::Continue)
    } else if s =~= "debugger"@ {
        Some(Keyword::Debugger)
    } else if s =~= "default"@ {
        Some(Keyword::Default)
    } else if s =~= "delete"@ {
        Some(Keyword::Delete)
    } else if s =~= "do"@ {
        Some(Keyword::Do)
    } else if s =~= "else"@ {
        Some(Keyword::Else)
    } else if s =~= "enum"@ {
        Some(Keyword::Enum)
    } else if s =~= "export"@ {
        Some(Keyword::Export)
    } else if s =~= "extends"@ {
        Some(Keyword::Extends)
    } else if s =~= "finally"@ {
        Some(Keyword::Finally)
    } else if s =~= "for"@ {
        Some(Keyword::For)
    } else if s =~= "function"@ {
        Some(Keyword::Function)
    } else if s =~= "if"@ {
        Some(Keyword::If)
    } else if s =~= "import"@ {
        Some(Keyword::Import)
    } else if s =~= "in"@ {
        Some(Keyword::In)
    } else if s =~= "instanceof"@ {
        Some(Keyword::InstanceOf)
    } else if s =~= "let"@ {
        Some(Keyword::Let)
    } else if s =~= "new"@ {
        Some(Keyword::New)
    } else if s =~= "return"@ {
        Some(Keyword::Return)
    } else if s =~= "super"@ {
        Some(Keyword::Super)
    } else if s =~= "switch"@ {
        Some(Keyword::Switch)
    } else if s =~= "this"@ {
        Some(Keyword::This)
    } else if s =~= "throw"@ {
        Some(Keyword::Throw)
    } else if s =~= "try"@ {
        Some(Keyword::Try)
    } else if s =~= "typeof"@ {
        Some(Keyword::TypeOf)
    } else if s =~= "var"@ {
        Some(Keyword::Var)
    } else if s =~= "void"@ {
        Some(Keyword::Void)
    } else if s =~= "while"@ {
        Some(Keyword::While)
    } else if s =~= "with"@ {
        Some(Keyword::With)
    } else if s =~= "yield"@ {
        Some(Keyword::Yield)
    } else {
        None
    }
}

/// What the characters of the reserved words are.
proof fn lemma_keyword_texts()
    ensures
        "await"@ =~= seq!['a', 'w', 'a', 'i', 't'],
        "break"@ =~= seq!['b', 'r', 'e', 'a', 'k'],
        "case"@ =~= seq!['c', 'a', 's', 'e'],
        "catch"@ =~= seq!['c', 'a', 't', 'c', 'h'],
        "class"@ =~= seq!['c', 'l', 'a', 's', 's'],
        "const"@ =~= seq!['c', 'o', 'n', 's', 't'],
        "continue"@ =~= seq!['c', 'o', 'n', 't', 'i', 'n', 'u', 'e'],
        "debugger"@ =~= seq!['d', 'e', 'b', 'u', 'g', 'g', 'e', 'r'],
        "default"@ =~= seq!['d', 'e', 'f', 'a', 'u', 'l', 't'],
        "delete"@ =~= seq!['d', 'e', 'l', 'e', 't', 'e'],
        "do"@ =~= seq!['d', 'o'],
        "else"@ =~= seq!['e', 'l', 's', 'e'],
        "enum"@ =~= seq!['e', 'n', 'u', 'm'],
        "export"@ =~= seq!['e', 'x', 'p', 'o', 'r', 't'],
        "extends"@ =~= seq!['e', 'x', 't', 'e', 'n', 'd', 's'],
        "finally"@ =~= seq!['f', 'i', 'n', 'a', 'l', 'l', 'y'],
        "for"@ =~= seq!['f', 'o', 'r'],
        "function"@ =~= seq!['f', 'u', 'n', 'c', 't', 'i', 'o', 'n'],
        "if"@ =~= seq!['i', 'f'],
        "import"@ =~= seq!['i', 'm', 'p', 'o', 'r', 't'],
        "in"@ =~= seq!['i', 'n'],
        "instanceof"@ =~= seq!['i', 'n', 's', 't', 'a', 'n', 'c', 'e', 'o', 'f'],
        "let"@ =~= seq!['l', 'e', 't'],
        "new"@ =~= seq!['n', 'e', 'w'],
        "return"@ =~= seq!['r', 'e', 't', 'u', 'r', 'n'],
        "super"@ =~= seq!['s', 'u', 'p', 'e', 'r'],
        "switch"@ =~= seq!['s', 'w', 'i', 't', 'c', 'h'],
        "this"@ =~= seq!['t', 'h', 'i', 's'],
        "throw"@ =~= seq!['t', 'h', 'r', 'o', 'w'],
        "try"@ =~= seq!['t', 'r', 'y'],
        "typeof"@ =~= seq!['t', 'y', 'p', 'e', 'o', 'f'],
        "var"@ =~= seq!['v', 'a', 'r'],
        "void"@ =~= seq!['v', 'o', 'i', 'd'],
        "while"@ =~= seq!['w', 'h', 'i', 'l', 'e'],
        "with"@ =~= seq!['w', 'i', 't', 'h'],
        "yield"@ =~= seq!['y', 'i', 'e', 'l', 'd'],
{
    reveal_strlit("await");
    reveal_strlit("break");
    reveal_strlit("case");
    reveal_strlit("catch");
    reveal_strlit("class");
    reveal_strlit("const");
    reveal_strlit("continue");
    reveal_strlit("debugger");
    reveal_strlit("default");
    reveal_strlit("delete");
    reveal_strlit("do");
    reveal_strlit("else");
    reveal_strlit("enum");
    reveal_strlit("export");
    reveal_strlit("extends");
    reveal_strlit("finally");
    reveal_strlit("for");
    reveal_strlit("function");
    reveal_strlit("if");
    reveal_strlit("import");
    reveal_strlit("in");
    reveal_strlit("instanceof");
    reveal_strlit("let");
    reveal_strlit("new");
    reveal_strlit("return");
    reveal_strlit("super");
    reveal_strlit("switch");
    reveal_strlit("this");
    reveal_strlit("throw");
    reveal_strlit("try");
    reveal_strlit("typeof");
    reveal_strlit("var");
    reveal_strlit("void");
    reveal_strlit("while");
    reveal_strlit("with");
    reveal_strlit("yield");
}

/// Every reserved word is found under the way it is written, and nothing
/// else is found under it.
pub proof fn lemma_keyword_of_text(k: Keyword)
    ensures
        keyword_of(k.text()) == Some(k),
{
    lemma_keyword_texts();
}

/// What is found among the reserved words is written as it was looked up.
pub proof fn lemma_keyword_of(s: Seq<char>)
    ensures
        keyword_of(s) matches Some(k) ==> s == k.text(),
{
}

/// Whether the characters of `word` are those of `text`.
pub(crate) fn spells(word: &Vec<char>, text: &str) -> (r: bool)
    ensures
        r == (word@ =~= text@),
{
    let n = text.unicode_len();
    if word.len() != n {
        return false;
    }
    let mut i: usize = 0;
    while i < n
        invariant
            i <= n,
            n == word@.len(),
            n == text@.len(),
            forall|k: int| 0 <= k < i ==> word@[k] == text@[k],
        decreases n - i,
    {
        if word[i] != text.get_char(i) {
            return false;
        }
        i = i + 1;
    }
    true
}

/// The punctuators and operators.
#[derive(Clone, Copy, Debug, PartialEq, Eq, Hash)]
pub enum Punctuator {
    /// `+`
    Add,
    /// `&`
    And,
    /// `=>`
    Arrow,
    /// `=`
    Assign,
    /// `+=`
    AssignAdd,
    /// `&=`
    AssignAnd,
    /// `/=`
    AssignDiv,
    /// `<<=`
    AssignLeftSh,
    /// `%=`
    AssignMod,
    /// `*=`
    AssignMul,
    /// `|=`
    AssignOr,
    /// `**=`
    AssignPow,
    /// `>>=`
    AssignRightSh,
    /// `-=`
    AssignSub,
    /// `>>>=`
    AssignURightSh,
    /// `^=`
    AssignXor,
    /// `&&`
    BoolAnd,
    /// `||`
    BoolOr,
    /// `}`
    CloseBlock,
    /// `]`
    CloseBracket,
    /// `)`
    CloseParen,
    /// `:`
    Colon,
    /// `,`
    Comma,
    /// `--`
    Dec,
    /// `/`
    Div,
    /// `.`
    Dot,
    /// `==`
    Eq,
    /// `**`
    Exp,
    /// `>`
    GreaterThan,
    /// `>=`
    GreaterThanOrEq,
    /// `++`
    Inc,
    /// `<<`
    LeftSh,
    /// `<`
    LessThan,
    /// `<=`
    LessThanOrEq,
    /// `%`
    Mod,
    /// `*`
    Mul,
    /// `~`
    Neg,
    /// `!`
    Not,
    /// `!=`
    NotEq,
    /// `{`
    OpenBlock,
    /// `[`
    OpenBracket,
    /// `(`
    OpenParen,
    /// `|`
    Or,
    /// `?`
    Question,
    /// `>>`
    RightSh,
    /// `;`
    Semicolon,
    /// `...`
    Spread,
    /// `===`
    StrictEq,
    /// `!==`
    StrictNotEq,
    /// `-`
    Sub,
    /// `>>>`
    URightSh,
    /// `^`
    Xor,
}

impl Punctuator {
    /// How the punctuator is written.
    pub open spec fn text(self) -> Seq<char> {
        match self {
            Punctuator::Add => "+"@,
            Punctuator::And => "&"@,
            Punctuator::Arrow => "=>"@,
            Punctuator::Assign => "="@,
            Punctuator::AssignAdd => "+="@,
            Punctuator::AssignAnd => "&="@,
            Punctuator::AssignDiv => "/="@,
            Punctuator::AssignLeftSh => "<<="@,
            Punctuator::AssignMod => "%="@,
            Punctuator::AssignMul => "*="@,
            Punctuator::AssignOr => "|="@,
            Punctuator::AssignPow => "**="@,
            Punctuator::AssignRightSh => ">>="@,
            Punctuator::AssignSub => "-="@,
            Punctuator::AssignURightSh => ">>>="@,
            Punctuator::AssignXor => "^="@,
            Punctuator::BoolAnd => "&&"@,
            Punctuator::BoolOr => "||"@,
            Punctuator::CloseBlock => "}"@,
            Punctuator::CloseBracket => "]"@,
            Punctuator::CloseParen => ")"@,
            Punctuator::Colon => ":"@,
            Punctuator::Comma => ","@,
            Punctuator::Dec => "--"@,
            Punctuator::Div => "/"@,
            Punctuator::Dot => "."@,
            Punctuator::Eq => "=="@,
            Punctuator::Exp => "**"@,
            Punctuator::GreaterThan => ">"@,
            Punctuator::GreaterThanOrEq => ">="@,
            Punctuator::Inc => "++"@,
            Punctuator::LeftSh => "<<"@,
            Punctuator::LessThan => "<"@,
            Punctuator::LessThanOrEq => "<="@,
            Punctuator::Mod => "%"@,
            Punctuator::Mul => "*"@,
            Punctuator::Neg => "~"@,
            Punctuator::Not => "!"@,
            Punctuator::NotEq => "!="@,
            Punctuator::OpenBlock => "{"@,
            Punctuator::OpenBracket => "["@,
            Punctuator::OpenParen => "("@,
            Punctuator::Or => "|"@,
            Punctuator::Question => "?"@,
            Punctuator::RightSh => ">>"@,
            Punctuator::Semicolon => ";"@,
            Punctuator::Spread => "..."@,
            Punctuator::StrictEq => "==="@,
            Punctuator::StrictNotEq => "!=="@,
            Punctuator::Sub => "-"@,
            Punctuator::URightSh => ">>>"@,
            Punctuator::Xor => "^"@,
        }
    }

    /// How the punctuator is written.
    pub fn as_str(&self) -> (s: &'static str)
        ensures
            s@ == self.text(),
    {
        match self {
            Punctuator::Add => "+",
            Punctuator::And => "&",
            Punctuator::Arrow => "=>",
            Punctuator::Assign => "=",
            Punctuator::AssignAdd => "+=",
            Punctuator::AssignAnd => "&=",
            Punctuator::AssignDiv => "/=",
            Punctuator::AssignLeftSh => "<<=",
            Punctuator::AssignMod => "%=",
            Punctuator::AssignMul => "*=",
            Punctuator::AssignOr => "|=",
            Punctuator::AssignPow => "**=",
            Punctuator::AssignRightSh => ">>=",
            Punctuator::AssignSub => "-=",
            Punctuator::AssignURightSh => ">>>=",
            Punctuator::AssignXor => "^=",
            Punctuator::BoolAnd => "&&",
            Punctuator::BoolOr => "||",
            Punctuator::CloseBlock => "}",
            Punctuator::CloseBracket => "]",
            Punctuator::CloseParen => ")",
            Punctuator::Colon => ":",
            Punctuator::Comma => ",",
            Punctuator::Dec => "--",
            Punctuator::Div => "/",
            Punctuator::Dot => ".",
            Punctuator::Eq => "==",
            Punctuator::Exp => "**",
            Punctuator::GreaterThan => ">",
            Punctuator::GreaterThanOrEq => ">=",
            Punctuator::Inc => "++",
            Punctuator::LeftSh => "<<",
            Punctuator::LessThan => "<",
            Punctuator::LessThanOrEq => "<=",
            Punctuator::Mod => "%",
            Punctuator::Mul => "*",
            Punctuator::Neg => "~",
            Punctuator::Not => "!",
            Punctuator::NotEq => "!=",
            Punctuator::OpenBlock => "{",
            Punctuator::OpenBracket => "[",
            Punctuator::OpenParen => "(",
            Punctuator::Or => "|",
            Punctuator::Question => "?",
            Punctuator::RightSh => ">>",
            Punctuator::Semicolon => ";",
            Punctuator::Spread => "...",
            Punctuator::StrictEq => "===",
            Punctuator::StrictNotEq => "!==",
            Punctuator::Sub => "-",
            Punctuator::URightSh => ">>>",
            Punctuator::Xor => "^",
        }
    }
}

/// How a numeric literal is written: with a fraction or an exponent, as an
/// integer in some radix, or as a big integer in some radix. The radix is 2,
/// 8, 10 or 16.
#[derive(Clone, Copy, Debug, PartialEq, Eq, Hash)]
pub enum NumericKind {
    Rational,
    Integer(u32),
    BigInt(u32),
}

/// The classes of lexemes, each with what the lexer read out of the lexeme.
#[derive(Clone, Debug, PartialEq, Eq, Hash)]
pub enum TokenKind {
    /// `true` or `false`.
    BooleanLiteral(bool),
    /// The end of the source.
    EOF,
    /// A name that is no reserved word.
    Identifier(Vec<char>),
    /// A reserved word.
    Keyword(Keyword),
    /// `null`.
    NullLiteral,
    /// A number, kept as it is written.
    NumericLiteral { kind: NumericKind, text: Vec<char> },
    /// A punctuator or operator.
    Punctuator(Punctuator),
    /// A string literal, with its escape sequences resolved.
    StringLiteral(Vec<char>),
    /// A template literal: the text between its backticks.
    TemplateLiteral(Vec<char>),
    /// A regular expression literal: the text between its slashes, and the
    /// flags behind them.
    RegularExpressionLiteral { body: Vec<char>, flags: Vec<char> },
    /// One line terminator.
    LineTerminator,
    /// A comment.
    Comment,
}

/// A [`TokenKind`] as a mathematical value: sequences in place of vectors.
pub ghost enum TokenKindView {
    BooleanLiteral(bool),
    EOF,
    Identifier(Seq<char>),
    Keyword(Keyword),
    NullLiteral,
    NumericLiteral { kind: NumericKind, text: Seq<char> },
    Punctuator(Punctuator),
    StringLiteral(Seq<char>),
    TemplateLiteral(Seq<char>),
    RegularExpressionLiteral { body: Seq<char>, flags: Seq<char> },
    LineTerminator,
    Comment,
}

impl View for TokenKind {
    type V = TokenKindView;

    open spec fn view(&self) -> TokenKindView {
        match self {
            TokenKind::BooleanLiteral(b) => TokenKindView::BooleanLiteral(*b),
            TokenKind::EOF => TokenKindView::EOF,
            TokenKind::Identifier(name) => TokenKindView::Identifier(name@),
            TokenKind::Keyword(k) => TokenKindView::Keyword(*k),
            TokenKind::NullLiteral => TokenKindView::NullLiteral,
            TokenKind::NumericLiteral { kind, text } => TokenKindView::NumericLiteral {
                kind: *kind,
                text: text@,
            },
            TokenKind::Punctuator(p) => TokenKindView::Punctuator(*p),
            TokenKind::StringLiteral(value) => TokenKindView::StringLiteral(value@),
            TokenKind::TemplateLiteral(raw) => TokenKindView::TemplateLiteral(raw@),
            TokenKind::RegularExpressionLiteral { body, flags } => {
                TokenKindView::RegularExpressionLiteral { body: body@, flags: flags@ }
            },
            TokenKind::LineTerminator => TokenKindView::LineTerminator,
            TokenKind::Comment => TokenKindView::Comment,
        }
    }
}

/// A lexeme: its class and where it stands.
#[derive(Clone, Debug, PartialEq, Eq, Hash)]
pub struct Token {
    kind: TokenKind,
    span: Span,
}

/// A [`Token`] as a mathematical value.
pub ghost struct TokenView {
    pub kind: TokenKindView,
    pub span: Span,
}

impl View for Token {
    type V = TokenView;

    closed spec fn view(&self) -> TokenView {
        TokenView { kind: self.kind@, span: self.span }
    }
}

impl Token {
    /// A token from its class and its span.
    pub fn new(kind: TokenKind, span: Span) -> (t: Token)
        ensures
            t@ == (TokenView { kind: kind@, span }),
    {
        Token { kind, span }
    }

    /// The token's class.
    pub fn kind(&self) -> (k: &TokenKind)
        ensures
            k@ == self@.kind,
    {
        &self.kind
    }

    /// Where the token stands.
    pub fn span(&self) -> (s: Span)
        ensures
            s == self@.span,
    {
        self.span
    }

    /// Whether the token is a comment.
    pub fn is_comment(&self) -> (r: bool)
        ensures
            r == (self@.kind is Comment),
    {
        match self.kind {
            TokenKind::Comment => true,
            _ => false,
        }
    }
}

} // verus!
