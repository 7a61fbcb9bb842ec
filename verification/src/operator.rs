//! Operators, by maximal munch.

use crate::cursor::Cursor;
use crate::error::{Error, ErrorKind};
use crate::lexeme::{result_view, token_here, Lexed};
use crate::position::{position_at, Position};
use crate::token::{Punctuator, Token, TokenKind, TokenKindView};
use vstd::prelude::*;

verus! {

/// The punctuator that is written `s`, if there is one.
pub open spec fn punctuator_of(s: Seq<char>) -> Option<Punctuator> {
    if s =~= "+"@ {
        Some(Punctuator::Add)
    } else if s =~= "&"@ {
        Some(Punctuator::And)
    } else if s =~= "=>"@ {
        Some(Punctuator::Arrow)
    } else if s =~= "="@ {
        Some(Punctuator::Assign)
    } else if s =~= "+="@ {
        Some(Punctuator::AssignAdd)
    } else if s =~= "&="@ {
        Some(Punctuator::AssignAnd)
    } else if s =~= "/="@ {
        Some(Punctuator::AssignDiv)
    } else if s =~= "<<="@ {
        Some(Punctuator::AssignLeftSh)
    } else if s =~= "%="@ {
        Some(Punctuator::AssignMod)
    } else if s =~= "*="@ {
        Some(Punctuator::AssignMul)
    } else if s =~= "|="@ {
        Some(Punctuator::AssignOr)
    } else if s =~= "**="@ {
        Some(Punctuator::AssignPow)
    } else if s =~= ">>="@ {
        Some(Punctuator::AssignRightSh)
    } else if s =~= "-="@ {
        Some(Punctuator::AssignSub)
    } else if s =~= ">>>="@ {
        Some(Punctuator::AssignURightSh)
    } else if s =~= "^="@ {
        Some(Punctuator::AssignXor)
    } else if s =~= "&&"@ {
        Some(Punctuator::BoolAnd)
    } else if s =~= "||"@ {
        Some(Punctuator::BoolOr)
    } else if s =~= "}"@ {
        Some(Punctuator::CloseBlock)
    } else if s =~= "]"@ {
        Some(Punctuator::CloseBracket)
    } else if s =~= ")"@ {
        Some(Punctuator::CloseParen)
    } else if s =~= ":"@ {
        Some(Punctuator::Colon)
    } else if s =~= ","@ {
        Some(Punctuator::Comma)
    } else if s =~= "--"@ {
        Some(Punctuator::Dec)
    } else if s =~= "/"@ {
        Some(Punctuator::Div)
    } else if s =~= "."@ {
        Some(Punctuator::Dot)
    } else if s =~= "=="@ {
        Some(Punctuator::Eq)
    } else if s =~= "**"@ {
        Some(Punctuator::Exp)
    } else if s =~= ">"@ {
        Some(Punctuator::GreaterThan)
    } else if s =~= ">="@ {
        Some(Punctuator::GreaterThanOrEq)
    } else if s =~= "++"@ {
        Some(Punctuator::Inc)
    } else if s =~= "<<"@ {
        Some(Punctuator::LeftSh)
    } else if s =~= "<"@ {
        Some(Punctuator::LessThan)
    } else if s =~= "<="@ {
        Some(Punctuator::LessThanOrEq)
    } else if s =~= "%"@ {
        Some(Punctuator::Mod)
    } else if s =~= "*"@ {
        Some(Punctuator::Mul)
    } else if s =~= "~"@ {
        Some(Punctuator::Neg)
    } else if s =~= "!"@ {
        Some(Punctuator::Not)
    } else if s =~= "!="@ {
        Some(Punctuator::NotEq)
    } else if s =~= "{"@ {
        Some(Punctuator::OpenBlock)
    } else if s =~= "["@ {
        Some(Punctuator::OpenBracket)
    } else if s =~= "("@ {
        Some(Punctuator::OpenParen)
    } else if s =~= "|"@ {
        Some(Punctuator::Or)
    } else if s =~= "?"@ {
        Some(Punctuator::Question)
    } else if s =~= ">>"@ {
        Some(Punctuator::RightSh)
    } else if s =~= ";"@ {
        Some(Punctuator::Semicolon)
    } else if s =~= "..."@ {
        Some(Punctuator::Spread)
    } else if s =~= "==="@ {
        Some(Punctuator::StrictEq)
    } else if s =~= "!=="@ {
        Some(Punctuator::StrictNotEq)
    } else if s =~= "-"@ {
        Some(Punctuator::Sub)
    } else if s =~= ">>>"@ {
        Some(Punctuator::URightSh)
    } else if s =~= "^"@ {
        Some(Punctuator::Xor)
    } else {
        None
    }
}

/// The characters with which an operator starts.
pub open spec fn spec_is_operator_start(c: char) -> bool {
    c == '*' || c == '+' || c == '-' || c == '%' || c == '|' || c == '&' || c == '^' || c == '=' || c == '<' || c == '>' || c == '!' || c == '~' || c == '/'
}

/// Decides whether an operator starts with `c`.
#[verifier::when_used_as_spec(spec_is_operator_start)]
pub fn is_operator_start(c: char) -> (r: bool)
    ensures
        r == spec_is_operator_start(c),
{
    c == '*' || c == '+' || c == '-' || c == '%' || c == '|' || c == '&' || c == '^' || c == '=' || c == '<' || c == '>' || c == '!' || c == '~' || c == '/'
}

/// Whether the `n` characters of `src` from offset `start` on are a
/// punctuator.
pub open spec fn punctuator_at(src: Seq<char>, start: int, n: int) -> bool {
    start + n <= src.len() && punctuator_of(src.subrange(start, start + n)).is_some()
}

/// The length of the longest punctuator that starts at offset `start` of
/// `src`, where an operator starts there. No punctuator has more than four
/// characters.
pub open spec fn munch(src: Seq<char>, start: int) -> int {
    if punctuator_at(src, start, 4) {
        4
    } else if punctuator_at(src, start, 3) {
        3
    } else if punctuator_at(src, start, 2) {
        2
    } else {
        1
    }
}

/// The operator that starts at offset `start` of `src`: the longest
/// punctuator that the characters from there on spell.
pub open spec fn operator(src: Seq<char>, start: int) -> Lexed {
    let end = start + munch(src, start);
    match punctuator_of(src.subrange(start, end)) {
        Some(p) if is_operator_start(src[start]) => Lexed::Token {
            kind: TokenKindView::Punctuator(p),
            end,
        },
        _ => Lexed::Failure { error: ErrorKind::UnexpectedCharacter, at: start, end: start + 1 },
    }
}

/// The operator of one character that is written `c`.
pub open spec fn single_operator(c: char) -> Option<Punctuator> {
    match c {
        '*' => Some(Punctuator::Mul),
        '+' => Some(Punctuator::Add),
        '-' => Some(Punctuator::Sub),
        '%' => Some(Punctuator::Mod),
        '|' => Some(Punctuator::Or),
        '&' => Some(Punctuator::And),
        '^' => Some(Punctuator::Xor),
        '=' => Some(Punctuator::Assign),
        '<' => Some(Punctuator::LessThan),
        '>' => Some(Punctuator::GreaterThan),
        '!' => Some(Punctuator::Not),
        '~' => Some(Punctuator::Neg),
        '/' => Some(Punctuator::Div),
        _ => None,
    }
}

/// The operator that is written as `p` with `c` behind it.
pub open spec fn extended(p: Punctuator, c: char) -> Option<Punctuator> {
    match (p, c) {
        (Punctuator::Assign, '>') => Some(Punctuator::Arrow),
        (Punctuator::Add, '=') => Some(Punctuator::AssignAdd),
        (Punctuator::And, '=') => Some(Punctuator::AssignAnd),
        (Punctuator::Div, '=') => Some(Punctuator::AssignDiv),
        (Punctuator::LeftSh, '=') => Some(Punctuator::AssignLeftSh),
        (Punctuator::Mod, '=') => Some(Punctuator::AssignMod),
        (Punctuator::Mul, '=') => Some(Punctuator::AssignMul),
        (Punctuator::Or, '=') => Some(Punctuator::AssignOr),
        (Punctuator::Exp, '=') => Some(Punctuator::AssignPow),
        (Punctuator::RightSh, '=') => Some(Punctuator::AssignRightSh),
        (Punctuator::Sub, '=') => Some(Punctuator::AssignSub),
        (Punctuator::URightSh, '=') => Some(Punctuator::AssignURightSh),
        (Punctuator::Xor, '=') => Some(Punctuator::AssignXor),
        (Punctuator::And, '&') => Some(Punctuator::BoolAnd),
        (Punctuator::Or, '|') => Some(Punctuator::BoolOr),
        (Punctuator::Sub, '-') => Some(Punctuator::Dec),
        (Punctuator::Assign, '=') => Some(Punctuator::Eq),
        (Punctuator::Mul, '*') => Some(Punctuator::Exp),
        (Punctuator::GreaterThan, '=') => Some(Punctuator::GreaterThanOrEq),
        (Punctuator::Add, '+') => Some(Punctuator::Inc),
        (Punctuator::LessThan, '<') => Some(Punctuator::LeftSh),
        (Punctuator::LessThan, '=') => Some(Punctuator::LessThanOrEq),
        (Punctuator::Not, '=') => Some(Punctuator::NotEq),
        (Punctuator::GreaterThan, '>') => Some(Punctuator::RightSh),
        (Punctuator::Eq, '=') => Some(Punctuator::StrictEq),
        (Punctuator::NotEq, '=') => Some(Punctuator::StrictNotEq),
        (Punctuator::RightSh, '>') => Some(Punctuator::URightSh),
        _ => None,
    }
}

/// The operator that is written as `p`, if any, with `c` behind it.
pub open spec fn then_extended(p: Option<Punctuator>, c: char) -> Option<Punctuator> {
    match p {
        Some(p) => extended(p, c),
        None => None,
    }
}

/// The operator that the characters of `s` spell one after the other.
pub open spec fn spelled(s: Seq<char>) -> Option<Punctuator> {
    let p1 = single_operator(s[0]);
    let p2 = then_extended(p1, s[1]);
    let p3 = then_extended(p2, s[2]);
    let p4 = then_extended(p3, s[3]);
    if s.len() == 1 {
        p1
    } else if s.len() == 2 {
        p2
    } else if s.len() == 3 {
        p3
    } else if s.len() == 4 {
        p4
    } else {
        None
    }
}

/// What the characters of the punctuators are.
proof fn lemma_punctuator_texts()
    ensures
        "+"@ =~= seq!['+'],
        "&"@ =~= seq!['&'],
        "=>"@ =~= seq!['=', '>'],
        "="@ =~= seq!['='],
        "+="@ =~= seq!['+', '='],
        "&="@ =~= seq!['&', '='],
        "/="@ =~= seq!['/', '='],
        "<<="@ =~= seq!['<', '<', '='],
        "%="@ =~= seq!['%', '='],
        "*="@ =~= seq!['*', '='],
        "|="@ =~= seq!['|', '='],
        "**="@ =~= seq!['*', '*', '='],
        ">>="@ =~= seq!['>', '>', '='],
        "-="@ =~= seq!['-', '='],
        ">>>="@ =~= seq!['>', '>', '>', '='],
        "^="@ =~= seq!['^', '='],
        "&&"@ =~= seq!['&', '&'],
        "||"@ =~= seq!['|', '|'],
        "}"@ =~= seq!['}'],
        "]"@ =~= seq![']'],
        ")"@ =~= seq![')'],
        ":"@ =~= seq![':'],
        ","@ =~= seq![','],
        "--"@ =~= seq!['-', '-'],
        "/"@ =~= seq!['/'],
        "."@ =~= seq!['.'],
        "=="@ =~= seq!['=', '='],
        "**"@ =~= seq!['*', '*'],
        ">"@ =~= seq!['>'],
        ">="@ =~= seq!['>', '='],
        "++"@ =~= seq!['+', '+'],
        "<<"@ =~= seq!['<', '<'],
        "<"@ =~= seq!['<'],
        "<="@ =~= seq!['<', '='],
        "%"@ =~= seq!['%'],
        "*"@ =~= seq!['*'],
        "~"@ =~= seq!['~'],
        "!"@ =~= seq!['!'],
        "!="@ =~= seq!['!', '='],
        "{"@ =~= seq!['{'],
        "["@ =~= seq!['['],
        "("@ =~= seq!['('],
        "|"@ =~= seq!['|'],
        "?"@ =~= seq!['?'],
        ">>"@ =~= seq!['>', '>'],
        ";"@ =~= seq![';'],
        "..."@ =~= seq!['.', '.', '.'],
        "==="@ =~= seq!['=', '=', '='],
        "!=="@ =~= seq!['!', '=', '='],
        "-"@ =~= seq!['-'],
        ">>>"@ =~= seq!['>', '>', '>'],
        "^"@ =~= seq!['^'],
{
    reveal_strlit("+");
    reveal_strlit("&");
    reveal_strlit("=>");
    reveal_strlit("=");
    reveal_strlit("+=");
    reveal_strlit("&=");
    reveal_strlit("/=");
    reveal_strlit("<<=");
    reveal_strlit("%=");
    reveal_strlit("*=");
    reveal_strlit("|=");
    reveal_strlit("**=");
    reveal_strlit(">>=");
    reveal_strlit("-=");
    reveal_strlit(">>>=");
    reveal_strlit("^=");
    reveal_strlit("&&");
    reveal_strlit("||");
    reveal_strlit("}");
    reveal_strlit("]");
    reveal_strlit(")");
    reveal_strlit(":");
    reveal_strlit(",");
    reveal_strlit("--");
    reveal_strlit("/");
    reveal_strlit(".");
    reveal_strlit("==");
    reveal_strlit("**");
    reveal_strlit(">");
    reveal_strlit(">=");
    reveal_strlit("++");
    reveal_strlit("<<");
    reveal_strlit("<");
    reveal_strlit("<=");
    reveal_strlit("%");
    reveal_strlit("*");
    reveal_strlit("~");
    reveal_strlit("!");
    reveal_strlit("!=");
    reveal_strlit("{");
    reveal_strlit("[");
    reveal_strlit("(");
    reveal_strlit("|");
    reveal_strlit("?");
    reveal_strlit(">>");
    reveal_strlit(";");
    reveal_strlit("...");
    reveal_strlit("===");
    reveal_strlit("!==");
    reveal_strlit("-");
    reveal_strlit(">>>");
    reveal_strlit("^");
}

/// Extending an operator character by character finds exactly the
/// punctuators that start with an operator's character.
pub proof fn lemma_spelled(s: Seq<char>)
    requires
        s.len() >= 1,
        is_operator_start(s[0]),
    ensures
        punctuator_of(s) == spelled(s),
{
    lemma_punctuator_texts();
    if s.len() == 1 {
        assert(s =~= seq![s[0]]);
    } else if s.len() == 2 {
        assert(s =~= seq![s[0], s[1]]);
    } else if s.len() == 3 {
        assert(s =~= seq![s[0], s[1], s[2]]);
    } else if s.len() == 4 {
        assert(s =~= seq![s[0], s[1], s[2], s[3]]);
    }
}

/// Every punctuator is found under the way it is written.
pub proof fn lemma_punctuator_of_text(p: Punctuator)
    ensures
        punctuator_of(p.text()) == Some(p),
{
    lemma_punctuator_texts();
    let s = p.text();
    match p {
        Punctuator::Add => {
            assert(s.len() == 1);
            assert(s[0] == '+');
        },
        Punctuator::And => {
            assert(s.len() == 1);
            assert(s[0] == '&');
        },
        Punctuator::Arrow => {
            assert(s.len() == 2);
            assert(s[0] == '=');
            assert(s[1] == '>');
        },
        Punctuator::Assign => {
            assert(s.len() == 1);
            assert(s[0] == '=');
        },
        Punctuator::AssignAdd => {
            assert(s.len() == 2);
            assert(s[0] == '+');
            assert(s[1] == '=');
        },
        Punctuator::AssignAnd => {
            assert(s.len() == 2);
            assert(s[0] == '&');
            assert(s[1] == '=');
        },
        Punctuator::AssignDiv => {
            assert(s.len() == 2);
            assert(s[0] == '/');
            assert(s[1] == '=');
        },
        Punctuator::AssignLeftSh => {
            assert(s.len() == 3);
            assert(s[0] == '<');
            assert(s[1] == '<');
            assert(s[2] == '=');
        },
        Punctuator::AssignMod => {
            assert(s.len() == 2);
            assert(s[0] == '%');
            assert(s[1] == '=');
        },
        Punctuator::AssignMul => {
            assert(s.len() == 2);
            assert(s[0] == '*');
            assert(s[1] == '=');
        },
        Punctuator::AssignOr => {
            assert(s.len() == 2);
            assert(s[0] == '|');
            assert(s[1] == '=');
        },
        Punctuator::AssignPow => {
            assert(s.len() == 3);
            assert(s[0] == '*');
            assert(s[1] == '*');
            assert(s[2] == '=');
        },
        Punctuator::AssignRightSh => {
            assert(s.len() == 3);
            assert(s[0] == '>');
            assert(s[1] == '>');
            assert(s[2] == '=');
        },
        Punctuator::AssignSub => {
            assert(s.len() == 2);
            assert(s[0] == '-');
            assert(s[1] == '=');
        },
        Punctuator::AssignURightSh => {
            assert(s.len() == 4);
            assert(s[0] == '>');
            assert(s[1] == '>');
            assert(s[2] == '>');
            assert(s[3] == '=');
        },
        Punctuator::AssignXor => {
            assert(s.len() == 2);
            assert(s[0] == '^');
            assert(s[1] == '=');
        },
        Punctuator::BoolAnd => {
            assert(s.len() == 2);
            assert(s[0] == '&');
            assert(s[1] == '&');
        },
        Punctuator::BoolOr => {
            assert(s.len() == 2);
            assert(s[0] == '|');
            assert(s[1] == '|');
        },
        Punctuator::CloseBlock => {
            assert(s.len() == 1);
            assert(s[0] == '}');
        },
        Punctuator::CloseBracket => {
            assert(s.len() == 1);
            assert(s[0] == ']');
        },
        Punctuator::CloseParen => {
            assert(s.len() == 1);
            assert(s[0] == ')');
        },
        Punctuator::Colon => {
            assert(s.len() == 1);
            assert(s[0] == ':');
        },
        Punctuator::Comma => {
            assert(s.len() == 1);
            assert(s[0] == ',');
        },
        Punctuator::Dec => {
            assert(s.len() == 2);
            assert(s[0] == '-');
            assert(s[1] == '-');
        },
        Punctuator::Div => {
            assert(s.len() == 1);
            assert(s[0] == '/');
        },
        Punctuator::Dot => {
            assert(s.len() == 1);
            assert(s[0] == '.');
        },
        Punctuator::Eq => {
            assert(s.len() == 2);
            assert(s[0] == '=');
            assert(s[1] == '=');
        },
        Punctuator::Exp => {
            assert(s.len() == 2);
            assert(s[0] == '*');
            assert(s[1] == '*');
        },
        Punctuator::GreaterThan => {
            assert(s.len() == 1);
            assert(s[0] == '>');
        },
        Punctuator::GreaterThanOrEq => {
            assert(s.len() == 2);
            assert(s[0] == '>');
            assert(s[1] == '=');
        },
        Punctuator::Inc => {
            assert(s.len() == 2);
            assert(s[0] == '+');
            assert(s[1] == '+');
        },
        Punctuator::LeftSh => {
            assert(s.len() == 2);
            assert(s[0] == '<');
            assert(s[1] == '<');
        },
        Punctuator::LessThan => {
            assert(s.len() == 1);
            assert(s[0] == '<');
        },
        Punctuator::LessThanOrEq => {
            assert(s.len() == 2);
            assert(s[0] == '<');
            assert(s[1] == '=');
        },
        Punctuator::Mod => {
            assert(s.len() == 1);
            assert(s[0] == '%');
        },
        Punctuator::Mul => {
            assert(s.len() == 1);
            assert(s[0] == '*');
        },
        Punctuator::Neg => {
            assert(s.len() == 1);
            assert(s[0] == '~');
        },
        Punctuator::Not => {
            assert(s.len() == 1);
            assert(s[0] == '!');
        },
        Punctuator::NotEq => {
            assert(s.len() == 2);
            assert(s[0] == '!');
            assert(s[1] == '=');
        },
        Punctuator::OpenBlock => {
            assert(s.len() == 1);
            assert(s[0] == '{');
        },
        Punctuator::OpenBracket => {
            assert(s.len() == 1);
            assert(s[0] == '[');
        },
        Punctuator::OpenParen => {
            assert(s.len() == 1);
            assert(s[0] == '(');
        },
        Punctuator::Or => {
            assert(s.len() == 1);
            assert(s[0] == '|');
        },
        Punctuator::Question => {
            assert(s.len() == 1);
            assert(s[0] == '?');
        },
        Punctuator::RightSh => {
            assert(s.len() == 2);
            assert(s[0] == '>');
            assert(s[1] == '>');
        },
        Punctuator::Semicolon => {
            assert(s.len() == 1);
            assert(s[0] == ';');
        },
        Punctuator::Spread => {
            assert(s.len() == 3);
            assert(s[0] == '.');
            assert(s[1] == '.');
            assert(s[2] == '.');
        },
        Punctuator::StrictEq => {
            assert(s.len() == 3);
            assert(s[0] == '=');
            assert(s[1] == '=');
            assert(s[2] == '=');
        },
        Punctuator::StrictNotEq => {
            assert(s.len() == 3);
            assert(s[0] == '!');
            assert(s[1] == '=');
            assert(s[2] == '=');
        },
        Punctuator::Sub => {
            assert(s.len() == 1);
            assert(s[0] == '-');
        },
        Punctuator::URightSh => {
            assert(s.len() == 3);
            assert(s[0] == '>');
            assert(s[1] == '>');
            assert(s[2] == '>');
        },
        Punctuator::Xor => {
            assert(s.len() == 1);
            assert(s[0] == '^');
        },
    }
}

/// What is found among the punctuators is written as it was looked up.
pub proof fn lemma_punctuator_of(s: Seq<char>)
    ensures
        punctuator_of(s) matches Some(p) ==> s == p.text(),
{
}

/// No punctuator has more than four characters.
pub proof fn lemma_punctuator_length(s: Seq<char>)
    requires
        punctuator_of(s) is Some,
    ensures
        1 <= s.len() <= 4,
{
    lemma_punctuator_texts();
}

/// Maximal munch: where an operator starts, the token is the punctuator
/// that its characters spell, and no longer run of characters from there on
/// spells a punctuator.
pub proof fn lemma_maximal_munch(src: Seq<char>, start: int)
    requires
        0 <= start < src.len(),
        is_operator_start(src[start]),
    ensures
        operator(src, start) matches Lexed::Token { kind: TokenKindView::Punctuator(p), end } && {
            &&& start < end <= src.len()
            &&& p.text() == src.subrange(start, end)
            &&& forall|n: int| end - start < n ==> !punctuator_at(src, start, n)
        },
{
    lemma_spelled(src.subrange(start, start + 1));
    let end = start + munch(src, start);
    assert forall|n: int| end - start < n implies !punctuator_at(src, start, n) by {
        if punctuator_at(src, start, n) {
            lemma_punctuator_length(src.subrange(start, start + n));
        }
    }
}

/// The operator of one character that is written `c`.
fn first_operator(c: char) -> (r: Option<Punctuator>)
    ensures
        r == single_operator(c),
{
    match c {
        '*' => Some(Punctuator::Mul),
        '+' => Some(Punctuator::Add),
        '-' => Some(Punctuator::Sub),
        '%' => Some(Punctuator::Mod),
        '|' => Some(Punctuator::Or),
        '&' => Some(Punctuator::And),
        '^' => Some(Punctuator::Xor),
        '=' => Some(Punctuator::Assign),
        '<' => Some(Punctuator::LessThan),
        '>' => Some(Punctuator::GreaterThan),
        '!' => Some(Punctuator::Not),
        '~' => Some(Punctuator::Neg),
        '/' => Some(Punctuator::Div),
        _ => None,
    }
}

/// The operator that is written as `p` with `c` behind it.
fn extend(p: Punctuator, c: char) -> (r: Option<Punctuator>)
    ensures
        r == extended(p, c),
{
    match (p, c) {
        (Punctuator::Assign, '>') => Some(Punctuator::Arrow),
        (Punctuator::Add, '=') => Some(Punctuator::AssignAdd),
        (Punctuator::And, '=') => Some(Punctuator::AssignAnd),
        (Punctuator::Div, '=') => Some(Punctuator::AssignDiv),
        (Punctuator::LeftSh, '=') => Some(Punctuator::AssignLeftSh),
        (Punctuator::Mod, '=') => Some(Punctuator::AssignMod),
        (Punctuator::Mul, '=') => Some(Punctuator::AssignMul),
        (Punctuator::Or, '=') => Some(Punctuator::AssignOr),
        (Punctuator::Exp, '=') => Some(Punctuator::AssignPow),
        (Punctuator::RightSh, '=') => Some(Punctuator::AssignRightSh),
        (Punctuator::Sub, '=') => Some(Punctuator::AssignSub),
        (Punctuator::URightSh, '=') => Some(Punctuator::AssignURightSh),
        (Punctuator::Xor, '=') => Some(Punctuator::AssignXor),
        (Punctuator::And, '&') => Some(Punctuator::BoolAnd),
        (Punctuator::Or, '|') => Some(Punctuator::BoolOr),
        (Punctuator::Sub, '-') => Some(Punctuator::Dec),
        (Punctuator::Assign, '=') => Some(Punctuator::Eq),
        (Punctuator::Mul, '*') => Some(Punctuator::Exp),
        (Punctuator::GreaterThan, '=') => Some(Punctuator::GreaterThanOrEq),
        (Punctuator::Add, '+') => Some(Punctuator::Inc),
        (Punctuator::LessThan, '<') => Some(Punctuator::LeftSh),
        (Punctuator::LessThan, '=') => Some(Punctuator::LessThanOrEq),
        (Punctuator::Not, '=') => Some(Punctuator::NotEq),
        (Punctuator::GreaterThan, '>') => Some(Punctuator::RightSh),
        (Punctuator::Eq, '=') => Some(Punctuator::StrictEq),
        (Punctuator::NotEq, '=') => Some(Punctuator::StrictNotEq),
        (Punctuator::RightSh, '>') => Some(Punctuator::URightSh),
        _ => None,
    }
}

/// Lexes the operator whose first character, `first`, has just been
/// consumed: takes one more character as long as that still spells an
/// operator.
pub fn lex_operator(cursor: &mut Cursor, start_pos: Position, first: char) -> (r: Result<
    Token,
    Error,
>)
    requires
        old(cursor).wf(),
        old(cursor).index() >= 1,
        start_pos == position_at(old(cursor).source(), old(cursor).index() - 1),
        first == old(cursor).source()[old(cursor).index() - 1],
    ensures
        final(cursor).wf(),
        final(cursor).source() == old(cursor).source(),
        final(cursor).index() == operator(old(cursor).source(), old(cursor).index() - 1).end(),
        result_view(r) == operator(old(cursor).source(), old(cursor).index() - 1).result(
            old(cursor).source(),
            old(cursor).index() - 1,
        ),
{
    let ghost src = cursor.source();
    let ghost start = cursor.index() - 1;
    let mut p = match first_operator(first) {
        Some(p) => p,
        None => {
            return Err(Error::syntax(ErrorKind::UnexpectedCharacter, Some(first), start_pos));
        },
    };
    let mut n: usize = 1;
    loop
        invariant
            cursor.wf(),
            cursor.source() == src,
            src == old(cursor).source(),
            start == old(cursor).index() - 1,
            0 <= start,
            1 <= n <= 4,
            cursor.index() == start + n,
            is_operator_start(src[start]),
            spelled(src.subrange(start, start + n)) == Some(p),
        ensures
            1 <= n <= 4,
            cursor.index() == start + n,
            spelled(src.subrange(start, start + n)) == Some(p),
            n == 4 || !(start + n < src.len() && extended(p, src[start + n]).is_some()),
        decreases 4 - n,
    {
        if n >= 4 {
            break ;
        }
        match cursor.peek() {
            Some(c) => {
                match extend(p, c) {
                    Some(q) => {
                        proof {
                            let shorter = src.subrange(start, start + n);
                            let longer = src.subrange(start, start + n + 1);
                            assert(forall|k: int|
                                0 <= k < n ==> #[trigger] longer[k] == shorter[k]);
                            assert(longer[n as int] == c);
                        }
                        cursor.next();
                        p = q;
                        n = n + 1;
                    },
                    None => {
                        break ;
                    },
                }
            },
            None => {
                break ;
            },
        }
    }
    proof {
        lemma_spelled(src.subrange(start, start + 1));
        if start + 2 <= src.len() {
            lemma_spelled(src.subrange(start, start + 2));
        }
        if start + 3 <= src.len() {
            lemma_spelled(src.subrange(start, start + 3));
        }
        if start + 4 <= src.len() {
            lemma_spelled(src.subrange(start, start + 4));
        }
        assert(munch(src, start) == n);
    }
    token_here(cursor, start_pos, TokenKind::Punctuator(p), Ghost(start))
}

} // verus!
