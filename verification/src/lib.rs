//! A lexical analyzer for ECMAScript source text.
//!
//! The lexer walks a sequence of characters and hands out one classified
//! token per request. Every executable function carries a contract over a
//! mathematical model of the source: a `Seq<char>` and an offset into it.

pub mod chars;
pub mod comment;
pub mod cursor;
pub mod error;
pub mod identifier;
pub mod laws;
pub mod lexeme;
pub mod lexer;
pub mod number;
pub mod operator;
pub mod position;
pub mod regex;
pub mod spread;
pub mod string;
pub mod template;
pub mod token;

pub use cursor::Cursor;
pub use error::{Error, ErrorKind};
pub use lexer::{InputElement, Lexer};
pub use position::{Position, Span};
pub use token::{Keyword, NumericKind, Punctuator, Token, TokenKind};
