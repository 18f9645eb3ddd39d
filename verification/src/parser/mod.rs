//! A lexer over characters: streams of characters, tokens parsed from them,
//! and the errors that parsing reports.
pub mod error;
pub mod tokens;
pub mod tokenimpl;

pub use self::tokens::{Lexer, LexerStream, Parseable, Token};
