//! Parsing errors.
use vstd::prelude::*;
use crate::text::{append, debug_text, decimal, numbered, owned, spec_debug_text};

verus! {

/// A parsing error: what went wrong, which tokens were being parsed (the
/// innermost last) and where.
#[derive(Debug)]
pub struct ParsingError {
    pub error_type: ParsingErrorType,
    pub while_parsing: Vec<String>,
    pub position: usize,
}

impl ParsingError {
    /// Make a parsing error from its parts.
    pub fn new(error_type: ParsingErrorType, while_parsing: Vec<String>, position: usize) -> (r: Self)
        ensures
            r.error_type == error_type,
            r.while_parsing == while_parsing,
            r.position == position,
    {
        Self { error_type, while_parsing, position }
    }
}

/// What went wrong.
#[derive(Debug)]
pub enum ParsingErrorType {
    /// The stream ended.
    EOSError,
    /// A failure, with a value that describes it (shown as `Debug` shows
    /// the text).
    GenericError(String),
    /// The characters do not form the token.
    TokenizerError(String),
}

impl ParsingErrorType {
    /// Turn this into an error at the stream's position, naming the tokens
    /// that the stream's lexer is parsing.
    pub fn to(self, lexer: &crate::parser::tokens::LexerStream) -> (r: ParsingError)
        ensures
            r.error_type == self,
            r.position == lexer.position,
            crate::item::views(r.while_parsing@) == lexer.lexer_state().names(),
    {
        ParsingError::new(self, lexer.lexer().currently_parsing_list(), lexer.position)
    }
}

/// The text of an error type, as it is displayed.
pub open spec fn error_type_text(t: ParsingErrorType) -> Seq<char> {
    match t {
        ParsingErrorType::EOSError => "parsing error: end of stream"@,
        ParsingErrorType::GenericError(e) => spec_debug_text(e@),
        ParsingErrorType::TokenizerError(d) => "parsing error: "@ + d@,
    }
}

/// The text of a parsing error, as it is displayed.
pub open spec fn error_text(e: ParsingError) -> Seq<char> {
    "ParsingError("@ + error_type_text(e.error_type) + ", position("@ + decimal(e.position as nat) + "))"@
}

impl ParsingErrorType {
    /// The error type's text: the end of the stream, the describing value,
    /// or the tokenizer's details.
    pub fn to_string(&self) -> (r: String)
        ensures
            r@ == error_type_text(*self),
    {
        match self {
            ParsingErrorType::EOSError => owned("parsing error: end of stream"),
            ParsingErrorType::GenericError(e) => debug_text(e.as_str()),
            ParsingErrorType::TokenizerError(detail) => {
                let mut s = owned("parsing error: ");
                append(&mut s, detail.as_str());
                s
            },
        }
    }
}

impl ParsingError {
    /// The error's text: its type's text and its position.
    pub fn to_string(&self) -> (r: String)
        ensures
            r@ == error_text(*self),
    {
        let mut s = owned("ParsingError(");
        let t = self.error_type.to_string();
        append(&mut s, t.as_str());
        let pos = numbered(", position(", self.position as u64);
        append(&mut s, pos.as_str());
        append(&mut s, "))");
        s
    }
}

} // verus!
