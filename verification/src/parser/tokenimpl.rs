//! The basic tokens: single characters and runs of white space.
use vstd::prelude::*;
use crate::parser::error::{ParsingError, ParsingErrorType};
use crate::parser::tokens::{LexerStream, Parseable};
use crate::text::{spec_is_whitespace, is_whitespace, char_alphanumeric, char_numeric, char_is_alphanumeric, char_is_numeric, owned, append, string_push, char_debug, spec_char_debug};

verus! {

/// Whether `c` is the code of a character: at most `0x10FFFF`, and no
/// surrogate.
pub open spec fn is_char_code(c: u32) -> bool {
    c <= 0x10FFFF && !(0xD800 <= c <= 0xDFFF)
}

/// `char::from_u32`: the character with code `c`, if there is one.
#[verifier::external_body]
fn char_from_code(c: u32) -> (r: Option<char>)
    ensures
        r == (if is_char_code(c) { Some(c as char) } else { None::<char> }),
{
    char::from_u32(c)
}

/// The character with code `c`, or `?` where there is none.
pub open spec fn code_char(c: u32) -> char {
    if is_char_code(c) {
        c as char
    } else {
        '?'
    }
}

/// The message for the character `got` where the one with code `expected`
/// was expected: a newline is written as `newline`.
pub open spec fn mismatch_text(expected: u32, got: char) -> Seq<char> {
    "incorrect character, expected "@ + seq![code_char(expected)] + " but got "@ + if got == '\n' {
        "newline"@
    } else {
        seq![got]
    }
}

/// The message for a character that is not the expected one (see
/// [`mismatch_text`]).
fn mismatch_message(expected: u32, got: char) -> (r: String)
    ensures
        r@ == mismatch_text(expected, got),
{
    let mut m = owned("incorrect character, expected ");
    let e = match char_from_code(expected) {
        Some(c) => c,
        None => '?',
    };
    string_push(&mut m, e);
    append(&mut m, " but got ");
    if got == '\n' {
        append(&mut m, "newline");
    } else {
        string_push(&mut m, got);
    }
    m
}

/// The name of the token for the character with code `c`: the type's path,
/// then the `Debug` text of the character (of `?` where `c` is no
/// character) in angle brackets.
pub open spec fn char_token_text(c: u32) -> Seq<char> {
    "exo_class_file::parser::tokenimpl::Char<"@ + spec_char_debug(code_char(c)) + ">"@
}

/// The name of the token for the character with code `c` (see
/// [`char_token_text`]).
fn char_token_name(c: u32) -> (r: String)
    ensures
        r@ == char_token_text(c),
{
    let mut m = owned("exo_class_file::parser::tokenimpl::Char<");
    let ch = match char_from_code(c) {
        Some(x) => x,
        None => '?',
    };
    let d = char_debug(ch);
    append(&mut m, d.as_str());
    append(&mut m, ">");
    m
}

/// A tokenizer error with the given message, at the stream's position.
pub fn parse_err(s: &LexerStream, details: String) -> (r: ParsingError)
    ensures
        r.error_type == ParsingErrorType::TokenizerError(details),
        r.position == s.position,
{
    ParsingErrorType::TokenizerError(details).to(s)
}

/// An alphanumeric character.
#[derive(Debug)]
pub struct Alphanumeric(pub char);

impl View for Alphanumeric {
    type V = char;

    open spec fn view(&self) -> char {
        self.0
    }
}

impl Parseable for Alphanumeric {
    open spec fn spec_parse(input: Seq<char>) -> Option<(char, nat)> {
        if input.len() >= 1 && char_alphanumeric(input[0]) {
            Some((input[0], 1))
        } else {
            None
        }
    }

    fn parse(s: &mut LexerStream) -> (r: Result<Self, ParsingError>)
        ensures
            old(s).rest().len() >= 1 && !char_alphanumeric(old(s).rest()[0]) ==> (r matches Err(e)
                && e.error_type matches ParsingErrorType::TokenizerError(m) && m@ == "not alphanumeric"@),
            old(s).rest().len() == 0 ==> (r matches Err(e) && e.error_type is EOSError),
    {
        let c = s.char()?;
        if !char_is_alphanumeric(c) {
            return Err(parse_err(s, owned("not alphanumeric")));
        }
        Ok(Self(c))
    }

    open spec fn spec_name() -> Seq<char> {
        "exo_class_file::parser::tokenimpl::Alphanumeric"@
    }

    fn name() -> String {
        owned("exo_class_file::parser::tokenimpl::Alphanumeric")
    }
}

/// A numeric character.
#[derive(Debug)]
pub struct Numeric(pub char);

impl View for Numeric {
    type V = char;

    open spec fn view(&self) -> char {
        self.0
    }
}

impl Parseable for Numeric {
    open spec fn spec_parse(input: Seq<char>) -> Option<(char, nat)> {
        if input.len() >= 1 && char_numeric(input[0]) {
            Some((input[0], 1))
        } else {
            None
        }
    }

    fn parse(s: &mut LexerStream) -> (r: Result<Self, ParsingError>)
        ensures
            old(s).rest().len() >= 1 && !char_numeric(old(s).rest()[0]) ==> (r matches Err(e)
                && e.error_type matches ParsingErrorType::TokenizerError(m) && m@ == "not numeric"@),
            old(s).rest().len() == 0 ==> (r matches Err(e) && e.error_type is EOSError),
    {
        let c = s.char()?;
        if !char_is_numeric(c) {
            return Err(parse_err(s, owned("not numeric")));
        }
        Ok(Self(c))
    }

    open spec fn spec_name() -> Seq<char> {
        "exo_class_file::parser::tokenimpl::Numeric"@
    }

    fn name() -> String {
        owned("exo_class_file::parser::tokenimpl::Numeric")
    }
}

/// How many characters at the front of `input` are white space.
pub open spec fn whitespace_len(input: Seq<char>) -> nat
    decreases input.len(),
{
    if input.len() > 0 && spec_is_whitespace(input[0]) {
        1 + whitespace_len(input.drop_first())
    } else {
        0
    }
}

/// A run of white space, possibly empty.
#[derive(Debug)]
pub struct Whitespace;

impl View for Whitespace {
    type V = ();

    open spec fn view(&self) -> () {
        ()
    }
}

impl Parseable for Whitespace {
    open spec fn spec_parse(input: Seq<char>) -> Option<((), nat)> {
        Some(((), whitespace_len(input)))
    }

    fn parse(s: &mut LexerStream) -> (r: Result<Self, ParsingError>) {
        let ghost start = s.position as int;
        let ghost input = old(s).rest();
        loop
            invariant
                s.wf(),
                s.chars == old(s).chars,
                s.lexer_state() == old(s).lexer_state(),
                input == old(s).rest(),
                start == old(s).position,
                start <= s.position,
                whitespace_len(input) == (s.position - start) + whitespace_len(s.rest()),
            decreases s.chars@.len() - s.position,
        {
            let p = s.position;
            assert(s.rest().len() > 0 ==> s.rest().drop_first() =~= s.chars@.skip(p + 1));
            match s.char() {
                Ok(c) => {
                    if !is_whitespace(c) {
                        s.position = p;
                        return Ok(Self);
                    }
                },
                Err(_) => {
                    return Ok(Self);
                },
            }
        }
    }

    open spec fn spec_name() -> Seq<char> {
        "exo_class_file::parser::tokenimpl::Whitespace"@
    }

    fn name() -> String {
        owned("exo_class_file::parser::tokenimpl::Whitespace")
    }
}

/// The single character whose code point is `C`.
#[derive(Debug, Clone, Copy, PartialEq, Eq)]
pub struct Char<const C: u32>;

impl<const C: u32> View for Char<C> {
    type V = ();

    open spec fn view(&self) -> () {
        ()
    }
}

impl<const C: u32> Parseable for Char<C> {
    open spec fn spec_parse(input: Seq<char>) -> Option<((), nat)> {
        if input.len() >= 1 && input[0] as u32 == C {
            Some(((), 1))
        } else {
            None
        }
    }

    fn parse(s: &mut LexerStream) -> (r: Result<Self, ParsingError>)
        ensures
            old(s).rest().len() >= 1 && old(s).rest()[0] as u32 != C ==> (r matches Err(e)
                && e.error_type matches ParsingErrorType::TokenizerError(m) && m@ == mismatch_text(C, old(s).rest()[0])),
            old(s).rest().len() == 0 ==> (r matches Err(e) && e.error_type is EOSError),
    {
        let c = s.char()?;
        if c as u32 != C {
            return Err(parse_err(s, mismatch_message(C, c)));
        }
        Ok(Self)
    }

    open spec fn spec_name() -> Seq<char> {
        char_token_text(C)
    }

    fn name() -> String {
        char_token_name(C)
    }
}

} // verus!
