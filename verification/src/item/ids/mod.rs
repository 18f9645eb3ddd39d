//! Names and descriptors of classes, fields and methods, parsed from the
//! text of the constant pool.
use vstd::prelude::*;
use crate::parser::error::ParsingError;
use crate::parser::tokens::{Lexer, LexerStream, Parseable};
use crate::parser::tokenimpl::parse_err;
use crate::text::{spec_is_whitespace, is_whitespace, owned};

pub mod class;
pub mod field;
pub mod method;

verus! {

/// Characters banned in identifiers.
pub const BANNED_IDENT_CHARS: [char; 4] = ['.', ';', '[', '/'];

/// Whether `c` is one of [`BANNED_IDENT_CHARS`].
pub open spec fn spec_banned(c: char) -> bool {
    c == '.' || c == ';' || c == '[' || c == '/'
}

/// Whether `c` is one of [`BANNED_IDENT_CHARS`].
pub fn is_banned(c: char) -> (r: bool)
    ensures
        r == spec_banned(c),
{
    let mut i: usize = 0;
    while i < 4
        invariant
            i <= 4,
            forall|j: int| 0 <= j < i ==> BANNED_IDENT_CHARS@[j] != c,
        decreases 4 - i,
    {
        if BANNED_IDENT_CHARS[i] == c {
            return true;
        }
        i = i + 1;
    }
    false
}

/// Whether `c` ends a name: white space, a banned character, or (where
/// `dollar` holds) a `$`.
pub open spec fn name_stop(c: char, dollar: bool) -> bool {
    spec_is_whitespace(c) || spec_banned(c) || (dollar && c == '$')
}

/// How many characters at the front of `input` belong to a name.
pub open spec fn run_len(input: Seq<char>, dollar: bool) -> nat
    decreases input.len(),
{
    if input.len() == 0 || name_stop(input[0], dollar) {
        0
    } else {
        1 + run_len(input.drop_first(), dollar)
    }
}

/// A name is no longer than the input, and the character after it (if
/// any) ends it.
pub proof fn lemma_run_len(input: Seq<char>, dollar: bool)
    ensures
        run_len(input, dollar) <= input.len(),
        run_len(input, dollar) < input.len() ==> name_stop(input[run_len(input, dollar) as int], dollar),
        forall|i: int| 0 <= i < run_len(input, dollar) ==> !name_stop(#[trigger] input[i], dollar),
    decreases input.len(),
{
    if input.len() > 0 && !name_stop(input[0], dollar) {
        lemma_run_len(input.drop_first(), dollar);
        assert forall|i: int| 0 <= i < run_len(input, dollar) implies !name_stop(#[trigger] input[i], dollar) by {
            if i > 0 {
                assert(input[i] == input.drop_first()[i - 1]);
            }
        }
    }
}

/// A name that runs over all of `a` stops where `rest` starts with a
/// character that ends names (or ends).
pub proof fn lemma_run_len_prefix(a: Seq<char>, rest: Seq<char>, dollar: bool)
    requires
        forall|i: int| 0 <= i < a.len() ==> !name_stop(#[trigger] a[i], dollar),
        rest.len() == 0 || name_stop(rest[0], dollar),
    ensures
        run_len(a + rest, dollar) == a.len(),
    decreases a.len(),
{
    if a.len() > 0 {
        assert((a + rest)[0] == a[0]);
        assert((a + rest).drop_first() =~= a.drop_first() + rest);
        assert forall|i: int| 0 <= i < a.drop_first().len() implies !name_stop(#[trigger] a.drop_first()[i], dollar) by {
            assert(a.drop_first()[i] == a[i + 1]);
        }
        lemma_run_len_prefix(a.drop_first(), rest, dollar);
    } else {
        assert(a + rest =~= rest);
    }
}

/// How many characters reading a name from the front of `input` takes: the
/// name and the character that ends it, unless that is a `$` (where `$`
/// ends names) or the characters end.
pub open spec fn name_consumed(input: Seq<char>, dollar: bool) -> nat {
    let k = run_len(input, dollar);
    if k == input.len() || (dollar && input[k as int] == '$') {
        k
    } else {
        k + 1
    }
}

/// What parsing an unqualified name from the front of `input` gives: the
/// characters up to white space, a banned character or the end (the
/// character that ends it is read too); it fails when that is empty.
pub open spec fn spec_unqualified(input: Seq<char>) -> Option<(Seq<char>, nat)> {
    let k = run_len(input, false);
    if k == 0 {
        None
    } else {
        Some((input.take(k as int), name_consumed(input, false)))
    }
}

/// Unqualified name.
#[derive(Debug, Clone, PartialEq, Eq)]
pub struct UnqualifiedName(pub String);

impl View for UnqualifiedName {
    type V = Seq<char>;

    open spec fn view(&self) -> Seq<char> {
        self.0@
    }
}

impl UnqualifiedName {
    /// The name that the whole of `s` starts with, if any.
    pub fn new(s: String) -> (r: Option<Self>)
        ensures
            match spec_unqualified(s@) {
                Some((v, _)) => r matches Some(x) && x@ == v,
                None => r is None,
            },
    {
        let lexer = Lexer::new();
        let mut stream = Lexer::stream(lexer, s);
        assert(stream.rest() =~= s@);
        match stream.token::<UnqualifiedName>() {
            Ok(v) => Some(v.token),
            Err(_) => None,
        }
    }
}

/// Read name characters from the stream until one ends the name (it is read
/// too) or the characters end.
pub(crate) fn read_name(s: &mut LexerStream, dollar: bool) -> (r: String)
    requires
        old(s).wf(),
    ensures
        final(s).wf(),
        final(s).chars == old(s).chars,
        final(s).lexer_state() == old(s).lexer_state(),
        r@ == old(s).rest().take(run_len(old(s).rest(), dollar) as int),
        final(s).position == old(s).position + name_consumed(old(s).rest(), dollar),
{
    let ghost input = old(s).rest();
    let ghost start = old(s).position as int;
    let mut str = String::new();
    proof {
        lemma_run_len(input, dollar);
    }
    loop
        invariant
            s.wf(),
            s.chars == old(s).chars,
            s.lexer_state() == old(s).lexer_state(),
            input == old(s).rest(),
            start == old(s).position,
            start <= s.position,
            s.position - start <= run_len(input, dollar) <= input.len(),
            run_len(input, dollar) < input.len() ==> name_stop(input[run_len(input, dollar) as int], dollar),
            forall|i: int| 0 <= i < run_len(input, dollar) ==> !name_stop(#[trigger] input[i], dollar),
            str@ == input.take(s.position - start),
            s.rest() == input.skip(s.position - start),
        decreases s.chars@.len() - s.position,
    {
        let p = s.position;
        match s.char() {
            Ok(c) => {
                assert(c == input[p - start]);
                if is_whitespace(c) || is_banned(c) || (dollar && c == '$') {
                    if dollar && c == '$' {
                        s.position = p;
                    }
                    return str;
                }
                crate::text::string_push(&mut str, c);
                assert(str@ =~= input.take(s.position - start));
                assert(s.rest() =~= input.skip(s.position - start));
            },
            Err(_) => {
                return str;
            },
        }
    }
}

impl Parseable for UnqualifiedName {
    open spec fn spec_parse(input: Seq<char>) -> Option<(Seq<char>, nat)> {
        spec_unqualified(input)
    }

    fn parse(s: &mut LexerStream) -> (r: Result<Self, ParsingError>) {
        proof {
            lemma_run_len(old(s).rest(), false);
        }
        let str = read_name(s, false);
        if str.as_str().is_empty() {
            return Err(parse_err(s, owned("empty unqualified name")));
        }
        Ok(Self(str))
    }

    open spec fn spec_name() -> Seq<char> {
        "exo_class_file::item::ids::UnqualifiedName"@
    }

    fn name() -> String {
        owned("exo_class_file::item::ids::UnqualifiedName")
    }
}

} // verus!
