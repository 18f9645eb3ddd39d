//! Class names.
use vstd::prelude::*;
use crate::item::views;
use crate::parser::error::{ParsingError, ParsingErrorType};
use crate::parser::tokens::{LexerStream, Parseable, parsed_as, lexer_kept};
use crate::parser::tokenimpl::Char;
use crate::text::owned;
use crate::item::ids::{run_len, name_consumed, read_name, lemma_run_len, name_stop, lemma_run_len_prefix};
use crate::item::ids::field::{FieldDescriptor, FieldTypeV, spec_field_type, keep_greatest};

verus! {

/// Section of a class name: the characters up to white space, a banned
/// character, a `$` or the end (the character that ends it is read too,
/// unless it is a `$`).
#[derive(Debug)]
pub struct ClassNameSection(pub String);

impl View for ClassNameSection {
    type V = Seq<char>;

    open spec fn view(&self) -> Seq<char> {
        self.0@
    }
}

impl Parseable for ClassNameSection {
    open spec fn spec_parse(input: Seq<char>) -> Option<(Seq<char>, nat)> {
        Some((input.take(run_len(input, true) as int), name_consumed(input, true)))
    }

    fn parse(s: &mut LexerStream) -> (r: Result<Self, ParsingError>) {
        let str = read_name(s, true);
        Ok(Self(str))
    }

    open spec fn spec_name() -> Seq<char> {
        "exo_class_file::item::ids::class::ClassNameSection"@
    }

    fn name() -> String {
        owned("exo_class_file::item::ids::class::ClassNameSection")
    }
}

/// A class name.
#[derive(Debug, PartialEq, Eq)]
pub struct ClassName {
    /// The package of this class.
    pub package: Vec<String>,
    /// This class's name.
    pub class_name: String,
    /// Inner class, if any.
    pub inner_class: Option<Box<ClassName>>,
}

/// Mathematical form of [`ClassName`].
pub struct ClassNameV {
    pub package: Seq<Seq<char>>,
    pub class_name: Seq<char>,
    pub inner_class: Option<Box<ClassNameV>>,
}

/// The mathematical form of a class name.
pub open spec fn class_name_view(c: ClassName) -> ClassNameV
    decreases c,
{
    ClassNameV {
        package: views(c.package@),
        class_name: c.class_name@,
        inner_class: match c.inner_class {
            Some(b) => Some(Box::new(class_name_view(*b))),
            None => None,
        },
    }
}

impl View for ClassName {
    type V = ClassNameV;

    open spec fn view(&self) -> ClassNameV {
        class_name_view(*self)
    }
}

/// The class name made of the sections read so far (the last is the class's
/// own name), if there is one.
pub open spec fn finish_class_name(list: Seq<Seq<char>>, inner: Option<Box<ClassNameV>>, used: nat) -> Option<(ClassNameV, nat)> {
    if list.len() == 0 {
        None
    } else {
        Some((ClassNameV { package: list.drop_last(), class_name: list.last(), inner_class: inner }, used))
    }
}

/// Parsing the sections of a class name from `r`, with `list` read so far
/// and `used` characters taken: a `$` after a section starts an inner class
/// name; an empty section ends the name.
pub open spec fn class_name_sections(r: Seq<char>, list: Seq<Seq<char>>, used: nat) -> Option<(ClassNameV, nat)>
    decreases r.len(), 0nat,
{
    let k = run_len(r, true);
    let n = name_consumed(r, true);
    let r1 = r.skip(n as int);
    let list1 = list.push(r.take(k as int));
    if n > r.len() {
        None
    } else if r1.len() >= 1 && r1[0] as u32 == 0x24 {
        match spec_class_name(r1.skip(1)) {
            Some((inner, m)) => finish_class_name(list1, Some(Box::new(inner)), used + n + 1 + m),
            None => None,
        }
    } else if k == 0 {
        finish_class_name(list, None, used + n)
    } else {
        class_name_sections(r1, list1, used + n)
    }
}

/// What parsing a class name from the front of `r` gives: sections parted
/// by `/` (or another banned character), then optionally `$` and an inner
/// class name.
pub open spec fn spec_class_name(r: Seq<char>) -> Option<(ClassNameV, nat)>
    decreases r.len(), 1nat,
{
    class_name_sections(r, seq![], 0)
}

/// A class name is its sections parted by `/`, the last the class's own
/// name and those before it the package; a `$` after the class's name
/// starts the name of an inner class. Here for names `a` and `b` (of
/// characters that end no name): `b` alone, `a/b`, and `a$b`.
pub proof fn law_class_name_sections(a: Seq<char>, b: Seq<char>)
    requires
        a.len() >= 1,
        b.len() >= 1,
        forall|i: int| 0 <= i < a.len() ==> !name_stop(#[trigger] a[i], true),
        forall|i: int| 0 <= i < b.len() ==> !name_stop(#[trigger] b[i], true),
    ensures
        spec_class_name(b) == Some((ClassNameV { package: seq![], class_name: b, inner_class: None }, b.len())),
        spec_class_name(a + seq!['/'] + b)
            == Some((ClassNameV { package: seq![a], class_name: b, inner_class: None }, a.len() + 1 + b.len())),
        spec_class_name(a + seq!['$'] + b) == Some((ClassNameV {
            package: seq![],
            class_name: a,
            inner_class: Some(Box::new(ClassNameV { package: seq![], class_name: b, inner_class: None })),
        }, a.len() + 1 + b.len())),
{
    // `b` alone.
    lemma_sections_of(b, seq![], 0);
    assert(seq![].push(b).drop_last() =~= Seq::<Seq<char>>::empty());
    // `a/b`.
    let slash = a + seq!['/'] + b;
    assert(slash =~= a + (seq!['/'] + b));
    assert((seq!['/'] + b)[0] == '/');
    lemma_run_len_prefix(a, seq!['/'] + b, true);
    assert(slash[a.len() as int] == '/');
    assert(slash.skip(a.len() + 1int) =~= b);
    assert(slash.take(a.len() as int) =~= a);
    vstd::utf8::char_u32_cast(b[0], b[0] as u32);
    assert(b[0] != '$');
    assert(name_consumed(slash, true) == a.len() + 1);
    assert(Seq::<Seq<char>>::empty().push(a) =~= seq![a]);
    lemma_sections_of(b, seq![a], a.len() + 1);
    assert(seq![a].push(b).drop_last() =~= seq![a]);
    // `a$b`.
    let dollar = a + seq!['$'] + b;
    assert(dollar =~= a + (seq!['$'] + b));
    assert((seq!['$'] + b)[0] == '$');
    lemma_run_len_prefix(a, seq!['$'] + b, true);
    assert(dollar[a.len() as int] == '$');
    assert(dollar.skip(a.len() as int) =~= seq!['$'] + b);
    assert((seq!['$'] + b).skip(1) =~= b);
    assert(dollar.take(a.len() as int) =~= a);
    assert(name_consumed(dollar, true) == a.len());
    assert(seq![a].drop_last() =~= Seq::<Seq<char>>::empty());
}

/// The sections of a class name of one more section `b`, after `list`.
proof fn lemma_sections_of(b: Seq<char>, list: Seq<Seq<char>>, used: nat)
    requires
        b.len() >= 1,
        forall|i: int| 0 <= i < b.len() ==> !name_stop(#[trigger] b[i], true),
    ensures
        class_name_sections(b, list, used) == finish_class_name(list.push(b), None, used + b.len()),
{
    let empty = Seq::<char>::empty();
    lemma_run_len_prefix(b, empty, true);
    assert(b + empty =~= b);
    assert(b.skip(b.len() as int) =~= empty);
    assert(b.take(b.len() as int) =~= b);
    assert(run_len(empty, true) == 0);
    assert(empty.skip(0) =~= empty);
    assert(class_name_sections(empty, list.push(b), used + b.len()) == finish_class_name(list.push(b), None, used + b.len()));
}

/// The name under which class names are recorded while they are parsed.
fn class_name_token_name() -> (r: String)
    ensures
        r@ == "exo_class_file::item::ids::class::ClassName"@,
{
    owned("exo_class_file::item::ids::class::ClassName")
}

/// Parse a class name as a token of its own (recorded in the lexer while
/// it is parsed); on failure the stream stands where it started.
fn class_name_token(s: &mut LexerStream) -> (r: Result<ClassName, ParsingError>)
    requires
        old(s).wf(),
    ensures
        final(s).wf(),
        final(s).chars@ == old(s).chars@,
        lexer_kept(old(s).lexer_state(), final(s).lexer_state()),
        match spec_class_name(old(s).rest()) {
            Some((v, n)) => r matches Ok(x) && x@ == v && final(s).position == old(s).position + n,
            None => r is Err && final(s).position == old(s).position,
        },
    decreases old(s).rest().len(), 1nat,
{
    let start = s.begin_token(class_name_token_name());
    match parse_class_name(s) {
        Ok(v) => {
            s.end_token_ok();
            assert(s.lexer_state().names() =~= old(s).lexer_state().names());
            Ok(v)
        },
        Err(e) => {
            s.end_token_err(start);
            assert(s.lexer_state().names() =~= old(s).lexer_state().names());
            assert(s.lexer_state().counts() =~= old(s).lexer_state().counts());
            Err(e)
        },
    }
}

/// Parse a class name.
fn parse_class_name(s: &mut LexerStream) -> (r: Result<ClassName, ParsingError>)
    requires
        old(s).wf(),
    ensures
        parsed_as(*old(s), *final(s), r, spec_class_name(old(s).rest())),
    decreases old(s).rest().len(), 0nat,
{
    let ghost r0 = old(s).rest();
    let ghost start = old(s).position as int;
    let mut list: Vec<String> = Vec::new();
    let mut inner_class: Option<Box<ClassName>> = None;
    assert(views(list@) =~= Seq::<Seq<char>>::empty());
    loop
        invariant_except_break
            s.wf(),
            s.chars@ == old(s).chars@,
            lexer_kept(old(s).lexer_state(), s.lexer_state()),
            r0 == old(s).rest(),
            start == old(s).position,
            start <= s.position,
            s.rest() == r0.skip(s.position - start),
            spec_class_name(r0) == class_name_sections(s.rest(), views(list@), (s.position - start) as nat),
            inner_class is None,
        ensures
            s.wf(),
            s.chars@ == old(s).chars@,
            lexer_kept(old(s).lexer_state(), s.lexer_state()),
            spec_class_name(r0) == finish_class_name(views(list@), match inner_class {
                Some(b) => Some(Box::new(class_name_view(*b))),
                None => None,
            }, (s.position - start) as nat),
            s.position >= start,
        decreases s.chars@.len() - s.position,
    {
        let ghost r = s.rest();
        let ghost used = (s.position - start) as nat;
        let ghost pos0 = s.position as int;
        proof {
            lemma_run_len(r, true);
        }
        let sec = match s.token::<ClassNameSection>() {
            Ok(t) => t,
            Err(e) => {
                return Err(e.0);
            },
        };
        let ghost prev = list@;
        list.push(sec.token.0);
        assert(views(list@) =~= views(prev).push(r.take(run_len(r, true) as int)));
        assert(s.rest() =~= r.skip(name_consumed(r, true) as int));
        assert(s.rest() =~= r0.skip(s.position - start));
        match s.token::<Char<0x24>>() {
            Ok(_) => {
                let ghost r1 = r.skip(name_consumed(r, true) as int);
                assert(r1[0] as u32 == 0x24);
                assert(s.rest() =~= r1.skip(1));
                assert(class_name_sections(r, views(prev), used) == match spec_class_name(r1.skip(1)) {
                    Some((inner, m)) => finish_class_name(views(list@), Some(Box::new(inner)), used + name_consumed(r, true) + 1 + m),
                    None => None,
                });
                match class_name_token(s) {
                    Ok(t) => {
                        inner_class = Some(Box::new(t));
                        break ;
                    },
                    Err(e) => {
                        return Err(e);
                    },
                }
            },
            Err(_) => {},
        }
        let n = list.len();
        if list[n - 1].as_str().is_empty() {
            let ghost prev2 = list@;
            list.pop();
            assert(views(list@) =~= views(prev2).drop_last());
            assert(views(list@) =~= views(prev));
            break ;
        }
    }
    let ghost lv = views(list@);
    let class_name = match list.pop() {
        Some(v) => v,
        None => {
            return Err(ParsingErrorType::GenericError(owned("")).to(s));
        },
    };
    assert(views(list@) =~= lv.drop_last());
    Ok(ClassName { class_name, package: list, inner_class })
}

impl Parseable for ClassName {
    open spec fn spec_parse(input: Seq<char>) -> Option<(ClassNameV, nat)> {
        spec_class_name(input)
    }

    fn parse(s: &mut LexerStream) -> (r: Result<Self, ParsingError>) {
        parse_class_name(s)
    }

    open spec fn spec_name() -> Seq<char> {
        "exo_class_file::item::ids::class::ClassName"@
    }

    fn name() -> String {
        class_name_token_name()
    }
}

/// What a class reference names: a class, or an array type.
#[derive(Debug, PartialEq, Eq)]
pub enum ClassRefName {
    Class(ClassName),
    Array(FieldDescriptor),
}

/// Mathematical form of [`ClassRefName`].
pub enum ClassRefNameV {
    Class(ClassNameV),
    Array(FieldTypeV),
}

impl View for ClassRefName {
    type V = ClassRefNameV;

    open spec fn view(&self) -> ClassRefNameV {
        match self {
            ClassRefName::Class(c) => ClassRefNameV::Class(c@),
            ClassRefName::Array(f) => ClassRefNameV::Array(f@),
        }
    }
}

/// What parsing a class reference from the front of `input` gives: a class
/// name, else a field descriptor.
pub open spec fn spec_class_ref_name(input: Seq<char>) -> Option<(ClassRefNameV, nat)> {
    match spec_class_name(input) {
        Some((c, n)) => Some((ClassRefNameV::Class(c), n)),
        None => match spec_field_type(input) {
            Some((f, n)) => Some((ClassRefNameV::Array(f), n)),
            None => None,
        },
    }
}

impl Parseable for ClassRefName {
    open spec fn spec_parse(input: Seq<char>) -> Option<(ClassRefNameV, nat)> {
        spec_class_ref_name(input)
    }

    fn parse(s: &mut LexerStream) -> (r: Result<Self, ParsingError>) {
        let greatest = match s.token::<ClassName>() {
            Ok(v) => {
                return Ok(ClassRefName::Class(v.token));
            },
            Err(c) => c,
        };
        let greatest = match s.token::<FieldDescriptor>() {
            Ok(v) => {
                return Ok(ClassRefName::Array(v.token));
            },
            Err(c) => keep_greatest(greatest, c),
        };
        Err(greatest.0)
    }

    open spec fn spec_name() -> Seq<char> {
        "exo_class_file::item::ids::class::ClassRefName"@
    }

    fn name() -> String {
        owned("exo_class_file::item::ids::class::ClassRefName")
    }
}

} // verus!
