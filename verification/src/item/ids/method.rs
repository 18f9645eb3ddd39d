//! Method descriptors and method names.
use vstd::prelude::*;
use crate::item::ids::{UnqualifiedName, spec_unqualified};
use crate::item::ids::field::{FieldType, FieldTypeV, spec_field_type, keep_greatest, lemma_field_type_len};
use crate::parser::error::ParsingError;
use crate::parser::tokens::{LexerStream, Parseable, lexer_kept, enclosed, spec_enclosed, lemma_spec_enclosed};
use crate::parser::tokenimpl::{Char, parse_err};
use crate::text::owned;

verus! {

/// The return descriptor of a method that returns nothing: `V`.
pub type VoidDescriptor = Char<0x56>;

/// The descriptor of one parameter of a method.
pub type ParameterDescriptor = FieldType;

/// Return descriptor.
#[derive(Debug, PartialEq, Eq)]
pub enum ReturnDescriptor {
    Field(FieldType),
    Void(VoidDescriptor),
}

/// Mathematical form of [`ReturnDescriptor`].
pub enum ReturnDescriptorV {
    Field(FieldTypeV),
    Void,
}

impl View for ReturnDescriptor {
    type V = ReturnDescriptorV;

    open spec fn view(&self) -> ReturnDescriptorV {
        match self {
            ReturnDescriptor::Field(f) => ReturnDescriptorV::Field(f@),
            ReturnDescriptor::Void(_) => ReturnDescriptorV::Void,
        }
    }
}

/// What parsing a return descriptor from the front of `input` gives: a
/// field type, else `V`.
pub open spec fn spec_return_descriptor(input: Seq<char>) -> Option<(ReturnDescriptorV, nat)> {
    match spec_field_type(input) {
        Some((f, n)) => Some((ReturnDescriptorV::Field(f), n)),
        None => if input.len() >= 1 && input[0] as u32 == 0x56 {
            Some((ReturnDescriptorV::Void, 1))
        } else {
            None
        },
    }
}

/// `V` alone is the void return descriptor; every field type is a return
/// descriptor too.
pub proof fn law_return_void(input: Seq<char>)
    requires
        input.len() >= 1,
    ensures
        input[0] == 'V' ==> spec_return_descriptor(input) == Some((ReturnDescriptorV::Void, 1nat)),
        spec_field_type(input) matches Some((f, n)) ==> spec_return_descriptor(input) == Some((ReturnDescriptorV::Field(f), n)),
{
    if input[0] == 'V' {
        crate::item::ids::field::law_base_type_letters(input);
        assert(spec_field_type(input) is None);
    }
}

impl Parseable for ReturnDescriptor {
    open spec fn spec_parse(input: Seq<char>) -> Option<(ReturnDescriptorV, nat)> {
        spec_return_descriptor(input)
    }

    fn parse(s: &mut LexerStream) -> (r: Result<Self, ParsingError>) {
        let greatest = match s.token::<FieldType>() {
            Ok(v) => {
                return Ok(ReturnDescriptor::Field(v.token));
            },
            Err(c) => c,
        };
        let greatest = match s.token::<VoidDescriptor>() {
            Ok(v) => {
                return Ok(ReturnDescriptor::Void(v.token));
            },
            Err(c) => keep_greatest(greatest, c),
        };
        Err(greatest.0)
    }

    open spec fn spec_name() -> Seq<char> {
        "exo_class_file::item::ids::method::ReturnDescriptor"@
    }

    fn name() -> String {
        owned("exo_class_file::item::ids::method::ReturnDescriptor")
    }
}

/// The views of a sequence of field types.
pub open spec fn field_type_views(s: Seq<FieldType>) -> Seq<FieldTypeV> {
    s.map_values(|f: FieldType| f@)
}

/// What parsing parameter descriptors one after another until the
/// characters end gives: all of them, or `None` where one fails.
pub open spec fn spec_parameters(content: Seq<char>) -> Option<Seq<FieldTypeV>>
    decreases content.len(),
{
    if content.len() == 0 {
        Some(Seq::empty())
    } else {
        match spec_field_type(content) {
            Some((f, n)) => if 1 <= n <= content.len() {
                match spec_parameters(content.skip(n as int)) {
                    Some(rest) => Some(seq![f] + rest),
                    None => None,
                }
            } else {
                None
            },
            None => None,
        }
    }
}

/// A method descriptor contains zero or more parameter descriptors,
/// representing the types of parameters that the method takes, and a
/// return descriptor, representing the type of the value (if any) that the
/// method returns.
#[derive(Debug, PartialEq, Eq)]
pub struct MethodDescriptor {
    pub parameters: Vec<ParameterDescriptor>,
    pub return_desc: ReturnDescriptor,
}

/// Mathematical form of [`MethodDescriptor`].
pub struct MethodDescriptorV {
    pub parameters: Seq<FieldTypeV>,
    pub return_desc: ReturnDescriptorV,
}

impl View for MethodDescriptor {
    type V = MethodDescriptorV;

    open spec fn view(&self) -> MethodDescriptorV {
        MethodDescriptorV { parameters: field_type_views(self.parameters@), return_desc: self.return_desc@ }
    }
}

/// What parsing a method descriptor from the front of `input` gives: the
/// parameter descriptors between `(` and the `)` that closes it, then a
/// return descriptor.
pub open spec fn spec_method_descriptor(input: Seq<char>) -> Option<(MethodDescriptorV, nat)> {
    match spec_enclosed(input, 0x28, 0x29) {
        Some((content, n)) => match spec_parameters(content) {
            Some(ps) => match spec_return_descriptor(input.skip(n as int)) {
                Some((rd, m)) => Some((MethodDescriptorV { parameters: ps, return_desc: rd }, n + m)),
                None => None,
            },
            None => None,
        },
        None => None,
    }
}

/// Parse parameter descriptors from `par` until its characters end.
fn parse_parameters(par: &mut LexerStream) -> (r: Result<Vec<ParameterDescriptor>, ParsingError>)
    requires
        old(par).wf(),
    ensures
        final(par).wf(),
        final(par).chars@ == old(par).chars@,
        lexer_kept(old(par).lexer_state(), final(par).lexer_state()),
        match spec_parameters(old(par).rest()) {
            Some(ps) => r matches Ok(v) && field_type_views(v@) == ps,
            None => r is Err,
        },
{
    let ghost r0 = old(par).rest();
    let mut params: Vec<ParameterDescriptor> = Vec::new();
    assert(field_type_views(params@) =~= Seq::<FieldTypeV>::empty());
    while !par.ended()
        invariant
            par.wf(),
            par.chars@ == old(par).chars@,
            lexer_kept(old(par).lexer_state(), par.lexer_state()),
            r0 == old(par).rest(),
            spec_parameters(r0) == match spec_parameters(par.rest()) {
                Some(rest) => Some(field_type_views(params@) + rest),
                None => None,
            },
        decreases par.chars@.len() - par.position,
    {
        let ghost rest = par.rest();
        proof {
            lemma_field_type_len(rest);
        }
        let t = match par.token::<ParameterDescriptor>() {
            Ok(t) => t,
            Err(e) => {
                return Err(e.0);
            },
        };
        let ghost prev = params@;
        params.push(t.token);
        proof {
            let n = spec_field_type(rest).unwrap().1;
            assert(par.rest() =~= rest.skip(n as int));
            assert(field_type_views(params@) =~= field_type_views(prev).push(t.token@));
            match spec_parameters(par.rest()) {
                Some(more) => {
                    assert(field_type_views(params@) + more =~= field_type_views(prev) + (seq![t.token@] + more));
                },
                None => {},
            }
        }
    }
    assert(par.rest().len() == 0);
    assert(field_type_views(params@) + Seq::<FieldTypeV>::empty() =~= field_type_views(params@));
    Ok(params)
}

impl Parseable for MethodDescriptor {
    open spec fn spec_parse(input: Seq<char>) -> Option<(MethodDescriptorV, nat)> {
        spec_method_descriptor(input)
    }

    fn parse(s: &mut LexerStream) -> (r: Result<Self, ParsingError>) {
        let mut par = enclosed::<0x28, 0x29>(s)?;
        assert(par.rest() =~= par.chars@);
        let params = parse_parameters(&mut par);
        s.rejoin(par);
        let parameters = params?;
        proof {
            lemma_spec_enclosed(old(s).rest(), 0x28, 0x29);
            let n = spec_enclosed(old(s).rest(), 0x28, 0x29).unwrap().1;
            assert(s.rest() =~= old(s).rest().skip(n as int));
        }
        let return_desc = match s.token::<ReturnDescriptor>() {
            Ok(t) => t.token,
            Err(e) => {
                return Err(e.0);
            },
        };
        Ok(Self { parameters, return_desc })
    }

    open spec fn spec_name() -> Seq<char> {
        "exo_class_file::item::ids::method::MethodDescriptor"@
    }

    fn name() -> String {
        owned("exo_class_file::item::ids::method::MethodDescriptor")
    }
}

/// Method name.
#[derive(Debug, PartialEq, Eq)]
pub enum MethodName {
    Clinit,
    Init,
    Generic(UnqualifiedName),
}

/// Mathematical form of [`MethodName`].
pub enum MethodNameV {
    Clinit,
    Init,
    Generic(Seq<char>),
}

impl View for MethodName {
    type V = MethodNameV;

    open spec fn view(&self) -> MethodNameV {
        match self {
            MethodName::Clinit => MethodNameV::Clinit,
            MethodName::Init => MethodNameV::Init,
            MethodName::Generic(n) => MethodNameV::Generic(n@),
        }
    }
}

/// The characters of `clinit`.
pub open spec fn clinit_word() -> Seq<char> {
    seq!['c', 'l', 'i', 'n', 'i', 't']
}

/// The characters of `init`.
pub open spec fn init_word() -> Seq<char> {
    seq!['i', 'n', 'i', 't']
}

/// What parsing a method name from the front of `input` gives: after `<`,
/// the unqualified name read from the characters up to the `>` that closes
/// it, which must be `clinit` or `init`; otherwise an unqualified name.
pub open spec fn spec_method_name(input: Seq<char>) -> Option<(MethodNameV, nat)> {
    if input.len() >= 1 && input[0] as u32 == 0x3c {
        match spec_enclosed(input, 0x3c, 0x3e) {
            Some((content, n)) => match spec_unqualified(content) {
                Some((name, _)) => if name == clinit_word() {
                    Some((MethodNameV::Clinit, n))
                } else if name == init_word() {
                    Some((MethodNameV::Init, n))
                } else {
                    None
                },
                None => None,
            },
            None => None,
        }
    } else {
        match spec_unqualified(input) {
            Some((name, n)) => Some((MethodNameV::Generic(name), n)),
            None => None,
        }
    }
}

/// `<init>` names the instance initialiser and `<clinit>` the class
/// initialiser, whatever follows them.
pub proof fn law_special_method_names(input: Seq<char>)
    ensures
        input.len() >= 6 && input.take(6) == seq!['<', 'i', 'n', 'i', 't', '>']
            ==> spec_method_name(input) == Some((MethodNameV::Init, 6nat)),
        input.len() >= 8 && input.take(8) == seq!['<', 'c', 'l', 'i', 'n', 'i', 't', '>']
            ==> spec_method_name(input) == Some((MethodNameV::Clinit, 8nat)),
{
    if input.len() >= 6 && input.take(6) == seq!['<', 'i', 'n', 'i', 't', '>'] {
        assert(input[0] == '<' && input[1] == 'i' && input[2] == 'n' && input[3] == 'i' && input[4] == 't' && input[5] == '>');
        reveal_with_fuel(crate::parser::tokens::enclosed_scan, 6);
        let content = input.subrange(1, 5);
        assert(content =~= init_word());
        reveal_with_fuel(crate::item::ids::run_len, 5);
        assert(content.drop_first().drop_first().drop_first().drop_first().len() == 0);
        assert(crate::item::ids::run_len(content, false) == 4);
        assert(content.take(4) =~= init_word());
        assert(init_word() != clinit_word());
    }
    if input.len() >= 8 && input.take(8) == seq!['<', 'c', 'l', 'i', 'n', 'i', 't', '>'] {
        assert(input[0] == '<' && input[1] == 'c' && input[2] == 'l' && input[3] == 'i' && input[4] == 'n' && input[5] == 'i'
            && input[6] == 't' && input[7] == '>');
        reveal_with_fuel(crate::parser::tokens::enclosed_scan, 8);
        let content = input.subrange(1, 7);
        assert(content =~= clinit_word());
        reveal_with_fuel(crate::item::ids::run_len, 7);
        assert(content.drop_first().drop_first().drop_first().drop_first().drop_first().drop_first().len() == 0);
        assert(crate::item::ids::run_len(content, false) == 6);
        assert(content.take(6) =~= clinit_word());
    }
}

/// Whether `s` is `clinit`.
fn is_clinit_word(s: &String) -> (r: bool)
    ensures
        r == (s@ == clinit_word()),
{
    proof {
        reveal_strlit("clinit");
    }
    let lit = owned("clinit");
    assert(lit@ =~= clinit_word());
    *s == lit
}

/// Whether `s` is `init`.
fn is_init_word(s: &String) -> (r: bool)
    ensures
        r == (s@ == init_word()),
{
    proof {
        reveal_strlit("init");
    }
    let lit = owned("init");
    assert(lit@ =~= init_word());
    *s == lit
}

impl Parseable for MethodName {
    open spec fn spec_parse(input: Seq<char>) -> Option<(MethodNameV, nat)> {
        spec_method_name(input)
    }

    fn parse(s: &mut LexerStream) -> (r: Result<Self, ParsingError>) {
        if s.token::<Char<0x3c>>().is_ok() {
            s.position = s.position - 1;
            let mut enc = enclosed::<0x3c, 0x3e>(s)?;
            assert(enc.rest() =~= enc.chars@);
            let name = enc.token::<UnqualifiedName>();
            s.rejoin(enc);
            let name = match name {
                Ok(t) => t.token,
                Err(e) => {
                    return Err(e.0);
                },
            };
            if is_clinit_word(&name.0) {
                Ok(Self::Clinit)
            } else if is_init_word(&name.0) {
                Ok(Self::Init)
            } else {
                Err(parse_err(s, owned("bad method name")))
            }
        } else {
            match s.token::<UnqualifiedName>() {
                Ok(t) => Ok(Self::Generic(t.token)),
                Err(e) => Err(e.0),
            }
        }
    }

    open spec fn spec_name() -> Seq<char> {
        "exo_class_file::item::ids::method::MethodName"@
    }

    fn name() -> String {
        owned("exo_class_file::item::ids::method::MethodName")
    }
}

} // verus!
