//! Field descriptors: base, object and array types.
use vstd::prelude::*;
use crate::item::ids::class::{ClassName, ClassNameV, spec_class_name};
use crate::parser::error::ParsingError;
use crate::parser::tokens::{LexerStream, Parseable, parsed_as, lexer_kept, delimited, spec_delimited, lemma_spec_delimited};
use crate::parser::tokenimpl::Char;
use crate::text::owned;

verus! {

/// Base types.
#[derive(Debug, Clone, Copy, Hash, PartialEq, Eq, Structural, PartialOrd, Ord)]
pub enum BaseType {
    Byte,
    Char,
    Double,
    Float,
    Int,
    Long,
    Short,
    Boolean,
}

impl View for BaseType {
    type V = BaseType;

    open spec fn view(&self) -> BaseType {
        *self
    }
}

/// The base type that the character with code `c` stands for, if any.
pub open spec fn base_type_of(c: u32) -> Option<BaseType> {
    if c == 0x42 {
        Some(BaseType::Byte)
    } else if c == 0x43 {
        Some(BaseType::Char)
    } else if c == 0x44 {
        Some(BaseType::Double)
    } else if c == 0x46 {
        Some(BaseType::Float)
    } else if c == 0x49 {
        Some(BaseType::Int)
    } else if c == 0x4a {
        Some(BaseType::Long)
    } else if c == 0x53 {
        Some(BaseType::Short)
    } else if c == 0x5a {
        Some(BaseType::Boolean)
    } else {
        None
    }
}

/// What parsing a base type from the front of `input` gives: one of the
/// characters `B C D F I J S Z`.
pub open spec fn spec_base_type(input: Seq<char>) -> Option<(BaseType, nat)> {
    if input.len() >= 1 {
        match base_type_of(input[0] as u32) {
            Some(b) => Some((b, 1)),
            None => None,
        }
    } else {
        None
    }
}

/// Of two failed alternatives, the one that parsed more sub-tokens (the
/// first where they parsed as many).
pub(crate) fn keep_greatest(greatest: (ParsingError, usize), c: (ParsingError, usize)) -> (r: (ParsingError, usize))
    ensures
        r.1 == if c.1 > greatest.1 { c.1 } else { greatest.1 },
{
    if c.1 > greatest.1 {
        c
    } else {
        greatest
    }
}

impl Parseable for BaseType {
    open spec fn spec_parse(input: Seq<char>) -> Option<(BaseType, nat)> {
        spec_base_type(input)
    }

    fn parse(s: &mut LexerStream) -> (r: Result<Self, ParsingError>) {
        let greatest = match s.token::<Char<0x42>>() {
            Ok(_) => {
                return Ok(BaseType::Byte);
            },
            Err(c) => c,
        };
        let greatest = match s.token::<Char<0x43>>() {
            Ok(_) => {
                return Ok(BaseType::Char);
            },
            Err(c) => keep_greatest(greatest, c),
        };
        let greatest = match s.token::<Char<0x44>>() {
            Ok(_) => {
                return Ok(BaseType::Double);
            },
            Err(c) => keep_greatest(greatest, c),
        };
        let greatest = match s.token::<Char<0x46>>() {
            Ok(_) => {
                return Ok(BaseType::Float);
            },
            Err(c) => keep_greatest(greatest, c),
        };
        let greatest = match s.token::<Char<0x49>>() {
            Ok(_) => {
                return Ok(BaseType::Int);
            },
            Err(c) => keep_greatest(greatest, c),
        };
        let greatest = match s.token::<Char<0x4a>>() {
            Ok(_) => {
                return Ok(BaseType::Long);
            },
            Err(c) => keep_greatest(greatest, c),
        };
        let greatest = match s.token::<Char<0x53>>() {
            Ok(_) => {
                return Ok(BaseType::Short);
            },
            Err(c) => keep_greatest(greatest, c),
        };
        let greatest = match s.token::<Char<0x5a>>() {
            Ok(_) => {
                return Ok(BaseType::Boolean);
            },
            Err(c) => keep_greatest(greatest, c),
        };
        Err(greatest.0)
    }

    open spec fn spec_name() -> Seq<char> {
        "exo_class_file::item::ids::field::BaseType"@
    }

    fn name() -> String {
        owned("exo_class_file::item::ids::field::BaseType")
    }
}

/// Object type.
#[derive(Debug, PartialEq, Eq)]
pub struct ObjectType {
    pub class_name: ClassName,
}

impl View for ObjectType {
    type V = ClassNameV;

    open spec fn view(&self) -> ClassNameV {
        self.class_name@
    }
}

/// What parsing an object type from the front of `input` gives: `L`, then
/// a class name read from the characters up to the first `;` (what follows
/// the name there is not read), then that `;`.
pub open spec fn spec_object_type(input: Seq<char>) -> Option<(ClassNameV, nat)> {
    match spec_delimited(input, 0x4c, 0x3b) {
        Some((content, n)) => match spec_class_name(content) {
            Some((c, _)) => Some((c, n)),
            None => None,
        },
        None => None,
    }
}

impl Parseable for ObjectType {
    open spec fn spec_parse(input: Seq<char>) -> Option<(ClassNameV, nat)> {
        spec_object_type(input)
    }

    fn parse(s: &mut LexerStream) -> (r: Result<Self, ParsingError>) {
        let mut par = delimited::<0x4c, 0x3b>(s)?;
        assert(par.rest() =~= par.chars@);
        let name = par.token::<ClassName>();
        s.rejoin(par);
        match name {
            Ok(t) => Ok(Self { class_name: t.token }),
            Err(e) => Err(e.0),
        }
    }

    open spec fn spec_name() -> Seq<char> {
        "exo_class_file::item::ids::field::ObjectType"@
    }

    fn name() -> String {
        owned("exo_class_file::item::ids::field::ObjectType")
    }
}

/// Array type.
#[derive(Debug, PartialEq, Eq)]
pub struct ArrayType(pub ComponentType);

/// The type of an array's components.
pub type ComponentType = Box<FieldType>;

/// Field type.
#[derive(Debug, PartialEq, Eq)]
pub enum FieldType {
    BaseType(BaseType),
    ObjectType(ObjectType),
    ArrayType(ArrayType),
}

/// A field descriptor represents the type of a class, instance, or local variable.
pub type FieldDescriptor = FieldType;

/// Mathematical form of [`FieldType`].
pub enum FieldTypeV {
    BaseType(BaseType),
    ObjectType(ClassNameV),
    ArrayType(Box<FieldTypeV>),
}

/// The mathematical form of a field type.
pub open spec fn field_type_view(f: FieldType) -> FieldTypeV
    decreases f,
{
    match f {
        FieldType::BaseType(b) => FieldTypeV::BaseType(b),
        FieldType::ObjectType(o) => FieldTypeV::ObjectType(o@),
        FieldType::ArrayType(a) => FieldTypeV::ArrayType(Box::new(field_type_view(*a.0))),
    }
}

impl View for FieldType {
    type V = FieldTypeV;

    open spec fn view(&self) -> FieldTypeV {
        field_type_view(*self)
    }
}

impl View for ArrayType {
    type V = FieldTypeV;

    /// The array's component type.
    open spec fn view(&self) -> FieldTypeV {
        field_type_view(*self.0)
    }
}

/// What parsing an array type from the front of `input` gives: `[`, then
/// the component type.
pub open spec fn spec_array_type(input: Seq<char>) -> Option<(FieldTypeV, nat)>
    decreases input.len(), 0nat,
{
    if input.len() >= 1 && input[0] as u32 == 0x5b {
        match spec_field_type(input.skip(1)) {
            Some((f, n)) => Some((f, n + 1)),
            None => None,
        }
    } else {
        None
    }
}

/// What parsing a field type from the front of `input` gives: a base type,
/// else an object type, else an array type.
pub open spec fn spec_field_type(input: Seq<char>) -> Option<(FieldTypeV, nat)>
    decreases input.len(), 1nat,
{
    match spec_base_type(input) {
        Some((b, n)) => Some((FieldTypeV::BaseType(b), n)),
        None => match spec_object_type(input) {
            Some((c, n)) => Some((FieldTypeV::ObjectType(c), n)),
            None => match spec_array_type(input) {
                Some((f, n)) => Some((FieldTypeV::ArrayType(Box::new(f)), n)),
                None => None,
            },
        },
    }
}

/// A field type that parses takes at least one character, and no more
/// than there are.
pub proof fn lemma_field_type_len(input: Seq<char>)
    ensures
        spec_field_type(input) matches Some((_, n)) ==> 1 <= n <= input.len(),
        spec_array_type(input) matches Some((_, n)) ==> 1 <= n <= input.len(),
    decreases input.len(),
{
    lemma_spec_delimited(input, 0x4c, 0x3b);
    if input.len() >= 1 {
        lemma_field_type_len(input.skip(1));
    }
}

/// Each base-type character stands for the type that the class file format
/// gives it: `B` byte, `C` char, `D` double, `F` float, `I` int, `J` long,
/// `S` short, `Z` boolean. Parsing takes that one character, as a base type
/// and as a field type, and no other character is a base type.
pub proof fn law_base_type_letters(input: Seq<char>)
    requires
        input.len() >= 1,
    ensures
        input[0] == 'B' ==> spec_base_type(input) == Some((BaseType::Byte, 1nat)),
        input[0] == 'C' ==> spec_base_type(input) == Some((BaseType::Char, 1nat)),
        input[0] == 'D' ==> spec_base_type(input) == Some((BaseType::Double, 1nat)),
        input[0] == 'F' ==> spec_base_type(input) == Some((BaseType::Float, 1nat)),
        input[0] == 'I' ==> spec_base_type(input) == Some((BaseType::Int, 1nat)),
        input[0] == 'J' ==> spec_base_type(input) == Some((BaseType::Long, 1nat)),
        input[0] == 'S' ==> spec_base_type(input) == Some((BaseType::Short, 1nat)),
        input[0] == 'Z' ==> spec_base_type(input) == Some((BaseType::Boolean, 1nat)),
        spec_base_type(input) is Some <==> (input[0] == 'B' || input[0] == 'C' || input[0] == 'D' || input[0] == 'F'
            || input[0] == 'I' || input[0] == 'J' || input[0] == 'S' || input[0] == 'Z'),
        spec_base_type(input) matches Some((b, _)) ==> spec_field_type(input) == Some((FieldTypeV::BaseType(b), 1nat)),
{
    let c = input[0];
    vstd::utf8::char_u32_cast(c, c as u32);
}

/// Distinct characters stand for distinct base types.
pub proof fn law_base_type_distinct(a: Seq<char>, b: Seq<char>)
    requires
        a.len() >= 1,
        b.len() >= 1,
        a[0] != b[0],
        spec_base_type(a) is Some,
        spec_base_type(b) is Some,
    ensures
        spec_base_type(a).unwrap().0 != spec_base_type(b).unwrap().0,
{
    law_base_type_letters(a);
    law_base_type_letters(b);
}

/// The name under which field types are recorded while they are parsed.
fn field_type_token_name() -> (r: String)
    ensures
        r@ == "exo_class_file::item::ids::field::FieldType"@,
{
    owned("exo_class_file::item::ids::field::FieldType")
}

/// The name under which array types are recorded while they are parsed.
fn array_type_token_name() -> (r: String)
    ensures
        r@ == "exo_class_file::item::ids::field::ArrayType"@,
{
    owned("exo_class_file::item::ids::field::ArrayType")
}

/// Parse a field type as a token of its own; on failure the stream stands
/// where it started.
fn field_type_token(s: &mut LexerStream) -> (r: Result<FieldType, ParsingError>)
    requires
        old(s).wf(),
    ensures
        final(s).wf(),
        final(s).chars@ == old(s).chars@,
        lexer_kept(old(s).lexer_state(), final(s).lexer_state()),
        match spec_field_type(old(s).rest()) {
            Some((v, n)) => r matches Ok(x) && x@ == v && final(s).position == old(s).position + n,
            None => r is Err && final(s).position == old(s).position,
        },
    decreases old(s).rest().len(), 3nat,
{
    let start = s.begin_token(field_type_token_name());
    match parse_field_type(s) {
        Ok(v) => {
            s.end_token_ok();
            assert(s.lexer_state().names() =~= old(s).lexer_state().names());
            Ok(v)
        },
        Err(e) => {
            s.end_token_err(start);
            assert(s.lexer_state().names() =~= old(s).lexer_state().names());
            assert(s.lexer_state().counts() =~= old(s).lexer_state().counts());
            Err(e)
        },
    }
}

/// Parse a field type: the first of a base type, an object type and an
/// array type that parses.
fn parse_field_type(s: &mut LexerStream) -> (r: Result<FieldType, ParsingError>)
    requires
        old(s).wf(),
    ensures
        parsed_as(*old(s), *final(s), r, spec_field_type(old(s).rest())),
    decreases old(s).rest().len(), 2nat,
{
    let greatest = match s.token::<BaseType>() {
        Ok(v) => {
            return Ok(FieldType::BaseType(v.token));
        },
        Err(c) => c,
    };
    let greatest = match s.token::<ObjectType>() {
        Ok(v) => {
            return Ok(FieldType::ObjectType(v.token));
        },
        Err(c) => keep_greatest(greatest, c),
    };
    let greatest = match array_type_token(s) {
        Ok(v) => {
            return Ok(FieldType::ArrayType(v));
        },
        Err(c) => keep_greatest(greatest, c),
    };
    Err(greatest.0)
}

/// Parse an array type as a token of its own; on failure, return the error
/// and how many of its sub-tokens parsed, and stand where it started.
fn array_type_token(s: &mut LexerStream) -> (r: Result<ArrayType, (ParsingError, usize)>)
    requires
        old(s).wf(),
    ensures
        final(s).wf(),
        final(s).chars@ == old(s).chars@,
        lexer_kept(old(s).lexer_state(), final(s).lexer_state()),
        match spec_array_type(old(s).rest()) {
            Some((v, n)) => r matches Ok(x) && x@ == v && final(s).position == old(s).position + n,
            None => r is Err && final(s).position == old(s).position,
        },
    decreases old(s).rest().len(), 1nat,
{
    let start = s.begin_token(array_type_token_name());
    match parse_array_type(s) {
        Ok(v) => {
            s.end_token_ok();
            assert(s.lexer_state().names() =~= old(s).lexer_state().names());
            Ok(v)
        },
        Err(e) => {
            let n = s.end_token_err(start);
            assert(s.lexer_state().names() =~= old(s).lexer_state().names());
            assert(s.lexer_state().counts() =~= old(s).lexer_state().counts());
            Err((e, n))
        },
    }
}

/// Parse an array type: `[` and a field type.
fn parse_array_type(s: &mut LexerStream) -> (r: Result<ArrayType, ParsingError>)
    requires
        old(s).wf(),
    ensures
        parsed_as(*old(s), *final(s), r, spec_array_type(old(s).rest())),
    decreases old(s).rest().len(), 0nat,
{
    match s.token::<Char<0x5b>>() {
        Ok(_) => {},
        Err(e) => {
            return Err(e.0);
        },
    }
    assert(s.rest() =~= old(s).rest().skip(1));
    let component = field_type_token(s)?;
    Ok(ArrayType(Box::new(component)))
}

impl Parseable for ArrayType {
    open spec fn spec_parse(input: Seq<char>) -> Option<(FieldTypeV, nat)> {
        spec_array_type(input)
    }

    fn parse(s: &mut LexerStream) -> (r: Result<Self, ParsingError>) {
        parse_array_type(s)
    }

    open spec fn spec_name() -> Seq<char> {
        "exo_class_file::item::ids::field::ArrayType"@
    }

    fn name() -> String {
        array_type_token_name()
    }
}

impl Parseable for FieldType {
    open spec fn spec_parse(input: Seq<char>) -> Option<(FieldTypeV, nat)> {
        spec_field_type(input)
    }

    fn parse(s: &mut LexerStream) -> (r: Result<Self, ParsingError>) {
        parse_field_type(s)
    }

    open spec fn spec_name() -> Seq<char> {
        "exo_class_file::item::ids::field::FieldType"@
    }

    fn name() -> String {
        field_type_token_name()
    }
}

} // verus!
