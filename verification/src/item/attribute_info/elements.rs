//! Annotations and the values of their elements.
use vstd::prelude::*;
use crate::error::{ClassFileError, ClassFileErrorV};
use crate::stream::{ClassFileStream, be16, reads_as};
use crate::item::{ClassFileItem, ConstantPool, ConstantPoolV};

verus! {

pub const BYTE: char = 'B';
pub const CHAR: char = 'C';
pub const DOUBLE: char = 'D';
pub const FLOAT: char = 'F';
pub const INT: char = 'I';
pub const LONG: char = 'J';
pub const SHORT: char = 'S';
pub const BOOLEAN: char = 'Z';
pub const STRING: char = 's';
pub const ENUM_TYPE: char = 'e';
pub const CLASS: char = 'c';
pub const ANNOTATION_TYPE: char = '@';
pub const ARRAY_TYPE: char = '[';

/// Possible element value types.
#[derive(Debug, Clone, Copy, PartialEq, Eq, Structural)]
pub enum ElementValueType {
    Byte,
    Char,
    Double,
    Float,
    Int,
    Long,
    Short,
    Boolean,
    String,
    Enum,
    Class,
    Annotation,
    Array,
}

/// The element value type whose tag is `c`, if any.
pub open spec fn element_value_type(c: char) -> Option<ElementValueType> {
    if c == BYTE {
        Some(ElementValueType::Byte)
    } else if c == CHAR {
        Some(ElementValueType::Char)
    } else if c == DOUBLE {
        Some(ElementValueType::Double)
    } else if c == FLOAT {
        Some(ElementValueType::Float)
    } else if c == INT {
        Some(ElementValueType::Int)
    } else if c == LONG {
        Some(ElementValueType::Long)
    } else if c == SHORT {
        Some(ElementValueType::Short)
    } else if c == BOOLEAN {
        Some(ElementValueType::Boolean)
    } else if c == STRING {
        Some(ElementValueType::String)
    } else if c == ENUM_TYPE {
        Some(ElementValueType::Enum)
    } else if c == CLASS {
        Some(ElementValueType::Class)
    } else if c == ANNOTATION_TYPE {
        Some(ElementValueType::Annotation)
    } else if c == ARRAY_TYPE {
        Some(ElementValueType::Array)
    } else {
        None
    }
}

/// The element value tags of annotations: `B` byte, `C` char, `D` double,
/// `F` float, `I` int, `J` long, `S` short, `Z` boolean, `s` string, `e`
/// enum constant, `c` class, `@` annotation, `[` array; no other character
/// is a tag.
pub proof fn law_element_value_tags(c: char)
    ensures
        element_value_type('B') == Some(ElementValueType::Byte),
        element_value_type('C') == Some(ElementValueType::Char),
        element_value_type('D') == Some(ElementValueType::Double),
        element_value_type('F') == Some(ElementValueType::Float),
        element_value_type('I') == Some(ElementValueType::Int),
        element_value_type('J') == Some(ElementValueType::Long),
        element_value_type('S') == Some(ElementValueType::Short),
        element_value_type('Z') == Some(ElementValueType::Boolean),
        element_value_type('s') == Some(ElementValueType::String),
        element_value_type('e') == Some(ElementValueType::Enum),
        element_value_type('c') == Some(ElementValueType::Class),
        element_value_type('@') == Some(ElementValueType::Annotation),
        element_value_type('[') == Some(ElementValueType::Array),
        element_value_type(c) is Some <==> (c == 'B' || c == 'C' || c == 'D' || c == 'F' || c == 'I' || c == 'J'
            || c == 'S' || c == 'Z' || c == 's' || c == 'e' || c == 'c' || c == '@' || c == '['),
{
}

impl ElementValueType {
    /// Parses the element value type from a character.
    pub fn from_char(c: char) -> (r: Result<Self, ClassFileError>)
        ensures
            match element_value_type(c) {
                Some(t) => r == Ok::<ElementValueType, ClassFileError>(t),
                None => r matches Err(e) && e@ == ClassFileErrorV::UnknownElementValueType(c),
            },
    {
        match c {
            BYTE => Ok(Self::Byte),
            CHAR => Ok(Self::Char),
            DOUBLE => Ok(Self::Double),
            FLOAT => Ok(Self::Float),
            INT => Ok(Self::Int),
            LONG => Ok(Self::Long),
            SHORT => Ok(Self::Short),
            BOOLEAN => Ok(Self::Boolean),
            STRING => Ok(Self::String),
            ENUM_TYPE => Ok(Self::Enum),
            CLASS => Ok(Self::Class),
            ANNOTATION_TYPE => Ok(Self::Annotation),
            ARRAY_TYPE => Ok(Self::Array),
            v => Err(ClassFileError::UnknownElementValueType(v)),
        }
    }
}

/// Represents the value of an element-value pair.
#[derive(Debug)]
pub enum ElementValue {
    ConstValueIndex {
        /// Index of the constant pool entry that gives a primitive constant
        /// value or a String literal as the value of this element-value pair.
        const_value_index: u16,
    },
    /// An enum constant as the value of this element-value pair.
    EnumConstValue {
        /// Index of a CONSTANT_Utf8_info structure representing a field
        /// descriptor: the type of the enum constant.
        type_name_index: u16,
        /// Index of a CONSTANT_Utf8_info structure: the simple name of the
        /// enum constant.
        const_name_index: u16,
    },
    ClassInfoIndex {
        /// Index of a CONSTANT_Utf8_info structure representing a return
        /// descriptor: the type of the class literal.
        class_info_index: u16,
    },
    AnnotationValue {
        /// A nested annotation as the value of this element-value pair.
        annotation_value: Annotation,
    },
    /// An array as the value of this element-value pair.
    ArrayValue {
        /// The elements of the array.
        values: Vec<ElementValue>,
    },
}

/// The annotation structure.
#[derive(Debug)]
pub struct Annotation {
    pub type_index: u16,
    pub element_value_pairs: Vec<ElementValuePairElement>,
}

/// Element-value-pair element.
#[derive(Debug)]
pub struct ElementValuePairElement {
    /// Index of a CONSTANT_Utf8_info structure: the name of the element of
    /// the element-value pair.
    pub element_name_index: u16,
    /// The value of the element-value pair.
    pub value: ElementValue,
}

/// Mathematical form of [`ElementValue`].
pub enum ElementValueV {
    ConstValueIndex { const_value_index: u16 },
    EnumConstValue { type_name_index: u16, const_name_index: u16 },
    ClassInfoIndex { class_info_index: u16 },
    AnnotationValue { annotation_value: AnnotationV },
    ArrayValue { values: Seq<ElementValueV> },
}

/// Mathematical form of [`Annotation`].
pub struct AnnotationV {
    pub type_index: u16,
    pub element_value_pairs: Seq<ElementValuePairElementV>,
}

/// Mathematical form of [`ElementValuePairElement`].
pub struct ElementValuePairElementV {
    pub element_name_index: u16,
    pub value: ElementValueV,
}

/// The mathematical form of an element value.
pub open spec fn element_value_view(e: ElementValue) -> ElementValueV
    decreases e,
{
    match e {
        ElementValue::ConstValueIndex { const_value_index } => ElementValueV::ConstValueIndex { const_value_index },
        ElementValue::EnumConstValue { type_name_index, const_name_index } =>
            ElementValueV::EnumConstValue { type_name_index, const_name_index },
        ElementValue::ClassInfoIndex { class_info_index } => ElementValueV::ClassInfoIndex { class_info_index },
        ElementValue::AnnotationValue { annotation_value } =>
            ElementValueV::AnnotationValue { annotation_value: annotation_view(annotation_value) },
        ElementValue::ArrayValue { values } => ElementValueV::ArrayValue { values: element_values_view(values@) },
    }
}

/// The mathematical forms of element values.
pub open spec fn element_values_view(s: Seq<ElementValue>) -> Seq<ElementValueV>
    decreases s,
{
    if s.len() == 0 {
        seq![]
    } else {
        element_values_view(s.drop_last()).push(element_value_view(s.last()))
    }
}

/// The mathematical form of an annotation.
pub open spec fn annotation_view(a: Annotation) -> AnnotationV
    decreases a,
{
    AnnotationV { type_index: a.type_index, element_value_pairs: pairs_view(a.element_value_pairs@) }
}

/// The mathematical forms of element-value pairs.
pub open spec fn pairs_view(s: Seq<ElementValuePairElement>) -> Seq<ElementValuePairElementV>
    decreases s,
{
    if s.len() == 0 {
        seq![]
    } else {
        pairs_view(s.drop_last()).push(ElementValuePairElementV {
            element_name_index: s.last().element_name_index,
            value: element_value_view(s.last().value),
        })
    }
}

impl View for ElementValue {
    type V = ElementValueV;

    open spec fn view(&self) -> ElementValueV {
        element_value_view(*self)
    }
}

impl View for Annotation {
    type V = AnnotationV;

    open spec fn view(&self) -> AnnotationV {
        annotation_view(*self)
    }
}

impl View for ElementValuePairElement {
    type V = ElementValuePairElementV;

    open spec fn view(&self) -> ElementValuePairElementV {
        ElementValuePairElementV { element_name_index: self.element_name_index, value: element_value_view(self.value) }
    }
}

/// What reading an element value from the front of `b` gives: its tag
/// character, then what the tag calls for.
pub open spec fn spec_element_value(b: Seq<u8>) -> Result<(ElementValueV, nat), ClassFileErrorV>
    decreases b.len(), 0nat,
{
    if b.len() < 1 {
        Err(ClassFileErrorV::IoError)
    } else {
        let c = b[0] as char;
        match element_value_type(c) {
            None => Err(ClassFileErrorV::UnknownElementValueType(c)),
            Some(ElementValueType::Enum) => if b.len() < 5 {
                Err(ClassFileErrorV::IoError)
            } else {
                Ok((ElementValueV::EnumConstValue { type_name_index: be16(b, 1), const_name_index: be16(b, 3) }, 5))
            },
            Some(ElementValueType::Class) => if b.len() < 3 {
                Err(ClassFileErrorV::IoError)
            } else {
                Ok((ElementValueV::ClassInfoIndex { class_info_index: be16(b, 1) }, 3))
            },
            Some(ElementValueType::Annotation) => match spec_annotation(b.skip(1)) {
                Ok((a, n)) => Ok((ElementValueV::AnnotationValue { annotation_value: a }, 1 + n)),
                Err(e) => Err(e),
            },
            Some(ElementValueType::Array) => if b.len() < 3 {
                Err(ClassFileErrorV::IoError)
            } else {
                match spec_element_values(b.skip(3), be16(b, 1) as nat) {
                    Ok((vs, n)) => Ok((ElementValueV::ArrayValue { values: vs }, 3 + n)),
                    Err(e) => Err(e),
                }
            },
            Some(_) => if b.len() < 3 {
                Err(ClassFileErrorV::IoError)
            } else {
                Ok((ElementValueV::ConstValueIndex { const_value_index: be16(b, 1) }, 3))
            },
        }
    }
}

/// What reading `n` element values one after another from the front of
/// `b` gives.
pub open spec fn spec_element_values(b: Seq<u8>, n: nat) -> Result<(Seq<ElementValueV>, nat), ClassFileErrorV>
    decreases b.len(), n + 1,
{
    if n == 0 {
        Ok((seq![], 0))
    } else {
        match spec_element_value(b) {
            Ok((v, k)) => if 1 <= k <= b.len() {
                match spec_element_values(b.skip(k as int), (n - 1) as nat) {
                    Ok((vs, m)) => Ok((seq![v] + vs, k + m)),
                    Err(e) => Err(e),
                }
            } else {
                Err(ClassFileErrorV::IoError)
            },
            Err(e) => Err(e),
        }
    }
}

/// What reading an annotation from the front of `b` gives: its type index,
/// the number of its element-value pairs, then the pairs.
pub open spec fn spec_annotation(b: Seq<u8>) -> Result<(AnnotationV, nat), ClassFileErrorV>
    decreases b.len(), 0nat,
{
    if b.len() < 4 {
        Err(ClassFileErrorV::IoError)
    } else {
        match spec_pairs(b.skip(4), be16(b, 2) as nat) {
            Ok((ps, n)) => Ok((AnnotationV { type_index: be16(b, 0), element_value_pairs: ps }, 4 + n)),
            Err(e) => Err(e),
        }
    }
}

/// What reading an element-value pair from the front of `b` gives: the
/// element's name index, then the value.
pub open spec fn spec_pair(b: Seq<u8>) -> Result<(ElementValuePairElementV, nat), ClassFileErrorV>
    decreases b.len(), 0nat,
{
    if b.len() < 2 {
        Err(ClassFileErrorV::IoError)
    } else {
        match spec_element_value(b.skip(2)) {
            Ok((v, n)) => Ok((ElementValuePairElementV { element_name_index: be16(b, 0), value: v }, 2 + n)),
            Err(e) => Err(e),
        }
    }
}

/// What reading `n` element-value pairs one after another from the front
/// of `b` gives.
pub open spec fn spec_pairs(b: Seq<u8>, n: nat) -> Result<(Seq<ElementValuePairElementV>, nat), ClassFileErrorV>
    decreases b.len(), n + 1,
{
    if n == 0 {
        Ok((seq![], 0))
    } else {
        match spec_pair(b) {
            Ok((p, k)) => if 1 <= k <= b.len() {
                match spec_pairs(b.skip(k as int), (n - 1) as nat) {
                    Ok((ps, m)) => Ok((seq![p] + ps, k + m)),
                    Err(e) => Err(e),
                }
            } else {
                Err(ClassFileErrorV::IoError)
            },
            Err(e) => Err(e),
        }
    }
}

/// An element value that is read takes at least one byte and no more than
/// there are.
pub proof fn lemma_element_value_len(b: Seq<u8>)
    ensures
        spec_element_value(b) matches Ok((_, k)) ==> 1 <= k <= b.len(),
    decreases b.len(), 0nat,
{
    if b.len() >= 1 {
        lemma_annotation_len(b.skip(1));
        if b.len() >= 3 {
            lemma_element_values_len(b.skip(3), be16(b, 1) as nat);
        }
    }
}

/// Element values that are read take no more bytes than there are.
pub proof fn lemma_element_values_len(b: Seq<u8>, n: nat)
    ensures
        spec_element_values(b, n) matches Ok((_, k)) ==> k <= b.len(),
    decreases b.len(), n + 1,
{
    if n > 0 {
        lemma_element_value_len(b);
        if let Ok((_, k)) = spec_element_value(b) {
            if 1 <= k <= b.len() {
                lemma_element_values_len(b.skip(k as int), (n - 1) as nat);
            }
        }
    }
}

/// An annotation that is read takes at least four bytes and no more than
/// there are.
pub proof fn lemma_annotation_len(b: Seq<u8>)
    ensures
        spec_annotation(b) matches Ok((_, k)) ==> 4 <= k <= b.len(),
    decreases b.len(), 0nat,
{
    if b.len() >= 4 {
        lemma_pairs_len(b.skip(4), be16(b, 2) as nat);
    }
}

/// An element-value pair that is read takes at least three bytes and no
/// more than there are.
pub proof fn lemma_pair_len(b: Seq<u8>)
    ensures
        spec_pair(b) matches Ok((_, k)) ==> 3 <= k <= b.len(),
    decreases b.len(), 0nat,
{
    if b.len() >= 2 {
        lemma_element_value_len(b.skip(2));
    }
}

/// Element-value pairs that are read take no more bytes than there are.
pub proof fn lemma_pairs_len(b: Seq<u8>, n: nat)
    ensures
        spec_pairs(b, n) matches Ok((_, k)) ==> k <= b.len(),
    decreases b.len(), n + 1,
{
    if n > 0 {
        lemma_pair_len(b);
        if let Ok((_, k)) = spec_pair(b) {
            if 1 <= k <= b.len() {
                lemma_pairs_len(b.skip(k as int), (n - 1) as nat);
            }
        }
    }
}

/// A sequence read so far (`prefix`, `used` bytes) followed by what reading
/// the rest gives.
pub open spec fn then_seq<X>(prefix: Seq<X>, used: nat, r: Result<(Seq<X>, nat), ClassFileErrorV>) -> Result<(Seq<X>, nat), ClassFileErrorV> {
    match r {
        Ok((xs, m)) => Ok((prefix + xs, used + m)),
        Err(e) => Err(e),
    }
}

/// Read an element value.
fn read_element_value(s: &mut ClassFileStream) -> (r: Result<ElementValue, ClassFileError>)
    requires
        old(s).wf(),
    ensures
        reads_as(*old(s), *final(s), r, spec_element_value(old(s).rest())),
    decreases old(s).rest().len(), 0nat,
{
    let ghost b = old(s).rest();
    let tag = s.read_u1()?;
    assert(s.rest() =~= b.skip(1));
    let t = ElementValueType::from_char(tag as char)?;
    match t {
        ElementValueType::Enum => {
            let type_name_index = s.read_u2()?;
            assert(s.rest() =~= b.skip(3));
            let const_name_index = s.read_u2()?;
            Ok(ElementValue::EnumConstValue { type_name_index, const_name_index })
        },
        ElementValueType::Class => Ok(ElementValue::ClassInfoIndex { class_info_index: s.read_u2()? }),
        ElementValueType::Annotation => Ok(ElementValue::AnnotationValue { annotation_value: read_annotation(s)? }),
        ElementValueType::Array => {
            let num_values = s.read_u2()?;
            assert(s.rest() =~= b.skip(3));
            let values = read_element_values(s, num_values as usize)?;
            Ok(ElementValue::ArrayValue { values })
        },
        _ => Ok(ElementValue::ConstValueIndex { const_value_index: s.read_u2()? }),
    }
}

/// Read `n` element values one after another.
fn read_element_values(s: &mut ClassFileStream, n: usize) -> (r: Result<Vec<ElementValue>, ClassFileError>)
    requires
        old(s).wf(),
    ensures
        final(s).wf(),
        final(s).data() == old(s).data(),
        match spec_element_values(old(s).rest(), n as nat) {
            Ok((vs, k)) => r matches Ok(v) && element_values_view(v@) == vs && final(s).pos() == old(s).pos() + k,
            Err(e) => r matches Err(x) && x@ == e,
        },
    decreases old(s).rest().len(), n + 1,
{
    let ghost b = old(s).rest();
    let mut v: Vec<ElementValue> = Vec::new();
    let mut i: usize = 0;
    assert(element_values_view(v@) =~= Seq::<ElementValueV>::empty());
    assert(b.skip(0) =~= b);
    while i < n
        invariant
            old(s).wf(),
            s.wf(),
            s.data() == old(s).data(),
            b == old(s).rest(),
            i <= n,
            old(s).pos() <= s.pos(),
            s.rest() == b.skip(s.pos() - old(s).pos()),
            s.rest().len() <= b.len(),
            spec_element_values(b, n as nat) == then_seq(element_values_view(v@), (s.pos() - old(s).pos()) as nat,
                spec_element_values(s.rest(), (n - i) as nat)),
        decreases n - i,
    {
        let ghost r = s.rest();
        proof {
            lemma_element_value_len(r);
        }
        let x = read_element_value(s)?;
        let ghost prev = v@;
        v.push(x);
        proof {
            let (ev, k) = spec_element_value(r)->Ok_0;
            assert(v@.drop_last() =~= prev);
            assert(s.rest() =~= r.skip(k as int));
            assert(s.rest() =~= b.skip(s.pos() - old(s).pos()));
            match spec_element_values(s.rest(), (n - i - 1) as nat) {
                Ok((vs, m)) => {
                    assert(element_values_view(prev) + (seq![ev] + vs) =~= element_values_view(v@) + vs);
                },
                Err(_) => {},
            }
        }
        i = i + 1;
    }
    assert(element_values_view(v@) + Seq::<ElementValueV>::empty() =~= element_values_view(v@));
    Ok(v)
}

/// Read an annotation.
fn read_annotation(s: &mut ClassFileStream) -> (r: Result<Annotation, ClassFileError>)
    requires
        old(s).wf(),
    ensures
        reads_as(*old(s), *final(s), r, spec_annotation(old(s).rest())),
    decreases old(s).rest().len(), 0nat,
{
    let ghost b = old(s).rest();
    let type_index = s.read_u2()?;
    assert(s.rest() =~= b.skip(2));
    let num_element_value_pairs = s.read_u2()?;
    assert(s.rest() =~= b.skip(4));
    let element_value_pairs = read_pairs(s, num_element_value_pairs as usize)?;
    Ok(Annotation { type_index, element_value_pairs })
}

/// Read an element-value pair.
fn read_pair(s: &mut ClassFileStream) -> (r: Result<ElementValuePairElement, ClassFileError>)
    requires
        old(s).wf(),
    ensures
        reads_as(*old(s), *final(s), r, spec_pair(old(s).rest())),
    decreases old(s).rest().len(), 0nat,
{
    let ghost b = old(s).rest();
    let element_name_index = s.read_u2()?;
    assert(s.rest() =~= b.skip(2));
    let value = read_element_value(s)?;
    Ok(ElementValuePairElement { element_name_index, value })
}

/// Read `n` element-value pairs one after another.
pub(crate) fn read_pairs(s: &mut ClassFileStream, n: usize) -> (r: Result<Vec<ElementValuePairElement>, ClassFileError>)
    requires
        old(s).wf(),
    ensures
        final(s).wf(),
        final(s).data() == old(s).data(),
        match spec_pairs(old(s).rest(), n as nat) {
            Ok((ps, k)) => r matches Ok(v) && pairs_view(v@) == ps && final(s).pos() == old(s).pos() + k,
            Err(e) => r matches Err(x) && x@ == e,
        },
    decreases old(s).rest().len(), n + 1,
{
    let ghost b = old(s).rest();
    let mut v: Vec<ElementValuePairElement> = Vec::new();
    let mut i: usize = 0;
    assert(pairs_view(v@) =~= Seq::<ElementValuePairElementV>::empty());
    assert(b.skip(0) =~= b);
    while i < n
        invariant
            old(s).wf(),
            s.wf(),
            s.data() == old(s).data(),
            b == old(s).rest(),
            i <= n,
            old(s).pos() <= s.pos(),
            s.rest() == b.skip(s.pos() - old(s).pos()),
            s.rest().len() <= b.len(),
            spec_pairs(b, n as nat) == then_seq(pairs_view(v@), (s.pos() - old(s).pos()) as nat,
                spec_pairs(s.rest(), (n - i) as nat)),
        decreases n - i,
    {
        let ghost r = s.rest();
        proof {
            lemma_pair_len(r);
        }
        let x = read_pair(s)?;
        let ghost prev = v@;
        v.push(x);
        proof {
            let (pv, k) = spec_pair(r)->Ok_0;
            assert(v@.drop_last() =~= prev);
            assert(s.rest() =~= r.skip(k as int));
            assert(s.rest() =~= b.skip(s.pos() - old(s).pos()));
            match spec_pairs(s.rest(), (n - i - 1) as nat) {
                Ok((ps, m)) => {
                    assert(pairs_view(prev) + (seq![pv] + ps) =~= pairs_view(v@) + ps);
                },
                Err(_) => {},
            }
        }
        i = i + 1;
    }
    assert(pairs_view(v@) + Seq::<ElementValuePairElementV>::empty() =~= pairs_view(v@));
    Ok(v)
}

impl ClassFileItem for ElementValue {
    open spec fn spec_read(bytes: Seq<u8>, cp: Option<ConstantPoolV>) -> Result<(ElementValueV, nat), ClassFileErrorV> {
        spec_element_value(bytes)
    }

    fn read_from_stream(s: &mut ClassFileStream, cp: Option<&ConstantPool>) -> (r: Result<Self, ClassFileError>) {
        read_element_value(s)
    }
}

impl ClassFileItem for Annotation {
    open spec fn spec_read(bytes: Seq<u8>, cp: Option<ConstantPoolV>) -> Result<(AnnotationV, nat), ClassFileErrorV> {
        spec_annotation(bytes)
    }

    fn read_from_stream(s: &mut ClassFileStream, cp: Option<&ConstantPool>) -> (r: Result<Self, ClassFileError>) {
        read_annotation(s)
    }
}

impl ClassFileItem for ElementValuePairElement {
    open spec fn spec_read(bytes: Seq<u8>, cp: Option<ConstantPoolV>) -> Result<(ElementValuePairElementV, nat), ClassFileErrorV> {
        spec_pair(bytes)
    }

    fn read_from_stream(s: &mut ClassFileStream, cp: Option<&ConstantPool>) -> (r: Result<Self, ClassFileError>) {
        read_pair(s)
    }
}

/// Reading an element value never stops the program.
pub proof fn lemma_element_value_no_abort(b: Seq<u8>)
    ensures
        spec_element_value(b) != Err::<(ElementValueV, nat), ClassFileErrorV>(ClassFileErrorV::Aborts),
    decreases b.len(), 0nat,
{
    if b.len() >= 1 {
        lemma_annotation_no_abort(b.skip(1));
        if b.len() >= 3 {
            lemma_element_values_no_abort(b.skip(3), be16(b, 1) as nat);
        }
    }
}

/// Reading element values never stops the program.
pub proof fn lemma_element_values_no_abort(b: Seq<u8>, n: nat)
    ensures
        spec_element_values(b, n) != Err::<(Seq<ElementValueV>, nat), ClassFileErrorV>(ClassFileErrorV::Aborts),
    decreases b.len(), n + 1,
{
    if n > 0 {
        lemma_element_value_no_abort(b);
        if let Ok((_, k)) = spec_element_value(b) {
            if 1 <= k <= b.len() {
                lemma_element_values_no_abort(b.skip(k as int), (n - 1) as nat);
            }
        }
    }
}

/// Reading an annotation never stops the program.
pub proof fn lemma_annotation_no_abort(b: Seq<u8>)
    ensures
        spec_annotation(b) != Err::<(AnnotationV, nat), ClassFileErrorV>(ClassFileErrorV::Aborts),
    decreases b.len(), 0nat,
{
    if b.len() >= 4 {
        lemma_pairs_no_abort(b.skip(4), be16(b, 2) as nat);
    }
}

/// Reading an element-value pair never stops the program.
pub proof fn lemma_pair_no_abort(b: Seq<u8>)
    ensures
        spec_pair(b) != Err::<(ElementValuePairElementV, nat), ClassFileErrorV>(ClassFileErrorV::Aborts),
    decreases b.len(), 0nat,
{
    if b.len() >= 2 {
        lemma_element_value_no_abort(b.skip(2));
    }
}

/// Reading element-value pairs never stops the program.
pub proof fn lemma_pairs_no_abort(b: Seq<u8>, n: nat)
    ensures
        spec_pairs(b, n) != Err::<(Seq<ElementValuePairElementV>, nat), ClassFileErrorV>(ClassFileErrorV::Aborts),
    decreases b.len(), n + 1,
{
    if n > 0 {
        lemma_pair_no_abort(b);
        if let Ok((_, k)) = spec_pair(b) {
            if 1 <= k <= b.len() {
                lemma_pairs_no_abort(b.skip(k as int), (n - 1) as nat);
            }
        }
    }
}

} // verus!
