//! Type annotations, parameter annotations and bootstrap methods.
use vstd::prelude::*;
use crate::error::{ClassFileError, ClassFileErrorV};
use crate::stream::{ClassFileStream, be16};
use crate::item::{ClassFileItem, ConstantPool, ConstantPoolV, read_seq, views, cp_view, lemma_read_seq_no_abort};
use crate::item::attribute_info::tables::LocalVarTargetTableEntry;
use crate::item::attribute_info::elements::{Annotation, AnnotationV, ElementValuePairElement, ElementValuePairElementV, spec_pairs, pairs_view, read_pairs, lemma_annotation_no_abort};

verus! {

pub const ANNOTATION_DEEPER_ARRAY: u8 = 0;
pub const ANNOTATION_DEEPER_NESTED: u8 = 1;
pub const ANNOTATION_BOUND_WILDCARD_PARAMETERIZED_TYPE: u8 = 2;
pub const ANNOTATION_TYPEARG_PARAMETERIZED_TYPE: u8 = 3;

/// Type path kind.
#[derive(Debug, Clone, Copy, PartialEq, Eq, Structural)]
pub enum TypePathKind {
    /// Annotation is deeper in an array type
    AnnotationDeeperArray,
    /// Annotation is deeper in a nested type
    AnnotationDeeperNested,
    /// Annotation is on the bound of a wildcard type argument of a parameterized type
    AnnotationBoundWildcardParameterizedType,
    /// Annotation is on a type argument of a parameterized type
    AnnotationTypeArgParameterizedType,
}

/// The type path kind whose code is `v`, if any.
pub open spec fn type_path_kind(v: u8) -> Option<TypePathKind> {
    if v == ANNOTATION_DEEPER_ARRAY {
        Some(TypePathKind::AnnotationDeeperArray)
    } else if v == ANNOTATION_DEEPER_NESTED {
        Some(TypePathKind::AnnotationDeeperNested)
    } else if v == ANNOTATION_BOUND_WILDCARD_PARAMETERIZED_TYPE {
        Some(TypePathKind::AnnotationBoundWildcardParameterizedType)
    } else if v == ANNOTATION_TYPEARG_PARAMETERIZED_TYPE {
        Some(TypePathKind::AnnotationTypeArgParameterizedType)
    } else {
        None
    }
}

/// The kinds of a type path step by their numbers: 0 deeper in an array
/// type, 1 deeper in a nested type, 2 on the bound of a wildcard type
/// argument, 3 on a type argument; no other number is a kind.
pub proof fn law_type_path_kinds(v: u8)
    ensures
        type_path_kind(0) == Some(TypePathKind::AnnotationDeeperArray),
        type_path_kind(1) == Some(TypePathKind::AnnotationDeeperNested),
        type_path_kind(2) == Some(TypePathKind::AnnotationBoundWildcardParameterizedType),
        type_path_kind(3) == Some(TypePathKind::AnnotationTypeArgParameterizedType),
        type_path_kind(v) is None <==> v > 3,
{
}

impl TypePathKind {
    /// Construct a `TypePathKind` from a u8.
    pub fn from_u8(v: u8) -> (r: Result<Self, ClassFileError>)
        ensures
            match type_path_kind(v) {
                Some(k) => r == Ok::<TypePathKind, ClassFileError>(k),
                None => r matches Err(e) && e@ == ClassFileErrorV::UnknownTypePathKind(v),
            },
    {
        match v {
            ANNOTATION_DEEPER_ARRAY => Ok(Self::AnnotationDeeperArray),
            ANNOTATION_DEEPER_NESTED => Ok(Self::AnnotationDeeperNested),
            ANNOTATION_BOUND_WILDCARD_PARAMETERIZED_TYPE => Ok(Self::AnnotationBoundWildcardParameterizedType),
            ANNOTATION_TYPEARG_PARAMETERIZED_TYPE => Ok(Self::AnnotationTypeArgParameterizedType),
            v => Err(ClassFileError::UnknownTypePathKind(v)),
        }
    }
}

/// Type path entry.
#[derive(Debug, Clone, Copy, PartialEq, Eq, Structural)]
pub struct TypePathEntry {
    pub type_path_kind: TypePathKind,
    /// Which type argument of a parameterized type is annotated (0 for the
    /// first), where the kind is `AnnotationTypeArgParameterizedType`; 0
    /// otherwise.
    pub type_argument_index: u8,
}

impl View for TypePathEntry {
    type V = TypePathEntry;

    open spec fn view(&self) -> TypePathEntry {
        *self
    }
}

impl ClassFileItem for TypePathEntry {
    open spec fn spec_read(bytes: Seq<u8>, cp: Option<ConstantPoolV>) -> Result<(TypePathEntry, nat), ClassFileErrorV> {
        if bytes.len() < 1 {
            Err(ClassFileErrorV::IoError)
        } else {
            match type_path_kind(bytes[0]) {
                None => Err(ClassFileErrorV::UnknownTypePathKind(bytes[0])),
                Some(k) => if bytes.len() < 2 {
                    Err(ClassFileErrorV::IoError)
                } else {
                    Ok((TypePathEntry { type_path_kind: k, type_argument_index: bytes[1] }, 2))
                },
            }
        }
    }

    fn read_from_stream(s: &mut ClassFileStream, cp: Option<&ConstantPool>) -> (r: Result<Self, ClassFileError>) {
        let ghost b = old(s).rest();
        let type_path_kind = TypePathKind::from_u8(s.read_u1()?)?;
        assert(s.rest() =~= b.skip(1));
        let type_argument_index = s.read_u1()?;
        Ok(Self { type_path_kind, type_argument_index })
    }
}

/// Type path. If the path is empty, the annotation appears directly on the
/// type itself; otherwise each entry is an iterative, left-to-right step
/// towards the precise location of the annotation in an array type, nested
/// type, or parameterized type.
#[derive(Debug)]
pub struct TypePath {
    pub path: Vec<TypePathEntry>,
}

impl View for TypePath {
    type V = Seq<TypePathEntry>;

    open spec fn view(&self) -> Seq<TypePathEntry> {
        views(self.path@)
    }
}

/// What reading a count of `T`s (two bytes) and that many `T`s from the
/// front of `b` gives.
pub open spec fn counted<T: ClassFileItem>(b: Seq<u8>, cp: Option<ConstantPoolV>) -> Result<(Seq<T::V>, nat), ClassFileErrorV> {
    if b.len() < 2 {
        Err(ClassFileErrorV::IoError)
    } else {
        match read_seq::<T>(b.skip(2), cp, be16(b, 0) as nat) {
            Ok((vs, n)) => Ok((vs, 2 + n)),
            Err(e) => Err(e),
        }
    }
}

impl ClassFileItem for TypePath {
    open spec fn spec_read(bytes: Seq<u8>, cp: Option<ConstantPoolV>) -> Result<(Seq<TypePathEntry>, nat), ClassFileErrorV> {
        counted::<TypePathEntry>(bytes, cp)
    }

    fn read_from_stream(s: &mut ClassFileStream, cp: Option<&ConstantPool>) -> (r: Result<Self, ClassFileError>) {
        let ghost b = old(s).rest();
        let path_length = s.read_u2()?;
        assert(s.rest() =~= b.skip(2));
        proof {
            lemma_read_seq_no_abort::<TypePathEntry>(s.rest(), cp_view(cp), path_length as nat);
        }
        Ok(Self { path: s.read_sequence(cp, path_length as usize)? })
    }
}

/// Target info type: which type in a declaration or expression is annotated.
#[derive(Debug)]
pub enum TargetInfoType {
    /// The annotation appears on the declaration of the i'th type parameter
    /// of a generic class, interface, method or constructor.
    TypeParameterTarget { type_parameter_index: u8 },
    /// The annotation appears on a type in the extends or implements clause
    /// of a class or interface declaration (65535: the superclass).
    SupertypeTarget { supertype_index: u16 },
    /// The annotation appears on the i'th bound of the j'th type parameter
    /// declaration of a generic class, interface, method or constructor.
    TypeParameterBoundTarget { type_parameter_index: u8, bound_index: u8 },
    /// The annotation appears on the type in a field declaration, the
    /// return type of a method, the type of a newly constructed object, or
    /// the receiver type of a method or constructor.
    EmptyTarget,
    /// The annotation appears on the type in a formal parameter declaration
    /// of a method, constructor, or lambda expression.
    FormalParameterTarget { formal_parameter_index: u8 },
    /// The annotation appears on the i'th type in the throws clause of a
    /// method or constructor declaration.
    ThrowsTarget { throws_type_index: u8 },
    /// The annotation appears on the type in a local variable declaration.
    LocalVarTarget { table: Vec<LocalVarTargetTableEntry> },
    /// The annotation appears on the i'th type in an exception parameter declaration.
    CatchTarget { exception_table_index: u16 },
    /// The annotation appears on the type in an instanceof or new
    /// expression, or the type before the :: in a method reference expression.
    OffsetTarget { offset: u16 },
    /// The annotation appears on the i'th type in a cast expression, or on
    /// the i'th type argument in an explicit type argument list.
    TypeArgumentTarget { offset: u16, type_argument_index: u8 },
}

/// Mathematical form of [`TargetInfoType`].
pub enum TargetInfoTypeV {
    TypeParameterTarget { type_parameter_index: u8 },
    SupertypeTarget { supertype_index: u16 },
    TypeParameterBoundTarget { type_parameter_index: u8, bound_index: u8 },
    EmptyTarget,
    FormalParameterTarget { formal_parameter_index: u8 },
    ThrowsTarget { throws_type_index: u8 },
    LocalVarTarget { table: Seq<LocalVarTargetTableEntry> },
    CatchTarget { exception_table_index: u16 },
    OffsetTarget { offset: u16 },
    TypeArgumentTarget { offset: u16, type_argument_index: u8 },
}

impl View for TargetInfoType {
    type V = TargetInfoTypeV;

    open spec fn view(&self) -> TargetInfoTypeV {
        match self {
            TargetInfoType::TypeParameterTarget { type_parameter_index } =>
                TargetInfoTypeV::TypeParameterTarget { type_parameter_index: *type_parameter_index },
            TargetInfoType::SupertypeTarget { supertype_index } => TargetInfoTypeV::SupertypeTarget { supertype_index: *supertype_index },
            TargetInfoType::TypeParameterBoundTarget { type_parameter_index, bound_index } =>
                TargetInfoTypeV::TypeParameterBoundTarget { type_parameter_index: *type_parameter_index, bound_index: *bound_index },
            TargetInfoType::EmptyTarget => TargetInfoTypeV::EmptyTarget,
            TargetInfoType::FormalParameterTarget { formal_parameter_index } =>
                TargetInfoTypeV::FormalParameterTarget { formal_parameter_index: *formal_parameter_index },
            TargetInfoType::ThrowsTarget { throws_type_index } => TargetInfoTypeV::ThrowsTarget { throws_type_index: *throws_type_index },
            TargetInfoType::LocalVarTarget { table } => TargetInfoTypeV::LocalVarTarget { table: views(table@) },
            TargetInfoType::CatchTarget { exception_table_index } =>
                TargetInfoTypeV::CatchTarget { exception_table_index: *exception_table_index },
            TargetInfoType::OffsetTarget { offset } => TargetInfoTypeV::OffsetTarget { offset: *offset },
            TargetInfoType::TypeArgumentTarget { offset, type_argument_index } =>
                TargetInfoTypeV::TypeArgumentTarget { offset: *offset, type_argument_index: *type_argument_index },
        }
    }
}

/// What reading a target info from the front of `b` gives: its target type,
/// then what the type calls for.
pub open spec fn spec_target_info(b: Seq<u8>, cp: Option<ConstantPoolV>) -> Result<(TargetInfoTypeV, nat), ClassFileErrorV> {
    if b.len() < 1 {
        Err(ClassFileErrorV::IoError)
    } else {
        let t = b[0];
        if t == 0x00 || t == 0x01 {
            if b.len() < 2 { Err(ClassFileErrorV::IoError) } else {
                Ok((TargetInfoTypeV::TypeParameterTarget { type_parameter_index: b[1] }, 2))
            }
        } else if t == 0x10 {
            if b.len() < 3 { Err(ClassFileErrorV::IoError) } else {
                Ok((TargetInfoTypeV::SupertypeTarget { supertype_index: be16(b, 1) }, 3))
            }
        } else if t == 0x11 || t == 0x12 {
            if b.len() < 3 { Err(ClassFileErrorV::IoError) } else {
                Ok((TargetInfoTypeV::TypeParameterBoundTarget { type_parameter_index: b[1], bound_index: b[2] }, 3))
            }
        } else if 0x13 <= t <= 0x15 {
            Ok((TargetInfoTypeV::EmptyTarget, 1))
        } else if t == 0x16 {
            if b.len() < 2 { Err(ClassFileErrorV::IoError) } else {
                Ok((TargetInfoTypeV::FormalParameterTarget { formal_parameter_index: b[1] }, 2))
            }
        } else if t == 0x17 {
            if b.len() < 2 { Err(ClassFileErrorV::IoError) } else {
                Ok((TargetInfoTypeV::ThrowsTarget { throws_type_index: b[1] }, 2))
            }
        } else if t == 0x40 || t == 0x41 {
            match counted::<LocalVarTargetTableEntry>(b.skip(1), cp) {
                Ok((table, n)) => Ok((TargetInfoTypeV::LocalVarTarget { table }, 1 + n)),
                Err(e) => Err(e),
            }
        } else if t == 0x42 {
            if b.len() < 3 { Err(ClassFileErrorV::IoError) } else {
                Ok((TargetInfoTypeV::CatchTarget { exception_table_index: be16(b, 1) }, 3))
            }
        } else if 0x43 <= t <= 0x46 {
            if b.len() < 3 { Err(ClassFileErrorV::IoError) } else {
                Ok((TargetInfoTypeV::OffsetTarget { offset: be16(b, 1) }, 3))
            }
        } else if 0x47 <= t <= 0x4B {
            if b.len() < 4 { Err(ClassFileErrorV::IoError) } else {
                Ok((TargetInfoTypeV::TypeArgumentTarget { offset: be16(b, 1), type_argument_index: b[3] }, 4))
            }
        } else {
            Err(ClassFileErrorV::UnknownTargetTypeValue(t))
        }
    }
}

impl ClassFileItem for TargetInfoType {
    open spec fn spec_read(bytes: Seq<u8>, cp: Option<ConstantPoolV>) -> Result<(TargetInfoTypeV, nat), ClassFileErrorV> {
        spec_target_info(bytes, cp)
    }

    fn read_from_stream(s: &mut ClassFileStream, cp: Option<&ConstantPool>) -> (r: Result<Self, ClassFileError>) {
        let ghost b = old(s).rest();
        let t = s.read_u1()?;
        assert(s.rest() =~= b.skip(1));
        match t {
            0x00 | 0x01 => Ok(Self::TypeParameterTarget { type_parameter_index: s.read_u1()? }),
            0x10 => Ok(Self::SupertypeTarget { supertype_index: s.read_u2()? }),
            0x11 | 0x12 => {
                let type_parameter_index = s.read_u1()?;
                assert(s.rest() =~= b.skip(2));
                let bound_index = s.read_u1()?;
                Ok(Self::TypeParameterBoundTarget { type_parameter_index, bound_index })
            },
            0x13 | 0x14 | 0x15 => Ok(Self::EmptyTarget),
            0x16 => Ok(Self::FormalParameterTarget { formal_parameter_index: s.read_u1()? }),
            0x17 => Ok(Self::ThrowsTarget { throws_type_index: s.read_u1()? }),
            0x40 | 0x41 => {
                let table_length = s.read_u2()?;
                assert(s.rest() =~= b.skip(1).skip(2));
                proof {
                    broadcast use crate::item::attribute_info::tables::lemma_pc_interval;
                    lemma_read_seq_no_abort::<LocalVarTargetTableEntry>(s.rest(), cp_view(cp), table_length as nat);
                }
                Ok(Self::LocalVarTarget { table: s.read_sequence(cp, table_length as usize)? })
            },
            0x42 => Ok(Self::CatchTarget { exception_table_index: s.read_u2()? }),
            0x43 | 0x44 | 0x45 | 0x46 => Ok(Self::OffsetTarget { offset: s.read_u2()? }),
            0x47 | 0x48 | 0x49 | 0x4A | 0x4B => {
                let offset = s.read_u2()?;
                assert(s.rest() =~= b.skip(3));
                let type_argument_index = s.read_u1()?;
                Ok(Self::TypeArgumentTarget { offset, type_argument_index })
            },
            v => Err(ClassFileError::UnknownTargetTypeValue(v)),
        }
    }
}

/// Type annotation: a single run-time annotation on a type used in a
/// declaration or expression.
#[derive(Debug)]
pub struct TypeAnnotation {
    /// Which type in a declaration or expression is annotated.
    pub target_info: TargetInfoType,
    /// Which part of the type indicated by target_info is annotated.
    pub target_path: TypePath,
    /// As in the annotation structure.
    pub type_index: u16,
    /// As in the annotation structure.
    pub element_value_pairs: Vec<ElementValuePairElement>,
}

/// Mathematical form of [`TypeAnnotation`].
pub struct TypeAnnotationV {
    pub target_info: TargetInfoTypeV,
    pub target_path: Seq<TypePathEntry>,
    pub type_index: u16,
    pub element_value_pairs: Seq<ElementValuePairElementV>,
}

impl View for TypeAnnotation {
    type V = TypeAnnotationV;

    open spec fn view(&self) -> TypeAnnotationV {
        TypeAnnotationV {
            target_info: self.target_info@,
            target_path: self.target_path@,
            type_index: self.type_index,
            element_value_pairs: pairs_view(self.element_value_pairs@),
        }
    }
}

/// What reading a type annotation from the front of `b` gives.
pub open spec fn spec_type_annotation(b: Seq<u8>, cp: Option<ConstantPoolV>) -> Result<(TypeAnnotationV, nat), ClassFileErrorV> {
    match spec_target_info(b, cp) {
        Err(e) => Err(e),
        Ok((target_info, n1)) => match counted::<TypePathEntry>(b.skip(n1 as int), cp) {
            Err(e) => Err(e),
            Ok((target_path, n2)) => {
                let c = b.skip((n1 + n2) as int);
                if c.len() < 4 {
                    Err(ClassFileErrorV::IoError)
                } else {
                    match spec_pairs(c.skip(4), be16(c, 2) as nat) {
                        Err(e) => Err(e),
                        Ok((ps, n3)) => Ok((TypeAnnotationV { target_info, target_path, type_index: be16(c, 0), element_value_pairs: ps },
                            n1 + n2 + 4 + n3)),
                    }
                }
            },
        },
    }
}

impl ClassFileItem for TypeAnnotation {
    open spec fn spec_read(bytes: Seq<u8>, cp: Option<ConstantPoolV>) -> Result<(TypeAnnotationV, nat), ClassFileErrorV> {
        spec_type_annotation(bytes, cp)
    }

    fn read_from_stream(s: &mut ClassFileStream, cp: Option<&ConstantPool>) -> (r: Result<Self, ClassFileError>) {
        let ghost b = old(s).rest();
        let target_info = TargetInfoType::read_from_stream(s, cp)?;
        let ghost n1 = (s.pos() - old(s).pos()) as nat;
        assert(s.rest() =~= b.skip(n1 as int));
        let target_path = TypePath::read_from_stream(s, cp)?;
        let ghost n12 = (s.pos() - old(s).pos()) as nat;
        let ghost c = b.skip(n12 as int);
        assert(s.rest() =~= c);
        let type_index = s.read_u2()?;
        assert(s.rest() =~= c.skip(2));
        let num_element_value_pairs = s.read_u2()?;
        assert(s.rest() =~= c.skip(4));
        let element_value_pairs = read_pairs(s, num_element_value_pairs as usize)?;
        Ok(Self { target_info, target_path, type_index, element_value_pairs })
    }
}

/// Parameter annotation: the annotations on the declaration of one formal
/// parameter.
#[derive(Debug)]
pub struct ParameterAnnotation {
    pub annotations: Vec<Annotation>,
}

impl View for ParameterAnnotation {
    type V = Seq<AnnotationV>;

    open spec fn view(&self) -> Seq<AnnotationV> {
        views(self.annotations@)
    }
}

impl ClassFileItem for ParameterAnnotation {
    open spec fn spec_read(bytes: Seq<u8>, cp: Option<ConstantPoolV>) -> Result<(Seq<AnnotationV>, nat), ClassFileErrorV> {
        counted::<Annotation>(bytes, cp)
    }

    fn read_from_stream(s: &mut ClassFileStream, cp: Option<&ConstantPool>) -> (r: Result<Self, ClassFileError>) {
        let ghost b = old(s).rest();
        let num_annotations = s.read_u2()?;
        assert(s.rest() =~= b.skip(2));
        proof {
            assert forall|x: Seq<u8>| #[trigger] Annotation::spec_read(x, cp_view(cp))
                != Err::<(AnnotationV, nat), ClassFileErrorV>(ClassFileErrorV::Aborts) by {
                lemma_annotation_no_abort(x);
            }
            lemma_read_seq_no_abort::<Annotation>(s.rest(), cp_view(cp), num_annotations as nat);
        }
        Ok(Self { annotations: s.read_sequence(cp, num_annotations as usize)? })
    }
}

/// Bootstrap methods element: an index to a CONSTANT_MethodHandle_info
/// structure which specifies a bootstrap method, and the indices of the
/// static arguments for it.
#[derive(Debug)]
pub struct BootstrapMethodsElement {
    /// Index of a CONSTANT_MethodHandle_info structure.
    pub bootstrap_method_ref: u16,
    /// Indices of the static arguments.
    pub bootstrap_arguments: Vec<u16>,
}

/// Mathematical form of [`BootstrapMethodsElement`].
pub struct BootstrapMethodsElementV {
    pub bootstrap_method_ref: u16,
    pub bootstrap_arguments: Seq<u16>,
}

impl View for BootstrapMethodsElement {
    type V = BootstrapMethodsElementV;

    open spec fn view(&self) -> BootstrapMethodsElementV {
        BootstrapMethodsElementV { bootstrap_method_ref: self.bootstrap_method_ref, bootstrap_arguments: self.bootstrap_arguments@ }
    }
}

impl ClassFileItem for BootstrapMethodsElement {
    open spec fn spec_read(bytes: Seq<u8>, cp: Option<ConstantPoolV>) -> Result<(BootstrapMethodsElementV, nat), ClassFileErrorV> {
        if bytes.len() < 2 {
            Err(ClassFileErrorV::IoError)
        } else {
            match counted::<u16>(bytes.skip(2), cp) {
                Ok((args, n)) => Ok((BootstrapMethodsElementV { bootstrap_method_ref: be16(bytes, 0), bootstrap_arguments: args }, 2 + n)),
                Err(e) => Err(e),
            }
        }
    }

    fn read_from_stream(s: &mut ClassFileStream, cp: Option<&ConstantPool>) -> (r: Result<Self, ClassFileError>) {
        let ghost b = old(s).rest();
        let bootstrap_method_ref = s.read_u2()?;
        assert(s.rest() =~= b.skip(2));
        let num_bootstrap_arguments = s.read_u2()?;
        assert(s.rest() =~= b.skip(4));
        proof {
            assert(b.skip(2).skip(2) =~= b.skip(4));
            assert(be16(b.skip(2), 0) == be16(b, 2));
            lemma_read_seq_no_abort::<u16>(s.rest(), cp_view(cp), num_bootstrap_arguments as nat);
        }
        let bootstrap_arguments = s.read_sequence::<u16>(cp, num_bootstrap_arguments as usize)?;
        proof {
            assert(views(bootstrap_arguments@) =~= bootstrap_arguments@);
        }
        Ok(Self { bootstrap_method_ref, bootstrap_arguments })
    }
}

} // verus!
