//! Attributes: what classes, fields, methods and code carry besides their
//! fixed parts.
use vstd::prelude::*;
use crate::item::views;
use crate::item::opcodes::{InstructionList, InstructionListV};

pub mod attrtype;
mod tables;
mod verification;
mod elements;
mod types;
mod collection;
pub mod reading;

pub use self::verification::{VerificationTypeInfo, StackMapFrame, StackMapFrameV, law_stack_map_tags};
pub use self::tables::{
    FormalParameterAccessFlags, MethodParametersElement, MethodParametersElementV, LocalVarTargetTableEntry,
    LocalVariableTypeTableEntry, LocalVariableTableEntry, LineNumberTableEntry, ClassArrayEntry,
    ClassArrayEntryV, ExceptionTableEntry, ExceptionTableEntryV, pc_interval, pc_interval_of, lemma_pc_interval,
};
pub use self::elements::{
    ElementValueType, ElementValue, ElementValueV, Annotation, AnnotationV, ElementValuePairElement,
    ElementValuePairElementV,
};
pub use self::types::{
    TypePathKind, TypePathEntry, TypePath, TargetInfoType, TargetInfoTypeV, TypeAnnotation, TypeAnnotationV,
    ParameterAnnotation, BootstrapMethodsElement, BootstrapMethodsElementV,
};
pub use self::collection::{AttributeGroups, group_index, lookup, grouped_insert, group_all, lemma_group_index, lemma_group_index_found, without_group};

verus! {

/// Attributes in a class file: used in the `ClassFile`, `field_info`,
/// `method_info` and `Code_attribute` structures.
#[derive(Debug)]
pub enum Attributes {
    /// The value of a constant field.
    ConstantValue {
        /// Index of the constant pool entry that gives the constant value.
        constantvalue_index: u16,
    },
    /// The instructions and auxiliary information of a method.
    Code {
        /// The maximum depth of the operand stack of this method.
        max_stack: u16,
        /// The number of local variables allocated upon invocation of this method.
        max_locals: u16,
        /// The instructions that implement the method.
        code: InstructionList,
        /// The exception handlers, in order.
        exception_table: Vec<ExceptionTableEntry>,
        /// The attributes of the code.
        attributes: AttributesCollection,
    },
    /// The stack map frames used in verification by type checking.
    StackMapTable { entries: Vec<StackMapFrame> },
    /// The checked exceptions a method may throw.
    Exceptions {
        /// Indices of CONSTANT_Class_info structures.
        exception_index_table: Vec<u16>,
    },
    /// The bootstrap method specifiers referenced by invokedynamic instructions.
    BootstrapMethods { bootstrap_methods: Vec<BootstrapMethodsElement> },
    /// The classes and interfaces that are not members of a package.
    InnerClasses { classes: Vec<ClassArrayEntry> },
    /// The method that encloses a local or anonymous class.
    EnclosingMethod {
        /// Index of the CONSTANT_Class_info structure of the innermost enclosing class.
        class_index: u16,
        /// Zero, or the index of the CONSTANT_NameAndType_info structure of the enclosing method.
        method_index: u16,
    },
    /// A class member that does not appear in the source code.
    Synthetic,
    /// The generic signature of a class, method or field.
    Signature {
        /// Index of a CONSTANT_Utf8_info structure holding the signature.
        signature_index: u16,
    },
    /// Run-time visible annotations on a declaration.
    RuntimeVisibleAnnotations { annotations: Vec<Annotation> },
    /// Run-time invisible annotations on a declaration.
    RuntimeInvisibleAnnotations { annotations: Vec<Annotation> },
    /// Run-time visible annotations on the formal parameters of a method.
    RuntimeVisibleParameterAnnotations { parameter_annotations: Vec<ParameterAnnotation> },
    /// Run-time invisible annotations on the formal parameters of a method.
    RuntimeInvisibleParameterAnnotations { parameter_annotations: Vec<ParameterAnnotation> },
    /// Run-time visible annotations on types.
    RuntimeVisibleTypeAnnotations { annotations: Vec<TypeAnnotation> },
    /// Run-time invisible annotations on types.
    RuntimeInvisibleTypeAnnotations { annotations: Vec<TypeAnnotation> },
    /// The default value of an element of an annotation type.
    AnnotationDefault { default_value: ElementValue },
    /// The formal parameters of a method.
    MethodParameters { parameters: Vec<MethodParametersElement> },
    /// The name of the source file.
    SourceFile {
        /// Index of a CONSTANT_Utf8_info structure holding the name.
        sourcefile_index: u16,
    },
    /// Extended debugging information.
    SourceDebugExtension { debug_extension: Vec<u8> },
    /// Which part of the code corresponds to which line of the source file.
    LineNumberTable { line_number_table: Vec<LineNumberTableEntry> },
    /// The local variables of a method.
    LocalVariableTable { local_variable_table: Vec<LocalVariableTableEntry> },
    /// The signatures of the local variables of a method.
    LocalVariableTypeTable { local_variable_type_table: Vec<LocalVariableTypeTableEntry> },
    /// The class, interface, method or field has been superseded.
    Deprecated,
}

/// Collection of all attributes, by name. Each name stands with the
/// attributes of that name, in the order they were read.
#[derive(Debug)]
pub struct AttributesCollection {
    pub collection: Vec<(String, Vec<Attributes>)>,
}

/// Mathematical form of [`Attributes`].
pub enum AttributesV {
    ConstantValue { constantvalue_index: u16 },
    Code {
        max_stack: u16,
        max_locals: u16,
        code: InstructionListV,
        exception_table: Seq<ExceptionTableEntryV>,
        attributes: Seq<(Seq<char>, Seq<AttributesV>)>,
    },
    StackMapTable { entries: Seq<StackMapFrameV> },
    Exceptions { exception_index_table: Seq<u16> },
    BootstrapMethods { bootstrap_methods: Seq<BootstrapMethodsElementV> },
    InnerClasses { classes: Seq<ClassArrayEntryV> },
    EnclosingMethod { class_index: u16, method_index: u16 },
    Synthetic,
    Signature { signature_index: u16 },
    RuntimeVisibleAnnotations { annotations: Seq<AnnotationV> },
    RuntimeInvisibleAnnotations { annotations: Seq<AnnotationV> },
    RuntimeVisibleParameterAnnotations { parameter_annotations: Seq<Seq<AnnotationV>> },
    RuntimeInvisibleParameterAnnotations { parameter_annotations: Seq<Seq<AnnotationV>> },
    RuntimeVisibleTypeAnnotations { annotations: Seq<TypeAnnotationV> },
    RuntimeInvisibleTypeAnnotations { annotations: Seq<TypeAnnotationV> },
    AnnotationDefault { default_value: ElementValueV },
    MethodParameters { parameters: Seq<MethodParametersElementV> },
    SourceFile { sourcefile_index: u16 },
    SourceDebugExtension { debug_extension: Seq<u8> },
    LineNumberTable { line_number_table: Seq<LineNumberTableEntry> },
    LocalVariableTable { local_variable_table: Seq<LocalVariableTableEntry> },
    LocalVariableTypeTable { local_variable_type_table: Seq<LocalVariableTypeTableEntry> },
    Deprecated,
}

/// The mathematical form of an attribute.
pub open spec fn attributes_view(a: Attributes) -> AttributesV
    decreases a,
{
    match a {
        Attributes::ConstantValue { constantvalue_index } => AttributesV::ConstantValue { constantvalue_index },
        Attributes::Code { max_stack, max_locals, code, exception_table, attributes } => AttributesV::Code {
            max_stack,
            max_locals,
            code: code@,
            exception_table: views(exception_table@),
            attributes: collection_view(attributes),
        },
        Attributes::StackMapTable { entries } => AttributesV::StackMapTable { entries: views(entries@) },
        Attributes::Exceptions { exception_index_table } => AttributesV::Exceptions { exception_index_table: exception_index_table@ },
        Attributes::BootstrapMethods { bootstrap_methods } => AttributesV::BootstrapMethods { bootstrap_methods: views(bootstrap_methods@) },
        Attributes::InnerClasses { classes } => AttributesV::InnerClasses { classes: views(classes@) },
        Attributes::EnclosingMethod { class_index, method_index } => AttributesV::EnclosingMethod { class_index, method_index },
        Attributes::Synthetic => AttributesV::Synthetic,
        Attributes::Signature { signature_index } => AttributesV::Signature { signature_index },
        Attributes::RuntimeVisibleAnnotations { annotations } => AttributesV::RuntimeVisibleAnnotations { annotations: views(annotations@) },
        Attributes::RuntimeInvisibleAnnotations { annotations } => AttributesV::RuntimeInvisibleAnnotations { annotations: views(annotations@) },
        Attributes::RuntimeVisibleParameterAnnotations { parameter_annotations } =>
            AttributesV::RuntimeVisibleParameterAnnotations { parameter_annotations: views(parameter_annotations@) },
        Attributes::RuntimeInvisibleParameterAnnotations { parameter_annotations } =>
            AttributesV::RuntimeInvisibleParameterAnnotations { parameter_annotations: views(parameter_annotations@) },
        Attributes::RuntimeVisibleTypeAnnotations { annotations } => AttributesV::RuntimeVisibleTypeAnnotations { annotations: views(annotations@) },
        Attributes::RuntimeInvisibleTypeAnnotations { annotations } => AttributesV::RuntimeInvisibleTypeAnnotations { annotations: views(annotations@) },
        Attributes::AnnotationDefault { default_value } => AttributesV::AnnotationDefault { default_value: default_value@ },
        Attributes::MethodParameters { parameters } => AttributesV::MethodParameters { parameters: views(parameters@) },
        Attributes::SourceFile { sourcefile_index } => AttributesV::SourceFile { sourcefile_index },
        Attributes::SourceDebugExtension { debug_extension } => AttributesV::SourceDebugExtension { debug_extension: debug_extension@ },
        Attributes::LineNumberTable { line_number_table } => AttributesV::LineNumberTable { line_number_table: views(line_number_table@) },
        Attributes::LocalVariableTable { local_variable_table } => AttributesV::LocalVariableTable { local_variable_table: views(local_variable_table@) },
        Attributes::LocalVariableTypeTable { local_variable_type_table } =>
            AttributesV::LocalVariableTypeTable { local_variable_type_table: views(local_variable_type_table@) },
        Attributes::Deprecated => AttributesV::Deprecated,
    }
}

/// The mathematical forms of attributes.
pub open spec fn attribute_list_view(s: Seq<Attributes>) -> Seq<AttributesV>
    decreases s,
{
    if s.len() == 0 {
        seq![]
    } else {
        attribute_list_view(s.drop_last()).push(attributes_view(s.last()))
    }
}

/// The mathematical forms of named groups of attributes.
pub open spec fn groups_view(s: Seq<(String, Vec<Attributes>)>) -> Seq<(Seq<char>, Seq<AttributesV>)>
    decreases s,
{
    if s.len() == 0 {
        seq![]
    } else {
        groups_view(s.drop_last()).push((s.last().0@, attribute_list_view(s.last().1@)))
    }
}

/// The mathematical form of a collection of attributes: each name with
/// the attributes of that name.
pub open spec fn collection_view(c: AttributesCollection) -> Seq<(Seq<char>, Seq<AttributesV>)>
    decreases c,
{
    groups_view(c.collection@)
}

impl View for Attributes {
    type V = AttributesV;

    open spec fn view(&self) -> AttributesV {
        attributes_view(*self)
    }
}

impl View for AttributesCollection {
    type V = Seq<(Seq<char>, Seq<AttributesV>)>;

    open spec fn view(&self) -> Seq<(Seq<char>, Seq<AttributesV>)> {
        collection_view(*self)
    }
}

/// Attribute lists: each element is the view of the attribute there.
pub proof fn lemma_attribute_list_view(s: Seq<Attributes>)
    ensures
        attribute_list_view(s).len() == s.len(),
        forall|i: int| 0 <= i < s.len() ==> #[trigger] attribute_list_view(s)[i] == attributes_view(s[i]),
    decreases s.len(),
{
    if s.len() > 0 {
        lemma_attribute_list_view(s.drop_last());
    }
}

/// Groups of attributes: each element is the view of the group there.
pub proof fn lemma_groups_view(s: Seq<(String, Vec<Attributes>)>)
    ensures
        groups_view(s).len() == s.len(),
        forall|i: int| 0 <= i < s.len() ==> #[trigger] groups_view(s)[i] == (s[i].0@, attribute_list_view(s[i].1@)),
    decreases s.len(),
{
    if s.len() > 0 {
        lemma_groups_view(s.drop_last());
    }
}

impl AttributesCollection {
    /// An empty collection.
    pub fn new() -> (r: Self)
        ensures
            r@ == Seq::<(Seq<char>, Seq<AttributesV>)>::empty(),
    {
        let r = Self { collection: Vec::new() };
        assert(groups_view(r.collection@) =~= Seq::<(Seq<char>, Seq<AttributesV>)>::empty());
        r
    }

    /// The position of the first group named `k`, if any.
    fn find(&self, k: &String) -> (r: Option<usize>)
        ensures
            match r {
                Some(i) => group_index(self@, k@) == Some(i as nat) && i < self.collection@.len(),
                None => group_index(self@, k@) is None,
            },
    {
        proof {
            lemma_groups_view(self.collection@);
        }
        let mut i: usize = 0;
        while i < self.collection.len()
            invariant
                i <= self.collection@.len(),
                groups_view(self.collection@).len() == self.collection@.len(),
                forall|j: int| 0 <= j < self.collection@.len() ==> #[trigger] groups_view(self.collection@)[j]
                    == (self.collection@[j].0@, attribute_list_view(self.collection@[j].1@)),
                forall|j: int| 0 <= j < i ==> #[trigger] groups_view(self.collection@)[j].0 != k@,
            decreases self.collection.len() - i,
        {
            if self.collection[i].0 == *k {
                proof {
                    assert(groups_view(self.collection@)[i as int].0 == k@);
                    lemma_group_index(self@, k@, i as nat);
                }
                return Some(i);
            }
            i = i + 1;
        }
        proof {
            lemma_group_index(self@, k@, i as nat);
        }
        None
    }

    /// Insert an attribute in to the collection: at the end of the group
    /// named `k`, or in a new group at the end.
    fn insert(&mut self, k: String, v: Attributes)
        ensures
            final(self)@ == grouped_insert(old(self)@, k@, v@),
    {
        let ghost g = self@;
        proof {
            lemma_groups_view(self.collection@);
        }
        match self.find(&k) {
            Some(i) => {
                let ghost s0 = self.collection@;
                let (name, mut list) = self.collection.remove(i);
                let ghost l0 = list@;
                proof {
                    lemma_group_index_found(g, k@);
                    assert(g[i as int] == (s0[i as int].0@, attribute_list_view(s0[i as int].1@)));
                }
                list.push(v);
                assert(list@.drop_last() =~= l0);
                assert(attribute_list_view(list@) == attribute_list_view(l0).push(v@));
                self.collection.insert(i, (name, list));
                proof {
                    lemma_groups_view(self.collection@);
                    assert(self.collection@ =~= s0.update(i as int, (name, list)));
                    assert(groups_view(self.collection@) =~= g.update(i as int, (k@, g[i as int].1.push(v@))));
                }
            },
            None => {
                let ghost s0 = self.collection@;
                let mut list: Vec<Attributes> = Vec::new();
                list.push(v);
                self.collection.push((k, list));
                proof {
                    assert(self.collection@.drop_last() =~= s0);
                    assert(list@.drop_last() =~= Seq::<Attributes>::empty());
                    assert(attribute_list_view(list@.drop_last()) =~= Seq::<AttributesV>::empty());
                    assert(attribute_list_view(list@) =~= seq![v@]);
                }
            },
        }
    }

    /// The attributes named `k` (none where there are none).
    pub fn get(&self, k: &str) -> (r: &[Attributes])
        ensures
            attribute_list_view(r@) == lookup(self@, k@),
    {
        proof {
            lemma_groups_view(self.collection@);
        }
        let key = k.to_owned();
        match self.find(&key) {
            Some(i) => {
                let r = self.collection[i].1.as_slice();
                assert(r@ == self.collection@[i as int].1@);
                r
            },
            None => {
                let r: &[Attributes] = &[];
                assert(r@ =~= Seq::<Attributes>::empty());
                assert(attribute_list_view(r@) =~= Seq::<AttributesV>::empty());
                r
            },
        }
    }

    /// Take the attributes named `k` out of the collection (none where
    /// there are none).
    pub fn take(&mut self, k: &str) -> (r: Vec<Attributes>)
        ensures
            attribute_list_view(r@) == lookup(old(self)@, k@),
            final(self)@ == without_group(old(self)@, k@),
    {
        proof {
            lemma_groups_view(self.collection@);
        }
        let key = k.to_owned();
        match self.find(&key) {
            Some(i) => {
                let ghost s0 = self.collection@;
                let (_, list) = self.collection.remove(i);
                assert(list == s0[i as int].1);
                proof {
                    lemma_groups_view(self.collection@);
                    assert(groups_view(self.collection@) =~= groups_view(s0).remove(i as int));
                }
                list
            },
            None => {
                assert(attribute_list_view(Seq::<Attributes>::empty()) =~= Seq::<AttributesV>::empty());
                Vec::new()
            },
        }
    }
}

} // verus!
