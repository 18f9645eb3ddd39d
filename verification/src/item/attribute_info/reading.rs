//! Reading attributes.
use vstd::prelude::*;
use crate::error::{ClassFileError, ClassFileErrorV};
use crate::stream::{ClassFileStream, be16, be32, reads_as};
use crate::item::{ClassFileItem, ConstantPool, ConstantPoolV, read_seq, views, cp_view, never_aborts, within_bytes,
    lemma_read_seq_no_abort, lemma_read_seq_len};
use crate::item::opcodes::InstructionList;
use crate::item::attribute_info::{
    Attributes, AttributesV, AttributesCollection, ExceptionTableEntry, VerificationTypeInfo, StackMapFrame, StackMapFrameV,
    ClassArrayEntry, LineNumberTableEntry, LocalVariableTableEntry, LocalVariableTypeTableEntry, LocalVarTargetTableEntry,
    TypePathEntry, Annotation, AnnotationV, ParameterAnnotation, TypeAnnotation, TypeAnnotationV, BootstrapMethodsElement,
    BootstrapMethodsElementV, MethodParametersElement, ElementValue, AttributeGroups, group_all, attrtype,
};
use crate::item::attribute_info::verification::read_types;
use crate::item::attribute_info::types::{counted, spec_target_info};
use crate::item::attribute_info::elements::{lemma_annotation_no_abort, lemma_pairs_no_abort, lemma_element_value_no_abort, then_seq};

verus! {

/// Reading a fixed-size item never stops the program, and the item takes
/// no more bytes than there are.
pub proof fn lemma_fixed_items(cp: Option<ConstantPoolV>)
    ensures
        never_aborts::<u8>(cp),
        never_aborts::<u16>(cp),
        never_aborts::<ExceptionTableEntry>(cp),
        never_aborts::<ClassArrayEntry>(cp),
        never_aborts::<LineNumberTableEntry>(cp),
        never_aborts::<LocalVariableTableEntry>(cp),
        never_aborts::<LocalVariableTypeTableEntry>(cp),
        never_aborts::<MethodParametersElement>(cp),
        within_bytes::<u8>(cp),
        within_bytes::<ExceptionTableEntry>(cp),
{
    broadcast use crate::item::attribute_info::tables::lemma_pc_interval;
}

/// Reading a stack map frame never stops the program.
pub proof fn lemma_stack_map_frames(cp: Option<ConstantPoolV>)
    ensures
        never_aborts::<StackMapFrame>(cp),
{
    assert forall|x: Seq<u8>| #[trigger] StackMapFrame::spec_read(x, cp)
        != Err::<(StackMapFrameV, nat), ClassFileErrorV>(ClassFileErrorV::Aborts) by {
        assert(never_aborts::<VerificationTypeInfo>(None));
        assert(never_aborts::<VerificationTypeInfo>(cp));
        if x.len() >= 1 {
            let b = x.skip(1);
            lemma_read_seq_no_abort::<VerificationTypeInfo>(b.skip(2), None, (x[0] - 251) as nat);
            if b.len() >= 4 {
                lemma_read_seq_no_abort::<VerificationTypeInfo>(b.skip(4), None, be16(b, 2) as nat);
                if let Ok((_, n)) = read_types(b.skip(4), be16(b, 2) as nat) {
                    let c = b.skip(4 + n as int);
                    if c.len() >= 2 {
                        lemma_read_seq_no_abort::<VerificationTypeInfo>(c.skip(2), None, be16(c, 0) as nat);
                    }
                }
            }
        }
    }
}

/// Reading an annotation, or the annotations of a parameter, never stops
/// the program.
pub proof fn lemma_annotations(cp: Option<ConstantPoolV>)
    ensures
        never_aborts::<Annotation>(cp),
        never_aborts::<ParameterAnnotation>(cp),
{
    assert forall|x: Seq<u8>| #[trigger] Annotation::spec_read(x, cp)
        != Err::<(AnnotationV, nat), ClassFileErrorV>(ClassFileErrorV::Aborts) by {
        lemma_annotation_no_abort(x);
    }
    assert forall|x: Seq<u8>| #[trigger] ParameterAnnotation::spec_read(x, cp)
        != Err::<(Seq<AnnotationV>, nat), ClassFileErrorV>(ClassFileErrorV::Aborts) by {
        if x.len() >= 2 {
            lemma_read_seq_no_abort::<Annotation>(x.skip(2), cp, be16(x, 0) as nat);
        }
    }
}

/// Reading a type annotation never stops the program.
pub proof fn lemma_type_annotations(cp: Option<ConstantPoolV>)
    ensures
        never_aborts::<TypeAnnotation>(cp),
{
    broadcast use crate::item::attribute_info::tables::lemma_pc_interval;
    assert(never_aborts::<LocalVarTargetTableEntry>(cp));
    assert(never_aborts::<TypePathEntry>(cp));
    assert forall|x: Seq<u8>| #[trigger] TypeAnnotation::spec_read(x, cp)
        != Err::<(TypeAnnotationV, nat), ClassFileErrorV>(ClassFileErrorV::Aborts) by {
        if x.len() >= 3 {
            lemma_read_seq_no_abort::<LocalVarTargetTableEntry>(x.skip(1).skip(2), cp, be16(x.skip(1), 0) as nat);
        }
        if let Ok((_, n1)) = spec_target_info(x, cp) {
            let y = x.skip(n1 as int);
            if y.len() >= 2 {
                lemma_read_seq_no_abort::<TypePathEntry>(y.skip(2), cp, be16(y, 0) as nat);
            }
            if let Ok((_, n2)) = counted::<TypePathEntry>(y, cp) {
                let c = x.skip((n1 + n2) as int);
                if c.len() >= 4 {
                    lemma_pairs_no_abort(c.skip(4), be16(c, 2) as nat);
                }
            }
        }
    }
}

/// Reading a bootstrap method never stops the program.
pub proof fn lemma_bootstrap_methods(cp: Option<ConstantPoolV>)
    ensures
        never_aborts::<BootstrapMethodsElement>(cp),
{
    assert(never_aborts::<u16>(cp));
    assert forall|x: Seq<u8>| #[trigger] BootstrapMethodsElement::spec_read(x, cp)
        != Err::<(BootstrapMethodsElementV, nat), ClassFileErrorV>(ClassFileErrorV::Aborts) by {
        if x.len() >= 4 {
            lemma_read_seq_no_abort::<u16>(x.skip(2).skip(2), cp, be16(x.skip(2), 0) as nat);
        }
    }
}

/// What reading a count of `T`s (one byte) and that many `T`s from the
/// front of `b` gives.
pub open spec fn counted1<T: ClassFileItem>(b: Seq<u8>, cp: Option<ConstantPoolV>) -> Result<(Seq<T::V>, nat), ClassFileErrorV> {
    if b.len() < 1 {
        Err(ClassFileErrorV::IoError)
    } else {
        match read_seq::<T>(b.skip(1), cp, b[0] as nat) {
            Ok((vs, n)) => Ok((vs, 1 + n)),
            Err(e) => Err(e),
        }
    }
}

/// The items read by `r`, without how many bytes they took.
pub open spec fn items<V>(r: Result<(V, nat), ClassFileErrorV>) -> Result<V, ClassFileErrorV> {
    match r {
        Ok((v, _)) => Ok(v),
        Err(e) => Err(e),
    }
}

/// What reading the `Code` attribute whose bytes are `info` gives.
pub open spec fn spec_code_attribute(info: Seq<u8>, cp: Option<ConstantPoolV>) -> Result<AttributesV, ClassFileErrorV>
    decreases info.len(), 0nat,
{
    if info.len() < 8 {
        Err(ClassFileErrorV::IoError)
    } else {
        match read_seq::<u8>(info.skip(8), cp, be32(info, 4) as nat) {
            Err(e) => Err(e),
            Ok((code, k1)) => if 8 + k1 > info.len() {
                Err(ClassFileErrorV::IoError)
            } else {
                let c = info.skip(8 + k1 as int);
                if c.len() < 2 {
                    Err(ClassFileErrorV::IoError)
                } else {
                    match read_seq::<ExceptionTableEntry>(c.skip(2), cp, be16(c, 0) as nat) {
                        Err(e) => Err(e),
                        Ok((exception_table, k2)) => if 2 + k2 > c.len() {
                            Err(ClassFileErrorV::IoError)
                        } else {
                            match spec_attributes(c.skip(2 + k2 as int), cp) {
                                Err(e) => Err(e),
                                Ok((attributes, _)) => match InstructionList::spec_read(code, cp) {
                                    Err(e) => Err(e),
                                    Ok((list, _)) => Ok(AttributesV::Code {
                                        max_stack: be16(info, 0),
                                        max_locals: be16(info, 2),
                                        code: list,
                                        exception_table,
                                        attributes,
                                    }),
                                },
                            }
                        },
                    }
                }
            },
        }
    }
}

/// What reading the attribute named `name` whose bytes are `info` gives.
#[verifier::opaque]
pub open spec fn spec_attribute(name: Seq<char>, info: Seq<u8>, cp: Option<ConstantPoolV>) -> Result<AttributesV, ClassFileErrorV>
    decreases info.len(), 1nat,
{
    if name == attrtype::ConstantValue@ {
        if info.len() < 2 {
            Err(ClassFileErrorV::IoError)
        } else {
            Ok(AttributesV::ConstantValue { constantvalue_index: be16(info, 0) })
        }
    } else if name == attrtype::Code@ {
        spec_code_attribute(info, cp)
    } else if name == attrtype::StackMapTable@ {
        match items(counted::<StackMapFrame>(info, cp)) {
            Ok(entries) => Ok(AttributesV::StackMapTable { entries }),
            Err(e) => Err(e),
        }
    } else if name == attrtype::Exceptions@ {
        match items(counted::<u16>(info, cp)) {
            Ok(exception_index_table) => Ok(AttributesV::Exceptions { exception_index_table }),
            Err(e) => Err(e),
        }
    } else if name == attrtype::InnerClasses@ {
        match items(counted::<ClassArrayEntry>(info, cp)) {
            Ok(classes) => Ok(AttributesV::InnerClasses { classes }),
            Err(e) => Err(e),
        }
    } else if name == attrtype::EnclosingMethod@ {
        if info.len() < 4 {
            Err(ClassFileErrorV::IoError)
        } else {
            Ok(AttributesV::EnclosingMethod { class_index: be16(info, 0), method_index: be16(info, 2) })
        }
    } else if name == attrtype::Synthetic@ {
        Ok(AttributesV::Synthetic)
    } else if name == attrtype::Signature@ {
        if info.len() < 2 {
            Err(ClassFileErrorV::IoError)
        } else {
            Ok(AttributesV::Signature { signature_index: be16(info, 0) })
        }
    } else {
        spec_attribute_more(name, info, cp)
    }
}

/// [`spec_attribute`] for the names after `Signature`.
#[verifier::opaque]
pub open spec fn spec_attribute_more(name: Seq<char>, info: Seq<u8>, cp: Option<ConstantPoolV>) -> Result<AttributesV, ClassFileErrorV> {
    if name == attrtype::SourceFile@ {
        if info.len() < 2 {
            Err(ClassFileErrorV::IoError)
        } else {
            Ok(AttributesV::SourceFile { sourcefile_index: be16(info, 0) })
        }
    } else if name == attrtype::SourceDebugExtension@ {
        Ok(AttributesV::SourceDebugExtension { debug_extension: info })
    } else if name == attrtype::LineNumberTable@ {
        match items(counted::<LineNumberTableEntry>(info, cp)) {
            Ok(line_number_table) => Ok(AttributesV::LineNumberTable { line_number_table }),
            Err(e) => Err(e),
        }
    } else if name == attrtype::LocalVariableTable@ {
        match items(counted::<LocalVariableTableEntry>(info, cp)) {
            Ok(local_variable_table) => Ok(AttributesV::LocalVariableTable { local_variable_table }),
            Err(e) => Err(e),
        }
    } else if name == attrtype::LocalVariableTypeTable@ {
        match items(counted::<LocalVariableTypeTableEntry>(info, cp)) {
            Ok(local_variable_type_table) => Ok(AttributesV::LocalVariableTypeTable { local_variable_type_table }),
            Err(e) => Err(e),
        }
    } else if name == attrtype::Deprecated@ {
        Ok(AttributesV::Deprecated)
    } else if name == attrtype::RuntimeVisibleAnnotations@ {
        match items(counted::<Annotation>(info, cp)) {
            Ok(annotations) => Ok(AttributesV::RuntimeVisibleAnnotations { annotations }),
            Err(e) => Err(e),
        }
    } else if name == attrtype::RuntimeInvisibleAnnotations@ {
        match items(counted::<Annotation>(info, cp)) {
            Ok(annotations) => Ok(AttributesV::RuntimeInvisibleAnnotations { annotations }),
            Err(e) => Err(e),
        }
    } else {
        spec_attribute_rest(name, info, cp)
    }
}

/// [`spec_attribute`] for the names after `RuntimeInvisibleAnnotations`.
#[verifier::opaque]
pub open spec fn spec_attribute_rest(name: Seq<char>, info: Seq<u8>, cp: Option<ConstantPoolV>) -> Result<AttributesV, ClassFileErrorV> {
    if name == attrtype::RuntimeVisibleParameterAnnotations@ {
        match items(counted1::<ParameterAnnotation>(info, cp)) {
            Ok(parameter_annotations) => Ok(AttributesV::RuntimeVisibleParameterAnnotations { parameter_annotations }),
            Err(e) => Err(e),
        }
    } else if name == attrtype::RuntimeInvisibleParameterAnnotations@ {
        match items(counted1::<ParameterAnnotation>(info, cp)) {
            Ok(parameter_annotations) => Ok(AttributesV::RuntimeInvisibleParameterAnnotations { parameter_annotations }),
            Err(e) => Err(e),
        }
    } else if name == attrtype::RuntimeVisibleTypeAnnotations@ {
        match items(counted::<TypeAnnotation>(info, cp)) {
            Ok(annotations) => Ok(AttributesV::RuntimeVisibleTypeAnnotations { annotations }),
            Err(e) => Err(e),
        }
    } else if name == attrtype::RuntimeInvisibleTypeAnnotations@ {
        match items(counted::<TypeAnnotation>(info, cp)) {
            Ok(annotations) => Ok(AttributesV::RuntimeInvisibleTypeAnnotations { annotations }),
            Err(e) => Err(e),
        }
    } else if name == attrtype::AnnotationDefault@ {
        match items(ElementValue::spec_read(info, cp)) {
            Ok(default_value) => Ok(AttributesV::AnnotationDefault { default_value }),
            Err(e) => Err(e),
        }
    } else if name == attrtype::BootstrapMethods@ {
        match items(counted::<BootstrapMethodsElement>(info, cp)) {
            Ok(bootstrap_methods) => Ok(AttributesV::BootstrapMethods { bootstrap_methods }),
            Err(e) => Err(e),
        }
    } else if name == attrtype::MethodParameters@ {
        match items(counted1::<MethodParametersElement>(info, cp)) {
            Ok(parameters) => Ok(AttributesV::MethodParameters { parameters }),
            Err(e) => Err(e),
        }
    } else {
        Err(ClassFileErrorV::UnknownAttribute(name))
    }
}

/// The `Code` attribute starts with the operand stack's size and the
/// number of locals, two bytes each, high byte first, then the code's
/// length in four bytes; fewer than eight bytes give an I/O error.
pub proof fn law_code_attribute_header(info: Seq<u8>, cp: Option<ConstantPoolV>)
    ensures
        spec_attribute("Code"@, info, cp) == spec_code_attribute(info, cp),
        info.len() < 8 ==> spec_code_attribute(info, cp) == Err::<AttributesV, ClassFileErrorV>(ClassFileErrorV::IoError),
        spec_code_attribute(info, cp) is Ok ==> {
            &&& spec_code_attribute(info, cp)->Ok_0 is Code
            &&& (spec_code_attribute(info, cp)->Ok_0)->max_stack == (info[0] as int * 0x100 + info[1] as int) as u16
            &&& (spec_code_attribute(info, cp)->Ok_0)->max_locals == (info[2] as int * 0x100 + info[3] as int) as u16
        },
{
    reveal(spec_attribute);
    reveal_strlit("Code");
    reveal_strlit("ConstantValue");
    assert("Code"@.len() != "ConstantValue"@.len());
}

/// The attributes of a fixed layout, by their names: `ConstantValue` and
/// `Signature` and `SourceFile` hold a two-byte index, `EnclosingMethod` a
/// class and a method index, each high byte first (fewer bytes give an I/O
/// error); `Synthetic` and `Deprecated` hold nothing to read; and
/// `SourceDebugExtension` holds its bytes as they are.
#[verifier::rlimit(40)]
pub proof fn law_simple_attributes(info: Seq<u8>, cp: Option<ConstantPoolV>)
    ensures
        ({
            let first = (info[0] as int * 0x100 + info[1] as int) as u16;
            let second = (info[2] as int * 0x100 + info[3] as int) as u16;
            &&& spec_attribute("ConstantValue"@, info, cp) == if info.len() < 2 {
                Err::<AttributesV, ClassFileErrorV>(ClassFileErrorV::IoError)
            } else {
                Ok::<AttributesV, ClassFileErrorV>(AttributesV::ConstantValue { constantvalue_index: first })
            }
            &&& spec_attribute("Signature"@, info, cp) == if info.len() < 2 {
                Err::<AttributesV, ClassFileErrorV>(ClassFileErrorV::IoError)
            } else {
                Ok::<AttributesV, ClassFileErrorV>(AttributesV::Signature { signature_index: first })
            }
            &&& spec_attribute("SourceFile"@, info, cp) == if info.len() < 2 {
                Err::<AttributesV, ClassFileErrorV>(ClassFileErrorV::IoError)
            } else {
                Ok::<AttributesV, ClassFileErrorV>(AttributesV::SourceFile { sourcefile_index: first })
            }
            &&& spec_attribute("EnclosingMethod"@, info, cp) == if info.len() < 4 {
                Err::<AttributesV, ClassFileErrorV>(ClassFileErrorV::IoError)
            } else {
                Ok::<AttributesV, ClassFileErrorV>(AttributesV::EnclosingMethod { class_index: first, method_index: second })
            }
            &&& spec_attribute("Synthetic"@, info, cp) == Ok::<AttributesV, ClassFileErrorV>(AttributesV::Synthetic)
            &&& spec_attribute("Deprecated"@, info, cp) == Ok::<AttributesV, ClassFileErrorV>(AttributesV::Deprecated)
            &&& spec_attribute("SourceDebugExtension"@, info, cp)
                == Ok::<AttributesV, ClassFileErrorV>(AttributesV::SourceDebugExtension { debug_extension: info })
        }),
{
    reveal(spec_attribute);
    reveal(spec_attribute_more);
    reveal_strlit("ConstantValue");
    reveal_strlit("Code");
    reveal_strlit("StackMapTable");
    reveal_strlit("Exceptions");
    reveal_strlit("InnerClasses");
    reveal_strlit("EnclosingMethod");
    reveal_strlit("Synthetic");
    reveal_strlit("Signature");
    reveal_strlit("SourceFile");
    reveal_strlit("SourceDebugExtension");
    reveal_strlit("LineNumberTable");
    reveal_strlit("LocalVariableTable");
    reveal_strlit("LocalVariableTypeTable");
    reveal_strlit("Deprecated");
    // Each name differs from those tested before it, in length or in a character.
    assert("Signature"@.len() != "ConstantValue"@.len());
    assert("Signature"@.len() != "Code"@.len());
    assert("Signature"@.len() != "StackMapTable"@.len());
    assert("Signature"@.len() != "Exceptions"@.len());
    assert("Signature"@.len() != "InnerClasses"@.len());
    assert("Signature"@.len() != "EnclosingMethod"@.len());
    assert("Signature"@[1] != "Synthetic"@[1]);
    assert("SourceFile"@.len() != "ConstantValue"@.len());
    assert("SourceFile"@.len() != "Code"@.len());
    assert("SourceFile"@.len() != "StackMapTable"@.len());
    assert("SourceFile"@[0] != "Exceptions"@[0]);
    assert("SourceFile"@.len() != "InnerClasses"@.len());
    assert("SourceFile"@.len() != "EnclosingMethod"@.len());
    assert("SourceFile"@.len() != "Synthetic"@.len());
    assert("SourceFile"@.len() != "Signature"@.len());
    assert("EnclosingMethod"@.len() != "ConstantValue"@.len());
    assert("EnclosingMethod"@.len() != "Code"@.len());
    assert("EnclosingMethod"@.len() != "StackMapTable"@.len());
    assert("EnclosingMethod"@.len() != "Exceptions"@.len());
    assert("EnclosingMethod"@.len() != "InnerClasses"@.len());
    assert("Synthetic"@.len() != "ConstantValue"@.len());
    assert("Synthetic"@.len() != "Code"@.len());
    assert("Synthetic"@.len() != "StackMapTable"@.len());
    assert("Synthetic"@.len() != "Exceptions"@.len());
    assert("Synthetic"@.len() != "InnerClasses"@.len());
    assert("Synthetic"@.len() != "EnclosingMethod"@.len());
    assert("Deprecated"@.len() != "ConstantValue"@.len());
    assert("Deprecated"@.len() != "Code"@.len());
    assert("Deprecated"@.len() != "StackMapTable"@.len());
    assert("Deprecated"@[0] != "Exceptions"@[0]);
    assert("Deprecated"@.len() != "InnerClasses"@.len());
    assert("Deprecated"@.len() != "EnclosingMethod"@.len());
    assert("Deprecated"@.len() != "Synthetic"@.len());
    assert("Deprecated"@.len() != "Signature"@.len());
    assert("Deprecated"@[0] != "SourceFile"@[0]);
    assert("Deprecated"@.len() != "SourceDebugExtension"@.len());
    assert("Deprecated"@.len() != "LineNumberTable"@.len());
    assert("Deprecated"@.len() != "LocalVariableTable"@.len());
    assert("Deprecated"@.len() != "LocalVariableTypeTable"@.len());
    assert("SourceDebugExtension"@.len() != "ConstantValue"@.len());
    assert("SourceDebugExtension"@.len() != "Code"@.len());
    assert("SourceDebugExtension"@.len() != "StackMapTable"@.len());
    assert("SourceDebugExtension"@.len() != "Exceptions"@.len());
    assert("SourceDebugExtension"@.len() != "InnerClasses"@.len());
    assert("SourceDebugExtension"@.len() != "EnclosingMethod"@.len());
    assert("SourceDebugExtension"@.len() != "Synthetic"@.len());
    assert("SourceDebugExtension"@.len() != "Signature"@.len());
    assert("SourceDebugExtension"@.len() != "SourceFile"@.len());
}

/// What reading `n` attributes one after another from the front of `b`
/// gives: each with its name. Each is its name's index (two bytes), its
/// length (four bytes) and that many bytes, read as the attribute the name
/// calls for. Without a constant pool, or with a name index outside it,
/// the program stops.
pub open spec fn spec_attribute_entries(b: Seq<u8>, cp: Option<ConstantPoolV>, n: nat) -> Result<(Seq<(Seq<char>, AttributesV)>, nat), ClassFileErrorV>
    decreases b.len(), 2nat,
{
    if n == 0 {
        Ok((seq![], 0))
    } else {
        match cp {
            None => Err(ClassFileErrorV::Aborts),
            Some(pool) => if b.len() < 6 {
                Err(ClassFileErrorV::IoError)
            } else {
                let l = be32(b, 2) as nat;
                let idx = be16(b, 0) as int;
                if b.len() < 6 + l {
                    Err(ClassFileErrorV::IoError)
                } else if !crate::item::constant_pool::in_pool(pool, idx) {
                    Err(ClassFileErrorV::Aborts)
                } else {
                    match pool[idx - 1] {
                        crate::item::constant_pool::ConstantPoolEntryV::Utf8 { data } =>
                            match spec_attribute(data, b.subrange(6, 6 + l as int), cp) {
                                Err(e) => Err(e),
                                Ok(a) => match spec_attribute_entries(b.skip(6 + l as int), cp, (n - 1) as nat) {
                                    Ok((rest, m)) => Ok((seq![(data, a)] + rest, 6 + l + m)),
                                    Err(e) => Err(e),
                                },
                            },
                        _ => Err(ClassFileErrorV::ExpectedString),
                    }
                }
            },
        }
    }
}

/// What reading a collection of attributes from the front of `b` gives:
/// their count (two bytes), then the attributes, grouped by name.
pub open spec fn spec_attributes(b: Seq<u8>, cp: Option<ConstantPoolV>) -> Result<(AttributeGroups, nat), ClassFileErrorV>
    decreases b.len(), 3nat,
{
    if b.len() < 2 {
        Err(ClassFileErrorV::IoError)
    } else {
        match spec_attribute_entries(b.skip(2), cp, be16(b, 0) as nat) {
            Ok((pairs, k)) => Ok((group_all(pairs), 2 + k)),
            Err(e) => Err(e),
        }
    }
}

/// Read the `Code` attribute that the stream holds.
fn read_code_attribute(s: &mut ClassFileStream, cp: &ConstantPool) -> (r: Result<Attributes, ClassFileError>)
    requires
        old(s).wf(),
        spec_code_attribute(old(s).rest(), Some(cp@)) != Err::<AttributesV, ClassFileErrorV>(ClassFileErrorV::Aborts),
    ensures
        final(s).wf(),
        final(s).data() == old(s).data(),
        match spec_code_attribute(old(s).rest(), Some(cp@)) {
            Ok(v) => r matches Ok(x) && x@ == v,
            Err(e) => r matches Err(x) && x@ == e,
        },
    decreases old(s).rest().len(), 0nat,
{
    let ghost info = old(s).rest();
    let ghost cpv = Some(cp@);
    proof {
        lemma_fixed_items(cpv);
    }
    assert(cp_view(Some(cp)) == cpv);
    let max_stack = s.read_u2()?;
    assert(s.rest() =~= info.skip(2));
    let max_locals = s.read_u2()?;
    assert(s.rest() =~= info.skip(4));
    let code_length = s.read_u4()?;
    assert(s.rest() =~= info.skip(8));
    proof {
        lemma_read_seq_no_abort::<u8>(info.skip(8), cpv, code_length as nat);
        lemma_read_seq_len::<u8>(info.skip(8), cpv, code_length as nat);
    }
    let code = s.read_sequence::<u8>(Some(cp), code_length as usize)?;
    let ghost k1 = (s.pos() - old(s).pos() - 8) as nat;
    let ghost c = info.skip(8 + k1 as int);
    assert(s.rest() =~= c);
    let exception_table_length = s.read_u2()?;
    assert(s.rest() =~= c.skip(2));
    proof {
        lemma_read_seq_no_abort::<ExceptionTableEntry>(c.skip(2), cpv, exception_table_length as nat);
        lemma_read_seq_len::<ExceptionTableEntry>(c.skip(2), cpv, exception_table_length as nat);
    }
    let exception_table = s.read_sequence::<ExceptionTableEntry>(Some(cp), exception_table_length as usize)?;
    let ghost k2 = (s.pos() - old(s).pos() - 10 - k1) as nat;
    assert(s.rest() =~= c.skip(2 + k2 as int));
    let attributes = read_attributes(s, Some(cp))?;
    assert(views(code@) =~= code@);
    let mut code_stream = ClassFileStream::new(code);
    let code = InstructionList::read_from_stream(&mut code_stream, Some(cp))?;
    Ok(Attributes::Code { max_stack, max_locals, code, exception_table, attributes })
}

/// Read the attribute named `name` that the stream holds (`length` bytes).
#[verifier::rlimit(100)]
#[verifier::spinoff_prover]
fn read_attribute(name: &str, s: &mut ClassFileStream, length: u32, cp: &ConstantPool) -> (r: Result<Attributes, ClassFileError>)
    requires
        old(s).wf(),
        old(s).rest().len() == length,
        spec_attribute(name@, old(s).rest(), Some(cp@)) != Err::<AttributesV, ClassFileErrorV>(ClassFileErrorV::Aborts),
    ensures
        final(s).wf(),
        final(s).data() == old(s).data(),
        match spec_attribute(name@, old(s).rest(), Some(cp@)) {
            Ok(v) => r matches Ok(x) && x@ == v,
            Err(e) => r matches Err(x) && x@ == e,
        },
    decreases old(s).rest().len(), 1nat,
{
    let ghost info = old(s).rest();
    let ghost cpv = Some(cp@);
    proof {
        reveal(spec_attribute);
    }
    assert(cp_view(Some(cp)) == cpv);
    if crate::text::str_eq(name, attrtype::ConstantValue) {
        Ok(Attributes::ConstantValue { constantvalue_index: s.read_u2()? })
    } else if crate::text::str_eq(name, attrtype::Code) {
        read_code_attribute(s, cp)
    } else if crate::text::str_eq(name, attrtype::StackMapTable) {
        let number_of_entries = s.read_u2()?;
        assert(s.rest() =~= info.skip(2));
        proof {
            lemma_stack_map_frames(cpv);
            lemma_read_seq_no_abort::<StackMapFrame>(info.skip(2), cpv, number_of_entries as nat);
        }
        let entries = s.read_sequence::<StackMapFrame>(Some(cp), number_of_entries as usize)?;
        Ok(Attributes::StackMapTable { entries })
    } else if crate::text::str_eq(name, attrtype::Exceptions) {
        let number_of_exceptions = s.read_u2()?;
        assert(s.rest() =~= info.skip(2));
        proof {
            lemma_fixed_items(cpv);
            lemma_read_seq_no_abort::<u16>(info.skip(2), cpv, number_of_exceptions as nat);
        }
        let exception_index_table = s.read_sequence::<u16>(Some(cp), number_of_exceptions as usize)?;
        assert(views(exception_index_table@) =~= exception_index_table@);
        Ok(Attributes::Exceptions { exception_index_table })
    } else if crate::text::str_eq(name, attrtype::InnerClasses) {
        let number_of_classes = s.read_u2()?;
        assert(s.rest() =~= info.skip(2));
        proof {
            lemma_fixed_items(cpv);
            lemma_read_seq_no_abort::<ClassArrayEntry>(info.skip(2), cpv, number_of_classes as nat);
        }
        Ok(Attributes::InnerClasses { classes: s.read_sequence(Some(cp), number_of_classes as usize)? })
    } else if crate::text::str_eq(name, attrtype::EnclosingMethod) {
        let class_index = s.read_u2()?;
        assert(s.rest() =~= info.skip(2));
        let method_index = s.read_u2()?;
        Ok(Attributes::EnclosingMethod { class_index, method_index })
    } else if crate::text::str_eq(name, attrtype::Synthetic) {
        Ok(Attributes::Synthetic)
    } else if crate::text::str_eq(name, attrtype::Signature) {
        Ok(Attributes::Signature { signature_index: s.read_u2()? })
    } else {
        read_attribute_more(name, s, length, cp)
    }
}

/// [`read_attribute`] for the names after `Signature`.
fn read_attribute_more(name: &str, s: &mut ClassFileStream, length: u32, cp: &ConstantPool) -> (r: Result<Attributes, ClassFileError>)
    requires
        old(s).wf(),
        old(s).rest().len() == length,
        spec_attribute_more(name@, old(s).rest(), Some(cp@)) != Err::<AttributesV, ClassFileErrorV>(ClassFileErrorV::Aborts),
    ensures
        final(s).wf(),
        final(s).data() == old(s).data(),
        match spec_attribute_more(name@, old(s).rest(), Some(cp@)) {
            Ok(v) => r matches Ok(x) && x@ == v,
            Err(e) => r matches Err(x) && x@ == e,
        },
{
    let ghost info = old(s).rest();
    let ghost cpv = Some(cp@);
    proof {
        reveal(spec_attribute_more);
    }
    assert(cp_view(Some(cp)) == cpv);
    if crate::text::str_eq(name, attrtype::SourceFile) {
        Ok(Attributes::SourceFile { sourcefile_index: s.read_u2()? })
    } else if crate::text::str_eq(name, attrtype::SourceDebugExtension) {
        let bytes = s.read_dynamic(length as usize)?;
        assert(bytes@ =~= info);
        Ok(Attributes::SourceDebugExtension { debug_extension: bytes })
    } else if crate::text::str_eq(name, attrtype::LineNumberTable) {
        let line_number_table_length = s.read_u2()?;
        assert(s.rest() =~= info.skip(2));
        proof {
            lemma_fixed_items(cpv);
            lemma_read_seq_no_abort::<LineNumberTableEntry>(info.skip(2), cpv, line_number_table_length as nat);
        }
        Ok(Attributes::LineNumberTable { line_number_table: s.read_sequence(Some(cp), line_number_table_length as usize)? })
    } else if crate::text::str_eq(name, attrtype::LocalVariableTable) {
        let local_variable_table_length = s.read_u2()?;
        assert(s.rest() =~= info.skip(2));
        proof {
            lemma_fixed_items(cpv);
            lemma_read_seq_no_abort::<LocalVariableTableEntry>(info.skip(2), cpv, local_variable_table_length as nat);
        }
        Ok(Attributes::LocalVariableTable { local_variable_table: s.read_sequence(Some(cp), local_variable_table_length as usize)? })
    } else if crate::text::str_eq(name, attrtype::LocalVariableTypeTable) {
        let local_variable_type_table_length = s.read_u2()?;
        assert(s.rest() =~= info.skip(2));
        proof {
            lemma_fixed_items(cpv);
            lemma_read_seq_no_abort::<LocalVariableTypeTableEntry>(info.skip(2), cpv, local_variable_type_table_length as nat);
        }
        Ok(Attributes::LocalVariableTypeTable {
            local_variable_type_table: s.read_sequence(Some(cp), local_variable_type_table_length as usize)?,
        })
    } else if crate::text::str_eq(name, attrtype::Deprecated) {
        Ok(Attributes::Deprecated)
    } else if crate::text::str_eq(name, attrtype::RuntimeVisibleAnnotations) {
        let num_annotations = s.read_u2()?;
        assert(s.rest() =~= info.skip(2));
        proof {
            lemma_annotations(cpv);
            lemma_read_seq_no_abort::<Annotation>(info.skip(2), cpv, num_annotations as nat);
        }
        Ok(Attributes::RuntimeVisibleAnnotations { annotations: s.read_sequence(Some(cp), num_annotations as usize)? })
    } else if crate::text::str_eq(name, attrtype::RuntimeInvisibleAnnotations) {
        let num_annotations = s.read_u2()?;
        assert(s.rest() =~= info.skip(2));
        proof {
            lemma_annotations(cpv);
            lemma_read_seq_no_abort::<Annotation>(info.skip(2), cpv, num_annotations as nat);
        }
        Ok(Attributes::RuntimeInvisibleAnnotations { annotations: s.read_sequence(Some(cp), num_annotations as usize)? })
    } else {
        read_attribute_rest(name, s, cp)
    }
}

/// [`read_attribute`] for the names after `RuntimeInvisibleAnnotations`.
#[verifier::rlimit(60)]
fn read_attribute_rest(name: &str, s: &mut ClassFileStream, cp: &ConstantPool) -> (r: Result<Attributes, ClassFileError>)
    requires
        old(s).wf(),
        spec_attribute_rest(name@, old(s).rest(), Some(cp@)) != Err::<AttributesV, ClassFileErrorV>(ClassFileErrorV::Aborts),
    ensures
        final(s).wf(),
        final(s).data() == old(s).data(),
        match spec_attribute_rest(name@, old(s).rest(), Some(cp@)) {
            Ok(v) => r matches Ok(x) && x@ == v,
            Err(e) => r matches Err(x) && x@ == e,
        },
{
    let ghost info = old(s).rest();
    let ghost cpv = Some(cp@);
    proof {
        reveal(spec_attribute_rest);
    }
    assert(cp_view(Some(cp)) == cpv);
    if crate::text::str_eq(name, attrtype::RuntimeVisibleParameterAnnotations) {
        let num_parameters = s.read_u1()?;
        assert(s.rest() =~= info.skip(1));
        proof {
            lemma_annotations(cpv);
            lemma_read_seq_no_abort::<ParameterAnnotation>(info.skip(1), cpv, num_parameters as nat);
        }
        Ok(Attributes::RuntimeVisibleParameterAnnotations {
            parameter_annotations: s.read_sequence(Some(cp), num_parameters as usize)?,
        })
    } else if crate::text::str_eq(name, attrtype::RuntimeInvisibleParameterAnnotations) {
        let num_parameters = s.read_u1()?;
        assert(s.rest() =~= info.skip(1));
        proof {
            lemma_annotations(cpv);
            lemma_read_seq_no_abort::<ParameterAnnotation>(info.skip(1), cpv, num_parameters as nat);
        }
        Ok(Attributes::RuntimeInvisibleParameterAnnotations {
            parameter_annotations: s.read_sequence(Some(cp), num_parameters as usize)?,
        })
    } else if crate::text::str_eq(name, attrtype::RuntimeVisibleTypeAnnotations) {
        let num_annotations = s.read_u2()?;
        assert(s.rest() =~= info.skip(2));
        proof {
            lemma_type_annotations(cpv);
            lemma_read_seq_no_abort::<TypeAnnotation>(info.skip(2), cpv, num_annotations as nat);
        }
        Ok(Attributes::RuntimeVisibleTypeAnnotations { annotations: s.read_sequence(Some(cp), num_annotations as usize)? })
    } else if crate::text::str_eq(name, attrtype::RuntimeInvisibleTypeAnnotations) {
        let num_annotations = s.read_u2()?;
        assert(s.rest() =~= info.skip(2));
        proof {
            lemma_type_annotations(cpv);
            lemma_read_seq_no_abort::<TypeAnnotation>(info.skip(2), cpv, num_annotations as nat);
        }
        Ok(Attributes::RuntimeInvisibleTypeAnnotations { annotations: s.read_sequence(Some(cp), num_annotations as usize)? })
    } else if crate::text::str_eq(name, attrtype::AnnotationDefault) {
        proof {
            lemma_element_value_no_abort(info);
        }
        Ok(Attributes::AnnotationDefault { default_value: ElementValue::read_from_stream(s, Some(cp))? })
    } else if crate::text::str_eq(name, attrtype::BootstrapMethods) {
        let num_bootstrap_methods = s.read_u2()?;
        assert(s.rest() =~= info.skip(2));
        proof {
            lemma_bootstrap_methods(cpv);
            lemma_read_seq_no_abort::<BootstrapMethodsElement>(info.skip(2), cpv, num_bootstrap_methods as nat);
        }
        Ok(Attributes::BootstrapMethods { bootstrap_methods: s.read_sequence(Some(cp), num_bootstrap_methods as usize)? })
    } else if crate::text::str_eq(name, attrtype::MethodParameters) {
        let parameters_count = s.read_u1()?;
        assert(s.rest() =~= info.skip(1));
        proof {
            lemma_fixed_items(cpv);
            lemma_read_seq_no_abort::<MethodParametersElement>(info.skip(1), cpv, parameters_count as nat);
        }
        Ok(Attributes::MethodParameters { parameters: s.read_sequence(Some(cp), parameters_count as usize)? })
    } else {
        Err(ClassFileError::UnknownAttribute(crate::text::owned(name)))
    }
}

/// Read a collection of attributes: their count, then each attribute,
/// stored under its name.
#[verifier::rlimit(100)]
#[verifier::spinoff_prover]
pub fn read_attributes(s: &mut ClassFileStream, cp: Option<&ConstantPool>) -> (r: Result<AttributesCollection, ClassFileError>)
    requires
        old(s).wf(),
        spec_attributes(old(s).rest(), cp_view(cp)) != Err::<(AttributeGroups, nat), ClassFileErrorV>(ClassFileErrorV::Aborts),
    ensures
        reads_as(*old(s), *final(s), r, spec_attributes(old(s).rest(), cp_view(cp))),
    decreases old(s).rest().len(), 3nat,
{
    let ghost b = old(s).rest();
    let ghost cpv = cp_view(cp);
    let attributes_count = s.read_u2()?;
    let ghost b2 = b.skip(2);
    assert(s.rest() =~= b2);
    let ghost n = attributes_count as nat;
    let mut attributes = AttributesCollection::new();
    let ghost mut pairs: Seq<(Seq<char>, AttributesV)> = seq![];
    let mut i: u16 = 0;
    assert(b2.skip(0) =~= b2);
    assert(group_all(pairs) =~= Seq::<(Seq<char>, Seq<AttributesV>)>::empty());
    while i < attributes_count
        invariant
            old(s).wf(),
            s.wf(),
            s.data() == old(s).data(),
            b == old(s).rest(),
            b2 == b.skip(2),
            b.len() >= 2,
            cpv == cp_view(cp),
            n == attributes_count,
            n == be16(b, 0),
            i <= attributes_count,
            old(s).pos() + 2 <= s.pos(),
            s.rest() == b2.skip(s.pos() - old(s).pos() - 2),
            s.rest().len() + 2 <= b.len(),
            spec_attribute_entries(b2, cpv, n) == then_seq(pairs, (s.pos() - old(s).pos() - 2) as nat,
                spec_attribute_entries(s.rest(), cpv, (n - i) as nat)),
            spec_attribute_entries(b2, cpv, n) != Err::<(Seq<(Seq<char>, AttributesV)>, nat), ClassFileErrorV>(ClassFileErrorV::Aborts),
            attributes@ == group_all(pairs),
        decreases attributes_count - i,
    {
        let ghost r = s.rest();
        let ghost used = (s.pos() - old(s).pos() - 2) as nat;
        let pool = cp.unwrap();
        proof {
            if r.len() < 6 {
                assert(spec_attribute_entries(r, cpv, (n - i) as nat)
                    == Err::<(Seq<(Seq<char>, AttributesV)>, nat), ClassFileErrorV>(ClassFileErrorV::IoError));
            }
        }
        let attribute_name_index = s.read_u2()?;
        assert(s.rest() =~= r.skip(2));
        let attribute_length = s.read_u4()?;
        assert(s.rest() =~= r.skip(6));
        let info = s.read_dynamic(attribute_length as usize)?;
        let ghost l = attribute_length as nat;
        assert(info@ =~= r.subrange(6, 6 + l as int));
        let mut sub = ClassFileStream::new(info);
        let attribute_name = pool.get_utf8_constant(attribute_name_index as usize)?;
        let a = read_attribute(attribute_name, &mut sub, attribute_length, pool)?;
        let ghost a_v = a@;
        attributes.insert(crate::text::owned(attribute_name), a);
        proof {
            let prev = pairs;
            pairs = pairs.push((attribute_name@, a_v));
            assert(pairs.drop_last() =~= prev);
            assert(s.rest() =~= r.skip(6 + l as int));
            assert(s.rest() =~= b2.skip(s.pos() - old(s).pos() - 2));
            match spec_attribute_entries(s.rest(), cpv, (n - i - 1) as nat) {
                Ok((rest, m)) => {
                    assert(prev + (seq![(attribute_name@, a_v)] + rest) =~= pairs + rest);
                },
                Err(_) => {},
            }
        }
        i = i + 1;
    }
    assert(pairs + Seq::<(Seq<char>, AttributesV)>::empty() =~= pairs);
    Ok(attributes)
}

/// What reading a collection of attributes from the front of `b` gives
/// (see [`spec_attributes`]), as a name whose body is revealed where it is
/// needed.
#[verifier::opaque]
pub open spec fn spec_attribute_groups(b: Seq<u8>, cp: Option<ConstantPoolV>) -> Result<(AttributeGroups, nat), ClassFileErrorV> {
    spec_attributes(b, cp)
}

/// [`spec_attribute_groups`] is [`spec_attributes`].
pub proof fn lemma_attribute_groups(b: Seq<u8>, cp: Option<ConstantPoolV>)
    ensures
        spec_attribute_groups(b, cp) == spec_attributes(b, cp),
{
    reveal(spec_attribute_groups);
}

impl ClassFileItem for AttributesCollection {
    open spec fn spec_read(bytes: Seq<u8>, cp: Option<ConstantPoolV>) -> Result<(AttributeGroups, nat), ClassFileErrorV> {
        spec_attributes(bytes, cp)
    }

    fn read_from_stream(s: &mut ClassFileStream, cp: Option<&ConstantPool>) -> (r: Result<Self, ClassFileError>) {
        read_attributes(s, cp)
    }
}

} // verus!
