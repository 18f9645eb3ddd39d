//! The structure of the constant pool: the names and descriptors that its
//! entries reach must parse.
use vstd::prelude::*;
use crate::error::{ClassFileError, ClassFileErrorV};
use crate::item::constant_pool::{
    ConstantPool, ConstantPoolV, ConstantPoolEntry, ConstantPoolEntryV, IndexVerificationError,
    IndexVerificationErrorType, in_pool, check_entry, spec_verify_indices, init_name, is_init,
    lemma_verify_indices_stops,
};
use crate::item::file::ClassFile;
use crate::item::attribute_info::{Attributes, AttributesV, AttributeGroups, lookup, attrtype, lemma_attribute_list_view};
use crate::item::ids::UnqualifiedName;
use crate::item::ids::class::{ClassName, spec_class_name};
use crate::item::ids::field::{FieldDescriptor, spec_field_type};
use crate::item::ids::method::{MethodDescriptor, MethodName, ReturnDescriptor, spec_method_descriptor, spec_method_name};
use crate::item::ids::spec_unqualified;
use crate::parser::tokens::{Lexer, Parseable};
use crate::text::{owned, chars_of};

verus! {

/// Constant pool verification errors.
#[derive(Debug)]
pub enum ConstantPoolVerificationError {
    /// Returned with malformed types.
    IndexVerificationError(IndexVerificationError),
    /// Returned with class file errors.
    ClassFileError(ClassFileError),
    /// Returned if the class name in a class info structure is malformed.
    ClassInfoStructureMalformedClassName,
    /// Returned if the class name is malformed in a `Fieldref`, `Methodref` or `InterfaceMethodref`.
    RefInfoMalformedClassName,
    /// Returned if the field descriptor of a `Fieldref` is malformed.
    FieldRefMalformedFieldDescriptor,
    /// Returned if the method descriptor of a `Methodref` or `InterfaceMethodref` is malformed.
    MethodRefMalformedMethodDescriptor,
    /// Returned if the name of a `Methodref` is invalid.
    MethodRefInvalidName,
    /// Returned if the return type of an `<init>` method is not `void`.
    MethodRefInitReturnNotVoid,
    /// Returned when an invalid name is found in a `NameAndType` structure.
    NameAndTypeNameInvalid,
    /// Returned when the descriptor of a `NameAndType` structure is malformed.
    NameAndTypeMalformedDescriptor,
    /// Returned when the descriptor of a `MethodType` is malformed.
    MethodTypeMalformedDescriptor,
    /// Returned if the bootstrap methods index is invalid.
    InvokeDynamicInvalidBootstrapMethodsIndex,
    /// Returned if the class has no bootstrap methods attribute.
    InvokeDynamicNoBootstrapMethodsAttr,
    /// Returned if the method descriptor is invalid.
    InvokeDynamicInvalidMethodDescriptor,
    /// Returned if the method name is invalid.
    InvokeDynamicInvalidMethodName,
    /// Returned if there are more than 1 bootstrap methods attributes on a class.
    BootstrapMethodsTooMany,
}

/// Mathematical form of [`ConstantPoolVerificationError`].
pub enum ConstantPoolVerificationErrorV {
    IndexVerificationError(usize, IndexVerificationErrorType),
    ClassFileError(ClassFileErrorV),
    ClassInfoStructureMalformedClassName,
    RefInfoMalformedClassName,
    FieldRefMalformedFieldDescriptor,
    MethodRefMalformedMethodDescriptor,
    MethodRefInvalidName,
    MethodRefInitReturnNotVoid,
    NameAndTypeNameInvalid,
    NameAndTypeMalformedDescriptor,
    MethodTypeMalformedDescriptor,
    InvokeDynamicInvalidBootstrapMethodsIndex,
    InvokeDynamicNoBootstrapMethodsAttr,
    InvokeDynamicInvalidMethodDescriptor,
    InvokeDynamicInvalidMethodName,
    BootstrapMethodsTooMany,
}

impl View for ConstantPoolVerificationError {
    type V = ConstantPoolVerificationErrorV;

    open spec fn view(&self) -> ConstantPoolVerificationErrorV {
        match self {
            ConstantPoolVerificationError::IndexVerificationError(e) =>
                ConstantPoolVerificationErrorV::IndexVerificationError(e.index, e.ty),
            ConstantPoolVerificationError::ClassFileError(e) => ConstantPoolVerificationErrorV::ClassFileError(e@),
            ConstantPoolVerificationError::ClassInfoStructureMalformedClassName =>
                ConstantPoolVerificationErrorV::ClassInfoStructureMalformedClassName,
            ConstantPoolVerificationError::RefInfoMalformedClassName => ConstantPoolVerificationErrorV::RefInfoMalformedClassName,
            ConstantPoolVerificationError::FieldRefMalformedFieldDescriptor =>
                ConstantPoolVerificationErrorV::FieldRefMalformedFieldDescriptor,
            ConstantPoolVerificationError::MethodRefMalformedMethodDescriptor =>
                ConstantPoolVerificationErrorV::MethodRefMalformedMethodDescriptor,
            ConstantPoolVerificationError::MethodRefInvalidName => ConstantPoolVerificationErrorV::MethodRefInvalidName,
            ConstantPoolVerificationError::MethodRefInitReturnNotVoid => ConstantPoolVerificationErrorV::MethodRefInitReturnNotVoid,
            ConstantPoolVerificationError::NameAndTypeNameInvalid => ConstantPoolVerificationErrorV::NameAndTypeNameInvalid,
            ConstantPoolVerificationError::NameAndTypeMalformedDescriptor =>
                ConstantPoolVerificationErrorV::NameAndTypeMalformedDescriptor,
            ConstantPoolVerificationError::MethodTypeMalformedDescriptor =>
                ConstantPoolVerificationErrorV::MethodTypeMalformedDescriptor,
            ConstantPoolVerificationError::InvokeDynamicInvalidBootstrapMethodsIndex =>
                ConstantPoolVerificationErrorV::InvokeDynamicInvalidBootstrapMethodsIndex,
            ConstantPoolVerificationError::InvokeDynamicNoBootstrapMethodsAttr =>
                ConstantPoolVerificationErrorV::InvokeDynamicNoBootstrapMethodsAttr,
            ConstantPoolVerificationError::InvokeDynamicInvalidMethodDescriptor =>
                ConstantPoolVerificationErrorV::InvokeDynamicInvalidMethodDescriptor,
            ConstantPoolVerificationError::InvokeDynamicInvalidMethodName =>
                ConstantPoolVerificationErrorV::InvokeDynamicInvalidMethodName,
            ConstantPoolVerificationError::BootstrapMethodsTooMany => ConstantPoolVerificationErrorV::BootstrapMethodsTooMany,
        }
    }
}

/// The text of the `Utf8` entry at `index` (numbered from 1), if that is one.
pub open spec fn utf8_at(pool: ConstantPoolV, index: int) -> Option<Seq<char>> {
    if in_pool(pool, index) {
        match pool[index - 1] {
            ConstantPoolEntryV::Utf8 { data } => Some(data),
            _ => None,
        }
    } else {
        None
    }
}

/// The error of a text that is not there.
pub open spec fn expected_string() -> ConstantPoolVerificationErrorV {
    ConstantPoolVerificationErrorV::ClassFileError(ClassFileErrorV::ExpectedString)
}

/// Whether a name starts like the name of an initializer, with `<`.
pub open spec fn starts_with_lt(name: Seq<char>) -> bool {
    name.len() > 0 && name[0] == '<'
}

/// The check of a `Fieldref`, `Methodref` or `InterfaceMethodref` entry `e`:
/// its class name must parse; its descriptor must parse as a field
/// descriptor (`Fieldref`) or a method descriptor; a method whose name
/// starts with `<` must be `<init>` and return nothing.
pub open spec fn structure_ref(pool: ConstantPoolV, e: ConstantPoolEntryV, class_index: int, name_and_type_index: int) -> Result<(), ConstantPoolVerificationErrorV> {
    let class_name = match pool[class_index - 1] {
        ConstantPoolEntryV::Class { name_index } => utf8_at(pool, name_index as int),
        _ => None,
    };
    match class_name {
        None => Err(expected_string()),
        Some(c) => if spec_class_name(c) is None {
            Err(ConstantPoolVerificationErrorV::RefInfoMalformedClassName)
        } else {
            match pool[name_and_type_index - 1] {
                ConstantPoolEntryV::NameAndType { name_index, descriptor_index } => match utf8_at(pool, descriptor_index as int) {
                    None => Err(expected_string()),
                    Some(d) => if e is Fieldref {
                        if spec_field_type(d) is None {
                            Err(ConstantPoolVerificationErrorV::FieldRefMalformedFieldDescriptor)
                        } else {
                            Ok(())
                        }
                    } else {
                        match spec_method_descriptor(d) {
                            None => Err(ConstantPoolVerificationErrorV::MethodRefMalformedMethodDescriptor),
                            Some((md, _)) => if e is Methodref {
                                match utf8_at(pool, name_index as int) {
                                    None => Err(expected_string()),
                                    Some(n) => if starts_with_lt(n) {
                                        if n != init_name() {
                                            Err(ConstantPoolVerificationErrorV::MethodRefInvalidName)
                                        } else if !(md.return_desc is Void) {
                                            Err(ConstantPoolVerificationErrorV::MethodRefInitReturnNotVoid)
                                        } else {
                                            Ok(())
                                        }
                                    } else {
                                        Ok(())
                                    },
                                }
                            } else {
                                Ok(())
                            },
                        }
                    },
                },
                _ => Ok(()),
            }
        },
    }
}

/// The check of an `InvokeDynamic` entry: the class must have exactly one
/// `BootstrapMethods` attribute, with a method at the entry's index; the
/// entry's descriptor must parse as a method
/// descriptor and its name as a method name.
pub open spec fn structure_invoke_dynamic(pool: ConstantPoolV, attrs: AttributeGroups, bootstrap_method_attr_index: u16, name_and_type_index: int) -> Result<(), ConstantPoolVerificationErrorV> {
    let bs = lookup(attrs, attrtype::BootstrapMethods@);
    if bs.len() == 0 {
        Err(ConstantPoolVerificationErrorV::InvokeDynamicNoBootstrapMethodsAttr)
    } else if bs.len() > 1 {
        Err(ConstantPoolVerificationErrorV::BootstrapMethodsTooMany)
    } else if bs[0] matches AttributesV::BootstrapMethods { bootstrap_methods } && bootstrap_method_attr_index >= bootstrap_methods.len() {
        Err(ConstantPoolVerificationErrorV::InvokeDynamicInvalidBootstrapMethodsIndex)
    } else {
        match pool[name_and_type_index - 1] {
            ConstantPoolEntryV::NameAndType { name_index, descriptor_index } => match utf8_at(pool, descriptor_index as int) {
                None => Err(expected_string()),
                Some(d) => if spec_method_descriptor(d) is None {
                    Err(ConstantPoolVerificationErrorV::InvokeDynamicInvalidMethodDescriptor)
                } else {
                    match utf8_at(pool, name_index as int) {
                        None => Err(expected_string()),
                        Some(n) => if spec_method_name(n) is None {
                            Err(ConstantPoolVerificationErrorV::InvokeDynamicInvalidMethodName)
                        } else {
                            Ok(())
                        },
                    }
                },
            },
            _ => Ok(()),
        }
    }
}

/// The check of one entry of a pool whose indices were verified.
pub open spec fn structure_entry(pool: ConstantPoolV, attrs: AttributeGroups, e: ConstantPoolEntryV) -> Result<(), ConstantPoolVerificationErrorV> {
    match e {
        ConstantPoolEntryV::Class { name_index } => match utf8_at(pool, name_index as int) {
            None => Err(expected_string()),
            Some(name) => if spec_class_name(name) is None && spec_field_type(name) is None {
                Err(ConstantPoolVerificationErrorV::ClassInfoStructureMalformedClassName)
            } else {
                Ok(())
            },
        },
        ConstantPoolEntryV::Methodref { class_index, name_and_type_index }
        | ConstantPoolEntryV::Fieldref { class_index, name_and_type_index }
        | ConstantPoolEntryV::InterfaceMethodref { class_index, name_and_type_index } =>
            structure_ref(pool, e, class_index as int, name_and_type_index as int),
        ConstantPoolEntryV::NameAndType { name_index, descriptor_index } => match utf8_at(pool, name_index as int) {
            None => Err(expected_string()),
            Some(name) => if spec_unqualified(name) is None {
                Err(ConstantPoolVerificationErrorV::NameAndTypeNameInvalid)
            } else {
                match utf8_at(pool, descriptor_index as int) {
                    None => Err(expected_string()),
                    Some(d) => if spec_method_descriptor(d) is None && spec_field_type(d) is None {
                        Err(ConstantPoolVerificationErrorV::NameAndTypeMalformedDescriptor)
                    } else {
                        Ok(())
                    },
                }
            },
        },
        ConstantPoolEntryV::MethodType { descriptor_index } => match utf8_at(pool, descriptor_index as int) {
            None => Err(expected_string()),
            Some(d) => if spec_method_descriptor(d) is None {
                Err(ConstantPoolVerificationErrorV::MethodTypeMalformedDescriptor)
            } else {
                Ok(())
            },
        },
        ConstantPoolEntryV::InvokeDynamic { bootstrap_method_attr_index, name_and_type_index } =>
            structure_invoke_dynamic(pool, attrs, bootstrap_method_attr_index, name_and_type_index as int),
        _ => Ok(()),
    }
}

/// The verdict on the first `n` entries, taken in order: the first that
/// fails decides.
pub open spec fn structure_entries(pool: ConstantPoolV, attrs: AttributeGroups, n: nat) -> Result<(), ConstantPoolVerificationErrorV>
    decreases n,
{
    if n == 0 {
        Ok(())
    } else {
        match structure_entries(pool, attrs, (n - 1) as nat) {
            Ok(()) => structure_entry(pool, attrs, pool[n - 1]),
            Err(e) => Err(e),
        }
    }
}

/// The verdict on the structure of a pool whose class has the attributes
/// `attrs`: first the verification of its indices, then each entry in order.
pub open spec fn spec_verify_structure(pool: ConstantPoolV, attrs: AttributeGroups) -> Result<(), ConstantPoolVerificationErrorV> {
    match spec_verify_indices(pool, pool.len()) {
        Some(Err((i, t))) => Err(ConstantPoolVerificationErrorV::IndexVerificationError(i, t)),
        _ => structure_entries(pool, attrs, pool.len()),
    }
}

/// Once the first `n` entries pass, each of them passes its own check.
pub proof fn lemma_structure_entries_ok(pool: ConstantPoolV, attrs: AttributeGroups, n: nat)
    requires
        n <= pool.len(),
        structure_entries(pool, attrs, n) == Ok::<(), ConstantPoolVerificationErrorV>(()),
    ensures
        forall|i: int| 0 <= i < n ==> structure_entry(pool, attrs, #[trigger] pool[i]) == Ok::<(), ConstantPoolVerificationErrorV>(()),
    decreases n,
{
    if n > 0 {
        lemma_structure_entries_ok(pool, attrs, (n - 1) as nat);
    }
}

/// In a pool whose structure passes, a method reference whose name begins
/// with `<` names `<init>`, and its descriptor returns nothing.
pub proof fn law_structure_method_names(pool: ConstantPoolV, attrs: AttributeGroups, i: int)
    requires
        spec_verify_structure(pool, attrs) == Ok::<(), ConstantPoolVerificationErrorV>(()),
        0 <= i < pool.len(),
        pool[i] is Methodref,
    ensures
        match pool[pool[i]->Methodref_name_and_type_index - 1] {
            ConstantPoolEntryV::NameAndType { name_index, descriptor_index } => match utf8_at(pool, name_index as int) {
                Some(name) => starts_with_lt(name) ==> {
                    &&& name == init_name()
                    &&& utf8_at(pool, descriptor_index as int) matches Some(d)
                    &&& spec_method_descriptor(d) matches Some((md, _))
                    &&& md.return_desc is Void
                },
                None => true,
            },
            _ => true,
        },
{
    lemma_structure_entries_ok(pool, attrs, pool.len());
    assert(structure_entry(pool, attrs, pool[i]) == Ok::<(), ConstantPoolVerificationErrorV>(()));
}

/// Once the indices of the first `n` entries are verified, the check of
/// each of those entries passes.
pub proof fn lemma_verified_entries(pool: ConstantPoolV, n: nat)
    requires
        n <= pool.len(),
        spec_verify_indices(pool, n) == Some(Ok::<(), (usize, IndexVerificationErrorType)>(())),
    ensures
        forall|i: int| 0 <= i < n ==> check_entry(pool, #[trigger] pool[i]) == Some(Ok::<(), IndexVerificationErrorType>(())),
    decreases n,
{
    if n > 0 {
        lemma_verified_entries(pool, (n - 1) as nat);
    }
}

/// The `T` that the text starts with, if any.
pub(crate) fn parse_token<T: Parseable>(text: &str) -> (r: Option<T>)
    ensures
        match T::spec_parse(text@) {
            Some((v, _)) => r matches Some(t) && t@ == v,
            None => r is None,
        },
{
    let lexer = Lexer::new();
    let mut stream = Lexer::stream(lexer, owned(text));
    assert(stream.rest() =~= text@);
    match stream.token::<T>() {
        Ok(t) => Some(t.token),
        Err(_) => None,
    }
}

/// Whether the text parses as a `T` from its start.
pub(crate) fn parses<T: Parseable>(text: &str) -> (r: bool)
    ensures
        r == (T::spec_parse(text@) is Some),
{
    let lexer = Lexer::new();
    let mut stream = Lexer::stream(lexer, owned(text));
    assert(stream.rest() =~= text@);
    stream.token::<T>().is_ok()
}

/// The method descriptor that the text starts with, if any.
fn parse_method_descriptor(text: &str) -> (r: Option<MethodDescriptor>)
    ensures
        match spec_method_descriptor(text@) {
            Some((v, _)) => r matches Some(d) && d@ == v,
            None => r is None,
        },
{
    let lexer = Lexer::new();
    let mut stream = Lexer::stream(lexer, owned(text));
    assert(stream.rest() =~= text@);
    match stream.token::<MethodDescriptor>() {
        Ok(t) => Some(t.token),
        Err(_) => None,
    }
}

/// Whether the text starts with `<`.
fn first_is_lt(text: &str) -> (r: bool)
    ensures
        r == starts_with_lt(text@),
{
    let cs = chars_of(text);
    cs.len() > 0 && cs[0] == '<'
}

impl ConstantPool {
    /// The text of the `Utf8` entry at `index`, as a verification error where
    /// the entry is of another kind.
    fn utf8_for_structure(&self, index: u16) -> (r: Result<&str, ConstantPoolVerificationError>)
        requires
            in_pool(self@, index as int),
        ensures
            match utf8_at(self@, index as int) {
                Some(d) => r matches Ok(s) && s@ == d,
                None => r matches Err(e) && e@ == expected_string(),
            },
    {
        match self.get_utf8_constant(index as usize) {
            Ok(s) => Ok(s),
            Err(e) => Err(ConstantPoolVerificationError::ClassFileError(e)),
        }
    }
}

/// Once the verdict on a prefix of the entries is an error, the verdict on
/// any longer prefix is the same.
pub proof fn lemma_structure_stops(pool: ConstantPoolV, attrs: AttributeGroups, i: nat, n: nat)
    requires
        i <= n,
        structure_entries(pool, attrs, i) is Err,
    ensures
        structure_entries(pool, attrs, n) == structure_entries(pool, attrs, i),
    decreases n - i,
{
    if i < n {
        lemma_structure_stops(pool, attrs, i, (n - 1) as nat);
    }
}

/// Every entry of the pool passes the check of its indices.
pub open spec fn all_verified(pool: ConstantPoolV) -> bool {
    forall|i: int| 0 <= i < pool.len() ==> check_entry(pool, #[trigger] pool[i]) == Some(Ok::<(), IndexVerificationErrorType>(()))
}

impl ConstantPool {
    /// The check of a `Fieldref`, `Methodref` or `InterfaceMethodref` entry
    /// (see [`structure_ref`]).
    fn structure_ref(&self, e: &ConstantPoolEntry, class_index: u16, name_and_type_index: u16) -> (r: Result<(), ConstantPoolVerificationError>)
        requires
            all_verified(self@),
            check_entry(self@, e@) == Some(Ok::<(), IndexVerificationErrorType>(())),
            e@ is Fieldref || e@ is Methodref || e@ is InterfaceMethodref,
            e@ is Fieldref ==> e@->Fieldref_class_index == class_index && e@->Fieldref_name_and_type_index == name_and_type_index,
            e@ is Methodref ==> e@->Methodref_class_index == class_index && e@->Methodref_name_and_type_index == name_and_type_index,
            e@ is InterfaceMethodref ==> e@->InterfaceMethodref_class_index == class_index
                && e@->InterfaceMethodref_name_and_type_index == name_and_type_index,
        ensures
            match structure_ref(self@, e@, class_index as int, name_and_type_index as int) {
                Ok(()) => r is Ok,
                Err(v) => r matches Err(x) && x@ == v,
            },
    {
        let ghost pool = self@;
        assert(check_entry(pool, pool[class_index - 1]) == Some(Ok::<(), IndexVerificationErrorType>(())));
        assert(check_entry(pool, pool[name_and_type_index - 1]) == Some(Ok::<(), IndexVerificationErrorType>(())));
        let class_name = match self.get_constant(class_index as usize) {
            ConstantPoolEntry::Class { name_index } => self.utf8_for_structure(*name_index)?,
            _ => vstd::pervasive::unreached(),
        };
        if !parses::<ClassName>(class_name) {
            return Err(ConstantPoolVerificationError::RefInfoMalformedClassName);
        }
        let (name_index, descriptor_index) = match self.get_constant(name_and_type_index as usize) {
            ConstantPoolEntry::NameAndType { name_index, descriptor_index } => (*name_index, *descriptor_index),
            _ => vstd::pervasive::unreached(),
        };
        if matches!(e, ConstantPoolEntry::Fieldref { .. }) {
            let descriptor = self.utf8_for_structure(descriptor_index)?;
            if !parses::<FieldDescriptor>(descriptor) {
                return Err(ConstantPoolVerificationError::FieldRefMalformedFieldDescriptor);
            }
        } else {
            let descriptor = self.utf8_for_structure(descriptor_index)?;
            let d = match parse_method_descriptor(descriptor) {
                Some(d) => d,
                None => {
                    return Err(ConstantPoolVerificationError::MethodRefMalformedMethodDescriptor);
                },
            };
            if matches!(e, ConstantPoolEntry::Methodref { .. }) {
                let name = self.utf8_for_structure(name_index)?;
                if first_is_lt(name) {
                    if !is_init(&owned(name)) {
                        return Err(ConstantPoolVerificationError::MethodRefInvalidName);
                    }
                    if !matches!(d.return_desc, ReturnDescriptor::Void(_)) {
                        return Err(ConstantPoolVerificationError::MethodRefInitReturnNotVoid);
                    }
                }
            }
        }
        Ok(())
    }

    /// The check of an `InvokeDynamic` entry (see [`structure_invoke_dynamic`]).
    fn structure_invoke_dynamic(&self, class_file: &ClassFile, bootstrap_method_attr_index: u16, name_and_type_index: u16) -> (r: Result<(), ConstantPoolVerificationError>)
        requires
            all_verified(self@),
            in_pool(self@, name_and_type_index as int),
            self@[name_and_type_index - 1] is NameAndType,
        ensures
            match structure_invoke_dynamic(self@, class_file@.attributes, bootstrap_method_attr_index, name_and_type_index as int) {
                Ok(()) => r is Ok,
                Err(v) => r matches Err(x) && x@ == v,
            },
    {
        let ghost pool = self@;
        assert(check_entry(pool, pool[name_and_type_index - 1]) == Some(Ok::<(), IndexVerificationErrorType>(())));
        let bs_methods = class_file.attributes.get(attrtype::BootstrapMethods);
        proof {
            lemma_attribute_list_view(bs_methods@);
        }
        if bs_methods.len() == 0 {
            return Err(ConstantPoolVerificationError::InvokeDynamicNoBootstrapMethodsAttr);
        }
        if bs_methods.len() > 1 {
            return Err(ConstantPoolVerificationError::BootstrapMethodsTooMany);
        }
        if let Attributes::BootstrapMethods { bootstrap_methods } = &bs_methods[0] {
            if bootstrap_method_attr_index as usize >= bootstrap_methods.len() {
                return Err(ConstantPoolVerificationError::InvokeDynamicInvalidBootstrapMethodsIndex);
            }
        }
        let (name_index, descriptor_index) = match self.get_constant(name_and_type_index as usize) {
            ConstantPoolEntry::NameAndType { name_index, descriptor_index } => (*name_index, *descriptor_index),
            _ => vstd::pervasive::unreached(),
        };
        let descriptor = self.utf8_for_structure(descriptor_index)?;
        if !parses::<MethodDescriptor>(descriptor) {
            return Err(ConstantPoolVerificationError::InvokeDynamicInvalidMethodDescriptor);
        }
        let name = self.utf8_for_structure(name_index)?;
        if !parses::<MethodName>(name) {
            return Err(ConstantPoolVerificationError::InvokeDynamicInvalidMethodName);
        }
        Ok(())
    }

    /// The check of one entry of a pool whose indices were verified (see
    /// [`structure_entry`]).
    fn structure_entry(&self, class_file: &ClassFile, e: &ConstantPoolEntry) -> (r: Result<(), ConstantPoolVerificationError>)
        requires
            all_verified(self@),
            check_entry(self@, e@) == Some(Ok::<(), IndexVerificationErrorType>(())),
        ensures
            match structure_entry(self@, class_file@.attributes, e@) {
                Ok(()) => r is Ok,
                Err(v) => r matches Err(x) && x@ == v,
            },
    {
        match e {
            ConstantPoolEntry::Class { name_index } => {
                let name = self.utf8_for_structure(*name_index)?;
                if !parses::<ClassName>(name) && !parses::<FieldDescriptor>(name) {
                    return Err(ConstantPoolVerificationError::ClassInfoStructureMalformedClassName);
                }
                Ok(())
            },
            ConstantPoolEntry::Methodref { class_index, name_and_type_index }
            | ConstantPoolEntry::Fieldref { class_index, name_and_type_index }
            | ConstantPoolEntry::InterfaceMethodref { class_index, name_and_type_index } =>
                self.structure_ref(e, *class_index, *name_and_type_index),
            ConstantPoolEntry::NameAndType { name_index, descriptor_index } => {
                let name = self.utf8_for_structure(*name_index)?;
                if !parses::<UnqualifiedName>(name) {
                    return Err(ConstantPoolVerificationError::NameAndTypeNameInvalid);
                }
                let descriptor = self.utf8_for_structure(*descriptor_index)?;
                if !parses::<MethodDescriptor>(descriptor) && !parses::<FieldDescriptor>(descriptor) {
                    return Err(ConstantPoolVerificationError::NameAndTypeMalformedDescriptor);
                }
                Ok(())
            },
            ConstantPoolEntry::MethodType { descriptor_index } => {
                let descriptor = self.utf8_for_structure(*descriptor_index)?;
                if !parses::<MethodDescriptor>(descriptor) {
                    return Err(ConstantPoolVerificationError::MethodTypeMalformedDescriptor);
                }
                Ok(())
            },
            ConstantPoolEntry::InvokeDynamic { bootstrap_method_attr_index, name_and_type_index } =>
                self.structure_invoke_dynamic(class_file, *bootstrap_method_attr_index, *name_and_type_index),
            _ => Ok(()),
        }
    }

    /// Verifies that the constant pool is well-formed: its indices first,
    /// then, entry by entry, that the names and descriptors its entries reach
    /// parse, and that invokedynamic entries have their bootstrap method.
    pub fn verify_structure(&self, class_file: &ClassFile) -> (r: Result<(), ConstantPoolVerificationError>)
        requires
            spec_verify_indices(self@, self@.len()) is Some,
        ensures
            match spec_verify_structure(self@, class_file@.attributes) {
                Ok(()) => r is Ok,
                Err(v) => r matches Err(x) && x@ == v,
            },
    {
        let ghost pool = self@;
        let ghost attrs = class_file@.attributes;
        match self.verify_cp_index_types() {
            Ok(()) => {},
            Err(e) => {
                return Err(ConstantPoolVerificationError::IndexVerificationError(e));
            },
        }
        proof {
            lemma_verified_entries(pool, pool.len());
        }
        let mut index: usize = 0;
        while index < self.entries.len()
            invariant
                index <= self.entries.len(),
                pool == self@,
                attrs == class_file@.attributes,
                pool.len() == self.entries.len(),
                all_verified(pool),
                spec_verify_indices(pool, pool.len()) == Some(Ok::<(), (usize, IndexVerificationErrorType)>(())),
                structure_entries(pool, attrs, index as nat) == Ok::<(), ConstantPoolVerificationErrorV>(()),
            decreases self.entries.len() - index,
        {
            let entry = &self.entries[index];
            assert(check_entry(pool, pool[index as int]) == Some(Ok::<(), IndexVerificationErrorType>(())));
            match self.structure_entry(class_file, entry) {
                Ok(()) => {},
                Err(e) => {
                    proof {
                        lemma_structure_stops(pool, attrs, (index + 1) as nat, pool.len());
                    }
                    return Err(e);
                },
            }
            index = index + 1;
        }
        Ok(())
    }
}

} // verus!
