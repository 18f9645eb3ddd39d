//! The constant pool.
use vstd::prelude::*;
use crate::error::{ClassFileError, ClassFileErrorV};
use crate::stream::{ClassFileStream, be16};
use crate::item::{ClassFileItem, read_seq, views};

pub mod entry;
pub mod structure;

pub use self::entry::{ConstantPoolEntry, ConstantPoolEntryV, RefKind};

verus! {

/// Mathematical form of a constant pool: its entries, the first of which
/// has index 1 in the class file.
pub type ConstantPoolV = Seq<ConstantPoolEntryV>;

/// The constant pool. Contains all constant pool entries.
///
/// Reading it does not verify the indices that its entries hold.
#[derive(Debug)]
pub struct ConstantPool {
    /// The entries of the constant pool.
    pub entries: Vec<ConstantPoolEntry>,
}

impl View for ConstantPool {
    type V = ConstantPoolV;

    open spec fn view(&self) -> ConstantPoolV {
        views(self.entries@)
    }
}

/// Whether `index` names an entry of `pool` (entries are numbered from 1).
pub open spec fn in_pool(pool: ConstantPoolV, index: int) -> bool {
    1 <= index <= pool.len()
}

/// What reading a constant pool from the front of `b` gives: the count of
/// entries plus one, then the entries. A count of zero stops the program.
pub open spec fn spec_read_pool(b: Seq<u8>) -> Result<(ConstantPoolV, nat), ClassFileErrorV> {
    if b.len() < 2 {
        Err(ClassFileErrorV::IoError)
    } else if be16(b, 0) == 0 {
        Err(ClassFileErrorV::Aborts)
    } else {
        match read_seq::<ConstantPoolEntry>(b.skip(2), None, (be16(b, 0) - 1) as nat) {
            Ok((vs, n)) => Ok((vs, n + 2)),
            Err(e) => Err(e),
        }
    }
}

impl ClassFileItem for ConstantPool {
    open spec fn spec_read(bytes: Seq<u8>, cp: Option<ConstantPoolV>) -> Result<(ConstantPoolV, nat), ClassFileErrorV> {
        spec_read_pool(bytes)
    }

    fn read_from_stream(s: &mut ClassFileStream, cp: Option<&ConstantPool>) -> (r: Result<Self, ClassFileError>) {
        let ghost b = old(s).rest();
        let count = s.read_u2()?;
        assert(s.rest() =~= b.skip(2));
        let len = (count - 1) as usize;
        let entries = s.read_sequence::<ConstantPoolEntry>(None, len)?;
        Ok(Self { entries })
    }
}

impl ConstantPool {
    /// Get a constant from the pool. Entries are numbered from 1.
    pub fn get_constant(&self, index: usize) -> (r: &ConstantPoolEntry)
        requires
            in_pool(self@, index as int),
        ensures
            r@ == self@[index - 1],
    {
        &self.entries[index - 1]
    }

    /// Get a UTF-8 constant from the pool.
    pub fn get_utf8_constant(&self, index: usize) -> (r: Result<&str, ClassFileError>)
        requires
            in_pool(self@, index as int),
        ensures
            match self@[index - 1] {
                ConstantPoolEntryV::Utf8 { data } => r matches Ok(s) && s@ == data,
                _ => r matches Err(e) && e@ == ClassFileErrorV::ExpectedString,
            },
    {
        let c = self.get_constant(index);
        if let ConstantPoolEntry::Utf8 { data } = c {
            return Ok(data.as_str());
        }
        Err(ClassFileError::ExpectedString)
    }
}

} // verus!

verus! {

/// An entry of the constant pool whose index points at an entry of the wrong kind.
#[derive(Debug)]
pub struct IndexVerificationError {
    /// The (zero-based) position of the offending entry.
    pub index: usize,
    /// What is wrong with it.
    pub ty: IndexVerificationErrorType,
}

/// The kinds of wrong indices.
#[allow(non_camel_case_types)]
#[derive(Debug, Clone, Copy, PartialEq, Eq)]
pub enum IndexVerificationErrorType {
    /// The `name_index` of a `Class` entry is not a `Utf8` entry.
    ClassNameIndexNotUTF8,
    /// The `class_index` of an `InterfaceMethodref`, `Methodref` or `Fieldref` is not a class.
    InterfaceMethod_Field_Method_ref_ClassIndexNotClass,
    /// The `name_and_type_index` of an `InterfaceMethodref`, `Methodref` or `Fieldref` is not a `NameAndType` entry.
    InterfaceMethod_Field_Method_ref_NameAndTypeIndexNotNameAndTypeInfo,
    /// The `string_index` of a `String` entry is not a `Utf8` entry.
    StringIndexNotUTF8,
    /// The `name_index` of a `NameAndType` entry is not a `Utf8` entry.
    NameAndTypeNameIndexNotUTF8,
    /// The `descriptor_index` of a `NameAndType` entry is not a `Utf8` entry.
    NameAndTypeDescriptorIndexNotUTF8,
    /// The `reference_index` of a `MethodHandle` is invalid.
    MethodHandleReferenceIndexBadType,
    /// The `descriptor_index` of a `MethodType` is not a `Utf8` entry.
    MethodTypeDescriptorIndexNotUTF8,
    /// The `name_and_type_index` of an `InvokeDynamic` entry is not a `NameAndType` entry.
    InvokeDynamicNameAndTypeIndexNotNameAndType,
}

/// The characters of `<init>`.
pub open spec fn init_name() -> Seq<char> {
    seq!['<', 'i', 'n', 'i', 't', '>']
}

/// The characters of `<clinit>`.
pub open spec fn clinit_name() -> Seq<char> {
    seq!['<', 'c', 'l', 'i', 'n', 'i', 't', '>']
}

/// The outcome of a check that requires the entry at `index` (numbered
/// from 1) to satisfy `ok`: `None` where the index is outside the pool
/// (the program stops there), else the error `err` unless `ok` holds.
pub open spec fn require_entry(pool: ConstantPoolV, index: int, ok: spec_fn(ConstantPoolEntryV) -> bool, err: IndexVerificationErrorType) -> Option<Result<(), IndexVerificationErrorType>> {
    if !in_pool(pool, index) {
        None
    } else if ok(pool[index - 1]) {
        Some(Ok(()))
    } else {
        Some(Err(err))
    }
}

/// The name, if any, of the `NameAndType` entry at `index` (entries are
/// numbered from 1): `None` where an index on the way leaves the pool,
/// `Some(None)` where an entry on the way has another kind.
pub open spec fn name_via(pool: ConstantPoolV, index: int) -> Option<Option<Seq<char>>> {
    if !in_pool(pool, index) {
        None
    } else {
        match pool[index - 1] {
            ConstantPoolEntryV::NameAndType { name_index, .. } => if !in_pool(pool, name_index as int) {
                None
            } else {
                match pool[name_index - 1] {
                    ConstantPoolEntryV::Utf8 { data } => Some(Some(data)),
                    _ => Some(None),
                }
            },
            _ => Some(None),
        }
    }
}

/// The first check of a method handle: the kind of entry that its
/// reference must be.
pub open spec fn method_handle_kind_check(pool: ConstantPoolV, kind: RefKind, entry: ConstantPoolEntryV) -> Option<Result<(), IndexVerificationErrorType>> {
    let bad = IndexVerificationErrorType::MethodHandleReferenceIndexBadType;
    match kind {
        RefKind::REF_getField | RefKind::REF_getStatic | RefKind::REF_putField | RefKind::REF_putStatic =>
            if entry is Fieldref { Some(Ok(())) } else { Some(Err(bad)) },
        RefKind::REF_invokeVirtual | RefKind::REF_newInvokeSpecial => if !(entry is Methodref) {
            Some(Err(bad))
        } else if kind == RefKind::REF_newInvokeSpecial {
            match name_via(pool, entry->Methodref_name_and_type_index as int) {
                None => None,
                Some(Some(data)) => if data != init_name() { Some(Err(bad)) } else { Some(Ok(())) },
                Some(None) => Some(Err(bad)),
            }
        } else {
            Some(Ok(()))
        },
        RefKind::REF_invokeStatic | RefKind::REF_invokeSpecial =>
            if entry is Methodref || entry is InterfaceMethodref { Some(Ok(())) } else { Some(Err(bad)) },
        RefKind::REF_invokeInterface =>
            if entry is InterfaceMethodref { Some(Ok(())) } else { Some(Err(bad)) },
    }
}

/// The second check of a method handle that invokes a method: the method
/// must not be an initializer.
pub open spec fn method_handle_name_check(pool: ConstantPoolV, kind: RefKind, entry: ConstantPoolEntryV) -> Option<Result<(), IndexVerificationErrorType>> {
    let bad = IndexVerificationErrorType::MethodHandleReferenceIndexBadType;
    match kind {
        RefKind::REF_invokeVirtual | RefKind::REF_invokeStatic | RefKind::REF_invokeSpecial | RefKind::REF_invokeInterface => {
            let info = match entry {
                ConstantPoolEntryV::Methodref { name_and_type_index, .. } => Some(name_and_type_index),
                ConstantPoolEntryV::InterfaceMethodref { name_and_type_index, .. } => Some(name_and_type_index),
                _ => None,
            };
            match info {
                None => Some(Err(bad)),
                Some(i) => match name_via(pool, i as int) {
                    None => None,
                    Some(Some(data)) => if data == init_name() || data == clinit_name() {
                        Some(Err(bad))
                    } else {
                        Some(Ok(()))
                    },
                    Some(None) => Some(Ok(())),
                },
            }
        },
        _ => Some(Ok(())),
    }
}

/// The check of one entry's indices: `None` where the check would stop the
/// program (an index outside the pool), else its verdict.
pub open spec fn check_entry(pool: ConstantPoolV, e: ConstantPoolEntryV) -> Option<Result<(), IndexVerificationErrorType>> {
    match e {
        ConstantPoolEntryV::Class { name_index } =>
            require_entry(pool, name_index as int, |x: ConstantPoolEntryV| x is Utf8, IndexVerificationErrorType::ClassNameIndexNotUTF8),
        ConstantPoolEntryV::Fieldref { class_index, name_and_type_index }
        | ConstantPoolEntryV::Methodref { class_index, name_and_type_index }
        | ConstantPoolEntryV::InterfaceMethodref { class_index, name_and_type_index } =>
            match require_entry(pool, class_index as int, |x: ConstantPoolEntryV| x is Class,
                IndexVerificationErrorType::InterfaceMethod_Field_Method_ref_ClassIndexNotClass) {
                Some(Ok(())) => require_entry(pool, name_and_type_index as int, |x: ConstantPoolEntryV| x is NameAndType,
                    IndexVerificationErrorType::InterfaceMethod_Field_Method_ref_NameAndTypeIndexNotNameAndTypeInfo),
                other => other,
            },
        ConstantPoolEntryV::String { string_index } =>
            require_entry(pool, string_index as int, |x: ConstantPoolEntryV| x is Utf8, IndexVerificationErrorType::StringIndexNotUTF8),
        ConstantPoolEntryV::NameAndType { name_index, descriptor_index } =>
            match require_entry(pool, name_index as int, |x: ConstantPoolEntryV| x is Utf8, IndexVerificationErrorType::NameAndTypeNameIndexNotUTF8) {
                Some(Ok(())) => require_entry(pool, descriptor_index as int, |x: ConstantPoolEntryV| x is Utf8,
                    IndexVerificationErrorType::NameAndTypeDescriptorIndexNotUTF8),
                other => other,
            },
        ConstantPoolEntryV::MethodHandle { reference_kind, reference_index } => if !in_pool(pool, reference_index as int) {
            None
        } else {
            let entry = pool[reference_index - 1];
            match method_handle_kind_check(pool, reference_kind, entry) {
                Some(Ok(())) => method_handle_name_check(pool, reference_kind, entry),
                other => other,
            }
        },
        ConstantPoolEntryV::MethodType { descriptor_index } =>
            require_entry(pool, descriptor_index as int, |x: ConstantPoolEntryV| x is Utf8, IndexVerificationErrorType::MethodTypeDescriptorIndexNotUTF8),
        ConstantPoolEntryV::InvokeDynamic { name_and_type_index, .. } =>
            require_entry(pool, name_and_type_index as int, |x: ConstantPoolEntryV| x is NameAndType,
                IndexVerificationErrorType::InvokeDynamicNameAndTypeIndexNotNameAndType),
        _ => Some(Ok(())),
    }
}

/// The verdict on the first `n` entries of the pool, taken in order: the
/// first entry that fails decides; `None` where the checks stop the program
/// before any entry fails.
pub open spec fn spec_verify_indices(pool: ConstantPoolV, n: nat) -> Option<Result<(), (usize, IndexVerificationErrorType)>>
    decreases n,
{
    if n == 0 {
        Some(Ok(()))
    } else {
        match spec_verify_indices(pool, (n - 1) as nat) {
            Some(Ok(())) => match check_entry(pool, pool[n - 1]) {
                Some(Ok(())) => Some(Ok(())),
                Some(Err(t)) => Some(Err(((n - 1) as usize, t))),
                None => None,
            },
            other => other,
        }
    }
}

/// Whether `s` is `<init>`.
pub(crate) fn is_init(s: &String) -> (r: bool)
    ensures
        r == (s@ == init_name()),
{
    proof {
        reveal_strlit("<init>");
    }
    let lit = crate::text::owned("<init>");
    assert(lit@ =~= init_name());
    *s == lit
}

/// Whether `s` is `<clinit>`.
fn is_clinit(s: &String) -> (r: bool)
    ensures
        r == (s@ == clinit_name()),
{
    proof {
        reveal_strlit("<clinit>");
    }
    let lit = crate::text::owned("<clinit>");
    assert(lit@ =~= clinit_name());
    *s == lit
}

/// Whether `s` is `<init>`.
pub(crate) fn is_init_str(s: &str) -> (r: bool)
    ensures
        r == (s@ == init_name()),
{
    proof {
        reveal_strlit("<init>");
    }
    let lit = crate::text::owned("<init>");
    assert(lit@ =~= init_name());
    crate::text::str_eq(s, lit.as_str())
}

impl ConstantPool {
    /// The name of the `NameAndType` entry at `index` (see [`name_via`]).
    fn name_via(&self, index: u16) -> (r: Option<Option<&String>>)
        ensures
            match name_via(self@, index as int) {
                Some(Some(d)) => r matches Some(Some(s)) && s@ == d,
                Some(None) => r == Some(None::<&String>),
                None => r is None,
            },
    {
        if !self.in_pool(index) {
            return None;
        }
        if let ConstantPoolEntry::NameAndType { name_index, .. } = self.get_constant(index as usize) {
            if !self.in_pool(*name_index) {
                return None;
            }
            if let ConstantPoolEntry::Utf8 { data } = self.get_constant(*name_index as usize) {
                return Some(Some(data));
            }
        }
        Some(None)
    }

    /// Whether `index` names an entry (entries are numbered from 1).
    pub(crate) fn in_pool(&self, index: u16) -> (r: bool)
        ensures
            r == in_pool(self@, index as int),
    {
        1 <= index && (index as usize) <= self.entries.len()
    }

    /// The check of one entry's indices (see [`check_entry`]): `None` where
    /// an index on the way leaves the pool.
    fn check_entry(&self, e: &ConstantPoolEntry) -> (r: Option<Result<(), IndexVerificationErrorType>>)
        ensures
            r == check_entry(self@, e@),
    {
        match e {
            ConstantPoolEntry::Class { name_index } => {
                if !self.in_pool(*name_index) {
                    return None;
                }
                if !matches!(self.get_constant(*name_index as usize), ConstantPoolEntry::Utf8 { .. }) {
                    return Some(Err(IndexVerificationErrorType::ClassNameIndexNotUTF8));
                }
            },
            ConstantPoolEntry::Fieldref { class_index, name_and_type_index }
            | ConstantPoolEntry::Methodref { class_index, name_and_type_index }
            | ConstantPoolEntry::InterfaceMethodref { class_index, name_and_type_index } => {
                if !self.in_pool(*class_index) {
                    return None;
                }
                if !matches!(self.get_constant(*class_index as usize), ConstantPoolEntry::Class { .. }) {
                    return Some(Err(IndexVerificationErrorType::InterfaceMethod_Field_Method_ref_ClassIndexNotClass));
                }
                if !self.in_pool(*name_and_type_index) {
                    return None;
                }
                if !matches!(self.get_constant(*name_and_type_index as usize), ConstantPoolEntry::NameAndType { .. }) {
                    return Some(Err(IndexVerificationErrorType::InterfaceMethod_Field_Method_ref_NameAndTypeIndexNotNameAndTypeInfo));
                }
            },
            ConstantPoolEntry::String { string_index } => {
                if !self.in_pool(*string_index) {
                    return None;
                }
                if !matches!(self.get_constant(*string_index as usize), ConstantPoolEntry::Utf8 { .. }) {
                    return Some(Err(IndexVerificationErrorType::StringIndexNotUTF8));
                }
            },
            ConstantPoolEntry::NameAndType { name_index, descriptor_index } => {
                if !self.in_pool(*name_index) {
                    return None;
                }
                if !matches!(self.get_constant(*name_index as usize), ConstantPoolEntry::Utf8 { .. }) {
                    return Some(Err(IndexVerificationErrorType::NameAndTypeNameIndexNotUTF8));
                }
                if !self.in_pool(*descriptor_index) {
                    return None;
                }
                if !matches!(self.get_constant(*descriptor_index as usize), ConstantPoolEntry::Utf8 { .. }) {
                    return Some(Err(IndexVerificationErrorType::NameAndTypeDescriptorIndexNotUTF8));
                }
            },
            ConstantPoolEntry::MethodHandle { reference_kind, reference_index } => {
                let bad = IndexVerificationErrorType::MethodHandleReferenceIndexBadType;
                if !self.in_pool(*reference_index) {
                    return None;
                }
                let entry = self.get_constant(*reference_index as usize);
                match reference_kind {
                    RefKind::REF_getField | RefKind::REF_getStatic | RefKind::REF_putField | RefKind::REF_putStatic => {
                        if !matches!(entry, ConstantPoolEntry::Fieldref { .. }) {
                            return Some(Err(bad));
                        }
                    },
                    RefKind::REF_invokeVirtual | RefKind::REF_newInvokeSpecial => {
                        if !matches!(entry, ConstantPoolEntry::Methodref { .. }) {
                            return Some(Err(bad));
                        }
                        if matches!(reference_kind, RefKind::REF_newInvokeSpecial) {
                            if let ConstantPoolEntry::Methodref { name_and_type_index, .. } = entry {
                                match self.name_via(*name_and_type_index) {
                                    None => {
                                        return None;
                                    },
                                    Some(Some(data)) => {
                                        if !is_init(data) {
                                            return Some(Err(bad));
                                        }
                                    },
                                    Some(None) => {
                                        return Some(Err(bad));
                                    },
                                }
                            }
                        }
                    },
                    RefKind::REF_invokeStatic | RefKind::REF_invokeSpecial => {
                        if !(matches!(entry, ConstantPoolEntry::Methodref { .. }) || matches!(entry, ConstantPoolEntry::InterfaceMethodref { .. })) {
                            return Some(Err(bad));
                        }
                    },
                    RefKind::REF_invokeInterface => {
                        if !matches!(entry, ConstantPoolEntry::InterfaceMethodref { .. }) {
                            return Some(Err(bad));
                        }
                    },
                }
                match reference_kind {
                    RefKind::REF_invokeVirtual | RefKind::REF_invokeStatic | RefKind::REF_invokeSpecial | RefKind::REF_invokeInterface => {
                        let info_index = match entry {
                            ConstantPoolEntry::Methodref { name_and_type_index, .. } => *name_and_type_index,
                            ConstantPoolEntry::InterfaceMethodref { name_and_type_index, .. } => *name_and_type_index,
                            _ => {
                                return Some(Err(bad));
                            },
                        };
                        match self.name_via(info_index) {
                            None => {
                                return None;
                            },
                            Some(Some(data)) => {
                                if is_init(data) {
                                    return Some(Err(bad));
                                }
                                if is_clinit(data) {
                                    return Some(Err(bad));
                                }
                            },
                            Some(None) => {},
                        }
                    },
                    _ => {},
                }
            },
            ConstantPoolEntry::MethodType { descriptor_index } => {
                if !self.in_pool(*descriptor_index) {
                    return None;
                }
                if !matches!(self.get_constant(*descriptor_index as usize), ConstantPoolEntry::Utf8 { .. }) {
                    return Some(Err(IndexVerificationErrorType::MethodTypeDescriptorIndexNotUTF8));
                }
            },
            ConstantPoolEntry::InvokeDynamic { name_and_type_index, .. } => {
                if !self.in_pool(*name_and_type_index) {
                    return None;
                }
                if !matches!(self.get_constant(*name_and_type_index as usize), ConstantPoolEntry::NameAndType { .. }) {
                    return Some(Err(IndexVerificationErrorType::InvokeDynamicNameAndTypeIndexNotNameAndType));
                }
            },
            _ => {},
        }
        Some(Ok(()))
    }

    /// Whether the indices of this pool can be verified: no index that the
    /// verification follows leaves the pool before an entry fails it (where
    /// one does, the verification stops the program).
    pub fn indices_checkable(&self) -> (r: bool)
        ensures
            r == (spec_verify_indices(self@, self@.len()) is Some),
    {
        let mut index: usize = 0;
        while index < self.entries.len()
            invariant
                index <= self.entries.len(),
                self@.len() == self.entries.len(),
                spec_verify_indices(self@, index as nat) == Some(Ok::<(), (usize, IndexVerificationErrorType)>(())),
            decreases self.entries.len() - index,
        {
            let entry = &self.entries[index];
            match self.check_entry(entry) {
                Some(Ok(())) => {},
                Some(Err(_)) => {
                    proof {
                        lemma_verify_indices_stops(self@, (index + 1) as nat, self@.len());
                    }
                    return true;
                },
                None => {
                    proof {
                        lemma_verify_indices_stops(self@, (index + 1) as nat, self@.len());
                    }
                    return false;
                },
            }
            index = index + 1;
        }
        true
    }

    /// Verify all constant pool index types within this constant pool: each
    /// index that an entry holds must name an entry of the kind it needs.
    /// The first entry (in order) that fails is reported.
    pub fn verify_cp_index_types(&self) -> (r: Result<(), IndexVerificationError>)
        requires
            spec_verify_indices(self@, self@.len()) is Some,
        ensures
            match spec_verify_indices(self@, self@.len()) {
                Some(Ok(())) => r is Ok,
                Some(Err((i, t))) => r matches Err(e) && e.index == i && e.ty == t,
                None => false,
            },
    {
        let mut index: usize = 0;
        while index < self.entries.len()
            invariant
                index <= self.entries.len(),
                self@.len() == self.entries.len(),
                spec_verify_indices(self@, self@.len()) is Some,
                spec_verify_indices(self@, index as nat) == Some(Ok::<(), (usize, IndexVerificationErrorType)>(())),
            decreases self.entries.len() - index,
        {
            proof {
                if check_entry(self@, self@[index as int]) is None {
                    lemma_verify_indices_stops(self@, (index + 1) as nat, self@.len());
                }
            }
            let entry = &self.entries[index];
            match self.check_entry(entry) {
                Some(Ok(())) => {},
                Some(Err(ty)) => {
                    proof {
                        lemma_verify_indices_stops(self@, (index + 1) as nat, self@.len());
                    }
                    return Err(IndexVerificationError { index, ty });
                },
                None => {
                    return vstd::pervasive::unreached();
                },
            }
            index = index + 1;
        }
        Ok(())
    }
}

/// Whether every index of the entry `e` names an entry of the pool.
pub open spec fn indices_in_pool(pool: ConstantPoolV, e: ConstantPoolEntryV) -> bool {
    match e {
        ConstantPoolEntryV::Class { name_index } => in_pool(pool, name_index as int),
        ConstantPoolEntryV::Fieldref { class_index, name_and_type_index }
        | ConstantPoolEntryV::Methodref { class_index, name_and_type_index }
        | ConstantPoolEntryV::InterfaceMethodref { class_index, name_and_type_index } =>
            in_pool(pool, class_index as int) && in_pool(pool, name_and_type_index as int),
        ConstantPoolEntryV::String { string_index } => in_pool(pool, string_index as int),
        ConstantPoolEntryV::NameAndType { name_index, descriptor_index } =>
            in_pool(pool, name_index as int) && in_pool(pool, descriptor_index as int),
        ConstantPoolEntryV::MethodHandle { reference_index, .. } => in_pool(pool, reference_index as int),
        ConstantPoolEntryV::MethodType { descriptor_index } => in_pool(pool, descriptor_index as int),
        ConstantPoolEntryV::InvokeDynamic { name_and_type_index, .. } => in_pool(pool, name_and_type_index as int),
        _ => true,
    }
}

/// Whether each index of the entry `e` (not a method handle) names an entry
/// of the kind it must: names, descriptors and strings `Utf8` entries,
/// classes `Class` entries, names and types `NameAndType` entries.
pub open spec fn index_kinds_ok(pool: ConstantPoolV, e: ConstantPoolEntryV) -> bool {
    match e {
        ConstantPoolEntryV::Class { name_index } => pool[name_index - 1] is Utf8,
        ConstantPoolEntryV::Fieldref { class_index, name_and_type_index }
        | ConstantPoolEntryV::Methodref { class_index, name_and_type_index }
        | ConstantPoolEntryV::InterfaceMethodref { class_index, name_and_type_index } =>
            pool[class_index - 1] is Class && pool[name_and_type_index - 1] is NameAndType,
        ConstantPoolEntryV::String { string_index } => pool[string_index - 1] is Utf8,
        ConstantPoolEntryV::NameAndType { name_index, descriptor_index } =>
            pool[name_index - 1] is Utf8 && pool[descriptor_index - 1] is Utf8,
        ConstantPoolEntryV::MethodType { descriptor_index } => pool[descriptor_index - 1] is Utf8,
        ConstantPoolEntryV::InvokeDynamic { name_and_type_index, .. } => pool[name_and_type_index - 1] is NameAndType,
        _ => true,
    }
}

/// For a pool without method handles whose indices all name entries, the
/// verification of indices passes exactly when every index names an entry
/// of the kind it must.
pub proof fn law_index_kinds(pool: ConstantPoolV, n: nat)
    requires
        n <= pool.len(),
        forall|i: int| 0 <= i < pool.len() ==> indices_in_pool(pool, #[trigger] pool[i]) && !(pool[i] is MethodHandle),
    ensures
        spec_verify_indices(pool, n) is Some,
        spec_verify_indices(pool, n) == Some(Ok::<(), (usize, IndexVerificationErrorType)>(()))
            <==> forall|i: int| 0 <= i < n ==> index_kinds_ok(pool, #[trigger] pool[i]),
    decreases n,
{
    if n > 0 {
        law_index_kinds(pool, (n - 1) as nat);
        let e = pool[n - 1];
        assert(indices_in_pool(pool, e) && !(e is MethodHandle));
        assert(check_entry(pool, e) is Some);
        assert(check_entry(pool, e) == Some(Ok::<(), IndexVerificationErrorType>(())) <==> index_kinds_ok(pool, e));
        if spec_verify_indices(pool, (n - 1) as nat) != Some(Ok::<(), (usize, IndexVerificationErrorType)>(())) {
            let k = choose|k: int| 0 <= k < n - 1 && !index_kinds_ok(pool, #[trigger] pool[k]);
            assert(!index_kinds_ok(pool, pool[k]));
        }
    }
}

/// Once the verdict on a prefix of the pool is not a pass, the verdict on
/// any longer prefix is the same.
pub proof fn lemma_verify_indices_stops(pool: ConstantPoolV, i: nat, n: nat)
    requires
        i <= n,
        !(spec_verify_indices(pool, i) == Some(Ok::<(), (usize, IndexVerificationErrorType)>(()))),
    ensures
        spec_verify_indices(pool, n) == spec_verify_indices(pool, i),
    decreases n - i,
{
    if i < n {
        lemma_verify_indices_stops(pool, i, (n - 1) as nat);
    }
}

} // verus!
