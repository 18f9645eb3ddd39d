//! Constant pool entries.
use vstd::prelude::*;
use vstd::utf8::{valid_utf8, decode_utf8};
use crate::error::{ClassFileError, ClassFileErrorV};
use crate::stream::{ClassFileStream, be16, be32, be64, fixed};
use crate::text::string_from_utf8;
use crate::item::{ClassFileItem, ConstantPool, ConstantPoolV};

verus! {

/// The possible reference kind values for method handles.
#[allow(non_camel_case_types)]
#[derive(Debug, Clone, Copy, PartialEq, Eq)]
pub enum RefKind {
    REF_getField,
    REF_getStatic,
    REF_putField,
    REF_putStatic,
    REF_invokeVirtual,
    REF_invokeStatic,
    REF_invokeSpecial,
    REF_newInvokeSpecial,
    REF_invokeInterface,
}

/// The reference kind that the byte `v` stands for (1 to 9).
pub open spec fn spec_ref_kind(v: u8) -> Option<RefKind> {
    if v == 1 { Some(RefKind::REF_getField) }
    else if v == 2 { Some(RefKind::REF_getStatic) }
    else if v == 3 { Some(RefKind::REF_putField) }
    else if v == 4 { Some(RefKind::REF_putStatic) }
    else if v == 5 { Some(RefKind::REF_invokeVirtual) }
    else if v == 6 { Some(RefKind::REF_invokeStatic) }
    else if v == 7 { Some(RefKind::REF_invokeSpecial) }
    else if v == 8 { Some(RefKind::REF_newInvokeSpecial) }
    else if v == 9 { Some(RefKind::REF_invokeInterface) }
    else { None }
}

impl RefKind {
    /// Decode a reference kind from its byte.
    pub fn decode(v: u8) -> (r: Result<Self, ClassFileError>)
        ensures
            match spec_ref_kind(v) {
                Some(k) => r == Ok::<RefKind, ClassFileError>(k),
                None => r matches Err(e) && e@ == ClassFileErrorV::UnknownReferenceKind(v),
            },
    {
        match v {
            1 => Ok(Self::REF_getField),
            2 => Ok(Self::REF_getStatic),
            3 => Ok(Self::REF_putField),
            4 => Ok(Self::REF_putStatic),
            5 => Ok(Self::REF_invokeVirtual),
            6 => Ok(Self::REF_invokeStatic),
            7 => Ok(Self::REF_invokeSpecial),
            8 => Ok(Self::REF_newInvokeSpecial),
            9 => Ok(Self::REF_invokeInterface),
            _ => Err(ClassFileError::UnknownReferenceKind(v)),
        }
    }
}

/// A constant pool entry.
///
/// Reading an entry does not verify any index it holds.
#[derive(Debug, Clone)]
pub enum ConstantPoolEntry {
    /// A class or an interface; `name_index` must name a `Utf8` entry.
    Class { name_index: u16 },
    /// A field: its class and its name and type.
    Fieldref { class_index: u16, name_and_type_index: u16 },
    /// A method of a class: its class and its name and type.
    Methodref { class_index: u16, name_and_type_index: u16 },
    /// A method of an interface: its interface and its name and type.
    InterfaceMethodref { class_index: u16, name_and_type_index: u16 },
    /// A constant `String`; `string_index` must name a `Utf8` entry.
    String { string_index: u16 },
    /// A 4-byte `int` constant.
    Integer { bytes: i32 },
    /// A 4-byte `float` constant, as its IEEE 754 bits.
    Float { float: u32 },
    /// An 8-byte `long` constant.
    Long { bytes: i64 },
    /// An 8-byte `double` constant, as its IEEE 754 bits.
    Double { bytes: u64 },
    /// A name and a descriptor, without the class they belong to.
    NameAndType { name_index: u16, descriptor_index: u16 },
    /// A constant string value.
    Utf8 { data: String },
    /// A method handle: its kind and the entry it refers to.
    MethodHandle { reference_kind: RefKind, reference_index: u16 },
    /// A method type; `descriptor_index` must name a `Utf8` entry.
    MethodType { descriptor_index: u16 },
    /// A bootstrap method and the name and type of a dynamic call site.
    InvokeDynamic { bootstrap_method_attr_index: u16, name_and_type_index: u16 },
}

/// Mathematical form of [`ConstantPoolEntry`]: a `Utf8` entry holds its
/// characters.
pub enum ConstantPoolEntryV {
    Class { name_index: u16 },
    Fieldref { class_index: u16, name_and_type_index: u16 },
    Methodref { class_index: u16, name_and_type_index: u16 },
    InterfaceMethodref { class_index: u16, name_and_type_index: u16 },
    String { string_index: u16 },
    Integer { bytes: i32 },
    Float { float: u32 },
    Long { bytes: i64 },
    Double { bytes: u64 },
    NameAndType { name_index: u16, descriptor_index: u16 },
    Utf8 { data: Seq<char> },
    MethodHandle { reference_kind: RefKind, reference_index: u16 },
    MethodType { descriptor_index: u16 },
    InvokeDynamic { bootstrap_method_attr_index: u16, name_and_type_index: u16 },
}

impl View for ConstantPoolEntry {
    type V = ConstantPoolEntryV;

    open spec fn view(&self) -> ConstantPoolEntryV {
        match self {
            ConstantPoolEntry::Class { name_index } => ConstantPoolEntryV::Class { name_index: *name_index },
            ConstantPoolEntry::Fieldref { class_index, name_and_type_index } =>
                ConstantPoolEntryV::Fieldref { class_index: *class_index, name_and_type_index: *name_and_type_index },
            ConstantPoolEntry::Methodref { class_index, name_and_type_index } =>
                ConstantPoolEntryV::Methodref { class_index: *class_index, name_and_type_index: *name_and_type_index },
            ConstantPoolEntry::InterfaceMethodref { class_index, name_and_type_index } =>
                ConstantPoolEntryV::InterfaceMethodref { class_index: *class_index, name_and_type_index: *name_and_type_index },
            ConstantPoolEntry::String { string_index } => ConstantPoolEntryV::String { string_index: *string_index },
            ConstantPoolEntry::Integer { bytes } => ConstantPoolEntryV::Integer { bytes: *bytes },
            ConstantPoolEntry::Float { float } => ConstantPoolEntryV::Float { float: *float },
            ConstantPoolEntry::Long { bytes } => ConstantPoolEntryV::Long { bytes: *bytes },
            ConstantPoolEntry::Double { bytes } => ConstantPoolEntryV::Double { bytes: *bytes },
            ConstantPoolEntry::NameAndType { name_index, descriptor_index } =>
                ConstantPoolEntryV::NameAndType { name_index: *name_index, descriptor_index: *descriptor_index },
            ConstantPoolEntry::Utf8 { data } => ConstantPoolEntryV::Utf8 { data: data@ },
            ConstantPoolEntry::MethodHandle { reference_kind, reference_index } =>
                ConstantPoolEntryV::MethodHandle { reference_kind: *reference_kind, reference_index: *reference_index },
            ConstantPoolEntry::MethodType { descriptor_index } => ConstantPoolEntryV::MethodType { descriptor_index: *descriptor_index },
            ConstantPoolEntry::InvokeDynamic { bootstrap_method_attr_index, name_and_type_index } =>
                ConstantPoolEntryV::InvokeDynamic {
                    bootstrap_method_attr_index: *bootstrap_method_attr_index,
                    name_and_type_index: *name_and_type_index,
                },
        }
    }
}

/// What reading a `Utf8` entry's body (after its tag) from `r` gives.
pub open spec fn spec_read_utf8_body(r: Seq<u8>) -> Result<(ConstantPoolEntryV, nat), ClassFileErrorV> {
    if r.len() < 2 {
        Err(ClassFileErrorV::IoError)
    } else {
        let len = be16(r, 0) as nat;
        if r.len() < 2 + len {
            Err(ClassFileErrorV::IoError)
        } else {
            let bytes = r.subrange(2, 2 + len as int);
            if valid_utf8(bytes) {
                Ok((ConstantPoolEntryV::Utf8 { data: decode_utf8(bytes) }, 3 + len))
            } else {
                Err(ClassFileErrorV::InvalidUTF8Error)
            }
        }
    }
}

/// What reading a constant pool entry from the front of `b` gives: a tag
/// byte, then the entry's fields in big-endian order.
pub open spec fn spec_read_entry(b: Seq<u8>) -> Result<(ConstantPoolEntryV, nat), ClassFileErrorV> {
    if b.len() < 1 {
        Err(ClassFileErrorV::IoError)
    } else {
        let r = b.skip(1);
        let tag = b[0];
        if tag == 7 {
            fixed(b, 3, ConstantPoolEntryV::Class { name_index: be16(r, 0) })
        } else if tag == 9 {
            fixed(b, 5, ConstantPoolEntryV::Fieldref { class_index: be16(r, 0), name_and_type_index: be16(r, 2) })
        } else if tag == 10 {
            fixed(b, 5, ConstantPoolEntryV::Methodref { class_index: be16(r, 0), name_and_type_index: be16(r, 2) })
        } else if tag == 11 {
            fixed(b, 5, ConstantPoolEntryV::InterfaceMethodref { class_index: be16(r, 0), name_and_type_index: be16(r, 2) })
        } else if tag == 8 {
            fixed(b, 3, ConstantPoolEntryV::String { string_index: be16(r, 0) })
        } else if tag == 3 {
            fixed(b, 5, ConstantPoolEntryV::Integer { bytes: be32(r, 0) as i32 })
        } else if tag == 4 {
            fixed(b, 5, ConstantPoolEntryV::Float { float: be32(r, 0) })
        } else if tag == 5 {
            fixed(b, 9, ConstantPoolEntryV::Long { bytes: be64(r, 0) as i64 })
        } else if tag == 6 {
            fixed(b, 9, ConstantPoolEntryV::Double { bytes: be64(r, 0) })
        } else if tag == 12 {
            fixed(b, 5, ConstantPoolEntryV::NameAndType { name_index: be16(r, 0), descriptor_index: be16(r, 2) })
        } else if tag == 1 {
            spec_read_utf8_body(r)
        } else if tag == 15 {
            if r.len() < 1 {
                Err(ClassFileErrorV::IoError)
            } else {
                match spec_ref_kind(r[0]) {
                    None => Err(ClassFileErrorV::UnknownReferenceKind(r[0])),
                    Some(k) => fixed(b, 4, ConstantPoolEntryV::MethodHandle { reference_kind: k, reference_index: be16(r, 1) }),
                }
            }
        } else if tag == 16 {
            fixed(b, 3, ConstantPoolEntryV::MethodType { descriptor_index: be16(r, 0) })
        } else if tag == 18 {
            fixed(b, 5, ConstantPoolEntryV::InvokeDynamic { bootstrap_method_attr_index: be16(r, 0), name_and_type_index: be16(r, 2) })
        } else {
            Err(ClassFileErrorV::UnknownConstantPoolTag(tag))
        }
    }
}

/// A member reference entry is its tag (9 a field, 10 a method, 11 an
/// interface method), then the class index and then the name-and-type
/// index, each two bytes, high byte first; it takes five bytes, and fewer
/// give an I/O error.
pub proof fn law_member_ref_read(b: Seq<u8>)
    requires
        b.len() >= 1,
    ensures
        ({
            let class_index = (b[1] as int * 256 + b[2] as int) as u16;
            let name_and_type_index = (b[3] as int * 256 + b[4] as int) as u16;
            &&& b.len() >= 5 && b[0] == 9 ==> spec_read_entry(b)
                == Ok::<(ConstantPoolEntryV, nat), ClassFileErrorV>((ConstantPoolEntryV::Fieldref { class_index, name_and_type_index }, 5nat))
            &&& b.len() >= 5 && b[0] == 10 ==> spec_read_entry(b)
                == Ok::<(ConstantPoolEntryV, nat), ClassFileErrorV>((ConstantPoolEntryV::Methodref { class_index, name_and_type_index }, 5nat))
            &&& b.len() >= 5 && b[0] == 11 ==> spec_read_entry(b)
                == Ok::<(ConstantPoolEntryV, nat), ClassFileErrorV>((ConstantPoolEntryV::InterfaceMethodref { class_index, name_and_type_index }, 5nat))
        }),
        b.len() < 5 && (b[0] == 9 || b[0] == 10 || b[0] == 11) ==> spec_read_entry(b)
            == Err::<(ConstantPoolEntryV, nat), ClassFileErrorV>(ClassFileErrorV::IoError),
{
    if b.len() >= 5 {
        let r = b.skip(1);
        assert(r[0] == b[1] && r[1] == b[2] && r[2] == b[3] && r[3] == b[4]);
    }
}

/// The layout of the other entries of fixed length, after their tag: a
/// class (7), a string (8) and a method type (16) hold one two-byte index;
/// an integer (3) and a float (4) four bytes; a long (5) and a double (6)
/// eight bytes; a name and type (12) and an invoke-dynamic entry (18) two
/// two-byte numbers; a method handle (15) a reference kind byte and a
/// two-byte index. All numbers are high byte first.
pub proof fn law_entry_layout(b: Seq<u8>)
    requires
        b.len() >= 1,
    ensures
        ({
            let u1 = b[1] as int * 0x100 + b[2] as int;
            let u2 = b[3] as int * 0x100 + b[4] as int;
            let w1 = u1 * 0x10000 + u2;
            let w2 = (b[5] as int * 0x100 + b[6] as int) * 0x10000 + b[7] as int * 0x100 + b[8] as int;
            &&& b.len() >= 3 && b[0] == 7 ==> spec_read_entry(b)
                == Ok::<(ConstantPoolEntryV, nat), ClassFileErrorV>((ConstantPoolEntryV::Class { name_index: u1 as u16 }, 3nat))
            &&& b.len() >= 3 && b[0] == 8 ==> spec_read_entry(b)
                == Ok::<(ConstantPoolEntryV, nat), ClassFileErrorV>((ConstantPoolEntryV::String { string_index: u1 as u16 }, 3nat))
            &&& b.len() >= 3 && b[0] == 16 ==> spec_read_entry(b)
                == Ok::<(ConstantPoolEntryV, nat), ClassFileErrorV>((ConstantPoolEntryV::MethodType { descriptor_index: u1 as u16 }, 3nat))
            &&& b.len() >= 5 && b[0] == 3 ==> spec_read_entry(b)
                == Ok::<(ConstantPoolEntryV, nat), ClassFileErrorV>((ConstantPoolEntryV::Integer { bytes: (w1 as u32) as i32 }, 5nat))
            &&& b.len() >= 5 && b[0] == 4 ==> spec_read_entry(b)
                == Ok::<(ConstantPoolEntryV, nat), ClassFileErrorV>((ConstantPoolEntryV::Float { float: w1 as u32 }, 5nat))
            &&& b.len() >= 9 && b[0] == 5 ==> spec_read_entry(b)
                == Ok::<(ConstantPoolEntryV, nat), ClassFileErrorV>((ConstantPoolEntryV::Long { bytes: ((w1 * 0x1_0000_0000 + w2) as u64) as i64 }, 9nat))
            &&& b.len() >= 9 && b[0] == 6 ==> spec_read_entry(b)
                == Ok::<(ConstantPoolEntryV, nat), ClassFileErrorV>((ConstantPoolEntryV::Double { bytes: (w1 * 0x1_0000_0000 + w2) as u64 }, 9nat))
            &&& b.len() >= 5 && b[0] == 12 ==> spec_read_entry(b)
                == Ok::<(ConstantPoolEntryV, nat), ClassFileErrorV>((ConstantPoolEntryV::NameAndType { name_index: u1 as u16, descriptor_index: u2 as u16 }, 5nat))
            &&& b.len() >= 5 && b[0] == 18 ==> spec_read_entry(b)
                == Ok::<(ConstantPoolEntryV, nat), ClassFileErrorV>((ConstantPoolEntryV::InvokeDynamic {
                    bootstrap_method_attr_index: u1 as u16,
                    name_and_type_index: u2 as u16,
                }, 5nat))
            &&& b.len() >= 4 && b[0] == 15 && spec_ref_kind(b[1]) is Some ==> spec_read_entry(b)
                == Ok::<(ConstantPoolEntryV, nat), ClassFileErrorV>((ConstantPoolEntryV::MethodHandle {
                    reference_kind: spec_ref_kind(b[1]).unwrap(),
                    reference_index: (b[2] as int * 0x100 + b[3] as int) as u16,
                }, 4nat))
            &&& b.len() >= 2 && b[0] == 15 && spec_ref_kind(b[1]) is None ==> spec_read_entry(b)
                == Err::<(ConstantPoolEntryV, nat), ClassFileErrorV>(ClassFileErrorV::UnknownReferenceKind(b[1]))
        }),
{
    let r = b.skip(1);
    if b.len() >= 9 {
        assert(r[4] == b[5] && r[5] == b[6] && r[6] == b[7] && r[7] == b[8]);
    }
    if b.len() >= 5 {
        assert(r[2] == b[3] && r[3] == b[4]);
    }
    if b.len() >= 3 {
        assert(r[0] == b[1] && r[1] == b[2]);
    }
}

/// The reference kinds by their numbers: 1 `getField`, 2 `getStatic`, 3
/// `putField`, 4 `putStatic`, 5 `invokeVirtual`, 6 `invokeStatic`, 7
/// `invokeSpecial`, 8 `newInvokeSpecial`, 9 `invokeInterface`; no other
/// number is a reference kind.
pub proof fn law_ref_kind_numbers(v: u8)
    ensures
        spec_ref_kind(1) == Some(RefKind::REF_getField),
        spec_ref_kind(2) == Some(RefKind::REF_getStatic),
        spec_ref_kind(3) == Some(RefKind::REF_putField),
        spec_ref_kind(4) == Some(RefKind::REF_putStatic),
        spec_ref_kind(5) == Some(RefKind::REF_invokeVirtual),
        spec_ref_kind(6) == Some(RefKind::REF_invokeStatic),
        spec_ref_kind(7) == Some(RefKind::REF_invokeSpecial),
        spec_ref_kind(8) == Some(RefKind::REF_newInvokeSpecial),
        spec_ref_kind(9) == Some(RefKind::REF_invokeInterface),
        spec_ref_kind(v) is None <==> (v == 0 || v > 9),
{
}

impl ClassFileItem for ConstantPoolEntry {
    open spec fn spec_read(bytes: Seq<u8>, cp: Option<ConstantPoolV>) -> Result<(ConstantPoolEntryV, nat), ClassFileErrorV> {
        spec_read_entry(bytes)
    }

    fn read_from_stream(s: &mut ClassFileStream, cp: Option<&ConstantPool>) -> (r: Result<Self, ClassFileError>) {
        let ghost b = old(s).rest();
        let tag = s.read_u1()?;
        assert(s.rest() =~= b.skip(1));
        let ghost r = b.skip(1);
        match tag {
            7 => {
                let name_index = s.read_u2()?;
                Ok(Self::Class { name_index })
            },
            9 => {
                let class_index = s.read_u2()?;
                assert(s.rest() =~= r.skip(2));
                let name_and_type_index = s.read_u2()?;
                Ok(Self::Fieldref { class_index, name_and_type_index })
            },
            10 => {
                let class_index = s.read_u2()?;
                assert(s.rest() =~= r.skip(2));
                let name_and_type_index = s.read_u2()?;
                Ok(Self::Methodref { class_index, name_and_type_index })
            },
            11 => {
                let class_index = s.read_u2()?;
                assert(s.rest() =~= r.skip(2));
                let name_and_type_index = s.read_u2()?;
                Ok(Self::InterfaceMethodref { class_index, name_and_type_index })
            },
            8 => {
                let string_index = s.read_u2()?;
                Ok(Self::String { string_index })
            },
            3 => {
                let v = s.read_u4()?;
                Ok(Self::Integer { bytes: v as i32 })
            },
            4 => {
                let float = s.read_u4()?;
                Ok(Self::Float { float })
            },
            5 => {
                let v = s.read::<8>()?;
                Ok(Self::Long { bytes: be_u64(&v) as i64 })
            },
            6 => {
                let v = s.read::<8>()?;
                Ok(Self::Double { bytes: be_u64(&v) })
            },
            12 => {
                let name_index = s.read_u2()?;
                assert(s.rest() =~= r.skip(2));
                let descriptor_index = s.read_u2()?;
                Ok(Self::NameAndType { name_index, descriptor_index })
            },
            1 => {
                let length = s.read_u2()?;
                assert(s.rest() =~= r.skip(2));
                let bytes = s.read_dynamic(length as usize)?;
                assert(bytes@ =~= r.subrange(2, 2 + length as int));
                match string_from_utf8(bytes) {
                    Ok(data) => Ok(Self::Utf8 { data }),
                    Err(e) => Err(ClassFileError::InvalidUTF8Error(e)),
                }
            },
            15 => {
                let k = s.read_u1()?;
                let reference_kind = RefKind::decode(k)?;
                assert(s.rest() =~= r.skip(1));
                let reference_index = s.read_u2()?;
                Ok(Self::MethodHandle { reference_kind, reference_index })
            },
            16 => {
                let descriptor_index = s.read_u2()?;
                Ok(Self::MethodType { descriptor_index })
            },
            18 => {
                let bootstrap_method_attr_index = s.read_u2()?;
                assert(s.rest() =~= r.skip(2));
                let name_and_type_index = s.read_u2()?;
                Ok(Self::InvokeDynamic { bootstrap_method_attr_index, name_and_type_index })
            },
            v => Err(ClassFileError::UnknownConstantPoolTag(v)),
        }
    }
}

/// The big-endian value of eight bytes.
fn be_u64(v: &[u8; 8]) -> (r: u64)
    ensures
        r == be64(v@, 0),
{
    let hi = ((v[0] as u32 * 0x100 + v[1] as u32) * 0x10000) + (v[2] as u32 * 0x100 + v[3] as u32);
    let lo = ((v[4] as u32 * 0x100 + v[5] as u32) * 0x10000) + (v[6] as u32 * 0x100 + v[7] as u32);
    hi as u64 * 0x1_0000_0000 + lo as u64
}

} // verus!
