//! The entries of the tables that attributes hold.
use vstd::prelude::*;
use crate::error::{ClassFileError, ClassFileErrorV};
use crate::stream::{ClassFileStream, be16};
use crate::item::{ClassFileItem, ConstantPool, ConstantPoolV, known_flags};
use crate::item::file::ClassAccessFlags;

verus! {

/// The interval `[start, start + length)` of code indices, or an
/// arithmetic error where its end does not fit in 16 bits.
pub open spec fn pc_interval(start: u16, length: u16) -> Result<std::ops::Range<u16>, ClassFileErrorV> {
    if start + length > u16::MAX {
        Err(ClassFileErrorV::ArithmeticError)
    } else {
        Ok(std::ops::Range { start, end: (start + length) as u16 })
    }
}

/// An interval of code indices is given, or an arithmetic error.
pub broadcast proof fn lemma_pc_interval(start: u16, length: u16)
    ensures
        #[trigger] pc_interval(start, length) != Err::<std::ops::Range<u16>, ClassFileErrorV>(ClassFileErrorV::Aborts),
{
}

/// [`pc_interval`], computed.
pub fn pc_interval_of(start: u16, length: u16) -> (r: Result<std::ops::Range<u16>, ClassFileError>)
    ensures
        match pc_interval(start, length) {
            Ok(x) => r matches Ok(y) && y == x,
            Err(e) => r matches Err(y) && y@ == e,
        },
{
    match start.checked_add(length) {
        Some(end) => Ok(std::ops::Range { start, end }),
        None => Err(ClassFileError::ArithmeticError),
    }
}

/// Access flags of a formal parameter.
#[derive(Debug, Clone, Copy)]
pub struct FormalParameterAccessFlags {
    bits: u16,
}

impl View for FormalParameterAccessFlags {
    type V = u16;

    open spec fn view(&self) -> u16 {
        self.spec_bits()
    }
}

impl FormalParameterAccessFlags {
    /// Indicates that the formal parameter was declared final.
    pub const ACC_FINAL: u16 = 0x0010;
    /// Indicates that the formal parameter was not explicitly or implicitly
    /// declared in source code (it is an implementation artifact of the
    /// compiler which produced this class file).
    pub const ACC_SYNTHETIC: u16 = 0x1000;
    /// Indicates that the formal parameter was implicitly declared in source
    /// code (it is mandated by a language specification).
    pub const ACC_MANDATED: u16 = 0x8000;
    /// All the flags above.
    pub const ALL: u16 = 0x9010;

    /// The flags' bits.
    pub closed spec fn spec_bits(&self) -> u16 {
        self.bits
    }

    /// The flags whose bits are `bits`, unless a bit is not a known flag.
    pub fn from_bits(bits: u16) -> (r: Option<Self>)
        ensures
            r is Some <==> known_flags(bits, Self::ALL),
            r matches Some(f) ==> f@ == bits,
    {
        if bits & !Self::ALL == 0 {
            Some(Self { bits })
        } else {
            None
        }
    }

    /// The flags' bits.
    pub fn bits(&self) -> (r: u16)
        ensures
            r == self@,
    {
        self.bits
    }

    /// Whether all the flags in `flags` are set.
    pub fn contains(&self, flags: u16) -> (r: bool)
        ensures
            r == (self@ & flags == flags),
    {
        self.bits & flags == flags
    }
}

/// Method parameters element.
#[derive(Debug)]
pub struct MethodParametersElement {
    /// The value of the name_index item must either be zero or a valid index
    /// into the constant_pool table. If it is zero, this parameters element
    /// indicates a formal parameter with no name; otherwise the entry at that
    /// index must be a CONSTANT_Utf8_info structure representing a valid
    /// unqualified name denoting a formal parameter.
    pub name_index: u16,
    pub access_flags: FormalParameterAccessFlags,
}

/// Mathematical form of [`MethodParametersElement`].
pub struct MethodParametersElementV {
    pub name_index: u16,
    pub access_flags: u16,
}

impl View for MethodParametersElement {
    type V = MethodParametersElementV;

    open spec fn view(&self) -> MethodParametersElementV {
        MethodParametersElementV { name_index: self.name_index, access_flags: self.access_flags@ }
    }
}

impl ClassFileItem for MethodParametersElement {
    open spec fn spec_read(bytes: Seq<u8>, cp: Option<ConstantPoolV>) -> Result<(MethodParametersElementV, nat), ClassFileErrorV> {
        if bytes.len() < 4 {
            Err(ClassFileErrorV::IoError)
        } else if !known_flags(be16(bytes, 2), FormalParameterAccessFlags::ALL) {
            Err(ClassFileErrorV::BadFormalParameterAccessFlags)
        } else {
            Ok((MethodParametersElementV { name_index: be16(bytes, 0), access_flags: be16(bytes, 2) }, 4))
        }
    }

    fn read_from_stream(s: &mut ClassFileStream, cp: Option<&ConstantPool>) -> (r: Result<Self, ClassFileError>) {
        let ghost b = old(s).rest();
        let name_index = s.read_u2()?;
        assert(s.rest() =~= b.skip(2));
        let access_flags = s.read_u2()?;
        match FormalParameterAccessFlags::from_bits(access_flags) {
            Some(access_flags) => Ok(Self { name_index, access_flags }),
            None => Err(ClassFileError::BadFormalParameterAccessFlags),
        }
    }
}

/// LocalVarTarget table entry.
#[derive(Debug)]
pub struct LocalVarTargetTableEntry {
    /// The given local variable has a value at indices into the code array
    /// in the interval [start_pc, start_pc + length).
    pub pc_range: std::ops::Range<u16>,
    /// The given local variable must be at index in the local variable array
    /// of the current frame.
    pub index: u16,
}

impl View for LocalVarTargetTableEntry {
    type V = LocalVarTargetTableEntry;

    open spec fn view(&self) -> LocalVarTargetTableEntry {
        *self
    }
}

impl ClassFileItem for LocalVarTargetTableEntry {
    open spec fn spec_read(bytes: Seq<u8>, cp: Option<ConstantPoolV>) -> Result<(LocalVarTargetTableEntry, nat), ClassFileErrorV> {
        if bytes.len() < 6 {
            Err(ClassFileErrorV::IoError)
        } else {
            match pc_interval(be16(bytes, 0), be16(bytes, 2)) {
                Ok(pc_range) => Ok((LocalVarTargetTableEntry {
                    pc_range,
                    index: be16(bytes, 4),
                }, 6)),
                Err(e) => Err(e),
            }
        }
    }

    fn read_from_stream(s: &mut ClassFileStream, cp: Option<&ConstantPool>) -> (r: Result<Self, ClassFileError>) {
        let ghost b = old(s).rest();
        let start = s.read_u2()?;
        assert(s.rest() =~= b.skip(2));
        let length = s.read_u2()?;
        assert(s.rest() =~= b.skip(4));
        let index = s.read_u2()?;
        match pc_interval_of(start, length) {
            Ok(pc_range) => Ok(Self { pc_range, index }),
            Err(e) => Err(e),
        }
    }
}

/// Local variable type table entry.
#[derive(Debug)]
pub struct LocalVariableTypeTableEntry {
    /// The given local variable must have a value at indices into the code
    /// array in the interval [start_pc, start_pc + length).
    pub pc_range: std::ops::Range<u16>,
    /// Index of a CONSTANT_Utf8_info structure representing a valid
    /// unqualified name denoting a local variable.
    pub name_index: u16,
    /// Index of a CONSTANT_Utf8_info structure representing a field
    /// signature which encodes the type of a local variable.
    pub signature_index: u16,
    /// The given local variable must be at index in the local variable
    /// array of the current frame.
    pub index: u16,
}

impl View for LocalVariableTypeTableEntry {
    type V = LocalVariableTypeTableEntry;

    open spec fn view(&self) -> LocalVariableTypeTableEntry {
        *self
    }
}

impl ClassFileItem for LocalVariableTypeTableEntry {
    open spec fn spec_read(bytes: Seq<u8>, cp: Option<ConstantPoolV>) -> Result<(LocalVariableTypeTableEntry, nat), ClassFileErrorV> {
        if bytes.len() < 10 {
            Err(ClassFileErrorV::IoError)
        } else {
            match pc_interval(be16(bytes, 0), be16(bytes, 2)) {
                Ok(pc_range) => Ok((LocalVariableTypeTableEntry {
                    pc_range,
                    name_index: be16(bytes, 4),
                    signature_index: be16(bytes, 6),
                    index: be16(bytes, 8),
                }, 10)),
                Err(e) => Err(e),
            }
        }
    }

    fn read_from_stream(s: &mut ClassFileStream, cp: Option<&ConstantPool>) -> (r: Result<Self, ClassFileError>) {
        let ghost b = old(s).rest();
        let start = s.read_u2()?;
        assert(s.rest() =~= b.skip(2));
        let length = s.read_u2()?;
        assert(s.rest() =~= b.skip(4));
        let name_index = s.read_u2()?;
        assert(s.rest() =~= b.skip(6));
        let signature_index = s.read_u2()?;
        assert(s.rest() =~= b.skip(8));
        let index = s.read_u2()?;
        match pc_interval_of(start, length) {
            Ok(pc_range) => Ok(Self { pc_range, name_index, signature_index, index }),
            Err(e) => Err(e),
        }
    }
}

/// Local variable table entry.
#[derive(Debug)]
pub struct LocalVariableTableEntry {
    /// The given local variable must have a value at indices into the code
    /// array in the interval [start_pc, start_pc + length).
    pub pc_range: std::ops::Range<u16>,
    /// Index of a CONSTANT_Utf8_info structure representing a valid
    /// unqualified name denoting a local variable.
    pub name_index: u16,
    /// Index of a CONSTANT_Utf8_info structure representing a field
    /// descriptor which encodes the type of a local variable.
    pub descriptor_index: u16,
    /// The given local variable must be at index in the local variable
    /// array of the current frame.
    pub index: u16,
}

impl View for LocalVariableTableEntry {
    type V = LocalVariableTableEntry;

    open spec fn view(&self) -> LocalVariableTableEntry {
        *self
    }
}

impl ClassFileItem for LocalVariableTableEntry {
    open spec fn spec_read(bytes: Seq<u8>, cp: Option<ConstantPoolV>) -> Result<(LocalVariableTableEntry, nat), ClassFileErrorV> {
        if bytes.len() < 10 {
            Err(ClassFileErrorV::IoError)
        } else {
            match pc_interval(be16(bytes, 0), be16(bytes, 2)) {
                Ok(pc_range) => Ok((LocalVariableTableEntry {
                    pc_range,
                    name_index: be16(bytes, 4),
                    descriptor_index: be16(bytes, 6),
                    index: be16(bytes, 8),
                }, 10)),
                Err(e) => Err(e),
            }
        }
    }

    fn read_from_stream(s: &mut ClassFileStream, cp: Option<&ConstantPool>) -> (r: Result<Self, ClassFileError>) {
        let ghost b = old(s).rest();
        let start = s.read_u2()?;
        assert(s.rest() =~= b.skip(2));
        let length = s.read_u2()?;
        assert(s.rest() =~= b.skip(4));
        let name_index = s.read_u2()?;
        assert(s.rest() =~= b.skip(6));
        let descriptor_index = s.read_u2()?;
        assert(s.rest() =~= b.skip(8));
        let index = s.read_u2()?;
        match pc_interval_of(start, length) {
            Ok(pc_range) => Ok(Self { pc_range, name_index, descriptor_index, index }),
            Err(e) => Err(e),
        }
    }
}

/// An entry in the `line_number_table` table of the `LineNumberTable` attribute.
#[derive(Debug, Clone, Copy, PartialEq, Eq)]
pub struct LineNumberTableEntry {
    /// The index into the code array at which the code for a new line in
    /// the original source file begins.
    pub start_pc: u16,
    /// The corresponding line number in the original source file.
    pub line_number: u16,
}

impl View for LineNumberTableEntry {
    type V = LineNumberTableEntry;

    open spec fn view(&self) -> LineNumberTableEntry {
        *self
    }
}

impl ClassFileItem for LineNumberTableEntry {
    open spec fn spec_read(bytes: Seq<u8>, cp: Option<ConstantPoolV>) -> Result<(LineNumberTableEntry, nat), ClassFileErrorV> {
        if bytes.len() < 4 {
            Err(ClassFileErrorV::IoError)
        } else {
            Ok((LineNumberTableEntry { start_pc: be16(bytes, 0), line_number: be16(bytes, 2) }, 4))
        }
    }

    fn read_from_stream(s: &mut ClassFileStream, cp: Option<&ConstantPool>) -> (r: Result<Self, ClassFileError>) {
        let ghost b = old(s).rest();
        let start_pc = s.read_u2()?;
        assert(s.rest() =~= b.skip(2));
        let line_number = s.read_u2()?;
        Ok(Self { start_pc, line_number })
    }
}

/// An entry in the `classes` array of the `InnerClasses` attribute.
#[derive(Debug)]
pub struct ClassArrayEntry {
    /// Index of a CONSTANT_Class_info structure representing the class C.
    pub inner_class_info_index: u16,
    /// Zero where C is not a member of a class or interface, else the index
    /// of the CONSTANT_Class_info structure of which C is a member.
    pub outer_class_info_index: u16,
    /// Zero where C is anonymous, else the index of a CONSTANT_Utf8_info
    /// structure that represents the original simple name of C.
    pub inner_name_index: u16,
    /// The access flags of C as declared in the source code.
    pub inner_class_access_flags: ClassAccessFlags,
}

/// Mathematical form of [`ClassArrayEntry`].
pub struct ClassArrayEntryV {
    pub inner_class_info_index: u16,
    pub outer_class_info_index: u16,
    pub inner_name_index: u16,
    pub inner_class_access_flags: u16,
}

impl View for ClassArrayEntry {
    type V = ClassArrayEntryV;

    open spec fn view(&self) -> ClassArrayEntryV {
        ClassArrayEntryV {
            inner_class_info_index: self.inner_class_info_index,
            outer_class_info_index: self.outer_class_info_index,
            inner_name_index: self.inner_name_index,
            inner_class_access_flags: self.inner_class_access_flags@,
        }
    }
}

impl ClassFileItem for ClassArrayEntry {
    open spec fn spec_read(bytes: Seq<u8>, cp: Option<ConstantPoolV>) -> Result<(ClassArrayEntryV, nat), ClassFileErrorV> {
        if bytes.len() < 8 {
            Err(ClassFileErrorV::IoError)
        } else if !known_flags(be16(bytes, 6), ClassAccessFlags::ALL) {
            Err(ClassFileErrorV::BadClassAccessFlags)
        } else {
            Ok((ClassArrayEntryV {
                inner_class_info_index: be16(bytes, 0),
                outer_class_info_index: be16(bytes, 2),
                inner_name_index: be16(bytes, 4),
                inner_class_access_flags: be16(bytes, 6),
            }, 8))
        }
    }

    fn read_from_stream(s: &mut ClassFileStream, cp: Option<&ConstantPool>) -> (r: Result<Self, ClassFileError>) {
        let ghost b = old(s).rest();
        let inner_class_info_index = s.read_u2()?;
        assert(s.rest() =~= b.skip(2));
        let outer_class_info_index = s.read_u2()?;
        assert(s.rest() =~= b.skip(4));
        let inner_name_index = s.read_u2()?;
        assert(s.rest() =~= b.skip(6));
        let flags = s.read_u2()?;
        match ClassAccessFlags::from_bits(flags) {
            Some(inner_class_access_flags) => Ok(Self {
                inner_class_info_index,
                outer_class_info_index,
                inner_name_index,
                inner_class_access_flags,
            }),
            None => Err(ClassFileError::BadClassAccessFlags),
        }
    }
}

/// An entry in the exception table.
#[derive(Debug)]
pub struct ExceptionTableEntry {
    /// The range of the code array at which the exception handler is
    /// active: the interval [start_pc, end_pc).
    pub pc_range: std::ops::Range<u16>,
    /// The start of the exception handler.
    pub handler_pc: u16,
    /// Zero (the handler is called for all exceptions), or the index of a
    /// CONSTANT_Class_info structure representing the class of exceptions
    /// that the handler catches.
    pub catch_type: u16,
}

/// Mathematical form of [`ExceptionTableEntry`].
pub struct ExceptionTableEntryV {
    pub start_pc: u16,
    pub end_pc: u16,
    pub handler_pc: u16,
    pub catch_type: u16,
}

impl View for ExceptionTableEntry {
    type V = ExceptionTableEntryV;

    open spec fn view(&self) -> ExceptionTableEntryV {
        ExceptionTableEntryV {
            start_pc: self.pc_range.start,
            end_pc: self.pc_range.end,
            handler_pc: self.handler_pc,
            catch_type: self.catch_type,
        }
    }
}

impl ClassFileItem for ExceptionTableEntry {
    open spec fn spec_read(bytes: Seq<u8>, cp: Option<ConstantPoolV>) -> Result<(ExceptionTableEntryV, nat), ClassFileErrorV> {
        if bytes.len() < 8 {
            Err(ClassFileErrorV::IoError)
        } else {
            Ok((ExceptionTableEntryV {
                start_pc: be16(bytes, 0),
                end_pc: be16(bytes, 2),
                handler_pc: be16(bytes, 4),
                catch_type: be16(bytes, 6),
            }, 8))
        }
    }

    fn read_from_stream(s: &mut ClassFileStream, cp: Option<&ConstantPool>) -> (r: Result<Self, ClassFileError>) {
        let ghost b = old(s).rest();
        let start = s.read_u2()?;
        assert(s.rest() =~= b.skip(2));
        let end = s.read_u2()?;
        assert(s.rest() =~= b.skip(4));
        let handler_pc = s.read_u2()?;
        assert(s.rest() =~= b.skip(6));
        let catch_type = s.read_u2()?;
        Ok(Self { pc_range: std::ops::Range { start, end }, handler_pc, catch_type })
    }
}

/// The layout of the entries of the attribute tables, each number two
/// bytes, high byte first: an exception handler is its start, end and
/// handler positions and its catch type; a line number entry its start
/// position and line; a local variable its start and length, name,
/// descriptor (or signature) and slot; an inner class its class, outer
/// class, name and access flags; a method parameter its name and access
/// flags. Fewer bytes than an entry takes give an I/O error.
pub proof fn law_table_entry_layouts(bytes: Seq<u8>, cp: Option<ConstantPoolV>)
    ensures
        ({
            let u0 = (bytes[0] as int * 0x100 + bytes[1] as int) as u16;
            let u1 = (bytes[2] as int * 0x100 + bytes[3] as int) as u16;
            let u2 = (bytes[4] as int * 0x100 + bytes[5] as int) as u16;
            let u3 = (bytes[6] as int * 0x100 + bytes[7] as int) as u16;
            let u4 = (bytes[8] as int * 0x100 + bytes[9] as int) as u16;
            &&& bytes.len() >= 8 ==> ExceptionTableEntry::spec_read(bytes, cp)
                == Ok::<(ExceptionTableEntryV, nat), ClassFileErrorV>((ExceptionTableEntryV {
                    start_pc: u0, end_pc: u1, handler_pc: u2, catch_type: u3,
                }, 8nat))
            &&& bytes.len() < 8 ==> ExceptionTableEntry::spec_read(bytes, cp)
                == Err::<(ExceptionTableEntryV, nat), ClassFileErrorV>(ClassFileErrorV::IoError)
            &&& bytes.len() >= 4 ==> LineNumberTableEntry::spec_read(bytes, cp)
                == Ok::<(LineNumberTableEntry, nat), ClassFileErrorV>((LineNumberTableEntry { start_pc: u0, line_number: u1 }, 4nat))
            &&& bytes.len() < 4 ==> LineNumberTableEntry::spec_read(bytes, cp)
                == Err::<(LineNumberTableEntry, nat), ClassFileErrorV>(ClassFileErrorV::IoError)
            &&& LocalVariableTableEntry::spec_read(bytes, cp) is Ok ==> {
                let e = (LocalVariableTableEntry::spec_read(bytes, cp)->Ok_0).0;
                &&& pc_interval(u0, u1) == Ok::<std::ops::Range<u16>, ClassFileErrorV>(e.pc_range)
                &&& e.name_index == u2 && e.descriptor_index == u3 && e.index == u4
            }
            &&& LocalVariableTypeTableEntry::spec_read(bytes, cp) is Ok ==> {
                let e = (LocalVariableTypeTableEntry::spec_read(bytes, cp)->Ok_0).0;
                &&& pc_interval(u0, u1) == Ok::<std::ops::Range<u16>, ClassFileErrorV>(e.pc_range)
                &&& e.name_index == u2 && e.signature_index == u3 && e.index == u4
            }
            &&& ClassArrayEntry::spec_read(bytes, cp) is Ok ==> (ClassArrayEntry::spec_read(bytes, cp)->Ok_0).0 == (ClassArrayEntryV {
                inner_class_info_index: u0, outer_class_info_index: u1, inner_name_index: u2, inner_class_access_flags: u3,
            })
            &&& MethodParametersElement::spec_read(bytes, cp) is Ok
                ==> (MethodParametersElement::spec_read(bytes, cp)->Ok_0).0 == (MethodParametersElementV { name_index: u0, access_flags: u1 })
        }),
{
}

} // verus!
