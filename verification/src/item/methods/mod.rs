//! Methods of a class.
use vstd::prelude::*;
use crate::error::{ClassFileError, ClassFileErrorV};
use crate::stream::{ClassFileStream, be16};
use crate::item::{ClassFileItem, ConstantPool, ConstantPoolV, known_flags, cp_view};
use crate::item::attribute_info::{AttributesCollection, AttributeGroups};
use crate::item::attribute_info::reading::{spec_attribute_groups, read_attributes};

verus! {

/// Method info.
#[derive(Debug)]
pub struct MethodInfo {
    /// A mask of flags used to denote access permission to and properties
    /// of this method.
    pub access_flags: MethodAccessFlags,
    /// Index of a CONSTANT_Utf8_info structure which represents a valid
    /// unqualified name denoting a method.
    pub name_index: u16,
    /// Index of a CONSTANT_Utf8_info structure which represents a valid
    /// method descriptor.
    pub descriptor_index: u16,
    /// The attributes of this method.
    pub attributes: AttributesCollection,
}

/// Mathematical form of [`MethodInfo`].
pub struct MethodInfoV {
    pub access_flags: u16,
    pub name_index: u16,
    pub descriptor_index: u16,
    pub attributes: AttributeGroups,
}

impl View for MethodInfo {
    type V = MethodInfoV;

    open spec fn view(&self) -> MethodInfoV {
        MethodInfoV {
            access_flags: self.access_flags@,
            name_index: self.name_index,
            descriptor_index: self.descriptor_index,
            attributes: self.attributes@,
        }
    }
}

impl ClassFileItem for MethodInfo {
    /// Its access flags, name index and descriptor index (two bytes each),
    /// then its attributes.
    open spec fn spec_read(bytes: Seq<u8>, cp: Option<ConstantPoolV>) -> Result<(MethodInfoV, nat), ClassFileErrorV> {
        if bytes.len() < 2 {
            Err(ClassFileErrorV::IoError)
        } else if !known_flags(be16(bytes, 0), MethodAccessFlags::ALL) {
            Err(ClassFileErrorV::BadMethodAccessFlags)
        } else if bytes.len() < 6 {
            Err(ClassFileErrorV::IoError)
        } else {
            match spec_attribute_groups(bytes.skip(6), cp) {
                Ok((attributes, n)) => Ok((MethodInfoV {
                    access_flags: be16(bytes, 0),
                    name_index: be16(bytes, 2),
                    descriptor_index: be16(bytes, 4),
                    attributes,
                }, 6 + n)),
                Err(e) => Err(e),
            }
        }
    }

    fn read_from_stream(s: &mut ClassFileStream, cp: Option<&ConstantPool>) -> (r: Result<Self, ClassFileError>) {
        let ghost b = old(s).rest();
        proof {
            crate::item::attribute_info::reading::lemma_attribute_groups(b.skip(6), cp_view(cp));
        }
        let bits = s.read_u2()?;
        assert(s.rest() =~= b.skip(2));
        let access_flags = match MethodAccessFlags::from_bits(bits) {
            Some(f) => f,
            None => {
                return Err(ClassFileError::BadMethodAccessFlags);
            },
        };
        let name_index = s.read_u2()?;
        assert(s.rest() =~= b.skip(4));
        let descriptor_index = s.read_u2()?;
        assert(s.rest() =~= b.skip(6));
        let attributes = read_attributes(s, cp)?;
        Ok(Self { access_flags, name_index, descriptor_index, attributes })
    }
}

/// Access flags of a method.
#[derive(Debug, Clone, Copy)]
pub struct MethodAccessFlags {
    bits: u16,
}

impl View for MethodAccessFlags {
    type V = u16;

    open spec fn view(&self) -> u16 {
        self.spec_bits()
    }
}

impl MethodAccessFlags {
    /// Declared public; may be accessed from outside its package.
    pub const ACC_PUBLIC: u16 = 0x0001;
    /// Declared private; accessible only within the defining class.
    pub const ACC_PRIVATE: u16 = 0x0002;
    /// Declared protected; may be accessed within subclasses.
    pub const ACC_PROTECTED: u16 = 0x0004;
    /// Declared static.
    pub const ACC_STATIC: u16 = 0x0008;
    /// Declared final; must not be overridden.
    pub const ACC_FINAL: u16 = 0x0010;
    /// Declared synchronized; invocation is wrapped by a monitor use.
    pub const ACC_SYNCHRONIZED: u16 = 0x0020;
    /// A bridge method, generated by the compiler.
    pub const ACC_BRIDGE: u16 = 0x0040;
    /// Declared with variable number of arguments.
    pub const ACC_VARARGS: u16 = 0x0080;
    /// Declared native; implemented in a language other than Java.
    pub const ACC_NATIVE: u16 = 0x0100;
    /// Declared abstract; no implementation is provided.
    pub const ACC_ABSTRACT: u16 = 0x0400;
    /// Declared strictfp; floating-point mode is FP-strict.
    pub const ACC_STRICT: u16 = 0x0800;
    /// Declared synthetic; not present in the source code.
    pub const ACC_SYNTHETIC: u16 = 0x1000;
    /// All the flags above.
    pub const ALL: u16 = 0x1DFF;

    /// The flags' bits.
    pub closed spec fn spec_bits(&self) -> u16 {
        self.bits
    }

    /// The flags whose bits are `bits`, unless a bit is not a known flag.
    pub fn from_bits(bits: u16) -> (r: Option<Self>)
        ensures
            r is Some <==> known_flags(bits, Self::ALL),
            r matches Some(f) ==> f@ == bits,
    {
        if bits & !Self::ALL == 0 {
            Some(Self { bits })
        } else {
            None
        }
    }

    /// The flags' bits.
    pub fn bits(&self) -> (r: u16)
        ensures
            r == self@,
    {
        self.bits
    }

    /// Whether all the flags in `flags` are set.
    pub fn contains(&self, flags: u16) -> (r: bool)
        ensures
            r == (self@ & flags == flags),
    {
        self.bits & flags == flags
    }
}

} // verus!
