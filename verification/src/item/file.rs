//! The class file as a whole.
use vstd::prelude::*;
use crate::error::{ClassFileError, ClassFileErrorV};
use crate::stream::{ClassFileStream, be16, be32};
use crate::item::{ClassFileItem, ConstantPool, ConstantPoolV, known_flags, read_seq, views, cp_view};
use crate::item::constant_pool::spec_read_pool;
use crate::item::fields::{FieldInfo, FieldInfoV};
use crate::item::methods::{MethodInfo, MethodInfoV};
use crate::item::attribute_info::{AttributesCollection, AttributeGroups};
use crate::item::attribute_info::reading::{spec_attribute_groups, read_attributes};

verus! {

/// The magic number of a class file.
pub const CLASS_MAGIC: u32 = 0xCAFEBABE;

/// Access flags of a class or interface.
#[derive(Debug, Clone, Copy)]
pub struct ClassAccessFlags {
    bits: u16,
}

impl View for ClassAccessFlags {
    type V = u16;

    open spec fn view(&self) -> u16 {
        self.spec_bits()
    }
}

impl ClassAccessFlags {
    /// Declared public; may be accessed from outside its package.
    pub const ACC_PUBLIC: u16 = 0x0001;
    /// Declared final; no subclasses allowed.
    pub const ACC_FINAL: u16 = 0x0010;
    /// Treat superclass methods specially when invoked by the invokespecial instruction.
    pub const ACC_SUPER: u16 = 0x0020;
    /// Is an interface, not a class.
    pub const ACC_INTERFACE: u16 = 0x0200;
    /// Declared abstract; must not be instantiated.
    pub const ACC_ABSTRACT: u16 = 0x0400;
    /// Declared synthetic; not present in the source code.
    pub const ACC_SYNTHETIC: u16 = 0x1000;
    /// Declared as an annotation type.
    pub const ACC_ANNOTATION: u16 = 0x2000;
    /// Declared as an enum type.
    pub const ACC_ENUM: u16 = 0x4000;
    /// All the flags above.
    pub const ALL: u16 = 0x7631;

    /// The flags' bits.
    pub closed spec fn spec_bits(&self) -> u16 {
        self.bits
    }

    /// The flags whose bits are `bits`, unless a bit is not a known flag.
    pub fn from_bits(bits: u16) -> (r: Option<Self>)
        ensures
            r is Some <==> known_flags(bits, Self::ALL),
            r matches Some(f) ==> f@ == bits,
    {
        if bits & !Self::ALL == 0 {
            Some(Self { bits })
        } else {
            None
        }
    }

    /// The flags' bits.
    pub fn bits(&self) -> (r: u16)
        ensures
            r == self@,
    {
        self.bits
    }

    /// Whether all the flags in `flags` are set.
    pub fn contains(&self, flags: u16) -> (r: bool)
        ensures
            r == (self@ & flags == flags),
    {
        self.bits & flags == flags
    }
}

/// A class file.
#[derive(Debug)]
pub struct ClassFile {
    /// The class file's version (major, minor).
    pub version: (u16, u16),
    /// The constant pool.
    pub constant_pool: ConstantPool,
    /// This class's access flags.
    pub access_flags: ClassAccessFlags,
    /// Index of the CONSTANT_Class_info structure representing the class or
    /// interface defined by this class file.
    pub this_class: u16,
    /// Zero (only for the class Object), or the index of the
    /// CONSTANT_Class_info structure representing the direct superclass.
    pub super_class: u16,
    /// Indices of the CONSTANT_Class_info structures representing the
    /// direct superinterfaces, in the left-to-right order of the source.
    pub interfaces: Vec<u16>,
    /// The fields declared by this class or interface.
    pub fields: Vec<FieldInfo>,
    /// The methods declared by this class or interface.
    pub methods: Vec<MethodInfo>,
    /// The attributes of the class.
    pub attributes: AttributesCollection,
}

/// Mathematical form of [`ClassFile`].
pub struct ClassFileV {
    pub version: (u16, u16),
    pub constant_pool: ConstantPoolV,
    pub access_flags: u16,
    pub this_class: u16,
    pub super_class: u16,
    pub interfaces: Seq<u16>,
    pub fields: Seq<FieldInfoV>,
    pub methods: Seq<MethodInfoV>,
    pub attributes: AttributeGroups,
}

impl View for ClassFile {
    type V = ClassFileV;

    open spec fn view(&self) -> ClassFileV {
        ClassFileV {
            version: self.version,
            constant_pool: self.constant_pool@,
            access_flags: self.access_flags@,
            this_class: self.this_class,
            super_class: self.super_class,
            interfaces: self.interfaces@,
            fields: views(self.fields@),
            methods: views(self.methods@),
            attributes: self.attributes@,
        }
    }
}

/// What reading the fields, methods (each with their count) and
/// attributes of a class file from the front of `d` gives, with the
/// constant pool `pool`.
#[verifier::opaque]
pub open spec fn spec_class_members(d: Seq<u8>, pool: ConstantPoolV) -> Result<((Seq<FieldInfoV>, Seq<MethodInfoV>, AttributeGroups), nat), ClassFileErrorV> {
    let cp = Some(pool);
    if d.len() < 2 {
        Err(ClassFileErrorV::IoError)
    } else {
        match read_seq::<FieldInfo>(d.skip(2), cp, be16(d, 0) as nat) {
            Err(e) => Err(e),
            Ok((fields, k3)) => {
                let e = d.skip(2 + k3 as int);
                if e.len() < 2 {
                    Err(ClassFileErrorV::IoError)
                } else {
                    match read_seq::<MethodInfo>(e.skip(2), cp, be16(e, 0) as nat) {
                        Err(err) => Err(err),
                        Ok((methods, k4)) => match spec_attribute_groups(e.skip(2 + k4 as int), cp) {
                            Err(err) => Err(err),
                            Ok((attributes, k5)) => Ok(((fields, methods, attributes), 2 + k3 + 2 + k4 + k5)),
                        },
                    }
                }
            },
        }
    }
}

/// What reading the part of a class file after its constant pool (`pool`)
/// from the front of `c` gives: access flags, this class, super class, the
/// interfaces (with their count), then the fields, methods and attributes.
#[verifier::opaque]
pub open spec fn spec_class_body(c: Seq<u8>, pool: ConstantPoolV) -> Result<(ClassFileV, nat), ClassFileErrorV> {
    let cp = Some(pool);
    if c.len() < 2 {
        Err(ClassFileErrorV::IoError)
    } else if !known_flags(be16(c, 0), ClassAccessFlags::ALL) {
        Err(ClassFileErrorV::BadClassAccessFlags)
    } else if c.len() < 8 {
        Err(ClassFileErrorV::IoError)
    } else {
        match read_seq::<u16>(c.skip(8), cp, be16(c, 6) as nat) {
            Err(e) => Err(e),
            Ok((interfaces, k2)) => match spec_class_members(c.skip(8 + k2 as int), pool) {
                Err(e) => Err(e),
                Ok(((fields, methods, attributes), k)) => Ok((ClassFileV {
                    version: (0, 0),
                    constant_pool: pool,
                    access_flags: be16(c, 0),
                    this_class: be16(c, 2),
                    super_class: be16(c, 4),
                    interfaces,
                    fields,
                    methods,
                    attributes,
                }, 8 + k2 + k)),
            },
        }
    }
}

/// What reading a class file from the front of `b` gives: the magic number,
/// the minor and major versions, the constant pool, then the rest.
pub open spec fn spec_class_file(b: Seq<u8>) -> Result<(ClassFileV, nat), ClassFileErrorV> {
    if b.len() < 4 {
        Err(ClassFileErrorV::IoError)
    } else if be32(b, 0) != CLASS_MAGIC {
        Err(ClassFileErrorV::BadMagicNumber(be32(b, 0)))
    } else if b.len() < 8 {
        Err(ClassFileErrorV::IoError)
    } else {
        match spec_read_pool(b.skip(8)) {
            Err(e) => Err(e),
            Ok((pool, k1)) => match spec_class_body(b.skip(8 + k1 as int), pool) {
                Err(e) => Err(e),
                Ok((v, n)) => Ok((ClassFileV { version: (be16(b, 6), be16(b, 4)), ..v }, 8 + k1 + n)),
            },
        }
    }
}

/// A class file starts with the magic number 0xCAFEBABE (any other first
/// four bytes are refused, with the number they make), then its minor and
/// its major version, two bytes each, high byte first: its version is
/// (major, minor). After the constant pool come its access flags, this
/// class and its super class, two bytes each, high byte first.
pub proof fn law_class_file_header(b: Seq<u8>)
    requires
        b.len() >= 4,
    ensures
        ({
            let magic = b[0] as int * 0x1000000 + b[1] as int * 0x10000 + b[2] as int * 0x100 + b[3] as int;
            &&& magic != 0xCAFEBABE ==> spec_class_file(b)
                == Err::<(ClassFileV, nat), ClassFileErrorV>(ClassFileErrorV::BadMagicNumber(magic as u32))
            &&& spec_class_file(b) is Ok ==> {
                let c = (spec_class_file(b)->Ok_0).0;
                let k1 = (spec_read_pool(b.skip(8))->Ok_0).1;
                let body = b.skip(8 + k1 as int);
                &&& magic == 0xCAFEBABE
                &&& c.version == ((b[6] as int * 0x100 + b[7] as int) as u16, (b[4] as int * 0x100 + b[5] as int) as u16)
                &&& spec_read_pool(b.skip(8)) is Ok
                &&& c.constant_pool == (spec_read_pool(b.skip(8))->Ok_0).0
                &&& c.access_flags == (body[0] as int * 0x100 + body[1] as int) as u16
                &&& c.this_class == (body[2] as int * 0x100 + body[3] as int) as u16
                &&& c.super_class == (body[4] as int * 0x100 + body[5] as int) as u16
            }
        }),
{
    reveal(spec_class_body);
}

/// A field and a method are each their access flags, name index and
/// descriptor index, two bytes each and high byte first, in that order.
pub proof fn law_member_header(bytes: Seq<u8>, cp: Option<ConstantPoolV>)
    ensures
        FieldInfo::spec_read(bytes, cp) is Ok ==> {
            let f = (FieldInfo::spec_read(bytes, cp)->Ok_0).0;
            &&& f.access_flags == (bytes[0] as int * 0x100 + bytes[1] as int) as u16
            &&& f.name_index == (bytes[2] as int * 0x100 + bytes[3] as int) as u16
            &&& f.descriptor_index == (bytes[4] as int * 0x100 + bytes[5] as int) as u16
        },
        MethodInfo::spec_read(bytes, cp) is Ok ==> {
            let m = (MethodInfo::spec_read(bytes, cp)->Ok_0).0;
            &&& m.access_flags == (bytes[0] as int * 0x100 + bytes[1] as int) as u16
            &&& m.name_index == (bytes[2] as int * 0x100 + bytes[3] as int) as u16
            &&& m.descriptor_index == (bytes[4] as int * 0x100 + bytes[5] as int) as u16
        },
{
}

impl ClassFileItem for ClassFile {
    open spec fn spec_read(bytes: Seq<u8>, cp: Option<ConstantPoolV>) -> Result<(ClassFileV, nat), ClassFileErrorV> {
        spec_class_file(bytes)
    }

    fn read_from_stream(s: &mut ClassFileStream, cp: Option<&ConstantPool>) -> (r: Result<Self, ClassFileError>) {
        let ghost b = old(s).rest();
        // check magic number
        let magic = s.read_u4()?;
        if magic != CLASS_MAGIC {
            return Err(ClassFileError::BadMagicNumber(magic));
        }
        assert(s.rest() =~= b.skip(4));
        // read file version
        let minor_version = s.read_u2()?;
        assert(s.rest() =~= b.skip(6));
        let major_version = s.read_u2()?;
        assert(s.rest() =~= b.skip(8));
        // read constant pool
        let constant_pool = ConstantPool::read_from_stream(s, None)?;
        let ghost k1 = (s.pos() - old(s).pos() - 8) as nat;
        assert(s.rest() =~= b.skip(8 + k1 as int));
        read_class_body(s, constant_pool, (major_version, minor_version))
    }
}

/// Read the part of a class file after its constant pool, and make the
/// class file of it, the pool and the version.
fn read_class_body(s: &mut ClassFileStream, constant_pool: ConstantPool, version: (u16, u16)) -> (r: Result<ClassFile, ClassFileError>)
    requires
        old(s).wf(),
        spec_class_body(old(s).rest(), constant_pool@) != Err::<(ClassFileV, nat), ClassFileErrorV>(ClassFileErrorV::Aborts),
    ensures
        final(s).wf(),
        final(s).data() == old(s).data(),
        match spec_class_body(old(s).rest(), constant_pool@) {
            Ok((v, n)) => r matches Ok(x) && x@ == (ClassFileV { version, ..v }) && final(s).pos() == old(s).pos() + n,
            Err(e) => r matches Err(x) && x@ == e,
        },
{
    reveal(spec_class_body);
    let ghost c = old(s).rest();
    let ghost pool = constant_pool@;
    assert(cp_view(Some(&constant_pool)) == Some(pool));
    // read access flags
    let bits = s.read_u2()?;
    let access_flags = match ClassAccessFlags::from_bits(bits) {
        Some(f) => f,
        None => {
            return Err(ClassFileError::BadClassAccessFlags);
        },
    };
    assert(s.rest() =~= c.skip(2));
    // read this class & super class
    let this_class = s.read_u2()?;
    assert(s.rest() =~= c.skip(4));
    let super_class = s.read_u2()?;
    assert(s.rest() =~= c.skip(6));
    // read interfaces
    let interfaces_count = s.read_u2()?;
    assert(s.rest() =~= c.skip(8));
    proof {
        crate::item::attribute_info::reading::lemma_fixed_items(Some(pool));
        crate::item::lemma_read_seq_no_abort::<u16>(c.skip(8), Some(pool), interfaces_count as nat);
    }
    let interfaces = s.read_sequence::<u16>(Some(&constant_pool), interfaces_count as usize)?;
    assert(views(interfaces@) =~= interfaces@);
    let ghost k2 = (s.pos() - old(s).pos() - 8) as nat;
    assert(s.rest() =~= c.skip(8 + k2 as int));
    let (fields, methods, attributes) = read_class_members(s, &constant_pool)?;
    Ok(ClassFile {
        version,
        constant_pool,
        access_flags,
        this_class,
        super_class,
        interfaces,
        fields,
        methods,
        attributes,
    })
}

/// Read the fields, methods and attributes of a class file.
fn read_class_members(s: &mut ClassFileStream, constant_pool: &ConstantPool) -> (r: Result<(Vec<FieldInfo>, Vec<MethodInfo>, AttributesCollection), ClassFileError>)
    requires
        old(s).wf(),
        spec_class_members(old(s).rest(), constant_pool@)
            != Err::<((Seq<FieldInfoV>, Seq<MethodInfoV>, AttributeGroups), nat), ClassFileErrorV>(ClassFileErrorV::Aborts),
    ensures
        final(s).wf(),
        final(s).data() == old(s).data(),
        match spec_class_members(old(s).rest(), constant_pool@) {
            Ok(((fields, methods, attributes), n)) => r matches Ok((f, m, a)) && views(f@) == fields && views(m@) == methods
                && a@ == attributes && final(s).pos() == old(s).pos() + n,
            Err(e) => r matches Err(x) && x@ == e,
        },
{
    reveal(spec_class_members);
    let ghost d = old(s).rest();
    let ghost pool = constant_pool@;
    assert(cp_view(Some(constant_pool)) == Some(pool));
    // read fields
    let fields_count = s.read_u2()?;
    assert(s.rest() =~= d.skip(2));
    let fields = s.read_sequence::<FieldInfo>(Some(constant_pool), fields_count as usize)?;
    let ghost k3 = (s.pos() - old(s).pos() - 2) as nat;
    let ghost e = d.skip(2 + k3 as int);
    assert(s.rest() =~= e);
    // read methods
    let methods_count = s.read_u2()?;
    assert(s.rest() =~= e.skip(2));
    let methods = s.read_sequence::<MethodInfo>(Some(constant_pool), methods_count as usize)?;
    let ghost k4 = (s.pos() - old(s).pos() - 2 - k3 - 2) as nat;
    assert(s.rest() =~= e.skip(2 + k4 as int));
    proof {
        crate::item::attribute_info::reading::lemma_attribute_groups(e.skip(2 + k4 as int), Some(pool));
    }
    // read attributes
    let attributes = read_attributes(s, Some(constant_pool))?;
    Ok((fields, methods, attributes))
}

} // verus!
