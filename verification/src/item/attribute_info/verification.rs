//! Verification types and stack map frames.
use vstd::prelude::*;
use crate::error::{ClassFileError, ClassFileErrorV};
use crate::stream::{ClassFileStream, be16};
use crate::item::{ClassFileItem, ConstantPool, ConstantPoolV, read_seq, views};

verus! {

pub const ITEM_Top: u8 = 0;
pub const ITEM_Integer: u8 = 1;
pub const ITEM_Float: u8 = 2;
pub const ITEM_Double: u8 = 3;
pub const ITEM_Long: u8 = 4;
pub const ITEM_Null: u8 = 5;
pub const ITEM_UninitializedThis: u8 = 6;
pub const ITEM_Object: u8 = 7;
pub const ITEM_Uninitialized: u8 = 8;

/// Verification types.
#[derive(Debug, Clone, Copy, PartialEq, Eq, Structural)]
pub enum VerificationTypeInfo {
    /// The local variable has the verification type top.
    Top,
    /// The location has the verification type int.
    Integer,
    /// The location has the verification type float.
    Float,
    /// The first of two locations has the verification type double (the
    /// next one has the verification type top).
    Double,
    /// The first of two locations has the verification type long (the next
    /// one has the verification type top).
    Long,
    /// The location has the verification type null.
    Null,
    /// The location has the verification type uninitializedThis.
    UninitializedThis,
    /// The location has the verification type which is the class
    /// represented by the CONSTANT_Class_info structure at `cpool_index`.
    Object {
        /// Class index in constant pool.
        cpool_index: u16,
    },
    /// The location has the verification type uninitialized(offset), the
    /// offset of the `new` instruction that created the object.
    Uninitialized { offset: u16 },
}

impl View for VerificationTypeInfo {
    type V = VerificationTypeInfo;

    open spec fn view(&self) -> VerificationTypeInfo {
        *self
    }
}

impl ClassFileItem for VerificationTypeInfo {
    open spec fn spec_read(bytes: Seq<u8>, cp: Option<ConstantPoolV>) -> Result<(VerificationTypeInfo, nat), ClassFileErrorV> {
        if bytes.len() < 1 {
            Err(ClassFileErrorV::IoError)
        } else {
            let tag = bytes[0];
            if tag == ITEM_Top {
                Ok((VerificationTypeInfo::Top, 1))
            } else if tag == ITEM_Integer {
                Ok((VerificationTypeInfo::Integer, 1))
            } else if tag == ITEM_Float {
                Ok((VerificationTypeInfo::Float, 1))
            } else if tag == ITEM_Long {
                Ok((VerificationTypeInfo::Long, 1))
            } else if tag == ITEM_Double {
                Ok((VerificationTypeInfo::Double, 1))
            } else if tag == ITEM_Null {
                Ok((VerificationTypeInfo::Null, 1))
            } else if tag == ITEM_UninitializedThis {
                Ok((VerificationTypeInfo::UninitializedThis, 1))
            } else if tag == ITEM_Object || tag == ITEM_Uninitialized {
                if bytes.len() < 3 {
                    Err(ClassFileErrorV::IoError)
                } else if tag == ITEM_Object {
                    Ok((VerificationTypeInfo::Object { cpool_index: be16(bytes, 1) }, 3))
                } else {
                    Ok((VerificationTypeInfo::Uninitialized { offset: be16(bytes, 1) }, 3))
                }
            } else {
                Err(ClassFileErrorV::UnknownVerificationTypeInfo)
            }
        }
    }

    fn read_from_stream(s: &mut ClassFileStream, cp: Option<&ConstantPool>) -> (r: Result<Self, ClassFileError>) {
        let ghost b = old(s).rest();
        let tag = s.read_u1()?;
        assert(s.rest() =~= b.skip(1));
        match tag {
            ITEM_Top => Ok(Self::Top),
            ITEM_Integer => Ok(Self::Integer),
            ITEM_Float => Ok(Self::Float),
            ITEM_Long => Ok(Self::Long),
            ITEM_Double => Ok(Self::Double),
            ITEM_Null => Ok(Self::Null),
            ITEM_UninitializedThis => Ok(Self::UninitializedThis),
            ITEM_Object => Ok(Self::Object { cpool_index: s.read_u2()? }),
            ITEM_Uninitialized => Ok(Self::Uninitialized { offset: s.read_u2()? }),
            _ => Err(ClassFileError::UnknownVerificationTypeInfo),
        }
    }
}

/// The tags of `same_frame`: 0 to 63.
pub const SAME: std::ops::Range<u8> = 0..64;
/// The tags of `same_locals_1_stack_item_frame`: 64 to 127.
pub const SAME_LOCALS_1_STACK_ITEM: std::ops::Range<u8> = 64..128;
pub const SAME_LOCALS_1_STACK_ITEM_EXTENDED: u8 = 247;
/// The tags of `chop_frame`: 248 to 250.
pub const CHOP: std::ops::Range<u8> = 248..251;
pub const SAME_FRAME_EXTENDED: u8 = 251;
/// The tags of `append_frame`: 252 to 254.
pub const APPEND: std::ops::Range<u8> = 252..255;
pub const FULL_FRAME: u8 = 255;

/// A stack map frame.
#[derive(Debug)]
pub enum StackMapFrame {
    /// The frame has exactly the same local variables as the previous frame
    /// and the operand stack is empty; the offset delta is the tag.
    SameFrame,
    /// The frame has exactly the same local variables as the previous frame
    /// and the operand stack has one entry; the offset delta is the tag
    /// minus 64.
    SameLocals1StackItemFrame { stack: VerificationTypeInfo },
    /// As above, with the offset delta given explicitly.
    SameLocals1StackItemFrameExtended { offset_delta: u16, stack: VerificationTypeInfo },
    /// The frame has the same local variables as the previous frame except
    /// that the last 251 - tag are absent, and the operand stack is empty.
    ChopFrame { offset_delta: u16 },
    /// The frame has exactly the same local variables as the previous frame
    /// and the operand stack is empty; the offset delta is given explicitly.
    SameFrameExtended { offset_delta: u16 },
    /// The frame has the same locals as the previous frame except that
    /// tag - 251 additional locals are defined, and the operand stack is empty.
    AppendFrame { offset_delta: u16, locals: Vec<VerificationTypeInfo> },
    /// A frame given in full.
    FullFrame { offset_delta: u16, locals: Vec<VerificationTypeInfo>, stack: Vec<VerificationTypeInfo> },
}

/// Mathematical form of [`StackMapFrame`].
pub enum StackMapFrameV {
    SameFrame,
    SameLocals1StackItemFrame { stack: VerificationTypeInfo },
    SameLocals1StackItemFrameExtended { offset_delta: u16, stack: VerificationTypeInfo },
    ChopFrame { offset_delta: u16 },
    SameFrameExtended { offset_delta: u16 },
    AppendFrame { offset_delta: u16, locals: Seq<VerificationTypeInfo> },
    FullFrame { offset_delta: u16, locals: Seq<VerificationTypeInfo>, stack: Seq<VerificationTypeInfo> },
}

impl View for StackMapFrame {
    type V = StackMapFrameV;

    open spec fn view(&self) -> StackMapFrameV {
        match self {
            StackMapFrame::SameFrame => StackMapFrameV::SameFrame,
            StackMapFrame::SameLocals1StackItemFrame { stack } => StackMapFrameV::SameLocals1StackItemFrame { stack: *stack },
            StackMapFrame::SameLocals1StackItemFrameExtended { offset_delta, stack } =>
                StackMapFrameV::SameLocals1StackItemFrameExtended { offset_delta: *offset_delta, stack: *stack },
            StackMapFrame::ChopFrame { offset_delta } => StackMapFrameV::ChopFrame { offset_delta: *offset_delta },
            StackMapFrame::SameFrameExtended { offset_delta } => StackMapFrameV::SameFrameExtended { offset_delta: *offset_delta },
            StackMapFrame::AppendFrame { offset_delta, locals } =>
                StackMapFrameV::AppendFrame { offset_delta: *offset_delta, locals: views(locals@) },
            StackMapFrame::FullFrame { offset_delta, locals, stack } =>
                StackMapFrameV::FullFrame { offset_delta: *offset_delta, locals: views(locals@), stack: views(stack@) },
        }
    }
}

/// What reading `n` verification types from the front of `b` gives.
pub open spec fn read_types(b: Seq<u8>, n: nat) -> Result<(Seq<VerificationTypeInfo>, nat), ClassFileErrorV> {
    read_seq::<VerificationTypeInfo>(b, None, n)
}

/// What reading a full frame (after its tag) from the front of `b` gives.
pub open spec fn spec_full_frame(b: Seq<u8>) -> Result<(StackMapFrameV, nat), ClassFileErrorV> {
    if b.len() < 4 {
        Err(ClassFileErrorV::IoError)
    } else {
        match read_types(b.skip(4), be16(b, 2) as nat) {
            Err(e) => Err(e),
            Ok((locals, n)) => {
                let c = b.skip(4 + n as int);
                if c.len() < 2 {
                    Err(ClassFileErrorV::IoError)
                } else {
                    match read_types(c.skip(2), be16(c, 0) as nat) {
                        Err(e) => Err(e),
                        Ok((stack, m)) => Ok((StackMapFrameV::FullFrame { offset_delta: be16(b, 0), locals, stack }, 4 + n + 2 + m)),
                    }
                }
            },
        }
    }
}

/// Reading verification types never fails for a stack map frame's tag.
pub proof fn lemma_types_errors(b: Seq<u8>, n: nat)
    ensures
        read_types(b, n) matches Err(e) ==> !(e is UnknownStackMapFrameTag),
    decreases n,
{
    if n > 0 {
        lemma_types_errors(b, (n - 1) as nat);
    }
}

/// Reading a stack map frame fails for its tag exactly when the tag is
/// none of the frame kinds' tags (128 to 246), and then names that tag; a
/// tag up to 63 is a `same_frame` of one byte.
pub proof fn law_stack_map_tags(bytes: Seq<u8>, cp: Option<ConstantPoolV>)
    requires
        bytes.len() >= 1,
    ensures
        StackMapFrame::spec_read(bytes, cp) == Err::<(StackMapFrameV, nat), ClassFileErrorV>(ClassFileErrorV::UnknownStackMapFrameTag(bytes[0]))
            <==> 128 <= bytes[0] <= 246,
        StackMapFrame::spec_read(bytes, cp) matches Err(ClassFileErrorV::UnknownStackMapFrameTag(t)) ==> t == bytes[0],
        bytes[0] <= 63 ==> StackMapFrame::spec_read(bytes, cp) == Ok::<(StackMapFrameV, nat), ClassFileErrorV>((StackMapFrameV::SameFrame, 1)),
{
    let b = bytes.skip(1);
    lemma_types_errors(b.skip(2), (bytes[0] - 251) as nat);
    if b.len() >= 4 {
        lemma_types_errors(b.skip(4), be16(b, 2) as nat);
        if let Ok((_, n)) = read_types(b.skip(4), be16(b, 2) as nat) {
            let c = b.skip(4 + n as int);
            if c.len() >= 2 {
                lemma_types_errors(c.skip(2), be16(c, 0) as nat);
            }
        }
    }
}

/// The verification types by their tags: 0 top, 1 int, 2 float, 3 double,
/// 4 long, 5 null, 6 uninitialized `this`, each one byte; 7 an object and
/// 8 an uninitialized value, each followed by a two-byte number (its class
/// or its offset), high byte first. Any other tag is refused.
pub proof fn law_verification_type_tags(bytes: Seq<u8>, cp: Option<ConstantPoolV>)
    requires
        bytes.len() >= 1,
    ensures
        bytes[0] == 0 ==> VerificationTypeInfo::spec_read(bytes, cp) == Ok::<(VerificationTypeInfo, nat), ClassFileErrorV>((VerificationTypeInfo::Top, 1nat)),
        bytes[0] == 1 ==> VerificationTypeInfo::spec_read(bytes, cp) == Ok::<(VerificationTypeInfo, nat), ClassFileErrorV>((VerificationTypeInfo::Integer, 1nat)),
        bytes[0] == 2 ==> VerificationTypeInfo::spec_read(bytes, cp) == Ok::<(VerificationTypeInfo, nat), ClassFileErrorV>((VerificationTypeInfo::Float, 1nat)),
        bytes[0] == 3 ==> VerificationTypeInfo::spec_read(bytes, cp) == Ok::<(VerificationTypeInfo, nat), ClassFileErrorV>((VerificationTypeInfo::Double, 1nat)),
        bytes[0] == 4 ==> VerificationTypeInfo::spec_read(bytes, cp) == Ok::<(VerificationTypeInfo, nat), ClassFileErrorV>((VerificationTypeInfo::Long, 1nat)),
        bytes[0] == 5 ==> VerificationTypeInfo::spec_read(bytes, cp) == Ok::<(VerificationTypeInfo, nat), ClassFileErrorV>((VerificationTypeInfo::Null, 1nat)),
        bytes[0] == 6 ==> VerificationTypeInfo::spec_read(bytes, cp) == Ok::<(VerificationTypeInfo, nat), ClassFileErrorV>((VerificationTypeInfo::UninitializedThis, 1nat)),
        bytes.len() >= 3 && bytes[0] == 7 ==> VerificationTypeInfo::spec_read(bytes, cp) == Ok::<(VerificationTypeInfo, nat), ClassFileErrorV>((
            VerificationTypeInfo::Object { cpool_index: (bytes[1] as int * 0x100 + bytes[2] as int) as u16 }, 3nat)),
        bytes.len() >= 3 && bytes[0] == 8 ==> VerificationTypeInfo::spec_read(bytes, cp) == Ok::<(VerificationTypeInfo, nat), ClassFileErrorV>((
            VerificationTypeInfo::Uninitialized { offset: (bytes[1] as int * 0x100 + bytes[2] as int) as u16 }, 3nat)),
        bytes[0] > 8 ==> VerificationTypeInfo::spec_read(bytes, cp) == Err::<(VerificationTypeInfo, nat), ClassFileErrorV>(ClassFileErrorV::UnknownVerificationTypeInfo),
{
}

/// The stack map frame kinds by their tags, after which comes a two-byte
/// offset delta, high byte first: 247 one stack item (after the delta),
/// 248 to 250 a chop frame, 251 a same frame, 252 to 254 an append frame
/// with `tag - 251` new locals; 64 to 127 a frame of one stack item with no
/// delta.
pub proof fn law_frame_kinds(bytes: Seq<u8>, cp: Option<ConstantPoolV>)
    requires
        bytes.len() >= 3,
    ensures
        ({
            let delta = (bytes[1] as int * 0x100 + bytes[2] as int) as u16;
            let r = StackMapFrame::spec_read(bytes, cp);
            &&& 248 <= bytes[0] <= 250 ==> r == Ok::<(StackMapFrameV, nat), ClassFileErrorV>((StackMapFrameV::ChopFrame { offset_delta: delta }, 3nat))
            &&& bytes[0] == 251 ==> r == Ok::<(StackMapFrameV, nat), ClassFileErrorV>((StackMapFrameV::SameFrameExtended { offset_delta: delta }, 3nat))
            &&& (252 <= bytes[0] <= 254 && r is Ok) ==> (r->Ok_0).0 is AppendFrame
                && (r->Ok_0).0->AppendFrame_offset_delta == delta && (r->Ok_0).0->AppendFrame_locals.len() == bytes[0] - 251
            &&& (bytes[0] == 247 && r is Ok) ==> (r->Ok_0).0 is SameLocals1StackItemFrameExtended
                && (r->Ok_0).0->SameLocals1StackItemFrameExtended_offset_delta == delta
                && VerificationTypeInfo::spec_read(bytes.skip(3), cp) is Ok
                && (r->Ok_0).0->SameLocals1StackItemFrameExtended_stack == (VerificationTypeInfo::spec_read(bytes.skip(3), cp)->Ok_0).0
            &&& (64 <= bytes[0] <= 127 && r is Ok) ==> (r->Ok_0).0 is SameLocals1StackItemFrame
                && VerificationTypeInfo::spec_read(bytes.skip(1), cp) is Ok
                && (r->Ok_0).0->SameLocals1StackItemFrame_stack == (VerificationTypeInfo::spec_read(bytes.skip(1), cp)->Ok_0).0
        }),
{
    let b = bytes.skip(1);
    assert(b[0] == bytes[1] && b[1] == bytes[2]);
    assert(b.skip(2) =~= bytes.skip(3));
    if 252 <= bytes[0] <= 254 {
        assert(crate::item::within_bytes::<VerificationTypeInfo>(None));
        crate::item::lemma_read_seq_len::<VerificationTypeInfo>(b.skip(2), None, (bytes[0] - 251) as nat);
    }
}

impl ClassFileItem for StackMapFrame {
    open spec fn spec_read(bytes: Seq<u8>, cp: Option<ConstantPoolV>) -> Result<(StackMapFrameV, nat), ClassFileErrorV> {
        if bytes.len() < 1 {
            Err(ClassFileErrorV::IoError)
        } else {
            let tag = bytes[0];
            let b = bytes.skip(1);
            if tag <= 63 {
                Ok((StackMapFrameV::SameFrame, 1))
            } else if 64 <= tag <= 127 {
                match VerificationTypeInfo::spec_read(b, cp) {
                    Ok((stack, n)) => Ok((StackMapFrameV::SameLocals1StackItemFrame { stack }, 1 + n)),
                    Err(e) => Err(e),
                }
            } else if tag == SAME_LOCALS_1_STACK_ITEM_EXTENDED {
                if b.len() < 2 {
                    Err(ClassFileErrorV::IoError)
                } else {
                    match VerificationTypeInfo::spec_read(b.skip(2), cp) {
                        Ok((stack, n)) => Ok((StackMapFrameV::SameLocals1StackItemFrameExtended { offset_delta: be16(b, 0), stack }, 3 + n)),
                        Err(e) => Err(e),
                    }
                }
            } else if 248 <= tag <= 250 {
                if b.len() < 2 {
                    Err(ClassFileErrorV::IoError)
                } else {
                    Ok((StackMapFrameV::ChopFrame { offset_delta: be16(b, 0) }, 3))
                }
            } else if tag == SAME_FRAME_EXTENDED {
                if b.len() < 2 {
                    Err(ClassFileErrorV::IoError)
                } else {
                    Ok((StackMapFrameV::SameFrameExtended { offset_delta: be16(b, 0) }, 3))
                }
            } else if 252 <= tag <= 254 {
                if b.len() < 2 {
                    Err(ClassFileErrorV::IoError)
                } else {
                    match read_types(b.skip(2), (tag - 251) as nat) {
                        Ok((locals, n)) => Ok((StackMapFrameV::AppendFrame { offset_delta: be16(b, 0), locals }, 3 + n)),
                        Err(e) => Err(e),
                    }
                }
            } else if tag == FULL_FRAME {
                match spec_full_frame(b) {
                    Ok((v, n)) => Ok((v, 1 + n)),
                    Err(e) => Err(e),
                }
            } else {
                Err(ClassFileErrorV::UnknownStackMapFrameTag(tag))
            }
        }
    }

    fn read_from_stream(s: &mut ClassFileStream, cp: Option<&ConstantPool>) -> (r: Result<Self, ClassFileError>) {
        let ghost bytes = old(s).rest();
        let tag = s.read_u1()?;
        let ghost b = bytes.skip(1);
        assert(s.rest() =~= b);
        if tag <= 63 {
            Ok(Self::SameFrame)
        } else if 64 <= tag && tag <= 127 {
            Ok(Self::SameLocals1StackItemFrame { stack: VerificationTypeInfo::read_from_stream(s, cp)? })
        } else if tag == SAME_LOCALS_1_STACK_ITEM_EXTENDED {
            let offset_delta = s.read_u2()?;
            assert(s.rest() =~= b.skip(2));
            let stack = VerificationTypeInfo::read_from_stream(s, cp)?;
            Ok(Self::SameLocals1StackItemFrameExtended { offset_delta, stack })
        } else if 248 <= tag && tag <= 250 {
            Ok(Self::ChopFrame { offset_delta: s.read_u2()? })
        } else if tag == SAME_FRAME_EXTENDED {
            Ok(Self::SameFrameExtended { offset_delta: s.read_u2()? })
        } else if 252 <= tag && tag <= 254 {
            let offset_delta = s.read_u2()?;
            assert(s.rest() =~= b.skip(2));
            let locals = s.read_sequence::<VerificationTypeInfo>(None, (tag as usize) - 251)?;
            Ok(Self::AppendFrame { offset_delta, locals })
        } else if tag == FULL_FRAME {
            let offset_delta = s.read_u2()?;
            assert(s.rest() =~= b.skip(2));
            let number_of_locals = s.read_u2()?;
            assert(s.rest() =~= b.skip(4));
            let locals = s.read_sequence::<VerificationTypeInfo>(None, number_of_locals as usize)?;
            let ghost n = (s.pos() - old(s).pos() - 5) as nat;
            assert(s.rest() =~= b.skip(4 + n as int));
            let ghost c = b.skip(4 + n as int);
            let number_of_stack_items = s.read_u2()?;
            assert(s.rest() =~= c.skip(2));
            let stack = s.read_sequence::<VerificationTypeInfo>(None, number_of_stack_items as usize)?;
            Ok(Self::FullFrame { offset_delta, locals, stack })
        } else {
            Err(ClassFileError::UnknownStackMapFrameTag(tag))
        }
    }
}

} // verus!
