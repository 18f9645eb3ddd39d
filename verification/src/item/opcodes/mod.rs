//! Instructions: how they are read from the code of a method, and the
//! checks that can be made of them without running them.
use vstd::prelude::*;
use crate::error::{ClassFileError, ClassFileErrorV};
use crate::stream::{ClassFileStream, be16, be32, fixed};
use crate::item::{ClassFileItem, ConstantPool, ConstantPoolV};
use crate::fnvmap::fnv_insert;

pub mod vm;
pub mod checks;
pub mod verify;

pub use self::vm::{VMOpcode, VMOpcodeV, operand_len, spec_build, be16_signed};

verus! {

/// Types used in the `newarray` instruction.
#[allow(non_camel_case_types)]
#[derive(Clone, Copy, Debug, PartialEq, Eq, Structural)]
pub enum ArrayTypeCode {
    T_BOOLEAN,
    T_CHAR,
    T_FLOAT,
    T_DOUBLE,
    T_BYTE,
    T_SHORT,
    T_INT,
    T_LONG,
}

impl View for ArrayTypeCode {
    type V = ArrayTypeCode;

    open spec fn view(&self) -> ArrayTypeCode {
        *self
    }
}

/// Whether `b` is the code of an array type (4 to 11).
pub open spec fn is_array_type_code(b: u8) -> bool {
    4 <= b <= 11
}

/// The array type whose code is `b` (see [`is_array_type_code`]).
pub open spec fn array_type_code_of(b: u8) -> ArrayTypeCode {
    if b == 4 {
        ArrayTypeCode::T_BOOLEAN
    } else if b == 5 {
        ArrayTypeCode::T_CHAR
    } else if b == 6 {
        ArrayTypeCode::T_FLOAT
    } else if b == 7 {
        ArrayTypeCode::T_DOUBLE
    } else if b == 8 {
        ArrayTypeCode::T_BYTE
    } else if b == 9 {
        ArrayTypeCode::T_SHORT
    } else if b == 10 {
        ArrayTypeCode::T_INT
    } else {
        ArrayTypeCode::T_LONG
    }
}

/// The array type whose code is `b`.
pub fn array_type_code_from(b: u8) -> (r: ArrayTypeCode)
    requires
        is_array_type_code(b),
    ensures
        r == array_type_code_of(b),
{
    if b == 4 {
        ArrayTypeCode::T_BOOLEAN
    } else if b == 5 {
        ArrayTypeCode::T_CHAR
    } else if b == 6 {
        ArrayTypeCode::T_FLOAT
    } else if b == 7 {
        ArrayTypeCode::T_DOUBLE
    } else if b == 8 {
        ArrayTypeCode::T_BYTE
    } else if b == 9 {
        ArrayTypeCode::T_SHORT
    } else if b == 10 {
        ArrayTypeCode::T_INT
    } else {
        ArrayTypeCode::T_LONG
    }
}

/// The name that an unknown array type code is reported under.
pub open spec fn array_type_code_name() -> Seq<char> {
    "ArrayTypeCode"@
}

impl ClassFileItem for ArrayTypeCode {
    open spec fn spec_read(bytes: Seq<u8>, cp: Option<ConstantPoolV>) -> Result<(ArrayTypeCode, nat), ClassFileErrorV> {
        if bytes.len() < 1 {
            Err(ClassFileErrorV::IoError)
        } else if is_array_type_code(bytes[0]) {
            Ok((array_type_code_of(bytes[0]), 1))
        } else {
            Err(ClassFileErrorV::UnknownEnumVariant(array_type_code_name(), bytes[0] as i32))
        }
    }

    fn read_from_stream(s: &mut ClassFileStream, cp: Option<&ConstantPool>) -> (r: Result<Self, ClassFileError>) {
        let v = s.read_u1()?;
        if 4 <= v && v <= 11 {
            Ok(array_type_code_from(v))
        } else {
            Err(ClassFileError::UnknownEnumVariant("ArrayTypeCode", v as i32))
        }
    }
}

/// How many padding bytes follow the opcode of a switch instruction whose
/// code starts `off` bytes into the method's code.
pub open spec fn switch_pad(off: nat) -> nat {
    (4 - (off % 4)) as nat
}

/// What reading a `lookupswitch` (whose opcode byte is `b[0]`) gives.
pub open spec fn spec_lookupswitch(b: Seq<u8>, off: nat) -> Result<(VMOpcodeV, nat), ClassFileErrorV> {
    let p: int = 1 + switch_pad(off) as int;
    if b.len() < p + 8 {
        Err(ClassFileErrorV::IoError)
    } else {
        let npairs = be32(b, p + 4) as nat;
        if b.len() < p + 8 + 8 * npairs {
            Err(ClassFileErrorV::IoError)
        } else {
            Ok((VMOpcodeV::lookupswitch(be32(b, p) as i32, Seq::new(npairs, |i: int|
                (be32(b, p + 8 + 8 * i) as i32, be32(b, p + 12 + 8 * i) as i32))), (p + 8 + 8 * npairs) as nat))
        }
    }
}

/// How many jump offsets a `tableswitch` with bounds `low` and `high`
/// holds: `high - (low + 1)`, or none where that is negative; `None`
/// where that difference leaves the range of `i32`.
pub open spec fn table_len(low: i32, high: i32) -> Option<nat> {
    let d = high - (low + 1);
    if d < i32::MIN || d > i32::MAX {
        None
    } else if d > 0 {
        Some(d as nat)
    } else {
        Some(0)
    }
}

/// What reading a `tableswitch` (whose opcode byte is `b[0]`) gives. A
/// `low` bound of `i32::MAX` stops the program (`low + 1` overflows).
pub open spec fn spec_tableswitch(b: Seq<u8>, off: nat) -> Result<(VMOpcodeV, nat), ClassFileErrorV> {
    let p: int = 1 + switch_pad(off) as int;
    if b.len() < p + 12 {
        Err(ClassFileErrorV::IoError)
    } else {
        let low = be32(b, p + 4) as i32;
        let high = be32(b, p + 8) as i32;
        if low == i32::MAX {
            Err(ClassFileErrorV::Aborts)
        } else {
            match table_len(low, high) {
                None => Err(ClassFileErrorV::ArithmeticError),
                Some(n) => if b.len() < p + 12 + 4 * n {
                    Err(ClassFileErrorV::IoError)
                } else {
                    Ok((VMOpcodeV::tableswitch(be32(b, p) as i32, low, high, Seq::new(n, |i: int| be32(b, p + 12 + 4 * i) as i32)), (p + 12 + 4 * n) as nat))
                },
            }
        }
    }
}

/// What reading one instruction from the front of `b` gives, the code of
/// the method being `off` bytes in: the instruction and how many bytes it
/// took, or the error.
pub open spec fn spec_opcode(b: Seq<u8>, off: nat) -> Result<(VMOpcodeV, nat), ClassFileErrorV>
    decreases b.len(),
{
    if b.len() < 1 {
        Err(ClassFileErrorV::IoError)
    } else {
        let op = b[0];
        if op == 0xab {
            spec_lookupswitch(b, off)
        } else if op == 0xaa {
            spec_tableswitch(b, off)
        } else if op == 0xc4 {
            match spec_opcode(b.skip(1), off) {
                Ok((inner, n)) => {
                    let q: int = 1 + n as int;
                    if inner is iinc {
                        if b.len() < q + 4 {
                            Err(ClassFileErrorV::IoError)
                        } else {
                            Ok((VMOpcodeV::wide_format2(Box::new(inner), be16(b, q), be16(b, q + 2)), (q + 4) as nat))
                        }
                    } else {
                        if b.len() < q + 2 {
                            Err(ClassFileErrorV::IoError)
                        } else {
                            Ok((VMOpcodeV::wide_format1(Box::new(inner), be16(b, q)), (q + 2) as nat))
                        }
                    }
                },
                Err(e) => Err(e),
            }
        } else {
            spec_fixed(b)
        }
    }
}

/// What reading an instruction of fixed length (or an unknown opcode)
/// from the front of `b` gives: the opcode byte `b[0]` and its operands.
#[verifier::opaque]
pub open spec fn spec_fixed(b: Seq<u8>) -> Result<(VMOpcodeV, nat), ClassFileErrorV> {
    let op = b[0];
    match operand_len(op) {
        Some(n) => if b.len() < 1 + n {
            Err(ClassFileErrorV::IoError)
        } else if op == 0xbc && !is_array_type_code(b[1]) {
            Err(ClassFileErrorV::UnknownEnumVariant(array_type_code_name(), b[1] as i32))
        } else {
            Ok((spec_build(op, b.subrange(1, 1 + n as int)), 1 + n))
        },
        None => Err(ClassFileErrorV::UnknownOpcodeError(op)),
    }
}

/// An instruction that is read takes at least one byte, and no more than
/// there are.
pub proof fn lemma_opcode_len(b: Seq<u8>, off: nat)
    ensures
        spec_opcode(b, off) matches Ok((_, n)) ==> 1 <= n <= b.len(),
    decreases b.len(),
{
    reveal(spec_fixed);
    if b.len() >= 1 && b[0] == 0xc4 {
        lemma_opcode_len(b.skip(1), off);
    }
}

/// The opcode bytes of the constant, stack and integer instructions (JVMS
/// chapter 6): `aconst_null` 0x01, `iconst_m1` to `iconst_5` 0x02 to 0x08,
/// `dconst_0` 0x0e, `dconst_1` 0x0f, `pop` 0x57, `dup` 0x59, `iadd` 0x60,
/// `imul` 0x68, `idiv` 0x6c, `ireturn` 0xac, `return` 0xb1, each one byte
/// long; `ldc` 0x12, followed by its one-byte pool index.
pub proof fn law_opcode_bytes_simple(b: Seq<u8>, off: nat)
    requires
        b.len() >= 2,
    ensures
        b[0] == 0x01 ==> spec_opcode(b, off) == Ok::<(VMOpcodeV, nat), ClassFileErrorV>((VMOpcodeV::aconst_null(), 1nat)),
        b[0] == 0x02 ==> spec_opcode(b, off) == Ok::<(VMOpcodeV, nat), ClassFileErrorV>((VMOpcodeV::iconst_m1(), 1nat)),
        b[0] == 0x03 ==> spec_opcode(b, off) == Ok::<(VMOpcodeV, nat), ClassFileErrorV>((VMOpcodeV::iconst_0(), 1nat)),
        b[0] == 0x04 ==> spec_opcode(b, off) == Ok::<(VMOpcodeV, nat), ClassFileErrorV>((VMOpcodeV::iconst_1(), 1nat)),
        b[0] == 0x05 ==> spec_opcode(b, off) == Ok::<(VMOpcodeV, nat), ClassFileErrorV>((VMOpcodeV::iconst_2(), 1nat)),
        b[0] == 0x06 ==> spec_opcode(b, off) == Ok::<(VMOpcodeV, nat), ClassFileErrorV>((VMOpcodeV::iconst_3(), 1nat)),
        b[0] == 0x07 ==> spec_opcode(b, off) == Ok::<(VMOpcodeV, nat), ClassFileErrorV>((VMOpcodeV::iconst_4(), 1nat)),
        b[0] == 0x08 ==> spec_opcode(b, off) == Ok::<(VMOpcodeV, nat), ClassFileErrorV>((VMOpcodeV::iconst_5(), 1nat)),
        b[0] == 0x0e ==> spec_opcode(b, off) == Ok::<(VMOpcodeV, nat), ClassFileErrorV>((VMOpcodeV::dconst_0(), 1nat)),
        b[0] == 0x0f ==> spec_opcode(b, off) == Ok::<(VMOpcodeV, nat), ClassFileErrorV>((VMOpcodeV::dconst_1(), 1nat)),
        b[0] == 0x57 ==> spec_opcode(b, off) == Ok::<(VMOpcodeV, nat), ClassFileErrorV>((VMOpcodeV::pop(), 1nat)),
        b[0] == 0x59 ==> spec_opcode(b, off) == Ok::<(VMOpcodeV, nat), ClassFileErrorV>((VMOpcodeV::dup(), 1nat)),
        b[0] == 0x60 ==> spec_opcode(b, off) == Ok::<(VMOpcodeV, nat), ClassFileErrorV>((VMOpcodeV::iadd(), 1nat)),
        b[0] == 0x68 ==> spec_opcode(b, off) == Ok::<(VMOpcodeV, nat), ClassFileErrorV>((VMOpcodeV::imul(), 1nat)),
        b[0] == 0x6c ==> spec_opcode(b, off) == Ok::<(VMOpcodeV, nat), ClassFileErrorV>((VMOpcodeV::idiv(), 1nat)),
        b[0] == 0xac ==> spec_opcode(b, off) == Ok::<(VMOpcodeV, nat), ClassFileErrorV>((VMOpcodeV::ireturn(), 1nat)),
        b[0] == 0xb1 ==> spec_opcode(b, off) == Ok::<(VMOpcodeV, nat), ClassFileErrorV>((VMOpcodeV::return_(), 1nat)),
        b[0] == 0x12 ==> spec_opcode(b, off) == Ok::<(VMOpcodeV, nat), ClassFileErrorV>((VMOpcodeV::ldc(b[1]), 2nat)),
{
    reveal(spec_fixed);
}

/// The opcode bytes of the 16-bit branches (JVMS chapter 6): `ifeq` 0x99,
/// `ifne` 0x9a, `iflt` 0x9b, `ifge` 0x9c, `ifgt` 0x9d, `ifle` 0x9e,
/// `if_icmpeq` to `if_icmple` 0x9f to 0xa4 (eq, ne, lt, ge, gt, le),
/// `if_acmpeq` 0xa5, `if_acmpne` 0xa6, `goto` 0xa7, `ifnull` 0xc6,
/// `ifnonnull` 0xc7, each followed by its signed two-byte offset, high byte
/// first; and `goto_w` 0xc8, followed by its four-byte offset.
pub proof fn law_opcode_bytes_branches(b: Seq<u8>, off: nat)
    requires
        b.len() >= 5,
    ensures
        b[0] == 0x99 ==> spec_opcode(b, off) == Ok::<(VMOpcodeV, nat), ClassFileErrorV>((VMOpcodeV::ifeq(be16_signed(b, 1)), 3nat)),
        b[0] == 0x9a ==> spec_opcode(b, off) == Ok::<(VMOpcodeV, nat), ClassFileErrorV>((VMOpcodeV::ifne(be16_signed(b, 1)), 3nat)),
        b[0] == 0x9b ==> spec_opcode(b, off) == Ok::<(VMOpcodeV, nat), ClassFileErrorV>((VMOpcodeV::iflt(be16_signed(b, 1)), 3nat)),
        b[0] == 0x9c ==> spec_opcode(b, off) == Ok::<(VMOpcodeV, nat), ClassFileErrorV>((VMOpcodeV::ifge(be16_signed(b, 1)), 3nat)),
        b[0] == 0x9d ==> spec_opcode(b, off) == Ok::<(VMOpcodeV, nat), ClassFileErrorV>((VMOpcodeV::ifgt(be16_signed(b, 1)), 3nat)),
        b[0] == 0x9e ==> spec_opcode(b, off) == Ok::<(VMOpcodeV, nat), ClassFileErrorV>((VMOpcodeV::ifle(be16_signed(b, 1)), 3nat)),
        b[0] == 0x9f ==> spec_opcode(b, off) == Ok::<(VMOpcodeV, nat), ClassFileErrorV>((VMOpcodeV::if_icmpeq(be16_signed(b, 1)), 3nat)),
        b[0] == 0xa0 ==> spec_opcode(b, off) == Ok::<(VMOpcodeV, nat), ClassFileErrorV>((VMOpcodeV::if_icmpne(be16_signed(b, 1)), 3nat)),
        b[0] == 0xa1 ==> spec_opcode(b, off) == Ok::<(VMOpcodeV, nat), ClassFileErrorV>((VMOpcodeV::if_icmplt(be16_signed(b, 1)), 3nat)),
        b[0] == 0xa2 ==> spec_opcode(b, off) == Ok::<(VMOpcodeV, nat), ClassFileErrorV>((VMOpcodeV::if_icmpge(be16_signed(b, 1)), 3nat)),
        b[0] == 0xa3 ==> spec_opcode(b, off) == Ok::<(VMOpcodeV, nat), ClassFileErrorV>((VMOpcodeV::if_icmpgt(be16_signed(b, 1)), 3nat)),
        b[0] == 0xa4 ==> spec_opcode(b, off) == Ok::<(VMOpcodeV, nat), ClassFileErrorV>((VMOpcodeV::if_icmple(be16_signed(b, 1)), 3nat)),
        b[0] == 0xa5 ==> spec_opcode(b, off) == Ok::<(VMOpcodeV, nat), ClassFileErrorV>((VMOpcodeV::if_acmpeq(be16_signed(b, 1)), 3nat)),
        b[0] == 0xa6 ==> spec_opcode(b, off) == Ok::<(VMOpcodeV, nat), ClassFileErrorV>((VMOpcodeV::if_acmpne(be16_signed(b, 1)), 3nat)),
        b[0] == 0xa7 ==> spec_opcode(b, off) == Ok::<(VMOpcodeV, nat), ClassFileErrorV>((VMOpcodeV::goto(be16_signed(b, 1)), 3nat)),
        b[0] == 0xc6 ==> spec_opcode(b, off) == Ok::<(VMOpcodeV, nat), ClassFileErrorV>((VMOpcodeV::ifnull(be16_signed(b, 1)), 3nat)),
        b[0] == 0xc7 ==> spec_opcode(b, off) == Ok::<(VMOpcodeV, nat), ClassFileErrorV>((VMOpcodeV::ifnonnull(be16_signed(b, 1)), 3nat)),
        b[0] == 0xc8 ==> spec_opcode(b, off) == Ok::<(VMOpcodeV, nat), ClassFileErrorV>((VMOpcodeV::goto_w(be32(b, 1)), 5nat)),
{
    reveal(spec_fixed);
    let ops = b.subrange(1, 3);
    assert(ops[0] == b[1] && ops[1] == b[2]);
    let ops4 = b.subrange(1, 5);
    assert(ops4[0] == b[1] && ops4[1] == b[2] && ops4[2] == b[3] && ops4[3] == b[4]);
}

/// The opcode bytes of the field and method instructions (JVMS chapter 6):
/// `getstatic` 0xb2, `putstatic` 0xb3, `getfield` 0xb4, `putfield` 0xb5,
/// `invokevirtual` 0xb6, `invokespecial` 0xb7, `invokestatic` 0xb8 and
/// `new` 0xbb, each followed by its two-byte pool index, high byte first.
pub proof fn law_opcode_bytes_members(b: Seq<u8>, off: nat)
    requires
        b.len() >= 3,
    ensures
        b[0] == 0xb2 ==> spec_opcode(b, off) == Ok::<(VMOpcodeV, nat), ClassFileErrorV>((VMOpcodeV::getstatic(be16(b, 1)), 3nat)),
        b[0] == 0xb3 ==> spec_opcode(b, off) == Ok::<(VMOpcodeV, nat), ClassFileErrorV>((VMOpcodeV::putstatic(be16(b, 1)), 3nat)),
        b[0] == 0xb4 ==> spec_opcode(b, off) == Ok::<(VMOpcodeV, nat), ClassFileErrorV>((VMOpcodeV::getfield(be16(b, 1)), 3nat)),
        b[0] == 0xb5 ==> spec_opcode(b, off) == Ok::<(VMOpcodeV, nat), ClassFileErrorV>((VMOpcodeV::putfield(be16(b, 1)), 3nat)),
        b[0] == 0xb6 ==> spec_opcode(b, off) == Ok::<(VMOpcodeV, nat), ClassFileErrorV>((VMOpcodeV::invokevirtual(be16(b, 1)), 3nat)),
        b[0] == 0xb7 ==> spec_opcode(b, off) == Ok::<(VMOpcodeV, nat), ClassFileErrorV>((VMOpcodeV::invokespecial(be16(b, 1)), 3nat)),
        b[0] == 0xb8 ==> spec_opcode(b, off) == Ok::<(VMOpcodeV, nat), ClassFileErrorV>((VMOpcodeV::invokestatic(be16(b, 1)), 3nat)),
        b[0] == 0xbb ==> spec_opcode(b, off) == Ok::<(VMOpcodeV, nat), ClassFileErrorV>((VMOpcodeV::new(be16(b, 1)), 3nat)),
{
    reveal(spec_fixed);
    let ops = b.subrange(1, 3);
    assert(ops[0] == b[1] && ops[1] == b[2]);
}

/// Read the rest of a `lookupswitch` whose opcode byte was read: `b` is
/// what was left to read before it.
fn read_lookupswitch(s: &mut ClassFileStream, off: usize, Ghost(b): Ghost<Seq<u8>>) -> (r: Result<VMOpcode, ClassFileError>)
    requires
        old(s).wf(),
        b.len() >= 1,
        b.skip(1) == old(s).rest(),
    ensures
        final(s).wf(),
        final(s).data() == old(s).data(),
        match spec_lookupswitch(b, off as nat) {
            Ok((v, n)) => r matches Ok(x) && x@ == v && final(s).pos() == old(s).pos() + n - 1,
            Err(e) => r matches Err(x) && x@ == e,
        },
{
    let ghost p: int = 1 + switch_pad(off as nat) as int;
    let ghost start = old(s).pos();
    let pad_count = 4 - (off % 4);
    assert(pad_count as int == switch_pad(off as nat));
    s.read_dynamic(pad_count)?;
    assert(s.rest() =~= old(s).rest().skip(pad_count as int));
    assert(s.rest() =~= b.skip(p));
    let ghost r1 = s.rest();
    let default = s.read_u4()?;
    assert(default == be32(b, p));
    assert(s.rest() =~= r1.skip(4));
    assert(s.rest() =~= b.skip(p + 4));
    let ghost r2 = s.rest();
    let npairs = s.read_u4()?;
    assert(npairs == be32(b, p + 4));
    assert(s.rest() =~= r2.skip(4));
    assert(s.rest() =~= b.skip(p + 8));
    let mut pairs: Vec<(i32, i32)> = Vec::new();
    let mut i: u32 = 0;
    while i < npairs
        invariant
            s.wf(),
            s.data() == old(s).data(),
            b.skip(1) == old(s).rest(),
            p == 1 + switch_pad(off as nat) as int,
            start == old(s).pos(),
            b.len() >= p + 8,
            npairs == be32(b, p + 4),
            i <= npairs,
            s.pos() == start + p - 1 + 8 + 8 * i,
            p + 8 + 8 * i <= b.len(),
            s.rest() == b.skip(p + 8 + 8 * i),
            pairs@ == Seq::new(i as nat, |j: int| (be32(b, p + 8 + 8 * j) as i32, be32(b, p + 12 + 8 * j) as i32)),
        decreases npairs - i,
    {
        let ghost r1 = s.rest();
        let m = s.read_u4()?;
        assert(r1[0] == b[p + 8 + 8 * i]);
        assert(m == be32(b, p + 8 + 8 * i));
        assert(s.rest() =~= r1.skip(4));
        assert(s.rest() =~= b.skip(p + 12 + 8 * i));
        let ghost r2 = s.rest();
        let o = s.read_u4()?;
        assert(o == be32(b, p + 12 + 8 * i));
        assert(s.rest() =~= r2.skip(4));
        pairs.push((m as i32, o as i32));
        i = i + 1;
        assert(s.rest() =~= b.skip(p + 8 + 8 * i));
        assert(pairs@ =~= Seq::new(i as nat, |j: int| (be32(b, p + 8 + 8 * j) as i32, be32(b, p + 12 + 8 * j) as i32)));
    }
    Ok(VMOpcode::lookupswitch(default as i32, pairs))
}

/// Read the rest of a `tableswitch` whose opcode byte was read: `b` is
/// what was left to read before it.
fn read_tableswitch(s: &mut ClassFileStream, off: usize, Ghost(b): Ghost<Seq<u8>>) -> (r: Result<VMOpcode, ClassFileError>)
    requires
        old(s).wf(),
        b.len() >= 1,
        b.skip(1) == old(s).rest(),
        spec_tableswitch(b, off as nat) != Err::<(VMOpcodeV, nat), ClassFileErrorV>(ClassFileErrorV::Aborts),
    ensures
        final(s).wf(),
        final(s).data() == old(s).data(),
        match spec_tableswitch(b, off as nat) {
            Ok((v, n)) => r matches Ok(x) && x@ == v && final(s).pos() == old(s).pos() + n - 1,
            Err(e) => r matches Err(x) && x@ == e,
        },
{
    let ghost p: int = 1 + switch_pad(off as nat) as int;
    let ghost start = old(s).pos();
    let pad_count = 4 - (off % 4);
    assert(pad_count as int == switch_pad(off as nat));
    s.read_dynamic(pad_count)?;
    assert(s.rest() =~= old(s).rest().skip(pad_count as int));
    assert(s.rest() =~= b.skip(p));
    let ghost r1 = s.rest();
    let default = s.read_u4()?;
    assert(default == be32(b, p));
    assert(s.rest() =~= r1.skip(4));
    assert(s.rest() =~= b.skip(p + 4));
    let ghost r2 = s.rest();
    let low = s.read_u4()? as i32;
    assert(low == be32(b, p + 4) as i32);
    assert(s.rest() =~= r2.skip(4));
    assert(s.rest() =~= b.skip(p + 8));
    let ghost r3 = s.rest();
    let high = s.read_u4()? as i32;
    assert(high == be32(b, p + 8) as i32);
    assert(s.rest() =~= r3.skip(4));
    assert(s.rest() =~= b.skip(p + 12));
    let count = match high.checked_sub(low + 1) {
        Some(c) => c,
        None => {
            return Err(ClassFileError::ArithmeticError);
        },
    };
    let ghost n: nat = table_len(low, high).unwrap();
    let mut offsets: Vec<i32> = Vec::new();
    let mut i: i32 = 0;
    while i < count
        invariant
            s.wf(),
            s.data() == old(s).data(),
            p == 1 + switch_pad(off as nat) as int,
            start == old(s).pos(),
            b.len() >= p + 12,
            low == be32(b, p + 4) as i32,
            high == be32(b, p + 8) as i32,
            table_len(low, high) == Some(n),
            count == high - (low + 1),
            0 <= i,
            count > 0 ==> i <= count,
            count > 0 ==> n == count,
            count <= 0 ==> i == 0 && n == 0,
            p + 12 + 4 * i <= b.len(),
            s.pos() == start + p - 1 + 12 + 4 * i,
            s.rest() == b.skip(p + 12 + 4 * i),
            offsets@ == Seq::new(i as nat, |j: int| be32(b, p + 12 + 4 * j) as i32),
        decreases count - i,
    {
        let ghost r4 = s.rest();
        let o = s.read_u4()?;
        assert(o == be32(b, p + 12 + 4 * i));
        assert(s.rest() =~= r4.skip(4));
        offsets.push(o as i32);
        i = i + 1;
        assert(s.rest() =~= b.skip(p + 12 + 4 * i));
        assert(offsets@ =~= Seq::new(i as nat, |j: int| be32(b, p + 12 + 4 * j) as i32));
    }
    Ok(VMOpcode::tableswitch(default as i32, low, high, offsets))
}

/// Read the operands of an instruction of fixed length whose opcode byte
/// `op` was read: `b` is what was left to read before it.
fn read_fixed(s: &mut ClassFileStream, op: u8, Ghost(b): Ghost<Seq<u8>>) -> (r: Result<VMOpcode, ClassFileError>)
    requires
        old(s).wf(),
        b.len() >= 1,
        b[0] == op,
        op != 0xab && op != 0xaa && op != 0xc4,
        b.skip(1) == old(s).rest(),
    ensures
        final(s).wf(),
        final(s).data() == old(s).data(),
        match spec_fixed(b) {
            Ok((v, n)) => r matches Ok(x) && x@ == v && final(s).pos() == old(s).pos() + n - 1,
            Err(e) => r matches Err(x) && x@ == e,
        },
{
    reveal(spec_fixed);
    match vm::operand_len_of(op) {
        Some(n) => {
            let ops = s.read_dynamic(n)?;
            if op == 0xbc && !(4 <= ops[0] && ops[0] <= 11) {
                return Err(ClassFileError::UnknownEnumVariant("ArrayTypeCode", ops[0] as i32));
            }
            assert(ops@ =~= b.subrange(1, 1 + n as int));
            Ok(vm::build(op, &ops))
        },
        None => Err(ClassFileError::UnknownOpcodeError(op)),
    }
}

/// Read the rest of a `wide` instruction whose opcode byte was read: `b`
/// is what was left to read before it.
fn read_wide(s: &mut ClassFileStream, off: usize, Ghost(b): Ghost<Seq<u8>>) -> (r: Result<VMOpcode, ClassFileError>)
    requires
        old(s).wf(),
        b.len() >= 1,
        b[0] == 0xc4,
        b.skip(1) == old(s).rest(),
        spec_opcode(b, off as nat) != Err::<(VMOpcodeV, nat), ClassFileErrorV>(ClassFileErrorV::Aborts),
    ensures
        final(s).wf(),
        final(s).data() == old(s).data(),
        match spec_opcode(b, off as nat) {
            Ok((v, n)) => r matches Ok(x) && x@ == v && final(s).pos() == old(s).pos() + n - 1,
            Err(e) => r matches Err(x) && x@ == e,
        },
    decreases old(s).rest().len() + 1, 0nat,
{
    let (inner, _) = read_opcode(s, off)?;
    let ghost q: int = match spec_opcode(b.skip(1), off as nat) {
        Ok((_, n)) => 1 + n as int,
        Err(_) => 0int,
    };
    assert(s.rest() =~= old(s).rest().skip(q - 1));
    assert(s.rest() =~= b.skip(q));
    if vm::is_iinc(&inner) {
        let ghost r1 = s.rest();
        let index = s.read_u2()?;
        assert(s.rest() =~= r1.skip(2));
        let constant = s.read_u2()?;
        Ok(VMOpcode::wide_format2(Box::new(inner), index, constant))
    } else {
        let index = s.read_u2()?;
        Ok(VMOpcode::wide_format1(Box::new(inner), index))
    }
}

/// Read one instruction, the code of the method being `off` bytes in;
/// return it and how many bytes it took.
pub fn read_opcode(s: &mut ClassFileStream, off: usize) -> (r: Result<(VMOpcode, usize), ClassFileError>)
    requires
        old(s).wf(),
        spec_opcode(old(s).rest(), off as nat) != Err::<(VMOpcodeV, nat), ClassFileErrorV>(ClassFileErrorV::Aborts),
    ensures
        final(s).wf(),
        final(s).data() == old(s).data(),
        match spec_opcode(old(s).rest(), off as nat) {
            Ok((v, n)) => r matches Ok((x, m)) && x@ == v && m == n && final(s).pos() == old(s).pos() + n,
            Err(e) => r matches Err(x) && x@ == e,
        },
    decreases old(s).rest().len(), 1nat,
{
    let ghost b = old(s).rest();
    let start = s.position();
    let op = s.read_u1()?;
    assert(s.rest() =~= b.skip(1));
    let v = if op == 0xab {
        read_lookupswitch(s, off, Ghost(b))?
    } else if op == 0xaa {
        read_tableswitch(s, off, Ghost(b))?
    } else if op == 0xc4 {
        read_wide(s, off, Ghost(b))?
    } else {
        read_fixed(s, op, Ghost(b))?
    };
    let end = s.position();
    match end.checked_sub(start) {
        Some(d) => Ok((v, d)),
        None => Err(ClassFileError::ArithmeticError),
    }
}

/// What reading instructions one after another from the front of `b`
/// gives, the first being `off` bytes into the code: each instruction with
/// its length, up to the first that cannot be read; `None` where reading
/// one would stop the program.
pub open spec fn spec_code(b: Seq<u8>, off: nat) -> Option<Seq<(VMOpcodeV, nat)>>
    decreases b.len(),
{
    match spec_opcode(b, off) {
        Ok((op, n)) => if 1 <= n <= b.len() {
            match spec_code(b.skip(n as int), off + n) {
                Some(rest) => Some(seq![(op, n)] + rest),
                None => None,
            }
        } else {
            Some(seq![])
        },
        Err(ClassFileErrorV::Aborts) => None,
        Err(_) => Some(seq![]),
    }
}

/// How many bytes the instructions `items` take together.
pub open spec fn code_len(items: Seq<(VMOpcodeV, nat)>) -> nat
    decreases items.len(),
{
    if items.len() == 0 {
        0
    } else {
        code_len(items.drop_last()) + items.last().1
    }
}

/// A list of instructions.
#[derive(Debug)]
pub struct InstructionList {
    /// The instructions, in order.
    pub opcodes: Vec<VMOpcode>,
    /// For each byte of the code, the position of the instruction it belongs to.
    pub byte_to_code: fnv::FnvHashMap<usize, usize>,
    /// For each instruction, the position of its first byte in the code.
    pub code_to_byte: fnv::FnvHashMap<usize, usize>,
}

/// Mathematical form of [`InstructionList`].
pub struct InstructionListV {
    pub opcodes: Seq<VMOpcodeV>,
    pub byte_to_code: Map<usize, usize>,
    pub code_to_byte: Map<usize, usize>,
}

impl View for InstructionList {
    type V = InstructionListV;

    open spec fn view(&self) -> InstructionListV {
        InstructionListV {
            opcodes: crate::item::views(self.opcodes@),
            byte_to_code: self.byte_to_code@,
            code_to_byte: self.code_to_byte@,
        }
    }
}

/// The instruction list made of `items` (each instruction with its length):
/// each instruction's first byte is where the one before it ends, and each
/// of its bytes belongs to it.
pub open spec fn list_of(items: Seq<(VMOpcodeV, nat)>) -> InstructionListV
    decreases items.len(),
{
    if items.len() == 0 {
        InstructionListV { opcodes: seq![], byte_to_code: Map::empty(), code_to_byte: Map::empty() }
    } else {
        let prev = list_of(items.drop_last());
        let k = (items.len() - 1) as usize;
        let off = code_len(items.drop_last());
        let n = items.last().1;
        InstructionListV {
            opcodes: prev.opcodes.push(items.last().0),
            byte_to_code: prev.byte_to_code.union_prefer_right(
                Map::new(|i: usize| off <= i < off + n, |i: usize| k),
            ),
            code_to_byte: prev.code_to_byte.insert(k, off as usize),
        }
    }
}

/// Reading one more instruction: the instructions read so far and those
/// still to read stay the whole list.
proof fn lemma_code_step(b: Seq<u8>, off: nat, done: Seq<(VMOpcodeV, nat)>, all: Seq<(VMOpcodeV, nat)>)
    requires
        off <= b.len(),
        spec_code(b.skip(off as int), off) matches Some(rest) && all == done + rest,
        spec_opcode(b.skip(off as int), off) is Ok,
    ensures
        ({
            let (op, n) = spec_opcode(b.skip(off as int), off)->Ok_0;
            &&& 1 <= n
            &&& off + n <= b.len()
            &&& spec_code(b.skip((off + n) as int), off + n) matches Some(rest2) && all == done.push((op, n)) + rest2
        }),
{
    let r = b.skip(off as int);
    lemma_opcode_len(r, off);
    let (op, n) = spec_opcode(r, off)->Ok_0;
    assert(r.skip(n as int) =~= b.skip((off + n) as int));
    let rest = spec_code(r, off).unwrap();
    let rest2 = spec_code(b.skip((off + n) as int), off + n).unwrap();
    assert(rest == seq![(op, n)] + rest2);
    assert(all =~= done.push((op, n)) + rest2);
}

/// The list made of one more instruction.
proof fn lemma_list_step(done: Seq<(VMOpcodeV, nat)>, item: (VMOpcodeV, nat))
    ensures
        list_of(done.push(item)) == (InstructionListV {
            opcodes: list_of(done).opcodes.push(item.0),
            byte_to_code: list_of(done).byte_to_code.union_prefer_right(
                Map::new(|i: usize| code_len(done) <= i < code_len(done) + item.1, |i: usize| done.len() as usize),
            ),
            code_to_byte: list_of(done).code_to_byte.insert(done.len() as usize, code_len(done) as usize),
        }),
        code_len(done.push(item)) == code_len(done) + item.1,
{
    assert(done.push(item).drop_last() =~= done);
}

/// The instructions in a list are those it was made of.
proof fn lemma_list_len(items: Seq<(VMOpcodeV, nat)>)
    ensures
        list_of(items).opcodes.len() == items.len(),
    decreases items.len(),
{
    if items.len() > 0 {
        lemma_list_len(items.drop_last());
    }
}

impl ClassFileItem for InstructionList {
    /// The instructions up to the first that cannot be read; the rest of
    /// the bytes are passed over.
    open spec fn spec_read(bytes: Seq<u8>, cp: Option<ConstantPoolV>) -> Result<(InstructionListV, nat), ClassFileErrorV> {
        match spec_code(bytes, 0) {
            Some(items) => Ok((list_of(items), bytes.len())),
            None => Err(ClassFileErrorV::Aborts),
        }
    }

    #[verifier::rlimit(60)]
    #[verifier::spinoff_prover]
    fn read_from_stream(s: &mut ClassFileStream, cp: Option<&ConstantPool>) -> (r: Result<Self, ClassFileError>) {
        let ghost b = old(s).rest();
        let ghost all = spec_code(b, 0).unwrap();
        let mut off: usize = 0;
        let mut list: Vec<VMOpcode> = Vec::new();
        let mut byte_to_code: fnv::FnvHashMap<usize, usize> = fnv::FnvHashMap::default();
        let mut code_to_byte: fnv::FnvHashMap<usize, usize> = fnv::FnvHashMap::default();
        let ghost done: Seq<(VMOpcodeV, nat)> = seq![];
        assert(b.skip(0) =~= b);
        assert(all =~= done + all);
        assert(crate::item::views(list@) =~= Seq::<VMOpcodeV>::empty());
        assert(list_of(done) == (InstructionListV {
            opcodes: crate::item::views(list@),
            byte_to_code: byte_to_code@,
            code_to_byte: code_to_byte@,
        }));
        loop
            invariant_except_break
                s.wf(),
                s.data() == old(s).data(),
                b == old(s).rest(),
                spec_code(b, 0) == Some(all),
                off == code_len(done),
                s.pos() == old(s).pos() + off,
                s.rest() == b.skip(off as int),
                off <= b.len(),
                b.len() <= usize::MAX,
                spec_code(b.skip(off as int), off as nat) matches Some(rest) && all == done + rest,
                list_of(done) == (InstructionListV {
                    opcodes: crate::item::views(list@),
                    byte_to_code: byte_to_code@,
                    code_to_byte: code_to_byte@,
                }),
                list@.len() == done.len(),
            ensures
                s.wf(),
                s.data() == old(s).data(),
                done == all,
                list_of(done) == (InstructionListV {
                    opcodes: crate::item::views(list@),
                    byte_to_code: byte_to_code@,
                    code_to_byte: code_to_byte@,
                }),
            decreases b.len() - off,
        {
            let ghost r = s.rest();
            let c = match read_opcode(s, off) {
                Ok(c) => c,
                Err(_) => {
                    proof {
                        assert(spec_code(r, off as nat) == Some(Seq::<(VMOpcodeV, nat)>::empty()));
                        assert(all =~= done);
                    }
                    break ;
                },
            };
            proof {
                assert(r =~= b.skip(off as int));
                lemma_code_step(b, off as nat, done, all);
                lemma_list_step(done, (c.0@, c.1 as nat));
                assert(s.rest() =~= r.skip(c.1 as int));
            }
            let ghost prev_list = list_of(done);
            let k = list.len();
            fnv_insert(&mut code_to_byte, k, off);
            let end = off + c.1;
            let mut i: usize = off;
            while i < end
                invariant
                    off <= i <= end,
                    byte_to_code@ == prev_list.byte_to_code.union_prefer_right(
                        Map::new(|j: usize| off <= j < i, |j: usize| k),
                    ),
                decreases end - i,
            {
                fnv_insert(&mut byte_to_code, i, k);
                i = i + 1;
                assert(byte_to_code@ =~= prev_list.byte_to_code.union_prefer_right(
                    Map::new(|j: usize| off <= j < i, |j: usize| k),
                ));
            }
            let ghost item = (c.0@, c.1 as nat);
            list.push(c.0);
            proof {
                done = done.push(item);
                assert(crate::item::views(list@) =~= prev_list.opcodes.push(item.0));
            }
            off = end;
            assert(s.rest() =~= b.skip(off as int));
        }
        s.skip_to_end();
        Ok(Self { opcodes: list, byte_to_code, code_to_byte })
    }
}

} // verus!
