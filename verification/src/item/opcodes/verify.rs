//! The checks that can be made of instructions without running them.
use vstd::prelude::*;
use crate::error::{ClassFileError, ClassFileErrorV};
use crate::item::ConstantPool;
use crate::item::constant_pool::{ConstantPoolV, ConstantPoolEntry, ConstantPoolEntryV, in_pool, init_name};
use crate::item::constant_pool::structure::{utf8_at, parses, parse_token};
use crate::item::file::ClassFile;
use crate::item::ids::class::{ClassName, spec_class_name};
use crate::item::ids::field::{FieldDescriptor, FieldType, FieldTypeV, spec_field_type};
use crate::item::opcodes::{InstructionList, VMOpcode, VMOpcodeV};
use crate::item::opcodes::checks::{
    branch_bad, branch_out, branch16_bad, branch16_out, branch32_bad, branch32_out, widen, widen_index,
    index_past, index_out,
};
use crate::parser::error::ParsingError;
use crate::parser::tokens::Lexer;
use crate::item::ids::method::{MethodDescriptor, spec_method_descriptor};

verus! {

/// Possible errors to come from code verification.
#[derive(Debug)]
pub enum CodeVerificationError {
    /// Returned when a branch location is out of bounds.
    BranchLocOutOfBounds,
    /// Returned when the `low` value of a tableswitch is greater than its `high`.
    TableSwitchLowGtHigh,
    /// Returned when an invalid opcode is inside a `wide` instruction.
    BadWideOp,
    /// Bad sorting of lookup switch
    LookupSwitchBadSort,
    /// Bad constant pool index
    BadConstantPoolIndex,
    /// Bad constant pool type
    BadConstantPoolType,
    /// Invokeinterface zero byte not zero
    InvokeInterfaceNotZero,
    /// Bad parse
    BadParse(ParsingError),
    /// Generic class file error
    ClassFileError(ClassFileError),
    /// Wrong constant type
    WrongConstantType,
    /// Bad count in invokeinterface
    InvokeInterfaceBadCount,
    /// Bad method name
    BadMethodName,
    /// `new` not referencing a class
    NewNotRefClass,
    /// Bad `anewarray`
    BadANewArray,
    /// Bad `multianewarray`
    BadMultiANewArray,
    /// Local index out of range
    LocalIndexOutOfRange,
}

/// Mathematical form of [`CodeVerificationError`] (a parsing error is
/// known only as such).
pub enum CodeVerificationErrorV {
    BranchLocOutOfBounds,
    TableSwitchLowGtHigh,
    BadWideOp,
    LookupSwitchBadSort,
    BadConstantPoolIndex,
    BadConstantPoolType,
    InvokeInterfaceNotZero,
    BadParse,
    ClassFileError(ClassFileErrorV),
    WrongConstantType,
    InvokeInterfaceBadCount,
    BadMethodName,
    NewNotRefClass,
    BadANewArray,
    BadMultiANewArray,
    LocalIndexOutOfRange,
}

impl View for CodeVerificationError {
    type V = CodeVerificationErrorV;

    open spec fn view(&self) -> CodeVerificationErrorV {
        match self {
            CodeVerificationError::BranchLocOutOfBounds => CodeVerificationErrorV::BranchLocOutOfBounds,
            CodeVerificationError::TableSwitchLowGtHigh => CodeVerificationErrorV::TableSwitchLowGtHigh,
            CodeVerificationError::BadWideOp => CodeVerificationErrorV::BadWideOp,
            CodeVerificationError::LookupSwitchBadSort => CodeVerificationErrorV::LookupSwitchBadSort,
            CodeVerificationError::BadConstantPoolIndex => CodeVerificationErrorV::BadConstantPoolIndex,
            CodeVerificationError::BadConstantPoolType => CodeVerificationErrorV::BadConstantPoolType,
            CodeVerificationError::InvokeInterfaceNotZero => CodeVerificationErrorV::InvokeInterfaceNotZero,
            CodeVerificationError::BadParse(_) => CodeVerificationErrorV::BadParse,
            CodeVerificationError::ClassFileError(e) => CodeVerificationErrorV::ClassFileError(e@),
            CodeVerificationError::WrongConstantType => CodeVerificationErrorV::WrongConstantType,
            CodeVerificationError::InvokeInterfaceBadCount => CodeVerificationErrorV::InvokeInterfaceBadCount,
            CodeVerificationError::BadMethodName => CodeVerificationErrorV::BadMethodName,
            CodeVerificationError::NewNotRefClass => CodeVerificationErrorV::NewNotRefClass,
            CodeVerificationError::BadANewArray => CodeVerificationErrorV::BadANewArray,
            CodeVerificationError::BadMultiANewArray => CodeVerificationErrorV::BadMultiANewArray,
            CodeVerificationError::LocalIndexOutOfRange => CodeVerificationErrorV::LocalIndexOutOfRange,
        }
    }
}

/// The outcome of a check: `None` where it stops the program, else its verdict.
pub type Outcome = Option<Result<(), CodeVerificationErrorV>>;

/// The kinds of constant pool entries that an instruction can require.
pub enum EntryKind {
    /// What `ldc` and `ldc_w` load: an int, float, string, class, method type
    /// or method handle.
    Loadable,
    /// What `ldc2_w` loads: a long or a double.
    Wide,
    /// A field reference.
    Field,
    /// A method reference.
    Method,
    /// A method or interface method reference.
    AnyMethod,
    /// An interface method reference.
    InterfaceMethod,
    /// A class.
    Class,
}

/// Whether the entry `e` is of the kind `k`.
pub open spec fn entry_of_kind(e: ConstantPoolEntryV, k: EntryKind) -> bool {
    match k {
        EntryKind::Loadable => e is Integer || e is Float || e is String || e is Class || e is MethodType || e is MethodHandle,
        EntryKind::Wide => e is Long || e is Double,
        EntryKind::Field => e is Fieldref,
        EntryKind::Method => e is Methodref,
        EntryKind::AnyMethod => e is Methodref || e is InterfaceMethodref,
        EntryKind::InterfaceMethod => e is InterfaceMethodref,
        EntryKind::Class => e is Class,
    }
}

/// The check that the entry at `v` is of the kind `k`: past the last entry
/// is a bad index; index 0 stops the program.
pub open spec fn check_pool_entry(pool: ConstantPoolV, v: u16, k: EntryKind) -> Outcome {
    if index_past(v, pool.len()) {
        Some(Err(CodeVerificationErrorV::BadConstantPoolIndex))
    } else if v == 0 {
        None
    } else if entry_of_kind(pool[v - 1], k) {
        Some(Ok(()))
    } else {
        Some(Err(CodeVerificationErrorV::BadConstantPoolType))
    }
}

/// The position (numbered from 1) of the `NameAndType` entry of the method
/// reference `e` (0 for another kind of entry).
pub open spec fn nat_index(e: ConstantPoolEntryV) -> int {
    match e {
        ConstantPoolEntryV::Methodref { name_and_type_index, .. } => name_and_type_index as int,
        ConstantPoolEntryV::InterfaceMethodref { name_and_type_index, .. } => name_and_type_index as int,
        _ => 0,
    }
}

/// The name and descriptor of the method that the reference at `v` names,
/// by way of its `NameAndType` entry: `None` where an index on the way
/// leaves the pool (the program stops there); a `NameAndType` of another
/// kind is the wrong constant type, a name or descriptor that is not a
/// `Utf8` entry an expected string.
pub open spec fn method_name_and_type(pool: ConstantPoolV, v: u16) -> Option<Result<(Seq<char>, Seq<char>), CodeVerificationErrorV>> {
    let n = nat_index(pool[v - 1]);
    if !in_pool(pool, n) {
        None
    } else {
        match pool[n - 1] {
            ConstantPoolEntryV::NameAndType { name_index, descriptor_index } => if !in_pool(pool, name_index as int) {
                None
            } else {
                match utf8_at(pool, name_index as int) {
                    None => Some(Err(CodeVerificationErrorV::ClassFileError(ClassFileErrorV::ExpectedString))),
                    Some(name) => if !in_pool(pool, descriptor_index as int) {
                        None
                    } else {
                        match utf8_at(pool, descriptor_index as int) {
                            None => Some(Err(CodeVerificationErrorV::ClassFileError(ClassFileErrorV::ExpectedString))),
                            Some(d) => Some(Ok((name, d))),
                        }
                    },
                }
            },
            _ => Some(Err(CodeVerificationErrorV::WrongConstantType)),
        }
    }
}

/// Whether a method name begins with `<` (the names of initializers do).
pub open spec fn angle_name(name: Seq<char>) -> bool {
    name.len() > 0 && name[0] == '<'
}

/// The check of the method that `invokevirtual`, `invokestatic` or (by
/// `special`) `invokespecial` at `v` invokes: its name may not begin with
/// `<`, but for `<init>` invoked by `invokespecial`.
pub open spec fn check_invoke(pool: ConstantPoolV, v: u16, special: bool) -> Outcome {
    match method_name_and_type(pool, v) {
        None => None,
        Some(Err(e)) => Some(Err(e)),
        Some(Ok((name, _))) => if angle_name(name) && !(special && name == init_name()) {
            Some(Err(CodeVerificationErrorV::BadMethodName))
        } else {
            Some(Ok(()))
        },
    }
}

/// The check of the method that `invokeinterface` at `v` invokes with
/// `count`: its descriptor must parse, `count` must be its number of
/// parameters, and its name may not begin with `<`.
pub open spec fn check_invoke_interface(pool: ConstantPoolV, v: u16, count: u8) -> Outcome {
    match method_name_and_type(pool, v) {
        None => None,
        Some(Err(e)) => Some(Err(e)),
        Some(Ok((name, d))) => match spec_method_descriptor(d) {
            None => Some(Err(CodeVerificationErrorV::BadParse)),
            Some((md, _)) => if count as nat != md.parameters.len() {
                Some(Err(CodeVerificationErrorV::InvokeInterfaceBadCount))
            } else if angle_name(name) {
                Some(Err(CodeVerificationErrorV::BadMethodName))
            } else {
                Some(Ok(()))
            },
        },
    }
}

/// How many array types a field type is nested in.
pub open spec fn array_depth(t: FieldTypeV) -> nat
    decreases t,
{
    match t {
        FieldTypeV::ArrayType(b) => 1 + array_depth(*b),
        _ => 0,
    }
}

/// The check of `new` or `anewarray` (by `is_new`) of the class at `v`: its
/// name index leaving the pool stops the program.
/// An entry other than a class gives the error of a class name that does not parse.
pub open spec fn check_class_use(pool: ConstantPoolV, v: u16, is_new: bool) -> Outcome {
    match pool[v - 1] {
        ConstantPoolEntryV::Class { name_index } => if !in_pool(pool, name_index as int) {
            None
        } else {
            match utf8_at(pool, name_index as int) {
                None => Some(Err(CodeVerificationErrorV::ClassFileError(ClassFileErrorV::ExpectedString))),
                Some(name) => check_class_name_use(name, is_new),
            }
        },
        _ => if is_new {
            Some(Err(CodeVerificationErrorV::NewNotRefClass))
        } else {
            Some(Err(CodeVerificationErrorV::BadANewArray))
        },
    }
}

/// The check of `new` or `anewarray` (by `is_new`) of the class named `name`:
/// `new` needs a class name; `anewarray` a class name, or a field descriptor
/// with no more than 254 array dimensions.
pub open spec fn check_class_name_use(name: Seq<char>, is_new: bool) -> Outcome {
    if is_new {
        if spec_class_name(name) is None {
            Some(Err(CodeVerificationErrorV::NewNotRefClass))
        } else {
            Some(Ok(()))
        }
    } else if spec_class_name(name) is Some {
        Some(Ok(()))
    } else {
        match spec_field_type(name) {
            Some((t, _)) => if 1 + array_depth(t) > i32::MAX {
                None
            } else if 1 + array_depth(t) > 255 {
                Some(Err(CodeVerificationErrorV::BadANewArray))
            } else {
                Some(Ok(()))
            },
            None => Some(Err(CodeVerificationErrorV::BadANewArray)),
        }
    }
}

/// The check of the jump offsets of a `tableswitch` at `position`, from the `i`th on.
pub open spec fn check_table_offsets(offsets: Seq<i32>, position: usize, len: nat, i: nat) -> Outcome
    decreases offsets.len() - i,
{
    if i >= offsets.len() {
        Some(Ok(()))
    } else if branch_bad(position, offsets[i as int] as int, len) {
        Some(Err(CodeVerificationErrorV::BranchLocOutOfBounds))
    } else {
        check_table_offsets(offsets, position, len, i + 1)
    }
}

/// The check of the match-offset pairs of a `lookupswitch` at `position`,
/// from the `i`th on, `last` being the match before it: the matches must be
/// sorted, and each target within the code.
pub open spec fn check_lookup_pairs(pairs: Seq<(i32, i32)>, last: i32, position: usize, len: nat, i: nat) -> Outcome
    decreases pairs.len() - i,
{
    if i >= pairs.len() {
        Some(Ok(()))
    } else if last > pairs[i as int].0 {
        Some(Err(CodeVerificationErrorV::LookupSwitchBadSort))
    } else if branch_bad(position, pairs[i as int].1 as int, len) {
        Some(Err(CodeVerificationErrorV::BranchLocOutOfBounds))
    } else {
        check_lookup_pairs(pairs, pairs[i as int].0, position, len, i + 1)
    }
}

/// The check of a switch's default target.
pub open spec fn check_default(default: i32, position: usize, len: nat) -> Outcome {
    if branch_bad(position, default as int, len) {
        Some(Err(CodeVerificationErrorV::BranchLocOutOfBounds))
    } else {
        Some(Ok(()))
    }
}

/// The offset of a conditional or unconditional 16-bit branch.
pub open spec fn branch16(inst: VMOpcodeV) -> Option<i16> {
    if inst is goto { Some(inst->goto_0) }
    else if inst is ifeq { Some(inst->ifeq_0) }
    else if inst is ifne { Some(inst->ifne_0) }
    else if inst is ifle { Some(inst->ifle_0) }
    else if inst is iflt { Some(inst->iflt_0) }
    else if inst is ifge { Some(inst->ifge_0) }
    else if inst is ifgt { Some(inst->ifgt_0) }
    else if inst is ifnull { Some(inst->ifnull_0) }
    else if inst is ifnonnull { Some(inst->ifnonnull_0) }
    else if inst is if_icmpeq { Some(inst->if_icmpeq_0) }
    else if inst is if_icmpne { Some(inst->if_icmpne_0) }
    else if inst is if_icmple { Some(inst->if_icmple_0) }
    else if inst is if_icmplt { Some(inst->if_icmplt_0) }
    else if inst is if_icmpge { Some(inst->if_icmpge_0) }
    else if inst is if_icmpgt { Some(inst->if_icmpgt_0) }
    else if inst is if_acmpeq { Some(inst->if_acmpeq_0) }
    else if inst is if_acmpne { Some(inst->if_acmpne_0) }
    else { None }
}

/// Whether `op` may stand inside a `wide` instruction of the first format.
pub open spec fn wide_ok(op: VMOpcodeV) -> bool {
    op is iload || op is fload || op is aload || op is lload || op is dload || op is istore || op is fstore
        || op is astore || op is lstore || op is dstore || op is ret
}

/// The local variable that `op` uses, by its index and how many slots it
/// takes (two for a `long` or `double`).
pub open spec fn local_slot(op: VMOpcodeV) -> Option<(nat, nat)> {
    match op {
        VMOpcodeV::iload(v) | VMOpcodeV::fload(v) | VMOpcodeV::aload(v) | VMOpcodeV::istore(v) | VMOpcodeV::fstore(v) | VMOpcodeV::astore(v) | VMOpcodeV::ret(v) => Some((v as nat, 1nat)),
        VMOpcodeV::iinc(v, _) => Some((v as nat, 1nat)),
        VMOpcodeV::lload(v) | VMOpcodeV::dload(v) | VMOpcodeV::lstore(v) | VMOpcodeV::dstore(v) => Some((v as nat, 2nat)),
        VMOpcodeV::iload_0() | VMOpcodeV::fload_0() | VMOpcodeV::aload_0() | VMOpcodeV::istore_0() | VMOpcodeV::fstore_0() | VMOpcodeV::astore_0() => Some((0nat, 1nat)),
        VMOpcodeV::lload_0() | VMOpcodeV::dload_0() | VMOpcodeV::lstore_0() | VMOpcodeV::dstore_0() => Some((0nat, 2nat)),
        VMOpcodeV::iload_1() | VMOpcodeV::fload_1() | VMOpcodeV::aload_1() | VMOpcodeV::istore_1() | VMOpcodeV::fstore_1() | VMOpcodeV::astore_1() => Some((1nat, 1nat)),
        VMOpcodeV::lload_1() | VMOpcodeV::dload_1() | VMOpcodeV::lstore_1() | VMOpcodeV::dstore_1() => Some((1nat, 2nat)),
        VMOpcodeV::iload_2() | VMOpcodeV::fload_2() | VMOpcodeV::aload_2() | VMOpcodeV::istore_2() | VMOpcodeV::fstore_2() | VMOpcodeV::astore_2() => Some((2nat, 1nat)),
        VMOpcodeV::lload_2() | VMOpcodeV::dload_2() | VMOpcodeV::lstore_2() | VMOpcodeV::dstore_2() => Some((2nat, 2nat)),
        VMOpcodeV::iload_3() | VMOpcodeV::fload_3() | VMOpcodeV::aload_3() | VMOpcodeV::istore_3() | VMOpcodeV::fstore_3() | VMOpcodeV::astore_3() => Some((3nat, 1nat)),
        VMOpcodeV::lload_3() | VMOpcodeV::dload_3() | VMOpcodeV::lstore_3() | VMOpcodeV::dstore_3() => Some((3nat, 2nat)),
        _ => None,
    }
}

/// The check that the local variable at `index`, `width` slots wide, lies
/// within `max_locals` locals.
pub open spec fn check_local(index: nat, width: nat, max_locals: usize) -> Outcome {
    if index + width > max_locals {
        Some(Err(CodeVerificationErrorV::LocalIndexOutOfRange))
    } else {
        Some(Ok(()))
    }
}

/// The check of the local variable that `op` uses, if any.
pub open spec fn check_locals_of(op: VMOpcodeV, max_locals: usize) -> Outcome {
    match local_slot(op) {
        Some((i, w)) => check_local(i, w, max_locals),
        None => Some(Ok(())),
    }
}

/// The check of the instruction `inst` at `position` in a list of `len`
/// instructions, with the constant pool `pool` and `max_locals` locals.
#[verifier::opaque]
pub open spec fn spec_verify_inst(pool: ConstantPoolV, len: nat, inst: VMOpcodeV, position: usize, max_locals: usize) -> Outcome {
    if max_locals == 0 {
        Some(Err(CodeVerificationErrorV::ClassFileError(ClassFileErrorV::ArithmeticError)))
    } else if branch16(inst) is Some {
        if branch16_bad(position, branch16(inst)->0, len) {
            Some(Err(CodeVerificationErrorV::BranchLocOutOfBounds))
        } else {
            Some(Ok(()))
        }
    } else {
        match inst {
            VMOpcodeV::goto_w(v) => if branch32_bad(position, v, len) {
                Some(Err(CodeVerificationErrorV::BranchLocOutOfBounds))
            } else {
                Some(Ok(()))
            },
            VMOpcodeV::tableswitch(default, low, high, offsets) => match check_default(default, position, len) {
                Some(Ok(())) => if low > high {
                    Some(Err(CodeVerificationErrorV::TableSwitchLowGtHigh))
                } else {
                    check_table_offsets(offsets, position, len, 0)
                },
                other => other,
            },
            VMOpcodeV::wide_format1(op, index) => if wide_ok(*op) {
                match local_slot(*op) {
                    Some((_, w)) => check_local(index as nat, w, max_locals),
                    None => Some(Ok(())),
                }
            } else {
                Some(Err(CodeVerificationErrorV::BadWideOp))
            },
            VMOpcodeV::wide_format2(_, index, _) => check_local(index as nat, 1, max_locals),
            VMOpcodeV::lookupswitch(default, pairs) => match check_default(default, position, len) {
                Some(Ok(())) => check_lookup_pairs(pairs, i32::MIN, position, len, 0),
                other => other,
            },
            VMOpcodeV::ldc(v) => check_pool_entry(pool, widen(v), EntryKind::Loadable),
            VMOpcodeV::ldc_w(v) => check_pool_entry(pool, v, EntryKind::Loadable),
            VMOpcodeV::ldc2_w(v) => check_pool_entry(pool, v, EntryKind::Wide),
            VMOpcodeV::getfield(v) | VMOpcodeV::putfield(v) | VMOpcodeV::getstatic(v) | VMOpcodeV::putstatic(v) =>
                check_pool_entry(pool, v, EntryKind::Field),
            VMOpcodeV::invokevirtual(v) => match check_pool_entry(pool, v, EntryKind::Method) {
                Some(Ok(())) => check_invoke(pool, v, false),
                other => other,
            },
            VMOpcodeV::invokespecial(v) => match check_pool_entry(pool, v, EntryKind::AnyMethod) {
                Some(Ok(())) => check_invoke(pool, v, true),
                other => other,
            },
            VMOpcodeV::invokestatic(v) => match check_pool_entry(pool, v, EntryKind::AnyMethod) {
                Some(Ok(())) => check_invoke(pool, v, false),
                other => other,
            },
            VMOpcodeV::invokeinterface(index, count, zero) => match check_pool_entry(pool, index, EntryKind::InterfaceMethod) {
                Some(Ok(())) => if zero != 0 {
                    Some(Err(CodeVerificationErrorV::InvokeInterfaceNotZero))
                } else {
                    check_invoke_interface(pool, index, count)
                },
                other => other,
            },
            VMOpcodeV::instanceof(v) | VMOpcodeV::checkcast(v) => check_pool_entry(pool, v, EntryKind::Class),
            VMOpcodeV::new(v) => match check_pool_entry(pool, v, EntryKind::Class) {
                Some(Ok(())) => check_class_use(pool, v, true),
                other => other,
            },
            VMOpcodeV::anewarray(v) => match check_pool_entry(pool, v, EntryKind::Class) {
                Some(Ok(())) => check_class_use(pool, v, false),
                other => other,
            },
            VMOpcodeV::multianewarray(v, dimensions) => match check_pool_entry(pool, v, EntryKind::Class) {
                Some(Ok(())) => if dimensions == 0 {
                    Some(Err(CodeVerificationErrorV::BadMultiANewArray))
                } else {
                    Some(Ok(()))
                },
                other => other,
            },
            _ => check_locals_of(inst, max_locals),
        }
    }
}

/// The check of the first `n` instructions of `list`, in order: the first
/// that fails, or that would stop the program, decides.
pub open spec fn spec_verify_code(pool: ConstantPoolV, list: Seq<VMOpcodeV>, max_locals: usize, n: nat) -> Outcome
    decreases n,
{
    if n == 0 {
        Some(Ok(()))
    } else {
        let prev = spec_verify_code(pool, list, max_locals, (n - 1) as nat);
        if prev == Some(Ok::<(), CodeVerificationErrorV>(())) {
            spec_verify_inst(pool, list.len(), list[n - 1], (n - 1) as usize, max_locals)
        } else {
            prev
        }
    }
}

/// Once the check of a prefix of the instructions is not a pass, the check
/// of any longer prefix is the same.
pub proof fn lemma_verify_code_stops(pool: ConstantPoolV, list: Seq<VMOpcodeV>, max_locals: usize, i: nat, n: nat)
    requires
        i <= n,
        spec_verify_code(pool, list, max_locals, i) != Some(Ok::<(), CodeVerificationErrorV>(())),
    ensures
        spec_verify_code(pool, list, max_locals, n) == spec_verify_code(pool, list, max_locals, i),
    decreases n - i,
{
    if i < n {
        lemma_verify_code_stops(pool, list, max_locals, i, (n - 1) as nat);
    }
}

/// The code passes its check exactly when every instruction passes its own
/// check at its position; otherwise the outcome is that of the first
/// instruction that does not pass.
pub proof fn law_verify_code_each(pool: ConstantPoolV, list: Seq<VMOpcodeV>, max_locals: usize, n: nat)
    requires
        n <= list.len(),
    ensures
        spec_verify_code(pool, list, max_locals, n) == Some(Ok::<(), CodeVerificationErrorV>(()))
            <==> forall|i: int| 0 <= i < n ==> #[trigger] spec_verify_inst(pool, list.len(), list[i], i as usize, max_locals)
                == Some(Ok::<(), CodeVerificationErrorV>(())),
        spec_verify_code(pool, list, max_locals, n) != Some(Ok::<(), CodeVerificationErrorV>(())) ==> exists|k: int| 0 <= k < n
            && (forall|i: int| 0 <= i < k ==> #[trigger] spec_verify_inst(pool, list.len(), list[i], i as usize, max_locals)
                == Some(Ok::<(), CodeVerificationErrorV>(())))
            && spec_verify_code(pool, list, max_locals, n) == spec_verify_inst(pool, list.len(), list[k], k as usize, max_locals),
    decreases n,
{
    if n > 0 {
        law_verify_code_each(pool, list, max_locals, (n - 1) as nat);
        if spec_verify_code(pool, list, max_locals, (n - 1) as nat) == Some(Ok::<(), CodeVerificationErrorV>(())) {
            let k = (n - 1) as int;
            if spec_verify_code(pool, list, max_locals, n) != Some(Ok::<(), CodeVerificationErrorV>(())) {
                assert(spec_verify_code(pool, list, max_locals, n) == spec_verify_inst(pool, list.len(), list[k], k as usize, max_locals));
            }
        } else {
            let k = choose|k: int| 0 <= k < n - 1
                && (forall|i: int| 0 <= i < k ==> #[trigger] spec_verify_inst(pool, list.len(), list[i], i as usize, max_locals)
                    == Some(Ok::<(), CodeVerificationErrorV>(())))
                && spec_verify_code(pool, list, max_locals, (n - 1) as nat) == spec_verify_inst(pool, list.len(), list[k], k as usize, max_locals);
            assert(spec_verify_inst(pool, list.len(), list[k], k as usize, max_locals) != Some(Ok::<(), CodeVerificationErrorV>(())));
        }
    }
}

/// Every 16-bit branch (`goto`, `ifeq`, `ifne`, `ifle`, `iflt`, `ifge`,
/// `ifgt`, `ifnull`, `ifnonnull`, `if_icmpeq`, `if_icmpne`, `if_icmple`,
/// `if_icmplt`, `if_icmpge`, `if_icmpgt`, `if_acmpeq`, `if_acmpne`) at
/// `position`, with offset `v`, fails its check with
/// `BranchLocOutOfBounds` exactly when its target `position + v` lies
/// outside the `len` instructions of the code, and passes otherwise.
pub proof fn law_branch16_targets(pool: ConstantPoolV, len: nat, position: usize, max_locals: usize, v: i16)
    requires
        max_locals > 0,
    ensures
        ({
            let t = position + v;
            let expected: Outcome = if t < 0 || t >= len {
                Some(Err(CodeVerificationErrorV::BranchLocOutOfBounds))
            } else {
                Some(Ok(()))
            };
            &&& spec_verify_inst(pool, len, VMOpcodeV::goto(v), position, max_locals) == expected
            &&& spec_verify_inst(pool, len, VMOpcodeV::ifeq(v), position, max_locals) == expected
            &&& spec_verify_inst(pool, len, VMOpcodeV::ifne(v), position, max_locals) == expected
            &&& spec_verify_inst(pool, len, VMOpcodeV::ifle(v), position, max_locals) == expected
            &&& spec_verify_inst(pool, len, VMOpcodeV::iflt(v), position, max_locals) == expected
            &&& spec_verify_inst(pool, len, VMOpcodeV::ifge(v), position, max_locals) == expected
            &&& spec_verify_inst(pool, len, VMOpcodeV::ifgt(v), position, max_locals) == expected
            &&& spec_verify_inst(pool, len, VMOpcodeV::ifnull(v), position, max_locals) == expected
            &&& spec_verify_inst(pool, len, VMOpcodeV::ifnonnull(v), position, max_locals) == expected
            &&& spec_verify_inst(pool, len, VMOpcodeV::if_icmpeq(v), position, max_locals) == expected
            &&& spec_verify_inst(pool, len, VMOpcodeV::if_icmpne(v), position, max_locals) == expected
            &&& spec_verify_inst(pool, len, VMOpcodeV::if_icmple(v), position, max_locals) == expected
            &&& spec_verify_inst(pool, len, VMOpcodeV::if_icmplt(v), position, max_locals) == expected
            &&& spec_verify_inst(pool, len, VMOpcodeV::if_icmpge(v), position, max_locals) == expected
            &&& spec_verify_inst(pool, len, VMOpcodeV::if_icmpgt(v), position, max_locals) == expected
            &&& spec_verify_inst(pool, len, VMOpcodeV::if_acmpeq(v), position, max_locals) == expected
            &&& spec_verify_inst(pool, len, VMOpcodeV::if_acmpne(v), position, max_locals) == expected
        }),
{
    reveal(spec_verify_inst);
}

/// A `goto_w` at `position`, whose four offset bytes read as the signed
/// offset `v as i32`, fails its check with `BranchLocOutOfBounds` exactly
/// when its target lies outside the `len` instructions of the code.
pub proof fn law_goto_w_target(pool: ConstantPoolV, len: nat, position: usize, max_locals: usize, v: u32)
    requires
        max_locals > 0,
    ensures
        spec_verify_inst(pool, len, VMOpcodeV::goto_w(v), position, max_locals) == (if position + (v as i32) < 0
            || position + (v as i32) >= len {
            Some(Err(CodeVerificationErrorV::BranchLocOutOfBounds))
        } else {
            Some(Ok(()))
        }),
{
    reveal(spec_verify_inst);
}

/// The outcome that an executable check returned, in mathematical form.
pub open spec fn outcome_of(r: Option<Result<(), CodeVerificationError>>) -> Outcome {
    match r {
        None => None,
        Some(Ok(())) => Some(Ok(())),
        Some(Err(e)) => Some(Err(e@)),
    }
}

/// Whether the entry `e` is of the kind `k`.
fn entry_is(e: &ConstantPoolEntry, k: EntryKind) -> (r: bool)
    ensures
        r == entry_of_kind(e@, k),
{
    match k {
        EntryKind::Loadable => match e {
            ConstantPoolEntry::Integer { .. } | ConstantPoolEntry::Float { .. } | ConstantPoolEntry::String { .. }
            | ConstantPoolEntry::Class { .. } | ConstantPoolEntry::MethodType { .. }
            | ConstantPoolEntry::MethodHandle { .. } => true,
            _ => false,
        },
        EntryKind::Wide => match e {
            ConstantPoolEntry::Long { .. } | ConstantPoolEntry::Double { .. } => true,
            _ => false,
        },
        EntryKind::Field => match e {
            ConstantPoolEntry::Fieldref { .. } => true,
            _ => false,
        },
        EntryKind::Method => match e {
            ConstantPoolEntry::Methodref { .. } => true,
            _ => false,
        },
        EntryKind::AnyMethod => match e {
            ConstantPoolEntry::Methodref { .. } | ConstantPoolEntry::InterfaceMethodref { .. } => true,
            _ => false,
        },
        EntryKind::InterfaceMethod => match e {
            ConstantPoolEntry::InterfaceMethodref { .. } => true,
            _ => false,
        },
        EntryKind::Class => match e {
            ConstantPoolEntry::Class { .. } => true,
            _ => false,
        },
    }
}

/// [`check_pool_entry`], computed.
fn check_pool(pool: &ConstantPool, v: u16, k: EntryKind) -> (r: Option<Result<(), CodeVerificationError>>)
    ensures
        outcome_of(r) == check_pool_entry(pool@, v, k),
{
    if index_out(v, pool.entries.len()) {
        return Some(Err(CodeVerificationError::BadConstantPoolIndex));
    }
    if v == 0 {
        return None;
    }
    if entry_is(pool.get_constant(v as usize), k) {
        Some(Ok(()))
    } else {
        Some(Err(CodeVerificationError::BadConstantPoolType))
    }
}

/// [`method_name_and_type`], computed.
fn method_nat(pool: &ConstantPool, v: u16) -> (r: Option<Result<(&str, &str), CodeVerificationError>>)
    requires
        in_pool(pool@, v as int),
    ensures
        match method_name_and_type(pool@, v) {
            None => r is None,
            Some(Err(e)) => r matches Some(Err(x)) && x@ == e,
            Some(Ok((name, d))) => r matches Some(Ok((a, b))) && a@ == name && b@ == d,
        },
{
    let n = match pool.get_constant(v as usize) {
        ConstantPoolEntry::Methodref { name_and_type_index, .. } => *name_and_type_index,
        ConstantPoolEntry::InterfaceMethodref { name_and_type_index, .. } => *name_and_type_index,
        _ => 0,
    };
    if !pool.in_pool(n) {
        return None;
    }
    match pool.get_constant(n as usize) {
        ConstantPoolEntry::NameAndType { name_index, descriptor_index } => {
            if !pool.in_pool(*name_index) {
                return None;
            }
            let name = match pool.get_utf8_constant(*name_index as usize) {
                Ok(x) => x,
                Err(e) => {
                    return Some(Err(CodeVerificationError::ClassFileError(e)));
                },
            };
            if !pool.in_pool(*descriptor_index) {
                return None;
            }
            match pool.get_utf8_constant(*descriptor_index as usize) {
                Ok(d) => Some(Ok((name, d))),
                Err(e) => Some(Err(CodeVerificationError::ClassFileError(e))),
            }
        },
        _ => Some(Err(CodeVerificationError::WrongConstantType)),
    }
}

/// [`angle_name`], computed.
fn is_angle_name(name: &str) -> (r: bool)
    ensures
        r == angle_name(name@),
{
    let chars = crate::text::chars_of(name);
    chars.len() > 0 && chars[0] == '<'
}

/// [`check_invoke`], computed.
fn check_invoke_exec(pool: &ConstantPool, v: u16, special: bool) -> (r: Option<Result<(), CodeVerificationError>>)
    requires
        in_pool(pool@, v as int),
    ensures
        outcome_of(r) == check_invoke(pool@, v, special),
{
    match method_nat(pool, v) {
        None => None,
        Some(Err(e)) => Some(Err(e)),
        Some(Ok((name, _))) => {
            if is_angle_name(name) && !(special && crate::item::constant_pool::is_init_str(name)) {
                Some(Err(CodeVerificationError::BadMethodName))
            } else {
                Some(Ok(()))
            }
        },
    }
}

/// Parse a method descriptor, keeping the parser's error.
fn parse_method_descriptor(text: &str) -> (r: Result<MethodDescriptor, ParsingError>)
    ensures
        match spec_method_descriptor(text@) {
            Some((v, _)) => r matches Ok(d) && d@ == v,
            None => r is Err,
        },
{
    let lexer = Lexer::new();
    let mut stream = Lexer::stream(lexer, crate::text::owned(text));
    assert(stream.rest() =~= text@);
    match stream.token::<MethodDescriptor>() {
        Ok(t) => Ok(t.token),
        Err((e, _)) => Err(e),
    }
}

/// [`check_invoke_interface`], computed.
fn check_invoke_interface_exec(pool: &ConstantPool, v: u16, count: u8) -> (r: Option<Result<(), CodeVerificationError>>)
    requires
        in_pool(pool@, v as int),
    ensures
        outcome_of(r) == check_invoke_interface(pool@, v, count),
{
    match method_nat(pool, v) {
        None => None,
        Some(Err(e)) => Some(Err(e)),
        Some(Ok((name, d))) => match parse_method_descriptor(d) {
            Err(e) => Some(Err(CodeVerificationError::BadParse(e))),
            Ok(md) => if count as usize != md.parameters.len() {
                Some(Err(CodeVerificationError::InvokeInterfaceBadCount))
            } else if is_angle_name(name) {
                Some(Err(CodeVerificationError::BadMethodName))
            } else {
                Some(Ok(()))
            },
        },
    }
}

/// One more than the number of array types that `t` is nested in, or `None`
/// where that leaves `i32`.
fn array_dimensions(t: &FieldType) -> (r: Option<i32>)
    ensures
        match r {
            Some(d) => d == 1 + array_depth(t@),
            None => 1 + array_depth(t@) > i32::MAX,
        },
{
    let mut dimensions: i32 = 1;
    let mut v = t;
    loop
        invariant
            1 <= dimensions,
            dimensions + array_depth(v@) == 1 + array_depth(t@),
        decreases array_depth(v@),
    {
        match v {
            FieldType::ArrayType(b) => {
                if dimensions == i32::MAX {
                    return None;
                }
                v = &b.0;
                dimensions = dimensions + 1;
            },
            _ => {
                return Some(dimensions);
            },
        }
    }
}

/// [`check_class_name_use`], computed.
fn check_class_name(name: &str, is_new: bool) -> (r: Option<Result<(), CodeVerificationError>>)
    ensures
        outcome_of(r) == check_class_name_use(name@, is_new),
{
    let is_class = parses::<ClassName>(name);
    if is_new {
        if !is_class {
            Some(Err(CodeVerificationError::NewNotRefClass))
        } else {
            Some(Ok(()))
        }
    } else if is_class {
        Some(Ok(()))
    } else {
        match parse_token::<FieldDescriptor>(name) {
            Some(t) => match array_dimensions(&t) {
                None => None,
                Some(d) => if d > 255 {
                    Some(Err(CodeVerificationError::BadANewArray))
                } else {
                    Some(Ok(()))
                },
            },
            None => Some(Err(CodeVerificationError::BadANewArray)),
        }
    }
}

/// [`check_class_use`], computed.
fn check_class(pool: &ConstantPool, v: u16, is_new: bool) -> (r: Option<Result<(), CodeVerificationError>>)
    requires
        in_pool(pool@, v as int),
    ensures
        outcome_of(r) == check_class_use(pool@, v, is_new),
{
    match pool.get_constant(v as usize) {
        ConstantPoolEntry::Class { name_index } => {
            if !pool.in_pool(*name_index) {
                return None;
            }
            match pool.get_utf8_constant(*name_index as usize) {
                Err(e) => Some(Err(CodeVerificationError::ClassFileError(e))),
                Ok(name) => check_class_name(name, is_new),
            }
        },
        _ => if is_new {
            Some(Err(CodeVerificationError::NewNotRefClass))
        } else {
            Some(Err(CodeVerificationError::BadANewArray))
        },
    }
}

/// [`check_table_offsets`] from the first offset, computed.
fn check_table(offsets: &Vec<i32>, position: usize, len: usize) -> (r: Option<Result<(), CodeVerificationError>>)
    ensures
        outcome_of(r) == check_table_offsets(offsets@, position, len as nat, 0),
{
    let mut i: usize = 0;
    while i < offsets.len()
        invariant
            i <= offsets.len(),
            check_table_offsets(offsets@, position, len as nat, 0) == check_table_offsets(offsets@, position, len as nat, i as nat),
        decreases offsets.len() - i,
    {
        if branch_out(position, offsets[i], len) {
            return Some(Err(CodeVerificationError::BranchLocOutOfBounds));
        }
        i = i + 1;
    }
    Some(Ok(()))
}

/// [`check_lookup_pairs`] from the first pair, computed.
fn check_lookup(pairs: &Vec<(i32, i32)>, position: usize, len: usize) -> (r: Option<Result<(), CodeVerificationError>>)
    ensures
        outcome_of(r) == check_lookup_pairs(pairs@, i32::MIN, position, len as nat, 0),
{
    let mut last: i32 = i32::MIN;
    let mut i: usize = 0;
    while i < pairs.len()
        invariant
            i <= pairs.len(),
            check_lookup_pairs(pairs@, i32::MIN, position, len as nat, 0)
                == check_lookup_pairs(pairs@, last, position, len as nat, i as nat),
        decreases pairs.len() - i,
    {
        let (v, offset) = pairs[i];
        if last > v {
            return Some(Err(CodeVerificationError::LookupSwitchBadSort));
        }
        last = v;
        if branch_out(position, offset, len) {
            return Some(Err(CodeVerificationError::BranchLocOutOfBounds));
        }
        i = i + 1;
    }
    Some(Ok(()))
}

/// [`check_default`], computed.
fn check_switch_default(default: i32, position: usize, len: usize) -> (r: Option<Result<(), CodeVerificationError>>)
    ensures
        outcome_of(r) == check_default(default, position, len as nat),
{
    if branch_out(position, default, len) {
        Some(Err(CodeVerificationError::BranchLocOutOfBounds))
    } else {
        Some(Ok(()))
    }
}

/// [`branch16`], computed.
fn branch16_of(inst: &VMOpcode) -> (r: Option<i16>)
    ensures
        r == branch16(inst@),
{
    match inst {
        VMOpcode::goto(v) | VMOpcode::ifeq(v) | VMOpcode::ifne(v) | VMOpcode::ifle(v) | VMOpcode::iflt(v)
        | VMOpcode::ifge(v) | VMOpcode::ifgt(v) | VMOpcode::ifnull(v) | VMOpcode::ifnonnull(v)
        | VMOpcode::if_icmpeq(v) | VMOpcode::if_icmpne(v) | VMOpcode::if_icmple(v) | VMOpcode::if_icmplt(v)
        | VMOpcode::if_icmpge(v) | VMOpcode::if_icmpgt(v) | VMOpcode::if_acmpeq(v)
        | VMOpcode::if_acmpne(v) => Some(*v),
        _ => None,
    }
}

/// [`local_slot`], computed.
fn local_slot_of(op: &VMOpcode) -> (r: Option<(u16, u16)>)
    ensures
        match local_slot(op@) {
            Some((i, w)) => r == Some((i as u16, w as u16)),
            None => r is None,
        },
{
    match op {
        VMOpcode::iload(v) | VMOpcode::fload(v) | VMOpcode::aload(v) | VMOpcode::istore(v) | VMOpcode::fstore(v) | VMOpcode::astore(v) | VMOpcode::ret(v) => Some((*v as u16, 1u16)),
        VMOpcode::iinc(v, _) => Some((*v as u16, 1u16)),
        VMOpcode::lload(v) | VMOpcode::dload(v) | VMOpcode::lstore(v) | VMOpcode::dstore(v) => Some((*v as u16, 2u16)),
        VMOpcode::iload_0() | VMOpcode::fload_0() | VMOpcode::aload_0() | VMOpcode::istore_0() | VMOpcode::fstore_0() | VMOpcode::astore_0() => Some((0u16, 1u16)),
        VMOpcode::lload_0() | VMOpcode::dload_0() | VMOpcode::lstore_0() | VMOpcode::dstore_0() => Some((0u16, 2u16)),
        VMOpcode::iload_1() | VMOpcode::fload_1() | VMOpcode::aload_1() | VMOpcode::istore_1() | VMOpcode::fstore_1() | VMOpcode::astore_1() => Some((1u16, 1u16)),
        VMOpcode::lload_1() | VMOpcode::dload_1() | VMOpcode::lstore_1() | VMOpcode::dstore_1() => Some((1u16, 2u16)),
        VMOpcode::iload_2() | VMOpcode::fload_2() | VMOpcode::aload_2() | VMOpcode::istore_2() | VMOpcode::fstore_2() | VMOpcode::astore_2() => Some((2u16, 1u16)),
        VMOpcode::lload_2() | VMOpcode::dload_2() | VMOpcode::lstore_2() | VMOpcode::dstore_2() => Some((2u16, 2u16)),
        VMOpcode::iload_3() | VMOpcode::fload_3() | VMOpcode::aload_3() | VMOpcode::istore_3() | VMOpcode::fstore_3() | VMOpcode::astore_3() => Some((3u16, 1u16)),
        VMOpcode::lload_3() | VMOpcode::dload_3() | VMOpcode::lstore_3() | VMOpcode::dstore_3() => Some((3u16, 2u16)),
        _ => None,
    }
}

/// [`check_local`], computed.
fn check_local_exec(index: u16, width: u16, max_locals: usize) -> (r: Option<Result<(), CodeVerificationError>>)
    ensures
        outcome_of(r) == check_local(index as nat, width as nat, max_locals),
{
    if index as usize + width as usize > max_locals {
        Some(Err(CodeVerificationError::LocalIndexOutOfRange))
    } else {
        Some(Ok(()))
    }
}

/// [`wide_ok`], computed.
fn wide_op_ok(op: &VMOpcode) -> (r: bool)
    ensures
        r == wide_ok(op@),
{
    match op {
        VMOpcode::iload(_) | VMOpcode::fload(_) | VMOpcode::aload(_) | VMOpcode::lload(_) | VMOpcode::dload(_)
        | VMOpcode::istore(_) | VMOpcode::fstore(_) | VMOpcode::astore(_) | VMOpcode::lstore(_)
        | VMOpcode::dstore(_) | VMOpcode::ret(_) => true,
        _ => false,
    }
}

impl InstructionList {
    /// The check of the instruction `inst` at `position` (see
    /// [`spec_verify_inst`]): `None` where it would stop the program.
    #[verifier::rlimit(60)]
    fn static_verify_inst(&self, file: &ClassFile, inst: &VMOpcode, position: usize, max_locals: usize) -> (r: Option<Result<(), CodeVerificationError>>)
        ensures
            outcome_of(r) == spec_verify_inst(file@.constant_pool, self@.opcodes.len(), inst@, position, max_locals),
    {
        proof {
            reveal(spec_verify_inst);
        }
        if max_locals == 0 {
            return Some(Err(CodeVerificationError::ClassFileError(ClassFileError::ArithmeticError)));
        }
        let len = self.opcodes.len();
        let pool = &file.constant_pool;
        if let Some(v) = branch16_of(inst) {
            return if branch16_out(position, v, len) {
                Some(Err(CodeVerificationError::BranchLocOutOfBounds))
            } else {
                Some(Ok(()))
            };
        }
        match inst {
            VMOpcode::goto_w(v) => if branch32_out(position, *v, len) {
                Some(Err(CodeVerificationError::BranchLocOutOfBounds))
            } else {
                Some(Ok(()))
            },
            VMOpcode::tableswitch(default, low, high, offsets) => match check_switch_default(*default, position, len) {
                Some(Ok(())) => if *low > *high {
                    Some(Err(CodeVerificationError::TableSwitchLowGtHigh))
                } else {
                    check_table(offsets, position, len)
                },
                other => other,
            },
            VMOpcode::wide_format1(op, index) => if wide_op_ok(op) {
                match local_slot_of(op) {
                    Some((_, w)) => check_local_exec(*index, w, max_locals),
                    None => Some(Ok(())),
                }
            } else {
                Some(Err(CodeVerificationError::BadWideOp))
            },
            VMOpcode::wide_format2(_, index, _) => check_local_exec(*index, 1, max_locals),
            VMOpcode::lookupswitch(default, pairs) => match check_switch_default(*default, position, len) {
                Some(Ok(())) => check_lookup(pairs, position, len),
                other => other,
            },
            VMOpcode::ldc(v) => check_pool(pool, widen_index(*v), EntryKind::Loadable),
            VMOpcode::ldc_w(v) => check_pool(pool, *v, EntryKind::Loadable),
            VMOpcode::ldc2_w(v) => check_pool(pool, *v, EntryKind::Wide),
            VMOpcode::getfield(v) | VMOpcode::putfield(v) | VMOpcode::getstatic(v) | VMOpcode::putstatic(v) =>
                check_pool(pool, *v, EntryKind::Field),
            VMOpcode::invokevirtual(v) => match check_pool(pool, *v, EntryKind::Method) {
                Some(Ok(())) => check_invoke_exec(pool, *v, false),
                other => other,
            },
            VMOpcode::invokespecial(v) => match check_pool(pool, *v, EntryKind::AnyMethod) {
                Some(Ok(())) => check_invoke_exec(pool, *v, true),
                other => other,
            },
            VMOpcode::invokestatic(v) => match check_pool(pool, *v, EntryKind::AnyMethod) {
                Some(Ok(())) => check_invoke_exec(pool, *v, false),
                other => other,
            },
            VMOpcode::invokeinterface(index, count, zero) => match check_pool(pool, *index, EntryKind::InterfaceMethod) {
                Some(Ok(())) => if *zero != 0 {
                    Some(Err(CodeVerificationError::InvokeInterfaceNotZero))
                } else {
                    check_invoke_interface_exec(pool, *index, *count)
                },
                other => other,
            },
            VMOpcode::instanceof(v) | VMOpcode::checkcast(v) => check_pool(pool, *v, EntryKind::Class),
            VMOpcode::new(v) => match check_pool(pool, *v, EntryKind::Class) {
                Some(Ok(())) => check_class(pool, *v, true),
                other => other,
            },
            VMOpcode::anewarray(v) => match check_pool(pool, *v, EntryKind::Class) {
                Some(Ok(())) => check_class(pool, *v, false),
                other => other,
            },
            VMOpcode::multianewarray(v, dimensions) => match check_pool(pool, *v, EntryKind::Class) {
                Some(Ok(())) => if *dimensions == 0 {
                    Some(Err(CodeVerificationError::BadMultiANewArray))
                } else {
                    Some(Ok(()))
                },
                other => other,
            },
            _ => match local_slot_of(inst) {
                Some((i, w)) => check_local_exec(i, w, max_locals),
                None => Some(Ok(())),
            },
        }
    }
}

impl InstructionList {
    /// The check of the whole list (see [`spec_verify_code`]), `None` where
    /// an instruction's check would stop the program.
    fn verify_all(&self, file: &ClassFile, max_locals: usize) -> (r: Option<Result<(), CodeVerificationError>>)
        ensures
            outcome_of(r) == spec_verify_code(file@.constant_pool, self@.opcodes, max_locals, self@.opcodes.len()),
    {
        let ghost pool = file@.constant_pool;
        let ghost list = self@.opcodes;
        let mut i: usize = 0;
        while i < self.opcodes.len()
            invariant
                i <= self.opcodes.len(),
                list == self@.opcodes,
                pool == file@.constant_pool,
                spec_verify_code(pool, list, max_locals, i as nat) == Some(Ok::<(), CodeVerificationErrorV>(())),
            decreases self.opcodes.len() - i,
        {
            let r = self.static_verify_inst(file, &self.opcodes[i], i, max_locals);
            assert(spec_verify_code(pool, list, max_locals, (i + 1) as nat) == outcome_of(r));
            match r {
                Some(Ok(())) => {},
                other => {
                    proof {
                        lemma_verify_code_stops(pool, list, max_locals, (i + 1) as nat, list.len());
                    }
                    return other;
                },
            }
            i = i + 1;
        }
        Some(Ok(()))
    }

    /// Verify code against those static constraints of the Java SE 8
    /// Specification, section 4.9.1, that a list of instructions can be
    /// checked for: branch and switch targets (relative to the instruction,
    /// and within the list), constant pool references and their kinds, the
    /// names of invoked methods, and local variable indices. The first
    /// instruction that fails its check decides the error.
    pub fn static_verify(&self, file: &ClassFile, max_locals: usize) -> (r: Result<(), CodeVerificationError>)
        requires
            spec_verify_code(file@.constant_pool, self@.opcodes, max_locals, self@.opcodes.len()) is Some,
        ensures
            Some(match r {
                Ok(()) => Ok(()),
                Err(e) => Err(e@),
            }) == spec_verify_code(file@.constant_pool, self@.opcodes, max_locals, self@.opcodes.len()),
    {
        match self.verify_all(file, max_locals) {
            Some(r) => r,
            None => vstd::pervasive::unreached(),
        }
    }

    /// Whether [`InstructionList::static_verify`] can run on these arguments:
    /// no instruction's check, up to the first that fails, would stop the
    /// program.
    pub fn static_verify_checkable(&self, file: &ClassFile, max_locals: usize) -> (r: bool)
        ensures
            r == (spec_verify_code(file@.constant_pool, self@.opcodes, max_locals, self@.opcodes.len()) is Some),
    {
        self.verify_all(file, max_locals).is_some()
    }
}

} // verus!
