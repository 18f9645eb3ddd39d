//! The instructions of the Java virtual machine and their encoding.
#![allow(non_camel_case_types)]
use vstd::prelude::*;
use crate::stream::{be16, be32};
use crate::item::opcodes::{ArrayTypeCode, array_type_code_of, array_type_code_from, is_array_type_code};

verus! {

/// A Java virtual machine instruction with its operands.
#[derive(Debug)]
pub enum VMOpcode {
    /// Access jump table by key match and jump.
    ///
    /// Format: `lookupswitch <0-3 byte pad> defaultbyte1 defaultbyte2 defaultbyte3 defaultbyte4 npairs1 npairs2 npairs3 npairs4 match-offset pairs...`
    lookupswitch(i32, Vec<(i32, i32)>),
    /// Access jump table by index and jump.
    ///
    /// Format: `tableswitch <0-3 byte pad> defaultbyte1 defaultbyte2 defaultbyte3 defaultbyte4 lowbyte1 lowbyte2 lowbyte3 lowbyte4 highbyte1 highbyte2 highbyte3 highbyte4 jump offsets...`
    tableswitch(i32, i32, i32, Vec<i32>),
    /// Extend local variable index by additional bytes.
    ///
    /// Format: `wide <opcode> indexbyte1 indexbyte2`
    wide_format1(Box<VMOpcode>, u16),
    /// Extend local variable index by additional bytes.
    ///
    /// Format: `wide iinc indexbyte1 indexbyte2 constbyte1 constbyte2`
    wide_format2(Box<VMOpcode>, u16, u16),
    /// Load `reference` from array.
    ///
    /// Format: `aaload`
    aaload(),
    /// Store into `reference` array.
    ///
    /// Format: `aastore`
    aastore(),
    /// Push `null`.
    ///
    /// Format: `aconst_null`
    aconst_null(),
    /// Load `reference` from local variable.
    ///
    /// Format: `aload index`
    aload(u8),
    /// Load `reference` from local variable.
    ///
    /// Format: `aload_<n>`
    aload_0(),
    /// Load `reference` from local variable.
    ///
    /// Format: `aload_<n>`
    aload_1(),
    /// Load `reference` from local variable.
    ///
    /// Format: `aload_<n>`
    aload_2(),
    /// Load `reference` from local variable.
    ///
    /// Format: `aload_<n>`
    aload_3(),
    /// Create new array of `reference`.
    ///
    /// Format: `anewarray indexbyte1 indexbyte2`
    anewarray(u16),
    /// Return `reference` from method.
    ///
    /// Format: `areturn`
    areturn(),
    /// Get length of array.
    ///
    /// Format: `arraylength`
    arraylength(),
    /// Store `reference` into local variable.
    ///
    /// Format: `astore index`
    astore(u8),
    /// Store `reference` into local variable.
    ///
    /// Format: `astore_<n>`
    astore_0(),
    /// Store `reference` into local variable.
    ///
    /// Format: `astore_<n>`
    astore_1(),
    /// Store `reference` into local variable.
    ///
    /// Format: `astore_<n>`
    astore_2(),
    /// Store `reference` into local variable.
    ///
    /// Format: `astore_<n>`
    astore_3(),
    /// Throw exception or error.
    ///
    /// Format: `athrow`
    athrow(),
    /// Load `byte` or `boolean` from array.
    ///
    /// Format: `baload`
    baload(),
    /// Store into `byte` or `boolean` array.
    ///
    /// Format: `bastore`
    bastore(),
    /// Push `byte`.
    ///
    /// Format: `bipush byte`
    bipush(u8),
    /// Load `char` from array.
    ///
    /// Format: `caload`
    caload(),
    /// Store into `char` array.
    ///
    /// Format: `castore`
    castore(),
    /// Check whether object is of given type.
    ///
    /// Format: `checkcast indexbyte1 indexbyte2`
    checkcast(u16),
    /// Convert `double` to `float`.
    ///
    /// Format: `d2f`
    d2f(),
    /// Convert `double` to `int`.
    ///
    /// Format: `d2i`
    d2i(),
    /// Convert `double` to `long`.
    ///
    /// Format: `d2l`
    d2l(),
    /// Add `double`.
    ///
    /// Format: `dadd`
    dadd(),
    /// Load `double` from array.
    ///
    /// Format: `daload`
    daload(),
    /// Store into `double` array.
    ///
    /// Format: `dastore`
    dastore(),
    /// Compare `double`.
    ///
    /// Format: `dcmp<op>`
    dcmpg(),
    /// Compare `double`.
    ///
    /// Format: `dcmp<op>`
    dcmpl(),
    /// Push `double`.
    ///
    /// Format: `dconst_<d>`
    dconst_0(),
    /// Push `double`.
    ///
    /// Format: `dconst_<d>`
    dconst_1(),
    /// Divide `double`.
    ///
    /// Format: `ddiv`
    ddiv(),
    /// Load `double` from local variable.
    ///
    /// Format: `dload`
    dload(u8),
    /// Load `double` from local variable.
    ///
    /// Format: `dload_<n>`
    dload_0(),
    /// Load `double` from local variable.
    ///
    /// Format: `dload_<n>`
    dload_1(),
    /// Load `double` from local variable.
    ///
    /// Format: `dload_<n>`
    dload_2(),
    /// Load `double` from local variable.
    ///
    /// Format: `dload_<n>`
    dload_3(),
    /// Multiply `double`.
    ///
    /// Format: `dmul`
    dmul(),
    /// Negate `double`.
    ///
    /// Format: `dneg`
    dneg(),
    /// Remainder `double`.
    ///
    /// Format: `drem`
    drem(),
    /// Return `double` from method.
    ///
    /// Format: `dreturn`
    dreturn(),
    /// Store `double` into local variable.
    ///
    /// Format: `dstore index`
    dstore(u8),
    /// Store `double` into local variable.
    ///
    /// Format: `dstore_<n>`
    dstore_0(),
    /// Store `double` into local variable.
    ///
    /// Format: `dstore_<n>`
    dstore_1(),
    /// Store `double` into local variable.
    ///
    /// Format: `dstore_<n>`
    dstore_2(),
    /// Store `double` into local variable.
    ///
    /// Format: `dstore_<n>`
    dstore_3(),
    /// Subtract `double`.
    ///
    /// Format: `dsub`
    dsub(),
    /// Duplicate the top operand stack value.
    ///
    /// Format: `dup`
    dup(),
    /// Duplicate the top operand stack value and insert two values down.
    ///
    /// Format: `dup_x1`
    dup_x1(),
    /// Duplicate the top operand stack value and insert two or three values down.
    ///
    /// Format: `dup_x2`
    dup_x2(),
    /// Duplicate the top one or two operand stack values.
    ///
    /// Format: `dup2`
    dup2(),
    /// Duplicate the top one or two operand stack values and insert two or three values down.
    ///
    /// Format: `dup2_x1`
    dup2_x1(),
    /// Duplicate the top one or two operand stack values and insert two, three, or four values down.
    ///
    /// Format: `dup2_x2`
    dup2_x2(),
    /// Convert `float` to `double`.
    ///
    /// Format: `f2d`
    f2d(),
    /// Convert `float` to `int`.
    ///
    /// Format: `f2i`
    f2i(),
    /// Convert `float` to `long`.
    ///
    /// Format: `f2l`
    f2l(),
    /// Add `float`.
    ///
    /// Format: `fadd`
    fadd(),
    /// Load `float` from array.
    ///
    /// Format: `faload`
    faload(),
    /// Store into `float` array.
    ///
    /// Format: `fastore`
    fastore(),
    /// Compare `float`.
    ///
    /// Format: `fcmp<op>`
    fcmpg(),
    /// Compare `float`.
    ///
    /// Format: `fcmp<op>`
    fcmpl(),
    /// Push `float`.
    ///
    /// Format: `fconst_<f>`
    fconst_0(),
    /// Push `float`.
    ///
    /// Format: `fconst_<f>`
    fconst_1(),
    /// Push `float`.
    ///
    /// Format: `fconst_<f>`
    fconst_2(),
    /// Divide `float`.
    ///
    /// Format: `fdiv`
    fdiv(),
    /// Load `float` from local variable.
    ///
    /// Format: `fload index`
    fload(u8),
    /// Load `float` from local variable.
    ///
    /// Format: `fload_<n>`
    fload_0(),
    /// Load `float` from local variable.
    ///
    /// Format: `fload_<n>`
    fload_1(),
    /// Load `float` from local variable.
    ///
    /// Format: `fload_<n>`
    fload_2(),
    /// Load `float` from local variable.
    ///
    /// Format: `fload_<n>`
    fload_3(),
    /// Multiply `float`.
    ///
    /// Format: `fmul`
    fmul(),
    /// Negate `float`.
    ///
    /// Format: `fneg`
    fneg(),
    /// Remainder `float`.
    ///
    /// Format: `frem`
    frem(),
    /// Return `float` from method.
    ///
    /// Format: `freturn`
    freturn(),
    /// Store `float` into local variable.
    ///
    /// Format: `fstore index`
    fstore(u8),
    /// Store `float` into local variable.
    ///
    /// Format: `fstore_<n>`
    fstore_0(),
    /// Store `float` into local variable.
    ///
    /// Format: `fstore_<n>`
    fstore_1(),
    /// Store `float` into local variable.
    ///
    /// Format: `fstore_<n>`
    fstore_2(),
    /// Store `float` into local variable.
    ///
    /// Format: `fstore_<n>`
    fstore_3(),
    /// Subtract `float`.
    ///
    /// Format: `fsub`
    fsub(),
    /// Fetch field from object.
    ///
    /// Format: `getfield indexbyte1 indexbyte2`
    getfield(u16),
    /// Get `static` field from class.
    ///
    /// Format: `getstatic indexbyte1 indexbyte2`
    getstatic(u16),
    /// Branch always.
    ///
    /// Format: `goto branchbyte1 branchbyte2`
    goto(i16),
    /// Branch always (wide index).
    ///
    /// Format: `goto branchbyte1 branchbyte2 branchbyte3 branchbyte4`
    goto_w(u32),
    /// Convert `int` to `byte`.
    ///
    /// Format: `i2b`
    i2b(),
    /// Convert `int` to `char`.
    ///
    /// Format: `i2c`
    i2c(),
    /// Convert `int` to `double`.
    ///
    /// Format: `i2d`
    i2d(),
    /// Convert `int` to `float`.
    ///
    /// Format: `i2f`
    i2f(),
    /// Convert `int` to `long`.
    ///
    /// Format: `i2l`
    i2l(),
    /// Convert `int` to `short`.
    ///
    /// Format: `i2s`
    i2s(),
    /// Add `int`.
    ///
    /// Format: `iadd`
    iadd(),
    /// Load `int` from array.
    ///
    /// Format: `iaload`
    iaload(),
    /// Boolean AND `int`.
    ///
    /// Format: `iand`
    iand(),
    /// Store into `int` array.
    ///
    /// Format: `iastore`
    iastore(),
    /// Push `int` constant.
    ///
    /// Format: `iconst_<i>`
    iconst_m1(),
    /// Push `int` constant.
    ///
    /// Format: `iconst_<i>`
    iconst_0(),
    /// Push `int` constant.
    ///
    /// Format: `iconst_<i>`
    iconst_1(),
    /// Push `int` constant.
    ///
    /// Format: `iconst_<i>`
    iconst_2(),
    /// Push `int` constant.
    ///
    /// Format: `iconst_<i>`
    iconst_3(),
    /// Push `int` constant.
    ///
    /// Format: `iconst_<i>`
    iconst_4(),
    /// Push `int` constant.
    ///
    /// Format: `iconst_<i>`
    iconst_5(),
    /// Divide `int`.
    ///
    /// Format: `idiv`
    idiv(),
    /// Branch if `reference` comparison succeeds.
    ///
    /// Format: `if_acmp<cond> branchbyte1 branchbyte2`
    if_acmpeq(i16),
    /// Branch if `reference` comparison succeeds.
    ///
    /// Format: `if_acmp<cond> branchbyte1 branchbyte2`
    if_acmpne(i16),
    /// Branch if `int` comparison succeeds.
    ///
    /// Format: `if_icmp<cond> branchbyte1 branchbyte2`
    if_icmpeq(i16),
    /// Branch if `int` comparison succeeds.
    ///
    /// Format: `if_icmp<cond> branchbyte1 branchbyte2`
    if_icmpne(i16),
    /// Branch if `int` comparison succeeds.
    ///
    /// Format: `if_icmp<cond> branchbyte1 branchbyte2`
    if_icmplt(i16),
    /// Branch if `int` comparison succeeds.
    ///
    /// Format: `if_icmp<cond> branchbyte1 branchbyte2`
    if_icmpge(i16),
    /// Branch if `int` comparison succeeds.
    ///
    /// Format: `if_icmp<cond> branchbyte1 branchbyte2`
    if_icmpgt(i16),
    /// Branch if `int` comparison succeeds.
    ///
    /// Format: `if_icmp<cond> branchbyte1 branchbyte2`
    if_icmple(i16),
    /// Branch if `int` comparison with zero succeeds.
    ///
    /// Format: `if<cond> branchbyte1 branchbyte2`
    ifeq(i16),
    /// Branch if `int` comparison with zero succeeds.
    ///
    /// Format: `if<cond> branchbyte1 branchbyte2`
    ifne(i16),
    /// Branch if `int` comparison with zero succeeds.
    ///
    /// Format: `if<cond> branchbyte1 branchbyte2`
    iflt(i16),
    /// Branch if `int` comparison with zero succeeds.
    ///
    /// Format: `if<cond> branchbyte1 branchbyte2`
    ifge(i16),
    /// Branch if `int` comparison with zero succeeds.
    ///
    /// Format: `if<cond> branchbyte1 branchbyte2`
    ifgt(i16),
    /// Branch if `int` comparison with zero succeeds.
    ///
    /// Format: `if<cond> branchbyte1 branchbyte2`
    ifle(i16),
    /// Branch if `reference` not `null`.
    ///
    /// Format: `ifnonnull branchbyte1 branchbyte2`
    ifnonnull(i16),
    /// Branch if `reference` is `null`.
    ///
    /// Format: `ifnull branchbyte1 branchbyte2`
    ifnull(i16),
    /// Increment local variable by constant.
    ///
    /// Format: `iinc index const`
    iinc(u8, u8),
    /// Load `int` from local variable.
    ///
    /// Format: `iload index`
    iload(u8),
    /// Load `int` from local variable.
    ///
    /// Format: `iload_<n>`
    iload_0(),
    /// Load `int` from local variable.
    ///
    /// Format: `iload_<n>`
    iload_1(),
    /// Load `int` from local variable.
    ///
    /// Format: `iload_<n>`
    iload_2(),
    /// Load `int` from local variable.
    ///
    /// Format: `iload_<n>`
    iload_3(),
    /// Multiply `int`.
    ///
    /// Format: `imul`
    imul(),
    /// Negate `int`.
    ///
    /// Format: `ineg`
    ineg(),
    /// Determine if object is of given type.
    ///
    /// Format: `instanceof indexbyte1 indexbyte2`
    instanceof(u16),
    /// Invoke dynamic method.
    ///
    /// Format: `invokedynamic indexbyte1 indexbyte2 0 0`
    invokedynamic(u16, u16),
    /// Invoke interface method.
    ///
    /// Format: `invokeinterface indexbyte1 indexbyte2 count 0`
    invokeinterface(u16, u8, u8),
    /// Invoke instance method; special handling for superclass, private, and instance initialization method invocations.
    ///
    /// Format: `invokespecial indexbyte1 indexbyte2`
    invokespecial(u16),
    /// Invoke a class (`static`) method.
    ///
    /// Format: `invokestatic indexbyte1 indexbyte2`
    invokestatic(u16),
    /// Invoke instance method; dispatch based on class.
    ///
    /// Format: `invokevirtual indexbyte1 indexbyte2`
    invokevirtual(u16),
    /// Boolean OR `int`.
    ///
    /// Format: `ior`
    ior(),
    /// Remainder `int`.
    ///
    /// Format: `irem`
    irem(),
    /// Return `int` from method.
    ///
    /// Format: `ireturn`
    ireturn(),
    /// Shift left `int`.
    ///
    /// Format: `ishl`
    ishl(),
    /// Arithmetic shift right `int`.
    ///
    /// Format: `ishr`
    ishr(),
    /// Store `int` into local variable.
    ///
    /// Format: `istore index`
    istore(u8),
    /// Store `int` into local variable.
    ///
    /// Format: `istore_<n>`
    istore_0(),
    /// Store `int` into local variable.
    ///
    /// Format: `istore_<n>`
    istore_1(),
    /// Store `int` into local variable.
    ///
    /// Format: `istore_<n>`
    istore_2(),
    /// Store `int` into local variable.
    ///
    /// Format: `istore_<n>`
    istore_3(),
    /// Subtract `int`.
    ///
    /// Format: `isub`
    isub(),
    /// Logical shift right `int`.
    ///
    /// Format: `iushr`
    iushr(),
    /// Boolean XOR `int`.
    ///
    /// Format: `ixor`
    ixor(),
    /// Convert `long` to `double`.
    ///
    /// Format: `l2d`
    l2d(),
    /// Convert `long` to `float`.
    ///
    /// Format: `l2f`
    l2f(),
    /// Convert `long` to `int`.
    ///
    /// Format: `l2i`
    l2i(),
    /// Add `long`.
    ///
    /// Format: `ladd`
    ladd(),
    /// Load `long` from array.
    ///
    /// Format: `laload`
    laload(),
    /// Boolean AND `long`.
    ///
    /// Format: `land`
    land(),
    /// Store into `long` array.
    ///
    /// Format: `lastore`
    lastore(),
    /// Compare `long`.
    ///
    /// Format: `lcmp`
    lcmp(),
    /// Push `long` constant.
    ///
    /// Format: `lconst_<l>`
    lconst_0(),
    /// Push `long` constant.
    ///
    /// Format: `lconst_<l>`
    lconst_1(),
    /// Push item from run-time constant pool.
    ///
    /// Format: `ldc index`
    ldc(u8),
    /// Push item from run-time constant pool (wide index).
    ///
    /// Format: `ldc_w indexbyte1 indexbyte2`
    ldc_w(u16),
    /// Push `long` or `double` from run-time constant pool (wide index).
    ///
    /// Format: `ldc2_w indexbyte1 indexbyte2`
    ldc2_w(u16),
    /// Divide `long`.
    ///
    /// Format: `ldiv`
    ldiv(),
    /// Load `long` from local variable.
    ///
    /// Format: `lload index`
    lload(u8),
    /// Load `long` from local variable.
    ///
    /// Format: `lload_<n>`
    lload_0(),
    /// Load `long` from local variable.
    ///
    /// Format: `lload_<n>`
    lload_1(),
    /// Load `long` from local variable.
    ///
    /// Format: `lload_<n>`
    lload_2(),
    /// Load `long` from local variable.
    ///
    /// Format: `lload_<n>`
    lload_3(),
    /// Multiply `long`.
    ///
    /// Format: `lmul`
    lmul(),
    /// Negate `long`.
    ///
    /// Format: `lneg`
    lneg(),
    /// Boolean OR `long`.
    ///
    /// Format: `lor`
    lor(),
    /// Remainder `long`.
    ///
    /// Format: `lrem`
    lrem(),
    /// Return `long` from method.
    ///
    /// Format: `lreturn`
    lreturn(),
    /// Shift left `long`.
    ///
    /// Format: `lshl`
    lshl(),
    /// Arithmetic shift right `long`.
    ///
    /// Format: `lshr`
    lshr(),
    /// Store `long` into local variable.
    ///
    /// Format: `lstore`
    lstore(u8),
    /// Store `long` into local variable.
    ///
    /// Format: `lstore_<n>`
    lstore_0(),
    /// Store `long` into local variable.
    ///
    /// Format: `lstore_<n>`
    lstore_1(),
    /// Store `long` into local variable.
    ///
    /// Format: `lstore_<n>`
    lstore_2(),
    /// Store `long` into local variable.
    ///
    /// Format: `lstore_<n>`
    lstore_3(),
    /// Subtract `long`.
    ///
    /// Format: `lsub`
    lsub(),
    /// Logical shift right `long`.
    ///
    /// Format: `lushr`
    lushr(),
    /// Boolean XOR `long`.
    ///
    /// Format: `lxor`
    lxor(),
    /// Enter monitor for object.
    ///
    /// Format: `monitorenter`
    monitorenter(),
    /// Exit monitor for object.
    ///
    /// Format: `monitorexit`
    monitorexit(),
    /// Create new multidimensional array.
    ///
    /// Format: `multianewarray indexbyte1 indexbyte2 dimensions`
    multianewarray(u16, u8),
    /// Create new object.
    ///
    /// Format: `new indexbyte1 indexbyte2`
    new(u16),
    /// Create new array.
    ///
    /// Format: `newarray atype`
    newarray(ArrayTypeCode),
    /// Do nothing.
    ///
    /// Format: `nop`
    nop(),
    /// Pop the top operand stack value.
    ///
    /// Format: `pop`
    pop(),
    /// Pop the top one or two operand stack values.
    ///
    /// Format: `pop2`
    pop2(),
    /// Set field in object.
    ///
    /// Format: `putfield indexbyte1 indexbyte2`
    putfield(u16),
    /// Set static field in class.
    ///
    /// Format: `putstatic indexbyte1 indexbyte2`
    putstatic(u16),
    /// Return from subroutine.
    ///
    /// Format: `ret index`
    ret(u8),
    /// Return `void` from method.
    ///
    /// Format: `return`
    return_(),
    /// Load `short` from array.
    ///
    /// Format: `saload`
    saload(),
    /// Store into `short` array.
    ///
    /// Format: `sastore`
    sastore(),
    /// Push `short`.
    ///
    /// Format: `sipush byte1 byte2`
    sipush(u16),
    /// Swap the top two operand stack values.
    ///
    /// Format: `swap`
    swap(),
}

/// Mathematical form of [`VMOpcode`]: the same instructions, with
/// sequences in place of vectors.
pub enum VMOpcodeV {
    lookupswitch(i32, Seq<(i32, i32)>),
    tableswitch(i32, i32, i32, Seq<i32>),
    wide_format1(Box<VMOpcodeV>, u16),
    wide_format2(Box<VMOpcodeV>, u16, u16),
    aaload(),
    aastore(),
    aconst_null(),
    aload(u8),
    aload_0(),
    aload_1(),
    aload_2(),
    aload_3(),
    anewarray(u16),
    areturn(),
    arraylength(),
    astore(u8),
    astore_0(),
    astore_1(),
    astore_2(),
    astore_3(),
    athrow(),
    baload(),
    bastore(),
    bipush(u8),
    caload(),
    castore(),
    checkcast(u16),
    d2f(),
    d2i(),
    d2l(),
    dadd(),
    daload(),
    dastore(),
    dcmpg(),
    dcmpl(),
    dconst_0(),
    dconst_1(),
    ddiv(),
    dload(u8),
    dload_0(),
    dload_1(),
    dload_2(),
    dload_3(),
    dmul(),
    dneg(),
    drem(),
    dreturn(),
    dstore(u8),
    dstore_0(),
    dstore_1(),
    dstore_2(),
    dstore_3(),
    dsub(),
    dup(),
    dup_x1(),
    dup_x2(),
    dup2(),
    dup2_x1(),
    dup2_x2(),
    f2d(),
    f2i(),
    f2l(),
    fadd(),
    faload(),
    fastore(),
    fcmpg(),
    fcmpl(),
    fconst_0(),
    fconst_1(),
    fconst_2(),
    fdiv(),
    fload(u8),
    fload_0(),
    fload_1(),
    fload_2(),
    fload_3(),
    fmul(),
    fneg(),
    frem(),
    freturn(),
    fstore(u8),
    fstore_0(),
    fstore_1(),
    fstore_2(),
    fstore_3(),
    fsub(),
    getfield(u16),
    getstatic(u16),
    goto(i16),
    goto_w(u32),
    i2b(),
    i2c(),
    i2d(),
    i2f(),
    i2l(),
    i2s(),
    iadd(),
    iaload(),
    iand(),
    iastore(),
    iconst_m1(),
    iconst_0(),
    iconst_1(),
    iconst_2(),
    iconst_3(),
    iconst_4(),
    iconst_5(),
    idiv(),
    if_acmpeq(i16),
    if_acmpne(i16),
    if_icmpeq(i16),
    if_icmpne(i16),
    if_icmplt(i16),
    if_icmpge(i16),
    if_icmpgt(i16),
    if_icmple(i16),
    ifeq(i16),
    ifne(i16),
    iflt(i16),
    ifge(i16),
    ifgt(i16),
    ifle(i16),
    ifnonnull(i16),
    ifnull(i16),
    iinc(u8, u8),
    iload(u8),
    iload_0(),
    iload_1(),
    iload_2(),
    iload_3(),
    imul(),
    ineg(),
    instanceof(u16),
    invokedynamic(u16, u16),
    invokeinterface(u16, u8, u8),
    invokespecial(u16),
    invokestatic(u16),
    invokevirtual(u16),
    ior(),
    irem(),
    ireturn(),
    ishl(),
    ishr(),
    istore(u8),
    istore_0(),
    istore_1(),
    istore_2(),
    istore_3(),
    isub(),
    iushr(),
    ixor(),
    l2d(),
    l2f(),
    l2i(),
    ladd(),
    laload(),
    land(),
    lastore(),
    lcmp(),
    lconst_0(),
    lconst_1(),
    ldc(u8),
    ldc_w(u16),
    ldc2_w(u16),
    ldiv(),
    lload(u8),
    lload_0(),
    lload_1(),
    lload_2(),
    lload_3(),
    lmul(),
    lneg(),
    lor(),
    lrem(),
    lreturn(),
    lshl(),
    lshr(),
    lstore(u8),
    lstore_0(),
    lstore_1(),
    lstore_2(),
    lstore_3(),
    lsub(),
    lushr(),
    lxor(),
    monitorenter(),
    monitorexit(),
    multianewarray(u16, u8),
    new(u16),
    newarray(ArrayTypeCode),
    nop(),
    pop(),
    pop2(),
    putfield(u16),
    putstatic(u16),
    ret(u8),
    return_(),
    saload(),
    sastore(),
    sipush(u16),
    swap(),
}

/// The mathematical form of an instruction.
pub open spec fn opcode_view(o: VMOpcode) -> VMOpcodeV
    decreases o,
{
    match o {
        VMOpcode::lookupswitch(d, p) => VMOpcodeV::lookupswitch(d, p@),
        VMOpcode::tableswitch(d, l, h, o) => VMOpcodeV::tableswitch(d, l, h, o@),
        VMOpcode::wide_format1(b, i) => VMOpcodeV::wide_format1(Box::new(opcode_view(*b)), i),
        VMOpcode::wide_format2(b, i, c) => VMOpcodeV::wide_format2(Box::new(opcode_view(*b)), i, c),
        VMOpcode::aaload() => VMOpcodeV::aaload(),
        VMOpcode::aastore() => VMOpcodeV::aastore(),
        VMOpcode::aconst_null() => VMOpcodeV::aconst_null(),
        VMOpcode::aload(a0) => VMOpcodeV::aload(a0),
        VMOpcode::aload_0() => VMOpcodeV::aload_0(),
        VMOpcode::aload_1() => VMOpcodeV::aload_1(),
        VMOpcode::aload_2() => VMOpcodeV::aload_2(),
        VMOpcode::aload_3() => VMOpcodeV::aload_3(),
        VMOpcode::anewarray(a0) => VMOpcodeV::anewarray(a0),
        VMOpcode::areturn() => VMOpcodeV::areturn(),
        VMOpcode::arraylength() => VMOpcodeV::arraylength(),
        VMOpcode::astore(a0) => VMOpcodeV::astore(a0),
        VMOpcode::astore_0() => VMOpcodeV::astore_0(),
        VMOpcode::astore_1() => VMOpcodeV::astore_1(),
        VMOpcode::astore_2() => VMOpcodeV::astore_2(),
        VMOpcode::astore_3() => VMOpcodeV::astore_3(),
        VMOpcode::athrow() => VMOpcodeV::athrow(),
        VMOpcode::baload() => VMOpcodeV::baload(),
        VMOpcode::bastore() => VMOpcodeV::bastore(),
        VMOpcode::bipush(a0) => VMOpcodeV::bipush(a0),
        VMOpcode::caload() => VMOpcodeV::caload(),
        VMOpcode::castore() => VMOpcodeV::castore(),
        VMOpcode::checkcast(a0) => VMOpcodeV::checkcast(a0),
        VMOpcode::d2f() => VMOpcodeV::d2f(),
        VMOpcode::d2i() => VMOpcodeV::d2i(),
        VMOpcode::d2l() => VMOpcodeV::d2l(),
        VMOpcode::dadd() => VMOpcodeV::dadd(),
        VMOpcode::daload() => VMOpcodeV::daload(),
        VMOpcode::dastore() => VMOpcodeV::dastore(),
        VMOpcode::dcmpg() => VMOpcodeV::dcmpg(),
        VMOpcode::dcmpl() => VMOpcodeV::dcmpl(),
        VMOpcode::dconst_0() => VMOpcodeV::dconst_0(),
        VMOpcode::dconst_1() => VMOpcodeV::dconst_1(),
        VMOpcode::ddiv() => VMOpcodeV::ddiv(),
        VMOpcode::dload(a0) => VMOpcodeV::dload(a0),
        VMOpcode::dload_0() => VMOpcodeV::dload_0(),
        VMOpcode::dload_1() => VMOpcodeV::dload_1(),
        VMOpcode::dload_2() => VMOpcodeV::dload_2(),
        VMOpcode::dload_3() => VMOpcodeV::dload_3(),
        VMOpcode::dmul() => VMOpcodeV::dmul(),
        VMOpcode::dneg() => VMOpcodeV::dneg(),
        VMOpcode::drem() => VMOpcodeV::drem(),
        VMOpcode::dreturn() => VMOpcodeV::dreturn(),
        VMOpcode::dstore(a0) => VMOpcodeV::dstore(a0),
        VMOpcode::dstore_0() => VMOpcodeV::dstore_0(),
        VMOpcode::dstore_1() => VMOpcodeV::dstore_1(),
        VMOpcode::dstore_2() => VMOpcodeV::dstore_2(),
        VMOpcode::dstore_3() => VMOpcodeV::dstore_3(),
        VMOpcode::dsub() => VMOpcodeV::dsub(),
        VMOpcode::dup() => VMOpcodeV::dup(),
        VMOpcode::dup_x1() => VMOpcodeV::dup_x1(),
        VMOpcode::dup_x2() => VMOpcodeV::dup_x2(),
        VMOpcode::dup2() => VMOpcodeV::dup2(),
        VMOpcode::dup2_x1() => VMOpcodeV::dup2_x1(),
        VMOpcode::dup2_x2() => VMOpcodeV::dup2_x2(),
        VMOpcode::f2d() => VMOpcodeV::f2d(),
        VMOpcode::f2i() => VMOpcodeV::f2i(),
        VMOpcode::f2l() => VMOpcodeV::f2l(),
        VMOpcode::fadd() => VMOpcodeV::fadd(),
        VMOpcode::faload() => VMOpcodeV::faload(),
        VMOpcode::fastore() => VMOpcodeV::fastore(),
        VMOpcode::fcmpg() => VMOpcodeV::fcmpg(),
        VMOpcode::fcmpl() => VMOpcodeV::fcmpl(),
        VMOpcode::fconst_0() => VMOpcodeV::fconst_0(),
        VMOpcode::fconst_1() => VMOpcodeV::fconst_1(),
        VMOpcode::fconst_2() => VMOpcodeV::fconst_2(),
        VMOpcode::fdiv() => VMOpcodeV::fdiv(),
        VMOpcode::fload(a0) => VMOpcodeV::fload(a0),
        VMOpcode::fload_0() => VMOpcodeV::fload_0(),
        VMOpcode::fload_1() => VMOpcodeV::fload_1(),
        VMOpcode::fload_2() => VMOpcodeV::fload_2(),
        VMOpcode::fload_3() => VMOpcodeV::fload_3(),
        VMOpcode::fmul() => VMOpcodeV::fmul(),
        VMOpcode::fneg() => VMOpcodeV::fneg(),
        VMOpcode::frem() => VMOpcodeV::frem(),
        VMOpcode::freturn() => VMOpcodeV::freturn(),
        VMOpcode::fstore(a0) => VMOpcodeV::fstore(a0),
        VMOpcode::fstore_0() => VMOpcodeV::fstore_0(),
        VMOpcode::fstore_1() => VMOpcodeV::fstore_1(),
        VMOpcode::fstore_2() => VMOpcodeV::fstore_2(),
        VMOpcode::fstore_3() => VMOpcodeV::fstore_3(),
        VMOpcode::fsub() => VMOpcodeV::fsub(),
        VMOpcode::getfield(a0) => VMOpcodeV::getfield(a0),
        VMOpcode::getstatic(a0) => VMOpcodeV::getstatic(a0),
        VMOpcode::goto(a0) => VMOpcodeV::goto(a0),
        VMOpcode::goto_w(a0) => VMOpcodeV::goto_w(a0),
        VMOpcode::i2b() => VMOpcodeV::i2b(),
        VMOpcode::i2c() => VMOpcodeV::i2c(),
        VMOpcode::i2d() => VMOpcodeV::i2d(),
        VMOpcode::i2f() => VMOpcodeV::i2f(),
        VMOpcode::i2l() => VMOpcodeV::i2l(),
        VMOpcode::i2s() => VMOpcodeV::i2s(),
        VMOpcode::iadd() => VMOpcodeV::iadd(),
        VMOpcode::iaload() => VMOpcodeV::iaload(),
        VMOpcode::iand() => VMOpcodeV::iand(),
        VMOpcode::iastore() => VMOpcodeV::iastore(),
        VMOpcode::iconst_m1() => VMOpcodeV::iconst_m1(),
        VMOpcode::iconst_0() => VMOpcodeV::iconst_0(),
        VMOpcode::iconst_1() => VMOpcodeV::iconst_1(),
        VMOpcode::iconst_2() => VMOpcodeV::iconst_2(),
        VMOpcode::iconst_3() => VMOpcodeV::iconst_3(),
        VMOpcode::iconst_4() => VMOpcodeV::iconst_4(),
        VMOpcode::iconst_5() => VMOpcodeV::iconst_5(),
        VMOpcode::idiv() => VMOpcodeV::idiv(),
        VMOpcode::if_acmpeq(a0) => VMOpcodeV::if_acmpeq(a0),
        VMOpcode::if_acmpne(a0) => VMOpcodeV::if_acmpne(a0),
        VMOpcode::if_icmpeq(a0) => VMOpcodeV::if_icmpeq(a0),
        VMOpcode::if_icmpne(a0) => VMOpcodeV::if_icmpne(a0),
        VMOpcode::if_icmplt(a0) => VMOpcodeV::if_icmplt(a0),
        VMOpcode::if_icmpge(a0) => VMOpcodeV::if_icmpge(a0),
        VMOpcode::if_icmpgt(a0) => VMOpcodeV::if_icmpgt(a0),
        VMOpcode::if_icmple(a0) => VMOpcodeV::if_icmple(a0),
        VMOpcode::ifeq(a0) => VMOpcodeV::ifeq(a0),
        VMOpcode::ifne(a0) => VMOpcodeV::ifne(a0),
        VMOpcode::iflt(a0) => VMOpcodeV::iflt(a0),
        VMOpcode::ifge(a0) => VMOpcodeV::ifge(a0),
        VMOpcode::ifgt(a0) => VMOpcodeV::ifgt(a0),
        VMOpcode::ifle(a0) => VMOpcodeV::ifle(a0),
        VMOpcode::ifnonnull(a0) => VMOpcodeV::ifnonnull(a0),
        VMOpcode::ifnull(a0) => VMOpcodeV::ifnull(a0),
        VMOpcode::iinc(a0, a1) => VMOpcodeV::iinc(a0, a1),
        VMOpcode::iload(a0) => VMOpcodeV::iload(a0),
        VMOpcode::iload_0() => VMOpcodeV::iload_0(),
        VMOpcode::iload_1() => VMOpcodeV::iload_1(),
        VMOpcode::iload_2() => VMOpcodeV::iload_2(),
        VMOpcode::iload_3() => VMOpcodeV::iload_3(),
        VMOpcode::imul() => VMOpcodeV::imul(),
        VMOpcode::ineg() => VMOpcodeV::ineg(),
        VMOpcode::instanceof(a0) => VMOpcodeV::instanceof(a0),
        VMOpcode::invokedynamic(a0, a1) => VMOpcodeV::invokedynamic(a0, a1),
        VMOpcode::invokeinterface(a0, a1, a2) => VMOpcodeV::invokeinterface(a0, a1, a2),
        VMOpcode::invokespecial(a0) => VMOpcodeV::invokespecial(a0),
        VMOpcode::invokestatic(a0) => VMOpcodeV::invokestatic(a0),
        VMOpcode::invokevirtual(a0) => VMOpcodeV::invokevirtual(a0),
        VMOpcode::ior() => VMOpcodeV::ior(),
        VMOpcode::irem() => VMOpcodeV::irem(),
        VMOpcode::ireturn() => VMOpcodeV::ireturn(),
        VMOpcode::ishl() => VMOpcodeV::ishl(),
        VMOpcode::ishr() => VMOpcodeV::ishr(),
        VMOpcode::istore(a0) => VMOpcodeV::istore(a0),
        VMOpcode::istore_0() => VMOpcodeV::istore_0(),
        VMOpcode::istore_1() => VMOpcodeV::istore_1(),
        VMOpcode::istore_2() => VMOpcodeV::istore_2(),
        VMOpcode::istore_3() => VMOpcodeV::istore_3(),
        VMOpcode::isub() => VMOpcodeV::isub(),
        VMOpcode::iushr() => VMOpcodeV::iushr(),
        VMOpcode::ixor() => VMOpcodeV::ixor(),
        VMOpcode::l2d() => VMOpcodeV::l2d(),
        VMOpcode::l2f() => VMOpcodeV::l2f(),
        VMOpcode::l2i() => VMOpcodeV::l2i(),
        VMOpcode::ladd() => VMOpcodeV::ladd(),
        VMOpcode::laload() => VMOpcodeV::laload(),
        VMOpcode::land() => VMOpcodeV::land(),
        VMOpcode::lastore() => VMOpcodeV::lastore(),
        VMOpcode::lcmp() => VMOpcodeV::lcmp(),
        VMOpcode::lconst_0() => VMOpcodeV::lconst_0(),
        VMOpcode::lconst_1() => VMOpcodeV::lconst_1(),
        VMOpcode::ldc(a0) => VMOpcodeV::ldc(a0),
        VMOpcode::ldc_w(a0) => VMOpcodeV::ldc_w(a0),
        VMOpcode::ldc2_w(a0) => VMOpcodeV::ldc2_w(a0),
        VMOpcode::ldiv() => VMOpcodeV::ldiv(),
        VMOpcode::lload(a0) => VMOpcodeV::lload(a0),
        VMOpcode::lload_0() => VMOpcodeV::lload_0(),
        VMOpcode::lload_1() => VMOpcodeV::lload_1(),
        VMOpcode::lload_2() => VMOpcodeV::lload_2(),
        VMOpcode::lload_3() => VMOpcodeV::lload_3(),
        VMOpcode::lmul() => VMOpcodeV::lmul(),
        VMOpcode::lneg() => VMOpcodeV::lneg(),
        VMOpcode::lor() => VMOpcodeV::lor(),
        VMOpcode::lrem() => VMOpcodeV::lrem(),
        VMOpcode::lreturn() => VMOpcodeV::lreturn(),
        VMOpcode::lshl() => VMOpcodeV::lshl(),
        VMOpcode::lshr() => VMOpcodeV::lshr(),
        VMOpcode::lstore(a0) => VMOpcodeV::lstore(a0),
        VMOpcode::lstore_0() => VMOpcodeV::lstore_0(),
        VMOpcode::lstore_1() => VMOpcodeV::lstore_1(),
        VMOpcode::lstore_2() => VMOpcodeV::lstore_2(),
        VMOpcode::lstore_3() => VMOpcodeV::lstore_3(),
        VMOpcode::lsub() => VMOpcodeV::lsub(),
        VMOpcode::lushr() => VMOpcodeV::lushr(),
        VMOpcode::lxor() => VMOpcodeV::lxor(),
        VMOpcode::monitorenter() => VMOpcodeV::monitorenter(),
        VMOpcode::monitorexit() => VMOpcodeV::monitorexit(),
        VMOpcode::multianewarray(a0, a1) => VMOpcodeV::multianewarray(a0, a1),
        VMOpcode::new(a0) => VMOpcodeV::new(a0),
        VMOpcode::newarray(a0) => VMOpcodeV::newarray(a0),
        VMOpcode::nop() => VMOpcodeV::nop(),
        VMOpcode::pop() => VMOpcodeV::pop(),
        VMOpcode::pop2() => VMOpcodeV::pop2(),
        VMOpcode::putfield(a0) => VMOpcodeV::putfield(a0),
        VMOpcode::putstatic(a0) => VMOpcodeV::putstatic(a0),
        VMOpcode::ret(a0) => VMOpcodeV::ret(a0),
        VMOpcode::return_() => VMOpcodeV::return_(),
        VMOpcode::saload() => VMOpcodeV::saload(),
        VMOpcode::sastore() => VMOpcodeV::sastore(),
        VMOpcode::sipush(a0) => VMOpcodeV::sipush(a0),
        VMOpcode::swap() => VMOpcodeV::swap(),
    }
}

impl View for VMOpcode {
    type V = VMOpcodeV;

    open spec fn view(&self) -> VMOpcodeV {
        opcode_view(*self)
    }
}

/// How many operand bytes follow the opcode byte `op` of an instruction of
/// fixed length; `None` for the others (`lookupswitch`, `tableswitch`,
/// `wide`) and for unknown opcodes.
pub open spec fn operand_len(op: u8) -> Option<nat> {
    match op {
        0x32 => Some(0nat),
        0x53 => Some(0nat),
        0x1 => Some(0nat),
        0x19 => Some(1nat),
        0x2a => Some(0nat),
        0x2b => Some(0nat),
        0x2c => Some(0nat),
        0x2d => Some(0nat),
        0xbd => Some(2nat),
        0xb0 => Some(0nat),
        0xbe => Some(0nat),
        0x3a => Some(1nat),
        0x4b => Some(0nat),
        0x4c => Some(0nat),
        0x4d => Some(0nat),
        0x4e => Some(0nat),
        0xbf => Some(0nat),
        0x33 => Some(0nat),
        0x54 => Some(0nat),
        0x10 => Some(1nat),
        0x34 => Some(0nat),
        0x55 => Some(0nat),
        0xc0 => Some(2nat),
        0x90 => Some(0nat),
        0x8e => Some(0nat),
        0x8f => Some(0nat),
        0x63 => Some(0nat),
        0x31 => Some(0nat),
        0x52 => Some(0nat),
        0x98 => Some(0nat),
        0x97 => Some(0nat),
        0xe => Some(0nat),
        0xf => Some(0nat),
        0x6f => Some(0nat),
        0x18 => Some(1nat),
        0x26 => Some(0nat),
        0x27 => Some(0nat),
        0x28 => Some(0nat),
        0x29 => Some(0nat),
        0x6b => Some(0nat),
        0x77 => Some(0nat),
        0x73 => Some(0nat),
        0xaf => Some(0nat),
        0x39 => Some(1nat),
        0x47 => Some(0nat),
        0x48 => Some(0nat),
        0x49 => Some(0nat),
        0x4a => Some(0nat),
        0x67 => Some(0nat),
        0x59 => Some(0nat),
        0x5a => Some(0nat),
        0x5b => Some(0nat),
        0x5c => Some(0nat),
        0x5d => Some(0nat),
        0x5e => Some(0nat),
        0x8d => Some(0nat),
        0x8b => Some(0nat),
        0x8c => Some(0nat),
        0x62 => Some(0nat),
        0x30 => Some(0nat),
        0x51 => Some(0nat),
        0x96 => Some(0nat),
        0x95 => Some(0nat),
        0xb => Some(0nat),
        0xc => Some(0nat),
        0xd => Some(0nat),
        0x6e => Some(0nat),
        0x17 => Some(1nat),
        0x22 => Some(0nat),
        0x23 => Some(0nat),
        0x24 => Some(0nat),
        0x25 => Some(0nat),
        0x6a => Some(0nat),
        0x76 => Some(0nat),
        0x72 => Some(0nat),
        0xae => Some(0nat),
        0x38 => Some(1nat),
        0x43 => Some(0nat),
        0x44 => Some(0nat),
        0x45 => Some(0nat),
        0x46 => Some(0nat),
        0x66 => Some(0nat),
        0xb4 => Some(2nat),
        0xb2 => Some(2nat),
        0xa7 => Some(2nat),
        0xc8 => Some(4nat),
        0x91 => Some(0nat),
        0x92 => Some(0nat),
        0x87 => Some(0nat),
        0x86 => Some(0nat),
        0x85 => Some(0nat),
        0x93 => Some(0nat),
        0x60 => Some(0nat),
        0x2e => Some(0nat),
        0x7e => Some(0nat),
        0x4f => Some(0nat),
        0x2 => Some(0nat),
        0x3 => Some(0nat),
        0x4 => Some(0nat),
        0x5 => Some(0nat),
        0x6 => Some(0nat),
        0x7 => Some(0nat),
        0x8 => Some(0nat),
        0x6c => Some(0nat),
        0xa5 => Some(2nat),
        0xa6 => Some(2nat),
        0x9f => Some(2nat),
        0xa0 => Some(2nat),
        0xa1 => Some(2nat),
        0xa2 => Some(2nat),
        0xa3 => Some(2nat),
        0xa4 => Some(2nat),
        0x99 => Some(2nat),
        0x9a => Some(2nat),
        0x9b => Some(2nat),
        0x9c => Some(2nat),
        0x9d => Some(2nat),
        0x9e => Some(2nat),
        0xc7 => Some(2nat),
        0xc6 => Some(2nat),
        0x84 => Some(2nat),
        0x15 => Some(1nat),
        0x1a => Some(0nat),
        0x1b => Some(0nat),
        0x1c => Some(0nat),
        0x1d => Some(0nat),
        0x68 => Some(0nat),
        0x74 => Some(0nat),
        0xc1 => Some(2nat),
        0xba => Some(4nat),
        0xb9 => Some(4nat),
        0xb7 => Some(2nat),
        0xb8 => Some(2nat),
        0xb6 => Some(2nat),
        0x80 => Some(0nat),
        0x70 => Some(0nat),
        0xac => Some(0nat),
        0x78 => Some(0nat),
        0x7a => Some(0nat),
        0x36 => Some(1nat),
        0x3b => Some(0nat),
        0x3c => Some(0nat),
        0x3d => Some(0nat),
        0x3e => Some(0nat),
        0x64 => Some(0nat),
        0x7c => Some(0nat),
        0x82 => Some(0nat),
        0x8a => Some(0nat),
        0x89 => Some(0nat),
        0x88 => Some(0nat),
        0x61 => Some(0nat),
        0x2f => Some(0nat),
        0x7f => Some(0nat),
        0x50 => Some(0nat),
        0x94 => Some(0nat),
        0x9 => Some(0nat),
        0xa => Some(0nat),
        0x12 => Some(1nat),
        0x13 => Some(2nat),
        0x14 => Some(2nat),
        0x6d => Some(0nat),
        0x16 => Some(1nat),
        0x1e => Some(0nat),
        0x1f => Some(0nat),
        0x20 => Some(0nat),
        0x21 => Some(0nat),
        0x69 => Some(0nat),
        0x75 => Some(0nat),
        0x81 => Some(0nat),
        0x71 => Some(0nat),
        0xad => Some(0nat),
        0x79 => Some(0nat),
        0x7b => Some(0nat),
        0x37 => Some(1nat),
        0x3f => Some(0nat),
        0x40 => Some(0nat),
        0x41 => Some(0nat),
        0x42 => Some(0nat),
        0x65 => Some(0nat),
        0x7d => Some(0nat),
        0x83 => Some(0nat),
        0xc2 => Some(0nat),
        0xc3 => Some(0nat),
        0xc5 => Some(3nat),
        0xbb => Some(2nat),
        0xbc => Some(1nat),
        0x0 => Some(0nat),
        0x57 => Some(0nat),
        0x58 => Some(0nat),
        0xb5 => Some(2nat),
        0xb3 => Some(2nat),
        0xa9 => Some(1nat),
        0xb1 => Some(0nat),
        0x35 => Some(0nat),
        0x56 => Some(0nat),
        0x11 => Some(2nat),
        0x5f => Some(0nat),
        _ => None,
    }
}

/// How many operand bytes follow the opcode byte `op` (see [`operand_len`]).
pub fn operand_len_of(op: u8) -> (r: Option<usize>)
    ensures
        match operand_len(op) {
            Some(n) => r == Some(n as usize),
            None => r is None,
        },
{
    match op {
        0x32 => Some(0),
        0x53 => Some(0),
        0x1 => Some(0),
        0x19 => Some(1),
        0x2a => Some(0),
        0x2b => Some(0),
        0x2c => Some(0),
        0x2d => Some(0),
        0xbd => Some(2),
        0xb0 => Some(0),
        0xbe => Some(0),
        0x3a => Some(1),
        0x4b => Some(0),
        0x4c => Some(0),
        0x4d => Some(0),
        0x4e => Some(0),
        0xbf => Some(0),
        0x33 => Some(0),
        0x54 => Some(0),
        0x10 => Some(1),
        0x34 => Some(0),
        0x55 => Some(0),
        0xc0 => Some(2),
        0x90 => Some(0),
        0x8e => Some(0),
        0x8f => Some(0),
        0x63 => Some(0),
        0x31 => Some(0),
        0x52 => Some(0),
        0x98 => Some(0),
        0x97 => Some(0),
        0xe => Some(0),
        0xf => Some(0),
        0x6f => Some(0),
        0x18 => Some(1),
        0x26 => Some(0),
        0x27 => Some(0),
        0x28 => Some(0),
        0x29 => Some(0),
        0x6b => Some(0),
        0x77 => Some(0),
        0x73 => Some(0),
        0xaf => Some(0),
        0x39 => Some(1),
        0x47 => Some(0),
        0x48 => Some(0),
        0x49 => Some(0),
        0x4a => Some(0),
        0x67 => Some(0),
        0x59 => Some(0),
        0x5a => Some(0),
        0x5b => Some(0),
        0x5c => Some(0),
        0x5d => Some(0),
        0x5e => Some(0),
        0x8d => Some(0),
        0x8b => Some(0),
        0x8c => Some(0),
        0x62 => Some(0),
        0x30 => Some(0),
        0x51 => Some(0),
        0x96 => Some(0),
        0x95 => Some(0),
        0xb => Some(0),
        0xc => Some(0),
        0xd => Some(0),
        0x6e => Some(0),
        0x17 => Some(1),
        0x22 => Some(0),
        0x23 => Some(0),
        0x24 => Some(0),
        0x25 => Some(0),
        0x6a => Some(0),
        0x76 => Some(0),
        0x72 => Some(0),
        0xae => Some(0),
        0x38 => Some(1),
        0x43 => Some(0),
        0x44 => Some(0),
        0x45 => Some(0),
        0x46 => Some(0),
        0x66 => Some(0),
        0xb4 => Some(2),
        0xb2 => Some(2),
        0xa7 => Some(2),
        0xc8 => Some(4),
        0x91 => Some(0),
        0x92 => Some(0),
        0x87 => Some(0),
        0x86 => Some(0),
        0x85 => Some(0),
        0x93 => Some(0),
        0x60 => Some(0),
        0x2e => Some(0),
        0x7e => Some(0),
        0x4f => Some(0),
        0x2 => Some(0),
        0x3 => Some(0),
        0x4 => Some(0),
        0x5 => Some(0),
        0x6 => Some(0),
        0x7 => Some(0),
        0x8 => Some(0),
        0x6c => Some(0),
        0xa5 => Some(2),
        0xa6 => Some(2),
        0x9f => Some(2),
        0xa0 => Some(2),
        0xa1 => Some(2),
        0xa2 => Some(2),
        0xa3 => Some(2),
        0xa4 => Some(2),
        0x99 => Some(2),
        0x9a => Some(2),
        0x9b => Some(2),
        0x9c => Some(2),
        0x9d => Some(2),
        0x9e => Some(2),
        0xc7 => Some(2),
        0xc6 => Some(2),
        0x84 => Some(2),
        0x15 => Some(1),
        0x1a => Some(0),
        0x1b => Some(0),
        0x1c => Some(0),
        0x1d => Some(0),
        0x68 => Some(0),
        0x74 => Some(0),
        0xc1 => Some(2),
        0xba => Some(4),
        0xb9 => Some(4),
        0xb7 => Some(2),
        0xb8 => Some(2),
        0xb6 => Some(2),
        0x80 => Some(0),
        0x70 => Some(0),
        0xac => Some(0),
        0x78 => Some(0),
        0x7a => Some(0),
        0x36 => Some(1),
        0x3b => Some(0),
        0x3c => Some(0),
        0x3d => Some(0),
        0x3e => Some(0),
        0x64 => Some(0),
        0x7c => Some(0),
        0x82 => Some(0),
        0x8a => Some(0),
        0x89 => Some(0),
        0x88 => Some(0),
        0x61 => Some(0),
        0x2f => Some(0),
        0x7f => Some(0),
        0x50 => Some(0),
        0x94 => Some(0),
        0x9 => Some(0),
        0xa => Some(0),
        0x12 => Some(1),
        0x13 => Some(2),
        0x14 => Some(2),
        0x6d => Some(0),
        0x16 => Some(1),
        0x1e => Some(0),
        0x1f => Some(0),
        0x20 => Some(0),
        0x21 => Some(0),
        0x69 => Some(0),
        0x75 => Some(0),
        0x81 => Some(0),
        0x71 => Some(0),
        0xad => Some(0),
        0x79 => Some(0),
        0x7b => Some(0),
        0x37 => Some(1),
        0x3f => Some(0),
        0x40 => Some(0),
        0x41 => Some(0),
        0x42 => Some(0),
        0x65 => Some(0),
        0x7d => Some(0),
        0x83 => Some(0),
        0xc2 => Some(0),
        0xc3 => Some(0),
        0xc5 => Some(3),
        0xbb => Some(2),
        0xbc => Some(1),
        0x0 => Some(0),
        0x57 => Some(0),
        0x58 => Some(0),
        0xb5 => Some(2),
        0xb3 => Some(2),
        0xa9 => Some(1),
        0xb1 => Some(0),
        0x35 => Some(0),
        0x56 => Some(0),
        0x11 => Some(2),
        0x5f => Some(0),
        _ => None,
    }
}

/// The instruction with fixed length whose opcode byte is `op` and whose
/// operand bytes are `ops`, read as big-endian numbers in order.
pub open spec fn spec_build(op: u8, ops: Seq<u8>) -> VMOpcodeV {
    if op < 0x40 {
        spec_build_0(op, ops)
    } else if op < 0x80 {
        spec_build_1(op, ops)
    } else if op < 0xc0 {
        spec_build_2(op, ops)
    } else {
        spec_build_3(op, ops)
    }
}

/// [`spec_build`] for the opcodes from 0x0 up to 0x3f.
pub open spec fn spec_build_0(op: u8, ops: Seq<u8>) -> VMOpcodeV {
    match op {
        0x32 => VMOpcodeV::aaload(),
        0x1 => VMOpcodeV::aconst_null(),
        0x19 => VMOpcodeV::aload(ops[0]),
        0x2a => VMOpcodeV::aload_0(),
        0x2b => VMOpcodeV::aload_1(),
        0x2c => VMOpcodeV::aload_2(),
        0x2d => VMOpcodeV::aload_3(),
        0x3a => VMOpcodeV::astore(ops[0]),
        0x33 => VMOpcodeV::baload(),
        0x10 => VMOpcodeV::bipush(ops[0]),
        0x34 => VMOpcodeV::caload(),
        0x31 => VMOpcodeV::daload(),
        0xe => VMOpcodeV::dconst_0(),
        0xf => VMOpcodeV::dconst_1(),
        0x18 => VMOpcodeV::dload(ops[0]),
        0x26 => VMOpcodeV::dload_0(),
        0x27 => VMOpcodeV::dload_1(),
        0x28 => VMOpcodeV::dload_2(),
        0x29 => VMOpcodeV::dload_3(),
        0x39 => VMOpcodeV::dstore(ops[0]),
        0x30 => VMOpcodeV::faload(),
        0xb => VMOpcodeV::fconst_0(),
        0xc => VMOpcodeV::fconst_1(),
        0xd => VMOpcodeV::fconst_2(),
        0x17 => VMOpcodeV::fload(ops[0]),
        0x22 => VMOpcodeV::fload_0(),
        0x23 => VMOpcodeV::fload_1(),
        0x24 => VMOpcodeV::fload_2(),
        0x25 => VMOpcodeV::fload_3(),
        0x38 => VMOpcodeV::fstore(ops[0]),
        0x2e => VMOpcodeV::iaload(),
        0x2 => VMOpcodeV::iconst_m1(),
        0x3 => VMOpcodeV::iconst_0(),
        0x4 => VMOpcodeV::iconst_1(),
        0x5 => VMOpcodeV::iconst_2(),
        0x6 => VMOpcodeV::iconst_3(),
        0x7 => VMOpcodeV::iconst_4(),
        0x8 => VMOpcodeV::iconst_5(),
        0x15 => VMOpcodeV::iload(ops[0]),
        0x1a => VMOpcodeV::iload_0(),
        0x1b => VMOpcodeV::iload_1(),
        0x1c => VMOpcodeV::iload_2(),
        0x1d => VMOpcodeV::iload_3(),
        0x36 => VMOpcodeV::istore(ops[0]),
        0x3b => VMOpcodeV::istore_0(),
        0x3c => VMOpcodeV::istore_1(),
        0x3d => VMOpcodeV::istore_2(),
        0x3e => VMOpcodeV::istore_3(),
        0x2f => VMOpcodeV::laload(),
        0x9 => VMOpcodeV::lconst_0(),
        0xa => VMOpcodeV::lconst_1(),
        0x12 => VMOpcodeV::ldc(ops[0]),
        0x13 => VMOpcodeV::ldc_w(be16(ops, 0)),
        0x14 => VMOpcodeV::ldc2_w(be16(ops, 0)),
        0x16 => VMOpcodeV::lload(ops[0]),
        0x1e => VMOpcodeV::lload_0(),
        0x1f => VMOpcodeV::lload_1(),
        0x20 => VMOpcodeV::lload_2(),
        0x21 => VMOpcodeV::lload_3(),
        0x37 => VMOpcodeV::lstore(ops[0]),
        0x3f => VMOpcodeV::lstore_0(),
        0x0 => VMOpcodeV::nop(),
        0x35 => VMOpcodeV::saload(),
        0x11 => VMOpcodeV::sipush(be16(ops, 0)),
        _ => VMOpcodeV::nop(),
    }
}

/// [`spec_build`] for the opcodes from 0x40 up to 0x7f.
pub open spec fn spec_build_1(op: u8, ops: Seq<u8>) -> VMOpcodeV {
    match op {
        0x53 => VMOpcodeV::aastore(),
        0x4b => VMOpcodeV::astore_0(),
        0x4c => VMOpcodeV::astore_1(),
        0x4d => VMOpcodeV::astore_2(),
        0x4e => VMOpcodeV::astore_3(),
        0x54 => VMOpcodeV::bastore(),
        0x55 => VMOpcodeV::castore(),
        0x63 => VMOpcodeV::dadd(),
        0x52 => VMOpcodeV::dastore(),
        0x6f => VMOpcodeV::ddiv(),
        0x6b => VMOpcodeV::dmul(),
        0x77 => VMOpcodeV::dneg(),
        0x73 => VMOpcodeV::drem(),
        0x47 => VMOpcodeV::dstore_0(),
        0x48 => VMOpcodeV::dstore_1(),
        0x49 => VMOpcodeV::dstore_2(),
        0x4a => VMOpcodeV::dstore_3(),
        0x67 => VMOpcodeV::dsub(),
        0x59 => VMOpcodeV::dup(),
        0x5a => VMOpcodeV::dup_x1(),
        0x5b => VMOpcodeV::dup_x2(),
        0x5c => VMOpcodeV::dup2(),
        0x5d => VMOpcodeV::dup2_x1(),
        0x5e => VMOpcodeV::dup2_x2(),
        0x62 => VMOpcodeV::fadd(),
        0x51 => VMOpcodeV::fastore(),
        0x6e => VMOpcodeV::fdiv(),
        0x6a => VMOpcodeV::fmul(),
        0x76 => VMOpcodeV::fneg(),
        0x72 => VMOpcodeV::frem(),
        0x43 => VMOpcodeV::fstore_0(),
        0x44 => VMOpcodeV::fstore_1(),
        0x45 => VMOpcodeV::fstore_2(),
        0x46 => VMOpcodeV::fstore_3(),
        0x66 => VMOpcodeV::fsub(),
        0x60 => VMOpcodeV::iadd(),
        0x7e => VMOpcodeV::iand(),
        0x4f => VMOpcodeV::iastore(),
        0x6c => VMOpcodeV::idiv(),
        0x68 => VMOpcodeV::imul(),
        0x74 => VMOpcodeV::ineg(),
        0x70 => VMOpcodeV::irem(),
        0x78 => VMOpcodeV::ishl(),
        0x7a => VMOpcodeV::ishr(),
        0x64 => VMOpcodeV::isub(),
        0x7c => VMOpcodeV::iushr(),
        0x61 => VMOpcodeV::ladd(),
        0x7f => VMOpcodeV::land(),
        0x50 => VMOpcodeV::lastore(),
        0x6d => VMOpcodeV::ldiv(),
        0x69 => VMOpcodeV::lmul(),
        0x75 => VMOpcodeV::lneg(),
        0x71 => VMOpcodeV::lrem(),
        0x79 => VMOpcodeV::lshl(),
        0x7b => VMOpcodeV::lshr(),
        0x40 => VMOpcodeV::lstore_1(),
        0x41 => VMOpcodeV::lstore_2(),
        0x42 => VMOpcodeV::lstore_3(),
        0x65 => VMOpcodeV::lsub(),
        0x7d => VMOpcodeV::lushr(),
        0x57 => VMOpcodeV::pop(),
        0x58 => VMOpcodeV::pop2(),
        0x56 => VMOpcodeV::sastore(),
        0x5f => VMOpcodeV::swap(),
        _ => VMOpcodeV::nop(),
    }
}

/// [`spec_build`] for the opcodes from 0x80 up to 0xbf.
pub open spec fn spec_build_2(op: u8, ops: Seq<u8>) -> VMOpcodeV {
    match op {
        0xbd => VMOpcodeV::anewarray(be16(ops, 0)),
        0xb0 => VMOpcodeV::areturn(),
        0xbe => VMOpcodeV::arraylength(),
        0xbf => VMOpcodeV::athrow(),
        0x90 => VMOpcodeV::d2f(),
        0x8e => VMOpcodeV::d2i(),
        0x8f => VMOpcodeV::d2l(),
        0x98 => VMOpcodeV::dcmpg(),
        0x97 => VMOpcodeV::dcmpl(),
        0xaf => VMOpcodeV::dreturn(),
        0x8d => VMOpcodeV::f2d(),
        0x8b => VMOpcodeV::f2i(),
        0x8c => VMOpcodeV::f2l(),
        0x96 => VMOpcodeV::fcmpg(),
        0x95 => VMOpcodeV::fcmpl(),
        0xae => VMOpcodeV::freturn(),
        0xb4 => VMOpcodeV::getfield(be16(ops, 0)),
        0xb2 => VMOpcodeV::getstatic(be16(ops, 0)),
        0xa7 => VMOpcodeV::goto(be16_signed(ops, 0)),
        0x91 => VMOpcodeV::i2b(),
        0x92 => VMOpcodeV::i2c(),
        0x87 => VMOpcodeV::i2d(),
        0x86 => VMOpcodeV::i2f(),
        0x85 => VMOpcodeV::i2l(),
        0x93 => VMOpcodeV::i2s(),
        0xa5 => VMOpcodeV::if_acmpeq(be16_signed(ops, 0)),
        0xa6 => VMOpcodeV::if_acmpne(be16_signed(ops, 0)),
        0x9f => VMOpcodeV::if_icmpeq(be16_signed(ops, 0)),
        0xa0 => VMOpcodeV::if_icmpne(be16_signed(ops, 0)),
        0xa1 => VMOpcodeV::if_icmplt(be16_signed(ops, 0)),
        0xa2 => VMOpcodeV::if_icmpge(be16_signed(ops, 0)),
        0xa3 => VMOpcodeV::if_icmpgt(be16_signed(ops, 0)),
        0xa4 => VMOpcodeV::if_icmple(be16_signed(ops, 0)),
        0x99 => VMOpcodeV::ifeq(be16_signed(ops, 0)),
        0x9a => VMOpcodeV::ifne(be16_signed(ops, 0)),
        0x9b => VMOpcodeV::iflt(be16_signed(ops, 0)),
        0x9c => VMOpcodeV::ifge(be16_signed(ops, 0)),
        0x9d => VMOpcodeV::ifgt(be16_signed(ops, 0)),
        0x9e => VMOpcodeV::ifle(be16_signed(ops, 0)),
        0x84 => VMOpcodeV::iinc(ops[0], ops[1]),
        0xba => VMOpcodeV::invokedynamic(be16(ops, 0), be16(ops, 2)),
        0xb9 => VMOpcodeV::invokeinterface(be16(ops, 0), ops[2], ops[3]),
        0xb7 => VMOpcodeV::invokespecial(be16(ops, 0)),
        0xb8 => VMOpcodeV::invokestatic(be16(ops, 0)),
        0xb6 => VMOpcodeV::invokevirtual(be16(ops, 0)),
        0x80 => VMOpcodeV::ior(),
        0xac => VMOpcodeV::ireturn(),
        0x82 => VMOpcodeV::ixor(),
        0x8a => VMOpcodeV::l2d(),
        0x89 => VMOpcodeV::l2f(),
        0x88 => VMOpcodeV::l2i(),
        0x94 => VMOpcodeV::lcmp(),
        0x81 => VMOpcodeV::lor(),
        0xad => VMOpcodeV::lreturn(),
        0x83 => VMOpcodeV::lxor(),
        0xbb => VMOpcodeV::new(be16(ops, 0)),
        0xbc => VMOpcodeV::newarray(array_type_code_of(ops[0])),
        0xb5 => VMOpcodeV::putfield(be16(ops, 0)),
        0xb3 => VMOpcodeV::putstatic(be16(ops, 0)),
        0xa9 => VMOpcodeV::ret(ops[0]),
        0xb1 => VMOpcodeV::return_(),
        _ => VMOpcodeV::nop(),
    }
}

/// [`spec_build`] for the opcodes from 0xc0 up to 0xff.
pub open spec fn spec_build_3(op: u8, ops: Seq<u8>) -> VMOpcodeV {
    match op {
        0xc0 => VMOpcodeV::checkcast(be16(ops, 0)),
        0xc8 => VMOpcodeV::goto_w(be32(ops, 0)),
        0xc7 => VMOpcodeV::ifnonnull(be16_signed(ops, 0)),
        0xc6 => VMOpcodeV::ifnull(be16_signed(ops, 0)),
        0xc1 => VMOpcodeV::instanceof(be16(ops, 0)),
        0xc2 => VMOpcodeV::monitorenter(),
        0xc3 => VMOpcodeV::monitorexit(),
        0xc5 => VMOpcodeV::multianewarray(be16(ops, 0), ops[2]),
        _ => VMOpcodeV::nop(),
    }
}

/// Whether `o` is an `iinc` instruction.
pub fn is_iinc(o: &VMOpcode) -> (r: bool)
    ensures
        r == (o@ is iinc),
{
    matches!(o, VMOpcode::iinc(..))
}

/// The big-endian value of the two bytes at `i`.
fn be16_at(ops: &Vec<u8>, i: usize) -> (r: u16)
    requires
        i + 2 <= ops.len(),
    ensures
        r == be16(ops@, i as int),
{
    (ops[i] as u16) * 0x100 + (ops[i + 1] as u16)
}

/// The two bytes at `i` as a big-endian signed number.
pub open spec fn be16_signed(ops: Seq<u8>, i: int) -> i16 {
    be16(ops, i) as i16
}

/// The two bytes at `i` as a big-endian signed number.
fn be16_signed_at(ops: &Vec<u8>, i: usize) -> (r: i16)
    requires
        i + 2 <= ops.len(),
    ensures
        r == be16_signed(ops@, i as int),
{
    be16_at(ops, i) as i16
}

/// The big-endian value of the four bytes at `i`.
fn be32_at(ops: &Vec<u8>, i: usize) -> (r: u32)
    requires
        i + 4 <= ops.len(),
    ensures
        r == be32(ops@, i as int),
{
    (be16_at(ops, i) as u32) * 0x10000 + (be16_at(ops, i + 2) as u32)
}

/// Build the instruction with fixed length whose opcode byte is `op` from
/// its operand bytes.
pub fn build(op: u8, ops: &Vec<u8>) -> (r: VMOpcode)
    requires
        operand_len(op) == Some(ops@.len()),
        op == 0xbc ==> is_array_type_code(ops@[0]),
    ensures
        r@ == spec_build(op, ops@),
{
    if op < 0x40 {
        build_0(op, ops)
    } else if op < 0x80 {
        build_1(op, ops)
    } else if op < 0xc0 {
        build_2(op, ops)
    } else {
        build_3(op, ops)
    }
}

/// [`build`] for the opcodes from 0x0 up to 0x3f.
fn build_0(op: u8, ops: &Vec<u8>) -> (r: VMOpcode)
    requires
        0x0 <= op < 0x40,
        operand_len(op) == Some(ops@.len()),
        op == 0xbc ==> is_array_type_code(ops@[0]),
    ensures
        r@ == spec_build_0(op, ops@),
{
    match op {
        0x32 => VMOpcode::aaload(),
        0x1 => VMOpcode::aconst_null(),
        0x19 => VMOpcode::aload(ops[0]),
        0x2a => VMOpcode::aload_0(),
        0x2b => VMOpcode::aload_1(),
        0x2c => VMOpcode::aload_2(),
        0x2d => VMOpcode::aload_3(),
        0x3a => VMOpcode::astore(ops[0]),
        0x33 => VMOpcode::baload(),
        0x10 => VMOpcode::bipush(ops[0]),
        0x34 => VMOpcode::caload(),
        0x31 => VMOpcode::daload(),
        0xe => VMOpcode::dconst_0(),
        0xf => VMOpcode::dconst_1(),
        0x18 => VMOpcode::dload(ops[0]),
        0x26 => VMOpcode::dload_0(),
        0x27 => VMOpcode::dload_1(),
        0x28 => VMOpcode::dload_2(),
        0x29 => VMOpcode::dload_3(),
        0x39 => VMOpcode::dstore(ops[0]),
        0x30 => VMOpcode::faload(),
        0xb => VMOpcode::fconst_0(),
        0xc => VMOpcode::fconst_1(),
        0xd => VMOpcode::fconst_2(),
        0x17 => VMOpcode::fload(ops[0]),
        0x22 => VMOpcode::fload_0(),
        0x23 => VMOpcode::fload_1(),
        0x24 => VMOpcode::fload_2(),
        0x25 => VMOpcode::fload_3(),
        0x38 => VMOpcode::fstore(ops[0]),
        0x2e => VMOpcode::iaload(),
        0x2 => VMOpcode::iconst_m1(),
        0x3 => VMOpcode::iconst_0(),
        0x4 => VMOpcode::iconst_1(),
        0x5 => VMOpcode::iconst_2(),
        0x6 => VMOpcode::iconst_3(),
        0x7 => VMOpcode::iconst_4(),
        0x8 => VMOpcode::iconst_5(),
        0x15 => VMOpcode::iload(ops[0]),
        0x1a => VMOpcode::iload_0(),
        0x1b => VMOpcode::iload_1(),
        0x1c => VMOpcode::iload_2(),
        0x1d => VMOpcode::iload_3(),
        0x36 => VMOpcode::istore(ops[0]),
        0x3b => VMOpcode::istore_0(),
        0x3c => VMOpcode::istore_1(),
        0x3d => VMOpcode::istore_2(),
        0x3e => VMOpcode::istore_3(),
        0x2f => VMOpcode::laload(),
        0x9 => VMOpcode::lconst_0(),
        0xa => VMOpcode::lconst_1(),
        0x12 => VMOpcode::ldc(ops[0]),
        0x13 => VMOpcode::ldc_w(be16_at(ops, 0)),
        0x14 => VMOpcode::ldc2_w(be16_at(ops, 0)),
        0x16 => VMOpcode::lload(ops[0]),
        0x1e => VMOpcode::lload_0(),
        0x1f => VMOpcode::lload_1(),
        0x20 => VMOpcode::lload_2(),
        0x21 => VMOpcode::lload_3(),
        0x37 => VMOpcode::lstore(ops[0]),
        0x3f => VMOpcode::lstore_0(),
        0x0 => VMOpcode::nop(),
        0x35 => VMOpcode::saload(),
        0x11 => VMOpcode::sipush(be16_at(ops, 0)),
        _ => VMOpcode::nop(),
    }
}

/// [`build`] for the opcodes from 0x40 up to 0x7f.
fn build_1(op: u8, ops: &Vec<u8>) -> (r: VMOpcode)
    requires
        0x40 <= op < 0x80,
        operand_len(op) == Some(ops@.len()),
        op == 0xbc ==> is_array_type_code(ops@[0]),
    ensures
        r@ == spec_build_1(op, ops@),
{
    match op {
        0x53 => VMOpcode::aastore(),
        0x4b => VMOpcode::astore_0(),
        0x4c => VMOpcode::astore_1(),
        0x4d => VMOpcode::astore_2(),
        0x4e => VMOpcode::astore_3(),
        0x54 => VMOpcode::bastore(),
        0x55 => VMOpcode::castore(),
        0x63 => VMOpcode::dadd(),
        0x52 => VMOpcode::dastore(),
        0x6f => VMOpcode::ddiv(),
        0x6b => VMOpcode::dmul(),
        0x77 => VMOpcode::dneg(),
        0x73 => VMOpcode::drem(),
        0x47 => VMOpcode::dstore_0(),
        0x48 => VMOpcode::dstore_1(),
        0x49 => VMOpcode::dstore_2(),
        0x4a => VMOpcode::dstore_3(),
        0x67 => VMOpcode::dsub(),
        0x59 => VMOpcode::dup(),
        0x5a => VMOpcode::dup_x1(),
        0x5b => VMOpcode::dup_x2(),
        0x5c => VMOpcode::dup2(),
        0x5d => VMOpcode::dup2_x1(),
        0x5e => VMOpcode::dup2_x2(),
        0x62 => VMOpcode::fadd(),
        0x51 => VMOpcode::fastore(),
        0x6e => VMOpcode::fdiv(),
        0x6a => VMOpcode::fmul(),
        0x76 => VMOpcode::fneg(),
        0x72 => VMOpcode::frem(),
        0x43 => VMOpcode::fstore_0(),
        0x44 => VMOpcode::fstore_1(),
        0x45 => VMOpcode::fstore_2(),
        0x46 => VMOpcode::fstore_3(),
        0x66 => VMOpcode::fsub(),
        0x60 => VMOpcode::iadd(),
        0x7e => VMOpcode::iand(),
        0x4f => VMOpcode::iastore(),
        0x6c => VMOpcode::idiv(),
        0x68 => VMOpcode::imul(),
        0x74 => VMOpcode::ineg(),
        0x70 => VMOpcode::irem(),
        0x78 => VMOpcode::ishl(),
        0x7a => VMOpcode::ishr(),
        0x64 => VMOpcode::isub(),
        0x7c => VMOpcode::iushr(),
        0x61 => VMOpcode::ladd(),
        0x7f => VMOpcode::land(),
        0x50 => VMOpcode::lastore(),
        0x6d => VMOpcode::ldiv(),
        0x69 => VMOpcode::lmul(),
        0x75 => VMOpcode::lneg(),
        0x71 => VMOpcode::lrem(),
        0x79 => VMOpcode::lshl(),
        0x7b => VMOpcode::lshr(),
        0x40 => VMOpcode::lstore_1(),
        0x41 => VMOpcode::lstore_2(),
        0x42 => VMOpcode::lstore_3(),
        0x65 => VMOpcode::lsub(),
        0x7d => VMOpcode::lushr(),
        0x57 => VMOpcode::pop(),
        0x58 => VMOpcode::pop2(),
        0x56 => VMOpcode::sastore(),
        0x5f => VMOpcode::swap(),
        _ => VMOpcode::nop(),
    }
}

/// [`build`] for the opcodes from 0x80 up to 0xbf.
fn build_2(op: u8, ops: &Vec<u8>) -> (r: VMOpcode)
    requires
        0x80 <= op < 0xc0,
        operand_len(op) == Some(ops@.len()),
        op == 0xbc ==> is_array_type_code(ops@[0]),
    ensures
        r@ == spec_build_2(op, ops@),
{
    match op {
        0xbd => VMOpcode::anewarray(be16_at(ops, 0)),
        0xb0 => VMOpcode::areturn(),
        0xbe => VMOpcode::arraylength(),
        0xbf => VMOpcode::athrow(),
        0x90 => VMOpcode::d2f(),
        0x8e => VMOpcode::d2i(),
        0x8f => VMOpcode::d2l(),
        0x98 => VMOpcode::dcmpg(),
        0x97 => VMOpcode::dcmpl(),
        0xaf => VMOpcode::dreturn(),
        0x8d => VMOpcode::f2d(),
        0x8b => VMOpcode::f2i(),
        0x8c => VMOpcode::f2l(),
        0x96 => VMOpcode::fcmpg(),
        0x95 => VMOpcode::fcmpl(),
        0xae => VMOpcode::freturn(),
        0xb4 => VMOpcode::getfield(be16_at(ops, 0)),
        0xb2 => VMOpcode::getstatic(be16_at(ops, 0)),
        0xa7 => VMOpcode::goto(be16_signed_at(ops, 0)),
        0x91 => VMOpcode::i2b(),
        0x92 => VMOpcode::i2c(),
        0x87 => VMOpcode::i2d(),
        0x86 => VMOpcode::i2f(),
        0x85 => VMOpcode::i2l(),
        0x93 => VMOpcode::i2s(),
        0xa5 => VMOpcode::if_acmpeq(be16_signed_at(ops, 0)),
        0xa6 => VMOpcode::if_acmpne(be16_signed_at(ops, 0)),
        0x9f => VMOpcode::if_icmpeq(be16_signed_at(ops, 0)),
        0xa0 => VMOpcode::if_icmpne(be16_signed_at(ops, 0)),
        0xa1 => VMOpcode::if_icmplt(be16_signed_at(ops, 0)),
        0xa2 => VMOpcode::if_icmpge(be16_signed_at(ops, 0)),
        0xa3 => VMOpcode::if_icmpgt(be16_signed_at(ops, 0)),
        0xa4 => VMOpcode::if_icmple(be16_signed_at(ops, 0)),
        0x99 => VMOpcode::ifeq(be16_signed_at(ops, 0)),
        0x9a => VMOpcode::ifne(be16_signed_at(ops, 0)),
        0x9b => VMOpcode::iflt(be16_signed_at(ops, 0)),
        0x9c => VMOpcode::ifge(be16_signed_at(ops, 0)),
        0x9d => VMOpcode::ifgt(be16_signed_at(ops, 0)),
        0x9e => VMOpcode::ifle(be16_signed_at(ops, 0)),
        0x84 => VMOpcode::iinc(ops[0], ops[1]),
        0xba => VMOpcode::invokedynamic(be16_at(ops, 0), be16_at(ops, 2)),
        0xb9 => VMOpcode::invokeinterface(be16_at(ops, 0), ops[2], ops[3]),
        0xb7 => VMOpcode::invokespecial(be16_at(ops, 0)),
        0xb8 => VMOpcode::invokestatic(be16_at(ops, 0)),
        0xb6 => VMOpcode::invokevirtual(be16_at(ops, 0)),
        0x80 => VMOpcode::ior(),
        0xac => VMOpcode::ireturn(),
        0x82 => VMOpcode::ixor(),
        0x8a => VMOpcode::l2d(),
        0x89 => VMOpcode::l2f(),
        0x88 => VMOpcode::l2i(),
        0x94 => VMOpcode::lcmp(),
        0x81 => VMOpcode::lor(),
        0xad => VMOpcode::lreturn(),
        0x83 => VMOpcode::lxor(),
        0xbb => VMOpcode::new(be16_at(ops, 0)),
        0xbc => VMOpcode::newarray(array_type_code_from(ops[0])),
        0xb5 => VMOpcode::putfield(be16_at(ops, 0)),
        0xb3 => VMOpcode::putstatic(be16_at(ops, 0)),
        0xa9 => VMOpcode::ret(ops[0]),
        0xb1 => VMOpcode::return_(),
        _ => VMOpcode::nop(),
    }
}

/// [`build`] for the opcodes from 0xc0 up to 0xff.
fn build_3(op: u8, ops: &Vec<u8>) -> (r: VMOpcode)
    requires
        0xc0 <= op,
        operand_len(op) == Some(ops@.len()),
        op == 0xbc ==> is_array_type_code(ops@[0]),
    ensures
        r@ == spec_build_3(op, ops@),
{
    match op {
        0xc0 => VMOpcode::checkcast(be16_at(ops, 0)),
        0xc8 => VMOpcode::goto_w(be32_at(ops, 0)),
        0xc7 => VMOpcode::ifnonnull(be16_signed_at(ops, 0)),
        0xc6 => VMOpcode::ifnull(be16_signed_at(ops, 0)),
        0xc1 => VMOpcode::instanceof(be16_at(ops, 0)),
        0xc2 => VMOpcode::monitorenter(),
        0xc3 => VMOpcode::monitorexit(),
        0xc5 => VMOpcode::multianewarray(be16_at(ops, 0), ops[2]),
        _ => VMOpcode::nop(),
    }
}

} // verus!
