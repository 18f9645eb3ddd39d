use exo_class_file::bytecode::blocks::{BasicBlock, JumpTarget, MethodBlockBuilder};
use exo_class_file::bytecode::{is_branching, MethodBlock, ValueType};
use exo_class_file::item::opcodes::{InstructionList, VMOpcode};

fn code_of(opcodes: Vec<VMOpcode>) -> InstructionList {
    let mut byte_to_code = fnv::FnvHashMap::default();
    for i in 0..opcodes.len() {
        byte_to_code.insert(i, i);
    }
    InstructionList { opcodes, byte_to_code: byte_to_code.clone(), code_to_byte: byte_to_code }
}

fn nops(n: usize) -> Vec<VMOpcode> {
    (0..n).map(|_| VMOpcode::nop()).collect()
}

fn block(start_end: Option<(usize, usize)>, jump_target: Option<JumpTarget>) -> BasicBlock {
    BasicBlock { start_end, jump_target }
}

#[test]
fn branching_instructions() {
    assert!(is_branching(&VMOpcode::goto(3)));
    assert!(is_branching(&VMOpcode::if_icmple(3)));
    assert!(is_branching(&VMOpcode::ireturn()));
    assert!(is_branching(&VMOpcode::return_()));
    assert!(!is_branching(&VMOpcode::nop()));
    assert!(!is_branching(&VMOpcode::ifeq(3)));
}

#[test]
fn first_branch() {
    let code = code_of(vec![VMOpcode::nop(), VMOpcode::iconst_0(), VMOpcode::goto(0), VMOpcode::ireturn()]);
    assert_eq!(MethodBlock::find_first_branch(&code, 0), 2);
    assert_eq!(MethodBlock::find_first_branch(&code, 3), 3);
}

#[test]
fn expected_stack_of_a_run() {
    let code = code_of(vec![
        VMOpcode::pop(),
        VMOpcode::dup(),
        VMOpcode::iadd(),
        VMOpcode::iconst_1(),
        VMOpcode::iadd(),
    ]);
    assert_eq!(MethodBlock::expected_stack_for(&code, 0, 4), vec![None, None]);
    // A run past the end stops at the end.
    assert_eq!(MethodBlock::expected_stack_for(&code, 2, 9), vec![Some(ValueType::Int)]);
    let ret = code_of(vec![VMOpcode::iconst_2(), VMOpcode::ireturn()]);
    assert_eq!(MethodBlock::expected_stack_for(&ret, 0, 1), vec![]);
    assert_eq!(MethodBlock::expected_stack_for(&ret, 1, 1), vec![Some(ValueType::Int)]);
}

#[test]
fn make_block_reuses_a_block_of_the_same_range() {
    let code = code_of(nops(10));
    let mut b = MethodBlockBuilder::new();
    assert_eq!(b.make_block(&code, Some((0, 3)), None), 0);
    assert_eq!(b.make_block(&code, Some((0, 3)), None), 0);
    assert_eq!(b.basic_block_list.len(), 1);
    assert_eq!(b.find_block(3, 1), Some(0));
    assert_eq!(b.find_block(3, 0), None);
}

#[test]
fn make_block_after_a_block_that_ends_within() {
    let code = code_of(nops(10));
    let mut b = MethodBlockBuilder::new();
    assert_eq!(b.push_block(block(Some((0, 5)), Some(JumpTarget::Return))), 0);
    assert!(b.can_make_block(&code, Some((2, 7)), Some(JumpTarget::Return)));
    assert_eq!(b.make_block(&code, Some((2, 7)), Some(JumpTarget::Return)), 1);
    let list = b.basic_block_list;
    assert_eq!(list.len(), 2);
    assert!(matches!(list[0].0.jump_target, Some(JumpTarget::Unconditional(1, true))));
    assert_eq!(list[0].0.start_end, Some((0, 5)));
    assert_eq!(list[1].0.start_end, Some((6, 7)));
    assert!(matches!(list[1].0.jump_target, Some(JumpTarget::Return)));
    assert_eq!(list[1].1, 1);
}

#[test]
fn make_block_around_a_block_that_starts_within() {
    let code = code_of(nops(10));
    let mut b = MethodBlockBuilder::new();
    b.push_block(block(Some((3, 5)), Some(JumpTarget::Return)));
    assert_eq!(b.make_block(&code, Some((0, 8)), Some(JumpTarget::Return)), 2);
    let blocks = b.build();
    assert_eq!(blocks.len(), 3);
    assert_eq!(blocks[0].start_end, Some((3, 5)));
    assert!(matches!(blocks[0].jump_target, Some(JumpTarget::Unconditional(1, true))));
    assert_eq!(blocks[1].start_end, Some((6, 8)));
    assert!(matches!(blocks[1].jump_target, Some(JumpTarget::Return)));
    assert_eq!(blocks[2].start_end, Some((0, 2)));
    assert!(matches!(blocks[2].jump_target, Some(JumpTarget::Unconditional(0, true))));
}

#[test]
fn make_block_that_cannot_be_split() {
    let code = code_of(nops(10));
    let mut b = MethodBlockBuilder::new();
    b.push_block(block(Some((2, 8)), Some(JumpTarget::Return)));
    assert!(!b.can_make_block(&code, Some((2, 5)), Some(JumpTarget::Return)));
}

#[test]
fn parse_a_return() {
    let code = code_of(vec![VMOpcode::iconst_1(), VMOpcode::ireturn()]);
    let m = MethodBlock::parse(&code).unwrap();
    assert_eq!(m.entry, 0);
    assert_eq!(m.blocks.len(), 1);
    assert_eq!(m.blocks[0].start_end, Some((0, 1)));
    assert!(matches!(m.blocks[0].jump_target, Some(JumpTarget::Return)));
    assert_eq!(m.block_expected_stack.get(&0), Some(&vec![]));
}

#[test]
fn parse_a_goto() {
    let code = code_of(vec![VMOpcode::iconst_0(), VMOpcode::goto(2), VMOpcode::iconst_1(), VMOpcode::ireturn()]);
    let m = MethodBlock::parse(&code).unwrap();
    assert_eq!(m.entry, 1);
    assert_eq!(m.blocks.len(), 2);
    assert_eq!(m.blocks[0].start_end, Some((3, 3)));
    assert!(matches!(m.blocks[0].jump_target, Some(JumpTarget::Return)));
    assert_eq!(m.blocks[1].start_end, Some((0, 1)));
    assert!(matches!(m.blocks[1].jump_target, Some(JumpTarget::Unconditional(0, false))));
    assert_eq!(m.block_expected_stack.get(&0), Some(&vec![Some(ValueType::Int)]));
    assert_eq!(m.block_expected_stack.get(&1), Some(&vec![]));
}

use exo_class_file::bytecode::ssa::{Constant, LValue, Operand, SSABuilder, SSAInstruction};
use exo_class_file::item::ConstantPool;

#[test]
fn ssa_of_a_return() {
    let code = code_of(vec![VMOpcode::iconst_1(), VMOpcode::ireturn()]);
    let m = MethodBlock::parse(&code).unwrap();
    let b = SSABuilder::process(code, ConstantPool { entries: vec![] }, m);
    assert_eq!(b.basic_blocks.len(), 1);
    let entry = &b.basic_blocks[0];
    assert_eq!(entry.name, "entry");
    assert_eq!(entry.og_id, 0);
    assert_eq!(entry.instructions.len(), 2);
    assert!(matches!(
        entry.instructions[0],
        SSAInstruction::Declare(LValue::Variable(0), Operand::Constant(Constant::Int(1)))
    ));
    assert!(matches!(entry.instructions[1], SSAInstruction::Return(Operand::Variable(0))));
    assert!(entry.virtual_stack.is_empty());
}

#[test]
fn ssa_of_a_goto_makes_a_phi() {
    let code = code_of(vec![VMOpcode::iconst_0(), VMOpcode::goto(2), VMOpcode::iconst_1(), VMOpcode::ireturn()]);
    let m = MethodBlock::parse(&code).unwrap();
    let b = SSABuilder::process(code, ConstantPool { entries: vec![] }, m);
    assert_eq!(b.basic_blocks.len(), 2);
    let entry = &b.basic_blocks[0];
    assert_eq!(entry.name, "entry");
    assert_eq!(entry.og_id, 1);
    assert!(matches!(
        entry.instructions[0],
        SSAInstruction::Declare(LValue::Variable(0), Operand::Constant(Constant::Int(0)))
    ));
    assert!(matches!(entry.instructions[1], SSAInstruction::Goto(0)));
    assert_eq!(entry.virtual_stack, vec![(0, ValueType::Int)]);
    let target = &b.basic_blocks[1];
    assert_eq!(target.name, "block0");
    assert_eq!(target.og_id, 0);
    assert_eq!(target.instructions.len(), 2);
    assert!(matches!(target.instructions[0], SSAInstruction::Phi(LValue::Variable(1), 0)));
    assert!(matches!(target.instructions[1], SSAInstruction::Return(Operand::Variable(1))));
}

#[test]
fn ssa_constants_and_variables() {
    let pool = ConstantPool {
        entries: vec![exo_class_file::item::constant_pool::ConstantPoolEntry::Long { bytes: 5 }],
    };
    let mut b = SSABuilder::new(pool);
    assert!(matches!(b.process_const(&VMOpcode::iconst_m1()), Some(Constant::Int(-1))));
    assert!(matches!(b.process_const(&VMOpcode::dconst_1()), Some(Constant::Double(0x3ff0_0000_0000_0000))));
    assert!(matches!(b.process_const(&VMOpcode::ldc(1)), Some(Constant::Long(5))));
    assert!(b.process_const(&VMOpcode::nop()).is_none());
    assert_eq!(Constant::Null.ty(), ValueType::Object);
    assert_eq!(b.new_variable("x".to_string(), ValueType::Int), 0);
    assert_eq!(b.new_variable("x".to_string(), ValueType::Long), 1);
    assert_eq!(b.new_variable("y".to_string(), ValueType::Int), 2);
    assert_eq!(b.new_phi_constant(vec![(1, 2)]), 0);
    assert_eq!(b.new_string_constant("s".to_string()), 1);
}

#[test]
fn ssa_emit_after_a_branch() {
    let mut blk = exo_class_file::bytecode::ssa::BasicBlock::new("b".to_string(), 3);
    blk.emit(SSAInstruction::Goto(1));
    blk.emit(SSAInstruction::InvokeVirtual(7));
    assert!(matches!(blk.instructions[0], SSAInstruction::InvokeVirtual(7)));
    assert!(matches!(blk.instructions[1], SSAInstruction::Goto(1)));
    blk.stack_push(4, ValueType::Int);
    assert_eq!(blk.stack_pop(), (4, ValueType::Int));
}

#[test]
fn ssa_lookups() {
    let code = code_of(vec![VMOpcode::iconst_0(), VMOpcode::goto(2), VMOpcode::iconst_1(), VMOpcode::ireturn()]);
    let m = MethodBlock::parse(&code).unwrap();
    let b = SSABuilder::process(code, ConstantPool { entries: vec![] }, m);
    assert_eq!(b.block_of(1), Some(0));
    assert_eq!(b.block_of(0), Some(1));
    assert_eq!(b.block_of(7), None);
    let (name, ty) = b.variable(0).unwrap();
    assert_eq!((name.as_str(), *ty), ("stack0", ValueType::Int));
    assert!(b.variable(9).is_none());
    assert!(matches!(b.pool_constant(0), Some(exo_class_file::bytecode::ssa::PoolConstant::Phi(v)) if v == &vec![(1, 0)]));
    assert!(b.pool_constant(1).is_none());
}
