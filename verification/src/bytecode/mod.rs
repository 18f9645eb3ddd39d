//! Splitting a method's code into basic blocks, and what each block expects
//! to find on the operand stack.
use vstd::prelude::*;
use crate::item::opcodes::{InstructionList, VMOpcode, VMOpcodeV};

pub mod blocks;
pub mod process;
pub mod ssa;

verus! {

/// The types of values in the intermediate form.
#[derive(Clone, Copy, Debug, PartialEq, Eq, Structural)]
pub enum ValueType {
    Int,
    Byte,
    Short,
    Long,
    Double,
    Float,
    Char,
    Object,
    Array,
}

/// Whether the instruction ends a basic block: a jump or a return.
pub open spec fn branching(o: VMOpcodeV) -> bool {
    o is goto || o is if_icmple || o is ireturn || o is return_
}

/// A basic block ends at each `goto`, `if_icmple`, `ireturn` and `return`,
/// and at no other instruction.
pub proof fn law_block_enders(o: VMOpcodeV, v: i16)
    ensures
        branching(VMOpcodeV::goto(v)),
        branching(VMOpcodeV::if_icmple(v)),
        branching(VMOpcodeV::ireturn()),
        branching(VMOpcodeV::return_()),
        !(o is goto || o is if_icmple || o is ireturn || o is return_) ==> !branching(o),
{
}

/// Whether the instruction ends a basic block.
pub fn is_branching(o: &VMOpcode) -> (r: bool)
    ensures
        r == branching(o@),
{
    match o {
        VMOpcode::goto(_) | VMOpcode::if_icmple(_) | VMOpcode::ireturn() | VMOpcode::return_() => true,
        _ => false,
    }
}

/// The position of the first instruction of `list` from `start` on that
/// ends a basic block.
pub open spec fn first_branch_from(list: Seq<VMOpcodeV>, start: nat) -> Option<nat>
    decreases list.len() - start,
{
    if start >= list.len() {
        None
    } else if branching(list[start as int]) {
        Some(start)
    } else {
        first_branch_from(list, start + 1)
    }
}

/// What the operand stack looks like to the instructions read so far: the
/// types of the values they took that were there before them (`None` where
/// the type is not known), in the order they were taken, and how many values
/// they left that later instructions may take.
pub struct StackShape {
    pub needed: Seq<Option<ValueType>>,
    pub known: nat,
}

/// The stack shape after one more instruction.
pub open spec fn shape_step(st: StackShape, o: VMOpcodeV) -> StackShape {
    if o is pop {
        if st.known == 0 {
            StackShape { needed: st.needed.push(None), known: 0 }
        } else {
            StackShape { needed: st.needed, known: (st.known - 1) as nat }
        }
    } else if o is dup {
        if st.known == 0 {
            StackShape { needed: st.needed.push(None), known: 2 }
        } else {
            StackShape { needed: st.needed, known: st.known + 1 }
        }
    } else if o is iadd || o is imul || o is idiv || o is ireturn {
        if st.known == 0 {
            StackShape { needed: st.needed.push(Some(ValueType::Int)), known: 0 }
        } else {
            StackShape { needed: st.needed, known: (st.known - 1) as nat }
        }
    } else if o is iconst_0 || o is iconst_1 || o is iconst_2 || o is iconst_3 || o is iconst_4 || o is iconst_5
        || o is iconst_m1 {
        StackShape { needed: st.needed, known: st.known + 1 }
    } else {
        st
    }
}

/// The stack shape after the instructions of `list` from `s` up to, not
/// including, `end`.
pub open spec fn shape_upto(list: Seq<VMOpcodeV>, s: nat, end: nat) -> StackShape
    decreases end,
{
    if end <= s {
        StackShape { needed: seq![], known: 0 }
    } else {
        shape_step(shape_upto(list, s, (end - 1) as nat), list[end - 1])
    }
}

/// Each of the integer instructions `iadd`, `imul`, `idiv` and `ireturn`
/// takes one int from the stack: one that the instructions before it left
/// where there is one, else one that was there before them, which is then
/// expected to be an int.
pub proof fn law_int_ops_take_int(st: StackShape)
    ensures
        ({
            let taken = if st.known == 0 {
                StackShape { needed: st.needed.push(Some(ValueType::Int)), known: 0 }
            } else {
                StackShape { needed: st.needed, known: (st.known - 1) as nat }
            };
            &&& shape_step(st, VMOpcodeV::iadd()) == taken
            &&& shape_step(st, VMOpcodeV::imul()) == taken
            &&& shape_step(st, VMOpcodeV::idiv()) == taken
            &&& shape_step(st, VMOpcodeV::ireturn()) == taken
        }),
{
}

/// `pop` takes one value of unknown type, and `dup` takes one and leaves
/// two, each from what the instructions before left where there is one,
/// else from the stack before them; each `iconst_k` leaves one value; other
/// instructions leave the shape as it is.
pub proof fn law_stack_ops(st: StackShape, o: VMOpcodeV)
    ensures
        shape_step(st, VMOpcodeV::pop()) == (if st.known == 0 {
            StackShape { needed: st.needed.push(None), known: 0 }
        } else {
            StackShape { needed: st.needed, known: (st.known - 1) as nat }
        }),
        shape_step(st, VMOpcodeV::dup()) == (if st.known == 0 {
            StackShape { needed: st.needed.push(None), known: 2 }
        } else {
            StackShape { needed: st.needed, known: st.known + 1 }
        }),
        (o is iconst_m1 || o is iconst_0 || o is iconst_1 || o is iconst_2 || o is iconst_3 || o is iconst_4
            || o is iconst_5) ==> shape_step(st, o) == (StackShape { needed: st.needed, known: st.known + 1 }),
        !(o is pop || o is dup || o is iadd || o is imul || o is idiv || o is ireturn || o is iconst_m1
            || o is iconst_0 || o is iconst_1 || o is iconst_2 || o is iconst_3 || o is iconst_4
            || o is iconst_5) ==> shape_step(st, o) == st,
{
}

/// A run of `k` integer instructions (`iadd`, `imul`, `idiv`, `ireturn`)
/// with nothing before it expects `k` ints on the stack, and leaves nothing
/// that it pushed.
pub proof fn law_int_run_expects_ints(list: Seq<VMOpcodeV>, s: nat, k: nat)
    requires
        s + k <= list.len(),
        forall|i: int| s <= i < s + k ==> (list[i] == VMOpcodeV::iadd() || list[i] == VMOpcodeV::imul()
            || list[i] == VMOpcodeV::idiv() || list[i] == VMOpcodeV::ireturn()),
    ensures
        shape_upto(list, s, s + k).needed == Seq::new(k, |i: int| Some(ValueType::Int)),
        shape_upto(list, s, s + k).known == 0,
    decreases k,
{
    if k > 0 {
        law_int_run_expects_ints(list, s, (k - 1) as nat);
        assert(list[s + k - 1] == VMOpcodeV::iadd() || list[s + k - 1] == VMOpcodeV::imul()
            || list[s + k - 1] == VMOpcodeV::idiv() || list[s + k - 1] == VMOpcodeV::ireturn());
        assert(Seq::new((k - 1) as nat, |i: int| Some(ValueType::Int)).push(Some(ValueType::Int))
            =~= Seq::new(k, |i: int| Some(ValueType::Int)));
    }
}

/// Where a run of instructions from `s` to `e` (both included) stops within
/// a list of `len` instructions.
pub open spec fn run_end(len: nat, e: nat) -> nat {
    if e + 1 <= len {
        e + 1
    } else {
        len
    }
}

/// A method's code, split into basic blocks.
pub struct MethodBlock {
    /// The blocks.
    pub blocks: Vec<crate::bytecode::blocks::BasicBlock>,
    /// For each block, the types it expects on the stack.
    pub block_expected_stack: std::collections::HashMap<u64, Vec<Option<ValueType>>, std::hash::BuildHasherDefault<fnv::FnvHasher>>,
    /// The block where the method starts.
    pub entry: u64,
}

impl MethodBlock {
    /// The position of the first instruction from `start` on that ends a
    /// basic block. There must be one.
    pub fn find_first_branch(code: &InstructionList, start: usize) -> (r: usize)
        requires
            first_branch_from(code@.opcodes, start as nat) is Some,
        ensures
            first_branch_from(code@.opcodes, start as nat) == Some(r as nat),
    {
        let mut v = start;
        while v < code.opcodes.len()
            invariant
                start <= v,
                code.opcodes@.len() == code@.opcodes.len(),
                first_branch_from(code@.opcodes, start as nat) == first_branch_from(code@.opcodes, v as nat),
                first_branch_from(code@.opcodes, start as nat) is Some,
            decreases code.opcodes.len() - v,
        {
            if is_branching(&code.opcodes[v]) {
                return v;
            }
            v = v + 1;
        }
        v
    }

    /// The types that the instructions from `s` to `e` (both included, and
    /// no further than the end of the code) take from the stack that were
    /// there before them, in the order they take them.
    pub fn expected_stack_for(code: &InstructionList, s: usize, e: usize) -> (r: Vec<Option<ValueType>>)
        requires
            s <= e + 1,
            e < usize::MAX,
        ensures
            r@ == shape_upto(code@.opcodes, s as nat, run_end(code@.opcodes.len(), e as nat)).needed,
    {
        let ghost list = code@.opcodes;
        let mut stack: Vec<Option<ValueType>> = Vec::new();
        let mut known_stack: Vec<Option<ValueType>> = Vec::new();
        let stop = if e + 1 <= code.opcodes.len() {
            e + 1
        } else {
            code.opcodes.len()
        };
        let mut idx = s;
        while idx < stop
            invariant
                s <= idx,
                stop <= code.opcodes.len(),
                list == code@.opcodes,
                list.len() == code.opcodes.len(),
                stop == run_end(list.len(), e as nat),
                s <= stop ==> idx <= stop,
                s > stop ==> idx == s,
                ({
                    let sh = shape_upto(list, s as nat, idx as nat);
                    stack@ == sh.needed && known_stack.len() == sh.known
                }),
            decreases stop - idx,
        {
            let inst = &code.opcodes[idx];
            match inst {
                VMOpcode::pop() => {
                    if known_stack.pop().is_none() {
                        stack.push(None);
                    }
                },
                VMOpcode::dup() => {
                    if known_stack.pop().is_none() {
                        stack.push(None);
                    }
                    known_stack.push(None);
                    known_stack.push(None);
                },
                VMOpcode::iadd() | VMOpcode::imul() | VMOpcode::idiv() | VMOpcode::ireturn() => {
                    if known_stack.pop().is_none() {
                        stack.push(Some(ValueType::Int));
                    }
                },
                VMOpcode::iconst_0() | VMOpcode::iconst_1() | VMOpcode::iconst_2() | VMOpcode::iconst_3()
                | VMOpcode::iconst_4() | VMOpcode::iconst_5() | VMOpcode::iconst_m1() => {
                    known_stack.push(Some(ValueType::Int));
                },
                _ => {},
            }
            idx = idx + 1;
        }
        stack
    }
}

} // verus!
