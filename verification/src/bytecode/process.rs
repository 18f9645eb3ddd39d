//! Following a method's jumps to split its code into basic blocks.
use vstd::prelude::*;
use crate::bytecode::{MethodBlock, ValueType, first_branch_from, shape_upto, run_end};
use crate::bytecode::blocks::{BasicBlock, JumpTarget, MethodBlockBuilder, block_ending_from, spec_make_block, blocks_of};
use crate::fnvmap::{fnv_get, fnv_insert};
use crate::item::opcodes::{InstructionList, InstructionListV, VMOpcode, VMOpcodeV};

verus! {

/// The state that following the jumps builds up: for each branching
/// instruction, the block it was last given and the start of the run that
/// reached it; what each block expects on the stack; the blocks; and the
/// entry block, once known.
pub struct ProcessState {
    pub visited: Map<usize, (u64, usize)>,
    pub expected: Map<u64, Seq<Option<ValueType>>>,
    pub list: Seq<(BasicBlock, u64)>,
    pub entry: Option<u64>,
}

/// The instruction that a jump of `off` bytes from the instruction at `b`
/// lands on, by way of the byte positions of the code; `None` where a
/// position is missing or the arithmetic leaves `isize`.
pub open spec fn jump_dest(code: InstructionListV, b: usize, off: i16) -> Option<usize> {
    if !code.code_to_byte.contains_key(b) {
        None
    } else {
        let sum = (code.code_to_byte[b] as isize) as int + off as int;
        if sum < isize::MIN || sum > isize::MAX {
            None
        } else if !code.byte_to_code.contains_key((sum as isize) as usize) {
            None
        } else {
            Some(code.byte_to_code[(sum as isize) as usize])
        }
    }
}

/// [`jump_dest`], computed.
fn jump_dest_exec(code: &InstructionList, b: usize, off: i16) -> (r: Option<usize>)
    ensures
        r == jump_dest(code@, b, off),
{
    let x = match fnv_get(&code.code_to_byte, b) {
        Some(x) => *x,
        None => {
            return None;
        },
    };
    match (x as isize).checked_add(off as isize) {
        Some(sum) => match fnv_get(&code.byte_to_code, sum as usize) {
            Some(y) => Some(*y),
            None => None,
        },
        None => None,
    }
}

/// What the instructions from `s` to `e` expect on the stack.
pub open spec fn expects(code: InstructionListV, s: nat, e: nat) -> Seq<Option<ValueType>> {
    shape_upto(code.opcodes, s, run_end(code.opcodes.len(), e)).needed
}

/// After making the block `v` that runs from `s`: a block that ends at `s`
/// and only runs on into the next is made to run on into `v`; where there
/// is none, `v` becomes the entry if `entry_none`. `None` where `v` is not a
/// block number.
pub open spec fn link_block(st: ProcessState, s: usize, v: u64, entry_none: bool) -> Option<ProcessState> {
    match block_ending_from(st.list, s, v, 0) {
        Some(p) => match st.list[p as int].0.jump_target {
            Some(JumpTarget::Unconditional(_, true)) => if v == u64::MAX {
                None
            } else {
                Some(ProcessState {
                    visited: st.visited,
                    expected: st.expected,
                    list: st.list.update(p as int, (BasicBlock {
                        start_end: st.list[p as int].0.start_end,
                        jump_target: Some(JumpTarget::Unconditional(v, true)),
                    }, st.list[p as int].1)),
                    entry: st.entry,
                })
            },
            _ => Some(st),
        },
        None => if entry_none {
            Some(ProcessState { visited: st.visited, expected: st.expected, list: st.list, entry: Some(v) })
        } else {
            Some(st)
        },
    }
}

/// The state with the block list `list`.
pub open spec fn with_list(st: ProcessState, list: Seq<(BasicBlock, u64)>) -> ProcessState {
    ProcessState { visited: st.visited, expected: st.expected, list, entry: st.entry }
}

/// The state with the instruction at `b` recorded as given the block `v`
/// from the start `s`.
pub open spec fn with_visit(st: ProcessState, b: usize, v: u64, s: usize) -> ProcessState {
    ProcessState { visited: st.visited.insert(b, (v, s)), expected: st.expected, list: st.list, entry: st.entry }
}

/// The state with the block `v` expecting `stack`.
pub open spec fn with_expected(st: ProcessState, v: u64, stack: Seq<Option<ValueType>>) -> ProcessState {
    ProcessState { visited: st.visited, expected: st.expected.insert(v, stack), list: st.list, entry: st.entry }
}

/// The block that ends with the return at `b`, reached by the run from `s`.
pub open spec fn process_return(code: InstructionListV, st: ProcessState, s: usize, b: usize) -> Option<(ProcessState, u64)> {
    match spec_make_block(st.list, code.opcodes.len(), Some((s, b)), Some(JumpTarget::Return)) {
        None => None,
        Some((l, v)) => {
            let st1 = with_visit(with_expected(with_list(st, l), v, expects(code, s as nat, b as nat)), b, v, s);
            match link_block(st1, s, v, st1.entry is None) {
                None => None,
                Some(st2) => Some((st2, v)),
            }
        },
    }
}

/// The block that ends with the `goto` at `b`, reached by the run from
/// `s`, once the block at its destination `t` (running to `end`) is made
/// (`after` is the state then, `part` that block's number).
pub open spec fn process_goto_end(code: InstructionListV, after: ProcessState, part: u64, s: usize, b: usize, t: usize, end: usize, entry_none: bool) -> Option<(ProcessState, u64)> {
    let st3 = with_expected(after, part, expects(code, t as nat, end as nat));
    let start_end = if b == 0 { None } else { Some((s, b)) };
    if part == u64::MAX {
        None
    } else {
        match spec_make_block(st3.list, code.opcodes.len(), start_end, Some(JumpTarget::Unconditional(part, false))) {
            None => None,
            Some((l, v)) => {
                let st4 = with_visit(with_list(st3, l), b, v, s);
                let st5 = if b == 0 { st4 } else { with_expected(st4, v, expects(code, s as nat, b as nat)) };
                match link_block(st5, s, v, entry_none) {
                    None => None,
                    Some(st6) => Some((st6, v)),
                }
            },
        }
    }
}

/// The block that ends with the conditional jump at `b`, reached by the run
/// from `s`, once the blocks at its destination (numbered `goto_part`) and
/// after it (numbered `fall_part`, running from `b + 1` to `fall_end`) are
/// made (`after` is the state then).
pub open spec fn process_if_end(code: InstructionListV, after: ProcessState, goto_part: u64, fall_part: u64, s: usize, b: usize, fall_end: usize, entry_none: bool) -> Option<(ProcessState, u64)> {
    let st5 = with_expected(after, fall_part, expects(code, (b + 1) as nat, fall_end as nat));
    if goto_part == u64::MAX || fall_part == u64::MAX {
        None
    } else {
        match spec_make_block(st5.list, code.opcodes.len(), Some((s, b)), Some(JumpTarget::Conditional(goto_part, fall_part))) {
            None => None,
            Some((l, v)) => {
                let st6 = with_expected(with_visit(with_list(st5, l), b, v, s), v, expects(code, s as nat, b as nat));
                match link_block(st6, s, v, entry_none) {
                    None => None,
                    Some(st7) => Some((with_visit(st7, b, v, s), v)),
                }
            },
        }
    }
}

/// The first branching instruction of the run from `s` to `e`, if the run
/// has one.
pub open spec fn run_branch(code: InstructionListV, s: usize, e: usize) -> Option<usize> {
    if e == usize::MAX {
        None
    } else {
    match first_branch_from(code.opcodes, s as nat) {
        Some(bn) => if bn <= e { Some(bn as usize) } else { None },
        None => None,
    }
    }
}

/// The instruction at `b`.
pub open spec fn op_at(code: InstructionListV, b: usize) -> VMOpcodeV {
    code.opcodes[b as int]
}

/// Following a `goto` of `off` bytes at `b`, reached by the run from `s`:
/// the block at its destination first, then the block that jumps there.
pub open spec fn process_goto(code: InstructionListV, st: ProcessState, s: usize, b: usize, off: i16, fuel: nat) -> Option<(ProcessState, u64)>
    decreases fuel, 0nat,
{
    if fuel == 0 {
        None
    } else {
        match jump_dest(code, b, off) {
            None => None,
            Some(t) => match first_branch_from(code.opcodes, t as nat) {
                None => None,
                Some(end) => {
                    let n = if end == b { st.list.len() } else { st.list.len() + 1 };
                    if n > usize::MAX {
                        None
                    } else {
                        match spec_process(code, with_visit(st, b, n as u64, s), t, end as usize, (fuel - 1) as nat) {
                            None => None,
                            Some((after, part)) => process_goto_end(code, after, part, s, b, t, end as usize, st.entry is None),
                        }
                    }
                },
            },
        }
    }
}

/// Following a conditional jump of `off` bytes at `b`, reached by the run
/// from `s`: the block at its destination, then the block after it, then
/// the block that chooses between them.
pub open spec fn process_if(code: InstructionListV, st: ProcessState, s: usize, b: usize, off: i16, fuel: nat) -> Option<(ProcessState, u64)>
    decreases fuel, 0nat,
{
    if fuel == 0 {
        None
    } else {
        match jump_dest(code, b, off) {
            None => None,
            Some(t) => match first_branch_from(code.opcodes, t as nat) {
                None => None,
                Some(goto_end) => if st.list.len() + 1 > usize::MAX {
                    None
                } else {
                    match spec_process(code, with_visit(st, b, (st.list.len() + 1) as u64, s), t, goto_end as usize, (fuel - 1) as nat) {
                        None => None,
                        Some((st2, goto_part)) => {
                            let st3 = with_expected(st2, goto_part, expects(code, t as nat, goto_end));
                            match first_branch_from(code.opcodes, (b + 1) as nat) {
                                None => None,
                                Some(fall_end) => match spec_process(code, st3, (b + 1) as usize, fall_end as usize, (fuel - 1) as nat) {
                                    None => None,
                                    Some((st4, fall_part)) =>
                                        process_if_end(code, st4, goto_part, fall_part, s, b, fall_end as usize, st.entry is None),
                                },
                            }
                        },
                    }
                },
            },
        }
    }
}

/// What following the jumps from the run of instructions from `s` to `e`
/// gives, with at most `fuel` nested runs: the state afterwards and the
/// number of the block that the run starts. The run ends at its first
/// branching instruction `b`; where that was already reached from `s`, its
/// block is the answer. Otherwise a return makes a block; a `goto` first
/// follows its destination, an `if_icmple` its destination and then the
/// instruction after it, and then makes the block that jumps there. `None`
/// where the program would stop, or where `fuel` runs out.
pub open spec fn spec_process(code: InstructionListV, st: ProcessState, s: usize, e: usize, fuel: nat) -> Option<(ProcessState, u64)>
    decreases fuel, 1nat,
{
    match run_branch(code, s, e) {
        None => None,
        Some(b) => {
            let op = op_at(code, b);
            if st.visited.contains_key(b) && st.visited[b].1 == s {
                Some((st, st.visited[b].0))
            } else if op is goto {
                process_goto(code, st, s, b, op->goto_0, fuel)
            } else if op is if_icmple {
                process_if(code, st, s, b, op->if_icmple_0, fuel)
            } else {
                process_return(code, st, s, b)
            }
        },
    }
}

/// What each block expects, as sequences.
pub open spec fn expected_view(m: Map<u64, Vec<Option<ValueType>>>) -> Map<u64, Seq<Option<ValueType>>> {
    m.map_values(|v: Vec<Option<ValueType>>| v@)
}

/// The mathematical form of the state that the program keeps.
pub open spec fn state_of(
    visited: fnv::FnvHashMap<usize, (u64, usize)>,
    expected: fnv::FnvHashMap<u64, Vec<Option<ValueType>>>,
    builder: MethodBlockBuilder,
    entry: Option<u64>,
) -> ProcessState {
    ProcessState {
        visited: visited@,
        expected: expected_view(expected@),
        list: builder.basic_block_list@,
        entry,
    }
}

/// Recording what a block expects.
proof fn lemma_expected_insert(m: Map<u64, Vec<Option<ValueType>>>, k: u64, x: Vec<Option<ValueType>>)
    ensures
        expected_view(m.insert(k, x)) == expected_view(m).insert(k, x@),
{
    assert(expected_view(m.insert(k, x)) =~= expected_view(m).insert(k, x@));
}

/// The first branching instruction found from `v` on is there, at or after `v`.
proof fn lemma_first_branch(list: Seq<VMOpcodeV>, v: nat)
    ensures
        first_branch_from(list, v) matches Some(bn) ==> v <= bn < list.len()
            && crate::bytecode::branching(list[bn as int]),
    decreases list.len() - v,
{
    if v < list.len() && !crate::bytecode::branching(list[v as int]) {
        lemma_first_branch(list, v + 1);
    }
}

/// [`run_branch`], computed.
fn run_branch_exec(code: &InstructionList, s: usize, e: usize) -> (r: Option<usize>)
    ensures
        r == run_branch(code@, s, e),
        r matches Some(b) ==> s <= b < code.opcodes.len(),
{
    proof {
        lemma_first_branch(code@.opcodes, s as nat);
    }
    if e == usize::MAX {
        return None;
    }
    let mut v = s;
    while v < code.opcodes.len() && v <= e
        invariant
            s <= v,
            e < usize::MAX,
            code.opcodes@.len() == code@.opcodes.len(),
            first_branch_from(code@.opcodes, s as nat) == first_branch_from(code@.opcodes, v as nat),
        decreases code.opcodes.len() - v,
    {
        if crate::bytecode::is_branching(&code.opcodes[v]) {
            assert(first_branch_from(code@.opcodes, v as nat) == Some(v as nat));
            return Some(v);
        }
        v = v + 1;
    }
    proof {
        lemma_first_branch(code@.opcodes, v as nat);
    }
    None
}

/// [`link_block`], computed on the builder and the entry.
fn link_block_exec(builder: &mut MethodBlockBuilder, entry: &mut Option<u64>, s: usize, v: u64, entry_none: bool)
    requires
        link_block(ProcessState { visited: Map::empty(), expected: Map::empty(), list: old(builder).basic_block_list@, entry: *old(entry) }, s, v, entry_none) is Some,
    ensures
        link_block(ProcessState { visited: Map::empty(), expected: Map::empty(), list: old(builder).basic_block_list@, entry: *old(entry) }, s, v, entry_none)
            == Some(ProcessState { visited: Map::empty(), expected: Map::empty(), list: final(builder).basic_block_list@, entry: *final(entry) }),
        final(builder).current_block == old(builder).current_block,
{
    let ghost st = ProcessState { visited: Map::empty(), expected: Map::empty(), list: old(builder).basic_block_list@, entry: *old(entry) };
    match builder.find_block(s, v) {
        Some(p) => {

            let (blk, num) = builder.basic_block_list[p];
            if let Some(JumpTarget::Unconditional(_, true)) = blk.jump_target {
                builder.basic_block_list.set(p, (BasicBlock {
                    start_end: blk.start_end,
                    jump_target: Some(JumpTarget::Unconditional(v, true)),
                }, num));
            }
        },
        None => {
            if entry_none {
                *entry = Some(v);
            }
        },
    }
}

/// Linking keeps what the state records besides the blocks and the entry.
proof fn lemma_link_frame(st: ProcessState, s: usize, v: u64, entry_none: bool)
    ensures
        link_block(st, s, v, entry_none) matches Some(st2) ==> st2.visited == st.visited && st2.expected == st.expected,
        link_block(st, s, v, entry_none) == (match link_block(
            ProcessState { visited: Map::empty(), expected: Map::empty(), list: st.list, entry: st.entry }, s, v, entry_none) {
            Some(x) => Some(ProcessState { visited: st.visited, expected: st.expected, list: x.list, entry: x.entry }),
            None => None,
        }),
{
}

/// What splitting the whole code gives, with at most `fuel` nested runs:
/// the state afterwards, provided that the method's entry block is known
/// by then; `None` where the program would stop or `fuel` runs out.
pub open spec fn parse_state(code: InstructionListV, fuel: nat) -> Option<ProcessState> {
    let empty = ProcessState { visited: Map::empty(), expected: Map::empty(), list: seq![], entry: None };
    match spec_process(code, empty, 0, code.opcodes.len() as usize, fuel) {
        Some((st, _)) => if st.entry is Some { Some(st) } else { None },
        None => None,
    }
}

impl MethodBlock {
    /// The block that ends with the return at `b` (see [`process_return`]).
    fn process_return(
        already_visited: &mut fnv::FnvHashMap<usize, (u64, usize)>,
        block_expected_stack: &mut fnv::FnvHashMap<u64, Vec<Option<ValueType>>>,
        code: &InstructionList,
        builder: &mut MethodBlockBuilder,
        s: usize,
        b: usize,
        entry: &mut Option<u64>,
    ) -> (r: u64)
        requires
            s <= b < code.opcodes.len(),
            process_return(code@, state_of(*old(already_visited), *old(block_expected_stack), *old(builder), *old(entry)), s, b) is Some,
        ensures
            process_return(code@, state_of(*old(already_visited), *old(block_expected_stack), *old(builder), *old(entry)), s, b)
                == Some((state_of(*final(already_visited), *final(block_expected_stack), *final(builder), *final(entry)), r)),
            final(builder).current_block == old(builder).current_block,
    {
        let ghost st = state_of(*already_visited, *block_expected_stack, *builder, *entry);
        let v = builder.make_block(code, Some((s, b)), Some(JumpTarget::Return));
        let stack = MethodBlock::expected_stack_for(code, s, b);
        proof {
            lemma_expected_insert(block_expected_stack@, v, stack);
        }
        fnv_insert(block_expected_stack, v, stack);
        fnv_insert(already_visited, b, (v, s));
        let ghost st1 = state_of(*already_visited, *block_expected_stack, *builder, *entry);
        assert(st1 == with_visit(with_expected(with_list(st, builder.basic_block_list@), v, expects(code@, s as nat, b as nat)), b, v, s));
        let entry_none = entry.is_none();
        proof {
            lemma_link_frame(st1, s, v, entry_none);
        }
        link_block_exec(builder, entry, s, v, entry_none);
        v
    }

    /// The blocks from the `goto` of `off` bytes at `b` on (see [`process_goto`]).
    fn process_goto(
        already_visited: &mut fnv::FnvHashMap<usize, (u64, usize)>,
        block_expected_stack: &mut fnv::FnvHashMap<u64, Vec<Option<ValueType>>>,
        code: &InstructionList,
        builder: &mut MethodBlockBuilder,
        s: usize,
        b: usize,
        off: i16,
        entry: &mut Option<u64>,
        Ghost(fuel): Ghost<nat>,
    ) -> (r: u64)
        requires
            s <= b < code.opcodes.len(),
            process_goto(code@, state_of(*old(already_visited), *old(block_expected_stack), *old(builder), *old(entry)), s, b, off, fuel) is Some,
        ensures
            process_goto(code@, state_of(*old(already_visited), *old(block_expected_stack), *old(builder), *old(entry)), s, b, off, fuel)
                == Some((state_of(*final(already_visited), *final(block_expected_stack), *final(builder), *final(entry)), r)),
            final(builder).current_block == old(builder).current_block,
        decreases fuel, 0nat,
    {
        let ghost st = state_of(*already_visited, *block_expected_stack, *builder, *entry);
        let t = match jump_dest_exec(code, b, off) {
            Some(t) => t,
            None => vstd::pervasive::unreached(),
        };
        proof {
            lemma_first_branch(code@.opcodes, t as nat);
        }
        let end = MethodBlock::find_first_branch(code, t);
        let entry_is_none = entry.is_none();
        let len = builder.basic_block_list.len();
        let val: u64 = if end == b {
            len as u64
        } else {
            (len + 1) as u64
        };
        fnv_insert(already_visited, b, (val, s));
        assert(state_of(*already_visited, *block_expected_stack, *builder, *entry) == with_visit(st, b, val, s));
        let goto_part = Self::process(already_visited, block_expected_stack, code, builder, t, end, entry, Ghost((fuel - 1) as nat));
        let ghost after = state_of(*already_visited, *block_expected_stack, *builder, *entry);
        let stack = MethodBlock::expected_stack_for(code, t, end);
        proof {
            lemma_expected_insert(block_expected_stack@, goto_part, stack);
        }
        fnv_insert(block_expected_stack, goto_part, stack);
        let ghost st3 = state_of(*already_visited, *block_expected_stack, *builder, *entry);
        assert(st3 == with_expected(after, goto_part, expects(code@, t as nat, end as nat)));
        let start_end = if b == 0 {
            None
        } else {
            Some((s, b))
        };
        let v = builder.make_block(code, start_end, Some(JumpTarget::Unconditional(goto_part, false)));
        fnv_insert(already_visited, b, (v, s));
        if b != 0 {
            let stack2 = MethodBlock::expected_stack_for(code, s, b);
            proof {
                lemma_expected_insert(block_expected_stack@, v, stack2);
            }
            fnv_insert(block_expected_stack, v, stack2);
        }
        let ghost st5 = state_of(*already_visited, *block_expected_stack, *builder, *entry);
        proof {
            lemma_link_frame(st5, s, v, entry_is_none);
        }
        link_block_exec(builder, entry, s, v, entry_is_none);
        v
    }

    /// The blocks from the conditional jump of `off` bytes at `b` on (see
    /// [`process_if`]).
    fn process_if(
        already_visited: &mut fnv::FnvHashMap<usize, (u64, usize)>,
        block_expected_stack: &mut fnv::FnvHashMap<u64, Vec<Option<ValueType>>>,
        code: &InstructionList,
        builder: &mut MethodBlockBuilder,
        s: usize,
        b: usize,
        off: i16,
        entry: &mut Option<u64>,
        Ghost(fuel): Ghost<nat>,
    ) -> (r: u64)
        requires
            s <= b < code.opcodes.len(),
            process_if(code@, state_of(*old(already_visited), *old(block_expected_stack), *old(builder), *old(entry)), s, b, off, fuel) is Some,
        ensures
            process_if(code@, state_of(*old(already_visited), *old(block_expected_stack), *old(builder), *old(entry)), s, b, off, fuel)
                == Some((state_of(*final(already_visited), *final(block_expected_stack), *final(builder), *final(entry)), r)),
            final(builder).current_block == old(builder).current_block,
        decreases fuel, 0nat,
    {
        let ghost st = state_of(*already_visited, *block_expected_stack, *builder, *entry);
        let t = match jump_dest_exec(code, b, off) {
            Some(t) => t,
            None => vstd::pervasive::unreached(),
        };
        proof {
            lemma_first_branch(code@.opcodes, t as nat);
            lemma_first_branch(code@.opcodes, (b + 1) as nat);
        }
        let goto_end = MethodBlock::find_first_branch(code, t);
        let entry_is_none = entry.is_none();
        let len = builder.basic_block_list.len();
        fnv_insert(already_visited, b, ((len + 1) as u64, s));
        assert(state_of(*already_visited, *block_expected_stack, *builder, *entry) == with_visit(st, b, (len + 1) as u64, s));
        let goto_part = Self::process(already_visited, block_expected_stack, code, builder, t, goto_end, entry, Ghost((fuel - 1) as nat));
        let ghost st2 = state_of(*already_visited, *block_expected_stack, *builder, *entry);
        let stack = MethodBlock::expected_stack_for(code, t, goto_end);
        proof {
            lemma_expected_insert(block_expected_stack@, goto_part, stack);
        }
        fnv_insert(block_expected_stack, goto_part, stack);
        assert(state_of(*already_visited, *block_expected_stack, *builder, *entry) == with_expected(st2, goto_part, expects(code@, t as nat, goto_end as nat)));
        let fall_end = MethodBlock::find_first_branch(code, b + 1);
        let fall_part = Self::process(already_visited, block_expected_stack, code, builder, b + 1, fall_end, entry, Ghost((fuel - 1) as nat));
        let ghost st4 = state_of(*already_visited, *block_expected_stack, *builder, *entry);
        let stack2 = MethodBlock::expected_stack_for(code, b + 1, fall_end);
        proof {
            lemma_expected_insert(block_expected_stack@, fall_part, stack2);
        }
        fnv_insert(block_expected_stack, fall_part, stack2);
        assert(state_of(*already_visited, *block_expected_stack, *builder, *entry) == with_expected(st4, fall_part, expects(code@, (b + 1) as nat, fall_end as nat)));
        let v = builder.make_block(code, Some((s, b)), Some(JumpTarget::Conditional(goto_part, fall_part)));
        fnv_insert(already_visited, b, (v, s));
        let stack3 = MethodBlock::expected_stack_for(code, s, b);
        proof {
            lemma_expected_insert(block_expected_stack@, v, stack3);
        }
        fnv_insert(block_expected_stack, v, stack3);
        let ghost st6 = state_of(*already_visited, *block_expected_stack, *builder, *entry);
        proof {
            lemma_link_frame(st6, s, v, entry_is_none);
        }
        link_block_exec(builder, entry, s, v, entry_is_none);
        fnv_insert(already_visited, b, (v, s));
        v
    }

    /// Follow the jumps from the run of instructions from `s` to `e` (see
    /// [`spec_process`]); the number of the block that the run starts.
    fn process(
        already_visited: &mut fnv::FnvHashMap<usize, (u64, usize)>,
        block_expected_stack: &mut fnv::FnvHashMap<u64, Vec<Option<ValueType>>>,
        code: &InstructionList,
        builder: &mut MethodBlockBuilder,
        s: usize,
        e: usize,
        entry: &mut Option<u64>,
        Ghost(fuel): Ghost<nat>,
    ) -> (r: u64)
        requires
            spec_process(code@, state_of(*old(already_visited), *old(block_expected_stack), *old(builder), *old(entry)), s, e, fuel) is Some,
        ensures
            spec_process(code@, state_of(*old(already_visited), *old(block_expected_stack), *old(builder), *old(entry)), s, e, fuel)
                == Some((state_of(*final(already_visited), *final(block_expected_stack), *final(builder), *final(entry)), r)),
            final(builder).current_block == old(builder).current_block,
        decreases fuel, 1nat,
    {
        let b = match run_branch_exec(code, s, e) {
            Some(b) => b,
            None => vstd::pervasive::unreached(),
        };
        if let Some(hit) = fnv_get(already_visited, b) {
            let (v, v_s) = *hit;
            if v_s == s {
                return v;
            }
        }
        match &code.opcodes[b] {
            VMOpcode::goto(off) => Self::process_goto(already_visited, block_expected_stack, code, builder, s, b, *off, entry, Ghost(fuel)),
            VMOpcode::if_icmple(off) => Self::process_if(already_visited, block_expected_stack, code, builder, s, b, *off, entry, Ghost(fuel)),
            _ => Self::process_return(already_visited, block_expected_stack, code, builder, s, b, entry),
        }
    }

    /// Split the code into basic blocks, following its jumps from the first
    /// instruction (see [`parse_state`]). Splitting must come to an end and
    /// find the entry block.
    pub fn parse(code: &InstructionList) -> (r: Option<Self>)
        requires
            exists|fuel: nat| parse_state(code@, fuel) is Some,
        ensures
            ({
                let st = parse_state(code@, choose|fuel: nat| parse_state(code@, fuel) is Some)->0;
                r matches Some(m) && m.blocks@ == blocks_of(st.list)
                    && expected_view(m.block_expected_stack@) == st.expected && m.entry == st.entry->0
            }),
    {
        let ghost fuel = choose|fuel: nat| parse_state(code@, fuel) is Some;
        let mut builder = MethodBlockBuilder::new();
        let mut entry: Option<u64> = None;
        let mut block_expected_stack: fnv::FnvHashMap<u64, Vec<Option<ValueType>>> = fnv::FnvHashMap::default();
        let mut already_visited: fnv::FnvHashMap<usize, (u64, usize)> = fnv::FnvHashMap::default();
        assert(expected_view(block_expected_stack@) =~= Map::empty());
        assert(builder.basic_block_list@ =~= seq![]);
        assert(state_of(already_visited, block_expected_stack, builder, entry) == ProcessState {
            visited: Map::empty(),
            expected: Map::empty(),
            list: seq![],
            entry: None,
        });
        Self::process(&mut already_visited, &mut block_expected_stack, code, &mut builder, 0, code.opcodes.len(), &mut entry, Ghost(fuel));
        match entry {
            Some(en) => Some(Self { blocks: builder.build(), entry: en, block_expected_stack }),
            None => vstd::pervasive::unreached(),
        }
    }
}

} // verus!
