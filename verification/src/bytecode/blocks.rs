//! Basic blocks and the builder that splits a method's code into them.
use vstd::prelude::*;
use crate::item::opcodes::InstructionList;

verus! {

/// Where a basic block goes when it ends. The builder stops before it would
/// number a block `u64::MAX`.
#[derive(Clone, Copy, Debug)]
pub enum JumpTarget {
    /// A conditional jump: the block taken when the condition holds, and the
    /// one taken when it fails.
    Conditional(u64, u64),
    /// An unconditional jump to a block; `true` where the block only runs on
    /// into the next one (the jump was not written in the code).
    Unconditional(u64, bool),
    /// A return from the method.
    Return,
}

/// A basic block: the first and last instruction that it holds, and where
/// it goes at its end.
#[derive(Clone, Copy, Debug)]
pub struct BasicBlock {
    pub start_end: Option<(usize, usize)>,
    pub jump_target: Option<JumpTarget>,
}

impl Default for BasicBlock {
    fn default() -> (r: Self)
        ensures
            r == (BasicBlock { start_end: None, jump_target: None }),
    {
        BasicBlock { start_end: None, jump_target: None }
    }
}

/// Builds the list of a method's basic blocks, each with its number.
pub struct MethodBlockBuilder {
    /// The block being built.
    pub current_block: BasicBlock,
    /// The blocks made so far, each with its number.
    pub basic_block_list: Vec<(BasicBlock, u64)>,
}

/// The position of the first block of `list`, from the `i`th on, that ends
/// at `ends_at` and whose number is not `excluding`.
pub open spec fn block_ending_from(list: Seq<(BasicBlock, u64)>, ends_at: usize, excluding: u64, i: nat) -> Option<nat>
    decreases list.len() - i,
{
    if i >= list.len() {
        None
    } else if list[i as int].0.start_end matches Some((_, end)) && end == ends_at && list[i as int].1 != excluding {
        Some(i)
    } else {
        block_ending_from(list, ends_at, excluding, i + 1)
    }
}

/// A block found by [`block_ending_from`] is within the list.
pub proof fn lemma_block_ending(list: Seq<(BasicBlock, u64)>, ends_at: usize, excluding: u64, i: nat)
    ensures
        block_ending_from(list, ends_at, excluding, i) matches Some(j) ==> i <= j < list.len(),
    decreases list.len() - i,
{
    if i < list.len() {
        lemma_block_ending(list, ends_at, excluding, i + 1);
    }
}

/// `list` with `block` appended, numbered by its position.
pub open spec fn list_push(list: Seq<(BasicBlock, u64)>, block: BasicBlock) -> Seq<(BasicBlock, u64)> {
    list.push((block, list.len() as u64))
}

/// The blocks of `list`, without their numbers.
pub open spec fn blocks_of(list: Seq<(BasicBlock, u64)>) -> Seq<BasicBlock> {
    Seq::new(list.len(), |i: int| list[i].0)
}

impl MethodBlockBuilder {
    /// A builder with no blocks.
    pub fn new() -> (r: Self)
        ensures
            r.current_block == (BasicBlock { start_end: None, jump_target: None }),
            r.basic_block_list@ == Seq::<(BasicBlock, u64)>::empty(),
    {
        Self { current_block: BasicBlock::default(), basic_block_list: Vec::new() }
    }

    /// The position in the list of the first block that ends at `ends_at`
    /// and whose number is not `excluding`.
    pub fn find_block(&self, ends_at: usize, excluding: u64) -> (r: Option<usize>)
        ensures
            match block_ending_from(self.basic_block_list@, ends_at, excluding, 0) {
                Some(i) => r matches Some(j) && j == i && i < self.basic_block_list@.len(),
                None => r is None,
            },
    {
        proof {
            lemma_block_ending(self.basic_block_list@, ends_at, excluding, 0);
        }
        let mut i: usize = 0;
        while i < self.basic_block_list.len()
            invariant
                i <= self.basic_block_list.len(),
                block_ending_from(self.basic_block_list@, ends_at, excluding, 0)
                    == block_ending_from(self.basic_block_list@, ends_at, excluding, i as nat),
            decreases self.basic_block_list.len() - i,
        {
            let (block, idx) = self.basic_block_list[i];
            if let Some((_, end)) = block.start_end {
                if end == ends_at && idx != excluding {
                    return Some(i);
                }
            }
            i = i + 1;
        }
        None
    }

    /// Append a block, numbered by its position; its number.
    pub fn push_block(&mut self, block: BasicBlock) -> (r: u64)
        ensures
            r == old(self).basic_block_list@.len() as u64,
            final(self).basic_block_list@ == list_push(old(self).basic_block_list@, block),
            final(self).current_block == old(self).current_block,
    {
        let len = self.basic_block_list.len() as u64;
        self.basic_block_list.push((block, len));
        len
    }

    /// The blocks, in order.
    pub fn build(self) -> (r: Vec<BasicBlock>)
        ensures
            r@ == blocks_of(self.basic_block_list@),
    {
        let mut out: Vec<BasicBlock> = Vec::new();
        let mut i: usize = 0;
        while i < self.basic_block_list.len()
            invariant
                i <= self.basic_block_list.len(),
                out@ == blocks_of(self.basic_block_list@).take(i as int),
            decreases self.basic_block_list.len() - i,
        {
            out.push(self.basic_block_list[i].0);
            i = i + 1;
            assert(out@ =~= blocks_of(self.basic_block_list@).take(i as int));
        }
        assert(out@ =~= blocks_of(self.basic_block_list@));
        out
    }
}

/// Where the search that places a new block among the others stands: the
/// blocks so far, the new block as it has been cut down, the blocks still to
/// append, and the number that the next appended block will get.
pub struct Placement {
    pub list: Seq<(BasicBlock, u64)>,
    pub block: BasicBlock,
    pub to_add: Seq<BasicBlock>,
    pub alloc: u64,
}

/// Whether `v` starts within the range of `block`.
pub open spec fn starts_within(v: BasicBlock, block: BasicBlock) -> bool {
    match (v.start_end, block.start_end) {
        (Some((vs, _)), Some((bs, be))) => bs <= vs <= be,
        _ => false,
    }
}

/// Whether `v` ends within the range of `block`.
pub open spec fn ends_within(v: BasicBlock, block: BasicBlock) -> bool {
    match (v.start_end, block.start_end) {
        (Some((_, ve)), Some((bs, be))) => bs <= ve <= be,
        _ => false,
    }
}

/// The position of the first block of `list`, from the `i`th on, that
/// starts or ends within the range of `block`.
pub open spec fn first_touching(list: Seq<(BasicBlock, u64)>, block: BasicBlock, i: nat) -> Option<nat>
    decreases list.len() - i,
{
    if i >= list.len() {
        None
    } else if starts_within(list[i as int].0, block) || ends_within(list[i as int].0, block) {
        Some(i)
    } else {
        first_touching(list, block, i + 1)
    }
}

/// The last instruction of a block, or 0 for a block without instructions.
pub open spec fn end_of(b: BasicBlock) -> nat {
    match b.start_end {
        Some((_, e)) => e as nat,
        None => 0,
    }
}

/// The sum of the last instructions of the blocks of `list`.
pub open spec fn sum_ends(list: Seq<(BasicBlock, u64)>) -> nat
    decreases list.len(),
{
    if list.len() == 0 {
        0
    } else {
        sum_ends(list.drop_last()) + end_of(list.last().0)
    }
}

/// How many instructions a block holds.
pub open spec fn width(b: BasicBlock) -> nat {
    match b.start_end {
        Some((s, e)) => if s <= e { (e - s + 1) as nat } else { 0 },
        None => 0,
    }
}

/// `list` with `adds` appended one by one, each numbered by its position.
pub open spec fn push_all(list: Seq<(BasicBlock, u64)>, adds: Seq<BasicBlock>) -> Seq<(BasicBlock, u64)>
    decreases adds.len(),
{
    if adds.len() == 0 {
        list
    } else {
        push_all(list_push(list, adds[0]), adds.drop_first())
    }
}

/// The end of the search: the new block is appended after the others still
/// to append, and its number is the next one; `None` where that number
/// would leave `u64`.
pub open spec fn finish(st: Placement) -> Option<(Seq<(BasicBlock, u64)>, u64)> {
    if st.alloc == u64::MAX {
        None
    } else {
        Some((push_all(st.list, st.to_add.push(st.block)), st.alloc))
    }
}

/// The block `list[i]` starts within the new block: the new block is cut
/// to end just before it and jumps to it; where `list[i]` runs past the new
/// block's end, or the new block's end past it, the rest is split off into
/// blocks of their own. `None` where a block number would leave `u64`, or
/// where `list[i]` starts where the new block starts and ends after it.
pub open spec fn split_before(st: Placement, i: nat) -> Option<Placement> {
    let (v, idx) = st.list[i as int];
    let (vs, ve) = v.start_end->0;
    let (bs, be) = st.block.start_end->0;
    let block = BasicBlock {
        start_end: if vs == 0 { None } else { Some((bs, (vs - 1) as usize)) },
        jump_target: Some(JumpTarget::Unconditional(idx, true)),
    };
    if idx == u64::MAX {
        None
    } else if ve < be {
        let rest = Some(((ve + 1) as usize, be));
        match v.jump_target {
            Some(JumpTarget::Conditional(succeed, fail)) => if st.alloc == u64::MAX {
                None
            } else {
                Some(Placement {
                    list: st.list.update(i as int, (BasicBlock {
                        start_end: v.start_end,
                        jump_target: Some(JumpTarget::Conditional(succeed, st.alloc)),
                    }, idx)),
                    block,
                    to_add: st.to_add.push(BasicBlock {
                        start_end: rest,
                        jump_target: Some(JumpTarget::Unconditional(fail, false)),
                    }),
                    alloc: (st.alloc + 1) as u64,
                })
            },
            Some(JumpTarget::Unconditional(_, false)) => if st.alloc == u64::MAX {
                None
            } else {
                Some(Placement { list: st.list, block, to_add: st.to_add, alloc: (st.alloc + 1) as u64 })
            },
            _ => if st.alloc == u64::MAX {
                None
            } else {
                Some(Placement {
                    list: st.list.update(i as int, (BasicBlock {
                        start_end: v.start_end,
                        jump_target: Some(JumpTarget::Unconditional(st.alloc, true)),
                    }, idx)),
                    block,
                    to_add: st.to_add.push(BasicBlock { start_end: rest, jump_target: v.jump_target }),
                    alloc: (st.alloc + 1) as u64,
                })
            },
        }
    } else if ve > be {
        if vs > bs && st.alloc + 3 <= u64::MAX {
            let v_target = match v.jump_target {
                Some(JumpTarget::Unconditional(_, true)) => None,
                other => other,
            };
            Some(Placement {
                list: st.list,
                block,
                to_add: st.to_add.push(BasicBlock { start_end: Some(((be + 1) as usize, ve)), jump_target: v_target }).push(
                    BasicBlock {
                        start_end: Some(((vs + 1) as usize, be)),
                        jump_target: Some(JumpTarget::Unconditional(st.alloc, true)),
                    },
                ).push(
                    BasicBlock {
                        start_end: Some((bs, vs)),
                        jump_target: Some(JumpTarget::Unconditional((st.alloc + 1) as u64, true)),
                    },
                ),
                alloc: (st.alloc + 3) as u64,
            })
        } else {
            None
        }
    } else {
        Some(Placement { list: st.list, block, to_add: st.to_add, alloc: st.alloc })
    }
}

/// What one step of the search gives: a new state to search on from the
/// start, or one to finish with.
pub enum Pass {
    Again(Placement),
    Stop(Placement),
}

/// The block `list[i]` ends within the new block: the new block is cut to
/// start just after it (no later than the last of the `code_len`
/// instructions, where `list[i]` then loses its last instruction), and
/// `list[i]`, where it had no jump or returned, now runs on into the new
/// block, which ends the search. `None` where the arithmetic would leave its
/// range or a block number `u64`.
pub open spec fn split_after(st: Placement, i: nat, code_len: nat) -> Option<Pass> {
    let (v, idx) = st.list[i as int];
    let (vs, ve) = v.start_end->0;
    let (bs, be) = st.block.start_end->0;
    let clamp = ve + 1 > code_len - 1;
    if ve == usize::MAX || code_len == 0 || (clamp && ve == 0) {
        None
    } else {
        let start = if clamp { (code_len - 1) as usize } else { (ve + 1) as usize };
        let v_range = if clamp { Some((vs, (ve - 1) as usize)) } else { v.start_end };
        let block = BasicBlock { start_end: Some((start, be)), jump_target: st.block.jump_target };
        if v.jump_target is None || v.jump_target == Some(JumpTarget::Return) {
            if st.alloc == u64::MAX {
                None
            } else {
                Some(Pass::Stop(Placement {
                    list: st.list.update(i as int, (BasicBlock {
                        start_end: v_range,
                        jump_target: Some(JumpTarget::Unconditional(st.alloc, true)),
                    }, idx)),
                    block,
                    to_add: st.to_add,
                    alloc: st.alloc,
                }))
            }
        } else {
            Some(Pass::Again(Placement {
                list: st.list.update(i as int, (BasicBlock { start_end: v_range, jump_target: v.jump_target }, idx)),
                block,
                to_add: st.to_add,
                alloc: st.alloc,
            }))
        }
    }
}

/// The first block found by [`first_touching`] is within the list and
/// touches the new block.
pub proof fn lemma_first_touching(list: Seq<(BasicBlock, u64)>, block: BasicBlock, i: nat)
    ensures
        match first_touching(list, block, i) {
            Some(j) => i <= j < list.len() && (starts_within(list[j as int].0, block) || ends_within(list[j as int].0, block)),
            None => true,
        },
    decreases list.len() - i,
{
    if i < list.len() && !(starts_within(list[i as int].0, block) || ends_within(list[i as int].0, block)) {
        lemma_first_touching(list, block, i + 1);
    }
}

/// Replacing one block changes the sum of ends by the change of its end.
pub proof fn lemma_sum_update(list: Seq<(BasicBlock, u64)>, i: int, x: (BasicBlock, u64))
    requires
        0 <= i < list.len(),
    ensures
        sum_ends(list.update(i, x)) + end_of(list[i].0) == sum_ends(list) + end_of(x.0),
    decreases list.len(),
{
    let new = list.update(i, x);
    if i < list.len() - 1 {
        assert(new.drop_last() =~= list.drop_last().update(i, x));
        lemma_sum_update(list.drop_last(), i, x);
    } else {
        assert(new.drop_last() =~= list.drop_last());
    }
}

/// Each step of the search that goes on makes progress: the sum of ends
/// falls, or stays while the new block gets shorter.
pub proof fn lemma_step_decreases(st: Placement, i: nat, code_len: nat)
    requires
        first_touching(st.list, st.block, 0) == Some(i),
    ensures
        starts_within(st.list[i as int].0, st.block) ==> (split_before(st, i) matches Some(s2) ==>
            sum_ends(s2.list) == sum_ends(st.list) && width(s2.block) < width(st.block)),
        !starts_within(st.list[i as int].0, st.block) ==> (split_after(st, i, code_len) matches Some(Pass::Again(s2)) ==>
            sum_ends(s2.list) < sum_ends(st.list)
            || (sum_ends(s2.list) == sum_ends(st.list) && width(s2.block) < width(st.block))),
{
    lemma_first_touching(st.list, st.block, 0);
    let (v, idx) = st.list[i as int];
    if starts_within(v, st.block) {
        match split_before(st, i) {
            Some(s2) => {
                if s2.list != st.list {
                    lemma_sum_update(st.list, i as int, s2.list[i as int]);
                    assert(s2.list =~= st.list.update(i as int, s2.list[i as int]));
                }
            },
            None => {},
        }
    } else {
        match split_after(st, i, code_len) {
            Some(Pass::Again(s2)) => {
                lemma_sum_update(st.list, i as int, s2.list[i as int]);
                assert(s2.list =~= st.list.update(i as int, s2.list[i as int]));
            },
            _ => {},
        }
    }
}

/// The search that places the new block (see [`split_before`] and
/// [`split_after`]): it starts over after each block that it meets, and
/// ends with [`finish`] where no block starts or ends within the new block.
pub open spec fn place(st: Placement, code_len: nat) -> Option<(Seq<(BasicBlock, u64)>, u64)>
    decreases sum_ends(st.list), width(st.block),
{
    match first_touching(st.list, st.block, 0) {
        None => finish(st),
        Some(i) => if starts_within(st.list[i as int].0, st.block) {
            match split_before(st, i) {
                None => None,
                Some(s2) => {
                    proof {
                        lemma_step_decreases(st, i, code_len);
                    }
                    place(s2, code_len)
                },
            }
        } else {
            match split_after(st, i, code_len) {
                None => None,
                Some(Pass::Stop(s2)) => finish(s2),
                Some(Pass::Again(s2)) => {
                    proof {
                        lemma_step_decreases(st, i, code_len);
                    }
                    place(s2, code_len)
                },
            }
        },
    }
}

/// The position of the first block of `list`, from the `i`th on, that has
/// the range `start_end`, where that range is given and no jump is.
pub open spec fn same_block_from(list: Seq<(BasicBlock, u64)>, start_end: Option<(usize, usize)>, jump: Option<JumpTarget>, i: nat) -> Option<nat>
    decreases list.len() - i,
{
    if i >= list.len() || jump is Some || start_end is None {
        None
    } else if list[i as int].0.start_end == start_end {
        Some(i)
    } else {
        same_block_from(list, start_end, jump, i + 1)
    }
}

/// What making a block of the range `start_end` with the jump `jump` gives,
/// in a method of `code_len` instructions: the blocks afterwards and the
/// block's number. A block of the same range without a jump is found
/// rather than made; otherwise see [`place`]. `None` where the program
/// would stop.
pub open spec fn spec_make_block(list: Seq<(BasicBlock, u64)>, code_len: nat, start_end: Option<(usize, usize)>, jump: Option<JumpTarget>) -> Option<(Seq<(BasicBlock, u64)>, u64)> {
    match same_block_from(list, start_end, jump, 0) {
        Some(i) => Some((list, list[i as int].1)),
        None => place(
            Placement { list, block: BasicBlock { start_end, jump_target: jump }, to_add: seq![], alloc: list.len() as u64 },
            code_len,
        ),
    }
}

/// The state of the search, in the program.
struct Placing {
    list: Vec<(BasicBlock, u64)>,
    block: BasicBlock,
    to_add: Vec<BasicBlock>,
    alloc: u64,
}

impl View for Placing {
    type V = Placement;

    closed spec fn view(&self) -> Placement {
        Placement { list: self.list@, block: self.block, to_add: self.to_add@, alloc: self.alloc }
    }
}

/// [`starts_within`], computed.
fn starts_within_exec(v: &BasicBlock, block: &BasicBlock) -> (r: bool)
    ensures
        r == starts_within(*v, *block),
{
    match (v.start_end, block.start_end) {
        (Some((vs, _)), Some((bs, be))) => bs <= vs && vs <= be,
        _ => false,
    }
}

/// [`ends_within`], computed.
fn ends_within_exec(v: &BasicBlock, block: &BasicBlock) -> (r: bool)
    ensures
        r == ends_within(*v, *block),
{
    match (v.start_end, block.start_end) {
        (Some((_, ve)), Some((bs, be))) => bs <= ve && ve <= be,
        _ => false,
    }
}

/// [`first_touching`] from the first block, computed.
fn first_touching_exec(list: &Vec<(BasicBlock, u64)>, block: &BasicBlock) -> (r: Option<usize>)
    ensures
        match first_touching(list@, *block, 0) {
            Some(i) => r == Some(i as usize) && i < list.len(),
            None => r is None,
        },
{
    proof {
        lemma_first_touching(list@, *block, 0);
    }
    let mut i: usize = 0;
    while i < list.len()
        invariant
            i <= list.len(),
            first_touching(list@, *block, 0) == first_touching(list@, *block, i as nat),
        decreases list.len() - i,
    {
        if starts_within_exec(&list[i].0, block) || ends_within_exec(&list[i].0, block) {
            return Some(i);
        }
        i = i + 1;
    }
    None
}

/// [`push_all`], computed.
fn push_all_exec(list: Vec<(BasicBlock, u64)>, adds: &Vec<BasicBlock>) -> (r: Vec<(BasicBlock, u64)>)
    ensures
        r@ == push_all(list@, adds@),
{
    let mut out = list;
    let mut j: usize = 0;
    assert(adds@.skip(0) =~= adds@);
    while j < adds.len()
        invariant
            j <= adds.len(),
            push_all(list@, adds@) == push_all(out@, adds@.skip(j as int)),
        decreases adds.len() - j,
    {
        assert(adds@.skip(j as int).drop_first() =~= adds@.skip(j + 1));
        let len = out.len() as u64;
        out.push((adds[j], len));
        j = j + 1;
    }
    assert(adds@.skip(j as int) =~= Seq::<BasicBlock>::empty());
    out
}

/// [`finish`], computed.
fn finish_exec(st: Placing) -> (r: Option<(Vec<(BasicBlock, u64)>, u64)>)
    ensures
        match finish(st@) {
            Some((l, x)) => r matches Some((v, y)) && v@ == l && y == x,
            None => r is None,
        },
{
    if st.alloc == u64::MAX {
        return None;
    }
    let mut to_add = st.to_add;
    to_add.push(st.block);
    let real_index = st.alloc;
    let list = push_all_exec(st.list, &to_add);
    Some((list, real_index))
}

/// [`split_before`], computed.
fn split_before_exec(st: Placing, i: usize) -> (r: Option<Placing>)
    requires
        i < st.list.len(),
        starts_within(st.list@[i as int].0, st.block),
    ensures
        match split_before(st@, i as nat) {
            Some(s2) => r matches Some(x) && x@ == s2,
            None => r is None,
        },
{
    let Placing { mut list, block, mut to_add, mut alloc } = st;
    let (v, idx) = list[i];
    let (v_start, v_end) = match v.start_end {
        Some(p) => p,
        None => {
            return None;
        },
    };
    let (block_start, block_end) = match block.start_end {
        Some(p) => p,
        None => {
            return None;
        },
    };
    if idx == u64::MAX {
        return None;
    }
    let new_block = BasicBlock {
        start_end: if v_start == 0 { None } else { Some((block_start, v_start - 1)) },
        jump_target: Some(JumpTarget::Unconditional(idx, true)),
    };
    let old_end = block_end;
    if v_end < old_end {
        let rest = Some((v_end + 1, old_end));
        match v.jump_target {
            Some(JumpTarget::Conditional(succeed, fail)) => {
                if alloc == u64::MAX {
                    return None;
                }
                to_add.push(BasicBlock { start_end: rest, jump_target: Some(JumpTarget::Unconditional(fail, false)) });
                list.set(i, (BasicBlock {
                    start_end: v.start_end,
                    jump_target: Some(JumpTarget::Conditional(succeed, alloc)),
                }, idx));
            },
            Some(JumpTarget::Unconditional(_, false)) => {
                if alloc == u64::MAX {
                    return None;
                }
            },
            _ => {
                if alloc == u64::MAX {
                    return None;
                }
                to_add.push(BasicBlock { start_end: rest, jump_target: v.jump_target });
                list.set(i, (BasicBlock {
                    start_end: v.start_end,
                    jump_target: Some(JumpTarget::Unconditional(alloc, true)),
                }, idx));
            },
        }
        alloc = alloc + 1;
    } else if v_end > old_end {
        if v_start > block_start {
            if alloc > u64::MAX - 3 {
                return None;
            }
            let v_target = match v.jump_target {
                Some(JumpTarget::Unconditional(_, true)) => None,
                other => other,
            };
            to_add.push(BasicBlock { start_end: Some((old_end + 1, v_end)), jump_target: v_target });
            let third_block = alloc;
            alloc = alloc + 1;
            to_add.push(BasicBlock {
                start_end: Some((v_start + 1, old_end)),
                jump_target: Some(JumpTarget::Unconditional(third_block, true)),
            });
            let second_block = alloc;
            alloc = alloc + 1;
            to_add.push(BasicBlock {
                start_end: Some((block_start, v_start)),
                jump_target: Some(JumpTarget::Unconditional(second_block, true)),
            });
            alloc = alloc + 1;
        } else {
            return None;
        }
    }
    let r = Placing { list, block: new_block, to_add, alloc };
    assert(r@ =~= split_before(st@, i as nat)->0);
    Some(r)
}

/// [`split_after`], computed: the new state, and whether the search stops.
fn split_after_exec(st: Placing, i: usize, code_len: usize) -> (r: Option<(Placing, bool)>)
    requires
        i < st.list.len(),
        !starts_within(st.list@[i as int].0, st.block),
        ends_within(st.list@[i as int].0, st.block),
    ensures
        match split_after(st@, i as nat, code_len as nat) {
            Some(Pass::Stop(s2)) => r matches Some((x, stop)) && stop && x@ == s2,
            Some(Pass::Again(s2)) => r matches Some((x, stop)) && !stop && x@ == s2,
            None => r is None,
        },
{
    let Placing { mut list, block, to_add, alloc } = st;
    let (v, idx) = list[i];
    let (v_start, v_end) = match v.start_end {
        Some(p) => p,
        None => {
            return None;
        },
    };
    let block_end = match block.start_end {
        Some((_, e)) => e,
        None => {
            return None;
        },
    };
    if v_end == usize::MAX || code_len == 0 {
        return None;
    }
    let mut start = v_end + 1;
    let mut v_range = v.start_end;
    if start > code_len - 1 {
        start = code_len - 1;
        if v_end == 0 {
            return None;
        }
        v_range = Some((v_start, v_end - 1));
    }
    let new_block = BasicBlock { start_end: Some((start, block_end)), jump_target: block.jump_target };
    let stop = match v.jump_target {
        None | Some(JumpTarget::Return) => true,
        _ => false,
    };
    if stop {
        if alloc == u64::MAX {
            return None;
        }
        list.set(i, (BasicBlock { start_end: v_range, jump_target: Some(JumpTarget::Unconditional(alloc, true)) }, idx));
    } else {
        list.set(i, (BasicBlock { start_end: v_range, jump_target: v.jump_target }, idx));
    }
    let r = Placing { list, block: new_block, to_add, alloc };
    proof {
        match split_after(st@, i as nat, code_len as nat) {
            Some(Pass::Stop(s2)) => assert(r@ =~= s2),
            Some(Pass::Again(s2)) => assert(r@ =~= s2),
            None => {},
        }
    }
    Some((r, stop))
}

/// The search of [`place`], computed.
fn place_exec(st: Placing, code_len: usize) -> (r: Option<(Vec<(BasicBlock, u64)>, u64)>)
    ensures
        match place(st@, code_len as nat) {
            Some((l, x)) => r matches Some((v, y)) && v@ == l && y == x,
            None => r is None,
        },
{
    let ghost goal = place(st@, code_len as nat);
    let mut cur = st;
    loop
        invariant
            place(cur@, code_len as nat) == goal,
            goal == place(st@, code_len as nat),
        decreases sum_ends(cur@.list), width(cur@.block),
    {
        match first_touching_exec(&cur.list, &cur.block) {
            None => {
                return finish_exec(cur);
            },
            Some(i) => {
                proof {
                    lemma_first_touching(cur@.list, cur@.block, 0);
                    lemma_step_decreases(cur@, i as nat, code_len as nat);
                }
                if starts_within_exec(&cur.list[i].0, &cur.block) {
                    match split_before_exec(cur, i) {
                        None => {
                            return None;
                        },
                        Some(s2) => {
                            cur = s2;
                        },
                    }
                } else {
                    match split_after_exec(cur, i, code_len) {
                        None => {
                            return None;
                        },
                        Some((s2, true)) => {
                            return finish_exec(s2);
                        },
                        Some((s2, false)) => {
                            cur = s2;
                        },
                    }
                }
            },
        }
    }
}

/// [`same_block_from`] from the first block, computed.
fn same_block(list: &Vec<(BasicBlock, u64)>, start_end: Option<(usize, usize)>, jump: Option<JumpTarget>) -> (r: Option<usize>)
    ensures
        match same_block_from(list@, start_end, jump, 0) {
            Some(i) => r == Some(i as usize) && i < list.len(),
            None => r is None,
        },
{
    if jump.is_some() {
        return None;
    }
    let (block_start, block_end) = match start_end {
        Some(p) => p,
        None => {
            return None;
        },
    };
    let mut i: usize = 0;
    while i < list.len()
        invariant
            i <= list.len(),
            jump is None,
            start_end == Some((block_start, block_end)),
            same_block_from(list@, start_end, jump, 0) == same_block_from(list@, start_end, jump, i as nat),
        decreases list.len() - i,
    {
        if let Some((v_start, v_end)) = list[i].0.start_end {
            if block_start == v_start && block_end == v_end {
                return Some(i);
            }
        }
        i = i + 1;
    }
    None
}

/// [`spec_make_block`], computed: `None` where the program would stop.
fn make_block_on(list: Vec<(BasicBlock, u64)>, code_len: usize, start_end: Option<(usize, usize)>, jump: Option<JumpTarget>) -> (r: Option<(Vec<(BasicBlock, u64)>, u64)>)
    ensures
        match spec_make_block(list@, code_len as nat, start_end, jump) {
            Some((l, x)) => r matches Some((v, y)) && v@ == l && y == x,
            None => r is None,
        },
{
    if let Some(i) = same_block(&list, start_end, jump) {
        let idx = list[i].1;
        return Some((list, idx));
    }
    let alloc = list.len() as u64;
    let st = Placing { list, block: BasicBlock { start_end, jump_target: jump }, to_add: Vec::new(), alloc };
    assert(st@ =~= (Placement { list: list@, block: BasicBlock { start_end, jump_target: jump }, to_add: seq![], alloc: list@.len() as u64 }));
    place_exec(st, code_len)
}

impl MethodBlockBuilder {
    /// Make a block of the range `start_end` (instructions of `code`) with
    /// the jump `jump` (see [`spec_make_block`]); its number.
    pub fn make_block(&mut self, code: &InstructionList, start_end: Option<(usize, usize)>, jump: Option<JumpTarget>) -> (r: u64)
        requires
            spec_make_block(old(self).basic_block_list@, code@.opcodes.len(), start_end, jump) is Some,
        ensures
            spec_make_block(old(self).basic_block_list@, code@.opcodes.len(), start_end, jump)
                == Some((final(self).basic_block_list@, r)),
            final(self).current_block == old(self).current_block,
    {
        let mut list: Vec<(BasicBlock, u64)> = Vec::new();
        std::mem::swap(&mut list, &mut self.basic_block_list);
        match make_block_on(list, code.opcodes.len(), start_end, jump) {
            Some((l, x)) => {
                self.basic_block_list = l;
                x
            },
            None => vstd::pervasive::unreached(),
        }
    }

    /// Whether [`MethodBlockBuilder::make_block`] can run on these arguments
    /// without stopping the program.
    pub fn can_make_block(&self, code: &InstructionList, start_end: Option<(usize, usize)>, jump: Option<JumpTarget>) -> (r: bool)
        ensures
            r == (spec_make_block(self.basic_block_list@, code@.opcodes.len(), start_end, jump) is Some),
    {
        let mut copy: Vec<(BasicBlock, u64)> = Vec::new();
        let mut i: usize = 0;
        while i < self.basic_block_list.len()
            invariant
                i <= self.basic_block_list.len(),
                copy@ == self.basic_block_list@.take(i as int),
            decreases self.basic_block_list.len() - i,
        {
            copy.push(self.basic_block_list[i]);
            i = i + 1;
            assert(copy@ =~= self.basic_block_list@.take(i as int));
        }
        assert(copy@ =~= self.basic_block_list@);
        make_block_on(copy, code.opcodes.len(), start_end, jump).is_some()
    }
}

/// Whether each block of `list` carries its position as its number.
pub open spec fn numbered(list: Seq<(BasicBlock, u64)>) -> bool {
    forall|i: int| 0 <= i < list.len() ==> #[trigger] list[i].1 == i as u64
}

/// Appending blocks keeps the numbering, and the blocks already there.
proof fn lemma_push_all_numbered(list: Seq<(BasicBlock, u64)>, adds: Seq<BasicBlock>)
    requires
        numbered(list),
    ensures
        numbered(push_all(list, adds)),
        push_all(list, adds).len() == list.len() + adds.len(),
    decreases adds.len(),
{
    if adds.len() > 0 {
        let next = list_push(list, adds[0]);
        assert forall|i: int| 0 <= i < next.len() implies #[trigger] next[i].1 == i as u64 by {
            if i < list.len() {
                assert(next[i] == list[i]);
            }
        }
        lemma_push_all_numbered(next, adds.drop_first());
    }
}

/// The search keeps the numbering of the blocks, and never shortens the list.
proof fn lemma_place_numbered(st: Placement, code_len: nat)
    requires
        numbered(st.list),
    ensures
        place(st, code_len) matches Some((l, _)) ==> numbered(l) && l.len() >= st.list.len(),
    decreases sum_ends(st.list), width(st.block),
{
    lemma_first_touching(st.list, st.block, 0);
    match first_touching(st.list, st.block, 0) {
        None => {
            lemma_push_all_numbered(st.list, st.to_add.push(st.block));
        },
        Some(i) => {
            lemma_step_decreases(st, i, code_len);
            if starts_within(st.list[i as int].0, st.block) {
                if let Some(s2) = split_before(st, i) {
                    assert(numbered(s2.list)) by {
                        assert forall|j: int| 0 <= j < s2.list.len() implies #[trigger] s2.list[j].1 == j as u64 by {
                            assert(s2.list[j].1 == st.list[j].1);
                        }
                    }
                    lemma_place_numbered(s2, code_len);
                }
            } else {
                match split_after(st, i, code_len) {
                    Some(Pass::Stop(s2)) => {
                        assert(numbered(s2.list)) by {
                            assert forall|j: int| 0 <= j < s2.list.len() implies #[trigger] s2.list[j].1 == j as u64 by {
                                assert(s2.list[j].1 == st.list[j].1);
                            }
                        }
                        lemma_push_all_numbered(s2.list, s2.to_add.push(s2.block));
                    },
                    Some(Pass::Again(s2)) => {
                        assert(numbered(s2.list)) by {
                            assert forall|j: int| 0 <= j < s2.list.len() implies #[trigger] s2.list[j].1 == j as u64 by {
                                assert(s2.list[j].1 == st.list[j].1);
                            }
                        }
                        lemma_place_numbered(s2, code_len);
                    },
                    None => {},
                }
            }
        },
    }
}

/// Making a block keeps every block of the builder numbered by its
/// position, and never removes a block.
pub proof fn law_make_block_numbered(list: Seq<(BasicBlock, u64)>, code_len: nat, start_end: Option<(usize, usize)>, jump: Option<JumpTarget>)
    requires
        numbered(list),
    ensures
        spec_make_block(list, code_len, start_end, jump) matches Some((l, _)) ==> numbered(l) && l.len() >= list.len(),
{
    if same_block_from(list, start_end, jump, 0) is None {
        lemma_place_numbered(
            Placement { list, block: BasicBlock { start_end, jump_target: jump }, to_add: seq![], alloc: list.len() as u64 },
            code_len,
        );
    }
}

} // verus!
