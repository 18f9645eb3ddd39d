//! Turning a method's basic blocks into static single assignment form.
use vstd::prelude::*;
use crate::bytecode::ValueType;
use crate::item::ConstantPool;
use crate::item::constant_pool::{ConstantPoolEntry, ConstantPoolEntryV, ConstantPoolV, in_pool};
use crate::item::opcodes::{InstructionList, InstructionListV, VMOpcode, VMOpcodeV};
use crate::text::{str_eq, decimal};
use crate::bytecode::blocks::JumpTarget;

verus! {

/// A constant. A `Double` or `Float` holds the bits of its value.
#[derive(Clone, Copy, Debug)]
pub enum Constant {
    Int(i32),
    Byte(i8),
    Short(i16),
    Long(i64),
    Double(u64),
    Float(u32),
    Char(u16),
    Null,
}

/// The type of a constant's value.
pub open spec fn constant_type(c: Constant) -> ValueType {
    match c {
        Constant::Int(_) => ValueType::Int,
        Constant::Byte(_) => ValueType::Byte,
        Constant::Short(_) => ValueType::Short,
        Constant::Long(_) => ValueType::Long,
        Constant::Double(_) => ValueType::Double,
        Constant::Float(_) => ValueType::Float,
        Constant::Char(_) => ValueType::Char,
        Constant::Null => ValueType::Object,
    }
}

impl Constant {
    /// The type of the constant's value.
    pub fn ty(&self) -> (r: ValueType)
        ensures
            r == constant_type(*self),
    {
        match self {
            Self::Int(_) => ValueType::Int,
            Self::Byte(_) => ValueType::Byte,
            Self::Short(_) => ValueType::Short,
            Self::Long(_) => ValueType::Long,
            Self::Double(_) => ValueType::Double,
            Self::Float(_) => ValueType::Float,
            Self::Char(_) => ValueType::Char,
            Self::Null => ValueType::Object,
        }
    }
}

/// An operand: a constant or a variable.
#[derive(Clone, Copy, Debug)]
pub enum Operand {
    Constant(Constant),
    Variable(u64),
}

/// What an instruction assigns to.
#[derive(Clone, Copy, Debug)]
pub enum LValue {
    Variable(u64),
}

/// An instruction of the intermediate form.
#[derive(Clone, Copy, Debug)]
pub enum SSAInstruction {
    Multiply(LValue, Operand, Operand),
    Add(LValue, Operand, Operand),
    Return(Operand),
    InvokeVirtual(u64),
    Declare(LValue, Operand),
    CompareLE(Operand, Operand, u64, u64),
    Goto(u64),
    Phi(LValue, usize),
}

/// A constant of the builder's own pool.
pub enum PoolConstant {
    String(String),
    /// For each block that may run before, the variable that holds the value there.
    Phi(Vec<(u64, u64)>),
}

/// Mathematical form of a [`PoolConstant`]: the pairs of a phi as a set,
/// since nothing orders the blocks that may run before.
pub enum PoolConstantV {
    String(Seq<char>),
    Phi(Set<(u64, u64)>),
}

impl View for PoolConstant {
    type V = PoolConstantV;

    open spec fn view(&self) -> PoolConstantV {
        match self {
            PoolConstant::String(s) => PoolConstantV::String(s@),
            PoolConstant::Phi(v) => PoolConstantV::Phi(v@.to_set()),
        }
    }
}

/// A basic block of the intermediate form.
pub struct BasicBlock {
    pub name: String,
    pub instructions: Vec<SSAInstruction>,
    /// The number of the basic block of the method that this block is made from.
    pub og_id: u64,
    /// The variables on the stack at the end of the block, with their types.
    pub virtual_stack: Vec<(u64, ValueType)>,
}

/// Mathematical form of a [`BasicBlock`].
pub struct BasicBlockV {
    pub name: Seq<char>,
    pub instructions: Seq<SSAInstruction>,
    pub og_id: u64,
    pub virtual_stack: Seq<(u64, ValueType)>,
}

impl View for BasicBlock {
    type V = BasicBlockV;

    open spec fn view(&self) -> BasicBlockV {
        BasicBlockV {
            name: self.name@,
            instructions: self.instructions@,
            og_id: self.og_id,
            virtual_stack: self.virtual_stack@,
        }
    }
}

/// Whether the instruction ends a block.
pub open spec fn ends_block(i: SSAInstruction) -> bool {
    i is Goto || i is Return || i is CompareLE
}

/// The instructions with `i` emitted: at the end, or, after an instruction
/// that ends the block, two places before the end (at the start where there
/// are fewer than two).
pub open spec fn spec_emit(insts: Seq<SSAInstruction>, i: SSAInstruction) -> Seq<SSAInstruction> {
    if insts.len() > 0 && ends_block(insts.last()) {
        insts.insert(if insts.len() >= 2 { insts.len() - 2 } else { 0 }, i)
    } else {
        insts.push(i)
    }
}

impl BasicBlock {
    /// An empty block.
    pub fn new(name: String, og_id: u64) -> (r: Self)
        ensures
            r@ == (BasicBlockV { name: name@, instructions: seq![], og_id, virtual_stack: seq![] }),
    {
        let r = Self { name, instructions: vec![], og_id, virtual_stack: Vec::new() };
        assert(r@.instructions =~= seq![]);
        assert(r@.virtual_stack =~= seq![]);
        r
    }

    /// Push a variable of type `ty` on the stack.
    pub fn stack_push(&mut self, var: u64, ty: ValueType)
        ensures
            final(self)@ == (BasicBlockV { virtual_stack: old(self)@.virtual_stack.push((var, ty)), ..old(self)@ }),
    {
        self.virtual_stack.push((var, ty));
    }

    /// Pop the variable on top of the stack. The stack must not be empty.
    pub fn stack_pop(&mut self) -> (r: (u64, ValueType))
        requires
            old(self)@.virtual_stack.len() > 0,
        ensures
            r == old(self)@.virtual_stack.last(),
            final(self)@ == (BasicBlockV { virtual_stack: old(self)@.virtual_stack.drop_last(), ..old(self)@ }),
    {
        self.virtual_stack.pop().unwrap()
    }

    /// Emit the instruction `i` (see [`spec_emit`]).
    pub fn emit(&mut self, i: SSAInstruction)
        ensures
            final(self)@ == (BasicBlockV { instructions: spec_emit(old(self)@.instructions, i), ..old(self)@ }),
    {
        let last_branch = match self.instructions.last() {
            Some(inst) => match inst {
                SSAInstruction::Goto(_) | SSAInstruction::Return(_) | SSAInstruction::CompareLE(_, _, _, _) => true,
                _ => false,
            },
            None => false,
        };
        if !last_branch {
            self.instructions.push(i);
        } else {
            let len = self.instructions.len();
            let at = if len >= 2 { len - 2 } else { 0 };
            self.instructions.insert(at, i);
        }
    }
}

/// The position of `name` among the names of `map`, from the `i`th on.
pub open spec fn name_position(map: Seq<(Seq<char>, u64)>, name: Seq<char>, i: nat) -> Option<nat>
    decreases map.len() - i,
{
    if i >= map.len() {
        None
    } else if map[i as int].0 == name {
        Some(i)
    } else {
        name_position(map, name, i + 1)
    }
}

/// A position found from the `i`th on is within the map and holds the name.
proof fn lemma_name_position(map: Seq<(Seq<char>, u64)>, name: Seq<char>, i: nat)
    ensures
        name_position(map, name, i) matches Some(j) ==> i <= j < map.len() && map[j as int].0 == name,
    decreases map.len() - i,
{
    if i < map.len() {
        lemma_name_position(map, name, i + 1);
    }
}

/// The position of `name` in the name counters.
fn find_name(map: &Vec<(String, u64)>, name: &str) -> (r: Option<usize>)
    ensures
        match name_position(Seq::new(map@.len(), |i: int| (map@[i].0@, map@[i].1)), name@, 0) {
            Some(i) => r matches Some(j) && j == i && i < map@.len(),
            None => r is None,
        },
{
    let ghost m = Seq::new(map@.len(), |i: int| (map@[i].0@, map@[i].1));
    proof {
        lemma_name_position(m, name@, 0);
    }
    let mut i: usize = 0;
    while i < map.len()
        invariant
            i <= map.len(),
            m == Seq::new(map@.len(), |i: int| (map@[i].0@, map@[i].1)),
            name_position(m, name@, 0) == name_position(m, name@, i as nat),
        decreases map.len() - i,
    {
        if str_eq(map[i].0.as_str(), name) {
            return Some(i);
        }
        i = i + 1;
    }
    None
}

/// Builds the intermediate form of a method.
pub struct SSABuilder {
    variables: Vec<(String, ValueType)>,
    var_map: Vec<(String, u64)>,
    /// The blocks of the intermediate form.
    pub basic_blocks: Vec<BasicBlock>,
    jvm_pool: ConstantPool,
    our_pool: Vec<PoolConstant>,
    block_map: std::collections::HashMap<u64, usize>,
}

/// Mathematical form of an [`SSABuilder`]: the variables with their names
/// and types, how many variables each name was given, the blocks, the class
/// file's constant pool, the builder's own pool, and for each block of the
/// method the position of its block here.
pub struct SSABuilderV {
    pub variables: Seq<(Seq<char>, ValueType)>,
    pub var_map: Seq<(Seq<char>, u64)>,
    pub blocks: Seq<BasicBlockV>,
    pub pool: ConstantPoolV,
    pub our_pool: Seq<PoolConstantV>,
    pub block_map: Map<u64, usize>,
}

impl View for SSABuilder {
    type V = SSABuilderV;

    closed spec fn view(&self) -> SSABuilderV {
        SSABuilderV {
            variables: Seq::new(self.variables@.len(), |i: int| (self.variables@[i].0@, self.variables@[i].1)),
            var_map: Seq::new(self.var_map@.len(), |i: int| (self.var_map@[i].0@, self.var_map@[i].1)),
            blocks: Seq::new(self.basic_blocks@.len(), |i: int| self.basic_blocks@[i]@),
            pool: self.jvm_pool@,
            our_pool: Seq::new(self.our_pool@.len(), |i: int| self.our_pool@[i]@),
            block_map: self.block_map@,
        }
    }
}

/// What giving a new variable of type `ty` named after `name` gives: the
/// name gets its next number (0 the first time), and the variable the next
/// index. `None` where the number would leave `u64`.
pub open spec fn spec_new_variable(st: SSABuilderV, name: Seq<char>, ty: ValueType) -> Option<(SSABuilderV, u64)> {
    let index = st.variables.len() as u64;
    match name_position(st.var_map, name, 0) {
        Some(i) => if st.var_map[i as int].1 == u64::MAX {
            None
        } else {
            let v = (st.var_map[i as int].1 + 1) as u64;
            Some((SSABuilderV {
                var_map: st.var_map.update(i as int, (name, v)),
                variables: st.variables.push((name + decimal(v as nat), ty)),
                ..st
            }, index))
        },
        None => Some((SSABuilderV {
            var_map: st.var_map.push((name, 0)),
            variables: st.variables.push((name + decimal(0), ty)),
            ..st
        }, index)),
    }
}

/// The constant that the instruction `op` pushes, if it pushes one, with
/// the constant pool `pool`; `None` where the program would stop (a
/// constant pool index that names no entry, or an entry that `ldc` of this
/// builder does not take).
pub open spec fn spec_const(pool: ConstantPoolV, op: VMOpcodeV) -> Option<Option<Constant>> {
    match op {
        VMOpcodeV::iconst_0() => Some(Some(Constant::Int(0))),
        VMOpcodeV::iconst_1() => Some(Some(Constant::Int(1))),
        VMOpcodeV::iconst_2() => Some(Some(Constant::Int(2))),
        VMOpcodeV::iconst_3() => Some(Some(Constant::Int(3))),
        VMOpcodeV::iconst_4() => Some(Some(Constant::Int(4))),
        VMOpcodeV::iconst_5() => Some(Some(Constant::Int(5))),
        VMOpcodeV::iconst_m1() => Some(Some(Constant::Int(-1i32))),
        VMOpcodeV::aconst_null() => Some(Some(Constant::Null)),
        VMOpcodeV::dconst_0() => Some(Some(Constant::Double(0))),
        VMOpcodeV::dconst_1() => Some(Some(Constant::Double(0x3ff0_0000_0000_0000))),
        VMOpcodeV::ldc(index) => if !in_pool(pool, index as int) {
            None
        } else {
            match pool[index - 1] {
                ConstantPoolEntryV::Integer { bytes } => Some(Some(Constant::Int(bytes))),
                ConstantPoolEntryV::Double { bytes } => Some(Some(Constant::Double(bytes))),
                ConstantPoolEntryV::Long { bytes } => Some(Some(Constant::Long(bytes))),
                _ => None,
            }
        },
        _ => Some(None),
    }
}

/// Whatever the constant pool: `aconst_null` pushes the null reference, of
/// type `Object`; `iconst_k` pushes the int `k` (`iconst_m1` the int -1);
/// `dconst_0` and `dconst_1` push the doubles 0.0 and 1.0 (by their bits).
/// What an instruction pushes has the type its letter names (`a` an object,
/// `i` an int, `d` a double), and `ldc` pushes a value of the type of the
/// pool entry it names. No other instruction pushes a constant.
pub proof fn law_const_pushed(pool: ConstantPoolV, op: VMOpcodeV)
    ensures
        spec_const(pool, VMOpcodeV::aconst_null()) == Some(Some(Constant::Null)),
        constant_type(Constant::Null) == ValueType::Object,
        spec_const(pool, VMOpcodeV::iconst_m1()) == Some(Some(Constant::Int(-1i32))),
        spec_const(pool, VMOpcodeV::iconst_0()) == Some(Some(Constant::Int(0i32))),
        spec_const(pool, VMOpcodeV::iconst_1()) == Some(Some(Constant::Int(1i32))),
        spec_const(pool, VMOpcodeV::iconst_2()) == Some(Some(Constant::Int(2i32))),
        spec_const(pool, VMOpcodeV::iconst_3()) == Some(Some(Constant::Int(3i32))),
        spec_const(pool, VMOpcodeV::iconst_4()) == Some(Some(Constant::Int(4i32))),
        spec_const(pool, VMOpcodeV::iconst_5()) == Some(Some(Constant::Int(5i32))),
        spec_const(pool, VMOpcodeV::dconst_0()) == Some(Some(Constant::Double(0u64))),
        spec_const(pool, VMOpcodeV::dconst_1()) == Some(Some(Constant::Double(0x3ff0_0000_0000_0000u64))),
        spec_const(pool, op) matches Some(Some(c)) ==> {
            &&& op is aconst_null ==> constant_type(c) == ValueType::Object
            &&& (op is iconst_m1 || op is iconst_0 || op is iconst_1 || op is iconst_2 || op is iconst_3
                || op is iconst_4 || op is iconst_5) ==> constant_type(c) == ValueType::Int
            &&& (op is dconst_0 || op is dconst_1) ==> constant_type(c) == ValueType::Double
            &&& op matches VMOpcodeV::ldc(i) ==> {
                &&& pool[i - 1] is Integer ==> constant_type(c) == ValueType::Int
                &&& pool[i - 1] is Double ==> constant_type(c) == ValueType::Double
                &&& pool[i - 1] is Long ==> constant_type(c) == ValueType::Long
            }
            &&& op is aconst_null || op is iconst_m1 || op is iconst_0 || op is iconst_1 || op is iconst_2
                || op is iconst_3 || op is iconst_4 || op is iconst_5 || op is dconst_0 || op is dconst_1
                || op is ldc
        },
{
}

impl SSABuilder {
    /// A builder with nothing in it, for a class file with the constant pool `pool`.
    pub fn new(pool: ConstantPool) -> (r: Self)
        ensures
            r@ == (SSABuilderV {
                variables: seq![],
                var_map: seq![],
                blocks: seq![],
                pool: pool@,
                our_pool: seq![],
                block_map: Map::empty(),
            }),
    {
        let r = Self {
            jvm_pool: pool,
            var_map: Vec::new(),
            basic_blocks: Vec::new(),
            variables: Vec::new(),
            our_pool: vec![],
            block_map: std::collections::HashMap::new(),
        };
        assert(r@.variables =~= seq![]);
        assert(r@.var_map =~= seq![]);
        assert(r@.blocks =~= seq![]);
        assert(r@.our_pool =~= seq![]);
        r
    }

    /// Add a string to the builder's pool; its position there.
    pub fn new_string_constant(&mut self, v: String) -> (r: usize)
        ensures
            r == old(self)@.our_pool.len(),
            final(self)@ == (SSABuilderV { our_pool: old(self)@.our_pool.push(PoolConstantV::String(v@)), ..old(self)@ }),
    {
        let index = self.our_pool.len();
        self.our_pool.push(PoolConstant::String(v));
        assert(self@.our_pool =~= old(self)@.our_pool.push(PoolConstantV::String(v@)));
        index
    }

    /// Add a phi to the builder's pool; its position there.
    pub fn new_phi_constant(&mut self, v: Vec<(u64, u64)>) -> (r: usize)
        ensures
            r == old(self)@.our_pool.len(),
            final(self)@ == (SSABuilderV { our_pool: old(self)@.our_pool.push(PoolConstantV::Phi(v@.to_set())), ..old(self)@ }),
    {
        let index = self.our_pool.len();
        let ghost s = v@.to_set();
        self.our_pool.push(PoolConstant::Phi(v));
        assert(self@.our_pool =~= old(self)@.our_pool.push(PoolConstantV::Phi(s)));
        index
    }

    /// A new variable of type `ty` named after `name` (see [`spec_new_variable`]).
    pub fn new_variable(&mut self, name: String, ty: ValueType) -> (r: u64)
        requires
            spec_new_variable(old(self)@, name@, ty) is Some,
        ensures
            spec_new_variable(old(self)@, name@, ty) == Some((final(self)@, r)),
    {
        let v = match find_name(&self.var_map, name.as_str()) {
            Some(i) => {
                let count = self.var_map[i].1 + 1;
                let key = self.var_map[i].0.clone();
                self.var_map.set(i, (key, count));
                count
            },
            None => {
                self.var_map.push((name.clone(), 0));
                0
            },
        };
        let index = self.variables.len() as u64;
        self.variables.push((crate::text::numbered(name.as_str(), v), ty));
        proof {
            lemma_name_position(old(self)@.var_map, name@, 0);
            assert(self@.variables =~= old(self)@.variables.push((name@ + decimal(v as nat), ty)));
            match name_position(old(self)@.var_map, name@, 0) {
                Some(i) => assert(self@.var_map =~= old(self)@.var_map.update(i as int, (name@, v))),
                None => assert(self@.var_map =~= old(self)@.var_map.push((name@, 0))),
            }
        }
        index
    }

    /// The constant that the instruction `v` pushes, if it pushes one (see [`spec_const`]).
    pub fn process_const(&self, v: &VMOpcode) -> (r: Option<Constant>)
        requires
            spec_const(self@.pool, v@) is Some,
        ensures
            spec_const(self@.pool, v@) == Some(r),
    {
        match v {
            VMOpcode::iconst_0() => Some(Constant::Int(0)),
            VMOpcode::iconst_1() => Some(Constant::Int(1)),
            VMOpcode::iconst_2() => Some(Constant::Int(2)),
            VMOpcode::iconst_3() => Some(Constant::Int(3)),
            VMOpcode::iconst_4() => Some(Constant::Int(4)),
            VMOpcode::iconst_5() => Some(Constant::Int(5)),
            VMOpcode::iconst_m1() => Some(Constant::Int(-1)),
            VMOpcode::aconst_null() => Some(Constant::Null),
            VMOpcode::dconst_0() => Some(Constant::Double(0)),
            VMOpcode::dconst_1() => Some(Constant::Double(0x3ff0_0000_0000_0000)),
            VMOpcode::ldc(index) => {
                let constant = self.jvm_pool.get_constant(*index as usize);
                match constant {
                    ConstantPoolEntry::Integer { bytes } => Some(Constant::Int(*bytes)),
                    ConstantPoolEntry::Double { bytes } => Some(Constant::Double(*bytes)),
                    ConstantPoolEntry::Long { bytes } => Some(Constant::Long(*bytes)),
                    _ => vstd::pervasive::unreached(),
                }
            },
            _ => None,
        }
    }

    /// Add a block; its position among the blocks.
    pub fn add_block(&mut self, b: BasicBlock) -> (r: usize)
        ensures
            r == old(self)@.blocks.len(),
            final(self)@ == (SSABuilderV { blocks: old(self)@.blocks.push(b@), ..old(self)@ }),
    {
        let index = self.basic_blocks.len();
        let ghost bv = b@;
        self.basic_blocks.push(b);
        assert(self@.blocks =~= old(self)@.blocks.push(bv));
        index
    }
}

/// The jump possibilities as sets: for each block, the blocks that may run
/// before it.
pub open spec fn jp_view(m: fnv::FnvHashMap<u64, fnv::FnvHashSet<u64>>) -> Map<u64, Set<u64>> {
    m@.map_values(|s: fnv::FnvHashSet<u64>| s@)
}

/// The variable and its type at position `index` of the last `len` stack
/// slots of the block made from the method's block `p`; `None` where there
/// is no such block or slot.
pub open spec fn slot_of(st: SSABuilderV, p: u64, len: nat, index: nat) -> Option<(u64, ValueType)> {
    if !st.block_map.contains_key(p) || st.block_map[p] >= st.blocks.len() {
        None
    } else {
        let vs = st.blocks[st.block_map[p] as int].virtual_stack;
        if vs.len() < len || vs.len() - len + index >= vs.len() {
            None
        } else {
            Some(vs[vs.len() - len + index])
        }
    }
}

/// The variable in the slot of [`slot_of`].
pub open spec fn slot_var(st: SSABuilderV, p: u64, len: nat, index: nat) -> u64 {
    slot_of(st, p, len, index).unwrap().0
}

/// The type of the slot of [`slot_of`].
pub open spec fn slot_type(st: SSABuilderV, p: u64, len: nat, index: nat) -> ValueType {
    slot_of(st, p, len, index).unwrap().1
}

/// Whether a phi can be made over the blocks `preds`: there is at least one,
/// each has the slot, of the type `need` where one is needed, and all slots
/// have the same type.
pub open spec fn phi_ok(st: SSABuilderV, preds: Set<u64>, len: nat, index: nat, need: Option<ValueType>) -> bool {
    &&& preds.len() > 0
    &&& preds.finite()
    &&& forall|p: u64| #[trigger] preds.contains(p) ==> slot_of(st, p, len, index) is Some
    &&& forall|p: u64| #[trigger] preds.contains(p) ==> (need matches Some(t) ==> slot_type(st, p, len, index) == t)
    &&& forall|p: u64, q: u64| #[trigger] preds.contains(p) && #[trigger] preds.contains(q)
        ==> slot_type(st, p, len, index) == slot_type(st, q, len, index)
}

/// The pairs of a phi over the blocks `preds`: each block with the variable
/// in its slot.
pub open spec fn phi_pairs(st: SSABuilderV, preds: Set<u64>, len: nat, index: nat) -> Set<(u64, u64)> {
    Set::new(|pr: (u64, u64)| preds.contains(pr.0) && pr.1 == slot_var(st, pr.0, len, index))
}

/// The type of the slots of a phi over the blocks `preds`.
pub open spec fn phi_type(st: SSABuilderV, preds: Set<u64>, len: nat, index: nat) -> ValueType {
    slot_type(st, preds.choose(), len, index)
}

/// The name that the builder gives the variables of the stack.
pub open spec fn stack_name() -> Seq<char> {
    seq!['s', 't', 'a', 'c', 'k']
}

/// The block at `i` with the variable `s` of type `ty` pushed on its stack
/// and the instruction `inst` emitted.
pub open spec fn push_emit(st: SSABuilderV, i: int, s: u64, ty: ValueType, inst: SSAInstruction) -> SSABuilderV {
    let blk = st.blocks[i];
    SSABuilderV {
        blocks: st.blocks.update(i, BasicBlockV {
            virtual_stack: blk.virtual_stack.push((s, ty)),
            instructions: spec_emit(blk.instructions, inst),
            ..blk
        }),
        ..st
    }
}

/// Making a phi in the block at `self_idx` over the blocks that may run
/// before the method's block `og` (see [`phi_ok`]): a new variable holds it,
/// goes on the stack, and the phi goes into the builder's pool. `None`
/// where the program would stop.
pub open spec fn phi_step(st: SSABuilderV, jp: Map<u64, Set<u64>>, og: u64, self_idx: int, len: nat, index: nat, need: Option<ValueType>) -> Option<SSABuilderV> {
    if !jp.contains_key(og) || !phi_ok(st, jp[og], len, index, need) {
        None
    } else {
        let ty = phi_type(st, jp[og], len, index);
        match spec_new_variable(st, stack_name(), ty) {
            None => None,
            Some((st1, s)) => {
                let st2 = SSABuilderV { our_pool: st1.our_pool.push(PoolConstantV::Phi(phi_pairs(st, jp[og], len, index))), ..st1 };
                Some(push_emit(st2, self_idx, s, ty, SSAInstruction::Phi(LValue::Variable(s), st1.our_pool.len() as usize)))
            },
        }
    }
}

/// The phis for the stack that the block expects, from the `i`th on.
pub open spec fn phis_from(st: SSABuilderV, jp: Map<u64, Set<u64>>, og: u64, self_idx: int, ex: Seq<Option<ValueType>>, i: nat) -> Option<SSABuilderV>
    decreases ex.len() - i,
{
    if i >= ex.len() {
        Some(st)
    } else {
        match phi_step(st, jp, og, self_idx, ex.len(), i, ex[i as int]) {
            None => None,
            Some(st1) => phis_from(st1, jp, og, self_idx, ex, i + 1),
        }
    }
}

/// `count` more phis, for stack slots that a successor expects beyond those
/// of the block, the first at `index`.
pub open spec fn extra_phis(st: SSABuilderV, jp: Map<u64, Set<u64>>, og: u64, self_idx: int, len: nat, index: nat, count: nat) -> Option<SSABuilderV>
    decreases count,
{
    if count == 0 {
        Some(st)
    } else {
        match phi_step(st, jp, og, self_idx, len, index, None) {
            None => None,
            Some(st1) => extra_phis(st1, jp, og, self_idx, len, index + 1, (count - 1) as nat),
        }
    }
}

/// The block at `self_idx` with its stack's top popped; `None` where the stack is empty.
pub open spec fn pop_top(st: SSABuilderV, self_idx: int) -> Option<(SSABuilderV, (u64, ValueType))> {
    let blk = st.blocks[self_idx];
    if blk.virtual_stack.len() == 0 {
        None
    } else {
        Some((SSABuilderV {
            blocks: st.blocks.update(self_idx, BasicBlockV { virtual_stack: blk.virtual_stack.drop_last(), ..blk }),
            ..st
        }, blk.virtual_stack.last()))
    }
}

/// What the instruction `op` does to the block at `self_idx`: a constant is
/// declared in a new variable; `dup`, `pop` and `iadd` work on the stack;
/// `nop` does nothing. `None` where the program would stop (any other
/// instruction, or a stack too short).
pub open spec fn inst_step(st: SSABuilderV, self_idx: int, op: VMOpcodeV) -> Option<SSABuilderV> {
    match spec_const(st.pool, op) {
        None => None,
        Some(Some(c)) => match spec_new_variable(st, stack_name(), constant_type(c)) {
            None => None,
            Some((st1, s)) => Some(push_emit(st1, self_idx, s, constant_type(c), SSAInstruction::Declare(LValue::Variable(s), Operand::Constant(c)))),
        },
        Some(None) => if op is nop {
            Some(st)
        } else if op is dup {
            match pop_top(st, self_idx) {
                None => None,
                Some((st1, v)) => {
                    let blk = st1.blocks[self_idx];
                    Some(SSABuilderV {
                        blocks: st1.blocks.update(self_idx, BasicBlockV { virtual_stack: blk.virtual_stack.push(v).push(v), ..blk }),
                        ..st1
                    })
                },
            }
        } else if op is pop {
            match pop_top(st, self_idx) {
                None => None,
                Some((st1, _)) => Some(st1),
            }
        } else if op is iadd {
            match pop_top(st, self_idx) {
                None => None,
                Some((st1, b)) => match pop_top(st1, self_idx) {
                    None => None,
                    Some((st2, a)) => match spec_new_variable(st2, stack_name(), ValueType::Int) {
                        None => None,
                        Some((st3, s)) => Some(push_emit(st3, self_idx, s, ValueType::Int,
                            SSAInstruction::Add(LValue::Variable(s), Operand::Variable(a.0), Operand::Variable(b.0)))),
                    },
                },
            }
        } else {
            None
        },
    }
}

/// What each instruction does to the stack of the block at `i` (its top
/// last), the next variable being the one at `n`, the number of variables
/// so far: `nop` changes nothing; `pop` removes the top; `dup` pushes the
/// top again; `iadd` replaces the two top values `a` (below) and `b` (the
/// top) by a new int variable, declared as `a + b`; an instruction that
/// pushes a constant `c` pushes a new variable of the constant's type,
/// declared as `c`. An empty stack stops `pop` and `dup`, and fewer than two
/// values stop `iadd`.
pub proof fn law_inst_stack_effect(st: SSABuilderV, i: int, op: VMOpcodeV)
    requires
        0 <= i < st.blocks.len(),
    ensures
        inst_step(st, i, VMOpcodeV::nop()) == Some(st),
        ({
            let blk = st.blocks[i];
            let vs = blk.virtual_stack;
            let n = st.variables.len() as u64;
            let popped = inst_step(st, i, VMOpcodeV::pop()).unwrap();
            let dupped = inst_step(st, i, VMOpcodeV::dup()).unwrap();
            let added = inst_step(st, i, VMOpcodeV::iadd()).unwrap();
            let pushed = inst_step(st, i, op).unwrap();
            let c = spec_const(st.pool, op).unwrap().unwrap();
            &&& vs.len() == 0 ==> inst_step(st, i, VMOpcodeV::pop()) is None && inst_step(st, i, VMOpcodeV::dup()) is None
            &&& vs.len() < 2 ==> inst_step(st, i, VMOpcodeV::iadd()) is None
            &&& vs.len() >= 1 ==> inst_step(st, i, VMOpcodeV::pop()) is Some
                && popped.blocks[i].virtual_stack == vs.drop_last() && popped.blocks[i].instructions == blk.instructions
            &&& vs.len() >= 1 ==> inst_step(st, i, VMOpcodeV::dup()) is Some
                && dupped.blocks[i].virtual_stack == vs.push(vs.last()) && dupped.blocks[i].instructions == blk.instructions
            &&& inst_step(st, i, VMOpcodeV::iadd()) is Some ==> {
                &&& added.blocks[i].virtual_stack == vs.drop_last().drop_last().push((n, ValueType::Int))
                &&& added.blocks[i].instructions == spec_emit(blk.instructions, SSAInstruction::Add(LValue::Variable(n),
                    Operand::Variable(vs[vs.len() - 2].0), Operand::Variable(vs[vs.len() - 1].0)))
            }
            &&& (spec_const(st.pool, op) matches Some(Some(_)) && inst_step(st, i, op) is Some) ==> {
                &&& pushed.blocks[i].virtual_stack == vs.push((n, constant_type(c)))
                &&& pushed.blocks[i].instructions == spec_emit(blk.instructions, SSAInstruction::Declare(LValue::Variable(n),
                    Operand::Constant(c)))
            }
        }),
{
    let blk = st.blocks[i];
    let vs = blk.virtual_stack;
    if vs.len() >= 1 {
        assert(vs.drop_last().push(vs.last()).push(vs.last()) =~= vs.push(vs.last()));
    }
    if vs.len() >= 2 {
        let s1 = vs.drop_last();
        assert(s1.last() == vs[vs.len() - 2]);
    }
}

/// The instructions of the code from `v` up to, not including, `stop`.
pub open spec fn insts_from(st: SSABuilderV, self_idx: int, code: Seq<VMOpcodeV>, v: nat, stop: nat) -> Option<SSABuilderV>
    decreases stop - v,
{
    if v >= stop {
        Some(st)
    } else if v >= code.len() {
        None
    } else {
        match inst_step(st, self_idx, code[v as int]) {
            None => None,
            Some(st1) => insts_from(st1, self_idx, code, v + 1, stop),
        }
    }
}

/// The block at `i` with the instruction `inst` emitted.
pub open spec fn emit_at(st: SSABuilderV, i: int, inst: SSAInstruction) -> SSABuilderV {
    let blk = st.blocks[i];
    SSABuilderV {
        blocks: st.blocks.update(i, BasicBlockV { instructions: spec_emit(blk.instructions, inst), ..blk }),
        ..st
    }
}

/// The name that the builder gives the variables of the stack, as a string.
fn stack_string() -> (r: String)
    ensures
        r@ == stack_name(),
{
    proof {
        reveal_strlit("stack");
    }
    let r = crate::text::owned("stack");
    assert(r@ =~= stack_name());
    r
}

/// The block at `i` with `v` pushed on its stack.
pub open spec fn push_at(st: SSABuilderV, i: int, v: (u64, ValueType)) -> SSABuilderV {
    let blk = st.blocks[i];
    SSABuilderV {
        blocks: st.blocks.update(i, BasicBlockV { virtual_stack: blk.virtual_stack.push(v), ..blk }),
        ..st
    }
}

/// The state of building one block: the builder, for each block of the
/// method the blocks that may run before it, the blocks still to build,
/// and the position of the next phi among the stack slots.
pub struct BlockRun {
    pub st: SSABuilderV,
    pub jp: Map<u64, Set<u64>>,
    pub queue: Seq<u64>,
    pub index: nat,
}

/// The jump possibilities with `x` added to those of `k`, and whether it
/// was new there.
pub open spec fn jp_add(jp: Map<u64, Set<u64>>, k: u64, x: u64) -> (Map<u64, Set<u64>>, bool) {
    let before = if jp.contains_key(k) { jp[k] } else { Set::<u64>::empty() };
    (jp.insert(k, before.insert(x)), !before.contains(x))
}

/// Record that the method's block `og` may run before the block `t`; `t`
/// is queued where that is new.
pub open spec fn note_jump(run: BlockRun, t: u64, og: u64) -> BlockRun {
    let (jp2, added) = jp_add(run.jp, t, og);
    BlockRun { st: run.st, jp: jp2, queue: if added { run.queue.push(t) } else { run.queue }, index: run.index }
}

/// Where the successor `e` expects more stack slots than the block at
/// `self_idx` has, phis for the missing ones. `None` where the program
/// would stop.
pub open spec fn successor_phis(run: BlockRun, expected: Map<u64, Seq<Option<ValueType>>>, og: u64, self_idx: int, e: u64) -> Option<BlockRun> {
    if !expected.contains_key(e) {
        None
    } else {
        let exp_len = expected[e].len();
        let our_len = run.st.blocks[self_idx].virtual_stack.len();
        if exp_len > our_len {
            let count = (exp_len - our_len) as nat;
            match extra_phis(run.st, run.jp, og, self_idx, count, run.index, count) {
                None => None,
                Some(st1) => Some(BlockRun { st: st1, jp: run.jp, queue: run.queue, index: run.index + count }),
            }
        } else {
            Some(run)
        }
    }
}

/// The instruction at `i` of the code.
pub open spec fn code_at(code: Seq<VMOpcodeV>, i: usize) -> VMOpcodeV {
    code[i as int]
}

/// The end of the block at `self_idx`, by its jump: a return returns the
/// top of the stack; a jump goes to its block, noted as a possibility; a
/// conditional jump (which must be an `if_icmple` at `end`) compares the
/// two top values and notes both blocks. Then phis are made for the stack
/// slots that the blocks jumped to expect beyond those of this block.
pub open spec fn jump_part(run: BlockRun, expected: Map<u64, Seq<Option<ValueType>>>, code: Seq<VMOpcodeV>, og: u64, self_idx: int, end: usize, jt: Option<JumpTarget>) -> Option<BlockRun> {
    match jt {
        None => Some(run),
        Some(JumpTarget::Return) => match pop_top(run.st, self_idx) {
            None => None,
            Some((st1, top)) => Some(BlockRun {
                st: emit_at(st1, self_idx, SSAInstruction::Return(Operand::Variable(top.0))),
                jp: run.jp,
                queue: run.queue,
                index: run.index,
            }),
        },
        Some(JumpTarget::Unconditional(v, _)) => {
            let run1 = BlockRun { st: emit_at(run.st, self_idx, SSAInstruction::Goto(v)), jp: run.jp, queue: run.queue, index: run.index };
            successor_phis(note_jump(run1, v, og), expected, og, self_idx, v)
        },
        Some(JumpTarget::Conditional(success, fail)) => if end >= code.len() || !(code_at(code, end) is if_icmple) {
            None
        } else {
            match pop_top(run.st, self_idx) {
                None => None,
                Some((st1, b)) => match pop_top(st1, self_idx) {
                    None => None,
                    Some((st2, a)) => {
                        let run1 = BlockRun {
                            st: emit_at(st2, self_idx, SSAInstruction::CompareLE(Operand::Variable(a.0), Operand::Variable(b.0), success, fail)),
                            jp: run.jp,
                            queue: run.queue,
                            index: run.index,
                        };
                        let run2 = note_jump(note_jump(run1, success, og), fail, og);
                        match successor_phis(run2, expected, og, self_idx, success) {
                            None => None,
                            Some(run3) => successor_phis(run3, expected, og, self_idx, fail),
                        }
                    },
                },
            }
        },
    }
}

/// How a block ends, on its stack (top last), where the blocks it jumps to
/// expect no more stack slots than it leaves: a return takes the top and
/// returns it; a jump to `v` emits `Goto(v)` and notes that this block may
/// run before `v`; the conditional jump of an `if_icmple` takes the two top
/// values `a` (below) and `b` (the top), emits `CompareLE(a, b, success,
/// fail)` and notes this block before both. A return on an empty stack, and
/// a comparison with fewer than two values, stop the program.
pub proof fn law_block_jumps(run: BlockRun, expected: Map<u64, Seq<Option<ValueType>>>, code: Seq<VMOpcodeV>, og: u64,
    i: int, end: usize, v: u64, fall: bool, success: u64, fail: u64)
    requires
        0 <= i < run.st.blocks.len(),
    ensures
        ({
            let blk = run.st.blocks[i];
            let vs = blk.virtual_stack;
            let ret = jump_part(run, expected, code, og, i, end, Some(JumpTarget::Return));
            let jump = jump_part(run, expected, code, og, i, end, Some(JumpTarget::Unconditional(v, fall)));
            let cond = jump_part(run, expected, code, og, i, end, Some(JumpTarget::Conditional(success, fail)));
            &&& vs.len() == 0 ==> ret is None
            &&& vs.len() >= 1 ==> ret is Some && (ret->0).st.blocks[i] == (BasicBlockV {
                virtual_stack: vs.drop_last(),
                instructions: spec_emit(blk.instructions, SSAInstruction::Return(Operand::Variable(vs.last().0))),
                ..blk
            })
            &&& (expected.contains_key(v) && expected[v].len() <= vs.len()) ==> {
                &&& jump is Some
                &&& (jump->0).st.blocks[i] == (BasicBlockV { instructions: spec_emit(blk.instructions, SSAInstruction::Goto(v)), ..blk })
                &&& (jump->0).jp.contains_key(v) && (jump->0).jp[v].contains(og)
            }
            &&& (end < code.len() && code_at(code, end) is if_icmple && vs.len() < 2) ==> cond is None
            &&& (end < code.len() && code_at(code, end) is if_icmple && vs.len() >= 2 && expected.contains_key(success)
                && expected.contains_key(fail) && expected[success].len() + 2 <= vs.len()
                && expected[fail].len() + 2 <= vs.len()) ==> {
                &&& cond is Some
                &&& (cond->0).st.blocks[i] == (BasicBlockV {
                    virtual_stack: vs.drop_last().drop_last(),
                    instructions: spec_emit(blk.instructions, SSAInstruction::CompareLE(Operand::Variable(vs[vs.len() - 2].0),
                        Operand::Variable(vs[vs.len() - 1].0), success, fail)),
                    ..blk
                })
                &&& (cond->0).jp.contains_key(success) && (cond->0).jp[success].contains(og)
                &&& (cond->0).jp.contains_key(fail) && (cond->0).jp[fail].contains(og)
            }
        }),
{
    let vs = run.st.blocks[i].virtual_stack;
    if vs.len() >= 2 {
        assert(vs.drop_last().last() == vs[vs.len() - 2]);
    }
}

/// Where the instructions of a block of the range `(start, end)` stop: a
/// block of one instruction takes it unless it branches. `None` where the
/// program would stop.
pub open spec fn run_stop(code: Seq<VMOpcodeV>, start: usize, end: usize) -> Option<nat> {
    if start != end {
        Some(end as nat)
    } else if start >= code.len() {
        None
    } else if !crate::bytecode::branching(code[start as int]) {
        if end == usize::MAX { None } else { Some((end + 1) as nat) }
    } else {
        Some(end as nat)
    }
}

/// What building the block at `self_idx` from the method's block `b` gives
/// (the method's blocks expecting `expected` on the stack): the block is
/// emptied; phis are made for the stack that it expects; its instructions
/// are turned into the intermediate form; its end is made by its jump.
/// `None` where the program would stop.
pub open spec fn spec_process_block(st: SSABuilderV, jp: Map<u64, Set<u64>>, queue: Seq<u64>, expected: Map<u64, Seq<Option<ValueType>>>, code: Seq<VMOpcodeV>, self_idx: usize, b: crate::bytecode::blocks::BasicBlock) -> Option<BlockRun> {
    if self_idx >= st.blocks.len() {
        None
    } else {
        let blk = st.blocks[self_idx as int];
        let st0 = SSABuilderV {
            blocks: st.blocks.update(self_idx as int, BasicBlockV { instructions: seq![], virtual_stack: seq![], ..blk }),
            ..st
        };
        let og = blk.og_id;
        if !expected.contains_key(og) {
            None
        } else {
            let ex = expected[og];
            match phis_from(st0, jp, og, self_idx as int, ex, 0) {
                None => None,
                Some(st1) => {
                    let run1 = BlockRun { st: st1, jp, queue, index: ex.len() };
                    match b.start_end {
                        None => Some(run1),
                        Some((start, end)) => match run_stop(code, start, end) {
                            None => None,
                            Some(stop) => match insts_from(st1, self_idx as int, code, start as nat, stop) {
                                None => None,
                                Some(st2) => jump_part(BlockRun { st: st2, jp, queue, index: ex.len() }, expected, code, og, self_idx as int, end, b.jump_target),
                            },
                        },
                    }
                },
            }
        }
    }
}

broadcast use vstd::std_specs::hash::group_hash_axioms;

impl SSABuilder {
    /// The position of the block made from the method's block `p`, if any.
    pub fn block_of(&self, p: u64) -> (r: Option<usize>)
        ensures
            r == (if self@.block_map.contains_key(p) { Some(self@.block_map[p]) } else { None::<usize> }),
    {
        match self.block_map.get(&p) {
            Some(x) => Some(*x),
            None => None,
        }
    }

    /// The name and type of the variable `idx`, if there is one.
    pub fn variable(&self, idx: u64) -> (r: Option<&(String, ValueType)>)
        ensures
            match r {
                Some(v) => idx < self@.variables.len() && (v.0@, v.1) == self@.variables[idx as int],
                None => idx >= self@.variables.len(),
            },
    {
        if idx < self.variables.len() as u64 {
            Some(&self.variables[idx as usize])
        } else {
            None
        }
    }

    /// The constant at `i` of the builder's own pool, if there is one.
    pub fn pool_constant(&self, i: usize) -> (r: Option<&PoolConstant>)
        ensures
            match r {
                Some(c) => i < self@.our_pool.len() && c@ == self@.our_pool[i as int],
                None => i >= self@.our_pool.len(),
            },
    {
        if i < self.our_pool.len() {
            Some(&self.our_pool[i])
        } else {
            None
        }
    }

    /// Pop the top of the stack of the block at `i`.
    fn block_pop(&mut self, i: usize) -> (r: (u64, ValueType))
        requires
            i < old(self)@.blocks.len(),
            pop_top(old(self)@, i as int) is Some,
        ensures
            pop_top(old(self)@, i as int) == Some((final(self)@, r)),
    {
        let r = self.basic_blocks[i].stack_pop();
        proof {
            let blk = old(self)@.blocks[i as int];
            assert(self@.blocks =~= old(self)@.blocks.update(i as int, BasicBlockV { virtual_stack: blk.virtual_stack.drop_last(), ..blk }));
        }
        r
    }

    /// Push `v` on the stack of the block at `i`.
    fn block_push(&mut self, i: usize, v: (u64, ValueType))
        requires
            i < old(self)@.blocks.len(),
        ensures
            final(self)@ == push_at(old(self)@, i as int, v),
    {
        self.basic_blocks[i].stack_push(v.0, v.1);
        proof {
            let blk = old(self)@.blocks[i as int];
            assert(self@.blocks =~= old(self)@.blocks.update(i as int, BasicBlockV { virtual_stack: blk.virtual_stack.push(v), ..blk }));
        }
    }

    /// Emit `inst` in the block at `i`.
    fn block_emit(&mut self, i: usize, inst: SSAInstruction)
        requires
            i < old(self)@.blocks.len(),
        ensures
            final(self)@ == emit_at(old(self)@, i as int, inst),
    {
        self.basic_blocks[i].emit(inst);
        proof {
            let blk = old(self)@.blocks[i as int];
            assert(self@.blocks =~= old(self)@.blocks.update(i as int, BasicBlockV { instructions: spec_emit(blk.instructions, inst), ..blk }));
        }
    }

    /// Push the variable `s` of type `ty` on the stack of the block at `i`,
    /// and emit `inst` there.
    fn block_push_emit(&mut self, i: usize, s: u64, ty: ValueType, inst: SSAInstruction)
        requires
            i < old(self)@.blocks.len(),
        ensures
            final(self)@ == push_emit(old(self)@, i as int, s, ty, inst),
    {
        self.block_push(i, (s, ty));
        self.block_emit(i, inst);
        proof {
            assert(final(self)@.blocks =~= push_emit(old(self)@, i as int, s, ty, inst).blocks);
        }
    }

    /// The slot of [`slot_of`], read.
    fn read_slot(&self, p: u64, len: usize, index: usize) -> (r: (u64, ValueType))
        requires
            slot_of(self@, p, len as nat, index as nat) is Some,
        ensures
            slot_of(self@, p, len as nat, index as nat) == Some(r),
    {
        let bi = match self.block_of(p) {
            Some(bi) => bi,
            None => vstd::pervasive::unreached(),
        };
        assert(self.basic_blocks@[bi as int]@ == self@.blocks[bi as int]);
        let vs_len = self.basic_blocks[bi].virtual_stack.len();
        let k = vs_len - len + index;
        self.basic_blocks[bi].virtual_stack[k]
    }

    /// A phi over the blocks that may run before the method's block `og`
    /// (see [`phi_step`]).
    fn phi_step_exec(&mut self, jp: &fnv::FnvHashMap<u64, fnv::FnvHashSet<u64>>, og: u64, self_idx: usize, len: usize, index: usize, need: Option<ValueType>)
        requires
            self_idx < old(self)@.blocks.len(),
            phi_step(old(self)@, jp_view(*jp), og, self_idx as int, len as nat, index as nat, need) is Some,
        ensures
            phi_step(old(self)@, jp_view(*jp), og, self_idx as int, len as nat, index as nat, need) == Some(final(self)@),
            final(self)@.blocks.len() == old(self)@.blocks.len(),
    {
        let ghost st = self@;
        let items = match crate::fnvmap::fnv_set_items(jp, og) {
            Some(v) => v,
            None => vstd::pervasive::unreached(),
        };
        let ghost preds = jp_view(*jp)[og];
        assert(items@.to_set() == preds);
        let mut phi: Vec<(u64, u64)> = Vec::new();
        let mut last_ty: Option<ValueType> = None;
        let mut i: usize = 0;
        while i < items.len()
            invariant
                i <= items.len(),
                self@ == st,
                items@.to_set() == preds,
                phi_ok(st, preds, len as nat, index as nat, need),
                phi@ == Seq::new(i as nat, |j: int| (items@[j], slot_var(st, items@[j], len as nat, index as nat))),
                i == 0 ==> last_ty is None,
                i > 0 ==> last_ty == Some(slot_type(st, items@[0], len as nat, index as nat)),
            decreases items.len() - i,
        {
            let p = items[i];
            assert(items@.to_set().contains(p));
            let val = self.read_slot(p, len, index);
            if let Some(t) = need {
                if val.1 != t {
                    vstd::pervasive::unreached::<()>();
                }
            }
            match last_ty {
                Some(t) => {
                    assert(items@.to_set().contains(items@[0]));
                    if val.1 != t {
                        vstd::pervasive::unreached::<()>();
                    }
                },
                None => {
                    last_ty = Some(val.1);
                },
            }
            phi.push((p, val.0));
            i = i + 1;
            assert(phi@ =~= Seq::new(i as nat, |j: int| (items@[j], slot_var(st, items@[j], len as nat, index as nat))));
        }
        let ty = match last_ty {
            Some(t) => t,
            None => {
                assert(preds.contains(preds.choose()));
                assert(items@.to_set().contains(preds.choose()));
                vstd::pervasive::unreached()
            },
        };
        proof {
            assert(preds.contains(preds.choose()));
            assert(items@.to_set().contains(items@[0]));
            assert(ty == phi_type(st, preds, len as nat, index as nat));
            assert forall|pr: (u64, u64)| #[trigger] phi@.to_set().contains(pr) == phi_pairs(st, preds, len as nat, index as nat).contains(pr) by {
                if phi@.to_set().contains(pr) {
                    let j = choose|j: int| 0 <= j < phi@.len() && phi@[j] == pr;
                    assert(items@.to_set().contains(items@[j]));
                }
                if phi_pairs(st, preds, len as nat, index as nat).contains(pr) {
                    assert(items@.to_set().contains(pr.0));
                    let j = choose|j: int| 0 <= j < items@.len() && items@[j] == pr.0;
                    assert(phi@[j] == pr);
                    assert(phi@.to_set().contains(phi@[j]));
                }
            }
            assert(phi@.to_set() =~= phi_pairs(st, preds, len as nat, index as nat));
        }
        let s = self.new_variable(stack_string(), ty);
        let at = self.new_phi_constant(phi);
        self.block_push_emit(self_idx, s, ty, SSAInstruction::Phi(LValue::Variable(s), at));
    }
}

impl SSABuilder {
    /// How many constants the builder's pool holds.
    fn pool_len(&self) -> (r: usize)
        ensures
            r == self@.our_pool.len(),
    {
        self.our_pool.len()
    }

    /// The phis for the stack that the block at `self_idx` expects (see [`phis_from`]).
    fn phis_exec(&mut self, jp: &fnv::FnvHashMap<u64, fnv::FnvHashSet<u64>>, og: u64, self_idx: usize, ex: &Vec<Option<ValueType>>)
        requires
            self_idx < old(self)@.blocks.len(),
            phis_from(old(self)@, jp_view(*jp), og, self_idx as int, ex@, 0) is Some,
        ensures
            phis_from(old(self)@, jp_view(*jp), og, self_idx as int, ex@, 0) == Some(final(self)@),
            final(self)@.blocks.len() == old(self)@.blocks.len(),
            final(self)@.our_pool.len() == old(self)@.our_pool.len() + ex@.len(),
    {
        let ghost goal = phis_from(old(self)@, jp_view(*jp), og, self_idx as int, ex@, 0);
        let ghost start = old(self)@;
        let mut index: usize = 0;
        while index < ex.len()
            invariant
                index <= ex.len(),
                self_idx < self@.blocks.len(),
                self@.blocks.len() == start.blocks.len(),
                self@.our_pool.len() == start.our_pool.len() + index,
                goal == phis_from(start, jp_view(*jp), og, self_idx as int, ex@, 0),
                goal == phis_from(self@, jp_view(*jp), og, self_idx as int, ex@, index as nat),
                goal is Some,
            decreases ex.len() - index,
        {
            self.phi_step_exec(jp, og, self_idx, ex.len(), index, ex[index]);
            index = index + 1;
        }
    }

    /// `count` more phis (see [`extra_phis`]); the position of the next.
    fn extra_phis_exec(&mut self, jp: &fnv::FnvHashMap<u64, fnv::FnvHashSet<u64>>, og: u64, self_idx: usize, count: usize, index: usize) -> (r: usize)
        requires
            self_idx < old(self)@.blocks.len(),
            index <= old(self)@.our_pool.len(),
            extra_phis(old(self)@, jp_view(*jp), og, self_idx as int, count as nat, index as nat, count as nat) is Some,
        ensures
            extra_phis(old(self)@, jp_view(*jp), og, self_idx as int, count as nat, index as nat, count as nat) == Some(final(self)@),
            final(self)@.blocks.len() == old(self)@.blocks.len(),
            r == index + count,
            r <= final(self)@.our_pool.len(),
    {
        let ghost goal = extra_phis(old(self)@, jp_view(*jp), og, self_idx as int, count as nat, index as nat, count as nat);
        let ghost start = old(self)@;
        let mut i: usize = 0;
        let mut at = index;
        while i < count
            invariant
                i <= count,
                at == index + i,
                at <= self@.our_pool.len(),
                self_idx < self@.blocks.len(),
                self@.blocks.len() == start.blocks.len(),
                goal == extra_phis(self@, jp_view(*jp), og, self_idx as int, count as nat, at as nat, (count - i) as nat),
                goal is Some,
            decreases count - i,
        {
            self.phi_step_exec(jp, og, self_idx, count, at, None);
            let pool_len = self.pool_len();
            assert(at < pool_len);
            at = at + 1;
            i = i + 1;
        }
        at
    }

    /// One instruction turned into the intermediate form (see [`inst_step`]).
    fn inst_step_exec(&mut self, self_idx: usize, op: &VMOpcode)
        requires
            self_idx < old(self)@.blocks.len(),
            inst_step(old(self)@, self_idx as int, op@) is Some,
        ensures
            inst_step(old(self)@, self_idx as int, op@) == Some(final(self)@),
            final(self)@.blocks.len() == old(self)@.blocks.len(),
            final(self)@.our_pool == old(self)@.our_pool,
    {
        match self.process_const(op) {
            Some(c) => {
                let ty = c.ty();
                let s = self.new_variable(stack_string(), ty);
                self.block_push_emit(self_idx, s, ty, SSAInstruction::Declare(LValue::Variable(s), Operand::Constant(c)));
            },
            None => match op {
                VMOpcode::nop() => {},
                VMOpcode::dup() => {
                    let v = self.block_pop(self_idx);
                    let ghost st1 = self@;
                    self.block_push(self_idx, v);
                    self.block_push(self_idx, v);
                    proof {
                        let blk = st1.blocks[self_idx as int];
                        assert(self@.blocks =~= st1.blocks.update(self_idx as int, BasicBlockV { virtual_stack: blk.virtual_stack.push(v).push(v), ..blk }));
                    }
                },
                VMOpcode::pop() => {
                    self.block_pop(self_idx);
                },
                VMOpcode::iadd() => {
                    let b = self.block_pop(self_idx);
                    let a = self.block_pop(self_idx);
                    let s = self.new_variable(stack_string(), ValueType::Int);
                    self.block_push_emit(self_idx, s, ValueType::Int, SSAInstruction::Add(LValue::Variable(s), Operand::Variable(a.0), Operand::Variable(b.0)));
                },
                _ => vstd::pervasive::unreached(),
            },
        }
    }

    /// The instructions from `start` up to `stop` (see [`insts_from`]).
    fn insts_exec(&mut self, self_idx: usize, code: &InstructionList, start: usize, stop: usize)
        requires
            self_idx < old(self)@.blocks.len(),
            insts_from(old(self)@, self_idx as int, code@.opcodes, start as nat, stop as nat) is Some,
        ensures
            insts_from(old(self)@, self_idx as int, code@.opcodes, start as nat, stop as nat) == Some(final(self)@),
            final(self)@.blocks.len() == old(self)@.blocks.len(),
            final(self)@.our_pool == old(self)@.our_pool,
    {
        let ghost goal = insts_from(old(self)@, self_idx as int, code@.opcodes, start as nat, stop as nat);
        let ghost first = old(self)@;
        let mut v = start;
        while v < stop
            invariant
                start <= v,
                self_idx < self@.blocks.len(),
                self@.blocks.len() == first.blocks.len(),
                self@.our_pool == first.our_pool,
                goal == insts_from(self@, self_idx as int, code@.opcodes, v as nat, stop as nat),
                goal is Some,
            decreases stop - v,
        {
            self.inst_step_exec(self_idx, &code.opcodes[v]);
            v = v + 1;
        }
    }

    /// The phis that the successor `e` needs (see [`successor_phis`]); the
    /// position of the next phi.
    fn successor_phis_exec(&mut self, jp: &fnv::FnvHashMap<u64, fnv::FnvHashSet<u64>>, expected: &fnv::FnvHashMap<u64, Vec<Option<ValueType>>>, og: u64, self_idx: usize, e: u64, index: usize, Ghost(queue): Ghost<Seq<u64>>) -> (r: usize)
        requires
            self_idx < old(self)@.blocks.len(),
            index <= old(self)@.our_pool.len(),
            successor_phis(BlockRun { st: old(self)@, jp: jp_view(*jp), queue, index: index as nat },
                crate::bytecode::process::expected_view(expected@), og, self_idx as int, e) is Some,
        ensures
            successor_phis(BlockRun { st: old(self)@, jp: jp_view(*jp), queue, index: index as nat },
                crate::bytecode::process::expected_view(expected@), og, self_idx as int, e)
                == Some(BlockRun { st: final(self)@, jp: jp_view(*jp), queue, index: r as nat }),
            final(self)@.blocks.len() == old(self)@.blocks.len(),
            r <= final(self)@.our_pool.len(),
    {
        let ex = match crate::fnvmap::fnv_get(expected, e) {
            Some(x) => x,
            None => vstd::pervasive::unreached(),
        };
        let exp_len = ex.len();
        assert(self.basic_blocks@[self_idx as int]@ == self@.blocks[self_idx as int]);
        let our_len = self.basic_blocks[self_idx].virtual_stack.len();
        if exp_len > our_len {
            let count = exp_len - our_len;
            self.extra_phis_exec(jp, og, self_idx, count, index)
        } else {
            index
        }
    }

    /// Record that the method's block `og` may run before `t`, queueing `t`
    /// where that is new.
    fn note_jump_exec(process_queue: &mut Vec<u64>, jp: &mut fnv::FnvHashMap<u64, fnv::FnvHashSet<u64>>, t: u64, og: u64)
        ensures
            ({
                let (jp2, added) = jp_add(jp_view(*old(jp)), t, og);
                &&& jp_view(*final(jp)) == jp2
                &&& final(process_queue)@ == if added { old(process_queue)@.push(t) } else { old(process_queue)@ }
            }),
    {
        let added = crate::fnvmap::fnv_set_add(jp, t, og);
        if added {
            process_queue.push(t);
        }
        proof {
            let (jp2, _) = jp_add(jp_view(*old(jp)), t, og);
            assert(jp_view(*jp) =~= jp2);
        }
    }
}

impl SSABuilder {
    /// The end of the block at `self_idx` by its jump (see [`jump_part`]);
    /// the position of the next phi.
    fn jump_part_exec(
        &mut self,
        process_queue: &mut Vec<u64>,
        jump_possibilities: &mut fnv::FnvHashMap<u64, fnv::FnvHashSet<u64>>,
        expected: &fnv::FnvHashMap<u64, Vec<Option<ValueType>>>,
        code: &InstructionList,
        og: u64,
        self_idx: usize,
        end: usize,
        jt: Option<JumpTarget>,
        index: usize,
    ) -> (r: usize)
        requires
            self_idx < old(self)@.blocks.len(),
            index <= old(self)@.our_pool.len(),
            jump_part(BlockRun { st: old(self)@, jp: jp_view(*old(jump_possibilities)), queue: old(process_queue)@, index: index as nat },
                crate::bytecode::process::expected_view(expected@), code@.opcodes, og, self_idx as int, end, jt) is Some,
        ensures
            jump_part(BlockRun { st: old(self)@, jp: jp_view(*old(jump_possibilities)), queue: old(process_queue)@, index: index as nat },
                crate::bytecode::process::expected_view(expected@), code@.opcodes, og, self_idx as int, end, jt)
                == Some(BlockRun { st: final(self)@, jp: jp_view(*final(jump_possibilities)), queue: final(process_queue)@, index: r as nat }),
    {
        match jt {
            None => index,
            Some(JumpTarget::Return) => {
                let top = self.block_pop(self_idx);
                self.block_emit(self_idx, SSAInstruction::Return(Operand::Variable(top.0)));
                index
            },
            Some(JumpTarget::Unconditional(v, _)) => {
                self.block_emit(self_idx, SSAInstruction::Goto(v));
                Self::note_jump_exec(process_queue, jump_possibilities, v, og);
                self.successor_phis_exec(jump_possibilities, expected, og, self_idx, v, index, Ghost(process_queue@))
            },
            Some(JumpTarget::Conditional(success, fail)) => {
                if !Self::compares_at(code, end) {
                    vstd::pervasive::unreached::<()>();
                }
                let b = self.block_pop(self_idx);
                let a = self.block_pop(self_idx);
                self.block_emit(self_idx, SSAInstruction::CompareLE(Operand::Variable(a.0), Operand::Variable(b.0), success, fail));
                Self::note_jump_exec(process_queue, jump_possibilities, success, og);
                Self::note_jump_exec(process_queue, jump_possibilities, fail, og);
                let i1 = self.successor_phis_exec(jump_possibilities, expected, og, self_idx, success, index, Ghost(process_queue@));
                self.successor_phis_exec(jump_possibilities, expected, og, self_idx, fail, i1, Ghost(process_queue@))
            },
        }
    }

    /// Whether the instruction at `end` is the conditional jump that the
    /// builder turns into a comparison.
    fn compares_at(code: &InstructionList, end: usize) -> (r: bool)
        ensures
            r == (end < code@.opcodes.len() && code_at(code@.opcodes, end) is if_icmple),
    {
        end < code.opcodes.len() && match &code.opcodes[end] {
            VMOpcode::if_icmple(_) => true,
            _ => false,
        }
    }

    /// Empty the block at `i`.
    fn block_clear(&mut self, i: usize)
        requires
            i < old(self)@.blocks.len(),
        ensures
            ({
                let blk = old(self)@.blocks[i as int];
                final(self)@ == (SSABuilderV {
                    blocks: old(self)@.blocks.update(i as int, BasicBlockV { instructions: seq![], virtual_stack: seq![], ..blk }),
                    ..old(self)@
                })
            }),
    {
        self.basic_blocks[i].instructions = vec![];
        self.basic_blocks[i].virtual_stack = Vec::new();
        proof {
            let blk = old(self)@.blocks[i as int];
            assert(self@.blocks =~= old(self)@.blocks.update(i as int, BasicBlockV { instructions: seq![], virtual_stack: seq![], ..blk }));
        }
    }

    /// Build the block at `self_block` from the method's block `b` (see
    /// [`spec_process_block`]).
    fn process_jvm_block(
        &mut self,
        process_queue: &mut Vec<u64>,
        jump_possibilities: &mut fnv::FnvHashMap<u64, fnv::FnvHashSet<u64>>,
        m: &crate::bytecode::MethodBlock,
        code: &InstructionList,
        self_block: usize,
        b: &crate::bytecode::blocks::BasicBlock,
    )
        requires
            spec_process_block(old(self)@, jp_view(*old(jump_possibilities)), old(process_queue)@,
                crate::bytecode::process::expected_view(m.block_expected_stack@), code@.opcodes, self_block, *b) is Some,
        ensures
            spec_process_block(old(self)@, jp_view(*old(jump_possibilities)), old(process_queue)@,
                crate::bytecode::process::expected_view(m.block_expected_stack@), code@.opcodes, self_block, *b)
                matches Some(run) && run.st == final(self)@ && run.jp == jp_view(*final(jump_possibilities))
                && run.queue == final(process_queue)@,
    {
        self.block_clear(self_block);
        assert(self.basic_blocks@[self_block as int]@ == self@.blocks[self_block as int]);
        let og = self.basic_blocks[self_block].og_id;
        let ex = match crate::fnvmap::fnv_get(&m.block_expected_stack, og) {
            Some(x) => x,
            None => vstd::pervasive::unreached(),
        };
        let ghost pool0 = self@.our_pool.len();
        self.phis_exec(jump_possibilities, og, self_block, ex);
        let index = ex.len();
        match b.start_end {
            None => {},
            Some((start, end)) => {
                let stop = if start != end {
                    end
                } else if !crate::bytecode::is_branching(&code.opcodes[start]) {
                    end + 1
                } else {
                    end
                };
                self.insts_exec(self_block, code, start, stop);
                self.jump_part_exec(process_queue, jump_possibilities, &m.block_expected_stack, code, og, self_block, end, b.jump_target, index);
            },
        }
    }
}

/// The name of the entry block.
pub open spec fn entry_name() -> Seq<char> {
    seq!['e', 'n', 't', 'r', 'y']
}

/// The prefix of the names of the other blocks.
pub open spec fn block_prefix() -> Seq<char> {
    seq!['b', 'l', 'o', 'c', 'k']
}

/// The blocks for the method's blocks from the `idx`th of `n` on, but the
/// entry `entry`: each named `block` and its number, and found by its
/// number.
pub open spec fn setup_from(st: SSABuilderV, n: nat, entry: u64, idx: nat) -> SSABuilderV
    decreases n - idx,
{
    if idx >= n {
        st
    } else if idx == entry {
        setup_from(st, n, entry, idx + 1)
    } else {
        let st1 = SSABuilderV {
            blocks: st.blocks.push(BasicBlockV {
                name: block_prefix() + decimal(idx),
                instructions: seq![],
                og_id: idx as u64,
                virtual_stack: seq![],
            }),
            block_map: st.block_map.insert(idx as u64, st.blocks.len() as usize),
            ..st
        };
        setup_from(st1, n, entry, idx + 1)
    }
}

/// The builder before any block is built, for a method of `n` blocks
/// entered at `entry`: the entry block first, then the others.
pub open spec fn spec_setup(pool: ConstantPoolV, n: nat, entry: u64) -> SSABuilderV {
    let st = SSABuilderV {
        variables: seq![],
        var_map: seq![],
        blocks: seq![BasicBlockV { name: entry_name(), instructions: seq![], og_id: entry, virtual_stack: seq![] }],
        pool,
        our_pool: seq![],
        block_map: Map::empty().insert(entry, 0usize),
    };
    setup_from(st, n, entry, 0)
}

/// Building the queued blocks, the last queued first, with at most `fuel`
/// blocks built. `None` where the program would stop or `fuel` runs out.
pub open spec fn ssa_loop(st: SSABuilderV, jp: Map<u64, Set<u64>>, queue: Seq<u64>, expected: Map<u64, Seq<Option<ValueType>>>, mblocks: Seq<crate::bytecode::blocks::BasicBlock>, code: Seq<VMOpcodeV>, fuel: nat) -> Option<SSABuilderV>
    decreases fuel,
{
    if queue.len() == 0 {
        Some(st)
    } else if fuel == 0 {
        None
    } else {
        let v = queue.last();
        if (v as usize) >= mblocks.len() || !st.block_map.contains_key(v) {
            None
        } else {
            match spec_process_block(st, jp, queue.drop_last(), expected, code, st.block_map[v], mblocks[(v as usize) as int]) {
                None => None,
                Some(run) => ssa_loop(run.st, run.jp, run.queue, expected, mblocks, code, (fuel - 1) as nat),
            }
        }
    }
}

/// What building the intermediate form of a method gives, with at most
/// `fuel` blocks built after the entry: the entry block is built first, and
/// each block that a built block jumps to is built again whenever a new way
/// into it is found. `None` where the program would stop or `fuel` runs out.
pub open spec fn spec_ssa(code: InstructionListV, pool: ConstantPoolV, mblocks: Seq<crate::bytecode::blocks::BasicBlock>, expected: Map<u64, Seq<Option<ValueType>>>, entry: u64, fuel: nat) -> Option<SSABuilderV> {
    let st = spec_setup(pool, mblocks.len(), entry);
    if (entry as usize) >= mblocks.len() {
        None
    } else {
        match spec_process_block(st, Map::empty(), seq![], expected, code.opcodes, 0, mblocks[(entry as usize) as int]) {
            None => None,
            Some(run) => ssa_loop(run.st, run.jp, run.queue, expected, mblocks, code.opcodes, fuel),
        }
    }
}

/// The name of the entry block, as a string.
fn entry_string() -> (r: String)
    ensures
        r@ == entry_name(),
{
    proof {
        reveal_strlit("entry");
    }
    let r = crate::text::owned("entry");
    assert(r@ =~= entry_name());
    r
}

/// The prefix of the names of the other blocks, as a string.
fn block_string() -> (r: String)
    ensures
        r@ == block_prefix(),
{
    proof {
        reveal_strlit("block");
    }
    let r = crate::text::owned("block");
    assert(r@ =~= block_prefix());
    r
}

impl SSABuilder {
    /// Build the intermediate form of the method whose code is `code`, split
    /// into the blocks `m` (see [`spec_ssa`]). Building must come to an end.
    pub fn process(code: InstructionList, constant_pool: ConstantPool, m: crate::bytecode::MethodBlock) -> (r: Self)
        requires
            exists|fuel: nat| spec_ssa(code@, constant_pool@, m.blocks@,
                crate::bytecode::process::expected_view(m.block_expected_stack@), m.entry, fuel) is Some,
        ensures
            Some(r@) == spec_ssa(code@, constant_pool@, m.blocks@,
                crate::bytecode::process::expected_view(m.block_expected_stack@), m.entry,
                choose|fuel: nat| spec_ssa(code@, constant_pool@, m.blocks@,
                    crate::bytecode::process::expected_view(m.block_expected_stack@), m.entry, fuel) is Some),
    {
        let ghost expected = crate::bytecode::process::expected_view(m.block_expected_stack@);
        let ghost fuel = choose|fuel: nat| spec_ssa(code@, constant_pool@, m.blocks@, expected, m.entry, fuel) is Some;
        let ghost goal = spec_ssa(code@, constant_pool@, m.blocks@, expected, m.entry, fuel);
        let ghost pool = constant_pool@;
        let mut s = Self::new(constant_pool);
        let entry = BasicBlock::new(entry_string(), m.entry);
        let entry_block = s.add_block(entry);
        s.block_map.insert(m.entry, entry_block);
        let ghost st1 = s@;
        assert(st1.blocks =~= seq![BasicBlockV { name: entry_name(), instructions: seq![], og_id: m.entry, virtual_stack: seq![] }]);
        assert(st1.block_map =~= Map::empty().insert(m.entry, 0usize));
        let mut idx: usize = 0;
        while idx < m.blocks.len()
            invariant
                idx <= m.blocks.len(),
                setup_from(st1, m.blocks@.len(), m.entry, 0) == setup_from(s@, m.blocks@.len(), m.entry, idx as nat),
            decreases m.blocks.len() - idx,
        {
            if idx as u64 != m.entry {
                let block = BasicBlock::new(crate::text::numbered(block_string().as_str(), idx as u64), idx as u64);
                let ghost before = s@;
                let pos = s.add_block(block);
                s.block_map.insert(idx as u64, pos);
                assert(s@.blocks == before.blocks.push(BasicBlockV {
                    name: block_prefix() + decimal(idx as nat),
                    instructions: seq![],
                    og_id: idx as u64,
                    virtual_stack: seq![],
                }));
            }
            idx = idx + 1;
        }
        assert(s@ == spec_setup(pool, m.blocks@.len(), m.entry));
        let mut queue: Vec<u64> = Vec::new();
        let mut processed: fnv::FnvHashMap<u64, fnv::FnvHashSet<u64>> = fnv::FnvHashMap::default();
        assert(jp_view(processed) =~= Map::empty());
        assert(queue@ =~= Seq::<u64>::empty());
        let e = m.entry as usize;
        if e >= m.blocks.len() {
            vstd::pervasive::unreached::<()>();
        }
        s.process_jvm_block(&mut queue, &mut processed, &m, &code, entry_block, &m.blocks[e]);
        let ghost mut f = fuel;
        while queue.len() > 0
            invariant
                goal is Some,
                goal == ssa_loop(s@, jp_view(processed), queue@, expected, m.blocks@, code@.opcodes, f),
                expected == crate::bytecode::process::expected_view(m.block_expected_stack@),
            decreases f,
        {
            let v = queue.pop().unwrap();
            let vi = v as usize;
            if vi >= m.blocks.len() {
                vstd::pervasive::unreached::<()>();
            }
            let our_block = match s.block_of(v) {
                Some(x) => x,
                None => vstd::pervasive::unreached(),
            };
            let j_block = m.blocks[vi];
            s.process_jvm_block(&mut queue, &mut processed, &m, &code, our_block, &j_block);
            proof {
                f = (f - 1) as nat;
            }
        }
        s
    }
}

} // verus!
