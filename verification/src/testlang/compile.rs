//! Variables of the test language's compiler: numbering the slots of a
//! function's locals, and the nested scopes that name them.
use vstd::prelude::*;
use crate::text::str_eq;

verus! {

/// Hands out the slots of a function's local variables, reusing freed ones
/// (the most recently freed first).
pub struct VarAllocator {
    number: usize,
    returned: Vec<usize>,
}

/// Mathematical form of a [`VarAllocator`]: how many slots were ever made,
/// and the freed slots, the next to reuse last.
pub struct VarAllocatorV {
    pub number: nat,
    pub returned: Seq<usize>,
}

impl View for VarAllocator {
    type V = VarAllocatorV;

    closed spec fn view(&self) -> VarAllocatorV {
        VarAllocatorV { number: self.number as nat, returned: self.returned@ }
    }
}

/// Every freed slot is one that was made.
pub open spec fn allocator_ok(a: VarAllocatorV) -> bool {
    forall|i: int| 0 <= i < a.returned.len() ==> a.returned[i] < a.number
}

/// What allocating a slot gives: the last freed slot, else a new one.
pub open spec fn spec_alloc(a: VarAllocatorV) -> (usize, VarAllocatorV) {
    if a.returned.len() > 0 {
        (a.returned.last(), VarAllocatorV { number: a.number, returned: a.returned.drop_last() })
    } else {
        (a.number as usize, VarAllocatorV { number: a.number + 1, returned: a.returned })
    }
}

/// What freeing the slot `v` leaves.
pub open spec fn spec_free(a: VarAllocatorV, v: usize) -> VarAllocatorV {
    VarAllocatorV { number: a.number, returned: a.returned.push(v) }
}

/// Whether a slot can be allocated without the count of slots leaving `usize`.
pub open spec fn can_alloc(a: VarAllocatorV) -> bool {
    a.returned.len() > 0 || a.number < usize::MAX
}

impl VarAllocator {
    /// An allocator that has made no slot yet.
    pub fn new() -> (r: Self)
        ensures
            r@ == (VarAllocatorV { number: 0, returned: seq![] }),
            allocator_ok(r@),
    {
        Self { number: 0, returned: vec![] }
    }

    /// A slot for a new variable: the last freed one, else a new one.
    pub fn alloc_var(&mut self) -> (r: usize)
        requires
            can_alloc(old(self)@),
        ensures
            (r, final(self)@) == spec_alloc(old(self)@),
            allocator_ok(old(self)@) ==> allocator_ok(final(self)@) && r < final(self)@.number,
    {
        if self.returned.len() > 0 {
            let v = self.returned.pop().unwrap();
            return v;
        }
        let v = self.number;
        self.number = self.number + 1;
        v
    }

    /// Return the slot `v` for reuse. The slot must be one that this
    /// allocator made.
    pub fn free_var(&mut self, v: usize)
        requires
            v < old(self)@.number,
        ensures
            final(self)@ == spec_free(old(self)@, v),
            allocator_ok(old(self)@) ==> allocator_ok(final(self)@),
    {
        self.returned.push(v);
        proof {
            assert forall|i: int| allocator_ok(old(self)@) && 0 <= i < self@.returned.len()
                implies self@.returned[i] < self@.number by {
                if i < old(self)@.returned.len() {
                    assert(self@.returned[i] == old(self)@.returned[i]);
                }
            }
        }
    }
}

impl Default for VarAllocator {
    fn default() -> (r: Self)
        ensures
            r@ == (VarAllocatorV { number: 0, returned: seq![] }),
    {
        Self::new()
    }
}

/// Where a variable lives.
#[derive(Clone, Copy, Debug)]
pub enum VarType {
    /// A slot of the function's locals.
    Local(usize),
    /// A slot of the globals.
    Global(usize),
}

/// One scope: the variables it declares, by name.
pub struct VarScoperEntry {
    /// The names and their variables; a name stands at most once.
    pub items: Vec<(String, VarType)>,
}

/// Mathematical form of a scope's variables.
pub type ScopeV = Seq<(Seq<char>, VarType)>;

/// The position of the variable named `name` in `items`, from the `i`th on.
pub open spec fn position_from(items: ScopeV, name: Seq<char>, i: nat) -> Option<nat>
    decreases items.len() - i,
{
    if i >= items.len() {
        None
    } else if items[i as int].0 == name {
        Some(i)
    } else {
        position_from(items, name, i + 1)
    }
}

/// A position found from the `i`th on is at least `i`, within the scope,
/// and names `name`.
pub proof fn lemma_position(items: ScopeV, name: Seq<char>, i: nat)
    ensures
        match position_from(items, name, i) {
            Some(j) => i <= j < items.len() && items[j as int].0 == name,
            None => true,
        },
    decreases items.len() - i,
{
    if i < items.len() && items[i as int].0 != name {
        lemma_position(items, name, i + 1);
    }
}

/// The variable named `name` in the scope `items`.
pub open spec fn scope_lookup(items: ScopeV, name: Seq<char>) -> Option<VarType> {
    match position_from(items, name, 0) {
        Some(i) => Some(items[i as int].1),
        None => None,
    }
}

/// The scope `items` with `name` declared as `value`: it replaces an earlier
/// declaration of the name, else it is added.
pub open spec fn scope_insert(items: ScopeV, name: Seq<char>, value: VarType) -> ScopeV {
    match position_from(items, name, 0) {
        Some(i) => items.update(i as int, (name, value)),
        None => items.push((name, value)),
    }
}

/// The slots of the locals that the scope `items` declares, in order.
pub open spec fn scope_locals(items: ScopeV) -> Seq<usize>
    decreases items.len(),
{
    if items.len() == 0 {
        seq![]
    } else {
        let rest = scope_locals(items.drop_last());
        match items.last().1 {
            VarType::Local(v) => rest.push(v),
            VarType::Global(_) => rest,
        }
    }
}

/// The variable named `name` in the innermost of the scopes `stack` that declares it.
pub open spec fn stack_lookup(stack: Seq<ScopeV>, name: Seq<char>) -> Option<VarType>
    decreases stack.len(),
{
    if stack.len() == 0 {
        None
    } else {
        match scope_lookup(stack.last(), name) {
            Some(v) => Some(v),
            None => stack_lookup(stack.drop_last(), name),
        }
    }
}

impl View for VarScoperEntry {
    type V = ScopeV;

    open spec fn view(&self) -> ScopeV {
        Seq::new(self.items@.len(), |i: int| (self.items@[i].0@, self.items@[i].1))
    }
}

/// The nested scopes of the function being compiled, innermost last, and
/// the allocator of their locals' slots.
pub struct VarScoper {
    /// The scopes, innermost last.
    pub stack: Vec<VarScoperEntry>,
    /// The allocator of the locals' slots.
    pub alloc: VarAllocator,
}

/// Mathematical form of a [`VarScoper`].
pub struct VarScoperV {
    pub stack: Seq<ScopeV>,
    pub alloc: VarAllocatorV,
}

impl View for VarScoper {
    type V = VarScoperV;

    open spec fn view(&self) -> VarScoperV {
        VarScoperV { stack: Seq::new(self.stack@.len(), |i: int| self.stack@[i]@), alloc: self.alloc@ }
    }
}

impl VarScoperEntry {
    /// A scope that declares nothing.
    pub fn new() -> (r: Self)
        ensures
            r@ == Seq::<(Seq<char>, VarType)>::empty(),
    {
        let r = VarScoperEntry { items: Vec::new() };
        assert(r@ =~= Seq::<(Seq<char>, VarType)>::empty());
        r
    }

    /// The position of the variable named `name`, if the scope declares it.
    fn position(&self, name: &str) -> (r: Option<usize>)
        ensures
            match position_from(self@, name@, 0) {
                Some(i) => r == Some(i as usize) && i < self.items.len(),
                None => r is None,
            },
    {
        proof {
            lemma_position(self@, name@, 0);
        }
        let mut i: usize = 0;
        while i < self.items.len()
            invariant
                i <= self.items.len(),
                position_from(self@, name@, 0) == position_from(self@, name@, i as nat),
            decreases self.items.len() - i,
        {
            if str_eq(self.items[i].0.as_str(), name) {
                return Some(i);
            }
            i = i + 1;
        }
        None
    }

    /// The variable named `name`, if the scope declares it.
    pub fn get(&self, name: &str) -> (r: Option<VarType>)
        ensures
            r == scope_lookup(self@, name@),
    {
        match self.position(name) {
            Some(i) => Some(self.items[i].1),
            None => None,
        }
    }

    /// Declare `name` as `value`, replacing an earlier declaration of it.
    pub fn insert(&mut self, name: String, value: VarType)
        ensures
            final(self)@ == scope_insert(old(self)@, name@, value),
    {
        match self.position(name.as_str()) {
            Some(i) => {
                self.items.set(i, (name, value));
                assert(self@ =~= scope_insert(old(self)@, name@, value));
            },
            None => {
                self.items.push((name, value));
                assert(self@ =~= scope_insert(old(self)@, name@, value));
            },
        }
    }
}

impl VarScoper {
    /// A scoper with one empty scope.
    pub fn new() -> (r: Self)
        ensures
            r@.stack == seq![Seq::<(Seq<char>, VarType)>::empty()],
            r@.alloc == (VarAllocatorV { number: 0, returned: seq![] }),
    {
        let r = Self { stack: vec![VarScoperEntry::new()], alloc: VarAllocator::new() };
        assert(r@.stack =~= seq![Seq::<(Seq<char>, VarType)>::empty()]);
        r
    }

    /// The variable named `name` in the innermost scope that declares it.
    pub fn find_var(&self, name: &str) -> (r: Option<VarType>)
        ensures
            r == stack_lookup(self@.stack, name@),
    {
        let ghost stack = self@.stack;
        let mut n: usize = self.stack.len();
        assert(stack.take(n as int) =~= stack);
        while n > 0
            invariant
                n <= self.stack.len(),
                stack == self@.stack,
                stack_lookup(stack, name@) == stack_lookup(stack.take(n as int), name@),
            decreases n,
        {
            assert(stack.take(n as int).drop_last() =~= stack.take(n - 1));
            if let Some(v) = self.stack[n - 1].get(name) {
                return Some(v);
            }
            n = n - 1;
        }
        None
    }

    /// Declare `name` as `value` in the innermost scope.
    pub fn declare_general(&mut self, name: String, value: VarType) -> (r: VarType)
        requires
            old(self).stack.len() > 0,
        ensures
            r == value,
            final(self)@.alloc == old(self)@.alloc,
            final(self)@.stack == old(self)@.stack.update(
                old(self)@.stack.len() - 1,
                scope_insert(old(self)@.stack.last(), name@, value),
            ),
    {
        let mut entry = self.stack.pop().unwrap();
        entry.insert(name, value);
        self.stack.push(entry);
        assert(self@.stack =~= old(self)@.stack.update(
            old(self)@.stack.len() - 1,
            scope_insert(old(self)@.stack.last(), name@, value),
        ));
        value
    }

    /// Declare `name` as a new local in the innermost scope, in a slot from
    /// the allocator.
    pub fn declare_var(&mut self, name: String) -> (r: VarType)
        requires
            old(self).stack.len() > 0,
            can_alloc(old(self)@.alloc),
        ensures
            r == VarType::Local(spec_alloc(old(self)@.alloc).0),
            final(self)@.alloc == spec_alloc(old(self)@.alloc).1,
            final(self)@.stack == old(self)@.stack.update(
                old(self)@.stack.len() - 1,
                scope_insert(old(self)@.stack.last(), name@, r),
            ),
    {
        let value = VarType::Local(self.alloc.alloc_var());
        self.declare_general(name, value)
    }

    /// Open a new, empty, innermost scope.
    pub fn enter_new_scope(&mut self)
        ensures
            final(self)@.alloc == old(self)@.alloc,
            final(self)@.stack == old(self)@.stack.push(Seq::<(Seq<char>, VarType)>::empty()),
    {
        self.stack.push(VarScoperEntry::new());
        assert(self@.stack =~= old(self)@.stack.push(Seq::<(Seq<char>, VarType)>::empty()));
    }

    /// Close the innermost scope, freeing the slots of its locals, in the
    /// order of their declaration. Each of them must be a slot that the
    /// allocator made.
    pub fn exit_scope(&mut self)
        requires
            old(self).stack.len() > 0,
            forall|i: int| 0 <= i < scope_locals(old(self)@.stack.last()).len()
                ==> scope_locals(old(self)@.stack.last())[i] < old(self)@.alloc.number,
        ensures
            final(self)@.stack == old(self)@.stack.drop_last(),
            final(self)@.alloc == (VarAllocatorV {
                number: old(self)@.alloc.number,
                returned: old(self)@.alloc.returned + scope_locals(old(self)@.stack.last()),
            }),
    {
        let entry = self.stack.pop().unwrap();
        let ghost items = entry@;
        assert(self@.stack =~= old(self)@.stack.drop_last());
        let mut i: usize = 0;
        while i < entry.items.len()
            invariant
                i <= entry.items.len(),
                old(self)@.stack.len() > 0,
                items == entry@,
                self@.stack == old(self)@.stack.drop_last(),
                items == old(self)@.stack.last(),
                forall|j: int| 0 <= j < scope_locals(items).len() ==> scope_locals(items)[j] < old(self)@.alloc.number,
                self@.alloc == (VarAllocatorV {
                    number: old(self)@.alloc.number,
                    returned: old(self)@.alloc.returned + scope_locals(items.take(i as int)),
                }),
            decreases entry.items.len() - i,
        {
            proof {
                lemma_locals_prefix(items, (i + 1) as nat);
                assert(items.take(i + 1).drop_last() =~= items.take(i as int));
            }
            if let VarType::Local(v) = entry.items[i].1 {
                proof {
                    let pre = items.take(i + 1);
                    assert(pre.last().1 == VarType::Local(v));
                    assert(scope_locals(pre) == scope_locals(pre.drop_last()).push(v));
                    let k = scope_locals(pre).len() - 1;
                    assert(scope_locals(pre)[k] == v);
                    assert(scope_locals(items)[k] == v);
                }
                self.alloc.free_var(v);
            }
            proof {
                assert(self@.alloc.returned =~= old(self)@.alloc.returned + scope_locals(items.take(i + 1)));
            }
            i = i + 1;
        }
        assert(items.take(i as int) =~= items);
    }
}

/// The locals of a prefix of a scope are a prefix of its locals.
proof fn lemma_locals_prefix(items: ScopeV, n: nat)
    requires
        n <= items.len(),
    ensures
        scope_locals(items.take(n as int)).len() <= scope_locals(items).len(),
        forall|j: int| 0 <= j < scope_locals(items.take(n as int)).len()
            ==> scope_locals(items.take(n as int))[j] == scope_locals(items)[j],
    decreases items.len() - n,
{
    if n < items.len() {
        lemma_locals_prefix(items, n + 1);
        assert(items.take((n + 1) as int).drop_last() =~= items.take(n as int));
    } else {
        assert(items.take(n as int) =~= items);
    }
}

impl Default for VarScoper {
    fn default() -> (r: Self)
        ensures
            r@.stack == seq![Seq::<(Seq<char>, VarType)>::empty()],
            r@.alloc == (VarAllocatorV { number: 0, returned: seq![] }),
    {
        Self::new()
    }
}

/// What the search from the `i`th variable on finds: the first variable
/// named `name`, or nothing where none is.
proof fn lemma_position_first(items: ScopeV, name: Seq<char>, i: nat)
    ensures
        match position_from(items, name, i) {
            Some(p) => i <= p < items.len() && items[p as int].0 == name
                && forall|j: int| i <= j < p ==> items[j].0 != name,
            None => forall|j: int| i <= j < items.len() ==> items[j].0 != name,
        },
    decreases items.len() - i,
{
    if i < items.len() && items[i as int].0 != name {
        lemma_position_first(items, name, i + 1);
    }
}

/// Declaring a name in a scope: the name then stands for the new variable,
/// and every other name for what it stood for before.
pub proof fn lemma_scope_insert(items: ScopeV, name: Seq<char>, value: VarType, other: Seq<char>)
    ensures
        scope_lookup(scope_insert(items, name, value), name) == Some(value),
        other != name ==> scope_lookup(scope_insert(items, name, value), other) == scope_lookup(items, other),
{
    let new = scope_insert(items, name, value);
    lemma_position_first(items, name, 0);
    lemma_position_first(new, name, 0);
    lemma_position_first(items, other, 0);
    lemma_position_first(new, other, 0);
    match position_from(items, name, 0) {
        Some(p) => {
            assert(new[p as int].0 == name);
            assert forall|j: int| 0 <= j < new.len() && j != p implies new[j] == items[j] by {}
        },
        None => {
            assert(new[items.len() as int] == (name, value));
            assert forall|j: int| 0 <= j < items.len() implies new[j] == items[j] by {}
        },
    }
}

/// Declaring `name` as `value` in the innermost of the scopes `stack`
/// (a scope must be open): looking `name` up then gives `value`, and looking
/// up any other name gives what it gave before.
pub proof fn law_declare_then_find(stack: Seq<ScopeV>, name: Seq<char>, value: VarType, other: Seq<char>)
    requires
        stack.len() > 0,
    ensures
        stack_lookup(stack.update(stack.len() - 1, scope_insert(stack.last(), name, value)), name) == Some(value),
        other != name ==> stack_lookup(stack.update(stack.len() - 1, scope_insert(stack.last(), name, value)), other)
            == stack_lookup(stack, other),
{
    let new = stack.update(stack.len() - 1, scope_insert(stack.last(), name, value));
    lemma_scope_insert(stack.last(), name, value, other);
    assert(new.drop_last() =~= stack.drop_last());
}

/// Opening a new scope changes what no name stands for, and closing it
/// again gives back the scopes as they were.
pub proof fn law_enter_exit_scope(stack: Seq<ScopeV>, name: Seq<char>)
    ensures
        stack_lookup(stack.push(Seq::<(Seq<char>, VarType)>::empty()), name) == stack_lookup(stack, name),
        stack.push(Seq::<(Seq<char>, VarType)>::empty()).drop_last() == stack,
{
    let e = Seq::<(Seq<char>, VarType)>::empty();
    assert(stack.push(e).drop_last() =~= stack);
    assert(position_from(e, name, 0) is None);
}

/// Whatever a scope came to declare, closing it gives back what every name
/// stood for before the scope was opened.
pub proof fn law_exit_scope_restores(stack: Seq<ScopeV>, inner: ScopeV, name: Seq<char>)
    ensures
        stack_lookup(stack.push(inner).drop_last(), name) == stack_lookup(stack, name),
{
    assert(stack.push(inner).drop_last() =~= stack);
}

/// The scopes after declaring each of `decls`, in order, in the innermost
/// of `stack`.
pub open spec fn declare_all(stack: Seq<ScopeV>, decls: Seq<(Seq<char>, VarType)>) -> Seq<ScopeV>
    decreases decls.len(),
{
    if decls.len() == 0 {
        stack
    } else {
        let st = declare_all(stack, decls.drop_last());
        st.update(st.len() - 1, scope_insert(st.last(), decls.last().0, decls.last().1))
    }
}

/// Declarations change only the innermost scope.
pub proof fn lemma_declare_all(stack: Seq<ScopeV>, decls: Seq<(Seq<char>, VarType)>)
    requires
        stack.len() > 0,
    ensures
        declare_all(stack, decls).len() == stack.len(),
        declare_all(stack, decls).drop_last() == stack.drop_last(),
    decreases decls.len(),
{
    if decls.len() > 0 {
        lemma_declare_all(stack, decls.drop_last());
        let st = declare_all(stack, decls.drop_last());
        assert(st.update(st.len() - 1, scope_insert(st.last(), decls.last().0, decls.last().1)).drop_last() =~= st.drop_last());
    }
}

/// Opening a scope, declaring anything in it, and closing it gives back
/// what every name stood for before.
pub proof fn law_scope_round_trip(stack: Seq<ScopeV>, decls: Seq<(Seq<char>, VarType)>, name: Seq<char>)
    ensures
        stack_lookup(declare_all(stack.push(Seq::<(Seq<char>, VarType)>::empty()), decls).drop_last(), name)
            == stack_lookup(stack, name),
{
    let opened = stack.push(Seq::<(Seq<char>, VarType)>::empty());
    lemma_declare_all(opened, decls);
    assert(opened.drop_last() =~= stack);
}

/// Declaring a variable named `name` in a scoper `v` (a scope must be
/// open): it gets the slot that the allocator hands out next, looking
/// `name` up then gives that slot, and every other name and every outer
/// scope stays as it was.
pub proof fn law_declare_var_then_find(v: VarScoperV, name: Seq<char>, other: Seq<char>)
    requires
        v.stack.len() > 0,
    ensures
        ({
            let k = spec_alloc(v.alloc).0;
            let st = v.stack.update(v.stack.len() - 1, scope_insert(v.stack.last(), name, VarType::Local(k)));
            &&& stack_lookup(st, name) == Some(VarType::Local(k))
            &&& other != name ==> stack_lookup(st, other) == stack_lookup(v.stack, other)
            &&& st.drop_last() == v.stack.drop_last()
        }),
{
    let k = spec_alloc(v.alloc).0;
    law_declare_then_find(v.stack, name, VarType::Local(k), other);
    let st = v.stack.update(v.stack.len() - 1, scope_insert(v.stack.last(), name, VarType::Local(k)));
    assert(st.drop_last() =~= v.stack.drop_last());
}

/// Freeing a slot and then allocating one gives that slot back and leaves
/// the allocator as it was.
pub proof fn law_free_then_alloc(a: VarAllocatorV, v: usize)
    ensures
        spec_alloc(spec_free(a, v)) == (v, a),
{
    assert(a.returned.push(v).drop_last() =~= a.returned);
}

/// Allocating keeps every freed slot below the count of slots made, and
/// hands out a slot below it.
pub proof fn law_alloc_in_range(a: VarAllocatorV)
    requires
        allocator_ok(a),
    ensures
        spec_alloc(a).0 < spec_alloc(a).1.number,
        allocator_ok(spec_alloc(a).1),
{
}

} // verus!
