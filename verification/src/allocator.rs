//! The linked-list allocator behind the garbage collector: its free list of
//! regions, first fit with the rest of a region given back, and the list of
//! the blocks it handed out, over the addresses of its heap.
use vstd::prelude::*;

verus! {

/// `addr` rounded up to a multiple of `align`.
pub open spec fn spec_align_up(addr: nat, align: nat) -> nat
    recommends
        align > 0,
{
    if addr % align == 0 {
        addr
    } else {
        (addr - addr % align + align) as nat
    }
}

/// Round `addr` up to a multiple of `align`. The result must fit in `usize`.
pub fn align_up(addr: usize, align: usize) -> (r: usize)
    requires
        align > 0,
        spec_align_up(addr as nat, align as nat) <= usize::MAX,
    ensures
        r == spec_align_up(addr as nat, align as nat),
{
    let remainder = addr % align;
    assert(remainder <= addr) by (nonlinear_arith)
        requires
            align > 0,
            remainder == addr % align,
    ;
    if remainder == 0 {
        addr
    } else {
        addr - remainder + align
    }
}

/// Rounding up gives the least multiple of `align` that is not below `addr`.
pub proof fn law_align_up(addr: nat, align: nat, m: nat)
    requires
        align > 0,
    ensures
        spec_align_up(addr, align) % align == 0,
        addr <= spec_align_up(addr, align) < addr + align,
        addr <= m && m % align == 0 ==> spec_align_up(addr, align) <= m,
{
    let r = addr % align;
    let q = addr / align;
    assert(addr == align * q + r && r < align) by (nonlinear_arith)
        requires
            align > 0,
            r == addr % align,
            q == addr / align,
    ;
    if r != 0 {
        assert((align * q + align) % align == 0) by (nonlinear_arith)
            requires
                align > 0,
        {
            assert(align * q + align == align * (q + 1));
            vstd::arithmetic::div_mod::lemma_mod_multiples_basic((q + 1) as int, align as int);
        }
        if addr <= m && m % align == 0 {
            let k = m / align;
            assert(m == align * k) by (nonlinear_arith)
                requires
                    align > 0,
                    m % align == 0,
                    k == m / align,
            ;
            assert(align * q + r <= align * k);
            assert(q < k) by (nonlinear_arith)
                requires
                    align * q + r <= align * k,
                    0 < r,
                    align > 0,
            ;
            assert(align * (q + 1) <= align * k) by (nonlinear_arith)
                requires
                    q + 1 <= k,
                    align > 0,
            ;
            assert(spec_align_up(addr, align) == align * (q + 1)) by (nonlinear_arith)
                requires
                    addr == align * q + r,
                    r == addr % align,
                    r != 0,
            ;
        }
    }
}

/// Where an allocation of `size` bytes aligned to `align` starts in the free
/// region of `region_size` bytes at `region_start`: its first aligned
/// address, provided that the allocation ends within the region and leaves
/// either nothing or room for a free-list node of `node_size` bytes.
pub open spec fn spec_alloc_from_region(region_start: nat, region_size: nat, size: nat, align: nat, node_size: nat) -> Option<nat> {
    let start = spec_align_up(region_start, align);
    let end = start + size;
    if end > usize::MAX || end > region_start + region_size {
        None
    } else if 0 < (region_start + region_size) - end < node_size {
        None
    } else {
        Some(start)
    }
}

/// The start of an allocation of `size` bytes aligned to `align` in the free
/// region of `region_size` bytes at `region_start` (see
/// [`spec_alloc_from_region`]), `node_size` being the size of a free-list
/// node. The region must end within the address space, and its first
/// aligned address must exist.
pub fn alloc_from_region(region_start: usize, region_size: usize, size: usize, align: usize, node_size: usize) -> (r: Option<usize>)
    requires
        align > 0,
        region_start + region_size <= usize::MAX,
        spec_align_up(region_start as nat, align as nat) <= usize::MAX,
    ensures
        match spec_alloc_from_region(region_start as nat, region_size as nat, size as nat, align as nat, node_size as nat) {
            Some(s) => r == Some(s as usize),
            None => r is None,
        },
{
    let alloc_start = align_up(region_start, align);
    let alloc_end = match alloc_start.checked_add(size) {
        Some(e) => e,
        None => {
            return None;
        },
    };
    let region_end = region_start + region_size;
    if alloc_end > region_end {
        return None;
    }
    let excess_size = region_end - alloc_end;
    if excess_size > 0 && excess_size < node_size {
        return None;
    }
    Some(alloc_start)
}

/// An allocation placed in a region starts at an aligned address within the
/// region, ends within it, and leaves either nothing or room for a node.
pub proof fn law_alloc_in_region(region_start: nat, region_size: nat, size: nat, align: nat, node_size: nat)
    requires
        align > 0,
        spec_alloc_from_region(region_start, region_size, size, align, node_size) is Some,
    ensures
        ({
            let s = spec_alloc_from_region(region_start, region_size, size, align, node_size)->0;
            &&& s % align == 0
            &&& region_start <= s
            &&& s + size <= region_start + region_size
            &&& (s + size == region_start + region_size || region_start + region_size - (s + size) >= node_size)
        }),
{
    law_align_up(region_start, align, 0);
}

/// A free region of the heap, by the address of the list node that starts
/// it and the region's size in bytes.
#[derive(Clone, Copy, Debug, PartialEq, Eq, Structural)]
pub struct LinkedListNode {
    pub start: usize,
    pub size: usize,
}

impl LinkedListNode {
    /// The node of a region of `size` bytes at `start`.
    pub fn new(start: usize, size: usize) -> (r: Self)
        ensures
            r.start == start,
            r.size == size,
    {
        LinkedListNode { start, size }
    }

    /// The region's size in bytes.
    pub fn size(&self) -> (r: usize)
        ensures
            r == self.size,
    {
        self.size
    }

    /// Where the region starts.
    pub fn start_addr(&self) -> (r: usize)
        ensures
            r == self.start,
    {
        self.start
    }

    /// Where the region ends.
    pub fn end_addr(&self) -> (r: usize)
        requires
            self.start + self.size <= usize::MAX,
        ensures
            r == self.start + self.size,
    {
        self.start + self.size
    }
}

/// The size of a list node: every free region must hold one.
pub open spec fn node_size() -> nat {
    vstd::layout::size_of::<LinkedListNode>()
}

/// The alignment of a list node: every free region starts at a multiple of
/// it.
pub open spec fn node_align() -> nat {
    vstd::layout::align_of::<LinkedListNode>()
}

/// Whether the blocks `a` and `b` do not overlap.
pub open spec fn apart(a: LinkedListNode, b: LinkedListNode) -> bool {
    a.start + a.size <= b.start || b.start + b.size <= a.start
}

/// Whether `inner` lies within `outer`.
pub open spec fn within(inner: LinkedListNode, outer: LinkedListNode) -> bool {
    outer.start <= inner.start && inner.start + inner.size <= outer.start + outer.size
}

/// Mathematical form of a [`LinkedListAllocator`]: the free regions in list
/// order, and the blocks handed out, the most recent first.
pub struct LinkedListAllocatorV {
    pub free: Seq<LinkedListNode>,
    pub objects: Seq<LinkedListNode>,
}

/// The allocator's invariant: every free region is aligned for a node,
/// holds one, and ends within the address space, as does every block
/// handed out; and no two blocks, free or handed out, overlap.
pub open spec fn allocator_ok(v: LinkedListAllocatorV) -> bool {
    &&& forall|i: int| 0 <= i < v.free.len() ==> {
        &&& (#[trigger] v.free[i]).start as nat % node_align() == 0
        &&& v.free[i].size >= node_size()
        &&& v.free[i].start + v.free[i].size <= usize::MAX
    }
    &&& forall|i: int| 0 <= i < v.objects.len() ==> #[trigger] v.objects[i].start + v.objects[i].size <= usize::MAX
    &&& forall|i: int, j: int| 0 <= i < v.free.len() && 0 <= j < v.free.len() && i != j ==> apart(#[trigger] v.free[i], #[trigger] v.free[j])
    &&& forall|i: int, j: int| 0 <= i < v.objects.len() && 0 <= j < v.objects.len() && i != j ==> apart(#[trigger] v.objects[i], #[trigger] v.objects[j])
    &&& forall|i: int, j: int| 0 <= i < v.free.len() && 0 <= j < v.objects.len() ==> apart(#[trigger] v.free[i], #[trigger] v.objects[j])
}

/// The first free region that holds an allocation of `size` bytes aligned
/// to `align`, by its position in `free`, with where the allocation starts.
pub open spec fn first_fit(free: Seq<LinkedListNode>, size: usize, align: usize) -> Option<(nat, nat)>
    decreases free.len(),
{
    if free.len() == 0 {
        None
    } else {
        match spec_alloc_from_region(free[0].start as nat, free[0].size as nat, size as nat, align as nat, node_size()) {
            Some(a) => Some((0, a)),
            None => match first_fit(free.drop_first(), size, align) {
                Some((i, a)) => Some((i + 1, a)),
                None => None,
            },
        }
    }
}

/// Whether searching `free` for room for `size` bytes aligned to `align`
/// stays within the address space: the first aligned address of each
/// region looked at (up to the first that fits) exists.
pub open spec fn search_ok(free: Seq<LinkedListNode>, size: usize, align: usize) -> bool
    decreases free.len(),
{
    free.len() == 0 || {
        &&& spec_align_up(free[0].start as nat, align as nat) <= usize::MAX
        &&& (spec_alloc_from_region(free[0].start as nat, free[0].size as nat, size as nat, align as nat, node_size()) is Some
            || search_ok(free.drop_first(), size, align))
    }
}

/// What allocating `size` bytes aligned to `align` does: the first region
/// that fits leaves the free list, the rest of it after the block (if any)
/// goes to the front of the free list, and the block goes to the front of
/// the blocks handed out; with no region that fits, nothing changes.
pub open spec fn spec_alloc(v: LinkedListAllocatorV, size: usize, align: usize) -> (LinkedListAllocatorV, Option<nat>) {
    match first_fit(v.free, size, align) {
        None => (v, None),
        Some((i, a)) => {
            let r = v.free[i as int];
            let end = a + size;
            let rest = v.free.remove(i as int);
            let free = if end < r.start + r.size {
                seq![LinkedListNode { start: end as usize, size: (r.start + r.size - end) as usize }] + rest
            } else {
                rest
            };
            (
                LinkedListAllocatorV {
                    free,
                    objects: seq![LinkedListNode { start: a as usize, size }] + v.objects,
                },
                Some(a),
            )
        },
    }
}

/// Whether allocating `size` bytes aligned to `align` runs to its end: the
/// search stays within the address space, and the rest of the region
/// given back, if any, is aligned for a node.
pub open spec fn can_alloc(v: LinkedListAllocatorV, size: usize, align: usize) -> bool {
    &&& align > 0
    &&& search_ok(v.free, size, align)
    &&& match first_fit(v.free, size, align) {
        Some((i, a)) => a + size < v.free[i as int].start + v.free[i as int].size ==> (a + size) as nat % node_align() == 0,
        None => true,
    }
}

/// The position of the first block handed out that starts at `addr`.
pub open spec fn object_at(objects: Seq<LinkedListNode>, addr: usize) -> Option<nat>
    decreases objects.len(),
{
    if objects.len() == 0 {
        None
    } else if objects[0].start == addr {
        Some(0)
    } else {
        match object_at(objects.drop_first(), addr) {
            Some(i) => Some(i + 1),
            None => None,
        }
    }
}

/// The allocator: its free list and the blocks it handed out.
pub struct LinkedListAllocator {
    free: Vec<LinkedListNode>,
    objects: Vec<LinkedListNode>,
}

impl View for LinkedListAllocator {
    type V = LinkedListAllocatorV;

    closed spec fn view(&self) -> LinkedListAllocatorV {
        LinkedListAllocatorV { free: self.free@, objects: self.objects@ }
    }
}

/// The first region that fits is one that fits, and none before it does;
/// with none found, no region fits.
pub proof fn lemma_first_fit(free: Seq<LinkedListNode>, size: usize, align: usize)
    ensures
        match first_fit(free, size, align) {
            Some((i, a)) => {
                &&& i < free.len()
                &&& spec_alloc_from_region(free[i as int].start as nat, free[i as int].size as nat, size as nat, align as nat, node_size()) == Some(a)
                &&& forall|k: int| 0 <= k < i ==> spec_alloc_from_region(#[trigger] free[k].start as nat, free[k].size as nat, size as nat, align as nat, node_size()) is None
            },
            None => forall|k: int| 0 <= k < free.len() ==> spec_alloc_from_region(#[trigger] free[k].start as nat, free[k].size as nat, size as nat, align as nat, node_size()) is None,
        },
    decreases free.len(),
{
    if free.len() > 0 {
        let d = free.drop_first();
        lemma_first_fit(d, size, align);
        assert forall|k: int| 1 <= k < free.len() implies #[trigger] free[k] == d[k - 1] by {}
    }
}

/// The first block handed out that starts at `addr` is one that does, and
/// none before it does; with none found, no block starts there.
pub proof fn lemma_object_at(objects: Seq<LinkedListNode>, addr: usize)
    ensures
        match object_at(objects, addr) {
            Some(j) => j < objects.len() && objects[j as int].start == addr
                && forall|k: int| 0 <= k < j ==> (#[trigger] objects[k]).start != addr,
            None => forall|k: int| 0 <= k < objects.len() ==> (#[trigger] objects[k]).start != addr,
        },
    decreases objects.len(),
{
    if objects.len() > 0 {
        let d = objects.drop_first();
        lemma_object_at(d, addr);
        assert forall|k: int| 1 <= k < objects.len() implies #[trigger] objects[k] == d[k - 1] by {}
    }
}

/// The position in `s` of the element at `k` of `s.remove(i)`.
pub open spec fn kept(k: int, i: int) -> int {
    if k < i {
        k
    } else {
        k + 1
    }
}

/// Allocating keeps the allocator's invariant.
pub proof fn lemma_alloc_ok(v: LinkedListAllocatorV, size: usize, align: usize)
    requires
        allocator_ok(v),
        can_alloc(v, size, align),
    ensures
        allocator_ok(spec_alloc(v, size, align).0),
{
    lemma_first_fit(v.free, size, align);
    match first_fit(v.free, size, align) {
        None => {},
        Some((i, a)) => {
            let i = i as int;
            let r = v.free[i];
            law_alloc_in_region(r.start as nat, r.size as nat, size as nat, align as nat, node_size());
            let rest = v.free.remove(i);
            v.free.remove_ensures(i);
            assert forall|k: int| 0 <= k < rest.len() implies #[trigger] rest[k] == v.free[kept(k, i)] by {}
            let o = LinkedListNode { start: a as usize, size };
            let w = spec_alloc(v, size, align).0;
            let objs = w.objects;
            assert(objs == seq![o] + v.objects);
            assert forall|j: int| 0 <= j < v.objects.len() implies apart(o, #[trigger] v.objects[j]) by {
                assert(apart(v.free[i], v.objects[j]));
            }
            assert forall|k: int| 0 <= k < rest.len() implies apart(#[trigger] rest[k], o) by {
                assert(apart(v.free[kept(k, i)], v.free[i]));
            }
            assert forall|k: int, j: int| 0 <= k < rest.len() && 0 <= j < rest.len() && k != j implies apart(#[trigger] rest[k], #[trigger] rest[j]) by {
                assert(apart(v.free[kept(k, i)], v.free[kept(j, i)]));
            }
            assert forall|k: int, j: int| 0 <= k < rest.len() && 0 <= j < v.objects.len() implies apart(#[trigger] rest[k], #[trigger] v.objects[j]) by {
                assert(apart(v.free[kept(k, i)], v.objects[j]));
            }
            assert forall|k: int| 0 <= k < objs.len() implies #[trigger] objs[k].start + objs[k].size <= usize::MAX by {
                if k > 0 {
                    assert(objs[k] == v.objects[k - 1]);
                }
            }
            assert forall|k: int, j: int| 0 <= k < objs.len() && 0 <= j < objs.len() && k != j implies apart(#[trigger] objs[k], #[trigger] objs[j]) by {
                if k > 0 && j > 0 {
                    assert(objs[k] == v.objects[k - 1] && objs[j] == v.objects[j - 1]);
                } else if k == 0 {
                    assert(objs[j] == v.objects[j - 1]);
                } else {
                    assert(objs[k] == v.objects[k - 1]);
                }
            }
            let end = a + size;
            if end < r.start + r.size {
                let e = LinkedListNode { start: end as usize, size: (r.start + r.size - end) as usize };
                let fr = w.free;
                assert(fr == seq![e] + rest);
                assert forall|k: int| 0 <= k < rest.len() implies apart(#[trigger] rest[k], e) by {
                    assert(apart(v.free[kept(k, i)], v.free[i]));
                }
                assert forall|j: int| 0 <= j < v.objects.len() implies apart(e, #[trigger] v.objects[j]) by {
                    assert(apart(v.free[i], v.objects[j]));
                }
                assert forall|k: int| 0 <= k < fr.len() implies {
                    &&& (#[trigger] fr[k]).start as nat % node_align() == 0
                    &&& fr[k].size >= node_size()
                    &&& fr[k].start + fr[k].size <= usize::MAX
                } by {
                    if k > 0 {
                        assert(fr[k] == rest[k - 1]);
                        assert(v.free[kept(k - 1, i)] == rest[k - 1]);
                    }
                }
                assert forall|k: int, j: int| 0 <= k < fr.len() && 0 <= j < fr.len() && k != j implies apart(#[trigger] fr[k], #[trigger] fr[j]) by {
                    if k > 0 && j > 0 {
                        assert(fr[k] == rest[k - 1] && fr[j] == rest[j - 1]);
                    } else if k == 0 {
                        assert(fr[j] == rest[j - 1]);
                    } else {
                        assert(fr[k] == rest[k - 1]);
                    }
                }
                assert forall|k: int, j: int| 0 <= k < fr.len() && 0 <= j < objs.len() implies apart(#[trigger] fr[k], #[trigger] objs[j]) by {
                    if k > 0 && j > 0 {
                        assert(fr[k] == rest[k - 1] && objs[j] == v.objects[j - 1]);
                    } else if k == 0 && j > 0 {
                        assert(objs[j] == v.objects[j - 1]);
                    } else if k > 0 {
                        assert(fr[k] == rest[k - 1]);
                    }
                }
            } else {
                let fr = w.free;
                assert(fr == rest);
                assert forall|k: int| 0 <= k < fr.len() implies {
                    &&& (#[trigger] fr[k]).start as nat % node_align() == 0
                    &&& fr[k].size >= node_size()
                    &&& fr[k].start + fr[k].size <= usize::MAX
                } by {
                    assert(v.free[kept(k, i)] == rest[k]);
                }
                assert forall|k: int, j: int| 0 <= k < fr.len() && 0 <= j < objs.len() implies apart(#[trigger] fr[k], #[trigger] objs[j]) by {
                    if j > 0 {
                        assert(objs[j] == v.objects[j - 1]);
                    }
                }
            }
        },
    }
}

/// What giving back the block handed out at `addr` does: the first such
/// block leaves the blocks handed out and goes to the front of the free
/// list.
pub open spec fn spec_dealloc(v: LinkedListAllocatorV, addr: usize) -> LinkedListAllocatorV {
    match object_at(v.objects, addr) {
        Some(j) => LinkedListAllocatorV {
            free: seq![v.objects[j as int]] + v.free,
            objects: v.objects.remove(j as int),
        },
        None => v,
    }
}

/// Whether the block handed out at `addr` can be given back: there is one,
/// and it can hold a free region (aligned for a node, and holding one).
pub open spec fn can_dealloc(v: LinkedListAllocatorV, addr: usize) -> bool {
    match object_at(v.objects, addr) {
        Some(j) => addr as nat % node_align() == 0 && v.objects[j as int].size >= node_size(),
        None => false,
    }
}

/// Giving a block back keeps the allocator's invariant.
pub proof fn lemma_dealloc_ok(v: LinkedListAllocatorV, addr: usize)
    requires
        allocator_ok(v),
        can_dealloc(v, addr),
    ensures
        allocator_ok(spec_dealloc(v, addr)),
{
    lemma_object_at(v.objects, addr);
    let j = object_at(v.objects, addr)->0 as int;
    let o = v.objects[j];
    let rest = v.objects.remove(j);
    v.objects.remove_ensures(j);
    assert forall|k: int| 0 <= k < rest.len() implies #[trigger] rest[k] == v.objects[kept(k, j)] by {}
    let w = spec_dealloc(v, addr);
    let fr = w.free;
    assert(fr == seq![o] + v.free);
    assert(w.objects == rest);
    assert forall|k: int| 0 <= k < fr.len() implies {
        &&& (#[trigger] fr[k]).start as nat % node_align() == 0
        &&& fr[k].size >= node_size()
        &&& fr[k].start + fr[k].size <= usize::MAX
    } by {
        if k > 0 {
            assert(fr[k] == v.free[k - 1]);
        }
    }
    assert forall|k: int| 0 <= k < rest.len() implies #[trigger] rest[k].start + rest[k].size <= usize::MAX by {
        assert(rest[k] == v.objects[kept(k, j)]);
    }
    assert forall|k: int, l: int| 0 <= k < fr.len() && 0 <= l < fr.len() && k != l implies apart(#[trigger] fr[k], #[trigger] fr[l]) by {
        if k > 0 && l > 0 {
            assert(fr[k] == v.free[k - 1] && fr[l] == v.free[l - 1]);
        } else if k == 0 {
            assert(fr[l] == v.free[l - 1]);
            assert(apart(v.free[l - 1], v.objects[j]));
        } else {
            assert(fr[k] == v.free[k - 1]);
            assert(apart(v.free[k - 1], v.objects[j]));
        }
    }
    assert forall|k: int, l: int| 0 <= k < rest.len() && 0 <= l < rest.len() && k != l implies apart(#[trigger] rest[k], #[trigger] rest[l]) by {
        assert(apart(v.objects[kept(k, j)], v.objects[kept(l, j)]));
    }
    assert forall|k: int, l: int| 0 <= k < fr.len() && 0 <= l < rest.len() implies apart(#[trigger] fr[k], #[trigger] rest[l]) by {
        if k > 0 {
            assert(fr[k] == v.free[k - 1]);
            assert(apart(v.free[k - 1], v.objects[kept(l, j)]));
        } else {
            assert(apart(v.objects[j], v.objects[kept(l, j)]));
        }
    }
}

/// Allocating: where it succeeds, the block starts at a multiple of the
/// alignment, lies within a region that was free, is the first of the
/// blocks handed out, and overlaps no free region and no other block handed
/// out; it fails, changing nothing, only where no free region holds it.
pub proof fn law_allocate(v: LinkedListAllocatorV, size: usize, align: usize)
    requires
        allocator_ok(v),
        can_alloc(v, size, align),
    ensures
        ({
            let (w, r) = spec_alloc(v, size, align);
            match r {
                Some(a) => {
                    let b = LinkedListNode { start: a as usize, size };
                    &&& a % (align as nat) == 0
                    &&& exists|i: int| 0 <= i < v.free.len() && within(b, #[trigger] v.free[i])
                    &&& w.objects.len() == v.objects.len() + 1
                    &&& w.objects[0] == b
                    &&& forall|k: int| 0 <= k < w.free.len() ==> apart(#[trigger] w.free[k], b)
                    &&& forall|k: int| 1 <= k < w.objects.len() ==> apart(#[trigger] w.objects[k], b)
                },
                None => {
                    &&& w == v
                    &&& forall|i: int| 0 <= i < v.free.len() ==> spec_alloc_from_region(
                        #[trigger] v.free[i].start as nat, v.free[i].size as nat, size as nat, align as nat, node_size()) is None
                },
            }
        }),
{
    lemma_first_fit(v.free, size, align);
    lemma_alloc_ok(v, size, align);
    match first_fit(v.free, size, align) {
        None => {},
        Some((i, a)) => {
            let r = v.free[i as int];
            law_alloc_in_region(r.start as nat, r.size as nat, size as nat, align as nat, node_size());
            let w = spec_alloc(v, size, align).0;
            let b = LinkedListNode { start: a as usize, size };
            assert(within(b, v.free[i as int]));
            assert(w.objects[0] == b);
            assert forall|k: int| 1 <= k < w.objects.len() implies apart(#[trigger] w.objects[k], b) by {
                assert(apart(w.objects[k], w.objects[0]));
            }
            assert forall|k: int| 0 <= k < w.free.len() implies apart(#[trigger] w.free[k], b) by {
                assert(apart(w.free[k], w.objects[0]));
            }
        },
    }
}

/// Giving back the block just allocated restores the blocks handed out,
/// and the block is then the first free region.
pub proof fn law_allocate_then_dealloc(v: LinkedListAllocatorV, size: usize, align: usize)
    requires
        allocator_ok(v),
        can_alloc(v, size, align),
        spec_alloc(v, size, align).1 is Some,
        can_dealloc(spec_alloc(v, size, align).0, spec_alloc(v, size, align).1->0 as usize),
    ensures
        ({
            let (w, r) = spec_alloc(v, size, align);
            let u = spec_dealloc(w, r->0 as usize);
            &&& u.objects == v.objects
            &&& u.free == seq![LinkedListNode { start: r->0 as usize, size }] + w.free
        }),
{
    let (w, r) = spec_alloc(v, size, align);
    let a = r->0 as usize;
    assert(w.objects[0].start == a);
    assert(object_at(w.objects, a) == Some(0nat));
    assert(w.objects.remove(0) =~= v.objects);
}

impl LinkedListAllocator {
    /// An allocator over the heap of `size` bytes at `heap`, all of it free.
    pub fn new(heap: usize, size: usize) -> (r: Self)
        requires
            heap as nat % node_align() == 0,
            size >= node_size(),
            heap + size <= usize::MAX,
        ensures
            r@.free == seq![LinkedListNode { start: heap, size }],
            r@.objects == Seq::<LinkedListNode>::empty(),
            allocator_ok(r@),
    {
        let mut a = LinkedListAllocator { free: Vec::new(), objects: Vec::new() };
        a.add_free_region(heap, size);
        a
    }

    /// Put the region of `size` bytes at `addr` at the front of the free
    /// list. The region must be aligned for a node and hold one.
    fn add_free_region(&mut self, addr: usize, size: usize)
        requires
            addr as nat % node_align() == 0,
            size >= node_size(),
        ensures
            final(self)@.free == seq![LinkedListNode { start: addr, size }] + old(self)@.free,
            final(self)@.objects == old(self)@.objects,
    {
        let node = LinkedListNode::new(addr, size);
        self.free.insert(0, node);
        assert(self.free@ == seq![node] + old(self).free@);
    }

    /// Take the first free region that holds `size` bytes aligned to
    /// `align` out of the free list, with where the allocation starts in it.
    fn find_region(&mut self, size: usize, align: usize) -> (r: Option<(LinkedListNode, usize)>)
        requires
            allocator_ok(old(self)@),
            align > 0,
            search_ok(old(self)@.free, size, align),
        ensures
            match first_fit(old(self)@.free, size, align) {
                Some((i, a)) => r == Some((old(self)@.free[i as int], a as usize))
                    && final(self)@.free == old(self)@.free.remove(i as int) && final(self)@.objects == old(self)@.objects,
                None => r is None && final(self)@ == old(self)@,
            },
    {
        let nsize = core::mem::size_of::<LinkedListNode>();
        assert(nsize as nat == node_size());
        let ghost free = self.free@;
        let mut i: usize = 0;
        assert(free.skip(0) == free);
        while i < self.free.len()
            invariant
                self@ == old(self)@,
                free == self.free@,
                allocator_ok(self@),
                align > 0,
                nsize as nat == node_size(),
                i <= free.len(),
                search_ok(free.skip(i as int), size, align),
                match first_fit(free.skip(i as int), size, align) {
                    Some((k, a)) => first_fit(free, size, align) == Some(((k + i) as nat, a)),
                    None => first_fit(free, size, align) is None,
                },
            decreases free.len() - i,
        {
            let region = self.free[i];
            let ghost tail = free.skip(i as int);
            assert(tail.len() > 0);
            assert(tail[0] == region);
            assert(tail.drop_first() == free.skip(i + 1));
            match alloc_from_region(region.start, region.size, size, align, nsize) {
                Some(alloc_start) => {
                    assert(first_fit(tail, size, align) == Some((0nat, alloc_start as nat)));
                    let node = self.free.remove(i);
                    return Some((node, alloc_start));
                },
                None => {
                    i = i + 1;
                },
            }
        }
        assert(free.skip(i as int).len() == 0);
        None
    }

    /// Allocate `size` bytes aligned to `align` (see [`spec_alloc`]): the
    /// start of the block, or `None` where no free region holds it.
    pub fn allocate(&mut self, size: usize, align: usize) -> (r: Option<usize>)
        requires
            allocator_ok(old(self)@),
            can_alloc(old(self)@, size, align),
        ensures
            final(self)@ == spec_alloc(old(self)@, size, align).0,
            match spec_alloc(old(self)@, size, align).1 {
                Some(a) => r == Some(a as usize),
                None => r is None,
            },
            allocator_ok(final(self)@),
    {
        proof {
            lemma_first_fit(old(self)@.free, size, align);
            lemma_alloc_ok(old(self)@, size, align);
        }
        match self.find_region(size, align) {
            None => None,
            Some((region, alloc_start)) => {
                proof {
                    law_alloc_in_region(region.start as nat, region.size as nat, size as nat, align as nat, node_size());
                }
                let alloc_end = alloc_start + size;
                let excess = region.end_addr() - alloc_end;
                if excess > 0 {
                    self.add_free_region(alloc_end, excess);
                }
                self.objects.insert(0, LinkedListNode::new(alloc_start, size));
                assert(self.objects@ == seq![LinkedListNode { start: alloc_start, size }] + old(self)@.objects);
                Some(alloc_start)
            },
        }
    }

    /// Give back the block handed out at `addr` (see [`spec_dealloc`]).
    pub fn dealloc(&mut self, addr: usize)
        requires
            allocator_ok(old(self)@),
            can_dealloc(old(self)@, addr),
        ensures
            final(self)@ == spec_dealloc(old(self)@, addr),
            allocator_ok(final(self)@),
    {
        proof {
            lemma_object_at(old(self)@.objects, addr);
            lemma_dealloc_ok(old(self)@, addr);
        }
        let ghost objects = self.objects@;
        let mut j: usize = 0;
        while j < self.objects.len() && self.objects[j].start != addr
            invariant
                self@ == old(self)@,
                objects == self.objects@,
                j <= objects.len(),
                forall|k: int| 0 <= k < j ==> (#[trigger] objects[k]).start != addr,
            decreases objects.len() - j,
        {
            j = j + 1;
        }
        let o = self.objects.remove(j);
        self.add_free_region(o.start, o.size);
    }

    /// The free regions, in list order.
    pub fn free_regions(&self) -> (r: &[LinkedListNode])
        ensures
            r@ == self@.free,
    {
        self.free.as_slice()
    }

    /// The blocks handed out, the most recent first.
    pub fn objects(&self) -> (r: &[LinkedListNode])
        ensures
            r@ == self@.objects,
    {
        self.objects.as_slice()
    }
}

} // verus!
