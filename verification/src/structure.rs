//! Laying out the fields of a structure that the garbage collector keeps.
//! The fields go largest first (those of one size in the order they were
//! added); each is put after the padding that its own alignment asks at
//! the current offset, so that it stands aligned; the structure ends with
//! padding up to a multiple of the largest alignment.
use vstd::prelude::*;
use crate::text::str_eq;

verus! {

/// A field to be laid out: its size and alignment in bytes, its name, and
/// what the collector keeps for it (`fns`, such as its trace functions).
pub struct FieldDef<F> {
    pub size: usize,
    pub align: usize,
    pub name: String,
    pub fns: F,
}

impl<F> FieldDef<F> {
    /// A field named `name` that holds a `T`: the size and alignment are
    /// those of `T`.
    pub fn new<T>(name: String, fns: F) -> (r: Self)
        ensures
            r.size == vstd::layout::size_of::<T>(),
            r.align == vstd::layout::align_of::<T>(),
            r.align > 0,
            r.name == name,
            r.fns == fns,
    {
        proof {
            broadcast use vstd::layout::align_nonzero;
        }
        FieldDef { size: core::mem::size_of::<T>(), align: core::mem::align_of::<T>(), name, fns }
    }
}

/// A piece of a laid-out structure: a field or padding, by its offset and
/// size in bytes.
#[derive(Debug, Clone, Copy, PartialEq, Eq, Structural, PartialOrd, Ord)]
pub struct OffsetSize {
    pub offset: usize,
    pub size: usize,
}

/// What a structure keeps of a field by its name: the index of the field's
/// piece among the structure's pieces, and the field's `fns`.
#[derive(Clone, Copy)]
pub struct NativeFieldData<F> {
    pub field_index: usize,
    pub fns: F,
}

/// Collects the fields of a structure, in the order they are added.
pub struct StructureBuilder<F> {
    pub fields: Vec<FieldDef<F>>,
}

impl<F> Default for StructureBuilder<F> {
    fn default() -> (r: Self)
        ensures
            r.fields@ == Seq::<FieldDef<F>>::empty(),
    {
        StructureBuilder { fields: Vec::new() }
    }
}

/// Where a field of `size` bytes goes among fields in order of decreasing
/// size: after every field that is at least as large, counted from the
/// front.
pub open spec fn insert_pos<F>(s: Seq<FieldDef<F>>, size: usize) -> nat
    decreases s.len(),
{
    if s.len() == 0 || s[0].size < size {
        0
    } else {
        1 + insert_pos(s.drop_first(), size)
    }
}

/// The fields in order of decreasing size, those of one size in the order
/// of `s`: each field in turn goes after every field before it that is at
/// least as large.
pub open spec fn by_size<F>(s: Seq<FieldDef<F>>) -> Seq<FieldDef<F>>
    decreases s.len(),
{
    if s.len() == 0 {
        s
    } else {
        let r = by_size(s.drop_last());
        r.insert(insert_pos(r, s.last().size) as int, s.last())
    }
}

/// The place for a field of `size` bytes comes after the fields that are
/// at least as large and before the first smaller one.
pub proof fn lemma_insert_pos<F>(s: Seq<FieldDef<F>>, size: usize)
    ensures
        insert_pos(s, size) <= s.len(),
        forall|j: int| 0 <= j < insert_pos(s, size) ==> #[trigger] s[j].size >= size,
        insert_pos(s, size) < s.len() ==> s[insert_pos(s, size) as int].size < size,
    decreases s.len(),
{
    if s.len() > 0 && s[0].size >= size {
        lemma_insert_pos(s.drop_first(), size);
        assert forall|j: int| 0 <= j < insert_pos(s, size) implies #[trigger] s[j].size >= size by {
            if j > 0 {
                assert(s[j] == s.drop_first()[j - 1]);
            }
        }
    }
}

/// Ordering fields by size keeps every field and adds none, and puts them
/// in order of decreasing size.
pub proof fn law_by_size<F>(s: Seq<FieldDef<F>>)
    ensures
        by_size(s).len() == s.len(),
        by_size(s).to_multiset() == s.to_multiset(),
        forall|i: int, j: int| 0 <= i < j < s.len() ==> #[trigger] by_size(s)[i].size >= #[trigger] by_size(s)[j].size,
    decreases s.len(),
{
    if s.len() > 0 {
        let d = s.drop_last();
        let x = s.last();
        law_by_size(d);
        let r = by_size(d);
        let p = insert_pos(r, x.size) as int;
        lemma_insert_pos(r, x.size);
        let a = r.subrange(0, p);
        let b = r.subrange(p, r.len() as int);
        assert(a + b == r);
        vstd::seq_lib::lemma_multiset_commutative(a, b);
        vstd::seq_lib::lemma_multiset_commutative(a.push(x), b);
        a.to_multiset_ensures();
        d.to_multiset_ensures();
        assert(d.push(x) == s);
        assert(r.insert(p, x) == a.push(x) + b);
        assert(by_size(s).to_multiset() =~= s.to_multiset());
        r.insert_ensures(p, x);
        let t = by_size(s);
        assert forall|i: int, j: int| 0 <= i < j < s.len() implies #[trigger] t[i].size >= #[trigger] t[j].size by {
            if j < p {
                assert(t[i] == r[i] && t[j] == r[j]);
            } else if j == p {
                assert(t[i] == r[i]);
            } else if i < p {
                assert(t[i] == r[i] && t[j] == r[j - 1]);
            } else if i == p {
                assert(t[i] == x && t[j] == r[j - 1]);
                assert(r[p].size < x.size);
                if p < j - 1 {
                    assert(r[p].size >= r[j - 1].size);
                }
            } else {
                assert(t[i] == r[i - 1] && t[j] == r[j - 1]);
            }
        }
    }
}

/// The padding that a field aligned to `align` asks at `offset`: what
/// takes `offset` up to the next multiple of `align`.
pub open spec fn padding(offset: int, align: int) -> int {
    (align - offset % align) % align
}

/// The offset after laying out `s` in its order, each field after the
/// padding that aligns it.
pub open spec fn end_offset<F>(s: Seq<FieldDef<F>>) -> int
    decreases s.len(),
{
    if s.len() == 0 {
        0
    } else {
        let o = end_offset(s.drop_last());
        o + s.last().size + padding(o, s.last().align as int)
    }
}

/// The largest alignment in `s` (0 for no fields).
pub open spec fn largest_align<F>(s: Seq<FieldDef<F>>) -> int
    decreases s.len(),
{
    if s.len() == 0 {
        0
    } else {
        let a = largest_align(s.drop_last());
        if s.last().align > a {
            s.last().align as int
        } else {
            a
        }
    }
}

/// The pieces of laying out `s` in its order: for each field, the padding
/// that aligns it (where there is any), then the field.
pub open spec fn entries<F>(s: Seq<FieldDef<F>>) -> Seq<OffsetSize>
    decreases s.len(),
{
    if s.len() == 0 {
        Seq::empty()
    } else {
        let o = end_offset(s.drop_last());
        let f = s.last();
        let p = padding(o, f.align as int);
        let before = if p > 0 {
            entries(s.drop_last()).push(OffsetSize { offset: o as usize, size: p as usize })
        } else {
            entries(s.drop_last())
        };
        before.push(OffsetSize { offset: (o + p) as usize, size: f.size })
    }
}

/// The fields of `s` by name, in order: each with the index of its piece.
pub open spec fn native_entries<F>(s: Seq<FieldDef<F>>) -> Seq<(Seq<char>, NativeFieldData<F>)>
    decreases s.len(),
{
    if s.len() == 0 {
        Seq::empty()
    } else {
        native_entries(s.drop_last()).push(
            (
                s.last().name@,
                NativeFieldData { field_index: (entries(s).len() - 1) as usize, fns: s.last().fns },
            ),
        )
    }
}

/// The padding that ends a structure of `offset` bytes aligned to `align`.
pub open spec fn end_padding(offset: int, align: int) -> int {
    if offset % align != 0 {
        align - offset % align
    } else {
        0
    }
}

/// Mathematical form of [`StructureDef`]: size and alignment in bytes, the
/// pieces in order, and the fields by name in the order they were laid out.
pub struct StructureDefV<F> {
    pub size: int,
    pub align: int,
    pub fields: Seq<OffsetSize>,
    pub native: Seq<(Seq<char>, NativeFieldData<F>)>,
}

/// What building a structure of the fields `s` (in the order they were
/// added) gives.
pub open spec fn spec_build<F>(s: Seq<FieldDef<F>>) -> StructureDefV<F> {
    let t = by_size(s);
    let end = end_offset(t);
    let align = largest_align(t);
    let tail = end_padding(end, align);
    StructureDefV {
        size: end + tail,
        align,
        fields: if tail != 0 {
            entries(t).push(OffsetSize { offset: end as usize, size: tail as usize })
        } else {
            entries(t)
        },
        native: native_entries(t),
    }
}

/// Whether the fields `s` can be built into a structure: there is at least
/// one, each has a positive alignment, and the size fits in `usize`.
pub open spec fn can_build<F>(s: Seq<FieldDef<F>>) -> bool {
    &&& s.len() > 0
    &&& forall|i: int| 0 <= i < s.len() ==> #[trigger] s[i].align > 0
    &&& spec_build(s).size <= usize::MAX
}

/// A laid-out structure.
pub struct StructureDef<F> {
    size: usize,
    align: usize,
    fields: Vec<OffsetSize>,
    native_map: Vec<(String, NativeFieldData<F>)>,
}

/// The names of `v` as character sequences.
pub open spec fn native_view<F>(v: Seq<(String, NativeFieldData<F>)>) -> Seq<(Seq<char>, NativeFieldData<F>)> {
    Seq::new(v.len(), |i: int| (v[i].0@, v[i].1))
}

impl<F> View for StructureDef<F> {
    type V = StructureDefV<F>;

    closed spec fn view(&self) -> StructureDefV<F> {
        StructureDefV {
            size: self.size as int,
            align: self.align as int,
            fields: self.fields@,
            native: native_view(self.native_map@),
        }
    }
}

/// Ordering by size keeps the alignments of the fields positive.
proof fn lemma_by_size_aligns<F>(s: Seq<FieldDef<F>>)
    requires
        forall|i: int| 0 <= i < s.len() ==> #[trigger] s[i].align > 0,
    ensures
        forall|i: int| 0 <= i < by_size(s).len() ==> #[trigger] by_size(s)[i].align > 0,
        by_size(s).len() == s.len(),
{
    law_by_size(s);
    let t = by_size(s);
    t.to_multiset_ensures();
    s.to_multiset_ensures();
    assert forall|i: int| 0 <= i < t.len() implies #[trigger] t[i].align > 0 by {
        assert(t.contains(t[i]));
        assert(t.to_multiset().count(t[i]) > 0);
        assert(s.to_multiset().count(t[i]) > 0);
        assert(s.contains(t[i]));
        let j = choose|j: int| 0 <= j < s.len() && s[j] == t[i];
        assert(s[j].align > 0);
    }
}

/// Laying out a prefix of `t` ends no further than laying out all of it.
proof fn lemma_end_offset_prefix<F>(t: Seq<FieldDef<F>>, j: int)
    requires
        forall|i: int| 0 <= i < t.len() ==> #[trigger] t[i].align > 0,
        0 <= j <= t.len(),
    ensures
        0 <= end_offset(t.take(j)) <= end_offset(t),
    decreases t.len(),
{
    if t.len() > 0 {
        let d = t.drop_last();
        lemma_end_offset_prefix(d, if j < t.len() { j } else { d.len() as int });
        let o = end_offset(d);
        let a = t.last().align as int;
        assert(t[t.len() - 1].align > 0);
        assert(0 <= padding(o, a)) by {
            vstd::arithmetic::div_mod::lemma_mod_bound(a - o % a, a);
            vstd::arithmetic::div_mod::lemma_mod_bound(o, a);
        }
        if j < t.len() {
            assert(t.take(j) == d.take(j));
        } else {
            assert(t.take(j) == t);
            assert(d.take(d.len() as int) == d);
        }
    } else {
        assert(t.take(j) == t);
    }
}

/// The largest alignment is that of one of the fields and no field's is
/// larger.
proof fn lemma_largest_align<F>(t: Seq<FieldDef<F>>)
    ensures
        forall|i: int| 0 <= i < t.len() ==> #[trigger] t[i].align <= largest_align(t),
        t.len() > 0 ==> exists|i: int| 0 <= i < t.len() && #[trigger] t[i].align == largest_align(t),
        t.len() == 0 ==> largest_align(t) == 0,
    decreases t.len(),
{
    if t.len() > 0 {
        let d = t.drop_last();
        lemma_largest_align(d);
        assert forall|i: int| 0 <= i < t.len() implies #[trigger] t[i].align <= largest_align(t) by {
            if i < d.len() {
                assert(t[i] == d[i]);
            }
        }
        if t.last().align > largest_align(d) || d.len() == 0 {
            assert(t[t.len() - 1].align == largest_align(t));
        } else {
            let i = choose|i: int| 0 <= i < d.len() && #[trigger] d[i].align == largest_align(d);
            assert(t[i] == d[i]);
        }
    }
}

impl<F> StructureBuilder<F> {
    /// A builder with no fields.
    pub fn new() -> (r: Self)
        ensures
            r.fields@ == Seq::<FieldDef<F>>::empty(),
    {
        StructureBuilder { fields: Vec::new() }
    }

    /// The builder with `f` added after its fields.
    pub fn add_field(self, f: FieldDef<F>) -> (r: Self)
        ensures
            r.fields@ == self.fields@.push(f),
    {
        let mut fields = self.fields;
        fields.push(f);
        StructureBuilder { fields }
    }

    /// The fields ordered as `by_size` says.
    fn sorted_fields(self) -> (r: Vec<FieldDef<F>>)
        ensures
            r@ == by_size(self.fields@),
    {
        let mut fields = self.fields;
        let ghost s = fields@;
        let mut sorted: Vec<FieldDef<F>> = Vec::new();
        let ghost mut k: int = 0;
        while fields.len() > 0
            invariant
                0 <= k <= s.len(),
                fields@ == s.skip(k),
                sorted@ == by_size(s.take(k)),
            decreases fields.len(),
        {
            let f = fields.remove(0);
            let ghost before = sorted@;
            let mut p: usize = 0;
            assert(before.skip(0) == before);
            while p < sorted.len() && sorted[p].size >= f.size
                invariant
                    sorted@ == before,
                    p <= sorted.len(),
                    insert_pos(before, f.size) == p + insert_pos(before.skip(p as int), f.size),
                decreases sorted.len() - p,
            {
                assert(before.skip(p as int).drop_first() == before.skip(p + 1));
                p = p + 1;
            }
            assert(insert_pos(before.skip(p as int), f.size) == 0);
            sorted.insert(p, f);
            proof {
                assert(s.take(k + 1).drop_last() == s.take(k));
                assert(s.take(k + 1).last() == f);
                k = k + 1;
                assert(fields@ == s.skip(k));
            }
        }
        assert(s.take(k) == s);
        sorted
    }

    /// Lays out the fields: largest first, each after the padding that its
    /// alignment asks at the current offset, then padding up to a multiple
    /// of the largest alignment.
    pub fn build(self) -> (r: StructureDef<F>)
        requires
            can_build(self.fields@),
        ensures
            r@ == spec_build(self.fields@),
    {
        let ghost s = self.fields@;
        proof {
            lemma_by_size_aligns(s);
        }
        let mut sorted = self.sorted_fields();
        let ghost t = sorted@;
        let mut output_fields: Vec<OffsetSize> = Vec::new();
        let mut native_map: Vec<(String, NativeFieldData<F>)> = Vec::new();
        let mut offset: usize = 0;
        let mut largest_alignment: usize = 0;
        let ghost mut k: int = 0;
        proof {
            lemma_end_offset_prefix(t, t.len() as int);
            assert(t.take(0) == Seq::<FieldDef<F>>::empty());
            assert(native_view(native_map@) == Seq::<(Seq<char>, NativeFieldData<F>)>::empty());
        }
        while sorted.len() > 0
            invariant
                t == by_size(s),
                forall|i: int| 0 <= i < t.len() ==> #[trigger] t[i].align > 0,
                end_offset(t) <= usize::MAX,
                0 <= k <= t.len(),
                sorted@ == t.skip(k),
                offset == end_offset(t.take(k)),
                largest_alignment == largest_align(t.take(k)),
                output_fields@ == entries(t.take(k)),
                native_view(native_map@) == native_entries(t.take(k)),
            decreases sorted.len(),
        {
            let field = sorted.remove(0);
            proof {
                assert(field == t[k]);
                assert(t.take(k + 1).drop_last() == t.take(k));
                assert(t.take(k + 1).last() == t[k]);
                lemma_end_offset_prefix(t, k + 1);
                lemma_end_offset_prefix(t, k);
            }
            let align = field.align;
            if align > largest_alignment {
                largest_alignment = align;
            }
            let rem = offset % align;
            let pad = (align - rem) % align;
            assert(pad == padding(offset as int, align as int));
            assert(0 <= pad < align) by {
                vstd::arithmetic::div_mod::lemma_mod_bound((align - rem) as int, align as int);
            }
            if pad > 0 {
                output_fields.push(OffsetSize { offset, size: pad });
                offset += pad;
            }
            let idx = output_fields.len();
            let ghost names = native_map@;
            native_map.push((field.name, NativeFieldData { field_index: idx, fns: field.fns }));
            proof {
                assert(native_view(native_map@) =~= native_view(names).push((native_map@.last().0@, native_map@.last().1)));
            }
            output_fields.push(OffsetSize { offset, size: field.size });
            offset += field.size;
            proof {
                k = k + 1;
                assert(sorted@ == t.skip(k));
            }
        }
        proof {
            assert(t.take(k) == t);
            lemma_largest_align(t);
            assert(t[0].align > 0);
        }
        let structure_align = largest_alignment;
        let v = offset % structure_align;
        if v != 0 {
            let end_padding = structure_align - v;
            output_fields.push(OffsetSize { offset, size: end_padding });
            offset += end_padding;
        }
        StructureDef { size: offset, align: structure_align, fields: output_fields, native_map }
    }
}

/// The entry that a map filled from `native` in order keeps for `name`:
/// the last one with that name.
pub open spec fn lookup<F>(native: Seq<(Seq<char>, NativeFieldData<F>)>, name: Seq<char>) -> Option<NativeFieldData<F>>
    decreases native.len(),
{
    if native.len() == 0 {
        None
    } else if native.last().0 == name {
        Some(native.last().1)
    } else {
        lookup(native.drop_last(), name)
    }
}

impl<F> StructureDef<F> {
    /// The size in bytes.
    pub fn size(&self) -> (r: usize)
        ensures
            r == self@.size,
    {
        self.size
    }

    /// The alignment in bytes.
    pub fn align(&self) -> (r: usize)
        ensures
            r == self@.align,
    {
        self.align
    }

    /// The pieces, fields and padding, in order.
    pub fn fields(&self) -> (r: &[OffsetSize])
        ensures
            r@ == self@.fields,
    {
        self.fields.as_slice()
    }

    /// What the structure keeps for the field named `f`, if it has one.
    pub fn native_field(&self, f: &str) -> (r: Option<&NativeFieldData<F>>)
        ensures
            match r {
                Some(d) => lookup(self@.native, f@) == Some(*d),
                None => lookup(self@.native, f@) is None,
            },
    {
        let ghost native = self@.native;
        let mut i: usize = self.native_map.len();
        assert(native.take(i as int) == native);
        while i > 0
            invariant
                i <= self.native_map@.len(),
                native == native_view(self.native_map@),
                lookup(native, f@) == lookup(native.take(i as int), f@),
            decreases i,
        {
            let ghost part = native.take(i as int);
            assert(part.drop_last() == native.take(i - 1));
            if str_eq(self.native_map[i - 1].0.as_str(), f) {
                return Some(&self.native_map[i - 1].1);
            }
            i = i - 1;
        }
        None
    }
}

/// The sum of the sizes of the pieces `s`.
pub open spec fn sizes_sum(s: Seq<OffsetSize>) -> int
    decreases s.len(),
{
    if s.len() == 0 {
        0
    } else {
        sizes_sum(s.drop_last()) + s.last().size
    }
}

/// Laying out `t` in its order: the pieces follow one another from offset
/// 0 to the end offset, and each field's entry names the piece that holds
/// it.
proof fn lemma_entries<F>(t: Seq<FieldDef<F>>)
    requires
        forall|i: int| 0 <= i < t.len() ==> #[trigger] t[i].align > 0,
        end_offset(t) <= usize::MAX,
        entries(t).len() <= usize::MAX,
    ensures
        sizes_sum(entries(t)) == end_offset(t),
        forall|i: int| 0 <= i < entries(t).len() ==> #[trigger] entries(t)[i].offset == sizes_sum(entries(t).take(i)),
        native_entries(t).len() == t.len(),
        forall|j: int| 0 <= j < t.len() ==> {
            let idx = (#[trigger] native_entries(t)[j]).1.field_index as int;
            &&& idx < entries(t).len()
            &&& entries(t)[idx].size == t[j].size
            &&& entries(t)[idx].offset as int % (t[j].align as int) == 0
            &&& native_entries(t)[j].0 == t[j].name@
        },
    decreases t.len(),
{
    if t.len() > 0 {
        let d = t.drop_last();
        lemma_end_offset_prefix(t, d.len() as int);
        assert(t.take(d.len() as int) == d);
        lemma_entries(d);
        let e0 = entries(d);
        let o = end_offset(d);
        let f = t.last();
        let a = f.align as int;
        assert(t[t.len() - 1].align > 0);
        let p = padding(o, a);
        assert(0 <= p < a) by {
            vstd::arithmetic::div_mod::lemma_mod_bound(a - o % a, a);
            vstd::arithmetic::div_mod::lemma_mod_bound(o, a);
        }
        assert((o + p) % a == 0) by {
            lemma_padding_aligns(o, a);
        }
        let e = entries(t);
        let pf = OffsetSize { offset: (o + p) as usize, size: f.size };
        let before = if p > 0 { e0.push(OffsetSize { offset: o as usize, size: p as usize }) } else { e0 };
        assert(e == before.push(pf));
        assert(e.drop_last() == before);
        assert(sizes_sum(before) == o + p) by {
            if p > 0 {
                assert(before.drop_last() == e0);
            }
        }
        assert(sizes_sum(e) == sizes_sum(before) + f.size);
        assert(e.take(before.len() as int) == before);
        if p > 0 {
            assert(before.take(e0.len() as int) == e0);
        }
        assert forall|i: int| 0 <= i < e.len() implies #[trigger] e[i].offset == sizes_sum(e.take(i)) by {
            if i < e0.len() {
                assert(e.take(i) == e0.take(i));
            } else if i == e0.len() {
                assert(e.take(i) == e0);
            }
        }
        let n = native_entries(t);
        assert(n == native_entries(d).push(
            (f.name@, NativeFieldData { field_index: (e.len() - 1) as usize, fns: f.fns }),
        ));
        assert forall|j: int| 0 <= j < t.len() implies {
            let idx = (#[trigger] n[j]).1.field_index as int;
            &&& idx < e.len()
            &&& e[idx].size == t[j].size
            &&& e[idx].offset as int % (t[j].align as int) == 0
            &&& n[j].0 == t[j].name@
        } by {
            if j < d.len() {
                assert(n[j] == native_entries(d)[j]);
                assert(t[j] == d[j]);
                let idx = n[j].1.field_index as int;
                assert(e[idx] == e0[idx]);
            } else {
                assert(t[j] == f);
                assert(e[e.len() - 1] == pf);
            }
        }
    }
}

/// An offset plus the padding that an alignment asks there is a multiple of
/// the alignment.
proof fn lemma_padding_aligns(o: int, a: int)
    requires
        a > 0,
        o >= 0,
    ensures
        (o + padding(o, a)) % a == 0,
{
    let q = o / a;
    vstd::arithmetic::div_mod::lemma_fundamental_div_mod(o, a);
    vstd::arithmetic::div_mod::lemma_mod_bound(o, a);
    if o % a == 0 {
        assert(padding(o, a) == 0) by {
            vstd::arithmetic::div_mod::lemma_mod_self_0(a);
        }
    } else {
        assert(padding(o, a) == a - o % a) by {
            vstd::arithmetic::div_mod::lemma_small_mod((a - o % a) as nat, a as nat);
        }
        assert(o + padding(o, a) == (q + 1) * a) by (nonlinear_arith)
            requires
                o == a * q + o % a,
                o + padding(o, a) == o + (a - o % a),
        ;
        vstd::arithmetic::div_mod::lemma_mod_multiples_basic(q + 1, a);
    }
}

/// Building a structure: the pieces follow one another from offset 0, each
/// starting where those before it end, up to the structure's size; the
/// size is a multiple of the alignment, which is the largest alignment of
/// the fields; and each field, by its name in the order the fields were
/// laid out, keeps the index of a piece of its own size, at an offset
/// aligned for it.
pub proof fn law_build<F>(s: Seq<FieldDef<F>>)
    requires
        can_build(s),
        spec_build(s).fields.len() <= usize::MAX,
    ensures
        ({
            let r = spec_build(s);
            let t = by_size(s);
            &&& r.align > 0
            &&& r.size % r.align == 0
            &&& forall|i: int| 0 <= i < s.len() ==> #[trigger] s[i].align <= r.align
            &&& exists|i: int| 0 <= i < s.len() && #[trigger] s[i].align == r.align
            &&& r.size == sizes_sum(r.fields)
            &&& forall|i: int| 0 <= i < r.fields.len() ==> #[trigger] r.fields[i].offset == sizes_sum(r.fields.take(i))
            &&& r.native.len() == s.len()
            &&& forall|j: int| 0 <= j < s.len() ==> {
                let idx = (#[trigger] r.native[j]).1.field_index as int;
                &&& idx < r.fields.len()
                &&& r.fields[idx].size == t[j].size
                &&& r.fields[idx].offset as int % (t[j].align as int) == 0
                &&& r.native[j].0 == t[j].name@
            }
        }),
{
    let r = spec_build(s);
    let t = by_size(s);
    lemma_by_size_aligns(s);
    law_by_size(s);
    lemma_largest_align(t);
    assert(t[0].align > 0);
    let end = end_offset(t);
    let a = largest_align(t);
    lemma_end_offset_prefix(t, 0);
    assert(t.take(0) == Seq::<FieldDef<F>>::empty());
    assert(end_padding(end, a) >= 0) by {
        vstd::arithmetic::div_mod::lemma_mod_bound(end, a);
    }
    lemma_entries(t);
    // the alignments of `s` are those of `t`
    t.to_multiset_ensures();
    s.to_multiset_ensures();
    assert forall|i: int| 0 <= i < s.len() implies #[trigger] s[i].align <= r.align by {
        assert(s.contains(s[i]));
        assert(s.to_multiset().count(s[i]) > 0);
        assert(t.to_multiset().count(s[i]) > 0);
        assert(t.contains(s[i]));
        let j = choose|j: int| 0 <= j < t.len() && t[j] == s[i];
        assert(t[j].align <= a);
    }
    let k = choose|k: int| 0 <= k < t.len() && #[trigger] t[k].align == a;
    assert(t.contains(t[k]));
    assert(t.to_multiset().count(t[k]) > 0);
    assert(s.to_multiset().count(t[k]) > 0);
    assert(s.contains(t[k]));
    let i0 = choose|i: int| 0 <= i < s.len() && s[i] == t[k];
    assert(s[i0].align == r.align);
    // the size is a multiple of the alignment
    let q = end / a;
    vstd::arithmetic::div_mod::lemma_fundamental_div_mod(end, a);
    vstd::arithmetic::div_mod::lemma_mod_bound(end, a);
    if end % a != 0 {
        assert(r.size == (q + 1) * a) by (nonlinear_arith)
            requires
                end == a * q + end % a,
                r.size == end + (a - end % a),
        ;
        vstd::arithmetic::div_mod::lemma_mod_multiples_basic(q + 1, a);
        let e = entries(t);
        let c = OffsetSize { offset: end as usize, size: (a - end % a) as usize };
        assert(r.fields == e.push(c));
        assert(r.fields.drop_last() == e);
        assert(r.fields.take(e.len() as int) == e);
        assert forall|i: int| 0 <= i < r.fields.len() implies #[trigger] r.fields[i].offset == sizes_sum(r.fields.take(i)) by {
            if i < e.len() {
                assert(r.fields.take(i) == e.take(i));
            }
        }
        assert forall|j: int| 0 <= j < s.len() implies {
            let idx = (#[trigger] r.native[j]).1.field_index as int;
            &&& idx < r.fields.len()
            &&& r.fields[idx].size == t[j].size
            &&& r.fields[idx].offset as int % (t[j].align as int) == 0
            &&& r.native[j].0 == t[j].name@
        } by {
            let idx = r.native[j].1.field_index as int;
            assert(r.fields[idx] == e[idx]);
        }
    } else {
        assert(r.size == end);
        assert(end == a * q);
        vstd::arithmetic::div_mod::lemma_mod_multiples_basic(q, a);
        assert(a * q == q * a) by (nonlinear_arith);
    }
}

} // verus!
