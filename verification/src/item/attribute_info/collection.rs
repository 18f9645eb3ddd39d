//! Named groups of attributes, as a mathematical model.
use vstd::prelude::*;
use crate::item::attribute_info::AttributesV;

verus! {

/// Named groups of attributes: each name with the attributes of that name,
/// in the order they were read.
pub type AttributeGroups = Seq<(Seq<char>, Seq<AttributesV>)>;

/// The position of the first group named `k`, if any.
pub open spec fn group_index(g: AttributeGroups, k: Seq<char>) -> Option<nat>
    decreases g.len(),
{
    if g.len() == 0 {
        None
    } else if g[0].0 == k {
        Some(0)
    } else {
        match group_index(g.drop_first(), k) {
            Some(i) => Some(i + 1),
            None => None,
        }
    }
}

/// The attributes named `k` (none where there is no such group).
pub open spec fn lookup(g: AttributeGroups, k: Seq<char>) -> Seq<AttributesV> {
    match group_index(g, k) {
        Some(i) => g[i as int].1,
        None => seq![],
    }
}

/// The groups with the attribute `v` added under the name `k`: at the end
/// of its group, or in a new group at the end.
pub open spec fn grouped_insert(g: AttributeGroups, k: Seq<char>, v: AttributesV) -> AttributeGroups {
    match group_index(g, k) {
        Some(i) => g.update(i as int, (k, g[i as int].1.push(v))),
        None => g.push((k, seq![v])),
    }
}

/// The groups that the named attributes `pairs`, added in order, make.
pub open spec fn group_all(pairs: Seq<(Seq<char>, AttributesV)>) -> AttributeGroups
    decreases pairs.len(),
{
    if pairs.len() == 0 {
        seq![]
    } else {
        grouped_insert(group_all(pairs.drop_last()), pairs.last().0, pairs.last().1)
    }
}

/// The first group named `k` is at `i` where no group before it has that
/// name; there is none where no group has it.
pub proof fn lemma_group_index(g: AttributeGroups, k: Seq<char>, i: nat)
    requires
        i <= g.len(),
        forall|j: int| 0 <= j < i ==> g[j].0 != k,
    ensures
        i < g.len() && g[i as int].0 == k ==> group_index(g, k) == Some(i),
        i == g.len() ==> group_index(g, k) is None,
    decreases i,
{
    if i > 0 {
        assert forall|j: int| 0 <= j < i - 1 implies g.drop_first()[j].0 != k by {
            assert(g.drop_first()[j] == g[j + 1]);
        }
        lemma_group_index(g.drop_first(), k, (i - 1) as nat);
    }
}

/// The position of a group is within the groups, and the group there has
/// the name.
pub proof fn lemma_group_index_found(g: AttributeGroups, k: Seq<char>)
    ensures
        group_index(g, k) matches Some(i) ==> i < g.len() && g[i as int].0 == k
            && forall|j: int| 0 <= j < i ==> g[j].0 != k,
        group_index(g, k) is None ==> forall|j: int| 0 <= j < g.len() ==> g[j].0 != k,
    decreases g.len(),
{
    if g.len() > 0 && g[0].0 != k {
        lemma_group_index_found(g.drop_first(), k);
        assert forall|j: int| 0 < j < g.len() implies g[j] == g.drop_first()[j - 1] by {}
    }
}

/// The groups without the first group named `k`, if there is one.
pub open spec fn without_group(g: AttributeGroups, k: Seq<char>) -> AttributeGroups {
    match group_index(g, k) {
        Some(i) => g.remove(i as int),
        None => g,
    }
}

/// Whether no two groups have the same name.
pub open spec fn names_distinct(g: AttributeGroups) -> bool {
    forall|i: int, j: int| 0 <= i < j < g.len() ==> g[i].0 != g[j].0
}

/// Adding an attribute under a name: the attributes of that name are then
/// the ones before with it at the end, and those of every other name are
/// unchanged; no two groups come to share a name.
pub proof fn law_insert_then_lookup(g: AttributeGroups, k: Seq<char>, v: AttributesV, other: Seq<char>)
    ensures
        lookup(grouped_insert(g, k, v), k) == lookup(g, k).push(v),
        other != k ==> lookup(grouped_insert(g, k, v), other) == lookup(g, other),
        names_distinct(g) ==> names_distinct(grouped_insert(g, k, v)),
{
    let n = grouped_insert(g, k, v);
    lemma_group_index_found(g, k);
    lemma_group_index_found(g, other);
    match group_index(g, k) {
        Some(i) => {
            assert forall|j: int| 0 <= j < n.len() implies #[trigger] n[j].0 == g[j].0 by {}
            assert forall|j: int| 0 <= j < i implies n[j].0 != k by {}
            lemma_group_index(n, k, i);
            if other != k {
                match group_index(g, other) {
                    Some(p) => {
                        assert forall|j: int| 0 <= j < p implies n[j].0 != other by {}
                        lemma_group_index(n, other, p);
                    },
                    None => {
                        assert forall|j: int| 0 <= j < n.len() implies n[j].0 != other by {}
                        lemma_group_index(n, other, n.len());
                    },
                }
            }
        },
        None => {
            assert forall|j: int| 0 <= j < g.len() implies n[j].0 != k by {}
            lemma_group_index(n, k, g.len());
            if other != k {
                match group_index(g, other) {
                    Some(p) => {
                        assert forall|j: int| 0 <= j < p implies n[j].0 != other by {}
                        lemma_group_index(n, other, p);
                    },
                    None => {
                        assert forall|j: int| 0 <= j < n.len() implies n[j].0 != other by {
                            if j < g.len() {
                                assert(n[j] == g[j]);
                            }
                        }
                        lemma_group_index(n, other, n.len());
                    },
                }
            }
        },
    }
}

/// Taking the attributes of a name out of groups with distinct names: no
/// attribute of that name is left, and those of every other name are
/// unchanged.
pub proof fn law_take_then_lookup(g: AttributeGroups, k: Seq<char>, other: Seq<char>)
    requires
        names_distinct(g),
    ensures
        lookup(without_group(g, k), k) == Seq::<AttributesV>::empty(),
        other != k ==> lookup(without_group(g, k), other) == lookup(g, other),
{
    let n = without_group(g, k);
    lemma_group_index_found(g, k);
    lemma_group_index_found(g, other);
    match group_index(g, k) {
        Some(i) => {
            assert forall|j: int| 0 <= j < n.len() implies n[j].0 != k by {
                if j < i {
                    assert(n[j] == g[j]);
                } else {
                    assert(n[j] == g[j + 1]);
                }
            }
            lemma_group_index(n, k, n.len());
            if other != k {
                match group_index(g, other) {
                    Some(p) => {
                        if p < i {
                            assert forall|j: int| 0 <= j < p implies n[j].0 != other by {}
                            lemma_group_index(n, other, p);
                        } else {
                            assert forall|j: int| 0 <= j < p - 1 implies n[j].0 != other by {
                                if j < i {
                                    assert(n[j] == g[j]);
                                } else {
                                    assert(n[j] == g[j + 1]);
                                }
                            }
                            assert(n[p - 1] == g[p as int]);
                            lemma_group_index(n, other, (p - 1) as nat);
                        }
                    },
                    None => {
                        assert forall|j: int| 0 <= j < n.len() implies n[j].0 != other by {
                            if j < i {
                                assert(n[j] == g[j]);
                            } else {
                                assert(n[j] == g[j + 1]);
                            }
                        }
                        lemma_group_index(n, other, n.len());
                    },
                }
            }
        },
        None => {},
    }
}

/// The groups that named attributes make have distinct names.
pub proof fn law_groups_distinct(pairs: Seq<(Seq<char>, AttributesV)>)
    ensures
        names_distinct(group_all(pairs)),
    decreases pairs.len(),
{
    if pairs.len() > 0 {
        law_groups_distinct(pairs.drop_last());
        law_insert_then_lookup(group_all(pairs.drop_last()), pairs.last().0, pairs.last().1, pairs.last().0);
    }
}

} // verus!
