//! Lookup by name in lists that may repeat a name: the last entry of a name wins,
//! and distinct names can be listed in `String` order.

use vstd::prelude::*;
use crate::ir::strings_view;
use crate::text::{chars_lt, chars_of, lemma_seq_lt_irreflexive, lemma_seq_lt_transitive,
    lemma_seq_lt_trichotomy, seq_lt, strictly_sorted};

verus! {

/// The position of the last entry named `n`, or -1 when there is none.
pub open spec fn last_index(names: Seq<Seq<char>>, n: Seq<char>) -> int
    decreases names.len(),
{
    if names.len() == 0 {
        -1
    } else if names.last() == n {
        names.len() - 1
    } else {
        last_index(names.drop_last(), n)
    }
}

/// `i` is an entry of the first `upto` entries that no later one of them repeats.
pub open spec fn is_last_in(names: Seq<Seq<char>>, i: int, upto: int) -> bool {
    &&& 0 <= i < upto
    &&& forall|j: int| i < j < upto ==> names[j] != names[i]
}

pub proof fn lemma_last_index(names: Seq<Seq<char>>, n: Seq<char>)
    ensures
        names.contains(n) <==> last_index(names, n) >= 0,
        last_index(names, n) >= 0 ==> {
            &&& last_index(names, n) < names.len()
            &&& names[last_index(names, n)] == n
            &&& is_last_in(names, last_index(names, n), names.len() as int)
        },
        last_index(names, n) < names.len(),
        last_index(names, n) >= -1,
    decreases names.len(),
{
    if names.len() > 0 {
        lemma_last_index(names.drop_last(), n);
        if names.last() != n {
            let li = last_index(names, n);
            if li >= 0 {
                assert forall|j: int| li < j < names.len() implies names[j] != names[li] by {
                    if j < names.len() - 1 {
                        assert(names.drop_last()[j] == names[j]);
                    }
                }
            }
            if names.contains(n) {
                let k = choose|k: int| 0 <= k < names.len() && names[k] == n;
                assert(names.drop_last()[k] == n);
            }
            if names.drop_last().contains(n) {
                let k = choose|k: int| 0 <= k < names.drop_last().len() && names.drop_last()[k] == n;
                assert(names[k] == n);
            }
        } else {
            assert(names[names.len() - 1] == n);
        }
    }
}

/// An entry that no later entry repeats is the last entry of its name.
pub proof fn lemma_last_in_is_last_index(names: Seq<Seq<char>>, i: int)
    requires
        is_last_in(names, i, names.len() as int),
    ensures
        last_index(names, names[i]) == i,
    decreases names.len(),
{
    if i < names.len() - 1 {
        assert(names.last() != names[i]);
        assert(is_last_in(names.drop_last(), i, names.drop_last().len() as int)) by {
            assert forall|j: int| i < j < names.drop_last().len() implies names.drop_last()[j] != names.drop_last()[i] by {
                assert(names.drop_last()[j] == names[j]);
            }
        }
        lemma_last_in_is_last_index(names.drop_last(), i);
    }
}

/// Some entry of `order` names `n`.
pub open spec fn listed(names: Seq<Seq<char>>, order: Seq<usize>, n: Seq<char>) -> bool {
    exists|k: int| 0 <= k < order.len() && names[#[trigger] order[k] as int] == n
}

/// `order` lists the last entry of each distinct name exactly once, in `String` order
/// of the names.
pub open spec fn sorted_last_entries(names: Seq<Seq<char>>, order: Seq<usize>) -> bool {
    &&& forall|k: int| 0 <= k < order.len() ==> is_last_in(names, #[trigger] order[k] as int, names.len() as int)
    &&& strictly_sorted(order.map_values(|i: usize| names[i as int]))
    &&& forall|i: int| 0 <= i < names.len() ==> listed(names, order, #[trigger] names[i])
}

/// The position of the last entry named `n`, if any.
pub fn find_last(names: &Vec<String>, n: &String) -> (r: Option<usize>)
    ensures
        r is None <==> !strings_view(names@).contains(n@),
        r matches Some(i) ==> i as int == last_index(strings_view(names@), n@),
{
    let ghost sv = strings_view(names@);
    proof {
        lemma_last_index(sv, n@);
    }
    let mut i = names.len();
    while i > 0
        invariant
            i <= names@.len(),
            sv == strings_view(names@),
            forall|j: int| i <= j < names@.len() ==> sv[j] != n@,
        decreases i,
    {
        if names[i - 1] == *n {
            proof {
                assert(sv[i - 1] == n@);
                lemma_last_in_is_last_index(sv, i - 1);
            }
            return Some(i - 1);
        }
        i = i - 1;
    }
    proof {
        if sv.contains(n@) {
            let k = choose|k: int| 0 <= k < sv.len() && sv[k] == n@;
            assert(false);
        }
    }
    None
}

/// Whether some entry is named `n`.
pub fn contains_name(names: &Vec<String>, n: &String) -> (r: bool)
    ensures
        r == strings_view(names@).contains(n@),
{
    find_last(names, n).is_some()
}

proof fn lemma_sorted_names_distinct(names: Seq<Seq<char>>, order: Seq<usize>, a: int, b: int)
    requires
        strictly_sorted(order.map_values(|i: usize| names[i as int])),
        0 <= a < order.len(),
        0 <= b < order.len(),
        a != b,
    ensures
        names[order[a] as int] != names[order[b] as int],
{
    let m = order.map_values(|i: usize| names[i as int]);
    assert(m[a] == names[order[a] as int]);
    assert(m[b] == names[order[b] as int]);
    if a < b {
        assert(seq_lt(m[a], m[b]));
        lemma_seq_lt_irreflexive(m[a]);
    } else {
        assert(seq_lt(m[b], m[a]));
        lemma_seq_lt_irreflexive(m[b]);
    }
}

/// The positions of the last entry of each distinct name, ordered by name.
pub fn sorted_last_entries_of(names: &Vec<String>) -> (r: Vec<usize>)
    ensures
        sorted_last_entries(strings_view(names@), r@),
{
    let ghost sv = strings_view(names@);
    let n = names.len();
    let mut keys: Vec<Vec<char>> = Vec::new();
    for i in 0..n
        invariant
            n == names@.len(),
            sv == strings_view(names@),
            keys@.len() == i,
            forall|k: int| 0 <= k < i ==> (#[trigger] keys@[k])@ == sv[k],
    {
        keys.push(chars_of(names[i].as_str()));
    }
    let mut order: Vec<usize> = Vec::new();
    for i in 0..n
        invariant
            n == names@.len(),
            sv == strings_view(names@),
            keys@.len() == n,
            forall|k: int| 0 <= k < n ==> (#[trigger] keys@[k])@ == sv[k],
            forall|k: int| 0 <= k < order@.len() ==> is_last_in(sv, #[trigger] order@[k] as int, i as int),
            strictly_sorted(order@.map_values(|x: usize| sv[x as int])),
            forall|j: int| 0 <= j < i ==> listed(sv, order@, #[trigger] sv[j]),
    {
        let ghost old_order = order@;
        let ghost key = sv[i as int];
        // first position whose name is not below the new name
        let mut p: usize = 0;
        while p < order.len() && chars_lt(&keys[order[p]], &keys[i])
            invariant
                n == names@.len(),
                i < n,
                keys@.len() == n,
                forall|k: int| 0 <= k < n ==> (#[trigger] keys@[k])@ == sv[k],
                order@ == old_order,
                key == sv[i as int],
                forall|k: int| 0 <= k < order@.len() ==> is_last_in(sv, #[trigger] order@[k] as int, i as int),
                p <= order@.len(),
                forall|k: int| 0 <= k < p ==> seq_lt(sv[#[trigger] order@[k] as int], key),
            decreases order@.len() - p,
        {
            proof {
                assert(is_last_in(sv, order@[p as int] as int, i as int));
                assert(keys@[order@[p as int] as int]@ == sv[order@[p as int] as int]);
                assert(keys@[i as int]@ == sv[i as int]);
            }
            p = p + 1;
        }
        let ghost m0 = old_order.map_values(|x: usize| sv[x as int]);
        if p < order.len() && names[order[p]] == names[i] {
            order.set(p, i);
            proof {
                let m1 = order@.map_values(|x: usize| sv[x as int]);
                assert(m1 =~= m0.update(p as int, key));
                assert(m0[p as int] == key);
                assert(m1 =~= m0);
                assert forall|k: int| 0 <= k < order@.len() implies is_last_in(sv, #[trigger] order@[k] as int, i + 1) by {
                    if k != p {
                        lemma_sorted_names_distinct(sv, old_order, k, p as int);
                        assert(old_order[k] == order@[k]);
                    }
                }
                assert forall|j: int| 0 <= j < i + 1 implies listed(sv, order@, #[trigger] sv[j]) by {
                    if j == i {
                        assert(sv[order@[p as int] as int] == sv[j]);
                    } else {
                        assert(listed(sv, old_order, sv[j]));
                        let k = choose|k: int| 0 <= k < old_order.len() && sv[#[trigger] old_order[k] as int] == sv[j];
                        if k == p {
                            assert(sv[order@[p as int] as int] == sv[j]);
                        } else {
                            assert(order@[k] == old_order[k]);
                        }
                    }
                }
            }
        } else {
            proof {
                if p < old_order.len() {
                    lemma_seq_lt_trichotomy(sv[old_order[p as int] as int], key);
                }
            }
            order.insert(p, i);
            proof {
                let m1 = order@.map_values(|x: usize| sv[x as int]);
                assert(m1 =~= m0.insert(p as int, key));
                assert forall|a: int, b: int| 0 <= a < b < m1.len() implies seq_lt(#[trigger] m1[a], #[trigger] m1[b]) by {
                    if b < p {
                        assert(m1[a] == m0[a] && m1[b] == m0[b]);
                    } else if b == p {
                        assert(m1[a] == m0[a]);
                        assert(seq_lt(sv[old_order[a] as int], key));
                    } else if a > p {
                        assert(m1[a] == m0[a - 1] && m1[b] == m0[b - 1]);
                    } else if a == p {
                        assert(m1[b] == m0[b - 1]);
                        if b - 1 > p {
                            assert(seq_lt(m0[p as int], m0[b - 1]));
                            lemma_seq_lt_transitive(key, m0[p as int], m0[b - 1]);
                        }
                    } else {
                        assert(m1[a] == m0[a] && m1[b] == m0[b - 1]);
                        assert(seq_lt(m0[a], key));
                        if b - 1 > p {
                            assert(seq_lt(m0[p as int], m0[b - 1]));
                            lemma_seq_lt_transitive(key, m0[p as int], m0[b - 1]);
                        }
                        lemma_seq_lt_transitive(m0[a], key, m1[b]);
                    }
                }
                assert forall|k: int| 0 <= k < order@.len() implies is_last_in(sv, #[trigger] order@[k] as int, i + 1) by {
                    if k < p {
                        assert(order@[k] == old_order[k]);
                        assert(seq_lt(sv[old_order[k] as int], key));
                        lemma_seq_lt_irreflexive(key);
                    } else if k > p {
                        assert(order@[k] == old_order[k - 1]);
                        assert(m1[k] != key) by {
                            assert(seq_lt(m1[p as int], m1[k]));
                            lemma_seq_lt_irreflexive(key);
                        }
                    }
                }
                assert forall|j: int| 0 <= j < i + 1 implies listed(sv, order@, #[trigger] sv[j]) by {
                    if j == i {
                        assert(sv[order@[p as int] as int] == sv[j]);
                    } else {
                        assert(listed(sv, old_order, sv[j]));
                        let k = choose|k: int| 0 <= k < old_order.len() && sv[#[trigger] old_order[k] as int] == sv[j];
                        if k < p {
                            assert(order@[k] == old_order[k]);
                        } else {
                            assert(order@[k + 1] == old_order[k]);
                        }
                    }
                }
            }
        }
    }
    order
}

/// The names at the given positions.
pub open spec fn names_at(names: Seq<Seq<char>>, order: Seq<usize>) -> Seq<Seq<char>> {
    order.map_values(|i: usize| names[i as int])
}

/// The entries of the first `k` positions of `order` whose mask is set, in order.
pub open spec fn kept(order: Seq<usize>, mask: Seq<bool>, k: nat) -> Seq<usize>
    decreases k,
{
    if k == 0 {
        Seq::empty()
    } else {
        let prev = kept(order, mask, (k - 1) as nat);
        if mask[k - 1] { prev.push(order[k - 1]) } else { prev }
    }
}

pub proof fn lemma_kept(names: Seq<Seq<char>>, order: Seq<usize>, mask: Seq<bool>, k: nat)
    requires
        k <= order.len(),
        mask.len() == order.len(),
        forall|j: int| 0 <= j < order.len() ==> (#[trigger] order[j]) < names.len(),
        strictly_sorted(names_at(names, order)),
    ensures
        strictly_sorted(names_at(names, kept(order, mask, k))),
        kept(order, mask, k).len() <= k,
        forall|i: int| 0 <= i < kept(order, mask, k).len() ==> exists|j: int| 0 <= j < k && mask[j] && #[trigger] kept(order, mask, k)[i] == order[j],
        forall|j: int| 0 <= j < k && mask[j] ==> names_at(names, kept(order, mask, k)).contains(#[trigger] names[order[j] as int]),
    decreases k,
{
    if k > 0 {
        let prev = kept(order, mask, (k - 1) as nat);
        lemma_kept(names, order, mask, (k - 1) as nat);
        let cur = kept(order, mask, k);
        let so = names_at(names, order);
        if mask[k - 1] {
            assert(cur == prev.push(order[k - 1]));
            let m = names_at(names, cur);
            assert forall|a: int, b: int| 0 <= a < b < m.len() implies seq_lt(#[trigger] m[a], #[trigger] m[b]) by {
                let ja = choose|j: int| 0 <= j < k && mask[j] && cur[a] == order[j];
                let jb = choose|j: int| 0 <= j < k && mask[j] && cur[b] == order[j];
                if b == m.len() - 1 {
                    assert(cur[a] == prev[a]);
                    let j0 = choose|j: int| 0 <= j < k - 1 && mask[j] && prev[a] == order[j];
                    assert(so[j0] == m[a]);
                    assert(so[k - 1] == m[b]);
                } else {
                    assert(m[a] == names_at(names, prev)[a]);
                    assert(m[b] == names_at(names, prev)[b]);
                }
            }
            assert forall|i: int| 0 <= i < cur.len() implies exists|j: int| 0 <= j < k && mask[j] && #[trigger] cur[i] == order[j] by {
                if i < prev.len() {
                    assert(cur[i] == prev[i]);
                    let j0 = choose|j: int| 0 <= j < k - 1 && mask[j] && prev[i] == order[j];
                } else {
                    assert(cur[i] == order[k - 1]);
                }
            }
            assert forall|j: int| 0 <= j < k && mask[j] implies names_at(names, cur).contains(#[trigger] names[order[j] as int]) by {
                if j < k - 1 {
                    assert(names_at(names, prev).contains(names[order[j] as int]));
                    let i = choose|i: int| 0 <= i < names_at(names, prev).len() && names_at(names, prev)[i] == names[order[j] as int];
                    assert(names_at(names, cur)[i] == names_at(names, prev)[i]);
                } else {
                    assert(names_at(names, cur)[prev.len() as int] == names[order[j] as int]);
                }
            }
        } else {
            assert forall|i: int| 0 <= i < cur.len() implies exists|j: int| 0 <= j < k && mask[j] && #[trigger] cur[i] == order[j] by {
                let j0 = choose|j: int| 0 <= j < k - 1 && mask[j] && prev[i] == order[j];
            }
        }
    }
}

/// The entries of `order` whose mask is set.
pub fn keep(order: &Vec<usize>, mask: &Vec<bool>) -> (r: Vec<usize>)
    requires
        mask@.len() == order@.len(),
    ensures
        r@ == kept(order@, mask@, order@.len()),
{
    let mut r: Vec<usize> = Vec::new();
    for k in 0..order.len()
        invariant
            mask@.len() == order@.len(),
            r@ == kept(order@, mask@, k as nat),
    {
        if mask[k] {
            r.push(order[k]);
        }
    }
    r
}

/// For each position of `order`, whether its name is absent from `other`.
pub fn absent_mask(order: &Vec<usize>, names: &Vec<String>, other: &Vec<String>) -> (m: Vec<bool>)
    requires
        forall|j: int| 0 <= j < order@.len() ==> (#[trigger] order@[j]) < names@.len(),
    ensures
        m@.len() == order@.len(),
        forall|j: int| 0 <= j < order@.len() ==> #[trigger] m@[j] == !strings_view(other@).contains(strings_view(names@)[order@[j] as int]),
{
    let mut m: Vec<bool> = Vec::new();
    for j in 0..order.len()
        invariant
            forall|j: int| 0 <= j < order@.len() ==> (#[trigger] order@[j]) < names@.len(),
            m@.len() == j,
            forall|i: int| 0 <= i < j ==> #[trigger] m@[i] == !strings_view(other@).contains(strings_view(names@)[order@[i] as int]),
    {
        let present = contains_name(other, &names[order[j]]);
        m.push(!present);
    }
    m
}

/// A strictly increasing list holds each of its names once; two such lists with the
/// same names are equal.
pub proof fn lemma_sorted_lists_equal(a: Seq<Seq<char>>, b: Seq<Seq<char>>)
    requires
        strictly_sorted(a),
        strictly_sorted(b),
        forall|x: Seq<char>| a.contains(x) <==> b.contains(x),
    ensures
        a == b,
    decreases a.len() + b.len(),
{
    if a.len() == 0 {
        if b.len() > 0 {
            assert(b.contains(b[0]));
        }
        assert(a =~= b);
    } else if b.len() == 0 {
        assert(a.contains(a[0]));
    } else {
        // the first elements are the least of each list, hence equal
        assert(b.contains(a[0]));
        assert(a.contains(b[0]));
        let ia = choose|i: int| 0 <= i < a.len() && a[i] == b[0];
        let ib = choose|i: int| 0 <= i < b.len() && b[i] == a[0];
        if ia > 0 && ib > 0 {
            assert(seq_lt(a[0], a[ia]));
            assert(seq_lt(b[0], b[ib]));
            lemma_seq_lt_transitive(a[0], b[0], a[0]);
            lemma_seq_lt_irreflexive(a[0]);
        }
        assert(a[0] == b[0]) by {
            if ia == 0 {
            } else {
                assert(ib == 0);
            }
        }
        let a1 = a.drop_first();
        let b1 = b.drop_first();
        assert forall|x: Seq<char>| a1.contains(x) <==> b1.contains(x) by {
            if a1.contains(x) {
                let i = choose|i: int| 0 <= i < a1.len() && a1[i] == x;
                assert(a[i + 1] == x);
                assert(seq_lt(a[0], x));
                assert(b.contains(x));
                let j = choose|j: int| 0 <= j < b.len() && b[j] == x;
                if j == 0 {
                    lemma_seq_lt_irreflexive(x);
                }
                assert(b1[j - 1] == x);
            }
            if b1.contains(x) {
                let i = choose|i: int| 0 <= i < b1.len() && b1[i] == x;
                assert(b[i + 1] == x);
                assert(seq_lt(b[0], x));
                assert(a.contains(x));
                let j = choose|j: int| 0 <= j < a.len() && a[j] == x;
                if j == 0 {
                    lemma_seq_lt_irreflexive(x);
                }
                assert(a1[j - 1] == x);
            }
        }
        assert(strictly_sorted(a1)) by {
            assert forall|i: int, j: int| 0 <= i < j < a1.len() implies seq_lt(#[trigger] a1[i], #[trigger] a1[j]) by {
                assert(a1[i] == a[i + 1] && a1[j] == a[j + 1]);
            }
        }
        assert(strictly_sorted(b1)) by {
            assert forall|i: int, j: int| 0 <= i < j < b1.len() implies seq_lt(#[trigger] b1[i], #[trigger] b1[j]) by {
                assert(b1[i] == b[i + 1] && b1[j] == b[j + 1]);
            }
        }
        lemma_sorted_lists_equal(a1, b1);
        assert(a =~= b) by {
            assert forall|i: int| 0 <= i < a.len() implies a[i] == b[i] by {
                if i > 0 {
                    assert(a[i] == a1[i - 1] && b[i] == b1[i - 1]);
                }
            }
        }
    }
}

} // verus!
