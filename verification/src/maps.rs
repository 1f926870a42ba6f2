//! Association lists with unique keys: the mapping representation used by
//! the interface, schema and binding models.

use vstd::prelude::*;

use crate::ident::FieldName;

verus! {

/// Whether the association list `m` has an entry with key `k`.
pub open spec fn map_has<K, V>(m: Seq<(K, V)>, k: K) -> bool {
    exists|i: int| 0 <= i < m.len() && m[i].0 == k
}

/// The value of the first entry of `m` with key `k`.
pub open spec fn map_get<K, V>(m: Seq<(K, V)>, k: K) -> V {
    m[choose|i: int| 0 <= i < m.len() && m[i].0 == k].1
}

/// Whether no key occurs twice in `m`.
pub open spec fn keys_unique<K, V>(m: Seq<(K, V)>) -> bool {
    forall|i: int, j: int| 0 <= i < j < m.len() ==> m[i].0 != m[j].0
}

/// Whether the numeric keys of `m` are strictly increasing: the canonical
/// order of every id-keyed mapping, which also makes the keys unique.
pub open spec fn ids_sorted<V>(m: Seq<(u16, V)>) -> bool {
    forall|i: int, j: int| 0 <= i < j < m.len() ==> m[i].0 < m[j].0
}

/// Whether the elements of `s` are strictly increasing.
pub open spec fn ids_sorted_plain(s: Seq<u16>) -> bool {
    forall|i: int, j: int| 0 <= i < j < s.len() ==> s[i] < s[j]
}

/// With unique keys, looking up the key of entry `i` yields that entry's
/// value.
pub proof fn lemma_map_get_at<K, V>(m: Seq<(K, V)>, i: int)
    requires
        keys_unique(m),
        0 <= i < m.len(),
    ensures
        map_has(m, m[i].0),
        map_get(m, m[i].0) == m[i].1,
{
    assert(map_has(m, m[i].0));
    let k = choose|k: int| 0 <= k < m.len() && m[k].0 == m[i].0;
    if k < i {
        assert(m[k].0 != m[i].0);
    } else if k > i {
        assert(m[i].0 != m[k].0);
    }
}

/// Sorted numeric keys are unique.
pub proof fn lemma_ids_sorted_unique<V>(m: Seq<(u16, V)>)
    requires
        ids_sorted(m),
    ensures
        keys_unique(m),
{
}

/// Whether an entry of `m` keyed by name `k` exists, searching by byte
/// equality.
pub fn named_has<T: DeepView>(m: &Vec<(FieldName, T)>, k: &FieldName) -> (r: bool)
    ensures
        r == map_has(m.deep_view(), k@),
{
    let n = m.len();
    let mut i: usize = 0;
    while i < n
        invariant
            n == m.deep_view().len(),
            i <= n,
            forall|j: int| 0 <= j < i ==> m.deep_view()[j].0 != k@,
        decreases n - i,
    {
        if m[i].0.eq_name(k) {
            proof {
                assert(m.deep_view()[i as int].0 == k@);
            }
            return true;
        }
        i += 1;
    }
    false
}

/// Whether an entry of `m` keyed by the id `k` exists.
pub fn id_has<T: DeepView>(m: &Vec<(u16, T)>, k: u16) -> (r: bool)
    ensures
        r == map_has(m.deep_view(), k),
{
    let n = m.len();
    let mut i: usize = 0;
    while i < n
        invariant
            n == m.deep_view().len(),
            i <= n,
            forall|j: int| 0 <= j < i ==> m.deep_view()[j].0 != k,
        decreases n - i,
    {
        if m[i].0 == k {
            proof {
                assert(m.deep_view()[i as int].0 == k);
            }
            return true;
        }
        i += 1;
    }
    false
}

/// Whether the id `k` occurs in the plain id list `s`.
pub fn plain_has(s: &Vec<u16>, k: u16) -> (r: bool)
    ensures
        r == s@.contains(k),
{
    let n = s.len();
    let mut i: usize = 0;
    while i < n
        invariant
            n == s@.len(),
            i <= n,
            forall|j: int| 0 <= j < i ==> s@[j] != k,
        decreases n - i,
    {
        if s[i] == k {
            return true;
        }
        i += 1;
    }
    false
}

} // verus!
