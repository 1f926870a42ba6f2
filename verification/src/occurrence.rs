//! Cardinality constraints shared by genesis and transition schemata, and
//! the validation of observed state items against them.

use vstd::prelude::*;

use crate::maps::{id_has, map_has};

verus! {

/// How many state items of one kind an operation must or may carry.
#[derive(Clone, Copy, Debug, PartialEq, Eq, Structural)]
pub enum Occurrence {
    /// Exactly one item.
    Once,
    /// Zero or one item.
    NoneOrOnce,
    /// At least one item.
    OnceOrMore,
    /// Any number of items, including none.
    ZeroOrMore,
}

impl DeepView for Occurrence {
    type V = Occurrence;

    open spec fn deep_view(&self) -> Occurrence {
        *self
    }
}

/// Whether an observed item count satisfies the constraint.
pub open spec fn occurrence_ok(occ: Occurrence, n: nat) -> bool {
    match occ {
        Occurrence::Once => n == 1,
        Occurrence::NoneOrOnce => n <= 1,
        Occurrence::OnceOrMore => n >= 1,
        Occurrence::ZeroOrMore => true,
    }
}

/// Decides whether `n` observed items satisfy the constraint `occ`:
/// `Once` demands exactly one, `NoneOrOnce` at most one, `OnceOrMore` at
/// least one, and `ZeroOrMore` accepts any count.
pub fn check(occ: Occurrence, n: u64) -> (r: bool)
    ensures
        r == occurrence_ok(occ, n as nat),
        occ == Occurrence::Once ==> r == (n == 1),
        occ == Occurrence::OnceOrMore ==> r == (n >= 1),
        occ == Occurrence::ZeroOrMore ==> r,
        occ == Occurrence::NoneOrOnce ==> r == (n == 0 || n == 1),
{
    match occ {
        Occurrence::Once => n == 1,
        Occurrence::NoneOrOnce => n <= 1,
        Occurrence::OnceOrMore => n >= 1,
        Occurrence::ZeroOrMore => true,
    }
}

/// How many of the observed items carry the id `id`.
pub open spec fn count_of(items: Seq<u16>, id: u16) -> nat
    decreases items.len(),
{
    if items.len() == 0 {
        0
    } else {
        (if items[0] == id {
            1nat
        } else {
            0nat
        }) + count_of(items.skip(1), id)
    }
}

proof fn lemma_count_of_push(items: Seq<u16>, x: u16, id: u16)
    ensures
        count_of(items.push(x), id) == count_of(items, id) + (if x == id {
            1nat
        } else {
            0nat
        }),
    decreases items.len(),
{
    if items.len() == 0 {
        assert(items.push(x)[0] == x);
        assert(items.push(x).skip(1) =~= Seq::<u16>::empty());
        assert(count_of(Seq::<u16>::empty(), id) == 0);
    } else {
        assert(items.push(x)[0] == items[0]);
        assert(items.push(x).skip(1) =~= items.skip(1).push(x));
        lemma_count_of_push(items.skip(1), x, id);
    }
}

/// Counts the observed items that carry the id `id`.
pub fn count_items(items: &Vec<u16>, id: u16) -> (r: u64)
    requires
        items@.len() <= u64::MAX,
    ensures
        r == count_of(items@, id),
{
    let mut c: u64 = 0;
    let mut i: usize = 0;
    proof {
        assert(items@.take(0) =~= Seq::<u16>::empty());
    }
    while i < items.len()
        invariant
            items@.len() <= u64::MAX,
            i <= items@.len(),
            c == count_of(items@.take(i as int), id),
            c <= i,
        decreases items@.len() - i,
    {
        proof {
            lemma_count_of_push(items@.take(i as int), items@[i as int], id);
            assert(items@.take(i as int).push(items@[i as int]) =~= items@.take(i + 1));
        }
        if items[i] == id {
            c += 1;
        }
        i += 1;
    }
    proof {
        assert(items@.take(items@.len() as int) =~= items@);
    }
    c
}

/// Whether the observed items satisfy every constraint, and every observed
/// item carries a declared id.
pub open spec fn counts_ok(constraints: Seq<(u16, Occurrence)>, items: Seq<u16>) -> bool {
    &&& forall|j: int|
        0 <= j < constraints.len() ==> occurrence_ok(
            (#[trigger] constraints[j]).1,
            count_of(items, constraints[j].0),
        )
    &&& forall|i: int| 0 <= i < items.len() ==> map_has(constraints, #[trigger] items[i])
}

/// Validates the observed items of one operation against its occurrence
/// constraints: true exactly when every constraint's count is satisfied
/// and no item carries an undeclared id.
pub fn check_counts(constraints: &Vec<(u16, Occurrence)>, items: &Vec<u16>) -> (r: bool)
    requires
        items@.len() <= u64::MAX,
    ensures
        r == counts_ok(constraints.deep_view(), items@),
{
    let n = constraints.len();
    let mut j: usize = 0;
    while j < n
        invariant
            items@.len() <= u64::MAX,
            n == constraints.deep_view().len(),
            n == constraints@.len(),
            j <= n,
            forall|jj: int|
                0 <= jj < j ==> occurrence_ok(
                    (#[trigger] constraints.deep_view()[jj]).1,
                    count_of(items@, constraints.deep_view()[jj].0),
                ),
        decreases n - j,
    {
        let c = count_items(items, constraints[j].0);
        if !check(constraints[j].1, c) {
            proof {
                assert(!occurrence_ok(
                    constraints.deep_view()[j as int].1,
                    count_of(items@, constraints.deep_view()[j as int].0),
                ));
            }
            return false;
        }
        j += 1;
    }
    let m = items.len();
    let mut i: usize = 0;
    while i < m
        invariant
            n == constraints.deep_view().len(),
            forall|jj: int|
                0 <= jj < n ==> occurrence_ok(
                    (#[trigger] constraints.deep_view()[jj]).1,
                    count_of(items@, constraints.deep_view()[jj].0),
                ),
            m == items@.len(),
            i <= m,
            forall|ii: int| 0 <= ii < i ==> map_has(constraints.deep_view(), #[trigger] items@[ii]),
        decreases m - i,
    {
        if !id_has(constraints, items[i]) {
            return false;
        }
        i += 1;
    }
    true
}

} // verus!
