//! Three-way comparison of hashes and of optional values, absent values last.

use core::cmp::Ordering;
use vstd::prelude::*;
use vstd::std_specs::cmp::PartialOrdSpec;
use crate::hash::{differ_first_at, H256};

verus! {

/// Byte strings of one length in dictionary order: the first differing byte decides.
pub open spec fn hash_order(a: Seq<u8>, b: Seq<u8>) -> Ordering {
    if a == b {
        Ordering::Equal
    } else if exists|at: int| differ_first_at(a, b, at) && a[at] < b[at] {
        Ordering::Less
    } else {
        Ordering::Greater
    }
}

/// Comparison in which a present value comes before an absent one.
///
/// Two present values compare as their type orders them. Two absent values are not
/// comparable.
pub open spec fn some_lt_none_order<T: PartialOrd>(a: Option<T>, b: Option<T>) -> Option<Ordering> {
    match (a, b) {
        (Some(x), Some(y)) => x.partial_cmp_spec(&y),
        (Some(_), None) => Some(Ordering::Less),
        (None, Some(_)) => Some(Ordering::Greater),
        (None, None) => None,
    }
}

impl PartialOrd for H256 {
    fn partial_cmp(&self, other: &H256) -> (order: Option<Ordering>) {
        match self.first_difference(other) {
            None => Some(Ordering::Equal),
            Some(at) => {
                if self.0[at] < other.0[at] {
                    Some(Ordering::Less)
                } else {
                    proof {
                        lemma_first_difference_unique(self@, other@);
                    }
                    Some(Ordering::Greater)
                }
            },
        }
    }
}

impl vstd::std_specs::cmp::PartialOrdSpecImpl for H256 {
    open spec fn obeys_partial_cmp_spec() -> bool {
        true
    }

    open spec fn partial_cmp_spec(&self, other: &H256) -> Option<Ordering> {
        Some(hash_order(self@, other@))
    }
}

/// Treats any present value as coming before, so being less than, an absent one.
pub fn partial_cmp_some_lt_none<T: PartialOrd>(a: &Option<T>, b: &Option<T>) -> (order: Option<Ordering>)
    ensures
        T::obeys_partial_cmp_spec() ==> order == some_lt_none_order(*a, *b),
        a is Some && b is None ==> order == Some(Ordering::Less),
        a is None && b is Some ==> order == Some(Ordering::Greater),
        a is None && b is None ==> order is None,
{
    match a {
        Some(x) => match b {
            Some(y) => x.partial_cmp(y),
            None => Some(Ordering::Less),
        },
        None => match b {
            Some(_) => Some(Ordering::Greater),
            None => None,
        },
    }
}

/// Two byte strings differ first at one position only.
pub proof fn lemma_first_difference_unique(a: Seq<u8>, b: Seq<u8>)
    ensures
        forall|i: int, j: int| differ_first_at(a, b, i) && differ_first_at(a, b, j) ==> i == j,
{
    assert forall|i: int, j: int| differ_first_at(a, b, i) && differ_first_at(a, b, j) implies i
        == j by {
        if i < j {
            assert(a[i] == b[i]);
        }
        if j < i {
            assert(a[j] == b[j]);
        }
    }
}

/// Two different byte strings of one length differ first at some position.
pub proof fn lemma_first_difference_exists(a: Seq<u8>, b: Seq<u8>)
    requires
        a.len() == b.len(),
        a != b,
    ensures
        exists|at: int| differ_first_at(a, b, at),
{
    if forall|k: int| 0 <= k < a.len() ==> a[k] == b[k] {
        assert(a =~= b);
    }
    lemma_difference_below(a, b, a.len() as int);
}

proof fn lemma_difference_below(a: Seq<u8>, b: Seq<u8>, n: int)
    requires
        a.len() == b.len(),
        0 <= n <= a.len(),
        exists|k: int| 0 <= k < n && a[k] != b[k],
    ensures
        exists|at: int| differ_first_at(a, b, at),
    decreases n,
{
    let k = choose|k: int| 0 <= k < n && a[k] != b[k];
    if exists|j: int| 0 <= j < k && a[j] != b[j] {
        lemma_difference_below(a, b, k);
    } else {
        assert(differ_first_at(a, b, k));
    }
}

/// The order of hashes is the mirror image of the order of the swapped pair.
pub proof fn lemma_hash_order_mirrored(a: Seq<u8>, b: Seq<u8>)
    requires
        a.len() == b.len(),
    ensures
        hash_order(a, b) == Ordering::Equal <==> a == b,
        hash_order(a, b) == Ordering::Less <==> hash_order(b, a) == Ordering::Greater,
        hash_order(a, b) == Ordering::Greater <==> hash_order(b, a) == Ordering::Less,
{
    if a != b {
        lemma_first_difference_exists(a, b);
        lemma_first_difference_unique(a, b);
        lemma_first_difference_unique(b, a);
        let at = choose|at: int| differ_first_at(a, b, at);
        assert(differ_first_at(b, a, at));
    }
}

/// The order of hashes is transitive.
pub proof fn lemma_hash_order_transitive(a: Seq<u8>, b: Seq<u8>, c: Seq<u8>)
    requires
        a.len() == b.len(),
        b.len() == c.len(),
        hash_order(a, b) == Ordering::Less,
        hash_order(b, c) == Ordering::Less,
    ensures
        hash_order(a, c) == Ordering::Less,
{
    let i = choose|at: int| differ_first_at(a, b, at) && a[at] < b[at];
    let j = choose|at: int| differ_first_at(b, c, at) && b[at] < c[at];
    if i <= j {
        assert(differ_first_at(a, c, i) && a[i] < c[i]);
    } else {
        assert(differ_first_at(a, c, j) && a[j] < c[j]);
    }
}

} // verus!
