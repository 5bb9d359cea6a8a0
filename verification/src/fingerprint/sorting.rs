//! Ascending order on 16-bit codes.

use vstd::prelude::*;
use vstd::relations::sorted_by;
use vstd::relations::total_ordering;
use vstd::seq_lib::lemma_sorted_unique;
use vstd::seq_lib::to_multiset_insert;

verus! {

/// The order by which codes are arranged: numerically ascending.
pub open spec fn ascending() -> spec_fn(u16, u16) -> bool {
    |a: u16, b: u16| a <= b
}

/// The codes of `codes` in ascending order, each as often as it occurs.
pub open spec fn sorted_codes(codes: Seq<u16>) -> Seq<u16> {
    codes.sort_by(ascending())
}

/// Numerical order on codes is a total order.
pub proof fn lemma_ascending_total()
    ensures
        total_ordering(ascending()),
{
}

/// The ascending arrangement holds exactly the codes given and is sorted; it is the only
/// sequence of which both are true.
pub proof fn lemma_sorted_codes(codes: Seq<u16>, other: Seq<u16>)
    ensures
        sorted_codes(codes).to_multiset() == codes.to_multiset(),
        sorted_by(sorted_codes(codes), ascending()),
        sorted_codes(codes).len() == codes.len(),
        sorted_by(other, ascending()) && other.to_multiset() == codes.to_multiset()
            ==> other == sorted_codes(codes),
{
    lemma_ascending_total();
    codes.lemma_sort_by_ensures(ascending());
    codes.to_multiset_ensures();
    sorted_codes(codes).to_multiset_ensures();
    if sorted_by(other, ascending()) && other.to_multiset() == codes.to_multiset() {
        lemma_sorted_unique(other, sorted_codes(codes), ascending());
    }
}

/// Sorts codes into ascending order.
pub fn sort_codes(codes: &Vec<u16>) -> (out: Vec<u16>)
    ensures
        out@ == sorted_codes(codes@),
{
    let mut out: Vec<u16> = Vec::new();
    let mut i: usize = 0;
    assert(out@ =~= codes@.take(0));
    while i < codes.len()
        invariant
            i <= codes.len(),
            sorted_by(out@, ascending()),
            out@.to_multiset() == codes@.take(i as int).to_multiset(),
        decreases codes.len() - i,
    {
        let x = codes[i];
        let mut at: usize = 0;
        while at < out.len() && out[at] <= x
            invariant
                at <= out.len(),
                forall|k: int| 0 <= k < at ==> out@[k] <= x,
            decreases out.len() - at,
        {
            at += 1;
        }
        proof {
            let before = out@;
            let after = before.insert(at as int, x);
            to_multiset_insert(before, at as int, x);
            assert(codes@.take(i + 1) == codes@.take(i as int).push(x));
            vstd::seq_lib::to_multiset_build(codes@.take(i as int), x);
            assert forall|a: int, b: int| 0 <= a < b < after.len() implies (#[trigger] ascending()(
                after[a],
                after[b],
            )) by {
                if a < at && b > at {
                    assert(ascending()(before[a], before[b - 1]));
                } else if a < at && b < at {
                    assert(ascending()(before[a], before[b]));
                } else if a > at {
                    assert(ascending()(before[a - 1], before[b - 1]));
                } else if a == at {
                    assert(before[at as int] > x);
                    assert(ascending()(before[at as int], before[b - 1]) || b - 1 == at);
                }
            }
        }
        out.insert(at, x);
        i += 1;
    }
    proof {
        assert(codes@.take(i as int) == codes@);
        lemma_sorted_codes(codes@, out@);
    }
    out
}

} // verus!
