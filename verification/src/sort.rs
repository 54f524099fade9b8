//! Sorting by insertion.
use vstd::prelude::*;

verus! {

pub open spec fn sorted_u32(s: Seq<u32>) -> bool {
    forall|i: int, j: int| 0 <= i < j < s.len() ==> s[i] <= s[j]
}

/// The values in ascending order.
pub fn sort_u32(v: Vec<u32>) -> (r: Vec<u32>)
    ensures
        sorted_u32(r@),
        r@.to_multiset() == v@.to_multiset(),
        forall|x: u32| r@.contains(x) <==> v@.contains(x),
{
    broadcast use vstd::seq_lib::group_to_multiset_ensures;

    let mut r: Vec<u32> = Vec::new();
    let n = v.len();
    assert(v@.take(0) =~= Seq::<u32>::empty());
    for i in 0..n
        invariant
            n == v@.len(),
            sorted_u32(r@),
            r@.to_multiset() == v@.take(i as int).to_multiset(),
    {
        let x = v[i];
        let mut p: usize = 0;
        while p < r.len() && r[p] <= x
            invariant
                p <= r@.len(),
                forall|k: int| 0 <= k < p ==> r@[k] <= x,
            decreases r@.len() - p,
        {
            p = p + 1;
        }
        let ghost before = r@;
        r.insert(p, x);
        assert(r@ == before.insert(p as int, x));
        assert(v@.take(i as int + 1) =~= v@.take(i as int).push(x));
        proof {
            vstd::seq_lib::to_multiset_insert(before, p as int, x);
            vstd::seq_lib::to_multiset_build(v@.take(i as int), x);
        }
        assert forall|a: int, b: int| 0 <= a < b < r@.len() implies r@[a] <= r@[b] by {
            if b < p {
            } else if b == p {
                assert(r@[a] == before[a]);
            } else if a == p {
                assert(r@[b] == before[b - 1]);
                assert(before[p as int] > x);
            } else if a < p {
                assert(r@[a] == before[a] && r@[b] == before[b - 1]);
            } else {
                assert(r@[a] == before[a - 1] && r@[b] == before[b - 1]);
            }
        }
    }
    assert(v@.take(n as int) =~= v@);
    assert forall|x: u32| r@.contains(x) <==> v@.contains(x) by {
        assert(r@.to_multiset().count(x) == v@.to_multiset().count(x));
    }
    r
}

} // verus!
