//! Lists of numbers in growing order.

use vstd::prelude::*;

verus! {

/// Whether the numbers of a list grow from each place to the next.
pub open spec fn increasing(s: Seq<int>) -> bool {
    forall|i: int, j: int| 0 <= i < j < s.len() ==> s[i] < s[j]
}

/// Two growing lists that hold the same numbers hold them at the same
/// places.
pub proof fn increasing_lists_agree(a: Seq<int>, b: Seq<int>, k: int)
    requires
        increasing(a),
        increasing(b),
        forall|i: int| 0 <= i < a.len() ==> b.contains(#[trigger] a[i]),
        forall|i: int| 0 <= i < b.len() ==> a.contains(#[trigger] b[i]),
        0 <= k < a.len(),
    ensures
        k < b.len(),
        a[k] == b[k],
    decreases k,
{
    assert(b.contains(a[k]));
    let m = choose|m: int| 0 <= m < b.len() && b[m] == a[k];
    if m < k {
        increasing_lists_agree(a, b, m);
    } else if m > k {
        assert(a.contains(b[k]));
        let n = choose|n: int| 0 <= n < a.len() && a[n] == b[k];
        assert(n < k);
        increasing_lists_agree(a, b, n);
    }
}

} // verus!
