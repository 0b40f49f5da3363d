//! Filtering a sequence one element at a time.

use vstd::prelude::*;

verus! {

/// Filtering one element more either appends that element or changes
/// nothing.
pub proof fn lemma_filter_step<A>(s: Seq<A>, pred: spec_fn(A) -> bool, i: int)
    requires
        0 <= i < s.len(),
    ensures
        s.take(i + 1).filter(pred) == if pred(s[i]) {
            s.take(i).filter(pred).push(s[i])
        } else {
            s.take(i).filter(pred)
        },
{
    reveal(Seq::filter);
    assert(s.take(i + 1).drop_last() =~= s.take(i));
    assert(s.take(i + 1).last() == s[i]);
}

/// Filtering nothing gives nothing.
pub proof fn lemma_filter_empty<A>(s: Seq<A>, pred: spec_fn(A) -> bool)
    ensures
        s.take(0).filter(pred) == Seq::<A>::empty(),
{
    reveal(Seq::filter);
    assert(s.take(0) =~= Seq::<A>::empty());
}

/// Whether `positions` lists, in rising order, exactly the places at which
/// `flags` holds `true`.
pub open spec fn marks(flags: Seq<bool>, positions: Seq<usize>) -> bool {
    &&& forall|k: int| 0 <= k < positions.len() ==> (#[trigger] positions[k]) < flags.len() && flags[positions[k] as int]
    &&& forall|i: int| 0 <= i < flags.len() && #[trigger] flags[i] ==> positions.contains(i as usize)
    &&& forall|j: int, k: int| 0 <= j < k < positions.len() ==> positions[j] < positions[k]
}

/// Two lists that mark the same flags agree on their first `k` places.
pub proof fn lemma_marks_agree(flags: Seq<bool>, a: Seq<usize>, b: Seq<usize>, k: int)
    requires
        marks(flags, a),
        marks(flags, b),
        0 <= k <= a.len(),
    ensures
        k <= b.len(),
        forall|j: int| 0 <= j < k ==> a[j] == b[j],
    decreases k,
{
    if k > 0 {
        lemma_marks_agree(flags, a, b, k - 1);
        let x = a[k - 1];
        assert(flags[x as int]);
        assert(b.contains(x));
        let m = choose|m: int| 0 <= m < b.len() && b[m] == x;
        if m < k - 1 {
            assert(a[m] == b[m]);
            assert(a[m] < a[k - 1]);
        }
        let y = b[k - 1];
        assert(flags[y as int]);
        assert(a.contains(y));
        let n = choose|n: int| 0 <= n < a.len() && a[n] == y;
        if n < k - 1 {
            assert(a[n] == b[n]);
            assert(b[n] < b[k - 1]);
        }
        if m > k - 1 {
            assert(b[k - 1] < b[m]);
        }
        if n > k - 1 {
            assert(a[k - 1] < a[n]);
        }
    }
}

/// The flags determine the list that marks them.
pub proof fn marks_is_unique(flags: Seq<bool>, a: Seq<usize>, b: Seq<usize>)
    requires
        marks(flags, a),
        marks(flags, b),
    ensures
        a == b,
{
    lemma_marks_agree(flags, a, b, a.len() as int);
    lemma_marks_agree(flags, b, a, b.len() as int);
    assert(a =~= b);
}

/// The places at which a list of flags holds `true`, in rising order.
pub fn positions_of(flags: &Vec<bool>) -> (r: Vec<usize>)
    ensures
        marks(flags@, r@),
{
    let mut r: Vec<usize> = Vec::new();
    let mut i: usize = 0;
    while i < flags.len()
        invariant
            i <= flags@.len(),
            forall|k: int| 0 <= k < r@.len() ==> (#[trigger] r@[k]) < i && flags@[r@[k] as int],
            forall|n: int| 0 <= n < i && #[trigger] flags@[n] ==> r@.contains(n as usize),
            forall|j: int, k: int| 0 <= j < k < r@.len() ==> r@[j] < r@[k],
        decreases flags@.len() - i,
    {
        if flags[i] {
            let ghost before = r@;
            r.push(i);
            assert(r@[before.len() as int] == i);
            assert forall|n: int| 0 <= n < i + 1 && #[trigger] flags@[n] implies r@.contains(
                n as usize,
            ) by {
                if n < i {
                    let k = choose|k: int| 0 <= k < before.len() && before[k] == n as usize;
                    assert(r@[k] == n as usize);
                }
            }
        }
        i = i + 1;
    }
    r
}

} // verus!
