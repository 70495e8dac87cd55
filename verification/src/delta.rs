//! Byte-level comparison of two device reports.

use vstd::prelude::*;

verus! {

/// The offsets below `n` at which `a` and `b` hold different bytes, in
/// ascending order.
pub open spec fn differing_below(a: Seq<u8>, b: Seq<u8>, n: nat) -> Seq<usize>
    decreases n,
{
    if n == 0 {
        Seq::empty()
    } else if a[n - 1] != b[n - 1] {
        differing_below(a, b, (n - 1) as nat).push((n - 1) as usize)
    } else {
        differing_below(a, b, (n - 1) as nat)
    }
}

/// The offsets at which two reports of equal length differ, in ascending
/// order.
pub open spec fn differing_positions(a: Seq<u8>, b: Seq<u8>) -> Seq<usize> {
    differing_below(a, b, a.len())
}

/// The set of offsets at which two reports differ.
pub open spec fn report_delta(a: Seq<u8>, b: Seq<u8>) -> Set<int> {
    Set::new(|i: int| 0 <= i < a.len() && i < b.len() && a[i] != b[i])
}

/// `differing_below` lists exactly the differing offsets below `n`, each
/// once and in ascending order.
pub proof fn lemma_differing_below(a: Seq<u8>, b: Seq<u8>, n: nat)
    requires
        n <= a.len(),
        n <= b.len(),
        n <= usize::MAX,
    ensures
        differing_below(a, b, n).len() <= n,
        forall|k: int|
            0 <= k < differing_below(a, b, n).len() ==> {
                let p = #[trigger] differing_below(a, b, n)[k];
                p < n && a[p as int] != b[p as int]
            },
        forall|j: int, k: int|
            0 <= j < k < differing_below(a, b, n).len() ==> differing_below(a, b, n)[j]
                < differing_below(a, b, n)[k],
        forall|i: int|
            0 <= i < n && a[i] != b[i] ==> differing_below(a, b, n).contains(i as usize),
    decreases n,
{
    if n > 0 {
        let m = (n - 1) as nat;
        lemma_differing_below(a, b, m);
        let shorter = differing_below(a, b, m);
        let longer = differing_below(a, b, n);
        if a[n - 1] != b[n - 1] {
            assert(longer[longer.len() - 1] == (n - 1) as usize);
            assert forall|i: int| 0 <= i < n && a[i] != b[i] implies longer.contains(
                i as usize,
            ) by {
                if i < n - 1 {
                    let k = choose|k: int| 0 <= k < shorter.len() && shorter[k] == i as usize;
                    assert(longer[k] == i as usize);
                } else {
                    assert(longer[longer.len() - 1] == i as usize);
                }
            }
        }
    }
}

/// Comparing in either direction finds the same offsets.
pub proof fn lemma_differing_below_symmetric(a: Seq<u8>, b: Seq<u8>, n: nat)
    ensures
        differing_below(a, b, n) == differing_below(b, a, n),
    decreases n,
{
    if n > 0 {
        lemma_differing_below_symmetric(a, b, (n - 1) as nat);
    }
}

/// The comparison of two reports of equal length does not depend on the
/// order of its arguments.
pub proof fn lemma_diff_symmetric(a: Seq<u8>, b: Seq<u8>)
    requires
        a.len() == b.len(),
    ensures
        differing_positions(a, b) == differing_positions(b, a),
        report_delta(a, b) == report_delta(b, a),
{
    lemma_differing_below_symmetric(a, b, a.len());
    assert(report_delta(a, b) =~= report_delta(b, a));
}

/// A report compared with itself differs nowhere below `n`.
pub proof fn lemma_differing_below_self(a: Seq<u8>, n: nat)
    ensures
        differing_below(a, a, n) == Seq::<usize>::empty(),
    decreases n,
{
    if n > 0 {
        lemma_differing_below_self(a, (n - 1) as nat);
    }
}

/// A report compared with itself differs nowhere.
pub proof fn lemma_diff_self_empty(a: Seq<u8>)
    ensures
        differing_positions(a, a) == Seq::<usize>::empty(),
        report_delta(a, a) == Set::<int>::empty(),
{
    lemma_differing_below_self(a, a.len());
    assert(report_delta(a, a) =~= Set::<int>::empty());
}

/// Two reports of equal length are different as a whole exactly when they
/// differ at some offset.
pub proof fn lemma_changed_iff_some_offset_differs(a: Seq<u8>, b: Seq<u8>)
    requires
        a.len() == b.len(),
        a.len() <= usize::MAX,
    ensures
        a != b <==> differing_positions(a, b).len() > 0,
        a != b <==> !report_delta(a, b).is_empty(),
{
    lemma_differing_below(a, b, a.len());
    let d = differing_positions(a, b);
    if a != b {
        assert(!(a =~= b));
        let i = choose|i: int| 0 <= i < a.len() && a[i] != b[i];
        assert(d.contains(i as usize));
        assert(report_delta(a, b).contains(i));
    } else {
        lemma_diff_self_empty(a);
    }
    if d.len() > 0 {
        let p = d[0];
        assert(a[p as int] != b[p as int]);
    }
    if !report_delta(a, b).is_empty() {
        let i = choose|i: int| report_delta(a, b).contains(i);
        assert(a[i] != b[i]);
    }
}

/// The listed offsets, taken as a set, are the delta of the two reports.
pub proof fn lemma_positions_are_delta(a: Seq<u8>, b: Seq<u8>)
    requires
        a.len() == b.len(),
        a.len() <= usize::MAX,
    ensures
        differing_positions(a, b).map_values(|p: usize| p as int).to_set() == report_delta(a, b),
{
    lemma_differing_below(a, b, a.len());
    let d = differing_positions(a, b);
    let s = d.map_values(|p: usize| p as int);
    assert forall|i: int| s.to_set().contains(i) <==> report_delta(a, b).contains(i) by {
        if s.to_set().contains(i) {
            let k = choose|k: int| 0 <= k < s.len() && s[k] == i;
            assert(d[k] as int == i);
        }
        if report_delta(a, b).contains(i) {
            assert(d.contains(i as usize));
            let k = choose|k: int| 0 <= k < d.len() && d[k] == i as usize;
            assert(s[k] == i);
        }
    }
    assert(s.to_set() =~= report_delta(a, b));
}

/// Lists every offset at which `a` and `b` hold different bytes, in
/// ascending order. Both reports must have the same length.
pub fn compare_byte_arrays(a: &[u8], b: &[u8]) -> (positions: Vec<usize>)
    requires
        a@.len() == b@.len(),
    ensures
        positions@ == differing_positions(a@, b@),
        positions@.map_values(|p: usize| p as int).to_set() == report_delta(a@, b@),
        positions@.len() <= a@.len(),
        forall|i: int|
            0 <= i < a@.len() ==> (positions@.contains(i as usize) <==> a@[i] != b@[i]),
        forall|j: int, k: int| 0 <= j < k < positions@.len() ==> positions@[j] < positions@[k],
{
    let mut positions: Vec<usize> = Vec::new();
    let n: usize = a.len();
    let mut i: usize = 0;
    while i < n
        invariant
            n == a@.len(),
            n == b@.len(),
            i <= n,
            positions@ == differing_below(a@, b@, i as nat),
        decreases n - i,
    {
        if a[i] != b[i] {
            positions.push(i);
        }
        i += 1;
    }
    proof {
        lemma_differing_below(a@, b@, n as nat);
        lemma_positions_are_delta(a@, b@);
        assert forall|i: int| 0 <= i < a@.len() && positions@.contains(i as usize) implies a@[i]
            != b@[i] by {
            let k = choose|k: int| 0 <= k < positions@.len() && positions@[k] == i as usize;
            assert(positions@[k] as int == i);
        }
    }
    positions
}

/// Lists the offsets at which `a` and `b` differ, or answers `None` when the
/// two do not have the same length and so cannot be compared.
pub fn try_compare_byte_arrays(a: &[u8], b: &[u8]) -> (outcome: Option<Vec<usize>>)
    ensures
        outcome.is_some() <==> a@.len() == b@.len(),
        outcome matches Some(positions) ==> positions@ == differing_positions(a@, b@),
{
    if a.len() != b.len() {
        None
    } else {
        Some(compare_byte_arrays(a, b))
    }
}

/// Whether two reports differ as a whole.
pub fn has_changed(a: &[u8], b: &[u8]) -> (changed: bool)
    ensures
        changed == (a@ != b@),
{
    let n: usize = a.len();
    if n != b.len() {
        return true;
    }
    let mut i: usize = 0;
    while i < n
        invariant
            n == a@.len(),
            n == b@.len(),
            i <= n,
            forall|k: int| 0 <= k < i ==> a@[k] == b@[k],
        decreases n - i,
    {
        if a[i] != b[i] {
            return true;
        }
        i += 1;
    }
    assert(a@ =~= b@);
    false
}

} // verus!
