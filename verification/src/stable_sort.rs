//! Merge sort of `(key, position)` pairs, the engine behind the stable
//! ordering of directory entries.
use vstd::prelude::*;
use vstd::multiset::Multiset;

verus! {

/// Lexicographic order on `(key, position)` pairs.
pub open spec fn le_pair(a: (u64, usize), b: (u64, usize)) -> bool {
    a.0 < b.0 || (a.0 == b.0 && a.1 <= b.1)
}

/// Every earlier pair is lexicographically at most every later one.
pub open spec fn pairs_sorted(s: Seq<(u64, usize)>) -> bool {
    forall|i: int, j: int| 0 <= i < j < s.len() ==> le_pair(#[trigger] s[i], #[trigger] s[j])
}

fn copy_pairs(v: &[(u64, usize)]) -> (r: Vec<(u64, usize)>)
    ensures
        r@ == v@,
{
    let mut r: Vec<(u64, usize)> = Vec::new();
    let mut i: usize = 0;
    while i < v.len()
        invariant
            i <= v.len(),
            r@ == v@.take(i as int),
        decreases v.len() - i,
    {
        r.push(v[i]);
        assert(v@.take(i as int).push(v@[i as int]) =~= v@.take(i + 1));
        i = i + 1;
    }
    assert(v@.take(v.len() as int) =~= v@);
    r
}

proof fn lemma_ms_add_insert(a: Multiset<(u64, usize)>, b: Multiset<(u64, usize)>, x: (u64, usize))
    ensures
        a.insert(x).add(b) =~= a.add(b).insert(x),
        a.add(b.insert(x)) =~= a.add(b).insert(x),
{
    broadcast use vstd::multiset::group_multiset_axioms;

}

fn merge(a: &[(u64, usize)], b: &[(u64, usize)]) -> (r: Vec<(u64, usize)>)
    requires
        pairs_sorted(a@),
        pairs_sorted(b@),
    ensures
        pairs_sorted(r@),
        r@.to_multiset() == a@.to_multiset().add(b@.to_multiset()),
        r@.len() == a@.len() + b@.len(),
{
    broadcast use vstd::seq_lib::group_to_multiset_ensures;

    let mut r: Vec<(u64, usize)> = Vec::new();
    let mut i: usize = 0;
    let mut j: usize = 0;
    assert(a@.take(0) =~= Seq::<(u64, usize)>::empty());
    assert(b@.take(0) =~= Seq::<(u64, usize)>::empty());
    proof {
        broadcast use vstd::multiset::group_multiset_axioms;

        assert(r@.to_multiset() =~= a@.take(0).to_multiset().add(b@.take(0).to_multiset()));
    }
    while i < a.len() || j < b.len()
        invariant
            i <= a.len(),
            j <= b.len(),
            pairs_sorted(a@),
            pairs_sorted(b@),
            pairs_sorted(r@),
            r@.len() == i + j,
            r@.to_multiset() == a@.take(i as int).to_multiset().add(b@.take(j as int).to_multiset()),
            forall|k: int| 0 <= k < r@.len() ==> (i < a.len() ==> le_pair(#[trigger] r@[k], a@[i as int])),
            forall|k: int| 0 <= k < r@.len() ==> (j < b.len() ==> le_pair(#[trigger] r@[k], b@[j as int])),
        decreases a.len() + b.len() - i - j,
    {
        if j >= b.len() || (i < a.len() && le_pair_exec(a[i], b[j])) {
            let x = a[i];
            let ghost old_r = r@;
            r.push(x);
            assert(a@.take(i + 1) =~= a@.take(i as int).push(x));
            proof {
                old_r.to_multiset_ensures();
                a@.take(i as int).to_multiset_ensures();
                assert(r@ == old_r.push(x));
            }
            proof {
                lemma_ms_add_insert(a@.take(i as int).to_multiset(), b@.take(j as int).to_multiset(), x);
                assert forall|k: int| 0 <= k < r@.len() && i + 1 < a.len() implies le_pair(#[trigger] r@[k], a@[i + 1]) by {
                    assert(le_pair(a@[i as int], a@[i + 1]));
                }
            }
            i = i + 1;
        } else {
            let x = b[j];
            let ghost old_r = r@;
            r.push(x);
            assert(b@.take(j + 1) =~= b@.take(j as int).push(x));
            proof {
                old_r.to_multiset_ensures();
                b@.take(j as int).to_multiset_ensures();
                assert(r@ == old_r.push(x));
            }
            proof {
                lemma_ms_add_insert(a@.take(i as int).to_multiset(), b@.take(j as int).to_multiset(), x);
                assert forall|k: int| 0 <= k < r@.len() && j + 1 < b.len() implies le_pair(#[trigger] r@[k], b@[j + 1]) by {
                    assert(le_pair(b@[j as int], b@[j + 1]));
                }
            }
            j = j + 1;
        }
    }
    assert(a@.take(a.len() as int) =~= a@);
    assert(b@.take(b.len() as int) =~= b@);
    r
}

fn le_pair_exec(a: (u64, usize), b: (u64, usize)) -> (r: bool)
    ensures
        r == le_pair(a, b),
{
    a.0 < b.0 || (a.0 == b.0 && a.1 <= b.1)
}

/// Sorts pairs lexicographically; the result holds the same pairs.
pub fn sort_pairs(v: &[(u64, usize)]) -> (r: Vec<(u64, usize)>)
    ensures
        pairs_sorted(r@),
        r@.to_multiset() == v@.to_multiset(),
        r@.len() == v@.len(),
    decreases v.len(),
{
    if v.len() <= 1 {
        return copy_pairs(v);
    }
    let mid = v.len() / 2;
    let (left, right) = v.split_at(mid);
    let ls = sort_pairs(left);
    let rs = sort_pairs(right);
    let r = merge(ls.as_slice(), rs.as_slice());
    proof {
        assert(v@ =~= left@ + right@);
        vstd::seq_lib::lemma_multiset_commutative(left@, right@);
    }
    r
}

} // verus!
