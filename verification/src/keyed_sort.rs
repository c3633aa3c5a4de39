//! Directory listings ordered directories first, then by lowercase name:
//! a stable merge sort over entry positions with a proven total order on
//! names.
use vstd::prelude::*;
use vstd::multiset::Multiset;
use crate::object_registry::SortableEntry;
use crate::fs_state::is_index_permutation;

verus! {

/// A directory entry with the keys it is listed by.
#[derive(Debug, Clone)]
pub struct KeyedEntry {
    pub entry: SortableEntry,
    pub is_dir: bool,
    /// The lowercase name
    pub name_key: String,
}

/// `char::to_ascii_lowercase`: ASCII capitals become small letters.
pub open spec fn ascii_lower_char(c: char) -> char {
    if 65 <= c as u32 <= 90 {
        ((c as u32) + 32) as char
    } else {
        c
    }
}

/// `str::to_ascii_lowercase`.
pub open spec fn ascii_lower(s: Seq<char>) -> Seq<char> {
    s.map_values(|c: char| ascii_lower_char(c))
}

impl KeyedEntry {
    /// An entry keyed by whether it is a directory and by its name in ASCII
    /// lowercase.
    pub fn new(entry: SortableEntry, is_dir: bool, name: &str) -> (r: Self)
        ensures
            r.entry == entry,
            r.is_dir == is_dir,
            r.name_key@ == ascii_lower(name@),
    {
        let cs = crate::text::chars_of(name);
        let mut out: Vec<char> = Vec::new();
        let mut i: usize = 0;
        while i < cs.len()
            invariant
                i <= cs.len(),
                cs@ == name@,
                out@ == ascii_lower(name@.take(i as int)),
            decreases cs.len() - i,
        {
            let c = cs[i];
            let u = c as u32;
            let l: char = if 65 <= u && u <= 90 {
                assert(97 <= u + 32 <= 122);
                ((u + 32) as u8) as char
            } else {
                c
            };
            assert(l == ascii_lower_char(c));
            out.push(l);
            assert(ascii_lower(name@.take(i + 1)) =~= ascii_lower(name@.take(i as int)).push(ascii_lower_char(c)));
            i = i + 1;
        }
        assert(name@.take(cs.len() as int) =~= name@);
        KeyedEntry { entry, is_dir, name_key: crate::text::string_of(out.as_slice()) }
    }
}

/* ============================ Name order ============================= */

/// `a` comes before `b` in the order of `String`'s comparison: character by
/// character, a proper prefix first.
pub open spec fn name_lt(a: Seq<char>, b: Seq<char>) -> bool
    decreases a.len(),
{
    if a.len() == 0 {
        b.len() > 0
    } else if b.len() == 0 {
        false
    } else if a[0] != b[0] {
        (a[0] as u32) < (b[0] as u32)
    } else {
        name_lt(a.drop_first(), b.drop_first())
    }
}

proof fn lemma_name_lt_irreflexive(a: Seq<char>)
    ensures
        !name_lt(a, a),
    decreases a.len(),
{
    if a.len() > 0 {
        lemma_name_lt_irreflexive(a.drop_first());
    }
}

proof fn lemma_name_lt_transitive(a: Seq<char>, b: Seq<char>, c: Seq<char>)
    requires
        name_lt(a, b),
        name_lt(b, c),
    ensures
        name_lt(a, c),
    decreases a.len(),
{
    if a.len() > 0 && b.len() > 0 && c.len() > 0 && a[0] == b[0] && b[0] == c[0] {
        lemma_name_lt_transitive(a.drop_first(), b.drop_first(), c.drop_first());
    }
}

proof fn lemma_name_lt_total(a: Seq<char>, b: Seq<char>)
    ensures
        name_lt(a, b) || name_lt(b, a) || a == b,
    decreases a.len(),
{
    if a.len() > 0 && b.len() > 0 && a[0] == b[0] {
        lemma_name_lt_total(a.drop_first(), b.drop_first());
        if a.drop_first() == b.drop_first() {
            assert(a =~= seq![a[0]] + a.drop_first());
            assert(b =~= seq![b[0]] + b.drop_first());
        }
    } else if a.len() == 0 && b.len() == 0 {
        assert(a =~= b);
    } else if a.len() > 0 && b.len() > 0 {
        let x = a[0] as u32;
        let y = b[0] as u32;
        assert(x != y) by {
            vstd::utf8::char_u32_cast(a[0], x);
            vstd::utf8::char_u32_cast(b[0], y);
        }
    }
}

proof fn lemma_name_lt_asymmetric(a: Seq<char>, b: Seq<char>)
    requires
        name_lt(a, b),
    ensures
        !name_lt(b, a),
{
    if name_lt(b, a) {
        lemma_name_lt_transitive(a, b, a);
        lemma_name_lt_irreflexive(a);
    }
}

/* ============================ Entry order ============================ */

/// The keys an entry is listed by.
pub open spec fn key_of(e: KeyedEntry) -> (bool, Seq<char>) {
    (e.is_dir, e.name_key@)
}

/// Directories before files; within each, by name.
pub open spec fn key_before(x: (bool, Seq<char>), y: (bool, Seq<char>)) -> bool {
    (x.0 && !y.0) || (x.0 == y.0 && name_lt(x.1, y.1))
}

proof fn lemma_key_order(x: (bool, Seq<char>), y: (bool, Seq<char>), z: (bool, Seq<char>))
    ensures
        !key_before(x, x),
        key_before(x, y) ==> !key_before(y, x),
        key_before(x, y) && key_before(y, z) ==> key_before(x, z),
        key_before(x, y) || key_before(y, x) || x == y,
{
    lemma_name_lt_irreflexive(x.1);
    if key_before(x, y) {
        if x.0 == y.0 {
            lemma_name_lt_asymmetric(x.1, y.1);
        }
    }
    if key_before(x, y) && key_before(y, z) && x.0 == y.0 && y.0 == z.0 {
        lemma_name_lt_transitive(x.1, y.1, z.1);
    }
    lemma_name_lt_total(x.1, y.1);
}

/// Position `i` is listed no later than position `j`: its key comes first,
/// or the keys are equal and `i` is not after `j`.
pub open spec fn pos_le(keys: Seq<(bool, Seq<char>)>, i: usize, j: usize) -> bool {
    key_before(keys[i as int], keys[j as int]) || (keys[i as int] == keys[j as int] && i <= j)
}

pub open spec fn positions_sorted(keys: Seq<(bool, Seq<char>)>, s: Seq<usize>) -> bool {
    forall|a: int, b: int| 0 <= a < b < s.len() ==> pos_le(keys, #[trigger] s[a], #[trigger] s[b])
}

proof fn lemma_pos_le(keys: Seq<(bool, Seq<char>)>, i: usize, j: usize, k: usize)
    requires
        i < keys.len(),
        j < keys.len(),
        k < keys.len(),
    ensures
        pos_le(keys, i, j) && pos_le(keys, j, k) ==> pos_le(keys, i, k),
        pos_le(keys, i, j) || pos_le(keys, j, i),
        pos_le(keys, i, j) && pos_le(keys, j, i) ==> i == j,
{
    lemma_key_order(keys[i as int], keys[j as int], keys[k as int]);
    lemma_key_order(keys[j as int], keys[i as int], keys[k as int]);
    lemma_key_order(keys[i as int], keys[k as int], keys[j as int]);
    lemma_key_order(keys[j as int], keys[k as int], keys[i as int]);
    lemma_key_order(keys[k as int], keys[i as int], keys[j as int]);
}

/// `out` lists the entries of `inp` directories first and by name, entries
/// with equal keys in their original order.
pub open spec fn is_listing_of(out: Seq<SortableEntry>, inp: Seq<KeyedEntry>) -> bool {
    exists|perm: Seq<int>|
        #[trigger] is_index_permutation(perm, inp.len() as int) && out.len() == inp.len() && (forall|i: int|
            0 <= i < out.len() ==> out[i] == inp[perm[i]].entry) && (forall|i: int, j: int|
            0 <= i < j < out.len() ==> key_before(key_of(#[trigger] inp[perm[i]]), key_of(
                #[trigger] inp[perm[j]],
            )) || (key_of(inp[perm[i]]) == key_of(inp[perm[j]]) && perm[i] < perm[j]))
}

/* ============================== Code ================================= */

fn name_lt_exec(a: &[char], b: &[char]) -> (r: bool)
    ensures
        r == name_lt(a@, b@),
{
    let mut i: usize = 0;
    assert(a@.skip(0) =~= a@);
    assert(b@.skip(0) =~= b@);
    while i < a.len() && i < b.len() && a[i] == b[i]
        invariant
            i <= a.len(),
            i <= b.len(),
            name_lt(a@, b@) == name_lt(a@.skip(i as int), b@.skip(i as int)),
        decreases a.len() - i,
    {
        assert(a@.skip(i as int).drop_first() =~= a@.skip(i + 1));
        assert(b@.skip(i as int).drop_first() =~= b@.skip(i + 1));
        i = i + 1;
    }
    if i == a.len() {
        i < b.len()
    } else if i == b.len() {
        false
    } else {
        (a[i] as u32) < (b[i] as u32)
    }
}

fn pos_le_exec(dirs: &[bool], names: &[Vec<char>], keys: Ghost<Seq<(bool, Seq<char>)>>, i: usize, j: usize) -> (r: bool)
    requires
        dirs@.len() == names@.len() == keys@.len(),
        forall|k: int| 0 <= k < keys@.len() ==> #[trigger] keys@[k] == (dirs@[k], names@[k]@),
        i < keys@.len(),
        j < keys@.len(),
    ensures
        r == pos_le(keys@, i, j),
{
    let di = dirs[i];
    let dj = dirs[j];
    if di && !dj {
        return true;
    }
    if di != dj {
        return false;
    }
    let lt = name_lt_exec(names[i].as_slice(), names[j].as_slice());
    if lt {
        return true;
    }
    let gt = name_lt_exec(names[j].as_slice(), names[i].as_slice());
    proof {
        lemma_name_lt_total(names@[i as int]@, names@[j as int]@);
    }
    !gt && i <= j
}

proof fn lemma_ms_add_insert(a: Multiset<usize>, b: Multiset<usize>, x: usize)
    ensures
        a.insert(x).add(b) =~= a.add(b).insert(x),
        a.add(b.insert(x)) =~= a.add(b).insert(x),
{
    broadcast use vstd::multiset::group_multiset_axioms;

}

fn merge_positions(
    dirs: &[bool],
    names: &[Vec<char>],
    keys: Ghost<Seq<(bool, Seq<char>)>>,
    a: &[usize],
    b: &[usize],
) -> (r: Vec<usize>)
    requires
        dirs@.len() == names@.len() == keys@.len(),
        forall|k: int| 0 <= k < keys@.len() ==> #[trigger] keys@[k] == (dirs@[k], names@[k]@),
        forall|k: int| 0 <= k < a@.len() ==> #[trigger] a@[k] < keys@.len(),
        forall|k: int| 0 <= k < b@.len() ==> #[trigger] b@[k] < keys@.len(),
        positions_sorted(keys@, a@),
        positions_sorted(keys@, b@),
    ensures
        positions_sorted(keys@, r@),
        r@.to_multiset() == a@.to_multiset().add(b@.to_multiset()),
        r@.len() == a@.len() + b@.len(),
        forall|k: int| 0 <= k < r@.len() ==> #[trigger] r@[k] < keys@.len(),
{
    broadcast use vstd::seq_lib::group_to_multiset_ensures;
    broadcast use vstd::multiset::group_multiset_axioms;

    let mut r: Vec<usize> = Vec::new();
    let mut i: usize = 0;
    let mut j: usize = 0;
    assert(a@.take(0) =~= Seq::<usize>::empty());
    assert(b@.take(0) =~= Seq::<usize>::empty());
    assert(r@.to_multiset() =~= a@.take(0).to_multiset().add(b@.take(0).to_multiset()));
    while i < a.len() || j < b.len()
        invariant
            dirs@.len() == names@.len() == keys@.len(),
            forall|k: int| 0 <= k < keys@.len() ==> #[trigger] keys@[k] == (dirs@[k], names@[k]@),
            forall|k: int| 0 <= k < a@.len() ==> #[trigger] a@[k] < keys@.len(),
            forall|k: int| 0 <= k < b@.len() ==> #[trigger] b@[k] < keys@.len(),
            i <= a.len(),
            j <= b.len(),
            positions_sorted(keys@, a@),
            positions_sorted(keys@, b@),
            positions_sorted(keys@, r@),
            r@.len() == i + j,
            forall|k: int| 0 <= k < r@.len() ==> #[trigger] r@[k] < keys@.len(),
            r@.to_multiset() == a@.take(i as int).to_multiset().add(b@.take(j as int).to_multiset()),
            forall|k: int| 0 <= k < r@.len() ==> (i < a.len() ==> pos_le(keys@, #[trigger] r@[k], a@[i as int])),
            forall|k: int| 0 <= k < r@.len() ==> (j < b.len() ==> pos_le(keys@, #[trigger] r@[k], b@[j as int])),
        decreases a.len() + b.len() - i - j,
    {
        let take_a = if j >= b.len() {
            true
        } else if i < a.len() {
            pos_le_exec(dirs, names, keys, a[i], b[j])
        } else {
            false
        };
        if take_a {
            let x = a[i];
            let ghost old_r = r@;
            r.push(x);
            assert(a@.take(i + 1) =~= a@.take(i as int).push(x));
            proof {
                assert(r@ == old_r.push(x));
                old_r.to_multiset_ensures();
                a@.take(i as int).to_multiset_ensures();
                lemma_ms_add_insert(a@.take(i as int).to_multiset(), b@.take(j as int).to_multiset(), x);
                if j < b.len() {
                    lemma_pos_le(keys@, x, b@[j as int], x);
                }
                assert forall|k: int| 0 <= k < r@.len() && i + 1 < a.len() implies pos_le(keys@, #[trigger] r@[k], a@[i + 1]) by {
                    assert(pos_le(keys@, a@[i as int], a@[i + 1]));
                    if k < old_r.len() {
                        lemma_pos_le(keys@, r@[k], a@[i as int], a@[i + 1]);
                    }
                }
                assert forall|k: int| 0 <= k < r@.len() && j < b.len() implies pos_le(keys@, #[trigger] r@[k], b@[j as int]) by {
                }
                assert forall|p: int, q: int| 0 <= p < q < r@.len() implies pos_le(keys@, #[trigger] r@[p], #[trigger] r@[q]) by {
                    if q == r@.len() - 1 {
                        assert(pos_le(keys@, old_r[p], x));
                    }
                }
            }
            i = i + 1;
        } else {
            let x = b[j];
            let ghost old_r = r@;
            r.push(x);
            assert(b@.take(j + 1) =~= b@.take(j as int).push(x));
            proof {
                assert(r@ == old_r.push(x));
                old_r.to_multiset_ensures();
                b@.take(j as int).to_multiset_ensures();
                lemma_ms_add_insert(a@.take(i as int).to_multiset(), b@.take(j as int).to_multiset(), x);
                if i < a.len() {
                    lemma_pos_le(keys@, a@[i as int], x, x);
                }
                assert forall|k: int| 0 <= k < r@.len() && j + 1 < b.len() implies pos_le(keys@, #[trigger] r@[k], b@[j + 1]) by {
                    assert(pos_le(keys@, b@[j as int], b@[j + 1]));
                    if k < old_r.len() {
                        lemma_pos_le(keys@, r@[k], b@[j as int], b@[j + 1]);
                    }
                }
                assert forall|k: int| 0 <= k < r@.len() && i < a.len() implies pos_le(keys@, #[trigger] r@[k], a@[i as int]) by {
                }
                assert forall|p: int, q: int| 0 <= p < q < r@.len() implies pos_le(keys@, #[trigger] r@[p], #[trigger] r@[q]) by {
                    if q == r@.len() - 1 {
                        assert(pos_le(keys@, old_r[p], x));
                    }
                }
            }
            j = j + 1;
        }
    }
    assert(a@.take(a.len() as int) =~= a@);
    assert(b@.take(b.len() as int) =~= b@);
    r
}

fn sort_positions(
    dirs: &[bool],
    names: &[Vec<char>],
    keys: Ghost<Seq<(bool, Seq<char>)>>,
    v: &[usize],
) -> (r: Vec<usize>)
    requires
        dirs@.len() == names@.len() == keys@.len(),
        forall|k: int| 0 <= k < keys@.len() ==> #[trigger] keys@[k] == (dirs@[k], names@[k]@),
        forall|k: int| 0 <= k < v@.len() ==> #[trigger] v@[k] < keys@.len(),
    ensures
        positions_sorted(keys@, r@),
        r@.to_multiset() == v@.to_multiset(),
        r@.len() == v@.len(),
        forall|k: int| 0 <= k < r@.len() ==> #[trigger] r@[k] < keys@.len(),
    decreases v.len(),
{
    if v.len() <= 1 {
        let mut r: Vec<usize> = Vec::new();
        if v.len() == 1 {
            r.push(v[0]);
            assert(r@ =~= v@);
        } else {
            assert(r@ =~= v@);
        }
        return r;
    }
    let mid = v.len() / 2;
    let (left, right) = v.split_at(mid);
    let ls = sort_positions(dirs, names, keys, left);
    let rs = sort_positions(dirs, names, keys, right);
    let r = merge_positions(dirs, names, keys, ls.as_slice(), rs.as_slice());
    proof {
        assert(v@ =~= left@ + right@);
        vstd::seq_lib::lemma_multiset_commutative(left@, right@);
    }
    r
}

proof fn lemma_positions_permutation(s: Seq<usize>, n: nat)
    requires
        s.to_multiset() == Seq::new(n, |i: int| i as usize).to_multiset(),
        n <= usize::MAX + 1,
        s.len() == n,
    ensures
        forall|k: int| 0 <= k < s.len() ==> #[trigger] s[k] < n,
        forall|p: int, q: int| 0 <= p < q < s.len() ==> #[trigger] s[p] != #[trigger] s[q],
{
    broadcast use vstd::seq_lib::group_to_multiset_ensures;

    let ids = Seq::new(n, |i: int| i as usize);
    assert forall|k: int| 0 <= k < s.len() implies #[trigger] s[k] < n by {
        assert(s.to_multiset().count(s[k]) > 0);
        assert(ids.to_multiset().count(s[k]) > 0);
        assert(ids.contains(s[k]));
    }
    assert forall|p: int, q: int| 0 <= p < q < s.len() implies #[trigger] s[p] != #[trigger] s[q] by {
        if s[p] == s[q] {
            let x = s[p];
            lemma_count_ids(n, x);
            lemma_count_two(s, p, q);
        }
    }
}

proof fn lemma_count_ids(n: nat, x: usize)
    requires
        n <= usize::MAX + 1,
    ensures
        Seq::new(n, |i: int| i as usize).to_multiset().count(x) <= 1,
    decreases n,
{
    broadcast use vstd::seq_lib::group_to_multiset_ensures;

    if n > 0 {
        let ids = Seq::new(n, |i: int| i as usize);
        let prev = Seq::new((n - 1) as nat, |i: int| i as usize);
        assert(ids =~= prev.push((n - 1) as usize));
        lemma_count_ids((n - 1) as nat, x);
        if x == (n - 1) as usize {
            assert(!prev.contains(x));
            assert(prev.to_multiset().count(x) == 0);
        }
    }
}

proof fn lemma_count_two(s: Seq<usize>, p: int, q: int)
    requires
        0 <= p < q < s.len(),
        s[p] == s[q],
    ensures
        s.to_multiset().count(s[p]) >= 2,
    decreases s.len(),
{
    broadcast use vstd::seq_lib::group_to_multiset_ensures;

    if q < s.len() - 1 {
        lemma_count_two(s.drop_last(), p, q);
        assert(s =~= s.drop_last().push(s.last()));
    } else {
        let t = s.drop_last();
        assert(s =~= t.push(s.last()));
        assert(t.contains(s[p]));
        assert(t.to_multiset().count(s[p]) >= 1);
    }
}

/// Lists entries directories first and then by name, keeping the original
/// order of entries whose keys are equal (a stable sort).
pub fn sort_dirs_first(entries: &[KeyedEntry]) -> (r: Vec<SortableEntry>)
    ensures
        is_listing_of(r@, entries@),
{
    let n = entries.len();
    let mut dirs: Vec<bool> = Vec::new();
    let mut names: Vec<Vec<char>> = Vec::new();
    let mut ids: Vec<usize> = Vec::new();
    let ghost keys = entries@.map_values(|e: KeyedEntry| key_of(e));
    let mut i: usize = 0;
    while i < n
        invariant
            i <= n == entries@.len(),
            keys == entries@.map_values(|e: KeyedEntry| key_of(e)),
            dirs@.len() == i,
            names@.len() == i,
            ids@ == Seq::new(i as nat, |k: int| k as usize),
            forall|k: int| 0 <= k < i ==> #[trigger] keys[k] == (dirs@[k], names@[k]@),
        decreases n - i,
    {
        dirs.push(entries[i].is_dir);
        names.push(crate::text::chars_of(entries[i].name_key.as_str()));
        ids.push(i);
        assert(ids@ =~= Seq::new((i + 1) as nat, |k: int| k as usize));
        i = i + 1;
    }
    let sorted = sort_positions(dirs.as_slice(), names.as_slice(), Ghost(keys), ids.as_slice());
    proof {
        lemma_positions_permutation(sorted@, n as nat);
    }
    let mut out: Vec<SortableEntry> = Vec::new();
    let mut k: usize = 0;
    while k < n
        invariant
            k <= n == entries@.len() == sorted@.len(),
            forall|p: int| 0 <= p < sorted@.len() ==> #[trigger] sorted@[p] < n,
            out@.len() == k,
            forall|p: int| 0 <= p < k ==> #[trigger] out@[p] == entries@[sorted@[p] as int].entry,
        decreases n - k,
    {
        out.push(entries[sorted[k]].entry);
        k = k + 1;
    }
    proof {
        let perm = sorted@.map_values(|x: usize| x as int);
        assert(is_index_permutation(perm, n as int));
        assert forall|p: int, q: int| 0 <= p < q < out@.len() implies key_before(
            key_of(#[trigger] entries@[perm[p]]),
            key_of(#[trigger] entries@[perm[q]]),
        ) || (key_of(entries@[perm[p]]) == key_of(entries@[perm[q]]) && perm[p] < perm[q]) by {
            assert(pos_le(keys, sorted@[p], sorted@[q]));
            assert(keys[sorted@[p] as int] == key_of(entries@[perm[p]]));
            assert(keys[sorted@[q] as int] == key_of(entries@[perm[q]]));
        }
    }
    out
}

} // verus!
