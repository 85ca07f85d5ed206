//! Association lists keyed by account name. Royalty tables, approval sets
//! and payout breakdowns are all small key/value mappings; they are held as
//! vectors of pairs with unique keys, in insertion order.

use vstd::prelude::*;

verus! {

/// No key occurs twice.
pub open spec fn pairs_unique<V>(s: Seq<(String, V)>) -> bool {
    forall|i: int, j: int| 0 <= i < j < s.len() ==> s[i].0@ != s[j].0@
}

/// Some entry carries the key `k`.
pub open spec fn pairs_has<V>(s: Seq<(String, V)>, k: Seq<char>) -> bool {
    exists|i: int| 0 <= i < s.len() && s[i].0@ == k
}

/// The position of the entry with key `k` (meaningful under `pairs_has`
/// and pinned down under `pairs_unique`).
pub open spec fn pairs_idx<V>(s: Seq<(String, V)>, k: Seq<char>) -> int {
    choose|i: int| 0 <= i < s.len() && s[i].0@ == k
}

/// The value stored under `k`.
pub open spec fn pairs_get<V>(s: Seq<(String, V)>, k: Seq<char>) -> V {
    s[pairs_idx(s, k)].1
}

/// Linear lookup by key.
pub fn pairs_find<V: Copy>(v: &Vec<(String, V)>, key: &String) -> (r: Option<V>)
    ensures
        r is Some <==> pairs_has(v@, key@),
        r matches Some(val) ==> exists|i: int|
            0 <= i < v@.len() && v@[i].0@ == key@ && v@[i].1 == val,
        pairs_unique(v@) ==> (r matches Some(val) ==> val == pairs_get(v@, key@)),
{
    let n = v.len();
    let mut i: usize = 0;
    while i < n
        invariant
            n == v@.len(),
            0 <= i <= n,
            forall|k: int| 0 <= k < i ==> v@[k].0@ != key@,
        decreases n - i,
    {
        if v[i].0 == *key {
            proof {
                if pairs_unique(v@) {
                    let j = pairs_idx(v@, key@);
                    assert(0 <= j < v@.len() && v@[j].0@ == key@);
                    assert(j == i);
                }
            }
            return Some(v[i].1);
        }
        i = i + 1;
    }
    None
}

/// Linear lookup of the position of a key.
pub fn pairs_find_index<V: Copy>(v: &Vec<(String, V)>, key: &String) -> (r: Option<usize>)
    ensures
        r is Some <==> pairs_has(v@, key@),
        r matches Some(i) ==> i < v@.len() && v@[i as int].0@ == key@,
        pairs_unique(v@) ==> (r matches Some(i) ==> i == pairs_idx(v@, key@)),
{
    let n = v.len();
    let mut i: usize = 0;
    while i < n
        invariant
            n == v@.len(),
            0 <= i <= n,
            forall|k: int| 0 <= k < i ==> v@[k].0@ != key@,
        decreases n - i,
    {
        if v[i].0 == *key {
            proof {
                if pairs_unique(v@) {
                    let j = pairs_idx(v@, key@);
                    assert(0 <= j < v@.len() && v@[j].0@ == key@);
                    assert(j == i);
                }
            }
            return Some(i);
        }
        i = i + 1;
    }
    None
}

/// Whether every key occurs at most once.
pub fn pairs_unique_check<V: Copy>(v: &Vec<(String, V)>) -> (r: bool)
    ensures
        r == pairs_unique(v@),
{
    let n = v.len();
    let mut i: usize = 0;
    while i < n
        invariant
            n == v@.len(),
            0 <= i <= n,
            forall|a: int, b: int| 0 <= a < b < i ==> v@[a].0@ != v@[b].0@,
        decreases n - i,
    {
        let mut j: usize = 0;
        while j < i
            invariant
                n == v@.len(),
                0 <= j <= i < n,
                forall|k: int| 0 <= k < j ==> v@[k].0@ != v@[i as int].0@,
            decreases i - j,
        {
            if v[j].0 == v[i].0 {
                assert(!pairs_unique(v@));
                return false;
            }
            j = j + 1;
        }
        i = i + 1;
    }
    true
}

/// An element-exact copy of an association list.
pub fn clone_pairs<V: Copy>(v: &Vec<(String, V)>) -> (r: Vec<(String, V)>)
    ensures
        r@ == v@,
{
    let n = v.len();
    let mut out: Vec<(String, V)> = Vec::new();
    let mut i: usize = 0;
    while i < n
        invariant
            n == v@.len(),
            0 <= i <= n,
            out@ == v@.take(i as int),
        decreases n - i,
    {
        let key = v[i].0.clone();
        let val = v[i].1;
        out.push((key, val));
        proof {
            assert(out@ =~= v@.take(i + 1));
        }
        i = i + 1;
    }
    proof {
        assert(out@ =~= v@);
    }
    out
}

} // verus!
