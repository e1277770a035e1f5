//! Orderings of a brick list by integer keys.

use vstd::prelude::*;

verus! {

/// Seven integer key components and the position of the item they belong to.
pub type SortKey = (i64, i64, i64, i64, i64, i64, i64, usize);

/// Lexicographic order on keys, as `Ord` orders tuples.
pub open spec fn key_lt(a: SortKey, b: SortKey) -> bool {
    if a.0 != b.0 {
        a.0 < b.0
    } else if a.1 != b.1 {
        a.1 < b.1
    } else if a.2 != b.2 {
        a.2 < b.2
    } else if a.3 != b.3 {
        a.3 < b.3
    } else if a.4 != b.4 {
        a.4 < b.4
    } else if a.5 != b.5 {
        a.5 < b.5
    } else if a.6 != b.6 {
        a.6 < b.6
    } else {
        a.7 < b.7
    }
}

pub open spec fn key_le(a: SortKey, b: SortKey) -> bool {
    key_lt(a, b) || a == b
}

/// The seven components that exclude the position.
pub open spec fn key_head(a: SortKey) -> (i64, i64, i64, i64, i64, i64, i64) {
    (a.0, a.1, a.2, a.3, a.4, a.5, a.6)
}

/// `o` lists every position `0..keys.len()` once, in increasing key order.
pub open spec fn is_key_order(keys: Seq<SortKey>, o: Seq<usize>) -> bool {
    &&& o.len() == keys.len()
    &&& forall|k: int| 0 <= k < o.len() ==> #[trigger] o[k] < keys.len()
    &&& forall|k: int, l: int|
        0 <= k < l < o.len() ==> key_lt(#[trigger] keys[o[k] as int], #[trigger] keys[o[l] as int])
    &&& forall|i: int| 0 <= i < keys.len() ==> #[trigger] lists(o, i)
}

/// Position `i` occurs in `o`.
pub open spec fn lists(o: Seq<usize>, i: int) -> bool {
    exists|k: int| 0 <= k < o.len() && o[k] == i
}

/// Relies on `slice::sort_unstable`: the keys end up in ascending order of
/// `Ord` for tuples, which is lexicographic, and they are the same keys.
#[verifier::external_body]
fn sort_keys(v: &mut Vec<SortKey>)
    ensures
        final(v)@.to_multiset() == old(v)@.to_multiset(),
        forall|i: int, j: int|
            0 <= i < j < final(v)@.len() ==> key_le(#[trigger] final(v)@[i], #[trigger] final(v)@[j]),
{
    v.sort_unstable();
}

/// The positions of `keys` in increasing key order; each key's last component
/// is its own position.
pub fn sorted_order(keys: Vec<SortKey>) -> (o: Vec<usize>)
    requires
        forall|i: int| 0 <= i < keys@.len() ==> (#[trigger] keys@[i]).7 == i,
    ensures
        is_key_order(keys@, o@),
{
    let ghost orig = keys@;
    let mut s = keys;
    sort_keys(&mut s);
    let ghost sorted = s@;
    proof {
        broadcast use vstd::seq_lib::group_to_multiset_ensures;

        assert(orig.no_duplicates()) by {
            assert forall|i: int, j: int| 0 <= i < orig.len() && 0 <= j < orig.len() && i != j
                implies orig[i] != orig[j] by {
                assert(orig[i].7 == i);
                assert(orig[j].7 == j);
            }
        }
        orig.lemma_multiset_has_no_duplicates();
        sorted.lemma_multiset_has_no_duplicates_conv();
        assert forall|k: int| 0 <= k < sorted.len() implies sorted[k].7 < orig.len()
            && orig[sorted[k].7 as int] == sorted[k] by {
            assert(sorted.to_multiset().count(sorted[k]) > 0);
            assert(orig.contains(sorted[k]));
            let m = choose|m: int| 0 <= m < orig.len() && orig[m] == sorted[k];
            assert(orig[m].7 == m);
        }
    }
    let mut o: Vec<usize> = Vec::new();
    let mut k: usize = 0;
    while k < s.len()
        invariant
            s@ == sorted,
            0 <= k <= s.len(),
            o@.len() == k,
            forall|j: int| 0 <= j < k ==> #[trigger] o@[j] == sorted[j].7,
        decreases s.len() - k,
    {
        o.push(s[k].7);
        k += 1;
    }
    proof {
        broadcast use vstd::seq_lib::group_to_multiset_ensures;

        assert(sorted.len() == orig.len()) by {
            assert(sorted.to_multiset().len() == orig.to_multiset().len());
        }
        assert forall|a: int, b: int| 0 <= a < b < o@.len() implies key_lt(
            #[trigger] orig[o@[a] as int],
            #[trigger] orig[o@[b] as int],
        ) by {
            assert(key_le(sorted[a], sorted[b]));
            assert(sorted[a] != sorted[b]);
        }
        assert forall|i: int| 0 <= i < orig.len() implies #[trigger] lists(o@, i) by {
            assert(orig.to_multiset().count(orig[i]) > 0);
            assert(sorted.contains(orig[i]));
            let m = choose|m: int| 0 <= m < sorted.len() && sorted[m] == orig[i];
            assert(orig[i].7 == i);
            assert(o@[m] == i);
        }
    }
    o
}

} // verus!
