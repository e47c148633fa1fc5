use vstd::prelude::*;

verus! {

/// Entry `a` comes before entry `b`: a smaller key, or an equal key and an earlier place.
pub open spec fn precedes(keys: Seq<i128>, a: int, b: int) -> bool {
    keys[a] < keys[b] || (keys[a] == keys[b] && a < b)
}

/// `ord` lists exactly the chosen entries, ascending by key, equal keys in their
/// order in the input.
pub open spec fn is_stable_order(keys: Seq<i128>, chosen: Seq<bool>, ord: Seq<usize>) -> bool {
    &&& forall|k: int| 0 <= k < ord.len() ==> ord[k] < keys.len() && chosen[ord[k] as int]
    &&& forall|j: int|
        0 <= j < keys.len() && chosen[j] ==> exists|k: int| 0 <= k < ord.len() && ord[k] == j
    &&& forall|k1: int, k2: int|
        0 <= k1 < k2 < ord.len() ==> precedes(keys, ord[k1] as int, ord[k2] as int)
}

/// The positions of the chosen entries, sorted ascending by key; entries with
/// equal keys keep their relative order.
pub fn stable_order(keys: &Vec<i128>, chosen: &Vec<bool>) -> (ord: Vec<usize>)
    requires
        keys.len() == chosen.len(),
    ensures
        is_stable_order(keys@, chosen@, ord@),
{
    let mut ord: Vec<usize> = Vec::new();
    let mut i: usize = 0;
    while i < keys.len()
        invariant
            i <= keys.len() == chosen.len(),
            forall|k: int| 0 <= k < ord.len() ==> ord[k] < i && chosen[ord[k] as int],
            forall|j: int|
                0 <= j < i && chosen[j] ==> exists|k: int| 0 <= k < ord.len() && ord[k] == j,
            forall|k1: int, k2: int|
                0 <= k1 < k2 < ord.len() ==> precedes(keys@, ord[k1] as int, ord[k2] as int),
        decreases keys.len() - i,
    {
        if chosen[i] {
            let key = keys[i];
            let mut p: usize = 0;
            while p < ord.len() && keys[ord[p]] <= key
                invariant
                    i < keys.len() == chosen.len(),
                    key == keys@[i as int],
                    p <= ord.len(),
                    forall|k: int| 0 <= k < ord.len() ==> ord[k] < i,
                    forall|k: int| 0 <= k < p ==> keys@[ord[k] as int] <= key,
                decreases ord.len() - p,
            {
                p = p + 1;
            }
            assert(forall|k: int| p <= k < ord.len() ==> keys@[ord[k] as int] > key) by {
                assert forall|k: int| p <= k < ord.len() implies keys@[ord[k] as int] > key by {
                    if k > p {
                        assert(precedes(keys@, ord[p as int] as int, ord[k] as int));
                    }
                }
            }
            let ghost old_ord = ord@;
            ord.insert(p, i);
            proof {
                old_ord.insert_ensures(p as int, i);
                assert forall|j: int|
                    0 <= j <= i && chosen[j] implies exists|k: int|
                    0 <= k < ord.len() && ord[k] == j by {
                    if j == i {
                        assert(ord[p as int] == j);
                    } else {
                        let k0 = choose|k: int| 0 <= k < old_ord.len() && old_ord[k] == j;
                        if k0 < p {
                            assert(ord[k0] == j);
                        } else {
                            assert(ord[k0 + 1] == j);
                        }
                    }
                }
                assert forall|k1: int, k2: int| 0 <= k1 < k2 < ord.len() implies precedes(
                    keys@,
                    ord[k1] as int,
                    ord[k2] as int,
                ) by {
                    if k2 < p {
                        assert(precedes(keys@, old_ord[k1] as int, old_ord[k2] as int));
                    } else if k2 == p {
                    } else if k1 < p {
                    } else if k1 == p {
                    } else {
                        assert(precedes(keys@, old_ord[k1 - 1] as int, old_ord[k2 - 1] as int));
                    }
                }
            }
        }
        i = i + 1;
    }
    ord
}

} // verus!
