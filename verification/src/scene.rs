//! Nearest-hit resolution across the scene.
//!
//! Every sphere is tested against the ray; each test either misses or
//! yields a hit at some ray parameter. The parameters arrive here as
//! unsigned sort keys whose order agrees with the parameters' own (the
//! caller obtains such keys from the bit patterns of positive finite
//! doubles), and the verified selection below keeps the candidate with the
//! smallest key — the hit nearest the ray origin — resolving ties toward
//! the candidate listed first.

use vstd::prelude::*;

verus! {

/// Whether some candidate in the list carries the key `k`.
pub open spec fn key_present(keys: Seq<Option<u64>>, k: u64) -> bool {
    exists|i: int| 0 <= i < keys.len() && keys[i] == Some(k)
}

/// Whether `k` is the nearest key of the list: present, and no present key
/// is smaller.
pub open spec fn is_nearest_key(keys: Seq<Option<u64>>, k: u64) -> bool {
    &&& key_present(keys, k)
    &&& forall|k2: u64| key_present(keys, k2) ==> k <= k2
}

/// Picks the candidate with the smallest key. Returns `None` exactly when
/// every candidate missed; otherwise returns the index of a candidate
/// carrying the nearest key, and of the candidates carrying it, the one
/// listed first: every earlier candidate's key is strictly larger.
pub fn nearest_hit_index(keys: &Vec<Option<u64>>) -> (r: Option<usize>)
    ensures
        r is None <==> (forall|j: int| 0 <= j < keys@.len() ==> keys@[j] is None),
        r matches Some(i) ==> {
            &&& i < keys@.len()
            &&& keys@[i as int] matches Some(k)
            &&& is_nearest_key(keys@, keys@[i as int]->0)
            &&& (forall|j: int|
                0 <= j < i && keys@[j] is Some ==> keys@[i as int]->0 < keys@[j]->0)
        },
{
    let mut best: Option<usize> = None;
    let mut idx: usize = 0;
    while idx < keys.len()
        invariant
            idx <= keys@.len(),
            best is None ==> (forall|j: int| 0 <= j < idx ==> keys@[j] is None),
            best matches Some(b) ==> {
                &&& b < idx
                &&& keys@[b as int] is Some
                &&& (forall|j: int|
                    0 <= j < idx && keys@[j] is Some ==> keys@[b as int]->0 <= keys@[j]->0)
                &&& (forall|j: int|
                    0 <= j < b && keys@[j] is Some ==> keys@[b as int]->0 < keys@[j]->0)
            },
        decreases keys@.len() - idx,
    {
        if let Some(k) = keys[idx] {
            match best {
                None => {
                    best = Some(idx);
                },
                Some(b) => {
                    let best_key = keys[b].unwrap();
                    if k < best_key {
                        best = Some(idx);
                    }
                },
            }
        }
        idx += 1;
    }
    proof {
        match best {
            None => {},
            Some(b) => {
                let bk = keys@[b as int]->0;
                assert forall|k2: u64| key_present(keys@, k2) implies bk <= k2 by {
                    let j = choose|j: int| 0 <= j < keys@.len() && keys@[j] == Some(k2);
                    assert(keys@[j] is Some);
                }
                assert(keys@[b as int] == Some(bk));
            },
        }
    }
    best
}

/// The nearest key of a list is unique: a minimum of the present keys can
/// have only one value, however many candidates carry it.
pub proof fn nearest_key_unique(keys: Seq<Option<u64>>, k1: u64, k2: u64)
    requires
        is_nearest_key(keys, k1),
        is_nearest_key(keys, k2),
    ensures
        k1 == k2,
{
    assert(k1 <= k2);
    assert(k2 <= k1);
}

/// Nearest-hit resolution does not depend on the order of the spheres:
/// two candidate lists offering the same keys — as when the same spheres
/// are listed in another order — have the same nearest key.
pub proof fn nearest_key_order_independent(a: Seq<Option<u64>>, b: Seq<Option<u64>>, k: u64)
    requires
        forall|k2: u64| key_present(a, k2) <==> key_present(b, k2),
        is_nearest_key(a, k),
    ensures
        is_nearest_key(b, k),
{
    assert(key_present(b, k));
    assert forall|k2: u64| key_present(b, k2) implies k <= k2 by {
        assert(key_present(a, k2));
    }
}

} // verus!
