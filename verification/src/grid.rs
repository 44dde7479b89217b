//! Choice of the record nearest to a query direction.
//!
//! The angular distance from the query to a record is handed in as a key:
//! an unsigned integer that grows with the distance. The bit pattern of a
//! non-negative double-precision distance is such a key.

use vstd::prelude::*;

verus! {

/// Whether `index` names the smallest key of `keys`, and the first of them
/// where several are equal.
pub open spec fn spec_is_nearest(keys: Seq<u64>, index: int) -> bool {
    &&& 0 <= index < keys.len()
    &&& forall|j: int| 0 <= j < keys.len() ==> keys[index] <= #[trigger] keys[j]
    &&& forall|j: int| 0 <= j < index ==> keys[index] < #[trigger] keys[j]
}

/// The index of the smallest key, the lowest such index where keys are
/// equal; nothing for an empty list.
pub fn nearest_index(keys: &[u64]) -> (r: Option<usize>)
    ensures
        keys@.len() == 0 ==> r.is_none(),
        keys@.len() > 0 ==> r.is_some() && spec_is_nearest(keys@, r.unwrap() as int),
{
    let n: usize = keys.len();
    if n == 0 {
        return None;
    }
    let mut best: usize = 0;
    let mut i: usize = 1;
    while i < n
        invariant
            n == keys@.len(),
            0 <= best < i <= n,
            forall|j: int| 0 <= j < i ==> keys@[best as int] <= #[trigger] keys@[j],
            forall|j: int| 0 <= j < best ==> keys@[best as int] < #[trigger] keys@[j],
        decreases n - i,
    {
        if keys[i] < keys[best] {
            best = i;
        }
        i = i + 1;
    }
    Some(best)
}

/// No two indices are both nearest: the choice is determined by the keys.
pub proof fn nearest_is_unique(keys: Seq<u64>, a: int, b: int)
    requires
        spec_is_nearest(keys, a),
        spec_is_nearest(keys, b),
    ensures
        a == b,
{
    if a < b {
        assert(keys[b] < keys[a]);
        assert(keys[a] <= keys[b]);
    } else if b < a {
        assert(keys[a] < keys[b]);
        assert(keys[b] <= keys[a]);
    }
}

/// A record at distance zero is chosen unless an earlier record is at
/// distance zero too.
pub proof fn nearest_of_zero_key(keys: Seq<u64>, index: int, chosen: int)
    requires
        0 <= index < keys.len(),
        keys[index] == 0,
        forall|j: int| 0 <= j < index ==> #[trigger] keys[j] != 0,
        spec_is_nearest(keys, chosen),
    ensures
        chosen == index,
{
    assert(keys[chosen] <= keys[index]);
    if chosen < index {
        assert(keys[chosen] != 0);
    } else if index < chosen {
        assert(keys[chosen] < keys[index]);
    }
}

} // verus!
