//! Ordering of samples by time.
//!
//! A timestamp reaches this module as an order key: an integer that orders as
//! the timestamp does. Samples are listed ascending by key; samples with equal
//! keys keep the order in which they were stored.
use vstd::prelude::*;

verus! {

/// Sample `a` comes before sample `b`: a smaller key, or an equal key and an
/// earlier place in storage.
pub open spec fn precedes(keys: Seq<u64>, a: int, b: int) -> bool {
    keys[a] < keys[b] || (keys[a] == keys[b] && a < b)
}

/// `ord` lists the first `n` samples, each once, in time order.
pub open spec fn orders_prefix(keys: Seq<u64>, ord: Seq<usize>, n: int) -> bool {
    &&& ord.len() == n
    &&& forall|i: int| 0 <= i < ord.len() ==> #[trigger] ord[i] < n
    &&& forall|i: int, j: int|
        0 <= i < j < ord.len() ==> precedes(keys, #[trigger] ord[i] as int, #[trigger] ord[j] as int)
}

/// `ord` lists every sample of `keys` once, in time order.
pub open spec fn is_time_order(keys: Seq<u64>, ord: Seq<usize>) -> bool {
    orders_prefix(keys, ord, keys.len() as int)
}

/// The places of the samples in time order: ascending by key, and where keys
/// are equal, in storage order.
pub fn time_order(keys: &Vec<u64>) -> (ord: Vec<usize>)
    ensures
        is_time_order(keys@, ord@),
{
    let mut ord: Vec<usize> = Vec::new();
    let n = keys.len();
    let mut k: usize = 0;
    while k < n
        invariant
            n == keys.len(),
            k <= n,
            orders_prefix(keys@, ord@, k as int),
        decreases n - k,
    {
        let key = keys[k];
        // Find the first place whose key is larger than `key`.
        let mut lo: usize = 0;
        let mut hi: usize = ord.len();
        while lo < hi
            invariant
                n == keys.len(),
                k < n,
                key == keys@[k as int],
                orders_prefix(keys@, ord@, k as int),
                lo <= hi <= ord.len(),
                forall|i: int| 0 <= i < lo ==> keys@[#[trigger] ord@[i] as int] <= key,
                forall|i: int| hi <= i < ord.len() ==> keys@[#[trigger] ord@[i] as int] > key,
            decreases hi - lo,
        {
            let mid = lo + (hi - lo) / 2;
            if keys[ord[mid]] <= key {
                proof {
                    assert forall|i: int| 0 <= i <= mid implies keys@[#[trigger] ord@[i] as int]
                        <= key by {
                        if i < mid {
                            assert(precedes(keys@, ord@[i] as int, ord@[mid as int] as int));
                        }
                    }
                }
                lo = mid + 1;
            } else {
                proof {
                    assert forall|i: int| mid <= i < ord.len() implies keys@[#[trigger] ord@[i] as int]
                        > key by {
                        if i > mid {
                            assert(precedes(keys@, ord@[mid as int] as int, ord@[i] as int));
                        }
                    }
                }
                hi = mid;
            }
        }
        let ghost before = ord@;
        ord.insert(lo, k);
        proof {
            before.insert_ensures(lo as int, k);
            let after = ord@;
            assert forall|i: int| 0 <= i < after.len() implies #[trigger] after[i] < k + 1 by {
                if i > lo {
                    assert(after[i] == before[i - 1]);
                }
            }
            assert forall|i: int, j: int| 0 <= i < j < after.len() implies precedes(
                keys@,
                #[trigger] after[i] as int,
                #[trigger] after[j] as int,
            ) by {
                if j < lo {
                } else if j == lo {
                    assert(keys@[before[i] as int] <= key);
                    assert(before[i] < k);
                } else if i < lo {
                    assert(after[j] == before[j - 1]);
                    assert(precedes(keys@, before[i] as int, before[j - 1] as int));
                } else if i == lo {
                    assert(after[j] == before[j - 1]);
                    assert(keys@[before[j - 1] as int] > key);
                } else {
                    assert(after[i] == before[i - 1]);
                    assert(after[j] == before[j - 1]);
                    assert(precedes(keys@, before[i - 1] as int, before[j - 1] as int));
                }
            }
        }
        k = k + 1;
    }
    ord
}

} // verus!

verus! {

/// The order in which the price line visits the samples: none when fewer
/// than two samples are stored, else all of them in time order.
pub fn line_order(keys: &Vec<u64>) -> (ord: Vec<usize>)
    ensures
        keys@.len() < 2 ==> ord@.len() == 0,
        keys@.len() >= 2 ==> is_time_order(keys@, ord@),
{
    if keys.len() < 2 {
        Vec::new()
    } else {
        time_order(keys)
    }
}

} // verus!
