//! Ordering observation timestamps (integer microseconds or seconds since the
//! Unix epoch) in time.
use vstd::prelude::*;

verus! {

/// Observation `a` comes before observation `b` in time: an earlier timestamp,
/// or the same timestamp and an earlier place in the collection.
pub open spec fn precedes(ts: Seq<i64>, a: int, b: int) -> bool {
    ts[a] < ts[b] || (ts[a] == ts[b] && a < b)
}

/// `order` lists every index of `ts` once, earliest observation first, with
/// observations that share a timestamp kept in collection order.
pub open spec fn is_time_order(ts: Seq<i64>, order: Seq<usize>) -> bool {
    &&& order.len() == ts.len()
    &&& forall|i: int| 0 <= i < order.len() ==> order[i] < ts.len()
    &&& forall|k: int| 0 <= k < ts.len() ==> #[trigger] order.contains(k as usize)
    &&& forall|i: int, j: int|
        0 <= i < j < order.len() ==> precedes(ts, order[i] as int, order[j] as int)
}

/// The indices of `timestamps` in time order (a stable sort by timestamp).
pub fn order_by_time(timestamps: &Vec<i64>) -> (order: Vec<usize>)
    ensures
        is_time_order(timestamps@, order@),
{
    let ghost ts = timestamps@;
    let n = timestamps.len();
    let mut order: Vec<usize> = Vec::new();
    let mut k: usize = 0;
    while k < n
        invariant
            n == ts.len(),
            ts == timestamps@,
            k <= n,
            order@.len() == k,
            forall|i: int| 0 <= i < k ==> order@[i] < k,
            forall|m: int| 0 <= m < k ==> #[trigger] order@.contains(m as usize),
            forall|i: int, j: int|
                0 <= i < j < k ==> precedes(ts, order@[i] as int, order@[j] as int),
        decreases n - k,
    {
        let mut p: usize = 0;
        while p < k && timestamps[order[p]] <= timestamps[k]
            invariant
                n == ts.len(),
                ts == timestamps@,
                k < n,
                p <= k,
                order@.len() == k,
                forall|i: int| 0 <= i < k ==> order@[i] < k,
                forall|i: int| 0 <= i < p ==> precedes(ts, order@[i] as int, k as int),
            decreases k - p,
        {
            p += 1;
        }
        let ghost before = order@;
        order.insert(p, k);
        proof {
            assert(order@ == before.insert(p as int, k));
            assert forall|i: int, j: int|
                0 <= i < j < k + 1 implies precedes(ts, order@[i] as int, order@[j] as int) by {
                if j < p {
                } else if j == p {
                } else if i < p {
                    assert(precedes(ts, before[i] as int, k as int));
                    assert(precedes(ts, k as int, before[p as int] as int));
                    if p + 1 < j {
                        assert(precedes(ts, before[p as int] as int, before[j - 1] as int));
                    }
                } else if i == p {
                    assert(precedes(ts, k as int, before[p as int] as int));
                    if p + 1 < j {
                        assert(precedes(ts, before[p as int] as int, before[j - 1] as int));
                    }
                } else {
                    assert(order@[i] == before[i - 1]);
                    assert(order@[j] == before[j - 1]);
                }
            }
            assert forall|m: int| 0 <= m < k + 1 implies #[trigger] order@.contains(m as usize) by {
                if m == k {
                    assert(order@[p as int] == k);
                } else {
                    assert(before.contains(m as usize));
                    let w = choose|w: int| 0 <= w < before.len() && before[w] == m as usize;
                    if w < p {
                        assert(order@[w] == m as usize);
                    } else {
                        assert(order@[w + 1] == m as usize);
                    }
                }
            }
        }
        k += 1;
    }
    order
}

/// `r` is the time between the earliest and the latest of `ts`.
pub open spec fn is_span(ts: Seq<i64>, r: int) -> bool {
    &&& forall|a: int, b: int| 0 <= a < ts.len() && 0 <= b < ts.len() ==> ts[a] - ts[b] <= r
    &&& exists|a: int, b: int| 0 <= a < ts.len() && 0 <= b < ts.len() && ts[a] - ts[b] == r
}

/// Some two of `ts` differ.
pub open spec fn has_distinct_times(ts: Seq<i64>) -> bool {
    exists|a: int, b: int| 0 <= a < ts.len() && 0 <= b < ts.len() && ts[a] != ts[b]
}

/// The time between the earliest and the latest timestamp, in the unit of the
/// timestamps.
pub fn span(timestamps: &Vec<i64>) -> (r: u64)
    requires
        timestamps@.len() > 0,
    ensures
        is_span(timestamps@, r as int),
{
    let ghost ts = timestamps@;
    let mut lo: usize = 0;
    let mut hi: usize = 0;
    let mut i: usize = 1;
    while i < timestamps.len()
        invariant
            ts == timestamps@,
            1 <= i <= ts.len(),
            lo < i,
            hi < i,
            forall|a: int| 0 <= a < i ==> ts[lo as int] <= #[trigger] ts[a] <= ts[hi as int],
        decreases ts.len() - i,
    {
        if timestamps[i] < timestamps[lo] {
            lo = i;
        }
        if timestamps[i] > timestamps[hi] {
            hi = i;
        }
        i += 1;
    }
    let r = (timestamps[hi] as i128 - timestamps[lo] as i128) as u64;
    assert(ts[hi as int] - ts[lo as int] == r as int);
    r
}

/// Whether at least two timestamps differ.
pub fn has_distinct_times_in(timestamps: &Vec<i64>) -> (r: bool)
    ensures
        r == has_distinct_times(timestamps@),
{
    if timestamps.len() == 0 {
        return false;
    }
    let s = span(timestamps);
    proof {
        let ts = timestamps@;
        if s > 0 {
            let (a, b) = choose|a: int, b: int|
                0 <= a < ts.len() && 0 <= b < ts.len() && ts[a] - ts[b] == s as int;
            assert(ts[a] != ts[b]);
        } else {
            assert forall|a: int, b: int|
                0 <= a < ts.len() && 0 <= b < ts.len() implies ts[a] == ts[b] by {
                assert(ts[a] - ts[b] <= 0);
                assert(ts[b] - ts[a] <= 0);
            }
        }
    }
    s > 0
}

} // verus!
