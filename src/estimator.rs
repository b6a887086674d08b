//! The exact parts of the string-length period search: which light curves can
//! be searched, the randomized baseline arrangement, and the closed cycle of
//! neighbouring observations whose distances make up a string length.
use rand::seq::SliceRandom;
use rand::SeedableRng;
use vstd::prelude::*;

use crate::timeline::{has_distinct_times, has_distinct_times_in};

verus! {

/// Searches a range of trial periods for the one whose phase-folded light curve
/// has the shortest string length, and accepts it against a randomized
/// baseline.
#[derive(Clone, Copy, Debug)]
pub struct StringLengthPeriodEstimator {}

/// Why a period search could not be run.
#[derive(Clone, Copy, Debug, PartialEq, Eq, Structural)]
pub enum PeriodSearchError {
    /// The shortest trial period is not positive, or the longest is shorter.
    InvalidSearchRange,
    /// The largest fractional period error is not positive.
    InvalidTolerance,
    /// Fewer than two observations with distinct timestamps.
    InsufficientData,
}

/// The indices `0, 1, ..., n - 1` in order.
pub open spec fn identity_order(n: nat) -> Seq<usize> {
    Seq::new(n, |i: int| i as usize)
}

/// The index that follows `i` on a closed cycle of `n` places.
pub open spec fn cycle_next(i: int, n: int) -> int {
    (i + 1) % n
}

/// Relies on rand's `SliceRandom::shuffle` with the thread-local generator
/// `rand::rng()`: the shuffle only swaps elements, so it rearranges them.
/// (`rand::rng()` panics only where the operating system's generator cannot
/// seed the thread-local one.)
#[verifier::external_body]
fn shuffle_with_thread_rng(v: &mut Vec<usize>)
    ensures
        final(v)@.len() == old(v)@.len(),
        final(v)@.to_multiset() == old(v)@.to_multiset(),
{
    v.shuffle(&mut rand::rng());
}

/// Relies on rand's `SliceRandom::shuffle` with `StdRng::seed_from_u64(seed)`:
/// the shuffle only swaps elements, so it rearranges them.
#[verifier::external_body]
fn shuffle_with_seed(v: &mut Vec<usize>, seed: u64)
    ensures
        final(v)@.len() == old(v)@.len(),
        final(v)@.to_multiset() == old(v)@.to_multiset(),
{
    let mut rng = rand::rngs::StdRng::seed_from_u64(seed);
    v.shuffle(&mut rng);
}

impl StringLengthPeriodEstimator {
    /// A light curve can be searched only if at least two of its observation
    /// timestamps differ: otherwise the data span, which sets the trial-period
    /// step, is zero.
    pub fn check_data(timestamps: &Vec<i64>) -> (r: Result<(), PeriodSearchError>)
        ensures
            r is Ok <==> has_distinct_times(timestamps@),
            r is Err ==> r == Err::<(), PeriodSearchError>(PeriodSearchError::InsufficientData),
    {
        if has_distinct_times_in(timestamps) {
            Ok(())
        } else {
            Err(PeriodSearchError::InsufficientData)
        }
    }

    /// A random arrangement of the observation indices `0..n`, the order in
    /// which the baseline lays observations out at even phase spacing. With a
    /// seed the arrangement is reproducible; without one it is drawn from the
    /// thread-local generator.
    pub fn baseline_order(n: usize, seed: Option<u64>) -> (r: Vec<usize>)
        ensures
            r@.len() == n,
            r@.to_multiset() == identity_order(n as nat).to_multiset(),
    {
        let mut order: Vec<usize> = Vec::new();
        let mut i: usize = 0;
        while i < n
            invariant
                i <= n,
                order@ == identity_order(i as nat),
            decreases n - i,
        {
            order.push(i);
            i += 1;
            assert(order@ =~= identity_order(i as nat));
        }
        match seed {
            Some(s) => shuffle_with_seed(&mut order, s),
            None => shuffle_with_thread_rng(&mut order),
        }
        order
    }

    /// The consecutive pairs of `order` around a closed cycle: each index with
    /// the one after it, and the last with the first.
    pub fn closed_cycle_pairs(order: &Vec<usize>) -> (r: Vec<(usize, usize)>)
        ensures
            r@.len() == order@.len(),
            forall|i: int|
                0 <= i < r@.len() ==> #[trigger] r@[i] == (
                order@[i],
                order@[cycle_next(i, order@.len() as int)],
            ),
    {
        let n = order.len();
        let mut pairs: Vec<(usize, usize)> = Vec::new();
        let mut i: usize = 0;
        while i < n
            invariant
                n == order@.len(),
                i <= n,
                pairs@.len() == i,
                forall|k: int|
                    0 <= k < i ==> #[trigger] pairs@[k] == (
                    order@[k],
                    order@[cycle_next(k, n as int)],
                ),
            decreases n - i,
        {
            let next: usize = if i + 1 < n { i + 1 } else { 0 };
            assert(next as int == cycle_next(i as int, n as int)) by (nonlinear_arith)
                requires
                    i < n,
                    next == (if i + 1 < n { i + 1 } else { 0 }),
            ;
            pairs.push((order[i], order[next]));
            i += 1;
        }
        pairs
    }
}

} // verus!
