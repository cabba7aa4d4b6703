//! Starlink trains: a train is a tight group of freshly launched
//! satellites (neighbouring NORAD numbers flying in a chain). Given the
//! NORAD numbers of the satellites now above the location, this module
//! finds the largest train and decides what the watcher does next.

use vstd::prelude::*;

verus! {

/// A train above the location: how many satellites are in the chain.
#[derive(Debug, Clone)]
pub struct StarlinkTrain {
    pub count: usize,
}

/// Largest gap between neighbouring NORAD numbers of one launch.
pub const TRAIN_GAP: u64 = 40;

/// Smallest train worth showing.
pub const MIN_TRAIN: usize = 4;

/// Ascending order.
pub open spec fn sorted(s: Seq<u64>) -> bool {
    forall|i: int, j: int| 0 <= i <= j < s.len() ==> s[i] <= s[j]
}

/// Length of the chain that ends at position `i`: neighbours at most
/// `TRAIN_GAP` apart belong to one chain.
pub open spec fn run_len(s: Seq<u64>, i: int) -> nat
    decreases i,
{
    if i <= 0 {
        1
    } else if s[i] - s[i - 1] <= TRAIN_GAP {
        run_len(s, i - 1) + 1
    } else {
        1
    }
}

/// Longest chain ending among the first `n` positions (0 for none).
pub open spec fn max_run(s: Seq<u64>, n: int) -> nat
    decreases n,
{
    if n <= 0 {
        0
    } else {
        let prev = max_run(s, n - 1);
        let here = run_len(s, n - 1);
        if prev >= here {
            prev
        } else {
            here
        }
    }
}

/// Size of the largest train among sorted NORAD numbers.
pub open spec fn longest_train_spec(s: Seq<u64>) -> nat {
    max_run(s, s.len() as int)
}

proof fn lemma_run_len_bounds(s: Seq<u64>, i: int)
    requires
        0 <= i,
    ensures
        1 <= run_len(s, i) <= i + 1,
    decreases i,
{
    if i > 0 {
        lemma_run_len_bounds(s, i - 1);
    }
}

proof fn lemma_max_run_bounds(s: Seq<u64>, n: int)
    requires
        0 <= n,
    ensures
        max_run(s, n) <= n,
        n > 0 ==> max_run(s, n) >= 1,
    decreases n,
{
    if n > 0 {
        lemma_max_run_bounds(s, n - 1);
        lemma_run_len_bounds(s, n - 1);
    }
}

/// The largest train is empty exactly when nothing is overhead, and never
/// larger than the number of satellites overhead.
pub proof fn lemma_train_size_bounds(s: Seq<u64>)
    ensures
        longest_train_spec(s) <= s.len(),
        longest_train_spec(s) == 0 <==> s.len() == 0,
{
    lemma_max_run_bounds(s, s.len() as int);
}

/// Size of the largest group of consecutive NORAD numbers (one launch
/// flying in a chain) among sorted numbers.
pub fn longest_train(ids: &Vec<u64>) -> (r: usize)
    requires
        sorted(ids@),
    ensures
        r == longest_train_spec(ids@),
{
    let n = ids.len();
    if n == 0 {
        return 0;
    }
    let mut best: usize = 1;
    let mut run: usize = 1;
    let mut k: usize = 1;
    assert(max_run(ids@, 0) == 0);
    assert(run_len(ids@, 0) == 1);
    assert(max_run(ids@, 1) == 1);
    while k < n
        invariant
            n == ids@.len(),
            sorted(ids@),
            1 <= k <= n,
            1 <= best,
            1 <= run <= k,
            run == run_len(ids@, k - 1),
            (if best >= run { best } else { run }) == max_run(ids@, k as int),
        decreases n - k,
    {
        proof {
            lemma_max_run_bounds(ids@, k as int);
        }
        if ids[k] - ids[k - 1] <= TRAIN_GAP {
            run = run + 1;
        } else {
            if run > best {
                best = run;
            }
            run = 1;
        }
        k = k + 1;
    }
    if run > best {
        run
    } else {
        best
    }
}

/// Calls `slice::sort_unstable`: afterwards the numbers are in ascending
/// order and are the same numbers as before.
#[verifier::external_body]
fn sort_ids(ids: &mut Vec<u64>)
    ensures
        sorted(final(ids)@),
        final(ids)@.to_multiset() == old(ids)@.to_multiset(),
{
    ids.sort_unstable();
}

/// The largest train among the NORAD numbers of the satellites overhead,
/// in any order.
pub fn train_size(ids: Vec<u64>) -> (r: usize)
    ensures
        exists|s: Seq<u64>|
            sorted(s) && s.to_multiset() == ids@.to_multiset() && r == longest_train_spec(s),
{
    let mut ids = ids;
    let ghost given = ids@;
    sort_ids(&mut ids);
    let r = longest_train(&ids);
    assert(sorted(ids@) && ids@.to_multiset() == given.to_multiset() && r
        == longest_train_spec(ids@));
    r
}

/// The train found does not depend on the order in which the satellites
/// were listed: any two sorted arrangements of the same NORAD numbers give
/// the same train, so `train_size` answers the same for every ordering.
pub proof fn lemma_train_size_order_independent(a: Seq<u64>, b: Seq<u64>)
    requires
        sorted(a),
        sorted(b),
        a.to_multiset() == b.to_multiset(),
    ensures
        longest_train_spec(a) == longest_train_spec(b),
{
    let leq = |x: u64, y: u64| x <= y;
    assert(vstd::relations::sorted_by(a, leq));
    assert(vstd::relations::sorted_by(b, leq));
    assert(vstd::relations::total_ordering(leq));
    vstd::seq_lib::lemma_sorted_unique(a, b, leq);
    assert(a == b);
}

/// What the watcher does after one look at the sky.
#[derive(Debug, Clone)]
pub struct StarlinkStep {
    /// The train to announce, if any.
    pub train: Option<StarlinkTrain>,
    /// Seconds to sleep before the next look.
    pub delay_secs: u64,
}

/// After one look (`None` when no orbital elements could be loaded): a
/// train of at least `MIN_TRAIN` satellites is announced and the watcher
/// rests for an hour; otherwise it looks again after the poll period, at
/// least five minutes.
pub fn starlink_step(train_size: Option<usize>, poll_secs: u64) -> (r: StarlinkStep)
    ensures
        match train_size {
            Some(count) if count >= MIN_TRAIN => r.train matches Some(t) && t.count == count
                && r.delay_secs == 3600,
            _ => r.train is None && r.delay_secs == (if poll_secs < 300 {
                300
            } else {
                poll_secs
            }),
        },
{
    match train_size {
        Some(count) => {
            if count >= MIN_TRAIN {
                return StarlinkStep { train: Some(StarlinkTrain { count }), delay_secs: 3600 };
            }
        },
        None => {},
    }
    StarlinkStep { train: None, delay_secs: if poll_secs < 300 { 300 } else { poll_secs } }
}

/// Orbital elements younger than a day are good enough to tell what is
/// in the zone overhead.
pub const TLE_MAX_AGE_SECS: u64 = 86_400;

/// Whether the cached orbital elements can be used: their age is known
/// (the file's time is not in the future) and below a day.
pub fn tle_fresh(age_secs: Option<u64>) -> (r: bool)
    ensures
        r == (age_secs matches Some(age) && age < TLE_MAX_AGE_SECS),
{
    match age_secs {
        Some(age) => age < TLE_MAX_AGE_SECS,
        None => false,
    }
}

} // verus!
