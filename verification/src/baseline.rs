//! Reduction of the benign samples to a baseline: the median duration and the
//! status codes that were seen.

use vstd::prelude::*;
use vstd::string::*;
use vstd::relations::{sorted_by, total_ordering};
use vstd::seq_lib::{
    lemma_sorted_unique, to_multiset_build, to_multiset_contains, to_multiset_insert,
    to_multiset_len, to_multiset_update,
};
use crate::scanner::{BaselineMeasurement, BaselineView};
use crate::utils::{parse_status_code, status_code_of};

verus! {

/// What one benign request gave.
#[derive(Debug, Clone)]
pub struct BaselineSample {
    /// The first line of the response.
    pub status_line: String,
    /// How long the request took, in milliseconds.
    pub duration_ms: u128,
}

/// The mathematical content of a `BaselineSample`.
pub struct SampleView {
    pub status_line: Seq<char>,
    pub duration_ms: nat,
}

impl View for BaselineSample {
    type V = SampleView;

    open spec fn view(&self) -> SampleView {
        SampleView { status_line: self.status_line@, duration_ms: self.duration_ms as nat }
    }
}

/// The views of the samples, in order.
pub open spec fn sample_views(samples: Seq<BaselineSample>) -> Seq<SampleView> {
    Seq::new(samples.len(), |i: int| samples[i]@)
}

/// The usual order of the natural numbers.
pub open spec fn ascending() -> spec_fn(nat, nat) -> bool {
    |a: nat, b: nat| a <= b
}

/// The durations of the samples, in the order of the samples.
pub open spec fn durations_of(samples: Seq<SampleView>) -> Seq<nat> {
    Seq::new(samples.len(), |i: int| samples[i].duration_ms)
}

/// The status codes of the samples, in the order of the samples.
pub open spec fn codes_of(samples: Seq<SampleView>) -> Seq<Option<u16>> {
    Seq::new(samples.len(), |i: int| status_code_of(samples[i].status_line))
}

/// The median of a non-empty sequence: the middle element once the sequence
/// is sorted. For an even length it is the upper of the two middle elements.
pub open spec fn median_of(durations: Seq<nat>) -> nat
    recommends
        durations.len() > 0,
{
    durations.sort_by(ascending())[durations.len() as int / 2]
}

/// The baseline that a non-empty sequence of samples reduces to.
pub open spec fn baseline_of(samples: Seq<SampleView>) -> BaselineView
    recommends
        samples.len() > 0,
{
    BaselineView {
        status: samples.last().status_line,
        duration_ms: median_of(durations_of(samples)),
        codes: codes_of(samples),
    }
}

/// The usual order is a total order.
pub proof fn lemma_ascending_is_total()
    ensures
        total_ordering(ascending()),
{
}

/// Whatever sorted arrangement of the same numbers one takes, its middle
/// element is the median.
pub proof fn lemma_median_of_sorted(durations: Seq<nat>, sorted: Seq<nat>)
    requires
        sorted_by(sorted, ascending()),
        sorted.to_multiset() == durations.to_multiset(),
        durations.len() > 0,
    ensures
        sorted.len() == durations.len(),
        median_of(durations) == sorted[durations.len() as int / 2],
{
    lemma_ascending_is_total();
    durations.lemma_sort_by_ensures(ascending());
    lemma_sorted_unique(sorted, durations.sort_by(ascending()), ascending());
    to_multiset_len(sorted);
    to_multiset_len(durations);
}

/// The durations in ascending order.
fn sorted_durations(samples: &Vec<BaselineSample>) -> (sorted: Vec<u128>)
    ensures
        sorted_by(sorted@.map_values(|d: u128| d as nat), ascending()),
        sorted@.map_values(|d: u128| d as nat).to_multiset() == durations_of(
            sample_views(samples@),
        ).to_multiset(),
{
    let ghost all = durations_of(sample_views(samples@));
    let ghost widen = |d: u128| d as nat;
    let mut sorted: Vec<u128> = Vec::new();
    let mut i: usize = 0;
    assert(all.take(0) == Seq::<nat>::empty());
    assert(sorted@.map_values(widen) == Seq::<nat>::empty());
    while i < samples.len()
        invariant
            i <= samples.len(),
            all == durations_of(sample_views(samples@)),
            widen == |d: u128| d as nat,
            sorted_by(sorted@.map_values(widen), ascending()),
            sorted@.map_values(widen).to_multiset() == all.take(i as int).to_multiset(),
        decreases samples.len() - i,
    {
        let d = samples[i].duration_ms;
        let mut at: usize = 0;
        while at < sorted.len() && sorted[at] <= d
            invariant
                at <= sorted.len(),
                forall|k: int| 0 <= k < at ==> sorted@[k] <= d,
            decreases sorted.len() - at,
        {
            at += 1;
        }
        let ghost before = sorted@.map_values(widen);
        assert(at < sorted.len() ==> before[at as int] > d);
        assert(forall|k: int| 0 <= k < at ==> before[k] <= d);
        sorted.insert(at, d);
        proof {
            let after = sorted@.map_values(widen);
            assert(after == before.insert(at as int, d as nat));
            to_multiset_insert(before, at as int, d as nat);
            assert(all.take(i + 1) == all.take(i as int).push(d as nat));
            to_multiset_build(all.take(i as int), d as nat);
            assert forall|a: int, b: int| 0 <= a < b < after.len() implies ascending()(
                after[a],
                after[b],
            ) by {
                if a < at && b == at {
                    assert(before[a] == sorted@[a] as nat);
                } else if a < at && b > at {
                    assert(ascending()(before[a], before[b - 1]));
                } else if a < at && b < at {
                    assert(ascending()(before[a], before[b]));
                } else if a > at {
                    assert(ascending()(before[a - 1], before[b - 1]));
                } else {
                    assert(a == at && b > at);
                    assert(before[at as int] > d);
                    if b - 1 > at {
                        assert(ascending()(before[at as int], before[b - 1]));
                    }
                }
            }
        }
        i += 1;
    }
    assert(all.take(samples.len() as int) == all);
    sorted
}

/// Reduces the benign samples to a baseline. Without a sample there is none.
pub fn summarize_baseline(samples: &Vec<BaselineSample>) -> (baseline: Option<BaselineMeasurement>)
    ensures
        baseline.is_some() == (samples.len() > 0),
        baseline matches Some(b) ==> b@ == baseline_of(sample_views(samples@)),
{
    let n = samples.len();
    if n == 0 {
        return None;
    }
    let ghost views = sample_views(samples@);
    let sorted = sorted_durations(samples);
    proof {
        lemma_median_of_sorted(durations_of(views), sorted@.map_values(|d: u128| d as nat));
    }
    let median = sorted[n / 2];
    let mut codes: Vec<Option<u16>> = Vec::new();
    let mut i: usize = 0;
    while i < n
        invariant
            i <= n,
            n == samples.len(),
            views == sample_views(samples@),
            codes@ == codes_of(views).take(i as int),
        decreases n - i,
    {
        codes.push(parse_status_code(samples[i].status_line.as_str()));
        i += 1;
        assert(codes_of(views).take(i as int) == codes_of(views).take(i - 1).push(
            codes_of(views)[i - 1],
        ));
    }
    assert(codes_of(views).take(n as int) == codes_of(views));
    let status = samples[n - 1].status_line.clone();
    let baseline = BaselineMeasurement {
        representative_status: status,
        representative_duration_ms: median,
        observed_status_codes: codes,
    };
    assert(baseline@ == baseline_of(views));
    Some(baseline)
}

/// The median is the middle of the samples: in the sorted arrangement no
/// sample before the middle is larger than the median and none after it is
/// smaller, and the median is one of the samples.
pub proof fn law_median_is_in_the_middle(durations: Seq<nat>)
    requires
        durations.len() > 0,
    ensures
        durations.contains(median_of(durations)),
        forall|i: int|
            0 <= i <= durations.len() / 2 ==> #[trigger] durations.sort_by(ascending())[i]
                <= median_of(durations),
        forall|i: int|
            durations.len() / 2 <= i < durations.len() ==> median_of(durations)
                <= #[trigger] durations.sort_by(ascending())[i],
{
    let sorted = durations.sort_by(ascending());
    let middle = durations.len() as int / 2;
    lemma_ascending_is_total();
    durations.lemma_sort_by_ensures(ascending());
    to_multiset_len(sorted);
    to_multiset_len(durations);
    assert(sorted.contains(sorted[middle]));
    assert forall|i: int| 0 <= i <= middle implies #[trigger] sorted[i] <= sorted[middle] by {
        if i < middle {
            assert(ascending()(sorted[i], sorted[middle]));
        }
    }
    assert forall|i: int| middle <= i < sorted.len() implies sorted[middle] <= #[trigger] sorted[i] by {
        if middle < i {
            assert(ascending()(sorted[middle], sorted[i]));
        }
    }
}

/// One slow outlier does not move the median, as it would move the mean:
/// where there are at least three samples, the slowest of them can be as slow
/// as it likes and the median stays what it is.
pub proof fn law_median_ignores_one_outlier(durations: Seq<nat>, slowest: int, slower: nat)
    requires
        durations.len() >= 3,
        0 <= slowest < durations.len(),
        forall|i: int| 0 <= i < durations.len() ==> durations[i] <= durations[slowest],
        slower >= durations[slowest],
    ensures
        median_of(durations.update(slowest, slower)) == median_of(durations),
{
    let sorted = durations.sort_by(ascending());
    let n = durations.len() as int;
    lemma_ascending_is_total();
    durations.lemma_sort_by_ensures(ascending());
    to_multiset_len(sorted);
    to_multiset_len(durations);
    // The last of the sorted samples is the slowest sample.
    to_multiset_contains(sorted, sorted[n - 1]);
    to_multiset_contains(durations, sorted[n - 1]);
    assert(sorted.contains(sorted[n - 1]));
    let at = choose|i: int| 0 <= i < n && durations[i] == sorted[n - 1];
    assert(durations[at] <= durations[slowest]);
    to_multiset_contains(sorted, durations[slowest]);
    to_multiset_contains(durations, durations[slowest]);
    assert(durations.contains(durations[slowest]));
    let k = choose|i: int| 0 <= i < n && sorted[i] == durations[slowest];
    if k < n - 1 {
        assert(ascending()(sorted[k], sorted[n - 1]));
    }
    assert(sorted[n - 1] == durations[slowest]);
    // With the slowest sample made slower, the sorted samples stay sorted.
    let moved = durations.update(slowest, slower);
    let resorted = sorted.update(n - 1, slower);
    to_multiset_update(durations, slowest, slower);
    to_multiset_update(sorted, n - 1, slower);
    assert forall|a: int, b: int| 0 <= a < b < resorted.len() implies ascending()(
        resorted[a],
        resorted[b],
    ) by {
        if b < n - 1 {
            assert(ascending()(sorted[a], sorted[b]));
        } else {
            assert(ascending()(sorted[a], sorted[n - 1]));
        }
    }
    lemma_median_of_sorted(moved, resorted);
}

} // verus!
