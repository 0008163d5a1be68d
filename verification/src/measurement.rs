//! Scrape samples and their aggregation into end-to-end statistics.
//!
//! A run accumulates one [`Measurement`] per node and scrape interval.
//! Aggregates are pure functions of the accumulated samples: a total
//! divided by the wall-clock span for throughput, ratio of accumulated
//! sums for the mean latency, and `E[x²] − E[x]²` (clamped at zero,
//! then rounded down through the integer square root) for its standard
//! deviation. The lemmas at the end show that none of them depends on
//! the order in which samples arrived.

use vstd::prelude::*;
use vstd::string::StringExecFns;

use crate::benchmark::BenchmarkParameters;
use crate::settings::Settings;

verus! {

/// One scrape of one node's metrics endpoint.
#[derive(Debug, Clone)]
pub struct Measurement {
    /// Elapsed time from the start of the run to this scrape.
    pub timestamp_secs: u64,
    /// Transactions counted so far.
    pub count: u64,
    /// Cumulative latency over those transactions, in milliseconds.
    pub sum_latency_ms: u64,
    /// Cumulative squared latency, in squared milliseconds.
    pub squared_latency_sum: u64,
    /// The latency histogram: upper bucket bound in milliseconds, count.
    pub buckets: Vec<(u64, u64)>,
}

impl Measurement {
    /// Pack one scrape sample.
    pub fn new(
        timestamp_secs: u64,
        count: u64,
        sum_latency_ms: u64,
        squared_latency_sum: u64,
        buckets: Vec<(u64, u64)>,
    ) -> (r: Self)
        ensures
            r == (Measurement {
                timestamp_secs,
                count,
                sum_latency_ms,
                squared_latency_sum,
                buckets,
            }),
    {
        Measurement { timestamp_secs, count, sum_latency_ms, squared_latency_sum, buckets }
    }

    /// A labelled sample with a positive mean latency, for unit tests.
    pub fn new_for_test() -> (r: (String, Measurement))
        ensures
            r.0@ == "default"@,
            r.1.timestamp_secs == 30,
            r.1.count == 100,
            r.1.sum_latency_ms == 2000,
            r.1.squared_latency_sum == 50000,
            r.1.buckets@.len() == 0,
    {
        (
            "default".to_owned(),
            Measurement {
                timestamp_secs: 30,
                count: 100,
                sum_latency_ms: 2000,
                squared_latency_sum: 50000,
                buckets: Vec::new(),
            },
        )
    }
}

/// One accumulated sample: which scrape it came from, the metric stream
/// it belongs to, and the sample itself.
#[derive(Debug, Clone)]
pub struct MeasurementEntry {
    pub scrape_index: usize,
    pub label: String,
    pub measurement: Measurement,
}

/// Every sample of one run, with the parameters the run used.
#[derive(Debug, Clone)]
pub struct MeasurementsCollection<T> {
    /// The machine shape the fleet ran on.
    pub machine_specs: String,
    /// The parameters of the run that produced these samples.
    pub parameters: BenchmarkParameters<T>,
    /// The samples, in arrival order.
    pub entries: Vec<MeasurementEntry>,
}

/// The sum of `f` over a sample sequence.
pub open spec fn sum_of(s: Seq<MeasurementEntry>, f: spec_fn(MeasurementEntry) -> int) -> int
    decreases s.len(),
{
    if s.len() == 0 {
        0
    } else {
        sum_of(s.drop_last(), f) + f(s.last())
    }
}

/// The maximum of `f` over a sample sequence, at least zero.
pub open spec fn max_of(s: Seq<MeasurementEntry>, f: spec_fn(MeasurementEntry) -> int) -> int
    decreases s.len(),
{
    if s.len() == 0 {
        0
    } else {
        let rest = max_of(s.drop_last(), f);
        if f(s.last()) > rest {
            f(s.last())
        } else {
            rest
        }
    }
}

/// The transaction count of a sample when it carries `label`, else zero.
pub open spec fn count_weight(label: Seq<char>) -> spec_fn(MeasurementEntry) -> int {
    |e: MeasurementEntry|
        if e.label@ == label {
            e.measurement.count as int
        } else {
            0
        }
}

/// The latency sum of a sample when it carries `label`, else zero.
pub open spec fn latency_weight(label: Seq<char>) -> spec_fn(MeasurementEntry) -> int {
    |e: MeasurementEntry|
        if e.label@ == label {
            e.measurement.sum_latency_ms as int
        } else {
            0
        }
}

/// The squared-latency sum of a sample when it carries `label`, else zero.
pub open spec fn squared_weight(label: Seq<char>) -> spec_fn(MeasurementEntry) -> int {
    |e: MeasurementEntry|
        if e.label@ == label {
            e.measurement.squared_latency_sum as int
        } else {
            0
        }
}

/// The scrape time of a sample when it carries `label`, else zero.
pub open spec fn timestamp_weight(label: Seq<char>) -> spec_fn(MeasurementEntry) -> int {
    |e: MeasurementEntry|
        if e.label@ == label {
            e.measurement.timestamp_secs as int
        } else {
            0
        }
}

/// Total transactions recorded under `label`.
pub open spec fn spec_total_count(s: Seq<MeasurementEntry>, label: Seq<char>) -> int {
    sum_of(s, count_weight(label))
}

/// Total latency recorded under `label`, in milliseconds.
pub open spec fn spec_total_latency(s: Seq<MeasurementEntry>, label: Seq<char>) -> int {
    sum_of(s, latency_weight(label))
}

/// Total squared latency recorded under `label`.
pub open spec fn spec_total_squared(s: Seq<MeasurementEntry>, label: Seq<char>) -> int {
    sum_of(s, squared_weight(label))
}

/// The wall-clock span of the scrapes under `label`: the time from the
/// start of the run to the latest scrape of that stream.
pub open spec fn spec_span(s: Seq<MeasurementEntry>, label: Seq<char>) -> int {
    max_of(s, timestamp_weight(label))
}

/// Throughput under `label`: total transactions over the span, rounded
/// down; zero when no time has passed.
pub open spec fn spec_tps(s: Seq<MeasurementEntry>, label: Seq<char>) -> int {
    if spec_span(s, label) == 0 {
        0
    } else {
        spec_total_count(s, label) / spec_span(s, label)
    }
}

/// Mean latency under `label`, in milliseconds, rounded down; zero when
/// no transaction was recorded.
pub open spec fn spec_average_latency(s: Seq<MeasurementEntry>, label: Seq<char>) -> int {
    if spec_total_count(s, label) == 0 {
        0
    } else {
        spec_total_latency(s, label) / spec_total_count(s, label)
    }
}

/// Latency variance under `label`: `E[x²] − E[x]²` over the accumulated
/// sums, clamped at zero.
pub open spec fn spec_latency_variance(s: Seq<MeasurementEntry>, label: Seq<char>) -> int {
    let cnt = spec_total_count(s, label);
    if cnt == 0 {
        0
    } else {
        let mean_sq = spec_total_squared(s, label) / cnt;
        let mean = spec_average_latency(s, label);
        if mean_sq > mean * mean {
            mean_sq - mean * mean
        } else {
            0
        }
    }
}

/// The distinct labels of a sample sequence, in first-seen order.
pub open spec fn distinct_labels(s: Seq<MeasurementEntry>) -> Seq<Seq<char>>
    decreases s.len(),
{
    if s.len() == 0 {
        Seq::empty()
    } else {
        let rest = distinct_labels(s.drop_last());
        if rest.contains(s.last().label@) {
            rest
        } else {
            rest.push(s.last().label@)
        }
    }
}

/// The views of a vector of strings.
pub open spec fn views_of(v: Seq<String>) -> Seq<Seq<char>> {
    v.map_values(|x: String| x@)
}

impl<T> MeasurementsCollection<T> {
    /// An empty collection for a run with the given parameters.
    pub fn new(settings: &Settings, parameters: BenchmarkParameters<T>) -> (r: Self)
        ensures
            r.machine_specs@ == settings.specs@,
            r.parameters == parameters,
            r.entries@.len() == 0,
    {
        MeasurementsCollection {
            machine_specs: settings.specs.clone(),
            parameters,
            entries: Vec::new(),
        }
    }

    /// Append one scrape sample. This is the only mutation a collection
    /// sees; reads are meaningful once the run stops adding.
    pub fn add(&mut self, scrape_index: usize, label: String, measurement: Measurement)
        ensures
            final(self).entries@ == old(self).entries@.push(
                (MeasurementEntry { scrape_index, label, measurement }),
            ),
            final(self).machine_specs == old(self).machine_specs,
            final(self).parameters == old(self).parameters,
    {
        self.entries.push(MeasurementEntry { scrape_index, label, measurement });
    }

    /// The offered load of the run that produced these samples. This is
    /// the target rate, not the measured throughput.
    pub fn transaction_load(&self) -> (r: usize)
        ensures
            r == self.parameters.load,
    {
        self.parameters.load
    }

    /// The distinct labels of the accumulated samples, first-seen first.
    pub fn labels(&self) -> (r: Vec<String>)
        ensures
            views_of(r@) == distinct_labels(self.entries@),
    {
        let mut r: Vec<String> = Vec::new();
        let mut i: usize = 0;
        while i < self.entries.len()
            invariant
                i <= self.entries@.len(),
                views_of(r@) == distinct_labels(self.entries@.subrange(0, i as int)),
            decreases self.entries@.len() - i,
        {
            let ghost pre = self.entries@.subrange(0, i as int);
            let label = &self.entries[i].label;
            let mut seen = false;
            let mut j: usize = 0;
            while j < r.len()
                invariant
                    j <= r@.len(),
                    seen == exists|k: int| 0 <= k < j && r@[k]@ == label@,
                decreases r@.len() - j,
            {
                if r[j].eq(label) {
                    seen = true;
                }
                j = j + 1;
            }
            proof {
                assert(seen == views_of(r@).contains(label@)) by {
                    if seen {
                        let k = choose|k: int| 0 <= k < r@.len() && r@[k]@ == label@;
                        assert(views_of(r@)[k] == label@);
                    } else if views_of(r@).contains(label@) {
                        let k = choose|k: int|
                            0 <= k < views_of(r@).len() && views_of(r@)[k] == label@;
                        assert(r@[k]@ == label@);
                    }
                }
                assert(self.entries@.subrange(0, i + 1).drop_last() =~= pre);
                assert(self.entries@.subrange(0, i + 1).last() == self.entries@[i as int]);
            }
            if !seen {
                r.push(label.clone());
                proof {
                    assert(views_of(r@) =~= distinct_labels(
                        self.entries@.subrange(0, i + 1),
                    ));
                }
            } else {
                proof {
                    assert(views_of(r@) =~= distinct_labels(
                        self.entries@.subrange(0, i + 1),
                    ));
                }
            }
            i = i + 1;
        }
        proof {
            assert(self.entries@.subrange(0, self.entries@.len() as int) =~= self.entries@);
        }
        r
    }

    /// The label of the first accumulated sample, if any. Because
    /// `labels` keeps first-seen order, this is its head.
    pub fn first_label(&self) -> (r: Option<String>)
        ensures
            self.entries@.len() == 0 <==> r is None,
            r matches Some(l) ==> l@ == self.entries@[0].label@,
    {
        if self.entries.len() == 0 {
            None
        } else {
            Some(self.entries[0].label.clone())
        }
    }

    /// One pass over the samples of `label`: total count, total latency,
    /// total squared latency, and the span.
    fn label_totals(&self, label: &String) -> (r: (u128, u128, u128, u64))
        ensures
            r.0 as int == spec_total_count(self.entries@, label@),
            r.1 as int == spec_total_latency(self.entries@, label@),
            r.2 as int == spec_total_squared(self.entries@, label@),
            r.3 as int == spec_span(self.entries@, label@),
    {
        let mut count: u128 = 0;
        let mut latency: u128 = 0;
        let mut squared: u128 = 0;
        let mut span: u64 = 0;
        let mut i: usize = 0;
        while i < self.entries.len()
            invariant
                i <= self.entries@.len(),
                count as int == spec_total_count(self.entries@.subrange(0, i as int), label@),
                latency as int == spec_total_latency(self.entries@.subrange(0, i as int), label@),
                squared as int == spec_total_squared(self.entries@.subrange(0, i as int), label@),
                span as int == spec_span(self.entries@.subrange(0, i as int), label@),
                count as int <= (i as int) * (u64::MAX as int),
                latency as int <= (i as int) * (u64::MAX as int),
                squared as int <= (i as int) * (u64::MAX as int),
            decreases self.entries@.len() - i,
        {
            let ghost pre = self.entries@.subrange(0, i as int);
            proof {
                assert(self.entries@.subrange(0, i + 1).drop_last() =~= pre);
                assert(self.entries@.subrange(0, i + 1).last() == self.entries@[i as int]);
                assert((i as int) * (u64::MAX as int) + (u64::MAX as int) == ((i as int) + 1) * (
                u64::MAX as int)) by (nonlinear_arith);
                assert((self.entries@.len() as int) * (u64::MAX as int) < 0x1_0000_0000_0000_0000i128
                    as int * 0x1_0000_0000_0000_0000i128 as int) by (nonlinear_arith)
                    requires
                        self.entries@.len() < 0x1_0000_0000_0000_0000i128 as int,
                ;
            }
            let e = &self.entries[i];
            if e.label.eq(label) {
                count = count + e.measurement.count as u128;
                latency = latency + e.measurement.sum_latency_ms as u128;
                squared = squared + e.measurement.squared_latency_sum as u128;
                if e.measurement.timestamp_secs > span {
                    span = e.measurement.timestamp_secs;
                }
            }
            i = i + 1;
        }
        proof {
            assert(self.entries@.subrange(0, self.entries@.len() as int) =~= self.entries@);
        }
        (count, latency, squared, span)
    }

    /// Measured throughput of the stream `label`: total transactions
    /// divided by the wall-clock span of its scrapes, rounded down.
    pub fn aggregate_tps(&self, label: &String) -> (r: u128)
        ensures
            r as int == spec_tps(self.entries@, label@),
    {
        let (count, _, _, span) = self.label_totals(label);
        if span == 0 {
            0
        } else {
            count / (span as u128)
        }
    }

    /// Mean latency of the stream `label` in milliseconds: accumulated
    /// latency divided by accumulated transactions, rounded down.
    pub fn aggregate_average_latency(&self, label: &String) -> (r: u128)
        ensures
            r as int == spec_average_latency(self.entries@, label@),
    {
        let (count, latency, _, _) = self.label_totals(label);
        if count == 0 {
            0
        } else {
            latency / count
        }
    }

    /// Latency standard deviation of the stream `label` in milliseconds:
    /// the integer square root of the clamped variance.
    pub fn aggregate_stdev_latency(&self, label: &String) -> (r: u64)
        ensures
            (r as int) * (r as int) <= spec_latency_variance(self.entries@, label@),
            spec_latency_variance(self.entries@, label@) < ((r as int) + 1) * ((r as int) + 1),
    {
        let (count, latency, squared, _) = self.label_totals(label);
        let variance: u128;
        if count == 0 {
            variance = 0;
        } else {
            let mean_sq = squared / count;
            let mean = latency / count;
            if mean <= u64::MAX as u128 {
                proof {
                    assert((mean as int) * (mean as int) <= (u64::MAX as int) * (u64::MAX as int))
                        by (nonlinear_arith)
                        requires
                            0 <= mean as int <= u64::MAX as int,
                    ;
                }
                let mean2 = mean * mean;
                if mean_sq > mean2 {
                    variance = mean_sq - mean2;
                } else {
                    variance = 0;
                }
            } else {
                proof {
                    assert((mean as int) * (mean as int) > u128::MAX as int) by (nonlinear_arith)
                        requires
                            mean as int > u64::MAX as int,
                    ;
                }
                variance = 0;
            }
        }
        crate::num::isqrt(variance)
    }
}

/// Removing one sample takes exactly its weight out of the sum.
proof fn lemma_sum_of_remove(
    s: Seq<MeasurementEntry>,
    i: int,
    f: spec_fn(MeasurementEntry) -> int,
)
    requires
        0 <= i < s.len(),
    ensures
        sum_of(s.remove(i), f) == sum_of(s, f) - f(s[i]),
    decreases s.len(),
{
    if i == s.len() - 1 {
        assert(s.remove(i) =~= s.drop_last());
    } else {
        assert(s.remove(i).drop_last() =~= s.drop_last().remove(i));
        lemma_sum_of_remove(s.drop_last(), i, f);
        assert(s.remove(i).last() == s.last());
    }
}

/// Removing one sample leaves the maximum of the rest and that sample.
proof fn lemma_max_of_remove(
    s: Seq<MeasurementEntry>,
    i: int,
    f: spec_fn(MeasurementEntry) -> int,
)
    requires
        0 <= i < s.len(),
    ensures
        max_of(s, f) == if f(s[i]) > max_of(s.remove(i), f) {
            f(s[i])
        } else {
            max_of(s.remove(i), f)
        },
    decreases s.len(),
{
    if i == s.len() - 1 {
        assert(s.remove(i) =~= s.drop_last());
    } else {
        assert(s.remove(i).drop_last() =~= s.drop_last().remove(i));
        lemma_max_of_remove(s.drop_last(), i, f);
        assert(s.remove(i).last() == s.last());
    }
}

/// The sum of `f` is a function of the multiset of samples alone.
proof fn lemma_sum_of_permutation(
    s1: Seq<MeasurementEntry>,
    s2: Seq<MeasurementEntry>,
    f: spec_fn(MeasurementEntry) -> int,
)
    requires
        s1.to_multiset() == s2.to_multiset(),
    ensures
        sum_of(s1, f) == sum_of(s2, f),
    decreases s1.len(),
{
    broadcast use vstd::seq_lib::group_to_multiset_ensures;

    if s1.len() == 0 {
        assert(s1.to_multiset().len() == s1.len());
        assert(s2.to_multiset().len() == s2.len());
        assert(s2.len() == 0);
    } else {
        let x = s1.last();
        let s1d = s1.drop_last();
        assert(s1 =~= s1d.push(x));
        assert(s1.to_multiset().count(x) > 0);
        assert(s2.contains(x));
        let j = choose|j: int| 0 <= j < s2.len() && s2[j] == x;
        assert(s2.remove(j).to_multiset() =~= s1d.to_multiset());
        lemma_sum_of_permutation(s1d, s2.remove(j), f);
        lemma_sum_of_remove(s2, j, f);
    }
}

/// The maximum of `f` is a function of the multiset of samples alone.
proof fn lemma_max_of_permutation(
    s1: Seq<MeasurementEntry>,
    s2: Seq<MeasurementEntry>,
    f: spec_fn(MeasurementEntry) -> int,
)
    requires
        s1.to_multiset() == s2.to_multiset(),
    ensures
        max_of(s1, f) == max_of(s2, f),
    decreases s1.len(),
{
    broadcast use vstd::seq_lib::group_to_multiset_ensures;

    if s1.len() == 0 {
        assert(s1.to_multiset().len() == s1.len());
        assert(s2.to_multiset().len() == s2.len());
        assert(s2.len() == 0);
    } else {
        let x = s1.last();
        let s1d = s1.drop_last();
        assert(s1 =~= s1d.push(x));
        assert(s1.to_multiset().count(x) > 0);
        assert(s2.contains(x));
        let j = choose|j: int| 0 <= j < s2.len() && s2[j] == x;
        assert(s2.remove(j).to_multiset() =~= s1d.to_multiset());
        lemma_max_of_permutation(s1d, s2.remove(j), f);
        lemma_max_of_remove(s2, j, f);
        assert(s1.remove(s1.len() - 1) =~= s1d);
        lemma_max_of_remove(s1, s1.len() - 1, f);
    }
}

/// Throughput, mean latency and latency variance are deterministic
/// functions of the accumulated samples, and the order in which samples
/// were inserted does not affect them: two collections holding the same
/// samples agree on every aggregate.
pub proof fn lemma_aggregates_insertion_order_invariant(
    s1: Seq<MeasurementEntry>,
    s2: Seq<MeasurementEntry>,
    label: Seq<char>,
)
    requires
        s1.to_multiset() == s2.to_multiset(),
    ensures
        spec_tps(s1, label) == spec_tps(s2, label),
        spec_average_latency(s1, label) == spec_average_latency(s2, label),
        spec_latency_variance(s1, label) == spec_latency_variance(s2, label),
{
    lemma_sum_of_permutation(s1, s2, count_weight(label));
    lemma_sum_of_permutation(s1, s2, latency_weight(label));
    lemma_sum_of_permutation(s1, s2, squared_weight(label));
    lemma_max_of_permutation(s1, s2, timestamp_weight(label));
}


/// The sum of a weight bounded by `hi` over `s` is bounded by
/// `s.len() * hi`.
proof fn lemma_sum_of_bound(
    s: Seq<MeasurementEntry>,
    f: spec_fn(MeasurementEntry) -> int,
    hi: int,
)
    requires
        hi >= 0,
        forall|e: MeasurementEntry| 0 <= #[trigger] f(e) <= hi,
    ensures
        0 <= sum_of(s, f) <= s.len() * hi,
    decreases s.len(),
{
    if s.len() == 0 {
    } else {
        lemma_sum_of_bound(s.drop_last(), f, hi);
        assert((s.len() - 1) * hi + hi == s.len() * hi) by (nonlinear_arith);
    }
}

/// The maximum of a weight bounded by `hi` is bounded by `hi`.
proof fn lemma_max_of_bound(
    s: Seq<MeasurementEntry>,
    f: spec_fn(MeasurementEntry) -> int,
    hi: int,
)
    requires
        hi >= 0,
        forall|e: MeasurementEntry| 0 <= #[trigger] f(e) <= hi,
    ensures
        0 <= max_of(s, f) <= hi,
    decreases s.len(),
{
    if s.len() > 0 {
        lemma_max_of_bound(s.drop_last(), f, hi);
    }
}

/// Every aggregate of a collection that fits in memory fits in
/// `u128`: the totals stay below `len · u64::MAX`, and ratios only
/// shrink them.
pub proof fn lemma_aggregate_ranges(s: Seq<MeasurementEntry>, label: Seq<char>)
    requires
        s.len() <= usize::MAX,
    ensures
        0 <= spec_tps(s, label) <= u128::MAX,
        0 <= spec_average_latency(s, label) <= u128::MAX,
        0 <= spec_latency_variance(s, label) <= u128::MAX,
{
    lemma_sum_of_bound(s, count_weight(label), u64::MAX as int);
    lemma_sum_of_bound(s, latency_weight(label), u64::MAX as int);
    lemma_sum_of_bound(s, squared_weight(label), u64::MAX as int);
    lemma_max_of_bound(s, timestamp_weight(label), u64::MAX as int);
    assert((s.len() as int) * (u64::MAX as int) <= (usize::MAX as int) * (u64::MAX as int))
        by (nonlinear_arith)
        requires
            s.len() <= usize::MAX,
    ;
    assert((usize::MAX as int) * (u64::MAX as int) <= u128::MAX as int) by (nonlinear_arith)
        requires
            usize::MAX as int <= u64::MAX as int,
    ;
}

} // verus!
