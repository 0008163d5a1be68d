//! A finished run and its persisted form.
//!
//! A [`BenchmarkResult`] pairs the parameters of a run with its final
//! measurements and a timestamp. It persists as one JSON document —
//! network kind, parameters, aggregates, timestamp — whose exact text
//! is [`render_spec`]; [`BenchmarkResult::parse_summary`] reads such a
//! document back, and its contract states the round trip: every
//! document rendered from a well-formed summary parses back to exactly
//! that summary.

use vstd::prelude::*;
use vstd::string::StrSliceExecFns;
use vstd::string::StringExecFns;

use crate::benchmark::{BenchmarkParameters, NetworkType};
use crate::faults::FaultsType;
use crate::measurement::{
    spec_average_latency, spec_latency_variance, spec_tps, MeasurementsCollection,
};
use crate::mysticeti::MysticetiBenchmarkType;
use crate::num::{dec_rep, parse_number_spec};

verus! {

/// A finished benchmark run: what was asked, what was measured, and
/// when it completed.
#[derive(Debug, Clone)]
pub struct BenchmarkResult<T> {
    /// Which network kind ran.
    pub network_type: NetworkType,
    /// The parameters of the run.
    pub parameters: BenchmarkParameters<T>,
    /// The samples the run accumulated.
    pub measurements: MeasurementsCollection<T>,
    /// When the run completed, as the clock reported it.
    pub timestamp: String,
    /// Free-form annotations; empty at creation.
    pub metadata: Vec<(String, String)>,
}

/// Relies on chrono's `Utc::now` and `DateTime::to_rfc3339`: the clock
/// decides the result, so nothing is promised of it.
#[verifier::external_body]
fn current_timestamp() -> (r: String) {
    chrono::Utc::now().to_rfc3339()
}

/// Relies on chrono's `Utc::now` and `DateTime::format` with
/// `%Y%m%d_%H%M%S`: the clock decides the result, so nothing is
/// promised of it.
#[verifier::external_body]
pub fn compact_timestamp() -> (r: String) {
    chrono::Utc::now().format("%Y%m%d_%H%M%S").to_string()
}

impl<T> BenchmarkResult<T> {
    /// Pack a finished run, stamped with the current clock reading and
    /// no annotations.
    pub fn new(
        network_type: NetworkType,
        parameters: BenchmarkParameters<T>,
        measurements: MeasurementsCollection<T>,
    ) -> (r: Self)
        ensures
            r.network_type == network_type,
            r.parameters == parameters,
            r.measurements == measurements,
            r.metadata@.len() == 0,
    {
        BenchmarkResult {
            network_type,
            parameters,
            measurements,
            timestamp: current_timestamp(),
            metadata: Vec::new(),
        }
    }
}

/// The word a network kind renders as.
pub open spec fn net_text(t: NetworkType) -> Seq<char> {
    match t {
        NetworkType::Local => "Local"@,
        NetworkType::Remote => "Remote"@,
    }
}

/// The word a boolean renders as.
pub open spec fn bool_text(b: bool) -> Seq<char> {
    if b {
        "true"@
    } else {
        "false"@
    }
}

/// A string safe to embed in a JSON string field without escaping.
pub open spec fn json_safe(s: Seq<char>) -> bool {
    forall|i: int| 0 <= i < s.len() ==> #[trigger] s[i] != '"' && s[i] != '\\'
}

/// Everything a persisted result document states, as plain values.
pub ghost struct SummaryView {
    /// Which network kind ran.
    pub network_type: NetworkType,
    /// When the run completed.
    pub timestamp: Seq<char>,
    /// The committee size.
    pub nodes: int,
    /// The offered load, in transactions per second.
    pub load: int,
    /// The run's duration, in seconds.
    pub duration_secs: int,
    /// The transaction size, in bytes.
    pub transaction_size: int,
    /// How many nodes the fault schedule takes down.
    pub faults: int,
    /// Whether the faulty nodes recover.
    pub crash_recovery: bool,
    /// The interval between crashes, in seconds.
    pub crash_interval_secs: int,
    /// The measured throughput, in transactions per second.
    pub throughput: int,
    /// The measured mean latency, in milliseconds.
    pub avg_latency_ms: int,
    /// The measured latency standard deviation, in milliseconds.
    pub stdev_latency_ms: int,
    /// How many submissions succeeded.
    pub successful_transactions: int,
    /// How many submissions failed.
    pub failed_transactions: int,
}

/// A summary whose numbers fit the machine and whose timestamp needs
/// no escaping: every summary the crate renders is of this shape.
pub open spec fn summary_wf(m: SummaryView) -> bool {
    &&& json_safe(m.timestamp)
    &&& 0 <= m.nodes <= u64::MAX
    &&& 0 <= m.load <= u64::MAX
    &&& 0 <= m.duration_secs <= u64::MAX
    &&& 0 <= m.transaction_size <= u64::MAX
    &&& 0 <= m.faults <= u64::MAX
    &&& 0 <= m.crash_interval_secs <= u64::MAX
    &&& 0 <= m.throughput <= u128::MAX
    &&& 0 <= m.avg_latency_ms <= u128::MAX
    &&& 0 <= m.stdev_latency_ms <= u64::MAX
    &&& 0 <= m.successful_transactions <= u64::MAX
    &&& 0 <= m.failed_transactions <= u64::MAX
}

/// The exact text of a persisted result document.
pub open spec fn render_spec(m: SummaryView) -> Seq<char> {
    "{\"network_type\":\""@ + net_text(m.network_type) + "\",\"timestamp\":\""@ + m.timestamp
        + "\",\"parameters\":{\"nodes\":"@ + dec_rep(m.nodes as nat) + ",\"load\":"@ + dec_rep(
        m.load as nat,
    ) + ",\"duration_secs\":"@ + dec_rep(m.duration_secs as nat) + ",\"transaction_size\":"@
        + dec_rep(m.transaction_size as nat) + ",\"faults\":"@ + dec_rep(m.faults as nat)
        + ",\"crash_recovery\":"@ + bool_text(m.crash_recovery) + ",\"crash_interval_secs\":"@
        + dec_rep(m.crash_interval_secs as nat) + "},\"results\":{\"throughput\":"@ + dec_rep(
        m.throughput as nat,
    ) + ",\"avg_latency_ms\":"@ + dec_rep(m.avg_latency_ms as nat) + ",\"stdev_latency_ms\":"@
        + dec_rep(m.stdev_latency_ms as nat) + ",\"successful_transactions\":"@ + dec_rep(
        m.successful_transactions as nat,
    ) + ",\"failed_transactions\":"@ + dec_rep(m.failed_transactions as nat) + "}}"@
}

/// A parsed result document: the same values, as machine integers.
#[derive(Debug, Clone)]
pub struct BenchmarkSummary {
    pub network_type: NetworkType,
    pub timestamp: String,
    pub nodes: u64,
    pub load: u64,
    pub duration_secs: u64,
    pub transaction_size: u64,
    pub faults: u64,
    pub crash_recovery: bool,
    pub crash_interval_secs: u64,
    pub throughput: u128,
    pub avg_latency_ms: u128,
    pub stdev_latency_ms: u64,
    pub successful_transactions: u64,
    pub failed_transactions: u64,
}

impl BenchmarkSummary {
    /// The values this summary states.
    pub open spec fn view_spec(&self) -> SummaryView {
        SummaryView {
            network_type: self.network_type,
            timestamp: self.timestamp@,
            nodes: self.nodes as int,
            load: self.load as int,
            duration_secs: self.duration_secs as int,
            transaction_size: self.transaction_size as int,
            faults: self.faults as int,
            crash_recovery: self.crash_recovery,
            crash_interval_secs: self.crash_interval_secs as int,
            throughput: self.throughput as int,
            avg_latency_ms: self.avg_latency_ms as int,
            stdev_latency_ms: self.stdev_latency_ms as int,
            successful_transactions: self.successful_transactions as int,
            failed_transactions: self.failed_transactions as int,
        }
    }
}

impl BenchmarkResult<MysticetiBenchmarkType> {
    /// The label whose aggregates the document reports: the stream of
    /// the first accumulated sample.
    pub open spec fn spec_report_label(&self) -> Seq<char> {
        if self.measurements.entries@.len() == 0 {
            Seq::<char>::empty()
        } else {
            self.measurements.entries@[0].label@
        }
    }

    /// The summary this result persists as: its parameters, and the
    /// aggregates of its first metric stream. The successful count
    /// reports the offered load, failures are not tracked per run.
    pub open spec fn spec_summary(&self) -> SummaryView {
        SummaryView {
            network_type: self.network_type,
            timestamp: self.timestamp@,
            nodes: self.parameters.nodes as int,
            load: self.parameters.load as int,
            duration_secs: self.parameters.duration_secs as int,
            transaction_size: self.parameters.benchmark_type.transaction_size as int,
            faults: self.parameters.faults.spec_faults() as int,
            crash_recovery: self.parameters.faults is CrashRecovery,
            crash_interval_secs: (match self.parameters.faults {
                FaultsType::Permanent { .. } => 0,
                FaultsType::CrashRecovery { interval_secs, .. } => interval_secs as int,
            }),
            throughput: spec_tps(self.measurements.entries@, self.spec_report_label()),
            avg_latency_ms: spec_average_latency(
                self.measurements.entries@,
                self.spec_report_label(),
            ),
            stdev_latency_ms: crate::result::stdev_of(
                spec_latency_variance(self.measurements.entries@, self.spec_report_label()),
            ),
            successful_transactions: self.parameters.load as int,
            failed_transactions: 0,
        }
    }
}

/// The integer square root of a non-negative variance: the unique `r`
/// with `r² ≤ v < (r+1)²`.
pub open spec fn stdev_of(v: int) -> int {
    choose|r: int| 0 <= r && (#[trigger] (r * r)) <= v && v < (r + 1) * (r + 1)
}

/// Such a root exists and is unique, so `stdev_of` is well defined.
pub proof fn lemma_stdev_of(v: int, r: int)
    requires
        0 <= r,
        r * r <= v,
        v < (r + 1) * (r + 1),
    ensures
        stdev_of(v) == r,
{
    let w = stdev_of(v);
    assert(0 <= w && w * w <= v && v < (w + 1) * (w + 1));
    if w < r {
        assert((w + 1) * (w + 1) <= r * r) by (nonlinear_arith)
            requires
                0 <= w,
                w < r,
        ;
    } else if r < w {
        assert((r + 1) * (r + 1) <= w * w) by (nonlinear_arith)
            requires
                0 <= r,
                r < w,
        ;
    }
}


/// Where segment `k` starts inside the flattened document.
pub open spec fn seg_offset(ss: Seq<Seq<char>>, k: int) -> int
    decreases k,
{
    if k <= 0 {
        0
    } else {
        seg_offset(ss, k - 1) + ss[k - 1].len()
    }
}

proof fn lemma_seg_offset_nonneg(ss: Seq<Seq<char>>, k: int)
    ensures
        seg_offset(ss, k) >= 0,
    decreases k,
{
    if k > 0 {
        lemma_seg_offset_nonneg(ss, k - 1);
    }
}

proof fn lemma_seg_offset_drop_first(ss: Seq<Seq<char>>, k: int)
    requires
        1 <= k <= ss.len(),
    ensures
        seg_offset(ss, k) == ss[0].len() + seg_offset(ss.drop_first(), k - 1),
    decreases k,
{
    if k == 1 {
        assert(seg_offset(ss, 1) == seg_offset(ss, 0) + ss[0].len());
        assert(seg_offset(ss, 0) == 0);
        assert(seg_offset(ss.drop_first(), 0) == 0);
    } else {
        lemma_seg_offset_drop_first(ss, k - 1);
        assert(ss.drop_first()[k - 2] == ss[k - 1]);
        assert(seg_offset(ss, k) == seg_offset(ss, k - 1) + ss[k - 1].len());
        assert(seg_offset(ss.drop_first(), k - 1) == seg_offset(ss.drop_first(), k - 2)
            + ss.drop_first()[k - 2].len());
    }
}

proof fn lemma_expect_shift(pre: Seq<char>, t: Seq<char>, pos: int, lit: Seq<char>)
    requires
        0 <= pos,
        crate::num::expect_spec(t, pos, lit),
    ensures
        crate::num::expect_spec(pre + t, pre.len() + pos, lit),
{
    let s = pre + t;
    let q = pre.len() + pos;
    assert forall|k: int| 0 <= k < lit.len() implies s.subrange(q, q + lit.len())[k] == lit[k] by {
        assert(s[q + k] == t[pos + k]);
        assert(t.subrange(pos, pos + lit.len())[k] == lit[k]);
    }
    assert(s.subrange(q, q + lit.len()) =~= lit);
}

/// Each segment of a flattened document stands at its offset.
proof fn lemma_flatten_segment(ss: Seq<Seq<char>>, k: int)
    requires
        0 <= k < ss.len(),
    ensures
        crate::num::expect_spec(ss.flatten(), seg_offset(ss, k), ss[k]),
    decreases k,
{
    let s = ss.flatten();
    lemma_seg_offset_nonneg(ss, k);
    lemma_seg_offset_nonneg(ss.drop_first(), k - 1);
    assert(s == ss.first() + ss.drop_first().flatten());
    if k == 0 {
        let lit = ss[0];
        assert forall|i: int| 0 <= i < lit.len() implies s.subrange(0, lit.len() as int)[i]
            == lit[i] by {
            assert(s[i] == (ss.first() + ss.drop_first().flatten())[i]);
        }
        assert(s.subrange(0, lit.len() as int) =~= lit);
    } else {
        lemma_flatten_segment(ss.drop_first(), k - 1);
        lemma_seg_offset_drop_first(ss, k);
        assert(ss.drop_first()[k - 1] == ss[k]);
        lemma_expect_shift(ss.first(), ss.drop_first().flatten(), seg_offset(ss.drop_first(), k - 1), ss[k]);
    }
}

/// A flattened document is exactly as long as its segments together.
proof fn lemma_flatten_total_len(ss: Seq<Seq<char>>)
    ensures
        ss.flatten().len() == seg_offset(ss, ss.len() as int),
    decreases ss.len(),
{
    if ss.len() > 0 {
        lemma_flatten_total_len(ss.drop_first());
        lemma_seg_offset_drop_first(ss, ss.len() as int);
        assert(ss.flatten() == ss.first() + ss.drop_first().flatten());
    }
}

/// A decimal segment parses as a number: its run of digits stops
/// exactly where the next segment starts, because that segment opens
/// with a non-digit.
proof fn lemma_flatten_number(ss: Seq<Seq<char>>, k: int, n: nat)
    requires
        0 <= k,
        k + 1 < ss.len(),
        ss[k] == crate::num::dec_rep(n),
        ss[k + 1].len() > 0,
        !crate::num::is_digit(ss[k + 1][0]),
    ensures
        crate::num::parse_number_spec(ss.flatten(), seg_offset(ss, k)) == Some(
            (n, seg_offset(ss, k + 1)),
        ),
{
    let s = ss.flatten();
    let p = seg_offset(ss, k);
    let q = seg_offset(ss, k + 1);
    lemma_seg_offset_nonneg(ss, k);
    lemma_flatten_segment(ss, k);
    lemma_flatten_segment(ss, k + 1);
    crate::num::lemma_dec_rep_digits(n);
    assert(q == p + ss[k].len());
    assert(s.subrange(p, q) == ss[k]);
    assert forall|i: int| p <= i < q implies crate::num::is_digit(#[trigger] s[i]) by {
        assert(s.subrange(p, q)[i - p] == s[i]);
        assert(crate::num::dec_rep(n)[i - p] == s[i]);
    }
    assert(s.subrange(q, q + ss[k + 1].len())[0] == s[q]);
    assert(s[q] == ss[k + 1][0]);
    crate::num::lemma_digit_run_exact(s, p, q);
    crate::num::lemma_dec_rep_val(n);
    assert(crate::num::digits_val(s.subrange(p, q)) == n);
}

/// A quote-free segment followed by a quote scans exactly to the next
/// segment's start.
proof fn lemma_flatten_string(ss: Seq<Seq<char>>, k: int)
    requires
        0 <= k,
        k + 1 < ss.len(),
        forall|i: int| 0 <= i < ss[k].len() ==> #[trigger] ss[k][i] != '"',
        ss[k + 1].len() > 0,
        ss[k + 1][0] == '"',
    ensures
        crate::num::run_until(ss.flatten(), seg_offset(ss, k), '"') == seg_offset(ss, k + 1),
{
    let s = ss.flatten();
    let p = seg_offset(ss, k);
    let q = seg_offset(ss, k + 1);
    lemma_seg_offset_nonneg(ss, k);
    lemma_flatten_segment(ss, k);
    lemma_flatten_segment(ss, k + 1);
    assert(q == p + ss[k].len());
    assert forall|i: int| p <= i < q implies #[trigger] s[i] != '"' by {
        assert(s.subrange(p, q)[i - p] == s[i]);
        assert(ss[k][i - p] == s[i]);
    }
    assert(s.subrange(q, q + ss[k + 1].len())[0] == s[q]);
    assert(s[q] == ss[k + 1][0]);
    crate::num::lemma_run_until_exact(s, p, q, '"');
}

/// The segments of a result document, in order: literal punctuation
/// interleaved with the summary's rendered values.
pub open spec fn doc_segs(m: SummaryView) -> Seq<Seq<char>> {
    seq![
        "{\"network_type\":\""@,
        net_text(m.network_type),
        "\",\"timestamp\":\""@,
        m.timestamp,
        "\",\"parameters\":{\"nodes\":"@,
        dec_rep(m.nodes as nat),
        ",\"load\":"@,
        dec_rep(m.load as nat),
        ",\"duration_secs\":"@,
        dec_rep(m.duration_secs as nat),
        ",\"transaction_size\":"@,
        dec_rep(m.transaction_size as nat),
        ",\"faults\":"@,
        dec_rep(m.faults as nat),
        ",\"crash_recovery\":"@,
        bool_text(m.crash_recovery),
        ",\"crash_interval_secs\":"@,
        dec_rep(m.crash_interval_secs as nat),
        "},\"results\":{\"throughput\":"@,
        dec_rep(m.throughput as nat),
        ",\"avg_latency_ms\":"@,
        dec_rep(m.avg_latency_ms as nat),
        ",\"stdev_latency_ms\":"@,
        dec_rep(m.stdev_latency_ms as nat),
        ",\"successful_transactions\":"@,
        dec_rep(m.successful_transactions as nat),
        ",\"failed_transactions\":"@,
        dec_rep(m.failed_transactions as nat),
        "}}"@,
    ]
}

/// Where the `k`-th segment of `m`'s document starts.
pub open spec fn doc_pos(m: SummaryView, k: int) -> int {
    seg_offset(doc_segs(m), k)
}

/// The shape of a rendered document: every segment stands at its
/// offset, every number parses back to the value it rendered, the
/// timestamp scans to the quote that closes it, and nothing follows
/// the final brace. These facts drive the parser's round-trip
/// contract.
#[verifier::rlimit(100)]
/// A document renders exactly as its segments flatten.
proof fn lemma_render_is_flatten(m: SummaryView)
    ensures
        render_spec(m) == doc_segs(m).flatten(),
{
    broadcast use Seq::lemma_flatten_push;

    let ss = doc_segs(m);
    let chain = Seq::<Seq<char>>::empty().push("{\"network_type\":\""@).push(
        net_text(m.network_type),
    ).push("\",\"timestamp\":\""@).push(m.timestamp).push(
        "\",\"parameters\":{\"nodes\":"@,
    ).push(dec_rep(m.nodes as nat)).push(",\"load\":"@).push(dec_rep(m.load as nat)).push(
        ",\"duration_secs\":"@,
    ).push(dec_rep(m.duration_secs as nat)).push(",\"transaction_size\":"@).push(
        dec_rep(m.transaction_size as nat),
    ).push(",\"faults\":"@).push(dec_rep(m.faults as nat)).push(",\"crash_recovery\":"@).push(
        bool_text(m.crash_recovery),
    ).push(",\"crash_interval_secs\":"@).push(dec_rep(m.crash_interval_secs as nat)).push(
        "},\"results\":{\"throughput\":"@,
    ).push(dec_rep(m.throughput as nat)).push(",\"avg_latency_ms\":"@).push(
        dec_rep(m.avg_latency_ms as nat),
    ).push(",\"stdev_latency_ms\":"@).push(dec_rep(m.stdev_latency_ms as nat)).push(
        ",\"successful_transactions\":"@,
    ).push(dec_rep(m.successful_transactions as nat)).push(",\"failed_transactions\":"@).push(
        dec_rep(m.failed_transactions as nat),
    ).push("}}"@);
    assert(chain =~= ss);
    assert(Seq::<Seq<char>>::empty().flatten() =~= Seq::<char>::empty());
    assert(chain.flatten() =~= render_spec(m));
    assert(ss.flatten() == chain.flatten());
}

#[verifier::rlimit(100)]
pub broadcast proof fn lemma_render_shape(m: SummaryView)
    requires
        summary_wf(m),
    ensures
        (#[trigger] render_spec(m)).len() == doc_pos(m, 29),
        crate::num::expect_spec(render_spec(m), doc_pos(m, 0), "{\"network_type\":\""@),
        crate::num::expect_spec(render_spec(m), doc_pos(m, 2), "\",\"timestamp\":\""@),
        crate::num::expect_spec(render_spec(m), doc_pos(m, 4), "\",\"parameters\":{\"nodes\":"@),
        crate::num::expect_spec(render_spec(m), doc_pos(m, 6), ",\"load\":"@),
        crate::num::expect_spec(render_spec(m), doc_pos(m, 8), ",\"duration_secs\":"@),
        crate::num::expect_spec(render_spec(m), doc_pos(m, 10), ",\"transaction_size\":"@),
        crate::num::expect_spec(render_spec(m), doc_pos(m, 12), ",\"faults\":"@),
        crate::num::expect_spec(render_spec(m), doc_pos(m, 14), ",\"crash_recovery\":"@),
        crate::num::expect_spec(render_spec(m), doc_pos(m, 16), ",\"crash_interval_secs\":"@),
        crate::num::expect_spec(render_spec(m), doc_pos(m, 18), "},\"results\":{\"throughput\":"@),
        crate::num::expect_spec(render_spec(m), doc_pos(m, 20), ",\"avg_latency_ms\":"@),
        crate::num::expect_spec(render_spec(m), doc_pos(m, 22), ",\"stdev_latency_ms\":"@),
        crate::num::expect_spec(render_spec(m), doc_pos(m, 24), ",\"successful_transactions\":"@),
        crate::num::expect_spec(render_spec(m), doc_pos(m, 26), ",\"failed_transactions\":"@),
        crate::num::expect_spec(render_spec(m), doc_pos(m, 28), "}}"@),
        crate::num::expect_spec(render_spec(m), doc_pos(m, 1), net_text(m.network_type)),
        crate::num::expect_spec(render_spec(m), doc_pos(m, 15), bool_text(m.crash_recovery)),
        crate::num::expect_spec(render_spec(m), doc_pos(m, 3), m.timestamp),
        doc_pos(m, 0) == 0,
        doc_pos(m, 1) == doc_pos(m, 0) + "{\"network_type\":\""@.len(),
        doc_pos(m, 3) == doc_pos(m, 2) + "\",\"timestamp\":\""@.len(),
        doc_pos(m, 5) == doc_pos(m, 4) + "\",\"parameters\":{\"nodes\":"@.len(),
        doc_pos(m, 7) == doc_pos(m, 6) + ",\"load\":"@.len(),
        doc_pos(m, 9) == doc_pos(m, 8) + ",\"duration_secs\":"@.len(),
        doc_pos(m, 11) == doc_pos(m, 10) + ",\"transaction_size\":"@.len(),
        doc_pos(m, 13) == doc_pos(m, 12) + ",\"faults\":"@.len(),
        doc_pos(m, 15) == doc_pos(m, 14) + ",\"crash_recovery\":"@.len(),
        doc_pos(m, 17) == doc_pos(m, 16) + ",\"crash_interval_secs\":"@.len(),
        doc_pos(m, 19) == doc_pos(m, 18) + "},\"results\":{\"throughput\":"@.len(),
        doc_pos(m, 21) == doc_pos(m, 20) + ",\"avg_latency_ms\":"@.len(),
        doc_pos(m, 23) == doc_pos(m, 22) + ",\"stdev_latency_ms\":"@.len(),
        doc_pos(m, 25) == doc_pos(m, 24) + ",\"successful_transactions\":"@.len(),
        doc_pos(m, 27) == doc_pos(m, 26) + ",\"failed_transactions\":"@.len(),
        doc_pos(m, 29) == doc_pos(m, 28) + "}}"@.len(),
        doc_pos(m, 2) == doc_pos(m, 1) + net_text(m.network_type).len(),
        doc_pos(m, 16) == doc_pos(m, 15) + bool_text(m.crash_recovery).len(),
        parse_number_spec(render_spec(m), doc_pos(m, 5)) == Some(((m.nodes) as nat, doc_pos(m, 6))),
        parse_number_spec(render_spec(m), doc_pos(m, 7)) == Some(((m.load) as nat, doc_pos(m, 8))),
        parse_number_spec(render_spec(m), doc_pos(m, 9)) == Some(((m.duration_secs) as nat, doc_pos(m, 10))),
        parse_number_spec(render_spec(m), doc_pos(m, 11)) == Some(((m.transaction_size) as nat, doc_pos(m, 12))),
        parse_number_spec(render_spec(m), doc_pos(m, 13)) == Some(((m.faults) as nat, doc_pos(m, 14))),
        parse_number_spec(render_spec(m), doc_pos(m, 17)) == Some(((m.crash_interval_secs) as nat, doc_pos(m, 18))),
        parse_number_spec(render_spec(m), doc_pos(m, 19)) == Some(((m.throughput) as nat, doc_pos(m, 20))),
        parse_number_spec(render_spec(m), doc_pos(m, 21)) == Some(((m.avg_latency_ms) as nat, doc_pos(m, 22))),
        parse_number_spec(render_spec(m), doc_pos(m, 23)) == Some(((m.stdev_latency_ms) as nat, doc_pos(m, 24))),
        parse_number_spec(render_spec(m), doc_pos(m, 25)) == Some(((m.successful_transactions) as nat, doc_pos(m, 26))),
        parse_number_spec(render_spec(m), doc_pos(m, 27)) == Some(((m.failed_transactions) as nat, doc_pos(m, 28))),
        crate::num::run_until(render_spec(m), doc_pos(m, 3), '"') == doc_pos(m, 4),
        doc_pos(m, 4) < render_spec(m).len(),
        m.network_type is Remote ==> !crate::num::expect_spec(render_spec(m), doc_pos(m, 1), "Local"@),
        !m.crash_recovery ==> !crate::num::expect_spec(render_spec(m), doc_pos(m, 15), "true"@),
        render_spec(m).len() == doc_pos(m, 29),
{
    let ss = doc_segs(m);
    let s = render_spec(m);
    lemma_render_is_flatten(m);
    assert(ss[0] == "{\"network_type\":\""@);
    assert(ss[1] == net_text(m.network_type));
    assert(ss[2] == "\",\"timestamp\":\""@);
    assert(ss[3] == m.timestamp);
    assert(ss[4] == "\",\"parameters\":{\"nodes\":"@);
    assert(ss[5] == dec_rep(m.nodes as nat));
    assert(ss[6] == ",\"load\":"@);
    assert(ss[7] == dec_rep(m.load as nat));
    assert(ss[8] == ",\"duration_secs\":"@);
    assert(ss[9] == dec_rep(m.duration_secs as nat));
    assert(ss[10] == ",\"transaction_size\":"@);
    assert(ss[11] == dec_rep(m.transaction_size as nat));
    assert(ss[12] == ",\"faults\":"@);
    assert(ss[13] == dec_rep(m.faults as nat));
    assert(ss[14] == ",\"crash_recovery\":"@);
    assert(ss[15] == bool_text(m.crash_recovery));
    assert(ss[16] == ",\"crash_interval_secs\":"@);
    assert(ss[17] == dec_rep(m.crash_interval_secs as nat));
    assert(ss[18] == "},\"results\":{\"throughput\":"@);
    assert(ss[19] == dec_rep(m.throughput as nat));
    assert(ss[20] == ",\"avg_latency_ms\":"@);
    assert(ss[21] == dec_rep(m.avg_latency_ms as nat));
    assert(ss[22] == ",\"stdev_latency_ms\":"@);
    assert(ss[23] == dec_rep(m.stdev_latency_ms as nat));
    assert(ss[24] == ",\"successful_transactions\":"@);
    assert(ss[25] == dec_rep(m.successful_transactions as nat));
    assert(ss[26] == ",\"failed_transactions\":"@);
    assert(ss[27] == dec_rep(m.failed_transactions as nat));
    assert(ss[28] == "}}"@);
    assert(seg_offset(ss, 1) == seg_offset(ss, 0) + ss[0].len());
    assert(seg_offset(ss, 2) == seg_offset(ss, 1) + ss[1].len());
    assert(seg_offset(ss, 3) == seg_offset(ss, 2) + ss[2].len());
    assert(seg_offset(ss, 4) == seg_offset(ss, 3) + ss[3].len());
    assert(seg_offset(ss, 5) == seg_offset(ss, 4) + ss[4].len());
    assert(seg_offset(ss, 6) == seg_offset(ss, 5) + ss[5].len());
    assert(seg_offset(ss, 7) == seg_offset(ss, 6) + ss[6].len());
    assert(seg_offset(ss, 8) == seg_offset(ss, 7) + ss[7].len());
    assert(seg_offset(ss, 9) == seg_offset(ss, 8) + ss[8].len());
    assert(seg_offset(ss, 10) == seg_offset(ss, 9) + ss[9].len());
    assert(seg_offset(ss, 11) == seg_offset(ss, 10) + ss[10].len());
    assert(seg_offset(ss, 12) == seg_offset(ss, 11) + ss[11].len());
    assert(seg_offset(ss, 13) == seg_offset(ss, 12) + ss[12].len());
    assert(seg_offset(ss, 14) == seg_offset(ss, 13) + ss[13].len());
    assert(seg_offset(ss, 15) == seg_offset(ss, 14) + ss[14].len());
    assert(seg_offset(ss, 16) == seg_offset(ss, 15) + ss[15].len());
    assert(seg_offset(ss, 17) == seg_offset(ss, 16) + ss[16].len());
    assert(seg_offset(ss, 18) == seg_offset(ss, 17) + ss[17].len());
    assert(seg_offset(ss, 19) == seg_offset(ss, 18) + ss[18].len());
    assert(seg_offset(ss, 20) == seg_offset(ss, 19) + ss[19].len());
    assert(seg_offset(ss, 21) == seg_offset(ss, 20) + ss[20].len());
    assert(seg_offset(ss, 22) == seg_offset(ss, 21) + ss[21].len());
    assert(seg_offset(ss, 23) == seg_offset(ss, 22) + ss[22].len());
    assert(seg_offset(ss, 24) == seg_offset(ss, 23) + ss[23].len());
    assert(seg_offset(ss, 25) == seg_offset(ss, 24) + ss[24].len());
    assert(seg_offset(ss, 26) == seg_offset(ss, 25) + ss[25].len());
    assert(seg_offset(ss, 27) == seg_offset(ss, 26) + ss[26].len());
    assert(seg_offset(ss, 28) == seg_offset(ss, 27) + ss[27].len());
    assert(seg_offset(ss, 29) == seg_offset(ss, 28) + ss[28].len());
    assert forall|k: int| 0 <= k < 29 implies crate::num::expect_spec(
        render_spec(m),
        doc_pos(m, k),
        doc_segs(m)[k],
    ) by {
        lemma_flatten_segment(ss, k);
    }
    assert forall|k: int| 0 <= k < 30 implies #[trigger] doc_pos(m, k) >= 0 by {
        lemma_seg_offset_nonneg(ss, k);
    }
    reveal_strlit("true");
    reveal_strlit("false");
    reveal_strlit("Local");
    reveal_strlit("Remote");
    reveal_strlit("\",\"parameters\":{\"nodes\":");
    reveal_strlit(",\"load\":");
    reveal_strlit(",\"duration_secs\":");
    reveal_strlit(",\"transaction_size\":");
    reveal_strlit(",\"faults\":");
    reveal_strlit(",\"crash_recovery\":");
    reveal_strlit(",\"crash_interval_secs\":");
    reveal_strlit("},\"results\":{\"throughput\":");
    reveal_strlit(",\"avg_latency_ms\":");
    reveal_strlit(",\"stdev_latency_ms\":");
    reveal_strlit(",\"successful_transactions\":");
    reveal_strlit(",\"failed_transactions\":");
    reveal_strlit("}}");
    lemma_flatten_number(ss, 5, m.nodes as nat);
    lemma_flatten_number(ss, 7, m.load as nat);
    lemma_flatten_number(ss, 9, m.duration_secs as nat);
    lemma_flatten_number(ss, 11, m.transaction_size as nat);
    lemma_flatten_number(ss, 13, m.faults as nat);
    lemma_flatten_number(ss, 17, m.crash_interval_secs as nat);
    lemma_flatten_number(ss, 19, m.throughput as nat);
    lemma_flatten_number(ss, 21, m.avg_latency_ms as nat);
    lemma_flatten_number(ss, 23, m.stdev_latency_ms as nat);
    lemma_flatten_number(ss, 25, m.successful_transactions as nat);
    lemma_flatten_number(ss, 27, m.failed_transactions as nat);
    lemma_flatten_string(ss, 3);
    lemma_flatten_total_len(ss);
    if m.network_type is Remote {
        if crate::num::expect_spec(s, doc_pos(m, 1), "Local"@) {
            assert(s.subrange(doc_pos(m, 1), doc_pos(m, 1) + 5)[0] == 'L');
            assert(s.subrange(doc_pos(m, 1), doc_pos(m, 1) + 6)[0] == 'R');
            assert(s[doc_pos(m, 1)] == 'L');
            assert(s[doc_pos(m, 1)] == 'R');
        }
    }
    if !m.crash_recovery {
        if crate::num::expect_spec(s, doc_pos(m, 15), "true"@) {
            assert(s.subrange(doc_pos(m, 15), doc_pos(m, 15) + 4)[0] == 't');
            assert(s.subrange(doc_pos(m, 15), doc_pos(m, 15) + 5)[0] == 'f');
            assert(s[doc_pos(m, 15)] == 't');
            assert(s[doc_pos(m, 15)] == 'f');
        }
    }
}


/// Match `lit` at `pos` and read the decimal number after it, when it
/// fits a `u64`.
fn field_u64(s: &str, pos: usize, lit: &str) -> (r: Option<(u64, usize)>)
    requires
        pos <= s@.len(),
    ensures
        match r {
            Some(p) => {
                &&& crate::num::expect_spec(s@, pos as int, lit@)
                &&& parse_number_spec(s@, pos + lit@.len()) == Some((p.0 as nat, p.1 as int))
                &&& p.1 <= s@.len()
            },
            None => {
                ||| !crate::num::expect_spec(s@, pos as int, lit@)
                ||| parse_number_spec(s@, pos + lit@.len()) is None
                ||| (parse_number_spec(s@, pos + lit@.len()) matches Some(q) && q.0 > u64::MAX)
            },
        },
{
    match crate::num::expect_lit(s, pos, lit) {
        Some(j) => {
            match crate::num::parse_u128_at(s, j) {
                Some((value, end)) => {
                    if value <= u64::MAX as u128 {
                        proof {
                            crate::num::lemma_digit_run_end(s@, j as int);
                        }
                        Some((value as u64, end))
                    } else {
                        None
                    }
                },
                None => None,
            }
        },
        None => None,
    }
}

/// Match `lit` at `pos` and read the decimal number after it.
fn field_u128(s: &str, pos: usize, lit: &str) -> (r: Option<(u128, usize)>)
    requires
        pos <= s@.len(),
    ensures
        match r {
            Some(p) => {
                &&& crate::num::expect_spec(s@, pos as int, lit@)
                &&& parse_number_spec(s@, pos + lit@.len()) == Some((p.0 as nat, p.1 as int))
                &&& p.1 <= s@.len()
            },
            None => {
                ||| !crate::num::expect_spec(s@, pos as int, lit@)
                ||| parse_number_spec(s@, pos + lit@.len()) is None
                ||| (parse_number_spec(s@, pos + lit@.len()) matches Some(q) && q.0 > u128::MAX)
            },
        },
{
    match crate::num::expect_lit(s, pos, lit) {
        Some(j) => {
            match crate::num::parse_u128_at(s, j) {
                Some((value, end)) => {
                    proof {
                        crate::num::lemma_digit_run_end(s@, j as int);
                    }
                    Some((value, end))
                },
                None => None,
            }
        },
        None => None,
    }
}

/// Read the network kind word at `pos`.
fn parse_net(s: &str, pos: usize) -> (r: Option<(NetworkType, usize)>)
    requires
        pos <= s@.len(),
    ensures
        match r {
            Some(p) => {
                &&& (p.0 is Local ==> crate::num::expect_spec(s@, pos as int, "Local"@) && p.1
                    == pos + "Local"@.len())
                &&& (p.0 is Remote ==> !crate::num::expect_spec(s@, pos as int, "Local"@)
                    && crate::num::expect_spec(s@, pos as int, "Remote"@) && p.1 == pos
                    + "Remote"@.len())
                &&& p.1 <= s@.len()
            },
            None => !crate::num::expect_spec(s@, pos as int, "Local"@)
                && !crate::num::expect_spec(s@, pos as int, "Remote"@),
        },
{
    match crate::num::expect_lit(s, pos, "Local") {
        Some(j) => Some((NetworkType::Local, j)),
        None => match crate::num::expect_lit(s, pos, "Remote") {
            Some(j) => Some((NetworkType::Remote, j)),
            None => None,
        },
    }
}

/// Match `lit` at `pos` and read the boolean word after it.
fn field_bool(s: &str, pos: usize, lit: &str) -> (r: Option<(bool, usize)>)
    requires
        pos <= s@.len(),
    ensures
        match r {
            Some(p) => {
                &&& crate::num::expect_spec(s@, pos as int, lit@)
                &&& (p.0 ==> crate::num::expect_spec(s@, pos + lit@.len(), "true"@) && p.1 == pos
                    + lit@.len() + "true"@.len())
                &&& (!p.0 ==> !crate::num::expect_spec(s@, pos + lit@.len(), "true"@)
                    && crate::num::expect_spec(s@, pos + lit@.len(), "false"@) && p.1 == pos
                    + lit@.len() + "false"@.len())
                &&& p.1 <= s@.len()
            },
            None => {
                ||| !crate::num::expect_spec(s@, pos as int, lit@)
                ||| (!crate::num::expect_spec(s@, pos + lit@.len(), "true"@)
                    && !crate::num::expect_spec(s@, pos + lit@.len(), "false"@))
            },
        },
{
    match crate::num::expect_lit(s, pos, lit) {
        Some(j) => {
            match crate::num::expect_lit(s, j, "true") {
                Some(k) => Some((true, k)),
                None => match crate::num::expect_lit(s, j, "false") {
                    Some(k) => Some((false, k)),
                    None => None,
                },
            }
        },
        None => None,
    }
}

/// Read the characters up to the closing quote, which must exist.
fn parse_string_field(s: &str, pos: usize) -> (r: Option<(String, usize)>)
    requires
        pos <= s@.len(),
    ensures
        match r {
            Some(p) => {
                &&& crate::num::run_until(s@, pos as int, '"') < s@.len()
                &&& p.1 == crate::num::run_until(s@, pos as int, '"')
                &&& p.0@ == s@.subrange(pos as int, p.1 as int)
            },
            None => crate::num::run_until(s@, pos as int, '"') == s@.len(),
        },
{
    proof {
        crate::num::lemma_run_until(s@, pos as int, '"');
    }
    let end = crate::num::find_char(s, pos, '"');
    if end == s.unicode_len() {
        None
    } else {
        Some((s.substring_char(pos, end).to_owned(), end))
    }
}

/// The parameters block of a document, as parsed.
struct ParamsPart {
    nodes: u64,
    load: u64,
    duration_secs: u64,
    transaction_size: u64,
    faults: u64,
    crash_recovery: bool,
    crash_interval_secs: u64,
}

/// The results block of a document, as parsed.
struct ResultsPart {
    throughput: u128,
    avg_latency_ms: u128,
    stdev_latency_ms: u64,
    successful_transactions: u64,
    failed_transactions: u64,
}

/// Read the head of a document: its network kind and timestamp.
#[verifier::rlimit(100)]
fn parse_header_part(s: &str) -> (r: Option<(NetworkType, String, usize)>)
    ensures
        forall|m: SummaryView|
            summary_wf(m) && s@ == #[trigger] render_spec(m) ==> (r matches Some(p) && {
                &&& p.0 == m.network_type
                &&& p.1@ == m.timestamp
                &&& p.2 == doc_pos(m, 4)
            }),
        r matches Some(p) ==> p.2 <= s@.len(),
{
    broadcast use lemma_render_shape;

    let p1 = match crate::num::expect_lit(s, 0, "{\"network_type\":\"") {
        Some(j) => j,
        None => {
            return None;
        },
    };
    let (network_type, p2) = match parse_net(s, p1) {
        Some(x) => x,
        None => {
            return None;
        },
    };
    let p3 = match crate::num::expect_lit(s, p2, "\",\"timestamp\":\"") {
        Some(j) => j,
        None => {
            return None;
        },
    };
    let (timestamp, p4) = match parse_string_field(s, p3) {
        Some(x) => x,
        None => {
            return None;
        },
    };
    Some((network_type, timestamp, p4))
}

/// Read the parameters block of a document, starting at `pos`.
#[verifier::rlimit(100)]
fn parse_params_part(s: &str, pos: usize) -> (r: Option<(ParamsPart, usize)>)
    requires
        pos <= s@.len(),
    ensures
        forall|m: SummaryView|
            summary_wf(m) && s@ == #[trigger] render_spec(m) && pos == doc_pos(m, 4) ==> (r
                matches Some(p) && {
                &&& p.0.nodes == m.nodes
                &&& p.0.load == m.load
                &&& p.0.duration_secs == m.duration_secs
                &&& p.0.transaction_size == m.transaction_size
                &&& p.0.faults == m.faults
                &&& p.0.crash_recovery == m.crash_recovery
                &&& p.0.crash_interval_secs == m.crash_interval_secs
                &&& p.1 == doc_pos(m, 18)
            }),
        r matches Some(p) ==> p.1 <= s@.len(),
{
    broadcast use lemma_render_shape;

    let (nodes, q1) = match field_u64(s, pos, "\",\"parameters\":{\"nodes\":") {
        Some(x) => x,
        None => {
            return None;
        },
    };
    let (load, q2) = match field_u64(s, q1, ",\"load\":") {
        Some(x) => x,
        None => {
            return None;
        },
    };
    let (duration_secs, q3) = match field_u64(s, q2, ",\"duration_secs\":") {
        Some(x) => x,
        None => {
            return None;
        },
    };
    let (transaction_size, q4) = match field_u64(s, q3, ",\"transaction_size\":") {
        Some(x) => x,
        None => {
            return None;
        },
    };
    let (faults, q5) = match field_u64(s, q4, ",\"faults\":") {
        Some(x) => x,
        None => {
            return None;
        },
    };
    let (crash_recovery, q6) = match field_bool(s, q5, ",\"crash_recovery\":") {
        Some(x) => x,
        None => {
            return None;
        },
    };
    let (crash_interval_secs, q7) = match field_u64(s, q6, ",\"crash_interval_secs\":") {
        Some(x) => x,
        None => {
            return None;
        },
    };
    Some(
        (
            ParamsPart {
                nodes,
                load,
                duration_secs,
                transaction_size,
                faults,
                crash_recovery,
                crash_interval_secs,
            },
            q7,
        ),
    )
}

/// Read the results block closing a document, starting at `pos`; the
/// document must end with it.
#[verifier::rlimit(100)]
fn parse_results_part(s: &str, pos: usize) -> (r: Option<ResultsPart>)
    requires
        pos <= s@.len(),
    ensures
        forall|m: SummaryView|
            summary_wf(m) && s@ == #[trigger] render_spec(m) && pos == doc_pos(m, 18) ==> (r
                matches Some(p) && {
                &&& p.throughput == m.throughput
                &&& p.avg_latency_ms == m.avg_latency_ms
                &&& p.stdev_latency_ms == m.stdev_latency_ms
                &&& p.successful_transactions == m.successful_transactions
                &&& p.failed_transactions == m.failed_transactions
            }),
{
    broadcast use lemma_render_shape;

    let (throughput, q8) = match field_u128(s, pos, "},\"results\":{\"throughput\":") {
        Some(x) => x,
        None => {
            return None;
        },
    };
    let (avg_latency_ms, q9) = match field_u128(s, q8, ",\"avg_latency_ms\":") {
        Some(x) => x,
        None => {
            return None;
        },
    };
    let (stdev_latency_ms, q10) = match field_u64(s, q9, ",\"stdev_latency_ms\":") {
        Some(x) => x,
        None => {
            return None;
        },
    };
    let (successful_transactions, q11) = match field_u64(s, q10, ",\"successful_transactions\":") {
        Some(x) => x,
        None => {
            return None;
        },
    };
    let (failed_transactions, q12) = match field_u64(s, q11, ",\"failed_transactions\":") {
        Some(x) => x,
        None => {
            return None;
        },
    };
    let q13 = match crate::num::expect_lit(s, q12, "}}") {
        Some(j) => j,
        None => {
            return None;
        },
    };
    if q13 != s.unicode_len() {
        return None;
    }
    Some(
        ResultsPart {
            throughput,
            avg_latency_ms,
            stdev_latency_ms,
            successful_transactions,
            failed_transactions,
        },
    )
}

impl BenchmarkResult<MysticetiBenchmarkType> {
    /// Read a persisted result document. The contract is the round
    /// trip: together with [`BenchmarkResult::to_json`], whose output
    /// is exactly [`render_spec`], it says that every document rendered
    /// from a well-formed summary parses back to that summary — the
    /// parameters and the aggregates survive persistence unchanged.
    pub fn parse_summary(s: &str) -> (r: Option<BenchmarkSummary>)
        ensures
            forall|m: SummaryView|
                summary_wf(m) && s@ == #[trigger] render_spec(m) ==> (r matches Some(p) && {
                    &&& p.network_type == m.network_type
                    &&& p.timestamp@ == m.timestamp
                    &&& p.nodes == m.nodes
                    &&& p.load == m.load
                    &&& p.duration_secs == m.duration_secs
                    &&& p.transaction_size == m.transaction_size
                    &&& p.faults == m.faults
                    &&& p.crash_recovery == m.crash_recovery
                    &&& p.crash_interval_secs == m.crash_interval_secs
                    &&& p.throughput == m.throughput
                    &&& p.avg_latency_ms == m.avg_latency_ms
                    &&& p.stdev_latency_ms == m.stdev_latency_ms
                    &&& p.successful_transactions == m.successful_transactions
                    &&& p.failed_transactions == m.failed_transactions
                }),
    {
        let (network_type, timestamp, p4) = match parse_header_part(s) {
            Some(x) => x,
            None => {
                return None;
            },
        };
        let (params, p18) = match parse_params_part(s, p4) {
            Some(x) => x,
            None => {
                return None;
            },
        };
        let results = match parse_results_part(s, p18) {
            Some(x) => x,
            None => {
                return None;
            },
        };
        Some(
            BenchmarkSummary {
                network_type,
                timestamp,
                nodes: params.nodes,
                load: params.load,
                duration_secs: params.duration_secs,
                transaction_size: params.transaction_size,
                faults: params.faults,
                crash_recovery: params.crash_recovery,
                crash_interval_secs: params.crash_interval_secs,
                throughput: results.throughput,
                avg_latency_ms: results.avg_latency_ms,
                stdev_latency_ms: results.stdev_latency_ms,
                successful_transactions: results.successful_transactions,
                failed_transactions: results.failed_transactions,
            },
        )
    }
}


/// Every non-negative integer has an integer square root.
proof fn lemma_sqrt_exists(v: int)
    requires
        v >= 0,
    ensures
        exists|r: int| 0 <= r && (#[trigger] (r * r)) <= v && v < (r + 1) * (r + 1),
    decreases v,
{
    if v == 0 {
        assert(0 <= 0int && (0int * 0int) <= v && v < (0int + 1) * (0int + 1));
    } else {
        lemma_sqrt_exists(v - 1);
        let r = choose|r: int| 0 <= r && (#[trigger] (r * r)) <= v - 1 && v - 1 < (r + 1) * (r
            + 1);
        if v < (r + 1) * (r + 1) {
            assert(0 <= r && (r * r) <= v && v < (r + 1) * (r + 1));
        } else {
            assert(v == (r + 1) * (r + 1));
            assert((r + 1) * (r + 1) < (r + 2) * (r + 2)) by (nonlinear_arith)
                requires
                    0 <= r,
            ;
            assert(0 <= r + 1 && ((r + 1) * (r + 1)) <= v && v < (r + 2) * (r + 2));
        }
    }
}

/// Every summary the crate renders is well formed, provided its
/// timestamp needs no escaping: the aggregates of a collection that
/// fits in memory fit the machine.
pub proof fn lemma_summary_wf(r: BenchmarkResult<MysticetiBenchmarkType>)
    requires
        json_safe(r.timestamp@),
    ensures
        summary_wf(r.spec_summary()),
{
    broadcast use vstd::std_specs::vec::axiom_spec_len;

    assert(vstd::std_specs::vec::spec_vec_len(&r.measurements.entries) == r.measurements.entries@.len());
    crate::measurement::lemma_aggregate_ranges(r.measurements.entries@, r.spec_report_label());
    let var = spec_latency_variance(r.measurements.entries@, r.spec_report_label());
    lemma_sqrt_exists(var);
    let w = stdev_of(var);
    assert(0 <= w && w * w <= var && var < (w + 1) * (w + 1));
    if w > u64::MAX {
        assert(w * w > u128::MAX as int) by (nonlinear_arith)
            requires
                w > u64::MAX as int,
        ;
    }
}

impl BenchmarkResult<MysticetiBenchmarkType> {
    /// The summary this result persists as, computed: parameters,
    /// first-stream aggregates, timestamp.
    pub fn summary(&self) -> (r: BenchmarkSummary)
        ensures
            r.view_spec() == self.spec_summary(),
    {
        let label = match self.measurements.first_label() {
            Some(l) => l,
            None => String::new(),
        };
        proof {
            assert(label@ == self.spec_report_label());
        }
        let throughput = self.measurements.aggregate_tps(&label);
        let avg_latency_ms = self.measurements.aggregate_average_latency(&label);
        let stdev_latency_ms = self.measurements.aggregate_stdev_latency(&label);
        proof {
            lemma_stdev_of(
                spec_latency_variance(self.measurements.entries@, self.spec_report_label()),
                stdev_latency_ms as int,
            );
        }
        let faults: u64;
        let crash_recovery: bool;
        let crash_interval_secs: u64;
        match self.parameters.faults {
            FaultsType::Permanent { faults: n } => {
                faults = n as u64;
                crash_recovery = false;
                crash_interval_secs = 0;
            },
            FaultsType::CrashRecovery { faults: n, interval_secs } => {
                faults = n as u64;
                crash_recovery = true;
                crash_interval_secs = interval_secs;
            },
        }
        BenchmarkSummary {
            network_type: self.network_type,
            timestamp: self.timestamp.clone(),
            nodes: self.parameters.nodes as u64,
            load: self.parameters.load as u64,
            duration_secs: self.parameters.duration_secs,
            transaction_size: self.parameters.benchmark_type.transaction_size as u64,
            faults,
            crash_recovery,
            crash_interval_secs,
            throughput,
            avg_latency_ms,
            stdev_latency_ms,
            successful_transactions: self.parameters.load as u64,
            failed_transactions: 0,
        }
    }

    /// The persisted document of this result: exactly [`render_spec`]
    /// of its summary.
    pub fn to_json(&self) -> (r: String)
        requires
            json_safe(self.timestamp@),
        ensures
            r@ == render_spec(self.spec_summary()),
    {
        let summary = self.summary();
        render_summary(&summary)
    }

    /// The persisted document of this result, refused when the
    /// timestamp would need escaping.
    pub fn to_json_checked(&self) -> (r: Option<String>)
        ensures
            r is Some <==> json_safe(self.timestamp@),
            r matches Some(j) ==> j@ == render_spec(self.spec_summary()),
    {
        let n = self.timestamp.as_str().unicode_len();
        let mut i: usize = 0;
        while i < n
            invariant
                i <= n,
                n == self.timestamp@.len(),
                forall|k: int|
                    0 <= k < i ==> #[trigger] self.timestamp@[k] != '"' && self.timestamp@[k]
                        != '\\',
            decreases n - i,
        {
            let c = self.timestamp.as_str().get_char(i);
            if c == '"' || c == '\\' {
                return None;
            }
            i = i + 1;
        }
        Some(self.to_json())
    }
}

/// The document text of a summary: exactly [`render_spec`].
pub fn render_summary(m: &BenchmarkSummary) -> (r: String)
    ensures
        r@ == render_spec(m.view_spec()),
{
    let mut s = "{\"network_type\":\"".to_owned();
    match m.network_type {
        NetworkType::Local => s.append("Local"),
        NetworkType::Remote => s.append("Remote"),
    }
    s.append("\",\"timestamp\":\"");
    s.append(m.timestamp.as_str());
    s.append("\",\"parameters\":{\"nodes\":");
    s.append(crate::num::u64_to_string(m.nodes).as_str());
    s.append(",\"load\":");
    s.append(crate::num::u64_to_string(m.load).as_str());
    s.append(",\"duration_secs\":");
    s.append(crate::num::u64_to_string(m.duration_secs).as_str());
    s.append(",\"transaction_size\":");
    s.append(crate::num::u64_to_string(m.transaction_size).as_str());
    s.append(",\"faults\":");
    s.append(crate::num::u64_to_string(m.faults).as_str());
    s.append(",\"crash_recovery\":");
    if m.crash_recovery {
        s.append("true");
    } else {
        s.append("false");
    }
    s.append(",\"crash_interval_secs\":");
    s.append(crate::num::u64_to_string(m.crash_interval_secs).as_str());
    s.append("},\"results\":{\"throughput\":");
    s.append(crate::num::u128_to_string(m.throughput).as_str());
    s.append(",\"avg_latency_ms\":");
    s.append(crate::num::u128_to_string(m.avg_latency_ms).as_str());
    s.append(",\"stdev_latency_ms\":");
    s.append(crate::num::u64_to_string(m.stdev_latency_ms).as_str());
    s.append(",\"successful_transactions\":");
    s.append(crate::num::u64_to_string(m.successful_transactions).as_str());
    s.append(",\"failed_transactions\":");
    s.append(crate::num::u64_to_string(m.failed_transactions).as_str());
    s.append("}}");
    proof {
        assert(s@ =~= render_spec(m.view_spec()));
    }
    s
}


/// The word a network kind uses in file names.
pub open spec fn net_file_text(t: NetworkType) -> Seq<char> {
    match t {
        NetworkType::Local => "local"@,
        NetworkType::Remote => "remote"@,
    }
}

/// The file name a result's document is saved under.
pub open spec fn result_filename_spec(
    t: NetworkType,
    stamp: Seq<char>,
    nodes: int,
    load: int,
) -> Seq<char> {
    "benchmark_"@ + net_file_text(t) + "_"@ + stamp + "_"@ + dec_rep(nodes as nat) + "nodes_"@
        + dec_rep(load as nat) + "txs.json"@
}

/// The file name a result's document is saved under:
/// `benchmark_<kind>_<stamp>_<nodes>nodes_<load>txs.json`.
pub fn result_filename(t: NetworkType, stamp: &str, nodes: u64, load: u64) -> (r: String)
    ensures
        r@ == result_filename_spec(t, stamp@, nodes as int, load as int),
{
    let mut s = "benchmark_".to_owned();
    match t {
        NetworkType::Local => s.append("local"),
        NetworkType::Remote => s.append("remote"),
    }
    s.append("_");
    s.append(stamp);
    s.append("_");
    s.append(crate::num::u64_to_string(nodes).as_str());
    s.append("nodes_");
    s.append(crate::num::u64_to_string(load).as_str());
    s.append("txs.json");
    proof {
        assert(s@ =~= result_filename_spec(t, stamp@, nodes as int, load as int));
    }
    s
}

/// The file name of the companion human-readable summary:
/// `benchmark_<kind>_<stamp>_<nodes>nodes_<load>txs_summary.txt`.
pub fn summary_filename(t: NetworkType, stamp: &str, nodes: u64, load: u64) -> (r: String)
    ensures
        r@ == "benchmark_"@ + net_file_text(t) + "_"@ + stamp@ + "_"@ + dec_rep(nodes as nat)
            + "nodes_"@ + dec_rep(load as nat) + "txs_summary.txt"@,
{
    let mut s = "benchmark_".to_owned();
    match t {
        NetworkType::Local => s.append("local"),
        NetworkType::Remote => s.append("remote"),
    }
    s.append("_");
    s.append(stamp);
    s.append("_");
    s.append(crate::num::u64_to_string(nodes).as_str());
    s.append("nodes_");
    s.append(crate::num::u64_to_string(load).as_str());
    s.append("txs_summary.txt");
    proof {
        assert(s@ =~= "benchmark_"@ + net_file_text(t) + "_"@ + stamp@ + "_"@ + dec_rep(
            nodes as nat,
        ) + "nodes_"@ + dec_rep(load as nat) + "txs_summary.txt"@);
    }
    s
}


/// The text of the companion human-readable summary.
pub open spec fn summary_text_spec(m: SummaryView) -> Seq<char> {
    "BENCHMARK SUMMARY\nNetwork Type: "@ + net_text(m.network_type) + "\nTimestamp: "@
        + m.timestamp + "\nNodes: "@ + dec_rep(m.nodes as nat) + "\nInput Load: "@ + dec_rep(
        m.load as nat,
    ) + " tx/s\nDuration: "@ + dec_rep(m.duration_secs as nat) + " s\nThroughput: "@ + dec_rep(
        m.throughput as nat,
    ) + " tx/s\nAverage Latency: "@ + dec_rep(m.avg_latency_ms as nat)
        + " ms\nLatency Std Dev: "@ + dec_rep(m.stdev_latency_ms as nat) + " ms\n"@
}

/// The companion human-readable summary of a run: exactly
/// [`summary_text_spec`].
pub fn summary_text(m: &BenchmarkSummary) -> (r: String)
    ensures
        r@ == summary_text_spec(m.view_spec()),
{
    let mut s = "BENCHMARK SUMMARY\nNetwork Type: ".to_owned();
    match m.network_type {
        NetworkType::Local => s.append("Local"),
        NetworkType::Remote => s.append("Remote"),
    }
    s.append("\nTimestamp: ");
    s.append(m.timestamp.as_str());
    s.append("\nNodes: ");
    s.append(crate::num::u64_to_string(m.nodes).as_str());
    s.append("\nInput Load: ");
    s.append(crate::num::u64_to_string(m.load).as_str());
    s.append(" tx/s\nDuration: ");
    s.append(crate::num::u64_to_string(m.duration_secs).as_str());
    s.append(" s\nThroughput: ");
    s.append(crate::num::u128_to_string(m.throughput).as_str());
    s.append(" tx/s\nAverage Latency: ");
    s.append(crate::num::u128_to_string(m.avg_latency_ms).as_str());
    s.append(" ms\nLatency Std Dev: ");
    s.append(crate::num::u64_to_string(m.stdev_latency_ms).as_str());
    s.append(" ms\n");
    proof {
        assert(s@ =~= summary_text_spec(m.view_spec()));
    }
    s
}

} // verus!
