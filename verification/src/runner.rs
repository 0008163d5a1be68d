//! The top-level benchmark runner: its configuration, the load lists
//! it explores, and the pre-flight checks of a remote campaign.
//!
//! Command-line parsing, terminal output and the run loop's transports
//! stay outside the crate; the decisions — which loads a list names,
//! which network kind a word selects, which environment variable is
//! missing — are made and proved here.

use vstd::prelude::*;
use vstd::string::StringExecFns;

use crate::benchmark::NetworkType;
use crate::error::OrchestratorError;
use crate::num::{
    back_while, dec_rep, digit_run_end, digits_val, find_char, parse_u128_at, run_until,
    run_while, skip_char, trim_back, u64_to_string,
};

verus! {

/// One load list entry: the segment `[lo, hi)` of `s`, trimmed of
/// spaces, read as a decimal number — or nothing when, so trimmed, it
/// is not exactly one representable number.
pub open spec fn spec_parse_item(s: Seq<char>, lo: int, hi: int) -> Option<usize>
    recommends
        0 <= lo <= hi <= s.len(),
{
    let a0 = run_while(s, lo, ' ');
    let a = if a0 > hi {
        hi
    } else {
        a0
    };
    let b0 = back_while(s, hi, ' ');
    let b = if b0 < a {
        a
    } else {
        b0
    };
    if a < b && digit_run_end(s, a) == b && digits_val(s.subrange(a, b)) <= usize::MAX {
        Some(digits_val(s.subrange(a, b)) as usize)
    } else {
        None
    }
}

/// The loads named from position `pos` on: comma-separated segments,
/// each contributing its number when it holds one.
pub open spec fn spec_loads_from(s: Seq<char>, pos: int) -> Seq<usize>
    recommends
        0 <= pos,
    decreases s.len() - pos,
{
    let cut0 = run_until(s, pos, ',');
    let cut = if cut0 < pos {
        pos
    } else if cut0 > s.len() {
        s.len() as int
    } else {
        cut0
    };
    let rest = if cut < s.len() {
        spec_loads_from(s, cut + 1)
    } else {
        Seq::<usize>::empty()
    };
    match spec_parse_item(s, pos, cut) {
        Some(v) => seq![v] + rest,
        None => rest,
    }
}

/// The loads named by a comma-separated list such as `100, 200,500`:
/// each segment is trimmed of spaces and kept when it is exactly one
/// decimal number, and skipped otherwise.
pub open spec fn spec_parse_loads(s: Seq<char>) -> Seq<usize> {
    spec_loads_from(s, 0)
}

/// Read a comma-separated load list, keeping the segments that name a
/// number: exactly [`spec_parse_loads`].
pub fn parse_loads(s: &str) -> (r: Vec<usize>)
    ensures
        r@ == spec_parse_loads(s@),
{
    let total = s.unicode_len();
    let mut out: Vec<usize> = Vec::new();
    let mut pos: usize = 0;
    while pos < total
        invariant
            pos <= total,
            total == s@.len(),
            spec_parse_loads(s@) == out@ + spec_loads_from(s@, pos as int),
        decreases total - pos,
    {
        let ghost pre = out@;
        let cut = find_char(s, pos, ',');
        proof {
            crate::num::lemma_run_until(s@, pos as int, ',');
        }
        let a0 = skip_char(s, pos, ' ');
        let a = if a0 > cut {
            cut
        } else {
            a0
        };
        let b0 = trim_back(s, cut, ' ');
        let b = if b0 < a {
            a
        } else {
            b0
        };
        proof {
            crate::num::lemma_run_while(s@, pos as int, ' ');
            crate::num::lemma_back_while(s@, cut as int, ' ');
        }
        if a < b {
            match parse_u128_at(s, a) {
                Some((value, end)) => {
                    if end == b && value <= usize::MAX as u128 {
                        out.push(value as usize);
                    }
                },
                None => {},
            }
        }
        proof {
            let ghost item = spec_parse_item(s@, pos as int, cut as int);
            assert(out@ == match item {
                Some(v) => pre.push(v),
                None => pre,
            });
            if cut < total {
                assert(spec_loads_from(s@, pos as int) == (match item {
                    Some(v) => seq![v] + spec_loads_from(s@, cut + 1),
                    None => spec_loads_from(s@, cut + 1),
                }));
                assert(match item {
                    Some(v) => pre.push(v) + spec_loads_from(s@, cut + 1) =~= pre + (seq![v]
                        + spec_loads_from(s@, cut + 1)),
                    None => true,
                });
            } else {
                assert(spec_loads_from(s@, pos as int) == (match item {
                    Some(v) => seq![v] + Seq::<usize>::empty(),
                    None => Seq::<usize>::empty(),
                }));
                assert(match item {
                    Some(v) => pre.push(v) =~= pre + (seq![v] + Seq::<usize>::empty()),
                    None => out@ =~= pre + Seq::<usize>::empty(),
                });
                assert(spec_loads_from(s@, total as int) == Seq::<usize>::empty());
            }
        }
        if cut >= total {
            pos = total;
            proof {
                assert(spec_parse_loads(s@) == out@ + spec_loads_from(s@, pos as int));
            }
            return out;
        }
        pos = cut + 1;
    }
    proof {
        assert(spec_loads_from(s@, pos as int) == Seq::<usize>::empty());
    }
    out
}

/// Whether two characters are the same ASCII letter up to case.
pub open spec fn char_eq_ignore_case(a: char, b: char) -> bool {
    ||| a == b
    ||| (65 <= a as u32 <= 90 && a as u32 + 32 == b as u32)
    ||| (65 <= b as u32 <= 90 && b as u32 + 32 == a as u32)
}

/// Whether two strings agree up to ASCII case.
pub open spec fn str_eq_ignore_case(a: Seq<char>, b: Seq<char>) -> bool {
    a.len() == b.len() && forall|i: int|
        0 <= i < a.len() ==> char_eq_ignore_case(#[trigger] a[i], b[i])
}

/// Compare two strings up to ASCII case.
pub fn eq_ignore_ascii_case(a: &str, b: &str) -> (r: bool)
    ensures
        r == str_eq_ignore_case(a@, b@),
{
    let n = a.unicode_len();
    if n != b.unicode_len() {
        return false;
    }
    let mut i: usize = 0;
    while i < n
        invariant
            i <= n,
            n == a@.len(),
            n == b@.len(),
            forall|k: int| 0 <= k < i ==> char_eq_ignore_case(#[trigger] a@[k], b@[k]),
        decreases n - i,
    {
        let x = a.get_char(i) as u32;
        let y = b.get_char(i) as u32;
        let same = x == y || (65 <= x && x <= 90 && x + 32 == y) || (65 <= y && y <= 90 && y + 32
            == x);
        if !same {
            return false;
        }
        i = i + 1;
    }
    true
}

/// The configuration of a benchmark campaign, as the command line
/// supplies it. Parsing the command line itself happens outside the
/// crate; this is the parsed shape.
#[derive(Debug, Clone)]
pub struct Opts {
    /// Where benchmark results are written.
    pub output_dir: String,
    /// Whether results are printed to the console.
    pub console_output: bool,
    /// Whether results are saved to files.
    pub file_output: bool,
    /// The committee size.
    pub committee: usize,
    /// The number of faulty nodes.
    pub faults: usize,
    /// Whether the faulty nodes recover.
    pub crash_recovery: bool,
    /// The interval between crashes, in seconds.
    pub crash_interval: u64,
    /// The duration of each run, in seconds.
    pub duration: u64,
    /// The load list of a local campaign.
    pub local_loads: String,
    /// The load list of a remote campaign.
    pub remote_loads: String,
    /// The transaction size in bytes.
    pub transaction_size: usize,
    /// Which network kind to benchmark: `local` or `remote`.
    pub network_type: String,
    /// The compose file of a local fleet.
    pub docker_compose_path: String,
    /// How long to wait for the fleet to come up, in seconds.
    pub startup_wait: u64,
    /// Whether to tear the fleet down afterwards.
    pub cleanup: bool,
    /// Whether to also remove containers and volumes afterwards.
    pub cleanup_thorough: bool,
}

impl Opts {
    /// The network kind this configuration selects, read without
    /// regard to ASCII case; an unknown word selects nothing.
    pub fn network_kind(&self) -> (r: Option<NetworkType>)
        ensures
            r == if str_eq_ignore_case(self.network_type@, "local"@) {
                Some(NetworkType::Local)
            } else if str_eq_ignore_case(self.network_type@, "remote"@) {
                Some(NetworkType::Remote)
            } else {
                Option::<NetworkType>::None
            },
    {
        if eq_ignore_ascii_case(self.network_type.as_str(), "local") {
            Some(NetworkType::Local)
        } else if eq_ignore_ascii_case(self.network_type.as_str(), "remote") {
            Some(NetworkType::Remote)
        } else {
            None
        }
    }

    /// The loads this configuration names for `kind`.
    pub fn loads_for(&self, kind: NetworkType) -> (r: Vec<usize>)
        ensures
            r@ == spec_parse_loads(
                match kind {
                    NetworkType::Local => self.local_loads@,
                    NetworkType::Remote => self.remote_loads@,
                },
            ),
    {
        match kind {
            NetworkType::Local => parse_loads(self.local_loads.as_str()),
            NetworkType::Remote => parse_loads(self.remote_loads.as_str()),
        }
    }
}

/// The environment variable naming node `index`'s host.
pub open spec fn host_variable_spec(index: int) -> Seq<char> {
    "MYSTICETI_NODE"@ + dec_rep(index as nat) + "_HOST"@
}

/// The environment variable naming node `index`'s host.
pub fn node_host_variable(index: u64) -> (r: String)
    ensures
        r@ == host_variable_spec(index as int),
{
    let mut s = "MYSTICETI_NODE".to_owned();
    s.append(u64_to_string(index).as_str());
    s.append("_HOST");
    proof {
        assert(s@ =~= host_variable_spec(index as int));
    }
    s
}

/// The host variables a four-node remote campaign requires.
pub fn required_host_variables() -> (r: Vec<String>)
    ensures
        r@.len() == 4,
        forall|i: int| 0 <= i < 4 ==> #[trigger] r@[i]@ == host_variable_spec(i),
{
    let mut r: Vec<String> = Vec::new();
    let mut i: u64 = 0;
    while i < 4
        invariant
            i <= 4,
            r@.len() == i,
            forall|k: int| 0 <= k < i ==> #[trigger] r@[k]@ == host_variable_spec(k),
        decreases 4 - i,
    {
        r.push(node_host_variable(i));
        i = i + 1;
    }
    r
}

/// The first position in `present` holding `false`, or its length.
pub open spec fn first_missing(present: Seq<bool>, start: int) -> int
    recommends
        0 <= start <= present.len(),
    decreases present.len() - start,
{
    if start >= present.len() || !present[start] {
        start
    } else {
        first_missing(present, start + 1)
    }
}

/// Check that every required host variable is set before a remote
/// campaign: `present[i]` reports whether node `i`'s host variable is
/// set. Exactly the fully-present environments pass; a failure names
/// the first missing variable.
pub fn validate_remote_environment(present: &Vec<bool>) -> (r: Result<(), OrchestratorError>)
    ensures
        r is Ok <==> first_missing(present@, 0) == present@.len(),
        r matches Err(e) ==> (e matches OrchestratorError::Configuration { message } && message@
            == "Required environment variable "@ + host_variable_spec(first_missing(present@, 0))
            + " not set"@),
{
    let mut i: usize = 0;
    while i < present.len()
        invariant
            i <= present@.len(),
            first_missing(present@, 0) == first_missing(present@, i as int),
        decreases present@.len() - i,
    {
        if !present[i] {
            let mut message = "Required environment variable ".to_owned();
            message.append(node_host_variable(i as u64).as_str());
            message.append(" not set");
            proof {
                assert(message@ =~= "Required environment variable "@ + host_variable_spec(
                    i as int,
                ) + " not set"@);
            }
            return Err(OrchestratorError::Configuration { message });
        }
        i = i + 1;
    }
    Ok(())
}

/// How many transactions a run submits in total: its offered load held
/// for its whole duration.
pub fn total_transactions(load: usize, duration_secs: u64) -> (r: usize)
    requires
        duration_secs <= usize::MAX,
        load * duration_secs <= usize::MAX,
    ensures
        r == load * duration_secs,
{
    load * (duration_secs as usize)
}

/// Runs a whole campaign: one run per generated parameter set, each
/// surfaced on the console and persisted as configured. The run loop's
/// transports live outside the crate.
#[derive(Debug, Clone)]
pub struct BenchmarkRunner {
    /// Where results are written.
    pub output_dir: String,
    /// Whether results are printed to the console.
    pub console_output: bool,
    /// Whether results are saved to files.
    pub file_output: bool,
}

impl BenchmarkRunner {
    /// A runner writing under `output_dir`, with console and file
    /// output both on.
    pub fn new(output_dir: String) -> (r: Self)
        ensures
            r.output_dir == output_dir,
            r.console_output,
            r.file_output,
    {
        BenchmarkRunner { output_dir, console_output: true, file_output: true }
    }

    /// Turn console output on or off.
    pub fn with_console_output(self, enabled: bool) -> (r: Self)
        ensures
            r == (BenchmarkRunner { console_output: enabled, ..self }),
    {
        BenchmarkRunner { console_output: enabled, ..self }
    }

    /// Turn file output on or off.
    pub fn with_file_output(self, enabled: bool) -> (r: Self)
        ensures
            r == (BenchmarkRunner { file_output: enabled, ..self }),
    {
        BenchmarkRunner { file_output: enabled, ..self }
    }
}


/// Whether two runs are comparable across network kinds: same
/// committee size, same offered load.
pub fn comparable_parameters<T>(
    a: &crate::benchmark::BenchmarkParameters<T>,
    b: &crate::benchmark::BenchmarkParameters<T>,
) -> (r: bool)
    ensures
        r == (a.nodes == b.nodes && a.load == b.load),
{
    a.nodes == b.nodes && a.load == b.load
}

/// The change from `baseline` to `value` in whole percent, rounded
/// down, with its direction; a zero baseline compares as no change.
pub fn percent_change(baseline: u128, value: u128) -> (r: (bool, u128))
    requires
        baseline <= u128::MAX / 100,
        value <= u128::MAX / 100,
    ensures
        baseline == 0 ==> r == (false, 0u128),
        baseline > 0 && value >= baseline ==> r.0 == false && r.1 == (value - baseline) * 100
            / (baseline as int),
        baseline > 0 && value < baseline ==> r.0 == true && r.1 == (baseline - value) * 100 / (
        baseline as int),
{
    if baseline == 0 {
        (false, 0)
    } else if value >= baseline {
        (false, (value - baseline) * 100 / baseline)
    } else {
        (true, (baseline - value) * 100 / baseline)
    }
}


/// What a readiness poll does next.
#[derive(Debug, Clone, Copy, PartialEq, Eq, Structural)]
pub enum ReadinessDecision {
    /// The node answered its health endpoint; stop polling it.
    Ready,
    /// Not ready yet and time remains; poll again.
    Retry,
    /// The timeout passed: the node is reported degraded and the run
    /// proceeds without it — partial availability is itself a valid
    /// measured condition under faults.
    Degraded,
}

/// Decide one step of the readiness poll: a healthy answer ends it, an
/// unhealthy one retries until `timeout_secs` has elapsed, and from
/// then on the node counts as degraded rather than aborting the run.
pub fn readiness_decision(healthy: bool, elapsed_secs: u64, timeout_secs: u64) -> (r:
    ReadinessDecision)
    ensures
        healthy ==> r == ReadinessDecision::Ready,
        !healthy && elapsed_secs < timeout_secs ==> r == ReadinessDecision::Retry,
        !healthy && elapsed_secs >= timeout_secs ==> r == ReadinessDecision::Degraded,
{
    if healthy {
        ReadinessDecision::Ready
    } else if elapsed_secs < timeout_secs {
        ReadinessDecision::Retry
    } else {
        ReadinessDecision::Degraded
    }
}

} // verus!
