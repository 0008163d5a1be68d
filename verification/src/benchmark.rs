//! Benchmark parameters and the sequence of runs that explores them.
//!
//! A campaign is driven by a [`BenchmarkParametersGenerator`]: either a
//! fixed list of loads, one run each, or an adaptive search for the
//! highest load the system sustains. The search keeps at most two
//! registered results as bounds — the best run still inside capacity
//! and the first run beyond it — doubling the probe until an upper
//! bound appears and bisecting afterwards.

use vstd::prelude::*;

use crate::faults::FaultsType;
use crate::measurement::MeasurementsCollection;
use crate::measurement::{spec_average_latency, spec_tps};

verus! {

/// The benchmark duration used when no custom duration is set.
pub const DEFAULT_BENCHMARK_DURATION_SECS: u64 = 180;

/// A protocol-specific benchmark flavour (for instance a transaction
/// size). The engine only copies it around and needs a default for
/// freshly made generators.
pub trait BenchmarkType: Copy + Sized {
    /// The default flavour.
    spec fn spec_default() -> Self;

    /// Produce the default flavour.
    fn default_value() -> (r: Self)
        ensures
            r == Self::spec_default(),
    ;
}

/// The parameters of one benchmark run. Immutable once made; every run
/// receives its own copy.
#[derive(Debug, Clone, Copy)]
pub struct BenchmarkParameters<T> {
    /// The protocol-specific flavour of the run.
    pub benchmark_type: T,
    /// The committee size.
    pub nodes: usize,
    /// The fault schedule.
    pub faults: FaultsType,
    /// The total load, in transactions per second.
    pub load: usize,
    /// How long the run drives load, in seconds.
    pub duration_secs: u64,
}

impl<T> BenchmarkParameters<T> {
    /// Pack the parameters of one run.
    pub fn new(
        benchmark_type: T,
        nodes: usize,
        faults: FaultsType,
        load: usize,
        duration_secs: u64,
    ) -> (r: Self)
        ensures
            r == (BenchmarkParameters { benchmark_type, nodes, faults, load, duration_secs }),
    {
        BenchmarkParameters { benchmark_type, nodes, faults, load, duration_secs }
    }
}

impl<T: BenchmarkType> Default for BenchmarkParameters<T> {
    /// A four-node fault-free run at 500 tx/s for a minute.
    fn default() -> (r: Self)
        ensures
            r.benchmark_type == T::spec_default(),
            r.nodes == 4,
            r.faults == (FaultsType::Permanent { faults: 0 }),
            r.load == 500,
            r.duration_secs == 60,
    {
        BenchmarkParameters {
            benchmark_type: T::default_value(),
            nodes: 4,
            faults: FaultsType::Permanent { faults: 0 },
            load: 500,
            duration_secs: 60,
        }
    }
}

/// How the campaign chooses loads.
#[derive(Debug, Clone)]
pub enum LoadType {
    /// Run each of these loads once, in order.
    Fixed(Vec<usize>),
    /// Search for the breaking point, starting from `starting_load` and
    /// stopping after `max_iterations` search probes.
    Search { starting_load: usize, max_iterations: usize },
}

/// Whether the run that produced `new` pushed the system out of
/// capacity relative to the run that produced `last`: its mean latency
/// exceeds five times the previous one, or its throughput stays under
/// two thirds of the offered load. An empty collection reports nothing.
pub open spec fn spec_out_of_capacity<T>(
    last: MeasurementsCollection<T>,
    new: MeasurementsCollection<T>,
) -> bool {
    if new.entries@.len() == 0 {
        false
    } else {
        let label = new.entries@[0].label@;
        let high_latency = spec_average_latency(new.entries@, label) > 5 * spec_average_latency(
            last.entries@,
            label,
        );
        let no_throughput = spec_tps(new.entries@, label) < 2 * (new.parameters.load as int) / 3;
        high_latency || no_throughput
    }
}

/// Produces the parameters of each successive run, adapting the next
/// load to the results registered so far.
pub struct BenchmarkParametersGenerator<T> {
    /// The protocol-specific flavour given to every run.
    pub benchmark_type: T,
    /// The committee size.
    pub nodes: usize,
    /// The loads still to explore.
    pub load_type: LoadType,
    /// The fault schedule given to every run.
    pub faults: FaultsType,
    /// The duration given to every run, in seconds.
    pub duration_secs: u64,
    /// The load of the next run, or nothing when the campaign is done.
    pub next_load: Option<usize>,
    /// The best result still inside capacity, while searching.
    pub lower_bound_result: Option<MeasurementsCollection<T>>,
    /// The first result beyond capacity, while searching.
    pub upper_bound_result: Option<MeasurementsCollection<T>>,
    /// How many search probes have been registered.
    pub iterations: usize,
}

impl<T> BenchmarkParametersGenerator<T> {
    /// The generator's bound invariant: an upper bound never exists
    /// without a lower one, and the loads held by the bounds leave room
    /// for the search arithmetic.
    pub open spec fn wf(&self) -> bool {
        &&& (self.lower_bound_result matches Some(c) ==> c.parameters.load <= usize::MAX / 2)
        &&& (self.upper_bound_result matches Some(c) ==> c.parameters.load <= usize::MAX / 2)
        &&& (self.upper_bound_result is Some ==> self.lower_bound_result is Some)
    }
}

/// How one registered result moves the generator from `pre` to `post`:
/// fixed mode pops the head of the remaining loads; search mode counts
/// the probe, places the result on the matching side of the breaking
/// point, and probes double the result's load while no upper bound
/// exists, the midpoint of the two bounds afterwards.
pub open spec fn spec_register_result<T>(
    pre: BenchmarkParametersGenerator<T>,
    post: BenchmarkParametersGenerator<T>,
    result: MeasurementsCollection<T>,
) -> bool {
    &&& post.benchmark_type == pre.benchmark_type
    &&& post.nodes == pre.nodes
    &&& post.faults == pre.faults
    &&& post.duration_secs == pre.duration_secs
    &&& match pre.load_type {
        LoadType::Fixed(loads) => {
            &&& post.iterations == pre.iterations
            &&& post.lower_bound_result == pre.lower_bound_result
            &&& post.upper_bound_result == pre.upper_bound_result
            &&& (post.load_type matches LoadType::Fixed(rem) && rem@ == (if loads@.len() == 0 {
                loads@
            } else {
                loads@.drop_first()
            }))
            &&& post.next_load == (if loads@.len() == 0 {
                Option::<usize>::None
            } else {
                Some(loads@[0])
            })
        },
        LoadType::Search { starting_load, max_iterations } => {
            &&& post.load_type == pre.load_type
            &&& if pre.iterations >= max_iterations {
                &&& post.next_load is None
                &&& post.iterations == pre.iterations
                &&& post.lower_bound_result == pre.lower_bound_result
                &&& post.upper_bound_result == pre.upper_bound_result
            } else {
                &&& post.iterations == pre.iterations + 1
                &&& match (pre.lower_bound_result, pre.upper_bound_result) {
                    (None, None) => {
                        &&& post.lower_bound_result == Some(result)
                        &&& post.upper_bound_result is None
                        &&& post.next_load == Some((2 * result.parameters.load) as usize)
                    },
                    (Some(lb), None) => {
                        if spec_out_of_capacity(lb, result) {
                            &&& post.lower_bound_result == Some(lb)
                            &&& post.upper_bound_result == Some(result)
                            &&& post.next_load == Some(
                                ((lb.parameters.load + result.parameters.load) / 2) as usize,
                            )
                        } else {
                            &&& post.lower_bound_result == Some(result)
                            &&& post.upper_bound_result is None
                            &&& post.next_load == Some((2 * result.parameters.load) as usize)
                        }
                    },
                    (Some(lb), Some(ub)) => {
                        if spec_out_of_capacity(lb, result) {
                            &&& post.lower_bound_result == Some(lb)
                            &&& post.upper_bound_result == Some(result)
                            &&& post.next_load == Some(
                                ((lb.parameters.load + result.parameters.load) / 2) as usize,
                            )
                        } else {
                            &&& post.lower_bound_result == Some(result)
                            &&& post.upper_bound_result == Some(ub)
                            &&& post.next_load == Some(
                                ((result.parameters.load + ub.parameters.load) / 2) as usize,
                            )
                        }
                    },
                    (None, Some(_)) => false,
                }
            }
        },
    }
}

impl<T: BenchmarkType> BenchmarkParametersGenerator<T> {
    /// A fresh generator over `nodes` nodes: fixed mode starts on the
    /// head of the list, search mode on its starting load.
    pub fn new(nodes: usize, load_type: LoadType) -> (r: Self)
        ensures
            r.benchmark_type == T::spec_default(),
            r.nodes == nodes,
            r.faults == (FaultsType::Permanent { faults: 0 }),
            r.duration_secs == DEFAULT_BENCHMARK_DURATION_SECS,
            r.lower_bound_result is None,
            r.upper_bound_result is None,
            r.iterations == 0,
            r.wf(),
            match load_type {
                LoadType::Fixed(loads) => {
                    &&& (r.load_type matches LoadType::Fixed(rem) && rem@ == (if loads@.len()
                        == 0 {
                        loads@
                    } else {
                        loads@.drop_first()
                    }))
                    &&& r.next_load == (if loads@.len() == 0 {
                        Option::<usize>::None
                    } else {
                        Some(loads@[0])
                    })
                },
                LoadType::Search { starting_load, .. } => {
                    &&& r.load_type == load_type
                    &&& r.next_load == Some(starting_load)
                },
            },
    {
        let next_load;
        let stored;
        match load_type {
            LoadType::Fixed(mut loads) => {
                if loads.len() == 0 {
                    next_load = None;
                } else {
                    next_load = Some(loads.remove(0));
                }
                stored = LoadType::Fixed(loads);
            },
            LoadType::Search { starting_load, max_iterations } => {
                next_load = Some(starting_load);
                stored = LoadType::Search { starting_load, max_iterations };
            },
        }
        BenchmarkParametersGenerator {
            benchmark_type: T::default_value(),
            nodes,
            load_type: stored,
            faults: FaultsType::Permanent { faults: 0 },
            duration_secs: DEFAULT_BENCHMARK_DURATION_SECS,
            next_load,
            lower_bound_result: None,
            upper_bound_result: None,
            iterations: 0,
        }
    }

    /// Set the benchmark flavour given to every run.
    pub fn with_benchmark_type(self, benchmark_type: T) -> (r: Self)
        ensures
            r == (BenchmarkParametersGenerator { benchmark_type, ..self }),
    {
        BenchmarkParametersGenerator { benchmark_type, ..self }
    }

    /// Set the fault schedule given to every run.
    pub fn with_faults(self, faults: FaultsType) -> (r: Self)
        ensures
            r == (BenchmarkParametersGenerator { faults, ..self }),
    {
        BenchmarkParametersGenerator { faults, ..self }
    }

    /// Set a custom duration for every run.
    pub fn with_custom_duration(self, duration_secs: u64) -> (r: Self)
        ensures
            r == (BenchmarkParametersGenerator { duration_secs, ..self }),
    {
        BenchmarkParametersGenerator { duration_secs, ..self }
    }

    /// The parameters of the next run, or nothing when the campaign is
    /// done. Reading does not advance the generator; registering a
    /// result does.
    pub fn next(&self) -> (r: Option<BenchmarkParameters<T>>)
        ensures
            match self.next_load {
                Some(load) => r == Some(
                    (BenchmarkParameters {
                        benchmark_type: self.benchmark_type,
                        nodes: self.nodes,
                        faults: self.faults,
                        load,
                        duration_secs: self.duration_secs,
                    }),
                ),
                None => r is None,
            },
    {
        match self.next_load {
            Some(load) => Some(
                BenchmarkParameters {
                    benchmark_type: self.benchmark_type,
                    nodes: self.nodes,
                    faults: self.faults,
                    load,
                    duration_secs: self.duration_secs,
                },
            ),
            None => None,
        }
    }

    /// Whether the run behind `new_result` ran the system out of
    /// capacity relative to the run behind `last_result`.
    pub fn out_of_capacity(
        last_result: &MeasurementsCollection<T>,
        new_result: &MeasurementsCollection<T>,
    ) -> (r: bool)
        ensures
            r == spec_out_of_capacity(*last_result, *new_result),
    {
        match new_result.first_label() {
            None => false,
            Some(label) => {
                let last_avg = last_result.aggregate_average_latency(&label);
                let new_avg = new_result.aggregate_average_latency(&label);
                let high_latency = if last_avg <= u128::MAX / 5 {
                    new_avg > 5 * last_avg
                } else {
                    false
                };
                let tps = new_result.aggregate_tps(&label);
                let no_throughput = tps < 2 * (new_result.transaction_load() as u128) / 3;
                high_latency || no_throughput
            },
        }
    }

    /// Register the measurements of the run just finished and decide
    /// the next load, as [`spec_register_result`] describes.
    ///
    /// The load capping in `requires` keeps the doubling and midpoint
    /// arithmetic inside `usize`; a generator whose bounds ever held an
    /// upper bound without a lower one is incoherent and excluded.
    pub fn register_result(&mut self, result: MeasurementsCollection<T>)
        requires
            old(self).wf(),
            result.parameters.load <= usize::MAX / 2,
        ensures
            spec_register_result(*old(self), *final(self), result),
            final(self).wf(),
    {
        let mut taken = LoadType::Fixed(Vec::new());
        core::mem::swap(&mut taken, &mut self.load_type);
        match taken {
            LoadType::Fixed(mut loads) => {
                if loads.len() == 0 {
                    self.next_load = None;
                } else {
                    let head = loads.remove(0);
                    self.next_load = Some(head);
                }
                self.load_type = LoadType::Fixed(loads);
            },
            LoadType::Search { starting_load, max_iterations } => {
                self.load_type = LoadType::Search { starting_load, max_iterations };
                if self.iterations >= max_iterations {
                    self.next_load = None;
                } else {
                    self.iterations = self.iterations + 1;
                    if self.lower_bound_result.is_none() {
                        let next = result.transaction_load() * 2;
                        self.lower_bound_result = Some(result);
                        self.next_load = Some(next);
                    } else if self.upper_bound_result.is_none() {
                        let lb = self.lower_bound_result.as_ref().unwrap();
                        if Self::out_of_capacity(lb, &result) {
                            let next = (lb.transaction_load() + result.transaction_load()) / 2;
                            self.upper_bound_result = Some(result);
                            self.next_load = Some(next);
                        } else {
                            let next = result.transaction_load() * 2;
                            self.lower_bound_result = Some(result);
                            self.next_load = Some(next);
                        }
                    } else {
                        let lb = self.lower_bound_result.as_ref().unwrap();
                        if Self::out_of_capacity(lb, &result) {
                            let next = (lb.transaction_load() + result.transaction_load()) / 2;
                            self.upper_bound_result = Some(result);
                            self.next_load = Some(next);
                        } else {
                            let ub = self.upper_bound_result.as_ref().unwrap();
                            let next = (result.transaction_load() + ub.transaction_load()) / 2;
                            self.lower_bound_result = Some(result);
                            self.next_load = Some(next);
                        }
                    }
                }
            },
        }
    }
}

/// A fixed-mode generator that was given the loads `all` and has
/// registered `k` results: the next load is `all[k]` while any remain,
/// exhaustion is reported as soon as `k` reaches their number, and the
/// tail still to emit follows `all` in order.
pub open spec fn fixed_state<T>(
    g: BenchmarkParametersGenerator<T>,
    all: Seq<usize>,
    k: int,
) -> bool {
    &&& 0 <= k <= all.len()
    &&& (g.load_type matches LoadType::Fixed(rem) && rem@ == (if k + 1 <= all.len() {
        all.skip(k + 1)
    } else {
        Seq::<usize>::empty()
    }))
    &&& g.next_load == (if k < all.len() {
        Some(all[k])
    } else {
        Option::<usize>::None
    })
}

/// A generator made over the load list `all` starts in `fixed_state 0`:
/// the first emitted load is the head of the list.
pub proof fn lemma_fixed_mode_start<T>(g: BenchmarkParametersGenerator<T>, all: Seq<usize>)
    requires
        g.load_type matches LoadType::Fixed(rem) && rem@ == (if all.len() == 0 {
            all
        } else {
            all.drop_first()
        }),
        g.next_load == (if all.len() == 0 {
            Option::<usize>::None
        } else {
            Some(all[0])
        }),
    ensures
        fixed_state(g, all, 0),
{
    if all.len() == 0 {
        assert(all =~= Seq::<usize>::empty());
    } else {
        assert(all.drop_first() =~= all.skip(1));
    }
}

/// Fixed-mode emission happens in order: registering the `k`-th result
/// moves the generator to `fixed_state (k + 1)`, so the loads come out
/// exactly as supplied and exhaustion is signaled after `all.len()`
/// registrations, never before or after.
pub proof fn lemma_fixed_mode_emits_in_order<T>(
    pre: BenchmarkParametersGenerator<T>,
    post: BenchmarkParametersGenerator<T>,
    result: MeasurementsCollection<T>,
    all: Seq<usize>,
    k: int,
)
    requires
        fixed_state(pre, all, k),
        spec_register_result(pre, post, result),
    ensures
        fixed_state(post, all, if k < all.len() { k + 1 } else { k }),
{
    if k + 1 <= all.len() {
        let rem = all.skip(k + 1);
        if rem.len() == 0 {
            assert(rem =~= Seq::<usize>::empty());
        } else {
            assert(rem.drop_first() =~= all.skip(k + 2));
            assert(rem[0] == all[k + 1]);
        }
    }
}

/// A search that may run zero more probes emits nothing further: any
/// registration, whatever its measurements, reports exhaustion. With
/// `max_iterations == 0` the one load emitted at construction stays the
/// only one.
pub proof fn lemma_max_iterations_zero<T>(
    pre: BenchmarkParametersGenerator<T>,
    post: BenchmarkParametersGenerator<T>,
    result: MeasurementsCollection<T>,
)
    requires
        pre.load_type matches LoadType::Search { max_iterations, .. } && max_iterations == 0,
        spec_register_result(pre, post, result),
    ensures
        post.next_load is None,
        post.load_type == pre.load_type,
{
}

/// Bisection stays bracketed: whenever a registration leaves the
/// generator with both bounds and a next load, that load lies between
/// the bounds' loads. The requirement that the lower bound's load not
/// exceed the upper one's holds whenever results are registered for the
/// loads the generator probed.
pub proof fn lemma_search_bisection<T>(
    pre: BenchmarkParametersGenerator<T>,
    post: BenchmarkParametersGenerator<T>,
    result: MeasurementsCollection<T>,
)
    requires
        pre.load_type is Search,
        pre.wf(),
        result.parameters.load <= usize::MAX / 2,
        spec_register_result(pre, post, result),
    ensures
        (post.lower_bound_result matches Some(lb) && post.upper_bound_result matches Some(ub)
            && lb.parameters.load <= ub.parameters.load && post.next_load matches Some(n))
            ==> (post.lower_bound_result matches Some(lb) && post.upper_bound_result matches Some(
            ub,
        ) && post.next_load matches Some(n) && lb.parameters.load <= n <= ub.parameters.load),
{
}

/// Network flavour of a benchmark: a container fleet on this machine or
/// a remote fleet driven over SSH.
#[derive(Debug, Clone, Copy, PartialEq, Eq, Structural)]
pub enum NetworkType {
    Local,
    Remote,
}

} // verus!
