//! The coordinator of a clean shutdown.
//!
//! Stores register how they are flushed. When the shutdown signal resolves,
//! the coordinator flushes every one of them in the order of registration. A
//! flush that fails is noted and the next one is tried all the same: what can
//! be saved is saved.

use vstd::prelude::*;
use crate::savable::StoreError;
use crate::util::graceful_shutdown::{resolved, ShutdownSignal, Trigger};

verus! {

/// A flush that failed in the course of a shutdown.
#[derive(Debug, Clone, Copy, PartialEq, Eq, Structural)]
pub struct FlushFailure {
    /// Which store it was: 0 for the one registered first.
    pub store: usize,
    /// Why its flush failed.
    pub error: StoreError,
}

/// What a shutdown did, for contracts.
pub ghost struct SummaryView {
    pub trigger: Trigger,
    pub attempted: nat,
    pub failures: Seq<FlushFailure>,
}

/// What a shutdown did.
#[derive(Debug)]
pub struct Summary {
    /// Why the shutdown began.
    pub trigger: Trigger,
    /// How many stores were flushed, failed flushes included.
    pub attempted: usize,
    /// The flushes that failed, in the order of registration.
    pub failures: Vec<FlushFailure>,
}

impl View for Summary {
    type V = SummaryView;

    open spec fn view(&self) -> SummaryView {
        SummaryView {
            trigger: self.trigger,
            attempted: self.attempted as nat,
            failures: self.failures@,
        }
    }
}

/// The failures among `results`, where `results[i]` is what the flush of
/// store `i` returned.
pub open spec fn failures_of(results: Seq<Result<(), StoreError>>) -> Seq<FlushFailure>
    decreases results.len(),
{
    if results.len() == 0 {
        Seq::empty()
    } else {
        let earlier = failures_of(results.drop_last());
        match results.last() {
            Ok(_) => earlier,
            Err(error) => earlier.push(
                FlushFailure { store: (results.len() - 1) as usize, error },
            ),
        }
    }
}

/// The summary of a shutdown that `trigger` began and in which the flushes
/// returned `results`.
pub open spec fn summary_of(trigger: Trigger, results: Seq<Result<(), StoreError>>) -> SummaryView {
    SummaryView { trigger, attempted: results.len(), failures: failures_of(results) }
}

impl Summary {
    /// Whether every flush succeeded.
    pub fn is_success(&self) -> (yes: bool)
        ensures
            yes == (self@.failures.len() == 0),
    {
        self.failures.len() == 0
    }
}

/// Sums up a shutdown from what each flush returned, in the order of
/// registration.
pub fn summarize(trigger: Trigger, results: &Vec<Result<(), StoreError>>) -> (summary: Summary)
    ensures
        summary@ == summary_of(trigger, results@),
{
    let mut failures: Vec<FlushFailure> = Vec::new();
    let mut i: usize = 0;
    while i < results.len()
        invariant
            i <= results@.len(),
            failures@ == failures_of(results@.take(i as int)),
        decreases results@.len() - i,
    {
        proof {
            assert(results@.take(i + 1).drop_last() =~= results@.take(i as int));
        }
        match results[i] {
            Ok(_) => {},
            Err(error) => {
                failures.push(FlushFailure { store: i, error });
            },
        }
        i = i + 1;
    }
    proof {
        assert(results@.take(results@.len() as int) =~= results@);
    }
    Summary { trigger, attempted: results.len(), failures }
}

/// Partial failure. The list of failures holds one entry for each flush that
/// failed and none for one that succeeded, each under the number of its store
/// and with its error, in the order of registration. So a failure changes
/// nothing for the stores behind it.
pub proof fn lemma_failures_are_the_failed_flushes(results: Seq<Result<(), StoreError>>)
    requires
        results.len() <= usize::MAX,
    ensures
        failures_of(results).len() == results.filter(
            |r: Result<(), StoreError>| r is Err,
        ).len(),
        forall|i: int|
            0 <= i < results.len() && (#[trigger] results[i]) is Err ==> failures_of(
                results,
            ).contains(FlushFailure { store: i as usize, error: results[i]->Err_0 }),
        forall|k: int|
            0 <= k < failures_of(results).len() ==> {
                let failure = #[trigger] failures_of(results)[k];
                failure.store < results.len() && results[failure.store as int] == Err::<
                    (),
                    StoreError,
                >(failure.error)
            },
        forall|j: int, k: int|
            0 <= j < k < failures_of(results).len() ==> (#[trigger] failures_of(results)[j]).store
                < (#[trigger] failures_of(results)[k]).store,
    decreases results.len(),
{
    reveal(Seq::filter);
    if results.len() > 0 {
        let earlier = results.drop_last();
        lemma_failures_are_the_failed_flushes(earlier);
        let before = failures_of(earlier);
        let all = failures_of(results);
        assert forall|i: int| 0 <= i < results.len() && (#[trigger] results[i]) is Err implies all.contains(
            FlushFailure { store: i as usize, error: results[i]->Err_0 },
        ) by {
            let wanted = FlushFailure { store: i as usize, error: results[i]->Err_0 };
            if i < results.len() - 1 {
                assert(earlier[i] == results[i]);
                let k = choose|k: int| 0 <= k < before.len() && before[k] == wanted;
                assert(all[k] == wanted);
            } else {
                assert(all.last() == wanted);
            }
        }
        assert forall|k: int| 0 <= k < all.len() implies {
            let failure = #[trigger] all[k];
            failure.store < results.len() && results[failure.store as int] == Err::<
                (),
                StoreError,
            >(failure.error)
        } by {
            if k < before.len() {
                assert(all[k] == before[k]);
            }
        }
        assert forall|j: int, k: int| 0 <= j < k < all.len() implies (#[trigger] all[j]).store < (
        #[trigger] all[k]).store by {
            assert(all[j] == before[j]);
        }
    }
}

/// What is set up for a shutdown, for contracts.
pub ghost struct CoordinatorView<F> {
    pub signal: Option<Trigger>,
    pub flushes: Seq<F>,
}

/// One shutdown signal and the flushes to run when it resolves.
pub struct Coordinator<F> {
    signal: ShutdownSignal,
    flushes: Vec<F>,
}

impl<F> View for Coordinator<F> {
    type V = CoordinatorView<F>;

    closed spec fn view(&self) -> CoordinatorView<F> {
        CoordinatorView { signal: self.signal@, flushes: self.flushes@ }
    }
}

/// Whether `results` can be what the `flushes` return, one call each.
pub open spec fn flushed<F: FnOnce() -> Result<(), StoreError>>(
    flushes: Seq<F>,
    results: Seq<Result<(), StoreError>>,
) -> bool {
    &&& results.len() == flushes.len()
    &&& forall|i: int| 0 <= i < flushes.len() ==> call_ensures(flushes[i], (), #[trigger] results[i])
}

impl<F: FnOnce() -> Result<(), StoreError>> Coordinator<F> {
    /// A coordinator for `signal` with no store registered.
    pub fn new(signal: ShutdownSignal) -> (coordinator: Self)
        ensures
            coordinator@.signal == signal@,
            coordinator@.flushes.len() == 0,
    {
        Coordinator { signal, flushes: Vec::new() }
    }

    /// Adds `flush_fn`, which persists one store, behind those registered so
    /// far.
    pub fn register_store(&mut self, flush_fn: F)
        ensures
            final(self)@.signal == old(self)@.signal,
            final(self)@.flushes == old(self)@.flushes.push(flush_fn),
    {
        self.flushes.push(flush_fn);
    }

    /// The trigger, if the signal has resolved before the shutdown is run.
    /// Whoever finds one here has nothing to wait for.
    pub fn trigger(&self) -> (trigger: Option<Trigger>)
        ensures
            trigger == self@.signal,
    {
        self.signal.trigger()
    }

    /// How many stores are registered.
    pub fn stores(&self) -> (count: usize)
        ensures
            count == self@.flushes.len(),
    {
        self.flushes.len()
    }

    /// Shuts down: resolves the signal with what the listener `delivered`,
    /// then calls every registered flush once, in the order of registration,
    /// whether or not the ones before it failed, and sums up what they
    /// returned.
    pub fn run(self, delivered: Trigger) -> (summary: Summary)
        requires
            forall|i: int|
                0 <= i < self@.flushes.len() ==> call_requires(#[trigger] self@.flushes[i], ()),
        ensures
            summary@.attempted == self@.flushes.len(),
            exists|results: Seq<Result<(), StoreError>>|
                flushed(self@.flushes, results) && summary@ == summary_of(
                    resolved(self@.signal, delivered),
                    results,
                ),
    {
        let ghost flushes = self@.flushes;
        let Coordinator { mut signal, flushes: calls } = self;
        let trigger = signal.resolve(delivered);
        let mut results: Vec<Result<(), StoreError>> = Vec::new();
        for flush in it: calls
            invariant
                it.seq() == flushes,
                forall|i: int| 0 <= i < flushes.len() ==> call_requires(#[trigger] flushes[i], ()),
                results@.len() == it.index(),
                forall|i: int|
                    0 <= i < it.index() ==> call_ensures(flushes[i], (), #[trigger] results@[i]),
        {
            let result = flush();
            results.push(result);
        }
        proof {
            assert(flushed(flushes, results@));
        }
        summarize(trigger, &results)
    }
}

} // verus!
