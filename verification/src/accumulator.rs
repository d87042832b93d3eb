//! The aggregation accumulator: the running conjunction of validity signals
//! while a circuit is synthesized.
//!
//! The state starts empty, becomes the signal of the first sub-proof, is
//! multiplied by the signal of each further one, and is finalized once: the
//! terminal signal must be one.

use crate::signal::{all_valid, conjunction, lemma_conjunction_step, Signal};
use vstd::prelude::*;

verus! {

/// The accumulation state of one synthesis.
#[derive(Clone, Copy, Debug, PartialEq, Eq, Structural)]
pub enum AggregationState {
    /// No sub-proof folded yet.
    Empty,
    /// `folded` sub-proofs folded; `acc` is the product of their signals.
    Accumulating { folded: usize, acc: Signal },
    /// All sub-proofs consumed; `satisfied` says whether the terminal signal
    /// equals one.
    Finalized { folded: usize, satisfied: bool },
}

impl AggregationState {
    /// The state after folding `signals`, in order, into the empty state.
    pub open spec fn after(signals: Seq<Signal>) -> AggregationState {
        if signals.len() == 0 {
            AggregationState::Empty
        } else {
            AggregationState::Accumulating {
                folded: signals.len() as usize,
                acc: conjunction(signals),
            }
        }
    }

    /// The number of sub-proofs folded so far.
    pub open spec fn folded(self) -> nat {
        match self {
            AggregationState::Empty => 0,
            AggregationState::Accumulating { folded, .. } => folded as nat,
            AggregationState::Finalized { folded, .. } => folded as nat,
        }
    }

    /// The state that folding `signal` leads to; a finalized state has no
    /// successor.
    pub open spec fn fold_next(self, signal: Signal) -> Option<AggregationState> {
        match self {
            AggregationState::Empty => Some(
                AggregationState::Accumulating { folded: 1, acc: signal },
            ),
            AggregationState::Accumulating { folded, acc } => Some(
                AggregationState::Accumulating {
                    folded: (folded + 1) as usize,
                    acc: Signal::of(acc == Signal::One && signal == Signal::One),
                },
            ),
            AggregationState::Finalized { .. } => None,
        }
    }

    /// The finalized form of a state: the empty state is satisfied, an
    /// accumulating one is satisfied when its signal is one, and a finalized
    /// one stays as it is.
    pub open spec fn finalized(self) -> AggregationState {
        match self {
            AggregationState::Empty => AggregationState::Finalized { folded: 0, satisfied: true },
            AggregationState::Accumulating { folded, acc } => AggregationState::Finalized {
                folded,
                satisfied: acc == Signal::One,
            },
            AggregationState::Finalized { .. } => self,
        }
    }

    pub fn new() -> (r: AggregationState)
        ensures
            r == AggregationState::Empty,
    {
        AggregationState::Empty
    }

    /// Folds the signal of the next sub-proof into the state: the first
    /// signal seeds the accumulator, each further one multiplies it. A
    /// finalized state takes no further signal.
    pub fn fold(self, signal: Signal) -> (r: Option<AggregationState>)
        requires
            self is Accumulating ==> self.folded() < usize::MAX,
        ensures
            r == self.fold_next(signal),
            r is None <==> self is Finalized,
            r matches Some(next) ==> next.folded() == self.folded() + 1,
            self is Accumulating ==> (r matches Some(
                AggregationState::Accumulating { acc: product, .. },
            ) && product.value() == self->acc.value() * signal.value()),
    {
        match self {
            AggregationState::Empty => Some(
                AggregationState::Accumulating { folded: 1, acc: signal },
            ),
            AggregationState::Accumulating { folded, acc } => Some(
                AggregationState::Accumulating { folded: folded + 1, acc: acc.times(signal) },
            ),
            AggregationState::Finalized { .. } => None,
        }
    }

    /// Ends the accumulation and says whether the terminal signal is one.
    pub fn finalize(self) -> (r: AggregationState)
        ensures
            r == self.finalized(),
            r is Finalized,
            r.folded() == self.folded(),
    {
        match self {
            AggregationState::Empty => AggregationState::Finalized { folded: 0, satisfied: true },
            AggregationState::Accumulating { folded, acc } => AggregationState::Finalized {
                folded,
                satisfied: acc.is_one(),
            },
            AggregationState::Finalized { .. } => self,
        }
    }
}

/// Folding one more signal into the state after a sequence gives the state
/// after the longer sequence.
pub proof fn lemma_fold_extends(signals: Seq<Signal>, i: int)
    requires
        0 <= i < signals.len(),
        signals.len() <= usize::MAX,
    ensures
        AggregationState::after(signals.take(i)).fold_next(signals[i]) == Some(
            AggregationState::after(signals.take(i + 1)),
        ),
{
    lemma_conjunction_step(signals, i);
}

/// Folds a sequence of validity signals in order and finalizes.
///
/// The outcome counts the signals and is satisfied exactly when every signal
/// is one; no signals are vacuously satisfied.
pub fn accumulate(signals: &Vec<Signal>) -> (r: AggregationState)
    ensures
        r == AggregationState::after(signals@).finalized(),
        r == (AggregationState::Finalized {
            folded: signals@.len() as usize,
            satisfied: all_valid(signals@),
        }),
{
    let mut state = AggregationState::new();
    let mut i: usize = 0;
    while i < signals.len()
        invariant
            i <= signals@.len(),
            state == AggregationState::after(signals@.take(i as int)),
        decreases signals@.len() - i,
    {
        proof {
            lemma_fold_extends(signals@, i as int);
        }
        match state.fold(signals[i]) {
            Some(next) => {
                state = next;
            },
            None => {},
        }
        i += 1;
    }
    assert(signals@.take(i as int) =~= signals@);
    state.finalize()
}

} // verus!
