//! Validity signals: the values in {0, 1} that say whether a sub-proof holds,
//! and their product.

use crate::field::FieldElement;
use vstd::prelude::*;
use vstd::seq_lib::to_multiset_contains;

verus! {

/// A validity signal. It can only be zero or one, so the product of signals
/// is their conjunction.
#[derive(Clone, Copy, Debug, PartialEq, Eq, Structural)]
pub enum Signal {
    /// The sub-proof does not hold.
    Zero,
    /// The sub-proof holds.
    One,
}

impl Signal {
    /// The signal as a number.
    pub open spec fn value(self) -> nat {
        match self {
            Signal::Zero => 0,
            Signal::One => 1,
        }
    }

    /// The signal of an outcome.
    pub open spec fn of(valid: bool) -> Signal {
        if valid {
            Signal::One
        } else {
            Signal::Zero
        }
    }

    /// Turns the outcome of a verification into a signal: success is one,
    /// every failure is zero.
    pub fn from_outcome(valid: bool) -> (s: Signal)
        ensures
            s == Signal::of(valid),
            s.value() == if valid { 1nat } else { 0nat },
    {
        if valid {
            Signal::One
        } else {
            Signal::Zero
        }
    }

    pub fn is_one(self) -> (r: bool)
        ensures
            r == (self == Signal::One),
            r == (self.value() == 1),
    {
        match self {
            Signal::One => true,
            Signal::Zero => false,
        }
    }

    /// The product of two signals.
    pub fn times(self, other: Signal) -> (r: Signal)
        ensures
            r.value() == self.value() * other.value(),
            r == Signal::of(self == Signal::One && other == Signal::One),
    {
        match self {
            Signal::One => other,
            Signal::Zero => Signal::Zero,
        }
    }

    /// The field element that a cell holding this signal is assigned.
    pub fn to_field(self) -> (r: FieldElement)
        ensures
            r.wf(),
            r.value() == self.value(),
    {
        match self {
            Signal::One => FieldElement::one(),
            Signal::Zero => FieldElement::zero(),
        }
    }
}

/// The product of a sequence of signals; the empty product is one.
pub open spec fn signal_product(signals: Seq<Signal>) -> nat
    decreases signals.len(),
{
    if signals.len() == 0 {
        1
    } else {
        signal_product(signals.drop_last()) * signals.last().value()
    }
}

/// Whether every signal of a sequence is one.
pub open spec fn all_valid(signals: Seq<Signal>) -> bool {
    forall|i: int| 0 <= i < signals.len() ==> signals[i] == Signal::One
}

/// The conjunction of a sequence of signals: one exactly when every signal of
/// the sequence is one.
pub open spec fn conjunction(signals: Seq<Signal>) -> Signal {
    Signal::of(all_valid(signals))
}

/// The product of signals is itself a signal, and it is one exactly when
/// every factor is one: over {0, 1} multiplication is conjunction.
pub proof fn lemma_product_is_conjunction(signals: Seq<Signal>)
    ensures
        signal_product(signals) == conjunction(signals).value(),
        signal_product(signals) <= 1,
        signal_product(signals) == 1 <==> all_valid(signals),
    decreases signals.len(),
{
    if signals.len() > 0 {
        let front = signals.drop_last();
        lemma_product_is_conjunction(front);
        if all_valid(signals) {
            assert forall|i: int| 0 <= i < front.len() implies front[i] == Signal::One by {
                assert(front[i] == signals[i]);
            }
        } else {
            if all_valid(front) && signals.last() == Signal::One {
                assert forall|i: int| 0 <= i < signals.len() implies signals[i] == Signal::One by {
                    if i < front.len() {
                        assert(front[i] == signals[i]);
                    }
                }
            }
        }
        if signals.last() == Signal::Zero {
            assert(signal_product(front) * 0 == 0) by (nonlinear_arith);
        } else {
            assert(signal_product(front) * 1 == signal_product(front)) by (nonlinear_arith);
        }
    }
}

/// The conjunction of a longer prefix is the product of the conjunction of
/// the shorter one and the next signal.
pub proof fn lemma_conjunction_step(signals: Seq<Signal>, i: int)
    requires
        0 <= i < signals.len(),
    ensures
        conjunction(signals.take(i + 1)) == Signal::of(
            conjunction(signals.take(i)) == Signal::One && signals[i] == Signal::One,
        ),
{
    let shorter = signals.take(i);
    let longer = signals.take(i + 1);
    if all_valid(longer) {
        assert forall|j: int| 0 <= j < shorter.len() implies shorter[j] == Signal::One by {
            assert(longer[j] == Signal::One);
        }
        assert(longer[i] == Signal::One);
    }
    if all_valid(shorter) && signals[i] == Signal::One {
        assert forall|j: int| 0 <= j < longer.len() implies longer[j] == Signal::One by {
            if j < i {
                assert(shorter[j] == Signal::One);
            }
        }
    }
}

/// The conjunction does not depend on the order of the signals: two
/// sequences that hold the same signals as often have the same conjunction
/// and the same product.
pub proof fn lemma_conjunction_ignores_order(first: Seq<Signal>, second: Seq<Signal>)
    requires
        first.to_multiset() == second.to_multiset(),
    ensures
        conjunction(first) == conjunction(second),
        signal_product(first) == signal_product(second),
{
    to_multiset_contains(first, Signal::Zero);
    to_multiset_contains(second, Signal::Zero);
    assert(all_valid(first) <==> !first.contains(Signal::Zero)) by {
        if !all_valid(first) {
            let i = choose|i: int| 0 <= i < first.len() && first[i] != Signal::One;
            assert(first[i] == Signal::Zero);
        }
    }
    assert(all_valid(second) <==> !second.contains(Signal::Zero)) by {
        if !all_valid(second) {
            let i = choose|i: int| 0 <= i < second.len() && second[i] != Signal::One;
            assert(second[i] == Signal::Zero);
        }
    }
    lemma_product_is_conjunction(first);
    lemma_product_is_conjunction(second);
}

} // verus!
