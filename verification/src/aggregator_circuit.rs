//! The recursive aggregator circuit: one validity signal per sub-proof,
//! folded into one signal that is constrained to equal one.
//!
//! Synthesis never fails on an invalid sub-proof. It assigns the signal zero
//! and goes on; the terminal constraint is then not met, and that is what
//! keeps an aggregate proof for such a witness from being accepted.

use crate::accumulator::{lemma_fold_extends, AggregationState};
use crate::field::{all_wf, values_of, FieldElement};
use crate::layout::{
    constraint_met, shapes_of, ConstraintPlan, Layout, LayoutShape, Region, RegionKind,
    SynthesisError,
};
use crate::setup::{CircuitKey, SetupParams};
use crate::signal::{all_valid, conjunction, Signal};
use crate::verification::{is_blank, proof_accepted, sub_proof_accepted, verify_sub_proof};
use vstd::prelude::*;
use vstd::set_lib::{lemma_int_range, lemma_len_subset, lemma_subset_equality, set_int_range};

verus! {

/// The columns of the aggregator circuit.
#[derive(Clone, Copy, Debug, PartialEq, Eq, Structural)]
pub struct AggregatorConfig {
    /// The advice column of the per-sub-proof validity signals.
    pub proof_valid: usize,
    /// The advice column of the accumulated signal and of the constant one.
    pub all_valid: usize,
}

/// The region that holds the validity signal of one sub-proof.
pub open spec fn verify_region(config: AggregatorConfig, signal: Signal) -> Region {
    Region { kind: RegionKind::VerifyProof, column: config.proof_valid, offset: 0, value: signal }
}

/// The region that holds the accumulated signal after the sub-proof at
/// position `step`.
pub open spec fn accumulate_region(config: AggregatorConfig, step: usize, acc: Signal) -> Region {
    Region {
        kind: RegionKind::Accumulate { step },
        column: config.all_valid,
        offset: 0,
        value: acc,
    }
}

/// The region that holds the constant one of the terminal constraint.
pub open spec fn final_region(config: AggregatorConfig) -> Region {
    Region {
        kind: RegionKind::FinalConstrain,
        column: config.all_valid,
        offset: 1,
        value: Signal::One,
    }
}

/// The number of regions that `count` sub-proofs take before the terminal
/// constraint: one for the first, two for each further one.
pub open spec fn body_len(count: nat) -> nat {
    if count == 0 {
        0
    } else {
        (2 * count - 1) as nat
    }
}

/// The region at position `j` among those that precede the terminal
/// constraint. The first sub-proof takes position 0; sub-proof `i > 0` takes
/// position `2i - 1` for its signal and `2i` for the accumulated signal.
pub open spec fn body_region(config: AggregatorConfig, signals: Seq<Signal>, j: int) -> Region {
    if j == 0 || j % 2 == 1 {
        verify_region(config, signals[(j + 1) / 2])
    } else {
        accumulate_region(config, (j / 2) as usize, conjunction(signals.take(j / 2 + 1)))
    }
}

/// The regions of the first `count` sub-proofs.
pub open spec fn body_regions(config: AggregatorConfig, signals: Seq<Signal>, count: nat) -> Seq<
    Region,
> {
    Seq::new(body_len(count), |j: int| body_region(config, signals, j))
}

/// The regions of a circuit whose sub-proofs have the validity signals
/// `signals`, in order of assignment. A circuit without sub-proofs has none.
pub open spec fn circuit_regions(config: AggregatorConfig, signals: Seq<Signal>) -> Seq<Region> {
    if signals.len() == 0 {
        Seq::empty()
    } else {
        body_regions(config, signals, signals.len()).push(final_region(config))
    }
}

/// The equality constraint of a circuit of `count` sub-proofs: the last
/// accumulated signal equals the constant one. A circuit without sub-proofs
/// has no constraint.
pub open spec fn circuit_equal(count: nat) -> Option<(int, int)> {
    if count == 0 {
        None
    } else {
        Some((2 * count - 2, 2 * count - 1))
    }
}

/// The shape of the circuit of `count` sub-proofs: its regions without
/// their values, and its constraint. Key derivation depends on the shape
/// alone.
pub open spec fn circuit_shape(config: AggregatorConfig, count: nat) -> LayoutShape {
    LayoutShape {
        regions: shapes_of(circuit_regions(config, Seq::new(count, |i: int| Signal::One))),
        equal: circuit_equal(count),
    }
}

/// Whether the circuit for the signals `signals` meets its terminal
/// constraint.
pub open spec fn circuit_satisfied(config: AggregatorConfig, signals: Seq<Signal>) -> bool {
    constraint_met(circuit_regions(config, signals), circuit_equal(signals.len()))
}

/// The sub-proof verification gadget: verifies one sub-proof natively and
/// assigns its validity signal, one for success and zero for every failure.
/// A failed verification is no error of the gadget.
pub fn verify_proof_gadget(
    config: &AggregatorConfig,
    proof_bytes: &[u8],
    public_inputs: &Vec<FieldElement>,
    vk: &CircuitKey,
    params: &SetupParams,
) -> (region: Region)
    requires
        all_wf(public_inputs@),
    ensures
        region == verify_region(
            *config,
            Signal::of(sub_proof_accepted(params, vk, public_inputs@, proof_bytes@)),
        ),
{
    let outcome = verify_sub_proof(params, vk, public_inputs, proof_bytes);
    let val = Signal::from_outcome(outcome);
    Region { kind: RegionKind::VerifyProof, column: config.proof_valid, offset: 0, value: val }
}

/// The witness of one aggregation: the sub-proofs in submission order, each
/// with its public inputs and its verifying key, and the shared setup
/// parameters.
pub struct AggregatorCircuit<'a> {
    /// The proof bytes of each sub-proof.
    pub sub_proofs: Vec<Vec<u8>>,
    /// The public inputs of each sub-proof.
    pub sub_public_inputs: Vec<Vec<FieldElement>>,
    /// The verifying key of each sub-proof.
    pub sub_vks: Vec<&'a CircuitKey>,
    pub params: &'a SetupParams,
}

impl<'a> AggregatorCircuit<'a> {
    /// Validity of the values held: every public input is a field element.
    pub open spec fn wf(&self) -> bool {
        forall|i: int|
            0 <= i < self.sub_public_inputs@.len() ==> all_wf(
                #[trigger] self.sub_public_inputs@[i]@,
            )
    }

    /// Whether the three witness lists describe one list of sub-proofs.
    pub open spec fn consistent(&self) -> bool {
        &&& self.sub_public_inputs@.len() == self.sub_proofs@.len()
        &&& self.sub_vks@.len() == self.sub_proofs@.len()
    }

    /// The number of sub-proofs, which fixes the circuit's shape.
    pub open spec fn count(&self) -> nat {
        self.sub_proofs@.len()
    }

    /// Whether the sub-proof at position `i` is valid.
    pub open spec fn accepted_at(&self, i: int) -> bool {
        sub_proof_accepted(
            self.params,
            self.sub_vks@[i],
            self.sub_public_inputs@[i]@,
            self.sub_proofs@[i]@,
        )
    }

    /// The validity signals of the sub-proofs, in order.
    pub open spec fn signals(&self) -> Seq<Signal> {
        Seq::new(self.count(), |i: int| Signal::of(self.accepted_at(i)))
    }

    /// The columns of the circuit: two advice columns, both open to equality
    /// constraints.
    pub fn configure(meta: &mut ConstraintPlan) -> (config: AggregatorConfig)
        requires
            old(meta).advice_columns + 2 <= usize::MAX,
        ensures
            config.proof_valid == old(meta).advice_columns,
            config.all_valid == old(meta).advice_columns + 1,
            final(meta).advice_columns == old(meta).advice_columns + 2,
            final(meta).equality@ == old(meta).equality@.push(config.proof_valid).push(
                config.all_valid,
            ),
    {
        let proof_valid = meta.advice_column();
        let all_valid = meta.advice_column();
        meta.enable_equality(proof_valid);
        meta.enable_equality(all_valid);
        AggregatorConfig { proof_valid, all_valid }
    }

    /// The circuit of the same shape without its witness: as many sub-proofs,
    /// under the same keys and parameters, with empty proof bytes and no
    /// public inputs.
    pub fn without_witnesses(&self) -> (r: AggregatorCircuit<'a>)
        ensures
            r.wf(),
            r.consistent() == self.consistent(),
            r.count() == self.count(),
            r.sub_vks@ == self.sub_vks@,
            r.params == self.params,
            r.sub_public_inputs@.len() == self.sub_public_inputs@.len(),
            forall|i: int|
                0 <= i < r.sub_proofs@.len() ==> (#[trigger] r.sub_proofs@[i])@.len() == 0,
            forall|i: int|
                0 <= i < r.sub_public_inputs@.len() ==> (#[trigger] r.sub_public_inputs@[i])@.len()
                    == 0,
    {
        let mut sub_proofs: Vec<Vec<u8>> = Vec::new();
        let mut i: usize = 0;
        while i < self.sub_proofs.len()
            invariant
                i <= self.sub_proofs@.len(),
                sub_proofs@.len() == i,
                forall|j: int| 0 <= j < i ==> (#[trigger] sub_proofs@[j])@.len() == 0,
            decreases self.sub_proofs@.len() - i,
        {
            sub_proofs.push(Vec::new());
            i += 1;
        }
        let mut sub_public_inputs: Vec<Vec<FieldElement>> = Vec::new();
        let mut i: usize = 0;
        while i < self.sub_public_inputs.len()
            invariant
                i <= self.sub_public_inputs@.len(),
                sub_public_inputs@.len() == i,
                forall|j: int| 0 <= j < i ==> (#[trigger] sub_public_inputs@[j])@.len() == 0,
            decreases self.sub_public_inputs@.len() - i,
        {
            sub_public_inputs.push(Vec::new());
            i += 1;
        }
        let mut sub_vks: Vec<&'a CircuitKey> = Vec::new();
        let mut i: usize = 0;
        while i < self.sub_vks.len()
            invariant
                i <= self.sub_vks@.len(),
                sub_vks@ =~= self.sub_vks@.take(i as int),
            decreases self.sub_vks@.len() - i,
        {
            sub_vks.push(self.sub_vks[i]);
            i += 1;
        }
        AggregatorCircuit { sub_proofs, sub_public_inputs, sub_vks, params: self.params }
    }

    /// Synthesizes the circuit: runs the gadget on each sub-proof in
    /// submission order, folds the signals, and ends with the terminal
    /// constraint that the accumulated signal equals one.
    ///
    /// The only failure is a witness whose lists differ in length. An invalid
    /// sub-proof is no failure: its signal is zero and the layout that comes
    /// back does not meet its constraint.
    pub fn synthesize(&self, config: &AggregatorConfig) -> (r: Result<Layout, SynthesisError>)
        requires
            self.wf(),
        ensures
            r.is_ok() <==> self.consistent(),
            r matches Ok(layout) ==> {
                &&& layout.regions@ == circuit_regions(*config, self.signals())
                &&& layout.equal_positions() == circuit_equal(self.count())
                &&& layout.shape() == circuit_shape(*config, self.count())
                &&& layout.satisfied() == all_valid(self.signals())
            },
            r matches Err(e) ==> e == SynthesisError::InconsistentWitness,
    {
        let count = self.sub_proofs.len();
        if self.sub_public_inputs.len() != count || self.sub_vks.len() != count {
            return Err(SynthesisError::InconsistentWitness);
        }
        proof {
            lemma_shape_depends_on_count_alone(
                *config,
                self.signals(),
                Seq::new(self.count(), |i: int| Signal::One),
            );
        }
        Ok(self.assign_slots(config, count))
    }

    /// Synthesizes the circuit at a fixed capacity: the sub-proofs take the
    /// first slots, and every slot left over holds a padding record, whose
    /// signal is one, the neutral element of the fold.
    ///
    /// The shape of the layout is that of `capacity` sub-proofs, whatever
    /// the number of sub-proofs, so one key pair derived for the capacity
    /// serves every count up to it. Besides an inconsistent witness, more
    /// sub-proofs than slots are a failure.
    pub fn synthesize_padded(&self, config: &AggregatorConfig, capacity: usize) -> (r: Result<
        Layout,
        SynthesisError,
    >)
        requires
            self.wf(),
        ensures
            r.is_ok() <==> self.consistent() && self.count() <= capacity,
            r matches Ok(layout) ==> {
                &&& layout.regions@ == circuit_regions(
                    *config,
                    padded(self.signals(), capacity as nat),
                )
                &&& layout.equal_positions() == circuit_equal(capacity as nat)
                &&& layout.shape() == circuit_shape(*config, capacity as nat)
                &&& layout.satisfied() == all_valid(self.signals())
            },
            r matches Err(e) ==> e == if !self.consistent() {
                SynthesisError::InconsistentWitness
            } else {
                SynthesisError::CapacityExceeded
            },
    {
        let count = self.sub_proofs.len();
        if self.sub_public_inputs.len() != count || self.sub_vks.len() != count {
            return Err(SynthesisError::InconsistentWitness);
        }
        if count > capacity {
            return Err(SynthesisError::CapacityExceeded);
        }
        proof {
            lemma_padding_is_neutral(self.signals(), capacity as nat);
            lemma_shape_depends_on_count_alone(
                *config,
                padded(self.signals(), capacity as nat),
                Seq::new(capacity as nat, |i: int| Signal::One),
            );
        }
        Ok(self.assign_slots(config, capacity))
    }

    /// Assigns `slots` slots: the sub-proofs first, then padding.
    fn assign_slots(&self, config: &AggregatorConfig, slots: usize) -> (layout: Layout)
        requires
            self.wf(),
            self.consistent(),
            self.count() <= slots,
        ensures
            layout.regions@ == circuit_regions(*config, padded(self.signals(), slots as nat)),
            layout.equal_positions() == circuit_equal(slots as nat),
            layout.satisfied() == all_valid(padded(self.signals(), slots as nat)),
    {
        let count = self.sub_proofs.len();
        let ghost signals = padded(self.signals(), slots as nat);
        let mut regions: Vec<Region> = Vec::new();
        let mut state = AggregationState::new();
        let mut i: usize = 0;
        while i < slots
            invariant
                self.wf(),
                self.consistent(),
                count == self.count(),
                count <= slots,
                signals == padded(self.signals(), slots as nat),
                i <= slots,
                regions@ =~= body_regions(*config, signals, i as nat),
                state == AggregationState::after(signals.take(i as int)),
            decreases slots - i,
        {
            let verified_cell = if i < count {
                verify_proof_gadget(
                    config,
                    self.sub_proofs[i].as_slice(),
                    &self.sub_public_inputs[i],
                    self.sub_vks[i],
                    self.params,
                )
            } else {
                Region {
                    kind: RegionKind::VerifyProof,
                    column: config.proof_valid,
                    offset: 0,
                    value: Signal::One,
                }
            };
            regions.push(verified_cell);
            proof {
                lemma_fold_extends(signals, i as int);
            }
            match state.fold(verified_cell.value) {
                Some(next) => {
                    if let AggregationState::Accumulating { acc, .. } = next {
                        if i > 0 {
                            regions.push(
                                Region {
                                    kind: RegionKind::Accumulate { step: i },
                                    column: config.all_valid,
                                    offset: 0,
                                    value: acc,
                                },
                            );
                        }
                    }
                    state = next;
                },
                None => {},
            }
            i += 1;
        }
        let equal = match state.finalize() {
            AggregationState::Finalized { folded, .. } => {
                if folded > 0 {
                    let accumulated = regions.len() - 1;
                    let one = regions.len();
                    regions.push(
                        Region {
                            kind: RegionKind::FinalConstrain,
                            column: config.all_valid,
                            offset: 1,
                            value: Signal::One,
                        },
                    );
                    Some((accumulated, one))
                } else {
                    None
                }
            },
            _ => None,
        };
        proof {
            lemma_satisfied_iff_all_valid(*config, signals);
        }
        Layout { regions, equal }
    }
}

/// The signals of `slots` slots of which the first hold `signals`: every
/// slot left over holds the signal one. Where there are no slots left over,
/// these are the signals themselves.
pub open spec fn padded(signals: Seq<Signal>, slots: nat) -> Seq<Signal> {
    if signals.len() >= slots {
        signals
    } else {
        Seq::new(slots, |i: int| if i < signals.len() { signals[i] } else { Signal::One })
    }
}

/// Padding is neutral: the padded signals are all one exactly when the
/// signals themselves are.
pub proof fn lemma_padding_is_neutral(signals: Seq<Signal>, slots: nat)
    ensures
        all_valid(padded(signals, slots)) == all_valid(signals),
        padded(signals, slots).len() == if signals.len() >= slots { signals.len() } else { slots },
{
    let full = padded(signals, slots);
    if all_valid(full) {
        assert forall|i: int| 0 <= i < signals.len() implies signals[i] == Signal::One by {
            assert(full[i] == signals[i]);
        }
    }
}

/// The terminal constraint is met exactly when every sub-proof is valid; a
/// circuit without sub-proofs meets it vacuously.
pub proof fn lemma_satisfied_iff_all_valid(config: AggregatorConfig, signals: Seq<Signal>)
    ensures
        circuit_satisfied(config, signals) <==> all_valid(signals),
{
    let count = signals.len();
    if count > 1 {
        // The last accumulated signal is the conjunction of all signals.
        assert(signals.take((2 * count - 2) / 2 + 1) =~= signals);
    }
}

/// The shape of the circuit depends on the number of sub-proofs alone:
/// circuits of the same count have the same regions in the same places and
/// the same constraint, whatever their sub-proofs are. One key pair derived
/// for a count therefore serves every witness of that count.
pub proof fn lemma_shape_depends_on_count_alone(
    config: AggregatorConfig,
    first: Seq<Signal>,
    second: Seq<Signal>,
)
    requires
        first.len() == second.len(),
    ensures
        shapes_of(circuit_regions(config, first)) == shapes_of(circuit_regions(config, second)),
        circuit_equal(first.len()) == circuit_equal(second.len()),
        shapes_of(circuit_regions(config, first)) == circuit_shape(config, first.len()).regions,
{
    assert(shapes_of(circuit_regions(config, first)) =~= circuit_shape(
        config,
        first.len(),
    ).regions);
    assert(shapes_of(circuit_regions(config, first)) =~= shapes_of(
        circuit_regions(config, second),
    ));
}

/// At a fixed capacity the shape of the circuit does not depend on the
/// number of sub-proofs either: any two witnesses that fit the capacity give
/// the same regions in the same places and the same constraint.
pub proof fn lemma_padded_shape_depends_on_capacity_alone(
    config: AggregatorConfig,
    first: Seq<Signal>,
    second: Seq<Signal>,
    capacity: nat,
)
    requires
        first.len() <= capacity,
        second.len() <= capacity,
    ensures
        shapes_of(circuit_regions(config, padded(first, capacity))) == shapes_of(
            circuit_regions(config, padded(second, capacity)),
        ),
{
    lemma_padding_is_neutral(first, capacity);
    lemma_padding_is_neutral(second, capacity);
    lemma_shape_depends_on_count_alone(
        config,
        padded(first, capacity),
        padded(second, capacity),
    );
}

/// A circuit without sub-proofs has no region and no constraint, and is
/// vacuously satisfied.
pub proof fn lemma_vacuous_aggregation_is_satisfied(config: AggregatorConfig, signals: Seq<Signal>)
    requires
        signals.len() == 0,
    ensures
        circuit_regions(config, signals) == Seq::<Region>::empty(),
        circuit_equal(signals.len()) is None,
        circuit_satisfied(config, signals),
{
}

/// Completeness: when every sub-proof of a circuit is valid, the circuit
/// meets its terminal constraint.
pub proof fn lemma_valid_sub_proofs_aggregate(circuit: AggregatorCircuit, config: AggregatorConfig)
    requires
        forall|i: int| 0 <= i < circuit.count() ==> circuit.accepted_at(i),
    ensures
        circuit_satisfied(config, circuit.signals()),
{
    lemma_satisfied_iff_all_valid(config, circuit.signals());
}

/// Rejection of a single invalid sub-proof: whatever the position of an
/// invalid sub-proof, and whatever the other sub-proofs are, the circuit
/// does not meet its terminal constraint.
pub proof fn lemma_invalid_sub_proof_rejects(
    circuit: AggregatorCircuit,
    config: AggregatorConfig,
    i: int,
)
    requires
        0 <= i < circuit.count(),
        !circuit.accepted_at(i),
    ensures
        circuit.signals()[i] == Signal::Zero,
        !circuit_satisfied(config, circuit.signals()),
{
    lemma_satisfied_iff_all_valid(config, circuit.signals());
}

/// Soundness: a sub-proof whose bytes are empty or all zero, or are not
/// accepted by the proving system for its key and public inputs, has the
/// signal zero, and a circuit that holds it does not meet its terminal
/// constraint.
pub proof fn lemma_malformed_proof_rejects(
    circuit: AggregatorCircuit,
    config: AggregatorConfig,
    i: int,
)
    requires
        0 <= i < circuit.count(),
        is_blank(circuit.sub_proofs@[i]@) || !proof_accepted(
            circuit.params.size(),
            circuit.sub_vks@[i].identity(),
            seq![values_of(circuit.sub_public_inputs@[i]@)],
            circuit.sub_proofs@[i]@,
        ),
    ensures
        circuit.signals()[i] == Signal::Zero,
        !circuit_satisfied(config, circuit.signals()),
{
    lemma_invalid_sub_proof_rejects(circuit, config, i);
}

/// Whether `second` holds the sub-proofs of `first` in the order `order`:
/// the sub-proof at position `i` of `second` is the one at position
/// `order[i]` of `first`, and `order` names every position once.
pub open spec fn is_reordering(
    first: AggregatorCircuit,
    second: AggregatorCircuit,
    order: Seq<int>,
) -> bool {
    &&& first.params == second.params
    &&& order.len() == first.count()
    &&& second.count() == first.count()
    &&& order.no_duplicates()
    &&& forall|i: int| 0 <= i < order.len() ==> 0 <= #[trigger] order[i] < first.count()
    &&& forall|i: int|
        0 <= i < order.len() ==> {
            &&& (#[trigger] second.sub_proofs@[i])@ == first.sub_proofs@[order[i]]@
            &&& second.sub_public_inputs@[i]@ == first.sub_public_inputs@[order[i]]@
            &&& second.sub_vks@[i] == first.sub_vks@[order[i]]
        }
}

/// A sequence of `n` distinct positions below `n` names every position.
proof fn lemma_distinct_positions_cover(order: Seq<int>, n: nat, j: int)
    requires
        order.len() == n,
        order.no_duplicates(),
        forall|i: int| 0 <= i < order.len() ==> 0 <= #[trigger] order[i] < n,
        0 <= j < n,
    ensures
        exists|i: int| 0 <= i < order.len() && order[i] == j,
{
    let named = order.to_set();
    let all = set_int_range(0, n as int);
    lemma_int_range(0, n as int);
    order.unique_seq_to_set();
    assert(named.subset_of(all)) by {
        assert forall|v: int| named.contains(v) implies all.contains(v) by {
            let i = choose|i: int| 0 <= i < order.len() && order[i] == v;
            assert(0 <= order[i] < n);
        }
    }
    lemma_len_subset(named, all);
    lemma_subset_equality(named, all);
    assert(named.contains(j));
}

/// Order changes neither the verdict nor the shape: folding the same
/// sub-proofs in another order meets the terminal constraint exactly when
/// the first order does, and gives a circuit of the same shape.
pub proof fn lemma_order_changes_neither_verdict_nor_shape(
    first: AggregatorCircuit,
    second: AggregatorCircuit,
    order: Seq<int>,
    config: AggregatorConfig,
)
    requires
        is_reordering(first, second, order),
    ensures
        circuit_satisfied(config, second.signals()) == circuit_satisfied(config, first.signals()),
        shapes_of(circuit_regions(config, second.signals())) == shapes_of(
            circuit_regions(config, first.signals()),
        ),
        circuit_equal(second.count()) == circuit_equal(first.count()),
{
    let a = first.signals();
    let b = second.signals();
    lemma_satisfied_iff_all_valid(config, a);
    lemma_satisfied_iff_all_valid(config, b);
    lemma_shape_depends_on_count_alone(config, a, b);
    assert forall|i: int| 0 <= i < b.len() implies b[i] == a[order[i]] by {
        assert(second.accepted_at(i) == first.accepted_at(order[i]));
    }
    if all_valid(b) {
        assert forall|j: int| 0 <= j < a.len() implies a[j] == Signal::One by {
            lemma_distinct_positions_cover(order, first.count(), j);
            let i = choose|i: int| 0 <= i < order.len() && order[i] == j;
            assert(b[i] == a[order[i]]);
        }
    }
}

} // verus!
