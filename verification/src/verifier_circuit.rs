//! The circuit of a single sub-proof: the verification gadget followed by
//! the terminal constraint, which is the aggregator circuit of one sub-proof.

use crate::aggregator_circuit::{
    circuit_equal, circuit_regions, circuit_shape, lemma_shape_depends_on_count_alone,
    verify_proof_gadget, AggregatorConfig,
};
use crate::field::{all_wf, FieldElement};
use crate::layout::{Layout, Region, RegionKind};
use crate::setup::{CircuitKey, SetupParams};
use crate::signal::Signal;
use crate::verification::sub_proof_accepted;
use vstd::prelude::*;

verus! {

/// One sub-proof with its public inputs, its verifying key and the setup
/// parameters.
pub struct VerifierCircuit<'a> {
    pub proof_bytes: Vec<u8>,
    pub public_input: Vec<FieldElement>,
    pub vk: &'a CircuitKey,
    pub params: &'a SetupParams,
}

impl<'a> VerifierCircuit<'a> {
    /// Validity of the values held.
    pub open spec fn wf(&self) -> bool {
        all_wf(self.public_input@)
    }

    /// Whether the sub-proof is valid.
    pub open spec fn accepted(&self) -> bool {
        sub_proof_accepted(self.params, self.vk, self.public_input@, self.proof_bytes@)
    }

    /// The circuit without its witness: no proof bytes and no public inputs,
    /// under the same key and parameters.
    pub fn without_witnesses(&self) -> (r: VerifierCircuit<'a>)
        ensures
            r.proof_bytes@.len() == 0,
            r.public_input@.len() == 0,
            r.vk == self.vk,
            r.params == self.params,
    {
        VerifierCircuit {
            proof_bytes: Vec::new(),
            public_input: Vec::new(),
            vk: self.vk,
            params: self.params,
        }
    }

    /// Synthesizes the circuit: the signal of the sub-proof, and the constant
    /// one that it is constrained to equal. An invalid sub-proof is no
    /// failure of synthesis; the layout then does not meet its constraint.
    pub fn synthesize(&self, config: &AggregatorConfig) -> (layout: Layout)
        requires
            self.wf(),
        ensures
            layout.regions@ == circuit_regions(*config, seq![Signal::of(self.accepted())]),
            layout.equal_positions() == circuit_equal(1),
            layout.shape() == circuit_shape(*config, 1),
            layout.satisfied() == self.accepted(),
    {
        let verified_cell = verify_proof_gadget(
            config,
            self.proof_bytes.as_slice(),
            &self.public_input,
            self.vk,
            self.params,
        );
        let mut regions: Vec<Region> = Vec::new();
        regions.push(verified_cell);
        regions.push(
            Region {
                kind: RegionKind::FinalConstrain,
                column: config.all_valid,
                offset: 1,
                value: Signal::One,
            },
        );
        proof {
            let signals = seq![Signal::of(self.accepted())];
            assert(regions@ =~= circuit_regions(*config, signals));
            lemma_shape_depends_on_count_alone(*config, signals, seq![Signal::One]);
        }
        Layout { regions, equal: Some((0, 1)) }
    }
}

} // verus!
