//! The leaf relation "y = 2x" as the aggregator sees it: its witness decoded
//! from bytes, and the verification of proofs for it.

use crate::field::{
    block_at, block_count, is_field_block, le_value, split_field_elements, values_of,
    FieldElement, FieldError, FieldErrorKind, FIELD_BYTES,
};
use crate::setup::{CircuitKey, SetupParams};
use crate::verification::{proof_valid_for, verify_sub_proof};
use vstd::prelude::*;

verus! {

/// Length of the encoding of a witness: one block for `x`, one for `y`.
pub const PAI_INPUT_BYTES: usize = 64;

/// The witness of the leaf relation.
#[derive(Clone, Copy, Debug, PartialEq, Eq)]
pub struct PaiCircuit {
    pub x: Option<FieldElement>,
    pub y: Option<FieldElement>,
}

/// Why a proof for the leaf relation was not accepted.
#[derive(Clone, Copy, Debug, PartialEq, Eq, Structural)]
pub enum PaiError {
    /// The public-input bytes are not the encoding of a witness.
    MalformedInput(FieldError),
    /// The proof does not verify for the public inputs.
    VerificationFailed,
}

/// A proof of a batch that was not accepted, with its position.
#[derive(Clone, Copy, Debug, PartialEq, Eq, Structural)]
pub struct PaiBatchError {
    pub index: usize,
    pub error: PaiError,
}

/// Whether `bytes` is the encoding of a witness: two blocks, each a field
/// element.
pub open spec fn is_pai_input(bytes: Seq<u8>) -> bool {
    &&& bytes.len() == PAI_INPUT_BYTES
    &&& is_field_block(block_at(bytes, 0))
    &&& is_field_block(block_at(bytes, 1))
}

/// The fault of bytes that are not the encoding of a witness: a wrong length
/// is reported at the number of complete blocks, a block that is not
/// canonical at its position, the first such block first.
pub open spec fn pai_input_fault(bytes: Seq<u8>) -> FieldError {
    if bytes.len() != PAI_INPUT_BYTES {
        FieldError { index: block_count(bytes) as usize, kind: FieldErrorKind::WrongLength }
    } else if !is_field_block(block_at(bytes, 0)) {
        FieldError { index: 0, kind: FieldErrorKind::NotCanonical }
    } else {
        FieldError { index: 1, kind: FieldErrorKind::NotCanonical }
    }
}

impl PaiCircuit {
    /// Validity of the values held.
    pub open spec fn wf(&self) -> bool {
        &&& self.x matches Some(x) ==> x.wf()
        &&& self.y matches Some(y) ==> y.wf()
    }

    /// The circuit without its witness.
    pub fn without_witnesses(&self) -> (r: PaiCircuit)
        ensures
            r.x is None,
            r.y is None,
    {
        PaiCircuit { x: None, y: None }
    }

    /// Decodes a witness from 64 bytes: 32 for `x`, then 32 for `y`, each
    /// the little-endian encoding of a field element.
    pub fn from_bytes(bytes: &[u8]) -> (r: Result<PaiCircuit, FieldError>)
        ensures
            r.is_ok() <==> is_pai_input(bytes@),
            r matches Ok(circuit) ==> {
                &&& circuit.wf()
                &&& circuit.x matches Some(x) && x.repr() == block_at(bytes@, 0)
                &&& circuit.y matches Some(y) && y.repr() == block_at(bytes@, 1)
            },
            r matches Err(e) ==> e == pai_input_fault(bytes@),
    {
        if bytes.len() != PAI_INPUT_BYTES {
            return Err(
                FieldError { index: bytes.len() / FIELD_BYTES, kind: FieldErrorKind::WrongLength },
            );
        }
        match split_field_elements(bytes) {
            Ok(elements) => Ok(PaiCircuit { x: Some(elements[0]), y: Some(elements[1]) }),
            Err(e) => Err(e),
        }
    }

    /// The public inputs of the relation, `x` then `y`, where both are known.
    pub fn public_inputs(&self) -> (r: Option<Vec<FieldElement>>)
        ensures
            r.is_some() <==> self.x is Some && self.y is Some,
            r matches Some(inputs) ==> inputs@ == seq![self.x->0, self.y->0],
    {
        match (self.x, self.y) {
            (Some(x), Some(y)) => {
                let mut inputs: Vec<FieldElement> = Vec::new();
                inputs.push(x);
                inputs.push(y);
                Some(inputs)
            },
            _ => None,
        }
    }
}

/// The outcome of verifying one proof of the leaf relation: malformed
/// public-input bytes are reported as such; otherwise the proof is verified
/// for the two values that the bytes encode.
pub open spec fn pai_verdict(
    vk: &CircuitKey,
    params: &SetupParams,
    proof: Seq<u8>,
    public_input_bytes: Seq<u8>,
) -> Result<(), PaiError> {
    if !is_pai_input(public_input_bytes) {
        Err(PaiError::MalformedInput(pai_input_fault(public_input_bytes)))
    } else if proof_valid_for(
        params,
        vk,
        seq![le_value(block_at(public_input_bytes, 0)), le_value(block_at(public_input_bytes, 1))],
        proof,
    ) {
        Ok(())
    } else {
        Err(PaiError::VerificationFailed)
    }
}

/// Verifies one proof of the leaf relation against an already derived key.
/// The public inputs come as 64 bytes and are decoded first; bytes that are
/// no witness are reported without any verification.
pub fn verify_pai_circuit_with_vk(
    vk: &CircuitKey,
    params: &SetupParams,
    proof_bytes: &[u8],
    public_input_bytes: &[u8],
) -> (r: Result<(), PaiError>)
    ensures
        r == pai_verdict(vk, params, proof_bytes@, public_input_bytes@),
{
    let circuit = match PaiCircuit::from_bytes(public_input_bytes) {
        Ok(circuit) => circuit,
        Err(e) => {
            return Err(PaiError::MalformedInput(e));
        },
    };
    let public_inputs = match circuit.public_inputs() {
        Some(inputs) => inputs,
        None => {
            return Err(PaiError::VerificationFailed);
        },
    };
    assert(values_of(public_inputs@) =~= seq![
        le_value(block_at(public_input_bytes@, 0)),
        le_value(block_at(public_input_bytes@, 1)),
    ]);
    if verify_sub_proof(params, vk, &public_inputs, proof_bytes) {
        Ok(())
    } else {
        Err(PaiError::VerificationFailed)
    }
}

/// Whether `index` is the first proof of the batch that is not accepted.
pub open spec fn first_rejected(
    vk: &CircuitKey,
    params: &SetupParams,
    proofs: Seq<(Vec<u8>, Vec<u8>)>,
    index: int,
) -> bool {
    &&& 0 <= index < proofs.len()
    &&& pai_verdict(vk, params, proofs[index].0@, proofs[index].1@) is Err
    &&& forall|i: int|
        0 <= i < index ==> (#[trigger] pai_verdict(vk, params, proofs[i].0@, proofs[i].1@)) is Ok
}

/// Verifies a batch of proofs of the leaf relation, each given as proof
/// bytes and public-input bytes, against one key and one parameter set. The
/// batch is accepted when every proof is; otherwise the first proof that is
/// not accepted is reported with its position.
pub fn verify_multiple_pai_proofs(
    vk: &CircuitKey,
    params: &SetupParams,
    proofs: &Vec<(Vec<u8>, Vec<u8>)>,
) -> (r: Result<(), PaiBatchError>)
    ensures
        r.is_ok() <==> forall|i: int|
            0 <= i < proofs@.len() ==> (#[trigger] pai_verdict(
                vk,
                params,
                proofs@[i].0@,
                proofs@[i].1@,
            )) is Ok,
        r matches Err(e) ==> {
            &&& first_rejected(vk, params, proofs@, e.index as int)
            &&& Err::<(), PaiError>(e.error) == pai_verdict(
                vk,
                params,
                proofs@[e.index as int].0@,
                proofs@[e.index as int].1@,
            )
        },
{
    let mut i: usize = 0;
    while i < proofs.len()
        invariant
            i <= proofs@.len(),
            forall|j: int|
                0 <= j < i ==> (#[trigger] pai_verdict(
                    vk,
                    params,
                    proofs@[j].0@,
                    proofs@[j].1@,
                )) is Ok,
        decreases proofs@.len() - i,
    {
        match verify_pai_circuit_with_vk(
            vk,
            params,
            proofs[i].0.as_slice(),
            proofs[i].1.as_slice(),
        ) {
            Ok(()) => {},
            Err(error) => {
                return Err(PaiBatchError { index: i, error });
            },
        }
        i += 1;
    }
    Ok(())
}

} // verus!
