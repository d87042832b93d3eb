//! Native verification of a proof against a verifying key and public inputs.
//!
//! The proving system decides whether a proof verifies. Its decision depends
//! only on the size of the parameter set, the key, the public inputs and the
//! proof bytes, and is known here by the name [`proof_accepted`]. What the
//! library adds is decided around that call: which inputs are refused before
//! any cryptographic work is done.

use crate::field::{all_wf, values_of, FieldElement};
use crate::setup::{CircuitKey, SetupParams};
use ff::PrimeField;
use halo2_proofs::plonk::{verify_proof, SingleVerifier};
use halo2_proofs::transcript::{Blake2bRead, Challenge255};
use pasta_curves::{EpAffine, Fq};
use vstd::prelude::*;

verus! {

/// Whether the proving system's verifier accepts `proof`, read as a
/// transcript, for the key identified by `key`, under the parameter set of
/// size `k`, with the public inputs `instances`: one sequence of field values
/// per instance column.
pub uninterp spec fn proof_accepted(
    k: u32,
    key: Seq<char>,
    instances: Seq<Seq<nat>>,
    proof: Seq<u8>,
) -> bool;

/// The values of the instance columns handed to the verifier.
pub open spec fn instance_values(columns: Seq<&Vec<FieldElement>>) -> Seq<Seq<nat>> {
    Seq::new(columns.len(), |c: int| values_of(columns[c]@))
}

/// Whether a byte string holds no byte other than zero. The empty string is
/// blank.
pub open spec fn is_blank(bytes: Seq<u8>) -> bool {
    forall|i: int| 0 <= i < bytes.len() ==> bytes[i] == 0
}

/// Whether a proof counts as valid for the public inputs of the values
/// `values`: it is not blank, it comes with as many public inputs as its key
/// expects, its key belongs to the parameter set, and the proving system
/// accepts it with the public inputs in one instance column.
pub open spec fn proof_valid_for(
    params: &SetupParams,
    key: &CircuitKey,
    values: Seq<nat>,
    proof: Seq<u8>,
) -> bool {
    &&& !is_blank(proof)
    &&& values.len() == key.arity()
    &&& key.rows() == params.rows()
    &&& proof_accepted(params.size(), key.identity(), seq![values], proof)
}

/// Whether a sub-proof counts as valid for its public inputs.
pub open spec fn sub_proof_accepted(
    params: &SetupParams,
    key: &CircuitKey,
    public_inputs: Seq<FieldElement>,
    proof: Seq<u8>,
) -> bool {
    proof_valid_for(params, key, values_of(public_inputs), proof)
}

/// Whether an aggregate proof counts as valid: it is not empty, its key
/// belongs to the parameter set, and the proving system accepts it without
/// public inputs.
pub open spec fn aggregate_accepted(
    params: &SetupParams,
    key: &CircuitKey,
    proof: Seq<u8>,
) -> bool {
    &&& proof.len() > 0
    &&& key.rows() == params.rows()
    &&& proof_accepted(params.size(), key.identity(), Seq::<Seq<nat>>::empty(), proof)
}

/// Tells whether a byte string holds no byte other than zero.
pub fn is_blank_proof(bytes: &[u8]) -> (r: bool)
    ensures
        r == is_blank(bytes@),
{
    let mut i: usize = 0;
    while i < bytes.len()
        invariant
            i <= bytes@.len(),
            forall|j: int| 0 <= j < i ==> bytes@[j] == 0,
        decreases bytes@.len() - i,
    {
        if bytes[i] != 0 {
            return false;
        }
        i += 1;
    }
    true
}

/// Verifies one sub-proof. Proof bytes that are empty or all zero, a number
/// of public inputs other than the key's arity, and a key of another
/// parameter set are refused without calling the proving system: such a
/// sub-proof is invalid by construction.
pub fn verify_sub_proof(
    params: &SetupParams,
    key: &CircuitKey,
    public_inputs: &Vec<FieldElement>,
    proof_bytes: &[u8],
) -> (ok: bool)
    requires
        all_wf(public_inputs@),
    ensures
        ok == sub_proof_accepted(params, key, public_inputs@, proof_bytes@),
{
    if is_blank_proof(proof_bytes) || public_inputs.len() != key.public_input_arity()
        || !key.matches(params) {
        return false;
    }
    let mut columns: Vec<&Vec<FieldElement>> = Vec::new();
    columns.push(public_inputs);
    assert(instance_values(columns@) =~= seq![values_of(public_inputs@)]);
    native_verify(params, key, &columns, proof_bytes)
}

/// Verifies an aggregate proof, which has no public inputs. Empty proof
/// bytes and a key of another parameter set are refused without calling the
/// proving system.
pub fn verify_aggregate(params: &SetupParams, key: &CircuitKey, proof_bytes: &[u8]) -> (ok: bool)
    ensures
        ok == aggregate_accepted(params, key, proof_bytes@),
{
    if proof_bytes.len() == 0 || !key.matches(params) {
        return false;
    }
    let columns: Vec<&Vec<FieldElement>> = Vec::new();
    assert(instance_values(columns@) =~= Seq::<Seq<nat>>::empty());
    native_verify(params, key, &columns, proof_bytes)
}

/// Calls the proving system's `verify_proof` on one proof, read from
/// `proof` by a `Blake2bRead` transcript with 255-bit challenges, with the
/// single-proof strategy, and reports whether it returned `Ok`.
///
/// `verify_proof` panics when the key's domain and the parameter set differ
/// in size, and decoding a public input panics on a non-canonical encoding:
/// both are excluded. Its outcome is a function of the parameter set, of the
/// key, of the public inputs and of the proof bytes; it draws no randomness.
/// A parameter set is fixed by its size, because parameter sets are only
/// built from their size, and a key by its identity, which is computed from
/// the key when it is taken into the library and fixes all that
/// verification reads from it.
#[verifier::external_body]
fn native_verify(
    params: &SetupParams,
    key: &CircuitKey,
    instances: &Vec<&Vec<FieldElement>>,
    proof: &[u8],
) -> (ok: bool)
    requires
        key.rows() == params.rows(),
        forall|c: int| 0 <= c < instances@.len() ==> all_wf(#[trigger] instances@[c]@),
    ensures
        ok == proof_accepted(params.size(), key.identity(), instance_values(instances@), proof@),
{
    let decode = |e: &FieldElement| Fq::from_repr(e.to_repr()).unwrap();
    let owned: Vec<Vec<Fq>> = instances.iter().map(|c| c.iter().map(decode).collect()).collect();
    let columns: Vec<&[Fq]> = owned.iter().map(|c| c.as_slice()).collect();
    let mut transcript = Blake2bRead::<_, _, Challenge255<EpAffine>>::init(proof);
    let setup = &params.handle().inner;
    let strategy = SingleVerifier::new(setup);
    verify_proof(setup, &key.handle().inner, strategy, &[&columns[..]], &mut transcript).is_ok()
}

} // verus!
