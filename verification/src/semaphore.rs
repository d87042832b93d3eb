//! The verification service: checks an aggregate proof against the
//! aggregator's verifying key and reports pass or fail.
//!
//! Verification reads the shared parameters and the key and changes nothing,
//! so the same proof bytes always get the same answer. The caller serializes
//! requests and carries the answer to the network.

use crate::setup::{CircuitKey, SetupParams};
use crate::verification::{aggregate_accepted, proof_accepted, verify_aggregate};
use vstd::prelude::*;

verus! {

/// Why an aggregate proof was not accepted.
#[derive(Clone, Copy, Debug, PartialEq, Eq, Structural)]
pub enum VerifyError {
    /// The request body is empty: malformed input.
    EmptyProof,
    /// The key was derived under a parameter set of another size.
    ParameterMismatch,
    /// The proof does not verify.
    Rejected,
}

/// The answer of the service to one request.
#[derive(Debug, PartialEq, Eq)]
pub struct VerifyResponse {
    pub success: bool,
    pub message: String,
}

/// The service's shared state: the setup parameters.
pub struct Semaphore {
    pub params: SetupParams,
}

impl Semaphore {
    pub fn new(params: SetupParams) -> (r: Semaphore)
        ensures
            r.params == params,
    {
        Semaphore { params }
    }

    /// The outcome of verifying `proof` against `vk`: malformed input and a
    /// key of another parameter set are told apart from a proof that does
    /// not verify.
    pub open spec fn verdict(&self, vk: &CircuitKey, proof: Seq<u8>) -> Result<(), VerifyError> {
        if proof.len() == 0 {
            Err(VerifyError::EmptyProof)
        } else if vk.rows() != self.params.rows() {
            Err(VerifyError::ParameterMismatch)
        } else if proof_accepted(
            self.params.size(),
            vk.identity(),
            Seq::<Seq<nat>>::empty(),
            proof,
        ) {
            Ok(())
        } else {
            Err(VerifyError::Rejected)
        }
    }

    /// Verifies an aggregate proof against the aggregator's verifying key.
    pub fn verify_recursive(&self, vk: &CircuitKey, proof_bytes: &[u8]) -> (r: Result<
        (),
        VerifyError,
    >)
        ensures
            r == self.verdict(vk, proof_bytes@),
            r.is_ok() <==> aggregate_accepted(&self.params, vk, proof_bytes@),
    {
        if proof_bytes.len() == 0 {
            Err(VerifyError::EmptyProof)
        } else if !vk.matches(&self.params) {
            Err(VerifyError::ParameterMismatch)
        } else if verify_aggregate(&self.params, vk, proof_bytes) {
            Ok(())
        } else {
            Err(VerifyError::Rejected)
        }
    }
}

/// The message of the answer to an outcome. A failure is named by its class
/// and by nothing else.
pub open spec fn verify_message(outcome: Result<(), VerifyError>) -> Seq<char> {
    match outcome {
        Ok(()) => "recursive proof verified"@,
        Err(VerifyError::EmptyProof) => "malformed input: the proof is empty"@,
        Err(VerifyError::ParameterMismatch) =>
            "verification failed: the key belongs to other setup parameters"@,
        Err(VerifyError::Rejected) => "verification failed: the proof was rejected"@,
    }
}

/// The answer to an outcome of verification.
pub fn verify_response(outcome: Result<(), VerifyError>) -> (r: VerifyResponse)
    ensures
        r.success == outcome.is_ok(),
        r.message@ == verify_message(outcome),
{
    let message = match outcome {
        Ok(()) => "recursive proof verified",
        Err(VerifyError::EmptyProof) => "malformed input: the proof is empty",
        Err(VerifyError::ParameterMismatch) =>
            "verification failed: the key belongs to other setup parameters",
        Err(VerifyError::Rejected) => "verification failed: the proof was rejected",
    };
    VerifyResponse { success: outcome.is_ok(), message: message.to_owned() }
}

/// Handles one request: verifies the body as an aggregate proof and answers.
/// Every body gets an answer; none is a fault of the service.
pub fn handle_verify(proof_bytes: &[u8], semaphore: &Semaphore, vk: &CircuitKey) -> (r:
    VerifyResponse)
    ensures
        r.success == aggregate_accepted(&semaphore.params, vk, proof_bytes@),
        r.message@ == verify_message(semaphore.verdict(vk, proof_bytes@)),
{
    verify_response(semaphore.verify_recursive(vk, proof_bytes))
}

/// Verification is repeatable: two requests with the same proof bytes,
/// against the same key and parameters, have the same outcome.
pub proof fn lemma_verification_is_repeatable(
    semaphore: Semaphore,
    vk: &CircuitKey,
    first: Seq<u8>,
    second: Seq<u8>,
)
    requires
        first =~= second,
    ensures
        semaphore.verdict(vk, first) == semaphore.verdict(vk, second),
        verify_message(semaphore.verdict(vk, first)) == verify_message(
            semaphore.verdict(vk, second),
        ),
{
}

/// The answer to a proof that does not verify reads differently from the
/// answer to malformed input.
pub proof fn lemma_rejection_is_told_from_malformed_input()
    ensures
        verify_message(Err(VerifyError::Rejected)) != verify_message(Err(VerifyError::EmptyProof)),
{
    reveal_strlit("verification failed: the proof was rejected");
    reveal_strlit("malformed input: the proof is empty");
    assert("verification failed: the proof was rejected"@[0]
        != "malformed input: the proof is empty"@[0]);
}

} // verus!
