//! The aggregation service: takes a list of leaf proofs with their public
//! inputs, builds the aggregator's witness from them, and answers with the
//! outcome of the aggregation.
//!
//! Key derivation, proving and the writing of the proof are done by the
//! caller. What is decided here: which requests are malformed, whether the
//! aggregation can succeed at all, whether the aggregate proof that came
//! back verifies, and what the answer says.

use crate::aggregator_circuit::AggregatorCircuit;
use crate::field::{
    all_field_blocks, all_wf, block_fault, block_values, block_views, decode_field_elements,
    decodes_to, first_bad_block, lemma_decoded_values, FieldElement, FieldError, FIELD_BYTES,
};
use crate::layout::ConstraintPlan;
use crate::setup::{CircuitKey, SetupParams};
use crate::signal::{all_valid, Signal};
use crate::verification::{aggregate_accepted, is_blank, proof_valid_for, verify_aggregate};
use vstd::prelude::*;
use vstd::slice::slice_to_vec;

verus! {

/// Number of public inputs of the synthetic record.
pub const SMOKE_TEST_INPUTS: usize = 2;

/// One leaf proof as it is submitted.
#[derive(Debug, PartialEq, Eq)]
pub struct AggregatorRequest {
    pub proof_bytes: Vec<u8>,
    /// The public inputs, one block of `FIELD_BYTES` bytes each.
    pub sub_inputs: Vec<Vec<u8>>,
}

/// The bytes of a request.
pub struct RequestView {
    pub proof: Seq<u8>,
    pub inputs: Seq<Seq<u8>>,
}

impl View for AggregatorRequest {
    type V = RequestView;

    open spec fn view(&self) -> RequestView {
        RequestView { proof: self.proof_bytes@, inputs: block_views(self.sub_inputs@) }
    }
}

/// The answer of the service to one aggregation.
#[derive(Debug, PartialEq, Eq)]
pub struct AggregatorResponse {
    pub success: bool,
    pub message: String,
    /// Length of the aggregate proof in bytes; zero where there is none.
    pub proof_size: usize,
}

/// What is wrong with a malformed request.
#[derive(Clone, Copy, Debug, PartialEq, Eq, Structural)]
pub enum RequestFault {
    /// The proof bytes are empty.
    EmptyProof,
    /// The number of public inputs is not the one that the leaf key expects.
    ArityMismatch,
    /// A public input is not the encoding of a field element.
    BadInput(FieldError),
}

/// Why an aggregation did not succeed.
#[derive(Clone, Copy, Debug, PartialEq, Eq, Structural)]
pub enum AggregateError {
    /// The request at position `request` is malformed.
    MalformedInput { request: usize, fault: RequestFault },
    /// Some sub-proof is invalid, so the terminal constraint cannot be met.
    AggregationRejected,
    /// The circuit shape is inconsistent.
    Synthesis,
    /// No key pair could be derived for the circuit shape.
    KeyGeneration,
    /// No aggregate proof could be generated.
    Proving,
    /// The generated aggregate proof does not verify.
    VerificationFailed,
    /// The aggregate proof could not be written.
    Persist,
}

impl AggregateError {
    /// Whether the error is a fault of the deployment, as opposed to a fault
    /// of the submitted proofs.
    pub open spec fn fatal(self) -> bool {
        self is Synthesis || self is KeyGeneration
    }

    /// Tells a broken deployment from bad proofs: an inconsistent circuit
    /// shape and a failed key derivation are fatal and must not be retried;
    /// every other error is answered and the service goes on.
    pub fn is_fatal(&self) -> (r: bool)
        ensures
            r == self.fatal(),
    {
        match self {
            AggregateError::Synthesis => true,
            AggregateError::KeyGeneration => true,
            _ => false,
        }
    }
}

/// A block of zeros.
pub open spec fn zero_block() -> Seq<u8> {
    Seq::new(FIELD_BYTES as nat, |i: int| 0u8)
}

/// The synthetic record of the smoke test: a proof of 32 zero bytes with two
/// zero public inputs.
pub open spec fn smoke_test_view() -> RequestView {
    RequestView {
        proof: zero_block(),
        inputs: Seq::new(SMOKE_TEST_INPUTS as nat, |i: int| zero_block()),
    }
}

/// The records that are aggregated for a list of requests: the requests in
/// submission order, behind the synthetic record where the smoke test is
/// asked for.
pub open spec fn submitted(requests: Seq<AggregatorRequest>, smoke_test: bool) -> Seq<RequestView> {
    let views = Seq::new(requests.len(), |i: int| requests[i]@);
    if smoke_test {
        seq![smoke_test_view()] + views
    } else {
        views
    }
}

/// Whether a request is well-formed for leaf proofs of `arity` public inputs.
pub open spec fn request_ok(request: RequestView, arity: usize) -> bool {
    &&& request.proof.len() > 0
    &&& request.inputs.len() == arity
    &&& all_field_blocks(request.inputs)
}

/// Whether `fault` is the fault of a request: an empty proof comes before a
/// wrong number of public inputs, and that before the first public input
/// that is no field element.
pub open spec fn is_request_fault(request: RequestView, arity: usize, fault: RequestFault) -> bool {
    match fault {
        RequestFault::EmptyProof => request.proof.len() == 0,
        RequestFault::ArityMismatch => request.proof.len() > 0 && request.inputs.len() != arity,
        RequestFault::BadInput(e) => {
            &&& request.proof.len() > 0
            &&& request.inputs.len() == arity
            &&& first_bad_block(request.inputs, e.index as int)
            &&& e.kind == block_fault(request.inputs[e.index as int])
        },
    }
}

/// Whether the leaf proof of a well-formed request is valid.
pub open spec fn request_valid(
    params: &SetupParams,
    key: &CircuitKey,
    request: RequestView,
) -> bool {
    proof_valid_for(params, key, block_values(request.inputs), request.proof)
}

/// Whether the request at position `index` is the first malformed one.
pub open spec fn first_malformed(requests: Seq<RequestView>, arity: usize, index: int) -> bool {
    &&& 0 <= index < requests.len()
    &&& !request_ok(requests[index], arity)
    &&& forall|i: int| 0 <= i < index ==> request_ok(#[trigger] requests[i], arity)
}

/// Whether the circuit holds exactly the given records, in order, each under
/// the leaf key.
pub open spec fn holds_records<'a>(
    circuit: AggregatorCircuit<'a>,
    records: Seq<RequestView>,
    leaf_key: &'a CircuitKey,
    params: &'a SetupParams,
) -> bool {
    &&& circuit.consistent()
    &&& circuit.wf()
    &&& circuit.count() == records.len()
    &&& circuit.params == params
    &&& forall|i: int|
        #![trigger circuit.sub_proofs@[i]]
        #![trigger circuit.sub_public_inputs@[i]]
        #![trigger circuit.sub_vks@[i]]
        0 <= i < records.len() ==> {
            &&& circuit.sub_proofs@[i]@ == records[i].proof
            &&& decodes_to(records[i].inputs, circuit.sub_public_inputs@[i]@)
            &&& circuit.sub_vks@[i] == leaf_key
        }
}

/// The synthetic record that the smoke test puts before the submitted
/// requests.
pub fn smoke_test_request() -> (r: AggregatorRequest)
    ensures
        r@ == smoke_test_view(),
{
    let mut proof_bytes: Vec<u8> = Vec::new();
    let mut i: usize = 0;
    while i < FIELD_BYTES
        invariant
            i <= FIELD_BYTES,
            proof_bytes@.len() == i,
            forall|j: int| 0 <= j < i ==> proof_bytes@[j] == 0u8,
        decreases FIELD_BYTES - i,
    {
        proof_bytes.push(0u8);
        i += 1;
    }
    assert(proof_bytes@ =~= zero_block());
    let mut sub_inputs: Vec<Vec<u8>> = Vec::new();
    sub_inputs.push(slice_to_vec(proof_bytes.as_slice()));
    sub_inputs.push(slice_to_vec(proof_bytes.as_slice()));
    let r = AggregatorRequest { proof_bytes, sub_inputs };
    assert(r@.inputs =~= smoke_test_view().inputs);
    r
}

/// Checks one request and decodes its public inputs.
pub fn decode_request(request: &AggregatorRequest, arity: usize) -> (r: Result<
    Vec<FieldElement>,
    RequestFault,
>)
    ensures
        r.is_ok() <==> request_ok(request@, arity),
        r matches Ok(elements) ==> decodes_to(request@.inputs, elements@),
        r matches Err(fault) ==> is_request_fault(request@, arity, fault),
{
    if request.proof_bytes.len() == 0 {
        return Err(RequestFault::EmptyProof);
    }
    if request.sub_inputs.len() != arity {
        return Err(RequestFault::ArityMismatch);
    }
    match decode_field_elements(&request.sub_inputs) {
        Ok(elements) => Ok(elements),
        Err(e) => Err(RequestFault::BadInput(e)),
    }
}

/// Builds the aggregation for a list of submitted leaf proofs.
///
/// Every record must be well-formed for the leaf key: the first that is not
/// is reported, before any proof is verified. Then every leaf proof must be
/// valid; if one is not, the aggregation is rejected, and no aggregate proof
/// is to be generated. Otherwise the aggregator's witness comes back: the
/// records in order, each under the leaf key.
///
/// With `smoke_test`, and only then, the synthetic all-zero record is put
/// before the requests. Its proof is invalid by construction, so a smoke
/// test exercises the whole path and always ends in an error: it is a
/// check of the deployment and never part of an aggregation.
pub fn aggregate_flow_from_json<'a>(
    requests: Vec<AggregatorRequest>,
    smoke_test: bool,
    leaf_key: &'a CircuitKey,
    params: &'a SetupParams,
) -> (r: Result<AggregatorCircuit<'a>, AggregateError>)
    ensures
        smoke_test ==> r is Err,
        ({
            let records = submitted(requests@, smoke_test);
            let arity = leaf_key.arity();
            let well_formed = forall|i: int|
                0 <= i < records.len() ==> request_ok(#[trigger] records[i], arity);
            let valid = forall|i: int|
                0 <= i < records.len() ==> request_valid(params, leaf_key, #[trigger] records[i]);
            match r {
                Ok(circuit) => {
                    &&& well_formed
                    &&& valid
                    &&& holds_records(circuit, records, leaf_key, params)
                    &&& all_valid(circuit.signals())
                },
                Err(AggregateError::MalformedInput { request, fault }) => {
                    &&& first_malformed(records, arity, request as int)
                    &&& is_request_fault(records[request as int], arity, fault)
                },
                Err(AggregateError::AggregationRejected) => well_formed && !valid,
                Err(_) => false,
            }
        }),
{
    let ghost records = submitted(requests@, smoke_test);
    proof {
        if smoke_test {
            assert(is_blank(records[0].proof));
        }
    }
    let mut all = requests;
    if smoke_test {
        all.insert(0, smoke_test_request());
    }
    let arity = leaf_key.public_input_arity();
    let mut sub_proofs: Vec<Vec<u8>> = Vec::new();
    let mut sub_public_inputs: Vec<Vec<FieldElement>> = Vec::new();
    let mut sub_vks: Vec<&'a CircuitKey> = Vec::new();
    let mut i: usize = 0;
    while i < all.len()
        invariant
            i <= all@.len(),
            arity == leaf_key.arity(),
            records == submitted(requests@, smoke_test),
            records.len() == all@.len(),
            forall|j: int| 0 <= j < all@.len() ==> records[j] == (#[trigger] all@[j])@,
            sub_proofs@.len() == i,
            sub_public_inputs@.len() == i,
            sub_vks@.len() == i,
            forall|j: int| 0 <= j < i ==> request_ok(#[trigger] records[j], arity),
            forall|j: int|
                0 <= j < i ==> {
                    &&& (#[trigger] sub_proofs@[j])@ == records[j].proof
                    &&& decodes_to(records[j].inputs, sub_public_inputs@[j]@)
                    &&& sub_vks@[j] == leaf_key
                },
        decreases all@.len() - i,
    {
        assert(records[i as int] == all@[i as int]@);
        match decode_request(&all[i], arity) {
            Ok(elements) => {
                sub_proofs.push(slice_to_vec(all[i].proof_bytes.as_slice()));
                sub_public_inputs.push(elements);
                sub_vks.push(leaf_key);
            },
            Err(fault) => {
                return Err(AggregateError::MalformedInput { request: i, fault });
            },
        }
        i += 1;
    }
    let circuit = AggregatorCircuit { sub_proofs, sub_public_inputs, sub_vks, params };
    proof {
        assert forall|j: int| 0 <= j < records.len() implies {
            &&& (#[trigger] circuit.sub_proofs@[j])@ == records[j].proof
            &&& decodes_to(records[j].inputs, circuit.sub_public_inputs@[j]@)
            &&& circuit.sub_vks@[j] == leaf_key
        } by {}
        assert forall|j: int| 0 <= j < circuit.sub_public_inputs@.len() implies all_wf(
            #[trigger] circuit.sub_public_inputs@[j]@,
        ) by {
            assert(circuit.sub_proofs@[j]@ == records[j].proof);
        }
        assert forall|j: int| 0 <= j < records.len() implies circuit.accepted_at(j)
            == request_valid(params, leaf_key, #[trigger] records[j]) by {
            assert(circuit.sub_proofs@[j]@ == records[j].proof);
            lemma_decoded_values(records[j].inputs, circuit.sub_public_inputs@[j]@);
        }
    }
    let mut plan = ConstraintPlan::new();
    let config = AggregatorCircuit::configure(&mut plan);
    match circuit.synthesize(&config) {
        Ok(layout) => {
            if layout.is_satisfied() {
                proof {
                    assert forall|j: int| 0 <= j < records.len() implies request_valid(
                        params,
                        leaf_key,
                        #[trigger] records[j],
                    ) by {
                        assert(circuit.signals()[j] == Signal::One);
                    }
                }
                Ok(circuit)
            } else {
                proof {
                    let j = choose|j: int|
                        0 <= j < circuit.signals().len() && circuit.signals()[j] != Signal::One;
                    assert(!request_valid(params, leaf_key, records[j]));
                }
                Err(AggregateError::AggregationRejected)
            }
        },
        Err(_) => Err(AggregateError::Synthesis),
    }
}

/// Checks the aggregate proof that was generated: it must verify against the
/// aggregator's key, and then its length in bytes is the result.
pub fn check_aggregate_proof(params: &SetupParams, key: &CircuitKey, proof_bytes: &[u8]) -> (r:
    Result<usize, AggregateError>)
    ensures
        r == if aggregate_accepted(params, key, proof_bytes@) {
            Ok::<usize, AggregateError>(proof_bytes@.len() as usize)
        } else {
            Err::<usize, AggregateError>(AggregateError::VerificationFailed)
        },
{
    if verify_aggregate(params, key, proof_bytes) {
        Ok(proof_bytes.len())
    } else {
        Err(AggregateError::VerificationFailed)
    }
}

/// The message of the answer to an outcome. A failure is named by its class
/// and by nothing else; malformed input and an invalid sub-proof read
/// differently.
pub open spec fn aggregate_message(outcome: Result<usize, AggregateError>) -> Seq<char> {
    match outcome {
        Ok(_) => "aggregate proof generated and verified"@,
        Err(AggregateError::MalformedInput { .. }) => "malformed input: a request was refused"@,
        Err(AggregateError::AggregationRejected) =>
            "aggregation rejected: a sub-proof is not valid"@,
        Err(AggregateError::Synthesis) => "fatal: the circuit shape is inconsistent"@,
        Err(AggregateError::KeyGeneration) => "fatal: no keys for the circuit shape"@,
        Err(AggregateError::Proving) => "aggregation rejected: no proof could be generated"@,
        Err(AggregateError::VerificationFailed) =>
            "aggregation rejected: the aggregate proof does not verify"@,
        Err(AggregateError::Persist) => "the aggregate proof could not be written"@,
    }
}

/// The answer to the outcome of an aggregation: success with the length of
/// the aggregate proof, or failure with the class of the error.
pub fn aggregate_response(outcome: Result<usize, AggregateError>) -> (r: AggregatorResponse)
    ensures
        r.success == outcome.is_ok(),
        r.message@ == aggregate_message(outcome),
        r.proof_size == match outcome {
            Ok(size) => size,
            Err(_) => 0,
        },
{
    let message = match outcome {
        Ok(_) => "aggregate proof generated and verified",
        Err(AggregateError::MalformedInput { .. }) => "malformed input: a request was refused",
        Err(AggregateError::AggregationRejected) =>
            "aggregation rejected: a sub-proof is not valid",
        Err(AggregateError::Synthesis) => "fatal: the circuit shape is inconsistent",
        Err(AggregateError::KeyGeneration) => "fatal: no keys for the circuit shape",
        Err(AggregateError::Proving) => "aggregation rejected: no proof could be generated",
        Err(AggregateError::VerificationFailed) =>
            "aggregation rejected: the aggregate proof does not verify",
        Err(AggregateError::Persist) => "the aggregate proof could not be written",
    };
    let proof_size = match outcome {
        Ok(size) => size,
        Err(_) => 0,
    };
    AggregatorResponse { success: outcome.is_ok(), message: message.to_owned(), proof_size }
}

/// The answer to a rejected aggregation reads differently from the answer
/// to malformed input.
pub proof fn lemma_rejection_is_told_from_malformed_input(request: usize, fault: RequestFault)
    ensures
        aggregate_message(Err(AggregateError::AggregationRejected)) != aggregate_message(
            Err(AggregateError::MalformedInput { request, fault }),
        ),
        aggregate_message(Err(AggregateError::VerificationFailed)) != aggregate_message(
            Err(AggregateError::MalformedInput { request, fault }),
        ),
{
    reveal_strlit("aggregation rejected: a sub-proof is not valid");
    reveal_strlit("aggregation rejected: the aggregate proof does not verify");
    reveal_strlit("malformed input: a request was refused");
    let malformed = "malformed input: a request was refused"@;
    assert("aggregation rejected: a sub-proof is not valid"@[0] != malformed[0]);
    assert("aggregation rejected: the aggregate proof does not verify"@[0] != malformed[0]);
}

} // verus!
