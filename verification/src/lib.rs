//! Aggregation of zero-knowledge proofs: many independently generated
//! sub-proofs are folded into one claim, "all of them are valid", which is
//! then proved once and verified by a network service.
//!
//! The proving system itself is used as it is. What this library decides,
//! and proves of its decisions, is everything around it:
//!
//! - [`field`]: field elements as canonical 32-byte blocks; nothing that is
//!   not canonical is let in.
//! - [`setup`]: the setup parameters and the verifying keys, with the plain
//!   values that the rules read from them.
//! - [`verification`]: native verification of one proof, and what is refused
//!   before it.
//! - [`signal`] and [`accumulator`]: the validity signals in {0, 1} and their
//!   running product.
//! - [`layout`]: the plain picture of a synthesized circuit.
//! - [`aggregator_circuit`] and [`verifier_circuit`]: the gadget and the
//!   circuits built from it, with the laws that hold of them.
//! - [`pai_circuit`]: the leaf relation "y = 2x" as the aggregator meets it.
//! - [`keys`]: one key pair per circuit shape, derived at most once.
//! - [`semaphore`] and [`zk_rollup`]: the verification service and the
//!   aggregation service, down to the answers they give.

pub mod accumulator;
pub mod aggregator_circuit;
pub mod field;
pub mod keys;
pub mod layout;
pub mod pai_circuit;
pub mod semaphore;
pub mod setup;
pub mod signal;
pub mod verification;
pub mod verifier_circuit;
pub mod zk_rollup;

pub use aggregator_circuit::AggregatorCircuit;
pub use pai_circuit::{verify_multiple_pai_proofs, verify_pai_circuit_with_vk, PaiCircuit};
pub use verifier_circuit::VerifierCircuit;
