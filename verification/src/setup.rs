//! Public setup parameters and verifying keys.
//!
//! The proving system's own values are opaque here. Each is carried in a
//! handle, beside the plain values that the library's rules read: the size
//! parameter of a parameter set, and the identity, row count and declared
//! public-input arity of a verifying key.

use vstd::prelude::*;

verus! {

/// Largest size parameter for which a parameter set can be built.
pub const MAX_K: u32 = 31;

/// A parameter set of the polynomial commitment scheme over the proving
/// curve, as the proving system holds it.
#[verifier::external_body]
pub struct ParamsHandle {
    pub inner: halo2_proofs::poly::commitment::Params<pasta_curves::EpAffine>,
}

/// A verifying key over the proving curve, as the proving system holds it.
#[verifier::external_body]
pub struct KeyHandle {
    pub inner: halo2_proofs::plonk::VerifyingKey<pasta_curves::EpAffine>,
}

/// The public setup parameters: reproducible from their size parameter
/// alone, built once and then shared by reference. A parameter set can only
/// be built from its size parameter, so the size fixes the set.
pub struct SetupParams {
    k: u32,
    handle: ParamsHandle,
}

impl SetupParams {
    /// The size parameter: log2 of the number of circuit rows.
    pub closed spec fn size(&self) -> u32 {
        self.k
    }

    /// Every parameter set has a size parameter within range.
    #[verifier::type_invariant]
    pub closed spec fn in_range(&self) -> bool {
        self.k <= MAX_K
    }

    /// The number of circuit rows.
    pub open spec fn rows(&self) -> usize {
        1usize << self.size()
    }

    /// Builds the parameter set of size `k`, if `k` is within range.
    pub fn new(k: u32) -> (r: Option<SetupParams>)
        ensures
            r.is_some() <==> k <= MAX_K,
            r matches Some(p) ==> p.size() == k,
    {
        if k <= MAX_K {
            Some(SetupParams { k, handle: build_params(k) })
        } else {
            None
        }
    }

    pub fn k(&self) -> (r: u32)
        ensures
            r == self.size(),
            r <= MAX_K,
    {
        proof {
            use_type_invariant(self);
        }
        self.k
    }

    /// The number of circuit rows, `2^k`.
    pub fn row_count(&self) -> (r: usize)
        ensures
            r == self.rows(),
    {
        proof {
            use_type_invariant(self);
        }
        1usize << self.k
    }

    /// The parameter set as the proving system holds it.
    pub closed spec fn held(&self) -> ParamsHandle {
        self.handle
    }

    /// The proving system's own value, for the calls made outside this
    /// library.
    pub fn handle(&self) -> (r: &ParamsHandle)
        ensures
            *r == self.held(),
    {
        &self.handle
    }
}

/// A verifying key together with what the library knows of it.
///
/// The identity of a key is the proving system's pinned description of it,
/// which fixes everything that verification reads from the key. The arity is
/// the number of public inputs that the key's circuit expects, as declared by
/// whoever derived the key. The fields are set once, when the key is taken
/// in, so the identity and the row count are always those of the key held.
pub struct CircuitKey {
    identity: String,
    rows: usize,
    arity: usize,
    handle: KeyHandle,
}

impl CircuitKey {
    /// The pinned description of the key.
    pub closed spec fn identity(&self) -> Seq<char> {
        self.identity@
    }

    /// The number of rows of the key's evaluation domain.
    pub closed spec fn rows(&self) -> usize {
        self.rows
    }

    /// The declared number of public inputs.
    pub closed spec fn arity(&self) -> usize {
        self.arity
    }

    /// Takes a derived key into the library, with the number of public
    /// inputs that its circuit expects. The identity and the row count are
    /// read from the key itself.
    pub fn new(handle: KeyHandle, arity: usize) -> (r: CircuitKey)
        ensures
            r.arity() == arity,
            r.held() == handle,
    {
        let identity = key_identity(&handle);
        let rows = key_rows(&handle);
        CircuitKey { identity, rows, arity, handle }
    }

    /// The pinned description of the key, by which two keys can be told
    /// apart.
    pub fn identity_text(&self) -> (r: &str)
        ensures
            r@ == self.identity(),
    {
        self.identity.as_str()
    }

    pub fn public_input_arity(&self) -> (r: usize)
        ensures
            r == self.arity(),
    {
        self.arity
    }

    pub fn row_count(&self) -> (r: usize)
        ensures
            r == self.rows(),
    {
        self.rows
    }

    /// Whether the key was derived for a parameter set of the size of
    /// `params`. A key can only be used with such a parameter set.
    pub fn matches(&self, params: &SetupParams) -> (r: bool)
        ensures
            r == (self.rows() == params.rows()),
    {
        self.rows == params.row_count()
    }

    /// The key as the proving system holds it.
    pub closed spec fn held(&self) -> KeyHandle {
        self.handle
    }

    /// The proving system's own value, for the calls made outside this
    /// library.
    pub fn handle(&self) -> (r: &KeyHandle)
        ensures
            *r == self.held(),
    {
        &self.handle
    }
}

/// Calls `Params::new`, which derives the parameter set from the size
/// parameter alone and panics on a size parameter of 32 or more.
#[verifier::external_body]
fn build_params(k: u32) -> (r: ParamsHandle)
    requires
        k <= MAX_K,
{
    ParamsHandle { inner: halo2_proofs::poly::commitment::Params::new(k) }
}

/// Formats `VerifyingKey::pinned`, the description by which the proving
/// system itself identifies a key in its transcripts.
#[verifier::external_body]
fn key_identity(handle: &KeyHandle) -> (r: String) {
    format!("{:?}", handle.inner.pinned())
}

/// The length of an empty polynomial of the key's evaluation domain
/// (`VerifyingKey::get_domain`, `EvaluationDomain::empty_lagrange`), which is
/// the domain's number of rows.
#[verifier::external_body]
fn key_rows(handle: &KeyHandle) -> (r: usize) {
    handle.inner.get_domain().empty_lagrange().len()
}

} // verus!
