//! Field elements of the circuit's native scalar field, as fixed-width
//! little-endian byte blocks.
//!
//! A [`FieldElement`] holds the canonical 32-byte encoding of a scalar of the
//! proving curve. Byte input that is not the encoding of a field element is
//! rejected when it is decoded; it is never reduced.

use ff::PrimeField;
use vstd::prelude::*;

verus! {

/// Width of one encoded field element.
pub const FIELD_BYTES: usize = 32;

/// The natural number that a little-endian byte string encodes.
pub open spec fn le_value(bytes: Seq<u8>) -> nat
    decreases bytes.len(),
{
    if bytes.len() == 0 {
        0
    } else {
        bytes[0] as nat + 256 * le_value(bytes.drop_first())
    }
}

/// Order of the scalar field of the proving curve.
pub open spec fn scalar_modulus() -> nat {
    0x40000000000000000000000000000000224698fc0994a8dd8c46eb2100000001nat
}

/// The encoding of the order of the scalar field: the least byte string of
/// `FIELD_BYTES` bytes that is no field element.
pub fn scalar_modulus_repr() -> (r: [u8; 32])
    ensures
        le_value(r@) == scalar_modulus(),
{
    let r: [u8; 32] = [
        0x01, 0x00, 0x00, 0x00, 0x21, 0xeb, 0x46, 0x8c, 0xdd, 0xa8, 0x94, 0x09, 0xfc, 0x98, 0x46,
        0x22, 0x00, 0x00, 0x00, 0x00, 0x00, 0x00, 0x00, 0x00, 0x00, 0x00, 0x00, 0x00, 0x00, 0x00,
        0x00, 0x40,
    ];
    proof {
        reveal_with_fuel(le_value, 33);
    }
    r
}

/// Whether a byte block is the encoding of a field element.
pub open spec fn is_field_block(block: Seq<u8>) -> bool {
    block.len() == FIELD_BYTES && le_value(block) < scalar_modulus()
}

/// Why a byte block is not a field element.
#[derive(Clone, Copy, Debug, PartialEq, Eq, Structural)]
pub enum FieldErrorKind {
    /// The block is not exactly [`FIELD_BYTES`] long.
    WrongLength,
    /// The block encodes a number that is not below the field's modulus.
    NotCanonical,
}

/// A rejected byte block, with its position in the input.
#[derive(Clone, Copy, Debug, PartialEq, Eq, Structural)]
pub struct FieldError {
    /// Position of the block among the blocks of the input.
    pub index: usize,
    pub kind: FieldErrorKind,
}

/// The fault of a block that is not a field element.
pub open spec fn block_fault(block: Seq<u8>) -> FieldErrorKind {
    if block.len() != FIELD_BYTES {
        FieldErrorKind::WrongLength
    } else {
        FieldErrorKind::NotCanonical
    }
}

/// An element of the scalar field, held by its canonical encoding.
#[derive(Clone, Copy, Debug, PartialEq, Eq)]
pub struct FieldElement {
    repr: [u8; 32],
}

impl FieldElement {
    /// The canonical encoding.
    pub closed spec fn repr(&self) -> Seq<u8> {
        self.repr@
    }

    /// The number that the element stands for.
    pub open spec fn value(&self) -> nat {
        le_value(self.repr())
    }

    /// Validity: the encoding is canonical.
    pub open spec fn wf(&self) -> bool {
        is_field_block(self.repr())
    }

    /// Decodes one block, or refuses it.
    pub fn from_repr(repr: &[u8; 32]) -> (r: Option<FieldElement>)
        ensures
            r.is_some() <==> is_field_block(repr@),
            r matches Some(e) ==> e.wf() && e.repr() == repr@,
    {
        if is_canonical_repr(repr) {
            Some(FieldElement { repr: *repr })
        } else {
            None
        }
    }

    /// Decodes the block of `FIELD_BYTES` bytes that starts at `offset`.
    fn from_slice_at(bytes: &[u8], offset: usize) -> (r: Option<FieldElement>)
        requires
            offset + FIELD_BYTES <= bytes@.len(),
        ensures
            r.is_some() <==> is_field_block(bytes@.subrange(offset as int, offset + FIELD_BYTES)),
            r matches Some(e) ==> e.wf() && e.repr() == bytes@.subrange(
                offset as int,
                offset + FIELD_BYTES,
            ),
    {
        let len = bytes.len();
        let mut repr = [0u8; 32];
        let mut i: usize = 0;
        while i < FIELD_BYTES
            invariant
                i <= FIELD_BYTES,
                len == bytes@.len(),
                offset + FIELD_BYTES <= len,
                forall|j: int| 0 <= j < i ==> repr@[j] == bytes@[offset + j],
            decreases FIELD_BYTES - i,
        {
            repr[i] = bytes[offset + i];
            i += 1;
        }
        assert(repr@ =~= bytes@.subrange(offset as int, offset + FIELD_BYTES));
        FieldElement::from_repr(&repr)
    }

    /// Decodes a byte string that must be exactly one block.
    pub fn from_bytes(bytes: &[u8]) -> (r: Result<FieldElement, FieldErrorKind>)
        ensures
            r.is_ok() <==> is_field_block(bytes@),
            r matches Ok(e) ==> e.wf() && e.repr() == bytes@,
            r matches Err(kind) ==> kind == block_fault(bytes@),
    {
        if bytes.len() != FIELD_BYTES {
            return Err(FieldErrorKind::WrongLength);
        }
        assert(bytes@.subrange(0, FIELD_BYTES as int) =~= bytes@);
        match FieldElement::from_slice_at(bytes, 0) {
            Some(e) => Ok(e),
            None => Err(FieldErrorKind::NotCanonical),
        }
    }

    /// The canonical encoding.
    pub fn to_repr(&self) -> (r: [u8; 32])
        ensures
            r@ == self.repr(),
    {
        self.repr
    }

    /// The additive identity.
    pub fn zero() -> (r: FieldElement)
        ensures
            r.wf(),
            r.value() == 0,
    {
        let repr = [0u8; 32];
        proof {
            lemma_le_value_zeros(repr@);
        }
        FieldElement { repr }
    }

    /// The multiplicative identity.
    pub fn one() -> (r: FieldElement)
        ensures
            r.wf(),
            r.value() == 1,
    {
        let mut repr = [0u8; 32];
        repr[0] = 1u8;
        proof {
            lemma_le_value_zeros(repr@.drop_first());
        }
        FieldElement { repr }
    }
}

/// A byte string of zeros encodes zero.
pub proof fn lemma_le_value_zeros(bytes: Seq<u8>)
    requires
        forall|i: int| 0 <= i < bytes.len() ==> bytes[i] == 0,
    ensures
        le_value(bytes) == 0,
    decreases bytes.len(),
{
    if bytes.len() > 0 {
        lemma_le_value_zeros(bytes.drop_first());
    }
}

/// The values of a sequence of field elements.
pub open spec fn values_of(elements: Seq<FieldElement>) -> Seq<nat> {
    Seq::new(elements.len(), |i: int| elements[i].value())
}

/// Validity of every element of a sequence.
pub open spec fn all_wf(elements: Seq<FieldElement>) -> bool {
    forall|i: int| 0 <= i < elements.len() ==> (#[trigger] elements[i]).wf()
}

/// The byte strings of a list of blocks.
pub open spec fn block_views(blocks: Seq<Vec<u8>>) -> Seq<Seq<u8>> {
    Seq::new(blocks.len(), |i: int| blocks[i]@)
}

/// Whether every block of a list is a field element.
pub open spec fn all_field_blocks(blocks: Seq<Seq<u8>>) -> bool {
    forall|i: int| 0 <= i < blocks.len() ==> is_field_block(#[trigger] blocks[i])
}

/// Whether `index` is the first block of the list that is not a field element.
pub open spec fn first_bad_block(blocks: Seq<Seq<u8>>, index: int) -> bool {
    &&& 0 <= index < blocks.len()
    &&& !is_field_block(blocks[index])
    &&& forall|i: int| 0 <= i < index ==> is_field_block(#[trigger] blocks[i])
}

/// Whether `elements` are the field elements that `blocks` encode, in order.
pub open spec fn decodes_to(blocks: Seq<Seq<u8>>, elements: Seq<FieldElement>) -> bool {
    &&& elements.len() == blocks.len()
    &&& all_wf(elements)
    &&& forall|i: int| 0 <= i < blocks.len() ==> (#[trigger] elements[i]).repr() == blocks[i]
}

/// The numbers that a list of blocks encodes.
pub open spec fn block_values(blocks: Seq<Seq<u8>>) -> Seq<nat> {
    Seq::new(blocks.len(), |i: int| le_value(blocks[i]))
}

/// Decoded elements have the values that their blocks encode.
pub proof fn lemma_decoded_values(blocks: Seq<Seq<u8>>, elements: Seq<FieldElement>)
    requires
        decodes_to(blocks, elements),
    ensures
        values_of(elements) == block_values(blocks),
{
    assert(values_of(elements) =~= block_values(blocks));
}

/// Decodes a list of blocks, one field element each, in order.
///
/// Every block must be a field element; the first one that is not is reported
/// with its position and its fault.
pub fn decode_field_elements(blocks: &Vec<Vec<u8>>) -> (r: Result<Vec<FieldElement>, FieldError>)
    ensures
        r.is_ok() <==> all_field_blocks(block_views(blocks@)),
        r matches Ok(elements) ==> decodes_to(block_views(blocks@), elements@),
        r matches Err(e) ==> {
            &&& first_bad_block(block_views(blocks@), e.index as int)
            &&& e.kind == block_fault(blocks@[e.index as int]@)
        },
{
    let ghost views = block_views(blocks@);
    let mut elements: Vec<FieldElement> = Vec::new();
    let mut i: usize = 0;
    while i < blocks.len()
        invariant
            views == block_views(blocks@),
            i <= blocks@.len(),
            elements@.len() == i,
            all_wf(elements@),
            forall|j: int| 0 <= j < i ==> is_field_block(#[trigger] views[j]),
            forall|j: int| 0 <= j < i ==> (#[trigger] elements@[j]).repr() == views[j],
        decreases blocks@.len() - i,
    {
        assert(views[i as int] == blocks@[i as int]@);
        match FieldElement::from_bytes(blocks[i].as_slice()) {
            Ok(e) => {
                elements.push(e);
            },
            Err(kind) => {
                return Err(FieldError { index: i, kind });
            },
        }
        i += 1;
    }
    Ok(elements)
}

/// The `index`-th block of a byte string cut into blocks of `FIELD_BYTES`.
pub open spec fn block_at(bytes: Seq<u8>, index: int) -> Seq<u8> {
    bytes.subrange(index * FIELD_BYTES, index * FIELD_BYTES + FIELD_BYTES)
}

/// Number of complete blocks in a byte string.
pub open spec fn block_count(bytes: Seq<u8>) -> nat {
    bytes.len() / (FIELD_BYTES as nat)
}

/// Whether a byte string ends on a block boundary.
pub open spec fn is_whole(bytes: Seq<u8>) -> bool {
    bytes.len() % (FIELD_BYTES as nat) == 0
}

/// Whether a byte string is a whole number of blocks, each a field element.
pub open spec fn is_field_string(bytes: Seq<u8>) -> bool {
    &&& is_whole(bytes)
    &&& forall|i: int| 0 <= i < block_count(bytes) ==> is_field_block(#[trigger] block_at(bytes, i))
}

/// Decodes the fixed-width encoding of a public-input vector: one field
/// element per block of `FIELD_BYTES` bytes, in order.
///
/// A length that is no whole number of blocks is reported as a wrong length
/// at the position of the incomplete block; otherwise the first block that is
/// not canonical is reported.
pub fn split_field_elements(bytes: &[u8]) -> (r: Result<Vec<FieldElement>, FieldError>)
    ensures
        r.is_ok() <==> is_field_string(bytes@),
        r matches Ok(elements) ==> {
            &&& elements@.len() == block_count(bytes@)
            &&& all_wf(elements@)
            &&& forall|i: int|
                0 <= i < elements@.len() ==> (#[trigger] elements@[i]).repr() == block_at(
                    bytes@,
                    i,
                )
        },
        r matches Err(e) ==> if !is_whole(bytes@) {
            e.index == block_count(bytes@) && e.kind == FieldErrorKind::WrongLength
        } else {
            &&& e.index < block_count(bytes@)
            &&& e.kind == FieldErrorKind::NotCanonical
            &&& !is_field_block(block_at(bytes@, e.index as int))
            &&& forall|i: int| 0 <= i < e.index ==> is_field_block(#[trigger] block_at(bytes@, i))
        },
{
    let len = bytes.len();
    let count = len / FIELD_BYTES;
    if len % FIELD_BYTES != 0 {
        return Err(FieldError { index: count, kind: FieldErrorKind::WrongLength });
    }
    let mut elements: Vec<FieldElement> = Vec::new();
    let mut i: usize = 0;
    while i < count
        invariant
            len == bytes@.len(),
            count == block_count(bytes@),
            is_whole(bytes@),
            i <= count,
            elements@.len() == i,
            all_wf(elements@),
            forall|j: int| 0 <= j < i ==> is_field_block(#[trigger] block_at(bytes@, j)),
            forall|j: int| 0 <= j < i ==> (#[trigger] elements@[j]).repr() == block_at(bytes@, j),
        decreases count - i,
    {
        assert(i * 32 + 32 <= len) by (nonlinear_arith)
            requires
                i < count,
                count == len / 32,
        ;
        match FieldElement::from_slice_at(bytes, i * FIELD_BYTES) {
            Some(e) => {
                elements.push(e);
            },
            None => {
                assert(!is_field_block(block_at(bytes@, i as int)));
                return Err(FieldError { index: i, kind: FieldErrorKind::NotCanonical });
            },
        }
        i += 1;
    }
    Ok(elements)
}

/// Calls `PrimeField::from_repr_vartime` of the scalar field and reports
/// whether it decoded the block. The field's decoder accepts a 32-byte
/// little-endian encoding exactly when the encoded number is below the
/// field's modulus.
#[verifier::external_body]
fn is_canonical_repr(repr: &[u8; 32]) -> (ok: bool)
    ensures
        ok == (le_value(repr@) < scalar_modulus()),
{
    pasta_curves::Fq::from_repr_vartime(*repr).is_some()
}

} // verus!
