use ff::PrimeField;
use halo2_minimal::field::{
    decode_field_elements, scalar_modulus_repr, split_field_elements, FieldElement, FieldError,
    FieldErrorKind, FIELD_BYTES,
};
use pasta_curves::Fq;

/// The modulus of the scalar field, little-endian.
const MODULUS: [u8; 32] = [
    0x01, 0x00, 0x00, 0x00, 0x21, 0xeb, 0x46, 0x8c, 0xdd, 0xa8, 0x94, 0x09, 0xfc, 0x98, 0x46, 0x22,
    0x00, 0x00, 0x00, 0x00, 0x00, 0x00, 0x00, 0x00, 0x00, 0x00, 0x00, 0x00, 0x00, 0x00, 0x00, 0x40,
];

fn block_of(value: u64) -> Vec<u8> {
    let mut block = vec![0u8; 32];
    block[..8].copy_from_slice(&value.to_le_bytes());
    block
}

#[test]
fn modulus_encoding_is_the_fields_modulus() {
    assert_eq!(scalar_modulus_repr(), MODULUS);
    let minus_one = (-Fq::one()).to_repr();
    let mut expected = scalar_modulus_repr();
    expected[0] -= 1;
    assert_eq!(minus_one, expected);
    assert!(FieldElement::from_repr(&scalar_modulus_repr()).is_none());
    assert!(FieldElement::from_repr(&expected).is_some());
}

#[test]
fn largest_element_is_accepted() {
    let mut repr = MODULUS;
    repr[0] = 0x00;
    let element = FieldElement::from_repr(&repr).expect("modulus minus one is canonical");
    assert_eq!(element.to_repr(), repr);
}

#[test]
fn modulus_itself_is_rejected() {
    assert!(FieldElement::from_repr(&MODULUS).is_none());
    assert_eq!(FieldElement::from_bytes(&MODULUS), Err(FieldErrorKind::NotCanonical));
}

#[test]
fn values_above_the_modulus_are_rejected_not_reduced() {
    let mut above = MODULUS;
    above[0] = 0x02;
    assert!(FieldElement::from_repr(&above).is_none());
    assert!(FieldElement::from_repr(&[0xff; 32]).is_none());
    let mut high_bit = [0u8; 32];
    high_bit[31] = 0x80;
    assert!(FieldElement::from_repr(&high_bit).is_none());
}

#[test]
fn most_significant_byte_decides_first() {
    let mut below = [0xff; 32];
    below[31] = 0x3f;
    assert!(FieldElement::from_repr(&below).is_some());
    let mut at_top = [0u8; 32];
    at_top[31] = 0x40;
    assert!(FieldElement::from_repr(&at_top).is_some());
    at_top[16] = 0x01;
    assert!(FieldElement::from_repr(&at_top).is_none());
}

#[test]
fn zero_and_one_have_their_encodings() {
    assert_eq!(FieldElement::zero().to_repr(), [0u8; 32]);
    let mut one = [0u8; 32];
    one[0] = 1;
    assert_eq!(FieldElement::one().to_repr(), one);
    assert_eq!(FieldElement::one().to_repr(), Fq::one().to_repr());
    assert_eq!(FieldElement::zero(), FieldElement::from_repr(&[0u8; 32]).unwrap());
}

#[test]
fn from_bytes_requires_exactly_one_block() {
    assert_eq!(FieldElement::from_bytes(&[]), Err(FieldErrorKind::WrongLength));
    assert_eq!(FieldElement::from_bytes(&[0u8; 31]), Err(FieldErrorKind::WrongLength));
    assert_eq!(FieldElement::from_bytes(&[0u8; 33]), Err(FieldErrorKind::WrongLength));
    assert_eq!(FieldElement::from_bytes(&[0xff; 33]), Err(FieldErrorKind::WrongLength));
    let seven = FieldElement::from_bytes(&block_of(7)).unwrap();
    assert_eq!(seven.to_repr(), Fq::from(7).to_repr());
}

#[test]
fn decode_keeps_order_and_values() {
    let blocks = vec![block_of(3), block_of(6), block_of(u64::MAX)];
    let elements = decode_field_elements(&blocks).unwrap();
    assert_eq!(elements.len(), 3);
    for (element, block) in elements.iter().zip(blocks.iter()) {
        assert_eq!(element.to_repr().to_vec(), *block);
    }
    assert_eq!(decode_field_elements(&Vec::new()), Ok(Vec::new()));
}

#[test]
fn decode_reports_the_first_bad_block() {
    let blocks = vec![block_of(3), MODULUS.to_vec(), vec![0u8; 31]];
    assert_eq!(
        decode_field_elements(&blocks),
        Err(FieldError { index: 1, kind: FieldErrorKind::NotCanonical })
    );
    let blocks = vec![block_of(3), vec![0u8; 31], MODULUS.to_vec()];
    assert_eq!(
        decode_field_elements(&blocks),
        Err(FieldError { index: 1, kind: FieldErrorKind::WrongLength })
    );
    let blocks = vec![vec![], block_of(3)];
    assert_eq!(
        decode_field_elements(&blocks),
        Err(FieldError { index: 0, kind: FieldErrorKind::WrongLength })
    );
}

#[test]
fn split_cuts_a_byte_string_into_blocks() {
    let mut bytes = block_of(3);
    bytes.extend_from_slice(&block_of(6));
    let elements = split_field_elements(&bytes).unwrap();
    assert_eq!(elements.len(), 2);
    assert_eq!(elements[0].to_repr().to_vec(), block_of(3));
    assert_eq!(elements[1].to_repr().to_vec(), block_of(6));
    assert_eq!(split_field_elements(&[]), Ok(Vec::new()));
}

#[test]
fn split_reports_incomplete_and_bad_blocks() {
    let mut bytes = block_of(3);
    bytes.extend_from_slice(&[0u8; 31]);
    assert_eq!(bytes.len(), 2 * FIELD_BYTES - 1);
    assert_eq!(
        split_field_elements(&bytes),
        Err(FieldError { index: 1, kind: FieldErrorKind::WrongLength })
    );
    let mut bytes = MODULUS.to_vec();
    bytes.extend_from_slice(&[0u8; 5]);
    assert_eq!(
        split_field_elements(&bytes),
        Err(FieldError { index: 1, kind: FieldErrorKind::WrongLength })
    );
    let mut bytes = block_of(3);
    bytes.extend_from_slice(&MODULUS);
    bytes.extend_from_slice(&[0xff; 32]);
    assert_eq!(
        split_field_elements(&bytes),
        Err(FieldError { index: 1, kind: FieldErrorKind::NotCanonical })
    );
}
