use bhp::curve::Point;
use bhp::digest::xof;
use bhp::field::{FieldElement, Scalar, SCALAR_BITS};
use bhp::generator::hash_to_curve;

const BASE_MODULUS: [u64; 4] = [725501752471715841, 6461107452199829505, 6968279316240510977, 1345280370688173398];
const SCALAR_MODULUS: [u64; 4] =
    [13356249993388743167, 5950279507993463550, 10965441865914903552, 336320092672043349];

#[test]
fn field_elements_are_below_the_modulus() {
    assert_eq!(FieldElement::new(BASE_MODULUS), None);
    let mut below = BASE_MODULUS;
    below[0] -= 1;
    assert_eq!(FieldElement::new(below).unwrap().limbs, below);
    let mut above = BASE_MODULUS;
    above[0] += 1;
    assert_eq!(FieldElement::new(above), None);
    assert_eq!(FieldElement::new([0, 0, 0, BASE_MODULUS[3] + 1]), None);
    assert_eq!(FieldElement::new([u64::MAX, u64::MAX, u64::MAX, BASE_MODULUS[3] - 1]).unwrap().limbs[0], u64::MAX);
    assert_eq!(FieldElement::zero().limbs, [0, 0, 0, 0]);
    assert_eq!(FieldElement::one().limbs, [1, 0, 0, 0]);
    assert!(FieldElement::one().check_canonical());
    assert!(FieldElement::one().same(&FieldElement::new([1, 0, 0, 0]).unwrap()));
    assert!(!FieldElement::one().same(&FieldElement::zero()));
}

#[test]
fn scalars_are_below_the_order() {
    assert_eq!(Scalar::new(SCALAR_MODULUS), None);
    let mut below = SCALAR_MODULUS;
    below[0] -= 1;
    assert_eq!(Scalar::new(below).unwrap().limbs, below);
    assert_eq!(Scalar::new([0, 0, 0, SCALAR_MODULUS[3] + 1]), None);
}

#[test]
fn scalar_bits_are_little_endian() {
    let scalar = Scalar::new([0b1011, 1, 0, 1 << 57]).unwrap();
    let bits = scalar.to_bits_le();
    assert_eq!(bits.len(), SCALAR_BITS);
    assert_eq!(bits.len(), 251);
    for (i, bit) in bits.iter().enumerate() {
        assert_eq!(*bit, [0usize, 1, 3, 64, 192 + 57].contains(&i));
        assert_eq!(*bit, scalar.get_bit(i));
    }
}

#[test]
fn points_are_checked_against_the_curve() {
    // The neutral element.
    let neutral = Point::from_coordinates([0, 0, 0, 0], [1, 0, 0, 0]).unwrap();
    assert!(neutral.check_identity());
    assert!(neutral.same(&neutral));
    assert_eq!(neutral.to_x_coordinate(), FieldElement::zero());
    assert_eq!(Point::from_coordinates([1, 0, 0, 0], [1, 0, 0, 0]), None);
    assert_eq!(Point::from_coordinates([0, 0, 0, 0], [0, 0, 0, 0]), None);
    assert_eq!(Point::from_coordinates(BASE_MODULUS, [1, 0, 0, 0]), None);
    assert_eq!(Point::from_coordinates([0, 0, 0, 0], BASE_MODULUS), None);
}

#[test]
fn digests_have_the_length_asked_for() {
    for length in [1u16, 31, 32, 33, 64, 65, 100] {
        let digest = xof(b"Aleo", length, b"AleoHtC0");
        assert_eq!(digest.len(), length as usize);
    }
    // Other inputs, lengths and personalizations give other digests.
    assert_ne!(xof(b"Aleo", 32, b"AleoHtC0"), xof(b"Alep", 32, b"AleoHtC0"));
    assert_ne!(xof(b"Aleo", 32, b"AleoHtC0"), xof(b"Aleo", 32, b"AleoHtC1"));
    assert_ne!(xof(b"Aleo", 32, b"AleoHtC0")[..], xof(b"Aleo", 33, b"AleoHtC0")[..32]);
    assert_eq!(xof(b"Aleo", 32, b"AleoHtC0"), xof(b"Aleo", 32, b"AleoHtC0"));
}

#[test]
fn hashing_to_the_curve_gives_a_point_of_the_curve() {
    let point = hash_to_curve(b"Aleo.BHP.3.57.BHPCircuit0.0").unwrap();
    assert!(!point.check_identity());
    assert_eq!(Point::from_coordinates(point.x.limbs, point.y.limbs), Some(point));
    assert_eq!(hash_to_curve(b"Aleo.BHP.3.57.BHPCircuit0.0"), Some(point));
    assert_ne!(hash_to_curve(b"Aleo.BHP.3.57.BHPCircuit0.1"), Some(point));
}
