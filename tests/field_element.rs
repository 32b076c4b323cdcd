use ecc::{FieldElement, FieldElementOps};

fn fe(num: u128, prime: u128) -> FieldElement {
    FieldElement::new(num, prime).unwrap()
}

#[test]
fn test_new() {
    let a = FieldElement::new(3, 13);
    let b = FieldElement::new(13, 13);
    let c = FieldElement::new(14, 13);
    let d = FieldElement::new(0, 13);
    assert!(a.is_ok());
    assert!(b.is_err());
    assert!(c.is_err());
    assert!(d.is_ok());
}

#[test]
fn test_ne() {
    let a = FieldElement::new(2, 13).unwrap();
    let b = FieldElement::new(10, 13).unwrap();
    let c = FieldElement::new(2, 13).unwrap();
    assert_eq!(a, c);
    assert!(a != b);
    assert!(b != c);
}

#[test]
fn test_add() {
    let mut a = FieldElement::new(2, 13).unwrap();
    let mut b = FieldElement::new(10, 13).unwrap();
    assert_eq!(a + b, FieldElement::new(12, 13).unwrap());
    a = FieldElement::new(5, 13).unwrap();
    b = FieldElement::new(12, 13).unwrap();
    assert_eq!(a + b, FieldElement::new(4, 13).unwrap());
}

#[test]
fn test_sub() {
    let mut a = FieldElement::new(10, 13).unwrap();
    let mut b = FieldElement::new(2, 13).unwrap();
    assert_eq!(a - b, FieldElement::new(8, 13).unwrap());
    a = FieldElement::new(5, 13).unwrap();
    b = FieldElement::new(12, 13).unwrap();
    assert_eq!(a - b, FieldElement::new(6, 13).unwrap());
}

#[test]
fn new_keeps_value_and_prime() {
    let a = fe(3, 13);
    assert_eq!(a.num, 3);
    assert_eq!(a.prime, 13);
    let top = fe(12, 13);
    assert_eq!(top.num, 12);
}

#[test]
fn new_rejects_value_at_or_above_prime() {
    assert!(FieldElement::new(13, 13).is_err());
    assert!(FieldElement::new(u128::MAX, 13).is_err());
    assert!(FieldElement::new(0, 0).is_err());
    assert!(FieldElement::new(1, 1).is_err());
}

#[test]
fn error_message_names_value_and_range() {
    let err = FieldElement::new(14, 13).unwrap_err();
    assert_eq!(err.message, "num 14 not in field range [0, 13)");
    let err = FieldElement::new(0, 0).unwrap_err();
    assert_eq!(err.message, "num 0 not in field range [0, 0)");
}

#[test]
fn add_wraps_past_modulus() {
    assert_eq!(fe(5, 13) + fe(12, 13), fe(4, 13));
    assert_eq!(fe(12, 13) + fe(12, 13), fe(11, 13));
    assert_eq!(fe(6, 13) + fe(7, 13), fe(0, 13));
}

#[test]
fn add_near_u128_limit_does_not_overflow() {
    let p = u128::MAX;
    let a = fe(p - 1, p);
    let b = fe(p - 2, p);
    assert_eq!(a + b, fe(p - 3, p));
    assert_eq!(fe(p - 1, p) + fe(1, p), fe(0, p));
}

#[test]
fn add_is_commutative() {
    for x in 0..13u128 {
        for y in 0..13u128 {
            assert_eq!(fe(x, 13) + fe(y, 13), fe(y, 13) + fe(x, 13));
        }
    }
}

#[test]
fn zero_is_additive_identity() {
    let z = fe(0, 13);
    for x in 0..13u128 {
        assert_eq!(fe(x, 13) + z, fe(x, 13));
    }
}

#[test]
fn negation_is_additive_inverse() {
    assert_eq!(-fe(3, 13), fe(10, 13));
    assert_eq!(-fe(12, 13), fe(1, 13));
    for x in 0..13u128 {
        let a = fe(x, 13);
        assert_eq!(a + (-a), fe(0, 13));
    }
}

#[test]
fn negation_of_zero_is_zero() {
    let n = -fe(0, 13);
    assert_eq!(n.num, 0);
    assert_eq!(n, fe(0, 13));
}

#[test]
fn sub_then_add_restores() {
    assert_eq!(fe(10, 13) - fe(2, 13), fe(8, 13));
    assert_eq!(fe(5, 13) - fe(12, 13), fe(6, 13));
    assert_eq!(fe(4, 13) - fe(4, 13), fe(0, 13));
    for x in 0..13u128 {
        for y in 0..13u128 {
            let a = fe(x, 13);
            let b = fe(y, 13);
            assert_eq!((a - b) + b, a);
        }
    }
}

#[test]
fn equality_distinguishes_moduli() {
    let a = fe(2, 13);
    let b = fe(2, 17);
    assert_eq!(a, a);
    assert!(a != b);
    assert!(b != a);
    assert_eq!(fe(2, 13), a);
}
