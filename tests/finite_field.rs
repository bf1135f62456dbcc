use algebra::{
    DomainMismatchError, Element, FiniteField, InvalidOrderError, Lifter, GF, ZZ,
};

#[test]
fn it_words() {
    let fp = FiniteField::new(ZZ.lift(5)).unwrap();
    let ff = GF(ZZ.lift(5)).unwrap();
    println!("{:?}", fp);
    assert_eq!(fp, ff);
}

#[test]
fn test_panic_composite_number_order() {
    assert_eq!(FiniteField::new(ZZ.lift(10)), Err(InvalidOrderError));
}

#[test]
fn prime_orders_make_fields() {
    assert!(FiniteField::new(ZZ.lift(5)).is_ok());
    assert!(FiniteField::new(ZZ.lift(2)).is_ok());
    assert_eq!(*FiniteField::new(ZZ.lift(7)).unwrap().order(), ZZ.lift(7));
}

#[test]
fn non_prime_orders_are_refused() {
    assert_eq!(FiniteField::new(ZZ.lift(4)), Err(InvalidOrderError));
    assert_eq!(FiniteField::new(ZZ.lift(1)), Err(InvalidOrderError));
    assert_eq!(FiniteField::new(ZZ.lift(0)), Err(InvalidOrderError));
    assert_eq!(FiniteField::new(ZZ.lift(-5)), Err(InvalidOrderError));
    assert_eq!(GF(ZZ.lift(9)), Err(InvalidOrderError));
}

#[test]
fn prime_power_order_is_refused() {
    let order = ZZ.from_str("16886491005078742190744687163972049").unwrap();
    let mut power = ZZ.lift(1);
    for _ in 0..10 {
        power *= ZZ.lift(2647);
    }
    assert_eq!(order, power);
    assert_eq!(FiniteField::new(order), Err(InvalidOrderError));
}

#[test]
fn prime_test_result_decides() {
    assert_eq!(FiniteField::from_prime_test(ZZ.lift(4), false), Err(InvalidOrderError));
    assert_eq!(FiniteField::from_prime_test(ZZ.lift(1), false), Err(InvalidOrderError));
    assert_eq!(*FiniteField::from_prime_test(ZZ.lift(11), true).unwrap().order(), ZZ.lift(11));
}

#[test]
fn residues_lie_in_range() {
    let f = FiniteField::new(ZZ.lift(7)).unwrap();
    for v in [-100i64, -8, -7, -1, 0, 1, 6, 7, 13, 1000, i64::MIN, i64::MAX] {
        let e = f.lift(v);
        assert!(*e.value() >= ZZ.lift(0));
        assert!(*e.value() < ZZ.lift(7));
    }
}

#[test]
fn residue_is_euclidean() {
    let f = FiniteField::new(ZZ.lift(5)).unwrap();
    assert_eq!(*f.lift(-1i64).value(), ZZ.lift(4));
    assert_eq!(*f.lift(-10i64).value(), ZZ.lift(0));
    assert_eq!(*f.lift(12i64).value(), ZZ.lift(2));
    assert_eq!(*f.lift(ZZ.lift(-6)).value(), ZZ.lift(4));
}

#[test]
fn reduction_is_periodic() {
    let f = FiniteField::new(ZZ.lift(7)).unwrap();
    for v in [-9i64, 0, 3, 20] {
        for k in [-3i64, -1, 0, 1, 5] {
            assert_eq!(f.lift(v), f.lift(v + k * 7));
        }
    }
}

#[test]
fn elements_know_their_field() {
    let f = FiniteField::new(ZZ.lift(13)).unwrap();
    let e = f.lift(20i64);
    assert_eq!(*e.parent(), f);
    assert!(std::ptr::eq(e.parent(), &f));
}

#[test]
fn equality_compares_residue_and_order() {
    let f = FiniteField::new(ZZ.lift(5)).unwrap();
    let g = FiniteField::new(ZZ.lift(5)).unwrap();
    let h = FiniteField::new(ZZ.lift(7)).unwrap();
    assert_eq!(f.lift(3i64), g.lift(8i64));
    assert_ne!(f.lift(3i64), h.lift(3i64));
    assert_ne!(f.lift(3i64), f.lift(4i64));
}

#[test]
fn field_arithmetic() {
    let f = FiniteField::new(ZZ.lift(7)).unwrap();
    assert_eq!(f.lift(5i64).add(&f.lift(4i64)).unwrap(), f.lift(2i64));
    assert_eq!(f.lift(2i64).sub(&f.lift(5i64)).unwrap(), f.lift(4i64));
    assert_eq!(f.lift(3i64).mul(&f.lift(5i64)).unwrap(), f.lift(1i64));
    assert_eq!(*f.lift(2i64).sub(&f.lift(5i64)).unwrap().value(), ZZ.lift(4));
}

#[test]
fn mismatched_fields_do_not_combine() {
    let f = FiniteField::new(ZZ.lift(5)).unwrap();
    let h = FiniteField::new(ZZ.lift(7)).unwrap();
    assert_eq!(f.lift(1i64).add(&h.lift(1i64)), Err(DomainMismatchError));
    assert_eq!(f.lift(1i64).sub(&h.lift(1i64)), Err(DomainMismatchError));
    assert_eq!(f.lift(1i64).mul(&h.lift(1i64)), Err(DomainMismatchError));
}
