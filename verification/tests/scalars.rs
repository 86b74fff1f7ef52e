use rlst::types::Scalar;

#[test]
fn zero_is_zero() {
    assert_eq!(<i32 as Scalar>::zero(), 0);
    assert_eq!(<i64 as Scalar>::zero(), 0);
}

#[test]
fn sums_and_products_in_range_are_exact() {
    assert_eq!(Scalar::plus(5i64, 6i64), 11);
    assert_eq!(Scalar::times(2i64, 5i64), 10);
    assert_eq!(Scalar::plus(-5i32, 3i32), -2);
    assert_eq!(Scalar::times(-4i32, 3i32), -12);
}

#[test]
fn sums_and_products_wrap_around() {
    assert_eq!(Scalar::plus(i64::MAX, 1i64), i64::MIN);
    assert_eq!(Scalar::plus(i32::MIN, -1i32), i32::MAX);
    assert_eq!(Scalar::times(i32::MAX, 2i32), -2);
    assert_eq!(Scalar::times(i64::MIN, -1i64), i64::MIN);
}

#[test]
fn sums_commute_and_associate() {
    let (a, b, c) = (i64::MAX, 17i64, -40i64);
    assert_eq!(Scalar::plus(a, b), Scalar::plus(b, a));
    assert_eq!(
        Scalar::plus(Scalar::plus(a, b), c),
        Scalar::plus(a, Scalar::plus(b, c))
    );
    assert_eq!(Scalar::plus(Scalar::plus(a, b), c), i64::MAX - 23);
}
