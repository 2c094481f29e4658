use matrix::Element;

#[test]
fn zero_of_i8_is_zero() {
    assert_eq!(<i8 as Element>::zero(), 0i8);
}

#[test]
fn dup_copies_the_value() {
    let x: i8 = -7;
    assert_eq!(<i8 as Element>::dup(&x), -7i8);
}

#[test]
fn add_wraps_at_the_upper_edge() {
    assert_eq!(<i8 as Element>::add(127i8, 1i8), -128i8);
    assert_eq!(<i8 as Element>::add(100i8, 100i8), 100i8.wrapping_add(100));
}

#[test]
fn add_wraps_at_the_lower_edge() {
    assert_eq!(<i8 as Element>::add(-128i8, -1i8), 127i8);
}

#[test]
fn mul_wraps_modulo_two_hundred_fifty_six() {
    assert_eq!(<i8 as Element>::mul(-128i8, -1i8), -128i8);
    assert_eq!(<i8 as Element>::mul(16i8, 16i8), 0i8);
    assert_eq!(<i8 as Element>::mul(11i8, 12i8), 11i8.wrapping_mul(12));
}

#[test]
fn wide_integers_wrap_at_their_own_edges() {
    assert_eq!(<i64 as Element>::zero(), 0i64);
    assert_eq!(<i64 as Element>::add(i64::MAX, 1), i64::MIN);
    assert_eq!(<i64 as Element>::add(40_000_000_000, 2_000_000_000), 42_000_000_000);
    assert_eq!(
        <i64 as Element>::mul(3_000_000_000, 3_000_000_000),
        3_000_000_000i64.wrapping_mul(3_000_000_000),
    );
}
