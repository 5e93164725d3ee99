use algebra::{id, Additive, Identity, Monoid, MonoidApprox, Multiplicative, Op, Semigroup, SemigroupApprox};

#[test]
fn additive_identity_of_u32_is_zero_and_a_no_op() {
    let e = id::<Additive, u32>();
    assert_eq!(e, 0);
    assert_eq!(<u32 as Semigroup<Additive>>::operate(7, e), 7);
    assert_eq!(<u32 as Semigroup<Additive>>::operate(e, 7), 7);
}

#[test]
fn multiplicative_identity_of_u32_is_one_and_a_no_op() {
    let e = id::<Multiplicative, u32>();
    assert_eq!(e, 1);
    assert_eq!(<u32 as Semigroup<Multiplicative>>::operate(7, e), 7);
    assert_eq!(<u32 as Semigroup<Multiplicative>>::operate(e, 7), 7);
}

#[test]
fn additive_identity_composed_with_itself() {
    assert!(Monoid::<Additive>::prop_operating_identity_is_noop(0u32));
    assert!(MonoidApprox::<Additive>::prop_operating_identity_is_noop_approx(0u32));
}

#[test]
fn tags_do_not_interfere() {
    assert_eq!(<u32 as Identity<Additive>>::id(), 0);
    assert_eq!(<u32 as Identity<Multiplicative>>::id(), 1);
    assert_eq!(<i64 as Identity<Additive>>::id(), 0);
    assert_eq!(<i64 as Identity<Multiplicative>>::id(), 1);
    assert_eq!(<u32 as Semigroup<Additive>>::operate(6, 7), 13);
    assert_eq!(<u32 as Semigroup<Multiplicative>>::operate(6, 7), 42);
    assert_eq!(<u32 as SemigroupApprox<Additive>>::approx(6, 7), 13);
    assert_eq!(<u32 as SemigroupApprox<Multiplicative>>::approx(6, 7), 42);
}

#[test]
fn operations_wrap_around() {
    assert_eq!(<u8 as Semigroup<Additive>>::operate(u8::MAX, 1), 0);
    assert_eq!(<u8 as Semigroup<Multiplicative>>::operate(200, 2), 144);
    assert_eq!(<i8 as Semigroup<Additive>>::operate(i8::MAX, 1), i8::MIN);
    assert_eq!(<i8 as Semigroup<Multiplicative>>::operate(-128, -1), -128);
    assert_eq!(<i16 as Semigroup<Multiplicative>>::operate(300, 300), 24464);
    assert_eq!(<u64 as Semigroup<Additive>>::operate(u64::MAX, u64::MAX), u64::MAX - 1);
}

#[test]
fn operations_are_associative_on_samples() {
    let (a, b, c) = (200u8, 77u8, 13u8);
    let m = |x: u8, y: u8| <u8 as Semigroup<Multiplicative>>::operate(x, y);
    assert_eq!(m(m(a, b), c), m(a, m(b, c)));
    let (a, b, c) = (-100i32, 123_456i32, i32::MAX);
    let m = |x: i32, y: i32| <i32 as Semigroup<Multiplicative>>::operate(x, y);
    assert_eq!(m(m(a, b), c), m(a, m(b, c)));
    let p = |x: i32, y: i32| <i32 as Semigroup<Additive>>::operate(x, y);
    assert_eq!(p(p(a, b), c), p(a, p(b, c)));
}

#[test]
fn equality_tests_of_integers() {
    assert!(<u16 as SemigroupApprox<Additive>>::approx_eq(&5, &5));
    assert!(!<u16 as SemigroupApprox<Additive>>::approx_eq(&5, &6));
    assert!(<i32 as Semigroup<Multiplicative>>::exact_eq(&-9, &-9));
    assert!(!<i32 as Semigroup<Multiplicative>>::exact_eq(&-9, &9));
}

#[test]
fn operator_tokens() {
    assert_eq!(Additive::operator_token(), Additive);
    assert_eq!(Multiplicative::operator_token(), Multiplicative);
}

#[test]
fn identity_laws_hold_for_unsigned_samples() {
    for a in [0u8, 1, 7, 128, u8::MAX] {
        assert!(Monoid::<Additive>::prop_operating_identity_is_noop(a));
        assert!(Monoid::<Multiplicative>::prop_operating_identity_is_noop(a));
        assert!(MonoidApprox::<Additive>::prop_operating_identity_is_noop_approx(a));
        assert!(MonoidApprox::<Multiplicative>::prop_operating_identity_is_noop_approx(a));
    }
    for a in [0u16, 1, 7, u16::MAX] {
        assert!(Monoid::<Additive>::prop_operating_identity_is_noop(a));
        assert!(Monoid::<Multiplicative>::prop_operating_identity_is_noop(a));
        assert!(MonoidApprox::<Additive>::prop_operating_identity_is_noop_approx(a));
        assert!(MonoidApprox::<Multiplicative>::prop_operating_identity_is_noop_approx(a));
    }
    for a in [0u32, 1, 7, u32::MAX] {
        assert!(Monoid::<Additive>::prop_operating_identity_is_noop(a));
        assert!(Monoid::<Multiplicative>::prop_operating_identity_is_noop(a));
        assert!(MonoidApprox::<Additive>::prop_operating_identity_is_noop_approx(a));
        assert!(MonoidApprox::<Multiplicative>::prop_operating_identity_is_noop_approx(a));
    }
    for a in [0u64, 1, 7, u64::MAX] {
        assert!(Monoid::<Additive>::prop_operating_identity_is_noop(a));
        assert!(Monoid::<Multiplicative>::prop_operating_identity_is_noop(a));
        assert!(MonoidApprox::<Additive>::prop_operating_identity_is_noop_approx(a));
        assert!(MonoidApprox::<Multiplicative>::prop_operating_identity_is_noop_approx(a));
    }
}

#[test]
fn identity_laws_hold_for_signed_samples() {
    for a in [i8::MIN, -1, 0, 1, i8::MAX] {
        assert!(Monoid::<Additive>::prop_operating_identity_is_noop(a));
        assert!(Monoid::<Multiplicative>::prop_operating_identity_is_noop(a));
        assert!(MonoidApprox::<Additive>::prop_operating_identity_is_noop_approx(a));
        assert!(MonoidApprox::<Multiplicative>::prop_operating_identity_is_noop_approx(a));
    }
    for a in [i16::MIN, -1, 0, 1, i16::MAX] {
        assert!(Monoid::<Additive>::prop_operating_identity_is_noop(a));
        assert!(Monoid::<Multiplicative>::prop_operating_identity_is_noop(a));
        assert!(MonoidApprox::<Additive>::prop_operating_identity_is_noop_approx(a));
        assert!(MonoidApprox::<Multiplicative>::prop_operating_identity_is_noop_approx(a));
    }
    for a in [i32::MIN, -1, 0, 1, i32::MAX] {
        assert!(Monoid::<Additive>::prop_operating_identity_is_noop(a));
        assert!(Monoid::<Multiplicative>::prop_operating_identity_is_noop(a));
        assert!(MonoidApprox::<Additive>::prop_operating_identity_is_noop_approx(a));
        assert!(MonoidApprox::<Multiplicative>::prop_operating_identity_is_noop_approx(a));
    }
    for a in [i64::MIN, -1, 0, 1, i64::MAX] {
        assert!(Monoid::<Additive>::prop_operating_identity_is_noop(a));
        assert!(Monoid::<Multiplicative>::prop_operating_identity_is_noop(a));
        assert!(MonoidApprox::<Additive>::prop_operating_identity_is_noop_approx(a));
        assert!(MonoidApprox::<Multiplicative>::prop_operating_identity_is_noop_approx(a));
    }
}
