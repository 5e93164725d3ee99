use vstd::prelude::*;
use crate::ops::{Op, Additive, Multiplicative};
use crate::identity::Identity;
use crate::semigroup::{SemigroupApprox, Semigroup};

verus! {

/// A type equipped with an approximately associative operation for `O` and a
/// corresponding identity. For every `a`, operating with the identity on the
/// right or on the left gives a value approximately equal to `a`.
pub trait MonoidApprox<O: Op>: SemigroupApprox<O> + Identity<O> {
    /// Operating with the identity on either side is approximately a no-op.
    proof fn lemma_identity_is_noop_approx(a: Self)
        ensures
            a.approx_value(Self::identity()).approx_equal(a),
            Self::identity().approx_value(a).approx_equal(a),
    ;

    /// Checks whether operating with the identity is approximately a no-op for
    /// the given argument.
    fn prop_operating_identity_is_noop_approx(a: Self) -> (r: bool)
        ensures
            r == (a.approx_value(Self::identity()).approx_equal(a)
                && Self::identity().approx_value(a).approx_equal(a)),
            r,
    {
        proof {
            Self::lemma_identity_is_noop_approx(a);
        }
        a.approx(Self::id()).approx_eq(&a) && Self::id().approx(a).approx_eq(&a)
    }
}

/// A type equipped with an associative operation for `O` and a corresponding
/// identity. For every `a`, operating with the identity on the right or on
/// the left gives exactly `a`.
pub trait Monoid<O: Op>: MonoidApprox<O> + Semigroup<O> {
    /// Operating with the identity on either side is a no-op.
    proof fn lemma_identity_is_noop(a: Self)
        ensures
            a.operated(Self::identity()) == a,
            Self::identity().operated(a) == a,
    ;

    /// Checks whether operating with the identity is a no-op for the given
    /// argument.
    fn prop_operating_identity_is_noop(a: Self) -> (r: bool)
        ensures
            r == (a.operated(Self::identity()) == a && Self::identity().operated(a) == a),
            r,
    {
        proof {
            Self::lemma_identity_is_noop(a);
        }
        a.operate(Self::id()).exact_eq(&a) && Self::id().operate(a).exact_eq(&a)
    }
}

/// In an exact monoid the approximate identity law follows from the exact one:
/// operating with the identity is also approximately a no-op.
pub proof fn lemma_exact_identity_implies_approx<O: Op, T: Monoid<O>>(a: T)
    ensures
        a.approx_value(T::identity()).approx_equal(a),
        T::identity().approx_value(a).approx_equal(a),
{
    T::lemma_identity_is_noop(a);
    T::lemma_exact_refines_approx(a, T::identity());
    T::lemma_exact_refines_approx(T::identity(), a);
}

impl MonoidApprox<Additive> for u8 {
    proof fn lemma_identity_is_noop_approx(a: u8) {
    }
}

impl Monoid<Additive> for u8 {
    proof fn lemma_identity_is_noop(a: u8) {
    }
}

impl MonoidApprox<Multiplicative> for u8 {
    proof fn lemma_identity_is_noop_approx(a: u8) {
    }
}

impl Monoid<Multiplicative> for u8 {
    proof fn lemma_identity_is_noop(a: u8) {
    }
}

impl MonoidApprox<Additive> for u16 {
    proof fn lemma_identity_is_noop_approx(a: u16) {
    }
}

impl Monoid<Additive> for u16 {
    proof fn lemma_identity_is_noop(a: u16) {
    }
}

impl MonoidApprox<Multiplicative> for u16 {
    proof fn lemma_identity_is_noop_approx(a: u16) {
    }
}

impl Monoid<Multiplicative> for u16 {
    proof fn lemma_identity_is_noop(a: u16) {
    }
}

impl MonoidApprox<Additive> for u32 {
    proof fn lemma_identity_is_noop_approx(a: u32) {
    }
}

impl Monoid<Additive> for u32 {
    proof fn lemma_identity_is_noop(a: u32) {
    }
}

impl MonoidApprox<Multiplicative> for u32 {
    proof fn lemma_identity_is_noop_approx(a: u32) {
    }
}

impl Monoid<Multiplicative> for u32 {
    proof fn lemma_identity_is_noop(a: u32) {
    }
}

impl MonoidApprox<Additive> for u64 {
    proof fn lemma_identity_is_noop_approx(a: u64) {
    }
}

impl Monoid<Additive> for u64 {
    proof fn lemma_identity_is_noop(a: u64) {
    }
}

impl MonoidApprox<Multiplicative> for u64 {
    proof fn lemma_identity_is_noop_approx(a: u64) {
    }
}

impl Monoid<Multiplicative> for u64 {
    proof fn lemma_identity_is_noop(a: u64) {
    }
}

impl MonoidApprox<Additive> for i8 {
    proof fn lemma_identity_is_noop_approx(a: i8) {
    }
}

impl Monoid<Additive> for i8 {
    proof fn lemma_identity_is_noop(a: i8) {
    }
}

impl MonoidApprox<Multiplicative> for i8 {
    proof fn lemma_identity_is_noop_approx(a: i8) {
    }
}

impl Monoid<Multiplicative> for i8 {
    proof fn lemma_identity_is_noop(a: i8) {
    }
}

impl MonoidApprox<Additive> for i16 {
    proof fn lemma_identity_is_noop_approx(a: i16) {
    }
}

impl Monoid<Additive> for i16 {
    proof fn lemma_identity_is_noop(a: i16) {
    }
}

impl MonoidApprox<Multiplicative> for i16 {
    proof fn lemma_identity_is_noop_approx(a: i16) {
    }
}

impl Monoid<Multiplicative> for i16 {
    proof fn lemma_identity_is_noop(a: i16) {
    }
}

impl MonoidApprox<Additive> for i32 {
    proof fn lemma_identity_is_noop_approx(a: i32) {
    }
}

impl Monoid<Additive> for i32 {
    proof fn lemma_identity_is_noop(a: i32) {
    }
}

impl MonoidApprox<Multiplicative> for i32 {
    proof fn lemma_identity_is_noop_approx(a: i32) {
    }
}

impl Monoid<Multiplicative> for i32 {
    proof fn lemma_identity_is_noop(a: i32) {
    }
}

impl MonoidApprox<Additive> for i64 {
    proof fn lemma_identity_is_noop_approx(a: i64) {
    }
}

impl Monoid<Additive> for i64 {
    proof fn lemma_identity_is_noop(a: i64) {
    }
}

impl MonoidApprox<Multiplicative> for i64 {
    proof fn lemma_identity_is_noop_approx(a: i64) {
    }
}

impl Monoid<Multiplicative> for i64 {
    proof fn lemma_identity_is_noop(a: i64) {
    }
}
} // verus!
