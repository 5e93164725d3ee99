use vstd::prelude::*;
use crate::ops::{Op, Additive, Multiplicative};

verus! {

/// A type with a binary operation for `O` that is associative up to the
/// type's own notion of approximate equality.
pub trait SemigroupApprox<O: Op>: Sized + Copy {
    /// The value of the approximate operation on two operands.
    spec fn approx_value(self, rhs: Self) -> Self;

    /// The approximate-equality relation of the type.
    spec fn approx_equal(self, other: Self) -> bool;

    /// Performs the approximate operation.
    fn approx(self, rhs: Self) -> (r: Self)
        ensures
            r == self.approx_value(rhs),
    ;

    /// Tests two values for approximate equality.
    fn approx_eq(&self, other: &Self) -> (r: bool)
        ensures
            r == self.approx_equal(*other),
    ;
}

/// A type with an exactly associative binary operation for `O`.
pub trait Semigroup<O: Op>: SemigroupApprox<O> {
    /// The value of the exact operation on two operands.
    spec fn operated(self, rhs: Self) -> Self;

    /// Performs the exact operation.
    fn operate(self, rhs: Self) -> (r: Self)
        ensures
            r == self.operated(rhs),
    ;

    /// Tests two values for exact equality.
    fn exact_eq(&self, other: &Self) -> (r: bool)
        ensures
            r == (*self == *other),
    ;

    /// The operation is associative.
    proof fn lemma_associative(a: Self, b: Self, c: Self)
        ensures
            a.operated(b).operated(c) == a.operated(b.operated(c)),
    ;

    /// The approximate operation of an exact semigroup is its exact one, and
    /// its approximate equality holds of equal values.
    proof fn lemma_exact_refines_approx(a: Self, b: Self)
        ensures
            a.approx_value(b) == a.operated(b),
            a.approx_equal(a),
    ;
}

impl SemigroupApprox<Additive> for u8 {
    open spec fn approx_value(self, rhs: u8) -> u8 {
        vstd::wrapping::u8_specs::wrapping_add(self, rhs)
    }

    open spec fn approx_equal(self, other: u8) -> bool {
        self == other
    }

    fn approx(self, rhs: u8) -> (r: u8) {
        self.wrapping_add(rhs)
    }

    fn approx_eq(&self, other: &u8) -> (r: bool) {
        *self == *other
    }
}

impl Semigroup<Additive> for u8 {
    open spec fn operated(self, rhs: u8) -> u8 {
        vstd::wrapping::u8_specs::wrapping_add(self, rhs)
    }

    fn operate(self, rhs: u8) -> (r: u8) {
        self.wrapping_add(rhs)
    }

    fn exact_eq(&self, other: &u8) -> (r: bool) {
        *self == *other
    }

    proof fn lemma_associative(a: u8, b: u8, c: u8) {
    }

    proof fn lemma_exact_refines_approx(a: u8, b: u8) {
    }
}

impl SemigroupApprox<Multiplicative> for u8 {
    open spec fn approx_value(self, rhs: u8) -> u8 {
        vstd::wrapping::u8_specs::wrapping_mul(self, rhs)
    }

    open spec fn approx_equal(self, other: u8) -> bool {
        self == other
    }

    fn approx(self, rhs: u8) -> (r: u8) {
        self.wrapping_mul(rhs)
    }

    fn approx_eq(&self, other: &u8) -> (r: bool) {
        *self == *other
    }
}

impl Semigroup<Multiplicative> for u8 {
    open spec fn operated(self, rhs: u8) -> u8 {
        vstd::wrapping::u8_specs::wrapping_mul(self, rhs)
    }

    fn operate(self, rhs: u8) -> (r: u8) {
        self.wrapping_mul(rhs)
    }

    fn exact_eq(&self, other: &u8) -> (r: bool) {
        *self == *other
    }

    proof fn lemma_associative(a: u8, b: u8, c: u8) {
        crate::arith::lemma_mul_mod_associative(a as int, b as int, c as int, 0x100);
    }

    proof fn lemma_exact_refines_approx(a: u8, b: u8) {
    }
}

impl SemigroupApprox<Additive> for u16 {
    open spec fn approx_value(self, rhs: u16) -> u16 {
        vstd::wrapping::u16_specs::wrapping_add(self, rhs)
    }

    open spec fn approx_equal(self, other: u16) -> bool {
        self == other
    }

    fn approx(self, rhs: u16) -> (r: u16) {
        self.wrapping_add(rhs)
    }

    fn approx_eq(&self, other: &u16) -> (r: bool) {
        *self == *other
    }
}

impl Semigroup<Additive> for u16 {
    open spec fn operated(self, rhs: u16) -> u16 {
        vstd::wrapping::u16_specs::wrapping_add(self, rhs)
    }

    fn operate(self, rhs: u16) -> (r: u16) {
        self.wrapping_add(rhs)
    }

    fn exact_eq(&self, other: &u16) -> (r: bool) {
        *self == *other
    }

    proof fn lemma_associative(a: u16, b: u16, c: u16) {
    }

    proof fn lemma_exact_refines_approx(a: u16, b: u16) {
    }
}

impl SemigroupApprox<Multiplicative> for u16 {
    open spec fn approx_value(self, rhs: u16) -> u16 {
        vstd::wrapping::u16_specs::wrapping_mul(self, rhs)
    }

    open spec fn approx_equal(self, other: u16) -> bool {
        self == other
    }

    fn approx(self, rhs: u16) -> (r: u16) {
        self.wrapping_mul(rhs)
    }

    fn approx_eq(&self, other: &u16) -> (r: bool) {
        *self == *other
    }
}

impl Semigroup<Multiplicative> for u16 {
    open spec fn operated(self, rhs: u16) -> u16 {
        vstd::wrapping::u16_specs::wrapping_mul(self, rhs)
    }

    fn operate(self, rhs: u16) -> (r: u16) {
        self.wrapping_mul(rhs)
    }

    fn exact_eq(&self, other: &u16) -> (r: bool) {
        *self == *other
    }

    proof fn lemma_associative(a: u16, b: u16, c: u16) {
        crate::arith::lemma_mul_mod_associative(a as int, b as int, c as int, 0x1_0000);
    }

    proof fn lemma_exact_refines_approx(a: u16, b: u16) {
    }
}

impl SemigroupApprox<Additive> for u32 {
    open spec fn approx_value(self, rhs: u32) -> u32 {
        vstd::wrapping::u32_specs::wrapping_add(self, rhs)
    }

    open spec fn approx_equal(self, other: u32) -> bool {
        self == other
    }

    fn approx(self, rhs: u32) -> (r: u32) {
        self.wrapping_add(rhs)
    }

    fn approx_eq(&self, other: &u32) -> (r: bool) {
        *self == *other
    }
}

impl Semigroup<Additive> for u32 {
    open spec fn operated(self, rhs: u32) -> u32 {
        vstd::wrapping::u32_specs::wrapping_add(self, rhs)
    }

    fn operate(self, rhs: u32) -> (r: u32) {
        self.wrapping_add(rhs)
    }

    fn exact_eq(&self, other: &u32) -> (r: bool) {
        *self == *other
    }

    proof fn lemma_associative(a: u32, b: u32, c: u32) {
    }

    proof fn lemma_exact_refines_approx(a: u32, b: u32) {
    }
}

impl SemigroupApprox<Multiplicative> for u32 {
    open spec fn approx_value(self, rhs: u32) -> u32 {
        vstd::wrapping::u32_specs::wrapping_mul(self, rhs)
    }

    open spec fn approx_equal(self, other: u32) -> bool {
        self == other
    }

    fn approx(self, rhs: u32) -> (r: u32) {
        self.wrapping_mul(rhs)
    }

    fn approx_eq(&self, other: &u32) -> (r: bool) {
        *self == *other
    }
}

impl Semigroup<Multiplicative> for u32 {
    open spec fn operated(self, rhs: u32) -> u32 {
        vstd::wrapping::u32_specs::wrapping_mul(self, rhs)
    }

    fn operate(self, rhs: u32) -> (r: u32) {
        self.wrapping_mul(rhs)
    }

    fn exact_eq(&self, other: &u32) -> (r: bool) {
        *self == *other
    }

    proof fn lemma_associative(a: u32, b: u32, c: u32) {
        crate::arith::lemma_mul_mod_associative(a as int, b as int, c as int, 0x1_0000_0000);
    }

    proof fn lemma_exact_refines_approx(a: u32, b: u32) {
    }
}

impl SemigroupApprox<Additive> for u64 {
    open spec fn approx_value(self, rhs: u64) -> u64 {
        vstd::wrapping::u64_specs::wrapping_add(self, rhs)
    }

    open spec fn approx_equal(self, other: u64) -> bool {
        self == other
    }

    fn approx(self, rhs: u64) -> (r: u64) {
        self.wrapping_add(rhs)
    }

    fn approx_eq(&self, other: &u64) -> (r: bool) {
        *self == *other
    }
}

impl Semigroup<Additive> for u64 {
    open spec fn operated(self, rhs: u64) -> u64 {
        vstd::wrapping::u64_specs::wrapping_add(self, rhs)
    }

    fn operate(self, rhs: u64) -> (r: u64) {
        self.wrapping_add(rhs)
    }

    fn exact_eq(&self, other: &u64) -> (r: bool) {
        *self == *other
    }

    proof fn lemma_associative(a: u64, b: u64, c: u64) {
    }

    proof fn lemma_exact_refines_approx(a: u64, b: u64) {
    }
}

impl SemigroupApprox<Multiplicative> for u64 {
    open spec fn approx_value(self, rhs: u64) -> u64 {
        vstd::wrapping::u64_specs::wrapping_mul(self, rhs)
    }

    open spec fn approx_equal(self, other: u64) -> bool {
        self == other
    }

    fn approx(self, rhs: u64) -> (r: u64) {
        self.wrapping_mul(rhs)
    }

    fn approx_eq(&self, other: &u64) -> (r: bool) {
        *self == *other
    }
}

impl Semigroup<Multiplicative> for u64 {
    open spec fn operated(self, rhs: u64) -> u64 {
        vstd::wrapping::u64_specs::wrapping_mul(self, rhs)
    }

    fn operate(self, rhs: u64) -> (r: u64) {
        self.wrapping_mul(rhs)
    }

    fn exact_eq(&self, other: &u64) -> (r: bool) {
        *self == *other
    }

    proof fn lemma_associative(a: u64, b: u64, c: u64) {
        crate::arith::lemma_mul_mod_associative(a as int, b as int, c as int, 0x1_0000_0000_0000_0000);
    }

    proof fn lemma_exact_refines_approx(a: u64, b: u64) {
    }
}

impl SemigroupApprox<Additive> for i8 {
    open spec fn approx_value(self, rhs: i8) -> i8 {
        vstd::wrapping::i8_specs::wrapping_add(self, rhs)
    }

    open spec fn approx_equal(self, other: i8) -> bool {
        self == other
    }

    fn approx(self, rhs: i8) -> (r: i8) {
        self.wrapping_add(rhs)
    }

    fn approx_eq(&self, other: &i8) -> (r: bool) {
        *self == *other
    }
}

impl Semigroup<Additive> for i8 {
    open spec fn operated(self, rhs: i8) -> i8 {
        vstd::wrapping::i8_specs::wrapping_add(self, rhs)
    }

    fn operate(self, rhs: i8) -> (r: i8) {
        self.wrapping_add(rhs)
    }

    fn exact_eq(&self, other: &i8) -> (r: bool) {
        *self == *other
    }

    proof fn lemma_associative(a: i8, b: i8, c: i8) {
    }

    proof fn lemma_exact_refines_approx(a: i8, b: i8) {
    }
}

impl SemigroupApprox<Multiplicative> for i8 {
    open spec fn approx_value(self, rhs: i8) -> i8 {
        vstd::wrapping::i8_specs::wrapping_mul(self, rhs)
    }

    open spec fn approx_equal(self, other: i8) -> bool {
        self == other
    }

    fn approx(self, rhs: i8) -> (r: i8) {
        self.wrapping_mul(rhs)
    }

    fn approx_eq(&self, other: &i8) -> (r: bool) {
        *self == *other
    }
}

impl Semigroup<Multiplicative> for i8 {
    open spec fn operated(self, rhs: i8) -> i8 {
        vstd::wrapping::i8_specs::wrapping_mul(self, rhs)
    }

    fn operate(self, rhs: i8) -> (r: i8) {
        self.wrapping_mul(rhs)
    }

    fn exact_eq(&self, other: &i8) -> (r: bool) {
        *self == *other
    }

    proof fn lemma_associative(a: i8, b: i8, c: i8) {
        let m: int = 0x100;
        let x = vstd::wrapping::i8_specs::wrapping_mul(a, b);
        let y = vstd::wrapping::i8_specs::wrapping_mul(b, c);
        crate::arith::lemma_residue_congruent(a * b, m);
        crate::arith::lemma_residue_congruent(b * c, m);
        crate::arith::lemma_mul_mod_congruent_associative(a as int, b as int, c as int, x as int, y as int, m);
    }

    proof fn lemma_exact_refines_approx(a: i8, b: i8) {
    }
}

impl SemigroupApprox<Additive> for i16 {
    open spec fn approx_value(self, rhs: i16) -> i16 {
        vstd::wrapping::i16_specs::wrapping_add(self, rhs)
    }

    open spec fn approx_equal(self, other: i16) -> bool {
        self == other
    }

    fn approx(self, rhs: i16) -> (r: i16) {
        self.wrapping_add(rhs)
    }

    fn approx_eq(&self, other: &i16) -> (r: bool) {
        *self == *other
    }
}

impl Semigroup<Additive> for i16 {
    open spec fn operated(self, rhs: i16) -> i16 {
        vstd::wrapping::i16_specs::wrapping_add(self, rhs)
    }

    fn operate(self, rhs: i16) -> (r: i16) {
        self.wrapping_add(rhs)
    }

    fn exact_eq(&self, other: &i16) -> (r: bool) {
        *self == *other
    }

    proof fn lemma_associative(a: i16, b: i16, c: i16) {
    }

    proof fn lemma_exact_refines_approx(a: i16, b: i16) {
    }
}

impl SemigroupApprox<Multiplicative> for i16 {
    open spec fn approx_value(self, rhs: i16) -> i16 {
        vstd::wrapping::i16_specs::wrapping_mul(self, rhs)
    }

    open spec fn approx_equal(self, other: i16) -> bool {
        self == other
    }

    fn approx(self, rhs: i16) -> (r: i16) {
        self.wrapping_mul(rhs)
    }

    fn approx_eq(&self, other: &i16) -> (r: bool) {
        *self == *other
    }
}

impl Semigroup<Multiplicative> for i16 {
    open spec fn operated(self, rhs: i16) -> i16 {
        vstd::wrapping::i16_specs::wrapping_mul(self, rhs)
    }

    fn operate(self, rhs: i16) -> (r: i16) {
        self.wrapping_mul(rhs)
    }

    fn exact_eq(&self, other: &i16) -> (r: bool) {
        *self == *other
    }

    proof fn lemma_associative(a: i16, b: i16, c: i16) {
        let m: int = 0x1_0000;
        let x = vstd::wrapping::i16_specs::wrapping_mul(a, b);
        let y = vstd::wrapping::i16_specs::wrapping_mul(b, c);
        crate::arith::lemma_residue_congruent(a * b, m);
        crate::arith::lemma_residue_congruent(b * c, m);
        crate::arith::lemma_mul_mod_congruent_associative(a as int, b as int, c as int, x as int, y as int, m);
    }

    proof fn lemma_exact_refines_approx(a: i16, b: i16) {
    }
}

impl SemigroupApprox<Additive> for i32 {
    open spec fn approx_value(self, rhs: i32) -> i32 {
        vstd::wrapping::i32_specs::wrapping_add(self, rhs)
    }

    open spec fn approx_equal(self, other: i32) -> bool {
        self == other
    }

    fn approx(self, rhs: i32) -> (r: i32) {
        self.wrapping_add(rhs)
    }

    fn approx_eq(&self, other: &i32) -> (r: bool) {
        *self == *other
    }
}

impl Semigroup<Additive> for i32 {
    open spec fn operated(self, rhs: i32) -> i32 {
        vstd::wrapping::i32_specs::wrapping_add(self, rhs)
    }

    fn operate(self, rhs: i32) -> (r: i32) {
        self.wrapping_add(rhs)
    }

    fn exact_eq(&self, other: &i32) -> (r: bool) {
        *self == *other
    }

    proof fn lemma_associative(a: i32, b: i32, c: i32) {
    }

    proof fn lemma_exact_refines_approx(a: i32, b: i32) {
    }
}

impl SemigroupApprox<Multiplicative> for i32 {
    open spec fn approx_value(self, rhs: i32) -> i32 {
        vstd::wrapping::i32_specs::wrapping_mul(self, rhs)
    }

    open spec fn approx_equal(self, other: i32) -> bool {
        self == other
    }

    fn approx(self, rhs: i32) -> (r: i32) {
        self.wrapping_mul(rhs)
    }

    fn approx_eq(&self, other: &i32) -> (r: bool) {
        *self == *other
    }
}

impl Semigroup<Multiplicative> for i32 {
    open spec fn operated(self, rhs: i32) -> i32 {
        vstd::wrapping::i32_specs::wrapping_mul(self, rhs)
    }

    fn operate(self, rhs: i32) -> (r: i32) {
        self.wrapping_mul(rhs)
    }

    fn exact_eq(&self, other: &i32) -> (r: bool) {
        *self == *other
    }

    proof fn lemma_associative(a: i32, b: i32, c: i32) {
        let m: int = 0x1_0000_0000;
        let x = vstd::wrapping::i32_specs::wrapping_mul(a, b);
        let y = vstd::wrapping::i32_specs::wrapping_mul(b, c);
        crate::arith::lemma_residue_congruent(a * b, m);
        crate::arith::lemma_residue_congruent(b * c, m);
        crate::arith::lemma_mul_mod_congruent_associative(a as int, b as int, c as int, x as int, y as int, m);
    }

    proof fn lemma_exact_refines_approx(a: i32, b: i32) {
    }
}

impl SemigroupApprox<Additive> for i64 {
    open spec fn approx_value(self, rhs: i64) -> i64 {
        vstd::wrapping::i64_specs::wrapping_add(self, rhs)
    }

    open spec fn approx_equal(self, other: i64) -> bool {
        self == other
    }

    fn approx(self, rhs: i64) -> (r: i64) {
        self.wrapping_add(rhs)
    }

    fn approx_eq(&self, other: &i64) -> (r: bool) {
        *self == *other
    }
}

impl Semigroup<Additive> for i64 {
    open spec fn operated(self, rhs: i64) -> i64 {
        vstd::wrapping::i64_specs::wrapping_add(self, rhs)
    }

    fn operate(self, rhs: i64) -> (r: i64) {
        self.wrapping_add(rhs)
    }

    fn exact_eq(&self, other: &i64) -> (r: bool) {
        *self == *other
    }

    proof fn lemma_associative(a: i64, b: i64, c: i64) {
    }

    proof fn lemma_exact_refines_approx(a: i64, b: i64) {
    }
}

impl SemigroupApprox<Multiplicative> for i64 {
    open spec fn approx_value(self, rhs: i64) -> i64 {
        vstd::wrapping::i64_specs::wrapping_mul(self, rhs)
    }

    open spec fn approx_equal(self, other: i64) -> bool {
        self == other
    }

    fn approx(self, rhs: i64) -> (r: i64) {
        self.wrapping_mul(rhs)
    }

    fn approx_eq(&self, other: &i64) -> (r: bool) {
        *self == *other
    }
}

impl Semigroup<Multiplicative> for i64 {
    open spec fn operated(self, rhs: i64) -> i64 {
        vstd::wrapping::i64_specs::wrapping_mul(self, rhs)
    }

    fn operate(self, rhs: i64) -> (r: i64) {
        self.wrapping_mul(rhs)
    }

    fn exact_eq(&self, other: &i64) -> (r: bool) {
        *self == *other
    }

    proof fn lemma_associative(a: i64, b: i64, c: i64) {
        let m: int = 0x1_0000_0000_0000_0000;
        let x = vstd::wrapping::i64_specs::wrapping_mul(a, b);
        let y = vstd::wrapping::i64_specs::wrapping_mul(b, c);
        crate::arith::lemma_residue_congruent(a * b, m);
        crate::arith::lemma_residue_congruent(b * c, m);
        crate::arith::lemma_mul_mod_congruent_associative(a as int, b as int, c as int, x as int, y as int, m);
    }

    proof fn lemma_exact_refines_approx(a: i64, b: i64) {
    }
}

} // verus!
