use vstd::prelude::*;
use crate::ops::{Op, Additive, Multiplicative};

verus! {

/// A type with a distinguished identity element for the operation `O`.
pub trait Identity<O: Op>: Sized {
    /// The identity element, as a mathematical value.
    spec fn identity() -> Self;

    /// Returns the identity element.
    fn id() -> (r: Self)
        ensures
            r == Self::identity(),
    ;
}

/// Returns the identity element of `T` for the operation `O`.
pub fn id<O: Op, T: Identity<O>>() -> (r: T)
    ensures
        r == T::identity(),
{
    T::id()
}

/// Every integer type carries its additive and its multiplicative structure
/// side by side: under the additive tag its identity is zero, under the
/// multiplicative tag it is one, whatever else the type is registered for.
pub proof fn lemma_integer_identities_by_tag()
    ensures
        <u8 as Identity<Additive>>::identity() == 0u8,
        <u8 as Identity<Multiplicative>>::identity() == 1u8,
        <u16 as Identity<Additive>>::identity() == 0u16,
        <u16 as Identity<Multiplicative>>::identity() == 1u16,
        <u32 as Identity<Additive>>::identity() == 0u32,
        <u32 as Identity<Multiplicative>>::identity() == 1u32,
        <u64 as Identity<Additive>>::identity() == 0u64,
        <u64 as Identity<Multiplicative>>::identity() == 1u64,
        <i8 as Identity<Additive>>::identity() == 0i8,
        <i8 as Identity<Multiplicative>>::identity() == 1i8,
        <i16 as Identity<Additive>>::identity() == 0i16,
        <i16 as Identity<Multiplicative>>::identity() == 1i16,
        <i32 as Identity<Additive>>::identity() == 0i32,
        <i32 as Identity<Multiplicative>>::identity() == 1i32,
        <i64 as Identity<Additive>>::identity() == 0i64,
        <i64 as Identity<Multiplicative>>::identity() == 1i64,
{
}

impl Identity<Additive> for u8 {
    open spec fn identity() -> u8 {
        0
    }

    fn id() -> (r: u8) {
        0
    }
}

impl Identity<Multiplicative> for u8 {
    open spec fn identity() -> u8 {
        1
    }

    fn id() -> (r: u8) {
        1
    }
}

impl Identity<Additive> for u16 {
    open spec fn identity() -> u16 {
        0
    }

    fn id() -> (r: u16) {
        0
    }
}

impl Identity<Multiplicative> for u16 {
    open spec fn identity() -> u16 {
        1
    }

    fn id() -> (r: u16) {
        1
    }
}

impl Identity<Additive> for u32 {
    open spec fn identity() -> u32 {
        0
    }

    fn id() -> (r: u32) {
        0
    }
}

impl Identity<Multiplicative> for u32 {
    open spec fn identity() -> u32 {
        1
    }

    fn id() -> (r: u32) {
        1
    }
}

impl Identity<Additive> for u64 {
    open spec fn identity() -> u64 {
        0
    }

    fn id() -> (r: u64) {
        0
    }
}

impl Identity<Multiplicative> for u64 {
    open spec fn identity() -> u64 {
        1
    }

    fn id() -> (r: u64) {
        1
    }
}

impl Identity<Additive> for i8 {
    open spec fn identity() -> i8 {
        0
    }

    fn id() -> (r: i8) {
        0
    }
}

impl Identity<Multiplicative> for i8 {
    open spec fn identity() -> i8 {
        1
    }

    fn id() -> (r: i8) {
        1
    }
}

impl Identity<Additive> for i16 {
    open spec fn identity() -> i16 {
        0
    }

    fn id() -> (r: i16) {
        0
    }
}

impl Identity<Multiplicative> for i16 {
    open spec fn identity() -> i16 {
        1
    }

    fn id() -> (r: i16) {
        1
    }
}

impl Identity<Additive> for i32 {
    open spec fn identity() -> i32 {
        0
    }

    fn id() -> (r: i32) {
        0
    }
}

impl Identity<Multiplicative> for i32 {
    open spec fn identity() -> i32 {
        1
    }

    fn id() -> (r: i32) {
        1
    }
}

impl Identity<Additive> for i64 {
    open spec fn identity() -> i64 {
        0
    }

    fn id() -> (r: i64) {
        0
    }
}

impl Identity<Multiplicative> for i64 {
    open spec fn identity() -> i64 {
        1
    }

    fn id() -> (r: i64) {
        1
    }
}

} // verus!
