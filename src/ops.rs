use vstd::prelude::*;

verus! {

/// A zero-sized marker naming the operation that a capability refers to.
pub trait Op: Copy {
    /// The single value of the marker type.
    fn operator_token() -> Self;
}

/// Marker for the additive role of a type.
#[derive(Clone, Copy, Debug, PartialEq, Eq, Hash)]
pub struct Additive;

/// Marker for the multiplicative role of a type.
#[derive(Clone, Copy, Debug, PartialEq, Eq, Hash)]
pub struct Multiplicative;

impl Op for Additive {
    fn operator_token() -> Self {
        Additive
    }
}

impl Op for Multiplicative {
    fn operator_token() -> Self {
        Multiplicative
    }
}

} // verus!
