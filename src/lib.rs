//! Algebraic capabilities for numeric types: identity elements, semigroups
//! and monoids, each parameterised by an operation tag so that one type can
//! carry an additive and a multiplicative structure side by side.

pub mod ops;
pub mod identity;
pub mod semigroup;
pub mod monoid;
mod arith;

pub use ops::{Op, Additive, Multiplicative};
pub use identity::{Identity, id};
pub use semigroup::{SemigroupApprox, Semigroup};
pub use monoid::{MonoidApprox, Monoid};
