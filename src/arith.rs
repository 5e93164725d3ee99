use vstd::prelude::*;
use vstd::arithmetic::div_mod::{
    lemma_mod_sub_multiples_vanish,
    lemma_mod_twice,
    lemma_mul_mod_noop_left,
    lemma_mul_mod_noop_right,
};
use vstd::arithmetic::mul::lemma_mul_is_associative;

verus! {

/// Multiplication modulo `m` is associative.
pub proof fn lemma_mul_mod_associative(a: int, b: int, c: int, m: int)
    requires
        m > 0,
    ensures
        ((a * b) % m) * c % m == a * ((b * c) % m) % m,
{
    lemma_mul_mod_noop_left(a * b, c, m);
    lemma_mul_mod_noop_right(a, b * c, m);
    lemma_mul_is_associative(a, b, c);
}

/// The residue of `x`, and that residue shifted down by `m`, are both
/// congruent to `x` modulo `m`.
pub proof fn lemma_residue_congruent(x: int, m: int)
    requires
        m > 0,
    ensures
        (x % m) % m == x % m,
        (x % m - m) % m == x % m,
{
    lemma_mod_twice(x, m);
    lemma_mod_sub_multiples_vanish(x % m, m);
}

/// Multiplication is associative modulo `m` also when the inner products are
/// replaced by values congruent to them.
pub proof fn lemma_mul_mod_congruent_associative(a: int, b: int, c: int, x: int, y: int, m: int)
    requires
        m > 0,
        x % m == (a * b) % m,
        y % m == (b * c) % m,
    ensures
        (x * c) % m == (a * y) % m,
{
    lemma_mul_mod_noop_left(x, c, m);
    lemma_mul_mod_noop_left(a * b, c, m);
    lemma_mul_mod_noop_right(a, y, m);
    lemma_mul_mod_noop_right(a, b * c, m);
    lemma_mul_is_associative(a, b, c);
}

} // verus!
