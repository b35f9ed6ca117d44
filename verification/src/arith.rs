//! The arithmetic helpers exposed across the foreign-call boundary.
use vstd::prelude::*;

verus! {

/// Returns `a * b` with wraparound on overflow, the native semantics of the
/// boundary function.
pub fn multiply_int(a: i64, b: i64) -> (r: i64)
    ensures
        r == vstd::wrapping::i64_specs::wrapping_mul(a, b),
{
    a.wrapping_mul(b)
}

/// Multiplying by zero on the left yields zero, whatever the other factor.
pub proof fn lemma_multiply_int_zero(b: i64)
    ensures
        vstd::wrapping::i64_specs::wrapping_mul(0, b) == 0,
{
}

} // verus!
