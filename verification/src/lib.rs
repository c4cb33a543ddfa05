//! Wrapping addition on the machine's unsigned word.
//!
//! The library offers one operation, `add_from_rust`, which returns the sum
//! of two `usize` values. On overflow the result wraps: it is the
//! mathematical sum reduced modulo one more than `usize::MAX`, which is
//! 2 to the power of the word width. The operation is pure, total, and never
//! panics.

use vstd::arithmetic::div_mod::{lemma_mod_sub_multiples_vanish, lemma_small_mod};
use vstd::prelude::*;

verus! {

/// The mathematical value of the wrapping sum of `a` and `b`: the exact sum
/// where it fits the word, and the sum reduced by one more than `usize::MAX`
/// where it does not.
pub open spec fn sum_wrapped(a: usize, b: usize) -> int {
    if a + b <= usize::MAX {
        a + b
    } else {
        a + b - (usize::MAX + 1)
    }
}

/// Returns the sum of `left` and `right`, wrapping modulo 2 to the power of
/// the word width on overflow; where the exact sum is representable, it is
/// returned unchanged.
pub fn add_from_rust(left: usize, right: usize) -> (r: usize)
    ensures
        r == sum_wrapped(left, right),
        left + right <= usize::MAX ==> r == left + right,
{
    left.wrapping_add(right)
}

/// The wrapping sum is the mathematical sum taken modulo 2 to the power of
/// the word width, the modulus being one more than `usize::MAX`.
pub proof fn lemma_sum_wrapped_is_mod(a: usize, b: usize)
    ensures
        sum_wrapped(a, b) == (a + b) % (usize::MAX + 1),
{
    let m = usize::MAX + 1;
    if a + b <= usize::MAX {
        lemma_small_mod((a + b) as nat, m as nat);
    } else {
        lemma_mod_sub_multiples_vanish(a + b, m);
        lemma_small_mod((a + b - m) as nat, m as nat);
    }
}

/// Commutativity: the wrapping sum does not depend on the order of its
/// operands.
pub proof fn lemma_sum_wrapped_commutes(a: usize, b: usize)
    ensures
        sum_wrapped(a, b) == sum_wrapped(b, a),
{
}

/// Identity: adding zero leaves the other operand unchanged.
pub proof fn lemma_sum_wrapped_zero_identity(a: usize)
    ensures
        sum_wrapped(a, 0) == a,
{
}

} // verus!
