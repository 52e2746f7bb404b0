use vstd::prelude::*;

verus! {

/// The sum of two machine words under this library's overflow policy:
/// the exact sum when it fits in a `usize`, otherwise the sum reduced
/// modulo `usize::MAX + 1` (it wraps around past the largest word).
pub open spec fn wrapping_sum(a: usize, b: usize) -> int {
    if a + b <= usize::MAX {
        a + b
    } else {
        a + b - (usize::MAX + 1)
    }
}

/// Adds two machine words.
///
/// Overflow policy: wrapping. When `left + right` exceeds `usize::MAX`,
/// the result is the sum modulo `usize::MAX + 1`; so `add(usize::MAX, 1)`
/// is `0`. The function never panics and has no side effects.
pub fn add(left: usize, right: usize) -> (r: usize)
    ensures
        r == wrapping_sum(left, right),
        left + right <= usize::MAX ==> r == left + right,
        left + right > usize::MAX ==> r == left + right - (usize::MAX + 1),
{
    left.wrapping_add(right)
}

/// Whenever the exact sum fits in a word, `add` returns it.
pub proof fn lemma_add_exact(a: usize, b: usize)
    requires
        a + b <= usize::MAX,
    ensures
        wrapping_sum(a, b) == a + b,
{
}

/// `add` is commutative: `add(a, b) == add(b, a)` for every pair of words,
/// overflowing or not.
pub proof fn lemma_add_commutative(a: usize, b: usize)
    ensures
        wrapping_sum(a, b) == wrapping_sum(b, a),
{
}

/// Zero is an identity for `add`: `add(a, 0) == a` and `add(0, a) == a`.
pub proof fn lemma_add_zero_identity(a: usize)
    ensures
        wrapping_sum(a, 0) == a,
        wrapping_sum(0, a) == a,
{
}

/// Past the largest word the sum wraps around: `add(usize::MAX, b)` is
/// `b - 1` for every nonzero `b`, in particular `add(usize::MAX, 1) == 0`.
pub proof fn lemma_add_max_wraps(b: usize)
    requires
        b > 0,
    ensures
        wrapping_sum(usize::MAX as usize, b) == b - 1,
{
}

} // verus!
