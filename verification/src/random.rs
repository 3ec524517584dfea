//! Random numbers.
use vstd::prelude::*;

verus! {

/// Calls `rand::random` for a `u64`. Trusted: nothing is claimed of the
/// result.
#[verifier::external_body]
pub(crate) fn random_u64() -> (value: u64)
{
    rand::random::<u64>()
}

/// The number below `bound` that the draw `draw` stands for: what is
/// left of it after whole multiples of `bound` are taken away.
pub fn below(draw: u64, bound: u64) -> (value: u64)
    requires
        bound > 0,
    ensures
        value == draw % bound,
        value < bound,
{
    draw % bound
}

/// A random number below `bound`. Which number is drawn is open; `below`
/// says what is made of the draw.
pub fn random_below(bound: u64) -> (value: u64)
    requires
        bound > 0,
    ensures
        value < bound,
{
    below(random_u64(), bound)
}

} // verus!
