//! Trusted contracts for the pseudo-random number generator that picks
//! food positions. The generator's state is opaque here; all the
//! simulation relies on is the documented range of `rand_range`.

use vstd::prelude::*;

use oorandom::Rand32;

verus! {

#[verifier::external_type_specification]
#[verifier::external_body]
pub struct ExRand32(oorandom::Rand32);

/// Relies on oorandom::Rand32::new: builds a generator from a seed and
/// never fails. Nothing is assumed about the state it produces.
pub assume_specification[ oorandom::Rand32::new ](seed: u64) -> oorandom::Rand32;

/// Relies on oorandom::Rand32::rand_range: for a non-empty range it
/// returns a value inside the range (Lemire's bounded-rejection sampling
/// over the generator's 32-bit output) and does not panic.
pub assume_specification[ oorandom::Rand32::rand_range ](
    rng: &mut oorandom::Rand32,
    range: core::ops::Range<u32>,
) -> (r: u32)
    requires
        range.start < range.end,
    ensures
        range.start <= r < range.end,
;

/// One bounded draw from the generator, for a single coordinate.
pub fn rand_position_component(rng: &mut Rand32, bound: u32) -> (r: u32)
    requires
        0 < bound,
    ensures
        r < bound,
{
    rng.rand_range(0..bound)
}

} // verus!
