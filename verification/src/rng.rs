//! The game's random-number source: `rand::rngs::StdRng`, seeded once per
//! session.  Verification assumes nothing about the values it produces
//! beyond the range each draw is documented to stay in.

use rand::Rng;
use rand::SeedableRng;
use vstd::prelude::*;

verus! {

/// `rand::rngs::StdRng` declared for verification; a value of it is opaque.
#[verifier::external_type_specification]
#[verifier::external_body]
pub struct ExStdRng(rand::rngs::StdRng);

/// Relies on rand::SeedableRng::seed_from_u64: builds a generator from a
/// 64-bit seed.  Nothing is assumed of the stream it will produce.
#[verifier::external_body]
pub(crate) fn seed_rng(seed: u64) -> rand::rngs::StdRng {
    rand::rngs::StdRng::seed_from_u64(seed)
}

/// Relies on rand::Rng::gen_range over `0..max`: returns a sample in
/// `[0, max)`; it panics only on an empty range, which the precondition
/// rules out.
#[verifier::external_body]
pub(crate) fn rand_below(rng: &mut rand::rngs::StdRng, max: i32) -> (r: i32)
    requires
        max > 0,
    ensures
        0 <= r < max,
{
    rng.gen_range(0..max)
}

} // verus!
