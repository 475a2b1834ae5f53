//! The random source of the games: `rand`'s small generator behind three calls.
use rand::rngs::OsRng;
use rand::rngs::SmallRng;
use rand::Rng;
use rand::SeedableRng;
use vstd::prelude::*;

verus! {

#[verifier::external_type_specification]
#[verifier::external_body]
pub struct ExSmallRng(SmallRng);

#[verifier::external_type_specification]
#[verifier::external_body]
pub struct ExRandError(rand::Error);

/// Why a random source could not be made.
#[derive(Clone, Copy, Debug, PartialEq, Eq, Structural)]
pub enum SeedError {
    /// The operating system gave no entropy to seed the source with.
    NoEntropy,
}

/// `SmallRng::from_rng` on `OsRng`: a generator seeded by the operating
/// system, or the error with which the operating system refused the seed.
/// Nothing is claimed of either.
#[verifier::external_body]
pub(crate) fn from_os_rng() -> Result<SmallRng, rand::Error> {
    SmallRng::from_rng(OsRng)
}

/// `SmallRng::seed_from_u64`: a generator seeded from `seed`.  Nothing is
/// claimed of it: the stream it gives depends on the platform's word size.
#[verifier::external_body]
pub(crate) fn seed_from_u64(seed: u64) -> SmallRng {
    SmallRng::seed_from_u64(seed)
}

/// `Rng::gen_range` on the inclusive range from `low` to `high`: some value
/// of that range.  The call panics on an empty range, which `requires` leaves
/// out.
#[verifier::external_body]
pub(crate) fn gen_range(rng: &mut SmallRng, low: i64, high: i64) -> (value: i64)
    requires
        low <= high,
    ensures
        low <= value <= high,
{
    rng.gen_range(low..=high)
}

} // verus!
