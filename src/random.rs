use rand::Rng;
use rand::SeedableRng;
use vstd::prelude::*;

verus! {

/// rand's standard seedable generator, carried through as an opaque value.
#[verifier::external_type_specification]
#[verifier::external_body]
pub struct ExStdRng(rand::rngs::StdRng);

/// Relies on rand's `SeedableRng::try_from_os_rng`: a generator seeded from
/// the operating system's entropy, or `None` where the operating system could
/// not provide it. It does not panic.
#[verifier::external_body]
pub(crate) fn entropy_rng() -> Option<rand::rngs::StdRng> {
    rand::rngs::StdRng::try_from_os_rng().ok()
}

/// Relies on rand's `Rng::random_ratio`: `true` with probability
/// `numerator / denominator`, documented to be always `true` when the two are
/// equal and always `false` when `numerator` is 0; it panics when
/// `denominator` is 0 or `numerator > denominator`.
#[verifier::external_body]
pub(crate) fn sample_ratio(rng: &mut rand::rngs::StdRng, numerator: u32, denominator: u32) -> (r:
    bool)
    requires
        0 < denominator,
        numerator <= denominator,
    ensures
        numerator == 0 ==> !r,
        numerator == denominator ==> r,
{
    rng.random_ratio(numerator, denominator)
}

} // verus!
