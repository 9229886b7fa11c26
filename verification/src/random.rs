use vstd::prelude::*;

verus! {

#[verifier::external_type_specification]
#[verifier::external_body]
pub struct ExThreadRng(rand::rngs::ThreadRng);

/// Relies on rand::thread_rng: hands out the thread-local random number
/// generator, lazily initialized and seeded by the system. Nothing can be
/// promised of it beyond its existence.
#[verifier::external_body]
pub(crate) fn fresh_rng() -> rand::rngs::ThreadRng {
    rand::thread_rng()
}

/// Relies on rand::Rng::gen_ratio: draws a bool that is true with
/// probability `numerator / denominator`. Its documentation and source
/// guarantee the two extremes: a numerator of 0 always draws false, and a
/// numerator equal to the denominator always draws true. It panics when the
/// denominator is 0 or the numerator exceeds it; the precondition rules
/// those inputs out.
#[verifier::external_body]
pub(crate) fn random_ratio(
    rng: &mut rand::rngs::ThreadRng,
    numerator: u32,
    denominator: u32,
) -> (alive: bool)
    requires
        0 < denominator,
        numerator <= denominator,
    ensures
        numerator == 0 ==> !alive,
        numerator == denominator ==> alive,
{
    rand::Rng::gen_ratio(rng, numerator, denominator)
}

} // verus!
