use vstd::prelude::*;
use rand::Rng;
use rand::SeedableRng;

verus! {

/// The simulation's pseudo-random stream: a seeded xorshift generator of
/// the `rand_xorshift` crate, opaque to the verifier and specified only
/// through the two wrappers below.
#[verifier::external_type_specification]
#[verifier::external_body]
pub struct ExXorShiftRng(rand_xorshift::XorShiftRng);

/// Relies on rand_xorshift::XorShiftRng::from_seed, which builds a
/// generator from any 16-byte seed and never fails.
#[verifier::external_body]
pub fn rng_from_seed(seed: [u8; 16]) -> (r: rand_xorshift::XorShiftRng) {
    rand_xorshift::XorShiftRng::from_seed(seed)
}

/// Relies on rand::Rng::gen_range over a half-open u32 range, which
/// panics only on an empty range and returns a value inside the range.
#[verifier::external_body]
pub(crate) fn rng_range(rng: &mut rand_xorshift::XorShiftRng, lo: u32, hi: u32) -> (r: u32)
    requires
        lo < hi,
    ensures
        lo <= r < hi,
{
    rng.gen_range(lo..hi)
}

/// A uniform sample from a half-open signed range.
pub fn sample_range(rng: &mut rand_xorshift::XorShiftRng, lo: i64, hi: i64) -> (r: i64)
    requires
        lo < hi,
        hi - lo <= u32::MAX,
    ensures
        lo <= r < hi,
{
    let span: u32 = (hi - lo) as u32;
    let u: u32 = rng_range(rng, 0, span);
    lo + (u as i64)
}

/// A rough bell-shaped sample: the sum of three uniform draws, centred on
/// `mean` and contained in `mean` plus or minus three `sigma`.
pub fn sample_normal(rng: &mut rand_xorshift::XorShiftRng, mean: i64, sigma: i64) -> (r: i64)
    requires
        1 <= sigma <= 500_000_000,
        -1_000_000_000_000 <= mean <= 1_000_000_000_000,
    ensures
        mean - 3 * sigma <= r < mean + 3 * sigma,
{
    let u1: i64 = sample_range(rng, 0, 2 * sigma);
    let u2: i64 = sample_range(rng, 0, 2 * sigma);
    let u3: i64 = sample_range(rng, 0, 2 * sigma);
    mean - 3 * sigma + u1 + u2 + u3
}

/// A Bernoulli draw that comes out true once in `n` times on average.
pub fn sample_one_in(rng: &mut rand_xorshift::XorShiftRng, n: u32) -> (r: bool)
    requires
        1 <= n,
    ensures
        n == 1 ==> r,
{
    let u: u32 = rng_range(rng, 0, n);
    u == 0
}

} // verus!
