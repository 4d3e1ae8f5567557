//! Random sampling, wrapped once for the whole crate.
//!
//! Everything the genetic algorithm draws — genome fields, mutation
//! coins, breeding-pool tickets — goes through `sample_u64`, so the
//! trust boundary with the random-number crate is a single function.

use rand::Rng;
use vstd::prelude::*;

verus! {

/// Relies on rand's `Rng::gen_range` on the thread-local generator: it
/// returns a value of the half-open range `lo..hi` and panics only when
/// the range is empty, which the precondition rules out.  Nothing more
/// is assumed: the draw may differ between calls on equal arguments.
#[verifier::external_body]
pub(crate) fn sample_u64(lo: u64, hi: u64) -> (r: u64)
    requires
        lo < hi,
    ensures
        lo <= r < hi,
{
    rand::thread_rng().gen_range(lo..hi)
}

/// Uniform draw from the half-open signed range `lo..hi`, built on
/// `sample_u64` by shifting the range to start at zero.
pub(crate) fn sample_i64(lo: i64, hi: i64) -> (r: i64)
    requires
        lo < hi,
    ensures
        lo <= r < hi,
{
    let width: u64 = ((hi as i128) - (lo as i128)) as u64;
    let off: u64 = sample_u64(0, width);
    ((lo as i128) + (off as i128)) as i64
}

/// A Bernoulli draw: true with probability `chance` (in `FRAC_SCALE`
/// ticks, clamped to [0, 1]).
pub(crate) fn sample_coin(chance: i64) -> bool {
    let t: u64 = sample_u64(0, crate::fixed::FRAC_SCALE as u64);
    (t as i64) < chance
}

} // verus!
