//! Pacing: the randomized inter-character pause and the fixed warm-up that
//! precedes a job's first character.

use vstd::prelude::*;

use rand::RngExt;

verus! {

/// How long the worker waits before a job's first character, in
/// milliseconds: absorbs the tail of the hotkey's own release event so the
/// injected keystrokes are not conflated with it.
pub const WARMUP_DELAY_MS: u64 = 20;

/// Relies on rand: `rng()` hands back the thread-local generator, and
/// `RngExt::random_range` on the closed range `min..=max` samples uniformly
/// from it, panicking only when the range is empty.
#[verifier::external_body]
fn random_in_range(min: u64, max: u64) -> (r: u64)
    requires
        min <= max,
    ensures
        min <= r <= max,
{
    rand::rng().random_range(min..=max)
}

/// Draw one inter-character pause, in milliseconds, from the closed range
/// `[min_delay, max_delay]`.
pub fn sample_delay(min_delay: u64, max_delay: u64) -> (r: u64)
    requires
        min_delay <= max_delay,
    ensures
        min_delay <= r <= max_delay,
{
    random_in_range(min_delay, max_delay)
}

} // verus!
