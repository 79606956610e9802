use vstd::prelude::*;
use rand::Rng;

verus! {

/// Relies on rand's `Rng::gen_range` over the thread-local generator: for
/// a non-empty half-open range `lo..hi` it returns a uniform sample in
/// `[lo, hi)` (and panics on an empty range, which the precondition
/// excludes).
#[verifier::external_body]
fn uniform_in(lo: u64, hi: u64) -> (r: u64)
    requires
        lo < hi,
    ensures
        lo <= r < hi,
{
    rand::thread_rng().gen_range(lo..hi)
}

/// A simulated per-cell watch duration for an hours-equivalent target
/// `hours`: a fresh uniform draw from `[18 * hours, 18 * hours + 30)`
/// seconds.
pub fn draw_duration(hours: u32) -> (d: u64)
    ensures
        18 * (hours as u64) <= d < 18 * (hours as u64) + 30,
{
    let lo: u64 = 18 * (hours as u64);
    uniform_in(lo, lo + 30)
}

/// The randomized pause between two exam answer submissions, in seconds:
/// a fresh uniform draw from `[5, 10)`.
pub fn draw_answer_delay() -> (d: u64)
    ensures
        5 <= d < 10,
{
    uniform_in(5, 10)
}

} // verus!
