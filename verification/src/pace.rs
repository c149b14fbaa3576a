//! Frame pacing: given the time one loop iteration has already spent and the
//! target inter-frame interval, compute how long the caller must still block
//! so that playback never runs faster than the source frame rate.
//!
//! Times are carried as whole nanoseconds; the caller measures them with its
//! own clock and performs the actual sleep.

use vstd::prelude::*;

verus! {

/// How long to sleep after a frame whose work took `elapsed_ns`, for a target
/// inter-frame interval of `target_ns`.
pub open spec fn spec_sleep_ns(elapsed_ns: u64, target_ns: u64) -> u64 {
    if elapsed_ns < target_ns {
        (target_ns - elapsed_ns) as u64
    } else {
        0
    }
}

/// Remaining time to block before the next iteration may begin.
///
/// Sleeping this long makes the whole iteration last exactly the target
/// interval when the work finished early, and nothing is slept (and no frame
/// is skipped) when the work ran over.
pub fn sleep_ns(elapsed_ns: u64, target_ns: u64) -> (r: u64)
    ensures
        r == spec_sleep_ns(elapsed_ns, target_ns),
        elapsed_ns < target_ns ==> elapsed_ns + r == target_ns,
        elapsed_ns >= target_ns ==> r == 0,
{
    if elapsed_ns < target_ns {
        target_ns - elapsed_ns
    } else {
        0
    }
}

/// Pacing law: an iteration whose work finished early is padded to at least
/// the target interval, and one that ran late is never padded at all.
pub proof fn lemma_pacing(elapsed_ns: u64, target_ns: u64)
    ensures
        elapsed_ns < target_ns ==> elapsed_ns + spec_sleep_ns(elapsed_ns, target_ns)
            >= target_ns,
        elapsed_ns >= target_ns ==> spec_sleep_ns(elapsed_ns, target_ns) == 0,
{
}

} // verus!
