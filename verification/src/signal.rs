//! The signal by which one worker tells the others to stop.

use std::sync::atomic::AtomicBool;
use std::sync::atomic::Ordering;
use vstd::prelude::*;

verus! {

/// Whether some worker has asked the others to stop. The answer may be
/// stale by the time it is used.
pub fn is_raised(stop: &AtomicBool) -> bool {
    stop.load(Ordering::SeqCst)
}

/// Asks every worker to stop before its next candidate.
pub fn raise(stop: &AtomicBool) {
    stop.store(true, Ordering::SeqCst);
}

} // verus!
