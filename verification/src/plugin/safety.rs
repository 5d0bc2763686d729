//! Reality safety layer — protects the real-time thread.

use vstd::prelude::*;

verus! {

/// Real-time thread safety measures.
pub struct Safety;

impl Safety {
    /// Hook for detecting allocation, locking or I/O on the real-time thread
    /// (no check is made yet).
    pub fn assert_rt_safe() {
    }
}

} // verus!
