//! Signal overlay status badges.

use vstd::prelude::*;

verus! {

/// The health of a node's signal.
#[derive(Debug, Clone)]
pub enum SignalStatus {
    Normal,
    /// Shown in amber.
    Warning(String),
    /// Shown in red.
    Critical(String),
}

} // verus!
