//! Flat scene rebuilt from graph snapshots and the view cache.

use vstd::prelude::*;

verus! {

/// What an overlay shows.
pub enum OverlayContent {
    Tooltip(String),
    Provenance(Vec<String>),
    Warning(String),
}

} // verus!
