//! Flat scene graph overlays.

pub mod flat_scene;

use vstd::prelude::*;

verus! {

/// What an overlay shows.
pub enum OverlayContent {
    Tooltip(String),
    Provenance(Vec<String>),
    Warning(String),
}

} // verus!
