//! TextLayoutService — the bridge between semantic text and GPU glyphs.

use vstd::prelude::*;

verus! {

/// Lays out text on the 8px grid (the layout itself works on floating-point
/// positions outside the verified core).
pub struct TextLayoutService {}

impl TextLayoutService {
    pub fn new() -> (s: Self) {
        TextLayoutService {}
    }
}

} // verus!
