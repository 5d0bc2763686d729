//! Visible Compiler — the source of truth for each node's code.

use vstd::prelude::*;

verus! {

/// A piece of node source code and its language.
pub struct CodeFragment {
    pub source: String,
    pub language: String,
}

} // verus!
