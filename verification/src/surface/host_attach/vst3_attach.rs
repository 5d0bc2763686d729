//! VST3 window attachment (the bridge to the host's window).

use vstd::prelude::*;

verus! {

/// A marker for the attachment layer.
pub struct Vst3Attachment;

} // verus!
