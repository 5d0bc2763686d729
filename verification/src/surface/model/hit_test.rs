//! Hit testing against node, port and cable geometry.

use vstd::prelude::*;

verus! {

/// Namespace for geometric hit tests (the tests themselves run on floating-point
/// geometry outside the verified core).
pub struct HitTester;

} // verus!
