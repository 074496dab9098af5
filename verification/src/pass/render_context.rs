//! What a frame carries along for its passes.

use vstd::prelude::*;

verus! {

/// Read by every pass while it records. It carries nothing yet.
#[derive(Clone, Copy, Debug, PartialEq, Eq, Structural)]
pub struct RenderContext {}

} // verus!
