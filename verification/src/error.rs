//! What the scene refuses.

use vstd::prelude::*;

verus! {

/// A request that the scene rejects at the call boundary.
#[derive(Clone, Copy, Debug, PartialEq, Eq, Structural)]
pub enum SceneError {
    /// A star field was asked for on a canvas without width or without height.
    InvalidDimensions,
    /// The clock was asked about a moment before the animation began.
    InvalidTimestamp,
}

} // verus!
