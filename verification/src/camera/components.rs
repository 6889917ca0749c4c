//! The marker of the entity that the camera follows.

use vstd::prelude::*;

verus! {

/// Marks the entity that the camera follows.
#[derive(Clone, Copy, Debug, PartialEq, Eq, Structural)]
pub struct CameraTarget;

impl Default for CameraTarget {
    fn default() -> (r: CameraTarget)
        ensures
            r == CameraTarget,
    {
        CameraTarget
    }
}

} // verus!
