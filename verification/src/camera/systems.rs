//! Keeping the camera over its target.

use vstd::prelude::*;
use crate::physics::components::Transform;
use crate::vector::Vec3;

verus! {

/// The camera moved over the target in the plane, at its own depth.
pub open spec fn followed(camera: Transform, target: Transform) -> Transform {
    Transform {
        translation: Vec3 {
            x: target.translation.x,
            y: target.translation.y,
            z: camera.translation.z,
        },
    }
}

/// Moves the camera over its target. `targets` holds the targets that have
/// moved; the camera follows where there is exactly one, and then there
/// must be exactly one camera.
pub fn camera_follow(targets: &Vec<Transform>, cameras: &mut Vec<Transform>)
    requires
        targets@.len() == 1 ==> old(cameras)@.len() == 1,
    ensures
        targets@.len() == 1 ==> final(cameras)@ == seq![followed(old(cameras)@[0], targets@[0])],
        targets@.len() != 1 ==> final(cameras)@ == old(cameras)@,
{
    if targets.len() == 1 {
        let target: Transform = targets[0];
        let mut camera: Transform = cameras[0];
        camera.translation.x = target.translation.x;
        camera.translation.y = target.translation.y;
        cameras.set(0, camera);
        assert(cameras@ =~= seq![followed(old(cameras)@[0], targets@[0])]);
    }
}

} // verus!
