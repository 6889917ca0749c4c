//! From held keys to the player's own motion.

use vstd::prelude::*;
use crate::fixed::{Fixed, ONE};
use crate::physics::components::SelfPhysical;
use crate::vector::Vec3;
use crate::world::Entity;

verus! {

/// The multiplier of a sprinting player: 1.8.
pub const SPRINT_MULTIPLIER: Fixed = 1_800_000;

/// One unit in the negative direction.
pub const MINUS_ONE: Fixed = -1_000_000;

/// The keys that steer the player, each held or not.
#[derive(Clone, Copy, Debug, PartialEq, Eq, Structural)]
pub struct Keys {
    pub up: bool,
    pub down: bool,
    pub left: bool,
    pub right: bool,
    pub sprint: bool,
}

/// The part of the direction along one axis: one unit towards the held
/// key, nothing where both or neither are held.
pub open spec fn axis_spec(forward: bool, backward: bool) -> Fixed {
    if forward && !backward {
        ONE
    } else if backward && !forward {
        MINUS_ONE
    } else {
        0
    }
}

/// The direction that the held keys ask for.
pub open spec fn input_direction(keys: Keys) -> Vec3 {
    Vec3 { x: axis_spec(keys.right, keys.left), y: axis_spec(keys.up, keys.down), z: 0 }
}

/// The multiplier that the held keys ask for.
pub open spec fn input_multiplier(keys: Keys) -> Fixed {
    if keys.sprint {
        SPRINT_MULTIPLIER
    } else {
        ONE
    }
}

/// An entity with the wishes of the keyboard written into its own motion.
/// One that is not the player, or has no will of its own, stays as it is.
pub open spec fn with_input(e: Entity, keys: Keys) -> Entity {
    match e.self_physical {
        Some(sp) => if e.player {
            Entity {
                self_physical: Some(
                    SelfPhysical {
                        direction: input_direction(keys),
                        multiplier: input_multiplier(keys),
                        ..sp
                    },
                ),
                ..e
            }
        } else {
            e
        },
        None => e,
    }
}

fn axis(forward: bool, backward: bool) -> (r: Fixed)
    ensures
        r == axis_spec(forward, backward),
{
    if forward && !backward {
        ONE
    } else if backward && !forward {
        MINUS_ONE
    } else {
        0
    }
}

/// Writes the wishes of the keyboard into the own motion of the player.
pub fn read_input(keys: &Keys, entities: &mut Vec<Entity>)
    ensures
        final(entities)@.len() == old(entities)@.len(),
        forall|i: int|
            0 <= i < old(entities)@.len() ==> #[trigger] final(entities)@[i] == with_input(
                old(entities)@[i],
                *keys,
            ),
{
    let direction = Vec3 { x: axis(keys.right, keys.left), y: axis(keys.up, keys.down), z: 0 };
    let multiplier: Fixed = if keys.sprint {
        SPRINT_MULTIPLIER
    } else {
        ONE
    };
    let n: usize = entities.len();
    let mut i: usize = 0;
    while i < n
        invariant
            entities@.len() == n,
            n == old(entities)@.len(),
            i <= n,
            direction == input_direction(*keys),
            multiplier == input_multiplier(*keys),
            forall|k: int| 0 <= k < i ==> #[trigger] entities@[k] == with_input(old(entities)@[k], *keys),
            forall|k: int| i <= k < n ==> #[trigger] entities@[k] == old(entities)@[k],
        decreases n - i,
    {
        let mut e: Entity = entities[i];
        if e.player {
            if let Some(sp) = e.self_physical {
                let mut self_physical: SelfPhysical = sp;
                self_physical.direction = direction;
                self_physical.multiplier = multiplier;
                e.self_physical = Some(self_physical);
                entities.set(i, e);
            }
        }
        i += 1;
    }
}

} // verus!
