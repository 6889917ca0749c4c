//! The entities of the world, each with the components it carries.

use vstd::prelude::*;
use crate::kind::kind_of;
use crate::living::components::{AggressionZone, Desire};
use crate::physics::components::{Collider, Physical, SelfPhysical, Transform};
use crate::physics::sprite_change::components::{
    AtlasSprite,
    MultipleMovementState,
    MultipleSided,
    SpriteZone,
};

verus! {

/// One entity: its position and whichever components it carries. Every
/// system works on a list of entities and touches only those that carry
/// the components it asks for.
#[derive(Clone, Copy, Debug, PartialEq, Eq, Structural)]
pub struct Entity {
    pub transform: Transform,
    pub physical: Option<Physical>,
    pub self_physical: Option<SelfPhysical>,
    pub collider: Option<Collider>,
    pub sprite_zone: Option<SpriteZone>,
    pub multiple_sided: Option<MultipleSided>,
    pub movement_state: Option<MultipleMovementState>,
    pub sprite: Option<AtlasSprite>,
    pub desire: Option<Desire>,
    pub aggression_zone: Option<AggressionZone>,
    /// Whether the keyboard steers this entity.
    pub player: bool,
}

impl Entity {
    /// An entity at the given place that carries no component.
    pub open spec fn bare_spec(transform: Transform) -> Entity {
        Entity {
            transform,
            physical: None,
            self_physical: None,
            collider: None,
            sprite_zone: None,
            multiple_sided: None,
            movement_state: None,
            sprite: None,
            desire: None,
            aggression_zone: None,
            player: false,
        }
    }

    /// An entity at the given place that carries no component.
    pub fn bare(transform: Transform) -> (r: Entity)
        ensures
            r == Entity::bare_spec(transform),
    {
        Entity {
            transform,
            physical: None,
            self_physical: None,
            collider: None,
            sprite_zone: None,
            multiple_sided: None,
            movement_state: None,
            sprite: None,
            desire: None,
            aggression_zone: None,
            player: false,
        }
    }
}

/// The motion components and the zones that a level entity with this
/// identifier starts with.
pub fn defaults_for(identifier: &str) -> (r: (Physical, SelfPhysical, Collider, SpriteZone))
    ensures
        r.0 == Physical::for_kind_spec(kind_of(identifier@)),
        r.1 == SelfPhysical::for_kind_spec(kind_of(identifier@)),
        r.2 == Collider::for_kind_spec(kind_of(identifier@)),
        r.3 == SpriteZone::for_kind_spec(kind_of(identifier@)),
{
    (
        Physical::from_identifier(identifier),
        SelfPhysical::from_identifier(identifier),
        Collider::from_identifier(identifier),
        SpriteZone::from_identifier(identifier),
    )
}

} // verus!
