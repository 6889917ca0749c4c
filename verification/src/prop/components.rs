//! The components of props.

use vstd::prelude::*;
use crate::kind::kind_of;
use crate::physics::components::{Collider, Transform};
use crate::physics::sprite_change::components::{AtlasSprite, SpriteZone};
use crate::world::Entity;

verus! {

/// Marks an entity that is a prop.
#[derive(Clone, Copy, Debug, PartialEq, Eq, Structural)]
pub struct Prop;

/// What every prop carries: a collider, a sprite zone and a sprite, but
/// nothing that could move it.
#[derive(Clone, Copy, Debug, PartialEq, Eq, Structural)]
pub struct PropBundle {
    pub prop: Prop,
    pub collider: Collider,
    pub sprite_zone: SpriteZone,
    pub sprite: AtlasSprite,
}

/// A tree stump.
#[derive(Clone, Copy, Debug, PartialEq, Eq, Structural)]
pub struct TreeStumpBundle {
    pub prop_bundle: PropBundle,
}

/// A rock.
#[derive(Clone, Copy, Debug, PartialEq, Eq, Structural)]
pub struct RockBundle {
    pub prop_bundle: PropBundle,
}

impl PropBundle {
    /// The components of a prop that a level places under this identifier.
    pub open spec fn from_identifier_spec(identifier: Seq<char>) -> PropBundle {
        PropBundle {
            prop: Prop,
            collider: Collider::for_kind_spec(kind_of(identifier)),
            sprite_zone: SpriteZone::for_kind_spec(kind_of(identifier)),
            sprite: AtlasSprite { index: 0, flip_x: false },
        }
    }

    /// The prop as an entity at the given place.
    pub open spec fn spawn_spec(self, transform: Transform) -> Entity {
        Entity {
            collider: Some(self.collider),
            sprite_zone: Some(self.sprite_zone),
            sprite: Some(self.sprite),
            ..Entity::bare_spec(transform)
        }
    }

    /// The components of a prop that a level places under this identifier.
    pub fn from_identifier(identifier: &str) -> (r: PropBundle)
        ensures
            r == PropBundle::from_identifier_spec(identifier@),
    {
        PropBundle {
            prop: Prop,
            collider: Collider::from_identifier(identifier),
            sprite_zone: SpriteZone::from_identifier(identifier),
            sprite: AtlasSprite { index: 0, flip_x: false },
        }
    }

    /// Puts the prop into the world at the given place.
    pub fn spawn(&self, transform: Transform) -> (r: Entity)
        ensures
            r == self.spawn_spec(transform),
    {
        let mut e = Entity::bare(transform);
        e.collider = Some(self.collider);
        e.sprite_zone = Some(self.sprite_zone);
        e.sprite = Some(self.sprite);
        e
    }
}

impl TreeStumpBundle {
    /// The components of a tree stump that a level places under this
    /// identifier.
    pub fn from_identifier(identifier: &str) -> (r: TreeStumpBundle)
        ensures
            r.prop_bundle == PropBundle::from_identifier_spec(identifier@),
    {
        TreeStumpBundle { prop_bundle: PropBundle::from_identifier(identifier) }
    }
}

impl RockBundle {
    /// The components of a rock that a level places under this identifier.
    pub fn from_identifier(identifier: &str) -> (r: RockBundle)
        ensures
            r.prop_bundle == PropBundle::from_identifier_spec(identifier@),
    {
        RockBundle { prop_bundle: PropBundle::from_identifier(identifier) }
    }
}

} // verus!
