//! The components that motion and collision work on.

use vstd::prelude::*;
use crate::fixed::{Fixed, ONE};
use crate::kind::EntityKind;
use crate::vector::{Vec2, Vec3};

verus! {

/// Eight units below the entity's position.
pub const LOWERED: Fixed = -8_000_000;

/// Six units to the left of the entity's position.
pub const SHIFTED_LEFT: Fixed = -6_000_000;

/// Where an entity is. `translation.z` is its drawing depth.
#[derive(Clone, Copy, Debug, PartialEq, Eq, Structural)]
pub struct Transform {
    pub translation: Vec3,
}

/// Motion imposed from outside: a push along `direction` whose strength,
/// `acceleration`, falls by `weight` with every step until it reaches zero.
#[derive(Clone, Copy, Debug, PartialEq, Eq, Structural)]
pub struct Physical {
    pub direction: Vec3,
    pub weight: Fixed,
    pub acceleration: Fixed,
}

/// A rectangle given by its size and by the offset of its corner from the
/// position of the entity that carries it.
#[derive(Clone, Copy, Debug, PartialEq, Eq, Structural)]
pub struct TransformZone {
    pub size: Vec2,
    pub offset: Vec2,
}

/// The rectangle with which an entity blocks the movement of others.
#[derive(Clone, Copy, Debug, PartialEq, Eq, Structural)]
pub struct Collider(pub TransformZone);

/// Motion that an actor wills for itself.
#[derive(Clone, Copy, Debug, PartialEq, Eq, Structural)]
pub struct SelfPhysical {
    pub direction: Vec3,
    pub speed: Fixed,
    pub multiplier: Fixed,
}

/// Both motion components, as every person carries them.
#[derive(Clone, Copy, Debug, PartialEq, Eq, Structural)]
pub struct SelfPhysicalBundle {
    pub physical: Physical,
    pub self_physical: SelfPhysical,
}

impl Transform {
    /// The transform of an entity at the origin with depth zero.
    pub open spec fn identity_spec() -> Transform {
        Transform { translation: Vec3::zero_spec() }
    }

    /// The transform of an entity at the origin with depth zero.
    pub fn identity() -> (r: Transform)
        ensures
            r == Transform::identity_spec(),
    {
        Transform { translation: Vec3::zero() }
    }

    /// The transform of an entity at the given position.
    pub fn from_xyz(x: Fixed, y: Fixed, z: Fixed) -> (r: Transform)
        ensures
            r == (Transform { translation: Vec3 { x, y, z } }),
    {
        Transform { translation: Vec3 { x, y, z } }
    }
}

impl Physical {
    /// A push never has a negative strength.
    pub open spec fn wf(self) -> bool {
        self.acceleration >= 0
    }

    /// No push at all, and no weight.
    pub open spec fn default_spec() -> Physical {
        Physical { direction: Vec3::zero_spec(), weight: 0, acceleration: 0 }
    }

    /// The weight that each kind of entity has: 2.5 for players and elves,
    /// 1 for goblins, none for the rest.
    pub open spec fn weight_of(kind: EntityKind) -> Fixed {
        match kind {
            EntityKind::Player | EntityKind::Elf => 2_500_000,
            EntityKind::Goblin => 1_000_000,
            _ => 0,
        }
    }

    /// The push state that an entity of the given kind starts with.
    pub open spec fn for_kind_spec(kind: EntityKind) -> Physical {
        Physical { weight: Physical::weight_of(kind), ..Physical::default_spec() }
    }

    /// The push state that an entity of the given kind starts with.
    pub fn for_kind(kind: EntityKind) -> (r: Physical)
        ensures
            r == Physical::for_kind_spec(kind),
            r.wf(),
    {
        let weight: Fixed = match kind {
            EntityKind::Player | EntityKind::Elf => 2_500_000,
            EntityKind::Goblin => 1_000_000,
            _ => 0,
        };
        Physical { direction: Vec3::zero(), weight, acceleration: 0 }
    }

    /// The push state that a level entity with this identifier starts with.
    pub fn from_identifier(identifier: &str) -> (r: Physical)
        ensures
            r == Physical::for_kind_spec(crate::kind::kind_of(identifier@)),
    {
        Physical::for_kind(EntityKind::from_identifier(identifier))
    }
}

impl Default for Physical {
    fn default() -> (r: Physical)
        ensures
            r == Physical::default_spec(),
    {
        Physical { direction: Vec3::zero(), weight: 0, acceleration: 0 }
    }
}

impl TransformZone {
    /// The zone with the given size and offset.
    pub fn new(size: Vec2, offset: Vec2) -> (r: TransformZone)
        ensures
            r == (TransformZone { size, offset }),
    {
        TransformZone { size, offset }
    }

    /// A zone without extent at the entity's position.
    pub open spec fn default_spec() -> TransformZone {
        TransformZone { size: Vec2::zero_spec(), offset: Vec2::zero_spec() }
    }
}

impl Default for TransformZone {
    fn default() -> (r: TransformZone)
        ensures
            r == TransformZone::default_spec(),
    {
        TransformZone { size: Vec2::zero(), offset: Vec2::zero() }
    }
}

impl Collider {
    /// Sixteen wide and ten high, at the entity's position.
    pub open spec fn default_spec() -> Collider {
        Collider(
            TransformZone { size: Vec2 { x: 16_000_000, y: 10_000_000 }, offset: Vec2::zero_spec() },
        )
    }

    /// The collider of each kind of entity.
    pub open spec fn for_kind_spec(kind: EntityKind) -> Collider {
        match kind {
            EntityKind::Player | EntityKind::Elf => Collider(
                TransformZone {
                    size: Vec2 { x: 16_000_000, y: 4_500_000 },
                    offset: Vec2 { x: 0, y: LOWERED },
                },
            ),
            EntityKind::Goblin => Collider(
                TransformZone {
                    size: Vec2 { x: 16_000_000, y: 2_250_000 },
                    offset: Vec2 { x: 0, y: 0 },
                },
            ),
            EntityKind::Rock => Collider(
                TransformZone {
                    size: Vec2 { x: 28_000_000, y: 20_000_000 },
                    offset: Vec2 { x: SHIFTED_LEFT, y: LOWERED },
                },
            ),
            EntityKind::Other => Collider::default_spec(),
        }
    }

    /// The collider of each kind of entity.
    pub fn for_kind(kind: EntityKind) -> (r: Collider)
        ensures
            r == Collider::for_kind_spec(kind),
    {
        match kind {
            EntityKind::Player | EntityKind::Elf => Collider(
                TransformZone {
                    size: Vec2 { x: 16_000_000, y: 4_500_000 },
                    offset: Vec2 { x: 0, y: LOWERED },
                },
            ),
            EntityKind::Goblin => Collider(
                TransformZone {
                    size: Vec2 { x: 16_000_000, y: 2_250_000 },
                    offset: Vec2 { x: 0, y: 0 },
                },
            ),
            EntityKind::Rock => Collider(
                TransformZone {
                    size: Vec2 { x: 28_000_000, y: 20_000_000 },
                    offset: Vec2 { x: SHIFTED_LEFT, y: LOWERED },
                },
            ),
            EntityKind::Other => Collider(
                TransformZone { size: Vec2 { x: 16_000_000, y: 10_000_000 }, offset: Vec2::zero() },
            ),
        }
    }

    /// The collider of a level entity with this identifier.
    pub fn from_identifier(identifier: &str) -> (r: Collider)
        ensures
            r == Collider::for_kind_spec(crate::kind::kind_of(identifier@)),
    {
        Collider::for_kind(EntityKind::from_identifier(identifier))
    }
}

impl Default for Collider {
    fn default() -> (r: Collider)
        ensures
            r == Collider::default_spec(),
    {
        Collider::for_kind(EntityKind::Other)
    }
}

impl SelfPhysical {
    /// At rest, with speed one and no sprint.
    pub open spec fn default_spec() -> SelfPhysical {
        SelfPhysical { direction: Vec3::zero_spec(), speed: ONE, multiplier: ONE }
    }

    /// The walking speed of each kind of entity: 50 for players and elves,
    /// 75 for goblins, 1 for the rest.
    pub open spec fn speed_of(kind: EntityKind) -> Fixed {
        match kind {
            EntityKind::Player | EntityKind::Elf => 50_000_000,
            EntityKind::Goblin => 75_000_000,
            _ => ONE,
        }
    }

    /// The willed motion that an entity of the given kind starts with.
    pub open spec fn for_kind_spec(kind: EntityKind) -> SelfPhysical {
        SelfPhysical { speed: SelfPhysical::speed_of(kind), ..SelfPhysical::default_spec() }
    }

    /// The willed motion that an entity of the given kind starts with.
    pub fn for_kind(kind: EntityKind) -> (r: SelfPhysical)
        ensures
            r == SelfPhysical::for_kind_spec(kind),
    {
        let speed: Fixed = match kind {
            EntityKind::Player | EntityKind::Elf => 50_000_000,
            EntityKind::Goblin => 75_000_000,
            _ => ONE,
        };
        SelfPhysical { direction: Vec3::zero(), speed, multiplier: ONE }
    }

    /// The willed motion that a level entity with this identifier starts
    /// with.
    pub fn from_identifier(identifier: &str) -> (r: SelfPhysical)
        ensures
            r == SelfPhysical::for_kind_spec(crate::kind::kind_of(identifier@)),
    {
        SelfPhysical::for_kind(EntityKind::from_identifier(identifier))
    }
}

impl Default for SelfPhysical {
    fn default() -> (r: SelfPhysical)
        ensures
            r == SelfPhysical::default_spec(),
    {
        SelfPhysical { direction: Vec3::zero(), speed: ONE, multiplier: ONE }
    }
}

impl SelfPhysicalBundle {
    /// Both motion components for a level entity with this identifier.
    pub fn from_identifier(identifier: &str) -> (r: SelfPhysicalBundle)
        ensures
            r.physical == Physical::for_kind_spec(crate::kind::kind_of(identifier@)),
            r.self_physical == SelfPhysical::for_kind_spec(crate::kind::kind_of(identifier@)),
    {
        SelfPhysicalBundle {
            physical: Physical::from_identifier(identifier),
            self_physical: SelfPhysical::from_identifier(identifier),
        }
    }
}

impl Default for SelfPhysicalBundle {
    fn default() -> (r: SelfPhysicalBundle)
        ensures
            r.physical == Physical::default_spec(),
            r.self_physical == SelfPhysical::default_spec(),
    {
        SelfPhysicalBundle {
            physical: Physical { direction: Vec3::zero(), weight: 0, acceleration: 0 },
            self_physical: SelfPhysical { direction: Vec3::zero(), speed: ONE, multiplier: ONE },
        }
    }
}

} // verus!
