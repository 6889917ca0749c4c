//! The components of living entities.

use vstd::prelude::*;
use crate::fixed::{Fixed, fx_add, fx_add_spec, fx_sub, fx_sub_spec};
use crate::kind::{EntityKind, kind_of};
use crate::camera::components::CameraTarget;
use crate::physics::components::{Collider, Physical, SelfPhysical, SelfPhysicalBundle, Transform, TransformZone};
use crate::physics::sprite_change::components::{
    AtlasSprite,
    MultipleMovementState,
    MultipleSided,
    Side,
    SpriteZone,
};
use crate::simple::components::Name;
use crate::world::Entity;
use crate::timer::FrameTimer;
use crate::vector::Vec2;

verus! {

/// Marks an entity that is alive.
#[derive(Clone, Copy, Debug, PartialEq, Eq, Structural)]
pub struct Living;

/// Marks an entity that is a person.
#[derive(Clone, Copy, Debug, PartialEq, Eq, Structural)]
pub struct Person;

/// Marks a person that wanders on its own.
#[derive(Clone, Copy, Debug, PartialEq, Eq, Structural)]
pub struct Mob;

/// Marks the person that the keyboard steers.
#[derive(Clone, Copy, Debug, PartialEq, Eq, Structural)]
pub struct Player;

/// The square around a mob within which it notices others.
#[derive(Clone, Copy, Debug, PartialEq, Eq, Structural)]
pub struct AggressionZone(pub TransformZone);

/// Whom an entity sides with, whom it fights and which groups it is in.
#[derive(Clone, Debug)]
pub struct Relationships {
    pub alliances: Vec<String>,
    pub enemies: Vec<String>,
    pub groups: Vec<String>,
}

/// What a mob is about to do.
#[derive(Clone, Copy, Debug, PartialEq, Eq, Structural)]
pub enum Intention {
    WalkTo,
    Idle,
    Attack,
}

/// What a mob wants: an intention, the place it wants to reach, the entity
/// it is after, and the timer that makes it choose anew.
#[derive(Clone, Copy, Debug, PartialEq, Eq, Structural)]
pub struct Desire {
    pub update_timer: FrameTimer,
    pub intention: Intention,
    pub position: Vec2,
    /// The place of the target in the list of entities.
    pub target: Option<usize>,
}

/// The square zone of the given radius, centred on the entity:
/// twice the radius wide and high, offset by the radius to the left and
/// downward.
pub open spec fn generate_radius_spec(radius: Fixed) -> AggressionZone {
    AggressionZone(
        TransformZone {
            size: Vec2 {
                x: fx_add_spec(radius as int, radius as int) as i64,
                y: fx_add_spec(radius as int, radius as int) as i64,
            },
            offset: Vec2 {
                x: fx_sub_spec(0, radius as int) as i64,
                y: fx_sub_spec(0, radius as int) as i64,
            },
        },
    )
}

/// The square zone of the given radius, centred on the entity.
pub fn generate_radius(radius: Fixed) -> (r: AggressionZone)
    ensures
        r == generate_radius_spec(radius),
{
    let side: Fixed = fx_add(radius, radius);
    let back: Fixed = fx_sub(0, radius);
    AggressionZone(
        TransformZone { size: Vec2 { x: side, y: side }, offset: Vec2 { x: back, y: back } },
    )
}

impl AggressionZone {
    /// The radius within which each kind of entity notices others: 75 for
    /// players and elves, 100 for goblins, 50 for the rest.
    pub open spec fn radius_of(kind: EntityKind) -> Fixed {
        match kind {
            EntityKind::Player | EntityKind::Elf => 75_000_000,
            EntityKind::Goblin => 100_000_000,
            _ => 50_000_000,
        }
    }

    /// The aggression zone of each kind of entity.
    pub fn for_kind(kind: EntityKind) -> (r: AggressionZone)
        ensures
            r == generate_radius_spec(AggressionZone::radius_of(kind)),
    {
        match kind {
            EntityKind::Player | EntityKind::Elf => generate_radius(75_000_000),
            EntityKind::Goblin => generate_radius(100_000_000),
            _ => generate_radius(50_000_000),
        }
    }

    /// The aggression zone of a level entity with this identifier.
    pub fn from_identifier(identifier: &str) -> (r: AggressionZone)
        ensures
            r == generate_radius_spec(AggressionZone::radius_of(kind_of(identifier@))),
    {
        AggressionZone::for_kind(EntityKind::from_identifier(identifier))
    }
}

impl Default for AggressionZone {
    fn default() -> (r: AggressionZone)
        ensures
            r == AggressionZone(TransformZone::default_spec()),
    {
        AggressionZone(TransformZone { size: Vec2::zero(), offset: Vec2::zero() })
    }
}

impl Relationships {
    /// Whether all three lists are empty.
    pub open spec fn is_empty(self) -> bool {
        self.alliances@.len() == 0 && self.enemies@.len() == 0 && self.groups@.len() == 0
    }

    /// No alliances, no enemies, no groups.
    pub fn new() -> (r: Relationships)
        ensures
            r.is_empty(),
    {
        Relationships { alliances: Vec::new(), enemies: Vec::new(), groups: Vec::new() }
    }

    /// Whether these are the relationships that an entity of this kind
    /// starts with: those of the elves for players and elves, those of the
    /// goblins for goblins, none for the rest.
    pub open spec fn handed_out(
        self,
        kind: EntityKind,
        elven: Relationships,
        goblin: Relationships,
    ) -> bool {
        match kind {
            EntityKind::Player | EntityKind::Elf => self == elven,
            EntityKind::Goblin => self == goblin,
            _ => self.is_empty(),
        }
    }

    /// The relationships that an entity of this kind starts with. `elven`
    /// and `goblin` are the relationships to hand out.
    pub fn for_kind(kind: EntityKind, elven: Relationships, goblin: Relationships) -> (r:
        Relationships)
        ensures
            r.handed_out(kind, elven, goblin),
    {
        match kind {
            EntityKind::Player | EntityKind::Elf => elven,
            EntityKind::Goblin => goblin,
            _ => Relationships::new(),
        }
    }

    /// The relationships that a level entity with this identifier starts
    /// with. `elven` and `goblin` are the relationships to hand out.
    pub fn from_identifier(identifier: &str, elven: Relationships, goblin: Relationships) -> (r:
        Relationships)
        ensures
            r.handed_out(kind_of(identifier@), elven, goblin),
    {
        Relationships::for_kind(EntityKind::from_identifier(identifier), elven, goblin)
    }
}

impl Default for Relationships {
    fn default() -> (r: Relationships)
        ensures
            r.is_empty(),
    {
        Relationships::new()
    }
}

impl Default for Intention {
    fn default() -> (r: Intention)
        ensures
            r == Intention::Idle,
    {
        Intention::Idle
    }
}

impl Desire {
    /// Idle at the origin, with no target, choosing anew every two seconds.
    pub open spec fn default_spec() -> Desire {
        Desire {
            update_timer: FrameTimer { elapsed_nanos: 0, duration_nanos: 2_000_000_000 },
            intention: Intention::Idle,
            position: Vec2::zero_spec(),
            target: None,
        }
    }
}

impl Default for Desire {
    fn default() -> (r: Desire)
        ensures
            r == Desire::default_spec(),
    {
        Desire {
            update_timer: FrameTimer::new(2_000_000_000),
            intention: Intention::Idle,
            position: Vec2::zero(),
            target: None,
        }
    }
}

/// What every person carries.
#[derive(Clone, Debug)]
pub struct PersonBundle {
    pub person: Person,
    pub living: Living,
    pub name: Name,
    pub multiple_sided: MultipleSided,
    pub multiple_movement_state: MultipleMovementState,
    pub relationships: Relationships,
    pub collider: Collider,
    pub sprite_zone: SpriteZone,
    pub sprite: AtlasSprite,
    pub self_physical: SelfPhysicalBundle,
}

/// What every mob carries.
#[derive(Clone, Debug)]
pub struct MobBundle {
    pub player: Mob,
    pub desire: Desire,
    pub aggression_zone: AggressionZone,
    pub person: PersonBundle,
}

/// An elf.
#[derive(Clone, Debug)]
pub struct ElfBundle {
    pub mob_bundle: MobBundle,
}

/// A goblin.
#[derive(Clone, Debug)]
pub struct GoblinBundle {
    pub mob_bundle: MobBundle,
}

/// The player.
#[derive(Clone, Debug)]
pub struct PlayerBundle {
    pub player: Player,
    pub camera_target: CameraTarget,
    pub person: PersonBundle,
}

impl PersonBundle {
    /// Whether the bundle holds what a level entity with this identifier
    /// starts with: the colliders, zones and motion of its kind, facing
    /// down, idle on the first frame, without a name.
    pub open spec fn starts_as(self, identifier: Seq<char>) -> bool {
        &&& self.name.0@.len() == 0
        &&& self.multiple_sided.side == Side::BOTTOM
        &&& self.multiple_movement_state == MultipleMovementState::default_spec()
        &&& self.collider == Collider::for_kind_spec(kind_of(identifier))
        &&& self.sprite_zone == SpriteZone::for_kind_spec(kind_of(identifier))
        &&& self.sprite == AtlasSprite { index: 0, flip_x: false }
        &&& self.self_physical.physical == Physical::for_kind_spec(kind_of(identifier))
        &&& self.self_physical.self_physical == SelfPhysical::for_kind_spec(kind_of(identifier))
    }

    /// The person as an entity at the given place.
    pub open spec fn spawn_spec(self, transform: Transform) -> Entity {
        Entity {
            physical: Some(self.self_physical.physical),
            self_physical: Some(self.self_physical.self_physical),
            collider: Some(self.collider),
            sprite_zone: Some(self.sprite_zone),
            multiple_sided: Some(self.multiple_sided),
            movement_state: Some(self.multiple_movement_state),
            sprite: Some(self.sprite),
            ..Entity::bare_spec(transform)
        }
    }

    /// The components of a person that a level places under this
    /// identifier. `elven` and `goblin` are the relationships to hand out.
    pub fn from_identifier(identifier: &str, elven: Relationships, goblin: Relationships) -> (r:
        PersonBundle)
        ensures
            r.starts_as(identifier@),
            r.relationships.handed_out(kind_of(identifier@), elven, goblin),
    {
        PersonBundle {
            person: Person,
            living: Living,
            name: Name::default(),
            multiple_sided: MultipleSided::default(),
            multiple_movement_state: MultipleMovementState::default(),
            relationships: Relationships::from_identifier(identifier, elven, goblin),
            collider: Collider::from_identifier(identifier),
            sprite_zone: SpriteZone::from_identifier(identifier),
            sprite: AtlasSprite::default(),
            self_physical: SelfPhysicalBundle::from_identifier(identifier),
        }
    }

    /// Puts the person into the world at the given place.
    pub fn spawn(&self, transform: Transform) -> (r: Entity)
        ensures
            r == self.spawn_spec(transform),
    {
        let mut e = Entity::bare(transform);
        e.physical = Some(self.self_physical.physical);
        e.self_physical = Some(self.self_physical.self_physical);
        e.collider = Some(self.collider);
        e.sprite_zone = Some(self.sprite_zone);
        e.multiple_sided = Some(self.multiple_sided);
        e.movement_state = Some(self.multiple_movement_state);
        e.sprite = Some(self.sprite);
        e
    }
}

impl MobBundle {
    /// Whether the bundle holds what a level mob with this identifier
    /// starts with: what a person starts with, the aggression zone of its
    /// kind, and no wish but to idle.
    pub open spec fn starts_as(self, identifier: Seq<char>) -> bool {
        &&& self.person.starts_as(identifier)
        &&& self.desire == Desire::default_spec()
        &&& self.aggression_zone == generate_radius_spec(
            AggressionZone::radius_of(kind_of(identifier)),
        )
    }

    /// The mob as an entity at the given place.
    pub open spec fn spawn_spec(self, transform: Transform) -> Entity {
        Entity {
            desire: Some(self.desire),
            aggression_zone: Some(self.aggression_zone),
            ..self.person.spawn_spec(transform)
        }
    }

    /// The components of a mob that a level places under this identifier.
    pub fn from_identifier(identifier: &str, elven: Relationships, goblin: Relationships) -> (r:
        MobBundle)
        ensures
            r.starts_as(identifier@),
            r.person.relationships.handed_out(kind_of(identifier@), elven, goblin),
    {
        MobBundle {
            player: Mob,
            desire: Desire::default(),
            aggression_zone: AggressionZone::from_identifier(identifier),
            person: PersonBundle::from_identifier(identifier, elven, goblin),
        }
    }

    /// Puts the mob into the world at the given place.
    pub fn spawn(&self, transform: Transform) -> (r: Entity)
        ensures
            r == self.spawn_spec(transform),
    {
        let mut e = self.person.spawn(transform);
        e.desire = Some(self.desire);
        e.aggression_zone = Some(self.aggression_zone);
        e
    }
}

impl PlayerBundle {
    /// The player as an entity at the given place.
    pub open spec fn spawn_spec(self, transform: Transform) -> Entity {
        Entity { player: true, ..self.person.spawn_spec(transform) }
    }

    /// The components of the player that a level places under this
    /// identifier.
    pub fn from_identifier(identifier: &str, elven: Relationships, goblin: Relationships) -> (r:
        PlayerBundle)
        ensures
            r.person.starts_as(identifier@),
            r.person.relationships.handed_out(kind_of(identifier@), elven, goblin),
    {
        PlayerBundle {
            player: Player,
            camera_target: CameraTarget,
            person: PersonBundle::from_identifier(identifier, elven, goblin),
        }
    }

    /// Puts the player into the world at the given place.
    pub fn spawn(&self, transform: Transform) -> (r: Entity)
        ensures
            r == self.spawn_spec(transform),
    {
        let mut e = self.person.spawn(transform);
        e.player = true;
        e
    }
}

impl ElfBundle {
    /// The components of an elf that a level places under this identifier.
    pub fn from_identifier(identifier: &str, elven: Relationships, goblin: Relationships) -> (r:
        ElfBundle)
        ensures
            r.mob_bundle.starts_as(identifier@),
            r.mob_bundle.person.relationships.handed_out(kind_of(identifier@), elven, goblin),
    {
        ElfBundle { mob_bundle: MobBundle::from_identifier(identifier, elven, goblin) }
    }
}

impl GoblinBundle {
    /// The components of a goblin that a level places under this
    /// identifier.
    pub fn from_identifier(identifier: &str, elven: Relationships, goblin: Relationships) -> (r:
        GoblinBundle)
        ensures
            r.mob_bundle.starts_as(identifier@),
            r.mob_bundle.person.relationships.handed_out(kind_of(identifier@), elven, goblin),
    {
        GoblinBundle { mob_bundle: MobBundle::from_identifier(identifier, elven, goblin) }
    }
}

} // verus!
