//! The components that sprite selection and draw order work on.

use vstd::prelude::*;
use crate::fixed::Fixed;
use crate::kind::EntityKind;
use crate::physics::components::{TransformZone, LOWERED, SHIFTED_LEFT};
use crate::physics::sprite_change::consts::MOB_BOTTOM_IDLE_START;
use crate::timer::FrameTimer;
use crate::vector::Vec2;

verus! {

/// The way an entity faces.
#[allow(non_camel_case_types)]
#[derive(Clone, Copy, Debug, PartialEq, Eq, Structural)]
pub enum Side {
    BOTTOM,
    LEFT,
    RIGHT,
    TOP,
}

/// What an entity is doing, as far as its animation is concerned.
#[allow(non_camel_case_types)]
#[derive(Clone, Copy, Debug, PartialEq, Eq, Structural)]
pub enum MovementState {
    IDLE,
    WALK,
    DRAG,
}

/// The facing of an entity that has a sprite for each side.
#[derive(Clone, Copy, Debug, PartialEq, Eq, Structural)]
pub struct MultipleSided {
    pub side: Side,
}

/// The animation state of an entity: the frame it shows, what it is doing,
/// which of the two side steps comes next, and the timer that advances the
/// frame.
#[derive(Clone, Copy, Debug, PartialEq, Eq, Structural)]
pub struct MultipleMovementState {
    pub current_index: usize,
    pub state: MovementState,
    pub used_first: bool,
    /// Seconds between frames at a multiplier of one.
    pub default_duration: Fixed,
    pub timer: FrameTimer,
}

/// One frame timer for all sprites.
#[derive(Clone, Copy, Debug, PartialEq, Eq, Structural)]
pub struct MovementSpriteTimer {
    pub timer: FrameTimer,
}

/// The rectangle that decides which of two overlapping entities is drawn
/// in front.
#[derive(Clone, Copy, Debug, PartialEq, Eq, Structural)]
pub struct SpriteZone(pub TransformZone);

/// What is read from an entity to draw it: the frame on its sprite sheet
/// and whether the frame is mirrored.
#[derive(Clone, Copy, Debug, PartialEq, Eq, Structural)]
pub struct AtlasSprite {
    pub index: usize,
    pub flip_x: bool,
}

impl Default for Side {
    fn default() -> (r: Side)
        ensures
            r == Side::BOTTOM,
    {
        Side::BOTTOM
    }
}

impl Default for MovementState {
    fn default() -> (r: MovementState)
        ensures
            r == MovementState::IDLE,
    {
        MovementState::IDLE
    }
}

impl Default for MultipleSided {
    fn default() -> (r: MultipleSided)
        ensures
            r.side == Side::BOTTOM,
    {
        MultipleSided { side: Side::BOTTOM }
    }
}

impl MultipleMovementState {
    /// Idle on the first frame, with a frame every fifth of a second.
    pub open spec fn default_spec() -> MultipleMovementState {
        MultipleMovementState {
            current_index: MOB_BOTTOM_IDLE_START,
            state: MovementState::IDLE,
            used_first: false,
            default_duration: 200_000,
            timer: FrameTimer { elapsed_nanos: 0, duration_nanos: 200_000_000 },
        }
    }
}

impl Default for MultipleMovementState {
    fn default() -> (r: MultipleMovementState)
        ensures
            r == MultipleMovementState::default_spec(),
    {
        MultipleMovementState {
            current_index: MOB_BOTTOM_IDLE_START,
            state: MovementState::IDLE,
            used_first: false,
            default_duration: 200_000,
            timer: FrameTimer::new(200_000_000),
        }
    }
}

impl Default for MovementSpriteTimer {
    fn default() -> (r: MovementSpriteTimer)
        ensures
            r.timer == (FrameTimer { elapsed_nanos: 0, duration_nanos: 0 }),
    {
        MovementSpriteTimer { timer: FrameTimer::new(0) }
    }
}

impl Default for AtlasSprite {
    fn default() -> (r: AtlasSprite)
        ensures
            r == (AtlasSprite { index: 0, flip_x: false }),
    {
        AtlasSprite { index: 0, flip_x: false }
    }
}

impl SpriteZone {
    /// Sixteen wide and sixteen high, at the entity's position.
    pub open spec fn default_spec() -> SpriteZone {
        SpriteZone(
            TransformZone { size: Vec2 { x: 16_000_000, y: 16_000_000 }, offset: Vec2::zero_spec() },
        )
    }

    /// The sprite zone of each kind of entity.
    pub open spec fn for_kind_spec(kind: EntityKind) -> SpriteZone {
        match kind {
            EntityKind::Player | EntityKind::Elf => SpriteZone(
                TransformZone {
                    size: Vec2 { x: 16_000_000, y: 32_000_000 },
                    offset: Vec2 { x: 0, y: LOWERED },
                },
            ),
            EntityKind::Rock => SpriteZone(
                TransformZone {
                    size: Vec2 { x: 32_000_000, y: 32_000_000 },
                    offset: Vec2 { x: SHIFTED_LEFT, y: LOWERED },
                },
            ),
            _ => SpriteZone::default_spec(),
        }
    }

    /// The sprite zone of each kind of entity.
    pub fn for_kind(kind: EntityKind) -> (r: SpriteZone)
        ensures
            r == SpriteZone::for_kind_spec(kind),
    {
        match kind {
            EntityKind::Player | EntityKind::Elf => SpriteZone(
                TransformZone {
                    size: Vec2 { x: 16_000_000, y: 32_000_000 },
                    offset: Vec2 { x: 0, y: LOWERED },
                },
            ),
            EntityKind::Rock => SpriteZone(
                TransformZone {
                    size: Vec2 { x: 32_000_000, y: 32_000_000 },
                    offset: Vec2 { x: SHIFTED_LEFT, y: LOWERED },
                },
            ),
            _ => SpriteZone(
                TransformZone { size: Vec2 { x: 16_000_000, y: 16_000_000 }, offset: Vec2::zero() },
            ),
        }
    }

    /// The sprite zone of a level entity with this identifier.
    pub fn from_identifier(identifier: &str) -> (r: SpriteZone)
        ensures
            r == SpriteZone::for_kind_spec(crate::kind::kind_of(identifier@)),
    {
        SpriteZone::for_kind(EntityKind::from_identifier(identifier))
    }
}

impl Default for SpriteZone {
    fn default() -> (r: SpriteZone)
        ensures
            r == SpriteZone::default_spec(),
    {
        SpriteZone::for_kind(EntityKind::Other)
    }
}

} // verus!
