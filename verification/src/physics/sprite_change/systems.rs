//! The steps of a frame that choose what is drawn: the pace of the
//! animation, the frame of each sprite, and the draw order.

use vstd::prelude::*;
use crate::fixed::{Fixed, fx_add, fx_add_spec, fx_div, fx_div_spec};
use crate::physics::components::SelfPhysical;
use crate::physics::sprite_change::components::{
    AtlasSprite,
    MovementState,
    MultipleMovementState,
    MultipleSided,
    Side,
    SpriteZone,
};
use crate::physics::sprite_change::consts::{
    GENERAL_BOTTOM,
    GENERAL_SIDE,
    GENERAL_TOP,
    MOB_BOTTOM_IDLE_END,
    MOB_BOTTOM_IDLE_START,
    MOB_BOTTOM_WALK_END,
    MOB_BOTTOM_WALK_START,
    MOB_SIDE_IDLE_END,
    MOB_SIDE_IDLE_START,
    MOB_SIDE_WALK_END,
    MOB_SIDE_WALK_START,
    MOB_TOP_IDLE_END,
    MOB_TOP_IDLE_START,
    MOB_TOP_WALK_END,
    MOB_TOP_WALK_START,
};
use crate::physics::systems::{anchored, anchored_spec, boxes_meet};
use crate::sound::components::SoundEvent;
use crate::timer::FrameTimer;
use crate::vector::Vec2;
use crate::world::Entity;

verus! {

/// How much nearer to the viewer an entity is drawn than the one it
/// overlaps: a tenth.
pub const DEPTH_STEP: Fixed = 100_000;

/// The time between two frames in nanoseconds: the default duration in
/// seconds divided by the multiplier, at most what 64 bits hold.
pub open spec fn frame_nanos(default_duration: Fixed, multiplier: Fixed) -> int {
    let nanos = fx_div_spec(default_duration as int, multiplier as int) * 1000;
    if nanos > u64::MAX {
        u64::MAX as int
    } else {
        nanos
    }
}

/// Whether a time between frames can be worked out: the multiplier is not
/// zero, and the duration divided by it is not negative.
pub open spec fn can_sync(default_duration: Fixed, multiplier: Fixed) -> bool {
    multiplier != 0 && fx_div_spec(default_duration as int, multiplier as int) >= 0
}

/// Whether the animation of an entity can be paced by its multiplier. Only
/// an entity with a movement state and a will of its own is paced.
pub open spec fn entity_can_sync(e: Entity) -> bool {
    match (e.movement_state, e.self_physical) {
        (Some(ms), Some(sp)) => can_sync(ms.default_duration, sp.multiplier),
        _ => true,
    }
}

/// An entity with the pace of its animation set by its multiplier.
pub open spec fn synced(e: Entity) -> Entity {
    match (e.movement_state, e.self_physical) {
        (Some(ms), Some(sp)) => Entity {
            movement_state: Some(
                MultipleMovementState {
                    timer: FrameTimer {
                        duration_nanos: frame_nanos(ms.default_duration, sp.multiplier) as u64,
                        ..ms.timer
                    },
                    ..ms
                },
            ),
            ..e
        },
        _ => e,
    }
}

/// Whether the animation of an entity can be paced by its multiplier.
pub fn syncable(e: &Entity) -> (r: bool)
    ensures
        r == entity_can_sync(*e),
{
    match (e.movement_state, e.self_physical) {
        (Some(ms), Some(sp)) => sp.multiplier != 0 && fx_div(ms.default_duration, sp.multiplier)
            >= 0,
        _ => true,
    }
}

/// Works out the time between two frames in nanoseconds.
pub fn frame_duration(default_duration: Fixed, multiplier: Fixed) -> (r: u64)
    requires
        can_sync(default_duration, multiplier),
    ensures
        r == frame_nanos(default_duration, multiplier),
{
    let seconds: Fixed = fx_div(default_duration, multiplier);
    let nanos: u128 = (seconds as u128) * 1000;
    if nanos > u64::MAX as u128 {
        u64::MAX
    } else {
        nanos as u64
    }
}

/// Sets the pace of every animation by the multiplier of its entity, so
/// that an entity that moves faster also steps faster. The caller hands in
/// the entities whose own motion has changed.
pub fn sync_self_physical_multiple_movement(entities: &mut Vec<Entity>)
    requires
        forall|i: int| 0 <= i < old(entities)@.len() ==> entity_can_sync(#[trigger] old(entities)@[i]),
    ensures
        final(entities)@.len() == old(entities)@.len(),
        forall|i: int|
            0 <= i < old(entities)@.len() ==> #[trigger] final(entities)@[i] == synced(
                old(entities)@[i],
            ),
{
    let n: usize = entities.len();
    let mut i: usize = 0;
    while i < n
        invariant
            entities@.len() == n,
            n == old(entities)@.len(),
            i <= n,
            forall|k: int| 0 <= k < n ==> entity_can_sync(#[trigger] old(entities)@[k]),
            forall|k: int| 0 <= k < i ==> #[trigger] entities@[k] == synced(old(entities)@[k]),
            forall|k: int| i <= k < n ==> #[trigger] entities@[k] == old(entities)@[k],
        decreases n - i,
    {
        let mut e: Entity = entities[i];
        assert(entity_can_sync(old(entities)@[i as int]));
        if let Some(ms) = e.movement_state {
            if let Some(sp) = e.self_physical {
                let mut state: MultipleMovementState = ms;
                let duration: u64 = frame_duration(ms.default_duration, sp.multiplier);
                if state.timer.duration_nanos != duration {
                    state.timer.set_duration(duration);
                }
                e.movement_state = Some(state);
                entities.set(i, e);
            }
        }
        i += 1;
    }
}

/// The frame of an idle entity after one step: the next frame of the idle
/// range when the timer fired, back to the start from its last frame or
/// from anywhere outside it.
pub open spec fn idle_index(current: usize, start: usize, end: usize, fired: bool) -> usize {
    if current >= end || current < start {
        start
    } else if fired {
        (current + 1) as usize
    } else {
        current
    }
}

/// Movement state and sprite of an idle entity after one step.
pub open spec fn idle_frame(
    ms: MultipleMovementState,
    start: usize,
    end: usize,
    fired: bool,
    flip_x: bool,
) -> (MultipleMovementState, AtlasSprite) {
    let index = idle_index(ms.current_index, start, end, fired);
    (MultipleMovementState { current_index: index, ..ms }, AtlasSprite { index, flip_x })
}

/// Chooses the frame of an idle entity.
pub fn update_idle_sprite(
    ms: &mut MultipleMovementState,
    sprite: &mut AtlasSprite,
    start_index: usize,
    end_index: usize,
    should_increase: bool,
    flip_x: bool,
)
    ensures
        (*final(ms), *final(sprite)) == idle_frame(
            *old(ms),
            start_index,
            end_index,
            should_increase,
            flip_x,
        ),
{
    if ms.current_index >= end_index || ms.current_index < start_index {
        ms.current_index = start_index;
    } else if should_increase {
        ms.current_index += 1;
    }
    sprite.index = ms.current_index;
    sprite.flip_x = flip_x;
}

/// The parameters of a walk cycle: its two poses, the frame shown between
/// steps, whether the sprite is mirrored with every step, and else whether
/// it is mirrored at all.
pub struct WalkCycle {
    pub start_index: usize,
    pub end_index: usize,
    pub idle_index: usize,
    pub auto_flip_x: bool,
    pub flip_x: bool,
}

/// Whether a frame belongs neither to the walk cycle nor to the frame
/// between its steps.
pub open spec fn outside_cycle(current: usize, cycle: WalkCycle) -> bool {
    (current < cycle.start_index || current > cycle.end_index) && current != cycle.idle_index
}

/// Movement state and sprite of a walking entity after one step, and
/// whether a footstep is heard.
///
/// From outside the cycle the entity enters it at its first pose, and
/// `used_first` flips. Within a cycle that does not mirror, every firing of
/// the timer shows the pose that `used_first` names, the last if it is set
/// and the first if not, and flips `used_first`: the two poses take turns.
/// Within a cycle that mirrors with every step, a firing takes the entity
/// from the frame between steps to the pose, mirrored anew, and from the
/// pose back to the frame between steps. A footstep is heard with every
/// step to a pose, and on entering a cycle that mirrors.
pub open spec fn walk_frame(
    ms: MultipleMovementState,
    sprite: AtlasSprite,
    cycle: WalkCycle,
    fired: bool,
) -> (MultipleMovementState, AtlasSprite, bool) {
    let (index, used_first, flipped, footstep) = if outside_cycle(ms.current_index, cycle) {
        (cycle.start_index, !ms.used_first, cycle.auto_flip_x, cycle.auto_flip_x)
    } else if fired {
        if !cycle.auto_flip_x {
            (
                if ms.used_first {
                    cycle.end_index
                } else {
                    cycle.start_index
                },
                !ms.used_first,
                false,
                true,
            )
        } else if ms.current_index == cycle.idle_index {
            (cycle.start_index, ms.used_first, true, true)
        } else {
            (cycle.idle_index, ms.used_first, false, false)
        }
    } else {
        (ms.current_index, ms.used_first, false, false)
    };
    let flip_x = if !cycle.auto_flip_x {
        cycle.flip_x
    } else if flipped {
        !sprite.flip_x
    } else {
        sprite.flip_x
    };
    (
        MultipleMovementState { current_index: index, used_first, ..ms },
        AtlasSprite { index, flip_x },
        footstep,
    )
}

/// Chooses the frame of a walking entity and says whether a footstep is
/// heard.
pub fn update_walk_sprite(
    ms: &mut MultipleMovementState,
    sprite: &mut AtlasSprite,
    cycle: &WalkCycle,
    should_increase: bool,
) -> (footstep: bool)
    ensures
        (*final(ms), *final(sprite), footstep) == walk_frame(
            *old(ms),
            *old(sprite),
            *cycle,
            should_increase,
        ),
{
    let mut footstep: bool = false;
    if (ms.current_index < cycle.start_index || ms.current_index > cycle.end_index)
        && ms.current_index != cycle.idle_index {
        ms.current_index = cycle.start_index;
        ms.used_first = !ms.used_first;
        if cycle.auto_flip_x {
            sprite.flip_x = !sprite.flip_x;
            footstep = true;
        }
    } else if should_increase {
        if !cycle.auto_flip_x {
            if ms.used_first {
                ms.current_index = cycle.end_index;
            } else {
                ms.current_index = cycle.start_index;
            }
            ms.used_first = !ms.used_first;
            footstep = true;
        } else if ms.current_index == cycle.idle_index {
            ms.current_index = cycle.start_index;
            sprite.flip_x = !sprite.flip_x;
            footstep = true;
        } else {
            ms.current_index = cycle.idle_index;
        }
    }
    if !cycle.auto_flip_x {
        sprite.flip_x = cycle.flip_x;
    }
    sprite.index = ms.current_index;
    footstep
}

/// The first frame of the idle range of each side.
pub open spec fn idle_start(side: Side) -> usize {
    match side {
        Side::TOP => MOB_TOP_IDLE_START,
        Side::BOTTOM => MOB_BOTTOM_IDLE_START,
        Side::LEFT | Side::RIGHT => MOB_SIDE_IDLE_START,
    }
}

/// The last frame of the idle range of each side.
pub open spec fn idle_end(side: Side) -> usize {
    match side {
        Side::TOP => MOB_TOP_IDLE_END,
        Side::BOTTOM => MOB_BOTTOM_IDLE_END,
        Side::LEFT | Side::RIGHT => MOB_SIDE_IDLE_END,
    }
}

/// The walk cycle of each side. Up and down there is one pose, mirrored
/// with every step; to the side there are two, and the sprite is mirrored
/// when it faces right.
pub open spec fn walk_cycle_spec(side: Side) -> WalkCycle {
    match side {
        Side::TOP => WalkCycle {
            start_index: MOB_TOP_WALK_START,
            end_index: MOB_TOP_WALK_END,
            idle_index: MOB_TOP_IDLE_START,
            auto_flip_x: true,
            flip_x: false,
        },
        Side::BOTTOM => WalkCycle {
            start_index: MOB_BOTTOM_WALK_START,
            end_index: MOB_BOTTOM_WALK_END,
            idle_index: MOB_BOTTOM_IDLE_START,
            auto_flip_x: true,
            flip_x: false,
        },
        Side::LEFT => WalkCycle {
            start_index: MOB_SIDE_WALK_START,
            end_index: MOB_SIDE_WALK_END,
            idle_index: MOB_SIDE_IDLE_START,
            auto_flip_x: false,
            flip_x: false,
        },
        Side::RIGHT => WalkCycle {
            start_index: MOB_SIDE_WALK_START,
            end_index: MOB_SIDE_WALK_END,
            idle_index: MOB_SIDE_IDLE_START,
            auto_flip_x: false,
            flip_x: true,
        },
    }
}

/// The walk cycle of each side.
pub fn walk_cycle(side: Side) -> (r: WalkCycle)
    ensures
        r == walk_cycle_spec(side),
{
    match side {
        Side::TOP => WalkCycle {
            start_index: MOB_TOP_WALK_START,
            end_index: MOB_TOP_WALK_END,
            idle_index: MOB_TOP_IDLE_START,
            auto_flip_x: true,
            flip_x: false,
        },
        Side::BOTTOM => WalkCycle {
            start_index: MOB_BOTTOM_WALK_START,
            end_index: MOB_BOTTOM_WALK_END,
            idle_index: MOB_BOTTOM_IDLE_START,
            auto_flip_x: true,
            flip_x: false,
        },
        Side::LEFT => WalkCycle {
            start_index: MOB_SIDE_WALK_START,
            end_index: MOB_SIDE_WALK_END,
            idle_index: MOB_SIDE_IDLE_START,
            auto_flip_x: false,
            flip_x: false,
        },
        Side::RIGHT => WalkCycle {
            start_index: MOB_SIDE_WALK_START,
            end_index: MOB_SIDE_WALK_END,
            idle_index: MOB_SIDE_IDLE_START,
            auto_flip_x: false,
            flip_x: true,
        },
    }
}

/// Movement state and sprite of an entity after one step in which its
/// timer fired or did not, and whether a footstep is heard. An idle entity
/// runs through the idle frames of its side, mirrored when it faces right;
/// a walking one through the walk cycle of its side; a dragged one keeps
/// its frame.
pub open spec fn posed(
    side: Side,
    ms: MultipleMovementState,
    sprite: AtlasSprite,
    fired: bool,
) -> (MultipleMovementState, AtlasSprite, bool) {
    match ms.state {
        MovementState::IDLE => {
            let (m, s) = idle_frame(ms, idle_start(side), idle_end(side), fired, side == Side::RIGHT);
            (m, s, false)
        },
        MovementState::WALK => walk_frame(ms, sprite, walk_cycle_spec(side), fired),
        MovementState::DRAG => (ms, sprite, false),
    }
}

/// Chooses the frame of one entity, given whether its timer fired, and
/// says whether a footstep is heard.
pub fn pose(side: Side, ms: &mut MultipleMovementState, sprite: &mut AtlasSprite, fired: bool) -> (footstep:
    bool)
    ensures
        (*final(ms), *final(sprite), footstep) == posed(side, *old(ms), *old(sprite), fired),
{
    match ms.state {
        MovementState::IDLE => {
            match side {
                Side::TOP => update_idle_sprite(
                    ms,
                    sprite,
                    MOB_TOP_IDLE_START,
                    MOB_TOP_IDLE_END,
                    fired,
                    false,
                ),
                Side::BOTTOM => update_idle_sprite(
                    ms,
                    sprite,
                    MOB_BOTTOM_IDLE_START,
                    MOB_BOTTOM_IDLE_END,
                    fired,
                    false,
                ),
                Side::LEFT => update_idle_sprite(
                    ms,
                    sprite,
                    MOB_SIDE_IDLE_START,
                    MOB_SIDE_IDLE_END,
                    fired,
                    false,
                ),
                Side::RIGHT => update_idle_sprite(
                    ms,
                    sprite,
                    MOB_SIDE_IDLE_START,
                    MOB_SIDE_IDLE_END,
                    fired,
                    true,
                ),
            }
            false
        },
        MovementState::WALK => {
            let cycle = walk_cycle(side);
            update_walk_sprite(ms, sprite, &cycle, fired)
        },
        MovementState::DRAG => false,
    }
}

/// Whether an entity is animated by its movement state: it has a facing,
/// a movement state and a sprite.
pub open spec fn animated(e: Entity) -> bool {
    e.multiple_sided is Some && e.movement_state is Some && e.sprite is Some
}

/// Whether an entity is ready for a step of `delta` nanoseconds: one with a
/// facing has a sprite, and the timer of one that is animated can take the
/// step.
pub open spec fn can_animate(e: Entity, delta: u64) -> bool {
    &&& e.multiple_sided is Some ==> e.sprite is Some
    &&& animated(e) ==> e.movement_state->0.timer.can_tick(delta)
}

/// The movement state of an animated entity once its timer has taken a
/// step of `delta` nanoseconds.
pub open spec fn ticked_state(ms: MultipleMovementState, delta: u64) -> MultipleMovementState {
    MultipleMovementState { timer: ms.timer.ticked(delta), ..ms }
}

/// An entity after its animation has taken a step of `delta` nanoseconds.
/// One that is not animated stays as it is.
pub open spec fn animate_spec(e: Entity, delta: u64) -> Entity {
    if animated(e) {
        let ms = e.movement_state->0;
        let (m, s, footstep) = posed(
            e.multiple_sided->0.side,
            ticked_state(ms, delta),
            e.sprite->0,
            ms.timer.fires(delta),
        );
        Entity { movement_state: Some(m), sprite: Some(s), ..e }
    } else {
        e
    }
}

/// Whether a footstep of the entity is heard in a step of `delta`
/// nanoseconds.
pub open spec fn steps(e: Entity, delta: u64) -> bool {
    animated(e) && posed(
        e.multiple_sided->0.side,
        ticked_state(e.movement_state->0, delta),
        e.sprite->0,
        e.movement_state->0.timer.fires(delta),
    ).2
}

/// How many of the first `upto` entities are heard stepping.
pub open spec fn footsteps(s: Seq<Entity>, delta: u64, upto: int) -> nat
    decreases upto,
{
    if upto <= 0 {
        0
    } else {
        footsteps(s, delta, upto - 1) + if steps(s[upto - 1], delta) {
            1nat
        } else {
            0nat
        }
    }
}

/// Whether the entity is ready for a step of `delta` nanoseconds.
pub fn ready_to_animate(e: &Entity, delta: u64) -> (r: bool)
    ensures
        r == can_animate(*e, delta),
{
    if e.multiple_sided.is_some() && e.sprite.is_none() {
        return false;
    }
    match (e.multiple_sided, e.movement_state, e.sprite) {
        (Some(_), Some(ms), Some(_)) => ms.timer.tickable(delta),
        _ => true,
    }
}

/// Advances every animation by `delta` nanoseconds: ticks the timer of
/// each animated entity, chooses its frame, and leaves a message in
/// `sounds` for every footstep.
pub fn update_movement_sided_sprite(
    entities: &mut Vec<Entity>,
    sounds: &mut Vec<SoundEvent>,
    delta: u64,
)
    requires
        forall|i: int| 0 <= i < old(entities)@.len() ==> can_animate(#[trigger] old(entities)@[i], delta),
    ensures
        final(entities)@.len() == old(entities)@.len(),
        forall|i: int|
            0 <= i < old(entities)@.len() ==> #[trigger] final(entities)@[i] == animate_spec(
                old(entities)@[i],
                delta,
            ),
        final(sounds)@.len() == old(sounds)@.len() + footsteps(
            old(entities)@,
            delta,
            old(entities)@.len() as int,
        ),
        forall|k: int| 0 <= k < old(sounds)@.len() ==> final(sounds)@[k] == old(sounds)@[k],
        forall|k: int|
            old(sounds)@.len() <= k < final(sounds)@.len() ==> (#[trigger] final(sounds)@[k]).is_footstep(),
{
    let n: usize = entities.len();
    let mut i: usize = 0;
    while i < n
        invariant
            entities@.len() == n,
            n == old(entities)@.len(),
            i <= n,
            forall|k: int| 0 <= k < n ==> can_animate(#[trigger] old(entities)@[k], delta),
            forall|k: int| 0 <= k < i ==> #[trigger] entities@[k] == animate_spec(old(entities)@[k], delta),
            forall|k: int| i <= k < n ==> #[trigger] entities@[k] == old(entities)@[k],
            sounds@.len() == old(sounds)@.len() + footsteps(old(entities)@, delta, i as int),
            forall|k: int| 0 <= k < old(sounds)@.len() ==> sounds@[k] == old(sounds)@[k],
            forall|k: int| old(sounds)@.len() <= k < sounds@.len() ==> (#[trigger] sounds@[k]).is_footstep(),
        decreases n - i,
    {
        let mut e: Entity = entities[i];
        assert(can_animate(old(entities)@[i as int], delta));
        if e.multiple_sided.is_some() && e.movement_state.is_some() && e.sprite.is_some() {
            let side: Side = e.multiple_sided.unwrap().side;
            let mut ms: MultipleMovementState = e.movement_state.unwrap();
            let mut sprite: AtlasSprite = e.sprite.unwrap();
            let fired: bool = ms.timer.tick(delta);
            let footstep: bool = pose(side, &mut ms, &mut sprite, fired);
            e.movement_state = Some(ms);
            e.sprite = Some(sprite);
            entities.set(i, e);
            if footstep {
                sounds.push(SoundEvent::footstep());
            }
        }
        i += 1;
    }
}

/// The sprite of an entity that has one frame for each side: the frame of
/// the side, mirrored when it faces right.
pub open spec fn sided_sprite(side: Side) -> AtlasSprite {
    match side {
        Side::TOP => AtlasSprite { index: GENERAL_TOP, flip_x: false },
        Side::BOTTOM => AtlasSprite { index: GENERAL_BOTTOM, flip_x: false },
        Side::LEFT => AtlasSprite { index: GENERAL_SIDE, flip_x: false },
        Side::RIGHT => AtlasSprite { index: GENERAL_SIDE, flip_x: true },
    }
}

/// An entity with a facing but no movement state, with its sprite set by
/// its facing. Any other entity stays as it is.
pub open spec fn with_sided_sprite(e: Entity) -> Entity {
    match (e.multiple_sided, e.movement_state, e.sprite) {
        (Some(sided), None, Some(_)) => Entity { sprite: Some(sided_sprite(sided.side)), ..e },
        _ => e,
    }
}

/// Whether an entity with a facing has a sprite to show it with.
pub open spec fn has_sprite_for_side(e: Entity) -> bool {
    e.multiple_sided is Some ==> e.sprite is Some
}

/// Whether the entity, if it has a facing, has a sprite to show it with.
pub fn shows_its_side(e: &Entity) -> (r: bool)
    ensures
        r == has_sprite_for_side(*e),
{
    e.multiple_sided.is_none() || e.sprite.is_some()
}

/// Chooses the sprite of every entity that has a facing but no movement
/// state. An entity with a facing must have a sprite.
pub fn update_sided_sprite(entities: &mut Vec<Entity>)
    requires
        forall|i: int| 0 <= i < old(entities)@.len() ==> has_sprite_for_side(#[trigger] old(entities)@[i]),
    ensures
        final(entities)@.len() == old(entities)@.len(),
        forall|i: int|
            0 <= i < old(entities)@.len() ==> #[trigger] final(entities)@[i] == with_sided_sprite(
                old(entities)@[i],
            ),
{
    let n: usize = entities.len();
    let mut i: usize = 0;
    while i < n
        invariant
            entities@.len() == n,
            n == old(entities)@.len(),
            i <= n,
            forall|k: int| 0 <= k < i ==> #[trigger] entities@[k] == with_sided_sprite(old(entities)@[k]),
            forall|k: int| i <= k < n ==> #[trigger] entities@[k] == old(entities)@[k],
        decreases n - i,
    {
        let mut e: Entity = entities[i];
        if let Some(sided) = e.multiple_sided {
            if e.movement_state.is_none() && e.sprite.is_some() {
                let sprite = match sided.side {
                    Side::TOP => AtlasSprite { index: GENERAL_TOP, flip_x: false },
                    Side::BOTTOM => AtlasSprite { index: GENERAL_BOTTOM, flip_x: false },
                    Side::LEFT => AtlasSprite { index: GENERAL_SIDE, flip_x: false },
                    Side::RIGHT => AtlasSprite { index: GENERAL_SIDE, flip_x: true },
                };
                e.sprite = Some(sprite);
                entities.set(i, e);
            }
        }
        i += 1;
    }
}

/// Whether the sprite zones of two entities touch or overlap.
pub open spec fn zones_meet(
    a_zone: SpriteZone,
    a_transform: crate::physics::components::Transform,
    b_zone: SpriteZone,
    b_transform: crate::physics::components::Transform,
) -> bool {
    let a_pos = anchored_spec(a_transform, a_zone.0.offset);
    let b_pos = anchored_spec(b_transform, b_zone.0.offset);
    boxes_meet(a_pos, a_pos.plus_spec(a_zone.0.size), b_pos, b_pos.plus_spec(b_zone.0.size))
}

/// The corner of the sprite zone of an entity; its position where it has
/// no zone.
pub open spec fn zone_corner(e: Entity) -> Vec2 {
    match e.sprite_zone {
        Some(zone) => anchored_spec(e.transform, zone.0.offset),
        None => anchored_spec(e.transform, Vec2::zero_spec()),
    }
}

/// An entity moved to the given depth.
pub open spec fn at_depth(e: Entity, z: int) -> Entity {
    Entity {
        transform: crate::physics::components::Transform {
            translation: crate::vector::Vec3 { z: z as i64, ..e.transform.translation },
        },
        ..e
    }
}

/// A pair of entities after their draw order has been settled. Where their
/// sprite zones meet, the one whose zone starts lower is put a step in
/// front of the other; where the zones start level, it is the second.
/// A pair whose zones do not meet, or of which one has none, stays as it
/// is.
pub open spec fn order_pair_spec(a: Entity, b: Entity) -> (Entity, Entity) {
    match (a.sprite_zone, b.sprite_zone) {
        (Some(a_zone), Some(b_zone)) => if zones_meet(a_zone, a.transform, b_zone, b.transform) {
            if anchored_spec(a.transform, a_zone.0.offset).y < anchored_spec(
                b.transform,
                b_zone.0.offset,
            ).y {
                (at_depth(a, fx_add_spec(b.transform.translation.z as int, DEPTH_STEP as int)), b)
            } else {
                (a, at_depth(b, fx_add_spec(a.transform.translation.z as int, DEPTH_STEP as int)))
            }
        } else {
            (a, b)
        },
        _ => (a, b),
    }
}

/// Settles the draw order of one pair of entities.
pub fn order_pair(a: Entity, b: Entity) -> (r: (Entity, Entity))
    ensures
        r == order_pair_spec(a, b),
{
    let mut first = a;
    let mut second = b;
    if let Some(a_zone) = a.sprite_zone {
        if let Some(b_zone) = b.sprite_zone {
            let a_pos: Vec2 = anchored(&a.transform, a_zone.0.offset);
            let a_len: Vec2 = a_pos.plus(a_zone.0.size);
            let b_pos: Vec2 = anchored(&b.transform, b_zone.0.offset);
            let b_len: Vec2 = b_pos.plus(b_zone.0.size);
            let collided: bool = !(a_len.y < b_pos.y || a_pos.y > b_len.y || a_len.x < b_pos.x
                || a_pos.x > b_len.x);
            if collided {
                if a_pos.y < b_pos.y {
                    first.transform.translation.z = fx_add(b.transform.translation.z, DEPTH_STEP);
                } else {
                    second.transform.translation.z = fx_add(a.transform.translation.z, DEPTH_STEP);
                }
            }
        }
    }
    (first, second)
}

/// The entities after the draw order of the pair at places `i` and `j` has
/// been settled.
pub open spec fn order_at(s: Seq<Entity>, i: int, j: int) -> Seq<Entity>
    recommends
        0 <= i < j < s.len(),
{
    let (a, b) = order_pair_spec(s[i], s[j]);
    s.update(i, a).update(j, b)
}

/// The entities after the draw order of every pair from `(i, j)` on has
/// been settled, in the order `(0, 1), (0, 2), .., (1, 2), (1, 3), ..`.
/// Each pair sees the depths that the pairs before it left, so among three
/// or more entities that overlap one another the last pair has the last
/// word.
pub open spec fn order_from(s: Seq<Entity>, i: int, j: int) -> Seq<Entity>
    decreases s.len() - i, s.len() - j,
{
    if i < 0 || j <= i || i >= s.len() {
        s
    } else if j >= s.len() {
        order_from(s, i + 1, i + 2)
    } else {
        order_from(order_at(s, i, j), i, j + 1)
    }
}

/// The entities after the draw order of every pair has been settled.
pub open spec fn overlap_sprite_zones_spec(s: Seq<Entity>) -> Seq<Entity> {
    order_from(s, 0, 1)
}

/// Settles the draw order of a frame: of every two entities whose sprite
/// zones meet, the one whose zone starts lower is drawn in front.
pub fn overlap_sprite_zones(entities: &mut Vec<Entity>)
    ensures
        final(entities)@ == overlap_sprite_zones_spec(old(entities)@),
        final(entities)@.len() == old(entities)@.len(),
{
    let n: usize = entities.len();
    let mut i: usize = 0;
    while i < n
        invariant
            entities@.len() == n,
            i <= n,
            order_from(entities@, i as int, i + 1) == order_from(old(entities)@, 0, 1),
        decreases n - i,
    {
        let mut j: usize = i + 1;
        while j < n
            invariant
                entities@.len() == n,
                i < n,
                i < j <= n,
                order_from(entities@, i as int, j as int) == order_from(old(entities)@, 0, 1),
            decreases n - j,
        {
            let (a, b) = order_pair(entities[i], entities[j]);
            entities.set(i, a);
            entities.set(j, b);
            j += 1;
        }
        i += 1;
    }
}

/// Of two entities whose sprite zones meet, the one whose zone starts
/// lower ends up exactly one step in front of the other, which keeps its
/// depth; nothing else about either changes.
pub proof fn lemma_lower_zone_in_front(a: Entity, b: Entity)
    requires
        a.sprite_zone is Some,
        b.sprite_zone is Some,
        zones_meet(a.sprite_zone->0, a.transform, b.sprite_zone->0, b.transform),
        zone_corner(a).y < zone_corner(b).y,
    ensures
        order_pair_spec(a, b).1 == b,
        order_pair_spec(a, b).0 == at_depth(
            a,
            fx_add_spec(b.transform.translation.z as int, DEPTH_STEP as int),
        ),
        order_pair_spec(b, a).0 == b,
        order_pair_spec(b, a).1 == order_pair_spec(a, b).0,
{
}

/// In the walk cycle to the left or to the right, every firing of the
/// timer shows the pose that `used_first` names, flips `used_first` and is
/// heard, whether the entity stood on the frame between steps or on a
/// pose.
pub proof fn lemma_walk_step(ms: MultipleMovementState, sprite: AtlasSprite, side: Side)
    requires
        side == Side::LEFT || side == Side::RIGHT,
        ms.current_index == MOB_SIDE_IDLE_START || ms.current_index == MOB_SIDE_WALK_START
            || ms.current_index == MOB_SIDE_WALK_END,
    ensures
        ({
            let (m, s, heard) = walk_frame(ms, sprite, walk_cycle_spec(side), true);
            &&& m.current_index == if ms.used_first {
                MOB_SIDE_WALK_END
            } else {
                MOB_SIDE_WALK_START
            }
            &&& m.used_first == !ms.used_first
            &&& m == MultipleMovementState {
                current_index: m.current_index,
                used_first: m.used_first,
                ..ms
            }
            &&& s.index == m.current_index
            &&& s.flip_x == (side == Side::RIGHT)
            &&& heard
        }),
{
}

/// In the walk cycle to the left or to the right, consecutive firings of
/// the timer show the two poses in turn: no two in a row show the same
/// pose, and `used_first` flips with each of them.
pub proof fn lemma_walk_cycle_alternates(ms: MultipleMovementState, sprite: AtlasSprite, side: Side)
    requires
        side == Side::LEFT || side == Side::RIGHT,
        ms.current_index == MOB_SIDE_IDLE_START || ms.current_index == MOB_SIDE_WALK_START
            || ms.current_index == MOB_SIDE_WALK_END,
    ensures
        ({
            let cycle = walk_cycle_spec(side);
            let (m1, s1, heard1) = walk_frame(ms, sprite, cycle, true);
            let (m2, s2, heard2) = walk_frame(m1, s1, cycle, true);
            let (m3, s3, heard3) = walk_frame(m2, s2, cycle, true);
            &&& m1.current_index == if ms.used_first {
                MOB_SIDE_WALK_END
            } else {
                MOB_SIDE_WALK_START
            }
            &&& m2.current_index == if ms.used_first {
                MOB_SIDE_WALK_START
            } else {
                MOB_SIDE_WALK_END
            }
            &&& m3.current_index == m1.current_index
            &&& m1.current_index != m2.current_index
            &&& m2.current_index != m3.current_index
            &&& m1.used_first == !ms.used_first
            &&& m2.used_first == !m1.used_first
            &&& m3.used_first == !m2.used_first
            &&& heard1 && heard2 && heard3
        }),
{
}

/// An entity that comes to a walk cycle from a frame outside it is put on
/// the first pose of the cycle, and its `used_first` flips, whether the
/// timer fires or not.
pub proof fn lemma_walk_enters_cycle(
    ms: MultipleMovementState,
    sprite: AtlasSprite,
    side: Side,
    fired: bool,
)
    requires
        outside_cycle(ms.current_index, walk_cycle_spec(side)),
    ensures
        ({
            let cycle = walk_cycle_spec(side);
            let (m, s, heard) = walk_frame(ms, sprite, cycle, fired);
            &&& m.current_index == cycle.start_index
            &&& s.index == cycle.start_index
            &&& m.used_first == !ms.used_first
        }),
{
}

/// An animated entity that walks to the left or to the right and stands
/// on a frame of its cycle takes a step whenever its timer fires: it shows
/// the pose that `used_first` names, `used_first` flips, and the step is
/// heard.
pub proof fn lemma_walking_entity_steps(e: Entity, delta: u64)
    requires
        animated(e),
        e.movement_state->0.state == MovementState::WALK,
        e.multiple_sided->0.side == Side::LEFT || e.multiple_sided->0.side == Side::RIGHT,
        e.movement_state->0.current_index == MOB_SIDE_IDLE_START
            || e.movement_state->0.current_index == MOB_SIDE_WALK_START
            || e.movement_state->0.current_index == MOB_SIDE_WALK_END,
        e.movement_state->0.timer.fires(delta),
    ensures
        ({
            let before = e.movement_state->0;
            let after = animate_spec(e, delta);
            &&& after.movement_state is Some
            &&& after.sprite is Some
            &&& after.movement_state->0.used_first == !before.used_first
            &&& after.movement_state->0.current_index == if before.used_first {
                MOB_SIDE_WALK_END
            } else {
                MOB_SIDE_WALK_START
            }
            &&& after.sprite->0.index == after.movement_state->0.current_index
            &&& steps(e, delta)
        }),
{
}

/// Within its walk cycle an entity keeps its frame, its `used_first` and
/// its silence for as long as its timer does not fire.
pub proof fn lemma_walk_waits_for_timer(ms: MultipleMovementState, sprite: AtlasSprite, side: Side)
    requires
        !outside_cycle(ms.current_index, walk_cycle_spec(side)),
    ensures
        walk_frame(ms, sprite, walk_cycle_spec(side), false).0 == ms,
        !walk_frame(ms, sprite, walk_cycle_spec(side), false).2,
{
}

} // verus!
