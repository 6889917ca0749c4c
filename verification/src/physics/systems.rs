//! The steps of a frame that move entities: collision, integration, and
//! the movement state and facing that follow from the motion.

use vstd::prelude::*;
use crate::fixed::{Fixed, HUNDREDTH, fx_add, fx_add_spec, fx_sub, fx_sub_spec, trunc_hundredths, trunc_hundredths_spec};
use crate::physics::components::{Collider, Physical, SelfPhysical, Transform};
use crate::physics::sprite_change::components::{MovementState, MultipleMovementState, MultipleSided, Side};
use crate::vector::{Vec2, Vec3, lemma_normalize_nonzero};
use crate::world::Entity;

verus! {

/// The corner of a zone with the given offset on an entity at `transform`.
pub open spec fn anchored_spec(transform: Transform, offset: Vec2) -> Vec2 {
    Vec2 {
        x: fx_add_spec(transform.translation.x as int, offset.x as int) as i64,
        y: fx_add_spec(transform.translation.y as int, offset.y as int) as i64,
    }
}

/// The corner of a zone with the given offset on an entity at `transform`.
pub fn anchored(transform: &Transform, offset: Vec2) -> (r: Vec2)
    ensures
        r == anchored_spec(*transform, offset),
{
    Vec2 {
        x: fx_add(transform.translation.x, offset.x),
        y: fx_add(transform.translation.y, offset.y),
    }
}

/// Whether two rectangles touch or overlap: neither lies wholly above,
/// below, left or right of the other. Each is given by its corner and by
/// the opposite corner.
pub open spec fn boxes_meet(a_pos: Vec2, a_len: Vec2, b_pos: Vec2, b_len: Vec2) -> bool {
    !(a_len.y < b_pos.y || a_pos.y > b_len.y || a_len.x < b_pos.x || a_pos.x > b_len.x)
}

/// Whether a collider whose corner would come to lie at `future_pos` meets
/// the collider of a target at `target_transform`: the two rectangles
/// touch or overlap.
pub open spec fn check_future_spec(
    future_pos: Vec2,
    collider: Collider,
    target_transform: Transform,
    target_collider: Collider,
) -> bool {
    let target_pos = anchored_spec(target_transform, target_collider.0.offset);
    boxes_meet(
        future_pos,
        future_pos.plus_spec(collider.0.size),
        target_pos,
        target_pos.plus_spec(target_collider.0.size),
    )
}

/// Whether a collider whose corner would come to lie at `future_pos` meets
/// the collider of a target at `target_transform`.
pub fn check_future(
    future_pos: Vec2,
    collider: &Collider,
    target_transform: &Transform,
    target_collider: &Collider,
) -> (r: bool)
    ensures
        r == check_future_spec(future_pos, *collider, *target_transform, *target_collider),
{
    let target_pos: Vec2 = anchored(target_transform, target_collider.0.offset);
    let target_len: Vec2 = target_pos.plus(target_collider.0.size);
    let collider_len: Vec2 = future_pos.plus(collider.0.size);
    !(collider_len.y < target_pos.y || future_pos.y > target_len.y || collider_len.x
        < target_pos.x || future_pos.x > target_len.x)
}

/// Where the corner of the mover's collider would lie after a move along
/// the x axis only.
pub open spec fn future_x_spec(direction: Vec3, transform: Transform, collider: Collider) -> Vec2 {
    let pos = anchored_spec(transform, collider.0.offset);
    Vec2 { x: fx_add_spec(direction.x as int, pos.x as int) as i64, y: pos.y }
}

/// Where the corner of the mover's collider would lie after a move along
/// the y axis only.
pub open spec fn future_y_spec(direction: Vec3, transform: Transform, collider: Collider) -> Vec2 {
    let pos = anchored_spec(transform, collider.0.offset);
    Vec2 { x: pos.x, y: fx_add_spec(direction.y as int, pos.y as int) as i64 }
}

/// Whether the target blocks a move of the mover's collider by `direction`
/// along the x axis.
pub open spec fn blocked_x(
    direction: Vec3,
    transform: Transform,
    collider: Collider,
    target_transform: Transform,
    target_collider: Collider,
) -> bool {
    check_future_spec(
        future_x_spec(direction, transform, collider),
        collider,
        target_transform,
        target_collider,
    )
}

/// Whether the target blocks a move of the mover's collider by `direction`
/// along the y axis.
pub open spec fn blocked_y(
    direction: Vec3,
    transform: Transform,
    collider: Collider,
    target_transform: Transform,
    target_collider: Collider,
) -> bool {
    check_future_spec(
        future_y_spec(direction, transform, collider),
        collider,
        target_transform,
        target_collider,
    )
}

/// `direction` with the x component cleared if `clear_x`, and the y
/// component cleared if `clear_y`.
pub open spec fn cleared(direction: Vec3, clear_x: bool, clear_y: bool) -> Vec3 {
    Vec3 {
        x: if clear_x {
            0
        } else {
            direction.x
        },
        y: if clear_y {
            0
        } else {
            direction.y
        },
        z: direction.z,
    }
}

/// The push of an entity without a will of its own after it has been held
/// against a target: each axis along which the push would carry the
/// collider into the target is cleared, the other is kept.
pub open spec fn collide_spec(
    physical: Physical,
    collider: Collider,
    transform: Transform,
    target_transform: Transform,
    target_collider: Collider,
) -> Physical {
    let d = physical.direction;
    Physical {
        direction: cleared(
            d,
            blocked_x(d, transform, collider, target_transform, target_collider),
            blocked_y(d, transform, collider, target_transform, target_collider),
        ),
        ..physical
    }
}

/// The push and the willed motion of an actor after it has been held
/// against a target: the two directions are added, and each axis along
/// which the sum would carry the collider into the target is cleared in
/// both.
pub open spec fn collide_self_spec(
    physical: Physical,
    self_physical: SelfPhysical,
    collider: Collider,
    transform: Transform,
    target_transform: Transform,
    target_collider: Collider,
) -> (Physical, SelfPhysical) {
    let d = physical.direction.plus_spec(self_physical.direction);
    let bx = blocked_x(d, transform, collider, target_transform, target_collider);
    let by = blocked_y(d, transform, collider, target_transform, target_collider);
    (
        Physical { direction: cleared(physical.direction, bx, by), ..physical },
        SelfPhysical { direction: cleared(self_physical.direction, bx, by), ..self_physical },
    )
}

fn clear_axes(direction: Vec3, clear_x: bool, clear_y: bool) -> (r: Vec3)
    ensures
        r == cleared(direction, clear_x, clear_y),
{
    let mut d = direction;
    if clear_x {
        d.x = 0;
    }
    if clear_y {
        d.y = 0;
    }
    d
}

/// Holds an entity without a will of its own against a target.
pub fn collide(
    physical: &mut Physical,
    collider: &Collider,
    transform: &Transform,
    target_transform: &Transform,
    target_collider: &Collider,
)
    ensures
        *final(physical) == collide_spec(
            *old(physical),
            *collider,
            *transform,
            *target_transform,
            *target_collider,
        ),
{
    let direction: Vec3 = physical.direction;
    let pos: Vec2 = anchored(transform, collider.0.offset);
    let future_x: Vec2 = Vec2 { x: fx_add(direction.x, pos.x), y: pos.y };
    let bx: bool = check_future(future_x, collider, target_transform, target_collider);
    let future_y: Vec2 = Vec2 { x: pos.x, y: fx_add(direction.y, pos.y) };
    let by: bool = check_future(future_y, collider, target_transform, target_collider);
    physical.direction = clear_axes(direction, bx, by);
}

/// Holds an actor against a target.
pub fn collide_self(
    physical: &mut Physical,
    self_physical: &mut SelfPhysical,
    collider: &Collider,
    transform: &Transform,
    target_transform: &Transform,
    target_collider: &Collider,
)
    ensures
        (*final(physical), *final(self_physical)) == collide_self_spec(
            *old(physical),
            *old(self_physical),
            *collider,
            *transform,
            *target_transform,
            *target_collider,
        ),
{
    let direction: Vec3 = physical.direction.plus(self_physical.direction);
    let pos: Vec2 = anchored(transform, collider.0.offset);
    let future_x: Vec2 = Vec2 { x: fx_add(direction.x, pos.x), y: pos.y };
    let bx: bool = check_future(future_x, collider, target_transform, target_collider);
    let future_y: Vec2 = Vec2 { x: pos.x, y: fx_add(direction.y, pos.y) };
    let by: bool = check_future(future_y, collider, target_transform, target_collider);
    physical.direction = clear_axes(physical.direction, bx, by);
    self_physical.direction = clear_axes(self_physical.direction, bx, by);
}

/// An entity that is pushed, after it has been held against a target.
/// Without a push, a collider or a target collider nothing changes.
pub open spec fn held_against(mover: Entity, target: Entity) -> Entity {
    match (mover.physical, mover.collider, target.collider) {
        (Some(physical), Some(collider), Some(target_collider)) => match mover.self_physical {
            Some(self_physical) => {
                let (p, s) = collide_self_spec(
                    physical,
                    self_physical,
                    collider,
                    mover.transform,
                    target.transform,
                    target_collider,
                );
                Entity { physical: Some(p), self_physical: Some(s), ..mover }
            },
            None => Entity {
                physical: Some(
                    collide_spec(
                        physical,
                        collider,
                        mover.transform,
                        target.transform,
                        target_collider,
                    ),
                ),
                ..mover
            },
        },
        _ => mover,
    }
}

/// A pair of entities after their collision has been resolved. If both
/// carry a collider, the first that is pushed is held against the other;
/// the other stays as it is, also where it is pushed itself. A pair in
/// which neither is pushed, or one has no collider, stays as it is.
pub open spec fn resolve_pair_spec(a: Entity, b: Entity) -> (Entity, Entity) {
    if a.collider is None || b.collider is None {
        (a, b)
    } else if a.physical is Some {
        (held_against(a, b), b)
    } else if b.physical is Some {
        (a, held_against(b, a))
    } else {
        (a, b)
    }
}

fn hold_against(mover: Entity, target: &Entity) -> (r: Entity)
    requires
        mover.physical is Some,
        mover.collider is Some,
        target.collider is Some,
    ensures
        r == held_against(mover, *target),
{
    let mut physical: Physical = mover.physical.unwrap();
    let collider: Collider = mover.collider.unwrap();
    let target_collider: Collider = target.collider.unwrap();
    let mut result = mover;
    match mover.self_physical {
        Some(sp) => {
            let mut self_physical: SelfPhysical = sp;
            collide_self(
                &mut physical,
                &mut self_physical,
                &collider,
                &mover.transform,
                &target.transform,
                &target_collider,
            );
            result.physical = Some(physical);
            result.self_physical = Some(self_physical);
        },
        None => {
            collide(
                &mut physical,
                &collider,
                &mover.transform,
                &target.transform,
                &target_collider,
            );
            result.physical = Some(physical);
        },
    }
    result
}

/// Resolves the collision of one pair of entities.
pub fn resolve_pair(a: Entity, b: Entity) -> (r: (Entity, Entity))
    ensures
        r == resolve_pair_spec(a, b),
{
    if a.collider.is_none() || b.collider.is_none() {
        (a, b)
    } else if a.physical.is_some() {
        (hold_against(a, &b), b)
    } else if b.physical.is_some() {
        (a, hold_against(b, &a))
    } else {
        (a, b)
    }
}

/// The entities after the pair at places `i` and `j` has been resolved.
pub open spec fn resolve_at(s: Seq<Entity>, i: int, j: int) -> Seq<Entity>
    recommends
        0 <= i < j < s.len(),
{
    let (a, b) = resolve_pair_spec(s[i], s[j]);
    s.update(i, a).update(j, b)
}

/// The entities after every pair from `(i, j)` on has been resolved, in
/// the order `(0, 1), (0, 2), .., (1, 2), (1, 3), ..`: each pair sees what
/// the pairs before it left.
pub open spec fn resolve_from(s: Seq<Entity>, i: int, j: int) -> Seq<Entity>
    decreases s.len() - i, s.len() - j,
{
    if i < 0 || j <= i || i >= s.len() {
        s
    } else if j >= s.len() {
        resolve_from(s, i + 1, i + 2)
    } else {
        resolve_from(resolve_at(s, i, j), i, j + 1)
    }
}

/// The entities after every pair has been resolved.
pub open spec fn collider_direction_react_spec(s: Seq<Entity>) -> Seq<Entity> {
    resolve_from(s, 0, 1)
}

/// Resolves the collisions of a frame: every pair of entities with
/// colliders is tested, first come first served, and each axis along which
/// a pushed entity would run into the other is cleared from its
/// directions.
pub fn collider_direction_react(entities: &mut Vec<Entity>)
    ensures
        final(entities)@ == collider_direction_react_spec(old(entities)@),
        final(entities)@.len() == old(entities)@.len(),
{
    let n: usize = entities.len();
    let mut i: usize = 0;
    while i < n
        invariant
            entities@.len() == n,
            i <= n,
            resolve_from(entities@, i as int, i + 1) == resolve_from(old(entities)@, 0, 1),
        decreases n - i,
    {
        let mut j: usize = i + 1;
        while j < n
            invariant
                entities@.len() == n,
                i < n,
                i < j <= n,
                resolve_from(entities@, i as int, j as int) == resolve_from(old(entities)@, 0, 1),
            decreases n - j,
        {
            let (a, b) = resolve_pair(entities[i], entities[j]);
            entities.set(i, a);
            entities.set(j, b);
            j += 1;
        }
        i += 1;
    }
}

/// Whether an actor's own motion prevails over the push it is under: it
/// wants to move, and it is faster than the push is strong.
pub open spec fn self_moves(physical: Physical, self_physical: SelfPhysical) -> bool {
    self_physical.speed > physical.acceleration && !self_physical.direction.is_zero_spec()
}

/// The displacement of an actor by its own motion within `dt` seconds.
pub open spec fn self_step(self_physical: SelfPhysical, dt: Fixed) -> Vec3 {
    self_physical.direction.scaled_spec(dt).scaled_spec(self_physical.speed).scaled_spec(
        self_physical.multiplier,
    )
}

/// The displacement of an entity by the push it is under within `dt`
/// seconds.
pub open spec fn push_step(physical: Physical, dt: Fixed) -> Vec3 {
    physical.direction.normalize_or_zero_spec().scaled_spec(dt).scaled_spec(physical.acceleration)
}

/// The strength of a push after one step: less by the weight, but never
/// below zero.
pub open spec fn decayed(acceleration: Fixed, weight: Fixed) -> Fixed {
    let rest = fx_sub_spec(acceleration as int, weight as int);
    if rest < 0 {
        0
    } else {
        rest as i64
    }
}

/// The push after one step. A push without direction is left alone, its
/// strength included.
pub open spec fn push_after(physical: Physical) -> Physical {
    if physical.direction.is_zero_spec() {
        physical
    } else {
        Physical {
            direction: physical.direction.normalize_or_zero_spec(),
            acceleration: decayed(physical.acceleration, physical.weight),
            ..physical
        }
    }
}

/// The position after one step: first the actor's own motion, where it
/// prevails, then the push, where it has a direction.
pub open spec fn position_after(
    physical: Physical,
    self_physical: Option<SelfPhysical>,
    translation: Vec3,
    dt: Fixed,
) -> Vec3 {
    let own = match self_physical {
        Some(sp) => if self_moves(physical, sp) {
            translation.plus_spec(self_step(sp, dt))
        } else {
            translation
        },
        None => translation,
    };
    if physical.direction.is_zero_spec() {
        own
    } else {
        own.plus_spec(push_step(physical, dt))
    }
}

/// An entity after one step of `dt` seconds. One that is not pushable
/// stays as it is.
pub open spec fn integrate_spec(e: Entity, dt: Fixed) -> Entity {
    match e.physical {
        Some(physical) => Entity {
            transform: Transform {
                translation: position_after(physical, e.self_physical, e.transform.translation, dt),
            },
            physical: Some(push_after(physical)),
            ..e
        },
        None => e,
    }
}

/// Moves one entity by its own motion and by its push, and lets the push
/// decay.
pub fn integrate(
    physical: &mut Physical,
    self_physical: Option<&SelfPhysical>,
    transform: &mut Transform,
    dt: Fixed,
)
    ensures
        *final(physical) == push_after(*old(physical)),
        final(transform).translation == position_after(
            *old(physical),
            match self_physical {
                Some(sp) => Some(*sp),
                None => None,
            },
            old(transform).translation,
            dt,
        ),
        !old(physical).direction.is_zero_spec() ==> final(physical).wf(),
        old(physical).wf() ==> final(physical).wf(),
{
    if let Some(sp) = self_physical {
        if sp.speed > physical.acceleration && !sp.direction.is_zero() {
            let step: Vec3 = sp.direction.scaled(dt).scaled(sp.speed).scaled(sp.multiplier);
            transform.translation = transform.translation.plus(step);
        }
    }
    if !physical.direction.is_zero() {
        physical.direction = physical.direction.normalize_or_zero();
        let step: Vec3 = physical.direction.scaled(dt).scaled(physical.acceleration);
        transform.translation = transform.translation.plus(step);
        let rest: Fixed = fx_sub(physical.acceleration, physical.weight);
        physical.acceleration = if rest < 0 {
            0
        } else {
            rest
        };
    }
}

/// Moves every pushable entity by one step of `dt` seconds.
pub fn direction_react(dt: Fixed, entities: &mut Vec<Entity>)
    ensures
        final(entities)@.len() == old(entities)@.len(),
        forall|i: int|
            0 <= i < old(entities)@.len() ==> #[trigger] final(entities)@[i] == integrate_spec(
                old(entities)@[i],
                dt,
            ),
{
    let n: usize = entities.len();
    let mut i: usize = 0;
    while i < n
        invariant
            entities@.len() == n,
            n == old(entities)@.len(),
            i <= n,
            forall|k: int| 0 <= k < i ==> #[trigger] entities@[k] == integrate_spec(old(entities)@[k], dt),
            forall|k: int| i <= k < n ==> #[trigger] entities@[k] == old(entities)@[k],
        decreases n - i,
    {
        let mut e: Entity = entities[i];
        if let Some(p) = e.physical {
            let mut physical: Physical = p;
            let mut transform: Transform = e.transform;
            match e.self_physical {
                Some(sp) => integrate(&mut physical, Some(&sp), &mut transform, dt),
                None => integrate(&mut physical, None, &mut transform, dt),
            }
            e.physical = Some(physical);
            e.transform = transform;
            entities.set(i, e);
        }
        i += 1;
    }
}

/// Whether a direction has a part in the plane.
pub open spec fn in_plane(direction: Vec3) -> bool {
    direction.x != 0 || direction.y != 0
}

/// What an entity is doing, given its motion: it walks where it wants to
/// move and is either not pushed or faster than the push is strong;
/// otherwise it is dragged where it is pushed, and idle where it is not.
pub open spec fn movement_state_spec(
    physical: Physical,
    self_physical: Option<SelfPhysical>,
) -> MovementState {
    let being_pushed = in_plane(physical.direction);
    let walks = match self_physical {
        Some(sp) => (physical.acceleration < sp.speed || !being_pushed) && in_plane(sp.direction),
        None => false,
    };
    if walks {
        MovementState::WALK
    } else if being_pushed {
        MovementState::DRAG
    } else {
        MovementState::IDLE
    }
}

/// An entity with its movement state brought up to date. One without a
/// movement state or without a push component stays as it is.
pub open spec fn with_movement_state(e: Entity) -> Entity {
    match (e.movement_state, e.physical) {
        (Some(ms), Some(physical)) => Entity {
            movement_state: Some(
                MultipleMovementState { state: movement_state_spec(physical, e.self_physical), ..ms },
            ),
            ..e
        },
        _ => e,
    }
}

/// Works out what an entity is doing from its motion.
pub fn movement_state_of(physical: &Physical, self_physical: Option<&SelfPhysical>) -> (r:
    MovementState)
    ensures
        r == movement_state_spec(
            *physical,
            match self_physical {
                Some(sp) => Some(*sp),
                None => None,
            },
        ),
{
    let being_pushed: bool = physical.direction.x != 0 || physical.direction.y != 0;
    let mut state = if being_pushed {
        MovementState::DRAG
    } else {
        MovementState::IDLE
    };
    if let Some(sp) = self_physical {
        let moving: bool = sp.direction.x != 0 || sp.direction.y != 0;
        if (physical.acceleration < sp.speed || !being_pushed) && moving {
            state = MovementState::WALK;
        }
    }
    state
}

/// Brings the movement state of every entity up to date with its motion.
/// The caller hands in the entities whose motion has changed.
pub fn update_movement_state_by_direction(entities: &mut Vec<Entity>)
    ensures
        final(entities)@.len() == old(entities)@.len(),
        forall|i: int|
            0 <= i < old(entities)@.len() ==> #[trigger] final(entities)@[i] == with_movement_state(
                old(entities)@[i],
            ),
{
    let n: usize = entities.len();
    let mut i: usize = 0;
    while i < n
        invariant
            entities@.len() == n,
            n == old(entities)@.len(),
            i <= n,
            forall|k: int| 0 <= k < i ==> #[trigger] entities@[k] == with_movement_state(old(entities)@[k]),
            forall|k: int| i <= k < n ==> #[trigger] entities@[k] == old(entities)@[k],
        decreases n - i,
    {
        let mut e: Entity = entities[i];
        if let Some(ms) = e.movement_state {
            if let Some(physical) = e.physical {
                let state = match e.self_physical {
                    Some(sp) => movement_state_of(&physical, Some(&sp)),
                    None => movement_state_of(&physical, None),
                };
                let mut updated: MultipleMovementState = ms;
                updated.state = state;
                e.movement_state = Some(updated);
                entities.set(i, e);
            }
        }
        i += 1;
    }
}

/// The direction that decides the facing: the actor's own where it is
/// faster than the push is strong, else that of the push.
pub open spec fn leading_direction(physical: Physical, self_physical: Option<SelfPhysical>) -> Vec3 {
    match self_physical {
        Some(sp) => if physical.acceleration < sp.speed {
            sp.direction
        } else {
            physical.direction
        },
        None => physical.direction,
    }
}

/// The facing that a direction calls for, given the facing so far. Both
/// axes are cut off after their second decimal place; then right and left
/// come before bottom and top, and a direction without a part in the plane
/// leaves the facing as it was.
pub open spec fn facing_spec(direction: Vec3, before: Side) -> Side {
    let x = trunc_hundredths_spec(direction.x as int);
    let y = trunc_hundredths_spec(direction.y as int);
    if x > 0 {
        Side::RIGHT
    } else if x < 0 {
        Side::LEFT
    } else if y < 0 {
        Side::BOTTOM
    } else if y > 0 {
        Side::TOP
    } else {
        before
    }
}

/// An entity with its facing brought up to date. One without a facing or
/// without a push component stays as it is.
pub open spec fn with_facing(e: Entity) -> Entity {
    match (e.multiple_sided, e.physical) {
        (Some(sided), Some(physical)) => Entity {
            multiple_sided: Some(
                MultipleSided {
                    side: facing_spec(leading_direction(physical, e.self_physical), sided.side),
                },
            ),
            ..e
        },
        _ => e,
    }
}

/// Works out the facing that a direction calls for.
pub fn facing(direction: Vec3, before: Side) -> (r: Side)
    ensures
        r == facing_spec(direction, before),
{
    let x: Fixed = trunc_hundredths(direction.x);
    let y: Fixed = trunc_hundredths(direction.y);
    if x > 0 {
        Side::RIGHT
    } else if x < 0 {
        Side::LEFT
    } else if y < 0 {
        Side::BOTTOM
    } else if y > 0 {
        Side::TOP
    } else {
        before
    }
}

/// Brings the facing of every entity up to date with its motion. The
/// caller hands in the entities whose motion has changed.
pub fn update_sideds_by_direction(entities: &mut Vec<Entity>)
    ensures
        final(entities)@.len() == old(entities)@.len(),
        forall|i: int|
            0 <= i < old(entities)@.len() ==> #[trigger] final(entities)@[i] == with_facing(
                old(entities)@[i],
            ),
{
    let n: usize = entities.len();
    let mut i: usize = 0;
    while i < n
        invariant
            entities@.len() == n,
            n == old(entities)@.len(),
            i <= n,
            forall|k: int| 0 <= k < i ==> #[trigger] entities@[k] == with_facing(old(entities)@[k]),
            forall|k: int| i <= k < n ==> #[trigger] entities@[k] == old(entities)@[k],
        decreases n - i,
    {
        let mut e: Entity = entities[i];
        if let Some(sided) = e.multiple_sided {
            if let Some(physical) = e.physical {
                let mut direction: Vec3 = physical.direction;
                if let Some(sp) = e.self_physical {
                    if physical.acceleration < sp.speed {
                        direction = sp.direction;
                    }
                }
                e.multiple_sided = Some(MultipleSided { side: facing(direction, sided.side) });
                entities.set(i, e);
            }
        }
        i += 1;
    }
}

/// The push after `n` steps.
pub open spec fn push_after_steps(physical: Physical, n: nat) -> Physical
    decreases n,
{
    if n == 0 {
        physical
    } else {
        push_after(push_after_steps(physical, (n - 1) as nat))
    }
}

/// A push that has a direction and a positive weight keeps its direction
/// and its weight through a step, and its strength falls: a strength above
/// zero becomes strictly smaller without going below zero, and a strength
/// of zero stays zero.
pub proof fn lemma_decay_step(physical: Physical)
    requires
        !physical.direction.is_zero_spec(),
        physical.weight > 0,
        physical.wf(),
    ensures
        !push_after(physical).direction.is_zero_spec(),
        push_after(physical).weight == physical.weight,
        push_after(physical).wf(),
        push_after(physical).acceleration == if physical.acceleration > physical.weight {
            physical.acceleration - physical.weight
        } else {
            0
        },
        physical.acceleration > 0 ==> push_after(physical).acceleration < physical.acceleration,
        physical.acceleration == 0 ==> push_after(physical).acceleration == 0,
{
    lemma_normalize_nonzero(physical.direction);
}

/// Under repeated steps the strength of a push with a direction and a
/// positive weight falls by the weight each time until it reaches zero,
/// and then stays zero: after `n` steps it is what is left of it once `n`
/// weights have been taken away, or zero if that is less.
pub proof fn lemma_decay_monotone(physical: Physical, n: nat)
    requires
        !physical.direction.is_zero_spec(),
        physical.weight > 0,
        physical.wf(),
    ensures
        !push_after_steps(physical, n).direction.is_zero_spec(),
        push_after_steps(physical, n).weight == physical.weight,
        push_after_steps(physical, n).acceleration == if physical.acceleration > n
            * physical.weight {
            physical.acceleration - n * physical.weight
        } else {
            0
        },
        push_after_steps(physical, n + 1).acceleration <= push_after_steps(
            physical,
            n,
        ).acceleration,
        push_after_steps(physical, n).acceleration > 0 ==> push_after_steps(
            physical,
            n + 1,
        ).acceleration < push_after_steps(physical, n).acceleration,
    decreases n,
{
    if n > 0 {
        lemma_decay_monotone(physical, (n - 1) as nat);
        let before = push_after_steps(physical, (n - 1) as nat);
        lemma_decay_step(before);
        assert(n * physical.weight == (n - 1) * physical.weight + physical.weight)
            by (nonlinear_arith);
    } else {
        assert(0 * physical.weight == 0);
    }
    let now = push_after_steps(physical, n);
    lemma_decay_step(now);
    assert(push_after_steps(physical, n + 1) == push_after(now));
}

/// Where a target blocks the way of a pushed entity along the x axis but
/// not along the y axis, the entity loses the x part of its push and keeps
/// the y part: it slides along the target.
pub proof fn lemma_axis_independent_blocking(
    physical: Physical,
    collider: Collider,
    transform: Transform,
    target_transform: Transform,
    target_collider: Collider,
)
    requires
        blocked_x(physical.direction, transform, collider, target_transform, target_collider),
        !blocked_y(physical.direction, transform, collider, target_transform, target_collider),
    ensures
        collide_spec(
            physical,
            collider,
            transform,
            target_transform,
            target_collider,
        ).direction.x == 0,
        collide_spec(
            physical,
            collider,
            transform,
            target_transform,
            target_collider,
        ).direction.y == physical.direction.y,
{
}

/// Where a target blocks the way of an actor along the x axis but not
/// along the y axis, both the push and the actor's own motion lose their x
/// part and keep their y part.
pub proof fn lemma_axis_independent_blocking_self(
    physical: Physical,
    self_physical: SelfPhysical,
    collider: Collider,
    transform: Transform,
    target_transform: Transform,
    target_collider: Collider,
)
    requires
        blocked_x(
            physical.direction.plus_spec(self_physical.direction),
            transform,
            collider,
            target_transform,
            target_collider,
        ),
        !blocked_y(
            physical.direction.plus_spec(self_physical.direction),
            transform,
            collider,
            target_transform,
            target_collider,
        ),
    ensures
        ({
            let (p, s) = collide_self_spec(
                physical,
                self_physical,
                collider,
                transform,
                target_transform,
                target_collider,
            );
            &&& p.direction.x == 0
            &&& s.direction.x == 0
            &&& p.direction.y == physical.direction.y
            &&& s.direction.y == self_physical.direction.y
        }),
{
}

/// A pushed entity without a will of its own, met by a target that blocks
/// its way along the x axis but not along the y axis, comes out of the
/// pair with the x part of its push cleared and the y part kept; the
/// target stays as it is.
pub proof fn lemma_slide_along_target(mover: Entity, target: Entity)
    requires
        mover.physical is Some,
        mover.self_physical is None,
        mover.collider is Some,
        target.collider is Some,
        blocked_x(
            mover.physical->0.direction,
            mover.transform,
            mover.collider->0,
            target.transform,
            target.collider->0,
        ),
        !blocked_y(
            mover.physical->0.direction,
            mover.transform,
            mover.collider->0,
            target.transform,
            target.collider->0,
        ),
    ensures
        ({
            let (m, t) = resolve_pair_spec(mover, target);
            &&& t == target
            &&& m.physical is Some
            &&& m.physical->0.direction.x == 0
            &&& m.physical->0.direction.y == mover.physical->0.direction.y
            &&& m.physical->0.direction.z == mover.physical->0.direction.z
            &&& m.transform == mover.transform
        }),
{
}

/// Among two entities there is one pair to resolve, and resolving it is
/// all that a frame does to them.
pub proof fn lemma_two_entities_one_pair(s: Seq<Entity>)
    requires
        s.len() == 2,
    ensures
        collider_direction_react_spec(s) == resolve_at(s, 0, 1),
        collider_direction_react_spec(s) == seq![
            resolve_pair_spec(s[0], s[1]).0,
            resolve_pair_spec(s[0], s[1]).1,
        ],
{
    reveal_with_fuel(resolve_from, 5);
    let r = resolve_at(s, 0, 1);
    assert(r.len() == 2);
    assert(resolve_from(r, 2, 3) == r);
    assert(resolve_from(r, 1, 2) == r);
    assert(resolve_from(r, 0, 2) == r);
    assert(r =~= seq![resolve_pair_spec(s[0], s[1]).0, resolve_pair_spec(s[0], s[1]).1]);
}

/// Resolving collisions never turns a direction: each part of a direction
/// is afterwards what it was or zero, and nothing but the directions of
/// the pair changes.
pub proof fn lemma_resolve_pair_only_clears(a: Entity, b: Entity)
    ensures
        ({
            let (a2, b2) = resolve_pair_spec(a, b);
            &&& only_cleared(a, a2)
            &&& only_cleared(b, b2)
        }),
{
}

/// `after` is `before` but for parts of its directions in the plane, each
/// of which is either as before or zero.
pub open spec fn only_cleared(before: Entity, after: Entity) -> bool {
    &&& after.physical is Some <==> before.physical is Some
    &&& after.self_physical is Some <==> before.self_physical is Some
    &&& after == Entity { physical: after.physical, self_physical: after.self_physical, ..before }
    &&& before.physical matches Some(p) ==> {
        let q = after.physical->0;
        &&& q == Physical { direction: q.direction, ..p }
        &&& q.direction.z == p.direction.z
        &&& (q.direction.x == p.direction.x || q.direction.x == 0)
        &&& (q.direction.y == p.direction.y || q.direction.y == 0)
    }
    &&& before.self_physical matches Some(p) ==> {
        let q = after.self_physical->0;
        &&& q == SelfPhysical { direction: q.direction, ..p }
        &&& q.direction.z == p.direction.z
        &&& (q.direction.x == p.direction.x || q.direction.x == 0)
        &&& (q.direction.y == p.direction.y || q.direction.y == 0)
    }
}

/// Two directions that agree up to their second decimal place call for the
/// same facing.
pub proof fn lemma_facing_truncation_stable(a: Vec3, b: Vec3, before: Side)
    requires
        trunc_hundredths_spec(a.x as int) == trunc_hundredths_spec(b.x as int),
        trunc_hundredths_spec(a.y as int) == trunc_hundredths_spec(b.y as int),
    ensures
        facing_spec(a, before) == facing_spec(b, before),
{
}

/// Two quantities in the same hundredth, on the same side of zero, are cut
/// off to the same value.
pub proof fn lemma_same_hundredth(a: Fixed, b: Fixed, k: int)
    requires
        k >= 0,
        (k * HUNDREDTH <= a < (k + 1) * HUNDREDTH && k * HUNDREDTH <= b < (k + 1) * HUNDREDTH) || (
        -(k + 1) * HUNDREDTH < a <= -k * HUNDREDTH && -(k + 1) * HUNDREDTH < b <= -k
            * HUNDREDTH),
    ensures
        trunc_hundredths_spec(a as int) == trunc_hundredths_spec(b as int),
{
    let h = HUNDREDTH as int;
    if k * h <= a < (k + 1) * h && k * h <= b < (k + 1) * h {
        assert(a as int / h == k && b as int / h == k) by (nonlinear_arith)
            requires
                k * h <= a < (k + 1) * h,
                k * h <= b < (k + 1) * h,
                h == 10_000,
                k >= 0,
        ;
    } else {
        assert((-a) / h == k && (-b) / h == k) by (nonlinear_arith)
            requires
                -(k + 1) * h < a <= -k * h,
                -(k + 1) * h < b <= -k * h,
                h == 10_000,
                k >= 0,
        ;
        if a == 0 || b == 0 {
            assert(k == 0);
        }
    }
}

/// A direction with a part along the x axis of at least a hundredth calls
/// for a facing to the left or to the right, whatever its part along the y
/// axis is.
pub proof fn lemma_horizontal_priority(direction: Vec3, before: Side)
    requires
        direction.x >= HUNDREDTH || direction.x <= -HUNDREDTH,
    ensures
        direction.x > 0 ==> facing_spec(direction, before) == Side::RIGHT,
        direction.x < 0 ==> facing_spec(direction, before) == Side::LEFT,
{
    let x = direction.x as int;
    let h = HUNDREDTH as int;
    if x >= h {
        assert(x / h >= 1) by (nonlinear_arith)
            requires
                x >= h,
                h == 10_000,
        ;
        assert((x / h) * h > 0) by (nonlinear_arith)
            requires
                x / h >= 1,
                h == 10_000,
        ;
    } else {
        assert((-x) / h >= 1) by (nonlinear_arith)
            requires
                -x >= h,
                h == 10_000,
        ;
        assert(-((-x) / h) * h < 0) by (nonlinear_arith)
            requires
                (-x) / h >= 1,
                h == 10_000,
        ;
    }
}

} // verus!
