//! What mobs want, and where that takes them.

use vstd::prelude::*;
use crate::fixed::{Fixed, ONE, fx_add, fx_add_spec, fx_sub, fx_sub_spec};
use crate::living::components::{Desire, Intention};
use crate::physics::components::{SelfPhysical, Transform};
use crate::rng::components::RngResource;
use crate::vector::{Vec2, Vec3};
use crate::world::Entity;

verus! {

/// How far from its place a wandering mob may choose to go along each
/// axis: a hundred units.
pub const WANDER_RANGE: Fixed = 100_000_000;

/// The direction from `from` towards `to` in the plane, scaled to length
/// one; zero where the two coincide.
pub open spec fn heading_spec(from: Vec3, to: Vec2) -> Vec2 {
    (Vec2 {
        x: fx_sub_spec(to.x as int, from.x as int) as i64,
        y: fx_sub_spec(to.y as int, from.y as int) as i64,
    }).normalize_or_zero_spec()
}

/// The own motion of a mob, set by what it wants: towards the place it
/// wants to reach if it wants to walk there, at rest otherwise.
pub open spec fn steered_spec(
    desire: Desire,
    self_physical: SelfPhysical,
    transform: Transform,
) -> SelfPhysical {
    match desire.intention {
        Intention::WalkTo => {
            let heading = heading_spec(transform.translation, desire.position);
            SelfPhysical {
                direction: Vec3 { x: heading.x, y: heading.y, z: self_physical.direction.z },
                ..self_physical
            }
        },
        _ => SelfPhysical { direction: Vec3::zero_spec(), ..self_physical },
    }
}

/// An entity with its own motion set by what it wants. One without a
/// desire or without a will of its own stays as it is.
pub open spec fn steered(e: Entity) -> Entity {
    match (e.desire, e.self_physical) {
        (Some(desire), Some(sp)) => Entity {
            self_physical: Some(steered_spec(desire, sp, e.transform)),
            ..e
        },
        _ => e,
    }
}

/// Sets the own motion of one mob by what it wants.
pub fn steer(desire: &Desire, self_physical: &mut SelfPhysical, transform: &Transform)
    ensures
        *final(self_physical) == steered_spec(*desire, *old(self_physical), *transform),
{
    match desire.intention {
        Intention::WalkTo => {
            let towards = Vec2 {
                x: fx_sub(desire.position.x, transform.translation.x),
                y: fx_sub(desire.position.y, transform.translation.y),
            };
            let heading: Vec2 = towards.normalize_or_zero();
            self_physical.direction.x = heading.x;
            self_physical.direction.y = heading.y;
        },
        _ => {
            self_physical.direction = Vec3::zero();
        },
    }
}

/// Sets the own motion of every mob by what it wants.
pub fn update_mob_direction(entities: &mut Vec<Entity>)
    ensures
        final(entities)@.len() == old(entities)@.len(),
        forall|i: int|
            0 <= i < old(entities)@.len() ==> #[trigger] final(entities)@[i] == steered(
                old(entities)@[i],
            ),
{
    let n: usize = entities.len();
    let mut i: usize = 0;
    while i < n
        invariant
            entities@.len() == n,
            n == old(entities)@.len(),
            i <= n,
            forall|k: int| 0 <= k < i ==> #[trigger] entities@[k] == steered(old(entities)@[k]),
            forall|k: int| i <= k < n ==> #[trigger] entities@[k] == old(entities)@[k],
        decreases n - i,
    {
        let mut e: Entity = entities[i];
        if let Some(desire) = e.desire {
            if let Some(sp) = e.self_physical {
                let mut self_physical: SelfPhysical = sp;
                steer(&desire, &mut self_physical, &e.transform);
                e.self_physical = Some(self_physical);
                entities.set(i, e);
            }
        }
        i += 1;
    }
}

/// Looks at every pair of mobs with an aggression zone. No mob reacts to
/// another yet, so the entities stay as they are.
pub fn check_aggression_zone(entities: &mut Vec<Entity>)
    ensures
        final(entities)@ == old(entities)@,
{
}

/// Whether a mob at `translation` has arrived at `position`: along each
/// axis it is at most one unit short of it and less than one unit past.
pub open spec fn arrived_spec(position: Vec2, translation: Vec3) -> bool {
    &&& fx_sub_spec(position.x as int, ONE as int) <= translation.x < fx_add_spec(
        position.x as int,
        ONE as int,
    )
    &&& fx_sub_spec(position.y as int, ONE as int) <= translation.y < fx_add_spec(
        position.y as int,
        ONE as int,
    )
}

/// Whether a mob at `translation` has arrived at `position`.
pub fn arrived(position: Vec2, translation: Vec3) -> (r: bool)
    ensures
        r == arrived_spec(position, translation),
{
    fx_sub(position.x, ONE) <= translation.x && translation.x < fx_add(position.x, ONE) && fx_sub(
        position.y,
        ONE,
    ) <= translation.y && translation.y < fx_add(position.y, ONE)
}

/// What an idle mob wants after it has chosen anew: with a choice of 0 it
/// stays idle and forgets its place; with a choice of 1 it wants to walk
/// to `(x, y)`; any other choice changes nothing.
pub open spec fn chosen_spec(desire: Desire, choice: i64, x: Fixed, y: Fixed) -> Desire {
    if choice == 0 {
        Desire { intention: Intention::Idle, position: Vec2::zero_spec(), ..desire }
    } else if choice == 1 {
        Desire { intention: Intention::WalkTo, position: Vec2 { x, y }, ..desire }
    } else {
        desire
    }
}

/// Takes the choice of an idle mob.
pub fn take_choice(desire: &mut Desire, choice: i64, x: Fixed, y: Fixed)
    ensures
        *final(desire) == chosen_spec(*old(desire), choice, x, y),
{
    if choice == 0 {
        desire.intention = Intention::Idle;
        desire.position = Vec2::zero();
    } else if choice == 1 {
        desire.intention = Intention::WalkTo;
        desire.position = Vec2 { x, y };
    }
}

/// Whether `(choice, x, y)` is a draw that a mob at `translation` can
/// make: the choice is 0 or 1, and the place lies within the wander range
/// of the mob along each axis.
pub open spec fn is_draw(translation: Vec3, choice: i64, x: Fixed, y: Fixed) -> bool {
    &&& 0 <= choice < 2
    &&& fx_sub_spec(translation.x as int, WANDER_RANGE as int) <= x < fx_add_spec(
        translation.x as int,
        WANDER_RANGE as int,
    )
    &&& fx_sub_spec(translation.y as int, WANDER_RANGE as int) <= y < fx_add_spec(
        translation.y as int,
        WANDER_RANGE as int,
    )
}

/// What a mob wants after a step of `delta` nanoseconds, given the draw it
/// makes if it chooses anew. An idle mob runs its timer and chooses anew
/// when it fires; one that walks becomes idle when it has arrived; one
/// that attacks goes on.
pub open spec fn desire_after(
    desire: Desire,
    translation: Vec3,
    delta: u64,
    choice: i64,
    x: Fixed,
    y: Fixed,
) -> Desire {
    match desire.intention {
        Intention::Idle => {
            let waited = Desire { update_timer: desire.update_timer.ticked(delta), ..desire };
            if desire.update_timer.fires(delta) {
                chosen_spec(waited, choice, x, y)
            } else {
                waited
            }
        },
        Intention::WalkTo => if arrived_spec(desire.position, translation) {
            Desire { intention: Intention::Idle, ..desire }
        } else {
            desire
        },
        Intention::Attack => desire,
    }
}

/// Whether `after` is what `before` can become in a step of `delta`
/// nanoseconds: nothing but its desire has changed, and the desire is what
/// follows from some draw that the mob can make.
pub open spec fn wandered(before: Entity, after: Entity, delta: u64) -> bool {
    match before.desire {
        Some(desire) => exists|choice: i64, x: Fixed, y: Fixed|
            is_draw(before.transform.translation, choice, x, y) && after == (Entity {
                desire: Some(
                    #[trigger] desire_after(desire, before.transform.translation, delta, choice, x, y),
                ),
                ..before
            }),
        None => after == before,
    }
}

/// Whether the desire of an entity can take a step of `delta`
/// nanoseconds: the timer of an idle mob can.
pub open spec fn can_wander(e: Entity, delta: u64) -> bool {
    match e.desire {
        Some(desire) => desire.intention == Intention::Idle ==> desire.update_timer.can_tick(delta),
        None => true,
    }
}

/// Whether the desire of the entity can take a step of `delta`
/// nanoseconds.
pub fn ready_to_wander(e: &Entity, delta: u64) -> (r: bool)
    ensures
        r == can_wander(*e, delta),
{
    match e.desire {
        Some(desire) => match desire.intention {
            Intention::Idle => desire.update_timer.tickable(delta),
            _ => true,
        },
        None => true,
    }
}

/// Lets an idle mob run its timer and, when it fires, choose anew by lot
/// between staying idle and walking to a place within its wander range.
pub fn change_desire(desire: &mut Desire, delta: u64, rng: &mut RngResource, transform: &Transform)
    requires
        old(desire).intention == Intention::Idle,
        old(desire).update_timer.can_tick(delta),
    ensures
        exists|choice: i64, x: Fixed, y: Fixed|
            is_draw(transform.translation, choice, x, y) && *final(desire) == #[trigger] desire_after(
                *old(desire),
                transform.translation,
                delta,
                choice,
                x,
                y,
            ),
{
    let ghost before = *desire;
    let tx: Fixed = transform.translation.x;
    let ty: Fixed = transform.translation.y;
    if desire.update_timer.tick(delta) {
        let choice: i64 = rng.next_in_range(0, 2);
        let mut x: Fixed = fx_sub(tx, WANDER_RANGE);
        let mut y: Fixed = fx_sub(ty, WANDER_RANGE);
        if choice == 1 {
            x = rng.next_in_range(fx_sub(tx, WANDER_RANGE), fx_add(tx, WANDER_RANGE));
            y = rng.next_in_range(fx_sub(ty, WANDER_RANGE), fx_add(ty, WANDER_RANGE));
        }
        take_choice(desire, choice, x, y);
        assert(is_draw(transform.translation, choice, x, y));
        assert(*desire == desire_after(before, transform.translation, delta, choice, x, y));
    } else {
        let ghost x = fx_sub_spec(tx as int, WANDER_RANGE as int) as i64;
        let ghost y = fx_sub_spec(ty as int, WANDER_RANGE as int) as i64;
        assert(is_draw(transform.translation, 0, x, y));
        assert(*desire == desire_after(before, transform.translation, delta, 0, x, y));
    }
}

/// Brings what every mob wants up to date after `delta` nanoseconds.
pub fn update_desire(delta: u64, rng: &mut RngResource, entities: &mut Vec<Entity>)
    requires
        forall|i: int| 0 <= i < old(entities)@.len() ==> can_wander(#[trigger] old(entities)@[i], delta),
    ensures
        final(entities)@.len() == old(entities)@.len(),
        forall|i: int|
            0 <= i < old(entities)@.len() ==> wandered(
                old(entities)@[i],
                #[trigger] final(entities)@[i],
                delta,
            ),
{
    let n: usize = entities.len();
    let mut i: usize = 0;
    while i < n
        invariant
            entities@.len() == n,
            n == old(entities)@.len(),
            i <= n,
            forall|k: int| 0 <= k < n ==> can_wander(#[trigger] old(entities)@[k], delta),
            forall|k: int| 0 <= k < i ==> wandered(old(entities)@[k], #[trigger] entities@[k], delta),
            forall|k: int| i <= k < n ==> #[trigger] entities@[k] == old(entities)@[k],
        decreases n - i,
    {
        let mut e: Entity = entities[i];
        let ghost before = e;
        assert(can_wander(old(entities)@[i as int], delta));
        if let Some(d) = e.desire {
            let mut desire: Desire = d;
            match desire.intention {
                Intention::Idle => {
                    change_desire(&mut desire, delta, rng, &e.transform);
                },
                Intention::WalkTo => {
                    if arrived(desire.position, e.transform.translation) {
                        desire.intention = Intention::Idle;
                    }
                    proof {
                        let t = e.transform.translation;
                        let x = fx_sub_spec(t.x as int, WANDER_RANGE as int) as i64;
                        let y = fx_sub_spec(t.y as int, WANDER_RANGE as int) as i64;
                        assert(is_draw(t, 0, x, y));
                        assert(desire == desire_after(d, t, delta, 0, x, y));
                    }
                },
                Intention::Attack => {
                    proof {
                        let t = e.transform.translation;
                        let x = fx_sub_spec(t.x as int, WANDER_RANGE as int) as i64;
                        let y = fx_sub_spec(t.y as int, WANDER_RANGE as int) as i64;
                        assert(is_draw(t, 0, x, y));
                        assert(desire == desire_after(d, t, delta, 0, x, y));
                    }
                },
            }
            e.desire = Some(desire);
            entities.set(i, e);
            assert(wandered(before, e, delta));
        }
        i += 1;
    }
}

} // verus!
