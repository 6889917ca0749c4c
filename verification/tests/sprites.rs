use topdown_physics::physics::components::{SelfPhysical, Transform, TransformZone};
use topdown_physics::physics::sprite_change::components::{
    AtlasSprite, MovementState, MultipleMovementState, MultipleSided, Side, SpriteZone,
};
use topdown_physics::physics::sprite_change::systems::{
    frame_duration, order_pair, overlap_sprite_zones, pose, ready_to_animate, syncable,
    sync_self_physical_multiple_movement, update_idle_sprite, update_movement_sided_sprite,
    shows_its_side, update_sided_sprite, update_walk_sprite, walk_cycle, WalkCycle, DEPTH_STEP,
};
use topdown_physics::sound::components::{SoundEvent, SoundType};
use topdown_physics::timer::FrameTimer;
use topdown_physics::vector::{Vec2, Vec3};
use topdown_physics::world::Entity;

const U: i64 = 1_000_000;
const MS: u64 = 1_000_000;

fn state(index: usize, state: MovementState, used_first: bool) -> MultipleMovementState {
    MultipleMovementState {
        current_index: index,
        state,
        used_first,
        ..MultipleMovementState::default()
    }
}

fn sprite(index: usize, flip_x: bool) -> AtlasSprite {
    AtlasSprite { index, flip_x }
}

fn animated(side: Side, ms: MultipleMovementState) -> Entity {
    let mut e = Entity::bare(Transform::identity());
    e.multiple_sided = Some(MultipleSided { side });
    e.movement_state = Some(ms);
    e.sprite = Some(AtlasSprite::default());
    e
}

fn zoned(x: i64, y: i64, z: i64) -> Entity {
    let mut e = Entity::bare(Transform::from_xyz(x * U, y * U, z));
    e.sprite_zone = Some(SpriteZone(TransformZone::new(Vec2::new(16 * U, 16 * U), Vec2::zero())));
    e
}

#[test]
fn timer_fires_once_per_duration() {
    let mut t = FrameTimer::new(200 * MS);
    assert!(!t.tick(150 * MS));
    assert_eq!(t, FrameTimer { elapsed_nanos: 150 * MS, duration_nanos: 200 * MS });
    assert!(t.tick(150 * MS));
    assert_eq!(t.elapsed_nanos, 100 * MS);
    assert!(!t.tick(99 * MS));
    assert_eq!(t.elapsed_nanos, 199 * MS);
    assert!(t.tick(MS));
    assert_eq!(t.elapsed_nanos, 0);
    assert!(!t.tick(0));
    assert!(t.tick(700 * MS));
    assert_eq!(t.elapsed_nanos, 100 * MS);
    assert_eq!(t.duration_nanos, 200 * MS);
}

#[test]
fn timer_with_a_shortened_duration_catches_up() {
    let mut t = FrameTimer { elapsed_nanos: 150 * MS, duration_nanos: 200 * MS };
    t.set_duration(100 * MS);
    assert_eq!(t, FrameTimer { elapsed_nanos: 150 * MS, duration_nanos: 100 * MS });
    assert!(t.tick(0));
    assert_eq!(t.elapsed_nanos, 50 * MS);
}

#[test]
fn timer_knows_what_it_can_take() {
    assert!(!FrameTimer::new(0).tickable(0));
    assert!(!FrameTimer::new(0).tickable(5));
    assert!(FrameTimer::new(1).tickable(u32::MAX as u64));
    assert!(!FrameTimer::new(1).tickable(u32::MAX as u64 + 1));
    assert!(FrameTimer::new(200 * MS).tickable(200 * MS * u32::MAX as u64 + 199 * MS));
    assert!(!FrameTimer::new(200 * MS).tickable(200 * MS * (u32::MAX as u64 + 1)));
    assert!(!FrameTimer::new(200 * MS).tickable(u64::MAX));
    let late = FrameTimer { elapsed_nanos: u64::MAX, duration_nanos: 2 };
    assert!(!late.tickable(u64::MAX));
    let mut busy = FrameTimer::new(1);
    assert!(busy.tick(u32::MAX as u64));
    assert_eq!(busy.elapsed_nanos, 0);
    let mut far = FrameTimer { elapsed_nanos: u64::MAX, duration_nanos: u64::MAX };
    assert!(far.tickable(u64::MAX));
    assert!(far.tick(u64::MAX));
    assert_eq!(far.elapsed_nanos, 0);
}

#[test]
fn frame_duration_follows_the_multiplier() {
    assert_eq!(frame_duration(200_000, U), 200_000_000);
    assert_eq!(frame_duration(200_000, 1_800_000), 111_111_000);
    assert_eq!(frame_duration(200_000, 500_000), 400_000_000);
    assert_eq!(frame_duration(0, U), 0);
    assert_eq!(frame_duration(-200_000, -U), 200_000_000);
    assert_eq!(frame_duration(i64::MAX, U), u64::MAX);
}

#[test]
fn sync_sets_the_pace() {
    let mut sprinter = animated(Side::LEFT, MultipleMovementState::default());
    sprinter.self_physical =
        Some(SelfPhysical { direction: Vec3::zero(), speed: U, multiplier: 1_800_000 });
    let mut running = sprinter;
    let mut ms = MultipleMovementState::default();
    ms.timer.elapsed_nanos = 42;
    running.movement_state = Some(ms);
    let will_less = animated(Side::LEFT, MultipleMovementState::default());
    let mut world = vec![sprinter, running, will_less];
    assert!(world.iter().all(syncable));
    sync_self_physical_multiple_movement(&mut world);
    assert_eq!(
        world[0].movement_state.unwrap().timer,
        FrameTimer { elapsed_nanos: 0, duration_nanos: 111_111_000 }
    );
    assert_eq!(
        world[1].movement_state.unwrap().timer,
        FrameTimer { elapsed_nanos: 42, duration_nanos: 111_111_000 }
    );
    assert_eq!(world[1].movement_state.unwrap().default_duration, 200_000);
    assert_eq!(world[2], will_less);
    assert_eq!(world[0].self_physical, sprinter.self_physical);
}

#[test]
fn sync_needs_a_multiplier() {
    let mut e = animated(Side::LEFT, MultipleMovementState::default());
    e.self_physical = Some(SelfPhysical { direction: Vec3::zero(), speed: U, multiplier: 0 });
    assert!(!syncable(&e));
    e.self_physical = Some(SelfPhysical { direction: Vec3::zero(), speed: U, multiplier: -U });
    assert!(!syncable(&e));
    e.self_physical = Some(SelfPhysical { direction: Vec3::zero(), speed: U, multiplier: U });
    assert!(syncable(&e));
    e.movement_state = None;
    e.self_physical = Some(SelfPhysical { direction: Vec3::zero(), speed: U, multiplier: 0 });
    assert!(syncable(&e));
}

#[test]
fn idle_frames_run_through_their_range() {
    let mut ms = state(5, MovementState::IDLE, false);
    let mut sp = sprite(0, true);
    let mut seen = Vec::new();
    for _ in 0..5 {
        update_idle_sprite(&mut ms, &mut sp, 5, 7, true, false);
        seen.push((ms.current_index, sp.index, sp.flip_x));
    }
    assert_eq!(
        seen,
        vec![(6, 6, false), (7, 7, false), (5, 5, false), (6, 6, false), (7, 7, false)]
    );
    update_idle_sprite(&mut ms, &mut sp, 5, 7, false, true);
    assert_eq!((ms.current_index, sp), (5, sprite(5, true)));
    update_idle_sprite(&mut ms, &mut sp, 5, 7, false, true);
    assert_eq!((ms.current_index, sp), (5, sprite(5, true)));
}

#[test]
fn idle_frames_snap_back_from_outside() {
    let mut ms = state(13, MovementState::IDLE, true);
    let mut sp = sprite(13, false);
    update_idle_sprite(&mut ms, &mut sp, 10, 12, false, false);
    assert_eq!(ms, state(10, MovementState::IDLE, true));
    assert_eq!(sp, sprite(10, false));
    let mut below = state(2, MovementState::IDLE, false);
    update_idle_sprite(&mut below, &mut sp, 5, 7, true, true);
    assert_eq!(below.current_index, 5);
    assert_eq!(sp, sprite(5, true));
    let mut top = state(usize::MAX, MovementState::IDLE, false);
    update_idle_sprite(&mut top, &mut sp, 0, usize::MAX, true, false);
    assert_eq!(top.current_index, 0);
}

#[test]
fn walk_cycles_of_the_sides() {
    assert_eq!(
        (walk_cycle(Side::LEFT).start_index, walk_cycle(Side::LEFT).end_index),
        (8, 9)
    );
    assert_eq!(walk_cycle(Side::LEFT).idle_index, 5);
    assert!(!walk_cycle(Side::LEFT).auto_flip_x && !walk_cycle(Side::LEFT).flip_x);
    assert!(!walk_cycle(Side::RIGHT).auto_flip_x && walk_cycle(Side::RIGHT).flip_x);
    assert_eq!(walk_cycle(Side::RIGHT).start_index, 8);
    let top = walk_cycle(Side::TOP);
    assert_eq!((top.start_index, top.end_index, top.idle_index), (13, 13, 10));
    assert!(top.auto_flip_x && !top.flip_x);
    let bottom = walk_cycle(Side::BOTTOM);
    assert_eq!((bottom.start_index, bottom.end_index, bottom.idle_index), (3, 3, 0));
    assert!(bottom.auto_flip_x && !bottom.flip_x);
}

#[test]
fn side_walk_alternates_its_two_poses() {
    let cycle = walk_cycle(Side::RIGHT);
    let mut ms = state(5, MovementState::WALK, false);
    let mut sp = sprite(5, false);
    let mut seen = Vec::new();
    for _ in 0..6 {
        let heard = update_walk_sprite(&mut ms, &mut sp, &cycle, true);
        seen.push((ms.current_index, sp.index, ms.used_first, sp.flip_x, heard));
    }
    assert_eq!(
        seen,
        vec![
            (8, 8, true, true, true),
            (9, 9, false, true, true),
            (8, 8, true, true, true),
            (9, 9, false, true, true),
            (8, 8, true, true, true),
            (9, 9, false, true, true),
        ]
    );
}

#[test]
fn side_walk_starts_with_the_pose_that_is_due() {
    let cycle = walk_cycle(Side::LEFT);
    let mut ms = state(5, MovementState::WALK, true);
    let mut sp = sprite(5, true);
    let mut frames = Vec::new();
    for _ in 0..3 {
        assert!(update_walk_sprite(&mut ms, &mut sp, &cycle, true));
        frames.push((ms.current_index, ms.used_first));
    }
    assert_eq!(frames, vec![(9, false), (8, true), (9, false)]);
    assert_eq!(sp, sprite(9, false));
}

#[test]
fn side_walk_waits_for_the_timer() {
    let cycle = walk_cycle(Side::LEFT);
    let mut ms = state(9, MovementState::WALK, false);
    let mut sp = sprite(9, true);
    assert!(!update_walk_sprite(&mut ms, &mut sp, &cycle, false));
    assert_eq!(ms, state(9, MovementState::WALK, false));
    assert_eq!(sp, sprite(9, false));
    let mut between = state(5, MovementState::WALK, true);
    assert!(!update_walk_sprite(&mut between, &mut sp, &cycle, false));
    assert_eq!(between, state(5, MovementState::WALK, true));
    assert_eq!(sp, sprite(5, false));
}

#[test]
fn side_walk_enters_the_cycle_in_silence() {
    let cycle = walk_cycle(Side::LEFT);
    for fired in [false, true] {
        for used_first in [false, true] {
            let mut ms = state(12, MovementState::WALK, used_first);
            let mut sp = sprite(12, true);
            assert!(!update_walk_sprite(&mut ms, &mut sp, &cycle, fired));
            assert_eq!(ms, state(8, MovementState::WALK, !used_first));
            assert_eq!(sp, sprite(8, false));
        }
    }
    let mut low = state(7, MovementState::WALK, false);
    let mut sp = sprite(7, false);
    assert!(!update_walk_sprite(&mut low, &mut sp, &cycle, true));
    assert_eq!(low.current_index, 8);
    let mut after_a_change = state(0, MovementState::WALK, true);
    assert!(!update_walk_sprite(&mut after_a_change, &mut sp, &cycle, false));
    assert_eq!(after_a_change, state(8, MovementState::WALK, false));
}

#[test]
fn vertical_walk_mirrors_with_every_step() {
    let cycle = walk_cycle(Side::TOP);
    let mut ms = state(10, MovementState::WALK, false);
    let mut sp = sprite(10, false);
    let mut seen = Vec::new();
    for _ in 0..4 {
        let heard = update_walk_sprite(&mut ms, &mut sp, &cycle, true);
        seen.push((ms.current_index, ms.used_first, sp.flip_x, heard));
    }
    assert_eq!(
        seen,
        vec![
            (13, false, true, true),
            (10, false, true, false),
            (13, false, false, true),
            (10, false, false, false),
        ]
    );
    assert!(!update_walk_sprite(&mut ms, &mut sp, &cycle, false));
    assert_eq!((ms.current_index, sp), (10, sprite(10, false)));
}

#[test]
fn vertical_walk_is_heard_on_entering() {
    let cycle = walk_cycle(Side::BOTTOM);
    let mut ms = state(7, MovementState::WALK, false);
    let mut sp = sprite(7, false);
    assert!(update_walk_sprite(&mut ms, &mut sp, &cycle, false));
    assert_eq!(ms, state(3, MovementState::WALK, true));
    assert_eq!(sp, sprite(3, true));
    let mut set = state(7, MovementState::WALK, true);
    let mut mirrored = sprite(7, true);
    assert!(update_walk_sprite(&mut set, &mut mirrored, &walk_cycle(Side::TOP), true));
    assert_eq!(set, state(13, MovementState::WALK, false));
    assert_eq!(mirrored, sprite(13, false));
}

#[test]
fn a_cycle_of_one_s_own() {
    let cycle =
        WalkCycle { start_index: 20, end_index: 22, idle_index: 1, auto_flip_x: false, flip_x: true };
    let mut ms = state(21, MovementState::WALK, true);
    let mut sp = sprite(21, false);
    assert!(update_walk_sprite(&mut ms, &mut sp, &cycle, true));
    assert_eq!((ms.current_index, ms.used_first, sp), (22, false, sprite(22, true)));
    assert!(update_walk_sprite(&mut ms, &mut sp, &cycle, true));
    assert_eq!((ms.current_index, ms.used_first, sp), (20, true, sprite(20, true)));
    let mut between = state(1, MovementState::WALK, false);
    assert!(update_walk_sprite(&mut between, &mut sp, &cycle, true));
    assert_eq!((between.current_index, between.used_first, sp), (20, true, sprite(20, true)));
}

#[test]
fn poses_by_state_and_side() {
    let mut sp = sprite(0, false);
    let mut idle_right = state(5, MovementState::IDLE, false);
    assert!(!pose(Side::RIGHT, &mut idle_right, &mut sp, true));
    assert_eq!((idle_right.current_index, sp), (6, sprite(6, true)));
    let mut idle_left = state(5, MovementState::IDLE, false);
    assert!(!pose(Side::LEFT, &mut idle_left, &mut sp, true));
    assert_eq!((idle_left.current_index, sp), (6, sprite(6, false)));
    let mut idle_top = state(5, MovementState::IDLE, false);
    assert!(!pose(Side::TOP, &mut idle_top, &mut sp, true));
    assert_eq!((idle_top.current_index, sp), (10, sprite(10, false)));
    let mut idle_bottom = state(1, MovementState::IDLE, false);
    assert!(!pose(Side::BOTTOM, &mut idle_bottom, &mut sp, true));
    assert_eq!((idle_bottom.current_index, sp), (2, sprite(2, false)));
    let mut walk_left = state(5, MovementState::WALK, true);
    assert!(pose(Side::LEFT, &mut walk_left, &mut sp, true));
    assert_eq!((walk_left.current_index, walk_left.used_first, sp), (9, false, sprite(9, false)));
    let mut dragged = state(4, MovementState::DRAG, true);
    let mut kept = sprite(11, true);
    assert!(!pose(Side::TOP, &mut dragged, &mut kept, true));
    assert_eq!((dragged, kept), (state(4, MovementState::DRAG, true), sprite(11, true)));
}

#[test]
fn animation_in_the_world() {
    let walker = animated(Side::RIGHT, state(5, MovementState::WALK, false));
    let idler = animated(Side::TOP, state(10, MovementState::IDLE, false));
    let dragged = animated(Side::LEFT, state(4, MovementState::DRAG, false));
    let climber = animated(Side::TOP, state(0, MovementState::WALK, false));
    let mut plain = Entity::bare(Transform::identity());
    plain.movement_state = Some(state(5, MovementState::WALK, false));
    let mut world = vec![walker, idler, dragged, climber, plain];
    let kept = SoundEvent { path: "door".to_string(), sound_type: SoundType::FIXED, file: "open".to_string() };
    let mut sounds = vec![kept];
    assert!(world.iter().all(|e| ready_to_animate(e, 150 * MS)));

    update_movement_sided_sprite(&mut world, &mut sounds, 150 * MS);
    // No timer has fired; only the climber enters its cycle, and is heard.
    assert_eq!(world[0].movement_state.unwrap().current_index, 5);
    assert_eq!(world[0].sprite, Some(sprite(5, true)));
    assert_eq!(world[0].movement_state.unwrap().timer.elapsed_nanos, 150 * MS);
    assert_eq!(world[1].sprite, Some(sprite(10, false)));
    assert_eq!(world[2].sprite, dragged.sprite);
    assert_eq!(world[2].movement_state.unwrap().timer.elapsed_nanos, 150 * MS);
    assert_eq!(world[3].movement_state.unwrap().current_index, 13);
    assert_eq!(world[3].sprite, Some(sprite(13, true)));
    assert_eq!(world[4], plain);
    assert_eq!(sounds.len(), 2);

    update_movement_sided_sprite(&mut world, &mut sounds, 150 * MS);
    // Every timer fires: the walker steps, the idler advances, the climber
    // goes back to the frame between steps.
    assert_eq!(world[0].movement_state.unwrap().current_index, 8);
    assert!(world[0].movement_state.unwrap().used_first);
    assert_eq!(world[0].sprite, Some(sprite(8, true)));
    assert_eq!(world[0].movement_state.unwrap().timer.elapsed_nanos, 100 * MS);
    assert_eq!(world[1].sprite, Some(sprite(11, false)));
    assert_eq!(world[2].movement_state.unwrap().current_index, 4);
    assert_eq!(world[3].sprite, Some(sprite(10, true)));
    assert_eq!(world[4], plain);
    assert_eq!(sounds.len(), 3);

    assert_eq!(sounds[0].path, "door");
    assert_eq!(sounds[0].file, "open");
    for step in &sounds[1..] {
        assert_eq!(step.path, "step/grass");
        assert_eq!(step.sound_type, SoundType::RANDOM);
        assert_eq!(step.file, "4");
    }
}

#[test]
fn animation_needs_sprites_and_running_timers() {
    let mut spriteless = animated(Side::LEFT, MultipleMovementState::default());
    spriteless.sprite = None;
    assert!(!ready_to_animate(&spriteless, 0));
    spriteless.multiple_sided = None;
    assert!(ready_to_animate(&spriteless, 0));
    let mut stopped = animated(Side::LEFT, MultipleMovementState::default());
    let mut ms = MultipleMovementState::default();
    ms.timer.duration_nanos = 0;
    stopped.movement_state = Some(ms);
    assert!(!ready_to_animate(&stopped, 0));
    stopped.movement_state = None;
    assert!(ready_to_animate(&stopped, 0));
    let day: u64 = 86_400_000 * MS;
    assert!(ready_to_animate(&animated(Side::LEFT, MultipleMovementState::default()), day));
    assert!(!ready_to_animate(&animated(Side::LEFT, MultipleMovementState::default()), u64::MAX));
}

#[test]
fn sprites_of_entities_with_one_frame_per_side() {
    let sided = |side: Side| {
        let mut e = Entity::bare(Transform::identity());
        e.multiple_sided = Some(MultipleSided { side });
        e.sprite = Some(sprite(9, true));
        e
    };
    let moving = animated(Side::TOP, MultipleMovementState::default());
    let mut unsided = Entity::bare(Transform::identity());
    unsided.sprite = Some(sprite(9, true));
    let mut world = vec![
        sided(Side::TOP),
        sided(Side::BOTTOM),
        sided(Side::LEFT),
        sided(Side::RIGHT),
        moving,
        unsided,
    ];
    assert!(world.iter().all(shows_its_side));
    update_sided_sprite(&mut world);
    assert_eq!(world[0].sprite, Some(sprite(2, false)));
    assert_eq!(world[1].sprite, Some(sprite(0, false)));
    assert_eq!(world[2].sprite, Some(sprite(1, false)));
    assert_eq!(world[3].sprite, Some(sprite(1, true)));
    assert_eq!(world[4], moving);
    assert_eq!(world[5], unsided);
    assert_eq!(world[0].multiple_sided, Some(MultipleSided { side: Side::TOP }));
}

#[test]
fn z_order_flip() {
    let a = zoned(0, 5, 0);
    let b = zoned(0, 10, 3 * U);
    let mut world = vec![a, b];
    overlap_sprite_zones(&mut world);
    assert_eq!(world[0].transform.translation, Vec3::new(0, 5 * U, 3 * U + DEPTH_STEP));
    assert_eq!(world[0].transform.translation.z, 3_100_000);
    assert_eq!(world[1], b);
    // The order in the list makes no difference to who is in front.
    let mut swapped = vec![b, a];
    overlap_sprite_zones(&mut swapped);
    assert_eq!(swapped[1].transform.translation.z, 3_100_000);
    assert_eq!(swapped[0], b);
}

#[test]
fn level_zones_put_the_second_in_front() {
    let (a, b) = order_pair(zoned(0, 5, 7), zoned(3, 5, 0));
    assert_eq!(a, zoned(0, 5, 7));
    assert_eq!(b.transform.translation, Vec3::new(3 * U, 5 * U, 7 + DEPTH_STEP));
}

#[test]
fn zones_apart_keep_their_depth() {
    let mut world = vec![zoned(0, 0, 1), zoned(17, 0, 2), zoned(0, 17, 3)];
    world[1].transform.translation.x += 1;
    world[2].transform.translation.y += 1;
    let before = world.clone();
    overlap_sprite_zones(&mut world);
    assert_eq!(world, before);
    let touching = order_pair(zoned(0, 0, 1), zoned(16, 16, 2));
    assert_eq!(touching.0.transform.translation.z, 2 + DEPTH_STEP);
    let zoneless = Entity::bare(Transform::identity());
    assert_eq!(order_pair(zoneless, zoned(0, 0, 5)), (zoneless, zoned(0, 0, 5)));
    assert_eq!(order_pair(zoned(0, 0, 5), zoneless), (zoned(0, 0, 5), zoneless));
}

#[test]
fn zones_use_their_offsets() {
    let mut low = zoned(0, 20, 0);
    low.sprite_zone =
        Some(SpriteZone(TransformZone::new(Vec2::new(16 * U, 32 * U), Vec2::new(0, -18 * U))));
    // Anchored at y 2, below the other zone at y 5, although the entity stands higher.
    let (a, b) = order_pair(zoned(0, 5, 4), low);
    assert_eq!(a, zoned(0, 5, 4));
    assert_eq!(b.transform.translation.z, 4 + DEPTH_STEP);
}

#[test]
fn draw_order_among_three_is_settled_pair_by_pair() {
    let mut world = vec![zoned(0, 0, 0), zoned(0, 4, 0), zoned(0, 8, 0)];
    overlap_sprite_zones(&mut world);
    // (0,1): first to 0.1; (0,2): first to 0.1 again; (1,2): second to 0.1.
    assert_eq!(world[0].transform.translation.z, DEPTH_STEP);
    assert_eq!(world[1].transform.translation.z, DEPTH_STEP);
    assert_eq!(world[2].transform.translation.z, 0);
    let mut reversed = vec![zoned(0, 8, 0), zoned(0, 4, 0), zoned(0, 0, 0)];
    overlap_sprite_zones(&mut reversed);
    // (0,1): second to 0.1; (0,2): third to 0.1; (1,2): third to 0.2.
    assert_eq!(reversed[0].transform.translation.z, 0);
    assert_eq!(reversed[1].transform.translation.z, DEPTH_STEP);
    assert_eq!(reversed[2].transform.translation.z, 2 * DEPTH_STEP);
}

#[test]
fn depth_saturates() {
    let (a, _) = order_pair(zoned(0, 0, 0), zoned(0, 1, i64::MAX));
    assert_eq!(a.transform.translation.z, i64::MAX);
}

#[test]
fn a_facing_needs_a_sprite() {
    let mut e = Entity::bare(Transform::identity());
    assert!(shows_its_side(&e));
    e.multiple_sided = Some(MultipleSided { side: Side::LEFT });
    assert!(!shows_its_side(&e));
    e.sprite = Some(sprite(0, false));
    assert!(shows_its_side(&e));
    e.multiple_sided = None;
    assert!(shows_its_side(&e));
}
