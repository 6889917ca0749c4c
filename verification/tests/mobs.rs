use topdown_physics::camera::systems::camera_follow;
use topdown_physics::input::systems::{read_input, Keys, SPRINT_MULTIPLIER};
use topdown_physics::living::components::{Desire, Intention};
use topdown_physics::living::systems::{
    arrived, change_desire, check_aggression_zone, ready_to_wander, steer, take_choice,
    update_desire, update_mob_direction, WANDER_RANGE,
};
use topdown_physics::physics::components::{SelfPhysical, Transform};
use topdown_physics::rng::components::RngResource;
use topdown_physics::sound::components::{SoundEvent, SoundType};
use topdown_physics::sound::system::{on_sound_emit, sound_path};
use topdown_physics::timer::FrameTimer;
use topdown_physics::vector::{Vec2, Vec3};
use topdown_physics::world::Entity;

const U: i64 = 1_000_000;
const SECOND: u64 = 1_000_000_000;

fn event(path: &str, sound_type: SoundType, file: &str) -> SoundEvent {
    SoundEvent { path: path.to_string(), sound_type, file: file.to_string() }
}

fn mob(x: i64, y: i64, desire: Desire) -> Entity {
    let mut e = Entity::bare(Transform::from_xyz(x * U, y * U, 0));
    e.desire = Some(desire);
    e.self_physical = Some(SelfPhysical { direction: Vec3::new(1, 2, 3), speed: U, multiplier: U });
    e
}

fn wants(intention: Intention, x: i64, y: i64) -> Desire {
    Desire { intention, position: Vec2::new(x * U, y * U), ..Desire::default() }
}

#[test]
fn sound_paths() {
    let fixed = event("door", SoundType::FIXED, "open");
    assert_eq!(sound_path(&fixed, 0), "sounds/door/open.wav");
    assert_eq!(sound_path(&fixed, 3), "sounds/door/open.wav");
    let step = SoundEvent::footstep();
    assert_eq!(sound_path(&step, 0), "sounds/step/grass/0.wav");
    assert_eq!(sound_path(&step, 1), "sounds/step/grass/1.wav");
    assert_eq!(sound_path(&step, 2), "sounds/step/grass/2.wav");
    assert_eq!(sound_path(&step, 3), "sounds/step/grass/3.wav");
    assert_eq!(sound_path(&step, 4), "sounds/step/grass/0.wav");
    assert_eq!(sound_path(&step, u32::MAX), "sounds/step/grass/3.wav");
    assert_eq!(sound_path(&event("", SoundType::FIXED, ""), 9), "sounds//.wav");
}

#[test]
fn footstep_message() {
    let step = SoundEvent::footstep();
    assert_eq!(step.path, "step/grass");
    assert_eq!(step.sound_type, SoundType::RANDOM);
    assert_eq!(step.file, "4");
}

#[test]
fn sounds_are_resolved_in_order() {
    let mut rng = RngResource::from_seed(7);
    let events = vec![
        event("door", SoundType::FIXED, "open"),
        SoundEvent::footstep(),
        event("bird", SoundType::FIXED, "call"),
        SoundEvent::footstep(),
    ];
    let paths = on_sound_emit(&mut rng, &events);
    assert_eq!(paths.len(), 4);
    assert_eq!(paths[0], "sounds/door/open.wav");
    assert_eq!(paths[2], "sounds/bird/call.wav");
    let variants: Vec<String> =
        (0..4).map(|n| format!("sounds/step/grass/{}.wav", n)).collect();
    assert!(variants.contains(&paths[1]));
    assert!(variants.contains(&paths[3]));
    assert!(on_sound_emit(&mut rng, &Vec::new()).is_empty());
}

#[test]
fn every_variant_is_drawn_in_time() {
    let mut rng = RngResource::from_seed(1);
    let events: Vec<SoundEvent> = (0..200).map(|_| SoundEvent::footstep()).collect();
    let paths = on_sound_emit(&mut rng, &events);
    for n in 0..4 {
        assert!(paths.contains(&format!("sounds/step/grass/{}.wav", n)));
    }
}

#[test]
fn draws_stay_in_their_range() {
    let mut rng = RngResource::from_seed(42);
    let mut seen = [false; 5];
    for _ in 0..500 {
        let n = rng.next_in_range(-2, 3);
        assert!((-2..3).contains(&n));
        seen[(n + 2) as usize] = true;
    }
    assert_eq!(seen, [true; 5]);
    assert_eq!(rng.next_in_range(7, 8), 7);
    assert_eq!(rng.next_in_range(i64::MIN, i64::MIN + 1), i64::MIN);
    for _ in 0..50 {
        let wide = rng.next_in_range(i64::MIN, i64::MAX);
        assert!(wide < i64::MAX);
    }
}

#[test]
fn a_seed_fixes_the_draws() {
    let mut a = RngResource::from_seed(9);
    let mut b = RngResource::from_seed(9);
    let first: Vec<u32> = (0..8).map(|_| a.next_u32()).collect();
    let second: Vec<u32> = (0..8).map(|_| b.next_u32()).collect();
    assert_eq!(first, second);
    assert!(first.iter().any(|n| *n != first[0]));
}

#[test]
fn mobs_head_for_what_they_want() {
    let mut sp = SelfPhysical { direction: Vec3::new(1, 2, 3), speed: U, multiplier: U };
    steer(&wants(Intention::WalkTo, 3, 4), &mut sp, &Transform::identity());
    assert_eq!(sp.direction, Vec3::new(600_000, 800_000, 3));
    steer(&wants(Intention::WalkTo, 3, 4), &mut sp, &Transform::from_xyz(6 * U, 8 * U, 0));
    assert_eq!(sp.direction, Vec3::new(-600_000, -800_000, 3));
    steer(&wants(Intention::Idle, 3, 4), &mut sp, &Transform::identity());
    assert_eq!(sp.direction, Vec3::zero());
    sp.direction = Vec3::new(1, 2, 3);
    steer(&wants(Intention::Attack, 3, 4), &mut sp, &Transform::identity());
    assert_eq!(sp.direction, Vec3::zero());
    assert_eq!((sp.speed, sp.multiplier), (U, U));
}

#[test]
fn a_mob_at_its_goal_has_no_heading() {
    let mut sp = SelfPhysical { direction: Vec3::new(1, 2, 3), speed: U, multiplier: U };
    steer(&wants(Intention::WalkTo, 3, 4), &mut sp, &Transform::from_xyz(3 * U, 4 * U, 9));
    assert_eq!(sp.direction, Vec3::new(0, 0, 3));
}

#[test]
fn mob_directions_in_the_world() {
    let walker = mob(0, 0, wants(Intention::WalkTo, 0, -5));
    let idler = mob(0, 0, wants(Intention::Idle, 0, -5));
    let mut will_less = walker;
    will_less.self_physical = None;
    let mut aimless = walker;
    aimless.desire = None;
    let mut world = vec![walker, idler, will_less, aimless];
    update_mob_direction(&mut world);
    assert_eq!(world[0].self_physical.unwrap().direction, Vec3::new(0, -U, 3));
    assert_eq!(world[1].self_physical.unwrap().direction, Vec3::zero());
    assert_eq!(world[2], will_less);
    assert_eq!(world[3], aimless);
    assert_eq!(world[0].desire, walker.desire);
}

#[test]
fn aggression_zones_change_nothing() {
    let mut world = vec![mob(0, 0, wants(Intention::Attack, 1, 1)), mob(1, 1, Desire::default())];
    let before = world.clone();
    check_aggression_zone(&mut world);
    assert_eq!(world, before);
}

#[test]
fn arrival_is_within_a_unit() {
    let goal = Vec2::new(10 * U, -10 * U);
    assert!(arrived(goal, Vec3::new(10 * U, -10 * U, 0)));
    assert!(arrived(goal, Vec3::new(9 * U, -11 * U, 5)));
    assert!(!arrived(goal, Vec3::new(9 * U - 1, -10 * U, 0)));
    assert!(arrived(goal, Vec3::new(11 * U - 1, -9 * U - 1, 0)));
    assert!(!arrived(goal, Vec3::new(11 * U, -10 * U, 0)));
    assert!(!arrived(goal, Vec3::new(10 * U, -9 * U, 0)));
    assert!(!arrived(goal, Vec3::new(10 * U, -11 * U - 1, 0)));
}

#[test]
fn choices_of_an_idle_mob() {
    let start = Desire { target: Some(3), ..wants(Intention::Idle, 7, 7) };
    let mut stay = start;
    take_choice(&mut stay, 0, 5, 6);
    assert_eq!(stay, Desire { target: Some(3), ..wants(Intention::Idle, 0, 0) });
    let mut go = start;
    take_choice(&mut go, 1, 5, 6);
    assert_eq!(
        go,
        Desire { intention: Intention::WalkTo, position: Vec2::new(5, 6), ..start }
    );
    let mut other = start;
    take_choice(&mut other, 2, 5, 6);
    assert_eq!(other, start);
    take_choice(&mut other, -1, 5, 6);
    assert_eq!(other, start);
}

#[test]
fn an_idle_mob_waits_for_its_timer() {
    let mut rng = RngResource::from_seed(3);
    let mut d = wants(Intention::Idle, 4, 4);
    change_desire(&mut d, SECOND, &mut rng, &Transform::identity());
    assert_eq!(
        d,
        Desire {
            update_timer: FrameTimer { elapsed_nanos: SECOND, duration_nanos: 2 * SECOND },
            ..wants(Intention::Idle, 4, 4)
        }
    );
}

#[test]
fn an_idle_mob_chooses_when_its_timer_fires() {
    let mut rng = RngResource::from_seed(3);
    let here = Transform::from_xyz(1000 * U, -1000 * U, 0);
    let mut stayed = false;
    let mut left = false;
    for _ in 0..200 {
        let mut d = wants(Intention::Idle, 4, 4);
        change_desire(&mut d, 3 * SECOND, &mut rng, &here);
        assert_eq!(d.update_timer, FrameTimer { elapsed_nanos: SECOND, duration_nanos: 2 * SECOND });
        assert_eq!(d.target, None);
        match d.intention {
            Intention::Idle => {
                stayed = true;
                assert_eq!(d.position, Vec2::zero());
            }
            Intention::WalkTo => {
                left = true;
                assert!((900 * U..1100 * U).contains(&d.position.x));
                assert!((-1100 * U..-900 * U).contains(&d.position.y));
            }
            Intention::Attack => panic!("an idle mob never chooses to attack"),
        }
    }
    assert!(stayed && left);
    assert_eq!(WANDER_RANGE, 100 * U);
}

#[test]
fn desires_in_the_world() {
    let mut rng = RngResource::from_seed(11);
    let arrived_mob = mob(10, 10, wants(Intention::WalkTo, 10, 10));
    let walking = mob(0, 0, wants(Intention::WalkTo, 10, 10));
    let attacking = mob(0, 0, wants(Intention::Attack, 10, 10));
    let idle = mob(0, 0, wants(Intention::Idle, 10, 10));
    let aimless = Entity::bare(Transform::identity());
    let mut world = vec![arrived_mob, walking, attacking, idle, aimless];
    assert!(world.iter().all(|e| ready_to_wander(e, SECOND)));
    update_desire(SECOND, &mut rng, &mut world);
    assert_eq!(world[0].desire, Some(wants(Intention::Idle, 10, 10)));
    assert_eq!(world[1], walking);
    assert_eq!(world[2], attacking);
    assert_eq!(
        world[3].desire,
        Some(Desire {
            update_timer: FrameTimer { elapsed_nanos: SECOND, duration_nanos: 2 * SECOND },
            ..wants(Intention::Idle, 10, 10)
        })
    );
    assert_eq!(world[4], aimless);
    assert_eq!(world[0].transform, arrived_mob.transform);
    assert_eq!(world[0].self_physical, arrived_mob.self_physical);
}

#[test]
fn only_idle_mobs_need_a_running_timer() {
    let stopped = Desire { update_timer: FrameTimer::new(0), ..Desire::default() };
    assert!(!ready_to_wander(&mob(0, 0, stopped), 1));
    let walking = Desire { intention: Intention::WalkTo, ..stopped };
    assert!(ready_to_wander(&mob(0, 0, walking), 1));
    let attacking = Desire { intention: Intention::Attack, ..stopped };
    assert!(ready_to_wander(&mob(0, 0, attacking), 1));
    assert!(ready_to_wander(&Entity::bare(Transform::identity()), 1));
}

#[test]
fn keys_steer_the_player() {
    let mut player = Entity::bare(Transform::identity());
    player.player = true;
    player.self_physical =
        Some(SelfPhysical { direction: Vec3::new(5, 5, 5), speed: 50 * U, multiplier: 7 });
    let mut other = player;
    other.player = false;
    let mut will_less = player;
    will_less.self_physical = None;
    let press = |up: bool, down: bool, left: bool, right: bool, sprint: bool| {
        let mut world = vec![player, other, will_less];
        read_input(&Keys { up, down, left, right, sprint }, &mut world);
        assert_eq!(world[1], other);
        assert_eq!(world[2], will_less);
        assert_eq!(world[0].self_physical.unwrap().speed, 50 * U);
        let sp = world[0].self_physical.unwrap();
        (sp.direction, sp.multiplier)
    };
    assert_eq!(press(false, false, false, false, false), (Vec3::zero(), U));
    assert_eq!(press(true, false, false, false, false), (Vec3::new(0, U, 0), U));
    assert_eq!(press(false, true, false, false, false), (Vec3::new(0, -U, 0), U));
    assert_eq!(press(false, false, true, false, false), (Vec3::new(-U, 0, 0), U));
    assert_eq!(press(false, false, false, true, false), (Vec3::new(U, 0, 0), U));
    assert_eq!(press(true, false, false, true, true), (Vec3::new(U, U, 0), SPRINT_MULTIPLIER));
    assert_eq!(press(true, true, true, true, true), (Vec3::zero(), 1_800_000));
    assert_eq!(press(false, true, true, false, false), (Vec3::new(-U, -U, 0), U));
}

#[test]
fn the_camera_follows_its_target() {
    let target = Transform::from_xyz(3 * U, -4 * U, 5 * U);
    let mut cameras = vec![Transform::from_xyz(1, 2, 999)];
    camera_follow(&vec![target], &mut cameras);
    assert_eq!(cameras, vec![Transform::from_xyz(3 * U, -4 * U, 999)]);
}

#[test]
fn the_camera_stays_without_a_single_target() {
    let a = Transform::from_xyz(3 * U, -4 * U, 5 * U);
    let b = Transform::from_xyz(U, U, U);
    let mut cameras = vec![Transform::from_xyz(1, 2, 999)];
    camera_follow(&Vec::new(), &mut cameras);
    assert_eq!(cameras, vec![Transform::from_xyz(1, 2, 999)]);
    camera_follow(&vec![a, b], &mut cameras);
    assert_eq!(cameras, vec![Transform::from_xyz(1, 2, 999)]);
    let mut none: Vec<Transform> = Vec::new();
    camera_follow(&Vec::new(), &mut none);
    assert!(none.is_empty());
    let mut two = vec![a, b];
    camera_follow(&vec![a, b], &mut two);
    assert_eq!(two, vec![a, b]);
}
