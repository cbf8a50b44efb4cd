use pong_core::components::{Ball, EntityId, Velocity};
use pong_core::events::{Respawn, VelocityChange};
use pong_core::registry::Registry;
use pong_core::resources::{LastPong, LOCK_MAXIMUM};
use pong_core::systems::{accelerate_with_time, respawn_ball_on_lock, spawn_ball, update_last_hit};

const STEP: u64 = 15_625_000;

#[test]
fn the_lock_is_twenty_seconds() {
    assert_eq!(LOCK_MAXIMUM, 20_000_000_000);
    assert_eq!(LastPong::default().last, 0);
}

#[test]
fn time_adds_up() {
    let mut registry = Registry::new();
    spawn_ball(&mut registry).unwrap();
    let mut timer = LastPong::default();
    update_last_hit(&registry, &mut timer, STEP);
    update_last_hit(&registry, &mut timer, STEP);
    update_last_hit(&registry, &mut timer, 1);
    assert_eq!(timer.last, 31_250_001);
}

#[test]
fn time_adds_up_to_the_last_number() {
    let mut registry = Registry::new();
    registry.spawn_ball(Velocity::launch()).unwrap();
    let mut timer = LastPong { last: u64::MAX - 5 };
    update_last_hit(&registry, &mut timer, 5);
    assert_eq!(timer.last, u64::MAX);
}

#[test]
fn at_twenty_seconds_the_ball_stays() {
    let mut registry = Registry::new();
    spawn_ball(&mut registry).unwrap();
    let mut timer = LastPong { last: 20_000_000_000 };
    assert_eq!(respawn_ball_on_lock(&mut registry, &mut timer), None);
    assert_eq!(timer.last, 20_000_000_000);
    assert_eq!(registry.ball().unwrap().id, EntityId(6));
}

#[test]
fn past_twenty_seconds_the_ball_is_replaced() {
    let mut registry = Registry::new();
    spawn_ball(&mut registry).unwrap();
    let mut timer = LastPong { last: 20_000_000_001 };
    let launched = Ball { id: EntityId(7), initial_velocity: Velocity { x: 100, y: 33 }, radius: 20 };
    assert_eq!(
        respawn_ball_on_lock(&mut registry, &mut timer),
        Some(Respawn { despawned: Some(EntityId(6)), spawned: launched })
    );
    assert_eq!(timer.last, 0);
    assert_eq!(registry.ball(), Some(launched));
    assert_eq!(registry.role(EntityId(6)), None);
    assert!(registry.in_play());
    assert_eq!(respawn_ball_on_lock(&mut registry, &mut timer), None);
}

#[test]
fn a_lock_without_a_ball_launches_one() {
    let mut registry = Registry::new();
    let mut timer = LastPong { last: u64::MAX };
    let respawn = respawn_ball_on_lock(&mut registry, &mut timer).unwrap();
    assert_eq!(respawn.despawned, None);
    assert_eq!(respawn.spawned.id, EntityId(6));
    assert_eq!(timer.last, 0);
    assert_eq!(registry.ball(), Some(respawn.spawned));
}

#[test]
fn every_fixed_step_ramps_by_five_percent_per_second() {
    let mut registry = Registry::new();
    spawn_ball(&mut registry).unwrap();
    assert_eq!(
        accelerate_with_time(&registry, STEP),
        Some(VelocityChange::Ramp { percent_per_second: 5, elapsed: STEP })
    );
    assert_eq!(
        accelerate_with_time(&registry, 0),
        Some(VelocityChange::Ramp { percent_per_second: 5, elapsed: 0 })
    );
}

#[test]
fn without_a_ball_nothing_ramps() {
    let registry = Registry::new();
    assert_eq!(accelerate_with_time(&registry, STEP), None);
}

#[test]
fn without_a_ball_time_stands_still() {
    let mut registry = Registry::new();
    let mut timer = LastPong { last: 7 };
    update_last_hit(&registry, &mut timer, STEP);
    assert_eq!(timer.last, 7);
    registry.spawn_court().unwrap();
    update_last_hit(&registry, &mut timer, STEP);
    assert_eq!(timer.last, 7);
    let mut timer = LastPong { last: u64::MAX };
    update_last_hit(&registry, &mut timer, u64::MAX);
    assert_eq!(timer.last, u64::MAX);
    let ball = registry.spawn_ball(Velocity::launch()).unwrap();
    let mut timer = LastPong { last: 7 };
    update_last_hit(&registry, &mut timer, STEP);
    assert_eq!(timer.last, 7 + STEP);
    assert!(registry.despawn_ball(ball));
    update_last_hit(&registry, &mut timer, STEP);
    assert_eq!(timer.last, 7 + STEP);
}
