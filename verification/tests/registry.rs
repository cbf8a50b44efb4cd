use pong_core::components::{
    Ball, Body, Collider, EntityId, Paddle, RigidBody, Role, Side, Span, Velocity, BALL_RADIUS,
    FIRST_BALL_ID,
};
use pong_core::registry::{Registry, SpawnError};
use pong_core::resources::ActionState;
use pong_core::systems::{move_paddles, spawn_ball};

fn fixed(units: i64) -> Span {
    Span { half_widths: 0, half_heights: 0, units }
}

#[test]
fn a_new_registry_is_empty() {
    let registry = Registry::new();
    assert_eq!(registry.ball(), None);
    assert_eq!(registry.paddle(Side::Left), None);
    assert_eq!(registry.paddle(Side::Right), None);
    assert_eq!(registry.paddle_velocity(Side::Left), None);
    assert!(!registry.has_court());
    assert!(!registry.in_play());
    assert!(registry.bodies().is_empty());
    assert_eq!(registry.role(EntityId(0)), None);
    let entities = registry.entities();
    assert_eq!(entities.next_ball_id, FIRST_BALL_ID);
}

#[test]
fn the_first_ball_is_number_six() {
    let mut registry = Registry::new();
    let velocity = Velocity { x: -7, y: 12 };
    assert_eq!(registry.spawn_ball(velocity), Ok(EntityId(6)));
    assert_eq!(
        registry.ball(),
        Some(Ball { id: EntityId(6), initial_velocity: velocity, radius: 20 })
    );
    assert_eq!(BALL_RADIUS, 20);
    assert!(!registry.in_play());
}

#[test]
fn a_second_ball_is_refused() {
    let mut registry = Registry::new();
    let first = registry.spawn_ball(Velocity::launch()).unwrap();
    assert_eq!(registry.spawn_ball(Velocity { x: 1, y: 1 }), Err(SpawnError::BallExists));
    assert_eq!(registry.ball().unwrap().id, first);
    assert_eq!(registry.ball().unwrap().initial_velocity, Velocity { x: 100, y: 33 });
}

#[test]
fn despawn_then_spawn_gives_a_new_name() {
    let mut registry = Registry::new();
    let first = registry.spawn_ball(Velocity::launch()).unwrap();
    assert!(registry.despawn_ball(first));
    assert_eq!(registry.ball(), None);
    assert_eq!(registry.role(first), None);
    let second = registry.spawn_ball(Velocity::launch()).unwrap();
    assert_eq!(second, EntityId(7));
    assert_eq!(registry.role(first), None);
    assert_eq!(registry.role(second), Some(Role::Ball));
}

#[test]
fn despawn_of_another_name_changes_nothing() {
    let mut registry = Registry::new();
    assert!(!registry.despawn_ball(EntityId(6)));
    let ball = registry.spawn_ball(Velocity::launch()).unwrap();
    registry.spawn_court().unwrap();
    assert!(!registry.despawn_ball(EntityId(7)));
    assert!(!registry.despawn_ball(EntityId(4)));
    assert_eq!(registry.ball().unwrap().id, ball);
    assert!(registry.in_play());
}

#[test]
fn the_court_is_laid_out_once() {
    let mut registry = Registry::new();
    assert_eq!(registry.spawn_court(), Ok(()));
    assert!(registry.has_court());
    registry.steer(Side::Left, ActionState { up: true, down: false });
    assert_eq!(registry.spawn_court(), Err(SpawnError::CourtExists));
    assert_eq!(registry.paddle_velocity(Side::Left), Some(Velocity { x: 0, y: 500 }));
}

#[test]
fn paddles_start_at_rest_and_at_their_size() {
    let mut registry = Registry::new();
    registry.spawn_court().unwrap();
    let rest = Velocity { x: 0, y: 0 };
    assert_eq!(
        registry.paddle(Side::Left),
        Some(Paddle { side: Side::Left, width: 20, height: 210, velocity: rest })
    );
    assert_eq!(
        registry.paddle(Side::Right),
        Some(Paddle { side: Side::Right, width: 20, height: 210, velocity: rest })
    );
}

#[test]
fn relaunch_replaces_the_ball_in_one_step() {
    let mut registry = Registry::new();
    let before = registry.relaunch(Velocity::launch());
    assert_eq!(before.despawned, None);
    assert_eq!(before.spawned.id, EntityId(6));
    let after = registry.relaunch(Velocity { x: 3, y: 4 });
    assert_eq!(after.despawned, Some(EntityId(6)));
    assert_eq!(after.spawned, Ball { id: EntityId(7), initial_velocity: Velocity { x: 3, y: 4 }, radius: 20 });
    assert_eq!(registry.ball(), Some(after.spawned));
}

#[test]
fn startup_spawns_ball_and_court() {
    let mut registry = Registry::new();
    let bodies = spawn_ball(&mut registry).unwrap();
    assert!(registry.in_play());
    assert_eq!(bodies, registry.bodies());
    assert_eq!(bodies.len(), 7);
    let roles: Vec<Role> = bodies.iter().map(|body| body.role).collect();
    assert_eq!(
        roles,
        vec![
            Role::Ball,
            Role::Ceiling,
            Role::Floor,
            Role::LeftWall,
            Role::RightWall,
            Role::Paddle(Side::Left),
            Role::Paddle(Side::Right),
        ]
    );
    let ids: Vec<u64> = bodies.iter().map(|body| body.id.0).collect();
    assert_eq!(ids, vec![6, 0, 1, 2, 3, 4, 5]);
}

#[test]
fn startup_is_refused_when_a_ball_exists() {
    let mut registry = Registry::new();
    registry.spawn_ball(Velocity::launch()).unwrap();
    assert_eq!(spawn_ball(&mut registry), Err(SpawnError::BallExists));
    assert!(!registry.has_court());
}

#[test]
fn startup_on_a_laid_out_court_launches_the_ball_alone() {
    let mut registry = Registry::new();
    registry.spawn_court().unwrap();
    registry.steer(Side::Right, ActionState { up: false, down: true });
    let bodies = spawn_ball(&mut registry).unwrap();
    let ball = registry.ball().expect("a ball was launched");
    assert_eq!(bodies, vec![Body::ball(&ball)]);
    assert_eq!(ball, Ball { id: EntityId(6), initial_velocity: Velocity { x: 100, y: 33 }, radius: 20 });
    assert!(registry.in_play());
    assert_eq!(registry.paddle_velocity(Side::Right), Some(Velocity { x: 0, y: -500 }));
    assert_eq!(registry.bodies().len(), 7);
}

#[test]
fn startup_after_a_despawn_leaves_one_ball_again() {
    let mut registry = Registry::new();
    spawn_ball(&mut registry).unwrap();
    assert!(registry.despawn_ball(EntityId(6)));
    assert_eq!(registry.ball(), None);
    let bodies = spawn_ball(&mut registry).unwrap();
    assert_eq!(bodies.len(), 1);
    assert_eq!(bodies[0].id, EntityId(7));
    assert_eq!(registry.ball().unwrap().id, EntityId(7));
    assert!(registry.in_play());
}

#[test]
fn startup_twice_is_refused() {
    let mut registry = Registry::new();
    spawn_ball(&mut registry).unwrap();
    assert_eq!(spawn_ball(&mut registry), Err(SpawnError::BallExists));
    assert_eq!(registry.ball().unwrap().id, EntityId(6));
}

#[test]
fn the_ball_body_is_a_circle_at_the_centre() {
    let mut registry = Registry::new();
    let bodies = spawn_ball(&mut registry).unwrap();
    assert_eq!(
        bodies[0],
        Body {
            id: EntityId(6),
            role: Role::Ball,
            rigid_body: RigidBody::Dynamic,
            collider: Collider::Circle { radius: 20 },
            x: fixed(0),
            y: fixed(0),
            velocity: Velocity { x: 100, y: 33 },
        }
    );
    assert_eq!(bodies[0], Body::ball(&registry.ball().unwrap()));
}

#[test]
fn ceiling_and_floor_span_the_width() {
    let rest = Velocity { x: 0, y: 0 };
    let wide = Span { half_widths: 2, half_heights: 0, units: 0 };
    assert_eq!(
        Body::ceiling(),
        Body {
            id: EntityId(0),
            role: Role::Ceiling,
            rigid_body: RigidBody::Static,
            collider: Collider::Rectangle { width: wide, height: fixed(50) },
            x: fixed(0),
            y: Span { half_widths: 0, half_heights: 1, units: 0 },
            velocity: rest,
        }
    );
    assert_eq!(
        Body::floor(),
        Body {
            id: EntityId(1),
            role: Role::Floor,
            rigid_body: RigidBody::Static,
            collider: Collider::Rectangle { width: wide, height: fixed(50) },
            x: fixed(0),
            y: Span { half_widths: 0, half_heights: -1, units: 0 },
            velocity: rest,
        }
    );
}

#[test]
fn goal_walls_span_the_height() {
    let rest = Velocity { x: 0, y: 0 };
    let high = Span { half_widths: 0, half_heights: 2, units: 0 };
    assert_eq!(
        Body::left_wall(),
        Body {
            id: EntityId(2),
            role: Role::LeftWall,
            rigid_body: RigidBody::Static,
            collider: Collider::Rectangle { width: fixed(50), height: high },
            x: Span { half_widths: -1, half_heights: 0, units: 0 },
            y: fixed(0),
            velocity: rest,
        }
    );
    assert_eq!(
        Body::right_wall(),
        Body {
            id: EntityId(3),
            role: Role::RightWall,
            rigid_body: RigidBody::Static,
            collider: Collider::Rectangle { width: fixed(50), height: high },
            x: Span { half_widths: 1, half_heights: 0, units: 0 },
            y: fixed(0),
            velocity: rest,
        }
    );
}

#[test]
fn paddles_stand_eighty_inward() {
    let mut registry = Registry::new();
    let bodies = spawn_ball(&mut registry).unwrap();
    let size = Collider::Rectangle { width: fixed(20), height: fixed(210) };
    assert_eq!(
        bodies[5],
        Body {
            id: EntityId(4),
            role: Role::Paddle(Side::Left),
            rigid_body: RigidBody::Kinematic,
            collider: size,
            x: Span { half_widths: -1, half_heights: 0, units: 80 },
            y: fixed(0),
            velocity: Velocity { x: 0, y: 0 },
        }
    );
    assert_eq!(
        bodies[6],
        Body {
            id: EntityId(5),
            role: Role::Paddle(Side::Right),
            rigid_body: RigidBody::Kinematic,
            collider: size,
            x: Span { half_widths: 1, half_heights: 0, units: -80 },
            y: fixed(0),
            velocity: Velocity { x: 0, y: 0 },
        }
    );
}

#[test]
fn span_fixed_has_no_viewport_part() {
    assert_eq!(Span::fixed(-3), Span { half_widths: 0, half_heights: 0, units: -3 });
}

#[test]
fn steering_keeps_a_paddle_in_place() {
    let mut registry = Registry::new();
    spawn_ball(&mut registry).unwrap();
    let before = registry.bodies();
    move_paddles(
        &mut registry,
        ActionState { up: true, down: false },
        ActionState { up: false, down: true },
    );
    let after = registry.bodies();
    for i in 0..7 {
        assert_eq!(after[i].id, before[i].id);
        assert_eq!(after[i].x, before[i].x);
        assert_eq!(after[i].y, before[i].y);
        assert_eq!(after[i].collider, before[i].collider);
    }
    assert_eq!(after[5].velocity, Velocity { x: 0, y: 500 });
    assert_eq!(after[6].velocity, Velocity { x: 0, y: -500 });
}

fn value(span: Span, half_width: i64, half_height: i64) -> i64 {
    span.half_widths * half_width + span.half_heights * half_height + span.units
}

fn size(collider: Collider, half_width: i64, half_height: i64) -> (i64, i64) {
    match collider {
        Collider::Circle { radius } => (2 * i64::from(radius), 2 * i64::from(radius)),
        Collider::Rectangle { width, height } => {
            (value(width, half_width, half_height), value(height, half_width, half_height))
        }
    }
}

#[test]
fn the_layout_in_a_viewport_of_1280_by_720() {
    let mut registry = Registry::new();
    let bodies = spawn_ball(&mut registry).unwrap();
    let centres: Vec<(i64, i64)> =
        bodies.iter().map(|body| (value(body.x, 640, 360), value(body.y, 640, 360))).collect();
    assert_eq!(
        centres,
        vec![(0, 0), (0, 360), (0, -360), (-640, 0), (640, 0), (-560, 0), (560, 0)]
    );
    let sizes: Vec<(i64, i64)> = bodies.iter().map(|body| size(body.collider, 640, 360)).collect();
    assert_eq!(
        sizes,
        vec![(40, 40), (1280, 50), (1280, 50), (50, 720), (50, 720), (20, 210), (20, 210)]
    );
}

#[test]
fn goal_walls_cover_every_height_of_the_viewport() {
    for wall in [Body::left_wall(), Body::right_wall()] {
        let (_, height) = size(wall.collider, 640, 360);
        let centre = value(wall.y, 640, 360);
        assert_eq!(centre - height / 2, -360);
        assert_eq!(centre + height / 2, 360);
    }
    assert_eq!(value(Body::left_wall().x, 640, 360), -640);
    assert_eq!(value(Body::right_wall().x, 640, 360), 640);
}
