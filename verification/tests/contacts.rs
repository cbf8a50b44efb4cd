use pong_core::components::{
    EntityId, LeftWall, Paddle, RightWall, Role, Side, CEILING_ID, FLOOR_ID, LEFT_PADDLE_ID,
    LEFT_WALL_ID, RIGHT_PADDLE_ID, RIGHT_WALL_ID,
};
use pong_core::events::{Axis, Bounce, Contact, ScoreGoal, VelocityChange};
use pong_core::registry::Registry;
use pong_core::resources::{LastPong, Score};
use pong_core::systems::{rebound, score_goal, scoring, spawn_ball, struck};

fn court_with_ball() -> (Registry, EntityId) {
    let mut registry = Registry::new();
    spawn_ball(&mut registry).expect("nothing exists yet");
    let ball = registry.ball().expect("a ball was launched").id;
    (registry, ball)
}

fn contact(entity1: EntityId, entity2: EntityId) -> Contact {
    Contact { entity1, entity2 }
}

#[test]
fn every_entity_has_its_role() {
    let (registry, ball) = court_with_ball();
    assert_eq!(registry.role(ball), Some(Role::Ball));
    assert_eq!(registry.role(EntityId(CEILING_ID)), Some(Role::Ceiling));
    assert_eq!(registry.role(EntityId(FLOOR_ID)), Some(Role::Floor));
    assert_eq!(registry.role(EntityId(LEFT_WALL_ID)), Some(Role::LeftWall));
    assert_eq!(registry.role(EntityId(RIGHT_WALL_ID)), Some(Role::RightWall));
    assert_eq!(registry.role(EntityId(LEFT_PADDLE_ID)), Some(Role::Paddle(Side::Left)));
    assert_eq!(registry.role(EntityId(RIGHT_PADDLE_ID)), Some(Role::Paddle(Side::Right)));
    assert_eq!(registry.role(EntityId(7)), None);
    assert_eq!(registry.role(EntityId(u64::MAX)), None);
}

#[test]
fn tags_name_their_walls() {
    assert_eq!(LeftWall::id(), EntityId(LEFT_WALL_ID));
    assert_eq!(RightWall::id(), EntityId(RIGHT_WALL_ID));
    assert_eq!(LeftWall::goal_for(), Side::Right);
    assert_eq!(RightWall::goal_for(), Side::Left);
    assert_eq!(Side::Left.opposite(), Side::Right);
    assert_eq!(Side::Right.opposite(), Side::Left);
}

#[test]
fn struck_finds_the_other_entity_in_either_order() {
    let (registry, ball) = court_with_ball();
    let paddle = EntityId(RIGHT_PADDLE_ID);
    assert_eq!(struck(&registry, contact(ball, paddle)), Some((paddle, Role::Paddle(Side::Right))));
    assert_eq!(struck(&registry, contact(paddle, ball)), Some((paddle, Role::Paddle(Side::Right))));
}

#[test]
fn struck_needs_the_ball() {
    let (registry, ball) = court_with_ball();
    let left = EntityId(LEFT_PADDLE_ID);
    let wall = EntityId(LEFT_WALL_ID);
    assert_eq!(struck(&registry, contact(left, wall)), None);
    assert_eq!(struck(&registry, contact(ball, ball)), None);
    assert_eq!(struck(&registry, contact(ball, EntityId(99))), None);
    assert_eq!(struck(&registry, contact(EntityId(99), ball)), None);
    assert_eq!(struck(&registry, contact(EntityId(98), EntityId(99))), None);
}

#[test]
fn nothing_is_struck_before_the_court_exists() {
    let mut registry = Registry::new();
    let ball = registry.spawn_ball(pong_core::components::Velocity::launch()).unwrap();
    assert_eq!(struck(&registry, contact(ball, EntityId(CEILING_ID))), None);
}

#[test]
fn ceiling_reflects_the_vertical_part_only() {
    let (registry, ball) = court_with_ball();
    let mut timer = LastPong { last: 5 };
    let ceiling = EntityId(CEILING_ID);
    let out = rebound(&vec![contact(ball, ceiling)], &registry, &mut timer);
    assert_eq!(out.changes, vec![VelocityChange::Reflect { axis: Axis::Vertical }]);
    assert_eq!(out.bounces, vec![Bounce { ball, surface: ceiling }]);
    assert_eq!(timer.last, 5);
}

#[test]
fn floor_reflects_the_vertical_part_only() {
    let (registry, ball) = court_with_ball();
    let mut timer = LastPong { last: 5 };
    let floor = EntityId(FLOOR_ID);
    let out = rebound(&vec![contact(floor, ball)], &registry, &mut timer);
    assert_eq!(out.changes, vec![VelocityChange::Reflect { axis: Axis::Vertical }]);
    assert_eq!(out.bounces, vec![Bounce { ball, surface: floor }]);
    assert_eq!(timer.last, 5);
}

#[test]
fn paddle_pushes_by_one_hundred_and_resets_the_time() {
    let (registry, ball) = court_with_ball();
    let mut timer = LastPong { last: 19_000_000_000 };
    let paddle = Paddle::id(&registry.paddle(Side::Left).unwrap());
    assert_eq!(paddle, EntityId(LEFT_PADDLE_ID));
    let out = rebound(&vec![contact(paddle, ball)], &registry, &mut timer);
    assert_eq!(out.changes, vec![VelocityChange::Push { from: paddle, speed: 100 }]);
    assert_eq!(out.bounces, vec![Bounce { ball, surface: paddle }]);
    assert_eq!(timer.last, 0);
}

#[test]
fn goal_walls_reflect_the_horizontal_part_only() {
    let (registry, ball) = court_with_ball();
    let mut timer = LastPong { last: 7 };
    let contacts = vec![contact(ball, LeftWall::id()), contact(RightWall::id(), ball)];
    let out = rebound(&contacts, &registry, &mut timer);
    let turn = VelocityChange::Reflect { axis: Axis::Horizontal };
    assert_eq!(out.changes, vec![turn, turn]);
    assert!(out.bounces.is_empty());
    assert_eq!(timer.last, 7);
}

#[test]
fn contacts_without_the_ball_are_passed_over() {
    let (registry, _) = court_with_ball();
    let mut timer = LastPong { last: 7 };
    let contacts = vec![
        contact(EntityId(LEFT_PADDLE_ID), EntityId(CEILING_ID)),
        contact(EntityId(1234), EntityId(LEFT_PADDLE_ID)),
    ];
    let out = rebound(&contacts, &registry, &mut timer);
    assert!(out.changes.is_empty());
    assert!(out.bounces.is_empty());
    assert_eq!(timer.last, 7);
    assert!(score_goal(&contacts, &registry).is_empty());
}

#[test]
fn contacts_are_answered_in_order_and_each_on_its_own() {
    let (registry, ball) = court_with_ball();
    let mut timer = LastPong { last: 7 };
    let left = EntityId(LEFT_PADDLE_ID);
    let right = EntityId(RIGHT_PADDLE_ID);
    let ceiling = EntityId(CEILING_ID);
    let contacts = vec![
        contact(ball, right),
        contact(ball, LeftWall::id()),
        contact(ceiling, ball),
        contact(ball, right),
        contact(left, ball),
    ];
    let out = rebound(&contacts, &registry, &mut timer);
    assert_eq!(
        out.changes,
        vec![
            VelocityChange::Push { from: right, speed: 100 },
            VelocityChange::Reflect { axis: Axis::Horizontal },
            VelocityChange::Reflect { axis: Axis::Vertical },
            VelocityChange::Push { from: right, speed: 100 },
            VelocityChange::Push { from: left, speed: 100 },
        ]
    );
    assert_eq!(
        out.bounces,
        vec![
            Bounce { ball, surface: right },
            Bounce { ball, surface: ceiling },
            Bounce { ball, surface: right },
            Bounce { ball, surface: left },
        ]
    );
    assert_eq!(timer.last, 0);
}

#[test]
fn left_wall_is_a_goal_for_right() {
    let (registry, ball) = court_with_ball();
    let goals = score_goal(&vec![contact(ball, LeftWall::id())], &registry);
    assert_eq!(goals, vec![ScoreGoal { goal_for: Side::Right }]);
    let goals = score_goal(&vec![contact(LeftWall::id(), ball)], &registry);
    assert_eq!(goals, vec![ScoreGoal { goal_for: Side::Right }]);
}

#[test]
fn right_wall_is_a_goal_for_left() {
    let (registry, ball) = court_with_ball();
    let goals = score_goal(&vec![contact(ball, RightWall::id())], &registry);
    assert_eq!(goals, vec![ScoreGoal { goal_for: Side::Left }]);
}

#[test]
fn a_goal_counts_for_the_side_it_does_not_name() {
    let (registry, ball) = court_with_ball();
    let goals = score_goal(&vec![contact(ball, LeftWall::id())], &registry);
    let mut score = Score::default();
    scoring(&goals, &mut score);
    assert_eq!((score.left, score.right), (1, 0));
    let goals = score_goal(&vec![contact(ball, RightWall::id())], &registry);
    scoring(&goals, &mut score);
    assert_eq!((score.left, score.right), (1, 1));
}

#[test]
fn the_same_contact_twice_is_two_goals() {
    let (registry, ball) = court_with_ball();
    let hit = contact(ball, RightWall::id());
    let goals = score_goal(&vec![hit, hit], &registry);
    assert_eq!(goals.len(), 2);
    let mut score = Score { left: 3, right: 4, changed: false };
    scoring(&goals, &mut score);
    assert_eq!(score, Score { left: 3, right: 6, changed: true });
}

#[test]
fn paddles_and_ceiling_are_no_goals() {
    let (registry, ball) = court_with_ball();
    let contacts = vec![
        contact(ball, EntityId(LEFT_PADDLE_ID)),
        contact(ball, EntityId(CEILING_ID)),
        contact(EntityId(FLOOR_ID), ball),
    ];
    assert!(score_goal(&contacts, &registry).is_empty());
}

#[test]
fn scoring_nothing_changes_nothing() {
    let mut score = Score { left: 2, right: 9, changed: false };
    scoring(&Vec::new(), &mut score);
    assert_eq!(score, Score { left: 2, right: 9, changed: false });
}

#[test]
fn scoring_counts_up_to_the_last_number() {
    let mut score = Score { left: u32::MAX - 1, right: u32::MAX - 2, changed: false };
    let goals = vec![
        ScoreGoal { goal_for: Side::Right },
        ScoreGoal { goal_for: Side::Left },
        ScoreGoal { goal_for: Side::Left },
    ];
    scoring(&goals, &mut score);
    assert_eq!(score, Score { left: u32::MAX, right: u32::MAX, changed: true });
}

#[test]
fn a_despawned_ball_is_struck_no_more() {
    let (mut registry, ball) = court_with_ball();
    assert!(registry.despawn_ball(ball));
    let mut timer = LastPong { last: 3 };
    let contacts = vec![contact(ball, EntityId(LEFT_PADDLE_ID)), contact(ball, LeftWall::id())];
    let out = rebound(&contacts, &registry, &mut timer);
    assert!(out.changes.is_empty());
    assert_eq!(timer.last, 3);
    assert!(score_goal(&contacts, &registry).is_empty());
}
