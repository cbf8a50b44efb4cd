//! What holds of the rules in every game.

use vstd::prelude::*;
use crate::components::{
    ceiling_body, floor_body, left_wall_body, paddle_body, right_wall_body, Ball, Collider,
    EntityId, Paddle, Role, Side, Span, Velocity, BALL_RADIUS, CEILING_ID, FLOOR_ID, LEFT_WALL_ID,
    PADDLE_MARGIN, PADDLE_SPEED, RIGHT_WALL_ID, WALL_THICKNESS,
};
use vstd::arithmetic::power::pow;
use crate::events::{
    compounded, Axis, Bounce, Contact, Respawn, ScoreGoal, VelocityChange, PUSH_SPEED,
};
use crate::game::{State, Step};
use crate::registry::Entities;
use crate::resources::ActionState;
use crate::systems::{
    announced_for, bounce_of, bounce_response, change_of, change_response, goal_of,
    goal_response, lemma_announced_for_push, meets_paddle, paddle_met, struck_spec,
};

verus! {

/// `contact` is between the entities `a` and `b`, whichever comes first.
pub open spec fn touches(contact: Contact, a: EntityId, b: EntityId) -> bool {
    ||| contact == (Contact { entity1: a, entity2: b })
    ||| contact == (Contact { entity1: b, entity2: a })
}

/// The ball in play touches the entity `surface` in `contact`.
pub open spec fn ball_touches(entities: Entities, contact: Contact, surface: EntityId) -> bool {
    entities.ball matches Some(ball) && touches(contact, ball.id, surface)
}

/// Which of the two entities of a contact comes first means nothing: the
/// other way round the same entity is struck.
pub proof fn lemma_contact_order_means_nothing(entities: Entities, a: EntityId, b: EntityId)
    ensures
        struck_spec(entities, Contact { entity1: a, entity2: b }) == struck_spec(
            entities,
            Contact { entity1: b, entity2: a },
        ),
{
}

/// A contact in which the ball strikes something calls for exactly one
/// change to the ball's velocity, and is either a bounce or a goal, never
/// both. Any other contact is passed over. Only a contact with a paddle sets
/// the time back, and it is a bounce.
pub proof fn lemma_contact_is_answered_once(entities: Entities, contact: Contact)
    ensures
        struck_spec(entities, contact) is Some <==> change_of(entities, contact) is Some,
        struck_spec(entities, contact) is Some <==> (bounce_of(entities, contact) is Some)
            != (goal_of(entities, contact) is Some),
        struck_spec(entities, contact) is None ==> {
            &&& bounce_of(entities, contact) is None
            &&& goal_of(entities, contact) is None
        },
        meets_paddle(entities, contact) ==> bounce_of(entities, contact) is Some,
        goal_of(entities, contact) is Some ==> change_of(entities, contact) == Some(
            VelocityChange::Reflect { axis: Axis::Horizontal },
        ),
{
}

/// A frame and a fixed step keep the record of who exists well formed.
pub proof fn lemma_step_keeps_well_formed(state: State, step: Step)
    requires
        state.entities.wf(),
    ensures
        state.after(step).entities.wf(),
{
}

/// Once the court is laid out and a ball is on it, exactly one ball is in
/// play after every frame and every fixed step, whatever the host tells the
/// rules. The court stays too, each paddle on its side and of its size.
pub proof fn lemma_one_ball_in_play(state: State, steps: Seq<Step>)
    requires
        state.entities.wf(),
        state.entities.in_play(),
    ensures
        state.after_all(steps).entities.wf(),
        state.after_all(steps).entities.in_play(),
    decreases steps.len(),
{
    if steps.len() > 0 {
        lemma_one_ball_in_play(state, steps.drop_last());
        lemma_step_keeps_well_formed(state.after_all(steps.drop_last()), steps.last());
    }
}

/// Setting up leaves exactly one ball, whatever existed before: the ball
/// that was there, or a new one. Where none was there, the court is laid out
/// too, so that the ball is in play, and with that it stays in play after
/// every frame and every fixed step.
pub proof fn lemma_startup_leaves_one_ball(entities: Entities)
    requires
        entities.wf(),
    ensures
        entities.set_up().wf(),
        entities.set_up().ball is Some,
        entities.ball is Some ==> entities.set_up() == entities,
        entities.ball is None ==> entities.set_up().in_play(),
        entities.court is Some ==> entities.set_up().in_play(),
{
}

/// From the first setting up on exactly one ball is in play, whatever the
/// host tells the rules afterwards.
pub proof fn lemma_one_ball_from_startup_on(steps: Seq<Step>)
    ensures
        (State { entities: Entities::empty().set_up(), ..State::initial() }).after_all(
            steps,
        ).entities.in_play(),
{
    lemma_startup_leaves_one_ball(Entities::empty());
    lemma_one_ball_in_play(
        State { entities: Entities::empty().set_up(), ..State::initial() },
        steps,
    );
}

/// Whatever happens, a paddle stays where it was put and as large as it
/// was: after any frames and fixed steps its body has the centre and the shape
/// that it had at rest when the court was laid out.
pub proof fn lemma_paddles_keep_their_place(state: State, steps: Seq<Step>, side: Side)
    requires
        state.entities.wf(),
        state.entities.in_play(),
    ensures
        state.after_all(steps).entities.paddle(side) matches Some(paddle) && {
            &&& paddle.side == side
            &&& paddle_body(paddle).id == Paddle::id_of(side)
            &&& paddle_body(paddle).x == paddle_body(Paddle::at_rest(side)).x
            &&& paddle_body(paddle).y == paddle_body(Paddle::at_rest(side)).y
            &&& paddle_body(paddle).collider == paddle_body(Paddle::at_rest(side)).collider
        },
{
    lemma_one_ball_in_play(state, steps);
}

/// In a viewport that is wider than twice the margin the paddles stand on
/// their own sides of the vertical midline, the left one at negative `x`,
/// and mirror each other. Both stand on the horizontal midline.
pub proof fn lemma_paddles_stand_on_their_sides(half_width: int, half_height: int)
    requires
        half_width > PADDLE_MARGIN,
    ensures
        paddle_body(Paddle::at_rest(Side::Left)).x.value(half_width, half_height) < 0,
        paddle_body(Paddle::at_rest(Side::Right)).x.value(half_width, half_height) > 0,
        paddle_body(Paddle::at_rest(Side::Left)).x.value(half_width, half_height)
            == -paddle_body(Paddle::at_rest(Side::Right)).x.value(half_width, half_height),
        paddle_body(Paddle::at_rest(Side::Left)).y.value(half_width, half_height) == 0,
        paddle_body(Paddle::at_rest(Side::Right)).y.value(half_width, half_height) == 0,
{
    lemma_value_along_the_width(paddle_body(Paddle::at_rest(Side::Left)).x, half_width, half_height);
    lemma_value_along_the_width(
        paddle_body(Paddle::at_rest(Side::Right)).x,
        half_width,
        half_height,
    );
    assert(paddle_body(Paddle::at_rest(Side::Left)).y.half_heights * half_height == 0)
        by (nonlinear_arith)
        requires
            paddle_body(Paddle::at_rest(Side::Left)).y.half_heights == 0,
    ;
}

/// In a viewport that is wider than twice the margin each goal wall stands
/// behind the paddle of its own side, as seen from the centre: the wall tagged
/// left along the left edge behind the left paddle, the wall tagged right
/// along the right edge behind the right one.
pub proof fn lemma_goal_walls_stand_behind_the_paddles(half_width: int, half_height: int)
    requires
        half_width > PADDLE_MARGIN,
    ensures
        left_wall_body().x.value(half_width, half_height) == -half_width,
        right_wall_body().x.value(half_width, half_height) == half_width,
        left_wall_body().x.value(half_width, half_height) < paddle_body(
            Paddle::at_rest(Side::Left),
        ).x.value(half_width, half_height) < 0,
        0 < paddle_body(Paddle::at_rest(Side::Right)).x.value(half_width, half_height)
            < right_wall_body().x.value(half_width, half_height),
{
    lemma_value_along_the_width(left_wall_body().x, half_width, half_height);
    lemma_value_along_the_width(right_wall_body().x, half_width, half_height);
    lemma_value_along_the_width(paddle_body(Paddle::at_rest(Side::Left)).x, half_width, half_height);
    lemma_value_along_the_width(
        paddle_body(Paddle::at_rest(Side::Right)).x,
        half_width,
        half_height,
    );
}

/// The four walls close the court. Each goal wall is centred on the
/// horizontal midline and as high as the viewport, so it covers every height
/// from the bottom edge to the top edge. The ceiling and the floor are centred
/// on the vertical midline, along the top and the bottom edge, and as wide as
/// the viewport.
pub proof fn lemma_walls_span_the_viewport(half_width: int, half_height: int)
    ensures
        left_wall_body().y.value(half_width, half_height) == 0,
        right_wall_body().y.value(half_width, half_height) == 0,
        left_wall_body().collider matches Collider::Rectangle { width, height } && height.value(
            half_width,
            half_height,
        ) == 2 * half_height && width.value(half_width, half_height) == WALL_THICKNESS,
        right_wall_body().collider matches Collider::Rectangle { width, height } && height.value(
            half_width,
            half_height,
        ) == 2 * half_height && width.value(half_width, half_height) == WALL_THICKNESS,
        ceiling_body().x.value(half_width, half_height) == 0,
        ceiling_body().y.value(half_width, half_height) == half_height,
        floor_body().x.value(half_width, half_height) == 0,
        floor_body().y.value(half_width, half_height) == -half_height,
        ceiling_body().collider matches Collider::Rectangle { width, height } && width.value(
            half_width,
            half_height,
        ) == 2 * half_width && height.value(half_width, half_height) == WALL_THICKNESS,
        floor_body().collider matches Collider::Rectangle { width, height } && width.value(
            half_width,
            half_height,
        ) == 2 * half_width && height.value(half_width, half_height) == WALL_THICKNESS,
{
    lemma_small_multiples(half_width);
    lemma_small_multiples(half_height);
}

/// What the small whole numbers that spans count in make of `x`.
proof fn lemma_small_multiples(x: int)
    ensures
        forall|k: int| k == 0 ==> #[trigger] (k * x) == 0,
        forall|k: int| k == 1 ==> #[trigger] (k * x) == x,
        forall|k: int| k == -1 ==> #[trigger] (k * x) == -x,
        forall|k: int| k == 2 ==> #[trigger] (k * x) == 2 * x,
{
    assert forall|k: int| k == 0 implies #[trigger] (k * x) == 0 by {
        assert(k * x == 0) by (nonlinear_arith)
            requires
                k == 0,
        ;
    }
    assert forall|k: int| k == 1 implies #[trigger] (k * x) == x by {
        assert(k * x == x) by (nonlinear_arith)
            requires
                k == 1,
        ;
    }
    assert forall|k: int| k == -1 implies #[trigger] (k * x) == -x by {
        assert(k * x == -x) by (nonlinear_arith)
            requires
                k == -1,
        ;
    }
    assert forall|k: int| k == 2 implies #[trigger] (k * x) == 2 * x by {
        assert(k * x == 2 * x) by (nonlinear_arith)
            requires
                k == 2,
        ;
    }
}

/// The value of a span that counts one half width, forward or backward, and
/// no half height.
proof fn lemma_value_along_the_width(span: Span, half_width: int, half_height: int)
    requires
        span.half_widths == 1 || span.half_widths == -1,
        span.half_heights == 0,
    ensures
        span.half_widths == 1 ==> span.value(half_width, half_height) == half_width + span.units,
        span.half_widths == -1 ==> span.value(half_width, half_height) == span.units - half_width,
{
    assert(span.half_widths * half_width == if span.half_widths == 1 {
        half_width
    } else {
        -half_width
    }) by (nonlinear_arith)
        requires
            span.half_widths == 1 || span.half_widths == -1,
    ;
    assert(span.half_heights * half_height == 0) by (nonlinear_arith)
        requires
            span.half_heights == 0,
    ;
}

/// A contact of the ball with the ceiling or the floor, whichever of the two
/// comes first in it, calls for exactly one change to the ball's velocity:
/// a reflection along the vertical axis, and for none along the horizontal
/// one. It is a bounce, and it is no goal and no meeting with a paddle.
pub proof fn lemma_ceiling_and_floor_reflect(entities: Entities, contact: Contact, surface: EntityId)
    requires
        entities.wf(),
        entities.in_play(),
        surface == EntityId(CEILING_ID) || surface == EntityId(FLOOR_ID),
        ball_touches(entities, contact, surface),
    ensures
        change_of(entities, contact) == Some(VelocityChange::Reflect { axis: Axis::Vertical }),
        bounce_of(entities, contact) == Some(Bounce { ball: entities.ball->0.id, surface }),
        goal_of(entities, contact) is None,
        !meets_paddle(entities, contact),
        seq![contact].filter_map(change_response(entities)) == seq![
            VelocityChange::Reflect { axis: Axis::Vertical },
        ],
{
    Seq::lemma_filter_map_singleton(contact, change_response(entities));
}

/// A contact of the ball with the wall tagged left is exactly one goal, and
/// that goal is for [`Side::Right`]. Counting it adds exactly one to the left
/// counter and leaves the right counter as it is: a goal counts for the side
/// opposite to the one it names.
pub proof fn lemma_left_wall_goal(
    state: State,
    left: ActionState,
    right: ActionState,
    contact: Contact,
)
    requires
        state.entities.wf(),
        state.entities.in_play(),
        ball_touches(state.entities, contact, EntityId(LEFT_WALL_ID)),
        state.score.left < u32::MAX,
    ensures
        state.goals(seq![contact]) == seq![ScoreGoal { goal_for: Side::Right }],
        state.can_count(seq![contact]),
        state.after_update(left, right, seq![contact]).score.left == state.score.left + 1,
        state.after_update(left, right, seq![contact]).score.right == state.score.right,
{
    lemma_single_goal(state, contact, ScoreGoal { goal_for: Side::Right });
}

/// A contact of the ball with the wall tagged right is exactly one goal, and
/// that goal is for [`Side::Left`]. Counting it adds exactly one to the right
/// counter and leaves the left counter as it is.
pub proof fn lemma_right_wall_goal(
    state: State,
    left: ActionState,
    right: ActionState,
    contact: Contact,
)
    requires
        state.entities.wf(),
        state.entities.in_play(),
        ball_touches(state.entities, contact, EntityId(RIGHT_WALL_ID)),
        state.score.right < u32::MAX,
    ensures
        state.goals(seq![contact]) == seq![ScoreGoal { goal_for: Side::Left }],
        state.can_count(seq![contact]),
        state.after_update(left, right, seq![contact]).score.right == state.score.right + 1,
        state.after_update(left, right, seq![contact]).score.left == state.score.left,
{
    lemma_single_goal(state, contact, ScoreGoal { goal_for: Side::Left });
}

/// Where `contact` is the goal `goal`, a frame with no other contact has
/// that one goal, which is announced once for the side it names and not at
/// all for the other.
proof fn lemma_single_goal(state: State, contact: Contact, goal: ScoreGoal)
    requires
        goal_of(state.entities, contact) == Some(goal),
    ensures
        state.goals(seq![contact]) == seq![goal],
        announced_for(state.goals(seq![contact]), goal.goal_for) == 1,
        announced_for(state.goals(seq![contact]), goal.goal_for.opposite_spec()) == 0,
{
    Seq::lemma_filter_map_singleton(contact, goal_response(state.entities));
    let none = Seq::<ScoreGoal>::empty();
    assert(none.push(goal) =~= seq![goal]);
    lemma_announced_for_push(none, goal, Side::Left);
    lemma_announced_for_push(none, goal, Side::Right);
    assert(announced_for(none, Side::Left) == 0 && announced_for(none, Side::Right) == 0) by {
        reveal(Seq::filter);
    }
}

/// The counters never fall: a frame leaves each at least where it was.
pub proof fn lemma_score_never_falls(
    state: State,
    left: ActionState,
    right: ActionState,
    contacts: Seq<Contact>,
)
    requires
        state.can_count(contacts),
    ensures
        state.after_update(left, right, contacts).score.left >= state.score.left,
        state.after_update(left, right, contacts).score.right >= state.score.right,
        state.after_update(left, right, contacts).score.left - state.score.left
            + state.after_update(left, right, contacts).score.right - state.score.right
            == state.goals(contacts).len(),
{
    lemma_every_goal_is_announced_once(state.goals(contacts));
}

/// Every goal is announced for one side or the other.
pub proof fn lemma_every_goal_is_announced_once(goals: Seq<ScoreGoal>)
    ensures
        announced_for(goals, Side::Left) + announced_for(goals, Side::Right) == goals.len(),
    decreases goals.len(),
{
    if goals.len() == 0 {
        reveal(Seq::filter);
    } else {
        lemma_every_goal_is_announced_once(goals.drop_last());
        assert(goals.drop_last().push(goals.last()) =~= goals);
        lemma_announced_for_push(goals.drop_last(), goals.last(), Side::Left);
        lemma_announced_for_push(goals.drop_last(), goals.last(), Side::Right);
    }
}

/// A contact of the ball with a paddle, whichever of the two comes first in
/// it, calls for exactly one change to the ball's velocity: a push of
/// [`PUSH_SPEED`] away from that paddle. It is a bounce, and the time since a
/// paddle last met the ball is zero afterwards.
pub proof fn lemma_paddle_pushes_and_resets(
    state: State,
    left: ActionState,
    right: ActionState,
    contact: Contact,
    side: Side,
)
    requires
        state.entities.wf(),
        state.entities.in_play(),
        ball_touches(state.entities, contact, Paddle::id_of(side)),
    ensures
        state.changes(seq![contact]) == seq![
            VelocityChange::Push { from: Paddle::id_of(side), speed: PUSH_SPEED },
        ],
        state.bounces(seq![contact]) == seq![
            Bounce { ball: state.entities.ball->0.id, surface: Paddle::id_of(side) },
        ],
        state.after_update(left, right, seq![contact]).last_pong.last == 0,
        state.after_update(left, right, seq![contact]).entities.ball == state.entities.ball,
{
    Seq::lemma_filter_map_singleton(contact, change_response(state.entities));
    Seq::lemma_filter_map_singleton(contact, bounce_response(state.entities));
    assert(struck_spec(state.entities, contact) == Some(
        (Paddle::id_of(side), Role::Paddle(side)),
    ));
    assert(meets_paddle(state.entities, seq![contact][0]));
}

/// A frame that begins more than twenty seconds of fixed steps after a
/// paddle last met the ball, and in which none meets it, ends with the ball
/// replaced: the old ball is gone, a new one with another name is launched
/// with the velocity (100, 33), and the time is back at zero.
pub proof fn lemma_lock_respawns(
    state: State,
    left: ActionState,
    right: ActionState,
    contacts: Seq<Contact>,
)
    requires
        state.entities.wf(),
        state.entities.in_play(),
        state.last_pong.last > 20_000_000_000,
        !paddle_met(state.entities, contacts),
    ensures
        state.after_update(left, right, contacts).entities.ball == Some(
            Ball {
                id: EntityId(state.entities.next_ball_id),
                initial_velocity: Velocity { x: 100, y: 33 },
                radius: BALL_RADIUS,
            },
        ),
        state.entities.role_of(EntityId(state.entities.next_ball_id)) is None,
        state.after_update(left, right, contacts).entities.role_of(state.entities.ball->0.id)
            is None,
        state.after_update(left, right, contacts).last_pong.last == 0,
        state.respawn(left, right, contacts) == Some(
            Respawn {
                despawned: Some(state.entities.ball->0.id),
                spawned: state.after_update(left, right, contacts).entities.ball->0,
            },
        ),
{
}

/// Until more than twenty seconds have gone by, or where a paddle meets the
/// ball in the frame, the ball stays the one it is.
pub proof fn lemma_no_lock_no_respawn(
    state: State,
    left: ActionState,
    right: ActionState,
    contacts: Seq<Contact>,
)
    requires
        state.last_pong.last <= 20_000_000_000 || paddle_met(state.entities, contacts),
    ensures
        state.after_update(left, right, contacts).entities.ball == state.entities.ball,
        state.respawn(left, right, contacts) is None,
{
}

/// After every frame each paddle moves as its player asks in that frame, and
/// what it did before plays no part.
pub proof fn lemma_paddles_follow_actions(
    state: State,
    left: ActionState,
    right: ActionState,
    contacts: Seq<Contact>,
)
    requires
        state.entities.court is Some,
    ensures
        state.after_update(left, right, contacts).entities.paddle_velocity(Side::Left) == Some(
            left.velocity_spec(),
        ),
        state.after_update(left, right, contacts).entities.paddle_velocity(Side::Right) == Some(
            right.velocity_spec(),
        ),
{
}

/// What a player holds moves the paddle at [`PADDLE_SPEED`] upward when only
/// up is held, at the same speed downward when only down is held, and not at
/// all when both or neither are. It never moves sideways.
pub proof fn lemma_actions_give_speed_or_rest(actions: ActionState)
    ensures
        actions.up && !actions.down ==> actions.velocity_spec() == (Velocity {
            x: 0,
            y: PADDLE_SPEED,
        }),
        actions.down && !actions.up ==> actions.velocity_spec() == (Velocity {
            x: 0,
            y: -500i32,
        }),
        actions.up == actions.down ==> actions.velocity_spec() == Velocity::zero(),
        PADDLE_SPEED == 500,
{
}

/// Each of `count` fixed steps of `delta` nanoseconds, one after another,
/// calls for one ramp of the velocity of the ball in play, and each time for
/// the same one: the ramp over `delta`. Afterwards the time since a paddle
/// last met the ball has grown by `count` times `delta`, and nobody has come
/// or gone.
pub proof fn lemma_every_fixed_step_ramps(state: State, delta: u64, count: nat)
    requires
        state.entities.in_play(),
        state.last_pong.last + count * delta <= u64::MAX,
    ensures
        forall|done: nat|
            done < count ==> (#[trigger] state.after_all(fixed_steps(delta, done))).ramp(delta)
                == Some(VelocityChange::Ramp { percent_per_second: 5, elapsed: delta }),
        state.after_all(fixed_steps(delta, count)).last_pong.last == state.last_pong.last + count
            * delta,
        state.after_all(fixed_steps(delta, count)).entities == state.entities,
    decreases count,
{
    if count > 0 {
        let before = (count - 1) as nat;
        assert(before * delta <= count * delta) by (nonlinear_arith)
            requires
                before <= count,
        ;
        assert(count * delta == before * delta + delta) by (nonlinear_arith)
            requires
                before + 1 == count,
        ;
        lemma_every_fixed_step_ramps(state, delta, before);
        let steps = fixed_steps(delta, count);
        assert(steps.drop_last() =~= fixed_steps(delta, before));
        assert(steps.last() == Step::FixedUpdate { delta });
        assert(state.after_all(steps) == state.after_all(steps.drop_last()).after(steps.last()));
        assert forall|done: nat| done < count implies (#[trigger] state.after_all(
            fixed_steps(delta, done),
        )).ramp(delta) == Some(
            VelocityChange::Ramp { percent_per_second: 5, elapsed: delta },
        ) by {
            if done < before {
            } else {
                assert(done == before);
            }
        }
    } else {
        assert(fixed_steps(delta, 0).len() == 0);
        assert(count * delta == 0) by (nonlinear_arith)
            requires
                count == 0,
        ;
    }
}

/// The ramps that `count` fixed steps of `delta` nanoseconds call for, one
/// after another, from `state` on.
pub open spec fn ramps(state: State, delta: u64, count: nat) -> Seq<Option<VelocityChange>> {
    Seq::new(count, |i: int| state.after_all(fixed_steps(delta, i as nat)).ramp(delta))
}

/// Over `count` fixed steps of `delta` nanoseconds the ramps multiply the
/// speed of the ball in play by `1 + 5 / 100 * delta / 10^9` to the power of
/// `count`, exactly: the growth compounds.
pub proof fn lemma_ramps_compound(state: State, delta: u64, count: nat)
    requires
        state.entities.in_play(),
        state.last_pong.last + count * delta <= u64::MAX,
    ensures
        forall|i: int| 0 <= i < count ==> (#[trigger] ramps(state, delta, count)[i]) is Some,
        compounded(Seq::new(count, |i: int| ramps(state, delta, count)[i]->0)) == Some(
            (pow(100_000_000_000 + 5 * delta, count), pow(100_000_000_000, count)),
        ),
{
    lemma_every_fixed_step_ramps(state, delta, count);
    let ramp = VelocityChange::Ramp { percent_per_second: 5, elapsed: delta };
    assert forall|i: int| 0 <= i < count implies (#[trigger] ramps(state, delta, count)[i])
        == Some(ramp) by {
        assert(state.after_all(fixed_steps(delta, i as nat)).ramp(delta) == Some(ramp));
    }
    assert(Seq::new(count, |i: int| ramps(state, delta, count)[i]->0) =~= Seq::new(
        count,
        |i: int| ramp,
    ));
    lemma_equal_ramps_compound(5, delta, count);
}

/// `count` ramps of the same rate over the same time multiply the speed by
/// the factor of one of them to the power of `count`.
pub proof fn lemma_equal_ramps_compound(percent_per_second: u32, elapsed: u64, count: nat)
    ensures
        compounded(
            Seq::new(count, |i: int| VelocityChange::Ramp { percent_per_second, elapsed }),
        ) == Some(
            (
                pow(100_000_000_000 + percent_per_second * elapsed, count),
                pow(100_000_000_000, count),
            ),
        ),
    decreases count,
{
    let ramp = VelocityChange::Ramp { percent_per_second, elapsed };
    let all = Seq::new(count, |i: int| ramp);
    reveal(pow);
    if count > 0 {
        let before = (count - 1) as nat;
        lemma_equal_ramps_compound(percent_per_second, elapsed, before);
        assert(all.drop_last() =~= Seq::new(before, |i: int| ramp));
        assert(all.last() == ramp);
        let numerator = 100_000_000_000 + percent_per_second * elapsed;
        assert(pow(numerator, before) * numerator == numerator * pow(numerator, before))
            by (nonlinear_arith);
        assert(pow(100_000_000_000, before) * 100_000_000_000 == 100_000_000_000 * pow(
            100_000_000_000,
            before,
        )) by (nonlinear_arith);
    }
}

/// `count` fixed steps of `delta` nanoseconds each.
pub open spec fn fixed_steps(delta: u64, count: nat) -> Seq<Step> {
    Seq::new(count, |i: int| Step::FixedUpdate { delta })
}

} // verus!
