//! The systems: each reads what one kind of event or input means for the
//! game and says what follows from it.
//!
//! Contacts are answered one by one, in the order in which they are given, and
//! each on its own: two contacts of the same pair give two answers.

use vstd::prelude::*;
use crate::components::{
    ball_body, Body, EntityId, LeftWall, RightWall, Role, Side, Velocity,
};
use crate::events::{
    Axis, Bounce, Contact, Respawn, ScoreGoal, VelocityChange, PUSH_SPEED,
    RAMP_PERCENT_PER_SECOND,
};
use crate::registry::{Entities, Registry, SpawnError};
use crate::resources::{ActionState, LastPong, Score, LOCK_MAXIMUM};

verus! {

/// What the ball touches in `contact`, with its role: the other entity of a
/// contact between the ball in play and a paddle or a wall. A contact in
/// which the ball has no part, or whose other part names nothing that exists,
/// gives `None`.
pub open spec fn struck_spec(entities: Entities, contact: Contact) -> Option<(EntityId, Role)> {
    if entities.role_of(contact.entity1) == Some(Role::Ball) {
        match entities.role_of(contact.entity2) {
            Some(role) => if role == Role::Ball {
                None
            } else {
                Some((contact.entity2, role))
            },
            None => None,
        }
    } else if entities.role_of(contact.entity2) == Some(Role::Ball) {
        match entities.role_of(contact.entity1) {
            Some(role) => Some((contact.entity1, role)),
            None => None,
        }
    } else {
        None
    }
}

/// What the ball touches in `contact`, with its role.
pub fn struck(registry: &Registry, contact: Contact) -> (hit: Option<(EntityId, Role)>)
    ensures
        hit == struck_spec(registry@, contact),
{
    let first = registry.role(contact.entity1);
    let second = registry.role(contact.entity2);
    match (first, second) {
        (Some(Role::Ball), Some(Role::Ball)) => None,
        (Some(Role::Ball), Some(role)) => Some((contact.entity2, role)),
        (Some(role), Some(Role::Ball)) => Some((contact.entity1, role)),
        _ => None,
    }
}

/// The change to the ball's velocity that `contact` calls for: a push away
/// from a paddle, a reflection of the vertical part off the ceiling or the
/// floor, or one of the horizontal part off a goal wall.
pub open spec fn change_of(entities: Entities, contact: Contact) -> Option<VelocityChange> {
    match struck_spec(entities, contact) {
        Some((surface, Role::Paddle(_))) => Some(
            VelocityChange::Push { from: surface, speed: PUSH_SPEED },
        ),
        Some((_, Role::Ceiling)) => Some(VelocityChange::Reflect { axis: Axis::Vertical }),
        Some((_, Role::Floor)) => Some(VelocityChange::Reflect { axis: Axis::Vertical }),
        Some((_, Role::LeftWall)) => Some(VelocityChange::Reflect { axis: Axis::Horizontal }),
        Some((_, Role::RightWall)) => Some(VelocityChange::Reflect { axis: Axis::Horizontal }),
        _ => None,
    }
}

/// The bounce that `contact` is: one of the ball in play off a paddle, the
/// ceiling or the floor.
pub open spec fn bounce_of(entities: Entities, contact: Contact) -> Option<Bounce> {
    match (entities.ball, struck_spec(entities, contact)) {
        (Some(ball), Some((surface, Role::Paddle(_)))) => Some(Bounce { ball: ball.id, surface }),
        (Some(ball), Some((surface, Role::Ceiling))) => Some(Bounce { ball: ball.id, surface }),
        (Some(ball), Some((surface, Role::Floor))) => Some(Bounce { ball: ball.id, surface }),
        _ => None,
    }
}

/// Whether `contact` is one of the ball in play with a paddle.
pub open spec fn meets_paddle(entities: Entities, contact: Contact) -> bool {
    struck_spec(entities, contact) matches Some((_, Role::Paddle(_)))
}

/// The goal that `contact` is: the ball in play at a goal wall. The goal is
/// announced for the side opposite to the one in the wall's tag.
pub open spec fn goal_of(entities: Entities, contact: Contact) -> Option<ScoreGoal> {
    match struck_spec(entities, contact) {
        Some((_, Role::LeftWall)) => Some(ScoreGoal { goal_for: Side::Right }),
        Some((_, Role::RightWall)) => Some(ScoreGoal { goal_for: Side::Left }),
        _ => None,
    }
}

/// [`change_of`] among given entities, as a function of the contact.
pub open spec fn change_response(entities: Entities) -> spec_fn(Contact) -> Option<VelocityChange> {
    |contact: Contact| change_of(entities, contact)
}

/// [`bounce_of`] among given entities, as a function of the contact.
pub open spec fn bounce_response(entities: Entities) -> spec_fn(Contact) -> Option<Bounce> {
    |contact: Contact| bounce_of(entities, contact)
}

/// [`goal_of`] among given entities, as a function of the contact.
pub open spec fn goal_response(entities: Entities) -> spec_fn(Contact) -> Option<ScoreGoal> {
    |contact: Contact| goal_of(entities, contact)
}

/// Whether the ball met a paddle in any of `contacts`.
pub open spec fn paddle_met(entities: Entities, contacts: Seq<Contact>) -> bool {
    exists|i: int| 0 <= i < contacts.len() && meets_paddle(entities, #[trigger] contacts[i])
}

/// What the contacts of a step mean for the ball's velocity and for those
/// who watch it bounce.
#[derive(Debug)]
pub struct Rebounds {
    /// The changes to make to the velocity of the ball, in this order.
    pub changes: Vec<VelocityChange>,
    /// The bounces, in the order in which they happened.
    pub bounces: Vec<Bounce>,
}

/// Answers the contacts of the ball with paddles and walls.
///
/// A paddle pushes the ball away from its centre by [`PUSH_SPEED`]; this adds
/// to what the ball has and reflects nothing. The ceiling and the floor turn
/// the ball's vertical movement around, and each of these three is a bounce.
/// A goal wall turns the horizontal movement around. Contacts of other kinds
/// are passed over. Meeting a paddle also sets `last_pong` back to zero.
pub fn rebound(contacts: &Vec<Contact>, registry: &Registry, last_pong: &mut LastPong) -> (out:
    Rebounds)
    ensures
        out.changes@ == contacts@.filter_map(change_response(registry@)),
        out.bounces@ == contacts@.filter_map(bounce_response(registry@)),
        paddle_met(registry@, contacts@) ==> final(last_pong).last == 0,
        !paddle_met(registry@, contacts@) ==> *final(last_pong) == *old(last_pong),
{
    let mut changes: Vec<VelocityChange> = Vec::new();
    let mut bounces: Vec<Bounce> = Vec::new();
    let ball = registry.ball();
    let mut i: usize = 0;
    while i < contacts.len()
        invariant
            i <= contacts.len(),
            ball == registry@.ball,
            changes@ == contacts@.take(i as int).filter_map(change_response(registry@)),
            bounces@ == contacts@.take(i as int).filter_map(bounce_response(registry@)),
            paddle_met(registry@, contacts@.take(i as int)) ==> last_pong.last == 0,
            !paddle_met(registry@, contacts@.take(i as int)) ==> *last_pong == *old(last_pong),
        decreases contacts.len() - i,
    {
        let contact = contacts[i];
        proof {
            contacts@.lemma_filter_map_take_succ(change_response(registry@), i as int);
            contacts@.lemma_filter_map_take_succ(bounce_response(registry@), i as int);
            lemma_paddle_met_take_succ(registry@, contacts@, i as int);
        }
        match (ball, struck(registry, contact)) {
            (Some(ball), Some((surface, Role::Paddle(_)))) => {
                changes.push(VelocityChange::Push { from: surface, speed: PUSH_SPEED });
                bounces.push(Bounce { ball: ball.id, surface });
                last_pong.last = 0;
            },
            (Some(ball), Some((surface, Role::Ceiling))) => {
                changes.push(VelocityChange::Reflect { axis: Axis::Vertical });
                bounces.push(Bounce { ball: ball.id, surface });
            },
            (Some(ball), Some((surface, Role::Floor))) => {
                changes.push(VelocityChange::Reflect { axis: Axis::Vertical });
                bounces.push(Bounce { ball: ball.id, surface });
            },
            (Some(_), Some((_, Role::LeftWall))) => {
                changes.push(VelocityChange::Reflect { axis: Axis::Horizontal });
            },
            (Some(_), Some((_, Role::RightWall))) => {
                changes.push(VelocityChange::Reflect { axis: Axis::Horizontal });
            },
            _ => {},
        }
        i += 1;
    }
    proof {
        assert(contacts@.take(contacts.len() as int) =~= contacts@);
    }
    Rebounds { changes, bounces }
}

/// The ball met a paddle among the first `i + 1` contacts exactly if it met
/// one among the first `i`, or does in contact `i`.
proof fn lemma_paddle_met_take_succ(entities: Entities, contacts: Seq<Contact>, i: int)
    requires
        0 <= i < contacts.len(),
    ensures
        paddle_met(entities, contacts.take(i + 1)) == (paddle_met(entities, contacts.take(i))
            || meets_paddle(entities, contacts[i])),
{
    let shorter = contacts.take(i);
    let longer = contacts.take(i + 1);
    if paddle_met(entities, shorter) {
        let k = choose|k: int| 0 <= k < shorter.len() && meets_paddle(entities, #[trigger] shorter[k]);
        assert(longer[k] == shorter[k]);
    }
    if meets_paddle(entities, contacts[i]) {
        assert(longer[i] == contacts[i]);
    }
    if paddle_met(entities, longer) {
        let k = choose|k: int| 0 <= k < longer.len() && meets_paddle(entities, #[trigger] longer[k]);
        if k < i {
            assert(shorter[k] == longer[k]);
        } else {
            assert(longer[k] == contacts[i]);
        }
    }
}

/// Announces a goal for each contact of the ball with a goal wall: for
/// [`Side::Right`] at the wall tagged left, for [`Side::Left`] at the wall
/// tagged right. Contacts of other kinds are passed over. What the wall does
/// to the ball's velocity is [`rebound`]'s to say.
pub fn score_goal(contacts: &Vec<Contact>, registry: &Registry) -> (goals: Vec<ScoreGoal>)
    ensures
        goals@ == contacts@.filter_map(goal_response(registry@)),
{
    let mut goals: Vec<ScoreGoal> = Vec::new();
    let mut i: usize = 0;
    while i < contacts.len()
        invariant
            i <= contacts.len(),
            goals@ == contacts@.take(i as int).filter_map(goal_response(registry@)),
        decreases contacts.len() - i,
    {
        let contact = contacts[i];
        proof {
            contacts@.lemma_filter_map_take_succ(goal_response(registry@), i as int);
        }
        match struck(registry, contact) {
            Some((_, Role::LeftWall)) => {
                goals.push(ScoreGoal { goal_for: LeftWall::goal_for() });
            },
            Some((_, Role::RightWall)) => {
                goals.push(ScoreGoal { goal_for: RightWall::goal_for() });
            },
            _ => {},
        }
        i += 1;
    }
    proof {
        assert(contacts@.take(contacts.len() as int) =~= contacts@);
    }
    goals
}

/// Whether a goal is announced for `side`, as a function of the goal.
pub open spec fn is_for(side: Side) -> spec_fn(ScoreGoal) -> bool {
    |goal: ScoreGoal| goal.goal_for == side
}

/// How many of `goals` are announced for `side`.
pub open spec fn announced_for(goals: Seq<ScoreGoal>, side: Side) -> nat {
    goals.filter(is_for(side)).len()
}

/// One goal more adds one to the number of those announced for its side and
/// nothing to the other number.
pub proof fn lemma_announced_for_push(goals: Seq<ScoreGoal>, goal: ScoreGoal, side: Side)
    ensures
        announced_for(goals.push(goal), side) == announced_for(goals, side) + if goal.goal_for
            == side {
            1nat
        } else {
            0nat
        },
{
    reveal(Seq::filter);
    assert(goals.push(goal).drop_last() =~= goals);
}

/// The first `i` of `goals` hold no more goals for `side` than all of them.
proof fn lemma_announced_for_take(goals: Seq<ScoreGoal>, side: Side, i: int)
    requires
        0 <= i <= goals.len(),
    ensures
        announced_for(goals.take(i), side) <= announced_for(goals, side),
    decreases goals.len(),
{
    if i == goals.len() {
        assert(goals.take(i) =~= goals);
    } else {
        lemma_announced_for_take(goals.drop_last(), side, i);
        assert(goals.drop_last().take(i) =~= goals.take(i));
        assert(goals.drop_last().push(goals.last()) =~= goals);
        lemma_announced_for_push(goals.drop_last(), goals.last(), side);
    }
}

/// Counts the goals, in the order in which they were announced: each goal
/// adds one to the counter of the side that it does not name. So a goal
/// announced for [`Side::Right`], which is what a hit on the wall tagged left
/// is, adds one to the left counter, and one announced for [`Side::Left`]
/// adds one to the right counter. Any goal marks the score as changed.
pub fn scoring(goals: &Vec<ScoreGoal>, score: &mut Score)
    requires
        old(score).left + announced_for(goals@, Side::Right) <= u32::MAX,
        old(score).right + announced_for(goals@, Side::Left) <= u32::MAX,
    ensures
        final(score).left == old(score).left + announced_for(goals@, Side::Right),
        final(score).right == old(score).right + announced_for(goals@, Side::Left),
        final(score).changed == (old(score).changed || goals@.len() > 0),
{
    let mut i: usize = 0;
    while i < goals.len()
        invariant
            i <= goals.len(),
            old(score).left + announced_for(goals@, Side::Right) <= u32::MAX,
            old(score).right + announced_for(goals@, Side::Left) <= u32::MAX,
            score.left == old(score).left + announced_for(goals@.take(i as int), Side::Right),
            score.right == old(score).right + announced_for(goals@.take(i as int), Side::Left),
            score.changed == (old(score).changed || i > 0),
        decreases goals.len() - i,
    {
        proof {
            assert(goals@.take(i + 1) =~= goals@.take(i as int).push(goals@[i as int]));
            lemma_announced_for_push(goals@.take(i as int), goals@[i as int], Side::Right);
            lemma_announced_for_push(goals@.take(i as int), goals@[i as int], Side::Left);
            lemma_announced_for_take(goals@, Side::Right, i + 1);
            lemma_announced_for_take(goals@, Side::Left, i + 1);
        }
        match goals[i].goal_for.opposite() {
            Side::Left => {
                score.left = score.left + 1;
            },
            Side::Right => {
                score.right = score.right + 1;
            },
        }
        score.changed = true;
        i += 1;
    }
    proof {
        assert(goals@.take(goals.len() as int) =~= goals@);
    }
}

/// Adds the time of one fixed step, in nanoseconds, to the time since a
/// paddle last met the ball. Time goes by only while there is a ball: without
/// one the time stays as it is.
pub fn update_last_hit(registry: &Registry, last_pong: &mut LastPong, delta: u64)
    requires
        registry@.ball is Some ==> old(last_pong).last + delta <= u64::MAX,
    ensures
        registry@.ball is Some ==> final(last_pong).last == old(last_pong).last + delta,
        registry@.ball is None ==> *final(last_pong) == *old(last_pong),
{
    if registry.ball().is_some() {
        last_pong.last = last_pong.last + delta;
    }
}

/// Replaces the ball once it is locked, that is once more than
/// [`LOCK_MAXIMUM`] has gone by since a paddle last met it: the ball is taken
/// out of play, the time is set back to zero, and a new ball is launched from
/// the centre with [`Velocity::launch`]. Until then nothing happens.
pub fn respawn_ball_on_lock(registry: &mut Registry, last_pong: &mut LastPong) -> (respawn: Option<
    Respawn,
>)
    ensures
        old(last_pong).locked() ==> {
            &&& respawn == Some(old(registry)@.relaunch(Velocity::launch_spec()))
            &&& final(registry)@ == old(registry)@.with_new_ball(Velocity::launch_spec())
            &&& final(last_pong).last == 0
        },
        !old(last_pong).locked() ==> {
            &&& respawn is None
            &&& final(registry)@ == old(registry)@
            &&& *final(last_pong) == *old(last_pong)
        },
{
    if last_pong.last > LOCK_MAXIMUM {
        last_pong.last = 0;
        Some(registry.relaunch(Velocity::launch()))
    } else {
        None
    }
}

/// The growth of the ball's speed over one fixed step of `delta`
/// nanoseconds: [`RAMP_PERCENT_PER_SECOND`] percent per second, for the ball
/// in play. Without a ball nothing grows.
pub fn accelerate_with_time(registry: &Registry, delta: u64) -> (ramp: Option<VelocityChange>)
    ensures
        registry@.ball is Some ==> ramp == Some(
            VelocityChange::Ramp { percent_per_second: RAMP_PERCENT_PER_SECOND, elapsed: delta },
        ),
        registry@.ball is None ==> ramp is None,
{
    match registry.ball() {
        Some(_) => Some(
            VelocityChange::Ramp { percent_per_second: RAMP_PERCENT_PER_SECOND, elapsed: delta },
        ),
        None => None,
    }
}

/// Steers both paddles as their players ask. Each paddle's velocity is set
/// anew from what is held now: what it was before plays no part.
pub fn move_paddles(registry: &mut Registry, left: ActionState, right: ActionState)
    ensures
        final(registry)@ == old(registry)@.with_paddle_velocity(
            Side::Left,
            left.velocity_spec(),
        ).with_paddle_velocity(Side::Right, right.velocity_spec()),
{
    registry.steer(Side::Left, left);
    registry.steer(Side::Right, right);
}

/// The bodies that setting up creates among `entities`: none where a ball
/// exists, the new ball alone where the court is laid out already, and else
/// the new ball and the court.
pub open spec fn set_up_bodies(entities: Entities) -> Seq<Body> {
    if entities.ball is Some {
        Seq::<Body>::empty()
    } else if entities.court is Some {
        seq![ball_body(entities.next_ball(Velocity::launch_spec()))]
    } else {
        entities.set_up().bodies()
    }
}

/// Sets the game up: launches a ball from the centre with
/// [`Velocity::launch`] and lays out the court around it, unless it is laid
/// out already. The answer lists the bodies that were created, for the
/// physics engine to create them too. Where a ball exists already nothing is
/// spawned. Either way exactly one ball is in play afterwards.
pub fn spawn_ball(registry: &mut Registry) -> (spawned: Result<Vec<Body>, SpawnError>)
    ensures
        final(registry)@ == old(registry)@.set_up(),
        final(registry)@.ball is Some,
        old(registry)@.ball is None ==> final(registry)@.in_play(),
        old(registry)@.ball is Some ==> spawned == Err::<Vec<Body>, SpawnError>(
            SpawnError::BallExists,
        ),
        old(registry)@.ball is None ==> {
            &&& spawned matches Ok(bodies)
            &&& bodies@ == set_up_bodies(old(registry)@)
        },
{
    if registry.ball().is_some() {
        return Err(SpawnError::BallExists);
    }
    let respawn = registry.relaunch(Velocity::launch());
    match registry.spawn_court() {
        Ok(()) => Ok(registry.bodies()),
        Err(_) => {
            let mut bodies: Vec<Body> = Vec::new();
            bodies.push(Body::ball(&respawn.spawned));
            Ok(bodies)
        },
    }
}

} // verus!
