//! The game as a whole, and the order in which its systems run.
//!
//! The host calls [`Game::fixed_update`] once for each fixed step of
//! simulated time and [`Game::update`] once for each frame, and in a frame the
//! fixed steps come first. So the growth of the ball's speed over a frame's
//! fixed steps is applied before the pushes and reflections that the frame's
//! contacts call for, and those in the order of the contacts.

use vstd::prelude::*;
use crate::components::{Body, Side, Velocity};
use crate::events::{Bounce, Contact, Respawn, ScoreGoal, VelocityChange, RAMP_PERCENT_PER_SECOND};
use crate::registry::{Entities, Registry, SpawnError};
use crate::resources::{ActionState, LastPong, Score};
use crate::systems::{
    accelerate_with_time, announced_for, bounce_response, change_response, goal_response,
    lemma_announced_for_push, move_paddles, paddle_met, rebound, respawn_ball_on_lock, score_goal,
    scoring, set_up_bodies, spawn_ball, struck_spec, update_last_hit,
};
use crate::ui::{shown, update_score, Scoreboard};

verus! {

/// All that the rules know: who exists, the score, and the time since a
/// paddle last met the ball.
pub struct State {
    pub entities: Entities,
    pub score: Score,
    pub last_pong: LastPong,
}

impl State {
    /// The state before anything is set up.
    pub open spec fn initial() -> State {
        State {
            entities: Entities::empty(),
            score: Score { left: 0, right: 0, changed: false },
            last_pong: LastPong { last: 0 },
        }
    }

    /// The entities once both paddles are steered as asked.
    pub open spec fn steered(self, left: ActionState, right: ActionState) -> Entities {
        self.entities.with_paddle_velocity(Side::Left, left.velocity_spec()).with_paddle_velocity(
            Side::Right,
            right.velocity_spec(),
        )
    }

    /// The changes to the ball's velocity that a frame's contacts call for.
    pub open spec fn changes(self, contacts: Seq<Contact>) -> Seq<VelocityChange> {
        contacts.filter_map(change_response(self.entities))
    }

    /// The bounces among a frame's contacts.
    pub open spec fn bounces(self, contacts: Seq<Contact>) -> Seq<Bounce> {
        contacts.filter_map(bounce_response(self.entities))
    }

    /// The goals among a frame's contacts.
    pub open spec fn goals(self, contacts: Seq<Contact>) -> Seq<ScoreGoal> {
        contacts.filter_map(goal_response(self.entities))
    }

    /// The score once a frame's goals are counted, before it is shown.
    pub open spec fn counted(self, contacts: Seq<Contact>) -> Score {
        Score {
            left: (self.score.left + announced_for(self.goals(contacts), Side::Right)) as u32,
            right: (self.score.right + announced_for(self.goals(contacts), Side::Left)) as u32,
            changed: self.score.changed || self.goals(contacts).len() > 0,
        }
    }

    /// The time since a paddle last met the ball, once a frame's contacts
    /// are answered.
    pub open spec fn timed(self, contacts: Seq<Contact>) -> LastPong {
        if paddle_met(self.entities, contacts) {
            LastPong { last: 0 }
        } else {
            self.last_pong
        }
    }

    /// The counters fit once a frame's goals are counted.
    pub open spec fn can_count(self, contacts: Seq<Contact>) -> bool {
        &&& self.score.left + announced_for(self.goals(contacts), Side::Right) <= u32::MAX
        &&& self.score.right + announced_for(self.goals(contacts), Side::Left) <= u32::MAX
    }

    /// The state after a frame in which `left` and `right` are what the
    /// players hold and `contacts` are the contacts that the physics engine
    /// saw.
    pub open spec fn after_update(
        self,
        left: ActionState,
        right: ActionState,
        contacts: Seq<Contact>,
    ) -> State {
        let steered = self.steered(left, right);
        let locked = self.timed(contacts).locked();
        State {
            entities: if locked {
                steered.with_new_ball(Velocity::launch_spec())
            } else {
                steered
            },
            score: Score { changed: false, ..self.counted(contacts) },
            last_pong: if locked {
                LastPong { last: 0 }
            } else {
                self.timed(contacts)
            },
        }
    }

    /// The respawn that a frame ends with, if the ball is locked by then.
    pub open spec fn respawn(
        self,
        left: ActionState,
        right: ActionState,
        contacts: Seq<Contact>,
    ) -> Option<Respawn> {
        if self.timed(contacts).locked() {
            Some(self.steered(left, right).relaunch(Velocity::launch_spec()))
        } else {
            None
        }
    }

    /// The time fits once a fixed step of `delta` nanoseconds is added.
    pub open spec fn can_wait(self, delta: u64) -> bool {
        self.entities.ball is Some ==> self.last_pong.last + delta <= u64::MAX
    }

    /// The state after a fixed step of `delta` nanoseconds. Time goes by
    /// only while there is a ball.
    pub open spec fn after_fixed_update(self, delta: u64) -> State {
        State {
            last_pong: if self.entities.ball is Some {
                LastPong { last: (self.last_pong.last + delta) as u64 }
            } else {
                self.last_pong
            },
            ..self
        }
    }

    /// The growth of the ball's speed over a fixed step of `delta`
    /// nanoseconds.
    pub open spec fn ramp(self, delta: u64) -> Option<VelocityChange> {
        if self.entities.ball is Some {
            Some(
                VelocityChange::Ramp {
                    percent_per_second: RAMP_PERCENT_PER_SECOND,
                    elapsed: delta,
                },
            )
        } else {
            None
        }
    }
}

/// One call of the host, with what it tells the rules.
pub enum Step {
    /// A frame: what the two players hold, and the contacts that the physics
    /// engine saw.
    Update { left: ActionState, right: ActionState, contacts: Seq<Contact> },
    /// A fixed step of `delta` nanoseconds.
    FixedUpdate { delta: u64 },
}

impl State {
    /// The state after `step`.
    pub open spec fn after(self, step: Step) -> State {
        match step {
            Step::Update { left, right, contacts } => self.after_update(left, right, contacts),
            Step::FixedUpdate { delta } => self.after_fixed_update(delta),
        }
    }

    /// The state after `steps`, one after another.
    pub open spec fn after_all(self, steps: Seq<Step>) -> State
        decreases steps.len(),
    {
        if steps.len() == 0 {
            self
        } else {
            self.after_all(steps.drop_last()).after(steps.last())
        }
    }
}

/// What a frame brought about, for the host to carry out.
#[derive(Debug)]
pub struct Frame {
    /// The velocity to give the left paddle, once the court exists.
    pub left_paddle: Option<Velocity>,
    /// The velocity to give the right paddle, once the court exists.
    pub right_paddle: Option<Velocity>,
    /// The changes to make to the velocity of the ball, in this order.
    pub changes: Vec<VelocityChange>,
    /// The bounces, in the order in which they happened.
    pub bounces: Vec<Bounce>,
    /// The goals, in the order in which they fell. They are counted already.
    pub goals: Vec<ScoreGoal>,
    /// The counters to show, if they were written since they were last shown.
    pub board: Option<Scoreboard>,
    /// The ball to remove and the ball to create, if the ball was locked. The
    /// changes above were meant for the ball that is removed.
    pub respawn: Option<Respawn>,
}

/// The game.
pub struct Game {
    pub registry: Registry,
    pub score: Score,
    pub last_pong: LastPong,
}

impl View for Game {
    type V = State;

    open spec fn view(&self) -> State {
        State { entities: self.registry@, score: self.score, last_pong: self.last_pong }
    }
}

/// Steering the paddles changes nothing about who is who.
pub proof fn lemma_steering_keeps_roles(state: State, left: ActionState, right: ActionState)
    ensures
        change_response(state.steered(left, right)) == change_response(state.entities),
        bounce_response(state.steered(left, right)) == bounce_response(state.entities),
        goal_response(state.steered(left, right)) == goal_response(state.entities),
        forall|contacts: Seq<Contact>|
            paddle_met(state.steered(left, right), contacts) == #[trigger] paddle_met(
                state.entities,
                contacts,
            ),
{
    let steered = state.steered(left, right);
    assert forall|contact: Contact|
        struck_spec(steered, contact) == #[trigger] struck_spec(state.entities, contact) by {
        assert(steered.role_of(contact.entity1) == state.entities.role_of(contact.entity1));
        assert(steered.role_of(contact.entity2) == state.entities.role_of(contact.entity2));
    }
    assert forall|contact: Contact| #[trigger]
        change_response(steered)(contact) == change_response(state.entities)(contact) by {
        assert(struck_spec(steered, contact) == struck_spec(state.entities, contact));
    }
    assert(change_response(steered) =~= change_response(state.entities));
    assert forall|contact: Contact| #[trigger]
        bounce_response(steered)(contact) == bounce_response(state.entities)(contact) by {
        assert(struck_spec(steered, contact) == struck_spec(state.entities, contact));
    }
    assert(bounce_response(steered) =~= bounce_response(state.entities));
    assert forall|contact: Contact| #[trigger]
        goal_response(steered)(contact) == goal_response(state.entities)(contact) by {
        assert(struck_spec(steered, contact) == struck_spec(state.entities, contact));
    }
    assert(goal_response(steered) =~= goal_response(state.entities));
}

impl Game {
    /// A game in which nothing is set up yet.
    pub fn new() -> (game: Game)
        ensures
            game@ == State::initial(),
    {
        Game { registry: Registry::new(), score: Score::default(), last_pong: LastPong::default() }
    }

    /// Sets the game up: launches a ball and lays out the court, unless it is
    /// laid out already. The answer lists the bodies that were created, for
    /// the physics engine to create them too. Where a ball exists already
    /// nothing is spawned. Either way exactly one ball is in play afterwards.
    /// See [`spawn_ball`].
    pub fn startup(&mut self) -> (spawned: Result<Vec<Body>, SpawnError>)
        ensures
            final(self)@ == (State { entities: old(self)@.entities.set_up(), ..old(self)@ }),
            final(self)@.entities.ball is Some,
            old(self)@.entities.ball is None ==> final(self)@.entities.in_play(),
            old(self)@.entities.ball is Some ==> spawned == Err::<Vec<Body>, SpawnError>(
                SpawnError::BallExists,
            ),
            old(self)@.entities.ball is None ==> {
                &&& spawned matches Ok(bodies)
                &&& bodies@ == set_up_bodies(old(self)@.entities)
            },
    {
        spawn_ball(&mut self.registry)
    }

    /// Whether the counters fit once the goals among `contacts` are counted,
    /// which [`Game::update`] asks for.
    pub fn can_count(&self, contacts: &Vec<Contact>) -> (fits: bool)
        ensures
            fits == self@.can_count(contacts@),
    {
        let goals = score_goal(contacts, &self.registry);
        let mut for_left: usize = 0;
        let mut for_right: usize = 0;
        let mut i: usize = 0;
        while i < goals.len()
            invariant
                i <= goals.len(),
                for_left == announced_for(goals@.take(i as int), Side::Left),
                for_right == announced_for(goals@.take(i as int), Side::Right),
                for_left <= i,
                for_right <= i,
            decreases goals.len() - i,
        {
            proof {
                assert(goals@.take(i + 1) =~= goals@.take(i as int).push(goals@[i as int]));
                lemma_announced_for_push(goals@.take(i as int), goals@[i as int], Side::Left);
                lemma_announced_for_push(goals@.take(i as int), goals@[i as int], Side::Right);
            }
            match goals[i].goal_for {
                Side::Left => {
                    for_left = for_left + 1;
                },
                Side::Right => {
                    for_right = for_right + 1;
                },
            }
            i += 1;
        }
        proof {
            assert(goals@.take(goals.len() as int) =~= goals@);
        }
        for_right <= (u32::MAX - self.score.left) as usize && for_left <= (u32::MAX
            - self.score.right) as usize
    }

    /// Whether the time fits once a fixed step of `delta` nanoseconds is
    /// added, which [`Game::fixed_update`] asks for.
    pub fn can_wait(&self, delta: u64) -> (fits: bool)
        ensures
            fits == self@.can_wait(delta),
    {
        self.registry.ball().is_none() || delta <= u64::MAX - self.last_pong.last
    }

    /// One frame. The paddles are steered as their players ask; the contacts
    /// are answered, each in its turn, with pushes, reflections, bounces and
    /// goals; the goals are counted and the display is told; and at the end a
    /// locked ball is replaced.
    pub fn update(&mut self, left: ActionState, right: ActionState, contacts: &Vec<Contact>) -> (frame:
        Frame)
        requires
            old(self)@.can_count(contacts@),
        ensures
            final(self)@ == old(self)@.after_update(left, right, contacts@),
            frame.left_paddle == final(self)@.entities.paddle_velocity(Side::Left),
            frame.right_paddle == final(self)@.entities.paddle_velocity(Side::Right),
            frame.changes@ == old(self)@.changes(contacts@),
            frame.bounces@ == old(self)@.bounces(contacts@),
            frame.goals@ == old(self)@.goals(contacts@),
            frame.board == shown(old(self)@.counted(contacts@)),
            frame.respawn == old(self)@.respawn(left, right, contacts@),
    {
        proof {
            lemma_steering_keeps_roles(self@, left, right);
        }
        move_paddles(&mut self.registry, left, right);
        let rebounds = rebound(contacts, &self.registry, &mut self.last_pong);
        let goals = score_goal(contacts, &self.registry);
        scoring(&goals, &mut self.score);
        let board = update_score(&mut self.score);
        let respawn = respawn_ball_on_lock(&mut self.registry, &mut self.last_pong);
        let left_paddle = self.registry.paddle_velocity(Side::Left);
        let right_paddle = self.registry.paddle_velocity(Side::Right);
        Frame {
            left_paddle,
            right_paddle,
            changes: rebounds.changes,
            bounces: rebounds.bounces,
            goals,
            board,
            respawn,
        }
    }

    /// One fixed step of `delta` nanoseconds: the ball's speed grows, and the
    /// time since a paddle last met it goes on. Without a ball neither
    /// happens.
    pub fn fixed_update(&mut self, delta: u64) -> (ramp: Option<VelocityChange>)
        requires
            old(self)@.can_wait(delta),
        ensures
            final(self)@ == old(self)@.after_fixed_update(delta),
            ramp == old(self)@.ramp(delta),
    {
        let ramp = accelerate_with_time(&self.registry, delta);
        update_last_hit(&self.registry, &mut self.last_pong, delta);
        ramp
    }
}

} // verus!
