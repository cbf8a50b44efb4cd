//! The registry of entities: at most one ball, and the court (two paddles and
//! four walls) once it has been laid out.
//!
//! [`Entities`] is the plain record of who exists, with the meaning of every
//! operation as a function on it. [`Registry`] keeps such a record behind
//! private fields, so that what it holds is always well formed.

use vstd::prelude::*;
use crate::components::{
    ball_body, ceiling_body, floor_body, left_wall_body, paddle_body, right_wall_body, Ball, Body,
    EntityId, Paddle, Role, Side, Velocity, BALL_RADIUS, CEILING_ID, FIRST_BALL_ID, FLOOR_ID,
    LEFT_PADDLE_ID, LEFT_WALL_ID, PADDLE_HEIGHT, PADDLE_WIDTH, RIGHT_PADDLE_ID, RIGHT_WALL_ID,
};
use crate::events::Respawn;
use crate::resources::ActionState;

verus! {

/// The two paddles. The four walls never change and have no record of their
/// own: they exist exactly when the paddles do.
#[derive(Clone, Copy, Debug)]
pub struct Court {
    pub left_paddle: Paddle,
    pub right_paddle: Paddle,
}

impl Court {
    /// Both paddles at rest.
    pub open spec fn at_rest() -> Court {
        Court {
            left_paddle: Paddle::at_rest(Side::Left),
            right_paddle: Paddle::at_rest(Side::Right),
        }
    }

    /// The paddle on `side`.
    pub open spec fn paddle(self, side: Side) -> Paddle {
        match side {
            Side::Left => self.left_paddle,
            Side::Right => self.right_paddle,
        }
    }

    /// Each paddle stands on its own side and is well formed.
    pub open spec fn wf(self) -> bool {
        &&& self.left_paddle.side == Side::Left
        &&& self.right_paddle.side == Side::Right
        &&& self.left_paddle.wf()
        &&& self.right_paddle.wf()
    }
}

/// Why nothing was spawned.
#[derive(Clone, Copy, Debug, PartialEq, Eq, Structural, Hash)]
pub enum SpawnError {
    /// There is a ball already; it has to be despawned first.
    BallExists,
    /// The court has been laid out already.
    CourtExists,
}

/// The identifier of the ball that comes after the ball `id`. Identifiers
/// count upward and start over at [`FIRST_BALL_ID`] after the last one.
pub open spec fn following_ball_id(id: u64) -> u64 {
    if id == u64::MAX {
        FIRST_BALL_ID
    } else {
        (id + 1) as u64
    }
}

/// What a court identifier names, whether or not the court exists.
pub open spec fn court_role(id: EntityId) -> Option<Role> {
    if id.0 == CEILING_ID {
        Some(Role::Ceiling)
    } else if id.0 == FLOOR_ID {
        Some(Role::Floor)
    } else if id.0 == LEFT_WALL_ID {
        Some(Role::LeftWall)
    } else if id.0 == RIGHT_WALL_ID {
        Some(Role::RightWall)
    } else if id.0 == LEFT_PADDLE_ID {
        Some(Role::Paddle(Side::Left))
    } else if id.0 == RIGHT_PADDLE_ID {
        Some(Role::Paddle(Side::Right))
    } else {
        None
    }
}

/// Who exists.
#[derive(Clone, Copy, Debug)]
pub struct Entities {
    /// The ball in play, if there is one.
    pub ball: Option<Ball>,
    /// The court, once it has been laid out.
    pub court: Option<Court>,
    /// The identifier that the next ball will get.
    pub next_ball_id: u64,
}

impl Entities {
    /// Nothing exists yet.
    pub open spec fn empty() -> Entities {
        Entities { ball: None, court: None, next_ball_id: FIRST_BALL_ID }
    }

    /// Ball identifiers are apart from the court's, the ball in play is the
    /// one that was spawned last, and the court is well formed.
    pub open spec fn wf(self) -> bool {
        &&& self.next_ball_id >= FIRST_BALL_ID
        &&& (self.ball matches Some(ball) ==> ball.id.0 >= FIRST_BALL_ID && following_ball_id(
            ball.id.0,
        ) == self.next_ball_id)
        &&& (self.court matches Some(court) ==> court.wf())
    }

    /// The court is laid out and exactly one ball is on it.
    pub open spec fn in_play(self) -> bool {
        self.ball is Some && self.court is Some
    }

    /// What `id` names among the entities that exist, if anything.
    pub open spec fn role_of(self, id: EntityId) -> Option<Role> {
        if self.ball matches Some(ball) && ball.id == id {
            Some(Role::Ball)
        } else if self.court is Some {
            court_role(id)
        } else {
            None
        }
    }

    /// The paddle on `side`, once the court exists.
    pub open spec fn paddle(self, side: Side) -> Option<Paddle> {
        match self.court {
            Some(court) => Some(court.paddle(side)),
            None => None,
        }
    }

    /// The velocity of the paddle on `side`, once the court exists.
    pub open spec fn paddle_velocity(self, side: Side) -> Option<Velocity> {
        match self.court {
            Some(court) => Some(court.paddle(side).velocity),
            None => None,
        }
    }

    /// The bodies of all entities that exist: the ball first, then the
    /// ceiling, the floor, the two goal walls and the two paddles.
    pub open spec fn bodies(self) -> Seq<Body> {
        let ball = match self.ball {
            Some(ball) => seq![ball_body(ball)],
            None => Seq::<Body>::empty(),
        };
        let court = match self.court {
            Some(court) => seq![
                ceiling_body(),
                floor_body(),
                left_wall_body(),
                right_wall_body(),
                paddle_body(court.left_paddle),
                paddle_body(court.right_paddle),
            ],
            None => Seq::<Body>::empty(),
        };
        ball + court
    }

    /// The entities after the court has been laid out with both paddles at
    /// rest.
    pub open spec fn with_court(self) -> Entities {
        Entities { court: Some(Court::at_rest()), ..self }
    }

    /// The ball that the next spawn creates.
    pub open spec fn next_ball(self, initial_velocity: Velocity) -> Ball {
        Ball { id: EntityId(self.next_ball_id), initial_velocity, radius: BALL_RADIUS }
    }

    /// The entities after a ball has been launched from the centre with
    /// `initial_velocity`, whatever ball there was before.
    pub open spec fn with_new_ball(self, initial_velocity: Velocity) -> Entities {
        Entities {
            ball: Some(self.next_ball(initial_velocity)),
            next_ball_id: following_ball_id(self.next_ball_id),
            ..self
        }
    }

    /// The entities once the game is set up: as they are where a ball
    /// exists, and else with a ball launched from the centre with
    /// [`Velocity::launch`] and with the court, which is laid out unless it
    /// is already.
    pub open spec fn set_up(self) -> Entities {
        if self.ball is Some {
            self
        } else if self.court is Some {
            self.with_new_ball(Velocity::launch_spec())
        } else {
            self.with_new_ball(Velocity::launch_spec()).with_court()
        }
    }

    /// What a relaunch reports: the ball that leaves, if there is one, and
    /// the ball that comes.
    pub open spec fn relaunch(self, initial_velocity: Velocity) -> Respawn {
        Respawn {
            despawned: match self.ball {
                Some(ball) => Some(ball.id),
                None => None,
            },
            spawned: self.next_ball(initial_velocity),
        }
    }

    /// The entities without a ball.
    pub open spec fn without_ball(self) -> Entities {
        Entities { ball: None, ..self }
    }

    /// The entities after the paddle on `side` has been given `velocity`.
    /// Without a court there is no paddle and nothing changes.
    pub open spec fn with_paddle_velocity(self, side: Side, velocity: Velocity) -> Entities {
        match self.court {
            Some(court) => Entities {
                court: Some(
                    match side {
                        Side::Left => Court {
                            left_paddle: Paddle { velocity, ..court.left_paddle },
                            ..court
                        },
                        Side::Right => Court {
                            right_paddle: Paddle { velocity, ..court.right_paddle },
                            ..court
                        },
                    },
                ),
                ..self
            },
            None => self,
        }
    }
}

/// The registry of entities.
pub struct Registry {
    state: Entities,
}

impl View for Registry {
    type V = Entities;

    closed spec fn view(&self) -> Entities {
        self.state
    }
}

impl Registry {
    /// What the registry holds is well formed, always.
    #[verifier::type_invariant]
    pub open spec fn inv(self) -> bool {
        self@.wf()
    }

    /// A registry in which nothing exists yet.
    pub fn new() -> (registry: Registry)
        ensures
            registry@ == Entities::empty(),
            registry@.wf(),
    {
        Registry { state: Entities { ball: None, court: None, next_ball_id: FIRST_BALL_ID } }
    }

    /// A copy of the record of who exists.
    pub fn entities(&self) -> (state: Entities)
        ensures
            state == self@,
            state.wf(),
    {
        proof {
            use_type_invariant(self);
        }
        self.state
    }

    /// The ball in play, if there is one.
    pub fn ball(&self) -> (ball: Option<Ball>)
        ensures
            ball == self@.ball,
    {
        self.state.ball
    }

    /// The paddle on `side`, once the court exists.
    pub fn paddle(&self, side: Side) -> (paddle: Option<Paddle>)
        ensures
            paddle == self@.paddle(side),
    {
        match self.state.court {
            Some(court) => Some(
                match side {
                    Side::Left => court.left_paddle,
                    Side::Right => court.right_paddle,
                },
            ),
            None => None,
        }
    }

    /// The velocity of the paddle on `side`, once the court exists.
    pub fn paddle_velocity(&self, side: Side) -> (velocity: Option<Velocity>)
        ensures
            velocity == self@.paddle_velocity(side),
    {
        match self.paddle(side) {
            Some(paddle) => Some(paddle.velocity),
            None => None,
        }
    }

    /// Whether the court has been laid out.
    pub fn has_court(&self) -> (laid_out: bool)
        ensures
            laid_out == self@.court is Some,
    {
        self.state.court.is_some()
    }

    /// Whether the court is laid out and a ball is on it.
    pub fn in_play(&self) -> (playing: bool)
        ensures
            playing == self@.in_play(),
    {
        self.state.ball.is_some() && self.state.court.is_some()
    }

    /// What `id` names among the entities that exist. An identifier that
    /// names nothing (a ball that has been despawned, say) gives `None`.
    pub fn role(&self, id: EntityId) -> (role: Option<Role>)
        ensures
            role == self@.role_of(id),
    {
        if let Some(ball) = self.state.ball {
            if ball.id.0 == id.0 {
                return Some(Role::Ball);
            }
        }
        if self.state.court.is_none() {
            None
        } else if id.0 == CEILING_ID {
            Some(Role::Ceiling)
        } else if id.0 == FLOOR_ID {
            Some(Role::Floor)
        } else if id.0 == LEFT_WALL_ID {
            Some(Role::LeftWall)
        } else if id.0 == RIGHT_WALL_ID {
            Some(Role::RightWall)
        } else if id.0 == LEFT_PADDLE_ID {
            Some(Role::Paddle(Side::Left))
        } else if id.0 == RIGHT_PADDLE_ID {
            Some(Role::Paddle(Side::Right))
        } else {
            None
        }
    }

    /// The bodies of all entities that exist, for the physics engine: the
    /// ball first, then the ceiling, the floor, the two goal walls and the two
    /// paddles.
    pub fn bodies(&self) -> (bodies: Vec<Body>)
        ensures
            bodies@ == self@.bodies(),
    {
        let mut bodies: Vec<Body> = Vec::new();
        if let Some(ball) = self.state.ball {
            bodies.push(Body::ball(&ball));
        }
        if let Some(court) = self.state.court {
            bodies.push(Body::ceiling());
            bodies.push(Body::floor());
            bodies.push(Body::left_wall());
            bodies.push(Body::right_wall());
            bodies.push(Body::paddle(&court.left_paddle));
            bodies.push(Body::paddle(&court.right_paddle));
        }
        bodies
    }

    /// Lays out the court: two paddles at rest and four walls. This is done
    /// once; a second call changes nothing and says so.
    pub fn spawn_court(&mut self) -> (done: Result<(), SpawnError>)
        ensures
            old(self)@.court is None ==> done == Ok::<(), SpawnError>(()) && final(self)@ == old(
                self,
            )@.with_court(),
            old(self)@.court is Some ==> done == Err::<(), SpawnError>(SpawnError::CourtExists)
                && final(self)@ == old(self)@,
    {
        proof {
            use_type_invariant(&*self);
        }
        if self.state.court.is_some() {
            return Err(SpawnError::CourtExists);
        }
        let court = Court {
            left_paddle: Paddle {
                side: Side::Left,
                width: PADDLE_WIDTH,
                height: PADDLE_HEIGHT,
                velocity: Velocity { x: 0, y: 0 },
            },
            right_paddle: Paddle {
                side: Side::Right,
                width: PADDLE_WIDTH,
                height: PADDLE_HEIGHT,
                velocity: Velocity { x: 0, y: 0 },
            },
        };
        self.state = Entities {
            ball: self.state.ball,
            court: Some(court),
            next_ball_id: self.state.next_ball_id,
        };
        Ok(())
    }

    /// Launches a ball from the centre with `initial_velocity`. While a ball
    /// exists no other can be spawned: the call changes nothing and says so.
    pub fn spawn_ball(&mut self, initial_velocity: Velocity) -> (spawned: Result<
        EntityId,
        SpawnError,
    >)
        ensures
            old(self)@.ball is None ==> spawned == Ok::<EntityId, SpawnError>(
                EntityId(old(self)@.next_ball_id),
            ) && final(self)@ == old(self)@.with_new_ball(initial_velocity),
            old(self)@.ball is Some ==> spawned == Err::<EntityId, SpawnError>(
                SpawnError::BallExists,
            ) && final(self)@ == old(self)@,
    {
        proof {
            use_type_invariant(&*self);
        }
        if self.state.ball.is_some() {
            return Err(SpawnError::BallExists);
        }
        let id = self.state.next_ball_id;
        let next = if id == u64::MAX {
            FIRST_BALL_ID
        } else {
            id + 1
        };
        self.state = Entities {
            ball: Some(Ball { id: EntityId(id), initial_velocity, radius: BALL_RADIUS }),
            court: self.state.court,
            next_ball_id: next,
        };
        Ok(EntityId(id))
    }

    /// Takes the ball `id` out of play. Where `id` is not the ball in play
    /// nothing changes and the answer is `false`.
    pub fn despawn_ball(&mut self, id: EntityId) -> (removed: bool)
        ensures
            removed == (old(self)@.role_of(id) == Some(Role::Ball)),
            removed ==> final(self)@ == old(self)@.without_ball(),
            !removed ==> final(self)@ == old(self)@,
    {
        proof {
            use_type_invariant(&*self);
        }
        match self.state.ball {
            Some(ball) => {
                if ball.id.0 == id.0 {
                    self.state = Entities {
                        ball: None,
                        court: self.state.court,
                        next_ball_id: self.state.next_ball_id,
                    };
                    true
                } else {
                    false
                }
            },
            None => false,
        }
    }

    /// Takes the ball out of play, if there is one, and launches a new one
    /// from the centre with `initial_velocity`, in one step: before and after
    /// there is never more than one ball, and afterwards there is one.
    pub fn relaunch(&mut self, initial_velocity: Velocity) -> (respawn: Respawn)
        ensures
            respawn == old(self)@.relaunch(initial_velocity),
            final(self)@ == old(self)@.with_new_ball(initial_velocity),
    {
        proof {
            use_type_invariant(&*self);
        }
        let despawned = match self.state.ball {
            Some(ball) => Some(ball.id),
            None => None,
        };
        let id = self.state.next_ball_id;
        let next = if id == u64::MAX {
            FIRST_BALL_ID
        } else {
            id + 1
        };
        let spawned = Ball { id: EntityId(id), initial_velocity, radius: BALL_RADIUS };
        self.state = Entities { ball: Some(spawned), court: self.state.court, next_ball_id: next };
        Respawn { despawned, spawned }
    }

    /// Steers the paddle on `side` as `actions` ask, whatever its velocity
    /// was before. Without a court there is no paddle and nothing changes.
    pub fn steer(&mut self, side: Side, actions: ActionState)
        ensures
            final(self)@ == old(self)@.with_paddle_velocity(side, actions.velocity_spec()),
    {
        proof {
            use_type_invariant(&*self);
        }
        let velocity = actions.velocity();
        if let Some(court) = self.state.court {
            let moved = match side {
                Side::Left => Court {
                    left_paddle: Paddle {
                        side: court.left_paddle.side,
                        width: court.left_paddle.width,
                        height: court.left_paddle.height,
                        velocity,
                    },
                    right_paddle: court.right_paddle,
                },
                Side::Right => Court {
                    left_paddle: court.left_paddle,
                    right_paddle: Paddle {
                        side: court.right_paddle.side,
                        width: court.right_paddle.width,
                        height: court.right_paddle.height,
                        velocity,
                    },
                },
            };
            self.state = Entities {
                ball: self.state.ball,
                court: Some(moved),
                next_ball_id: self.state.next_ball_id,
            };
        }
    }
}

} // verus!
