//! Rules of a two-paddle ball game, kept apart from the engine that draws it
//! and moves its bodies.
//!
//! The host owns physics, input devices and the screen. Once per frame it tells
//! the rules which keys are held and which bodies touched, and once per fixed
//! step how much time went by; the rules answer with what is to happen: paddle
//! velocities, changes to the ball's velocity, goals, and the removal and
//! launch of balls.

pub mod components;
pub mod events;
pub mod game;
pub mod laws;
pub mod registry;
pub mod resources;
pub mod systems;
pub mod ui;

pub use components::{
    Ball, Body, Collider, EntityId, LeftWall, Paddle, RightWall, RigidBody, Role, Side, Span,
    Velocity,
};
pub use events::{Axis, Bounce, Contact, Respawn, ScoreGoal, VelocityChange};
pub use resources::{ActionState, GameAction, Intent, LastPong, Score};
pub use registry::{Court, Entities, Registry, SpawnError};
pub use game::{Frame, Game, State, Step};
pub use systems::{
    accelerate_with_time, move_paddles, rebound, respawn_ball_on_lock, score_goal, scoring,
    spawn_ball, struck, update_last_hit, Rebounds,
};
pub use ui::{update_score, Scoreboard};
