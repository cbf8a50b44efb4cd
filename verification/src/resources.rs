//! State that belongs to the game as a whole rather than to one entity: the
//! score, the time since a paddle last met the ball, and what the players
//! ask of their paddles.

use vstd::prelude::*;
use crate::components::{Velocity, PADDLE_SPEED};

verus! {

/// The longest that the ball may go without meeting a paddle, in nanoseconds
/// (twenty seconds). Once more than this has gone by the ball is locked and
/// replaced.
pub const LOCK_MAXIMUM: u64 = 20_000_000_000;

/// The time since a paddle last met the ball.
#[derive(Clone, Copy, Debug, PartialEq, Eq, Structural, Hash)]
pub struct LastPong {
    /// Nanoseconds of fixed steps gone by since the last meeting.
    pub last: u64,
}

impl LastPong {
    /// More than [`LOCK_MAXIMUM`] has gone by.
    pub open spec fn locked(self) -> bool {
        self.last > LOCK_MAXIMUM
    }
}

impl Default for LastPong {
    /// No time has gone by.
    fn default() -> (timer: LastPong)
        ensures
            timer.last == 0,
    {
        LastPong { last: 0 }
    }
}

/// Goals counted for each player since the game began.
#[derive(Clone, Copy, Debug, PartialEq, Eq, Structural, Hash)]
pub struct Score {
    pub left: u32,
    pub right: u32,
    /// A counter was written since the score was last shown.
    pub changed: bool,
}

impl Default for Score {
    /// Nothing counted yet, and nothing new to show.
    fn default() -> (score: Score)
        ensures
            score == (Score { left: 0, right: 0, changed: false }),
    {
        Score { left: 0, right: 0, changed: false }
    }
}

/// What a player can ask of a paddle.
#[derive(Clone, Copy, Debug, PartialEq, Eq, Structural, Hash)]
pub enum GameAction {
    PaddleUp,
    PaddleDown,
}

/// Which of a paddle's actions are held down at this moment.
#[derive(Clone, Copy, Debug, PartialEq, Eq, Structural, Hash)]
pub struct ActionState {
    pub up: bool,
    pub down: bool,
}

impl ActionState {
    /// Whether `action` is held.
    pub open spec fn pressed_spec(&self, action: GameAction) -> bool {
        match action {
            GameAction::PaddleUp => self.up,
            GameAction::PaddleDown => self.down,
        }
    }

    /// Whether `action` is held.
    #[verifier::when_used_as_spec(pressed_spec)]
    pub fn pressed(&self, action: GameAction) -> (held: bool)
        ensures
            held == self.pressed_spec(action),
    {
        match action {
            GameAction::PaddleUp => self.up,
            GameAction::PaddleDown => self.down,
        }
    }

    /// What the player wants of the paddle: up when only up is held, down
    /// when only down is held, and nothing when both or neither are.
    pub open spec fn intent_spec(&self) -> Intent {
        if self.up && !self.down {
            Intent::Up
        } else if self.down && !self.up {
            Intent::Down
        } else {
            Intent::Neutral
        }
    }

    /// What the player wants of the paddle.
    #[verifier::when_used_as_spec(intent_spec)]
    pub fn intent(&self) -> (intent: Intent)
        ensures
            intent == self.intent_spec(),
    {
        let up = self.pressed(GameAction::PaddleUp);
        let down = self.pressed(GameAction::PaddleDown);
        if up && !down {
            Intent::Up
        } else if down && !up {
            Intent::Down
        } else {
            Intent::Neutral
        }
    }

    /// The velocity that these actions give a paddle: the regular speed
    /// upward when only up is held, the same speed downward when only down is
    /// held, and rest when both or neither are.
    pub open spec fn velocity_spec(&self) -> Velocity {
        self.intent_spec().velocity_spec()
    }

    /// The velocity that these actions give a paddle, whatever it had before.
    #[verifier::when_used_as_spec(velocity_spec)]
    pub fn velocity(&self) -> (v: Velocity)
        ensures
            v == self.velocity_spec(),
    {
        self.intent().velocity()
    }
}

/// The direction in which a player wants a paddle to move.
#[derive(Clone, Copy, Debug, PartialEq, Eq, Structural, Hash)]
pub enum Intent {
    Up,
    Down,
    Neutral,
}

impl Intent {
    /// The velocity of a paddle that follows this intent: [`PADDLE_SPEED`]
    /// along the vertical axis, upward or downward, or rest.
    pub open spec fn velocity_spec(&self) -> Velocity {
        match self {
            Intent::Up => Velocity { x: 0, y: PADDLE_SPEED },
            Intent::Down => Velocity { x: 0, y: (-PADDLE_SPEED) as i32 },
            Intent::Neutral => Velocity { x: 0, y: 0 },
        }
    }

    /// The velocity of a paddle that follows this intent.
    #[verifier::when_used_as_spec(velocity_spec)]
    pub fn velocity(&self) -> (v: Velocity)
        ensures
            v == self.velocity_spec(),
    {
        match self {
            Intent::Up => Velocity { x: 0, y: PADDLE_SPEED },
            Intent::Down => Velocity { x: 0, y: -PADDLE_SPEED },
            Intent::Neutral => Velocity { x: 0, y: 0 },
        }
    }
}

} // verus!
