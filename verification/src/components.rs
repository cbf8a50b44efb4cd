//! The things on the court: who they are, how big they are and where they
//! are put when they are spawned.
//!
//! Positions and sizes that depend on the viewport are not numbers here but
//! [`Span`]s, small integer combinations of the viewport's half width and half
//! height, so that the layout is exact for every viewport. Velocities that the
//! rules fix (a launched ball, a steered paddle) are whole numbers of units per
//! second.

use vstd::prelude::*;

verus! {

/// Radius of every ball, in units.
pub const BALL_RADIUS: u32 = 20;

/// Width of a paddle, in units.
pub const PADDLE_WIDTH: u32 = 20;

/// Height of a paddle, in units.
pub const PADDLE_HEIGHT: u32 = 210;

/// How far a paddle stands inward from its vertical edge of the viewport.
pub const PADDLE_MARGIN: i64 = 80;

/// Thickness of each of the four walls.
pub const WALL_THICKNESS: i64 = 50;

/// Speed of a steered paddle, in units per second.
pub const PADDLE_SPEED: i32 = 500;

/// Horizontal part of the velocity that every ball in play is launched with.
pub const LAUNCH_VELOCITY_X: i32 = 100;

/// Vertical part of the velocity that every ball in play is launched with.
pub const LAUNCH_VELOCITY_Y: i32 = 33;

/// Identifier of the wall along the top edge.
pub const CEILING_ID: u64 = 0;

/// Identifier of the wall along the bottom edge.
pub const FLOOR_ID: u64 = 1;

/// Identifier of the wall tagged [`LeftWall`].
pub const LEFT_WALL_ID: u64 = 2;

/// Identifier of the wall tagged [`RightWall`].
pub const RIGHT_WALL_ID: u64 = 3;

/// Identifier of the left paddle.
pub const LEFT_PADDLE_ID: u64 = 4;

/// Identifier of the right paddle.
pub const RIGHT_PADDLE_ID: u64 = 5;

/// Identifier of the first ball; every ball's identifier is at least this.
pub const FIRST_BALL_ID: u64 = 6;

/// One of the two players, and the half of the court that is theirs.
#[derive(Clone, Copy, Debug, PartialEq, Eq, Structural, Hash)]
pub enum Side {
    Left,
    Right,
}

impl Side {
    /// The other player.
    pub open spec fn opposite_spec(self) -> Side {
        match self {
            Side::Left => Side::Right,
            Side::Right => Side::Left,
        }
    }

    /// The other player.
    #[verifier::when_used_as_spec(opposite_spec)]
    pub fn opposite(self) -> (other: Side)
        ensures
            other == self.opposite_spec(),
    {
        match self {
            Side::Left => Side::Right,
            Side::Right => Side::Left,
        }
    }
}

/// Name of an entity. The six entities of the court have the fixed
/// identifiers above; balls are numbered from [`FIRST_BALL_ID`] on.
#[derive(Clone, Copy, Debug, PartialEq, Eq, Structural, Hash)]
pub struct EntityId(pub u64);

/// A velocity in whole units per second; `y` points up.
#[derive(Clone, Copy, Debug, PartialEq, Eq, Structural, Hash)]
pub struct Velocity {
    pub x: i32,
    pub y: i32,
}

impl Velocity {
    /// No movement.
    pub open spec fn zero() -> Velocity {
        Velocity { x: 0, y: 0 }
    }

    /// The velocity that a ball is launched with when play starts and after
    /// every lock.
    pub open spec fn launch_spec() -> Velocity {
        Velocity { x: LAUNCH_VELOCITY_X, y: LAUNCH_VELOCITY_Y }
    }

    /// The velocity that a ball is launched with when play starts and after
    /// every lock.
    #[verifier::when_used_as_spec(launch_spec)]
    pub fn launch() -> (v: Velocity)
        ensures
            v == Velocity::launch_spec(),
    {
        Velocity { x: LAUNCH_VELOCITY_X, y: LAUNCH_VELOCITY_Y }
    }
}

/// What an entity is.
#[derive(Clone, Copy, Debug, PartialEq, Eq, Structural, Hash)]
pub enum Role {
    Ball,
    Paddle(Side),
    Ceiling,
    Floor,
    LeftWall,
    RightWall,
}

/// The ball in play.
#[derive(Clone, Copy, Debug, PartialEq, Eq, Structural, Hash)]
pub struct Ball {
    pub id: EntityId,
    /// The velocity it was spawned with. What it has later is the physics
    /// engine's to know.
    pub initial_velocity: Velocity,
    pub radius: u32,
}

/// A paddle. Its place is fixed by its side; only its velocity changes.
#[derive(Clone, Copy, Debug, PartialEq, Eq, Structural, Hash)]
pub struct Paddle {
    pub side: Side,
    pub width: u32,
    pub height: u32,
    pub velocity: Velocity,
}

impl Paddle {
    /// The identifier of the paddle on `side`.
    pub open spec fn id_of(side: Side) -> EntityId {
        match side {
            Side::Left => EntityId(LEFT_PADDLE_ID),
            Side::Right => EntityId(RIGHT_PADDLE_ID),
        }
    }

    /// A paddle on `side` of the regular size and at rest.
    pub open spec fn at_rest(side: Side) -> Paddle {
        Paddle { side, width: PADDLE_WIDTH, height: PADDLE_HEIGHT, velocity: Velocity::zero() }
    }

    /// The paddle moves along the vertical axis only, at the regular speed or
    /// not at all.
    pub open spec fn wf(self) -> bool {
        &&& self.width == PADDLE_WIDTH
        &&& self.height == PADDLE_HEIGHT
        &&& self.velocity.x == 0
        &&& (self.velocity.y == 0 || self.velocity.y == PADDLE_SPEED || self.velocity.y
            == -PADDLE_SPEED)
    }

    /// This paddle's identifier.
    pub fn id(&self) -> (id: EntityId)
        ensures
            id == Paddle::id_of(self.side),
    {
        match self.side {
            Side::Left => EntityId(LEFT_PADDLE_ID),
            Side::Right => EntityId(RIGHT_PADDLE_ID),
        }
    }
}

/// Tag of the goal wall along the left edge of the viewport, behind the left
/// paddle. A hit on it is announced as a goal for [`Side::Right`]. The score
/// counts every goal for the side that the goal does not name, so this hit
/// adds one to the left counter.
#[derive(Clone, Copy, Debug, PartialEq, Eq, Structural, Hash)]
pub struct LeftWall;

impl LeftWall {
    /// The identifier of the wall with this tag.
    pub fn id() -> (id: EntityId)
        ensures
            id == EntityId(LEFT_WALL_ID),
    {
        EntityId(LEFT_WALL_ID)
    }

    /// The side named by the goal that a hit on this wall announces.
    pub fn goal_for() -> (side: Side)
        ensures
            side == Side::Right,
    {
        Side::Right
    }
}

/// Tag of the goal wall along the right edge of the viewport, behind the
/// right paddle. A hit on it is announced as a goal for [`Side::Left`]. The
/// score counts every goal for the side that the goal does not name, so this
/// hit adds one to the right counter.
#[derive(Clone, Copy, Debug, PartialEq, Eq, Structural, Hash)]
pub struct RightWall;

impl RightWall {
    /// The identifier of the wall with this tag.
    pub fn id() -> (id: EntityId)
        ensures
            id == EntityId(RIGHT_WALL_ID),
    {
        EntityId(RIGHT_WALL_ID)
    }

    /// The side named by the goal that a hit on this wall announces.
    pub fn goal_for() -> (side: Side)
        ensures
            side == Side::Left,
    {
        Side::Left
    }
}

/// How the physics engine is to treat a body.
#[derive(Clone, Copy, Debug, PartialEq, Eq, Structural, Hash)]
pub enum RigidBody {
    /// Moved by the engine; collides and is pushed around.
    Dynamic,
    /// Moved by the velocity that the rules assign, never by collisions.
    Kinematic,
    /// Never moves.
    Static,
}

/// A length or coordinate that depends on the viewport: `half_widths` times
/// half the viewport's width, plus `half_heights` times half its height, plus
/// `units`.
#[derive(Clone, Copy, Debug, PartialEq, Eq, Structural, Hash)]
pub struct Span {
    pub half_widths: i64,
    pub half_heights: i64,
    pub units: i64,
}

impl Span {
    /// The span's value for a viewport whose half width and half height are
    /// the given whole numbers.
    pub open spec fn value(self, half_width: int, half_height: int) -> int {
        self.half_widths * half_width + self.half_heights * half_height + self.units
    }

    /// A span that does not depend on the viewport.
    pub fn fixed(units: i64) -> (span: Span)
        ensures
            span == (Span { half_widths: 0, half_heights: 0, units }),
    {
        Span { half_widths: 0, half_heights: 0, units }
    }
}

/// The collision shape of a body.
#[derive(Clone, Copy, Debug, PartialEq, Eq, Structural, Hash)]
pub enum Collider {
    Circle { radius: u32 },
    Rectangle { width: Span, height: Span },
}

/// What the physics engine needs to know to create an entity: the centre of
/// the body, its shape, how it moves, and what it starts with.
#[derive(Clone, Copy, Debug, PartialEq, Eq, Structural, Hash)]
pub struct Body {
    pub id: EntityId,
    pub role: Role,
    pub rigid_body: RigidBody,
    pub collider: Collider,
    pub x: Span,
    pub y: Span,
    pub velocity: Velocity,
}

impl Body {
    /// The body of the wall along the top edge.
    pub fn ceiling() -> (body: Body)
        ensures
            body == ceiling_body(),
    {
        Body {
            id: EntityId(CEILING_ID),
            role: Role::Ceiling,
            rigid_body: RigidBody::Static,
            collider: Collider::Rectangle {
                width: Span { half_widths: 2, half_heights: 0, units: 0 },
                height: Span::fixed(WALL_THICKNESS),
            },
            x: Span::fixed(0),
            y: Span { half_widths: 0, half_heights: 1, units: 0 },
            velocity: Velocity { x: 0, y: 0 },
        }
    }

    /// The body of the wall along the bottom edge.
    pub fn floor() -> (body: Body)
        ensures
            body == floor_body(),
    {
        Body {
            id: EntityId(FLOOR_ID),
            role: Role::Floor,
            rigid_body: RigidBody::Static,
            collider: Collider::Rectangle {
                width: Span { half_widths: 2, half_heights: 0, units: 0 },
                height: Span::fixed(WALL_THICKNESS),
            },
            x: Span::fixed(0),
            y: Span { half_widths: 0, half_heights: -1, units: 0 },
            velocity: Velocity { x: 0, y: 0 },
        }
    }

    /// The body of the wall tagged [`LeftWall`].
    pub fn left_wall() -> (body: Body)
        ensures
            body == left_wall_body(),
    {
        Body {
            id: EntityId(LEFT_WALL_ID),
            role: Role::LeftWall,
            rigid_body: RigidBody::Static,
            collider: Collider::Rectangle {
                width: Span::fixed(WALL_THICKNESS),
                height: Span { half_widths: 0, half_heights: 2, units: 0 },
            },
            x: Span { half_widths: -1, half_heights: 0, units: 0 },
            y: Span::fixed(0),
            velocity: Velocity { x: 0, y: 0 },
        }
    }

    /// The body of the wall tagged [`RightWall`].
    pub fn right_wall() -> (body: Body)
        ensures
            body == right_wall_body(),
    {
        Body {
            id: EntityId(RIGHT_WALL_ID),
            role: Role::RightWall,
            rigid_body: RigidBody::Static,
            collider: Collider::Rectangle {
                width: Span::fixed(WALL_THICKNESS),
                height: Span { half_widths: 0, half_heights: 2, units: 0 },
            },
            x: Span { half_widths: 1, half_heights: 0, units: 0 },
            y: Span::fixed(0),
            velocity: Velocity { x: 0, y: 0 },
        }
    }

    /// The body of `paddle`.
    pub fn paddle(paddle: &Paddle) -> (body: Body)
        ensures
            body == paddle_body(*paddle),
    {
        Body {
            id: paddle.id(),
            role: Role::Paddle(paddle.side),
            rigid_body: RigidBody::Kinematic,
            collider: Collider::Rectangle {
                width: Span::fixed(paddle.width as i64),
                height: Span::fixed(paddle.height as i64),
            },
            x: match paddle.side {
                Side::Left => Span { half_widths: -1, half_heights: 0, units: PADDLE_MARGIN },
                Side::Right => Span { half_widths: 1, half_heights: 0, units: -PADDLE_MARGIN },
            },
            y: Span::fixed(0),
            velocity: paddle.velocity,
        }
    }

    /// The body of `ball`.
    pub fn ball(ball: &Ball) -> (body: Body)
        ensures
            body == ball_body(*ball),
    {
        Body {
            id: ball.id,
            role: Role::Ball,
            rigid_body: RigidBody::Dynamic,
            collider: Collider::Circle { radius: ball.radius },
            x: Span::fixed(0),
            y: Span::fixed(0),
            velocity: ball.initial_velocity,
        }
    }
}

/// The body of a wall: static, a rectangle of the given size around the given
/// centre.
pub open spec fn wall_body(id: u64, role: Role, x: Span, y: Span, width: Span, height: Span) -> Body {
    Body {
        id: EntityId(id),
        role,
        rigid_body: RigidBody::Static,
        collider: Collider::Rectangle { width, height },
        x,
        y,
        velocity: Velocity::zero(),
    }
}

/// The wall along the top edge: as wide as the viewport, centred on the
/// middle of that edge.
pub open spec fn ceiling_body() -> Body {
    wall_body(
        CEILING_ID,
        Role::Ceiling,
        Span { half_widths: 0, half_heights: 0, units: 0 },
        Span { half_widths: 0, half_heights: 1, units: 0 },
        Span { half_widths: 2, half_heights: 0, units: 0 },
        Span { half_widths: 0, half_heights: 0, units: WALL_THICKNESS },
    )
}

/// The wall along the bottom edge: as wide as the viewport, centred on the
/// middle of that edge.
pub open spec fn floor_body() -> Body {
    wall_body(
        FLOOR_ID,
        Role::Floor,
        Span { half_widths: 0, half_heights: 0, units: 0 },
        Span { half_widths: 0, half_heights: (-1) as i64, units: 0 },
        Span { half_widths: 2, half_heights: 0, units: 0 },
        Span { half_widths: 0, half_heights: 0, units: WALL_THICKNESS },
    )
}

/// The wall tagged [`LeftWall`]: as high as the viewport, centred on the
/// middle of its left edge.
pub open spec fn left_wall_body() -> Body {
    wall_body(
        LEFT_WALL_ID,
        Role::LeftWall,
        Span { half_widths: (-1) as i64, half_heights: 0, units: 0 },
        Span { half_widths: 0, half_heights: 0, units: 0 },
        Span { half_widths: 0, half_heights: 0, units: WALL_THICKNESS },
        Span { half_widths: 0, half_heights: 2, units: 0 },
    )
}

/// The wall tagged [`RightWall`]: as high as the viewport, centred on the
/// middle of its right edge.
pub open spec fn right_wall_body() -> Body {
    wall_body(
        RIGHT_WALL_ID,
        Role::RightWall,
        Span { half_widths: 1, half_heights: 0, units: 0 },
        Span { half_widths: 0, half_heights: 0, units: 0 },
        Span { half_widths: 0, half_heights: 0, units: WALL_THICKNESS },
        Span { half_widths: 0, half_heights: 2, units: 0 },
    )
}

/// The body of a paddle: kinematic, of the paddle's size, on the horizontal
/// midline and [`PADDLE_MARGIN`] inward from its side's vertical edge.
pub open spec fn paddle_body(paddle: Paddle) -> Body {
    Body {
        id: Paddle::id_of(paddle.side),
        role: Role::Paddle(paddle.side),
        rigid_body: RigidBody::Kinematic,
        collider: Collider::Rectangle {
            width: Span { half_widths: 0, half_heights: 0, units: paddle.width as i64 },
            height: Span { half_widths: 0, half_heights: 0, units: paddle.height as i64 },
        },
        x: match paddle.side {
            Side::Left => Span { half_widths: (-1) as i64, half_heights: 0, units: PADDLE_MARGIN },
            Side::Right => Span { half_widths: 1, half_heights: 0, units: (-PADDLE_MARGIN) as i64 },
        },
        y: Span { half_widths: 0, half_heights: 0, units: 0 },
        velocity: paddle.velocity,
    }
}

/// The body of a ball: dynamic, a circle around the centre of the viewport,
/// moving as it was launched.
pub open spec fn ball_body(ball: Ball) -> Body {
    Body {
        id: ball.id,
        role: Role::Ball,
        rigid_body: RigidBody::Dynamic,
        collider: Collider::Circle { radius: ball.radius },
        x: Span { half_widths: 0, half_heights: 0, units: 0 },
        y: Span { half_widths: 0, half_heights: 0, units: 0 },
        velocity: ball.initial_velocity,
    }
}

} // verus!
