//! What the host tells the rules, and what the rules tell the host.

use vstd::prelude::*;
use crate::components::{Ball, EntityId, Side};

verus! {

/// Speed that a paddle adds to the ball it meets, in units per second.
pub const PUSH_SPEED: u32 = 100;

/// Growth of the ball's speed, in percent per second of fixed steps.
pub const RAMP_PERCENT_PER_SECOND: u32 = 5;

/// Two bodies touched during a physics step. Which of the two comes first
/// means nothing.
#[derive(Clone, Copy, Debug, PartialEq, Eq, Structural, Hash)]
pub struct Contact {
    pub entity1: EntityId,
    pub entity2: EntityId,
}

/// The ball bounced. Observers find the place of the bounce as the position
/// of `ball` at this moment.
#[derive(Clone, Copy, Debug, PartialEq, Eq, Structural, Hash)]
pub struct Bounce {
    pub ball: EntityId,
    /// The paddle or wall that it bounced off.
    pub surface: EntityId,
}

/// The ball reached a goal wall.
#[derive(Clone, Copy, Debug, PartialEq, Eq, Structural, Hash)]
pub struct ScoreGoal {
    /// The side opposite to the one in the tag of the wall that was hit:
    /// right for the wall tagged left, left for the wall tagged right. The
    /// score counts the goal for the side that this does not name.
    pub goal_for: Side,
}

/// An axis of the court.
#[derive(Clone, Copy, Debug, PartialEq, Eq, Structural, Hash)]
pub enum Axis {
    Horizontal,
    Vertical,
}

/// A change that the host is to make to the velocity of the ball in play.
/// Changes are meant to be applied one after another, in the order given.
#[derive(Clone, Copy, Debug, PartialEq, Eq, Structural, Hash)]
pub enum VelocityChange {
    /// Add a velocity of `speed` that points from the centre of `from` to the
    /// centre of the ball. Where the two centres are the same there is no
    /// such direction, and the velocity stays as it is.
    Push { from: EntityId, speed: u32 },
    /// Reverse the sign of the velocity's part along `axis` and keep the
    /// other part.
    Reflect { axis: Axis },
    /// Multiply the velocity by one plus `percent_per_second` hundredths for
    /// each second in `elapsed`, which is in nanoseconds.
    Ramp { percent_per_second: u32, elapsed: u64 },
}

impl VelocityChange {
    /// The factor by which the change multiplies the speed of the ball, as a
    /// pair of numerator and denominator, where the change has such a factor
    /// whatever the velocity is. A ramp of `p` percent per second over `e`
    /// nanoseconds has the factor `1 + p / 100 * e / 10^9`; a reflection keeps
    /// the speed; what a push does to the speed depends on the velocity.
    pub open spec fn factor(self) -> Option<(int, int)> {
        match self {
            VelocityChange::Ramp { percent_per_second, elapsed } => Some(
                (100_000_000_000 + percent_per_second * elapsed, 100_000_000_000),
            ),
            VelocityChange::Reflect { axis } => Some((1, 1)),
            VelocityChange::Push { from, speed } => None,
        }
    }
}

/// The factor by which `changes`, applied one after another, multiply the
/// speed of the ball: the product of their factors, where each has one.
pub open spec fn compounded(changes: Seq<VelocityChange>) -> Option<(int, int)>
    decreases changes.len(),
{
    if changes.len() == 0 {
        Some((1, 1))
    } else {
        match (compounded(changes.drop_last()), changes.last().factor()) {
            (Some(before), Some(last)) => Some((before.0 * last.0, before.1 * last.1)),
            _ => None,
        }
    }
}

/// A locked ball was taken out of play and a new one launched.
#[derive(Clone, Copy, Debug, PartialEq, Eq, Structural, Hash)]
pub struct Respawn {
    /// The ball that was removed, if there was one.
    pub despawned: Option<EntityId>,
    /// The ball that took its place.
    pub spawned: Ball,
}

} // verus!
