//! What the score display is told.

use vstd::prelude::*;
use crate::components::Side;
use crate::resources::Score;

verus! {

/// The counters as they are to be shown.
#[derive(Clone, Copy, Debug, PartialEq, Eq, Structural, Hash)]
pub struct Scoreboard {
    pub left: u32,
    pub right: u32,
}

impl Scoreboard {
    /// The number to show for `side`.
    pub open spec fn of_spec(&self, side: Side) -> u32 {
        match side {
            Side::Left => self.left,
            Side::Right => self.right,
        }
    }

    /// The number to show for `side`.
    #[verifier::when_used_as_spec(of_spec)]
    pub fn of(&self, side: Side) -> (count: u32)
        ensures
            count == self.of_spec(side),
    {
        match side {
            Side::Left => self.left,
            Side::Right => self.right,
        }
    }
}

/// What the display is to show next, if anything.
pub open spec fn shown(score: Score) -> Option<Scoreboard> {
    if score.changed {
        Some(Scoreboard { left: score.left, right: score.right })
    } else {
        None
    }
}

/// Tells the display the counters, as they are, if one of them was written
/// since it was last told, and nothing otherwise. Having told it, the score
/// counts as shown.
pub fn update_score(score: &mut Score) -> (board: Option<Scoreboard>)
    ensures
        board == shown(*old(score)),
        *final(score) == (Score { changed: false, ..*old(score) }),
{
    if !score.changed {
        return None;
    }
    score.changed = false;
    Some(Scoreboard { left: score.left, right: score.right })
}

} // verus!
