//! Brains propose the next action of actors that the player does not drive.
use vstd::prelude::*;
use crate::action::ActionType;
use crate::geometry::Direction;

verus! {

/// A brain that wanders: each plan is a step in a random direction, or
/// staying in place.
#[derive(Debug)]
pub struct ZombieBrain {
    pub action: ActionType,
}

/// The direction that a draw from `0..5` makes a wandering brain take.
pub open spec fn wander_direction(roll: u32) -> Direction {
    if roll == 0 {
        Direction::East
    } else if roll == 1 {
        Direction::West
    } else if roll == 2 {
        Direction::North
    } else if roll == 3 {
        Direction::South
    } else {
        Direction::Here
    }
}

impl ZombieBrain {
    pub fn new() -> (r: ZombieBrain)
        ensures
            r.action == ActionType::SkippingTime,
    {
        ZombieBrain { action: ActionType::SkippingTime }
    }

    /// The direction that a draw from `0..5` picks.
    pub fn direction_of(roll: u32) -> (r: Direction)
        ensures
            r == wander_direction(roll),
    {
        if roll == 0 {
            Direction::East
        } else if roll == 1 {
            Direction::West
        } else if roll == 2 {
            Direction::North
        } else if roll == 3 {
            Direction::South
        } else {
            Direction::Here
        }
    }

    /// Plans a step in the direction that the draw `roll` picks.
    pub fn plan_with(&mut self, roll: u32)
        requires
            roll < 5,
        ensures
            final(self).action == ActionType::Walking(wander_direction(roll)),
    {
        self.action = ActionType::Walking(Self::direction_of(roll));
    }

    /// Plans a step east, west, north, south or in place, each equally
    /// likely. Only the brain's own state changes.
    pub fn plan(&mut self)
        ensures
            exists|roll: u32| roll < 5 && final(self).action == ActionType::Walking(wander_direction(roll)),
    {
        let roll = crate::dice::roll_below(5);
        self.plan_with(roll);
    }

    /// The currently proposed action.
    pub fn action(&self) -> (r: Option<ActionType>)
        ensures
            r == Some(self.action),
    {
        Some(self.action)
    }
}

impl Default for ZombieBrain {
    fn default() -> (r: ZombieBrain)
        ensures
            r.action == ActionType::SkippingTime,
    {
        ZombieBrain::new()
    }
}

} // verus!
