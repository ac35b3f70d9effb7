use vstd::prelude::*;
use crate::action::Action;
use crate::unit::UnitId;

verus! {

pub type PlayerAction = Action;

#[derive(Debug, Clone, Copy, PartialEq, Eq, Structural)]
pub struct Player {
    /// The unit that the player moves.
    pub unit: UnitId,
}

impl Player {
    pub fn new(unit: UnitId) -> (r: Self)
        ensures
            r.unit == unit,
    {
        Self { unit }
    }
}

} // verus!
