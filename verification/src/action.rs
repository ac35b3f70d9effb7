use vstd::prelude::*;
use crate::context::EffectTarget;
use crate::item::ItemId;
use crate::vec2::IVec2;

verus! {

#[derive(Debug, Clone, Copy, PartialEq, Eq, Structural)]
pub enum Action {
    Move(ActionMove),
    UseItem(ActionUseItem),
}

#[derive(Debug, Clone, Copy, PartialEq, Eq, Structural)]
pub struct ActionUseItem {
    pub item: ItemId,
}

#[derive(Debug, Clone, Copy, PartialEq, Eq, Structural)]
pub enum ActionMove {
    Slide(MoveSlide),
    Teleport(MoveTeleport),
}

#[derive(Debug, Clone, Copy, PartialEq, Eq, Structural)]
pub struct MoveSlide {
    pub delta: IVec2,
}

#[derive(Debug, Clone, Copy, PartialEq, Eq, Structural)]
pub struct MoveTeleport {
    pub target: IVec2,
}

/// What an action is aimed at.
#[derive(Debug, Clone, Copy, PartialEq, Eq, Structural)]
pub struct ActionInput {
    pub target: EffectTarget,
}

impl MoveSlide {
    /// The slide covers at most one cell in each direction.
    pub open spec fn single_tile(&self) -> bool {
        -1 <= self.delta.x <= 1 && -1 <= self.delta.y <= 1
    }
}

impl Action {
    /// The action is one that units can carry out: the use of an item, or a slide by at
    /// most one cell in each direction.
    pub open spec fn supported(&self) -> bool {
        match self {
            Action::Move(ActionMove::Slide(slide)) => slide.single_tile(),
            Action::Move(ActionMove::Teleport(_)) => false,
            Action::UseItem(_) => true,
        }
    }

    /// Whether units can carry the action out.
    pub fn is_supported(&self) -> (r: bool)
        ensures
            r == self.supported(),
    {
        match self {
            Action::Move(ActionMove::Slide(slide)) => -1 <= slide.delta.x && slide.delta.x <= 1
                && -1 <= slide.delta.y && slide.delta.y <= 1,
            Action::Move(ActionMove::Teleport(_)) => false,
            Action::UseItem(_) => true,
        }
    }
}

} // verus!
