use vstd::prelude::*;
use crate::component::ComponentResult;
use crate::unit::UnitId;
use crate::vec2::{FVec2, IVec2};
use crate::world::{World, WorldView};

verus! {

/// Who applies an effect, and to what.
#[derive(Debug, Clone, Copy, PartialEq, Eq, Structural)]
pub struct EffectContext {
    pub caster: Option<Caster>,
    pub target: Option<EffectTarget>,
}

#[derive(Debug, Clone, Copy, PartialEq, Eq, Structural)]
pub struct Caster {
    pub unit: UnitId,
}

#[derive(Debug, Clone, Copy, PartialEq, Eq, Structural)]
pub enum EffectTarget {
    Unit(UnitId),
    Position(IVec2),
}

pub type ContextResult<T> = Result<T, ContextError>;

#[derive(Debug, Clone, Copy, PartialEq, Eq, Structural)]
pub enum ContextError {
    /// Caster expected but not found in effect context.
    NoCaster,
    /// Target expected but not found in effect context.
    NoTarget,
}

impl ContextError {
    /// The error in words.
    pub fn message(&self) -> (r: &'static str)
        ensures
            r@ == match self {
                ContextError::NoCaster => "Caster expected but not found in effect context"@,
                ContextError::NoTarget => "Target expected but not found in effect context"@,
            },
    {
        match self {
            ContextError::NoCaster => "Caster expected but not found in effect context",
            ContextError::NoTarget => "Target expected but not found in effect context",
        }
    }
}

impl EffectTarget {
    pub open spec fn spec_expect_unit(self) -> ContextResult<UnitId> {
        match self {
            EffectTarget::Unit(unit) => Ok(unit),
            EffectTarget::Position(_) => Err(ContextError::NoTarget),
        }
    }

    /// The unit that is aimed at: the unit itself, or the first unit, in the order of
    /// the ids, that stands on the position.
    pub open spec fn spec_find_unit(self, world: WorldView) -> ContextResult<UnitId> {
        match self {
            EffectTarget::Unit(unit) => Ok(unit),
            EffectTarget::Position(target_pos) => world.get_unit_at(target_pos),
        }
    }

    /// The cell that is aimed at.
    pub open spec fn spec_find_pos(self, world: WorldView) -> ComponentResult<IVec2> {
        match self {
            EffectTarget::Unit(unit) => world.grid_position(unit),
            EffectTarget::Position(pos) => Ok(pos),
        }
    }

    /// The point of the world that is aimed at.
    pub open spec fn spec_find_world_pos(self, world: WorldView) -> ComponentResult<FVec2> {
        match self {
            EffectTarget::Unit(unit) => world.world_position(unit),
            EffectTarget::Position(pos) => Ok(world.grid.spec_grid_to_world(pos)),
        }
    }

    /// The unit, if the target is one. Fails with `NoTarget` on a position.
    pub fn expect_unit(self) -> (r: ContextResult<UnitId>)
        ensures
            r == self.spec_expect_unit(),
    {
        match self {
            EffectTarget::Unit(unit) => Ok(unit),
            EffectTarget::Position(_) => Err(ContextError::NoTarget),
        }
    }

    /// The unit that is aimed at. Fails with `NoTarget` where the position holds none.
    pub fn find_unit(self, world: &World) -> (r: ContextResult<UnitId>)
        ensures
            r == self.spec_find_unit(world@),
    {
        match self {
            EffectTarget::Unit(unit) => Ok(unit),
            EffectTarget::Position(target_pos) => world.get_unit_at(target_pos),
        }
    }

    /// The cell that is aimed at. Fails with `NotFound` for a unit without a cell.
    pub fn find_pos(self, world: &World) -> (r: ComponentResult<IVec2>)
        requires
            world.units.wf(),
        ensures
            r == self.spec_find_pos(world@),
    {
        match self {
            EffectTarget::Unit(unit) => match world.units.grid_position.get(unit) {
                Ok(pos) => Ok(*pos),
                Err(error) => Err(error),
            },
            EffectTarget::Position(pos) => Ok(pos),
        }
    }

    /// The point of the world that is aimed at. Fails with `NotFound` for a unit
    /// without a place in the world.
    pub fn find_world_pos(self, world: &World) -> (r: ComponentResult<FVec2>)
        requires
            world.units.wf(),
        ensures
            r == self.spec_find_world_pos(world@),
    {
        match self {
            EffectTarget::Unit(unit) => match world.units.world_position.get(unit) {
                Ok(pos) => Ok(*pos),
                Err(error) => Err(error),
            },
            EffectTarget::Position(pos) => Ok(world.grid.grid_to_world(pos)),
        }
    }
}

impl EffectContext {
    pub open spec fn spec_expect_caster(&self) -> ContextResult<Caster> {
        match self.caster {
            Some(caster) => Ok(caster),
            None => Err(ContextError::NoCaster),
        }
    }

    pub open spec fn spec_expect_target(&self) -> ContextResult<EffectTarget> {
        match self.target {
            Some(target) => Ok(target),
            None => Err(ContextError::NoTarget),
        }
    }

    /// The caster. Fails with `NoCaster` where there is none.
    pub fn expect_caster(&self) -> (r: ContextResult<Caster>)
        ensures
            r == self.spec_expect_caster(),
    {
        match self.caster {
            Some(caster) => Ok(caster),
            None => Err(ContextError::NoCaster),
        }
    }

    /// The target. Fails with `NoTarget` where there is none.
    pub fn expect_target(&self) -> (r: ContextResult<EffectTarget>)
        ensures
            r == self.spec_expect_target(),
    {
        match self.target {
            Some(target) => Ok(target),
            None => Err(ContextError::NoTarget),
        }
    }
}

} // verus!
