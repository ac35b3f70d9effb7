use vstd::prelude::*;
use crate::action::ActionInput;
use crate::context::{Caster, EffectContext, EffectTarget};
use crate::effect::Effect;
use crate::fixed::Fixed;
use crate::unit::UnitId;
use crate::util::{king_distance, king_distance_fixed, spec_king_distance, spec_king_distance_fixed};
use crate::vec2::{Coord, IVec2};
use crate::world::{SystemError, SystemResult, World, WorldView};

verus! {

/// What the use of an item does, and where it can be aimed.
#[derive(Debug, Clone, PartialEq, Eq)]
pub struct ActionEffect {
    pub aim: ActionAim,
    pub effect: Effect,
}

#[derive(Debug, Clone, Copy, PartialEq, Eq, Structural)]
pub enum ActionAim {
    /// At most `distance` king moves from the caster.
    InRange { distance: Coord },
}

/// The offset `delta`, shortened along its own direction to at most `distance` king
/// moves and rounded to whole cells.
pub open spec fn spec_pull_in(delta: IVec2, distance: Coord) -> IVec2 {
    let wide = delta.spec_to_fixed();
    let len = spec_king_distance_fixed(wide);
    let reach = Fixed::spec_from_int(distance as int);
    let pulled = if len.raw > reach.raw {
        wide.spec_scale(reach.spec_div(len))
    } else {
        wide
    };
    IVec2 { x: pulled.x.spec_round_int() as i64, y: pulled.y.spec_round_int() as i64 }
}

fn pull_in(delta: IVec2, distance: Coord) -> (r: IVec2)
    ensures
        r == spec_pull_in(delta, distance),
{
    let mut wide = delta.to_fixed();
    let len = king_distance_fixed(wide);
    let reach = Fixed::from_int(distance);
    if len.raw > reach.raw {
        wide = wide.scale(reach.div(len));
    }
    IVec2::new(wide.x.round_int(), wide.y.round_int())
}

impl ActionAim {
    pub open spec fn spec_check(
        &self,
        world: WorldView,
        unit: UnitId,
        target: EffectTarget,
    ) -> SystemResult<bool> {
        match *self {
            ActionAim::InRange { distance } => match target.spec_find_pos(world) {
                Err(error) => Err(SystemError::Component(error)),
                Ok(target_pos) => match world.grid_position(unit) {
                    Err(error) => Err(SystemError::Component(error)),
                    Ok(caster_pos) => Ok(
                        spec_king_distance(target_pos.spec_sub(caster_pos)) <= distance,
                    ),
                },
            },
        }
    }

    /// The target that the aim makes of `target`: a unit stays the same unit; a
    /// position is pulled toward the caster until it is in range.
    pub open spec fn spec_adjust(
        &self,
        world: WorldView,
        unit: UnitId,
        target: EffectTarget,
    ) -> SystemResult<EffectTarget> {
        match *self {
            ActionAim::InRange { distance } => match target {
                EffectTarget::Unit(_) => Ok(target),
                EffectTarget::Position(target_pos) => match world.grid_position(unit) {
                    Err(error) => Err(SystemError::Component(error)),
                    Ok(caster_pos) => Ok(
                        EffectTarget::Position(
                            caster_pos.spec_add(
                                spec_pull_in(target_pos.spec_sub(caster_pos), distance),
                            ),
                        ),
                    ),
                },
            },
        }
    }

    /// The adjusted target, if it satisfies the constraints, and none if it does not.
    pub open spec fn spec_assist(
        &self,
        world: WorldView,
        unit: UnitId,
        target: EffectTarget,
    ) -> SystemResult<Option<EffectTarget>> {
        match self.spec_adjust(world, unit, target) {
            Err(error) => Err(error),
            Ok(adjusted) => match self.spec_check(world, unit, adjusted) {
                Err(error) => Err(error),
                Ok(true) => Ok(Some(adjusted)),
                Ok(false) => Ok(None),
            },
        }
    }

    /// Check whether `target` satisfies the constraints. Fails with `NotFound` where
    /// the caster or a unit that is aimed at has no cell.
    pub fn check(
        &self,
        world: &World,
        unit: UnitId,
        target: EffectTarget,
    ) -> (r: SystemResult<bool>)
        requires
            world.units.wf(),
        ensures
            r == self.spec_check(world@, unit, target),
    {
        match *self {
            ActionAim::InRange { distance } => {
                let target_pos = match target.find_pos(world) {
                    Ok(pos) => pos,
                    Err(error) => {
                        return Err(SystemError::Component(error));
                    },
                };
                let caster_pos = match world.units.grid_position.get(unit) {
                    Ok(pos) => *pos,
                    Err(error) => {
                        return Err(SystemError::Component(error));
                    },
                };
                let delta = target_pos.sub(caster_pos);
                Ok(king_distance(delta) <= distance)
            },
        }
    }

    /// Brings `target` into the valid area if possible, and checks it. Never locks
    /// onto another unit than the one given.
    pub fn assist(&self, world: &World, unit: UnitId, target: EffectTarget) -> (r: SystemResult<
        Option<EffectTarget>,
    >)
        requires
            world.units.wf(),
        ensures
            r == self.spec_assist(world@, unit, target),
    {
        // If possible, move to the valid area
        let target = match *self {
            ActionAim::InRange { distance } => match target {
                EffectTarget::Unit(_) => target,
                EffectTarget::Position(target_pos) => {
                    let caster_pos = match world.units.grid_position.get(unit) {
                        Ok(pos) => *pos,
                        Err(error) => {
                            return Err(SystemError::Component(error));
                        },
                    };
                    let delta = pull_in(target_pos.sub(caster_pos), distance);
                    EffectTarget::Position(caster_pos.add(delta))
                },
            },
        };

        // Validate
        match self.check(world, unit, target) {
            Err(error) => Err(error),
            Ok(true) => Ok(Some(target)),
            Ok(false) => Ok(None),
        }
    }
}

impl ActionEffect {
    pub open spec fn spec_into_effect(
        self,
        world: WorldView,
        unit: UnitId,
        input: ActionInput,
    ) -> SystemResult<(Effect, EffectContext)> {
        match self.aim.spec_assist(world, unit, input.target) {
            Err(error) => Err(error),
            Ok(target) => Ok((self.effect, EffectContext { caster: Some(Caster { unit }), target })),
        }
    }

    /// The effect of the use by `unit`, with the context to apply it in: the caster is
    /// `unit`, the target what the aim makes of the input.
    pub fn into_effect(self, world: &World, unit: UnitId, input: ActionInput) -> (r: SystemResult<
        (Effect, EffectContext),
    >)
        requires
            world.units.wf(),
        ensures
            r == self.spec_into_effect(world@, unit, input),
    {
        let target = match self.aim.assist(world, unit, input.target) {
            Ok(target) => target,
            Err(error) => {
                return Err(error);
            },
        };
        let context = EffectContext { caster: Some(Caster { unit }), target };
        Ok((self.effect, context))
    }
}

} // verus!
