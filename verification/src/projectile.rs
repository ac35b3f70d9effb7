use vstd::prelude::*;
use crate::context::{Caster, EffectTarget};
use crate::effect::Effect;
use crate::target::FractionFilter;
use crate::vec2::FVec2;
use crate::world::Fraction;

verus! {

#[derive(Debug, Clone, PartialEq, Eq)]
pub struct Projectile {
    pub world_position: FVec2,
    pub velocity: FVec2,
    pub caster: Option<Caster>,
    pub fraction: Fraction,
    /// What the projectile flies toward.
    pub target: EffectTarget,
    /// Which units the projectile can hit.
    pub target_filter: FractionFilter,
    /// What happens to the unit that the projectile hits.
    pub on_contact: Effect,
}

/// What every projectile of a kind has in common.
#[derive(Debug, Clone, PartialEq, Eq)]
pub struct ProjectilePrefab {
    pub target_filter: FractionFilter,
    pub on_contact: Effect,
}

/// What one projectile has of its own.
#[derive(Debug, Clone, Copy, PartialEq, Eq, Structural)]
pub struct ProjectileInst {
    pub world_position: FVec2,
    pub velocity: FVec2,
    pub caster: Option<Caster>,
    pub fraction: Fraction,
    pub target: EffectTarget,
}

impl ProjectilePrefab {
    pub open spec fn spec_instantiate(self, inst: ProjectileInst) -> Projectile {
        Projectile {
            world_position: inst.world_position,
            velocity: inst.velocity,
            caster: inst.caster,
            fraction: inst.fraction,
            target: inst.target,
            target_filter: self.target_filter,
            on_contact: self.on_contact,
        }
    }

    pub fn instantiate(self, inst: ProjectileInst) -> (r: Projectile)
        ensures
            r == self.spec_instantiate(inst),
    {
        Projectile {
            world_position: inst.world_position,
            velocity: inst.velocity,
            caster: inst.caster,
            fraction: inst.fraction,
            target: inst.target,
            target_filter: self.target_filter,
            on_contact: self.on_contact,
        }
    }
}

impl Projectile {
    /// The projectile has no velocity.
    pub open spec fn stands_still(self) -> bool {
        self.velocity.x.raw == 0 && self.velocity.y.raw == 0
    }

    /// The same projectile at another place.
    pub open spec fn moved_to(self, world_position: FVec2) -> Projectile {
        Projectile { world_position, ..self }
    }
}

} // verus!
