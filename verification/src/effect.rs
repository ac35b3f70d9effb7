use vstd::prelude::*;
use crate::condition::Condition;
use crate::context::{EffectContext, EffectTarget};
use crate::entity::NAME_PROJECTILE;
use crate::health::Hp;
use crate::logic::Logic;
use crate::projectile::{ProjectileInst, ProjectilePrefab};
use crate::vec2::{FCoord, IVec2};
use crate::world::{Color, SystemError, SystemResult, World, WorldView};

verus! {

/// What the use of an item or the touch of a projectile does.
#[derive(Debug, PartialEq, Eq)]
pub enum Effect {
    Noop,
    If(Box<EffectIf>),
    Damage(Box<EffectDamage>),
    Projectile(Box<EffectProjectile>),
    Particles(Box<EffectParticles>),
}

#[derive(Debug, Clone, PartialEq, Eq)]
pub struct EffectIf {
    pub condition: Condition,
    pub then_effect: Effect,
    pub otherwise: Effect,
}

#[derive(Debug, Clone, Copy, PartialEq, Eq, Structural)]
pub struct EffectDamage {
    pub value: Hp,
}

#[derive(Debug, Clone, PartialEq, Eq)]
pub struct EffectProjectile {
    pub projectile: ProjectilePrefab,
    pub speed: FCoord,
}

#[derive(Debug, Clone, Copy, PartialEq, Eq, Structural)]
pub struct EffectParticles {
    pub pos: IVec2,
    pub color: Color,
}

impl EffectDamage {
    /// The world after the damage is done, and the outcome.
    ///
    /// The target is resolved to a unit: a unit that is aimed at and still exists takes
    /// the damage, one that exists no longer leaves the world as it is; a position
    /// stands for the unit on it, and where none is there, a burst of white particles
    /// appears on the position and nothing else changes. The position is the one that
    /// the context holds: for the use of an item, the one that the item's aim has made
    /// of the player's input.
    pub open spec fn spec_apply(self, world: WorldView, context: EffectContext) -> (
        WorldView,
        SystemResult<()>,
    ) {
        match context.spec_expect_target() {
            Err(error) => (world, Err(SystemError::Context(error))),
            Ok(target) => match target.spec_find_unit(world) {
                Ok(unit) => if world.units.alive(unit) {
                    world.unit_damage(unit, self.value)
                } else {
                    (world, Ok(()))
                },
                Err(_) => match target.spec_find_pos(world) {
                    Err(error) => (world, Err(SystemError::Component(error))),
                    Ok(pos) => (world.spawn_particles(pos, Color::spec_white()), Ok(())),
                },
            },
        }
    }

    /// Damages the unit that the context aims at. Fails with `NoTarget` where the
    /// context has no target, and with `NotFound` where the unit has no cell or no
    /// health.
    pub fn apply(self, world: &mut World, context: EffectContext) -> (r: SystemResult<()>)
        requires
            old(world).wf(),
        ensures
            final(world).wf(),
            final(world).music_controller@ == old(world).music_controller@,
            (final(world)@, r) == self.spec_apply(old(world)@, context),
    {
        let target = match context.expect_target() {
            Ok(target) => target,
            Err(error) => {
                return Err(SystemError::Context(error));
            },
        };
        match target.find_unit(world) {
            Ok(unit) => {
                if world.units.ids.contains(unit) {
                    Logic::unit_damage(world, unit, self.value)
                } else {
                    Ok(())
                }
            },
            Err(_) => {
                let pos = match target.find_pos(world) {
                    Ok(pos) => pos,
                    Err(error) => {
                        return Err(SystemError::Component(error));
                    },
                };
                world.spawn_particles(pos, Color::white())
            },
        }
    }
}

impl EffectProjectile {
    /// The world after the projectile is launched, and the outcome.
    ///
    /// The projectile starts at the caster's place in the world and flies toward the
    /// target's place at the given speed; it stands still where the two places are the
    /// same.
    pub open spec fn spec_apply(self, world: WorldView, context: EffectContext) -> (
        WorldView,
        SystemResult<()>,
    ) {
        match context.spec_expect_caster() {
            Err(error) => (world, Err(SystemError::Context(error))),
            Ok(caster) => match world.world_position(caster.unit) {
                Err(error) => (world, Err(SystemError::Component(error))),
                Ok(world_position) => match world.fraction(caster.unit) {
                    Err(error) => (world, Err(SystemError::Component(error))),
                    Ok(fraction) => match context.spec_expect_target() {
                        Err(error) => (world, Err(SystemError::Context(error))),
                        Ok(target) => match target.spec_find_world_pos(world) {
                            Err(error) => (world, Err(SystemError::Component(error))),
                            Ok(target_pos) => {
                                let velocity = target_pos.spec_sub(
                                    world_position,
                                ).spec_normalize_or_zero().spec_scale(self.speed);
                                let projectile = self.projectile.spec_instantiate(
                                    ProjectileInst {
                                        world_position,
                                        velocity,
                                        caster: context.caster,
                                        fraction,
                                        target,
                                    },
                                );
                                let (projectiles, outcome) = world.projectiles.insert(
                                    NAME_PROJECTILE,
                                    projectile,
                                );
                                (
                                    WorldView { projectiles, ..world },
                                    match outcome {
                                        Ok(_) => Ok(()),
                                        Err(error) => Err(SystemError::Component(error)),
                                    },
                                )
                            },
                        },
                    },
                },
            },
        }
    }

    /// Launches a projectile from the caster toward the target. Fails with `NoCaster`
    /// or `NoTarget` where the context lacks one, with `NotFound` where the caster has
    /// no place or fraction or the target no place, and with `AlreadyExists` where the
    /// ids of projectiles are used up.
    pub fn apply(self, world: &mut World, context: EffectContext) -> (r: SystemResult<()>)
        requires
            old(world).wf(),
        ensures
            final(world).wf(),
            final(world).music_controller@ == old(world).music_controller@,
            (final(world)@, r) == self.spec_apply(old(world)@, context),
    {
        let caster = match context.expect_caster() {
            Ok(caster) => caster,
            Err(error) => {
                return Err(SystemError::Context(error));
            },
        };
        let world_position = match world.units.world_position.get(caster.unit) {
            Ok(pos) => *pos,
            Err(error) => {
                return Err(SystemError::Component(error));
            },
        };
        let fraction = match world.units.fraction.get(caster.unit) {
            Ok(fraction) => *fraction,
            Err(error) => {
                return Err(SystemError::Component(error));
            },
        };
        let target = match context.expect_target() {
            Ok(target) => target,
            Err(error) => {
                return Err(SystemError::Context(error));
            },
        };
        let target_pos = match target.find_world_pos(world) {
            Ok(pos) => pos,
            Err(error) => {
                return Err(SystemError::Component(error));
            },
        };

        let delta = target_pos.sub(world_position);
        let dir = delta.normalize_or_zero();
        let velocity = dir.scale(self.speed);

        let inst = ProjectileInst {
            world_position,
            velocity,
            caster: context.caster,
            fraction,
            target,
        };
        let projectile = self.projectile.instantiate(inst);
        match world.projectiles.insert(projectile) {
            Ok(_) => Ok(()),
            Err(error) => Err(SystemError::Component(error)),
        }
    }
}

impl EffectParticles {
    pub open spec fn spec_apply(self, world: WorldView, context: EffectContext) -> (
        WorldView,
        SystemResult<()>,
    ) {
        (world.spawn_particles(self.pos, self.color), Ok(()))
    }

    /// Adds a burst of particles on the effect's cell. Never fails.
    pub fn apply(self, world: &mut World, context: EffectContext) -> (r: SystemResult<()>)
        requires
            old(world).wf(),
        ensures
            final(world).wf(),
            final(world).music_controller@ == old(world).music_controller@,
            (final(world)@, r) == self.spec_apply(old(world)@, context),
    {
        world.spawn_particles(self.pos, self.color)
    }
}

impl EffectIf {
    pub open spec fn spec_apply(self, world: WorldView, context: EffectContext) -> (
        WorldView,
        SystemResult<()>,
    ) {
        if self.condition.spec_evaluate(&context) {
            self.then_effect.spec_apply(world, context)
        } else {
            self.otherwise.spec_apply(world, context)
        }
    }

    /// Applies the one of the two effects that the condition selects.
    pub fn apply(self, world: &mut World, context: EffectContext) -> (r: SystemResult<()>)
        requires
            old(world).wf(),
        ensures
            final(world).wf(),
            final(world).music_controller@ == old(world).music_controller@,
            (final(world)@, r) == self.spec_apply(old(world)@, context),
    {
        let condition = match self.condition.evaluate(world, &context) {
            Ok(condition) => condition,
            Err(error) => {
                return Err(error);
            },
        };
        if condition {
            self.then_effect.apply(world, context)
        } else {
            self.otherwise.apply(world, context)
        }
    }
}

impl Clone for Effect {
    fn clone(&self) -> (r: Self)
        ensures
            r == *self,
    {
        self.duplicate()
    }
}

impl Effect {
    /// The world after the effect is applied, and the outcome.
    pub open spec fn spec_apply(self, world: WorldView, context: EffectContext) -> (
        WorldView,
        SystemResult<()>,
    )
        decreases self,
    {
        match self {
            Effect::Noop => (world, Ok(())),
            Effect::If(effect) => if effect.condition.spec_evaluate(&context) {
                effect.then_effect.spec_apply(world, context)
            } else {
                effect.otherwise.spec_apply(world, context)
            },
            Effect::Damage(effect) => effect.spec_apply(world, context),
            Effect::Projectile(effect) => effect.spec_apply(world, context),
            Effect::Particles(effect) => effect.spec_apply(world, context),
        }
    }

    /// An equal effect.
    pub fn duplicate(&self) -> (r: Effect)
        ensures
            r == *self,
        decreases self,
    {
        match self {
            Effect::Noop => Effect::Noop,
            Effect::If(effect) => Effect::If(
                Box::new(
                    EffectIf {
                        condition: effect.condition,
                        then_effect: effect.then_effect.duplicate(),
                        otherwise: effect.otherwise.duplicate(),
                    },
                ),
            ),
            Effect::Damage(effect) => Effect::Damage(Box::new(EffectDamage { value: effect.value })),
            Effect::Projectile(effect) => Effect::Projectile(
                Box::new(
                    EffectProjectile {
                        projectile: ProjectilePrefab {
                            target_filter: effect.projectile.target_filter,
                            on_contact: effect.projectile.on_contact.duplicate(),
                        },
                        speed: effect.speed,
                    },
                ),
            ),
            Effect::Particles(effect) => Effect::Particles(
                Box::new(EffectParticles { pos: effect.pos, color: effect.color }),
            ),
        }
    }

    /// Applies the effect to the world, for the caster and the target of the context.
    pub fn apply(self, world: &mut World, context: EffectContext) -> (r: SystemResult<()>)
        requires
            old(world).wf(),
        ensures
            final(world).wf(),
            final(world).music_controller@ == old(world).music_controller@,
            (final(world)@, r) == self.spec_apply(old(world)@, context),
        decreases self,
    {
        match self {
            Effect::Noop => Ok(()),
            Effect::If(effect) => {
                let effect: EffectIf = *effect;
                let condition = match effect.condition.evaluate(world, &context) {
                    Ok(condition) => condition,
                    Err(error) => {
                        return Err(error);
                    },
                };
                if condition {
                    effect.then_effect.apply(world, context)
                } else {
                    effect.otherwise.apply(world, context)
                }
            },
            Effect::Damage(effect) => {
                let effect: EffectDamage = *effect;
                effect.apply(world, context)
            },
            Effect::Projectile(effect) => {
                let effect: EffectProjectile = *effect;
                effect.apply(world, context)
            },
            Effect::Particles(effect) => {
                let effect: EffectParticles = *effect;
                effect.apply(world, context)
            },
        }
    }
}

/// Damage that finds no unit on the position it is aimed at raises no error, adds one
/// burst of white particles on that position and changes nothing else: no unit, and so
/// no unit's health, is touched.
pub proof fn law_damage_miss(
    effect: EffectDamage,
    world: WorldView,
    caster: Option<crate::context::Caster>,
    pos: IVec2,
)
    requires
        world.get_unit_at(pos) is Err,
    ensures
        effect.spec_apply(
            world,
            EffectContext { caster, target: Some(EffectTarget::Position(pos)) },
        ) == (world.spawn_particles(pos, Color::spec_white()), Ok::<(), SystemError>(())),
        world.spawn_particles(pos, Color::spec_white()).units == world.units,
        world.spawn_particles(pos, Color::spec_white()).projectiles == world.projectiles,
        world.spawn_particles(pos, Color::spec_white()).particles == world.particles
            + crate::world::spec_burst(world.grid.spec_grid_to_world(pos), Color::spec_white()),
{
}

/// A launch succeeds where the context names a caster with a place and a fraction and a
/// target with a place, and the ids of the projectiles are in order and not used up: the
/// projectile gets the id that comes next, and nothing else in the world changes.
pub proof fn law_projectile_launches(
    effect: EffectProjectile,
    world: WorldView,
    caster: crate::context::Caster,
    target: EffectTarget,
)
    requires
        world.projectiles.wf(),
        world.projectiles.next_id < u64::MAX,
        world.units.world_position.contains_key(caster.unit),
        world.units.fraction.contains_key(caster.unit),
        target.spec_find_world_pos(world) is Ok,
    ensures
        ({
            let (after, outcome) = effect.spec_apply(
                world,
                EffectContext { caster: Some(caster), target: Some(target) },
            );
            &&& outcome == Ok::<(), SystemError>(())
            &&& after.projectiles.wf()
            &&& after.projectiles.next_id == world.projectiles.next_id + 1
            &&& after.projectiles.items.dom() == world.projectiles.items.dom().insert(
                world.projectiles.upcoming(),
            )
            &&& after.projectiles.items[world.projectiles.upcoming()].world_position
                == world.units.world_position[caster.unit]
            &&& after.projectiles.items[world.projectiles.upcoming()].target == target
            &&& after.projectiles.items[world.projectiles.upcoming()].on_contact
                == effect.projectile.on_contact
            &&& after == (WorldView { projectiles: after.projectiles, ..world })
        }),
{
    let world_position = world.units.world_position[caster.unit];
    let fraction = world.units.fraction[caster.unit];
    let target_pos = target.spec_find_world_pos(world)->Ok_0;
    let velocity = target_pos.spec_sub(world_position).spec_normalize_or_zero().spec_scale(
        effect.speed,
    );
    let projectile = effect.projectile.spec_instantiate(
        ProjectileInst {
            world_position,
            velocity,
            caster: Some(caster),
            fraction,
            target,
        },
    );
    world.projectiles.lemma_insert(NAME_PROJECTILE, projectile);
    assert(world.projectiles.insert(NAME_PROJECTILE, projectile).0.items.dom()
        =~= world.projectiles.items.dom().insert(world.projectiles.upcoming()));
}

} // verus!
