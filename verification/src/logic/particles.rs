use vstd::prelude::*;
use crate::logic::Logic;
use crate::world::{Particle, Time, World, WorldView};

verus! {

impl WorldView {
    /// The particle after `delta_time` seconds, or nothing where its time is up.
    pub open spec fn age_particle(particle: Particle, delta_time: Time) -> Option<Particle> {
        let lifetime = particle.lifetime.spec_damage(delta_time);
        if lifetime.spec_is_dead() {
            None
        } else {
            Some(
                Particle {
                    lifetime,
                    position: particle.position.spec_add(particle.velocity.spec_scale(delta_time)),
                    ..particle
                },
            )
        }
    }

    /// The particles from place `from` on after `delta_time` seconds, without those
    /// whose time is up.
    pub open spec fn aged_from(particles: Seq<Particle>, from: int, delta_time: Time) -> Seq<
        Particle,
    >
        decreases particles.len() - from,
    {
        if from < 0 || from >= particles.len() {
            Seq::empty()
        } else {
            let rest = WorldView::aged_from(particles, from + 1, delta_time);
            match WorldView::age_particle(particles[from], delta_time) {
                Some(particle) => seq![particle] + rest,
                None => rest,
            }
        }
    }

    /// The world after the particles have flown for `delta_time` seconds.
    pub open spec fn process_particles(self, delta_time: Time) -> WorldView {
        WorldView { particles: WorldView::aged_from(self.particles, 0, delta_time), ..self }
    }
}

impl Logic {
    /// Lets the particles fly, and removes those whose time is up.
    pub fn process_particles(&mut self, world: &mut World)
        ensures
            final(world).wf() == old(world).wf(),
            final(world).music_controller@ == old(world).music_controller@,
            *final(self) == *old(self),
            final(world)@ == old(world)@.process_particles(old(self).delta_time),
    {
        let delta_time = self.delta_time;
        let mut kept: Vec<Particle> = Vec::new();
        let mut i: usize = 0;
        while i < world.particles.len()
            invariant
                i <= world.particles@.len(),
                *world == *old(world),
                kept@ + WorldView::aged_from(world.particles@, i as int, delta_time)
                    == WorldView::aged_from(world.particles@, 0, delta_time),
            decreases world.particles@.len() - i,
        {
            let particle = world.particles[i];
            let mut lifetime = particle.lifetime;
            lifetime.damage(delta_time);
            let ghost rest = WorldView::aged_from(world.particles@, i as int + 1, delta_time);
            if !lifetime.is_dead() {
                let flown = Particle {
                    position: particle.position.add(particle.velocity.scale(delta_time)),
                    velocity: particle.velocity,
                    lifetime,
                    size: particle.size,
                    color: particle.color,
                };
                assert(kept@.push(flown) + rest =~= kept@ + (seq![flown] + rest));
                kept.push(flown);
            }
            i += 1;
        }
        assert(kept@ + Seq::<Particle>::empty() =~= kept@);
        world.particles = kept;
    }
}

} // verus!
