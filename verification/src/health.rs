use vstd::prelude::*;
use crate::fixed::Fixed;

verus! {

/// An amount of hit points.
pub type Hp = Fixed;

/// Hit points, kept between zero and a maximum.
#[derive(Debug, Clone, Copy, PartialEq, Eq, Structural)]
pub struct Health {
    max_hp: Hp,
    hp: Hp,
}

impl Health {
    /// The current hit points.
    pub closed spec fn hp(&self) -> Hp {
        self.hp
    }

    /// The most hit points that healing can reach.
    pub closed spec fn max_hp(&self) -> Hp {
        self.max_hp
    }

    /// The health with the given current and maximal hit points.
    pub closed spec fn of(hp: Hp, max_hp: Hp) -> Health {
        Health { max_hp, hp }
    }

    /// A health is the pair of its current and maximal hit points.
    pub proof fn lemma_of(hp: Hp, max_hp: Hp)
        ensures
            Health::of(hp, max_hp).hp() == hp,
            Health::of(hp, max_hp).max_hp() == max_hp,
    {
    }

    /// The health after `delta` hit points are added: the sum, brought into `[0, max_hp]`.
    pub open spec fn spec_change(&self, delta: Hp) -> Health {
        Health::of(
            self.hp().spec_add(delta).spec_clamp(Fixed { raw: 0 }, self.max_hp()),
            self.max_hp(),
        )
    }

    /// The health after `damage` hit points are taken away.
    pub open spec fn spec_damage(&self, damage: Hp) -> Health {
        self.spec_change(damage.spec_neg())
    }

    /// No hit points are left.
    pub open spec fn spec_is_dead(&self) -> bool {
        self.hp().raw <= 0
    }

    /// Clamped mutation: with a maximum that is not negative, a change leaves the hit
    /// points between zero and the maximum, and the maximum as it was.
    pub proof fn law_change_in_range(self, delta: Hp)
        requires
            self.max_hp().raw >= 0,
        ensures
            0 <= self.spec_change(delta).hp().raw <= self.max_hp().raw,
            self.spec_change(delta).max_hp() == self.max_hp(),
            self.spec_change(delta).spec_is_dead() <==> self.spec_change(delta).hp().raw == 0,
    {
    }

    /// Full health with `max_hp` hit points.
    pub fn new(max_hp: Hp) -> (r: Self)
        ensures
            r == Health::of(max_hp, max_hp),
            r.hp() == max_hp,
            r.max_hp() == max_hp,
    {
        Self { hp: max_hp, max_hp }
    }

    pub fn get(&self) -> (r: Hp)
        ensures
            r == self.hp(),
    {
        self.hp
    }

    pub fn get_max(&self) -> (r: Hp)
        ensures
            r == self.max_hp(),
    {
        self.max_hp
    }

    /// The current hit points as a part of the maximum.
    pub fn get_ratio(&self) -> (r: Fixed)
        ensures
            r == self.hp().spec_div(self.max_hp()),
    {
        self.hp.div(self.max_hp)
    }

    pub fn is_alive(&self) -> (r: bool)
        ensures
            r == (self.hp().raw > 0),
            r == !self.spec_is_dead(),
    {
        self.hp.raw > 0
    }

    pub fn is_dead(&self) -> (r: bool)
        ensures
            r == self.spec_is_dead(),
    {
        !self.is_alive()
    }

    /// Adds `hp` hit points, up to the maximum.
    pub fn heal(&mut self, hp: Hp)
        ensures
            *final(self) == old(self).spec_change(hp),
            final(self).max_hp() == old(self).max_hp(),
            final(self).hp() == old(self).hp().spec_add(hp).spec_clamp(
                Fixed { raw: 0 },
                old(self).max_hp(),
            ),
    {
        self.change(hp)
    }

    /// Takes `damage` hit points away, down to zero.
    pub fn damage(&mut self, damage: Hp)
        ensures
            *final(self) == old(self).spec_damage(damage),
            final(self).max_hp() == old(self).max_hp(),
            final(self).hp() == old(self).hp().spec_add(damage.spec_neg()).spec_clamp(
                Fixed { raw: 0 },
                old(self).max_hp(),
            ),
    {
        self.change(damage.neg())
    }

    /// Adds `hp` hit points, which may be negative; the result stays in `[0, max_hp]`.
    pub fn change(&mut self, hp: Hp)
        ensures
            *final(self) == old(self).spec_change(hp),
            final(self).max_hp() == old(self).max_hp(),
            final(self).hp() == old(self).hp().spec_add(hp).spec_clamp(
                Fixed { raw: 0 },
                old(self).max_hp(),
            ),
    {
        let target = self.hp.add(hp);
        self.hp = target.clamp(Fixed::zero(), self.max_hp);
    }

    /// Adds `delta` to the maximum; the current hit points stay as they are.
    pub fn change_max(&mut self, delta: Hp)
        ensures
            *final(self) == Health::of(old(self).hp(), old(self).max_hp().spec_add(delta)),
            final(self).hp() == old(self).hp(),
            final(self).max_hp() == old(self).max_hp().spec_add(delta),
    {
        self.max_hp = self.max_hp.add(delta);
    }
}

} // verus!
