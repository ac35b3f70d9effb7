use vstd::prelude::*;
use crate::collection::CollectionView;
use crate::component::{ascending, ids_of, lemma_ids_of, lemma_lists_unique, listed_from, lists};
use crate::context::{EffectContext, EffectTarget};
use crate::id::Id;
use crate::logic::{Logic, QueuedEffect};
use crate::projectile::Projectile;
use crate::unit::UnitId;
use crate::util::{dist_to_segment, spec_dist_to_segment};
use crate::vec2::Segment;
use crate::world::{Color, SystemError, SystemResult, Time, World, WorldView};

verus! {

/// A projectile has reached what it flies toward when that is nearer than this to the
/// stretch that the projectile has just covered: 0.1.
pub const REACH_DISTANCE: i64 = 100_000;

/// A projectile hits a unit that is nearer than this: 0.5.
pub const HIT_DISTANCE: i64 = 500_000;

impl WorldView {
    pub open spec fn with_projectile(self, id: Id, projectile: Projectile) -> WorldView {
        WorldView { projectiles: self.projectiles.set(id, projectile), ..self }
    }

    pub open spec fn without_projectile(self, id: Id) -> WorldView {
        WorldView { projectiles: self.projectiles.remove(id), ..self }
    }

    /// Whether the projectile reaches, in the `delta_time` seconds to come, what it
    /// flies toward. One that stands still reaches nothing, and nothing reaches a unit
    /// that has no place in the world.
    pub open spec fn projectile_lands(self, projectile: Projectile, delta_time: Time) -> bool {
        let from = projectile.world_position;
        let to = from.spec_add(projectile.velocity.spec_scale(delta_time));
        !projectile.stands_still() && match projectile.target.spec_find_world_pos(self) {
            Ok(target) => spec_dist_to_segment(target, Segment(from, to)).raw < REACH_DISTANCE,
            Err(_) => false,
        }
    }

    /// The projectiles from place `from` on moved by their velocities, and the ids of
    /// those that have reached what they fly toward added to `dead`.
    pub open spec fn move_from(self, ids: Seq<Id>, from: int, delta_time: Time, dead: Seq<Id>) -> (
        WorldView,
        Seq<Id>,
    )
        decreases ids.len() - from,
    {
        if from < 0 || from >= ids.len() {
            (self, dead)
        } else {
            let id = ids[from];
            match self.projectile(id) {
                Err(_) => self.move_from(ids, from + 1, delta_time, dead),
                Ok(projectile) => self.with_projectile(
                    id,
                    projectile.moved_to(
                        projectile.world_position.spec_add(
                            projectile.velocity.spec_scale(delta_time),
                        ),
                    ),
                ).move_from(
                    ids,
                    from + 1,
                    delta_time,
                    if self.projectile_lands(projectile, delta_time) {
                        dead.push(id)
                    } else {
                        dead
                    },
                ),
            }
        }
    }

    /// The first `upto` of the dead projectiles removed, the last one first, each
    /// leaving a burst of grey particles where it was.
    pub open spec fn land_from(self, dead: Seq<Id>, upto: int) -> WorldView
        decreases upto,
    {
        if upto <= 0 || upto > dead.len() {
            self
        } else {
            let id = dead[upto - 1];
            match self.projectile(id) {
                Err(_) => self.land_from(dead, upto - 1),
                Ok(projectile) => self.without_projectile(id).spawn_particles_world(
                    projectile.world_position,
                    Color::spec_grey(),
                ).land_from(dead, upto - 1),
            }
        }
    }

    /// The world after the projectiles have moved for `delta_time` seconds: those that
    /// have reached what they fly toward are removed and leave grey particles.
    pub open spec fn process_projectiles_move(self, delta_time: Time) -> WorldView {
        let (moved, dead) = self.move_from(
            ids_of(self.projectiles.items.dom()),
            0,
            delta_time,
            Seq::empty(),
        );
        moved.land_from(dead, dead.len() as int)
    }

    /// Whether the projectile hits the unit: the unit has a fraction that passes the
    /// projectile's filter, and its place is nearer than half a cell.
    pub open spec fn projectile_hits(self, projectile: Projectile, unit: UnitId) -> bool {
        match self.fraction(unit) {
            Err(_) => false,
            Ok(fraction) => projectile.target_filter.spec_check(projectile.fraction, fraction)
                && match self.world_position(unit) {
                Err(_) => false,
                Ok(pos) => pos.spec_sub(projectile.world_position).spec_len().raw < HIT_DISTANCE,
            },
        }
    }

    /// The first of the units from place `from` on that the projectile hits.
    pub open spec fn hit_from(self, projectile: Projectile, units: Seq<Id>, from: int) -> Option<
        UnitId,
    >
        decreases units.len() - from,
    {
        if from < 0 || from >= units.len() {
            None
        } else if self.projectile_hits(projectile, units[from]) {
            Some(units[from])
        } else {
            self.hit_from(projectile, units, from + 1)
        }
    }

    /// The unit that the projectile hits: the first one, in the order of the ids, of
    /// those that have a place in the world.
    pub open spec fn hit_unit(self, projectile: Projectile) -> Option<UnitId> {
        self.hit_from(projectile, ids_of(self.units.world_position.dom()), 0)
    }

    /// The effect that waits for the unit that the projectile has hit.
    pub open spec fn contact_effect(projectile: Projectile, unit: UnitId) -> QueuedEffect {
        QueuedEffect {
            effect: projectile.on_contact,
            context: EffectContext {
                caster: projectile.caster,
                target: Some(EffectTarget::Unit(unit)),
            },
        }
    }

    /// The projectiles from place `from` on that hit a unit removed, and their effects
    /// added to `queue`.
    pub open spec fn collide_from(self, ids: Seq<Id>, from: int, queue: Seq<QueuedEffect>) -> (
        WorldView,
        Seq<QueuedEffect>,
    )
        decreases ids.len() - from,
    {
        if from < 0 || from >= ids.len() {
            (self, queue)
        } else {
            let id = ids[from];
            match self.projectile(id) {
                Err(_) => self.collide_from(ids, from + 1, queue),
                Ok(projectile) => match self.hit_unit(projectile) {
                    None => self.collide_from(ids, from + 1, queue),
                    Some(unit) => self.without_projectile(id).collide_from(
                        ids,
                        from + 1,
                        queue.push(WorldView::contact_effect(projectile, unit)),
                    ),
                },
            }
        }
    }

    /// The world after the projectiles that hit a unit are removed, and the queue with
    /// their effects added, in the order of the projectiles' ids.
    pub open spec fn process_projectiles_collide(self, queue: Seq<QueuedEffect>) -> (
        WorldView,
        Seq<QueuedEffect>,
    ) {
        self.collide_from(ids_of(self.projectiles.items.dom()), 0, queue)
    }
}

impl Logic {
    /// Moves the projectiles, and removes those that have reached what they fly toward.
    /// Never fails.
    pub fn process_projectiles_move(&mut self, world: &mut World) -> (r: SystemResult<()>)
        requires
            old(world).wf(),
        ensures
            r == Ok::<(), SystemError>(()),
            final(world).wf(),
            final(world).music_controller@ == old(world).music_controller@,
            *final(self) == *old(self),
            final(world)@ == old(world)@.process_projectiles_move(old(self).delta_time),
    {
        let delta_time = self.delta_time;
        let ids = world.projectiles.ids();
        let mut dead: Vec<Id> = Vec::new();
        let mut i: usize = 0;
        while i < ids.len()
            invariant
                i <= ids@.len(),
                world.wf(),
                world.music_controller@ == old(world).music_controller@,
                world@.move_from(ids@, i as int, delta_time, dead@) == old(world)@.move_from(
                    ids@,
                    0,
                    delta_time,
                    Seq::empty(),
                ),
            decreases ids@.len() - i,
        {
            let id = ids[i];
            let moved = match world.projectiles.get(id) {
                Ok(projectile) => {
                    let from = projectile.world_position;
                    let to = from.add(projectile.velocity.scale(delta_time));
                    let still = projectile.velocity.x.raw == 0 && projectile.velocity.y.raw == 0;
                    let lands = !still && match projectile.target.find_world_pos(world) {
                        Ok(target) => dist_to_segment(target, Segment(from, to)).raw
                            < REACH_DISTANCE,
                        Err(_) => false,
                    };
                    Some(
                        (
                            Projectile {
                                world_position: to,
                                velocity: projectile.velocity,
                                caster: projectile.caster,
                                fraction: projectile.fraction,
                                target: projectile.target,
                                target_filter: projectile.target_filter,
                                on_contact: projectile.on_contact.duplicate(),
                            },
                            lands,
                        ),
                    )
                },
                Err(_) => None,
            };
            match moved {
                Some((projectile, lands)) => {
                    let _ = world.projectiles.update(id, projectile);
                    if lands {
                        // Reached target
                        dead.push(id);
                    }
                },
                None => {},
            }
            i += 1;
        }
        let ghost moved = world@;
        let mut k: usize = dead.len();
        while k > 0
            invariant
                k <= dead@.len(),
                world.wf(),
                world.music_controller@ == old(world).music_controller@,
                world@.land_from(dead@, k as int) == moved.land_from(dead@, dead@.len() as int),
            decreases k,
        {
            let id = dead[k - 1];
            let ghost before = world@;
            match world.projectiles.remove(id) {
                Ok(projectile) => {
                    let _ = world.spawn_particles_world(projectile.world_position, Color::grey());
                },
                Err(_) => {
                    assert(world@.projectiles.items =~= before.projectiles.items);
                },
            }
            k -= 1;
        }
        Ok(())
    }

    /// The unit that the projectile hits, if it hits one.
    pub fn hit_unit(world: &World, projectile: &Projectile) -> (r: Option<UnitId>)
        requires
            world.units.wf(),
        ensures
            r == world@.hit_unit(*projectile),
    {
        let units = world.units.world_position.ids();
        let mut i: usize = 0;
        while i < units.len()
            invariant
                i <= units@.len(),
                world.units.wf(),
                units@ == ids_of(world@.units.world_position.dom()),
                world@.hit_from(*projectile, units@, i as int) == world@.hit_from(
                    *projectile,
                    units@,
                    0,
                ),
            decreases units@.len() - i,
        {
            let unit = units[i];
            let hits = match world.units.fraction.get(unit) {
                Err(_) => false,
                Ok(fraction) => projectile.target_filter.check(projectile.fraction, *fraction)
                    && match world.units.world_position.get(unit) {
                    Err(_) => false,
                    Ok(pos) => pos.sub(projectile.world_position).len().raw < HIT_DISTANCE,
                },
            };
            if hits {
                return Some(unit);
            }
            i += 1;
        }
        None
    }

    /// Removes the projectiles that hit a unit, and queues their effects. Never fails.
    pub fn process_projectiles_collide(&mut self, world: &mut World) -> (r: SystemResult<()>)
        requires
            old(world).wf(),
        ensures
            r == Ok::<(), SystemError>(()),
            final(world).wf(),
            final(world).music_controller@ == old(world).music_controller@,
            final(self).delta_time == old(self).delta_time,
            (final(world)@, final(self).queued_effects@)
                == old(world)@.process_projectiles_collide(old(self).queued_effects@),
    {
        let ids = world.projectiles.ids();
        let mut i: usize = 0;
        while i < ids.len()
            invariant
                i <= ids@.len(),
                world.wf(),
                world.music_controller@ == old(world).music_controller@,
                self.delta_time == old(self).delta_time,
                world@.collide_from(ids@, i as int, self.queued_effects@)
                    == old(world)@.collide_from(ids@, 0, old(self).queued_effects@),
            decreases ids@.len() - i,
        {
            let id = ids[i];
            let hit = match world.projectiles.get(id) {
                Ok(projectile) => match Logic::hit_unit(world, projectile) {
                    Some(unit) => Some(
                        QueuedEffect {
                            effect: projectile.on_contact.duplicate(),
                            context: EffectContext {
                                caster: projectile.caster,
                                target: Some(EffectTarget::Unit(unit)),
                            },
                        },
                    ),
                    None => None,
                },
                Err(_) => None,
            };
            match hit {
                Some(queued) => {
                    self.queued_effects.push_back(queued);
                    let _ = world.projectiles.remove(id);
                },
                None => {},
            }
            i += 1;
        }
        Ok(())
    }
}

/// What `move_from` makes of the projectiles: it changes nothing but the projectiles,
/// of which none comes or goes; one that stands still stays as it is; and the ids that
/// it adds to the dead are of projectiles that do not stand still.
pub proof fn lemma_move_from(
    w: WorldView,
    ids: Seq<Id>,
    from: int,
    delta_time: Time,
    dead: Seq<Id>,
)
    requires
        0 <= from <= ids.len(),
        ascending(ids),
    ensures
        ({
            let (r, found) = w.move_from(ids, from, delta_time, dead);
            &&& r == (WorldView {
                projectiles: CollectionView { items: r.projectiles.items, ..w.projectiles },
                ..w
            })
            &&& r.projectiles.items.dom() == w.projectiles.items.dom()
            &&& forall|id: Id| #[trigger]
                w.projectiles.items.contains_key(id) && w.projectiles.items[id].stands_still()
                    ==> r.projectiles.items[id] == w.projectiles.items[id]
            &&& found.len() >= dead.len()
            &&& found.subrange(0, dead.len() as int) == dead
            &&& forall|k: int|
                dead.len() <= k < found.len() ==> listed_from(ids, from, #[trigger] found[k])
                    && w.projectiles.items.contains_key(found[k])
                    && !w.projectiles.items[found[k]].stands_still()
        }),
    decreases ids.len() - from,
{
    let (r, found) = w.move_from(ids, from, delta_time, dead);
    if from < ids.len() {
        let first = ids[from];
        assert forall|id: Id| listed_from(ids, from + 1, id) implies listed_from(ids, from, id)
            && id != first by {
            let k = choose|k: int| from + 1 <= k < ids.len() && ids[k] == id;
            assert(from <= k < ids.len() && ids[k] == id);
            assert(ids[from].0 < ids[k].0);
        }
        assert(listed_from(ids, from, first)) by {
            assert(from <= from < ids.len() && ids[from] == first);
        }
        match w.projectile(first) {
            Err(_) => {
                lemma_move_from(w, ids, from + 1, delta_time, dead);
            },
            Ok(projectile) => {
                let moved = projectile.moved_to(
                    projectile.world_position.spec_add(
                        projectile.velocity.spec_scale(delta_time),
                    ),
                );
                let w1 = w.with_projectile(first, moved);
                let dead1 = if w.projectile_lands(projectile, delta_time) {
                    dead.push(first)
                } else {
                    dead
                };
                lemma_move_from(w1, ids, from + 1, delta_time, dead1);
                assert(w1.projectiles.items.dom() =~= w.projectiles.items.dom());
                if projectile.stands_still() {
                    assert(moved.world_position == projectile.world_position);
                    assert(moved == projectile);
                }
                assert(found.subrange(0, dead.len() as int) =~= dead) by {
                    assert forall|k: int| 0 <= k < dead.len() implies found[k] == dead[k] by {
                        assert(found.subrange(0, dead1.len() as int)[k] == dead1[k]);
                    }
                }
                if w.projectile_lands(projectile, delta_time) {
                    assert(found[dead.len() as int] == first) by {
                        assert(found.subrange(0, dead1.len() as int)[dead.len() as int]
                            == dead1[dead.len() as int]);
                    }
                }
            },
        }
    } else {
        assert(found.subrange(0, dead.len() as int) =~= dead);
    }
}

/// `id` stands at one of the first `upto` places of `ids`.
pub open spec fn listed_below(ids: Seq<Id>, upto: int, id: Id) -> bool {
    exists|k: int| 0 <= k < upto && k < ids.len() && ids[k] == id
}

/// What `land_from` leaves alone: everything but the projectiles and the particles, and
/// every projectile that is not among the first `upto` of the dead.
pub proof fn lemma_land_from(w: WorldView, dead: Seq<Id>, upto: int)
    requires
        0 <= upto <= dead.len(),
    ensures
        ({
            let r = w.land_from(dead, upto);
            &&& r == (WorldView {
                projectiles: CollectionView { items: r.projectiles.items, ..w.projectiles },
                particles: r.particles,
                ..w
            })
            &&& upto == 0 ==> r == w
            &&& forall|id: Id| #[trigger]
                w.projectiles.items.contains_key(id) && !listed_below(dead, upto, id)
                    ==> r.projectiles.items.contains_key(id) && r.projectiles.items[id]
                    == w.projectiles.items[id]
        }),
    decreases upto,
{
    if upto > 0 {
        let last = dead[upto - 1];
        let w1 = match w.projectile(last) {
            Err(_) => w,
            Ok(projectile) => w.without_projectile(last).spawn_particles_world(
                projectile.world_position,
                Color::spec_grey(),
            ),
        };
        lemma_land_from(w1, dead, upto - 1);
        let r = w.land_from(dead, upto);
        assert forall|id: Id| #[trigger]
            w.projectiles.items.contains_key(id) && !listed_below(
                dead,
                upto,
                id,
            ) implies r.projectiles.items.contains_key(id) && r.projectiles.items[id]
            == w.projectiles.items[id] by {
            assert(id != last) by {
                if id == last {
                    assert(0 <= upto - 1 < upto && upto - 1 < dead.len() && dead[upto - 1] == id);
                }
            }
            assert(w1.projectiles.items.contains_key(id));
            if listed_below(dead, upto - 1, id) {
                let k = choose|k: int| 0 <= k < upto - 1 && k < dead.len() && dead[k] == id;
                assert(0 <= k < upto && k < dead.len() && dead[k] == id);
            }
        }
    }
}

/// A projectile that stands still never reaches what it flies toward: the move of the
/// projectiles does not count it among those that have landed, leaves it in the world
/// where it was, and spawns no particles for it. Where every projectile stands still,
/// the move changes nothing at all.
pub proof fn law_still_projectile_stays(w: WorldView, delta_time: Time, id: Id)
    requires
        w.projectiles.items.contains_key(id),
        w.projectiles.items[id].stands_still(),
    ensures
        !w.projectile_lands(w.projectiles.items[id], delta_time),
        !w.move_from(
            ids_of(w.projectiles.items.dom()),
            0,
            delta_time,
            Seq::empty(),
        ).1.contains(id),
        w.process_projectiles_move(delta_time).projectiles.items.contains_key(id),
        w.process_projectiles_move(delta_time).projectiles.items[id] == w.projectiles.items[id],
        w.process_projectiles_move(delta_time).units == w.units,
        (forall|other: Id| #[trigger]
            w.projectiles.items.contains_key(other) ==> w.projectiles.items[other].stands_still())
            ==> w.process_projectiles_move(delta_time) == w,
{
    let ids = ids_of(w.projectiles.items.dom());
    lemma_ids_of(w.projectiles.items.dom());
    lemma_move_from(w, ids, 0, delta_time, Seq::empty());
    let (moved, dead) = w.move_from(ids, 0, delta_time, Seq::empty());
    lemma_land_from(moved, dead, dead.len() as int);
    assert(!dead.contains(id)) by {
        if dead.contains(id) {
            let k = choose|k: int| 0 <= k < dead.len() && dead[k] == id;
            assert(!w.projectiles.items[dead[k]].stands_still());
        }
    }
    assert(!listed_below(dead, dead.len() as int, id)) by {
        if listed_below(dead, dead.len() as int, id) {
            let k = choose|k: int| 0 <= k < dead.len() && k < dead.len() && dead[k] == id;
            assert(dead.contains(id));
        }
    }
    assert(moved.projectiles.items.contains_key(id));
    if forall|other: Id| #[trigger]
        w.projectiles.items.contains_key(other) ==> w.projectiles.items[other].stands_still() {
        if dead.len() > 0 {
            assert(!w.projectiles.items[dead[0]].stands_still());
        }
        assert(moved.projectiles.items =~= w.projectiles.items);
    }
}

/// What `hit_from` finds: a unit that the projectile hits, or nothing where it hits none.
pub proof fn lemma_hit_from(w: WorldView, projectile: Projectile, units: Seq<Id>, from: int)
    requires
        0 <= from <= units.len(),
    ensures
        match w.hit_from(projectile, units, from) {
            Some(unit) => listed_from(units, from, unit) && w.projectile_hits(projectile, unit),
            None => forall|unit: Id|
                listed_from(units, from, unit) ==> !#[trigger] w.projectile_hits(projectile, unit),
        },
    decreases units.len() - from,
{
    if from < units.len() {
        lemma_hit_from(w, projectile, units, from + 1);
        let first = units[from];
        assert(from <= from < units.len() && units[from] == first);
        assert forall|unit: Id| listed_from(units, from, unit) implies unit == first
            || listed_from(units, from + 1, unit) by {
            let k = choose|k: int| from <= k < units.len() && units[k] == unit;
            if k != from {
                assert(from + 1 <= k < units.len() && units[k] == unit);
            }
        }
        match w.hit_from(projectile, units, from + 1) {
            Some(unit) => {
                let k = choose|k: int| from + 1 <= k < units.len() && units[k] == unit;
                assert(from <= k < units.len() && units[k] == unit);
            },
            None => {},
        }
    } else {
        assert forall|unit: Id| !listed_from(units, from, unit) by {}
    }
}

/// Which unit a projectile hits is a matter of the units alone.
pub proof fn lemma_hit_same_units(
    w: WorldView,
    v: WorldView,
    projectile: Projectile,
    units: Seq<Id>,
    from: int,
)
    requires
        w.units == v.units,
    ensures
        w.hit_from(projectile, units, from) == v.hit_from(projectile, units, from),
    decreases units.len() - from,
{
    if 0 <= from < units.len() {
        lemma_hit_same_units(w, v, projectile, units, from + 1);
    }
}

/// What `collide_from` makes of a projectile that hits a unit: it is removed, and its
/// effect is queued for the unit that it hits. Nothing but the projectiles changes, and
/// what was queued before stays at the front of the queue.
pub proof fn lemma_collide_from(
    w: WorldView,
    ids: Seq<Id>,
    from: int,
    queue: Seq<QueuedEffect>,
    id: Id,
)
    requires
        0 <= from <= ids.len(),
        ascending(ids),
    ensures
        ({
            let (r, q) = w.collide_from(ids, from, queue);
            &&& r == (WorldView {
                projectiles: CollectionView { items: r.projectiles.items, ..w.projectiles },
                ..w
            })
            &&& q.len() >= queue.len()
            &&& q.subrange(0, queue.len() as int) == queue
            &&& r.projectiles.items.contains_key(id) ==> w.projectiles.items.contains_key(id)
                && r.projectiles.items[id] == w.projectiles.items[id]
            &&& w.projectiles.items.contains_key(id) && !listed_from(ids, from, id)
                ==> r.projectiles.items.contains_key(id)
            &&& w.projectiles.items.contains_key(id) && listed_from(ids, from, id) ==> (
            match w.hit_unit(w.projectiles.items[id]) {
                Some(unit) => !r.projectiles.items.contains_key(id) && exists|k: int|
                    queue.len() <= k < q.len() && #[trigger] q[k] == WorldView::contact_effect(
                        w.projectiles.items[id],
                        unit,
                    ),
                None => r.projectiles.items.contains_key(id),
            })
        }),
    decreases ids.len() - from,
{
    let (r, q) = w.collide_from(ids, from, queue);
    if from < ids.len() {
        let first = ids[from];
        assert(from <= from < ids.len() && ids[from] == first);
        assert forall|other: Id| listed_from(ids, from + 1, other) implies listed_from(
            ids,
            from,
            other,
        ) && other != first by {
            let k = choose|k: int| from + 1 <= k < ids.len() && ids[k] == other;
            assert(from <= k < ids.len() && ids[k] == other);
            assert(ids[from].0 < ids[k].0);
        }
        assert forall|other: Id| listed_from(ids, from, other) implies other == first
            || listed_from(ids, from + 1, other) by {
            let k = choose|k: int| from <= k < ids.len() && ids[k] == other;
            if k != from {
                assert(from + 1 <= k < ids.len() && ids[k] == other);
            }
        }
        let hit = match w.projectile(first) {
            Err(_) => None,
            Ok(projectile) => w.hit_unit(projectile),
        };
        match hit {
            None => {
                lemma_collide_from(w, ids, from + 1, queue, id);
            },
            Some(unit) => {
                let projectile = w.projectiles.items[first];
                let w1 = w.without_projectile(first);
                let entry = WorldView::contact_effect(projectile, unit);
                let queue1 = queue.push(entry);
                lemma_collide_from(w1, ids, from + 1, queue1, id);
                if w.projectiles.items.contains_key(id) {
                    lemma_hit_same_units(
                        w,
                        w1,
                        w.projectiles.items[id],
                        ids_of(w.units.world_position.dom()),
                        0,
                    );
                }
                assert(q.subrange(0, queue.len() as int) =~= queue) by {
                    assert forall|k: int| 0 <= k < queue.len() implies q[k] == queue[k] by {
                        assert(q.subrange(0, queue1.len() as int)[k] == queue1[k]);
                    }
                }
                assert(q[queue.len() as int] == entry) by {
                    assert(q.subrange(0, queue1.len() as int)[queue.len() as int]
                        == queue1[queue.len() as int]);
                }
                if id == first {
                    assert(queue.len() <= queue.len() < q.len() && q[queue.len() as int]
                        == WorldView::contact_effect(w.projectiles.items[id], unit));
                } else if w.projectiles.items.contains_key(id) && listed_from(ids, from, id) {
                    match w.hit_unit(w.projectiles.items[id]) {
                        Some(other) => {
                            let k = choose|k: int|
                                queue1.len() <= k < q.len() && #[trigger] q[k]
                                    == WorldView::contact_effect(w1.projectiles.items[id], other);
                            assert(queue.len() <= k < q.len() && q[k]
                                == WorldView::contact_effect(w.projectiles.items[id], other));
                        },
                        None => {},
                    }
                }
            },
        }
    } else {
        assert(q.subrange(0, queue.len() as int) =~= queue);
        assert(!listed_from(ids, from, id));
    }
}

/// A projectile that is nearer than half a cell to a unit that passes its filter hits a
/// unit: the collisions remove it from the world, so that it hits nothing again, and
/// queue its effect, with its caster, for a unit that it hits. What was queued before
/// stays at the front, and the units stay as they are. Where it is the only projectile,
/// its effect is all that is added to the queue.
pub proof fn law_projectile_hit(w: WorldView, queue: Seq<QueuedEffect>, id: Id, unit: UnitId)
    requires
        w.projectiles.items.contains_key(id),
        w.projectile_hits(w.projectiles.items[id], unit),
    ensures
        ({
            let projectile = w.projectiles.items[id];
            let (r, q) = w.process_projectiles_collide(queue);
            &&& w.hit_unit(projectile) is Some
            &&& w.projectile_hits(projectile, w.hit_unit(projectile)->0)
            &&& !r.projectiles.items.contains_key(id)
            &&& r.units == w.units
            &&& q.subrange(0, queue.len() as int) == queue
            &&& exists|k: int|
                queue.len() <= k < q.len() && #[trigger] q[k] == WorldView::contact_effect(
                    projectile,
                    w.hit_unit(projectile)->0,
                )
            &&& w.projectiles.items.dom() == set![id] ==> q == queue.push(
                WorldView::contact_effect(projectile, w.hit_unit(projectile)->0),
            )
        }),
{
    let projectile = w.projectiles.items[id];
    let units = ids_of(w.units.world_position.dom());
    lemma_ids_of(w.units.world_position.dom());
    lemma_hit_from(w, projectile, units, 0);
    assert(listed_from(units, 0, unit)) by {
        assert(w.units.world_position.contains_key(unit));
        assert(units.contains(unit));
        let k = choose|k: int| 0 <= k < units.len() && units[k] == unit;
        assert(0 <= k < units.len() && units[k] == unit);
    }
    let ids = ids_of(w.projectiles.items.dom());
    lemma_ids_of(w.projectiles.items.dom());
    lemma_collide_from(w, ids, 0, queue, id);
    assert(listed_from(ids, 0, id)) by {
        assert(ids.contains(id));
        let k = choose|k: int| 0 <= k < ids.len() && ids[k] == id;
        assert(0 <= k < ids.len() && ids[k] == id);
    }
    if w.projectiles.items.dom() == set![id] {
        let one = seq![id];
        assert(lists(one, w.projectiles.items.dom())) by {
            assert forall|other: Id| one.contains(other) <==> w.projectiles.items.dom().contains(
                other,
            ) by {
                if one.contains(other) {
                    let k = choose|k: int| 0 <= k < one.len() && one[k] == other;
                }
                if other == id {
                    assert(one[0] == other);
                }
            }
        }
        lemma_lists_unique(one, ids, w.projectiles.items.dom());
        let hit = w.hit_unit(projectile)->0;
        let w1 = w.without_projectile(id);
        assert(w1.collide_from(ids, 1, queue.push(WorldView::contact_effect(projectile, hit)))
            == (w1, queue.push(WorldView::contact_effect(projectile, hit))));
    }
}

} // verus!
