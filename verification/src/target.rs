use vstd::prelude::*;
use crate::component::{ascending, ids_of, lemma_ids_of, listed_from, ComponentResult};
use crate::context::EffectTarget;
use crate::fixed::Fixed;
use crate::id::Id;
use crate::unit::UnitId;
use crate::util::{king_distance, spec_king_distance};
use crate::world::{Fraction, World, WorldView};

verus! {

/// How a unit finds what it acts on: the candidates, and what makes one better.
#[derive(Debug, Clone, PartialEq, Eq)]
pub struct TargetSelector {
    pub filter: TargetFilter,
    pub fitness: TargetFitness,
}

#[derive(Debug, Clone, Copy, PartialEq, Eq, Structural)]
pub enum TargetFilter {
    /// The unit itself.
    Own,
    Fraction(FractionFilter),
}

#[derive(Debug, Clone, Copy, PartialEq, Eq, Structural)]
pub enum FractionFilter {
    Any,
    Ally,
    Enemy,
}

#[derive(Debug, PartialEq, Eq)]
pub enum TargetFitness {
    Negative(Box<TargetFitness>),
    /// The number of king moves between the two units.
    Distance,
}

pub type Fitness = Fixed;

/// Of the best candidate so far and a new one, the one with the higher fitness; the new
/// one where they are equal.
pub open spec fn better(best: Option<(Id, Fitness)>, candidate: (Id, Fitness)) -> (Id, Fitness) {
    match best {
        Some(found) => if candidate.1.raw >= found.1.raw {
            candidate
        } else {
            found
        },
        None => candidate,
    }
}

impl FractionFilter {
    pub open spec fn spec_check(self, unit: Fraction, other: Fraction) -> bool {
        match self {
            FractionFilter::Any => true,
            FractionFilter::Ally => unit == other,
            FractionFilter::Enemy => unit != other,
        }
    }

    pub open spec fn spec_check_query(
        self,
        target: UnitId,
        world: WorldView,
        unit: UnitId,
    ) -> ComponentResult<bool> {
        match world.fraction(unit) {
            Err(error) => Err(error),
            Ok(own) => match world.fraction(target) {
                Err(error) => Err(error),
                Ok(other) => Ok(self.spec_check(own, other)),
            },
        }
    }

    /// Whether `target` passes for `unit`. Fails with `NotFound` where one of them has
    /// no fraction.
    pub fn check_query(self, target: UnitId, world: &World, unit: UnitId) -> (r: ComponentResult<
        bool,
    >)
        requires
            world.units.wf(),
        ensures
            r == self.spec_check_query(target, world@, unit),
    {
        let own = match world.units.fraction.get(unit) {
            Ok(fraction) => *fraction,
            Err(error) => {
                return Err(error);
            },
        };
        let other = match world.units.fraction.get(target) {
            Ok(fraction) => *fraction,
            Err(error) => {
                return Err(error);
            },
        };
        Ok(self.check(own, other))
    }

    /// Whether a unit of fraction `other` passes for a unit of fraction `unit`.
    pub fn check(self, unit: Fraction, other: Fraction) -> (r: bool)
        ensures
            r == self.spec_check(unit, other),
    {
        match self {
            FractionFilter::Any => true,
            FractionFilter::Ally => unit == other,
            FractionFilter::Enemy => unit != other,
        }
    }
}

impl TargetFilter {
    pub open spec fn spec_check(
        self,
        target: UnitId,
        world: WorldView,
        unit: UnitId,
    ) -> ComponentResult<bool> {
        match self {
            TargetFilter::Own => Ok(target == unit),
            TargetFilter::Fraction(filter) => filter.spec_check_query(target, world, unit),
        }
    }

    pub fn check(self, target: UnitId, world: &World, unit: UnitId) -> (r: ComponentResult<bool>)
        requires
            world.units.wf(),
        ensures
            r == self.spec_check(target, world@, unit),
    {
        match self {
            TargetFilter::Own => Ok(target == unit),
            TargetFilter::Fraction(filter) => filter.check_query(target, world, unit),
        }
    }
}

impl Clone for TargetFitness {
    fn clone(&self) -> (r: Self)
        ensures
            r == *self,
    {
        self.duplicate()
    }
}

impl TargetFitness {
    /// An equal fitness.
    pub fn duplicate(&self) -> (r: TargetFitness)
        ensures
            r == *self,
        decreases self,
    {
        match self {
            TargetFitness::Negative(fitness) => TargetFitness::Negative(
                Box::new(fitness.duplicate()),
            ),
            TargetFitness::Distance => TargetFitness::Distance,
        }
    }

    pub open spec fn spec_evaluate(
        &self,
        target: UnitId,
        world: WorldView,
        unit: UnitId,
    ) -> ComponentResult<Fitness>
        decreases self,
    {
        match self {
            TargetFitness::Negative(fitness) => match fitness.spec_evaluate(target, world, unit) {
                Ok(value) => Ok(value.spec_neg()),
                Err(error) => Err(error),
            },
            TargetFitness::Distance => match world.grid_position(unit) {
                Err(error) => Err(error),
                Ok(pos) => match world.grid_position(target) {
                    Err(error) => Err(error),
                    Ok(target_pos) => Ok(
                        Fixed::spec_from_int(
                            spec_king_distance(target_pos.spec_sub(pos)) as int,
                        ),
                    ),
                },
            },
        }
    }

    /// How good `target` is for `unit`. Fails with `NotFound` where one of them has no
    /// cell.
    pub fn evaluate(&self, target: UnitId, world: &World, unit: UnitId) -> (r: ComponentResult<
        Fitness,
    >)
        requires
            world.units.wf(),
        ensures
            r == self.spec_evaluate(target, world@, unit),
        decreases self,
    {
        match self {
            TargetFitness::Negative(fitness) => match fitness.evaluate(target, world, unit) {
                Ok(value) => Ok(value.neg()),
                Err(error) => Err(error),
            },
            TargetFitness::Distance => {
                let pos = match world.units.grid_position.get(unit) {
                    Ok(pos) => *pos,
                    Err(error) => {
                        return Err(error);
                    },
                };
                let target_pos = match world.units.grid_position.get(target) {
                    Ok(pos) => *pos,
                    Err(error) => {
                        return Err(error);
                    },
                };
                let delta = target_pos.sub(pos);
                let distance = king_distance(delta);
                Ok(Fixed::from_int(distance))
            },
        }
    }
}

impl TargetSelector {
    /// The best candidate among the ids from place `from` on, given the best so far.
    /// The unit itself is no candidate. The first failure ends the search.
    pub open spec fn scan(
        &self,
        world: WorldView,
        unit: UnitId,
        ids: Seq<Id>,
        from: int,
        best: Option<(Id, Fitness)>,
    ) -> ComponentResult<Option<(Id, Fitness)>>
        decreases ids.len() - from,
    {
        if from < 0 || from >= ids.len() {
            Ok(best)
        } else {
            let id = ids[from];
            if id == unit {
                self.scan(world, unit, ids, from + 1, best)
            } else {
                match self.filter.spec_check(id, world, unit) {
                    Err(error) => Err(error),
                    Ok(false) => self.scan(world, unit, ids, from + 1, best),
                    Ok(true) => match self.fitness.spec_evaluate(id, world, unit) {
                        Err(error) => Err(error),
                        Ok(fitness) => self.scan(
                            world,
                            unit,
                            ids,
                            from + 1,
                            Some(better(best, (id, fitness))),
                        ),
                    },
                }
            }
        }
    }

    /// The target that `unit` selects: itself under the filter `Own`; else, among the
    /// other units that exist and pass the filter, the one of the highest fitness, and
    /// of several such the one with the highest id.
    pub open spec fn spec_evaluate(&self, world: WorldView, unit: UnitId) -> ComponentResult<
        Option<EffectTarget>,
    > {
        if self.filter == TargetFilter::Own {
            match self.fitness.spec_evaluate(unit, world, unit) {
                Err(error) => Err(error),
                Ok(_) => Ok(Some(EffectTarget::Unit(unit))),
            }
        } else {
            match self.scan(world, unit, ids_of(world.units.ids.dom()), 0, None) {
                Err(error) => Err(error),
                Ok(Some(best)) => Ok(Some(EffectTarget::Unit(best.0))),
                Ok(None) => Ok(None),
            }
        }
    }

    /// Selects the target of `unit`, or none where there is no candidate. Fails with
    /// `NotFound` where the unit or a candidate lacks an attribute that the filter or
    /// the fitness reads.
    pub fn evaluate(
        &self,
        world: &World,
        unit: UnitId,
    ) -> (r: ComponentResult<Option<EffectTarget>>)
        requires
            world.units.wf(),
        ensures
            r == self.spec_evaluate(world@, unit),
    {
        let mut best_target: Option<(Id, Fitness)> = None;
        match self.filter {
            TargetFilter::Own => {
                match self.fitness.evaluate(unit, world, unit) {
                    Ok(_) => {
                        return Ok(Some(EffectTarget::Unit(unit)));
                    },
                    Err(error) => {
                        return Err(error);
                    },
                }
            },
            _ => {},
        }
        let ids = world.units.ids.ids();
        let mut i: usize = 0;
        while i < ids.len()
            invariant
                i <= ids@.len(),
                world.units.wf(),
                self.filter != TargetFilter::Own,
                ids@ == ids_of(world@.units.ids.dom()),
                self.scan(world@, unit, ids@, i as int, best_target) == self.scan(
                    world@,
                    unit,
                    ids@,
                    0,
                    None,
                ),
            decreases ids@.len() - i,
        {
            let id = ids[i];
            if id != unit {
                match self.filter.check(id, world, unit) {
                    Err(error) => {
                        return Err(error);
                    },
                    Ok(false) => {},
                    Ok(true) => {
                        match self.fitness.evaluate(id, world, unit) {
                            Err(error) => {
                                return Err(error);
                            },
                            Ok(fitness) => {
                                best_target = Some(
                                    match best_target {
                                        Some(found) => if fitness.raw >= found.1.raw {
                                            (id, fitness)
                                        } else {
                                            found
                                        },
                                        None => (id, fitness),
                                    },
                                );
                            },
                        }
                    },
                }
            }
            i += 1;
        }
        match best_target {
            Some(best) => Ok(Some(EffectTarget::Unit(best.0))),
            None => Ok(None),
        }
    }
}

impl TargetSelector {
    /// `id` is a candidate for `unit`: another unit that passes the filter and has a
    /// fitness.
    pub open spec fn is_candidate(&self, world: WorldView, unit: UnitId, id: Id) -> bool {
        &&& id != unit
        &&& self.filter.spec_check(id, world, unit) == Ok::<bool, crate::component::ComponentError>(
            true,
        )
        &&& self.fitness.spec_evaluate(id, world, unit) is Ok
    }

    /// The fitness of a candidate.
    pub open spec fn fit(&self, world: WorldView, unit: UnitId, id: Id) -> Fitness {
        self.fitness.spec_evaluate(id, world, unit)->Ok_0
    }

    /// The candidate `other` would be chosen over `id`: it is fitter, or as fit and
    /// visited later.
    pub open spec fn beats(&self, world: WorldView, unit: UnitId, other: Id, id: Id) -> bool {
        self.fit(world, unit, other).raw > self.fit(world, unit, id).raw || (self.fit(
            world,
            unit,
            other,
        ).raw == self.fit(world, unit, id).raw && other.0 > id.0)
    }
}

/// What a search that does not fail finds: a candidate that no candidate beats.
pub proof fn lemma_scan(
    selector: TargetSelector,
    world: WorldView,
    unit: UnitId,
    ids: Seq<Id>,
    from: int,
    best: Option<(Id, Fitness)>,
)
    requires
        0 <= from <= ids.len(),
        ascending(ids),
        match best {
            Some(found) => selector.is_candidate(world, unit, found.0) && selector.fit(
                world,
                unit,
                found.0,
            ) == found.1 && forall|k: int| from <= k < ids.len() ==> (found.0).0 < (#[trigger] ids[k]).0,
            None => true,
        },
    ensures
        match selector.scan(world, unit, ids, from, best) {
            Ok(Some(found)) => {
                &&& selector.is_candidate(world, unit, found.0)
                &&& selector.fit(world, unit, found.0) == found.1
                &&& (best is Some && found.0 == (best->0).0) || listed_from(ids, from, found.0)
                &&& best is Some ==> !selector.beats(world, unit, (best->0).0, found.0)
                &&& forall|id: Id|
                    listed_from(ids, from, id) && #[trigger] selector.is_candidate(world, unit, id)
                        ==> !selector.beats(world, unit, id, found.0)
            },
            Ok(None) => best is None && forall|id: Id|
                listed_from(ids, from, id) ==> !#[trigger] selector.is_candidate(world, unit, id),
            Err(_) => true,
        },
    decreases ids.len() - from,
{
    if from < ids.len() {
        let first = ids[from];
        assert forall|id: Id| listed_from(ids, from, id) <==> (id == first || listed_from(ids, from + 1, id)) by {
            if id == first {
                assert(from <= from < ids.len() && ids[from] == id);
            }
            if listed_from(ids, from + 1, id) {
                let k = choose|k: int| from + 1 <= k < ids.len() && ids[k] == id;
                assert(from <= k < ids.len() && ids[k] == id);
            }
            if listed_from(ids, from, id) && id != first {
                let k = choose|k: int| from <= k < ids.len() && ids[k] == id;
                assert(from + 1 <= k < ids.len() && ids[k] == id);
            }
        }
        assert forall|id: Id| listed_from(ids, from + 1, id) implies first.0 < id.0 by {
            let k = choose|k: int| from + 1 <= k < ids.len() && ids[k] == id;
            assert(ids[from].0 < ids[k].0);
        }
        if first == unit {
            lemma_scan(selector, world, unit, ids, from + 1, best);
        } else {
            match selector.filter.spec_check(first, world, unit) {
                Err(_) => {},
                Ok(false) => {
                    lemma_scan(selector, world, unit, ids, from + 1, best);
                },
                Ok(true) => match selector.fitness.spec_evaluate(first, world, unit) {
                    Err(_) => {},
                    Ok(fitness) => {
                        let next = better(best, (first, fitness));
                        assert forall|k: int| from + 1 <= k < ids.len() implies (next.0).0 < (
                        #[trigger] ids[k]).0 by {
                            assert(ids[from].0 < ids[k].0);
                        }
                        lemma_scan(selector, world, unit, ids, from + 1, Some(next));
                    },
                },
            }
        }
    } else {
        assert forall|id: Id| !listed_from(ids, from, id) by {}
    }
}

/// Target selection: among the other units that exist, a selector that does not fail
/// selects a candidate that no candidate beats, that is, one of the highest fitness,
/// and of those the one with the highest id; and it selects nothing if and only if
/// there is no candidate.
pub proof fn law_selected_is_best(selector: TargetSelector, world: WorldView, unit: UnitId)
    requires
        selector.filter != TargetFilter::Own,
    ensures
        match selector.spec_evaluate(world, unit) {
            Ok(Some(target)) => match target {
                EffectTarget::Unit(found) => {
                    &&& world.units.ids.contains_key(found)
                    &&& selector.is_candidate(world, unit, found)
                    &&& forall|id: Id|
                        world.units.ids.contains_key(id) && #[trigger] selector.is_candidate(
                            world,
                            unit,
                            id,
                        ) ==> !selector.beats(world, unit, id, found)
                },
                EffectTarget::Position(_) => false,
            },
            Ok(None) => forall|id: Id|
                world.units.ids.contains_key(id) ==> !#[trigger] selector.is_candidate(
                    world,
                    unit,
                    id,
                ),
            Err(_) => true,
        },
{
    let dom = world.units.ids.dom();
    let ids = ids_of(dom);
    lemma_ids_of(dom);
    lemma_scan(selector, world, unit, ids, 0, None);
    assert forall|id: Id| world.units.ids.contains_key(id) <==> listed_from(ids, 0, id) by {
        if world.units.ids.contains_key(id) {
            assert(ids.contains(id));
            let k = choose|k: int| 0 <= k < ids.len() && ids[k] == id;
            assert(0 <= k < ids.len() && ids[k] == id);
        }
        if listed_from(ids, 0, id) {
            let k = choose|k: int| 0 <= k < ids.len() && ids[k] == id;
            assert(ids.contains(id));
        }
    }
}

} // verus!
