use vstd::prelude::*;
use crate::component::{ascending, ids_of, lemma_ids_of, listed_from};
use crate::entity::EntitiesView;
use crate::fixed::SCALE;
use crate::id::Id;
use crate::logic::Logic;
use crate::unit::{lemma_evaluate_supported, BehaviourContext, UnitAI, UnitBeat, UnitId};
use crate::world::{SystemError, SystemResult, Time, World, WorldView};

verus! {

impl WorldView {
    /// The world after the unit is placed where its cell lies in the world.
    pub open spec fn place_unit(self, id: UnitId) -> WorldView {
        match self.grid_position(id) {
            Err(_) => self,
            Ok(pos) => if self.units.world_position.contains_key(id) {
                self.with_world_position(id, self.grid.spec_grid_to_world(pos))
            } else {
                self
            },
        }
    }

    /// `place_unit` for each of the ids from place `from` on.
    pub open spec fn place_from(self, ids: Seq<Id>, from: int) -> WorldView
        decreases ids.len() - from,
    {
        if from < 0 || from >= ids.len() {
            self
        } else {
            self.place_unit(ids[from]).place_from(ids, from + 1)
        }
    }

    /// The world after every unit with a cell and a place is placed where its cell lies.
    pub open spec fn process_units_pos(self) -> WorldView {
        self.place_from(ids_of(self.units.grid_position.dom()), 0)
    }

    /// The world after the countdown of the unit to its next beat has run for
    /// `delta_time` seconds, and whether the unit is due. A synchronized unit waits
    /// while a whole beat's time has passed since the player's last beat.
    pub open spec fn countdown_unit(self, id: UnitId, delta_time: Time) -> (WorldView, bool) {
        match self.unit_ai(id) {
            Err(_) => (self, false),
            Ok(ai) => if ai.spec_waits(self.player_beat_time) {
                (self, false)
            } else {
                let (counted, acts) = ai.spec_countdown(
                    self.beat.current_bpm,
                    self.player_beat_time,
                    delta_time,
                );
                (self.with_unit_ai(id, counted), acts)
            },
        }
    }

    /// `countdown_unit` for each of the ids from place `from` on; the ids of the units
    /// that are due are added to `due`.
    pub open spec fn countdown_from(
        self,
        ids: Seq<Id>,
        from: int,
        delta_time: Time,
        due: Seq<Id>,
    ) -> (WorldView, Seq<Id>)
        decreases ids.len() - from,
    {
        if from < 0 || from >= ids.len() {
            (self, due)
        } else {
            let (world, acts) = self.countdown_unit(ids[from], delta_time);
            world.countdown_from(
                ids,
                from + 1,
                delta_time,
                if acts {
                    due.push(ids[from])
                } else {
                    due
                },
            )
        }
    }

    /// The world after the unit has decided what to do and done it, and the outcome. A
    /// unit that is there no longer does nothing.
    pub open spec fn act_unit(self, id: UnitId) -> (WorldView, SystemResult<()>) {
        match self.unit_ai(id) {
            Err(_) => (self, Ok(())),
            Ok(ai) => match ai.behaviour.spec_evaluate(self, id) {
                Err(error) => (self, Err(SystemError::Behaviour(error))),
                Ok(None) => (self, Ok(())),
                Ok(Some(decision)) => self.unit_action(id, decision.0, decision.1),
            },
        }
    }

    /// `act_unit` for each of the ids from place `from` on, up to the first failure.
    pub open spec fn act_from(self, due: Seq<Id>, from: int) -> (WorldView, SystemResult<()>)
        decreases due.len() - from,
    {
        if from < 0 || from >= due.len() {
            (self, Ok(()))
        } else {
            let (world, outcome) = self.act_unit(due[from]);
            match outcome {
                Err(error) => (world, Err(error)),
                Ok(_) => world.act_from(due, from + 1),
            }
        }
    }

    /// The world after the units' countdowns have run for `delta_time` seconds and the
    /// units that are due have acted, in the order of their ids; and the outcome.
    pub open spec fn process_units_ai(self, delta_time: Time) -> (WorldView, SystemResult<()>) {
        let (world, due) = self.countdown_from(
            ids_of(self.units.unit.dom()),
            0,
            delta_time,
            Seq::empty(),
        );
        world.act_from(due, 0)
    }
}

impl Logic {
    /// Places every unit where its cell lies in the world. Never fails.
    pub fn process_units_pos(&mut self, world: &mut World) -> (r: SystemResult<()>)
        requires
            old(world).wf(),
        ensures
            r == Ok::<(), SystemError>(()),
            final(world).wf(),
            final(world).music_controller@ == old(world).music_controller@,
            *final(self) == *old(self),
            final(world)@ == old(world)@.process_units_pos(),
    {
        let ids = world.units.grid_position.ids();
        let mut i: usize = 0;
        while i < ids.len()
            invariant
                i <= ids@.len(),
                world.wf(),
                world.music_controller@ == old(world).music_controller@,
                world@.place_from(ids@, i as int) == old(world)@.place_from(ids@, 0),
            decreases ids@.len() - i,
        {
            let id = ids[i];
            match world.units.grid_position.get(id) {
                Ok(pos) => {
                    let place = world.grid.grid_to_world(*pos);
                    let _ = world.units.world_position.update(id, place);
                },
                Err(_) => {},
            }
            i += 1;
        }
        Ok(())
    }

    /// Runs the units' countdowns, and lets the units that are due decide and act.
    /// Fails as the first unit that fails to decide or to act.
    pub fn process_units_ai(&mut self, world: &mut World) -> (r: SystemResult<()>)
        requires
            old(world).wf(),
        ensures
            final(world).wf(),
            final(world).music_controller@ == old(world).music_controller@,
            *final(self) == *old(self),
            (final(world)@, r) == old(world)@.process_units_ai(old(self).delta_time),
    {
        let delta_time = self.delta_time;
        let ids = world.units.unit.ids();
        let mut actions: Vec<Id> = Vec::new();
        let mut i: usize = 0;
        while i < ids.len()
            invariant
                i <= ids@.len(),
                world.wf(),
                world.music_controller@ == old(world).music_controller@,
                world@.countdown_from(ids@, i as int, delta_time, actions@)
                    == old(world)@.countdown_from(ids@, 0, delta_time, Seq::empty()),
            decreases ids@.len() - i,
        {
            let id = ids[i];
            let player_bpm = world.beat_controller.get_bpm();
            let counted = match world.units.unit.get(id) {
                Ok(unit) => {
                    let waits = match unit.beat {
                        UnitBeat::Synchronized { .. } => world.player_beat_time.raw >= SCALE,
                        UnitBeat::Independent { .. } => false,
                    };
                    if waits {
                        // Wait for player beat
                        None
                    } else {
                        let bpm = unit.beat.calc_bpm(player_bpm);
                        let beat_time = Time::from_int(60).div(bpm);
                        let next_beat = unit.next_beat.sub(delta_time.div(beat_time));
                        let acts = next_beat.raw < 0;
                        Some(
                            (
                                UnitAI {
                                    beat: unit.beat,
                                    next_beat: if acts {
                                        next_beat.add(Time::one())
                                    } else {
                                        next_beat
                                    },
                                    behaviour: unit.behaviour.duplicate(),
                                },
                                acts,
                            ),
                        )
                    }
                },
                Err(_) => None,
            };
            match counted {
                Some((unit, acts)) => {
                    let _ = world.units.unit.update(id, unit);
                    if acts {
                        actions.push(id);
                    }
                },
                None => {},
            }
            i += 1;
        }

        let ghost counted = world@;
        let mut j: usize = 0;
        while j < actions.len()
            invariant
                j <= actions@.len(),
                world.wf(),
                world.music_controller@ == old(world).music_controller@,
                world@.act_from(actions@, j as int) == counted.act_from(actions@, 0),
                counted.act_from(actions@, 0) == old(world)@.process_units_ai(delta_time),
                delta_time == old(self).delta_time,
                *self == *old(self),
            decreases actions@.len() - j,
        {
            let id = actions[j];
            let decision = match world.units.unit.get(id) {
                Err(_) => None,
                Ok(unit) => {
                    proof {
                        lemma_evaluate_supported(unit.behaviour, world@, id, BehaviourContext::Empty);
                    }
                    match unit.behaviour.evaluate(world, id) {
                        Err(error) => {
                            return Err(SystemError::Behaviour(error));
                        },
                        Ok(decision) => decision,
                    }
                },
            };
            match decision {
                Some((action, input)) => {
                    match Logic::unit_action(world, id, action, input) {
                        Ok(_) => {},
                        Err(error) => {
                            return Err(error);
                        },
                    }
                },
                None => {},
            }
            j += 1;
        }
        Ok(())
    }
}

/// What `place_from` makes of the world, unit by unit.
pub proof fn lemma_place_from(w: WorldView, ids: Seq<Id>, from: int)
    requires
        0 <= from <= ids.len(),
    ensures
        ({
            let r = w.place_from(ids, from);
            &&& r == (WorldView {
                units: EntitiesView { world_position: r.units.world_position, ..w.units },
                ..w
            })
            &&& r.units.world_position.dom() == w.units.world_position.dom()
            &&& forall|id: Id| #[trigger]
                w.units.world_position.contains_key(id) ==> r.units.world_position[id] == if w.units.grid_position.contains_key(
                    id,
                ) && listed_from(ids, from, id) {
                    w.grid.spec_grid_to_world(w.units.grid_position[id])
                } else {
                    w.units.world_position[id]
                }
        }),
    decreases ids.len() - from,
{
    if from < ids.len() {
        let first = ids[from];
        let w1 = w.place_unit(first);
        lemma_place_from(w1, ids, from + 1);
        let r = w.place_from(ids, from);
        assert(w1.units.world_position.dom() =~= w.units.world_position.dom());
        assert forall|id: Id| #[trigger]
            w.units.world_position.contains_key(id) implies r.units.world_position[id] == if w.units.grid_position.contains_key(
            id,
        ) && listed_from(ids, from, id) {
            w.grid.spec_grid_to_world(w.units.grid_position[id])
        } else {
            w.units.world_position[id]
        } by {
            assert(w1.units.world_position.contains_key(id));
            if listed_from(ids, from + 1, id) {
                let k = choose|k: int| from + 1 <= k < ids.len() && ids[k] == id;
                assert(from <= k < ids.len() && ids[k] == id);
            }
            if id == first {
                assert(from <= from < ids.len() && ids[from] == id);
            }
            if listed_from(ids, from, id) && id != first {
                let k = choose|k: int| from <= k < ids.len() && ids[k] == id;
                assert(from + 1 <= k < ids.len() && ids[k] == id);
            }
        }
    } else {
        assert forall|id: Id| !listed_from(ids, from, id) by {}
    }
}

/// Placing the units puts every unit that has a cell and a place in the world where its
/// cell lies, and changes nothing else.
pub proof fn law_units_placed(w: WorldView)
    ensures
        ({
            let r = w.process_units_pos();
            &&& r == (WorldView {
                units: EntitiesView { world_position: r.units.world_position, ..w.units },
                ..w
            })
            &&& r.units.world_position.dom() == w.units.world_position.dom()
            &&& forall|id: Id| #[trigger]
                w.units.world_position.contains_key(id) ==> r.units.world_position[id] == if w.units.grid_position.contains_key(
                    id,
                ) {
                    w.grid.spec_grid_to_world(w.units.grid_position[id])
                } else {
                    w.units.world_position[id]
                }
        }),
{
    let dom = w.units.grid_position.dom();
    let ids = ids_of(dom);
    lemma_ids_of(dom);
    lemma_place_from(w, ids, 0);
    assert forall|id: Id| w.units.grid_position.contains_key(id) implies listed_from(
        ids,
        0,
        id,
    ) by {
        assert(ids.contains(id));
        let k = choose|k: int| 0 <= k < ids.len() && ids[k] == id;
        assert(0 <= k < ids.len() && ids[k] == id);
    }
}

/// What `countdown_from` makes of the world, unit by unit, and which units it finds due.
pub proof fn lemma_countdown_from(
    w: WorldView,
    ids: Seq<Id>,
    from: int,
    delta_time: Time,
    due: Seq<Id>,
)
    requires
        0 <= from <= ids.len(),
        ascending(ids),
    ensures
        ({
            let (r, found) = w.countdown_from(ids, from, delta_time, due);
            &&& r == (WorldView { units: EntitiesView { unit: r.units.unit, ..w.units }, ..w })
            &&& r.units.unit.dom() == w.units.unit.dom()
            &&& forall|id: Id| #[trigger]
                w.units.unit.contains_key(id) ==> r.units.unit[id] == if listed_from(ids, from, id) {
                    w.units.unit[id].spec_countdown(
                        w.beat.current_bpm,
                        w.player_beat_time,
                        delta_time,
                    ).0
                } else {
                    w.units.unit[id]
                }
            &&& found.len() >= due.len()
            &&& found.subrange(0, due.len() as int) == due
            &&& forall|k: int|
                due.len() <= k < found.len() ==> listed_from(ids, from, #[trigger] found[k])
                    && w.units.unit.contains_key(found[k]) && w.units.unit[found[k]].spec_countdown(
                    w.beat.current_bpm,
                    w.player_beat_time,
                    delta_time,
                ).1
            &&& forall|k: int, l: int|
                due.len() <= k < l < found.len() ==> (#[trigger] found[k]).0 < (#[trigger] found[l]).0
            &&& forall|id: Id|
                listed_from(ids, from, id) && w.units.unit.contains_key(id) && (
                #[trigger] w.units.unit[id]).spec_countdown(
                    w.beat.current_bpm,
                    w.player_beat_time,
                    delta_time,
                ).1 ==> exists|k: int| due.len() <= k < found.len() && found[k] == id
        }),
    decreases ids.len() - from,
{
    let (r, found) = w.countdown_from(ids, from, delta_time, due);
    if from < ids.len() {
        let first = ids[from];
        let (w1, acts) = w.countdown_unit(first, delta_time);
        let due1 = if acts {
            due.push(first)
        } else {
            due
        };
        lemma_countdown_from(w1, ids, from + 1, delta_time, due1);
        assert(w1.units.unit.dom() =~= w.units.unit.dom());
        assert(!listed_from(ids, from + 1, first)) by {
            if listed_from(ids, from + 1, first) {
                let k = choose|k: int| from + 1 <= k < ids.len() && ids[k] == first;
                assert(ids[from].0 < ids[k].0);
            }
        }
        assert(listed_from(ids, from, first)) by {
            assert(from <= from < ids.len() && ids[from] == first);
        }
        assert forall|id: Id| listed_from(ids, from, id) <==> (id == first || listed_from(
            ids,
            from + 1,
            id,
        )) by {
            if listed_from(ids, from + 1, id) {
                let k = choose|k: int| from + 1 <= k < ids.len() && ids[k] == id;
                assert(from <= k < ids.len() && ids[k] == id);
            }
            if listed_from(ids, from, id) && id != first {
                let k = choose|k: int| from <= k < ids.len() && ids[k] == id;
                assert(from + 1 <= k < ids.len() && ids[k] == id);
            }
        }
        assert(found.subrange(0, due.len() as int) =~= due) by {
            assert(found.subrange(0, due1.len() as int) == due1);
            assert forall|k: int| 0 <= k < due.len() implies found[k] == due[k] by {
                assert(found.subrange(0, due1.len() as int)[k] == due1[k]);
            }
        }
        if acts {
            assert(found[due.len() as int] == first) by {
                assert(found.subrange(0, due1.len() as int)[due.len() as int] == due1[due.len() as int]);
            }
        }
        assert forall|k: int, l: int| due.len() <= k < l < found.len() implies (
        #[trigger] found[k]).0 < (#[trigger] found[l]).0 by {
            if acts && k == due.len() {
                assert(listed_from(ids, from + 1, found[l]));
                let m = choose|m: int| from + 1 <= m < ids.len() && ids[m] == found[l];
                assert(ids[from].0 < ids[m].0);
            }
        }
        assert forall|id: Id|
            listed_from(ids, from, id) && w.units.unit.contains_key(id) && (
            #[trigger] w.units.unit[id]).spec_countdown(
                w.beat.current_bpm,
                w.player_beat_time,
                delta_time,
            ).1 implies exists|k: int| due.len() <= k < found.len() && found[k] == id by {
            if id == first {
                assert(acts);
                assert(due.len() <= due.len() < found.len() && found[due.len() as int] == id);
            } else {
                assert(listed_from(ids, from + 1, id));
                assert(w1.units.unit[id] == w.units.unit[id]);
                let k = choose|k: int| due1.len() <= k < found.len() && found[k] == id;
                assert(due.len() <= k < found.len() && found[k] == id);
            }
        }
    } else {
        assert forall|id: Id| !listed_from(ids, from, id) by {}
        assert(found.subrange(0, due.len() as int) =~= due);
    }
}

/// Running the countdowns changes every unit that acts on its own as `spec_countdown`
/// says, and nothing else; the units that are found due are those whose countdown has
/// crossed zero, in the increasing order of their ids.
pub proof fn law_countdown(w: WorldView, delta_time: Time)
    ensures
        ({
            let (r, due) = w.countdown_from(
                ids_of(w.units.unit.dom()),
                0,
                delta_time,
                Seq::empty(),
            );
            &&& r == (WorldView { units: EntitiesView { unit: r.units.unit, ..w.units }, ..w })
            &&& r.units.unit.dom() == w.units.unit.dom()
            &&& forall|id: Id| #[trigger]
                w.units.unit.contains_key(id) ==> r.units.unit[id] == w.units.unit[id].spec_countdown(
                    w.beat.current_bpm,
                    w.player_beat_time,
                    delta_time,
                ).0
            &&& ascending(due)
            &&& forall|id: Id|
                due.contains(id) <==> w.units.unit.contains_key(id) && w.units.unit[id].spec_countdown(
                    w.beat.current_bpm,
                    w.player_beat_time,
                    delta_time,
                ).1
        }),
{
    let dom = w.units.unit.dom();
    let ids = ids_of(dom);
    lemma_ids_of(dom);
    lemma_countdown_from(w, ids, 0, delta_time, Seq::empty());
    let (r, due) = w.countdown_from(ids, 0, delta_time, Seq::empty());
    assert forall|id: Id| w.units.unit.contains_key(id) implies listed_from(ids, 0, id) by {
        assert(ids.contains(id));
        let k = choose|k: int| 0 <= k < ids.len() && ids[k] == id;
        assert(0 <= k < ids.len() && ids[k] == id);
    }
    assert forall|id: Id|
        due.contains(id) <==> w.units.unit.contains_key(id) && w.units.unit[id].spec_countdown(
            w.beat.current_bpm,
            w.player_beat_time,
            delta_time,
        ).1 by {
        if due.contains(id) {
            let k = choose|k: int| 0 <= k < due.len() && due[k] == id;
            assert(listed_from(ids, 0, due[k]));
        }
        if w.units.unit.contains_key(id) && w.units.unit[id].spec_countdown(
            w.beat.current_bpm,
            w.player_beat_time,
            delta_time,
        ).1 {
            assert(listed_from(ids, 0, id));
            let k = choose|k: int| 0 <= k < due.len() && due[k] == id;
        }
    }
}

} // verus!
