use vstd::prelude::*;
use std::collections::VecDeque;
use crate::action::{Action, ActionInput, ActionMove, ActionUseItem, MoveSlide};
use crate::action_effect::{spec_pull_in, ActionAim, ActionEffect};
use crate::component::{ascending, ids_of, lemma_ids_of, listed_from};
use crate::context::{Caster, EffectContext, EffectTarget};
use crate::effect::{Effect, EffectDamage};
use crate::entity::EntitiesView;
use crate::fixed::{Fixed, SCALE};
use crate::health::{Health, Hp};
use crate::id::Id;
use crate::item::{Item, ItemId};
use crate::music_controller::{advanced, NoteCommand};
use crate::player::PlayerAction;
use crate::unit::{UnitAI, UnitId};
use crate::util::spec_king_distance;
use crate::vec2::IVec2;
use crate::world::{Color, SystemError, SystemResult, Time, World, WorldView};

pub mod particles;
pub mod projectiles;
pub mod units;

verus! {

/// The hit points that two units take from each other when one runs into the other: 1.
pub const CONTACT_DAMAGE: i64 = 1_000_000;

/// One step of the world: the time that it covers and the effects that wait to be applied.
pub struct Logic {
    pub delta_time: Time,
    pub queued_effects: VecDeque<QueuedEffect>,
}

/// An effect that waits for the end of the step.
pub struct QueuedEffect {
    pub effect: Effect,
    pub context: EffectContext,
}

impl WorldView {
    /// The world after `unit` has taken `damage`, and the outcome: a unit that is left
    /// without hit points is removed from every store, and a burst of white particles
    /// appears on the unit's cell.
    pub open spec fn unit_damage(self, unit: UnitId, damage: Hp) -> (WorldView, SystemResult<()>) {
        match self.grid_position(unit) {
            Err(error) => (self, Err(SystemError::Component(error))),
            Ok(pos) => match self.health(unit) {
                Err(error) => (self, Err(SystemError::Component(error))),
                Ok(health) => {
                    let after = health.spec_damage(damage);
                    let world = if after.spec_is_dead() {
                        self.remove_unit(unit)
                    } else {
                        self.with_health(unit, after)
                    };
                    (world.spawn_particles(pos, Color::spec_white()), Ok(()))
                },
            },
        }
    }

    /// The world after two units have run into each other: each takes one hit point,
    /// the first one first.
    pub open spec fn contact_damage(self, unit_a: UnitId, unit_b: UnitId) -> (
        WorldView,
        SystemResult<()>,
    ) {
        let (world, outcome) = self.unit_damage(unit_a, Fixed { raw: CONTACT_DAMAGE });
        match outcome {
            Err(error) => (world, Err(error)),
            Ok(_) => world.unit_damage(unit_b, Fixed { raw: CONTACT_DAMAGE }),
        }
    }

    /// The world after `unit` has tried to slide by `slide`: it stays for a slide by
    /// nothing, runs into the unit on the cell it slides to if there is one, and else
    /// moves there.
    pub open spec fn unit_slide(self, unit: UnitId, slide: MoveSlide) -> (
        WorldView,
        SystemResult<()>,
    ) {
        match self.grid_position(unit) {
            Err(error) => (self, Err(SystemError::Component(error))),
            Ok(pos) => if slide.delta.x == 0 && slide.delta.y == 0 {
                (self, Ok(()))
            } else {
                let target = pos.spec_add(slide.delta);
                match self.get_unit_at(target) {
                    Ok(other) => self.contact_damage(unit, other),
                    Err(_) => (self.with_grid_position(unit, target), Ok(())),
                }
            },
        }
    }

    /// The world after `unit` has tried to move: a burst of blue particles appears on
    /// the cell that it has left, or on which it was removed.
    pub open spec fn unit_move(self, unit: UnitId, action: ActionMove) -> (
        WorldView,
        SystemResult<()>,
    ) {
        match self.grid_position(unit) {
            Err(error) => (self, Err(SystemError::Component(error))),
            Ok(pos) => match action {
                ActionMove::Slide(slide) => {
                    let (world, outcome) = self.unit_slide(unit, slide);
                    match outcome {
                        Err(error) => (world, Err(error)),
                        Ok(_) => if world.grid_position(unit) == Ok::<_, crate::component::ComponentError>(pos) {
                            (world, Ok(()))
                        } else {
                            (world.spawn_particles(pos, Color::spec_blue()), Ok(()))
                        },
                    }
                },
                ActionMove::Teleport(_) => (self, Ok(())),
            },
        }
    }

    /// The world after `unit` has used the item of one hand: nothing happens with an
    /// empty hand; else the item's effect is applied, aimed as the item allows.
    pub open spec fn unit_use_item(
        self,
        unit: UnitId,
        action: ActionUseItem,
        input: ActionInput,
    ) -> (WorldView, SystemResult<()>) {
        match self.held_items(unit) {
            Err(error) => (self, Err(SystemError::Component(error))),
            Ok(items) => match items.spec_get_item(action.item) {
                None => (self, Ok(())),
                Some(item) => match item.on_use.spec_into_effect(self, unit, input) {
                    Err(error) => (self, Err(error)),
                    Ok((effect, context)) => effect.spec_apply(self, context),
                },
            },
        }
    }

    /// The world after `unit` has carried out `action`.
    pub open spec fn unit_action(self, unit: UnitId, action: Action, input: ActionInput) -> (
        WorldView,
        SystemResult<()>,
    ) {
        match action {
            Action::Move(action) => self.unit_move(unit, action),
            Action::UseItem(action) => self.unit_use_item(unit, action, input),
        }
    }

    /// The world after the unit's schedule has counted one more beat of the player: a
    /// synchronized unit whose count comes round to zero is due at once.
    pub open spec fn sync_unit(self, id: UnitId) -> WorldView {
        match self.unit_ai(id) {
            Err(_) => self,
            Ok(ai) => self.with_unit_ai(id, ai.spec_player_beat()),
        }
    }

    /// `sync_unit` for each of the ids from place `from` on.
    pub open spec fn sync_from(self, ids: Seq<Id>, from: int) -> WorldView
        decreases ids.len() - from,
    {
        if from < 0 || from >= ids.len() {
            self
        } else {
            self.sync_unit(ids[from]).sync_from(ids, from + 1)
        }
    }

    /// The world after every unit's schedule has counted one more beat of the player.
    pub open spec fn sync_units(self) -> WorldView {
        self.sync_from(ids_of(self.units.unit.dom()), 0)
    }

    /// The world after an action of the player, but for the music, and the outcome: the
    /// time since the player's beat starts anew, the tempo takes the beat in, the
    /// player's unit carries out the action, and the units' schedules count the beat.
    pub open spec fn player_action(self, action: PlayerAction, input: ActionInput) -> (
        WorldView,
        SystemResult<()>,
    ) {
        let start = WorldView {
            player_beat_time: Fixed { raw: 0 },
            beat: self.beat.player_beat().0,
            ..self
        };
        let (world, outcome) = start.unit_action(self.player.unit, action, input);
        match outcome {
            Err(error) => (world, Err(error)),
            Ok(_) => (world.sync_units(), Ok(())),
        }
    }

    /// The world after `delta_time` seconds have passed, but for the music, and the
    /// outcome: the time since the player's beat grows by the part of a beat that has
    /// passed, the tempo is updated, and everything in the world gets one pass.
    pub open spec fn update(self, delta_time: Time) -> (WorldView, SystemResult<()>) {
        let beat_time = Fixed::spec_from_int(60).spec_div(self.beat.current_bpm);
        WorldView {
            player_beat_time: self.player_beat_time.spec_add(delta_time.spec_div(beat_time)),
            beat: self.beat.update(delta_time).0,
            ..self
        }.process(delta_time, Seq::empty())
    }

    /// The world after the effects from place `from` on are applied in their order, and
    /// the outcome: the first failure, of those before (`outcome`) or of these. A
    /// failure does not keep the effects after it from being applied.
    pub open spec fn drain_from(
        self,
        queue: Seq<QueuedEffect>,
        from: int,
        outcome: SystemResult<()>,
    ) -> (WorldView, SystemResult<()>)
        decreases queue.len() - from,
    {
        if from < 0 || from >= queue.len() {
            (self, outcome)
        } else {
            let (world, applied) = queue[from].effect.spec_apply(self, queue[from].context);
            world.drain_from(
                queue,
                from + 1,
                if outcome is Ok {
                    applied
                } else {
                    outcome
                },
            )
        }
    }

    /// The world after the effects of the queue are applied, and the first failure.
    pub open spec fn process_effects(self, queue: Seq<QueuedEffect>) -> (
        WorldView,
        SystemResult<()>,
    ) {
        self.drain_from(queue, 0, Ok(()))
    }

    /// The world after one pass of `delta_time` seconds over everything in it, and the
    /// outcome. The projectiles move and collide, the units are placed and act, the
    /// particles fly, and the effects that were waiting in `queue` or were raised in the
    /// pass are applied. When a unit fails to act, the particles stay as they are.
    pub open spec fn process(self, delta_time: Time, queue: Seq<QueuedEffect>) -> (
        WorldView,
        SystemResult<()>,
    ) {
        let moved = self.process_projectiles_move(delta_time);
        let (collided, raised) = moved.process_projectiles_collide(queue);
        let placed = collided.process_units_pos();
        let (acted, outcome) = placed.process_units_ai(delta_time);
        let flown = if outcome is Ok {
            acted.process_particles(delta_time)
        } else {
            acted
        };
        flown.drain_from(raised, 0, outcome)
    }
}

impl World {
    /// The player acts, outside the passes over the world. Returns the notes to play
    /// and the outcome of the action.
    pub fn player_action(&mut self, action: PlayerAction, input: ActionInput) -> (r: (
        Vec<NoteCommand>,
        SystemResult<()>,
    ))
        requires
            old(self).wf(),
            action.supported(),
        ensures
            final(self).wf(),
            (final(self)@, r.1) == old(self)@.player_action(action, input),
            advanced(
                old(self).music_controller@,
                final(self).music_controller@,
                r.0@,
                old(self)@.beat.player_beat().1 as int,
            ),
    {
        let mut logic = Logic::new(Time::zero());
        logic.player_action(self, action, input)
    }

    /// Lets `delta_time` seconds pass: the tempo follows, the music plays the ticks that
    /// fall into the time, and everything in the world gets one pass. Returns the notes
    /// to play and the outcome of the pass.
    pub fn update(&mut self, delta_time: Time) -> (r: (Vec<NoteCommand>, SystemResult<()>))
        requires
            old(self).wf(),
        ensures
            final(self).wf(),
            (final(self)@, r.1) == old(self)@.update(delta_time),
            advanced(
                old(self).music_controller@.set_bpm(
                    old(self)@.beat.update(delta_time).0.current_bpm,
                ),
                final(self).music_controller@,
                r.0@,
                crate::beat_controller::ticks_plus(0, old(self)@.beat.update(delta_time).1) as int,
            ),
    {
        let beat_time = Time::from_int(60).div(self.beat_controller.get_bpm());
        self.player_beat_time = self.player_beat_time.add(delta_time.div(beat_time));

        // Update music
        let ticks = self.beat_controller.update(delta_time);
        self.music_controller.set_bpm(self.beat_controller.get_bpm());
        let notes = self.music_controller.advance(ticks);

        let mut logic = Logic::new(delta_time);
        assert(logic.queued_effects@ =~= Seq::empty());
        let outcome = logic.process(self);
        (notes, outcome)
    }
}

impl Logic {
    /// A step of `delta_time` seconds, with no effect waiting.
    pub fn new(delta_time: Time) -> (r: Self)
        ensures
            r.delta_time == delta_time,
            r.queued_effects@.len() == 0,
    {
        Self { delta_time, queued_effects: VecDeque::new() }
    }

    /// Takes `damage` hit points from `unit`, and removes it when none are left. Fails
    /// with `NotFound` where the unit has no cell or no health.
    pub fn unit_damage(world: &mut World, unit: UnitId, damage: Hp) -> (r: SystemResult<()>)
        requires
            old(world).wf(),
        ensures
            final(world).wf(),
            final(world).music_controller@ == old(world).music_controller@,
            (final(world)@, r) == old(world)@.unit_damage(unit, damage),
    {
        let pos = match world.units.grid_position.get(unit) {
            Ok(pos) => *pos,
            Err(error) => {
                return Err(SystemError::Component(error));
            },
        };
        let mut health = match world.units.health.get(unit) {
            Ok(health) => *health,
            Err(error) => {
                return Err(SystemError::Component(error));
            },
        };
        health.damage(damage);
        if health.is_dead() {
            // Unit died
            world.units.remove(unit);
        } else {
            let _ = world.units.health.update(unit, health);
        }
        world.spawn_particles(pos, Color::white())
    }

    /// Two units have run into each other: each takes one hit point.
    pub fn contact_damage(world: &mut World, unit_a: UnitId, unit_b: UnitId) -> (r: SystemResult<
        (),
    >)
        requires
            old(world).wf(),
        ensures
            final(world).wf(),
            final(world).music_controller@ == old(world).music_controller@,
            (final(world)@, r) == old(world)@.contact_damage(unit_a, unit_b),
    {
        match Logic::unit_damage(world, unit_a, Fixed::from_raw(CONTACT_DAMAGE)) {
            Ok(_) => {},
            Err(error) => {
                return Err(error);
            },
        }
        Logic::unit_damage(world, unit_b, Fixed::from_raw(CONTACT_DAMAGE))
    }

    /// Slides `unit` by at most one cell in each direction. Fails with `NotFound` where
    /// the unit has no cell, or where it runs into a unit and one of the two has no
    /// health.
    pub fn unit_slide(world: &mut World, unit: UnitId, slide: MoveSlide) -> (r: SystemResult<()>)
        requires
            old(world).wf(),
            slide.single_tile(),
        ensures
            final(world).wf(),
            final(world).music_controller@ == old(world).music_controller@,
            (final(world)@, r) == old(world)@.unit_slide(unit, slide),
    {
        let pos = match world.units.grid_position.get(unit) {
            Ok(pos) => *pos,
            Err(error) => {
                return Err(SystemError::Component(error));
            },
        };
        if slide.delta.x == 0 && slide.delta.y == 0 {
            return Ok(());
        }
        let target = pos.add(slide.delta);
        match world.get_unit_at(target) {
            Ok(other) => Logic::contact_damage(world, unit, other),
            Err(_) => {
                let _ = world.units.grid_position.update(unit, target);
                Ok(())
            },
        }
    }

    /// Moves `unit`. Fails as `unit_slide` does.
    pub fn unit_move(world: &mut World, unit: UnitId, action: ActionMove) -> (r: SystemResult<()>)
        requires
            old(world).wf(),
            Action::Move(action).supported(),
        ensures
            final(world).wf(),
            final(world).music_controller@ == old(world).music_controller@,
            (final(world)@, r) == old(world)@.unit_move(unit, action),
    {
        let pos = match world.units.grid_position.get(unit) {
            Ok(pos) => *pos,
            Err(error) => {
                return Err(SystemError::Component(error));
            },
        };
        match action {
            ActionMove::Slide(slide) => {
                match Logic::unit_slide(world, unit, slide) {
                    Ok(_) => {},
                    Err(error) => {
                        return Err(error);
                    },
                }
            },
            ActionMove::Teleport(_) => {},
        }
        let stayed = match world.units.grid_position.get(unit) {
            Ok(now) => now.x == pos.x && now.y == pos.y,
            Err(_) => false,
        };
        if !stayed {
            // Unit actually moved
            return world.spawn_particles(pos, Color::blue());
        }
        Ok(())
    }

    /// Lets `unit` use the item of one hand. Fails with `NotFound` where the unit holds
    /// no items at all or lacks an attribute that the aim or the effect reads, and as
    /// the item's effect fails.
    pub fn unit_use_item(
        world: &mut World,
        unit: UnitId,
        action: ActionUseItem,
        input: ActionInput,
    ) -> (r: SystemResult<()>)
        requires
            old(world).wf(),
        ensures
            final(world).wf(),
            final(world).music_controller@ == old(world).music_controller@,
            (final(world)@, r) == old(world)@.unit_use_item(unit, action, input),
    {
        let on_use = {
            let items = match world.units.held_items.get(unit) {
                Ok(items) => items,
                Err(error) => {
                    return Err(SystemError::Component(error));
                },
            };
            match items.get_item(action.item) {
                None => {
                    return Ok(());
                },
                Some(item) => ActionEffect {
                    aim: item.on_use.aim,
                    effect: item.on_use.effect.duplicate(),
                },
            }
        };
        let (effect, context) = match on_use.into_effect(world, unit, input) {
            Ok(pair) => pair,
            Err(error) => {
                return Err(error);
            },
        };
        effect.apply(world, context)
    }

    /// Lets `unit` carry out `action`, aimed at `input`.
    pub fn unit_action(world: &mut World, unit: UnitId, action: Action, input: ActionInput) -> (r:
        SystemResult<()>)
        requires
            old(world).wf(),
            action.supported(),
        ensures
            final(world).wf(),
            final(world).music_controller@ == old(world).music_controller@,
            (final(world)@, r) == old(world)@.unit_action(unit, action, input),
    {
        match action {
            Action::Move(action) => Logic::unit_move(world, unit, action),
            Action::UseItem(action) => Logic::unit_use_item(world, unit, action, input),
        }
    }

    /// Lets every unit's schedule count one more beat of the player.
    pub fn sync_units(world: &mut World)
        requires
            old(world).wf(),
        ensures
            final(world).wf(),
            final(world).music_controller@ == old(world).music_controller@,
            final(world)@ == old(world)@.sync_units(),
    {
        let ids = world.units.unit.ids();
        let mut i: usize = 0;
        while i < ids.len()
            invariant
                i <= ids@.len(),
                world.wf(),
                world.music_controller@ == old(world).music_controller@,
                world@.sync_from(ids@, i as int) == old(world)@.sync_from(ids@, 0),
            decreases ids@.len() - i,
        {
            let id = ids[i];
            let synced = match world.units.unit.get(id) {
                Ok(ai) => {
                    let (beat, due) = ai.beat.player_beat();
                    Some(
                        UnitAI {
                            beat,
                            next_beat: if due {
                                Time::zero()
                            } else {
                                ai.next_beat
                            },
                            behaviour: ai.behaviour.duplicate(),
                        },
                    )
                },
                Err(_) => None,
            };
            match synced {
                Some(ai) => {
                    let _ = world.units.unit.update(id, ai);
                },
                None => {},
            }
            i += 1;
        }
    }

    /// The player acts: the time since the player's beat starts anew, the tempo takes
    /// the beat in, the music skips the ticks that the tempo tells it to, the player's
    /// unit carries out the action, and the units' schedules count the beat. Returns the
    /// notes to play and the outcome of the action.
    pub fn player_action(
        &mut self,
        world: &mut World,
        action: PlayerAction,
        input: ActionInput,
    ) -> (r: (Vec<NoteCommand>, SystemResult<()>))
        requires
            old(world).wf(),
            action.supported(),
        ensures
            final(world).wf(),
            *final(self) == *old(self),
            (final(world)@, r.1) == old(world)@.player_action(action, input),
            advanced(
                old(world).music_controller@,
                final(world).music_controller@,
                r.0@,
                old(world)@.beat.player_beat().1 as int,
            ),
    {
        world.player_beat_time = Time::zero();
        let ticks = world.beat_controller.player_beat();
        let notes = world.music_controller.advance(ticks);

        let unit = world.player.unit;
        match Logic::unit_action(world, unit, action, input) {
            Ok(_) => {},
            Err(error) => {
                return (notes, Err(error));
            },
        }

        // Synchronize units
        Logic::sync_units(world);
        (notes, Ok(()))
    }

    /// Applies the effects that wait, in their order, until none is left. Fails as the
    /// first effect that fails; the effects after it are applied all the same.
    pub fn process_effects(&mut self, world: &mut World) -> (r: SystemResult<()>)
        requires
            old(world).wf(),
        ensures
            final(world).wf(),
            final(world).music_controller@ == old(world).music_controller@,
            final(self).delta_time == old(self).delta_time,
            final(self).queued_effects@.len() == 0,
            (final(world)@, r) == old(world)@.process_effects(old(self).queued_effects@),
    {
        self.drain(world, Ok(()))
    }

    /// Applies the effects that wait, as `process_effects` does, after a part of the step
    /// that ended in `outcome`.
    fn drain(&mut self, world: &mut World, before: SystemResult<()>) -> (r: SystemResult<()>)
        requires
            old(world).wf(),
        ensures
            final(world).wf(),
            final(world).music_controller@ == old(world).music_controller@,
            final(self).delta_time == old(self).delta_time,
            final(self).queued_effects@.len() == 0,
            (final(world)@, r) == old(world)@.drain_from(old(self).queued_effects@, 0, before),
    {
        let mut outcome = before;
        let ghost queue = self.queued_effects@;
        let ghost mut done: int = 0;
        loop
            invariant_except_break
                0 <= done <= queue.len(),
                self.queued_effects@ == queue.subrange(done, queue.len() as int),
                world@.drain_from(queue, done, outcome) == old(world)@.drain_from(
                    queue,
                    0,
                    before,
                ),
            invariant
                world.wf(),
                world.music_controller@ == old(world).music_controller@,
                self.delta_time == old(self).delta_time,
            ensures
                self.queued_effects@.len() == 0,
                (world@, outcome) == old(world)@.drain_from(queue, 0, before),
            decreases queue.len() - done,
        {
            match self.queued_effects.pop_front() {
                None => {
                    break ;
                },
                Some(queued) => {
                    assert(queued == queue[done]);
                    let applied = queued.effect.apply(world, queued.context);
                    if outcome.is_ok() {
                        outcome = applied;
                    }
                    proof {
                        assert(self.queued_effects@ =~= queue.subrange(
                            done + 1,
                            queue.len() as int,
                        ));
                        done = done + 1;
                    }
                },
            }
        }
        outcome
    }

    /// One pass over everything in the world. No effect is left waiting when it ends.
    /// Fails as the first unit or effect that fails.
    pub fn process(&mut self, world: &mut World) -> (r: SystemResult<()>)
        requires
            old(world).wf(),
        ensures
            final(world).wf(),
            final(world).music_controller@ == old(world).music_controller@,
            final(self).delta_time == old(self).delta_time,
            final(self).queued_effects@.len() == 0,
            (final(world)@, r) == old(world)@.process(
                old(self).delta_time,
                old(self).queued_effects@,
            ),
    {
        let _ = self.process_projectiles_move(world);
        let _ = self.process_projectiles_collide(world);

        let _ = self.process_units_pos(world);
        let outcome = self.process_units_ai(world);
        if outcome.is_ok() {
            self.process_particles(world);
        }
        self.drain(world, outcome)
    }
}

/// What `sync_from` makes of the world, unit by unit.
pub proof fn lemma_sync_from(w: WorldView, ids: Seq<Id>, from: int)
    requires
        0 <= from <= ids.len(),
        ascending(ids),
    ensures
        ({
            let r = w.sync_from(ids, from);
            &&& r == (WorldView { units: EntitiesView { unit: r.units.unit, ..w.units }, ..w })
            &&& r.units.unit.dom() == w.units.unit.dom()
            &&& forall|id: Id| #[trigger]
                w.units.unit.contains_key(id) ==> r.units.unit[id] == if listed_from(ids, from, id) {
                    w.units.unit[id].spec_player_beat()
                } else {
                    w.units.unit[id]
                }
        }),
    decreases ids.len() - from,
{
    if from < ids.len() {
        let first = ids[from];
        let w1 = w.sync_unit(first);
        lemma_sync_from(w1, ids, from + 1);
        assert(w1.units.unit.dom() =~= w.units.unit.dom());
        assert(!listed_from(ids, from + 1, first)) by {
            if listed_from(ids, from + 1, first) {
                let k = choose|k: int| from + 1 <= k < ids.len() && ids[k] == first;
                assert(ids[from].0 < ids[k].0);
            }
        }
        assert forall|id: Id| listed_from(ids, from, id) <==> (id == first || listed_from(
            ids,
            from + 1,
            id,
        )) by {
            if id == first {
                assert(from <= from < ids.len() && ids[from] == id);
            }
            if listed_from(ids, from + 1, id) {
                let k = choose|k: int| from + 1 <= k < ids.len() && ids[k] == id;
                assert(from <= k < ids.len() && ids[k] == id);
            }
            if listed_from(ids, from, id) && id != first {
                let k = choose|k: int| from <= k < ids.len() && ids[k] == id;
                assert(from + 1 <= k < ids.len() && ids[k] == id);
            }
        }
    } else {
        assert forall|id: Id| !listed_from(ids, from, id) by {}
    }
}

/// A beat of the player is counted once by the schedule of every unit that acts on its
/// own, and changes nothing else.
pub proof fn law_units_synced(w: WorldView)
    ensures
        ({
            let r = w.sync_units();
            &&& r == (WorldView { units: EntitiesView { unit: r.units.unit, ..w.units }, ..w })
            &&& r.units.unit.dom() == w.units.unit.dom()
            &&& forall|id: Id| #[trigger]
                w.units.unit.contains_key(id) ==> r.units.unit[id]
                    == w.units.unit[id].spec_player_beat()
        }),
{
    let dom = w.units.unit.dom();
    let ids = ids_of(dom);
    lemma_ids_of(dom);
    lemma_sync_from(w, ids, 0);
    assert forall|id: Id| w.units.unit.contains_key(id) implies listed_from(ids, 0, id) by {
        assert(ids.contains(id));
        let k = choose|k: int| 0 <= k < ids.len() && ids[k] == id;
        assert(0 <= k < ids.len() && ids[k] == id);
    }
}

/// The setting of a melee strike: the player's unit stands on a cell, the defender is
/// the unit that stands on a cell one king move away and has a health whose hit points
/// do not exceed their maximum; the hand holds a sword for one hit point, and the player
/// uses it on the defender's cell.
pub open spec fn melee_setting(
    w: WorldView,
    defender: UnitId,
    cell: IVec2,
    hand: ItemId,
) -> bool {
    let attacker = w.player.unit;
    &&& w.units.grid_position.contains_key(attacker)
    &&& spec_king_distance(cell.spec_sub(w.units.grid_position[attacker])) == 1
    &&& w.get_unit_at(cell) == Ok::<UnitId, crate::context::ContextError>(defender)
    &&& w.units.ids.contains_key(defender)
    &&& w.units.grid_position.contains_key(defender)
    &&& w.units.grid_position[defender] == cell
    &&& w.units.health.contains_key(defender)
    &&& w.units.health[defender].hp().raw <= w.units.health[defender].max_hp().raw
    &&& w.units.held_items.contains_key(attacker)
    &&& w.units.held_items[attacker].spec_get_item(hand) == Some(
        Item::spec_sword(Fixed { raw: SCALE }),
    )
}

/// The world after the strike of a melee setting and the outcome, but for the music.
pub open spec fn melee_strike(w: WorldView, cell: IVec2, hand: ItemId) -> (
    WorldView,
    SystemResult<()>,
) {
    w.player_action(
        Action::UseItem(ActionUseItem { item: hand }),
        ActionInput { target: EffectTarget::Position(cell) },
    )
}

/// What a melee strike is aimed at and does, before the units count the player's beat.
proof fn lemma_melee_use(w: WorldView, defender: UnitId, cell: IVec2, hand: ItemId)
    requires
        melee_setting(w, defender, cell, hand),
    ensures
        w.unit_use_item(
            w.player.unit,
            ActionUseItem { item: hand },
            ActionInput { target: EffectTarget::Position(cell) },
        ) == w.unit_damage(defender, Fixed { raw: SCALE }),
{
    let attacker = w.player.unit;
    let from = w.units.grid_position[attacker];
    let delta = cell.spec_sub(from);
    assert(-1 <= delta.x <= 1 && -1 <= delta.y <= 1);
    assert(spec_pull_in(delta, 1) == delta) by {
        let wide = delta.spec_to_fixed();
        assert(wide.x.raw == delta.x * 1_000_000);
        assert(wide.y.raw == delta.y * 1_000_000);
        assert(wide.x.spec_round_int() == delta.x);
        assert(wide.y.spec_round_int() == delta.y);
    }
    assert(from.spec_add(delta) == cell);
    let aim = ActionAim::InRange { distance: 1 };
    let target = EffectTarget::Position(cell);
    assert(aim.spec_adjust(w, attacker, target) == Ok::<EffectTarget, SystemError>(target));
    assert(aim.spec_check(w, attacker, target) == Ok::<bool, SystemError>(true));
    assert(aim.spec_assist(w, attacker, target) == Ok::<Option<EffectTarget>, SystemError>(
        Some(target),
    ));
    let damage = EffectDamage { value: Fixed { raw: SCALE } };
    let context = EffectContext { caster: Some(Caster { unit: attacker }), target: Some(target) };
    assert(damage.spec_apply(w, context) == w.unit_damage(
        defender,
        Fixed { raw: SCALE },
    ));
    assert(Effect::Damage(Box::new(damage)).spec_apply(w, context) == damage.spec_apply(
        w,
        context,
    ));
}

/// Melee resolution, the defender survives: a strike with a sword for one hit point
/// on the cell of a defender with more than one hit point succeeds and takes exactly one
/// hit point from the defender. The defender stays in the world, with its maximum and on
/// its cell; no unit moves, no unit comes or goes, and no other unit's health changes.
pub proof fn law_melee_hit(w: WorldView, defender: UnitId, cell: IVec2, hand: ItemId)
    requires
        melee_setting(w, defender, cell, hand),
        w.units.health[defender].hp().raw > SCALE,
    ensures
        ({
            let (r, outcome) = melee_strike(w, cell, hand);
            &&& outcome == Ok::<(), SystemError>(())
            &&& r.units.ids == w.units.ids
            &&& r.units.grid_position == w.units.grid_position
            &&& r.units.health.dom() == w.units.health.dom()
            &&& r.units.health[defender].hp().raw == w.units.health[defender].hp().raw
                - SCALE
            &&& r.units.health[defender].max_hp() == w.units.health[defender].max_hp()
            &&& forall|other: Id|
                other != defender && #[trigger] w.units.health.contains_key(other)
                    ==> r.units.health[other] == w.units.health[other]
        }),
{
    let start = WorldView {
        player_beat_time: Fixed { raw: 0 },
        beat: w.beat.player_beat().0,
        ..w
    };
    assert(melee_setting(start, defender, cell, hand));
    lemma_melee_use(start, defender, cell, hand);
    let health = w.units.health[defender];
    Health::lemma_of(
        health.hp().spec_add(Fixed { raw: SCALE }.spec_neg()).spec_clamp(
            Fixed { raw: 0 },
            health.max_hp(),
        ),
        health.max_hp(),
    );
    let (struck, outcome) = start.unit_damage(defender, Fixed { raw: SCALE });
    assert(outcome == Ok::<(), SystemError>(()));
    law_units_synced(struck);
    assert(struck.units.health.dom() =~= w.units.health.dom());
}

/// Melee resolution, the defender falls: a strike with a sword for one hit point on
/// the cell of a defender with no more than one hit point succeeds and removes the
/// defender from every store. No other unit comes or goes, and no other unit's health
/// changes.
pub proof fn law_melee_kill(w: WorldView, defender: UnitId, cell: IVec2, hand: ItemId)
    requires
        melee_setting(w, defender, cell, hand),
        w.units.health[defender].hp().raw <= SCALE,
    ensures
        ({
            let (r, outcome) = melee_strike(w, cell, hand);
            &&& outcome == Ok::<(), SystemError>(())
            &&& r.units.absent(defender)
            &&& r.units.ids == w.units.ids.remove(defender)
            &&& r.units.grid_position == w.units.grid_position.remove(defender)
            &&& r.units.health == w.units.health.remove(defender)
        }),
{
    let start = WorldView {
        player_beat_time: Fixed { raw: 0 },
        beat: w.beat.player_beat().0,
        ..w
    };
    assert(melee_setting(start, defender, cell, hand));
    lemma_melee_use(start, defender, cell, hand);
    let health = w.units.health[defender];
    Health::lemma_of(
        health.hp().spec_add(Fixed { raw: SCALE }.spec_neg()).spec_clamp(
            Fixed { raw: 0 },
            health.max_hp(),
        ),
        health.max_hp(),
    );
    let (struck, outcome) = start.unit_damage(defender, Fixed { raw: SCALE });
    assert(outcome == Ok::<(), SystemError>(()));
    law_units_synced(struck);
}

} // verus!
