use vstd::prelude::*;
use crate::component::{inserted, removed, ComponentName, ComponentResult, ComponentStorage};
use crate::health::Health;
use crate::id::{following, Id, IdGenerator};
use crate::item::HeldItems;
use crate::unit::{Unit, UnitAI};
use crate::vec2::{FVec2, IVec2};
use crate::world::Fraction;

verus! {

pub type EntityId = Id;

pub const NAME_ID: ComponentName = "Id";

pub const NAME_UNIT: ComponentName = "Unit";

pub const NAME_FRACTION: ComponentName = "Fraction";

pub const NAME_GRID_POSITION: ComponentName = "GridPosition";

pub const NAME_WORLD_POSITION: ComponentName = "WorldPosition";

pub const NAME_HEALTH: ComponentName = "Health";

pub const NAME_HELD_ITEMS: ComponentName = "HeldItems";

pub const NAME_PROJECTILE: ComponentName = "Projectile";

/// The units: one store for each attribute, and the store of the ids that exist.
pub struct Entities {
    pub id_gen: IdGenerator,
    /// The units that exist.
    pub ids: ComponentStorage<()>,
    pub unit: ComponentStorage<UnitAI>,
    pub fraction: ComponentStorage<Fraction>,
    pub grid_position: ComponentStorage<IVec2>,
    pub world_position: ComponentStorage<FVec2>,
    pub health: ComponentStorage<Health>,
    pub held_items: ComponentStorage<HeldItems>,
}

/// What the [`Entities`] hold.
pub struct EntitiesView {
    /// The number of the id that the next unit gets.
    pub next_id: u64,
    pub ids: Map<Id, ()>,
    pub unit: Map<Id, UnitAI>,
    pub fraction: Map<Id, Fraction>,
    pub grid_position: Map<Id, IVec2>,
    pub world_position: Map<Id, FVec2>,
    pub health: Map<Id, Health>,
    pub held_items: Map<Id, HeldItems>,
}

impl EntitiesView {
    /// The ids that exist are below the one that comes next, so that the next one is
    /// free; when the ids are used up, the last id may exist.
    pub open spec fn ids_in_order(self) -> bool {
        forall|id: Id| #[trigger]
            self.ids.contains_key(id) ==> id.0 < self.next_id || self.next_id == u64::MAX
    }

    /// Spawning keeps the ids in order, and succeeds as long as the ids are not used up.
    pub proof fn lemma_spawn(self)
        requires
            self.ids_in_order(),
        ensures
            self.spawn().0.ids_in_order(),
            self.next_id < u64::MAX ==> self.spawn().1 == Ok::<
                EntityId,
                crate::component::ComponentError,
            >(Id(self.next_id)),
    {
    }

    pub open spec fn empty() -> EntitiesView {
        EntitiesView {
            next_id: 0,
            ids: Map::empty(),
            unit: Map::empty(),
            fraction: Map::empty(),
            grid_position: Map::empty(),
            world_position: Map::empty(),
            health: Map::empty(),
            held_items: Map::empty(),
        }
    }

    /// The unit exists.
    pub open spec fn alive(self, id: Id) -> bool {
        self.ids.contains_key(id)
    }

    /// No store holds anything for the id.
    pub open spec fn absent(self, id: Id) -> bool {
        &&& !self.ids.contains_key(id)
        &&& !self.unit.contains_key(id)
        &&& !self.fraction.contains_key(id)
        &&& !self.grid_position.contains_key(id)
        &&& !self.world_position.contains_key(id)
        &&& !self.health.contains_key(id)
        &&& !self.held_items.contains_key(id)
    }

    /// The view after a new id is made to exist, and the outcome: the id, or
    /// `AlreadyExists` where the ids are used up.
    pub open spec fn spawn(self) -> (EntitiesView, ComponentResult<EntityId>) {
        let id = Id(self.next_id);
        let (ids, outcome) = inserted(self.ids, NAME_ID, id, ());
        (
            EntitiesView { next_id: following(self.next_id), ids, ..self },
            match outcome {
                Ok(_) => Ok(id),
                Err(error) => Err(error),
            },
        )
    }

    /// The view after every store has dropped what it held for the id.
    pub open spec fn remove(self, id: EntityId) -> EntitiesView {
        EntitiesView {
            next_id: self.next_id,
            ids: removed(self.ids, id),
            unit: removed(self.unit, id),
            fraction: removed(self.fraction, id),
            grid_position: removed(self.grid_position, id),
            world_position: removed(self.world_position, id),
            health: removed(self.health, id),
            held_items: removed(self.held_items, id),
        }
    }

    /// The view after `id` has been given the attributes of `unit`; each attribute that
    /// the id already holds stays as it is.
    pub open spec fn dress(self, id: EntityId, unit: Unit) -> EntitiesView {
        EntitiesView {
            next_id: self.next_id,
            ids: self.ids,
            unit: match unit.unit {
                Some(ai) => inserted(self.unit, NAME_UNIT, id, ai).0,
                None => self.unit,
            },
            fraction: inserted(self.fraction, NAME_FRACTION, id, unit.fraction).0,
            grid_position: inserted(self.grid_position, NAME_GRID_POSITION, id, unit.grid_position).0,
            world_position: inserted(
                self.world_position,
                NAME_WORLD_POSITION,
                id,
                unit.world_position,
            ).0,
            health: inserted(self.health, NAME_HEALTH, id, unit.health).0,
            held_items: inserted(self.held_items, NAME_HELD_ITEMS, id, unit.held_items).0,
        }
    }

    /// The view after a new unit is added, and the outcome: its id, or `AlreadyExists`
    /// where the ids are used up, in which case nothing is added.
    pub open spec fn insert(self, unit: Unit) -> (EntitiesView, ComponentResult<EntityId>) {
        let (spawned, outcome) = self.spawn();
        match outcome {
            Ok(id) => (spawned.dress(id, unit), Ok(id)),
            Err(error) => (spawned, Err(error)),
        }
    }
}

impl View for Entities {
    type V = EntitiesView;

    open spec fn view(&self) -> EntitiesView {
        EntitiesView {
            next_id: self.id_gen.upcoming(),
            ids: self.ids@,
            unit: self.unit@,
            fraction: self.fraction@,
            grid_position: self.grid_position@,
            world_position: self.world_position@,
            health: self.health@,
            held_items: self.held_items@,
        }
    }
}

impl Entities {
    /// Each store reports errors under the name of its attribute, and the id that the
    /// next unit gets is free.
    pub open spec fn wf(&self) -> bool {
        &&& self@.ids_in_order()
        &&& self.ids.name() == NAME_ID
        &&& self.unit.name() == NAME_UNIT
        &&& self.fraction.name() == NAME_FRACTION
        &&& self.grid_position.name() == NAME_GRID_POSITION
        &&& self.world_position.name() == NAME_WORLD_POSITION
        &&& self.health.name() == NAME_HEALTH
        &&& self.held_items.name() == NAME_HELD_ITEMS
    }

    pub fn new() -> (r: Self)
        ensures
            r@ == EntitiesView::empty(),
            r.wf(),
    {
        Self {
            id_gen: IdGenerator::new(),
            ids: ComponentStorage::new(NAME_ID),
            grid_position: ComponentStorage::new(NAME_GRID_POSITION),
            world_position: ComponentStorage::new(NAME_WORLD_POSITION),
            health: ComponentStorage::new(NAME_HEALTH),
            unit: ComponentStorage::new(NAME_UNIT),
            fraction: ComponentStorage::new(NAME_FRACTION),
            held_items: ComponentStorage::new(NAME_HELD_ITEMS),
        }
    }

    /// The store of the ids that exist.
    pub fn ids(&self) -> (r: &ComponentStorage<()>)
        ensures
            *r == self.ids,
    {
        &self.ids
    }

    /// Makes a new id exist. It holds no attribute yet.
    pub fn spawn(&mut self) -> (r: ComponentResult<EntityId>)
        requires
            old(self).wf(),
        ensures
            final(self).wf(),
            (final(self)@, r) == old(self)@.spawn(),
    {
        let id = self.id_gen.next();
        match self.ids.insert(id, ()) {
            Ok(_) => Ok(id),
            Err(error) => Err(error),
        }
    }

    /// Adds a unit with all its attributes, under a new id.
    pub fn insert(&mut self, unit: Unit) -> (r: ComponentResult<EntityId>)
        requires
            old(self).wf(),
        ensures
            final(self).wf(),
            (final(self)@, r) == old(self)@.insert(unit),
    {
        let id = match self.spawn() {
            Ok(id) => id,
            Err(error) => {
                return Err(error);
            },
        };
        match unit.unit {
            Some(ai) => {
                let _ = self.unit.insert(id, ai);
            },
            None => {},
        }
        let _ = self.fraction.insert(id, unit.fraction);
        let _ = self.grid_position.insert(id, unit.grid_position);
        let _ = self.world_position.insert(id, unit.world_position);
        let _ = self.health.insert(id, unit.health);
        let _ = self.held_items.insert(id, unit.held_items);
        Ok(id)
    }

    /// Removes the unit from every store. Returns whether it existed.
    pub fn remove(&mut self, id: EntityId) -> (r: bool)
        requires
            old(self).wf(),
        ensures
            final(self).wf(),
            final(self)@ == old(self)@.remove(id),
            r == old(self)@.alive(id),
            final(self)@.absent(id),
    {
        let _ = self.grid_position.remove(id);
        let _ = self.world_position.remove(id);
        let _ = self.health.remove(id);
        let _ = self.unit.remove(id);
        let _ = self.fraction.remove(id);
        let _ = self.held_items.remove(id);
        let existed = self.ids.remove(id).is_ok();
        assert(self@.ids_in_order()) by {
            assert forall|other: Id| #[trigger] self@.ids.contains_key(other) implies other.0
                < self@.next_id || self@.next_id == u64::MAX by {
                assert(old(self)@.ids.contains_key(other));
            }
        }
        existed
    }
}

impl Default for Entities {
    fn default() -> (r: Self)
        ensures
            r@ == EntitiesView::empty(),
            r.wf(),
    {
        Self::new()
    }
}

} // verus!
