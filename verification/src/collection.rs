use vstd::prelude::*;
use crate::component::{
    inserted, looked_up, removed, ComponentError, ComponentName, ComponentResult,
    ComponentStorage,
};
use crate::id::{Id, IdGenerator};

verus! {

/// What a [`Collection`] holds.
pub struct CollectionView<T> {
    /// The number of the id that the next item gets.
    pub next_id: u64,
    /// The item of each id.
    pub items: Map<Id, T>,
}

/// Items that get their ids from the collection itself, in increasing order.
pub struct Collection<T> {
    id_gen: IdGenerator,
    inner: ComponentStorage<T>,
}

impl<T> CollectionView<T> {
    /// The ids in use are below the one that comes next, so that the next one is free;
    /// when the ids are used up, the last id may be in use.
    pub open spec fn wf(self) -> bool {
        forall|id: Id| #[trigger]
            self.items.contains_key(id) ==> id.0 < self.next_id || self.next_id == u64::MAX
    }

    /// An insertion keeps the ids in order, and succeeds as long as the ids are not used
    /// up.
    pub proof fn lemma_insert(self, name: ComponentName, value: T)
        requires
            self.wf(),
        ensures
            self.insert(name, value).0.wf(),
            self.next_id < u64::MAX ==> self.insert(name, value).1 == Ok::<
                Id,
                ComponentError,
            >(self.upcoming()) && self.insert(name, value).0.items == self.items.insert(
                self.upcoming(),
                value,
            ),
    {
    }

    /// The id that the next item gets.
    pub open spec fn upcoming(self) -> Id {
        Id(self.next_id)
    }

    /// The view after `value` is inserted, and the outcome: the new id, or
    /// `AlreadyExists` where the ids are used up and the last one is taken.
    pub open spec fn insert(self, name: ComponentName, value: T) -> (
        CollectionView<T>,
        ComponentResult<Id>,
    ) {
        let id = self.upcoming();
        let next_id = crate::id::following(self.next_id);
        let (items, outcome) = inserted(self.items, name, id, value);
        (
            CollectionView { next_id, items },
            match outcome {
                Ok(_) => Ok(id),
                Err(error) => Err(error),
            },
        )
    }

    /// The view after the item of `id` is removed.
    pub open spec fn remove(self, id: Id) -> CollectionView<T> {
        CollectionView { items: removed(self.items, id), ..self }
    }

    /// The view after the item of `id` is replaced by `value`, if there is one.
    pub open spec fn set(self, id: Id, value: T) -> CollectionView<T> {
        if self.items.contains_key(id) {
            CollectionView { items: self.items.insert(id, value), ..self }
        } else {
            self
        }
    }
}

impl<T> View for Collection<T> {
    type V = CollectionView<T>;

    closed spec fn view(&self) -> CollectionView<T> {
        CollectionView { next_id: self.id_gen.upcoming(), items: self.inner@ }
    }
}

impl<T> Collection<T> {
    /// The name under which missing and duplicate items are reported.
    pub closed spec fn name(&self) -> ComponentName {
        self.inner.name()
    }

    /// The ids of the items, in increasing order.
    pub open spec fn spec_ids(&self) -> Seq<Id> {
        crate::component::ids_of(self@.items.dom())
    }

    pub fn new(name: ComponentName) -> (r: Self)
        ensures
            r@ == (CollectionView { next_id: 0, items: Map::<Id, T>::empty() }),
            r@.wf(),
            r.name() == name,
    {
        Self { id_gen: IdGenerator::new(), inner: ComponentStorage::new(name) }
    }

    /// The ids of the items, in increasing order.
    pub fn ids(&self) -> (r: Vec<Id>)
        ensures
            r@ == self.spec_ids(),
            crate::component::lists(r@, self@.items.dom()),
    {
        self.inner.ids()
    }

    /// Adds an item under a new id, which is returned.
    pub fn insert(&mut self, value: T) -> (r: ComponentResult<Id>)
        ensures
            final(self).name() == old(self).name(),
            (final(self)@, r) == old(self)@.insert(old(self).name(), value),
            old(self)@.wf() ==> final(self)@.wf(),
            old(self)@.wf() && old(self)@.next_id < u64::MAX ==> r is Ok,
    {
        proof {
            if old(self)@.wf() {
                old(self)@.lemma_insert(old(self).name(), value);
            }
        }
        let id = self.id_gen.next();
        match self.inner.insert(id, value) {
            Ok(_) => Ok(id),
            Err(error) => Err(error),
        }
    }

    pub fn contains(&self, id: Id) -> (r: bool)
        ensures
            r == self@.items.contains_key(id),
    {
        self.inner.contains(id)
    }

    pub fn get(&self, id: Id) -> (r: ComponentResult<&T>)
        ensures
            match r {
                Ok(value) => looked_up(self@.items, self.name(), id) == Ok::<T, ComponentError>(
                    *value,
                ),
                Err(error) => looked_up(self@.items, self.name(), id) == Err::<
                    T,
                    ComponentError,
                >(error),
            },
    {
        self.inner.get(id)
    }

    /// Replaces the item of `id`. Fails with `NotFound` if there is none.
    pub fn update(&mut self, id: Id, value: T) -> (r: ComponentResult<()>)
        ensures
            final(self).name() == old(self).name(),
            final(self)@ == old(self)@.set(id, value),
            old(self)@.wf() ==> final(self)@.wf(),
            r is Ok <==> old(self)@.items.contains_key(id),
            r is Err ==> r == Err::<(), ComponentError>(
                ComponentError::NotFound { id, component: old(self).name() },
            ),
    {
        self.inner.update(id, value)
    }

    /// Whether there is no item.
    pub fn is_empty(&self) -> (r: bool)
        ensures
            r == (self.spec_ids().len() == 0),
    {
        self.inner.len() == 0
    }

    /// Takes the item of `id` out. Fails with `NotFound` if there is none.
    pub fn remove(&mut self, id: Id) -> (r: ComponentResult<T>)
        ensures
            final(self).name() == old(self).name(),
            r == looked_up(old(self)@.items, old(self).name(), id),
            final(self)@ == old(self)@.remove(id),
            old(self)@.wf() ==> final(self)@.wf(),
    {
        self.inner.remove(id)
    }
}

impl<T> Default for Collection<T> {
    /// An empty collection, which reports its items under the name `Item`.
    fn default() -> (r: Self)
        ensures
            r@ == (CollectionView { next_id: 0, items: Map::<Id, T>::empty() }),
            r@.wf(),
            r.name() == "Item",
    {
        Self::new("Item")
    }
}

} // verus!
