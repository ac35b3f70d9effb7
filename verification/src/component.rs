use vstd::prelude::*;
use std::collections::hash_map::Entry;
use std::collections::HashMap;
use vstd::std_specs::iter::IteratorSpec;
use vstd::string::*;
use crate::id::Id;
use crate::text::{append_decimal, decimal};

verus! {

/// The name of an attribute, as it is reported in errors.
pub type ComponentName = &'static str;

pub type ComponentResult<T> = Result<T, ComponentError>;

#[derive(Debug, Clone, Copy, PartialEq, Eq)]
pub enum ComponentError {
    /// The id holds no value of the attribute.
    NotFound { id: Id, component: ComponentName },
    /// The id already holds a value of the attribute.
    AlreadyExists { id: Id, component: ComponentName },
}

impl ComponentError {
    /// The error in words.
    pub open spec fn spec_message(&self) -> Seq<char> {
        match self {
            ComponentError::NotFound { id, component } => "component "@ + component@
                + " not found for Id("@ + decimal(id.0 as nat) + ")"@,
            ComponentError::AlreadyExists { id, component } => "component "@ + component@
                + " already exists for Id("@ + decimal(id.0 as nat) + ")"@,
        }
    }

    /// The error in words.
    pub fn message(&self) -> (r: String)
        ensures
            r@ == self.spec_message(),
    {
        let mut text = String::from_str("component ");
        match self {
            ComponentError::NotFound { id, component } => {
                text.append(component);
                text.append(" not found for Id(");
                append_decimal(&mut text, id.0);
            },
            ComponentError::AlreadyExists { id, component } => {
                text.append(component);
                text.append(" already exists for Id(");
                append_decimal(&mut text, id.0);
            },
        }
        text.append(")");
        text
    }
}

/// Ids in strictly increasing order.
pub open spec fn ascending(s: Seq<Id>) -> bool {
    forall|i: int, j: int| 0 <= i < j < s.len() ==> s[i].0 < s[j].0
}

/// `id` stands at one of the places of `ids` from `from` on.
pub open spec fn listed_from(ids: Seq<Id>, from: int, id: Id) -> bool {
    exists|k: int| from <= k < ids.len() && ids[k] == id
}

/// `s` holds exactly the ids of `dom`, in increasing order.
pub open spec fn lists(s: Seq<Id>, dom: Set<Id>) -> bool {
    ascending(s) && forall|id: Id| s.contains(id) <==> dom.contains(id)
}

/// The ids of `dom` in increasing order: the order in which a store is walked.
pub open spec fn ids_of(dom: Set<Id>) -> Seq<Id> {
    choose|s: Seq<Id>| lists(s, dom)
}

/// The ids of `dom` whose number is below `n`, in increasing order.
pub open spec fn ids_below(dom: Set<Id>, n: nat) -> Seq<Id>
    decreases n,
{
    if n == 0 {
        Seq::empty()
    } else {
        let rest = ids_below(dom, (n - 1) as nat);
        if dom.contains(Id((n - 1) as u64)) {
            rest.push(Id((n - 1) as u64))
        } else {
            rest
        }
    }
}

/// `ids_below` is increasing and holds exactly the ids of `dom` below `n`.
pub proof fn lemma_ids_below(dom: Set<Id>, n: nat)
    requires
        n <= 0x1_0000_0000_0000_0000,
    ensures
        ascending(ids_below(dom, n)),
        forall|id: Id|
            #![trigger ids_below(dom, n).contains(id)]
            #![trigger dom.contains(id)]
            ids_below(dom, n).contains(id) <==> dom.contains(id) && id.0 < n,
    decreases n,
{
    if n > 0 {
        let rest = ids_below(dom, (n - 1) as nat);
        lemma_ids_below(dom, (n - 1) as nat);
        let last = Id((n - 1) as u64);
        let all = ids_below(dom, n);
        if dom.contains(last) {
            assert(all == rest.push(last));
            assert forall|id: Id| all.contains(id) <==> dom.contains(id) && id.0 < n by {
                if all.contains(id) {
                    let i = choose|i: int| 0 <= i < all.len() && all[i] == id;
                    if i < rest.len() {
                        assert(rest[i] == id);
                        assert(rest.contains(id));
                    }
                }
                if dom.contains(id) && id.0 < n {
                    if id.0 < n - 1 {
                        assert(rest.contains(id));
                        let i = choose|i: int| 0 <= i < rest.len() && rest[i] == id;
                        assert(all[i] == id);
                    } else {
                        assert(id == last);
                        assert(all[rest.len() as int] == id);
                    }
                }
            }
            assert forall|i: int, j: int| 0 <= i < j < all.len() implies all[i].0 < all[j].0 by {
                if j < rest.len() {
                    assert(all[i] == rest[i] && all[j] == rest[j]);
                } else {
                    assert(all[i] == rest[i]);
                    assert(all[j] == last);
                    assert(rest.contains(rest[i]));
                    assert(dom.contains(rest[i]) && rest[i].0 < n - 1);
                }
            }
        } else {
            assert forall|id: Id| all.contains(id) <==> dom.contains(id) && id.0 < n by {
                if dom.contains(id) && id.0 < n {
                    if id.0 == n - 1 {
                        assert(id == last);
                    }
                }
            }
        }
    } else {
        assert forall|id: Id| !ids_below(dom, n).contains(id) by {
            if ids_below(dom, n).contains(id) {
                let i = choose|i: int| 0 <= i < ids_below(dom, n).len() && ids_below(dom, n)[i] == id;
            }
        }
    }
}

/// Every set of ids has its increasing listing, and `ids_of` is that one.
pub proof fn lemma_ids_of(dom: Set<Id>)
    ensures
        lists(ids_of(dom), dom),
{
    lemma_ids_below(dom, 0x1_0000_0000_0000_0000);
    assert(lists(ids_below(dom, 0x1_0000_0000_0000_0000), dom));
}

/// A set of ids has at most one increasing listing.
pub proof fn lemma_lists_unique(a: Seq<Id>, b: Seq<Id>, dom: Set<Id>)
    requires
        lists(a, dom),
        lists(b, dom),
    ensures
        a == b,
    decreases a.len(),
{
    if a.len() == 0 {
        if b.len() > 0 {
            assert(b.contains(b[0]));
            assert(a.contains(b[0]));
        }
        assert(a =~= b);
    } else {
        let m = a.last();
        assert(a.contains(m));
        assert(b.contains(m));
        let k = choose|k: int| 0 <= k < b.len() && b[k] == m;
        let n = b.last();
        assert(b.contains(n));
        assert(a.contains(n));
        let l = choose|l: int| 0 <= l < a.len() && a[l] == n;
        assert(n.0 <= m.0);
        assert(m.0 <= n.0);
        assert(n == m);
        assert(k == b.len() - 1);
        let a0 = a.drop_last();
        let b0 = b.drop_last();
        let dom0 = dom.remove(m);
        assert forall|id: Id| a0.contains(id) <==> dom0.contains(id) by {
            if a0.contains(id) {
                let i = choose|i: int| 0 <= i < a0.len() && a0[i] == id;
                assert(a[i] == id);
                assert(a.contains(id));
                assert(a[i].0 < m.0);
            }
            if dom0.contains(id) {
                assert(a.contains(id));
                let i = choose|i: int| 0 <= i < a.len() && a[i] == id;
                assert(i < a.len() - 1);
                assert(a0[i] == id);
            }
        }
        assert forall|id: Id| b0.contains(id) <==> dom0.contains(id) by {
            if b0.contains(id) {
                let i = choose|i: int| 0 <= i < b0.len() && b0[i] == id;
                assert(b[i] == id);
                assert(b.contains(id));
                assert(b[i].0 < m.0);
            }
            if dom0.contains(id) {
                assert(b.contains(id));
                let i = choose|i: int| 0 <= i < b.len() && b[i] == id;
                assert(i < b.len() - 1);
                assert(b0[i] == id);
            }
        }
        assert(ascending(a0));
        assert(ascending(b0));
        lemma_lists_unique(a0, b0, dom0);
        assert(a =~= a0.push(m));
        assert(b =~= b0.push(m));
    }
}

/// Puts `x` into the increasing list `out`, which does not hold it yet.
fn insert_ascending(out: &mut Vec<Id>, x: Id)
    requires
        ascending(old(out)@),
        !old(out)@.contains(x),
    ensures
        ascending(final(out)@),
        final(out)@.len() == old(out)@.len() + 1,
        forall|id: Id| final(out)@.contains(id) <==> (old(out)@.contains(id) || id == x),
{
    let mut pos: usize = 0;
    while pos < out.len() && out[pos].0 < x.0
        invariant
            pos <= out.len(),
            *out == *old(out),
            forall|i: int| 0 <= i < pos ==> out@[i].0 < x.0,
        decreases out.len() - pos,
    {
        pos += 1;
    }
    proof {
        if pos < out.len() {
            assert(old(out)@.contains(old(out)@[pos as int]));
            assert(out@[pos as int].0 > x.0);
        }
    }
    out.insert(pos, x);
    proof {
        let before = old(out)@;
        let after = out@;
        assert(after == before.insert(pos as int, x));
        assert forall|id: Id| after.contains(id) <==> (before.contains(id) || id == x) by {
            if after.contains(id) {
                let i = choose|i: int| 0 <= i < after.len() && after[i] == id;
                if i < pos {
                    assert(before[i] == id);
                } else if i > pos {
                    assert(before[i - 1] == id);
                }
            }
            if before.contains(id) {
                let i = choose|i: int| 0 <= i < before.len() && before[i] == id;
                if i < pos {
                    assert(after[i] == id);
                } else {
                    assert(after[i + 1] == id);
                }
            }
            if id == x {
                assert(after[pos as int] == id);
            }
        }
        assert forall|i: int, j: int| 0 <= i < j < after.len() implies after[i].0 < after[j].0 by {
            if j < pos {
                assert(after[i] == before[i] && after[j] == before[j]);
            } else if j == pos {
                assert(after[i] == before[i]);
            } else if i < pos {
                assert(after[i] == before[i] && after[j] == before[j - 1]);
                assert(before[j - 1].0 >= before[pos as int].0);
            } else if i == pos {
                assert(after[j] == before[j - 1]);
                assert(before[j - 1].0 >= before[pos as int].0);
            } else {
                assert(after[i] == before[i - 1] && after[j] == before[j - 1]);
            }
        }
    }
}

/// What a lookup of `id` gives in a store that holds `m` and is named `name`.
pub open spec fn looked_up<T>(m: Map<Id, T>, name: ComponentName, id: Id) -> ComponentResult<T> {
    if m.contains_key(id) {
        Ok(m[id])
    } else {
        Err(ComponentError::NotFound { id, component: name })
    }
}

/// What a store that holds `m` holds after `id` is removed.
pub open spec fn removed<T>(m: Map<Id, T>, id: Id) -> Map<Id, T> {
    m.remove(id)
}

/// What a store that holds `m` holds after an `insert` of `value` at `id`, and the outcome.
pub open spec fn inserted<T>(m: Map<Id, T>, name: ComponentName, id: Id, value: T) -> (
    Map<Id, T>,
    ComponentResult<()>,
) {
    if m.contains_key(id) {
        (m, Err(ComponentError::AlreadyExists { id, component: name }))
    } else {
        (m.insert(id, value), Ok(()))
    }
}

/// What a store that holds `m` holds after an `update` of `id` to `value`, and the outcome.
pub open spec fn updated<T>(m: Map<Id, T>, name: ComponentName, id: Id, value: T) -> (
    Map<Id, T>,
    ComponentResult<()>,
) {
    if m.contains_key(id) {
        (m.insert(id, value), Ok(()))
    } else {
        (m, Err(ComponentError::NotFound { id, component: name }))
    }
}

/// An `insert` at an id that holds a value fails with `AlreadyExists` and changes nothing.
pub proof fn law_insert_occupied<T>(m: Map<Id, T>, name: ComponentName, id: Id, value: T)
    requires
        m.contains_key(id),
    ensures
        inserted(m, name, id, value) == (
            m,
            Err::<(), ComponentError>(ComponentError::AlreadyExists { id, component: name }),
        ),
{
}

/// A lookup or a removal at an id that holds no value fails with `NotFound`, and the
/// removal changes nothing.
pub proof fn law_missing_not_found<T>(m: Map<Id, T>, name: ComponentName, id: Id)
    requires
        !m.contains_key(id),
    ensures
        looked_up(m, name, id) == Err::<T, ComponentError>(
            ComponentError::NotFound { id, component: name },
        ),
        removed(m, id) == m,
{
    assert(m.remove(id) =~= m);
}

/// After a removal, an `insert` at the same id succeeds, and a lookup then gives the
/// inserted value.
pub proof fn law_remove_then_insert<T>(m: Map<Id, T>, name: ComponentName, id: Id, value: T)
    ensures
        inserted(removed(m, id), name, id, value).1 == Ok::<(), ComponentError>(()),
        looked_up(inserted(removed(m, id), name, id, value).0, name, id) == Ok::<
            T,
            ComponentError,
        >(value),
{
}

/// Sparse storage of one attribute, keyed by id. The values are read all at once with
/// `iter`, and changed one id at a time, with `get_mut` or `update`.
pub struct ComponentStorage<T> {
    name: ComponentName,
    inner: HashMap<u64, T>,
}

impl<T> View for ComponentStorage<T> {
    type V = Map<Id, T>;

    /// The value that each id holds.
    closed spec fn view(&self) -> Map<Id, T> {
        Map::new(|id: Id| self.inner@.contains_key(id.0), |id: Id| self.inner@[id.0])
    }
}

impl<T> ComponentStorage<T> {
    /// The attribute's name.
    pub closed spec fn name(&self) -> ComponentName {
        self.name
    }

    /// The ids that hold a value, in increasing order.
    pub open spec fn spec_ids(&self) -> Seq<Id> {
        ids_of(self@.dom())
    }

    pub fn new(name: ComponentName) -> (r: Self)
        ensures
            r@ == Map::<Id, T>::empty(),
            r.name() == name,
    {
        broadcast use vstd::std_specs::hash::group_hash_axioms;

        let r = Self { name, inner: HashMap::new() };
        assert(r@ =~= Map::<Id, T>::empty());
        r
    }

    /// The ids that hold a value, in increasing order.
    pub fn ids(&self) -> (r: Vec<Id>)
        ensures
            r@ == self.spec_ids(),
            lists(r@, self@.dom()),
    {
        broadcast use vstd::std_specs::hash::group_hash_axioms;

        let mut out: Vec<Id> = Vec::new();
        let keys = self.inner.keys();
        let ghost ks = keys.remaining();
        assert(ks.no_duplicates());
        assert(ks.unref().to_set() == self.inner@.dom());
        for k in it: keys
            invariant
                it.seq() == ks,
                ks.no_duplicates(),
                ascending(out@),
                forall|id: Id|
                    out@.contains(id) <==> exists|j: int| 0 <= j < it.index() && *ks[j] == id.0,
        {
            let ghost done = it.index();
            proof {
                if out@.contains(Id(*k)) {
                    let j = choose|j: int| 0 <= j < done && *ks[j] == *k;
                    assert(ks[j] == ks[done as int]);
                }
            }
            let ghost before = out@;
            insert_ascending(&mut out, Id(*k));
            proof {
                assert forall|id: Id|
                    out@.contains(id) <==> exists|j: int| 0 <= j < done + 1 && *ks[j] == id.0 by {
                    if out@.contains(id) {
                        if before.contains(id) {
                            let j = choose|j: int| 0 <= j < done && *ks[j] == id.0;
                            assert(0 <= j < done + 1 && *ks[j] == id.0);
                        } else {
                            assert(*ks[done as int] == id.0);
                        }
                    }
                    if exists|j: int| 0 <= j < done + 1 && *ks[j] == id.0 {
                        let j = choose|j: int| 0 <= j < done + 1 && *ks[j] == id.0;
                        if j < done {
                            assert(before.contains(id));
                        } else {
                            assert(id == Id(*k));
                        }
                    }
                }
            }
        }
        proof {
            let un = ks.unref();
            assert forall|id: Id| out@.contains(id) <==> self@.dom().contains(id) by {
                if out@.contains(id) {
                    let j = choose|j: int| 0 <= j < ks.len() && *ks[j] == id.0;
                    assert(un[j] == id.0);
                    assert(un.contains(id.0));
                    assert(un.to_set().contains(id.0));
                }
                if self@.dom().contains(id) {
                    assert(un.to_set().contains(id.0));
                    assert(un.contains(id.0));
                    let j = choose|j: int| 0 <= j < un.len() && un[j] == id.0;
                    assert(*ks[j] == id.0);
                }
            }
            assert(lists(out@, self@.dom()));
            lemma_lists_unique(out@, self.spec_ids(), self@.dom());
        }
        out
    }

    /// Every id that holds a value, with the value, in the increasing order of the ids.
    pub fn iter(&self) -> (r: Vec<(Id, &T)>)
        ensures
            r@.len() == self.spec_ids().len(),
            forall|i: int|
                0 <= i < r@.len() ==> (#[trigger] r@[i]).0 == self.spec_ids()[i] && *r@[i].1
                    == self@[self.spec_ids()[i]],
    {
        let ids = self.ids();
        let mut out: Vec<(Id, &T)> = Vec::new();
        let mut i: usize = 0;
        while i < ids.len()
            invariant
                i <= ids@.len(),
                ids@ == self.spec_ids(),
                lists(ids@, self@.dom()),
                out@.len() == i,
                forall|k: int|
                    0 <= k < i ==> (#[trigger] out@[k]).0 == ids@[k] && *out@[k].1 == self@[ids@[k]],
            decreases ids@.len() - i,
        {
            let id = ids[i];
            assert(ids@.contains(id));
            match self.get(id) {
                Ok(value) => {
                    out.push((id, value));
                },
                Err(_) => {
                    assert(false);
                },
            }
            i += 1;
        }
        out
    }

    /// The number of ids that hold a value.
    pub fn len(&self) -> (r: usize)
        ensures
            r == self.spec_ids().len(),
    {
        let ids = self.ids();
        ids.len()
    }

    pub fn contains(&self, id: Id) -> (r: bool)
        ensures
            r == self@.contains_key(id),
    {
        broadcast use vstd::std_specs::hash::group_hash_axioms;

        self.inner.contains_key(&id.0)
    }

    /// The value that `id` holds. Fails with `NotFound` if it holds none.
    pub fn get(&self, id: Id) -> (r: ComponentResult<&T>)
        ensures
            match r {
                Ok(value) => looked_up(self@, self.name(), id) == Ok::<T, ComponentError>(*value),
                Err(error) => looked_up(self@, self.name(), id) == Err::<T, ComponentError>(error),
            },
    {
        broadcast use vstd::std_specs::hash::group_hash_axioms;

        match self.inner.get(&id.0) {
            Some(value) => Ok(value),
            None => Err(ComponentError::NotFound { id, component: self.name }),
        }
    }

    /// The value that `id` holds, to be changed in place. Fails with `NotFound` if it
    /// holds none.
    pub fn get_mut(&mut self, id: Id) -> (r: ComponentResult<&mut T>)
        ensures
            final(self).name() == old(self).name(),
            match r {
                Ok(value) => looked_up(old(self)@, old(self).name(), id) == Ok::<
                    T,
                    ComponentError,
                >(*value) && final(self)@ =~= old(self)@.insert(id, *final(value)),
                Err(error) => looked_up(old(self)@, old(self).name(), id) == Err::<
                    T,
                    ComponentError,
                >(error) && final(self)@ =~= old(self)@,
            },
    {
        broadcast use vstd::std_specs::hash::group_hash_axioms;

        let name = self.name;
        match self.inner.entry(id.0) {
            Entry::Occupied(entry) => {
                Ok(entry.into_mut())
            },
            Entry::Vacant(_) => Err(ComponentError::NotFound { id, component: name }),
        }
    }

    /// Takes the value of `id` out. Fails with `NotFound` if it holds none.
    pub fn remove(&mut self, id: Id) -> (r: ComponentResult<T>)
        ensures
            final(self).name() == old(self).name(),
            r == looked_up(old(self)@, old(self).name(), id),
            final(self)@ == removed(old(self)@, id),
    {
        broadcast use vstd::std_specs::hash::group_hash_axioms;

        match self.inner.remove(&id.0) {
            Some(value) => {
                assert(self@ =~= old(self)@.remove(id));
                Ok(value)
            },
            None => {
                assert(self@ =~= old(self)@.remove(id));
                Err(ComponentError::NotFound { id, component: self.name })
            },
        }
    }

    /// Replaces the value of `id`. Fails with `NotFound` if it holds none.
    pub fn update(&mut self, id: Id, value: T) -> (r: ComponentResult<()>)
        ensures
            final(self).name() == old(self).name(),
            (final(self)@, r) == updated(old(self)@, old(self).name(), id, value),
    {
        broadcast use vstd::std_specs::hash::group_hash_axioms;

        if self.inner.contains_key(&id.0) {
            self.inner.insert(id.0, value);
            assert(self@ =~= old(self)@.insert(id, value));
            Ok(())
        } else {
            Err(ComponentError::NotFound { id, component: self.name })
        }
    }

    /// Gives `id` its first value. Fails with `AlreadyExists` if it holds one.
    pub fn insert(&mut self, id: Id, value: T) -> (r: ComponentResult<()>)
        ensures
            final(self).name() == old(self).name(),
            (final(self)@, r) == inserted(old(self)@, old(self).name(), id, value),
    {
        broadcast use vstd::std_specs::hash::group_hash_axioms;

        if self.inner.contains_key(&id.0) {
            Err(ComponentError::AlreadyExists { id, component: self.name })
        } else {
            self.inner.insert(id.0, value);
            assert(self@ =~= old(self)@.insert(id, value));
            Ok(())
        }
    }

    /// Sets the value of `id`, and returns the value that it held, if any.
    pub fn insert_or_update(&mut self, id: Id, value: T) -> (r: Option<T>)
        ensures
            final(self).name() == old(self).name(),
            final(self)@ == old(self)@.insert(id, value),
            r == if old(self)@.contains_key(id) {
                Some(old(self)@[id])
            } else {
                None
            },
    {
        broadcast use vstd::std_specs::hash::group_hash_axioms;

        let previous = self.inner.insert(id.0, value);
        assert(self@ =~= old(self)@.insert(id, value));
        previous
    }
}

} // verus!
