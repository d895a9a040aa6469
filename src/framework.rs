//! Entities, their id allocation, and the sparse set that gives each entity
//! at most one value of a component kind.
use vstd::prelude::*;

use crate::comp_data::CompData;
use crate::id_index::{index_entries, index_get, index_insert, index_remove, index_with_capacity, IdIndex};

verus! {

/// An opaque identifier of a game object. Its id is never zero.
#[derive(Debug, Clone, Copy, PartialEq, Eq, Structural, PartialOrd, Ord, Hash)]
pub struct Entity {
    id: u64,
}

/// Hands out entity ids: each id once, counting up from one.
#[derive(Debug)]
pub struct IdAllocator {
    next: u64,
}

impl IdAllocator {
    #[verifier::type_invariant]
    spec fn inv(self) -> bool {
        self.next >= 1
    }

    /// The id the next allocation hands out.
    pub closed spec fn spec_next(&self) -> u64 {
        self.next
    }

    /// An allocator whose first id is one.
    pub fn new() -> (r: Self)
        ensures
            r.spec_next() == 1,
    {
        IdAllocator { next: 1 }
    }

    /// Whether every id has been handed out.
    pub fn is_exhausted(&self) -> (r: bool)
        ensures
            r == (self.spec_next() == u64::MAX),
    {
        self.next == u64::MAX
    }
}

/// Takes the next id from `ids`: ids come out in increasing order, each once,
/// and never zero.
pub fn next_id(ids: &mut IdAllocator) -> (r: u64)
    requires
        old(ids).spec_next() < u64::MAX,
    ensures
        r == old(ids).spec_next(),
        r >= 1,
        final(ids).spec_next() == r + 1,
{
    proof {
        use_type_invariant(&*ids);
    }
    let r = ids.next;
    ids.next = ids.next + 1;
    r
}

/// Why an integer read as an entity id was refused.
#[derive(Debug, Clone, Copy, PartialEq, Eq, Structural)]
pub enum EntityIdError {
    /// Zero is reserved as "no entity".
    Zero,
    /// Ids are positive.
    Negative,
    /// Ids fit in 64 bits.
    TooLarge,
}

impl Entity {
    #[verifier::type_invariant]
    spec fn inv(self) -> bool {
        self.id != 0
    }

    /// The entity's id.
    pub closed spec fn spec_id(&self) -> u64 {
        self.id
    }

    /// A new entity, with the next id of `ids`.
    pub fn new(ids: &mut IdAllocator) -> (r: Self)
        requires
            old(ids).spec_next() < u64::MAX,
        ensures
            r.spec_id() == old(ids).spec_next(),
            r.spec_id() != 0,
            final(ids).spec_next() == r.spec_id() + 1,
    {
        Entity { id: next_id(ids) }
    }

    /// The entity with id `id`; none for zero, which is reserved.
    pub fn from_id(id: u64) -> (r: Option<Self>)
        ensures
            r is Some <==> id != 0,
            r is Some ==> r.unwrap().spec_id() == id,
    {
        if id == 0 {
            None
        } else {
            Some(Entity { id })
        }
    }

    /// Reads an entity id from any integer: it must be positive and fit in 64
    /// bits.
    pub fn from_integer(v: i128) -> (r: Result<Self, EntityIdError>)
        ensures
            v < 0 ==> r == Err::<Self, EntityIdError>(EntityIdError::Negative),
            v == 0 ==> r == Err::<Self, EntityIdError>(EntityIdError::Zero),
            v > u64::MAX ==> r == Err::<Self, EntityIdError>(EntityIdError::TooLarge),
            0 < v <= u64::MAX ==> r is Ok && r.unwrap().spec_id() == v,
    {
        if v < 0 {
            Err(EntityIdError::Negative)
        } else if v == 0 {
            Err(EntityIdError::Zero)
        } else if v > u64::MAX as i128 {
            Err(EntityIdError::TooLarge)
        } else {
            Ok(Entity { id: v as u64 })
        }
    }

    /// The entity's id.
    pub fn id(&self) -> (r: u64)
        ensures
            r == self.spec_id(),
            r != 0,
    {
        proof {
            use_type_invariant(self);
        }
        self.id
    }
}

/// The map that adding `entries` one after another, from the first, builds
/// from an empty set: each entity holds the value of its last entry.
pub open spec fn map_of_entries<T>(entries: Seq<(Entity, T)>) -> Map<Entity, T>
    decreases entries.len(),
{
    if entries.len() == 0 {
        Map::empty()
    } else {
        map_of_entries(entries.drop_last()).insert(entries.last().0, entries.last().1)
    }
}

/// A walk over the entities of a set and their values, in slot order.
#[derive(Debug)]
pub struct CompIter<'a, T> {
    entities: &'a [Entity],
    values: &'a [T],
    pos: usize,
}

impl<'a, T> CompIter<'a, T> {
    /// The owners being walked, in slot order.
    pub closed spec fn spec_entities(&self) -> Seq<Entity> {
        self.entities@
    }

    /// The values being walked, in slot order.
    pub closed spec fn spec_values(&self) -> Seq<T> {
        self.values@
    }

    /// How many slots have been handed out.
    pub closed spec fn spec_pos(&self) -> int {
        self.pos as int
    }

    /// Owners and values line up, and the walk has not run past them.
    pub open spec fn wf(&self) -> bool {
        &&& self.spec_entities().len() == self.spec_values().len()
        &&& 0 <= self.spec_pos() <= self.spec_values().len()
    }

    /// The next entity with its value; none once every slot has been handed
    /// out.
    pub fn next(&mut self) -> (r: Option<(Entity, &'a T)>)
        requires
            old(self).wf(),
        ensures
            final(self).wf(),
            final(self).spec_entities() == old(self).spec_entities(),
            final(self).spec_values() == old(self).spec_values(),
            old(self).spec_pos() < old(self).spec_values().len() ==> {
                &&& final(self).spec_pos() == old(self).spec_pos() + 1
                &&& r is Some
                &&& r.unwrap().0 == old(self).spec_entities()[old(self).spec_pos()]
                &&& *r.unwrap().1 == old(self).spec_values()[old(self).spec_pos()]
            },
            old(self).spec_pos() == old(self).spec_values().len() ==> {
                &&& final(self).spec_pos() == old(self).spec_pos()
                &&& r is None
            },
    {
        if self.pos < self.values.len() {
            let i = self.pos;
            self.pos = self.pos + 1;
            Some((self.entities[i], &self.values[i]))
        } else {
            None
        }
    }

    /// How many entities are left to walk, exactly.
    pub fn size_hint(&self) -> (r: (usize, Option<usize>))
        requires
            self.wf(),
        ensures
            r.0 == self.spec_values().len() - self.spec_pos(),
            r.1 == Some(r.0),
    {
        let left = self.values.len() - self.pos;
        (left, Some(left))
    }
}

/// A walk over the entities of a set with their values open to mutation, in
/// slot order. Each slot is handed out at most once, so no two references it
/// hands out alias.
#[derive(Debug)]
pub struct CompIterMut<'a, T> {
    entities: &'a [Entity],
    values: &'a mut [T],
    pos: usize,
}

impl<'a, T> CompIterMut<'a, T> {
    /// The owners of all slots, in slot order.
    pub closed spec fn spec_entities(&self) -> Seq<Entity> {
        self.entities@
    }

    /// The values not handed out yet, in slot order.
    pub closed spec fn spec_rest(&self) -> Seq<T> {
        self.values@
    }

    /// How many slots have been handed out.
    pub closed spec fn spec_pos(&self) -> int {
        self.pos as int
    }

    /// The slots handed out and those left make up all the owners.
    pub open spec fn wf(&self) -> bool {
        self.spec_pos() + self.spec_rest().len() == self.spec_entities().len()
    }

    /// The next entity with its value, open to mutation; none once every slot
    /// has been handed out.
    pub fn next(&mut self) -> (r: Option<(Entity, &'a mut T)>)
        requires
            old(self).wf(),
        ensures
            final(self).wf(),
            final(self).spec_entities() == old(self).spec_entities(),
            old(self).spec_rest().len() > 0 ==> {
                &&& final(self).spec_pos() == old(self).spec_pos() + 1
                &&& final(self).spec_rest() == old(self).spec_rest().drop_first()
                &&& r is Some
                &&& r.unwrap().0 == old(self).spec_entities()[old(self).spec_pos()]
                &&& *r.unwrap().1 == old(self).spec_rest()[0]
            },
            old(self).spec_rest().len() == 0 ==> {
                &&& final(self).spec_pos() == old(self).spec_pos()
                &&& r is None
            },
    {
        if self.values.len() == 0 {
            return None;
        }
        let mut rest: &'a mut [T] = &mut [];
        core::mem::swap(&mut self.values, &mut rest);
        let (head, tail) = rest.split_at_mut(1);
        self.values = tail;
        let e = self.entities[self.pos];
        self.pos = self.pos + 1;
        match head.first_mut() {
            Some(v) => Some((e, v)),
            None => None,
        }
    }

    /// How many entities are left to walk, exactly.
    pub fn size_hint(&self) -> (r: (usize, Option<usize>))
        requires
            self.wf(),
        ensures
            r.0 == self.spec_rest().len(),
            r.1 == Some(r.0),
    {
        let left = self.values.len();
        (left, Some(left))
    }
}

/// Marks a type that can be stored as a component.
pub trait Component: core::fmt::Debug {}

/// Every entity that holds a value of one component kind, with that value.
///
/// The values sit densely in a column; `id_to_pos` maps each entity's id to
/// its slot, and `entities` records which entity owns each slot.
#[derive(Debug)]
pub struct Comptainer<T> {
    id_to_pos: IdIndex,
    entities: Vec<Entity>,
    comps: CompData<T>,
}

impl<T> Default for Comptainer<T> {
    /// An empty set.
    fn default() -> (r: Self)
        ensures
            r.wf(),
            r.index_map() == Map::<Entity, usize>::empty(),
            r.contents() == Map::<Entity, T>::empty(),
    {
        Comptainer::with_capacity(0)
    }
}

impl<T> Comptainer<T> {
    /// The slot of each entity that holds a value.
    pub closed spec fn index_map(&self) -> Map<Entity, usize> {
        Map::new(
            |e: Entity| index_entries(self.id_to_pos).contains_key(e.id),
            |e: Entity| index_entries(self.id_to_pos)[e.id],
        )
    }

    /// The owner of each slot, in slot order.
    pub closed spec fn dense_entities(&self) -> Seq<Entity> {
        self.entities@
    }

    /// The stored values, in slot order.
    pub closed spec fn dense_values(&self) -> Seq<T> {
        self.comps@
    }

    /// The value each entity holds.
    pub open spec fn contents(&self) -> Map<Entity, T> {
        Map::new(
            |e: Entity| self.index_map().contains_key(e),
            |e: Entity| self.dense_values()[self.index_map()[e] as int],
        )
    }

    /// The set's internal invariant: slots and owners correspond one to one
    /// through the index, and the column is well formed.
    pub closed spec fn wf(&self) -> bool {
        let ids = index_entries(self.id_to_pos);
        &&& self.comps.wf()
        &&& self.entities@.len() == self.comps@.len()
        &&& forall|i: int|
            0 <= i < self.entities@.len() ==> #[trigger] ids.contains_key(self.entities@[i].id)
                && ids[self.entities@[i].id] == i
        &&& forall|k: u64|
            #[trigger] ids.contains_key(k) ==> ids[k] < self.entities@.len()
                && self.entities@[ids[k] as int].id == k
    }

    /// An empty set.
    pub fn new() -> (r: Self)
        ensures
            r.wf(),
            r.dense_values() == Seq::<T>::empty(),
            r.dense_entities() == Seq::<Entity>::empty(),
            r.index_map() == Map::<Entity, usize>::empty(),
            r.contents() == Map::<Entity, T>::empty(),
    {
        Self::with_capacity(0)
    }

    /// An empty set with room for `cap` values.
    pub fn with_capacity(cap: usize) -> (r: Self)
        ensures
            r.wf(),
            r.dense_values() == Seq::<T>::empty(),
            r.dense_entities() == Seq::<Entity>::empty(),
            r.index_map() == Map::<Entity, usize>::empty(),
            r.contents() == Map::<Entity, T>::empty(),
    {
        let r = Comptainer {
            id_to_pos: index_with_capacity(cap),
            entities: Vec::with_capacity(cap),
            comps: CompData::with_capacity(cap),
        };
        assert(index_entries(r.id_to_pos) =~= Map::empty());
        assert(r.index_map() =~= Map::empty());
        assert(r.contents() =~= Map::empty());
        r
    }

    /// Whether `entity` holds a value here.
    pub fn has_component(&self, entity: Entity) -> (r: bool)
        requires
            self.wf(),
        ensures
            r == self.contents().contains_key(entity),
    {
        index_get(&self.id_to_pos, entity.id).is_some()
    }

    /// How `add_component(e, v)` changes `self` into `after` when it returns
    /// `r`: an entity already present keeps its slot and has its value
    /// replaced, the old value coming back; a new entity takes the next slot.
    pub open spec fn add_component_post(self, after: Self, e: Entity, v: T, r: Option<T>) -> bool {
        &&& after.wf()
        &&& after.contents() == self.contents().insert(e, v)
        &&& if self.index_map().contains_key(e) {
            &&& r == Some(self.contents()[e])
            &&& after.index_map() == self.index_map()
            &&& after.dense_entities() == self.dense_entities()
            &&& after.dense_values() == self.dense_values().update(self.index_map()[e] as int, v)
        } else {
            &&& r is None
            &&& after.index_map() == self.index_map().insert(e, self.dense_values().len() as usize)
            &&& after.dense_entities() == self.dense_entities().push(e)
            &&& after.dense_values() == self.dense_values().push(v)
        }
    }

    /// How `remove_component(e)` changes `self` into `after` when it returns
    /// `r`: an absent entity changes nothing; a present one gives up its slot,
    /// which the last slot's value and owner move into.
    pub open spec fn remove_component_post(self, after: Self, e: Entity, r: bool) -> bool {
        &&& after.wf()
        &&& r == self.index_map().contains_key(e)
        &&& after.contents() == self.contents().remove(e)
        &&& if self.index_map().contains_key(e) {
            let i = self.index_map()[e] as int;
            let last = self.dense_values().len() - 1;
            &&& after.dense_values() == self.dense_values().update(i, self.dense_values()[last]).drop_last()
            &&& after.dense_entities() == self.dense_entities().update(i, self.dense_entities()[last]).drop_last()
            &&& after.index_map() == (if i < last {
                self.index_map().remove(e).insert(self.dense_entities()[last], i as usize)
            } else {
                self.index_map().remove(e)
            })
        } else {
            &&& after.index_map() == self.index_map()
            &&& after.dense_entities() == self.dense_entities()
            &&& after.dense_values() == self.dense_values()
        }
    }

    /// Gives `entity` the value `component`. An entity that already held a
    /// value keeps its slot and gets the old value back; a new one is
    /// appended.
    pub fn add_component(&mut self, entity: Entity, component: T) -> (r: Option<T>)
        requires
            old(self).wf(),
            old(self).dense_values().len() < usize::MAX,
        ensures
            old(self).add_component_post(*final(self), entity, component, r),
    {
        let ghost ids0 = index_entries(self.id_to_pos);
        let ghost old_self = *self;
        match index_get(&self.id_to_pos, entity.id) {
            Some(i) => {
                let prev = self.comps.replace(i, component);
                assert(self.index_map() =~= old_self.index_map());
                assert(self.contents() =~= old_self.contents().insert(entity, component));
                Some(prev)
            },
            None => {
                let n = self.entities.len();
                index_insert(&mut self.id_to_pos, entity.id, n);
                self.entities.push(entity);
                self.comps.push(component);
                let ghost ids = index_entries(self.id_to_pos);
                assert forall|i: int| 0 <= i < self.entities@.len() implies #[trigger] ids.contains_key(
                    self.entities@[i].id,
                ) && ids[self.entities@[i].id] == i by {
                    if i < n {
                        assert(ids0.contains_key(old_self.entities@[i].id));
                    }
                }
                assert(self.index_map() =~= old_self.index_map().insert(entity, n));
                assert(self.contents() =~= old_self.contents().insert(entity, component));
                None
            },
        }
    }

    /// Takes away `entity`'s value, if it has one, and says whether it had.
    /// The last slot's value moves into the freed slot, so the values stay
    /// dense.
    pub fn remove_component(&mut self, entity: Entity) -> (r: bool)
        requires
            old(self).wf(),
        ensures
            old(self).remove_component_post(*final(self), entity, r),
    {
        let ghost ids0 = index_entries(self.id_to_pos);
        let ghost old_self = *self;
        match index_get(&self.id_to_pos, entity.id) {
            None => {
                assert(self.contents() =~= old_self.contents().remove(entity));
                false
            },
            Some(i) => {
                let last = self.entities.len() - 1;
                self.comps.swap_remove(i);
                self.entities.swap_remove(i);
                if i < last {
                    let moved = self.entities[i];
                    assert(moved == old_self.entities@[last as int]);
                    assert(ids0.contains_key(old_self.entities@[last as int].id));
                    index_insert(&mut self.id_to_pos, moved.id, i);
                }
                index_remove(&mut self.id_to_pos, entity.id);
                let ghost ids = index_entries(self.id_to_pos);
                assert forall|j: int| 0 <= j < self.entities@.len() implies #[trigger] ids.contains_key(
                    self.entities@[j].id,
                ) && ids[self.entities@[j].id] == j by {
                    assert(ids0.contains_key(old_self.entities@[j].id));
                    assert(ids0.contains_key(old_self.entities@[last as int].id));
                }
                assert forall|k: u64| #[trigger] ids.contains_key(k) implies ids[k] < self.entities@.len()
                    && self.entities@[ids[k] as int].id == k by {
                    assert(ids0.contains_key(k));
                }
                if i < last {
                    assert(self.index_map() =~= old_self.index_map().remove(entity).insert(
                        old_self.entities@[last as int],
                        i,
                    ));
                } else {
                    assert(self.index_map() =~= old_self.index_map().remove(entity));
                }
                assert forall|e: Entity| #[trigger] self.contents().contains_key(e) implies self.contents()[e]
                    == old_self.contents()[e] by {
                    assert(ids0.contains_key(e.id));
                }
                assert(self.contents() =~= old_self.contents().remove(entity));
                true
            },
        }
    }
    /// The number of entities that hold a value.
    pub fn len(&self) -> (r: usize)
        requires
            self.wf(),
        ensures
            r == self.dense_values().len(),
            r == self.index_map().len(),
            r == self.contents().len(),
    {
        proof {
            lemma_density(*self);
            assert(self.contents().dom() =~= self.index_map().dom());
        }
        self.entities.len()
    }

    /// The value `entity` holds, if any.
    pub fn get(&self, entity: Entity) -> (r: Option<&T>)
        requires
            self.wf(),
        ensures
            r is Some <==> self.contents().contains_key(entity),
            r is Some ==> *r.unwrap() == self.contents()[entity],
    {
        match index_get(&self.id_to_pos, entity.id) {
            Some(i) => {
                let values = self.comps.as_typed_slice();
                Some(&values[i])
            },
            None => None,
        }
    }

    /// The value `entity` holds, if any, for in-place mutation; whatever is
    /// written there becomes the entity's value.
    pub fn get_mut(&mut self, entity: Entity) -> (r: Option<&mut T>)
        requires
            old(self).wf(),
        ensures
            r is Some <==> old(self).contents().contains_key(entity),
            r is Some ==> *r.unwrap() == old(self).contents()[entity],
            r is Some ==> final(self).contents() == old(self).contents().insert(
                entity,
                *final(r.unwrap()),
            ),
            r is None ==> final(self).contents() == old(self).contents(),
            final(self).index_map() == old(self).index_map(),
            final(self).dense_entities() == old(self).dense_entities(),
            final(self).wf(),
    {
        let ghost old_self = *self;
        match index_get(&self.id_to_pos, entity.id) {
            Some(i) => {
                proof {
                    lemma_slot_rewritten(old_self, entity);
                }
                let v = self.comps.slot_mut(i);
                Some(v)
            },
            None => None,
        }
    }

    /// Some entity that holds a value, with that value; none when the set is
    /// empty.
    pub fn get_one(&self) -> (r: Option<(Entity, &T)>)
        requires
            self.wf(),
        ensures
            r is None <==> self.contents().dom() == Set::<Entity>::empty(),
            r is Some ==> self.contents().contains_key(r.unwrap().0),
            r is Some ==> *r.unwrap().1 == self.contents()[r.unwrap().0],
    {
        let ghost ids = index_entries(self.id_to_pos);
        if self.entities.len() == 0 {
            assert forall|e: Entity| !self.contents().dom().contains(e) by {
                if ids.contains_key(e.id) {
                    assert(ids[e.id] < self.entities@.len());
                }
            }
            assert(self.contents().dom() =~= Set::<Entity>::empty());
            None
        } else {
            let e = self.entities[0];
            assert(ids.contains_key(self.entities@[0].id));
            assert(self.contents().dom().contains(e));
            let values = self.comps.as_typed_slice();
            Some((e, &values[0]))
        }
    }

    /// Empties the set, handing back its owners and values as two parallel
    /// sequences in slot order.
    pub fn take(&mut self) -> (r: (Vec<Entity>, Vec<T>))
        requires
            old(self).wf(),
        ensures
            final(self).wf(),
            final(self).contents() == Map::<Entity, T>::empty(),
            final(self).index_map() == Map::<Entity, usize>::empty(),
            final(self).dense_values() == Seq::<T>::empty(),
            final(self).dense_entities() == Seq::<Entity>::empty(),
            r.0@ == old(self).dense_entities(),
            r.1@ == old(self).dense_values(),
            r.0@.len() == r.1@.len(),
            forall|i: int|
                0 <= i < r.0@.len() ==> #[trigger] old(self).index_map()[r.0@[i]] == i
                    && old(self).contents().contains_key(r.0@[i]) && old(self).contents()[r.0@[i]]
                    == r.1@[i],
    {
        let ghost old_self = *self;
        let ghost ids0 = index_entries(self.id_to_pos);
        let mut entities: Vec<Entity> = Vec::new();
        core::mem::swap(&mut self.entities, &mut entities);
        let mut comps: CompData<T> = CompData::new();
        core::mem::swap(&mut self.comps, &mut comps);
        self.id_to_pos = index_with_capacity(0);
        assert(index_entries(self.id_to_pos) =~= Map::empty());
        assert(self.index_map() =~= Map::empty());
        assert(self.contents() =~= Map::empty());
        assert forall|i: int| 0 <= i < entities@.len() implies #[trigger] old_self.index_map()[entities@[i]]
            == i && old_self.contents().contains_key(entities@[i]) && old_self.contents()[entities@[i]]
            == comps@[i] by {
            assert(ids0.contains_key(old_self.entities@[i].id));
        }
        (entities, comps.into_vec())
    }

    /// Empties the set, handing back each owner with its value, in slot
    /// order.
    pub fn take_iter(&mut self) -> (r: Vec<(Entity, T)>)
        requires
            old(self).wf(),
        ensures
            final(self).wf(),
            final(self).contents() == Map::<Entity, T>::empty(),
            r@.len() == old(self).dense_values().len(),
            forall|i: int|
                0 <= i < r@.len() ==> #[trigger] r@[i] == (
                    old(self).dense_entities()[i],
                    old(self).dense_values()[i],
                ),
    {
        let (mut es, mut vs) = self.take();
        let ghost e0 = es@;
        let ghost v0 = vs@;
        let ghost n = vs@.len();
        let mut rev: Vec<(Entity, T)> = Vec::new();
        while vs.len() > 0
            invariant
                es@.len() == vs@.len(),
                e0.len() == n,
                v0.len() == n,
                es@ == e0.subrange(0, es@.len() as int),
                vs@ == v0.subrange(0, vs@.len() as int),
                rev@.len() + vs@.len() == n,
                forall|j: int|
                    0 <= j < rev@.len() ==> #[trigger] rev@[j] == (e0[n - 1 - j], v0[n - 1 - j]),
            decreases vs@.len(),
        {
            let v = vs.pop().unwrap();
            let e = es.pop().unwrap();
            rev.push((e, v));
        }
        let mut out: Vec<(Entity, T)> = Vec::new();
        while rev.len() > 0
            invariant
                rev@.len() + out@.len() == n,
                forall|j: int|
                    0 <= j < rev@.len() ==> #[trigger] rev@[j] == (e0[n - 1 - j], v0[n - 1 - j]),
                forall|j: int| 0 <= j < out@.len() ==> #[trigger] out@[j] == (e0[j], v0[j]),
            decreases rev@.len(),
        {
            let item = rev.pop().unwrap();
            out.push(item);
        }
        out
    }
    /// Walks the set: each entity with its value, once each.
    pub fn iter(&self) -> (r: CompIter<'_, T>)
        requires
            self.wf(),
        ensures
            r.wf(),
            r.spec_entities() == self.dense_entities(),
            r.spec_values() == self.dense_values(),
            r.spec_pos() == 0,
    {
        CompIter { entities: self.entities.as_slice(), values: self.comps.as_typed_slice(), pos: 0 }
    }

    /// Walks the set with each value open to mutation: each entity with its
    /// value, once each. The owners and the index stay as they are.
    pub fn iter_mut(&mut self) -> (r: CompIterMut<'_, T>)
        requires
            old(self).wf(),
        ensures
            r.wf(),
            r.spec_entities() == old(self).dense_entities(),
            r.spec_rest() == old(self).dense_values(),
            r.spec_pos() == 0,
            final(self).dense_entities() == old(self).dense_entities(),
            final(self).index_map() == old(self).index_map(),
    {
        CompIterMut {
            entities: self.entities.as_slice(),
            values: self.comps.as_typed_slice_mut(),
            pos: 0,
        }
    }

    /// A set holding, for each entity among `entries`, the value of its last
    /// entry: the entries are added in order, later ones replacing earlier.
    pub fn from_entries(entries: Vec<(Entity, T)>) -> (r: Self)
        requires
            entries@.len() < usize::MAX,
        ensures
            r.wf(),
            r.contents() == map_of_entries(entries@),
    {
        let ghost src = entries@;
        let ghost n = src.len();
        let count = entries.len();
        let mut rest = entries;
        let mut rev: Vec<(Entity, T)> = Vec::new();
        while rest.len() > 0
            invariant
                src.len() == n,
                rest@ == src.subrange(0, rest@.len() as int),
                rev@.len() + rest@.len() == n,
                forall|j: int| 0 <= j < rev@.len() ==> #[trigger] rev@[j] == src[n - 1 - j],
            decreases rest@.len(),
        {
            let item = rest.pop().unwrap();
            rev.push(item);
        }
        let mut set: Comptainer<T> = Comptainer::with_capacity(count);
        while rev.len() > 0
            invariant
                src.len() == n,
                n < usize::MAX,
                set.wf(),
                rev@.len() <= n,
                set.dense_values().len() <= n - rev@.len(),
                forall|j: int| 0 <= j < rev@.len() ==> #[trigger] rev@[j] == src[n - 1 - j],
                set.contents() == map_of_entries(src.subrange(0, n - rev@.len())),
            decreases rev@.len(),
        {
            let ghost done = n - rev@.len();
            let (e, v) = rev.pop().unwrap();
            set.add_component(e, v);
            assert(src.subrange(0, done + 1).drop_last() =~= src.subrange(0, done));
        }
        assert(src.subrange(0, n as int) =~= src);
        set
    }
}

} // verus!

verus! {

/// Density: in every well-formed set the index has exactly one entry per
/// stored value, and every entry names a slot below the column's length.
pub proof fn lemma_density<T>(s: Comptainer<T>)
    requires
        s.wf(),
    ensures
        s.index_map().dom().finite(),
        s.index_map().len() == s.dense_values().len(),
        s.dense_entities().len() == s.dense_values().len(),
        forall|e: Entity| #[trigger]
            s.index_map().contains_key(e) ==> s.index_map()[e] < s.dense_values().len(),
{
    let ids = index_entries(s.id_to_pos);
    let es = s.entities@;
    assert(es.no_duplicates()) by {
        assert forall|i: int, j: int| 0 <= i < es.len() && 0 <= j < es.len() && i != j implies es[i]
            != es[j] by {
            assert(ids.contains_key(es[i].id));
            assert(ids.contains_key(es[j].id));
        }
    }
    assert(s.index_map().dom() =~= es.to_set()) by {
        assert forall|e: Entity| s.index_map().dom().contains(e) implies es.to_set().contains(e) by {
            assert(ids.contains_key(e.id));
            let i = ids[e.id] as int;
            assert(es[i] == e);
        }
        assert forall|e: Entity| es.to_set().contains(e) implies s.index_map().dom().contains(e) by {
            let i = choose|i: int| 0 <= i < es.len() && es[i] == e;
            assert(ids.contains_key(es[i].id));
        }
    }
    es.unique_seq_to_set();
    vstd::seq_lib::seq_to_set_is_finite(es);
    assert forall|e: Entity| #[trigger] s.index_map().contains_key(e) implies s.index_map()[e]
        < s.dense_values().len() by {
        assert(ids.contains_key(e.id));
    }
}

/// Rewriting the slot of a live entity `e` in place leaves a well-formed set
/// whose index is unchanged and in which `e` holds the new value.
proof fn lemma_slot_rewritten<T>(s: Comptainer<T>, e: Entity)
    requires
        s.wf(),
        s.index_map().contains_key(e),
    ensures
        forall|t: Comptainer<T>|
            #![trigger t.wf()]
            #![trigger t.index_map()]
            #![trigger t.contents()]
            t.id_to_pos == s.id_to_pos && t.entities == s.entities && t.comps.wf() && t.comps@
                == s.comps@.update(s.index_map()[e] as int, t.comps@[s.index_map()[e] as int])
                ==> t.wf() && t.index_map() == s.index_map() && t.contents() == s.contents().insert(
                e,
                t.comps@[s.index_map()[e] as int],
            ),
{
    let i = s.index_map()[e] as int;
    assert forall|t: Comptainer<T>|
        t.id_to_pos == s.id_to_pos && t.entities == s.entities && t.comps.wf() && t.comps@
            == s.comps@.update(i, t.comps@[i]) implies t.wf() && t.index_map() == s.index_map()
        && t.contents() == s.contents().insert(e, t.comps@[i]) by {
        assert(t.index_map() =~= s.index_map());
        assert(t.contents() =~= s.contents().insert(e, t.comps@[i]));
    }
}

/// No two live entities of one set share a slot.
pub proof fn lemma_distinct_slots<T>(s: Comptainer<T>, e1: Entity, e2: Entity)
    requires
        s.wf(),
        s.index_map().contains_key(e1),
        s.index_map().contains_key(e2),
        e1 != e2,
    ensures
        s.index_map()[e1] != s.index_map()[e2],
{
    let ids = index_entries(s.id_to_pos);
    assert(ids.contains_key(e1.id));
    assert(ids.contains_key(e2.id));
}

/// Round trip: after `add_component(e, v)` the entity reads back `v`, and
/// after a following `remove_component(e)` it reads back nothing.
pub proof fn lemma_round_trip<T>(
    s0: Comptainer<T>,
    s1: Comptainer<T>,
    s2: Comptainer<T>,
    e: Entity,
    v: T,
    added: Option<T>,
    removed: bool,
)
    requires
        s0.add_component_post(s1, e, v, added),
        s1.remove_component_post(s2, e, removed),
    ensures
        s1.contents().contains_key(e),
        s1.contents()[e] == v,
        removed,
        !s2.contents().contains_key(e),
{
}

/// Compaction: removing the entity in slot `i` below the last moves the
/// entity of the last slot, with its value, into slot `i`; removing the entity
/// of the last slot moves no other entity.
pub proof fn lemma_compaction<T>(s0: Comptainer<T>, s1: Comptainer<T>, e: Entity, r: bool)
    requires
        s0.wf(),
        s0.index_map().contains_key(e),
        s0.remove_component_post(s1, e, r),
    ensures
        ({
            let i = s0.index_map()[e];
            let last = s0.dense_values().len() - 1;
            let moved = s0.dense_entities()[last];
            &&& i < last ==> s1.index_map().contains_key(moved) && s1.index_map()[moved] == i
                && s1.dense_values()[i as int] == s0.contents()[moved]
            &&& i == last ==> forall|o: Entity| #[trigger]
                s1.index_map().contains_key(o) ==> s0.index_map().contains_key(o)
                && s1.index_map()[o] == s0.index_map()[o]
        }),
{
    let ids = index_entries(s0.id_to_pos);
    let last = s0.dense_values().len() - 1;
    lemma_density(s0);
    assert(ids.contains_key(e.id));
    assert(ids.contains_key(s0.entities@[last].id));
}

/// Replacing: adding a value for an entity that already holds `v1` hands
/// back `v1`, leaves the new value in place and keeps the set's size.
pub proof fn lemma_replace<T>(s0: Comptainer<T>, s1: Comptainer<T>, e: Entity, v1: T, v2: T, r: Option<T>)
    requires
        s0.wf(),
        s0.contents().contains_key(e),
        s0.contents()[e] == v1,
        s0.add_component_post(s1, e, v2, r),
    ensures
        r == Some(v1),
        s1.contents()[e] == v2,
        s1.contents().dom() == s0.contents().dom(),
        s1.dense_values().len() == s0.dense_values().len(),
{
    assert(s1.contents().dom() =~= s0.contents().dom());
}

} // verus!
