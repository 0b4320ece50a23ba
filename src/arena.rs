//! Entity storage: entities ordered by monotonically assigned ids, with the
//! arena's tick and trace-id counters. Entities are held by value; the
//! arena decides ids, order, lookup and removal.
use vstd::prelude::*;
use crate::ids::{EntityId, TraceId};

verus! {

/// Whether `s` is strictly ascending.
pub open spec fn strictly_ascending(s: Seq<u64>) -> bool {
    forall|i: int, j: int| 0 <= i < j < s.len() ==> #[trigger] s[i] < #[trigger] s[j]
}

/// Entities in ascending id order. Ids start at 0, are handed out in
/// increasing order and are never reused.
#[derive(Clone)]
pub struct Arena<E> {
    next_id: u64,
    ids: Vec<EntityId>,
    entities: Vec<E>,
    tick: u64,
    next_trace_id: u64,
    spawned: Ghost<Set<u64>>,
    despawned: Ghost<Set<u64>>,
}

impl<E> Arena<E> {
    /// The ids of the live entities, in storage order.
    pub closed spec fn id_seq(&self) -> Seq<u64> {
        self.ids@.map_values(|id: EntityId| id.0)
    }

    /// The live entities, in the order of `id_seq`.
    pub closed spec fn entity_seq(&self) -> Seq<E> {
        self.entities@
    }

    /// The id the next spawned entity receives.
    pub closed spec fn next_id(&self) -> u64 {
        self.next_id
    }

    /// The arena's tick counter.
    pub closed spec fn tick(&self) -> u64 {
        self.tick
    }

    /// The trace id the next call of `new_trace_id` hands out.
    pub closed spec fn next_trace(&self) -> u64 {
        self.next_trace_id
    }

    /// Every id a spawn has returned.
    pub closed spec fn spawned(&self) -> Set<u64> {
        self.spawned@
    }

    /// Every id a despawn has removed.
    pub closed spec fn despawned(&self) -> Set<u64> {
        self.despawned@
    }

    /// Ids strictly ascending, one entity per id; the spawned ids are those
    /// below the next id; the live ids are the spawned ones not despawned.
    pub closed spec fn wf(&self) -> bool {
        &&& self.ids@.len() == self.entities@.len()
        &&& strictly_ascending(self.id_seq())
        &&& forall|i: int| 0 <= i < self.ids@.len() ==> #[trigger] self.ids@[i].0 < self.next_id
        &&& self.spawned@ == Set::new(|x: u64| x < self.next_id)
        &&& self.despawned@.subset_of(self.spawned@)
        &&& self.id_seq().to_set() == self.spawned@.difference(self.despawned@)
    }

    /// An empty arena at tick 0.
    pub fn new() -> (r: Arena<E>)
        ensures
            r.wf(),
            r.id_seq() == Seq::<u64>::empty(),
            r.entity_seq() == Seq::<E>::empty(),
            r.next_id() == 0,
            r.tick() == 0,
            r.next_trace() == 0,
            r.spawned() == Set::<u64>::empty(),
            r.despawned() == Set::<u64>::empty(),
    {
        let r = Arena {
            next_id: 0,
            ids: Vec::new(),
            entities: Vec::new(),
            tick: 0,
            next_trace_id: 0,
            spawned: Ghost(Set::empty()),
            despawned: Ghost(Set::empty()),
        };
        assert(r.id_seq() =~= Seq::<u64>::empty());
        assert(r.spawned@ =~= Set::new(|x: u64| x < 0));
        assert(r.id_seq().to_set() =~= Set::<u64>::empty());
        assert(r.spawned@.difference(r.despawned@) =~= Set::<u64>::empty());
        r
    }

    /// Adds `entity` under the next id and returns that id.
    pub fn spawn(&mut self, entity: E) -> (r: EntityId)
        requires
            old(self).wf(),
            old(self).next_id() < u64::MAX,
        ensures
            final(self).wf(),
            r.0 == old(self).next_id(),
            !old(self).id_seq().contains(r.0),
            forall|i: int| 0 <= i < old(self).id_seq().len() ==> #[trigger] old(self).id_seq()[i] < r.0,
            final(self).id_seq() == old(self).id_seq().push(r.0),
            final(self).entity_seq() == old(self).entity_seq().push(entity),
            final(self).next_id() == old(self).next_id() + 1,
            final(self).tick() == old(self).tick(),
            final(self).next_trace() == old(self).next_trace(),
            final(self).spawned() == old(self).spawned().insert(r.0),
            final(self).despawned() == old(self).despawned(),
    {
        let id = EntityId(self.next_id);
        let ghost old_ids = self.id_seq();
        proof {
            lemma_spawn_keeps_ids_ascending(old_ids, id.0);
        }
        self.next_id = self.next_id + 1;
        self.ids.push(id);
        self.entities.push(entity);
        proof {
            let sp = self.spawned@;
            let dp = self.despawned@;
            self.spawned = Ghost(sp.insert(id.0));
            assert(self.id_seq() =~= old_ids.push(id.0));
            assert(self.spawned@ =~= Set::new(|x: u64| x < self.next_id));
            assert(!dp.contains(id.0));
            assert(self.spawned@.difference(dp) =~= sp.difference(dp).insert(id.0));
        }
        id
    }

    /// The position of `id` among the live ids, if it is live.
    fn position(&self, id: EntityId) -> (r: Option<usize>)
        requires
            self.wf(),
        ensures
            match r {
                Some(i) => i < self.id_seq().len() && self.id_seq()[i as int] == id.0,
                None => !self.id_seq().contains(id.0),
            },
    {
        let mut i: usize = 0;
        while i < self.ids.len()
            invariant
                i <= self.ids@.len(),
                forall|j: int| 0 <= j < i ==> self.id_seq()[j] != id.0,
            decreases self.ids@.len() - i,
        {
            if self.ids[i].0 == id.0 {
                return Some(i);
            }
            i = i + 1;
        }
        None
    }

    /// Removes the entity with id `id` and returns it; `None`, with nothing
    /// changed, when no live entity has that id.
    pub fn despawn(&mut self, id: EntityId) -> (r: Option<E>)
        requires
            old(self).wf(),
        ensures
            final(self).wf(),
            match r {
                Some(e) => exists|i: int|
                    0 <= i < old(self).id_seq().len()
                    && #[trigger] old(self).id_seq()[i] == id.0
                    && e == old(self).entity_seq()[i]
                    && final(self).id_seq() == old(self).id_seq().remove(i)
                    && final(self).entity_seq() == old(self).entity_seq().remove(i),
                None => !old(self).id_seq().contains(id.0) && final(self).id_seq() == old(self).id_seq()
                    && final(self).entity_seq() == old(self).entity_seq(),
            },
            old(self).id_seq().contains(id.0) <==> r is Some,
            final(self).next_id() == old(self).next_id(),
            final(self).tick() == old(self).tick(),
            final(self).next_trace() == old(self).next_trace(),
            final(self).spawned() == old(self).spawned(),
            final(self).despawned() == (if r is Some { old(self).despawned().insert(id.0) } else {
                old(self).despawned()
            }),
    {
        match self.position(id) {
            None => None,
            Some(i) => {
                let ghost before = self.id_seq();
                proof {
                    lemma_despawn_keeps_ids_ascending(before, i as int);
                    assert(before.to_set().contains(id.0));
                }
                self.ids.remove(i);
                let e = self.entities.remove(i);
                assert(self.id_seq() =~= before.remove(i as int));
                proof {
                    let dp = self.despawned@;
                    self.despawned = Ghost(dp.insert(id.0));
                    assert(self.spawned@.difference(self.despawned@) =~= self.spawned@.difference(dp).remove(id.0));
                }
                proof {
                    assert(before[i as int] == id.0);
                }
                Some(e)
            },
        }
    }

    /// The entity with id `id`, if it is live.
    pub fn get(&self, id: EntityId) -> (r: Option<&E>)
        requires
            self.wf(),
        ensures
            match r {
                Some(e) => exists|i: int|
                    0 <= i < self.id_seq().len() && #[trigger] self.id_seq()[i] == id.0
                    && *e == self.entity_seq()[i],
                None => !self.id_seq().contains(id.0),
            },
    {
        match self.position(id) {
            None => None,
            Some(i) => Some(&self.entities[i]),
        }
    }

    /// The id the next spawned entity will receive.
    pub fn peek_next_id(&self) -> (r: EntityId)
        ensures
            r.0 == self.next_id(),
    {
        EntityId(self.next_id)
    }

    /// Mutable access to the live entity with id `id`, if it is live.
    pub fn get_mut(&mut self, id: EntityId) -> (r: Option<&mut E>)
        requires
            old(self).wf(),
        ensures
            final(self).spawned() == old(self).spawned(),
            final(self).despawned() == old(self).despawned(),
            final(self).id_seq() == old(self).id_seq(),
            final(self).next_id() == old(self).next_id(),
            final(self).tick() == old(self).tick(),
            final(self).next_trace() == old(self).next_trace(),
            final(self).wf(),
            match r {
                Some(e) => exists|i: int|
                    0 <= i < old(self).id_seq().len() && #[trigger] old(self).id_seq()[i] == id.0
                    && *e == old(self).entity_seq()[i]
                    && final(self).entity_seq() == old(self).entity_seq().update(i, *final(e)),
                None => !old(self).id_seq().contains(id.0)
                    && final(self).entity_seq() == old(self).entity_seq(),
            },
    {
        match self.position(id) {
            None => None,
            Some(i) => Some(&mut self.entities[i]),
        }
    }

    /// The ids of all live entities, strictly ascending.
    pub fn entity_ids_sorted(&self) -> (r: Vec<EntityId>)
        requires
            self.wf(),
        ensures
            r@.map_values(|id: EntityId| id.0) == self.id_seq(),
            strictly_ascending(self.id_seq()),
            r@.len() == self.id_seq().len(),
            r@.map_values(|id: EntityId| id.0).to_set() == self.spawned().difference(self.despawned()),
    {
        let mut r: Vec<EntityId> = Vec::new();
        let mut i: usize = 0;
        while i < self.ids.len()
            invariant
                i <= self.ids@.len(),
                r@ == self.ids@.subrange(0, i as int),
            decreases self.ids@.len() - i,
        {
            r.push(self.ids[i]);
            i = i + 1;
            assert(r@ =~= self.ids@.subrange(0, i as int));
        }
        assert(r@ =~= self.ids@);
        r
    }

    /// The live entities in ascending id order.
    pub fn entities_sorted(&self) -> (r: &[E])
        ensures
            r@ == self.entity_seq(),
    {
        self.entities.as_slice()
    }

    /// Mutable access to the live entities, in ascending id order. (A slice
    /// keeps its length; the arena stays well formed as long as it does.)
    pub fn entities_sorted_mut(&mut self) -> (r: &mut [E])
        requires
            old(self).wf(),
        ensures
            r@ == old(self).entity_seq(),
            final(self).entity_seq() == final(r)@,
            final(self).id_seq() == old(self).id_seq(),
            final(self).next_id() == old(self).next_id(),
            final(self).tick() == old(self).tick(),
            final(self).next_trace() == old(self).next_trace(),
            final(self).spawned() == old(self).spawned(),
            final(self).despawned() == old(self).despawned(),
            final(r)@.len() == r@.len() ==> final(self).wf(),
    {
        self.entities.as_mut_slice()
    }

    /// The number of live entities.
    pub fn entity_count(&self) -> (r: usize)
        requires
            self.wf(),
        ensures
            r == self.id_seq().len(),
            r == self.entity_seq().len(),
    {
        self.ids.len()
    }

    /// Whether no entity is live.
    pub fn is_empty(&self) -> (r: bool)
        ensures
            r == (self.id_seq().len() == 0),
    {
        self.ids.len() == 0
    }

    /// The arena's current tick.
    pub fn current_tick(&self) -> (r: u64)
        ensures
            r == self.tick(),
    {
        self.tick
    }

    /// Advances the tick by one.
    pub fn advance_tick(&mut self)
        requires
            old(self).wf(),
            old(self).tick() < u64::MAX,
        ensures
            final(self).spawned() == old(self).spawned(),
            final(self).despawned() == old(self).despawned(),
            final(self).wf(),
            final(self).tick() == old(self).tick() + 1,
            final(self).id_seq() == old(self).id_seq(),
            final(self).entity_seq() == old(self).entity_seq(),
            final(self).next_id() == old(self).next_id(),
            final(self).next_trace() == old(self).next_trace(),
    {
        self.tick = self.tick + 1;
    }

    /// Hands out the next trace id, or `None`, with nothing changed, once the
    /// trace ids are exhausted.
    pub fn try_new_trace_id(&mut self) -> (r: Option<TraceId>)
        requires
            old(self).wf(),
        ensures
            final(self).spawned() == old(self).spawned(),
            final(self).despawned() == old(self).despawned(),
            final(self).wf(),
            final(self).id_seq() == old(self).id_seq(),
            final(self).entity_seq() == old(self).entity_seq(),
            final(self).next_id() == old(self).next_id(),
            final(self).tick() == old(self).tick(),
            match r {
                Some(t) => old(self).next_trace() < u64::MAX && t.0 == old(self).next_trace()
                    && final(self).next_trace() == old(self).next_trace() + 1,
                None => old(self).next_trace() == u64::MAX && final(self).next_trace() == old(self).next_trace(),
            },
    {
        if self.next_trace_id == u64::MAX {
            None
        } else {
            Some(self.new_trace_id())
        }
    }

    /// Hands out the next trace id; trace ids count up from 0.
    pub fn new_trace_id(&mut self) -> (r: TraceId)
        requires
            old(self).wf(),
            old(self).next_trace() < u64::MAX,
        ensures
            final(self).spawned() == old(self).spawned(),
            final(self).despawned() == old(self).despawned(),
            final(self).wf(),
            r.0 == old(self).next_trace(),
            final(self).next_trace() == old(self).next_trace() + 1,
            final(self).id_seq() == old(self).id_seq(),
            final(self).entity_seq() == old(self).entity_seq(),
            final(self).next_id() == old(self).next_id(),
            final(self).tick() == old(self).tick(),
    {
        let id = TraceId(self.next_trace_id);
        self.next_trace_id = self.next_trace_id + 1;
        id
    }
}


impl<E> Default for Arena<E> {
    fn default() -> (r: Arena<E>)
        ensures
            r.wf(),
            r.id_seq() == Seq::<u64>::empty(),
            r.entity_seq() == Seq::<E>::empty(),
            r.next_id() == 0,
            r.tick() == 0,
            r.next_trace() == 0,
    {
        Arena::new()
    }
}

/// Spawning keeps the live ids strictly ascending: the new id exceeds every
/// live id.
pub proof fn lemma_spawn_keeps_ids_ascending(ids: Seq<u64>, new_id: u64)
    requires
        strictly_ascending(ids),
        forall|i: int| 0 <= i < ids.len() ==> #[trigger] ids[i] < new_id,
    ensures
        strictly_ascending(ids.push(new_id)),
        ids.push(new_id).to_set() == ids.to_set().insert(new_id),
{
    assert forall|i: int, j: int| 0 <= i < j < ids.push(new_id).len() implies
        #[trigger] ids.push(new_id)[i] < #[trigger] ids.push(new_id)[j] by {
        if j == ids.len() {
            assert(ids.push(new_id)[i] == ids[i]);
        } else {
            assert(ids.push(new_id)[i] == ids[i] && ids.push(new_id)[j] == ids[j]);
        }
    }
    assert(ids.push(new_id).to_set() =~= ids.to_set().insert(new_id)) by {
        assert forall|x: u64| ids.push(new_id).to_set().contains(x) <==> ids.to_set().insert(new_id).contains(x) by {
            if ids.push(new_id).contains(x) {
                let k = choose|k: int| 0 <= k < ids.push(new_id).len() && ids.push(new_id)[k] == x;
                if k < ids.len() {
                    assert(ids[k] == x);
                }
            }
            if ids.contains(x) {
                let k = choose|k: int| 0 <= k < ids.len() && ids[k] == x;
                assert(ids.push(new_id)[k] == x);
            }
            if x == new_id {
                assert(ids.push(new_id)[ids.len() as int] == x);
            }
        }
    }
}

/// Despawning keeps the live ids strictly ascending and removes exactly the
/// despawned id.
pub proof fn lemma_despawn_keeps_ids_ascending(ids: Seq<u64>, i: int)
    requires
        strictly_ascending(ids),
        0 <= i < ids.len(),
    ensures
        strictly_ascending(ids.remove(i)),
        ids.remove(i).to_set() == ids.to_set().remove(ids[i]),
{
    let r = ids.remove(i);
    assert forall|a: int, b: int| 0 <= a < b < r.len() implies #[trigger] r[a] < #[trigger] r[b] by {
        let a2 = if a < i { a } else { a + 1 };
        let b2 = if b < i { b } else { b + 1 };
        assert(r[a] == ids[a2] && r[b] == ids[b2]);
    }
    assert(r.to_set() =~= ids.to_set().remove(ids[i])) by {
        assert forall|x: u64| r.to_set().contains(x) <==> ids.to_set().remove(ids[i]).contains(x) by {
            if r.contains(x) {
                let k = choose|k: int| 0 <= k < r.len() && r[k] == x;
                let k2 = if k < i { k } else { k + 1 };
                assert(ids[k2] == x);
                assert(k2 != i);
                if k2 < i {
                    assert(ids[k2] < ids[i]);
                } else {
                    assert(ids[i] < ids[k2]);
                }
            }
            if ids.contains(x) && x != ids[i] {
                let k = choose|k: int| 0 <= k < ids.len() && ids[k] == x;
                assert(k != i);
                if k < i {
                    assert(r[k] == x);
                } else {
                    assert(r[k - 1] == x);
                }
            }
        }
    }
}

} // verus!
