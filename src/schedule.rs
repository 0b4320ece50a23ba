//! The scheduler's bookkeeping for one tick: which plugin instances run and
//! in what order, which outputs each resolver receives, and the decisions
//! of the baseline sensor and weapon plugins.
use vstd::prelude::*;
use crate::components::TrackQuality;
use crate::ids::{EntityId, EntityTag, OutputKind};
use crate::plugin::PluginRegistry;

verus! {

/// The plugin instances of one entity: `(id, j)` for every registered plugin
/// index `j` of its tag's bundle, in registration order.
pub open spec fn instances_of(id: EntityId, count: nat) -> Seq<(EntityId, usize)> {
    Seq::new(count, |j: int| (id, j as usize))
}

/// The work list of a tick: the plugin instances of each entity, entities
/// taken in the given order.
pub open spec fn work_list<P>(entities: Seq<(EntityId, EntityTag)>, registry: PluginRegistry<P>) -> Seq<(EntityId, usize)>
    decreases entities.len(),
{
    if entities.len() == 0 {
        Seq::empty()
    } else {
        work_list(entities.drop_last(), registry)
            + instances_of(entities.last().0, registry.bundle(entities.last().1).len())
    }
}

/// The plugin instances to run this tick, as `(entity, plugin index)`:
/// entities in the order given (ascending id, as the arena lists them),
/// and within an entity its tag's plugins in registration order.
pub fn plugin_work_list<P>(entities: &[(EntityId, EntityTag)], registry: &PluginRegistry<P>) -> (r: Vec<(EntityId, usize)>)
    ensures
        r@ == work_list(entities@, *registry),
{
    let mut r: Vec<(EntityId, usize)> = Vec::new();
    let mut i: usize = 0;
    while i < entities.len()
        invariant
            i <= entities@.len(),
            r@ == work_list(entities@.subrange(0, i as int), *registry),
        decreases entities@.len() - i,
    {
        let (id, tag) = entities[i];
        let count = registry.plugins_for(tag).len();
        let ghost before = r@;
        let mut j: usize = 0;
        while j < count
            invariant
                i < entities@.len(),
                (id, tag) == entities@[i as int],
                count == registry.bundle(tag).len(),
                j <= count,
                r@ == before + instances_of(id, j as nat),
            decreases count - j,
        {
            r.push((id, j));
            j = j + 1;
            assert(r@ =~= before + instances_of(id, j as nat));
        }
        proof {
            assert(entities@.subrange(0, i + 1).drop_last() =~= entities@.subrange(0, i as int));
        }
        i = i + 1;
    }
    assert(entities@.subrange(0, entities@.len() as int) =~= entities@);
    r
}

/// Whether `kinds` lists `k`.
fn handles_kind(kinds: &[OutputKind], k: OutputKind) -> (r: bool)
    ensures
        r == kinds@.contains(k),
{
    let mut i: usize = 0;
    while i < kinds.len()
        invariant
            i <= kinds@.len(),
            forall|j: int| 0 <= j < i ==> kinds@[j] != k,
        decreases kinds@.len() - i,
    {
        if kinds[i] == k {
            return true;
        }
        i = i + 1;
    }
    false
}

/// The positions, ascending, of the outputs a resolver receives: those whose
/// kind is among the kinds it handles. `kinds` lists the kind of each output
/// in resolution order.
pub fn outputs_for_resolver(kinds: &[OutputKind], handles: &[OutputKind]) -> (r: Vec<usize>)
    ensures
        forall|a: int, b: int| 0 <= a < b < r@.len() ==> #[trigger] r@[a] < #[trigger] r@[b],
        forall|a: int| 0 <= a < r@.len() ==> #[trigger] r@[a] < kinds@.len() && handles@.contains(kinds@[r@[a] as int]),
        forall|i: int| 0 <= i < kinds@.len() && handles@.contains(#[trigger] kinds@[i]) ==> r@.contains(i as usize),
{
    let mut r: Vec<usize> = Vec::new();
    let mut i: usize = 0;
    while i < kinds.len()
        invariant
            i <= kinds@.len(),
            forall|a: int, b: int| 0 <= a < b < r@.len() ==> #[trigger] r@[a] < #[trigger] r@[b],
            forall|a: int| 0 <= a < r@.len() ==> #[trigger] r@[a] < i && handles@.contains(kinds@[r@[a] as int]),
            forall|j: int| 0 <= j < i && handles@.contains(#[trigger] kinds@[j]) ==> r@.contains(j as usize),
        decreases kinds@.len() - i,
    {
        if handles_kind(handles, kinds[i]) {
            let ghost before = r@;
            r.push(i);
            proof {
                assert forall|j: int| 0 <= j < i + 1 && handles@.contains(#[trigger] kinds@[j]) implies r@.contains(j as usize) by {
                    if j < i {
                        let k = choose|k: int| 0 <= k < before.len() && before[k] == j as usize;
                        assert(r@[k] == j as usize);
                    } else {
                        assert(r@[before.len() as int] == i);
                    }
                }
            }
        }
        i = i + 1;
    }
    r
}

/// A contact the sensor plugin reports: `observer` detected `target`.
#[derive(Clone, Copy, PartialEq, Eq, Debug, Structural)]
pub struct Contact {
    pub observer: EntityId,
    pub target: EntityId,
    pub quality: TrackQuality,
}

/// The contacts `observer` reports from the ids `nearby` found within its
/// radar range: every id but its own, in the order found, at coarse quality.
pub open spec fn contacts_from(observer: EntityId, nearby: Seq<EntityId>) -> Seq<Contact>
    decreases nearby.len(),
{
    if nearby.len() == 0 {
        Seq::empty()
    } else {
        let t = nearby.last();
        contacts_from(observer, nearby.drop_last()) + if t != observer {
            seq![Contact { observer, target: t, quality: TrackQuality::Coarse }]
        } else {
            Seq::empty()
        }
    }
}

/// The contacts an observer reports from the ids found within its radar
/// range: every id but its own, in the order found, at coarse quality.
pub fn sensor_contacts(observer: EntityId, nearby: &[EntityId]) -> (r: Vec<Contact>)
    ensures
        r@ == contacts_from(observer, nearby@),
{
    let mut r: Vec<Contact> = Vec::new();
    let mut i: usize = 0;
    while i < nearby.len()
        invariant
            i <= nearby@.len(),
            r@ == contacts_from(observer, nearby@.subrange(0, i as int)),
        decreases nearby@.len() - i,
    {
        let t = nearby[i];
        proof {
            assert(nearby@.subrange(0, i + 1).drop_last() =~= nearby@.subrange(0, i as int));
        }
        if t.0 != observer.0 {
            r.push(Contact { observer, target: t, quality: TrackQuality::Coarse });
        }
        assert(r@ =~= contacts_from(observer, nearby@.subrange(0, i + 1)));
        i = i + 1;
    }
    assert(nearby@.subrange(0, nearby@.len() as int) =~= nearby@);
    r
}

/// A weapon fire the weapon plugin proposes.
#[derive(Clone, Copy, PartialEq, Eq, Debug, Structural)]
pub struct FireOrder {
    pub source: EntityId,
    pub target: EntityId,
    pub slot: usize,
}

/// One fire order per ready weapon of `weapons` (`(slot, ready)` pairs),
/// in weapon order, from `source` at `target`.
pub open spec fn fire_orders(source: EntityId, target: EntityId, weapons: Seq<(usize, bool)>) -> Seq<FireOrder>
    decreases weapons.len(),
{
    if weapons.len() == 0 {
        Seq::empty()
    } else {
        let w = weapons.last();
        fire_orders(source, target, weapons.drop_last()) + if w.1 {
            seq![FireOrder { source, target, slot: w.0 }]
        } else {
            Seq::empty()
        }
    }
}

/// The fire orders of `source`, given its weapons as `(slot, ready)` in
/// order and the targets of its track table in order: none without a
/// track; otherwise one per ready weapon, in weapon order, at the first
/// track's target.
pub fn weapon_fire_orders(source: EntityId, weapons: &[(usize, bool)], tracks: &[EntityId]) -> (r: Vec<FireOrder>)
    ensures
        tracks@.len() == 0 ==> r@.len() == 0,
        tracks@.len() > 0 ==> r@ == fire_orders(source, tracks@[0], weapons@),
{
    let mut r: Vec<FireOrder> = Vec::new();
    if tracks.len() == 0 {
        return r;
    }
    let target = tracks[0];
    let mut i: usize = 0;
    while i < weapons.len()
        invariant
            i <= weapons@.len(),
            r@ == fire_orders(source, target, weapons@.subrange(0, i as int)),
        decreases weapons@.len() - i,
    {
        let w = weapons[i];
        proof {
            assert(weapons@.subrange(0, i + 1).drop_last() =~= weapons@.subrange(0, i as int));
        }
        if w.1 {
            r.push(FireOrder { source, target, slot: w.0 });
        }
        assert(r@ =~= fire_orders(source, target, weapons@.subrange(0, i + 1)));
        i = i + 1;
    }
    assert(weapons@.subrange(0, weapons@.len() as int) =~= weapons@);
    r
}


/// The notice that a weapon fired: the firing entity and the weapon slot.
#[derive(Clone, Copy, PartialEq, Eq, Debug, Structural)]
pub struct WeaponFired {
    pub source: EntityId,
    pub weapon_slot: usize,
}

/// The weapon-fired notices of a list of fire orders: one per order, in
/// order, naming the order's source and slot.
pub fn weapon_fired_events(orders: &[FireOrder]) -> (r: Vec<WeaponFired>)
    ensures
        r@.len() == orders@.len(),
        forall|i: int| 0 <= i < orders@.len() ==> #[trigger] r@[i] == (WeaponFired {
            source: orders@[i].source,
            weapon_slot: orders@[i].slot,
        }),
{
    let mut r: Vec<WeaponFired> = Vec::new();
    let mut i: usize = 0;
    while i < orders.len()
        invariant
            i <= orders@.len(),
            r@.len() == i,
            forall|k: int| 0 <= k < i ==> #[trigger] r@[k] == (WeaponFired {
                source: orders@[k].source,
                weapon_slot: orders@[k].slot,
            }),
        decreases orders@.len() - i,
    {
        r.push(WeaponFired { source: orders[i].source, weapon_slot: orders[i].slot });
        i = i + 1;
    }
    r
}

} // verus!
