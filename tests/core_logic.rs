use tidebreak::arena::Arena;
use tidebreak::components::{EmissionsMode, TrackQuality};
use tidebreak::field::{Direction, Field, MaterialStats, OctreeStats, ResolutionLevel, octant_index, octant_sides, FIELD_COUNT};
use tidebreak::ids::{EntityId, EntityTag, OutputKind, PluginId};
use tidebreak::ordering::{EnvelopeKey, key_precedes, resolution_order, str_lt};
use tidebreak::plugin::PluginRegistry;
use tidebreak::schedule::{Contact, FireOrder, WeaponFired, outputs_for_resolver, plugin_work_list, sensor_contacts, weapon_fire_orders, weapon_fired_events};
use tidebreak::nodehash::{hash_node, hash_universe_image, NodeImage, NodeImageState, ScalarStatsImage, StatsImage};
use tidebreak::text::u64_decimal;
use tidebreak::statehash::{StateHasher, hash_bounds, trace_id_for};

fn key(entity: u64, plugin: &str, sequence: u32) -> EnvelopeKey {
    EnvelopeKey { entity_id: EntityId::new(entity), plugin_id: PluginId::new(plugin), sequence }
}

#[test]
fn resolution_order_sorts_by_entity_plugin_sequence() {
    let keys = vec![
        key(2, "movement", 0),
        key(1, "weapon", 1),
        key(1, "sensor", 0),
        key(1, "weapon", 0),
        key(0, "weapon", 0),
    ];
    let order = resolution_order(&keys);
    assert_eq!(order, vec![4, 2, 3, 1, 0]);
}

#[test]
fn resolution_order_is_stable_for_equal_keys() {
    let keys = vec![key(1, "a", 0), key(0, "a", 0), key(1, "a", 0)];
    assert_eq!(resolution_order(&keys), vec![1, 0, 2]);
    assert_eq!(resolution_order(&Vec::new()), Vec::<usize>::new());
}

#[test]
fn key_precedence_is_strict() {
    let a = key(1, "sensor", 3);
    let b = key(1, "weapon", 0);
    assert!(key_precedes(&a, &b));
    assert!(!key_precedes(&b, &a));
    assert!(!key_precedes(&a, &a));
    assert!(key_precedes(&key(1, "sensor", 0), &key(1, "sensor", 1)));
    assert!(key_precedes(&key(0, "zzz", 9), &key(1, "aaa", 0)));
}

#[test]
fn lexicographic_string_order() {
    assert!(str_lt("a", "b"));
    assert!(str_lt("ab", "abc"));
    assert!(!str_lt("abc", "ab"));
    assert!(!str_lt("same", "same"));
    assert!(str_lt("", "x"));
    assert!(!str_lt("", ""));
    assert!(str_lt("Zeta", "alpha"));
}

#[test]
fn arena_ids_are_monotonic_and_sorted() {
    let mut arena: Arena<&str> = Arena::new();
    assert!(arena.is_empty());
    let a = arena.spawn("a");
    let b = arena.spawn("b");
    let c = arena.spawn("c");
    assert_eq!((a.as_u64(), b.as_u64(), c.as_u64()), (0, 1, 2));
    assert_eq!(arena.entity_ids_sorted(), vec![a, b, c]);
    assert_eq!(arena.despawn(b), Some("b"));
    assert_eq!(arena.despawn(b), None);
    let d = arena.spawn("d");
    assert_eq!(d.as_u64(), 3);
    assert_eq!(arena.entity_ids_sorted(), vec![a, c, d]);
    assert_eq!(arena.entities_sorted(), &["a", "c", "d"]);
    assert_eq!(arena.entity_count(), 3);
    assert_eq!(arena.get(c), Some(&"c"));
    assert_eq!(arena.get(b), None);
    assert_eq!(arena.get(EntityId::new(99)), None);
}

#[test]
fn arena_get_mut_tick_and_trace_ids() {
    let mut arena: Arena<u32> = Arena::new();
    assert_eq!(arena.peek_next_id(), EntityId::new(0));
    let a = arena.spawn(10);
    assert_eq!(arena.peek_next_id(), EntityId::new(1));
    if let Some(e) = arena.get_mut(a) {
        *e = 20;
    }
    assert_eq!(arena.get(a), Some(&20));
    assert!(arena.get_mut(EntityId::new(5)).is_none());
    assert_eq!(arena.current_tick(), 0);
    arena.advance_tick();
    arena.advance_tick();
    assert_eq!(arena.current_tick(), 2);
    assert_eq!(arena.new_trace_id().as_u64(), 0);
    assert_eq!(arena.new_trace_id().as_u64(), 1);
    assert_eq!(arena.try_new_trace_id().map(|t| t.as_u64()), Some(2));
}

#[test]
fn hasher_matches_fnv1a_reference_vectors() {
    let h = StateHasher::new();
    assert_eq!(h.finish(), 0xcbf29ce484222325);
    let mut h = StateHasher::new();
    h.write_u8(b'a');
    assert_eq!(h.finish(), 0xaf63dc4c8601ec8c);
    let mut h = StateHasher::new();
    for b in b"foobar" {
        h.write_u8(*b);
    }
    assert_eq!(h.finish(), 0x85944171f73967e8);
}

#[test]
fn hasher_words_are_little_endian() {
    let mut h = StateHasher::new();
    h.write_u64(0x0102030405060708);
    assert_eq!(h.finish(), 0x0c6d4496e17859d5);
    let mut a = StateHasher::new();
    a.write_bool(true);
    let mut b = StateHasher::new();
    b.write_u8(1);
    assert_eq!(a.finish(), b.finish());
}

#[test]
fn trace_ids_are_deterministic_and_seed_dependent() {
    assert_eq!(trace_id_for(42, 0, 0, 0).as_u64(), 0x96e2b0a64c616a8f);
    assert_eq!(trace_id_for(42, 10, 5, 2), trace_id_for(42, 10, 5, 2));
    assert_ne!(trace_id_for(42, 10, 5, 2), trace_id_for(42, 10, 5, 3));
    assert_ne!(trace_id_for(42, 0, 0, 0), trace_id_for(43, 0, 0, 0));
}

#[test]
fn bounds_hash_feeds_six_words() {
    let mut h = StateHasher::new();
    hash_bounds(&[1, 2, 3, 4, 5, 6], &mut h);
    assert_eq!(h.finish(), 0x1872e72089559482);
    let mut manual = StateHasher::new();
    for w in 1..=6u32 {
        manual.write_u32(w);
    }
    assert_eq!(h.finish(), manual.finish());
}

#[test]
fn field_indices_are_fixed() {
    let all = Field::all();
    assert_eq!(all.len(), FIELD_COUNT);
    for (i, f) in all.iter().enumerate() {
        assert_eq!(f.index(), i);
        assert_eq!(Field::from_index(i), Some(*f));
    }
    assert_eq!(Field::Temperature.index(), 3);
    assert_eq!(Field::SonarReturn.index(), 11);
    assert_eq!(Field::from_index(12), None);
}

#[test]
fn resolution_levels_clamp_to_tree_depth() {
    assert_eq!(ResolutionLevel::Coarse.max_depth(10), 3);
    assert_eq!(ResolutionLevel::Medium.max_depth(10), 5);
    assert_eq!(ResolutionLevel::Fine.max_depth(10), 7);
    assert_eq!(ResolutionLevel::Fine.max_depth(4), 4);
    assert_eq!(ResolutionLevel::Full.max_depth(9), 9);
    assert_eq!(ResolutionLevel::Variance.max_depth(6), 6);
    assert_eq!(ResolutionLevel::Depth(12).max_depth(8), 8);
    assert_eq!(ResolutionLevel::Depth(2).max_depth(8), 2);
}

#[test]
fn octant_numbering_round_trips() {
    assert_eq!(octant_index(false, false, false), 0);
    assert_eq!(octant_index(true, false, false), 1);
    assert_eq!(octant_index(false, true, false), 2);
    assert_eq!(octant_index(false, false, true), 4);
    assert_eq!(octant_index(true, true, true), 7);
    for o in 0..8usize {
        let (x, y, z) = octant_sides(o);
        assert_eq!(octant_index(x, y, z), o);
    }
}

#[test]
fn directions_and_offsets() {
    assert_eq!(Direction::xy_directions(), [Direction::PosX, Direction::NegX, Direction::PosY, Direction::NegY]);
    assert_eq!(Direction::all().len(), 6);
    assert_eq!(Direction::NegY.offset(), (0, -1, 0));
    assert_eq!(Direction::PosZ.offset(), (0, 0, 1));
}

#[test]
fn material_stats_merge_picks_larger_mode() {
    let a = MaterialStats::from_value(3);
    assert_eq!(a.mode, 3);
    assert_eq!(a.sample_count, 1);
    assert_eq!(a.distribution[0], (3, 1));
    let empty = MaterialStats::empty();
    assert_eq!(empty.sample_count, 0);
    assert_eq!(MaterialStats::default(), empty);
    let mut b = MaterialStats::from_value(7);
    b.mode_count = 5;
    b.sample_count = 6;
    let m = MaterialStats::merge(&a, &b);
    assert_eq!(m.mode, 7);
    assert_eq!(m.mode_count, 5);
    assert_eq!(m.sample_count, 7);
    let tie = MaterialStats::merge(&a, &MaterialStats::from_value(9));
    assert_eq!(tie.mode, 3);
    let all = MaterialStats::merge_many(&[a, b, MaterialStats::from_value(1)]);
    assert_eq!(all.sample_count, 8);
    assert_eq!(all.mode, 7);
    assert_eq!(MaterialStats::merge_many(&[]), empty);
}

#[test]
fn defaults_of_plain_types() {
    assert_eq!(EmissionsMode::default(), EmissionsMode::Passive);
    assert_eq!(TrackQuality::default(), TrackQuality::Cue);
    assert_eq!(OctreeStats::default(), OctreeStats { node_count: 0, leaf_count: 0, max_depth: 0 });
    assert_eq!(TrackQuality::FireControl.rank(), 2);
    assert!(TrackQuality::Shared.at_least(TrackQuality::Coarse));
    assert!(!TrackQuality::Cue.at_least(TrackQuality::Coarse));
}

#[test]
fn work_list_follows_entity_then_registration_order() {
    let mut registry: PluginRegistry<&str> = PluginRegistry::new();
    registry.register(EntityTag::Ship, "movement");
    registry.register(EntityTag::Ship, "weapon");
    registry.register(EntityTag::Platform, "sensor");
    let entities = [
        (EntityId::new(0), EntityTag::Ship),
        (EntityId::new(1), EntityTag::Projectile),
        (EntityId::new(2), EntityTag::Platform),
    ];
    let work = plugin_work_list(&entities, &registry);
    assert_eq!(work, vec![(EntityId::new(0), 0), (EntityId::new(0), 1), (EntityId::new(2), 0)]);
}

#[test]
fn resolvers_receive_only_their_kinds() {
    let kinds = [OutputKind::Command, OutputKind::Event, OutputKind::Modifier, OutputKind::Command];
    assert_eq!(outputs_for_resolver(&kinds, &[OutputKind::Command]), vec![0, 3]);
    assert_eq!(outputs_for_resolver(&kinds, &[OutputKind::Modifier]), vec![2]);
    assert_eq!(outputs_for_resolver(&kinds, &[]), Vec::<usize>::new());
}

#[test]
fn sensor_skips_itself() {
    let me = EntityId::new(1);
    let nearby = [EntityId::new(0), EntityId::new(1), EntityId::new(4)];
    let contacts = sensor_contacts(me, &nearby);
    assert_eq!(
        contacts,
        vec![
            Contact { observer: me, target: EntityId::new(0), quality: TrackQuality::Coarse },
            Contact { observer: me, target: EntityId::new(4), quality: TrackQuality::Coarse },
        ]
    );
    assert!(sensor_contacts(me, &[me]).is_empty());
}

#[test]
fn weapon_fires_ready_weapons_at_first_track() {
    let me = EntityId::new(0);
    let target = EntityId::new(1);
    let orders = weapon_fire_orders(me, &[(0, true)], &[target]);
    assert_eq!(orders, vec![FireOrder { source: me, target, slot: 0 }]);
    let orders = weapon_fire_orders(me, &[(0, false), (1, true), (2, true)], &[EntityId::new(7), target]);
    assert_eq!(
        orders,
        vec![
            FireOrder { source: me, target: EntityId::new(7), slot: 1 },
            FireOrder { source: me, target: EntityId::new(7), slot: 2 },
        ]
    );
    assert!(weapon_fire_orders(me, &[(0, true)], &[]).is_empty());
}

#[test]
fn decimal_digits_of_u64() {
    assert_eq!(u64_decimal(0), "0");
    assert_eq!(u64_decimal(9), "9");
    assert_eq!(u64_decimal(10), "10");
    assert_eq!(u64_decimal(1234567890), "1234567890");
    assert_eq!(u64_decimal(u64::MAX), "18446744073709551615");
}

#[test]
fn each_fire_order_reports_weapon_fired() {
    let me = EntityId::new(0);
    let orders = weapon_fire_orders(me, &[(0, true), (1, false)], &[EntityId::new(1)]);
    let fired = weapon_fired_events(&orders);
    assert_eq!(fired, vec![WeaponFired { source: me, weapon_slot: 0 }]);
    assert!(weapon_fired_events(&[]).is_empty());
}

fn leaf(depth: u8, v: u32) -> NodeImage {
    NodeImage { depth, bounds: [1, 2, 3, 4, 5, 6], state: NodeImageState::Leaf { values: vec![v; 12] } }
}

fn feed_header(h: &mut StateHasher, depth: u8) {
    h.write_u8(depth);
    for b in 1..=6u32 {
        h.write_u32(b);
    }
}

#[test]
fn node_hash_follows_the_byte_layout() {
    let empty = NodeImage { depth: 0, bounds: [1, 2, 3, 4, 5, 6], state: NodeImageState::Empty };
    let mut a = StateHasher::new();
    hash_node(&empty, &mut a);
    let mut b = StateHasher::new();
    feed_header(&mut b, 0);
    b.write_u8(0);
    assert_eq!(a.finish(), b.finish());

    let mut a = StateHasher::new();
    hash_node(&leaf(2, 7), &mut a);
    let mut b = StateHasher::new();
    feed_header(&mut b, 2);
    b.write_u8(1);
    for _ in 0..12 {
        b.write_u32(7);
    }
    assert_eq!(a.finish(), b.finish());
}

#[test]
fn internal_node_hash_walks_child_slots_in_order() {
    let scalar = ScalarStatsImage { mean: 1, variance: 2, min: 3, max: 4, sample_count: 5 };
    let material = MaterialStats::from_value(3);
    let mut children: Vec<Option<Box<NodeImage>>> = (0..8).map(|_| None).collect();
    children[2] = Some(Box::new(leaf(1, 9)));
    let node = NodeImage {
        depth: 0,
        bounds: [1, 2, 3, 4, 5, 6],
        state: NodeImageState::Internal { stats: StatsImage { scalars: vec![scalar; 12], material }, children },
    };
    let mut a = StateHasher::new();
    hash_node(&node, &mut a);

    let mut b = StateHasher::new();
    feed_header(&mut b, 0);
    b.write_u8(2);
    for _ in 0..12 {
        for w in [1u32, 2, 3, 4, 5] {
            b.write_u32(w);
        }
    }
    b.write_u8(3);
    b.write_u32(1);
    b.write_u32(1);
    for (m, c) in [(3u8, 1u32), (0, 0), (0, 0), (0, 0)] {
        b.write_u8(m);
        b.write_u32(c);
    }
    for i in 0..8u64 {
        b.write_u64(i);
        if i == 2 {
            b.write_u8(1);
            hash_node(&leaf(1, 9), &mut b);
        } else {
            b.write_u8(0);
        }
    }
    assert_eq!(a.finish(), b.finish());
}

#[test]
fn universe_hash_covers_tick_time_seed_and_tree() {
    let root = || NodeImage { depth: 0, bounds: [0; 6], state: NodeImageState::Empty };
    let h = hash_universe_image(3, 0x3ff0000000000000, Some(42), &root());
    let mut b = StateHasher::new();
    b.write_u64(3);
    b.write_u64(0x3ff0000000000000);
    b.write_u8(1);
    b.write_u64(42);
    hash_node(&root(), &mut b);
    assert_eq!(h, b.finish());
    assert_eq!(h, hash_universe_image(3, 0x3ff0000000000000, Some(42), &root()));
    assert_ne!(h, hash_universe_image(3, 0x3ff0000000000000, Some(43), &root()));
    assert_ne!(h, hash_universe_image(3, 0x3ff0000000000000, None, &root()));
    assert_ne!(h, hash_universe_image(4, 0x3ff0000000000000, Some(42), &root()));
}

#[test]
fn arena_live_ids_are_spawned_minus_despawned() {
    let mut arena: Arena<u8> = Arena::new();
    let ids: Vec<EntityId> = (0..6).map(|i| arena.spawn(i)).collect();
    assert_eq!(arena.despawn(EntityId::new(9)), None);
    arena.despawn(ids[1]);
    arena.despawn(ids[4]);
    arena.despawn(ids[1]);
    let late = arena.spawn(6);
    assert_eq!(late.as_u64(), 6);
    let live = arena.entity_ids_sorted();
    assert_eq!(live, vec![ids[0], ids[2], ids[3], ids[5], late]);
    assert_eq!(live.len(), arena.entity_count());
    for e in arena.entities_sorted_mut() {
        *e += 10;
    }
    assert_eq!(arena.entities_sorted(), &[10, 12, 13, 15, 16]);
}
