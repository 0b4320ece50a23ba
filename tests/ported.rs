use std::collections::HashSet;
use std::sync::Arc;

use tidebreak::arena::Arena;
use tidebreak::field::Direction;
use tidebreak::ids::{ComponentKind, EntityId, EntityTag, OutputKind, PluginId, TraceId};
use tidebreak::plugin::{
    MovementPlugin, PluginContext, PluginDeclaration, PluginRegistry, ProjectilePlugin, SensorPlugin, WeaponPlugin,
};
use tidebreak::statehash::trace_id_for;

/// A stand-in entity: its tag and hit points.
type Ent = (EntityTag, u32);

fn ship() -> Ent {
    (EntityTag::Ship, 100)
}

#[test]
fn mod_hashing() {
    let mut set = HashSet::new();
    set.insert(EntityId::new(1));
    set.insert(EntityId::new(2));
    set.insert(EntityId::new(1));
    assert_eq!(set.len(), 2);
    assert!(set.contains(&EntityId::new(1)));
    assert!(set.contains(&EntityId::new(2)));

    let mut tags = HashSet::new();
    tags.insert(EntityTag::Ship);
    tags.insert(EntityTag::Platform);
    tags.insert(EntityTag::Ship);
    assert_eq!(tags.len(), 2);
}

#[test]
fn output_hashing() {
    let mut set = HashSet::new();
    set.insert(PluginId::new("a"));
    set.insert(PluginId::new("b"));
    set.insert(PluginId::new("a"));
    assert_eq!(set.len(), 2);
}

#[test]
fn plugin_hashing() {
    let mut set = HashSet::new();
    set.insert(PluginId::new("a"));
    set.insert(PluginId::new("b"));
    set.insert(PluginId::new("a"));
    assert_eq!(set.len(), 2);
    assert!(set.contains(&PluginId::new("a")));
    assert!(set.contains(&PluginId::new("b")));

    let mut kinds = HashSet::new();
    kinds.insert(ComponentKind::Transform);
    kinds.insert(ComponentKind::Physics);
    kinds.insert(ComponentKind::Transform);
    assert_eq!(kinds.len(), 2);
}

#[test]
fn plugin_debug_format() {
    let id = PluginId::new("test");
    let debug = format!("{:?}", id);
    assert!(debug.contains("PluginId"));
    assert!(debug.contains("test"));

    let ctx = PluginContext { entity_id: EntityId::new(1), tick: 0, trace_id: TraceId::new(0) };
    let debug = format!("{:?}", ctx);
    assert!(debug.contains("PluginContext"));
    assert!(debug.contains("entity_id"));
    assert!(debug.contains("tick"));
    assert!(debug.contains("trace_id"));
}

#[test]
fn test_direction_offset() {
    assert_eq!(Direction::PosX.offset(), (1, 0, 0));
    assert_eq!(Direction::NegX.offset(), (-1, 0, 0));
    assert_eq!(Direction::PosY.offset(), (0, 1, 0));
    assert_eq!(Direction::NegY.offset(), (0, -1, 0));
    assert_eq!(Direction::PosZ.offset(), (0, 0, 1));
    assert_eq!(Direction::NegZ.offset(), (0, 0, -1));
}

#[test]
fn test_xy_directions() {
    let xy = Direction::xy_directions();
    assert_eq!(xy.len(), 4);
    assert!(xy.contains(&Direction::PosX));
    assert!(xy.contains(&Direction::NegX));
    assert!(xy.contains(&Direction::PosY));
    assert!(xy.contains(&Direction::NegY));
    assert!(!xy.contains(&Direction::PosZ));
    assert!(!xy.contains(&Direction::NegZ));
}

#[test]
fn simulation_different_seeds_produce_different_trace_ids() {
    let trace1 = trace_id_for(1, 0, 0, 0);
    let trace2 = trace_id_for(2, 0, 0, 0);
    assert_ne!(trace1, trace2);
}

#[test]
fn trace_ids_are_deterministic() {
    let trace1 = trace_id_for(12345, 10, 5, 2);
    let trace2 = trace_id_for(12345, 10, 5, 2);
    assert_eq!(trace1, trace2);
    let trace3 = trace_id_for(12345, 10, 5, 3);
    assert_ne!(trace1, trace3);
}

#[test]
fn new_creates_empty_arena() {
    let arena: Arena<Ent> = Arena::new();
    assert!(arena.is_empty());
    assert_eq!(arena.entity_count(), 0);
    assert_eq!(arena.current_tick(), 0);
}

#[test]
fn default_creates_empty_arena() {
    let arena: Arena<Ent> = Arena::default();
    assert!(arena.is_empty());
}

#[test]
fn spawn_creates_entity_with_sequential_ids() {
    let mut arena = Arena::new();
    let id1 = arena.spawn(ship());
    let id2 = arena.spawn(ship());
    let id3 = arena.spawn(ship());
    assert_eq!(id1, EntityId::new(0));
    assert_eq!(id2, EntityId::new(1));
    assert_eq!(id3, EntityId::new(2));
    assert_eq!(arena.entity_count(), 3);
}

#[test]
fn despawn_removes_entity() {
    let mut arena = Arena::new();
    let id = arena.spawn(ship());
    let removed = arena.despawn(id);
    assert!(removed.is_some());
    assert!(arena.get(id).is_none());
    assert!(arena.is_empty());
}

#[test]
fn despawn_nonexistent_returns_none() {
    let mut arena: Arena<Ent> = Arena::new();
    let removed = arena.despawn(EntityId::new(999));
    assert!(removed.is_none());
}

#[test]
fn get_returns_entity() {
    let mut arena = Arena::new();
    let id = arena.spawn(ship());
    let entity = arena.get(id);
    assert!(entity.is_some());
    assert_eq!(entity.unwrap().0, EntityTag::Ship);
}

#[test]
fn get_nonexistent_returns_none() {
    let arena: Arena<Ent> = Arena::new();
    assert!(arena.get(EntityId::new(999)).is_none());
}

#[test]
fn get_mut_returns_mutable_entity() {
    let mut arena = Arena::new();
    let id = arena.spawn(ship());
    let entity = arena.get_mut(id).unwrap();
    entity.1 = 50;
    let entity = arena.get(id).unwrap();
    assert_eq!(entity.1, 50);
}

#[test]
fn entity_ids_sorted_returns_deterministic_order() {
    let mut arena = Arena::new();
    arena.spawn(ship());
    arena.spawn(ship());
    arena.spawn(ship());
    let ids = arena.entity_ids_sorted();
    assert_eq!(ids, vec![EntityId::new(0), EntityId::new(1), EntityId::new(2)]);
}

#[test]
fn entity_ids_sorted_after_despawn() {
    let mut arena = Arena::new();
    let id0 = arena.spawn(ship());
    let id1 = arena.spawn(ship());
    let id2 = arena.spawn(ship());
    arena.despawn(id1);
    assert_eq!(arena.entity_ids_sorted(), vec![id0, id2]);
}

#[test]
fn entities_sorted_iterator() {
    let mut arena = Arena::new();
    arena.spawn(ship());
    arena.spawn((EntityTag::Platform, 0));
    let entities = arena.entities_sorted();
    assert_eq!(entities.len(), 2);
    assert_eq!(entities[0].0, EntityTag::Ship);
    assert_eq!(entities[1].0, EntityTag::Platform);
}

#[test]
fn new_trace_id_generates_sequential_ids() {
    let mut arena: Arena<Ent> = Arena::new();
    let trace1 = arena.new_trace_id();
    let trace2 = arena.new_trace_id();
    let trace3 = arena.new_trace_id();
    assert_eq!(trace1.as_u64(), 0);
    assert_eq!(trace2.as_u64(), 1);
    assert_eq!(trace3.as_u64(), 2);
}

#[test]
fn advance_tick_increments() {
    let mut arena: Arena<Ent> = Arena::new();
    assert_eq!(arena.current_tick(), 0);
    arena.advance_tick();
    assert_eq!(arena.current_tick(), 1);
    arena.advance_tick();
    arena.advance_tick();
    assert_eq!(arena.current_tick(), 3);
}

#[test]
fn determinism_test_iteration_order() {
    fn populate(arena: &mut Arena<Ent>) -> Vec<EntityId> {
        vec![
            arena.spawn((EntityTag::Ship, 100)),
            arena.spawn((EntityTag::Platform, 0)),
            arena.spawn((EntityTag::Projectile, 0)),
            arena.spawn((EntityTag::Squadron, 100)),
        ]
    }
    let mut arena1 = Arena::new();
    let mut arena2 = Arena::new();
    let ids1 = populate(&mut arena1);
    let ids2 = populate(&mut arena2);
    assert_eq!(ids1, ids2);
    assert_eq!(arena1.entity_ids_sorted(), arena2.entity_ids_sorted());
}

/// A stand-in plugin: only its declaration.
struct TestPlugin {
    declaration: PluginDeclaration,
}

impl TestPlugin {
    fn new(id: &str, tags: Vec<EntityTag>) -> Self {
        Self {
            declaration: PluginDeclaration {
                id: PluginId::new(id),
                required_tags: tags,
                reads: vec![ComponentKind::Transform],
                emits: vec![OutputKind::Command],
            },
        }
    }
}

#[test]
fn new_creates_empty_registry() {
    let registry: PluginRegistry<Arc<TestPlugin>> = PluginRegistry::new();
    assert!(registry.is_empty());
    assert_eq!(registry.registration_count(), 0);
}

#[test]
fn default_creates_empty_registry() {
    let registry: PluginRegistry<Arc<TestPlugin>> = PluginRegistry::default();
    assert!(registry.is_empty());
}

#[test]
fn register_single_plugin() {
    let mut registry = PluginRegistry::new();
    let plugin = Arc::new(TestPlugin::new("test", vec![EntityTag::Ship]));
    registry.register(EntityTag::Ship, plugin);
    assert!(!registry.is_empty());
    assert_eq!(registry.registration_count(), 1);
    assert_eq!(registry.plugins_for(EntityTag::Ship).len(), 1);
}

#[test]
fn register_multiple_plugins_same_tag() {
    let mut registry = PluginRegistry::new();
    let plugin1 = Arc::new(TestPlugin::new("movement", vec![EntityTag::Ship]));
    let plugin2 = Arc::new(TestPlugin::new("weapon", vec![EntityTag::Ship]));
    registry.register(EntityTag::Ship, plugin1);
    registry.register(EntityTag::Ship, plugin2);
    assert_eq!(registry.plugins_for(EntityTag::Ship).len(), 2);
    assert_eq!(registry.registration_count(), 2);
}

#[test]
fn register_plugin_multiple_tags() {
    let mut registry = PluginRegistry::new();
    let plugin = Arc::new(TestPlugin::new("movement", vec![EntityTag::Ship, EntityTag::Squadron]));
    registry.register(EntityTag::Ship, plugin.clone());
    registry.register(EntityTag::Squadron, plugin);
    assert_eq!(registry.plugins_for(EntityTag::Ship).len(), 1);
    assert_eq!(registry.plugins_for(EntityTag::Squadron).len(), 1);
    assert_eq!(registry.registration_count(), 2);
}

#[test]
fn plugins_for_empty_tag() {
    let registry: PluginRegistry<Arc<TestPlugin>> = PluginRegistry::new();
    let plugins = registry.plugins_for(EntityTag::Ship);
    assert!(plugins.is_empty());
}

#[test]
fn plugins_for_unregistered_tag() {
    let mut registry = PluginRegistry::new();
    let plugin = Arc::new(TestPlugin::new("test", vec![EntityTag::Ship]));
    registry.register(EntityTag::Ship, plugin);
    assert!(registry.plugins_for(EntityTag::Platform).is_empty());
    assert!(registry.plugins_for(EntityTag::Projectile).is_empty());
    assert!(registry.plugins_for(EntityTag::Squadron).is_empty());
}

#[test]
fn clear_removes_all() {
    let mut registry = PluginRegistry::new();
    registry.register(EntityTag::Ship, Arc::new(TestPlugin::new("a", vec![EntityTag::Ship])));
    registry.register(EntityTag::Platform, Arc::new(TestPlugin::new("b", vec![EntityTag::Platform])));
    registry.clear();
    assert!(registry.is_empty());
    assert_eq!(registry.registration_count(), 0);
}

#[test]
fn plugin_declaration_accessible() {
    let mut registry = PluginRegistry::new();
    let plugin = Arc::new(TestPlugin::new("test_plugin", vec![EntityTag::Ship]));
    registry.register(EntityTag::Ship, plugin);
    let plugins = registry.plugins_for(EntityTag::Ship);
    assert_eq!(plugins[0].declaration.id.as_str(), "test_plugin");
}

#[test]
fn movement_declaration_has_correct_tags() {
    let plugin = MovementPlugin::new();
    let decl = plugin.declaration();
    assert!(decl.required_tags.contains(&EntityTag::Ship));
    assert!(decl.required_tags.contains(&EntityTag::Squadron));
    assert!(!decl.required_tags.contains(&EntityTag::Platform));
    assert!(!decl.required_tags.contains(&EntityTag::Projectile));
}

#[test]
fn movement_declaration_reads_transform_and_physics() {
    let plugin = MovementPlugin::new();
    let decl = plugin.declaration();
    assert!(decl.reads.contains(&ComponentKind::Transform));
    assert!(decl.reads.contains(&ComponentKind::Physics));
}

#[test]
fn movement_declaration_emits_commands() {
    let plugin = MovementPlugin::new();
    assert!(plugin.declaration().emits.contains(&OutputKind::Command));
}

#[test]
fn projectile_declaration_has_correct_tags() {
    let plugin = ProjectilePlugin::new();
    let decl = plugin.declaration();
    assert!(decl.required_tags.contains(&EntityTag::Projectile));
    assert!(!decl.required_tags.contains(&EntityTag::Ship));
    assert!(!decl.required_tags.contains(&EntityTag::Platform));
    assert!(!decl.required_tags.contains(&EntityTag::Squadron));
}

#[test]
fn projectile_declaration_reads_transform_and_physics() {
    let plugin = ProjectilePlugin::new();
    let decl = plugin.declaration();
    assert!(decl.reads.contains(&ComponentKind::Transform));
    assert!(decl.reads.contains(&ComponentKind::Physics));
}

#[test]
fn projectile_declaration_emits_commands() {
    let plugin = ProjectilePlugin::new();
    assert!(plugin.declaration().emits.contains(&OutputKind::Command));
}

#[test]
fn sensor_declaration_has_correct_tags() {
    let plugin = SensorPlugin::new();
    let decl = plugin.declaration();
    assert!(decl.required_tags.contains(&EntityTag::Ship));
    assert!(decl.required_tags.contains(&EntityTag::Platform));
    assert!(!decl.required_tags.contains(&EntityTag::Squadron));
    assert!(!decl.required_tags.contains(&EntityTag::Projectile));
}

#[test]
fn declaration_reads_transform_and_sensor() {
    let plugin = SensorPlugin::new();
    let decl = plugin.declaration();
    assert!(decl.reads.contains(&ComponentKind::Transform));
    assert!(decl.reads.contains(&ComponentKind::Sensor));
}

#[test]
fn declaration_emits_events() {
    let plugin = SensorPlugin::new();
    assert!(plugin.declaration().emits.contains(&OutputKind::Event));
}

#[test]
fn weapon_declaration_has_correct_tags() {
    let plugin = WeaponPlugin::new();
    let decl = plugin.declaration();
    assert!(decl.required_tags.contains(&EntityTag::Ship));
    assert!(decl.required_tags.contains(&EntityTag::Squadron));
    assert!(!decl.required_tags.contains(&EntityTag::Platform));
    assert!(!decl.required_tags.contains(&EntityTag::Projectile));
}

#[test]
fn declaration_reads_correct_components() {
    let plugin = WeaponPlugin::new();
    let decl = plugin.declaration();
    assert!(decl.reads.contains(&ComponentKind::Transform));
    assert!(decl.reads.contains(&ComponentKind::Combat));
    assert!(decl.reads.contains(&ComponentKind::Sensor));
}

#[test]
fn declaration_emits_commands_and_events() {
    let plugin = WeaponPlugin::new();
    let decl = plugin.declaration();
    assert!(decl.emits.contains(&OutputKind::Command));
    assert!(decl.emits.contains(&OutputKind::Event));
}
