//! Plugin declarations, plugin contexts, the per-tag plugin registry, and
//! the declarations of the baseline plugins and resolvers.
use vstd::prelude::*;
use crate::ids::{ComponentKind, EntityId, EntityTag, OutputKind, PluginId, TraceId};

verus! {

/// What a plugin runs on, reads and emits.
#[derive(Clone, Debug)]
pub struct PluginDeclaration {
    /// Identifier of the plugin.
    pub id: PluginId,
    /// Entity tags the plugin runs on.
    pub required_tags: Vec<EntityTag>,
    /// Component kinds the plugin may read through its world view.
    pub reads: Vec<ComponentKind>,
    /// Output kinds the plugin may emit.
    pub emits: Vec<OutputKind>,
}

impl PluginDeclaration {
    /// Whether the plugin runs on entities tagged `tag`.
    pub fn supports_tag(&self, tag: EntityTag) -> (r: bool)
        ensures
            r == self.required_tags@.contains(tag),
    {
        let mut i: usize = 0;
        while i < self.required_tags.len()
            invariant
                i <= self.required_tags@.len(),
                forall|j: int| 0 <= j < i ==> self.required_tags@[j] != tag,
            decreases self.required_tags@.len() - i,
        {
            if self.required_tags[i] == tag {
                return true;
            }
            i = i + 1;
        }
        false
    }

    /// Whether the plugin declared that it reads components of `kind`.
    pub fn reads_component(&self, kind: ComponentKind) -> (r: bool)
        ensures
            r == self.reads@.contains(kind),
    {
        let mut i: usize = 0;
        while i < self.reads.len()
            invariant
                i <= self.reads@.len(),
                forall|j: int| 0 <= j < i ==> self.reads@[j] != kind,
            decreases self.reads@.len() - i,
        {
            if self.reads[i] == kind {
                return true;
            }
            i = i + 1;
        }
        false
    }

    /// Whether the plugin declared that it may emit outputs of `kind`.
    pub fn emits_output(&self, kind: OutputKind) -> (r: bool)
        ensures
            r == self.emits@.contains(kind),
    {
        let mut i: usize = 0;
        while i < self.emits.len()
            invariant
                i <= self.emits@.len(),
                forall|j: int| 0 <= j < i ==> self.emits@[j] != kind,
            decreases self.emits@.len() - i,
        {
            if self.emits[i] == kind {
                return true;
            }
            i = i + 1;
        }
        false
    }
}

/// What a plugin is told about the instance it runs as.
#[derive(Clone, Copy, Debug)]
pub struct PluginContext {
    /// The entity the plugin runs on.
    pub entity_id: EntityId,
    /// The current simulation tick.
    pub tick: u64,
    /// Trace id of this plugin instance in this tick.
    pub trace_id: TraceId,
}


/// The declaration of the movement plugin: runs on ships and squadrons,
/// reads transform and physics, emits commands.
pub open spec fn movement_declaration(d: PluginDeclaration) -> bool {
    &&& d.id@ == "movement"@
    &&& d.required_tags@ == seq![EntityTag::Ship, EntityTag::Squadron]
    &&& d.reads@ == seq![ComponentKind::Transform, ComponentKind::Physics]
    &&& d.emits@ == seq![OutputKind::Command]
}

/// The declaration of the projectile plugin: runs on projectiles, reads
/// transform and physics, emits commands.
pub open spec fn projectile_declaration(d: PluginDeclaration) -> bool {
    &&& d.id@ == "projectile"@
    &&& d.required_tags@ == seq![EntityTag::Projectile]
    &&& d.reads@ == seq![ComponentKind::Transform, ComponentKind::Physics]
    &&& d.emits@ == seq![OutputKind::Command]
}

/// The declaration of the sensor plugin: runs on ships and platforms,
/// reads transform and sensor, emits events.
pub open spec fn sensor_declaration(d: PluginDeclaration) -> bool {
    &&& d.id@ == "sensor"@
    &&& d.required_tags@ == seq![EntityTag::Ship, EntityTag::Platform]
    &&& d.reads@ == seq![ComponentKind::Transform, ComponentKind::Sensor]
    &&& d.emits@ == seq![OutputKind::Event]
}

/// The declaration of the weapon plugin: runs on ships and squadrons,
/// reads transform, combat and sensor, emits commands and events.
pub open spec fn weapon_declaration(d: PluginDeclaration) -> bool {
    &&& d.id@ == "weapon"@
    &&& d.required_tags@ == seq![EntityTag::Ship, EntityTag::Squadron]
    &&& d.reads@ == seq![ComponentKind::Transform, ComponentKind::Combat, ComponentKind::Sensor]
    &&& d.emits@ == seq![OutputKind::Command, OutputKind::Event]
}

/// Plugin that steers ships and squadrons; it proposes no change of its own yet.
pub struct MovementPlugin {
    declaration: PluginDeclaration,
}

impl MovementPlugin {
    #[verifier::type_invariant]
    spec fn wf(&self) -> bool {
        movement_declaration(self.declaration)
    }

    /// A movement plugin.
    pub fn new() -> (r: MovementPlugin)
        ensures
            movement_declaration(r.spec_declaration()),
    {
        let declaration = PluginDeclaration {
            id: PluginId::from_static("movement"),
            required_tags: vec![EntityTag::Ship, EntityTag::Squadron],
            reads: vec![ComponentKind::Transform, ComponentKind::Physics],
            emits: vec![OutputKind::Command],
        };
        assert(declaration.required_tags@ =~= seq![EntityTag::Ship, EntityTag::Squadron]);
        assert(declaration.reads@ =~= seq![ComponentKind::Transform, ComponentKind::Physics]);
        assert(declaration.emits@ =~= seq![OutputKind::Command]);
        MovementPlugin { declaration }
    }

    /// The declaration this plugin was built with.
    pub closed spec fn spec_declaration(&self) -> PluginDeclaration {
        self.declaration
    }

    /// The declaration of this plugin.
    pub fn declaration(&self) -> (r: &PluginDeclaration)
        ensures
            movement_declaration(*r),
    {
        proof {
            use_type_invariant(self);
        }
        &self.declaration
    }
}

impl Default for MovementPlugin {
    fn default() -> (r: MovementPlugin)
        ensures
            movement_declaration(r.spec_declaration()),
    {
        MovementPlugin::new()
    }
}
/// Plugin that runs on projectiles; projectiles coast, so it proposes nothing.
pub struct ProjectilePlugin {
    declaration: PluginDeclaration,
}

impl ProjectilePlugin {
    #[verifier::type_invariant]
    spec fn wf(&self) -> bool {
        projectile_declaration(self.declaration)
    }

    /// A projectile plugin.
    pub fn new() -> (r: ProjectilePlugin)
        ensures
            projectile_declaration(r.spec_declaration()),
    {
        let declaration = PluginDeclaration {
            id: PluginId::from_static("projectile"),
            required_tags: vec![EntityTag::Projectile],
            reads: vec![ComponentKind::Transform, ComponentKind::Physics],
            emits: vec![OutputKind::Command],
        };
        assert(declaration.required_tags@ =~= seq![EntityTag::Projectile]);
        assert(declaration.reads@ =~= seq![ComponentKind::Transform, ComponentKind::Physics]);
        assert(declaration.emits@ =~= seq![OutputKind::Command]);
        ProjectilePlugin { declaration }
    }

    /// The declaration this plugin was built with.
    pub closed spec fn spec_declaration(&self) -> PluginDeclaration {
        self.declaration
    }

    /// The declaration of this plugin.
    pub fn declaration(&self) -> (r: &PluginDeclaration)
        ensures
            projectile_declaration(*r),
    {
        proof {
            use_type_invariant(self);
        }
        &self.declaration
    }
}

impl Default for ProjectilePlugin {
    fn default() -> (r: ProjectilePlugin)
        ensures
            projectile_declaration(r.spec_declaration()),
    {
        ProjectilePlugin::new()
    }
}
/// Plugin that reports contacts within radar range of ships and platforms.
pub struct SensorPlugin {
    declaration: PluginDeclaration,
}

impl SensorPlugin {
    #[verifier::type_invariant]
    spec fn wf(&self) -> bool {
        sensor_declaration(self.declaration)
    }

    /// A sensor plugin.
    pub fn new() -> (r: SensorPlugin)
        ensures
            sensor_declaration(r.spec_declaration()),
    {
        let declaration = PluginDeclaration {
            id: PluginId::from_static("sensor"),
            required_tags: vec![EntityTag::Ship, EntityTag::Platform],
            reads: vec![ComponentKind::Transform, ComponentKind::Sensor],
            emits: vec![OutputKind::Event],
        };
        assert(declaration.required_tags@ =~= seq![EntityTag::Ship, EntityTag::Platform]);
        assert(declaration.reads@ =~= seq![ComponentKind::Transform, ComponentKind::Sensor]);
        assert(declaration.emits@ =~= seq![OutputKind::Event]);
        SensorPlugin { declaration }
    }

    /// The declaration this plugin was built with.
    pub closed spec fn spec_declaration(&self) -> PluginDeclaration {
        self.declaration
    }

    /// The declaration of this plugin.
    pub fn declaration(&self) -> (r: &PluginDeclaration)
        ensures
            sensor_declaration(*r),
    {
        proof {
            use_type_invariant(self);
        }
        &self.declaration
    }
}

impl Default for SensorPlugin {
    fn default() -> (r: SensorPlugin)
        ensures
            sensor_declaration(r.spec_declaration()),
    {
        SensorPlugin::new()
    }
}
/// Plugin that fires ready weapons at the first sensor track.
pub struct WeaponPlugin {
    declaration: PluginDeclaration,
}

impl WeaponPlugin {
    #[verifier::type_invariant]
    spec fn wf(&self) -> bool {
        weapon_declaration(self.declaration)
    }

    /// A weapon plugin.
    pub fn new() -> (r: WeaponPlugin)
        ensures
            weapon_declaration(r.spec_declaration()),
    {
        let declaration = PluginDeclaration {
            id: PluginId::from_static("weapon"),
            required_tags: vec![EntityTag::Ship, EntityTag::Squadron],
            reads: vec![ComponentKind::Transform, ComponentKind::Combat, ComponentKind::Sensor],
            emits: vec![OutputKind::Command, OutputKind::Event],
        };
        assert(declaration.required_tags@ =~= seq![EntityTag::Ship, EntityTag::Squadron]);
        assert(declaration.reads@ =~= seq![ComponentKind::Transform, ComponentKind::Combat, ComponentKind::Sensor]);
        assert(declaration.emits@ =~= seq![OutputKind::Command, OutputKind::Event]);
        WeaponPlugin { declaration }
    }

    /// The declaration this plugin was built with.
    pub closed spec fn spec_declaration(&self) -> PluginDeclaration {
        self.declaration
    }

    /// The declaration of this plugin.
    pub fn declaration(&self) -> (r: &PluginDeclaration)
        ensures
            weapon_declaration(*r),
    {
        proof {
            use_type_invariant(self);
        }
        &self.declaration
    }
}

impl Default for WeaponPlugin {
    fn default() -> (r: WeaponPlugin)
        ensures
            weapon_declaration(r.spec_declaration()),
    {
        WeaponPlugin::new()
    }
}


/// Plugins bundled by entity tag, each bundle in registration order.
pub struct PluginRegistry<P> {
    ship: Vec<P>,
    platform: Vec<P>,
    projectile: Vec<P>,
    squadron: Vec<P>,
}

impl<P> PluginRegistry<P> {
    /// The plugins registered for `tag`, in registration order.
    pub closed spec fn bundle(&self, tag: EntityTag) -> Seq<P> {
        match tag {
            EntityTag::Ship => self.ship@,
            EntityTag::Platform => self.platform@,
            EntityTag::Projectile => self.projectile@,
            EntityTag::Squadron => self.squadron@,
        }
    }

    /// The number of registrations over all tags.
    pub open spec fn total(&self) -> nat {
        self.bundle(EntityTag::Ship).len() + self.bundle(EntityTag::Platform).len()
            + self.bundle(EntityTag::Projectile).len() + self.bundle(EntityTag::Squadron).len()
    }

    /// An empty registry.
    pub fn new() -> (r: PluginRegistry<P>)
        ensures
            forall|t: EntityTag| r.bundle(t) == Seq::<P>::empty(),
    {
        PluginRegistry { ship: Vec::new(), platform: Vec::new(), projectile: Vec::new(), squadron: Vec::new() }
    }

    /// Appends `plugin` to the bundle of `tag`.
    pub fn register(&mut self, tag: EntityTag, plugin: P)
        ensures
            final(self).bundle(tag) == old(self).bundle(tag).push(plugin),
            forall|t: EntityTag| t != tag ==> final(self).bundle(t) == old(self).bundle(t),
    {
        match tag {
            EntityTag::Ship => self.ship.push(plugin),
            EntityTag::Platform => self.platform.push(plugin),
            EntityTag::Projectile => self.projectile.push(plugin),
            EntityTag::Squadron => self.squadron.push(plugin),
        }
    }

    /// The plugins registered for `tag`, in registration order.
    pub fn plugins_for(&self, tag: EntityTag) -> (r: &[P])
        ensures
            r@ == self.bundle(tag),
    {
        match tag {
            EntityTag::Ship => self.ship.as_slice(),
            EntityTag::Platform => self.platform.as_slice(),
            EntityTag::Projectile => self.projectile.as_slice(),
            EntityTag::Squadron => self.squadron.as_slice(),
        }
    }

    /// The number of registrations; a plugin registered for two tags counts
    /// twice. Saturates at `usize::MAX`.
    pub fn registration_count(&self) -> (r: usize)
        ensures
            r == (if self.total() <= usize::MAX { self.total() } else { usize::MAX as nat }),
    {
        let lens = [self.ship.len(), self.platform.len(), self.projectile.len(), self.squadron.len()];
        let mut sum: usize = 0;
        let mut i: usize = 0;
        let ghost parts = lens@;
        proof {
            assert(parts[0] == self.ship@.len() && parts[1] == self.platform@.len());
            assert(parts[2] == self.projectile@.len() && parts[3] == self.squadron@.len());
            assert(partial_sum(parts, 0) == 0);
            assert(partial_sum(parts, 1) == parts[0] as nat);
            assert(partial_sum(parts, 2) == parts[0] + parts[1]);
            assert(partial_sum(parts, 3) == parts[0] + parts[1] + parts[2]);
            assert(partial_sum(parts, 4) == self.total());
        }
        while i < 4
            invariant
                i <= 4,
                lens@ == parts,
                partial_sum(parts, 4) == self.total(),
                sum == (if partial_sum(parts, i as int) <= usize::MAX { partial_sum(parts, i as int) } else { usize::MAX as nat }),
            decreases 4 - i,
        {
            let n = lens[i];
            if sum > usize::MAX - n {
                sum = usize::MAX;
            } else {
                sum = sum + n;
            }
            i = i + 1;
        }
        sum
    }

    /// Whether no plugin is registered for any tag.
    pub fn is_empty(&self) -> (r: bool)
        ensures
            r == (self.total() == 0),
    {
        self.ship.len() == 0 && self.platform.len() == 0 && self.projectile.len() == 0
            && self.squadron.len() == 0
    }

    /// Removes every registration.
    pub fn clear(&mut self)
        ensures
            forall|t: EntityTag| final(self).bundle(t) == Seq::<P>::empty(),
    {
        self.ship.clear();
        self.platform.clear();
        self.projectile.clear();
        self.squadron.clear();
    }
}

impl<P> Default for PluginRegistry<P> {
    fn default() -> (r: PluginRegistry<P>)
        ensures
            forall|t: EntityTag| r.bundle(t) == Seq::<P>::empty(),
    {
        PluginRegistry::new()
    }
}

/// The sum of the first `k` entries of `parts`.
pub open spec fn partial_sum(parts: Seq<usize>, k: int) -> nat
    decreases k,
{
    if k <= 0 {
        0
    } else {
        partial_sum(parts, k - 1) + parts[k - 1] as nat
    }
}

/// The plugin ids of the default bundle of `tag`, in registration order:
/// ships run movement, weapon and sensor; platforms sensor; projectiles
/// projectile; squadrons movement and weapon.
pub open spec fn default_bundle(tag: EntityTag) -> Seq<Seq<char>> {
    match tag {
        EntityTag::Ship => seq!["movement"@, "weapon"@, "sensor"@],
        EntityTag::Platform => seq!["sensor"@],
        EntityTag::Projectile => seq!["projectile"@],
        EntityTag::Squadron => seq!["movement"@, "weapon"@],
    }
}

/// The ids of the plugins in the default bundle of `tag`, in registration order.
pub fn default_bundle_ids(tag: EntityTag) -> (r: Vec<PluginId>)
    ensures
        r@.len() == default_bundle(tag).len(),
        forall|i: int| 0 <= i < r@.len() ==> r@[i]@ == default_bundle(tag)[i],
{
    let mut r: Vec<PluginId> = Vec::new();
    match tag {
        EntityTag::Ship => {
            r.push(PluginId::from_static("movement"));
            r.push(PluginId::from_static("weapon"));
            r.push(PluginId::from_static("sensor"));
        },
        EntityTag::Platform => {
            r.push(PluginId::from_static("sensor"));
        },
        EntityTag::Projectile => {
            r.push(PluginId::from_static("projectile"));
        },
        EntityTag::Squadron => {
            r.push(PluginId::from_static("movement"));
            r.push(PluginId::from_static("weapon"));
        },
    }
    r
}

/// Resolver of modifiers: damage, healing and status flags.
#[derive(Clone, Copy, Debug)]
pub struct CombatResolver;

impl CombatResolver {
    /// A combat resolver.
    pub fn new() -> (r: CombatResolver) {
        CombatResolver
    }

    /// The output kinds this resolver handles: modifiers only.
    pub fn handles(&self) -> (r: Vec<OutputKind>)
        ensures
            r@ == seq![OutputKind::Modifier],
    {
        let r = vec![OutputKind::Modifier];
        assert(r@ =~= seq![OutputKind::Modifier]);
        r
    }
}

impl Default for CombatResolver {
    fn default() -> (r: CombatResolver) {
        CombatResolver
    }
}

} // verus!
