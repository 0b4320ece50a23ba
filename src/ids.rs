//! Identifiers and tags shared by the entity engine: entity ids, entity
//! tags, plugin ids and instances, trace and event ids, output and
//! component kinds.
use vstd::prelude::*;
use vstd::string::StringExecFns;
use crate::text::{decimal, prefixed_decimal, u64_decimal};

verus! {

/// Unique identifier of an entity; ordered by its numeric value.
#[derive(Clone, Copy, PartialEq, Eq, PartialOrd, Ord, Hash, Debug, Structural)]
pub struct EntityId(pub u64);

impl EntityId {
    /// The id with raw value `id`.
    pub fn new(id: u64) -> (r: EntityId)
        ensures
            r.0 == id,
    {
        EntityId(id)
    }

    /// The raw value of this id.
    pub fn as_u64(self) -> (r: u64)
        ensures
            r == self.0,
    {
        self.0
    }

    /// The id written as its decimal value.
    pub fn to_string(&self) -> (r: String)
        ensures
            r@ == decimal(self.0 as nat),
    {
        u64_decimal(self.0)
    }
}

impl From<u64> for EntityId {
    fn from(id: u64) -> (r: EntityId) {
        EntityId(id)
    }
}

impl vstd::std_specs::convert::FromSpecImpl<u64> for EntityId {
    open spec fn obeys_from_spec() -> bool {
        true
    }

    open spec fn from_spec(v: u64) -> EntityId {
        EntityId(v)
    }
}

impl From<EntityId> for u64 {
    fn from(id: EntityId) -> (r: u64) {
        id.0
    }
}

impl vstd::std_specs::convert::FromSpecImpl<EntityId> for u64 {
    open spec fn obeys_from_spec() -> bool {
        true
    }

    open spec fn from_spec(v: EntityId) -> u64 {
        v.0
    }
}

/// The kind of an entity; selects the plugin bundle that runs on it.
#[derive(Clone, Copy, PartialEq, Eq, Hash, Debug, Structural)]
pub enum EntityTag {
    Ship,
    Platform,
    Projectile,
    Squadron,
}

/// The name of a tag.
pub open spec fn tag_name(t: EntityTag) -> Seq<char> {
    match t {
        EntityTag::Ship => "Ship"@,
        EntityTag::Platform => "Platform"@,
        EntityTag::Projectile => "Projectile"@,
        EntityTag::Squadron => "Squadron"@,
    }
}

impl EntityTag {
    /// The name of this tag.
    pub fn to_string(&self) -> (r: String)
        ensures
            r@ == tag_name(*self),
    {
        match self {
            EntityTag::Ship => String::from_str("Ship"),
            EntityTag::Platform => String::from_str("Platform"),
            EntityTag::Projectile => String::from_str("Projectile"),
            EntityTag::Squadron => String::from_str("Squadron"),
        }
    }
}

/// Identifier of a plugin type, by its registered name.
#[derive(Clone, Hash, Debug)]
pub struct PluginId(String);

impl View for PluginId {
    type V = Seq<char>;

    closed spec fn view(&self) -> Seq<char> {
        self.0@
    }
}

impl PluginId {
    /// The plugin id named `id`.
    pub fn new(id: &str) -> (r: PluginId)
        ensures
            r@ == id@,
    {
        PluginId(String::from_str(id))
    }

    /// The plugin id named by a string that lives for the whole program.
    pub fn from_static(id: &'static str) -> (r: PluginId)
        ensures
            r@ == id@,
    {
        PluginId(String::from_str(id))
    }

    /// The plugin id that owns `id`.
    pub fn from_string(id: String) -> (r: PluginId)
        ensures
            r@ == id@,
    {
        PluginId(id)
    }

    /// The name of this plugin id.
    pub fn as_str(&self) -> (r: &str)
        ensures
            r@ == self@,
    {
        self.0.as_str()
    }

    /// The name of this plugin id, as an owned string.
    pub fn to_string(&self) -> (r: String)
        ensures
            r@ == self@,
    {
        self.0.clone()
    }
}

impl PartialEq for PluginId {
    fn eq(&self, o: &PluginId) -> (r: bool) {
        self.0 == o.0
    }
}

impl vstd::std_specs::cmp::PartialEqSpecImpl for PluginId {
    open spec fn obeys_eq_spec() -> bool {
        true
    }

    open spec fn eq_spec(&self, o: &PluginId) -> bool {
        self@ == o@
    }
}

impl Eq for PluginId {}

impl<'a> From<&'a str> for PluginId {
    fn from(s: &'a str) -> (r: PluginId) {
        PluginId(String::from_str(s))
    }
}

impl<'a> vstd::std_specs::convert::FromSpecImpl<&'a str> for PluginId {
    open spec fn obeys_from_spec() -> bool {
        false
    }

    closed spec fn from_spec(s: &'a str) -> PluginId {
        choose|p: PluginId| p@ == s@
    }
}

/// A plugin instance: one plugin type running on one entity.
#[derive(Clone, Hash, Debug)]
pub struct PluginInstanceId {
    entity_id: EntityId,
    plugin_id: PluginId,
}

impl View for PluginInstanceId {
    type V = (EntityId, Seq<char>);

    closed spec fn view(&self) -> (EntityId, Seq<char>) {
        (self.entity_id, self.plugin_id@)
    }
}

impl PluginInstanceId {
    /// The instance of plugin `plugin_id` on entity `entity_id`.
    pub fn new(entity_id: EntityId, plugin_id: PluginId) -> (r: PluginInstanceId)
        ensures
            r@ == (entity_id, plugin_id@),
    {
        PluginInstanceId { entity_id, plugin_id }
    }

    /// The entity of this instance.
    pub fn entity_id(&self) -> (r: EntityId)
        ensures
            r == self@.0,
    {
        self.entity_id
    }

    /// The plugin of this instance.
    pub fn plugin_id(&self) -> (r: &PluginId)
        ensures
            r@ == self@.1,
    {
        &self.plugin_id
    }

    /// The instance written as `plugin@entity`.
    pub fn to_string(&self) -> (r: String)
        ensures
            r@ == self@.1 + "@"@ + decimal(self@.0.0 as nat),
    {
        let head = self.plugin_id.to_string();
        let with_at = head.concat("@");
        let digits = u64_decimal(self.entity_id.0);
        with_at.concat(digits.as_str())
    }
}

impl PartialEq for PluginInstanceId {
    fn eq(&self, o: &PluginInstanceId) -> (r: bool) {
        self.entity_id.0 == o.entity_id.0 && self.plugin_id == o.plugin_id
    }
}

impl vstd::std_specs::cmp::PartialEqSpecImpl for PluginInstanceId {
    open spec fn obeys_eq_spec() -> bool {
        true
    }

    open spec fn eq_spec(&self, o: &PluginInstanceId) -> bool {
        self@ == o@
    }
}

impl Eq for PluginInstanceId {}

/// Identifier that groups related outputs for tracing.
#[derive(Clone, Copy, PartialEq, Eq, Hash, Debug, Structural)]
pub struct TraceId(pub u64);

impl TraceId {
    /// The trace id with raw value `id`.
    pub fn new(id: u64) -> (r: TraceId)
        ensures
            r.0 == id,
    {
        TraceId(id)
    }

    /// The raw value of this trace id.
    pub fn as_u64(&self) -> (r: u64)
        ensures
            r == self.0,
    {
        self.0
    }

    /// The trace id written as `trace:<value>`.
    pub fn to_string(&self) -> (r: String)
        ensures
            r@ == "trace:"@ + decimal(self.0 as nat),
    {
        prefixed_decimal("trace:", self.0)
    }
}

impl From<u64> for TraceId {
    fn from(id: u64) -> (r: TraceId) {
        TraceId(id)
    }
}

impl vstd::std_specs::convert::FromSpecImpl<u64> for TraceId {
    open spec fn obeys_from_spec() -> bool {
        true
    }

    open spec fn from_spec(v: u64) -> TraceId {
        TraceId(v)
    }
}

impl From<TraceId> for u64 {
    fn from(id: TraceId) -> (r: u64) {
        id.0
    }
}

impl vstd::std_specs::convert::FromSpecImpl<TraceId> for u64 {
    open spec fn obeys_from_spec() -> bool {
        true
    }

    open spec fn from_spec(v: TraceId) -> u64 {
        v.0
    }
}

/// Identifier of an event output, for causal chains.
#[derive(Clone, Copy, PartialEq, Eq, Hash, Debug, Structural)]
pub struct EventId(pub u64);

impl EventId {
    /// The event id with raw value `id`.
    pub fn new(id: u64) -> (r: EventId)
        ensures
            r.0 == id,
    {
        EventId(id)
    }

    /// The raw value of this event id.
    pub fn as_u64(&self) -> (r: u64)
        ensures
            r == self.0,
    {
        self.0
    }

    /// The event id written as `event:<value>`.
    pub fn to_string(&self) -> (r: String)
        ensures
            r@ == "event:"@ + decimal(self.0 as nat),
    {
        prefixed_decimal("event:", self.0)
    }
}

impl From<u64> for EventId {
    fn from(id: u64) -> (r: EventId) {
        EventId(id)
    }
}

impl vstd::std_specs::convert::FromSpecImpl<u64> for EventId {
    open spec fn obeys_from_spec() -> bool {
        true
    }

    open spec fn from_spec(v: u64) -> EventId {
        EventId(v)
    }
}

impl From<EventId> for u64 {
    fn from(id: EventId) -> (r: u64) {
        id.0
    }
}

impl vstd::std_specs::convert::FromSpecImpl<EventId> for u64 {
    open spec fn obeys_from_spec() -> bool {
        true
    }

    open spec fn from_spec(v: EventId) -> u64 {
        v.0
    }
}

/// The category of an output, used to route it to resolvers.
#[derive(Clone, Copy, PartialEq, Eq, Hash, Debug, Structural)]
pub enum OutputKind {
    Command,
    Modifier,
    Event,
}

/// The name of an output kind.
pub open spec fn output_kind_name(k: OutputKind) -> Seq<char> {
    match k {
        OutputKind::Command => "Command"@,
        OutputKind::Modifier => "Modifier"@,
        OutputKind::Event => "Event"@,
    }
}

impl OutputKind {
    /// The name of this output kind.
    pub fn to_string(&self) -> (r: String)
        ensures
            r@ == output_kind_name(*self),
    {
        match self {
            OutputKind::Command => String::from_str("Command"),
            OutputKind::Modifier => String::from_str("Modifier"),
            OutputKind::Event => String::from_str("Event"),
        }
    }
}

/// A component type that a plugin may declare it reads.
#[derive(Clone, Copy, PartialEq, Eq, Hash, Debug, Structural)]
pub enum ComponentKind {
    Transform,
    Physics,
    Combat,
    Sensor,
    Inventory,
}

/// The name of a component kind.
pub open spec fn component_kind_name(k: ComponentKind) -> Seq<char> {
    match k {
        ComponentKind::Transform => "Transform"@,
        ComponentKind::Physics => "Physics"@,
        ComponentKind::Combat => "Combat"@,
        ComponentKind::Sensor => "Sensor"@,
        ComponentKind::Inventory => "Inventory"@,
    }
}

impl ComponentKind {
    /// The name of this component kind.
    pub fn to_string(&self) -> (r: String)
        ensures
            r@ == component_kind_name(*self),
    {
        match self {
            ComponentKind::Transform => String::from_str("Transform"),
            ComponentKind::Physics => String::from_str("Physics"),
            ComponentKind::Combat => String::from_str("Combat"),
            ComponentKind::Sensor => String::from_str("Sensor"),
            ComponentKind::Inventory => String::from_str("Inventory"),
        }
    }
}

} // verus!
