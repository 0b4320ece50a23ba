//! Deterministic tactical simulation substrate: the discrete core of the
//! sparse field store and of the entity/plugin/resolver engine.
//!
//! Everything here is verified: identifiers and tags, plugin declarations,
//! the scheduler's output ordering, arena id bookkeeping, material
//! statistics, field and direction enumerations, and the stable mixing
//! hash used for trace ids, with the walk that hashes a field store's
//! octree image.
pub mod text;
pub mod ids;
pub mod components;
pub mod plugin;
pub mod ordering;
pub mod arena;
pub mod statehash;
pub mod field;
pub mod schedule;
pub mod nodehash;
