//! Deferred spawning of entities for a tick-based simulation.
//!
//! Code that wants a new entity does not create it: it queues a
//! [`SpawnRequest`] in the [`Spawner`]. Once per tick, in the phase that has
//! the component tables to itself, [`SpawnerSystem::run`] drains the queue
//! into the [`Store`]: it creates one entity for each request, gives it its
//! components, and publishes an [`EntitySpawnEvent`] for it.
//!
//! The queue, the tables and the event channel are those of `crossbeam`,
//! `specs` and `shrev`. What this crate assumes of them is written down in
//! the modules `queue`, `world` and `channel`, and nowhere else; everything
//! in the other modules is proved from that.

pub mod channel;
pub mod entity;
pub mod geometry;
pub mod guarantees;
pub mod item;
pub mod queue;
pub mod request;
pub mod spawner;
pub mod store;
pub mod system;
pub mod world;

pub use crate::entity::{
    EntitySpawnEvent, EntityType, ItemMarker, ItemMetadata, Metadata, PositionComponent,
    VelocityComponent,
};
pub use crate::geometry::{Position, Vec3};
pub use crate::item::{Item, ItemStack};
pub use crate::request::{Extra, SpawnRequest};
pub use crate::spawner::Spawner;
pub use crate::store::{max_entities, Store, StoreView};
pub use crate::system::SpawnerSystem;
pub use crate::world::Components;
