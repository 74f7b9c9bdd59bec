//! Entities: their kinds and the components a spawned entity is given.

use vstd::prelude::*;
use specs::Entity;
use crate::geometry::{Position, Vec3};
use crate::item::ItemStack;

verus! {

/// The category an entity belongs to.
#[derive(Clone, Copy, Debug, PartialEq, Eq, Hash, Structural)]
pub enum EntityType {
    /// A player. Players are not spawned through the queue.
    Player,
    /// An item lying in the world.
    Item,
}

impl EntityType {
    /// Entities of this kind are tagged with a marker component of their
    /// own. Only item entities are so far.
    pub open spec fn spec_has_marker(&self) -> bool {
        *self == EntityType::Item
    }

    /// Tells whether entities of this kind have a marker component.
    #[verifier::when_used_as_spec(spec_has_marker)]
    pub fn has_marker(&self) -> (answer: bool)
        ensures
            answer == self.spec_has_marker(),
    {
        match self {
            EntityType::Item => true,
            EntityType::Player => false,
        }
    }
}

/// Where an entity is, and where it was one tick earlier.
#[derive(Clone, Copy, Debug, PartialEq, Eq, Structural)]
pub struct PositionComponent {
    /// Where the entity is.
    pub current: Position,
    /// Where it was one tick earlier.
    pub previous: Position,
}

impl PositionComponent {
    /// The position component of an entity that has just appeared at
    /// `position`: it has not moved yet, so both fields hold `position`.
    pub open spec fn spec_at_rest(position: Position) -> Self {
        PositionComponent { current: position, previous: position }
    }

    /// Builds the position component of an entity that has just appeared
    /// at `position`. Nothing downstream sees it move on its first tick.
    #[verifier::when_used_as_spec(spec_at_rest)]
    pub fn at_rest(position: Position) -> (component: Self)
        ensures
            component == Self::spec_at_rest(position),
    {
        PositionComponent { current: position, previous: position }
    }
}

/// How fast an entity moves, and in which direction.
#[derive(Clone, Copy, Debug, PartialEq, Eq, Structural)]
pub struct VelocityComponent(pub Vec3);

/// Marks an entity as an item lying in the world. It carries no data.
#[derive(Clone, Copy, Debug, PartialEq, Eq, Structural)]
pub struct ItemMarker;

impl Default for ItemMarker {
    fn default() -> (marker: Self)
        ensures
            marker == ItemMarker,
    {
        ItemMarker
    }
}

/// What clients are told of an item entity.
#[derive(Clone, Copy, Debug, PartialEq, Eq, Structural)]
pub struct ItemMetadata {
    /// The stack that the entity shows, if it shows one.
    pub item: Option<ItemStack>,
}

impl ItemMetadata {
    /// Replaces the stack that the entity shows.
    pub fn set_item(&mut self, item: Option<ItemStack>)
        ensures
            *final(self) == (ItemMetadata { item }),
    {
        self.item = item;
    }
}

impl Default for ItemMetadata {
    /// Metadata that shows no stack.
    fn default() -> (metadata: Self)
        ensures
            metadata == (ItemMetadata { item: None }),
    {
        ItemMetadata { item: None }
    }
}

/// What clients are told of an entity; one variant for each kind of entity
/// that has metadata of its own.
#[derive(Clone, Copy, Debug, PartialEq, Eq, Structural)]
pub enum Metadata {
    /// The metadata of an item entity.
    Item(ItemMetadata),
}

impl Metadata {
    /// The kind of entity that this metadata describes.
    pub open spec fn spec_kind(&self) -> EntityType {
        match self {
            Metadata::Item(_) => EntityType::Item,
        }
    }

    /// The kind of entity that this metadata describes.
    #[verifier::when_used_as_spec(spec_kind)]
    pub fn kind(&self) -> (kind: EntityType)
        ensures
            kind == self.spec_kind(),
    {
        match self {
            Metadata::Item(_) => EntityType::Item,
        }
    }
}

/// Tells the rest of the simulation that an entity has been spawned.
#[derive(Clone, Copy, Debug, PartialEq, Eq)]
pub struct EntitySpawnEvent {
    /// The entity that was created.
    pub entity: Entity,
    /// Its kind.
    pub ty: EntityType,
}

} // verus!
