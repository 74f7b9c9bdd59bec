//! Spawn requests: everything needed to create one entity later.

use vstd::prelude::*;
use crate::entity::{EntityType, ItemMetadata, Metadata};
use crate::geometry::{Position, Vec3};
use crate::item::ItemStack;

verus! {

/// Data of a request that belongs to one kind of entity and is not part of
/// its metadata.
#[derive(Clone, Copy, Debug, PartialEq, Eq, Structural)]
pub enum Extra {
    /// The stack that an item entity carries.
    Item(ItemStack),
}

impl Extra {
    /// The kind of entity that this data belongs to.
    pub open spec fn spec_kind(&self) -> EntityType {
        match self {
            Extra::Item(_) => EntityType::Item,
        }
    }

    /// The kind of entity that this data belongs to.
    #[verifier::when_used_as_spec(spec_kind)]
    pub fn kind(&self) -> (kind: EntityType)
        ensures
            kind == self.spec_kind(),
    {
        match self {
            Extra::Item(_) => EntityType::Item,
        }
    }
}

/// A request to create one entity.
#[derive(Clone, Copy, Debug, PartialEq, Eq, Structural)]
pub struct SpawnRequest {
    /// The kind of entity to create.
    pub ty: EntityType,
    /// Where the entity appears.
    pub position: Position,
    /// How the entity moves when it appears.
    pub velocity: Vec3,
    /// What clients are told of the entity.
    pub meta: Metadata,
    /// What else its kind needs.
    pub extra: Extra,
}

impl SpawnRequest {
    /// The request for an item entity that carries `item`.
    pub open spec fn spec_item(position: Position, velocity: Vec3, item: ItemStack) -> Self {
        SpawnRequest {
            ty: EntityType::Item,
            position,
            velocity,
            meta: Metadata::Item(ItemMetadata { item: Some(item) }),
            extra: Extra::Item(item),
        }
    }

    /// Builds the request for an item entity that carries `item`: its
    /// metadata shows the stack, and the stack is its extra data.
    pub fn item(position: Position, velocity: Vec3, item: ItemStack) -> (request: Self)
        ensures
            request == Self::spec_item(position, velocity, item),
            request.spawnable(),
    {
        let mut meta_item = ItemMetadata::default();
        meta_item.set_item(Some(item));
        SpawnRequest {
            ty: EntityType::Item,
            position,
            velocity,
            meta: Metadata::Item(meta_item),
            extra: Extra::Item(item),
        }
    }

    /// The three tags of the request agree: its metadata and its extra data
    /// are those of its kind.
    pub open spec fn consistent(&self) -> bool {
        self.meta.spec_kind() == self.ty && self.extra.spec_kind() == self.ty
    }

    /// The request can be turned into an entity: its tags agree and its kind
    /// is one that has a marker component.
    pub open spec fn spawnable(&self) -> bool {
        self.consistent() && self.ty.spec_has_marker()
    }

    /// Tells whether the request can be turned into an entity.
    pub fn is_spawnable(&self) -> (answer: bool)
        ensures
            answer == self.spawnable(),
    {
        self.meta.kind() == self.ty && self.extra.kind() == self.ty && self.ty.has_marker()
    }
}

} // verus!
