//! The component tables and the entity allocator.
//!
//! Both are those of `specs`, kept in a `specs::World`. Nothing in this file
//! is proved: each function below makes one call into `specs` and states
//! what the call does, as the source of `specs` shows it. All of them take
//! the world by `&mut`, so no table is borrowed while they run.

use vstd::prelude::*;
use specs::{Entity, World, WorldExt};
use crate::entity::{EntityType, ItemMarker, Metadata, PositionComponent, VelocityComponent};

verus! {

/// `specs::World`, of which the verifier sees nothing but what the functions
/// below state.
#[verifier::external_type_specification]
#[verifier::external_body]
pub struct ExWorld(World);

/// `specs::Entity`, the identity of an entity. The verifier can tell two
/// entities apart and nothing more.
#[verifier::external_type_specification]
#[verifier::external_body]
pub struct ExEntity(Entity);

/// `specs::error::Error`, with which a table refuses an insertion.
#[verifier::external_type_specification]
#[verifier::external_body]
pub struct ExError(specs::error::Error);

/// `specs::VecStorage`, the table of a component that most entities have.
#[verifier::external_type_specification]
#[verifier::external_body]
#[verifier::reject_recursive_types(T)]
pub struct ExVecStorage<T>(specs::VecStorage<T>);

/// `specs::NullStorage`, the table of a component without data.
#[verifier::external_type_specification]
#[verifier::external_body]
#[verifier::reject_recursive_types(T)]
pub struct ExNullStorage<T>(specs::NullStorage<T>);

// The tables: a vector for each component that every spawned entity has, and
// the table without data for the marker.

impl specs::Component for PositionComponent {
    type Storage = specs::VecStorage<Self>;
}

impl specs::Component for VelocityComponent {
    type Storage = specs::VecStorage<Self>;
}

impl specs::Component for Metadata {
    type Storage = specs::VecStorage<Self>;
}

impl specs::Component for EntityType {
    type Storage = specs::VecStorage<Self>;
}

impl specs::Component for ItemMarker {
    type Storage = specs::NullStorage<Self>;
}

/// What a world must hold before it can be worked on: the entity allocator,
/// and one table for each type of component.
pub enum Part {
    /// The entity allocator, `EntitiesRes`.
    Entities,
    /// The table of `PositionComponent`.
    Positions,
    /// The table of `VelocityComponent`.
    Velocities,
    /// The table of `Metadata`.
    Metadata,
    /// The table of `EntityType`.
    Kinds,
    /// The table of `ItemMarker`.
    ItemMarkers,
}

/// What the five tables hold for one entity: for each table the component
/// that the entity has there, if it has one.
pub struct Components {
    /// Where the entity is and was.
    pub position: Option<PositionComponent>,
    /// How it moves.
    pub velocity: Option<VelocityComponent>,
    /// What clients are told of it.
    pub metadata: Option<Metadata>,
    /// Its kind.
    pub kind: Option<EntityType>,
    /// The marker of item entities.
    pub item_marker: Option<ItemMarker>,
}

/// The number of entities that can be created in a new world. `specs` marks
/// each entity that `EntitiesRes::create` hands out in a bit set of fixed
/// size, `hibitset::AtomicBitSet`: a tree of four layers in which every
/// word stands for as many words below it as it has bits. So the set has
/// room for the indices below 64^4 = 2^24 where a word has 64 bits, and
/// below 32^4 = 2^20 where it has 32, and marking a larger one fails.
pub open spec fn entity_limit() -> nat {
    if usize::BITS == 64 {
        0x100_0000
    } else {
        0x10_0000
    }
}

/// The entities of a world in which none lives.
pub open spec fn no_entities() -> Map<Entity, Components> {
    Map::empty()
}

/// The parts that a world holds.
pub uninterp spec fn world_parts(world: World) -> Set<Part>;

/// The entities that live in a world, each with what the tables hold for
/// it. An entity lives from the call that creates it.
pub uninterp spec fn world_components(world: World) -> Map<Entity, Components>;

/// How many entities the allocator of a world can still create for certain:
/// the number of indices that it has not handed out yet.
pub uninterp spec fn world_room(world: World) -> nat;

/// `WorldExt::new`: a world with an entity allocator and nothing else. No
/// entity lives in it, and every index of the allocator is free.
#[verifier::external_body]
pub(crate) fn world_new() -> (world: World)
    ensures
        world_parts(world) == Set::<Part>::empty().insert(Part::Entities),
        world_components(world) == no_entities(),
        world_room(world) == entity_limit(),
{
    WorldExt::new()
}

/// `WorldExt::register` for `PositionComponent`: the world gets the table,
/// unless it has it already. Entities and their components stay.
#[verifier::external_body]
pub(crate) fn world_register_positions(world: &mut World)
    ensures
        world_parts(*final(world)) == world_parts(*old(world)).insert(Part::Positions),
        world_components(*final(world)) == world_components(*old(world)),
        world_room(*final(world)) == world_room(*old(world)),
{
    world.register::<PositionComponent>()
}

/// `WorldExt::register` for `VelocityComponent`: the world gets the table,
/// unless it has it already. Entities and their components stay.
#[verifier::external_body]
pub(crate) fn world_register_velocities(world: &mut World)
    ensures
        world_parts(*final(world)) == world_parts(*old(world)).insert(Part::Velocities),
        world_components(*final(world)) == world_components(*old(world)),
        world_room(*final(world)) == world_room(*old(world)),
{
    world.register::<VelocityComponent>()
}

/// `WorldExt::register` for `Metadata`: the world gets the table, unless it
/// has it already. Entities and their components stay.
#[verifier::external_body]
pub(crate) fn world_register_metadata(world: &mut World)
    ensures
        world_parts(*final(world)) == world_parts(*old(world)).insert(Part::Metadata),
        world_components(*final(world)) == world_components(*old(world)),
        world_room(*final(world)) == world_room(*old(world)),
{
    world.register::<Metadata>()
}

/// `WorldExt::register` for `EntityType`: the world gets the table, unless
/// it has it already. Entities and their components stay.
#[verifier::external_body]
pub(crate) fn world_register_kinds(world: &mut World)
    ensures
        world_parts(*final(world)) == world_parts(*old(world)).insert(Part::Kinds),
        world_components(*final(world)) == world_components(*old(world)),
        world_room(*final(world)) == world_room(*old(world)),
{
    world.register::<EntityType>()
}

/// `WorldExt::register` for `ItemMarker`: the world gets the table, unless
/// it has it already. Entities and their components stay.
#[verifier::external_body]
pub(crate) fn world_register_item_markers(world: &mut World)
    ensures
        world_parts(*final(world)) == world_parts(*old(world)).insert(Part::ItemMarkers),
        world_components(*final(world)) == world_components(*old(world)),
        world_room(*final(world)) == world_room(*old(world)),
{
    world.register::<ItemMarker>()
}

/// `EntitiesRes::create`, on the allocator that `WorldExt::entities`
/// fetches: a new entity, which lives from now on and is none of those that
/// lived before. The others keep their components. The call takes one
/// index at most; it fails when none is left, and `WorldExt::entities`
/// fails on a world without allocator.
#[verifier::external_body]
pub(crate) fn world_create(world: &mut World) -> (entity: Entity)
    requires
        world_parts(*old(world)).contains(Part::Entities),
        world_room(*old(world)) > 0,
    ensures
        !world_components(*old(world)).dom().contains(entity),
        world_components(*final(world)).dom().contains(entity),
        world_components(*final(world)).remove(entity) == world_components(*old(world)),
        world_parts(*final(world)) == world_parts(*old(world)),
        world_room(*final(world)) >= world_room(*old(world)) - 1,
{
    world.entities().create()
}

/// `Storage::insert`, on the table that `WorldExt::write_storage` fetches
/// for `PositionComponent`: the entity has the component from now on, in
/// place of the one it had, which is returned. The insertion is refused
/// only for an entity that does not live, and the fetch fails only on a
/// world without the table or without allocator.
#[verifier::external_body]
pub(crate) fn world_insert_position(
    world: &mut World,
    entity: Entity,
    component: PositionComponent,
) -> (previous: Result<Option<PositionComponent>, specs::error::Error>)
    requires
        world_parts(*old(world)).contains(Part::Entities),
        world_parts(*old(world)).contains(Part::Positions),
        world_components(*old(world)).dom().contains(entity),
    ensures
        previous is Ok,
        previous->Ok_0 == world_components(*old(world))[entity].position,
        world_components(*final(world)) == world_components(*old(world)).insert(
            entity,
            (Components { position: Some(component), ..world_components(*old(world))[entity] }),
        ),
        world_parts(*final(world)) == world_parts(*old(world)),
        world_room(*final(world)) == world_room(*old(world)),
{
    world.write_storage::<PositionComponent>().insert(entity, component)
}

/// `Storage::insert`, on the table that `WorldExt::write_storage` fetches
/// for `VelocityComponent`: the entity has the component from now on, in
/// place of the one it had, which is returned. The insertion is refused
/// only for an entity that does not live, and the fetch fails only on a
/// world without the table or without allocator.
#[verifier::external_body]
pub(crate) fn world_insert_velocity(
    world: &mut World,
    entity: Entity,
    component: VelocityComponent,
) -> (previous: Result<Option<VelocityComponent>, specs::error::Error>)
    requires
        world_parts(*old(world)).contains(Part::Entities),
        world_parts(*old(world)).contains(Part::Velocities),
        world_components(*old(world)).dom().contains(entity),
    ensures
        previous is Ok,
        previous->Ok_0 == world_components(*old(world))[entity].velocity,
        world_components(*final(world)) == world_components(*old(world)).insert(
            entity,
            (Components { velocity: Some(component), ..world_components(*old(world))[entity] }),
        ),
        world_parts(*final(world)) == world_parts(*old(world)),
        world_room(*final(world)) == world_room(*old(world)),
{
    world.write_storage::<VelocityComponent>().insert(entity, component)
}

/// `Storage::insert`, on the table that `WorldExt::write_storage` fetches
/// for `Metadata`: the entity has the component from now on, in place of
/// the one it had, which is returned. The insertion is refused only for an
/// entity that does not live, and the fetch fails only on a world without
/// the table or without allocator.
#[verifier::external_body]
pub(crate) fn world_insert_metadata(world: &mut World, entity: Entity, component: Metadata) -> (previous:
    Result<Option<Metadata>, specs::error::Error>)
    requires
        world_parts(*old(world)).contains(Part::Entities),
        world_parts(*old(world)).contains(Part::Metadata),
        world_components(*old(world)).dom().contains(entity),
    ensures
        previous is Ok,
        previous->Ok_0 == world_components(*old(world))[entity].metadata,
        world_components(*final(world)) == world_components(*old(world)).insert(
            entity,
            (Components { metadata: Some(component), ..world_components(*old(world))[entity] }),
        ),
        world_parts(*final(world)) == world_parts(*old(world)),
        world_room(*final(world)) == world_room(*old(world)),
{
    world.write_storage::<Metadata>().insert(entity, component)
}

/// `Storage::insert`, on the table that `WorldExt::write_storage` fetches
/// for `EntityType`: the entity has the component from now on, in place of
/// the one it had, which is returned. The insertion is refused only for an
/// entity that does not live, and the fetch fails only on a world without
/// the table or without allocator.
#[verifier::external_body]
pub(crate) fn world_insert_kind(world: &mut World, entity: Entity, component: EntityType) -> (previous:
    Result<Option<EntityType>, specs::error::Error>)
    requires
        world_parts(*old(world)).contains(Part::Entities),
        world_parts(*old(world)).contains(Part::Kinds),
        world_components(*old(world)).dom().contains(entity),
    ensures
        previous is Ok,
        previous->Ok_0 == world_components(*old(world))[entity].kind,
        world_components(*final(world)) == world_components(*old(world)).insert(
            entity,
            (Components { kind: Some(component), ..world_components(*old(world))[entity] }),
        ),
        world_parts(*final(world)) == world_parts(*old(world)),
        world_room(*final(world)) == world_room(*old(world)),
{
    world.write_storage::<EntityType>().insert(entity, component)
}

/// `Storage::insert`, on the table that `WorldExt::write_storage` fetches
/// for `ItemMarker`: the entity has the marker from now on, in place of the
/// one it had, which is returned. The insertion is refused only for an
/// entity that does not live, and the fetch fails only on a world without
/// the table or without allocator.
#[verifier::external_body]
pub(crate) fn world_insert_item_marker(world: &mut World, entity: Entity, component: ItemMarker) -> (previous:
    Result<Option<ItemMarker>, specs::error::Error>)
    requires
        world_parts(*old(world)).contains(Part::Entities),
        world_parts(*old(world)).contains(Part::ItemMarkers),
        world_components(*old(world)).dom().contains(entity),
    ensures
        previous is Ok,
        previous->Ok_0 == world_components(*old(world))[entity].item_marker,
        world_components(*final(world)) == world_components(*old(world)).insert(
            entity,
            (Components { item_marker: Some(component), ..world_components(*old(world))[entity] }),
        ),
        world_parts(*final(world)) == world_parts(*old(world)),
        world_room(*final(world)) == world_room(*old(world)),
{
    world.write_storage::<ItemMarker>().insert(entity, component)
}

} // verus!
